//! The network environment: resolves chain-specific endpoints and contract addresses
//! from the configuration.

use vstd::prelude::*;
use crate::config::{chain_entry, configures, ChainInfo, CrossChainConfig};
use crate::error::{EilError, Result};
use crate::primitives::Address;
use crate::types::ChainId;

verus! {

/// Whether entry `i` is the last of `infos` that configures `chain_id`.
pub open spec fn last_info(infos: Seq<ChainInfo>, chain_id: ChainId, i: int) -> bool {
    &&& 0 <= i < infos.len()
    &&& infos[i].chain_id == chain_id
    &&& forall|k: int| i < k < infos.len() ==> (#[trigger] infos[k]).chain_id != chain_id
}

/// The chain ids of `infos`, each once, in the order of first appearance.
pub open spec fn distinct_chain_ids(infos: Seq<ChainInfo>) -> Seq<ChainId>
    decreases infos.len(),
{
    if infos.len() == 0 {
        Seq::empty()
    } else {
        let rest = distinct_chain_ids(infos.drop_last());
        if rest.contains(infos.last().chain_id) {
            rest
        } else {
            rest.push(infos.last().chain_id)
        }
    }
}

/// The endpoints and contract addresses of the configured chains.
#[derive(Clone)]
pub struct NetworkEnvironment {
    /// The configuration the environment was made from.
    config: CrossChainConfig,
}

impl NetworkEnvironment {
    /// The configuration the environment was made from.
    pub closed spec fn spec_config(&self) -> CrossChainConfig {
        self.config
    }

    /// The per-chain entries of the configuration.
    pub open spec fn infos(&self) -> Seq<ChainInfo> {
        self.spec_config()@.chain_infos
    }

    /// Whether `chain_id` is configured.
    pub open spec fn supports(&self, chain_id: ChainId) -> bool {
        configures(self.infos(), chain_id)
    }

    /// The entry point of a chain: that of the first entry configured for it, or
    /// `UnsupportedChain`.
    pub open spec fn entry_point_of(&self, chain_id: ChainId) -> Result<Address> {
        match chain_entry(self.infos(), chain_id) {
            Some(info) => Ok(info.entry_point),
            None => Err(EilError::UnsupportedChain(chain_id)),
        }
    }

    /// The paymaster of a chain: that of the first entry configured for it, or
    /// `UnsupportedChain`.
    pub open spec fn paymaster_of(&self, chain_id: ChainId) -> Result<Address> {
        match chain_entry(self.infos(), chain_id) {
            Some(info) => Ok(info.paymaster),
            None => Err(EilError::UnsupportedChain(chain_id)),
        }
    }

    /// Creates a network environment from a configuration.
    pub fn new(config: &CrossChainConfig) -> (r: Self)
        ensures
            r.spec_config()@ == config@,
    {
        NetworkEnvironment { config: config.duplicate() }
    }

    /// The RPC URL of a chain: that of the last entry configured for it, or
    /// `UnsupportedChain`.
    pub fn rpc_url(&self, chain_id: ChainId) -> (r: Result<&str>)
        ensures
            r is Ok <==> self.supports(chain_id),
            r matches Ok(url) ==> exists|i: int|
                last_info(self.infos(), chain_id, i) && url@ == self.infos()[i].rpc_url@,
            r matches Err(e) ==> e == EilError::UnsupportedChain(chain_id),
    {
        let mut i: usize = self.config.chain_infos.len();
        while i > 0
            invariant
                i <= self.config.chain_infos.len(),
                forall|k: int|
                    i <= k < self.infos().len() ==> (#[trigger] self.infos()[k]).chain_id
                        != chain_id,
            decreases i,
        {
            i = i - 1;
            if self.config.chain_infos[i].chain_id == chain_id {
                assert(last_info(self.infos(), chain_id, i as int));
                return Ok(self.config.chain_infos[i].rpc_url.as_str());
            }
        }
        Err(EilError::UnsupportedChain(chain_id))
    }

    /// Providers are made by whoever performs the calls; for every chain this
    /// succeeds and creates nothing.
    pub fn create_provider(&self, _chain_id: ChainId) -> (r: Result<()>)
        ensures
            r is Ok,
    {
        Ok(())
    }

    /// The configured chain ids, each once, in the order of first appearance.
    pub fn chain_ids(&self) -> (r: Vec<ChainId>)
        ensures
            r@ == distinct_chain_ids(self.infos()),
            r@.no_duplicates(),
            forall|c: ChainId| r@.contains(c) <==> self.supports(c),
    {
        let mut r: Vec<ChainId> = Vec::new();
        let mut i: usize = 0;
        proof {
            assert(self.infos().subrange(0, 0) =~= Seq::<ChainInfo>::empty());
        }
        while i < self.config.chain_infos.len()
            invariant
                i <= self.config.chain_infos.len(),
                r@ == distinct_chain_ids(self.infos().subrange(0, i as int)),
                r@.no_duplicates(),
                forall|c: ChainId|
                    r@.contains(c) <==> configures(self.infos().subrange(0, i as int), c),
            decreases self.config.chain_infos.len() - i,
        {
            let id: ChainId = self.config.chain_infos[i].chain_id;
            let ghost head = self.infos().subrange(0, i as int);
            let ghost next = self.infos().subrange(0, i as int + 1);
            let ghost before = r@;
            proof {
                assert(next.drop_last() =~= head);
                assert(next.last() == self.infos()[i as int]);
            }
            let mut seen: bool = false;
            let mut j: usize = 0;
            while j < r.len()
                invariant
                    j <= r.len(),
                    seen <==> exists|k: int| 0 <= k < j && r@[k] == id,
                decreases r.len() - j,
            {
                if r[j] == id {
                    seen = true;
                }
                j = j + 1;
            }
            assert(seen <==> r@.contains(id));
            if !seen {
                r.push(id);
            }
            i = i + 1;
            proof {
                assert forall|c: ChainId| r@.contains(c) <==> configures(next, c) by {
                    if r@.contains(c) {
                        if before.contains(c) {
                            let k = choose|k: int|
                                0 <= k < head.len() && (#[trigger] head[k]).chain_id == c;
                            assert(next[k].chain_id == c);
                        } else {
                            assert(c == id);
                            assert(next[i as int - 1].chain_id == c);
                        }
                    }
                    if configures(next, c) {
                        let k = choose|k: int|
                            0 <= k < next.len() && (#[trigger] next[k]).chain_id == c;
                        if k < head.len() {
                            assert(head[k].chain_id == c);
                            assert(before.contains(c));
                            let m = choose|m: int| 0 <= m < before.len() && before[m] == c;
                            assert(r@[m] == c);
                        } else {
                            assert(c == id);
                            if seen {
                                let m = choose|m: int| 0 <= m < before.len() && before[m] == c;
                                assert(r@[m] == c);
                            } else {
                                assert(r@[r@.len() - 1] == c);
                            }
                        }
                    }
                }
            }
        }
        assert(self.infos().subrange(0, i as int) =~= self.infos());
        r
    }

    /// The configuration.
    pub fn config(&self) -> (r: &CrossChainConfig)
        ensures
            *r == self.spec_config(),
    {
        &self.config
    }

    /// The entry point address of a chain, or `UnsupportedChain`.
    pub fn entry_point(&self, chain_id: ChainId) -> (r: Result<Address>)
        ensures
            r is Ok <==> self.supports(chain_id),
            r == self.entry_point_of(chain_id),
    {
        match self.config.chain_info(chain_id) {
            Some(info) => Ok(info.entry_point),
            None => Err(EilError::UnsupportedChain(chain_id)),
        }
    }

    /// The paymaster address of a chain, or `UnsupportedChain`.
    pub fn paymaster(&self, chain_id: ChainId) -> (r: Result<Address>)
        ensures
            r is Ok <==> self.supports(chain_id),
            r == self.paymaster_of(chain_id),
    {
        match self.config.chain_info(chain_id) {
            Some(info) => Ok(info.paymaster),
            None => Err(EilError::UnsupportedChain(chain_id)),
        }
    }

    /// A copy of this environment.
    pub fn duplicate(&self) -> (r: NetworkEnvironment)
        ensures
            r.spec_config()@ == self.spec_config()@,
    {
        NetworkEnvironment { config: self.config.duplicate() }
    }
}

} // verus!
