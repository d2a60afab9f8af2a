//! Mock collaborators and ready-made configurations for trying the SDK out.

use vstd::prelude::*;
use vstd::string::StringExecFns;
use std::collections::HashMap;
use std::sync::{Arc, Mutex};
use crate::account::{
    lookup_account_address, signed_in_order, BundlerManager, MultiChainSmartAccount, Signer,
};
use crate::config::{ChainInfo, CrossChainConfig, default_with};
use crate::contract_types::UserOperation;
use crate::error::{EilError, EilErrorView, Result};
use crate::multichain::{deployment, MultichainToken};
use crate::primitives::{Address, U256};
use crate::types::{Call, ChainId, Hex};
use crate::utils::{decimal, u64_to_string};

verus! {

/// A mutual-exclusion lock of the standard library, carried through unopened.
#[verifier::external_type_specification]
#[verifier::external_body]
#[verifier::reject_recursive_types(T)]
pub struct ExMutex<T: ?Sized>(Mutex<T>);

/// `Mutex::new`: a lock that guards `ops`.
#[verifier::external_body]
fn new_lock(ops: Vec<UserOperation>) -> (r: Mutex<Vec<UserOperation>>) {
    Mutex::new(ops)
}

/// `Mutex::lock`, then `Vec::push` on what the lock guards, poisoned or not.
#[verifier::external_body]
fn record(ops: &Arc<Mutex<Vec<UserOperation>>>, op: UserOperation) {
    match ops.lock() {
        Ok(mut guard) => guard.push(op),
        Err(poisoned) => poisoned.into_inner().push(op),
    }
}

/// `Mutex::lock`, then `Clone::clone` of what the lock guards, poisoned or not.
#[verifier::external_body]
fn recorded(ops: &Arc<Mutex<Vec<UserOperation>>>) -> (r: Vec<UserOperation>) {
    match ops.lock() {
        Ok(guard) => guard.clone(),
        Err(poisoned) => poisoned.into_inner().clone(),
    }
}

/// `n` times the byte `b`.
pub fn repeat_byte(b: u8, n: usize) -> (r: Vec<u8>)
    ensures
        r@ == Seq::new(n as nat, |i: int| b),
{
    let mut r: Vec<u8> = Vec::new();
    let mut i: usize = 0;
    while i < n
        invariant
            i <= n,
            r@ == Seq::new(i as nat, |k: int| b),
        decreases n - i,
    {
        r.push(b);
        i = i + 1;
        assert(r@ =~= Seq::new(i as nat, |k: int| b));
    }
    r
}

/// The address of the mock signer: twenty bytes `0x11`.
pub open spec fn mock_signer_address() -> Address {
    Address { hi: 0x1111_1111, lo: 0x1111_1111_1111_1111_1111_1111_1111_1111 }
}

/// The address of the mock account on every chain it has: twenty bytes `0x22`.
pub open spec fn mock_account_address() -> Address {
    Address { hi: 0x2222_2222, lo: 0x2222_2222_2222_2222_2222_2222_2222_2222 }
}

/// The entry point of the test configurations.
pub open spec fn test_entry_point() -> Address {
    Address { hi: 0, lo: 0x7172_7De2_2E5E_9d8B_Af0e_dAc6_f37d_a032 }
}

/// Mock signer: signs everything with 65 zero bytes.
pub struct MockSigner {
    pub address: Address,
}

impl MockSigner {
    pub fn new() -> (r: Self)
        ensures
            r.address == mock_signer_address(),
    {
        MockSigner {
            address: Address { hi: 0x1111_1111, lo: 0x1111_1111_1111_1111_1111_1111_1111_1111 },
        }
    }
}

impl Signer for MockSigner {
    fn sign(&self, _hash: &Hex) -> (r: Result<Hex>)
        ensures
            r matches Ok(s) && s@ == Seq::new(65, |i: int| 0u8),
    {
        Ok(repeat_byte(0, 65))
    }

    fn address(&self) -> (r: Address)
        ensures
            r == self.address,
    {
        self.address
    }
}

/// Mock bundler manager: records what it is sent and answers with 32 bytes `0xab`.
pub struct MockBundlerManager {
    pub submitted_ops: Arc<Mutex<Vec<UserOperation>>>,
}

impl MockBundlerManager {
    pub fn new() -> (r: Self) {
        MockBundlerManager { submitted_ops: Arc::new(new_lock(Vec::new())) }
    }

    /// The operations sent so far, in order.
    pub fn get_submitted_ops(&self) -> (r: Vec<UserOperation>) {
        recorded(&self.submitted_ops)
    }
}

impl BundlerManager for MockBundlerManager {
    fn send_user_operation(&self, user_op: &UserOperation, _entry_point: Address) -> (r: Result<Hex>)
        ensures
            r matches Ok(h) && h@ == Seq::new(32, |i: int| 0xabu8),
    {
        record(&self.submitted_ops, user_op.duplicate());
        Ok(repeat_byte(0xab, 32))
    }

    fn verify_entry_point(&self, _chain_id: ChainId, _entry_point: Address) -> (r: Result<()>)
        ensures
            r is Ok,
    {
        Ok(())
    }
}

/// Mock multi-chain smart account: one address on every chain it has, signatures of
/// 65 bytes `0xab`, calldata of 32 zero bytes.
pub struct MockAccount {
    pub addresses: HashMap<ChainId, Address>,
    pub signer: MockSigner,
    pub bundler: MockBundlerManager,
}

impl MockAccount {
    /// The mock account on the chains 1, 10 and 42161.
    pub fn new() -> (r: Self)
        ensures
            r.addresses@.dom() =~= set![1u64, 10u64, 42161u64],
            forall|c: ChainId| r.addresses@.contains_key(c) ==> r.addresses@[c] == mock_account_address(),
    {
        broadcast use vstd::std_specs::hash::group_hash_axioms;

        let address = Address { hi: 0x2222_2222, lo: 0x2222_2222_2222_2222_2222_2222_2222_2222 };
        let mut addresses: HashMap<ChainId, Address> = HashMap::new();
        addresses.insert(1, address);
        addresses.insert(10, address);
        addresses.insert(42161, address);
        MockAccount { addresses, signer: MockSigner::new(), bundler: MockBundlerManager::new() }
    }

    /// The mock account on the given chains.
    pub fn with_chains(chain_ids: Vec<ChainId>) -> (r: Self)
        ensures
            forall|c: ChainId| r.addresses@.contains_key(c) <==> chain_ids@.contains(c),
            forall|c: ChainId| r.addresses@.contains_key(c) ==> r.addresses@[c] == mock_account_address(),
    {
        broadcast use vstd::std_specs::hash::group_hash_axioms;

        let address = Address { hi: 0x2222_2222, lo: 0x2222_2222_2222_2222_2222_2222_2222_2222 };
        let mut addresses: HashMap<ChainId, Address> = HashMap::new();
        let mut i: usize = 0;
        while i < chain_ids.len()
            invariant
                i <= chain_ids.len(),
                address == mock_account_address(),
                forall|c: ChainId|
                    addresses@.contains_key(c) <==> chain_ids@.subrange(0, i as int).contains(c),
                forall|c: ChainId| addresses@.contains_key(c) ==> addresses@[c] == address,
            decreases chain_ids.len() - i,
        {
            let ghost head = chain_ids@.subrange(0, i as int);
            let ghost next = chain_ids@.subrange(0, i as int + 1);
            addresses.insert(chain_ids[i], address);
            proof {
                assert(next =~= head.push(chain_ids@[i as int]));
                assert forall|c: ChainId| addresses@.contains_key(c) <==> next.contains(c) by {
                    if next.contains(c) {
                        let k = choose|k: int| 0 <= k < next.len() && next[k] == c;
                        if k < head.len() {
                            assert(head[k] == c);
                        }
                    }
                    if head.contains(c) {
                        let k = choose|k: int| 0 <= k < head.len() && head[k] == c;
                        assert(next[k] == c);
                    }
                    assert(next[i as int] == chain_ids@[i as int]);
                }
            }
            i = i + 1;
        }
        assert(chain_ids@.subrange(0, i as int) =~= chain_ids@);
        MockAccount { addresses, signer: MockSigner::new(), bundler: MockBundlerManager::new() }
    }
}

impl MultiChainSmartAccount for MockAccount {
    open spec fn account_address(&self, chain_id: ChainId) -> Option<Address> {
        deployment(self.addresses@, chain_id)
    }

    fn address_on(&self, chain_id: ChainId) -> (r: Result<Address>) {
        lookup_account_address(&self.addresses, chain_id)
    }

    /// Gives every operation the signature of 65 bytes `0xab`.
    fn sign_user_ops(&self, user_ops: Vec<UserOperation>) -> (r: Result<Vec<UserOperation>>)
        ensures
            r matches Ok(signed) && signed_in_order(user_ops@, signed@) && forall|i: int|
                0 <= i < signed@.len() ==> (#[trigger] signed@[i]).signature@ == Seq::new(
                    65,
                    |k: int| 0xabu8,
                ),
    {
        let mut ops = user_ops;
        let mut i: usize = 0;
        while i < ops.len()
            invariant
                i <= ops.len(),
                signed_in_order(user_ops@, ops@),
                forall|k: int|
                    0 <= k < i ==> (#[trigger] ops@[k]).signature@ == Seq::new(65, |k: int| 0xabu8),
            decreases ops.len() - i,
        {
            let ghost before = ops@;
            ops[i].signature = repeat_byte(0xab, 65);
            proof {
                assert forall|k: int| 0 <= k < user_ops@.len() implies user_ops@[k]@.same_unsigned(
                    (#[trigger] ops@[k])@,
                ) by {
                    assert(user_ops@[k]@.same_unsigned(before[k]@));
                }
                assert forall|k: int| 0 <= k < i + 1 implies (#[trigger] ops@[k]).signature@ == Seq::new(
                    65,
                    |k: int| 0xabu8,
                ) by {
                    if k < i {
                        assert(ops@[k] == before[k]);
                    }
                }
            }
            i = i + 1;
        }
        Ok(ops)
    }

    /// Answers every list of calls with 32 zero bytes.
    fn encode_calls(&self, _chain_id: ChainId, _calls: Vec<Call>) -> (r: Result<Hex>)
        ensures
            r matches Ok(data) && data@ == Seq::new(32, |i: int| 0u8),
    {
        Ok(repeat_byte(0, 32))
    }

    fn send_user_operation(&self, user_op: UserOperation) -> (r: Result<Hex>)
        ensures
            match user_op.entry_point_address {
                Some(_) => r matches Ok(h) && h@ == Seq::new(32, |i: int| 0xabu8),
                None => r matches Err(e) && e@ == EilErrorView::Generic("No entry point"@),
            },
    {
        match user_op.entry_point_address {
            Some(entry_point) => self.bundler.send_user_operation(&user_op, entry_point),
            None => Err(EilError::Generic("No entry point".to_owned())),
        }
    }

    fn verify_bundler_config(&self, chain_id: ChainId, entry_point: Address) -> (r: Result<()>)
        ensures
            r is Ok,
    {
        self.bundler.verify_entry_point(chain_id, entry_point)
    }

    fn get_nonce(&self, _chain_id: ChainId) -> (r: Result<U256>)
        ensures
            r == Ok::<U256, EilError>(U256::spec_from_u64(0)),
    {
        Ok(U256::from_u64(0))
    }

    fn get_factory_args(&self, _chain_id: ChainId) -> (r: Result<(Option<Address>, Option<Hex>)>)
        ensures
            r matches Ok(args) && args.0 is None && args.1 is None,
    {
        Ok((None, None))
    }
}

/// The RPC URL that a test configuration gives a chain.
pub open spec fn test_rpc_url(chain_id: ChainId) -> Seq<char> {
    "https://test-rpc-"@ + decimal(chain_id as nat) + ".example.com"@
}

/// Whether `info` is the test configuration of `chain_id`.
pub open spec fn test_chain_info(info: ChainInfo, chain_id: ChainId) -> bool {
    &&& info.chain_id == chain_id
    &&& info.rpc_url@ == test_rpc_url(chain_id)
    &&& info.entry_point == test_entry_point()
    &&& info.paymaster == (Address { hi: 0, lo: 1 })
    &&& info.bundler_url is None
}

/// Creates a test configuration with the specified chains, in order, and defaults for
/// the rest.
pub fn create_test_config(chain_ids: Vec<ChainId>) -> (r: CrossChainConfig)
    ensures
        r@ == default_with(r@.chain_infos),
        r@.chain_infos.len() == chain_ids@.len(),
        forall|i: int|
            0 <= i < chain_ids@.len() ==> test_chain_info(#[trigger] r@.chain_infos[i], chain_ids@[i]),
{
    let mut chain_infos: Vec<ChainInfo> = Vec::new();
    let mut i: usize = 0;
    while i < chain_ids.len()
        invariant
            i <= chain_ids.len(),
            chain_infos@.len() == i,
            forall|k: int| 0 <= k < i ==> test_chain_info(#[trigger] chain_infos@[k], chain_ids@[k]),
        decreases chain_ids.len() - i,
    {
        let id: ChainId = chain_ids[i];
        let mut rpc_url = String::from_str("https://test-rpc-");
        let number = u64_to_string(id);
        rpc_url.append(number.as_str());
        rpc_url.append(".example.com");
        chain_infos.push(
            ChainInfo {
                chain_id: id,
                rpc_url,
                entry_point: Address { hi: 0, lo: 0x7172_7De2_2E5E_9d8B_Af0e_dAc6_f37d_a032 },
                paymaster: Address::from_u128(1),
                bundler_url: None,
            },
        );
        i = i + 1;
    }
    CrossChainConfig::new(chain_infos)
}

/// Creates a test token deployed on the specified chains: on the chain at position
/// `i` of the list at the address `i + 1`. Where a chain occurs twice, its last
/// position counts.
pub fn create_test_token(name: &str, chain_ids: Vec<ChainId>) -> (r: MultichainToken)
    ensures
        r.name@ == name@,
        forall|c: ChainId| r.deployments@.contains_key(c) <==> chain_ids@.contains(c),
        forall|i: int|
            0 <= i < chain_ids@.len() && (forall|k: int|
                i < k < chain_ids@.len() ==> chain_ids@[k] != chain_ids@[i])
                ==> #[trigger] r.deployments@[chain_ids@[i]] == (Address { hi: 0, lo: (i + 1) as u128 }),
{
    broadcast use vstd::std_specs::hash::group_hash_axioms;

    let mut deployments: HashMap<ChainId, Address> = HashMap::new();
    let mut i: usize = 0;
    while i < chain_ids.len()
        invariant
            i <= chain_ids.len(),
            forall|c: ChainId|
                deployments@.contains_key(c) <==> chain_ids@.subrange(0, i as int).contains(c),
            forall|j: int|
                0 <= j < i && (forall|k: int| j < k < i ==> chain_ids@[k] != chain_ids@[j])
                    ==> #[trigger] deployments@[chain_ids@[j]] == (Address {
                    hi: 0,
                    lo: (j + 1) as u128,
                }),
        decreases chain_ids.len() - i,
    {
        let ghost head = chain_ids@.subrange(0, i as int);
        let ghost next = chain_ids@.subrange(0, i as int + 1);
        deployments.insert(chain_ids[i], Address::from_u128(i as u128 + 1));
        proof {
            assert(next =~= head.push(chain_ids@[i as int]));
            assert forall|c: ChainId| deployments@.contains_key(c) <==> next.contains(c) by {
                if next.contains(c) {
                    let k = choose|k: int| 0 <= k < next.len() && next[k] == c;
                    if k < head.len() {
                        assert(head[k] == c);
                    }
                }
                if head.contains(c) {
                    let k = choose|k: int| 0 <= k < head.len() && head[k] == c;
                    assert(next[k] == c);
                }
                assert(next[i as int] == chain_ids@[i as int]);
            }
        }
        i = i + 1;
    }
    assert(chain_ids@.subrange(0, i as int) =~= chain_ids@);
    MultichainToken::new(name.to_owned(), deployments)
}

} // verus!
