//! Configuration of a cross-chain session: per-chain endpoints, fee rules, voucher
//! expiry and the policy by which liquidity providers are selected.

use vstd::prelude::*;
use std::sync::Arc;
use crate::contract_types::UserOperation;
use crate::error::Result;
use crate::primitives::{Address, U256};
use crate::types::{ChainId, Hex};
use crate::xlp::SolventXlpInfo;

verus! {

/// How many millionths make one.
pub const FRACTION_UNIT: u64 = 1_000_000;

/// A non-negative decimal number with six digits after the point, held as a count of
/// millionths: `0.001` is 1,000 millionths, `1.0` is 1,000,000.
#[derive(Debug, Clone, Copy, PartialEq, Eq, Structural)]
pub struct Fraction {
    /// The number, in millionths.
    pub micros: u64,
}

impl Fraction {
    /// The fraction of `micros` millionths.
    pub fn from_micros(micros: u64) -> (r: Fraction)
        ensures
            r.micros == micros,
    {
        Fraction { micros }
    }

    /// The number one.
    pub fn one() -> (r: Fraction)
        ensures
            r.micros == FRACTION_UNIT,
    {
        Fraction { micros: FRACTION_UNIT }
    }
}

/// Chain information configuration.
#[derive(Debug, Clone)]
pub struct ChainInfo {
    /// Chain id.
    pub chain_id: ChainId,
    /// RPC URL for this chain.
    pub rpc_url: String,
    /// Entry point contract address.
    pub entry_point: Address,
    /// Cross-chain paymaster contract address.
    pub paymaster: Address,
    /// Optional bundler URL (if different from RPC).
    pub bundler_url: Option<String>,
}

impl ChainInfo {
    /// A copy of this chain's configuration.
    pub fn duplicate(&self) -> (r: ChainInfo)
        ensures
            r == *self,
    {
        ChainInfo {
            chain_id: self.chain_id,
            rpc_url: self.rpc_url.clone(),
            entry_point: self.entry_point,
            paymaster: self.paymaster,
            bundler_url: match &self.bundler_url {
                Some(u) => Some(u.clone()),
                None => None,
            },
        }
    }
}

/// A custom filter of liquidity providers: the last word on each solvent candidate.
/// What it answers is its own affair.
pub trait XlpFilter: Send + Sync {
    /// Whether `candidate` may underwrite a voucher whose destination is `chain_id`.
    fn accepts(&self, chain_id: ChainId, candidate: &SolventXlpInfo) -> (r: bool);
}

/// A custom filter as a configuration holds it.
pub type XlpFilterFn = Arc<dyn XlpFilter>;

/// Another handle on what is shared, if anything is.
pub fn share<T: ?Sized>(shared: &Option<Arc<T>>) -> (r: Option<Arc<T>>)
    ensures
        r == *shared,
{
    match shared {
        Some(handle) => Some(handle.clone()),
        None => None,
    }
}

/// A shared value as an optional one.
pub fn shared<T: ?Sized>(handle: Arc<T>) -> (r: Option<Arc<T>>)
    ensures
        r == Some(handle),
{
    Some(handle)
}

/// Policy by which liquidity providers (XLPs) are selected for a voucher.
#[derive(Clone)]
pub struct XlpSelectionConfig {
    /// Reserve factor for deposits (1.1 asks for 110% of the requested amount).
    pub deposit_reserve_factor: Fraction,
    /// Whether a provider's balance has to cover the request too.
    pub include_balance: bool,
    /// Minimum number of providers required.
    pub min_xlps: usize,
    /// Maximum number of providers to use.
    pub max_xlps: usize,
    /// Custom filter, set by the program; without one every solvent candidate passes.
    pub custom_xlp_filter: Option<XlpFilterFn>,
}

/// The default reserve factor: 1.0.
pub fn default_deposit_reserve_factor() -> (r: Fraction)
    ensures
        r.micros == 1_000_000,
{
    Fraction { micros: 1_000_000 }
}

/// By default balances are not checked.
pub fn default_include_balance() -> (r: bool)
    ensures
        r == false,
{
    false
}

/// By default one provider is required.
pub fn default_min_xlps() -> (r: usize)
    ensures
        r == 1,
{
    1
}

/// By default at most five providers are used.
pub fn default_max_xlps() -> (r: usize)
    ensures
        r == 5,
{
    5
}

impl XlpSelectionConfig {
    /// The default policy.
    pub open spec fn spec_default() -> XlpSelectionConfig {
        XlpSelectionConfig {
            deposit_reserve_factor: Fraction { micros: 1_000_000 },
            include_balance: false,
            min_xlps: 1,
            max_xlps: 5,
            custom_xlp_filter: None,
        }
    }

    /// A copy of this policy, with another handle on its custom filter.
    pub fn duplicate(&self) -> (r: XlpSelectionConfig)
        ensures
            r == *self,
    {
        XlpSelectionConfig {
            deposit_reserve_factor: self.deposit_reserve_factor,
            include_balance: self.include_balance,
            min_xlps: self.min_xlps,
            max_xlps: self.max_xlps,
            custom_xlp_filter: share(&self.custom_xlp_filter),
        }
    }
}

impl Default for XlpSelectionConfig {
    fn default() -> (r: Self)
        ensures
            r == XlpSelectionConfig::spec_default(),
    {
        XlpSelectionConfig {
            deposit_reserve_factor: default_deposit_reserve_factor(),
            include_balance: default_include_balance(),
            min_xlps: default_min_xlps(),
            max_xlps: default_max_xlps(),
            custom_xlp_filter: None,
        }
    }
}

/// Fee configuration for vouchers; every field is a fraction between 0 and 1.
#[derive(Debug, Clone, Copy, PartialEq, Eq, Structural)]
pub struct FeeConfig {
    /// Starting fee (0.001 is 0.1%).
    pub start_fee_percent: Fraction,
    /// Maximum fee.
    pub max_fee_percent: Fraction,
    /// Fee increase per second.
    pub fee_increase_per_second: Fraction,
    /// Fee for a voucher that stays unspent.
    pub unspent_voucher_fee_percent: Fraction,
}

/// The default starting fee: 0.001.
pub fn default_start_fee_percent() -> (r: Fraction)
    ensures
        r.micros == 1_000,
{
    Fraction { micros: 1_000 }
}

/// The default maximum fee: 0.05.
pub fn default_max_fee_percent() -> (r: Fraction)
    ensures
        r.micros == 50_000,
{
    Fraction { micros: 50_000 }
}

/// The default fee increase per second: 0.0001.
pub fn default_fee_increase_per_second() -> (r: Fraction)
    ensures
        r.micros == 100,
{
    Fraction { micros: 100 }
}

/// The default fee for an unspent voucher: 0.001.
pub fn default_unspent_voucher_fee_percent() -> (r: Fraction)
    ensures
        r.micros == 1_000,
{
    Fraction { micros: 1_000 }
}

impl FeeConfig {
    /// The default fees.
    pub open spec fn spec_default() -> FeeConfig {
        FeeConfig {
            start_fee_percent: Fraction { micros: 1_000 },
            max_fee_percent: Fraction { micros: 50_000 },
            fee_increase_per_second: Fraction { micros: 100 },
            unspent_voucher_fee_percent: Fraction { micros: 1_000 },
        }
    }
}

impl Default for FeeConfig {
    fn default() -> (r: Self)
        ensures
            r == FeeConfig::spec_default(),
    {
        FeeConfig {
            start_fee_percent: default_start_fee_percent(),
            max_fee_percent: default_max_fee_percent(),
            fee_increase_per_second: default_fee_increase_per_second(),
            unspent_voucher_fee_percent: default_unspent_voucher_fee_percent(),
        }
    }
}

/// Paymaster of a source chain, for batches that use no voucher.
pub trait SourcePaymaster: Send + Sync {
    /// Paymaster stub data for a user operation.
    fn get_paymaster_stub_data(&self, user_op: &UserOperation) -> Result<PaymasterData>;
}

/// What a source paymaster contributes to a user operation.
#[derive(Debug, Clone)]
pub struct PaymasterData {
    /// Paymaster address.
    pub paymaster: Option<Address>,
    /// Paymaster data.
    pub paymaster_data: Option<Hex>,
    /// Paymaster verification gas limit.
    pub paymaster_verification_gas_limit: Option<U256>,
    /// Paymaster post-op gas limit.
    pub paymaster_post_op_gas_limit: Option<U256>,
}

/// Main cross-chain configuration.
#[derive(Clone)]
pub struct CrossChainConfig {
    /// Voucher expiration time in seconds.
    pub expire_time_seconds: u64,
    /// Execution timeout in seconds.
    pub exec_timeout_seconds: u64,
    /// XLP selection configuration.
    pub xlp_selection_config: XlpSelectionConfig,
    /// Fee configuration.
    pub fee_config: FeeConfig,
    /// Per-chain configuration.
    pub chain_infos: Vec<ChainInfo>,
    /// Source paymaster, set by the program.
    pub source_paymaster: Option<Arc<dyn SourcePaymaster>>,
}

/// What a `CrossChainConfig` stands for.
pub struct CrossChainConfigView {
    pub expire_time_seconds: u64,
    pub exec_timeout_seconds: u64,
    pub xlp_selection_config: XlpSelectionConfig,
    pub fee_config: FeeConfig,
    pub chain_infos: Seq<ChainInfo>,
    pub source_paymaster: Option<Arc<dyn SourcePaymaster>>,
}

impl View for CrossChainConfig {
    type V = CrossChainConfigView;

    open spec fn view(&self) -> CrossChainConfigView {
        CrossChainConfigView {
            expire_time_seconds: self.expire_time_seconds,
            exec_timeout_seconds: self.exec_timeout_seconds,
            xlp_selection_config: self.xlp_selection_config,
            fee_config: self.fee_config,
            chain_infos: self.chain_infos@,
            source_paymaster: self.source_paymaster,
        }
    }
}

/// By default a voucher expires after 60 seconds.
pub fn default_expire_time_seconds() -> (r: u64)
    ensures
        r == 60,
{
    60
}

/// By default an execution may take 30 seconds.
pub fn default_exec_timeout_seconds() -> (r: u64)
    ensures
        r == 30,
{
    30
}

/// Whether entry `i` is the first of `infos` that configures `chain_id`.
pub open spec fn first_info(infos: Seq<ChainInfo>, chain_id: ChainId, i: int) -> bool {
    &&& 0 <= i < infos.len()
    &&& infos[i].chain_id == chain_id
    &&& forall|k: int| 0 <= k < i ==> (#[trigger] infos[k]).chain_id != chain_id
}

/// Whether some entry of `infos` configures `chain_id`.
pub open spec fn configures(infos: Seq<ChainInfo>, chain_id: ChainId) -> bool {
    exists|i: int| 0 <= i < infos.len() && (#[trigger] infos[i]).chain_id == chain_id
}

/// The entry that configures `chain_id`: the first with that chain id, if any.
pub open spec fn chain_entry(infos: Seq<ChainInfo>, chain_id: ChainId) -> Option<ChainInfo> {
    if configures(infos, chain_id) {
        Some(infos[choose|i: int| first_info(infos, chain_id, i)])
    } else {
        None
    }
}

/// The first entry for a chain is the entry that configures it.
pub proof fn lemma_chain_entry(infos: Seq<ChainInfo>, chain_id: ChainId, i: int)
    requires
        first_info(infos, chain_id, i),
    ensures
        chain_entry(infos, chain_id) == Some(infos[i]),
{
    let j = choose|j: int| first_info(infos, chain_id, j);
    assert(first_info(infos, chain_id, j));
    if j < i {
        assert(infos[j].chain_id != chain_id);
    } else if i < j {
        assert(infos[i].chain_id != chain_id);
    }
}

/// The default configuration with the given chains.
pub open spec fn default_with(chain_infos: Seq<ChainInfo>) -> CrossChainConfigView {
    CrossChainConfigView {
        expire_time_seconds: 60,
        exec_timeout_seconds: 30,
        xlp_selection_config: XlpSelectionConfig::spec_default(),
        fee_config: FeeConfig::spec_default(),
        chain_infos,
        source_paymaster: None,
    }
}

impl Default for CrossChainConfig {
    fn default() -> (r: Self)
        ensures
            r@ == default_with(Seq::empty()),
    {
        CrossChainConfig {
            expire_time_seconds: default_expire_time_seconds(),
            exec_timeout_seconds: default_exec_timeout_seconds(),
            xlp_selection_config: XlpSelectionConfig::default(),
            fee_config: FeeConfig::default(),
            chain_infos: Vec::new(),
            source_paymaster: None,
        }
    }
}

impl CrossChainConfig {
    /// Creates a configuration with the given chains and defaults for the rest.
    pub fn new(chain_infos: Vec<ChainInfo>) -> (r: Self)
        ensures
            r@ == default_with(chain_infos@),
    {
        CrossChainConfig {
            expire_time_seconds: default_expire_time_seconds(),
            exec_timeout_seconds: default_exec_timeout_seconds(),
            xlp_selection_config: XlpSelectionConfig::default(),
            fee_config: FeeConfig::default(),
            chain_infos,
            source_paymaster: None,
        }
    }

    /// Adds a chain configuration after those already there.
    pub fn add_chain(self, chain_info: ChainInfo) -> (r: Self)
        ensures
            r@ == (CrossChainConfigView {
                chain_infos: self@.chain_infos.push(chain_info),
                ..self@
            }),
    {
        let mut this = self;
        this.chain_infos.push(chain_info);
        this
    }

    /// Sets the XLP selection configuration.
    pub fn with_xlp_config(self, config: XlpSelectionConfig) -> (r: Self)
        ensures
            r@ == (CrossChainConfigView { xlp_selection_config: config, ..self@ }),
    {
        let mut this = self;
        this.xlp_selection_config = config;
        this
    }

    /// Sets the fee configuration.
    pub fn with_fee_config(self, config: FeeConfig) -> (r: Self)
        ensures
            r@ == (CrossChainConfigView { fee_config: config, ..self@ }),
    {
        let mut this = self;
        this.fee_config = config;
        this
    }

    /// Sets the voucher expiration time.
    pub fn with_expire_time(self, seconds: u64) -> (r: Self)
        ensures
            r@ == (CrossChainConfigView { expire_time_seconds: seconds, ..self@ }),
    {
        let mut this = self;
        this.expire_time_seconds = seconds;
        this
    }

    /// Sets the execution timeout.
    pub fn with_exec_timeout(self, seconds: u64) -> (r: Self)
        ensures
            r@ == (CrossChainConfigView { exec_timeout_seconds: seconds, ..self@ }),
    {
        let mut this = self;
        this.exec_timeout_seconds = seconds;
        this
    }

    /// Sets the source paymaster.
    pub fn with_source_paymaster(self, paymaster: Arc<dyn SourcePaymaster>) -> (r: Self)
        ensures
            r@ == (CrossChainConfigView { source_paymaster: r@.source_paymaster, ..self@ }),
            r@.source_paymaster is Some,
            r@.source_paymaster->0 == paymaster,
    {
        let mut this = self;
        let held = shared(paymaster);
        this.source_paymaster = held;
        this
    }

    /// The configuration of a chain: the first entry with that chain id, if any.
    pub fn chain_info(&self, chain_id: ChainId) -> (r: Option<&ChainInfo>)
        ensures
            r is Some <==> configures(self@.chain_infos, chain_id),
            match chain_entry(self@.chain_infos, chain_id) {
                Some(entry) => r matches Some(info) && *info == entry,
                None => r is None,
            },
    {
        let mut i: usize = 0;
        while i < self.chain_infos.len()
            invariant
                i <= self.chain_infos.len(),
                forall|k: int| 0 <= k < i ==> (#[trigger] self.chain_infos@[k]).chain_id != chain_id,
            decreases self.chain_infos.len() - i,
        {
            if self.chain_infos[i].chain_id == chain_id {
                proof {
                    lemma_chain_entry(self@.chain_infos, chain_id, i as int);
                }
                return Some(&self.chain_infos[i]);
            }
            i = i + 1;
        }
        None
    }

    /// A copy of this configuration.
    pub fn duplicate(&self) -> (r: CrossChainConfig)
        ensures
            r@ == self@,
    {
        let mut chain_infos: Vec<ChainInfo> = Vec::new();
        let mut i: usize = 0;
        while i < self.chain_infos.len()
            invariant
                i <= self.chain_infos.len(),
                chain_infos@ == self.chain_infos@.subrange(0, i as int),
            decreases self.chain_infos.len() - i,
        {
            chain_infos.push(self.chain_infos[i].duplicate());
            i = i + 1;
            assert(chain_infos@ =~= self.chain_infos@.subrange(0, i as int));
        }
        assert(chain_infos@ =~= self.chain_infos@);
        CrossChainConfig {
            expire_time_seconds: self.expire_time_seconds,
            exec_timeout_seconds: self.exec_timeout_seconds,
            xlp_selection_config: self.xlp_selection_config.duplicate(),
            fee_config: self.fee_config,
            chain_infos,
            source_paymaster: share(&self.source_paymaster),
        }
    }
}

} // verus!
