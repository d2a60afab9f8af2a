//! Domain types shared by every component: amounts, runtime variables, raw calls.

use vstd::prelude::*;
use std::collections::HashMap;
use alloy::dyn_abi::DynSolValue;
use alloy::json_abi::JsonAbi;
use crate::error::{EilError, Result};
use crate::multichain::{MultichainToken, MultichainTokenView};

pub use crate::primitives::{Address, U256};

pub mod chain_ids;

verus! {

/// Identifier of a blockchain.
pub type ChainId = u64;

/// A variable-length byte blob.
pub type Hex = Vec<u8>;

/// Map of addresses per chain.
pub type AddressPerChain = HashMap<ChainId, Address>;

/// The longest runtime variable name, in bytes.
pub const MAX_VAR_NAME_LEN: usize = 8;

/// Whether `name` is short enough (at most eight bytes of UTF-8) to name a runtime variable.
pub open spec fn valid_var_name(name: Seq<char>) -> bool {
    vstd::utf8::encode_utf8(name).len() <= 8
}

/// Reference to a value that is resolved on-chain when the operation executes.
#[derive(Debug, Clone, PartialEq, Eq, Hash)]
pub struct RuntimeVar {
    /// Variable name (at most eight bytes).
    pub name: String,
}

impl RuntimeVar {
    /// The invariant of a runtime variable: its name fits in eight bytes.
    pub open spec fn wf(&self) -> bool {
        valid_var_name(self.name@)
    }

    /// Creates a runtime variable reference; names longer than eight bytes are rejected
    /// with `InvalidVariableName`.
    pub fn new(name: &str) -> (r: Result<RuntimeVar>)
        ensures
            r is Ok <==> valid_var_name(name@),
            r matches Ok(v) ==> v.name@ == name@ && v.wf(),
            r matches Err(e) ==> (e matches EilError::InvalidVariableName(n) && n@ == name@),
    {
        if name.as_bytes().len() > MAX_VAR_NAME_LEN {
            return Err(EilError::InvalidVariableName(name.to_owned()));
        }
        Ok(RuntimeVar { name: name.to_owned() })
    }

    /// A copy of this variable reference.
    pub fn duplicate(&self) -> (r: RuntimeVar)
        ensures
            r == *self,
    {
        RuntimeVar { name: self.name.clone() }
    }
}

/// An amount that is either known when the operation is built or resolved on-chain.
#[derive(Debug, Clone)]
pub enum Amount {
    /// Fixed amount known at build time.
    Fixed(U256),
    /// Runtime variable resolved on-chain.
    Runtime(RuntimeVar),
}

/// What an `Amount` stands for.
pub enum AmountView {
    Fixed(U256),
    Runtime(Seq<char>),
}

impl View for Amount {
    type V = AmountView;

    open spec fn view(&self) -> AmountView {
        match *self {
            Amount::Fixed(v) => AmountView::Fixed(v),
            Amount::Runtime(var) => AmountView::Runtime(var.name@),
        }
    }
}

impl Amount {
    /// A copy of this amount.
    pub fn duplicate(&self) -> (r: Amount)
        ensures
            r == *self,
    {
        match self {
            Amount::Fixed(v) => Amount::Fixed(*v),
            Amount::Runtime(var) => Amount::Runtime(var.duplicate()),
        }
    }
}

impl From<U256> for Amount {
    fn from(value: U256) -> (r: Amount) {
        Amount::Fixed(value)
    }
}

impl vstd::std_specs::convert::FromSpecImpl<U256> for Amount {
    open spec fn obeys_from_spec() -> bool {
        true
    }

    open spec fn from_spec(value: U256) -> Amount {
        Amount::Fixed(value)
    }
}

impl From<u64> for Amount {
    fn from(value: u64) -> (r: Amount) {
        Amount::Fixed(U256::from_u64(value))
    }
}

impl vstd::std_specs::convert::FromSpecImpl<u64> for Amount {
    open spec fn obeys_from_spec() -> bool {
        true
    }

    open spec fn from_spec(value: u64) -> Amount {
        Amount::Fixed(U256::spec_from_u64(value))
    }
}

impl From<RuntimeVar> for Amount {
    fn from(var: RuntimeVar) -> (r: Amount) {
        Amount::Runtime(var)
    }
}

impl vstd::std_specs::convert::FromSpecImpl<RuntimeVar> for Amount {
    open spec fn obeys_from_spec() -> bool {
        true
    }

    open spec fn from_spec(var: RuntimeVar) -> Amount {
        Amount::Runtime(var)
    }
}

/// Anything that lives at one address per chain.
pub trait MultiChainEntity {
    /// The address of the entity on `chain_id`, if it has one there.
    spec fn deployed_at(&self, chain_id: ChainId) -> Option<Address>;

    /// Get the address on a specific chain.
    fn address_on(&self, chain_id: ChainId) -> (r: Option<Address>)
        ensures
            r == self.deployed_at(chain_id),
    ;
}

/// The address of `entity` on `chain_id`, or `InvalidAddress` where it has none.
pub fn to_address<E: MultiChainEntity + ?Sized>(chain_id: ChainId, entity: &E) -> (r: Result<Address>)
    ensures
        match entity.deployed_at(chain_id) {
            Some(a) => r == Ok::<Address, EilError>(a),
            None => r matches Err(EilError::InvalidAddress { chain_id: c, address })
                && c == chain_id && address@ == "None"@,
        },
{
    match entity.address_on(chain_id) {
        Some(a) => Ok(a),
        None => Err(EilError::InvalidAddress { chain_id, address: "None".to_owned() }),
    }
}

/// A token together with the amount of it that a voucher moves.
#[derive(Debug, Clone)]
pub struct TokenAmount {
    /// Token reference (can be multichain).
    pub token: MultichainToken,
    /// Amount to transfer.
    pub amount: Amount,
    /// Minimum provider deposit; meaningful only for runtime amounts.
    pub min_provider_deposit: Option<U256>,
}

/// What a `TokenAmount` stands for.
pub struct TokenAmountView {
    pub token: MultichainTokenView,
    pub amount: AmountView,
    pub min_provider_deposit: Option<U256>,
}

impl View for TokenAmount {
    type V = TokenAmountView;

    open spec fn view(&self) -> TokenAmountView {
        TokenAmountView {
            token: self.token@,
            amount: self.amount@,
            min_provider_deposit: self.min_provider_deposit,
        }
    }
}

impl TokenAmount {
    /// The amount a provider has to cover: a fixed amount as it is, a runtime amount
    /// by its minimum provider deposit, which defaults to one.
    pub open spec fn resolved_amount(v: TokenAmountView) -> U256 {
        match v.amount {
            AmountView::Fixed(a) => a,
            AmountView::Runtime(_) => match v.min_provider_deposit {
                Some(d) => d,
                None => U256::spec_from_u64(1),
            },
        }
    }

    /// Computes `resolved_amount`.
    pub fn resolve_amount(&self) -> (r: U256)
        ensures
            r == Self::resolved_amount(self@),
    {
        match &self.amount {
            Amount::Fixed(a) => *a,
            Amount::Runtime(_) => match self.min_provider_deposit {
                Some(d) => d,
                None => U256::from_u64(1),
            },
        }
    }

    /// A copy of this token amount.
    pub fn duplicate(&self) -> (r: TokenAmount)
        ensures
            r@ == self@,
    {
        TokenAmount {
            token: self.token.duplicate(),
            amount: self.amount.duplicate(),
            min_provider_deposit: self.min_provider_deposit,
        }
    }
}

/// A raw call: target, calldata and the value sent along.
#[derive(Debug, Clone)]
pub struct Call {
    /// Target contract address.
    pub target: Address,
    /// Calldata.
    pub data: Hex,
    /// Value to send (optional).
    pub value: Option<U256>,
}

/// What a `Call` stands for.
pub struct CallView {
    pub target: Address,
    pub data: Seq<u8>,
    pub value: Option<U256>,
}

impl View for Call {
    type V = CallView;

    open spec fn view(&self) -> CallView {
        CallView { target: self.target, data: self.data@, value: self.value }
    }
}

/// A contract function call that is yet to be ABI-encoded.
#[derive(Debug, Clone)]
pub struct FunctionCall {
    /// Target contract address.
    pub target: Address,
    /// ABI of the contract.
    pub abi: JsonAbi,
    /// Function name.
    pub function_name: String,
    /// Function arguments.
    pub args: Vec<DynSolValue>,
    /// Value to send (optional).
    pub value: Option<U256>,
}

impl FunctionCall {
    /// A copy of this call.
    pub fn duplicate(&self) -> (r: FunctionCall)
        ensures
            r.target == self.target,
            r.abi == self.abi,
            r.function_name == self.function_name,
            r.args@ == self.args@,
            r.value == self.value,
    {
        let mut args: Vec<DynSolValue> = Vec::new();
        let mut i: usize = 0;
        while i < self.args.len()
            invariant
                i <= self.args.len(),
                args@ == self.args@.subrange(0, i as int),
            decreases self.args.len() - i,
        {
            args.push(self.args[i].clone());
            i = i + 1;
            assert(args@ =~= self.args@.subrange(0, i as int));
        }
        assert(args@ =~= self.args@);
        FunctionCall {
            target: self.target,
            abi: self.abi.clone(),
            function_name: self.function_name.clone(),
            args,
            value: self.value,
        }
    }
}

/// Where a batch stands during execution.
#[derive(Debug, Clone, Copy, PartialEq, Eq, Structural)]
pub enum OperationStatus {
    /// Pending execution.
    Pending,
    /// Currently executing.
    Executing,
    /// Execution completed successfully.
    Done,
    /// Execution failed.
    Failed,
}

} // verus!
