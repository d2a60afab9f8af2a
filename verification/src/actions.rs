//! The action model: the units of on-chain work a batch is made of. Each action encodes,
//! for the chain of its batch, to an ordered sequence of raw calls.

use vstd::prelude::*;
use vstd::string::StringExecFns;
use crate::abi::{
    abi_encoded_params, abi_selectors, address_uint256_words, encode_address_uint256, encode_params,
    function_selector,
};
use crate::contract_types::{views, SdkVoucherRequest};
use crate::error::{EilError, EilErrorView, Result};
use crate::hashing::{append_bytes, hash_text, text_hash};
use crate::multichain::{deployment, MultichainToken, MultichainTokenView};
use crate::network::NetworkEnvironment;
use crate::primitives::Address;
use crate::types::{
    valid_var_name, Amount, AmountView, Call, CallView, ChainId, FunctionCall, MAX_VAR_NAME_LEN,
};
use crate::utils::{decimal, u64_to_string};
use crate::voucher::VoucherCoordinator;

verus! {

/// What an action sees of the batch it is encoded for.
pub struct BatchContext<'a> {
    /// The chain of the batch.
    pub chain_id: ChainId,
    /// The voucher coordinator of the builder that holds the batch.
    pub coordinator: &'a VoucherCoordinator,
    /// The network environment of that builder.
    pub network_env: &'a NetworkEnvironment,
}

impl<'a> BatchContext<'a> {
    /// The chain id of the batch.
    pub fn chain_id(&self) -> (r: ChainId)
        ensures
            r == self.chain_id,
    {
        self.chain_id
    }
}

/// The outcome of an encoding, with calls and error taken by their views.
pub open spec fn outcome(r: Result<Vec<Call>>) -> std::result::Result<Seq<CallView>, EilErrorView> {
    match r {
        Ok(calls) => Ok(views(calls@)),
        Err(e) => Err(e@),
    }
}

/// The selector of a function: the first four bytes of the Keccak-256 digest of its
/// canonical signature.
pub open spec fn selector_of(signature: Seq<char>) -> Seq<u8> {
    text_hash(signature).subrange(0, 4)
}

/// The canonical signature of the ERC-20 transfer.
pub open spec fn transfer_signature() -> Seq<char> {
    "transfer(address,uint256)"@
}

/// The canonical signature of the ERC-20 approval.
pub open spec fn approve_signature() -> Seq<char> {
    "approve(address,uint256)"@
}

/// Derives the selector of a function from its canonical signature.
pub fn selector(signature: &str) -> (r: Vec<u8>)
    ensures
        r@ == selector_of(signature@),
        r@.len() == 4,
{
    let mut digest = hash_text(signature);
    digest.truncate(4);
    digest
}

/// The text of the error for a token without a deployment on the chain.
pub open spec fn token_not_deployed(name: Seq<char>) -> Seq<char> {
    "Token "@ + name + " not deployed"@
}

/// The text of the error for a contract interface without the function called.
pub open spec fn function_not_found(name: Seq<char>) -> Seq<char> {
    "Function "@ + name + " not found"@
}

/// The text of the error for a call whose target is the zero address: it names the
/// function called and the chain, as a decimal numeral.
pub open spec fn no_target_address(name: Seq<char>, chain_id: ChainId) -> Seq<char> {
    "Calling '"@ + name + "' on contract with no address on chain "@ + decimal(chain_id as nat)
}

/// The encoding of an ERC-20 call `selector(who, amount)` on the token's deployment on
/// `chain_id`: `InvalidAddress` without a deployment there, `DynamicVariableCall` for a
/// runtime amount, else one call to the token, without value, whose data is the
/// selector followed by the two argument words.
pub open spec fn erc20_encoding(
    token: MultichainTokenView,
    selector: Seq<u8>,
    who: Address,
    amount: AmountView,
    chain_id: ChainId,
) -> std::result::Result<Seq<CallView>, EilErrorView> {
    match deployment(token.deployments, chain_id) {
        None => Err(
            EilErrorView::InvalidAddress { chain_id, address: token_not_deployed(token.name) },
        ),
        Some(target) => match amount {
            AmountView::Runtime(name) => Err(EilErrorView::DynamicVariableCall(name)),
            AmountView::Fixed(v) => Ok(
                seq![
                    CallView {
                        target,
                        data: selector + address_uint256_words(who, v),
                        value: None,
                    },
                ],
            ),
        },
    }
}

/// The encoding of a generic function call: a `Generic` error where the interface has
/// no function of that name, `InvalidAddress` where the target is the zero address, else
/// one call to the target whose data is the function's selector followed by the encoded
/// arguments.
pub open spec fn function_call_encoding(call: FunctionCall, chain_id: ChainId) -> std::result::Result<
    Seq<CallView>,
    EilErrorView,
> {
    if !abi_selectors(call.abi).contains_key(call.function_name@) {
        Err(EilErrorView::Generic(function_not_found(call.function_name@)))
    } else if call.target.spec_is_zero() {
        Err(
            EilErrorView::InvalidAddress {
                chain_id,
                address: no_target_address(call.function_name@, chain_id),
            },
        )
    } else {
        Ok(
            seq![
                CallView {
                    target: call.target,
                    data: abi_selectors(call.abi)[call.function_name@] + abi_encoded_params(
                        call.args@,
                    ),
                    value: call.value,
                },
            ],
        )
    }
}

/// A unit of on-chain work.
pub trait Action: Sized + Send + Sync {
    /// What the action encodes to on `chain_id`: its calls in order, or the error.
    spec fn encoding(&self, chain_id: ChainId) -> std::result::Result<Seq<CallView>, EilErrorView>;

    /// The action as a member of the closed set of actions.
    spec fn kind(self) -> ActionKind;

    /// Encodes the action as the calls it makes on the chain of `batch`. The result
    /// is a function of the action and the chain alone.
    fn encode_call(&self, batch: &BatchContext) -> (r: Result<Vec<Call>>)
        ensures
            outcome(r) == self.encoding(batch.chain_id),
    ;

    /// The action as a member of the closed set of actions.
    fn into_kind(self) -> (k: ActionKind)
        ensures
            k == self.kind(),
    ;
}

fn token_not_deployed_error(token: &MultichainToken, chain_id: ChainId) -> (e: EilError)
    ensures
        e@ == (EilErrorView::InvalidAddress { chain_id, address: token_not_deployed(token@.name) }),
{
    let mut text = String::from_str("Token ");
    text.append(token.name.as_str());
    text.append(" not deployed");
    EilError::InvalidAddress { chain_id, address: text }
}

fn encode_erc20(
    token: &MultichainToken,
    selector: Vec<u8>,
    who: Address,
    amount: &Amount,
    chain_id: ChainId,
) -> (r: Result<Vec<Call>>)
    ensures
        outcome(r) == erc20_encoding(token@, selector@, who, amount@, chain_id),
{
    let target: Address = match token.address_on(chain_id) {
        Some(a) => a,
        None => {
            return Err(token_not_deployed_error(token, chain_id));
        },
    };
    match amount {
        Amount::Fixed(v) => {
            let mut data: Vec<u8> = selector;
            let words = encode_address_uint256(&who.to_bytes(), &v.to_be_bytes());
            append_bytes(&mut data, &words);
            let mut calls: Vec<Call> = Vec::new();
            calls.push(Call { target, data, value: None });
            assert(views(calls@) =~= seq![
                CallView { target, data: selector@ + address_uint256_words(who, *v), value: None },
            ]);
            Ok(calls)
        },
        Amount::Runtime(var) => Err(EilError::DynamicVariableCall(var.name.clone())),
    }
}

/// Transfer of ERC-20 tokens.
#[derive(Debug, Clone)]
pub struct TransferAction {
    /// Token to transfer.
    pub token: MultichainToken,
    /// Recipient address.
    pub recipient: Address,
    /// Amount to transfer.
    pub amount: Amount,
}

impl Action for TransferAction {
    open spec fn encoding(&self, chain_id: ChainId) -> std::result::Result<
        Seq<CallView>,
        EilErrorView,
    > {
        erc20_encoding(
            self.token@,
            selector_of(transfer_signature()),
            self.recipient,
            self.amount@,
            chain_id,
        )
    }

    open spec fn kind(self) -> ActionKind {
        ActionKind::Transfer(self)
    }

    fn encode_call(&self, batch: &BatchContext) -> (r: Result<Vec<Call>>) {
        encode_erc20(
            &self.token,
            selector("transfer(address,uint256)"),
            self.recipient,
            &self.amount,
            batch.chain_id,
        )
    }

    fn into_kind(self) -> (k: ActionKind) {
        ActionKind::Transfer(self)
    }
}

/// Approval of ERC-20 token spending.
#[derive(Debug, Clone)]
pub struct ApproveAction {
    /// Token to approve.
    pub token: MultichainToken,
    /// Spender address.
    pub spender: Address,
    /// Amount to approve.
    pub value: Amount,
}

impl Action for ApproveAction {
    open spec fn encoding(&self, chain_id: ChainId) -> std::result::Result<
        Seq<CallView>,
        EilErrorView,
    > {
        erc20_encoding(
            self.token@,
            selector_of(approve_signature()),
            self.spender,
            self.value@,
            chain_id,
        )
    }

    open spec fn kind(self) -> ActionKind {
        ActionKind::Approve(self)
    }

    fn encode_call(&self, batch: &BatchContext) -> (r: Result<Vec<Call>>) {
        encode_erc20(
            &self.token,
            selector("approve(address,uint256)"),
            self.spender,
            &self.value,
            batch.chain_id,
        )
    }

    fn into_kind(self) -> (k: ActionKind) {
        ActionKind::Approve(self)
    }
}

/// Generic function call action.
#[derive(Debug, Clone)]
pub struct FunctionCallAction {
    /// Call specification.
    pub call: FunctionCall,
}

impl Action for FunctionCallAction {
    open spec fn encoding(&self, chain_id: ChainId) -> std::result::Result<
        Seq<CallView>,
        EilErrorView,
    > {
        function_call_encoding(self.call, chain_id)
    }

    open spec fn kind(self) -> ActionKind {
        ActionKind::FunctionCall(self)
    }

    fn encode_call(&self, batch: &BatchContext) -> (r: Result<Vec<Call>>) {
        let selector = match function_selector(&self.call.abi, self.call.function_name.as_str()) {
            Some(s) => s,
            None => {
                let mut text = String::from_str("Function ");
                text.append(self.call.function_name.as_str());
                text.append(" not found");
                return Err(EilError::Generic(text));
            },
        };
        let mut data: Vec<u8> = selector;
        let args = encode_params(&self.call.args);
        append_bytes(&mut data, &args);
        if !is_valid_address(self.call.target) {
            let mut text = String::from_str("Calling '");
            text.append(self.call.function_name.as_str());
            text.append("' on contract with no address on chain ");
            text.append(u64_to_string(batch.chain_id).as_str());
            return Err(EilError::InvalidAddress { chain_id: batch.chain_id, address: text });
        }
        let mut calls: Vec<Call> = Vec::new();
        calls.push(Call { target: self.call.target, data, value: self.call.value });
        assert(views(calls@) =~= seq![
            CallView {
                target: self.call.target,
                data: abi_selectors(self.call.abi)[self.call.function_name@] + abi_encoded_params(
                    self.call.args@,
                ),
                value: self.call.value,
            },
        ]);
        Ok(calls)
    }

    fn into_kind(self) -> (k: ActionKind) {
        ActionKind::FunctionCall(self)
    }
}

/// Voucher request action: makes no call; its request becomes an output voucher of the
/// batch it is added to.
#[derive(Debug, Clone)]
pub struct VoucherRequestAction {
    /// Voucher request specification.
    pub voucher_request: SdkVoucherRequest,
}

impl Action for VoucherRequestAction {
    open spec fn encoding(&self, chain_id: ChainId) -> std::result::Result<
        Seq<CallView>,
        EilErrorView,
    > {
        Ok(Seq::empty())
    }

    open spec fn kind(self) -> ActionKind {
        ActionKind::VoucherRequest(self)
    }

    fn encode_call(&self, _batch: &BatchContext) -> (r: Result<Vec<Call>>) {
        let calls: Vec<Call> = Vec::new();
        assert(views(calls@) =~= Seq::<CallView>::empty());
        Ok(calls)
    }

    fn into_kind(self) -> (k: ActionKind) {
        ActionKind::VoucherRequest(self)
    }
}

/// Sets a runtime variable from the result of a function call. How such an action
/// executes is not settled yet, so encoding one fails with `DynamicVariableCall`.
#[derive(Debug, Clone)]
pub struct SetVarAction {
    /// Variable name (at most eight bytes).
    pub var_name: String,
    /// Function call to execute and store the result of.
    pub call: FunctionCall,
}

impl SetVarAction {
    /// Creates the action; names longer than eight bytes are rejected with
    /// `InvalidVariableName`.
    pub fn new(var_name: &str, call: FunctionCall) -> (r: Result<SetVarAction>)
        ensures
            r is Ok <==> valid_var_name(var_name@),
            r matches Ok(a) ==> a.var_name@ == var_name@ && a.call == call,
            r matches Err(e) ==> e@ == EilErrorView::InvalidVariableName(var_name@),
    {
        if var_name.as_bytes().len() > MAX_VAR_NAME_LEN {
            return Err(EilError::InvalidVariableName(var_name.to_owned()));
        }
        Ok(SetVarAction { var_name: var_name.to_owned(), call })
    }
}

impl Action for SetVarAction {
    open spec fn encoding(&self, chain_id: ChainId) -> std::result::Result<
        Seq<CallView>,
        EilErrorView,
    > {
        Err(EilErrorView::DynamicVariableCall(self.var_name@))
    }

    open spec fn kind(self) -> ActionKind {
        ActionKind::SetVar(self)
    }

    fn encode_call(&self, _batch: &BatchContext) -> (r: Result<Vec<Call>>) {
        Err(EilError::DynamicVariableCall(self.var_name.clone()))
    }

    fn into_kind(self) -> (k: ActionKind) {
        ActionKind::SetVar(self)
    }
}

/// The closed set of actions.
#[derive(Debug, Clone)]
pub enum ActionKind {
    Transfer(TransferAction),
    Approve(ApproveAction),
    FunctionCall(FunctionCallAction),
    VoucherRequest(VoucherRequestAction),
    SetVar(SetVarAction),
}

impl Action for ActionKind {
    open spec fn encoding(&self, chain_id: ChainId) -> std::result::Result<
        Seq<CallView>,
        EilErrorView,
    > {
        match *self {
            ActionKind::Transfer(a) => a.encoding(chain_id),
            ActionKind::Approve(a) => a.encoding(chain_id),
            ActionKind::FunctionCall(a) => a.encoding(chain_id),
            ActionKind::VoucherRequest(a) => a.encoding(chain_id),
            ActionKind::SetVar(a) => a.encoding(chain_id),
        }
    }

    open spec fn kind(self) -> ActionKind {
        self
    }

    fn encode_call(&self, batch: &BatchContext) -> (r: Result<Vec<Call>>) {
        match self {
            ActionKind::Transfer(a) => a.encode_call(batch),
            ActionKind::Approve(a) => a.encode_call(batch),
            ActionKind::FunctionCall(a) => a.encode_call(batch),
            ActionKind::VoucherRequest(a) => a.encode_call(batch),
            ActionKind::SetVar(a) => a.encode_call(batch),
        }
    }

    fn into_kind(self) -> (k: ActionKind) {
        self
    }
}

/// Action encoding is deterministic: whatever two calls of `encode_call` return for
/// equal actions on equal chains, they return the same calls, or the same error.
pub proof fn lemma_encoding_is_deterministic<T: Action>(
    action: T,
    other: T,
    chain_id: ChainId,
    other_chain_id: ChainId,
    first: Result<Vec<Call>>,
    second: Result<Vec<Call>>,
)
    requires
        action == other,
        chain_id == other_chain_id,
        outcome(first) == action.encoding(chain_id),
        outcome(second) == other.encoding(other_chain_id),
    ensures
        outcome(first) == outcome(second),
{
}

/// Two ERC-20 transfers of the same token, to the same recipient, of the same amount
/// encode alike on every chain, whichever values hold the token and the amount.
pub proof fn lemma_equal_transfers_encode_alike(a: TransferAction, b: TransferAction, chain_id: ChainId)
    requires
        a.token@ == b.token@,
        a.recipient == b.recipient,
        a.amount@ == b.amount@,
    ensures
        a.encoding(chain_id) == b.encoding(chain_id),
{
}

/// Whether an address is usable as the target of a call.
pub fn is_valid_address(address: Address) -> (r: bool)
    ensures
        r == !address.spec_is_zero(),
{
    !address.is_zero()
}

} // verus!
