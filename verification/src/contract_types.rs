//! On-chain data shapes, and the SDK-level requests that precede them.

use vstd::prelude::*;
use crate::primitives::{Address, U256};
use crate::types::{ChainId, Hex, OperationStatus, TokenAmount, TokenAmountView};

verus! {

/// The views of the members of a sequence, in order.
pub open spec fn views<T: View>(s: Seq<T>) -> Seq<T::V> {
    Seq::new(s.len(), |i: int| s[i]@)
}

/// What an optional byte blob stands for.
pub open spec fn opt_bytes(o: Option<Hex>) -> Option<Seq<u8>> {
    match o {
        Some(b) => Some(b@),
        None => None,
    }
}

/// A copy of a byte blob.
pub fn copy_bytes(b: &Hex) -> (r: Hex)
    ensures
        r@ == b@,
{
    let mut r: Vec<u8> = Vec::new();
    let mut i: usize = 0;
    while i < b.len()
        invariant
            i <= b.len(),
            r@ == b@.subrange(0, i as int),
        decreases b.len() - i,
    {
        r.push(b[i]);
        i = i + 1;
        assert(r@ =~= b@.subrange(0, i as int));
    }
    assert(r@ =~= b@);
    r
}

/// A copy of an optional byte blob.
pub fn copy_opt_bytes(o: &Option<Hex>) -> (r: Option<Hex>)
    ensures
        opt_bytes(r) == opt_bytes(*o),
{
    match o {
        Some(b) => Some(copy_bytes(b)),
        None => None,
    }
}

/// Whether two byte blobs hold the same bytes.
pub fn bytes_eq(a: &Hex, b: &Hex) -> (r: bool)
    ensures
        r == (a@ == b@),
{
    if a.len() != b.len() {
        return false;
    }
    let mut i: usize = 0;
    while i < a.len()
        invariant
            i <= a.len(),
            a.len() == b.len(),
            forall|k: int| 0 <= k < i ==> a@[k] == b@[k],
        decreases a.len() - i,
    {
        if a[i] != b[i] {
            return false;
        }
        i = i + 1;
    }
    assert(a@ =~= b@);
    true
}

/// Whether two optional byte blobs hold the same bytes, or are both absent.
pub fn opt_bytes_eq(a: &Option<Hex>, b: &Option<Hex>) -> (r: bool)
    ensures
        r == (opt_bytes(*a) == opt_bytes(*b)),
{
    match (a, b) {
        (Some(x), Some(y)) => bytes_eq(x, y),
        (None, None) => true,
        _ => false,
    }
}

fn opt_address_eq(a: Option<Address>, b: Option<Address>) -> (r: bool)
    ensures
        r == (a == b),
{
    match (a, b) {
        (Some(x), Some(y)) => x == y,
        (None, None) => true,
        _ => false,
    }
}

fn opt_number_eq(a: Option<U256>, b: Option<U256>) -> (r: bool)
    ensures
        r == (a == b),
{
    match (a, b) {
        (Some(x), Some(y)) => x == y,
        (None, None) => true,
        _ => false,
    }
}

fn opt_chain_eq(a: Option<ChainId>, b: Option<ChainId>) -> (r: bool)
    ensures
        r == (a == b),
{
    match (a, b) {
        (Some(x), Some(y)) => x == y,
        (None, None) => true,
        _ => false,
    }
}

/// ERC-4337 user operation.
#[derive(Debug, Clone)]
pub struct UserOperation {
    /// Account sending the operation.
    pub sender: Address,
    /// Anti-replay nonce.
    pub nonce: U256,
    /// Account factory address (for deployment).
    pub factory: Option<Address>,
    /// Factory data (for deployment).
    pub factory_data: Option<Hex>,
    /// Encoded calls to execute.
    pub call_data: Hex,
    /// Gas limit for the execution phase.
    pub call_gas_limit: U256,
    /// Gas limit for the verification phase.
    pub verification_gas_limit: U256,
    /// Gas overhead for pre-verification.
    pub pre_verification_gas: U256,
    /// Maximum fee per gas.
    pub max_fee_per_gas: U256,
    /// Maximum priority fee per gas.
    pub max_priority_fee_per_gas: U256,
    /// Paymaster address (optional).
    pub paymaster: Option<Address>,
    /// Paymaster verification gas limit.
    pub paymaster_verification_gas_limit: Option<U256>,
    /// Paymaster post-operation gas limit.
    pub paymaster_post_op_gas_limit: Option<U256>,
    /// Paymaster-specific data.
    pub paymaster_data: Option<Hex>,
    /// Paymaster signature.
    pub paymaster_signature: Option<Hex>,
    /// Account signature.
    pub signature: Hex,
    /// Chain id (part of the hashing domain, not sent on-chain).
    pub chain_id: Option<ChainId>,
    /// Entry point address (part of the hashing domain, not sent on-chain).
    pub entry_point_address: Option<Address>,
}

/// What a `UserOperation` stands for.
pub struct UserOperationView {
    pub sender: Address,
    pub nonce: U256,
    pub factory: Option<Address>,
    pub factory_data: Option<Seq<u8>>,
    pub call_data: Seq<u8>,
    pub call_gas_limit: U256,
    pub verification_gas_limit: U256,
    pub pre_verification_gas: U256,
    pub max_fee_per_gas: U256,
    pub max_priority_fee_per_gas: U256,
    pub paymaster: Option<Address>,
    pub paymaster_verification_gas_limit: Option<U256>,
    pub paymaster_post_op_gas_limit: Option<U256>,
    pub paymaster_data: Option<Seq<u8>>,
    pub paymaster_signature: Option<Seq<u8>>,
    pub signature: Seq<u8>,
    pub chain_id: Option<ChainId>,
    pub entry_point_address: Option<Address>,
}

impl View for UserOperation {
    type V = UserOperationView;

    open spec fn view(&self) -> UserOperationView {
        UserOperationView {
            sender: self.sender,
            nonce: self.nonce,
            factory: self.factory,
            factory_data: opt_bytes(self.factory_data),
            call_data: self.call_data@,
            call_gas_limit: self.call_gas_limit,
            verification_gas_limit: self.verification_gas_limit,
            pre_verification_gas: self.pre_verification_gas,
            max_fee_per_gas: self.max_fee_per_gas,
            max_priority_fee_per_gas: self.max_priority_fee_per_gas,
            paymaster: self.paymaster,
            paymaster_verification_gas_limit: self.paymaster_verification_gas_limit,
            paymaster_post_op_gas_limit: self.paymaster_post_op_gas_limit,
            paymaster_data: opt_bytes(self.paymaster_data),
            paymaster_signature: opt_bytes(self.paymaster_signature),
            signature: self.signature@,
            chain_id: self.chain_id,
            entry_point_address: self.entry_point_address,
        }
    }
}

impl UserOperationView {
    /// This operation with `signature` in place of its own.
    pub open spec fn with_signature(self, signature: Seq<u8>) -> UserOperationView {
        UserOperationView { signature, ..self }
    }

    /// Whether `self` and `other` agree on every field but the account signature.
    pub open spec fn same_unsigned(self, other: UserOperationView) -> bool {
        other == self.with_signature(other.signature)
    }
}

impl UserOperation {
    /// Whether `other` agrees with this operation on every field but the account
    /// signature.
    pub fn same_unsigned_as(&self, other: &UserOperation) -> (r: bool)
        ensures
            r == self@.same_unsigned(other@),
    {
        self.sender == other.sender && self.nonce == other.nonce && opt_address_eq(
            self.factory,
            other.factory,
        ) && opt_bytes_eq(&self.factory_data, &other.factory_data) && bytes_eq(
            &self.call_data,
            &other.call_data,
        ) && self.call_gas_limit == other.call_gas_limit && self.verification_gas_limit
            == other.verification_gas_limit && self.pre_verification_gas
            == other.pre_verification_gas && self.max_fee_per_gas == other.max_fee_per_gas
            && self.max_priority_fee_per_gas == other.max_priority_fee_per_gas && opt_address_eq(
            self.paymaster,
            other.paymaster,
        ) && opt_number_eq(
            self.paymaster_verification_gas_limit,
            other.paymaster_verification_gas_limit,
        ) && opt_number_eq(self.paymaster_post_op_gas_limit, other.paymaster_post_op_gas_limit)
            && opt_bytes_eq(&self.paymaster_data, &other.paymaster_data) && opt_bytes_eq(
            &self.paymaster_signature,
            &other.paymaster_signature,
        ) && opt_chain_eq(self.chain_id, other.chain_id) && opt_address_eq(
            self.entry_point_address,
            other.entry_point_address,
        )
    }

    /// A copy of this operation.
    pub fn duplicate(&self) -> (r: UserOperation)
        ensures
            r@ == self@,
    {
        UserOperation {
            sender: self.sender,
            nonce: self.nonce,
            factory: self.factory,
            factory_data: copy_opt_bytes(&self.factory_data),
            call_data: copy_bytes(&self.call_data),
            call_gas_limit: self.call_gas_limit,
            verification_gas_limit: self.verification_gas_limit,
            pre_verification_gas: self.pre_verification_gas,
            max_fee_per_gas: self.max_fee_per_gas,
            max_priority_fee_per_gas: self.max_priority_fee_per_gas,
            paymaster: self.paymaster,
            paymaster_verification_gas_limit: self.paymaster_verification_gas_limit,
            paymaster_post_op_gas_limit: self.paymaster_post_op_gas_limit,
            paymaster_data: copy_opt_bytes(&self.paymaster_data),
            paymaster_signature: copy_opt_bytes(&self.paymaster_signature),
            signature: copy_bytes(&self.signature),
            chain_id: self.chain_id,
            entry_point_address: self.entry_point_address,
        }
    }
}

/// Asset (ERC-20 token with amount).
#[derive(Debug, Clone, Copy, PartialEq, Eq, Structural)]
pub struct Asset {
    /// ERC-20 token address.
    pub erc20_token: Address,
    /// Amount.
    pub amount: U256,
}

/// Fee rule for atomic swaps; every field is a fraction times 10,000.
#[derive(Debug, Clone, Copy, PartialEq, Eq, Structural)]
pub struct AtomicSwapFeeRule {
    /// Starting fee.
    pub start_fee_percent_numerator: U256,
    /// Maximum fee.
    pub max_fee_percent_numerator: U256,
    /// Fee increase per second.
    pub fee_increase_per_second: U256,
    /// Fee for a voucher that stays unspent.
    pub unspent_voucher_fee: U256,
}

/// Source chain component of a voucher request.
#[derive(Debug, Clone)]
pub struct SourceSwapComponent {
    /// Source chain id.
    pub chain_id: ChainId,
    /// Sender address on source chain.
    pub sender: Address,
    /// Paymaster address on source chain.
    pub paymaster: Address,
    /// Assets to transfer.
    pub assets: Vec<Asset>,
    /// Fee rule for the swap.
    pub fee_rule: AtomicSwapFeeRule,
    /// Sender nonce for voucher uniqueness.
    pub sender_nonce: U256,
    /// Allowed XLP addresses.
    pub allowed_xlps: Vec<Address>,
}

/// What a `SourceSwapComponent` stands for.
pub struct SourceSwapComponentView {
    pub chain_id: ChainId,
    pub sender: Address,
    pub paymaster: Address,
    pub assets: Seq<Asset>,
    pub fee_rule: AtomicSwapFeeRule,
    pub sender_nonce: U256,
    pub allowed_xlps: Seq<Address>,
}

impl View for SourceSwapComponent {
    type V = SourceSwapComponentView;

    open spec fn view(&self) -> SourceSwapComponentView {
        SourceSwapComponentView {
            chain_id: self.chain_id,
            sender: self.sender,
            paymaster: self.paymaster,
            assets: self.assets@,
            fee_rule: self.fee_rule,
            sender_nonce: self.sender_nonce,
            allowed_xlps: self.allowed_xlps@,
        }
    }
}

/// Destination chain component of a voucher request.
#[derive(Debug, Clone)]
pub struct DestinationSwapComponent {
    /// Destination chain id.
    pub chain_id: ChainId,
    /// Sender address on destination chain.
    pub sender: Address,
    /// Paymaster address on destination chain.
    pub paymaster: Address,
    /// Assets to receive.
    pub assets: Vec<Asset>,
    /// Maximum cost of the user operation.
    pub max_user_op_cost: U256,
    /// Expiration timestamp (Unix seconds).
    pub expires_at: U256,
}

/// What a `DestinationSwapComponent` stands for.
pub struct DestinationSwapComponentView {
    pub chain_id: ChainId,
    pub sender: Address,
    pub paymaster: Address,
    pub assets: Seq<Asset>,
    pub max_user_op_cost: U256,
    pub expires_at: U256,
}

impl View for DestinationSwapComponent {
    type V = DestinationSwapComponentView;

    open spec fn view(&self) -> DestinationSwapComponentView {
        DestinationSwapComponentView {
            chain_id: self.chain_id,
            sender: self.sender,
            paymaster: self.paymaster,
            assets: self.assets@,
            max_user_op_cost: self.max_user_op_cost,
            expires_at: self.expires_at,
        }
    }
}

/// Voucher request in its on-chain form.
#[derive(Debug, Clone)]
pub struct VoucherRequest {
    /// Source chain component.
    pub origination: SourceSwapComponent,
    /// Destination chain component.
    pub destination: DestinationSwapComponent,
}

/// What a `VoucherRequest` stands for.
pub struct VoucherRequestView {
    pub origination: SourceSwapComponentView,
    pub destination: DestinationSwapComponentView,
}

impl View for VoucherRequest {
    type V = VoucherRequestView;

    open spec fn view(&self) -> VoucherRequestView {
        VoucherRequestView { origination: self.origination@, destination: self.destination@ }
    }
}

/// Signed voucher (returned by a liquidity provider).
#[derive(Debug, Clone)]
pub struct Voucher {
    /// Voucher request.
    pub request: VoucherRequest,
    /// Provider signature.
    pub signature: Hex,
}

/// Session data for ephemeral signatures.
#[derive(Debug, Clone)]
pub struct SessionData {
    /// Session data payload.
    pub data: Hex,
    /// Ephemeral signature.
    pub ephemeral_signature: Hex,
}

/// A liquidity provider as the paymaster lists it.
#[derive(Debug, Clone, Copy, PartialEq, Eq, Structural)]
pub struct XlpEntry {
    /// Provider address on L1.
    pub l1_xlp_address: Address,
    /// Provider address on L2.
    pub l2_xlp_address: Address,
    /// Bond amount.
    pub bond: U256,
}

/// SDK-level voucher request (before conversion to the on-chain form).
#[derive(Debug, Clone)]
pub struct SdkVoucherRequest {
    /// Reference id of this voucher, the key across batches.
    pub ref_id: String,
    /// Source chain id (set to the chain of the batch that requests the voucher).
    pub source_chain_id: Option<ChainId>,
    /// Destination chain id.
    pub destination_chain_id: ChainId,
    /// Tokens to transfer.
    pub tokens: Vec<TokenAmount>,
    /// Target address on destination (defaults to the sender's address there).
    pub target: Option<Address>,
}

/// What an `SdkVoucherRequest` stands for.
pub struct SdkVoucherRequestView {
    pub ref_id: Seq<char>,
    pub source_chain_id: Option<ChainId>,
    pub destination_chain_id: ChainId,
    pub tokens: Seq<TokenAmountView>,
    pub target: Option<Address>,
}

impl View for SdkVoucherRequest {
    type V = SdkVoucherRequestView;

    open spec fn view(&self) -> SdkVoucherRequestView {
        SdkVoucherRequestView {
            ref_id: self.ref_id@,
            source_chain_id: self.source_chain_id,
            destination_chain_id: self.destination_chain_id,
            tokens: views(self.tokens@),
            target: self.target,
        }
    }
}

impl SdkVoucherRequest {
    /// A copy of this request.
    pub fn duplicate(&self) -> (r: SdkVoucherRequest)
        ensures
            r@ == self@,
    {
        let mut tokens: Vec<TokenAmount> = Vec::new();
        let mut i: usize = 0;
        while i < self.tokens.len()
            invariant
                i <= self.tokens.len(),
                tokens.len() == i,
                forall|k: int| 0 <= k < i ==> (#[trigger] tokens[k])@ == self.tokens[k]@,
            decreases self.tokens.len() - i,
        {
            tokens.push(self.tokens[i].duplicate());
            i = i + 1;
        }
        let r = SdkVoucherRequest {
            ref_id: self.ref_id.clone(),
            source_chain_id: self.source_chain_id,
            destination_chain_id: self.destination_chain_id,
            tokens,
            target: self.target,
        };
        assert(r@.tokens =~= self@.tokens);
        r
    }
}

/// Copies of `requests`, in order.
pub fn duplicate_requests(requests: &Vec<SdkVoucherRequest>) -> (r: Vec<SdkVoucherRequest>)
    ensures
        views(r@) == views(requests@),
{
    let mut r: Vec<SdkVoucherRequest> = Vec::new();
    let mut i: usize = 0;
    while i < requests.len()
        invariant
            i <= requests.len(),
            r.len() == i,
            forall|k: int| 0 <= k < i ==> (#[trigger] r[k])@ == requests[k]@,
        decreases requests.len() - i,
    {
        r.push(requests[i].duplicate());
        i = i + 1;
    }
    assert(views(r@) =~= views(requests@));
    r
}

/// One chain's share of a cross-chain operation, ready to be submitted.
#[derive(Debug, Clone)]
pub struct SingleChainBatch {
    /// User operation of this batch.
    pub user_op: UserOperation,
    /// Hash of the user operation.
    pub user_op_hash: Hex,
    /// Chain id of this batch.
    pub chain_id: ChainId,
    /// Input voucher requests (vouchers consumed by this batch).
    pub input_voucher_requests: Vec<SdkVoucherRequest>,
    /// Output voucher requests (vouchers created by this batch).
    pub out_voucher_requests: Vec<SdkVoucherRequest>,
}

/// What a `SingleChainBatch` stands for.
pub struct SingleChainBatchView {
    pub user_op: UserOperationView,
    pub user_op_hash: Seq<u8>,
    pub chain_id: ChainId,
    pub input_voucher_requests: Seq<SdkVoucherRequestView>,
    pub out_voucher_requests: Seq<SdkVoucherRequestView>,
}

impl View for SingleChainBatch {
    type V = SingleChainBatchView;

    open spec fn view(&self) -> SingleChainBatchView {
        SingleChainBatchView {
            user_op: self.user_op@,
            user_op_hash: self.user_op_hash@,
            chain_id: self.chain_id,
            input_voucher_requests: views(self.input_voucher_requests@),
            out_voucher_requests: views(self.out_voucher_requests@),
        }
    }
}

/// Copies of `blobs`, in order.
pub fn copy_blobs(blobs: &Vec<Hex>) -> (r: Vec<Hex>)
    ensures
        views(r@) == views(blobs@),
{
    let mut r: Vec<Hex> = Vec::new();
    let mut i: usize = 0;
    while i < blobs.len()
        invariant
            i <= blobs.len(),
            r.len() == i,
            forall|k: int| 0 <= k < i ==> (#[trigger] r[k])@ == blobs[k]@,
        decreases blobs.len() - i,
    {
        r.push(copy_bytes(&blobs[i]));
        i = i + 1;
    }
    assert(views(r@) =~= views(blobs@));
    r
}

/// What the executor knows of one batch while the operation executes.
#[derive(Debug, Clone)]
pub struct BatchStatusInfo {
    /// Index in the batch array.
    pub index: usize,
    /// The batch being executed.
    pub batch: SingleChainBatch,
    /// Current status.
    pub status: OperationStatus,
    /// Signed vouchers collected for this batch, each under its reference id.
    pub vouchers: Vec<(String, Voucher)>,
    /// Request ids of the vouchers the batch requested, once executed.
    pub request_ids: Option<Vec<Hex>>,
    /// Transaction hash, once executed.
    pub tx_hash: Option<Hex>,
    /// Revert reason, if the batch failed.
    pub revert_reason: Option<String>,
}

} // verus!
