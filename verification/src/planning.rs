//! Planning of a cross-chain operation: what building comes to for a given state of
//! the builder, phase by phase, and the steps from a planned batch to a single-chain
//! batch.

use vstd::prelude::*;
use crate::account::MultiChainSmartAccount;
use crate::actions::{outcome, Action, ActionKind, BatchContext};
use crate::builder::BatchPlan;
use crate::contract_types::{
    views, SdkVoucherRequest, SdkVoucherRequestView, SingleChainBatch, SingleChainBatchView,
    UserOperation, UserOperationView, VoucherRequestView,
};
use crate::error::{EilError, EilErrorView, Result};
use crate::hashing::{compute_user_op_hash, user_op_hash_of};
use crate::network::NetworkEnvironment;
use crate::primitives::{Address, U256};
use crate::translation::translation;
use crate::types::{Call, CallView, ChainId, Hex};
use crate::voucher::{
    first_unconsumed, lemma_all_consumed, lemma_unconsumed_error, not_consumed, unconsumed_error,
    InternalVoucherInfo,
};
use crate::wiring::{all_kept, kept};

verus! {

/// The calls of a batch: those of its actions, in the order of the actions, or the
/// error of the first action that cannot be encoded.
pub open spec fn batch_calls(actions: Seq<ActionKind>, chain_id: ChainId) -> std::result::Result<
    Seq<CallView>,
    EilErrorView,
>
    decreases actions.len(),
{
    if actions.len() == 0 {
        Ok(Seq::empty())
    } else {
        match batch_calls(actions.drop_last(), chain_id) {
            Err(e) => Err(e),
            Ok(head) => match actions.last().encoding(chain_id) {
                Err(e) => Err(e),
                Ok(calls) => Ok(head + calls),
            },
        }
    }
}

/// A failure among the first actions is the failure of the whole batch.
pub proof fn lemma_batch_calls_prefix(actions: Seq<ActionKind>, chain_id: ChainId, n: int)
    requires
        0 <= n <= actions.len(),
        batch_calls(actions.subrange(0, n), chain_id) is Err,
    ensures
        batch_calls(actions, chain_id) == batch_calls(actions.subrange(0, n), chain_id),
    decreases actions.len() - n,
{
    if n == actions.len() {
        assert(actions.subrange(0, n) =~= actions);
    } else {
        let next = actions.subrange(0, n + 1);
        assert(next.drop_last() =~= actions.subrange(0, n));
        lemma_batch_calls_prefix(actions, chain_id, n + 1);
    }
}

/// Encodes the actions of a batch, in order, into the calls of the batch.
pub fn encode_actions(actions: &Vec<ActionKind>, batch: &BatchContext) -> (r: Result<Vec<Call>>)
    ensures
        outcome(r) == batch_calls(actions@, batch.chain_id),
{
    let mut calls: Vec<Call> = Vec::new();
    let mut i: usize = 0;
    proof {
        assert(actions@.subrange(0, 0) =~= Seq::<ActionKind>::empty());
        assert(views(calls@) =~= Seq::<CallView>::empty());
    }
    while i < actions.len()
        invariant
            i <= actions.len(),
            batch_calls(actions@.subrange(0, i as int), batch.chain_id) == Ok::<
                Seq<CallView>,
                EilErrorView,
            >(views(calls@)),
        decreases actions.len() - i,
    {
        proof {
            let next = actions@.subrange(0, i as int + 1);
            assert(next.drop_last() =~= actions@.subrange(0, i as int));
            assert(next.last() == actions@[i as int]);
        }
        let ghost before = calls@;
        match actions[i].encode_call(batch) {
            Ok(encoded) => {
                let mut encoded = encoded;
                let ghost added = encoded@;
                calls.append(&mut encoded);
                assert(views(calls@) =~= views(before) + views(added));
            },
            Err(e) => {
                proof {
                    lemma_batch_calls_prefix(actions@, batch.chain_id, i as int + 1);
                }
                return Err(e);
            },
        }
        i = i + 1;
    }
    proof {
        assert(actions@.subrange(0, i as int) =~= actions@);
    }
    Ok(calls)
}

/// The user operation of a batch on `chain_id`, before it is signed: the zero sender
/// and nonce, the calldata that the account made of the calls of the batch, default gas
/// limits (3,000,000 for the call, 500,000 for verification, 100,000 before
/// verification) and fee caps (one gwei each), no factory, no paymaster, an empty
/// signature, and the chain and entry point it is meant for.
pub open spec fn fresh_user_op(chain_id: ChainId, entry_point: Address, call_data: Seq<u8>) -> UserOperationView {
    UserOperationView {
        sender: Address { hi: 0, lo: 0 },
        nonce: U256::spec_from_u64(0),
        factory: None,
        factory_data: None,
        call_data,
        call_gas_limit: U256::spec_from_u64(3_000_000),
        verification_gas_limit: U256::spec_from_u64(500_000),
        pre_verification_gas: U256::spec_from_u64(100_000),
        max_fee_per_gas: U256::spec_from_u64(1_000_000_000),
        max_priority_fee_per_gas: U256::spec_from_u64(1_000_000_000),
        paymaster: None,
        paymaster_verification_gas_limit: None,
        paymaster_post_op_gas_limit: None,
        paymaster_data: None,
        paymaster_signature: None,
        signature: Seq::empty(),
        chain_id: Some(chain_id),
        entry_point_address: Some(entry_point),
    }
}

/// Creates the user operation of a batch from the calldata of the batch.
pub fn create_user_op(chain_id: ChainId, entry_point: Address, call_data: Hex) -> (r: UserOperation)
    ensures
        r@ == fresh_user_op(chain_id, entry_point, call_data@),
        r.call_data == call_data,
{
    UserOperation {
        sender: Address::zero(),
        nonce: U256::from_u64(0),
        factory: None,
        factory_data: None,
        call_data,
        call_gas_limit: U256::from_u64(3_000_000),
        verification_gas_limit: U256::from_u64(500_000),
        pre_verification_gas: U256::from_u64(100_000),
        max_fee_per_gas: U256::from_u64(1_000_000_000),
        max_priority_fee_per_gas: U256::from_u64(1_000_000_000),
        paymaster: None,
        paymaster_verification_gas_limit: None,
        paymaster_post_op_gas_limit: None,
        paymaster_data: None,
        paymaster_signature: None,
        signature: Vec::new(),
        chain_id: Some(chain_id),
        entry_point_address: Some(entry_point),
    }
}

/// A batch whose actions are encoded and whose entry point is resolved; what is left
/// to do is to have the account encode the calls and sign the operation.
#[derive(Debug, Clone)]
pub struct PlannedBatch {
    /// The chain the batch executes on.
    pub chain_id: ChainId,
    /// The entry point of that chain.
    pub entry_point: Address,
    /// The calls of the batch, in order.
    pub calls: Vec<Call>,
    /// The vouchers the batch uses.
    pub input_voucher_requests: Vec<SdkVoucherRequest>,
    /// The vouchers the batch requests.
    pub out_voucher_requests: Vec<SdkVoucherRequest>,
}

/// What a `PlannedBatch` stands for.
pub struct PlannedBatchView {
    pub chain_id: ChainId,
    pub entry_point: Address,
    pub calls: Seq<CallView>,
    pub input_voucher_requests: Seq<SdkVoucherRequestView>,
    pub out_voucher_requests: Seq<SdkVoucherRequestView>,
}

impl View for PlannedBatch {
    type V = PlannedBatchView;

    open spec fn view(&self) -> PlannedBatchView {
        PlannedBatchView {
            chain_id: self.chain_id,
            entry_point: self.entry_point,
            calls: views(self.calls@),
            input_voucher_requests: views(self.input_voucher_requests@),
            out_voucher_requests: views(self.out_voucher_requests@),
        }
    }
}

/// The single-chain batch that a planned batch becomes with the calldata `call_data`:
/// its fresh user operation, the hash of that operation, and the vouchers of the batch.
pub open spec fn sealed(planned: PlannedBatchView, call_data: Seq<u8>) -> SingleChainBatchView {
    let op = fresh_user_op(planned.chain_id, planned.entry_point, call_data);
    SingleChainBatchView {
        user_op: op,
        user_op_hash: user_op_hash_of(op)->0,
        chain_id: planned.chain_id,
        input_voucher_requests: planned.input_voucher_requests,
        out_voucher_requests: planned.out_voucher_requests,
    }
}

/// Builds the single-chain batch of a planned batch: has the account encode the calls
/// of the batch, creates the user operation and computes its hash. The call succeeds
/// where the account encodes the calls, and the calldata of the operation is then what
/// the account answered; it fails where the account fails, with the error of the
/// account.
pub fn build_single_chain_batch<A: MultiChainSmartAccount>(planned: PlannedBatch, account: &A) -> (r:
    Result<SingleChainBatch>)
    ensures
        r matches Ok(batch) ==> batch@ == sealed(planned@, batch@.user_op.call_data)
            && batch@.user_op_hash.len() == 32 && call_ensures(
            A::encode_calls,
            (account, planned.chain_id, planned.calls),
            Ok::<Hex, EilError>(batch.user_op.call_data),
        ),
        r matches Err(e) ==> call_ensures(
            A::encode_calls,
            (account, planned.chain_id, planned.calls),
            Err::<Hex, EilError>(e),
        ),
{
    let PlannedBatch { chain_id, entry_point, calls, input_voucher_requests, out_voucher_requests } =
        planned;
    let call_data = match account.encode_calls(chain_id, calls) {
        Ok(data) => data,
        Err(e) => {
            return Err(e);
        },
    };
    let user_op = create_user_op(chain_id, entry_point, call_data);
    let user_op_hash = match compute_user_op_hash(&user_op) {
        Ok(h) => h,
        Err(_) => vstd::pervasive::unreached(),
    };
    Ok(
        SingleChainBatch {
            user_op,
            user_op_hash,
            chain_id,
            input_voucher_requests,
            out_voucher_requests,
        },
    )
}

/// The planned form of a batch in a network environment: its calls, or the error of
/// the first action that cannot be encoded; then its entry point, or
/// `UnsupportedChain`.
pub open spec fn planned_batch(plan: BatchPlan, env: NetworkEnvironment) -> std::result::Result<
    PlannedBatchView,
    EilErrorView,
> {
    match batch_calls(plan.actions@, plan.chain_id) {
        Err(e) => Err(e),
        Ok(calls) => match env.entry_point_of(plan.chain_id) {
            Err(e) => Err(e@),
            Ok(entry_point) => Ok(
                PlannedBatchView {
                    chain_id: plan.chain_id,
                    entry_point,
                    calls,
                    input_voucher_requests: views(plan.input_vouchers@),
                    out_voucher_requests: views(plan.output_vouchers@),
                },
            ),
        },
    }
}

/// The planned forms of the batches, in order, or the error of the first batch that
/// cannot be planned.
pub open spec fn planned_batches(plans: Seq<BatchPlan>, env: NetworkEnvironment) -> std::result::Result<
    Seq<PlannedBatchView>,
    EilErrorView,
>
    decreases plans.len(),
{
    if plans.len() == 0 {
        Ok(Seq::empty())
    } else {
        match planned_batches(plans.drop_last(), env) {
            Err(e) => Err(e),
            Ok(head) => match planned_batch(plans.last(), env) {
                Err(e) => Err(e),
                Ok(b) => Ok(head.push(b)),
            },
        }
    }
}

/// Where every batch can be planned, the plan holds the planned form of each batch, in
/// the order of the batches.
pub proof fn lemma_planned_batches_in_order(plans: Seq<BatchPlan>, env: NetworkEnvironment)
    requires
        planned_batches(plans, env) is Ok,
    ensures
        planned_batches(plans, env)->Ok_0.len() == plans.len(),
        forall|i: int|
            0 <= i < plans.len() ==> planned_batch(#[trigger] plans[i], env) == Ok::<
                PlannedBatchView,
                EilErrorView,
            >(planned_batches(plans, env)->Ok_0[i]),
    decreases plans.len(),
{
    if plans.len() > 0 {
        lemma_planned_batches_in_order(plans.drop_last(), env);
        let head = planned_batches(plans.drop_last(), env)->Ok_0;
        let all = planned_batches(plans, env)->Ok_0;
        assert forall|i: int| 0 <= i < plans.len() implies planned_batch(#[trigger] plans[i], env) == Ok::<
            PlannedBatchView,
            EilErrorView,
        >(all[i]) by {
            if i < plans.len() - 1 {
                assert(plans.drop_last()[i] == plans[i]);
                assert(all[i] == head[i]);
            }
        }
    }
}

/// A failure among the first batches is the failure of the whole plan.
pub proof fn lemma_planned_batches_prefix(plans: Seq<BatchPlan>, env: NetworkEnvironment, n: int)
    requires
        0 <= n <= plans.len(),
        planned_batches(plans.subrange(0, n), env) is Err,
    ensures
        planned_batches(plans, env) == planned_batches(plans.subrange(0, n), env),
    decreases plans.len() - n,
{
    if n == plans.len() {
        assert(plans.subrange(0, n) =~= plans);
    } else {
        let next = plans.subrange(0, n + 1);
        assert(next.drop_last() =~= plans.subrange(0, n));
        lemma_planned_batches_prefix(plans, env, n + 1);
    }
}

/// The providers allowed for a registered voucher: those recorded for it; where none
/// were recorded, none are allowed. The selection protocol and its policy apply where
/// candidates are handed in, not here.
pub open spec fn allowed_for(e: InternalVoucherInfo) -> Seq<Address> {
    match e.allowed_xlps {
        Some(a) => a@,
        None => Seq::empty(),
    }
}

/// The on-chain form of a registered voucher request: the one recorded for it or,
/// where none is recorded, what its translation comes to at the moment `now`.
pub open spec fn request_for<A: MultiChainSmartAccount>(
    e: InternalVoucherInfo,
    account: A,
    env: NetworkEnvironment,
    now: u64,
) -> std::result::Result<VoucherRequestView, EilErrorView> {
    match e.voucher_request {
        Some(request) => Ok(request@),
        None => translation(e.voucher@, account, env, allowed_for(e), now),
    }
}

/// The on-chain forms of the registered voucher requests, in the order of their
/// registration, or the error of the first that cannot be translated.
pub open spec fn translations<A: MultiChainSmartAccount>(
    entries: Seq<InternalVoucherInfo>,
    account: A,
    env: NetworkEnvironment,
    now: u64,
) -> std::result::Result<Seq<VoucherRequestView>, EilErrorView>
    decreases entries.len(),
{
    if entries.len() == 0 {
        Ok(Seq::empty())
    } else {
        match translations(entries.drop_last(), account, env, now) {
            Err(e) => Err(e),
            Ok(head) => match request_for(entries.last(), account, env, now) {
                Err(e) => Err(e),
                Ok(request) => Ok(head.push(request)),
            },
        }
    }
}

/// A failure among the first vouchers is the failure of the whole registry.
pub proof fn lemma_translations_prefix<A: MultiChainSmartAccount>(
    entries: Seq<InternalVoucherInfo>,
    account: A,
    env: NetworkEnvironment,
    now: u64,
    n: int,
)
    requires
        0 <= n <= entries.len(),
        translations(entries.subrange(0, n), account, env, now) is Err,
    ensures
        translations(entries, account, env, now) == translations(entries.subrange(0, n), account, env, now),
    decreases entries.len() - n,
{
    if n == entries.len() {
        assert(entries.subrange(0, n) =~= entries);
    } else {
        let next = entries.subrange(0, n + 1);
        assert(next.drop_last() =~= entries.subrange(0, n));
        lemma_translations_prefix(entries, account, env, now, n + 1);
    }
}

/// What planning comes to, for a builder in the given state at the moment `now`:
/// the on-chain voucher requests and the planned batches, or the first failure, in
/// this order: the builder was sealed before; it has no account; a voucher request
/// cannot be translated; a voucher is used by no batch; a batch cannot be planned,
/// because one of its actions cannot be encoded or its chain is not configured.
/// Allowed providers and on-chain requests are written once: what an earlier run
/// recorded stands, and only what is missing is recorded or translated.
pub open spec fn planning<A: MultiChainSmartAccount>(
    built: bool,
    account: Option<A>,
    plans: Seq<BatchPlan>,
    entries: Seq<InternalVoucherInfo>,
    env: NetworkEnvironment,
    now: u64,
) -> std::result::Result<(Seq<VoucherRequestView>, Seq<PlannedBatchView>), EilErrorView> {
    if built {
        Err(EilErrorView::BuilderAlreadyBuilt)
    } else if account is None {
        Err(EilErrorView::AccountNotSet)
    } else {
        match translations(entries, account->0, env, now) {
            Err(e) => Err(e),
            Ok(requests) => match unconsumed_error(entries) {
                Some(e) => Err(e),
                None => match planned_batches(plans, env) {
                    Err(e) => Err(e),
                    Ok(batches) => Ok((requests, batches)),
                },
            },
        }
    }
}

/// An unused voucher is reported: where the builder is open and has its account and
/// every voucher request can be translated, planning fails with `VoucherNotConsumed`
/// for the first voucher that no batch uses, whatever the batches hold.
pub proof fn lemma_unused_voucher_is_reported<A: MultiChainSmartAccount>(
    account: A,
    plans: Seq<BatchPlan>,
    entries: Seq<InternalVoucherInfo>,
    env: NetworkEnvironment,
    now: u64,
    i: int,
)
    requires
        translations(entries, account, env, now) is Ok,
        first_unconsumed(entries, i),
    ensures
        planning(false, Some(account), plans, entries, env, now) == Err::<
            (Seq<VoucherRequestView>, Seq<PlannedBatchView>),
            EilErrorView,
        >(not_consumed(entries[i])),
{
    lemma_unconsumed_error(entries, i);
}

/// A builder is sealed only with every voucher used: where planning succeeds, every
/// registered voucher has a consuming batch.
pub proof fn lemma_planned_operation_uses_every_voucher<A: MultiChainSmartAccount>(
    built: bool,
    account: Option<A>,
    plans: Seq<BatchPlan>,
    entries: Seq<InternalVoucherInfo>,
    env: NetworkEnvironment,
    now: u64,
)
    requires
        planning(built, account, plans, entries, env, now) is Ok,
    ensures
        crate::voucher::all_consumed(entries),
        forall|k: int| 0 <= k < entries.len() ==> (#[trigger] entries[k]).dest_batch_index is Some,
{
    lemma_all_consumed(entries);
}

/// What planning makes of the registry: every entry is as before but for the allowed
/// providers and the on-chain request, which are now recorded.
pub open spec fn planned_entries(
    before: Seq<InternalVoucherInfo>,
    after: Seq<InternalVoucherInfo>,
    requests: Seq<VoucherRequestView>,
) -> bool {
    &&& after.len() == before.len()
    &&& requests.len() == before.len()
    &&& forall|k: int|
        0 <= k < before.len() ==> {
            let e = #[trigger] after[k];
            &&& e.voucher == before[k].voucher
            &&& e.source_batch_index == before[k].source_batch_index
            &&& e.dest_batch_index == before[k].dest_batch_index
            &&& e.signed_voucher == before[k].signed_voucher
            &&& e.allowed_xlps is Some
            &&& e.allowed_xlps->0@ == allowed_for(before[k])
            &&& e.voucher_request is Some
            &&& e.voucher_request->0@ == requests[k]
        }
}

/// What building makes of the allowed providers in the registry: every entry has
/// allowed providers recorded, those it had or none, and is otherwise as before.
pub open spec fn xlps_recorded(before: Seq<InternalVoucherInfo>, after: Seq<InternalVoucherInfo>) -> bool {
    &&& all_kept(before, after)
    &&& forall|k: int|
        0 <= k < before.len() ==> {
            let e = #[trigger] after[k];
            &&& e.voucher_request == before[k].voucher_request
            &&& e.allowed_xlps is Some
            &&& e.allowed_xlps->0@ == allowed_for(before[k])
        }
}

/// What the translation makes of the registry: every entry has its on-chain request
/// recorded and is otherwise as before.
pub open spec fn requests_recorded(
    before: Seq<InternalVoucherInfo>,
    after: Seq<InternalVoucherInfo>,
    requests: Seq<VoucherRequestView>,
) -> bool {
    &&& all_kept(before, after)
    &&& requests.len() == before.len()
    &&& forall|k: int|
        0 <= k < before.len() ==> {
            let e = #[trigger] after[k];
            &&& e.allowed_xlps == before[k].allowed_xlps
            &&& e.voucher_request is Some
            &&& e.voucher_request->0@ == requests[k]
        }
}

/// Entries that agree on the voucher, on the allowed providers and on the on-chain
/// request translate alike.
pub proof fn lemma_translations_same<A: MultiChainSmartAccount>(
    a: Seq<InternalVoucherInfo>,
    b: Seq<InternalVoucherInfo>,
    account: A,
    env: NetworkEnvironment,
    now: u64,
)
    requires
        a.len() == b.len(),
        forall|k: int|
            0 <= k < a.len() ==> (#[trigger] a[k]).voucher == b[k].voucher && allowed_for(a[k])
                == allowed_for(b[k]) && a[k].voucher_request == b[k].voucher_request,
    ensures
        translations(a, account, env, now) == translations(b, account, env, now),
    decreases a.len(),
{
    if a.len() > 0 {
        assert(a[a.len() - 1].voucher == b[b.len() - 1].voucher);
        assert forall|k: int| 0 <= k < a.drop_last().len() implies (#[trigger] a.drop_last()[k]).voucher
            == b.drop_last()[k].voucher && allowed_for(a.drop_last()[k]) == allowed_for(b.drop_last()[k])
            && a.drop_last()[k].voucher_request == b.drop_last()[k].voucher_request by {
            assert(a[k].voucher == b[k].voucher);
        }
        lemma_translations_same(a.drop_last(), b.drop_last(), account, env, now);
    }
}

/// Entries that agree on the voucher and on the consuming batch are consumed alike.
pub proof fn lemma_unconsumed_same(a: Seq<InternalVoucherInfo>, b: Seq<InternalVoucherInfo>)
    requires
        all_kept(a, b),
    ensures
        unconsumed_error(a) == unconsumed_error(b),
    decreases a.len(),
{
    if a.len() > 0 {
        assert(kept(a[a.len() - 1], b[b.len() - 1]));
        assert(all_kept(a.drop_last(), b.drop_last())) by {
            assert forall|k: int| 0 <= k < a.drop_last().len() implies kept(
                a.drop_last()[k],
                #[trigger] b.drop_last()[k],
            ) by {
                assert(kept(a[k], b[k]));
            }
        }
        lemma_unconsumed_same(a.drop_last(), b.drop_last());
    }
}

/// A copy of a list of addresses.
pub fn copy_addresses(addresses: &Vec<Address>) -> (r: Vec<Address>)
    ensures
        r@ == addresses@,
{
    let mut r: Vec<Address> = Vec::new();
    let mut i: usize = 0;
    while i < addresses.len()
        invariant
            i <= addresses.len(),
            r@ == addresses@.subrange(0, i as int),
        decreases addresses.len() - i,
    {
        r.push(addresses[i]);
        i = i + 1;
        assert(r@ =~= addresses@.subrange(0, i as int));
    }
    assert(r@ =~= addresses@);
    r
}

/// Whether `batches` are the planned batches `planned`, each sealed with the calldata
/// that its user operation carries.
pub open spec fn all_sealed(planned: Seq<PlannedBatchView>, batches: Seq<SingleChainBatch>) -> bool {
    &&& batches.len() == planned.len()
    &&& forall|i: int|
        0 <= i < planned.len() ==> (#[trigger] batches[i])@ == sealed(
            planned[i],
            batches[i]@.user_op.call_data,
        )
}

/// Whether `batch` is a planned batch, sealed and then signed: all is as sealed but for
/// the signature of the user operation.
pub open spec fn sealed_and_signed(planned: PlannedBatchView, batch: SingleChainBatchView) -> bool {
    let unsigned = sealed(planned, batch.user_op.call_data);
    &&& unsigned.user_op.same_unsigned(batch.user_op)
    &&& batch == (SingleChainBatchView { user_op: batch.user_op, ..unsigned })
}

} // verus!
