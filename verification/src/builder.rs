//! The cross-chain builder: accumulates per-chain batches of actions and voucher
//! flows, wires vouchers between the batch that requests them and the batch that uses
//! them, and turns the whole into signed single-chain batches.
//!
//! The builder moves through three phases, each a type of its own: `Building` (no
//! account yet), `ReadyToBuild` (account bound) and, once `build_and_sign` has consumed
//! it, `Signed`.

use vstd::prelude::*;
use std::marker::PhantomData;
use crate::account::MultiChainSmartAccount;
use crate::actions::{Action, ActionKind, BatchContext};
use crate::config::{XlpFilter, XlpSelectionConfig};
use crate::contract_types::{
    duplicate_requests, views, SdkVoucherRequest, SdkVoucherRequestView, SingleChainBatch,
    VoucherRequestView,
};
use crate::error::{EilError, EilErrorView, Result};
use crate::executor::CrossChainExecutor;
use crate::network::NetworkEnvironment;
use crate::primitives::Address;
use crate::test_utils::MockAccount;
use crate::translation::{lemma_mapped_request_translates, mapped, sdk_to_voucher_request};
use crate::types::{ChainId, Hex};
use crate::utils::now_seconds;
use crate::voucher::{
    evolves, has_key, keyed_at, lemma_all_consumed, lemma_evolves_transitive, position,
    unconsumed_error, with_allowed_xlps, InternalVoucherInfo, VoucherCoordinator,
};
use crate::signing::{
    build_batches, built_from, executor_of, lemma_nothing_to_build, lemma_signing_keeps_batches,
    refused_after, sealing, sign_batches,
};
use crate::xlp::{
    accepted_by, allowed_of, get_solvent_xlps, provider_addresses, referents, required_amounts,
    retain_accepted, select_allowed_xlps, select_xlps, selection, solvent_of, SolventXlpInfo,
};
use crate::planning::{
    all_sealed, allowed_for, copy_addresses,
    encode_actions, lemma_planned_batches_prefix, lemma_translations_prefix,
    lemma_planned_batches_in_order, lemma_planned_operation_uses_every_voucher,
    lemma_translations_same, lemma_unconsumed_same, planned_batch, planned_batches,
    planned_entries, planning, requests_recorded, sealed, sealed_and_signed, translations,
    xlps_recorded,
    PlannedBatch, PlannedBatchView,
};
use crate::wiring::{
    agree, all_kept, entry_listed, first_clash, kept, lemma_agree_closed, lemma_agree_kept,
    lemma_agree_open, lemma_agree_used, lists, registered, registrable, requested_by, used_by,
    wired,
};

verus! {

/// Phase of a builder that has no account yet.
pub struct Building;

/// Phase of a builder whose account is bound.
pub struct ReadyToBuild;

/// Phase of a builder that was built and signed.
pub struct Signed;

/// The account type of a builder that has no account yet.
pub struct NoAccount;

/// What a builder keeps of one batch: its chain, its position, its actions and the
/// vouchers it uses and requests.
#[derive(Debug, Clone)]
pub struct BatchPlan {
    /// The chain the batch executes on.
    pub chain_id: ChainId,
    /// The position of the batch among the batches of the builder.
    pub batch_index: usize,
    /// The actions of the batch, in the order in which they were added.
    pub actions: Vec<ActionKind>,
    /// The vouchers the batch uses.
    pub input_vouchers: Vec<SdkVoucherRequest>,
    /// The vouchers the batch requests.
    pub output_vouchers: Vec<SdkVoucherRequest>,
}

impl BatchPlan {
    /// Every voucher the batch requests is requested on the chain of the batch.
    pub open spec fn wf(&self) -> bool {
        forall|k: int|
            0 <= k < self.output_vouchers@.len() ==> (#[trigger] self.output_vouchers@[k]).source_chain_id
                == Some(self.chain_id)
    }
}

/// The request as a batch on `chain_id` records it: with that chain as its source.
pub open spec fn requested_on(request: SdkVoucherRequestView, chain_id: ChainId) -> SdkVoucherRequestView {
    SdkVoucherRequestView { source_chain_id: Some(chain_id), ..request }
}

/// Builder of a cross-chain operation.
pub struct CrossChainBuilder<State = Building, A = NoAccount> {
    network_env: NetworkEnvironment,
    batches: Vec<BatchPlan>,
    coordinator: VoucherCoordinator,
    account: Option<A>,
    is_built: bool,
    _state: PhantomData<State>,
}

impl<State, A> CrossChainBuilder<State, A> {
    /// The network environment of the builder.
    pub closed spec fn env(&self) -> NetworkEnvironment {
        self.network_env
    }

    /// The closed batches, in the order in which they were closed.
    pub closed spec fn plans(&self) -> Seq<BatchPlan> {
        self.batches@
    }

    /// The voucher coordinator of the builder.
    pub closed spec fn registry(&self) -> VoucherCoordinator {
        self.coordinator
    }

    /// The account of the builder, once bound.
    pub closed spec fn bound_account(&self) -> Option<A> {
        self.account
    }

    /// Whether the builder was sealed.
    pub closed spec fn built(&self) -> bool {
        self.is_built
    }

    /// What holds of a builder whether a batch is open or not: reference ids are
    /// unique, every registered voucher is wired between the batches, and the closed
    /// batches are numbered by their position.
    pub open spec fn sound(&self) -> bool {
        &&& self.registry().wf()
        &&& forall|k: int|
            0 <= k < self.registry().entries().len() ==> wired(
                #[trigger] self.registry().entries()[k],
                self.plans().len() as int,
            )
        &&& forall|i: int|
            0 <= i < self.plans().len() ==> (#[trigger] self.plans()[i]).batch_index == i
                && self.plans()[i].wf()
    }

    /// The invariant of a builder with no batch open: it is sound, and the registry and
    /// the batches agree on which batch requests and which batch uses each voucher.
    pub open spec fn wf(&self) -> bool {
        &&& self.sound()
        &&& agree(self.registry().entries(), self.plans(), self.plans().len() as int)
    }

    /// The voucher coordinator of the builder.
    pub fn coordinator(&self) -> (r: &VoucherCoordinator)
        ensures
            *r == self.registry(),
    {
        &self.coordinator
    }

    /// The network environment of the builder.
    pub fn network_env(&self) -> (r: &NetworkEnvironment)
        ensures
            *r == self.env(),
    {
        &self.network_env
    }
}

impl CrossChainBuilder<Building, NoAccount> {
    /// Creates a builder for the given network environment: no batch, no voucher, no
    /// account.
    pub fn new(network_env: &NetworkEnvironment) -> (r: Self)
        ensures
            r.wf(),
            r.env().spec_config()@ == network_env.spec_config()@,
            r.plans().len() == 0,
            r.registry().entries().len() == 0,
            r.bound_account() is None,
            !r.built(),
    {
        CrossChainBuilder {
            network_env: network_env.duplicate(),
            batches: Vec::new(),
            coordinator: VoucherCoordinator::new(),
            account: None,
            is_built: false,
            _state: PhantomData,
        }
    }

    /// Binds the account the operation is built for. Fails with `AccountAlreadySet`
    /// if the builder already has one.
    pub fn use_account<A: MultiChainSmartAccount>(self, account: A) -> (r: Result<
        CrossChainBuilder<ReadyToBuild, A>,
    >)
        requires
            self.wf(),
        ensures
            r is Ok <==> self.bound_account() is None,
            r matches Ok(b) ==> b.wf() && b.env() == self.env() && b.plans() == self.plans()
                && b.registry() == self.registry() && b.bound_account() == Some(account)
                && b.built() == self.built(),
            r matches Err(e) ==> e == EilError::AccountAlreadySet,
    {
        if self.account.is_some() {
            return Err(EilError::AccountAlreadySet);
        }
        let b: CrossChainBuilder<ReadyToBuild, A> = CrossChainBuilder {
            network_env: self.network_env,
            batches: self.batches,
            coordinator: self.coordinator,
            account: Some(account),
            is_built: self.is_built,
            _state: PhantomData,
        };
        assert(b.registry() == self.registry() && b.plans() == self.plans());
        Ok(b)
    }
}

impl<A: MultiChainSmartAccount> CrossChainBuilder<ReadyToBuild, A> {
    /// The number of closed batches.
    pub fn batch_count(&self) -> (n: usize)
        ensures
            n == self.plans().len(),
    {
        self.batches.len()
    }

    /// Starts a new batch on the given chain. The batch is empty; its index is the
    /// number of batches closed so far.
    pub fn start_batch(self, chain_id: ChainId) -> (r: BatchBuilder<A>)
        requires
            self.wf(),
        ensures
            r.wf(),
            r.parent() == self,
            r.plan().chain_id == chain_id,
            r.plan().batch_index == self.plans().len(),
            r.plan().actions@.len() == 0,
            r.plan().input_vouchers@.len() == 0,
            r.plan().output_vouchers@.len() == 0,
    {
        let batch_index: usize = self.batches.len();
        let plan = BatchPlan {
            chain_id,
            batch_index,
            actions: Vec::new(),
            input_vouchers: Vec::new(),
            output_vouchers: Vec::new(),
        };
        proof {
            let entries = self.registry().entries();
            assert forall|k: int|
                0 <= k < entries.len() && (#[trigger] entries[k]).dest_batch_index is Some implies entries[k].dest_batch_index->0
                != self.plans().len() by {
                assert(entry_listed(entries[k], self.plans()));
            }
            lemma_agree_open(entries, self.plans(), self.plans(), plan);
        }
        BatchBuilder { plan, parent_builder: self }
    }
}

/// Builder of one batch, on one chain.
pub struct BatchBuilder<A = NoAccount> {
    plan: BatchPlan,
    parent_builder: CrossChainBuilder<ReadyToBuild, A>,
}

impl<A: MultiChainSmartAccount> BatchBuilder<A> {
    /// The batch as built so far.
    pub closed spec fn plan(&self) -> BatchPlan {
        self.plan
    }

    /// The builder the batch belongs to.
    pub closed spec fn parent(&self) -> CrossChainBuilder<ReadyToBuild, A> {
        self.parent_builder
    }

    /// The invariant of an open batch: its builder is sound, its index is the number
    /// of batches closed so far, what it requests it requests on its chain, and the
    /// registry agrees with the closed batches and the open one.
    pub open spec fn wf(&self) -> bool {
        &&& self.parent().sound()
        &&& self.plan().batch_index == self.parent().plans().len()
        &&& self.plan().wf()
        &&& agree(
            self.parent().registry().entries(),
            self.parent().plans().push(self.plan()),
            self.parent().plans().len() as int,
        )
    }

    /// The chain id of this batch.
    pub fn chain_id(&self) -> (r: ChainId)
        ensures
            r == self.plan().chain_id,
    {
        self.plan.chain_id
    }

    /// Adds an action after the actions already there. A voucher request action also
    /// adds its request to the vouchers the batch requests, as `add_voucher_request`
    /// does.
    pub fn add_action<T: Action>(self, action: T) -> (r: Self)
        requires
            self.wf(),
        ensures
            r.wf(),
            r.parent() == self.parent(),
            r.plan().chain_id == self.plan().chain_id,
            r.plan().batch_index == self.plan().batch_index,
            r.plan().actions@ == self.plan().actions@.push(action.kind()),
            r.plan().input_vouchers == self.plan().input_vouchers,
            views(r.plan().output_vouchers@) == match action.kind() {
                ActionKind::VoucherRequest(a) => views(self.plan().output_vouchers@).push(
                    requested_on(a.voucher_request@, self.plan().chain_id),
                ),
                _ => views(self.plan().output_vouchers@),
            },
    {
        let mut this = self;
        let kind = action.into_kind();
        let ghost closed = self.parent().plans();
        match &kind {
            ActionKind::VoucherRequest(a) => {
                let ghost before = this.plan.output_vouchers@;
                let mut request = a.voucher_request.duplicate();
                request.source_chain_id = Some(this.plan.chain_id);
                this.plan.output_vouchers.push(request);
                assert(views(this.plan.output_vouchers@) =~= views(before).push(
                    requested_on(a.voucher_request@, this.plan.chain_id),
                ));
            },
            _ => {},
        }
        this.plan.actions.push(kind);
        proof {
            assert(closed.push(self.plan()).drop_last() =~= closed);
            lemma_agree_open(
                self.parent().registry().entries(),
                closed,
                closed.push(self.plan()),
                this.plan,
            );
        }
        this
    }

    /// Adds a voucher request to the vouchers the batch requests; the chain of the
    /// batch becomes the source chain of the request.
    pub fn add_voucher_request(self, request: SdkVoucherRequest) -> (r: Self)
        requires
            self.wf(),
        ensures
            r.wf(),
            r.parent() == self.parent(),
            r.plan().chain_id == self.plan().chain_id,
            r.plan().batch_index == self.plan().batch_index,
            r.plan().actions == self.plan().actions,
            r.plan().input_vouchers == self.plan().input_vouchers,
            r.plan().output_vouchers@ == self.plan().output_vouchers@.push(
                SdkVoucherRequest { source_chain_id: Some(self.plan().chain_id), ..request },
            ),
    {
        let mut this = self;
        let mut request = request;
        request.source_chain_id = Some(this.plan.chain_id);
        this.plan.output_vouchers.push(request);
        proof {
            let closed = self.parent().plans();
            assert(closed.push(self.plan()).drop_last() =~= closed);
            lemma_agree_open(
                self.parent().registry().entries(),
                closed,
                closed.push(self.plan()),
                this.plan,
            );
        }
        this
    }

    /// Uses the voucher registered under `ref_id` in this batch: the batch becomes
    /// the consumer of the voucher and the voucher one of its inputs. Fails with
    /// `VoucherNotFound` if no such voucher is registered and with
    /// `VoucherAlreadyUsed` if a batch uses it already.
    pub fn use_voucher(self, ref_id: &str) -> (r: Result<Self>)
        requires
            self.wf(),
        ensures
            r is Ok <==> self.parent().registry().contains(ref_id@) && self.parent().registry().entry(
                ref_id@,
            ).dest_batch_index is None,
            r matches Ok(b) ==> uses(self, ref_id@, b),
            r matches Err(e) ==> e@ == (if self.parent().registry().contains(ref_id@) {
                EilErrorView::VoucherAlreadyUsed(ref_id@)
            } else {
                EilErrorView::VoucherNotFound(ref_id@)
            }),
    {
        let mut this = self;
        let ghost before = this.parent_builder.coordinator.entries();
        match this.parent_builder.coordinator.mark_consumed(ref_id, this.plan.batch_index) {
            Ok(()) => {},
            Err(e) => {
                return Err(e);
            },
        }
        let ghost inputs = this.plan.input_vouchers@;
        let copy = match this.parent_builder.coordinator.get(ref_id) {
            Ok(info) => info.voucher.duplicate(),
            Err(e) => {
                return Err(e);
            },
        };
        this.plan.input_vouchers.push(copy);
        proof {
            assert(views(this.plan.input_vouchers@) =~= views(inputs).push(
                self.parent().registry().entry(ref_id@).voucher@,
            ));
            let after = this.parent_builder.coordinator.entries();
            assert forall|k: int| 0 <= k < after.len() implies wired(
                #[trigger] after[k],
                this.parent_builder.plans().len() as int,
            ) by {
                assert(wired(before[k], self.parent().plans().len() as int));
            }
            let p = position(before, ref_id@);
            assert(keyed_at(before, ref_id@, p));
            assert forall|j: int| 0 <= j < inputs.len() implies (
            #[trigger] this.plan.input_vouchers@[j]).ref_id@ == inputs[j].ref_id@ by {
                assert(views(this.plan.input_vouchers@)[j] == views(inputs)[j]);
            }
            assert(views(this.plan.input_vouchers@)[inputs.len() as int].ref_id == ref_id@);
            lemma_agree_used(
                before,
                after,
                self.parent().plans(),
                self.plan(),
                this.plan,
                ref_id@,
                p,
                self.plan().batch_index,
            );
        }
        Ok(this)
    }

    /// Closes the batch: registers each voucher it requests as produced by this batch
    /// and adds the batch to the builder. Fails with `DuplicateVoucher` for the first
    /// voucher the batch requests whose reference id is already registered or was
    /// requested earlier in the batch.
    pub fn end_batch(self) -> (r: Result<CrossChainBuilder<ReadyToBuild, A>>)
        requires
            self.wf(),
        ensures
            r is Ok <==> registrable(self.parent().registry().entries(), self.plan().output_vouchers@),
            r matches Ok(b) ==> closes(self, b),
            r matches Err(e) ==> exists|k: int|
                first_clash(self.parent().registry().entries(), self.plan().output_vouchers@, k)
                    && e@ == EilErrorView::DuplicateVoucher(
                    #[trigger] self.plan().output_vouchers@[k].ref_id@,
                ),
    {
        let mut parent = self.parent_builder;
        let plan = self.plan;
        let ghost before = parent.coordinator.entries();
        let ghost outputs = plan.output_vouchers@;
        let mut k: usize = 0;
        proof {
            assert(outputs.subrange(0, 0) =~= Seq::<SdkVoucherRequest>::empty());
            assert(parent.coordinator.entries().subrange(0, before.len() as int) =~= before);
        }
        while k < plan.output_vouchers.len()
            invariant
                k <= plan.output_vouchers.len(),
                outputs == plan.output_vouchers@,
                before == self.parent().registry().entries(),
                plan == self.plan(),
                self.wf(),
                parent.coordinator.wf(),
                parent.env() == self.parent().env(),
                parent.plans() == self.parent().plans(),
                parent.bound_account() == self.parent().bound_account(),
                parent.built() == self.parent().built(),
                registrable(before, outputs.subrange(0, k as int)),
                registered(
                    before,
                    parent.coordinator.entries(),
                    outputs.subrange(0, k as int),
                    plan.batch_index,
                ),
            decreases plan.output_vouchers.len() - k,
        {
            let ghost current = parent.coordinator.entries();
            let copy = plan.output_vouchers[k].duplicate();
            let ghost id = outputs[k as int].ref_id@;
            match parent.coordinator.register(copy, plan.batch_index) {
                Ok(()) => {},
                Err(e) => {
                    proof {
                        // the id is among the entries of before or among the earlier outputs
                        let p = choose|p: int| crate::voucher::keyed_at(current, id, p);
                        assert(crate::voucher::keyed_at(current, id, p));
                        if p < before.len() {
                            assert(current.subrange(0, before.len() as int)[p] == current[p]);
                            assert(crate::voucher::keyed_at(before, id, p));
                        } else {
                            let j = p - before.len();
                            assert(current[before.len() + j].voucher@ == outputs.subrange(
                                0,
                                k as int,
                            )[j]@);
                            assert(outputs[j].ref_id@ == id);
                        }
                        assert(first_clash(before, outputs, k as int));
                        assert(!registrable(before, outputs)) by {
                            if registrable(before, outputs) {
                                if has_key(before, id) {
                                    assert(!has_key(before, outputs[k as int].ref_id@));
                                }
                            }
                        }
                    }
                    return Err(e);
                },
            }
            proof {
                let after = parent.coordinator.entries();
                let next = outputs.subrange(0, k as int + 1);
                let prev = outputs.subrange(0, k as int);
                assert(after.subrange(0, before.len() as int) =~= before);
                assert forall|m: int| 0 <= m < next.len() implies {
                    let e = #[trigger] after[before.len() + m];
                    &&& e.voucher@ == next[m]@
                    &&& e.source_batch_index == plan.batch_index
                    &&& e.dest_batch_index is None
                    &&& e.voucher_request is None
                    &&& e.allowed_xlps is None
                    &&& e.signed_voucher is None
                } by {
                    if m < k {
                        assert(after[before.len() + m] == current[before.len() + m]);
                        assert(prev[m] == next[m]);
                    }
                }
                assert(registrable(before, next)) by {
                    assert forall|m: int| 0 <= m < next.len() implies !has_key(
                        before,
                        (#[trigger] next[m]).ref_id@,
                    ) by {
                        if m < k {
                            assert(prev[m] == next[m]);
                        } else {
                            if has_key(before, id) {
                                let p = choose|p: int| crate::voucher::keyed_at(before, id, p);
                                assert(current.subrange(0, before.len() as int)[p] == current[p]);
                                assert(crate::voucher::keyed_at(current, id, p));
                            }
                        }
                    }
                    assert forall|j: int, m: int| 0 <= j < m < next.len() implies next[j].ref_id@
                        != next[m].ref_id@ by {
                        if m < k {
                            assert(prev[j] == next[j]);
                            assert(prev[m] == next[m]);
                        } else {
                            if next[j].ref_id@ == id {
                                assert(current[before.len() + j].voucher@ == prev[j]@);
                                assert(crate::voucher::keyed_at(current, id, before.len() + j));
                            }
                        }
                    }
                }
            }
            k = k + 1;
        }
        proof {
            assert(outputs.subrange(0, k as int) =~= outputs);
        }
        let ghost entries = parent.coordinator.entries();
        parent.batches.push(plan);
        proof {
            assert forall|m: int| 0 <= m < entries.len() implies wired(
                #[trigger] entries[m],
                parent.plans().len() as int,
            ) by {
                if m < before.len() {
                    assert(entries.subrange(0, before.len() as int)[m] == entries[m]);
                    assert(wired(before[m], self.parent().plans().len() as int));
                } else {
                    let j = m - before.len();
                    assert(entries[before.len() + j].voucher@ == outputs[j]@);
                    assert(outputs[j].source_chain_id == Some(plan.chain_id));
                }
            }
            lemma_agree_closed(before, entries, self.parent().plans(), plan, plan.batch_index);
        }
        Ok(parent)
    }
}

/// Whether `after` is what the use of the voucher `ref_id` makes of the open batch
/// `before`: the batch is the consumer of the voucher and the voucher the last of its
/// inputs; all else is as it was.
pub open spec fn uses<A: MultiChainSmartAccount>(
    before: BatchBuilder<A>,
    ref_id: Seq<char>,
    after: BatchBuilder<A>,
) -> bool {
    &&& after.wf()
    &&& after.parent().env() == before.parent().env()
    &&& after.parent().plans() == before.parent().plans()
    &&& after.parent().bound_account() == before.parent().bound_account()
    &&& after.parent().built() == before.parent().built()
    &&& after.parent().registry().entries() == before.parent().registry().entries().update(
        position(before.parent().registry().entries(), ref_id),
        InternalVoucherInfo {
            dest_batch_index: Some(before.plan().batch_index),
            ..before.parent().registry().entry(ref_id)
        },
    )
    &&& after.plan().chain_id == before.plan().chain_id
    &&& after.plan().batch_index == before.plan().batch_index
    &&& after.plan().actions == before.plan().actions
    &&& after.plan().output_vouchers == before.plan().output_vouchers
    &&& views(after.plan().input_vouchers@) == views(before.plan().input_vouchers@).push(
        before.parent().registry().entry(ref_id).voucher@,
    )
}

/// What closing the open batch `open` makes of its builder: the batch is added after
/// the closed ones, the vouchers it requests are registered as produced by it, and
/// nothing else changes.
pub open spec fn closes<A: MultiChainSmartAccount>(
    open: BatchBuilder<A>,
    closed: CrossChainBuilder<ReadyToBuild, A>,
) -> bool {
    &&& closed.wf()
    &&& closed.env() == open.parent().env()
    &&& closed.bound_account() == open.parent().bound_account()
    &&& closed.built() == open.parent().built()
    &&& closed.plans() == open.parent().plans().push(open.plan())
    &&& registered(
        open.parent().registry().entries(),
        closed.registry().entries(),
        open.plan().output_vouchers@,
        open.plan().batch_index,
    )
}

/// In every state of a well-formed builder, the batch that uses a voucher comes after
/// the batch that requested it, both are closed, and both list the voucher: the one
/// among the vouchers it requests, the other among the vouchers it uses.
pub proof fn lemma_consumer_follows_producer<State, A>(builder: CrossChainBuilder<State, A>, k: int)
    requires
        builder.wf(),
        0 <= k < builder.registry().entries().len(),
    ensures
        ({
            let e = builder.registry().entries()[k];
            &&& e.source_batch_index < builder.plans().len()
            &&& lists(builder.plans()[e.source_batch_index as int].output_vouchers@, e.key())
            &&& e.dest_batch_index matches Some(d) ==> e.source_batch_index < d
                < builder.plans().len() && lists(builder.plans()[d as int].input_vouchers@, e.key())
        }),
{
    assert(wired(builder.registry().entries()[k], builder.plans().len() as int));
    assert(entry_listed(builder.registry().entries()[k], builder.plans()));
}

/// Dependency order: in every state of a well-formed builder, each voucher that a batch
/// uses is a registered voucher whose consumer is this batch and whose producer is an
/// earlier batch.
pub proof fn lemma_inputs_come_from_earlier_batches<State, A>(
    builder: CrossChainBuilder<State, A>,
    i: int,
    j: int,
)
    requires
        builder.wf(),
        0 <= i < builder.plans().len(),
        0 <= j < builder.plans()[i].input_vouchers@.len(),
    ensures
        ({
            let id = builder.plans()[i].input_vouchers@[j].ref_id@;
            let entries = builder.registry().entries();
            &&& has_key(entries, id)
            &&& entries[position(entries, id)].dest_batch_index == Some(i as usize)
            &&& entries[position(entries, id)].source_batch_index < i
        }),
{
    let id = builder.plans()[i].input_vouchers@[j].ref_id@;
    let entries = builder.registry().entries();
    assert(used_by(entries, id, i));
    let k = choose|k: int|
        #[trigger] keyed_at(entries, id, k) && entries[k].dest_batch_index is Some
            && entries[k].dest_batch_index->0 == i;
    crate::voucher::lemma_position(entries, id, k);
    assert(wired(entries[k], builder.plans().len() as int));
}

/// In every state of a well-formed builder, each voucher that a batch requests is
/// registered as requested by this batch.
pub proof fn lemma_outputs_are_registered<State, A>(
    builder: CrossChainBuilder<State, A>,
    i: int,
    j: int,
)
    requires
        builder.wf(),
        0 <= i < builder.plans().len(),
        0 <= j < builder.plans()[i].output_vouchers@.len(),
    ensures
        ({
            let id = builder.plans()[i].output_vouchers@[j].ref_id@;
            let entries = builder.registry().entries();
            &&& has_key(entries, id)
            &&& entries[position(entries, id)].source_batch_index == i
        }),
{
    let id = builder.plans()[i].output_vouchers@[j].ref_id@;
    let entries = builder.registry().entries();
    assert(requested_by(entries, id, i));
    let k = choose|k: int| #[trigger] keyed_at(entries, id, k) && entries[k].source_batch_index == i;
    crate::voucher::lemma_position(entries, id, k);
}

impl<A: MultiChainSmartAccount> CrossChainBuilder<ReadyToBuild, A> {
    /// Whether `self` is `before` but for its registry.
    pub open spec fn same_but_registry(&self, before: &Self) -> bool {
        &&& self.env() == before.env()
        &&& self.plans() == before.plans()
        &&& self.bound_account() == before.bound_account()
        &&& self.built() == before.built()
    }

    fn assert_not_built(&self) -> (r: Result<()>)
        ensures
            r is Ok <==> !self.built(),
            r matches Err(e) ==> e == EilError::BuilderAlreadyBuilt,
    {
        if self.is_built {
            return Err(EilError::BuilderAlreadyBuilt);
        }
        Ok(())
    }

    /// Whether `after` and `r` are what recording the outcome of a selection for the
    /// voucher `ref_id` makes of `before`: an error is handed on and nothing is
    /// recorded; a list of providers is recorded for the voucher, unless one already is:
    /// the record is written once.
    pub open spec fn records(
        before: &Self,
        after: &Self,
        ref_id: Seq<char>,
        outcome: std::result::Result<Seq<Address>, EilErrorView>,
        r: Result<()>,
    ) -> bool {
        match outcome {
            Err(e) => {
                &&& r matches Err(x) && x@ == e
                &&& after.registry().entries() == before.registry().entries()
            },
            Ok(allowed) => {
                &&& r is Ok
                &&& all_kept(before.registry().entries(), after.registry().entries())
                &&& after.registry().contains(ref_id)
                &&& after.registry().entry(ref_id).allowed_xlps matches Some(recorded)
                &&& after.registry().entries() == before.registry().entries().update(
                    position(before.registry().entries(), ref_id),
                    with_allowed_xlps(before.registry().entry(ref_id), recorded),
                )
                &&& before.registry().entry(ref_id).allowed_xlps is None ==> recorded@ == allowed
            },
        }
    }

    /// Records the outcome of a selection for the voucher `ref_id`.
    fn record_allowed(&mut self, ref_id: &str, outcome: Result<Vec<Address>>) -> (r: Result<()>)
        requires
            old(self).wf(),
            old(self).registry().contains(ref_id@),
        ensures
            final(self).wf(),
            final(self).same_but_registry(old(self)),
            evolves(old(self).registry().entries(), final(self).registry().entries()),
            Self::records(
                old(self),
                final(self),
                ref_id@,
                match outcome {
                    Ok(allowed) => Ok(allowed@),
                    Err(e) => Err(e@),
                },
                r,
            ),
    {
        let ghost before = self.coordinator.entries();
        let allowed = match outcome {
            Ok(a) => a,
            Err(e) => {
                return Err(e);
            },
        };
        match self.coordinator.set_allowed_xlps(ref_id, allowed) {
            Ok(()) => {},
            Err(e) => {
                return Err(e);
            },
        }
        proof {
            let after = self.coordinator.entries();
            let p = position(before, ref_id@);
            assert(crate::voucher::keyed_at(before, ref_id@, p));
            assert(crate::voucher::keyed_at(after, ref_id@, p));
            crate::voucher::lemma_position(after, ref_id@, p);
            assert forall|k: int| 0 <= k < before.len() implies kept(before[k], #[trigger] after[k]) by {}
            lemma_agree_kept(before, after, self.plans(), self.plans().len() as int);
            assert forall|k: int| 0 <= k < after.len() implies wired(
                #[trigger] after[k],
                self.plans().len() as int,
            ) by {
                assert(kept(before[k], after[k]));
                assert(wired(before[k], self.plans().len() as int));
            }
            assert(all_kept(before, after));
            assert(self.registry().entry(ref_id@) == after[p]);
        }
        Ok(())
    }

    /// Whether `after` and `r` are what the selection with the custom filter `filter`
    /// on `candidates` makes of `before`, for the registered voucher `ref_id`: the
    /// filter has the last word on each solvent candidate, and the outcome of the
    /// policy on the candidates it accepted is recorded or handed on. Where no
    /// candidate is solvent the outcome is that of the policy on no provider.
    pub open spec fn filtered<F: XlpFilter + ?Sized>(
        before: &Self,
        after: &Self,
        ref_id: Seq<char>,
        candidates: Seq<SolventXlpInfo>,
        filter: &F,
        r: Result<()>,
    ) -> bool {
        let voucher = before.registry().entry(ref_id).voucher;
        let policy = before.env().spec_config().xlp_selection_config;
        let solvent = solvent_of(
            candidates,
            required_amounts(views(voucher.tokens@)),
            policy.deposit_reserve_factor,
            policy.include_balance,
        );
        &&& exists|accepted: Seq<SolventXlpInfo>, picks: Seq<int>|
            {
                &&& #[trigger] accepted_by(filter, voucher.destination_chain_id, solvent, accepted, picks)
                &&& Self::records(
                    before,
                    after,
                    ref_id,
                    allowed_of(provider_addresses(accepted), policy, voucher.destination_chain_id),
                    r,
                )
            }
        &&& solvent.len() == 0 ==> Self::records(
            before,
            after,
            ref_id,
            allowed_of(Seq::<Address>::empty(), policy, voucher.destination_chain_id),
            r,
        )
    }

    /// Runs the selection protocol for the voucher `ref_id` on the candidates that the
    /// paymaster of its destination chain lists, under the configured policy, and
    /// records the providers allowed; a record that stands is left as it is. Where the
    /// policy holds a custom filter, the filter has the last word on each solvent
    /// candidate. Fails with `VoucherNotFound` if no such voucher is registered, and as
    /// the selection fails.
    pub fn collect_xlps(&mut self, ref_id: &str, candidates: &Vec<SolventXlpInfo>) -> (r: Result<()>)
        requires
            old(self).wf(),
        ensures
            final(self).wf(),
            final(self).same_but_registry(old(self)),
            evolves(old(self).registry().entries(), final(self).registry().entries()),
            !old(self).registry().contains(ref_id@) ==> {
                &&& r matches Err(e) && e@ == EilErrorView::VoucherNotFound(ref_id@)
                &&& final(self).registry().entries() == old(self).registry().entries()
            },
            old(self).registry().contains(ref_id@) ==> match old(
                self,
            ).env().spec_config().xlp_selection_config.custom_xlp_filter {
                Some(filter) => Self::filtered(old(self), final(self), ref_id@, candidates@, &*filter, r),
                None => Self::records(
                    old(self),
                    final(self),
                    ref_id@,
                    selection(
                        candidates@,
                        views(old(self).registry().entry(ref_id@).voucher.tokens@),
                        old(self).env().spec_config().xlp_selection_config,
                        old(self).registry().entry(ref_id@).voucher.destination_chain_id,
                    ),
                    r,
                ),
            },
    {
        let policy: XlpSelectionConfig = self.network_env.config().xlp_selection_config.duplicate();
        match &policy.custom_xlp_filter {
            Some(filter) => self.collect_xlps_filtered(ref_id, candidates, &**filter),
            None => {
                let outcome = match self.coordinator.get(ref_id) {
                    Err(e) => {
                        return Err(e);
                    },
                    Ok(info) => select_xlps(
                        candidates,
                        &info.voucher.tokens,
                        &policy,
                        info.voucher.destination_chain_id,
                    ),
                };
                self.record_allowed(ref_id, outcome)
            },
        }
    }

    /// Runs the selection protocol for the voucher `ref_id` as `collect_xlps` does, with
    /// `filter` as the custom filter, whatever the policy holds: the candidates that
    /// the filter accepts go on to the reduction to addresses and the checks of the
    /// policy, whose outcome is recorded or handed on. Where no candidate is solvent
    /// the filter is not asked, and the outcome is that of the policy on no provider.
    /// Fails with `VoucherNotFound` if no such voucher is registered.
    pub fn collect_xlps_filtered<F: XlpFilter + ?Sized>(
        &mut self,
        ref_id: &str,
        candidates: &Vec<SolventXlpInfo>,
        filter: &F,
    ) -> (r: Result<()>)
        requires
            old(self).wf(),
        ensures
            final(self).wf(),
            final(self).same_but_registry(old(self)),
            evolves(old(self).registry().entries(), final(self).registry().entries()),
            !old(self).registry().contains(ref_id@) ==> {
                &&& r matches Err(e) && e@ == EilErrorView::VoucherNotFound(ref_id@)
                &&& final(self).registry().entries() == old(self).registry().entries()
            },
            old(self).registry().contains(ref_id@) ==> Self::filtered(
                old(self),
                final(self),
                ref_id@,
                candidates@,
                filter,
                r,
            ),
    {
        let policy: XlpSelectionConfig = self.network_env.config().xlp_selection_config.duplicate();
        let ghost mut accepted: Seq<SolventXlpInfo> = Seq::empty();
        let ghost mut picks: Seq<int> = Seq::empty();
        let outcome = match self.coordinator.get(ref_id) {
            Err(e) => {
                return Err(e);
            },
            Ok(info) => {
                let solvent = get_solvent_xlps(
                    candidates,
                    &info.voucher.tokens,
                    policy.deposit_reserve_factor,
                    policy.include_balance,
                );
                let ghost given = referents(solvent@);
                let chain_id: ChainId = info.voucher.destination_chain_id;
                let kept = retain_accepted(solvent, filter, chain_id);
                proof {
                    accepted = referents(kept@);
                    picks = choose|p: Seq<int>| #[trigger] accepted_by(filter, chain_id, given, accepted, p);
                    if given.len() == 0 {
                        assert(accepted.len() == 0) by {
                            if accepted.len() > 0 {
                                assert(0 <= picks[0] < given.len());
                            }
                        }
                        assert(provider_addresses(accepted) =~= Seq::<Address>::empty());
                    }
                }
                select_allowed_xlps(&kept, &policy, chain_id)
            },
        };
        self.record_allowed(ref_id, outcome)
    }

    /// For each registered voucher that has no allowed providers recorded, records
    /// that none are allowed: no provider is selected where no candidate was handed in.
    fn collect_xlps_per_voucher(&mut self)
        requires
            old(self).wf(),
        ensures
            final(self).wf(),
            final(self).same_but_registry(old(self)),
            evolves(old(self).registry().entries(), final(self).registry().entries()),
            xlps_recorded(old(self).registry().entries(), final(self).registry().entries()),
    {
        let ghost before = self.coordinator.entries();
        let mut k: usize = 0;
        while k < self.coordinator.len()
            invariant
                k <= self.coordinator.entries().len(),
                before == old(self).registry().entries(),
                old(self).wf(),
                self.coordinator.wf(),
                self.same_but_registry(old(self)),
                evolves(before, self.coordinator.entries()),
                all_kept(before, self.coordinator.entries()),
                forall|j: int|
                    0 <= j < k ==> {
                        let e = #[trigger] self.coordinator.entries()[j];
                        &&& e.voucher_request == before[j].voucher_request
                        &&& e.allowed_xlps is Some
                        &&& e.allowed_xlps->0@ == allowed_for(before[j])
                    },
                forall|j: int|
                    k <= j < before.len() ==> #[trigger] self.coordinator.entries()[j] == before[j],
            decreases self.coordinator.entries().len() - k,
        {
            let ghost current = self.coordinator.entries();
            assert(current[k as int] == before[k as int]);
            if self.coordinator.entry_at(k).allowed_xlps.is_none() {
                self.coordinator.set_allowed_xlps_at(k, Vec::new());
                proof {
                    lemma_evolves_transitive(before, current, self.coordinator.entries());
                    assert forall|j: int| 0 <= j < before.len() implies kept(
                        before[j],
                        #[trigger] self.coordinator.entries()[j],
                    ) by {
                        assert(kept(before[j], current[j]));
                    }
                }
            }
            k = k + 1;
        }
        proof {
            let after = self.coordinator.entries();
            lemma_agree_kept(before, after, self.plans(), self.plans().len() as int);
            assert forall|j: int| 0 <= j < after.len() implies wired(
                #[trigger] after[j],
                self.plans().len() as int,
            ) by {
                assert(kept(before[j], after[j]));
                assert(wired(before[j], self.plans().len() as int));
            }
        }
    }

    /// Translates every registered voucher request into its on-chain form, in the
    /// order of registration, and records it.
    fn build_vouchers(&mut self, now: u64) -> (r: Result<()>)
        requires
            old(self).wf(),
            old(self).bound_account() is Some,
            forall|k: int|
                0 <= k < old(self).registry().entries().len() ==> (#[trigger] old(
                    self,
                ).registry().entries()[k]).allowed_xlps is Some,
        ensures
            final(self).wf(),
            final(self).same_but_registry(old(self)),
            evolves(old(self).registry().entries(), final(self).registry().entries()),
            match translations(
                old(self).registry().entries(),
                old(self).bound_account()->0,
                old(self).env(),
                now,
            ) {
                Err(e) => r matches Err(x) && x@ == e,
                Ok(requests) => r is Ok && requests_recorded(
                    old(self).registry().entries(),
                    final(self).registry().entries(),
                    requests,
                ),
            },
    {
        let ghost before = self.coordinator.entries();
        let ghost account = self.bound_account()->0;
        let ghost env = self.env();
        let ghost mut done: Seq<VoucherRequestView> = Seq::empty();
        let mut k: usize = 0;
        proof {
            assert(before.subrange(0, 0) =~= Seq::<InternalVoucherInfo>::empty());
        }
        while k < self.coordinator.len()
            invariant
                k <= self.coordinator.entries().len(),
                before == old(self).registry().entries(),
                account == old(self).bound_account()->0,
                env == old(self).env(),
                old(self).wf(),
                old(self).bound_account() is Some,
                forall|j: int| 0 <= j < before.len() ==> (#[trigger] before[j]).allowed_xlps is Some,
                self.coordinator.wf(),
                self.same_but_registry(old(self)),
                evolves(before, self.coordinator.entries()),
                all_kept(before, self.coordinator.entries()),
                done.len() == k,
                forall|j: int|
                    0 <= j < before.len() ==> (#[trigger] self.coordinator.entries()[j]).allowed_xlps
                        == before[j].allowed_xlps,
                forall|j: int|
                    0 <= j < k ==> {
                        let e = #[trigger] self.coordinator.entries()[j];
                        &&& e.voucher_request is Some
                        &&& e.voucher_request->0@ == done[j]
                    },
                forall|j: int|
                    k <= j < before.len() ==> #[trigger] self.coordinator.entries()[j] == before[j],
                translations(before.subrange(0, k as int), account, env, now) == Ok::<
                    Seq<VoucherRequestView>,
                    EilErrorView,
                >(done),
            decreases self.coordinator.entries().len() - k,
        {
            proof {
                let next = before.subrange(0, k as int + 1);
                assert(next.drop_last() =~= before.subrange(0, k as int));
                assert(next.last() == before[k as int]);
            }
            let ghost current = self.coordinator.entries();
            assert(current[k as int] == before[k as int]);
            assert(before[k as int].voucher.source_chain_id is Some);
            proof {
                lemma_agree_kept(before, current, self.plans(), self.plans().len() as int);
            }
            if self.coordinator.entry_at(k).voucher_request.is_some() {
                proof {
                    done = done.push(before[k as int].voucher_request->0@);
                }
            } else {
                let account_ref = match &self.account {
                    Some(a) => a,
                    None => {
                        return Err(EilError::AccountNotSet);
                    },
                };
                let entry = self.coordinator.entry_at(k);
                let allowed: Vec<Address> = match &entry.allowed_xlps {
                    Some(a) => copy_addresses(a),
                    None => Vec::new(),
                };
                let request = match sdk_to_voucher_request(
                    &entry.voucher,
                    account_ref,
                    &self.network_env,
                    allowed,
                    now,
                ) {
                    Ok(v) => v,
                    Err(e) => {
                        proof {
                            lemma_translations_prefix(before, account, env, now, k as int + 1);
                        }
                        return Err(e);
                    },
                };
                proof {
                    done = done.push(request@);
                }
                self.coordinator.set_voucher_request_at(k, request);
            }
            proof {
                lemma_evolves_transitive(before, current, self.coordinator.entries());
                assert forall|j: int| 0 <= j < before.len() implies kept(
                    before[j],
                    #[trigger] self.coordinator.entries()[j],
                ) by {
                    assert(kept(before[j], current[j]));
                }
                assert forall|j: int| 0 <= j < before.len() implies (
                #[trigger] self.coordinator.entries()[j]).allowed_xlps == before[j].allowed_xlps by {
                    assert(current[j].allowed_xlps == before[j].allowed_xlps);
                }
                assert forall|j: int| 0 <= j < k + 1 implies {
                    let e = #[trigger] self.coordinator.entries()[j];
                    &&& e.voucher_request is Some
                    &&& e.voucher_request->0@ == done[j]
                } by {
                    if j < k {
                        assert(self.coordinator.entries()[j] == current[j]);
                    }
                }
            }
            k = k + 1;
        }
        proof {
            assert(before.subrange(0, k as int) =~= before);
            let after = self.coordinator.entries();
            lemma_agree_kept(before, after, self.plans(), self.plans().len() as int);
            assert forall|j: int| 0 <= j < after.len() implies wired(
                #[trigger] after[j],
                self.plans().len() as int,
            ) by {
                assert(kept(before[j], after[j]));
                assert(wired(before[j], self.plans().len() as int));
            }
        }
        Ok(())
    }

    /// Plans every batch: encodes its actions and resolves its entry point.
    fn plan_calls(&self) -> (r: Result<Vec<PlannedBatch>>)
        ensures
            match planned_batches(self.plans(), self.env()) {
                Err(e) => r matches Err(x) && x@ == e,
                Ok(batches) => r matches Ok(v) && views(v@) == batches,
            },
    {
        let mut planned: Vec<PlannedBatch> = Vec::new();
        let mut i: usize = 0;
        proof {
            assert(self.plans().subrange(0, 0) =~= Seq::<BatchPlan>::empty());
            assert(views(planned@) =~= Seq::<PlannedBatchView>::empty());
        }
        while i < self.batches.len()
            invariant
                i <= self.batches.len(),
                planned_batches(self.plans().subrange(0, i as int), self.env()) == Ok::<
                    Seq<PlannedBatchView>,
                    EilErrorView,
                >(views(planned@)),
            decreases self.batches.len() - i,
        {
            proof {
                let next = self.plans().subrange(0, i as int + 1);
                assert(next.drop_last() =~= self.plans().subrange(0, i as int));
                assert(next.last() == self.plans()[i as int]);
            }
            let plan = &self.batches[i];
            let context = BatchContext {
                chain_id: plan.chain_id,
                coordinator: &self.coordinator,
                network_env: &self.network_env,
            };
            let calls = match encode_actions(&plan.actions, &context) {
                Ok(c) => c,
                Err(e) => {
                    proof {
                        lemma_planned_batches_prefix(self.plans(), self.env(), i as int + 1);
                    }
                    return Err(e);
                },
            };
            let entry_point: Address = match self.network_env.entry_point(plan.chain_id) {
                Ok(a) => a,
                Err(e) => {
                    proof {
                        lemma_planned_batches_prefix(self.plans(), self.env(), i as int + 1);
                    }
                    return Err(e);
                },
            };
            let ghost before = planned@;
            let batch = PlannedBatch {
                chain_id: plan.chain_id,
                entry_point,
                calls,
                input_voucher_requests: duplicate_requests(&plan.input_vouchers),
                out_voucher_requests: duplicate_requests(&plan.output_vouchers),
            };
            planned.push(batch);
            assert(views(planned@) =~= views(before).push(batch@));
            i = i + 1;
        }
        proof {
            assert(self.plans().subrange(0, i as int) =~= self.plans());
        }
        Ok(planned)
    }

    /// Plans the operation as it stands at the moment `now` (Unix seconds): settles
    /// the allowed providers of every voucher, translates every voucher request,
    /// checks that every voucher is used, and plans every batch. What is left to do with the planned batches is to have the account
    /// encode their calls and sign their operations.
    pub fn plan_batches(&mut self, now: u64) -> (r: Result<Vec<PlannedBatch>>)
        requires
            old(self).wf(),
        ensures
            final(self).wf(),
            final(self).same_but_registry(old(self)),
            evolves(old(self).registry().entries(), final(self).registry().entries()),
            match planning(
                old(self).built(),
                old(self).bound_account(),
                old(self).plans(),
                old(self).registry().entries(),
                old(self).env(),
                now,
            ) {
                Err(e) => r matches Err(x) && x@ == e,
                Ok(plan) => r matches Ok(v) && views(v@) == plan.1 && planned_entries(
                    old(self).registry().entries(),
                    final(self).registry().entries(),
                    plan.0,
                ),
            },
    {
        let ghost before = self.coordinator.entries();
        self.assert_not_built()?;
        if self.account.is_none() {
            return Err(EilError::AccountNotSet);
        }
        self.collect_xlps_per_voucher();
        let ghost with_xlps = self.coordinator.entries();
        proof {
            assert forall|k: int| 0 <= k < before.len() implies (#[trigger] before[k]).voucher
                == with_xlps[k].voucher && allowed_for(before[k]) == allowed_for(with_xlps[k])
                && before[k].voucher_request == with_xlps[k].voucher_request by {
                assert(kept(before[k], with_xlps[k]));
            }
            lemma_translations_same(before, with_xlps, self.bound_account()->0, self.env(), now);
        }
        self.build_vouchers(now)?;
        let ghost translated = self.coordinator.entries();
        proof {
            lemma_evolves_transitive(before, with_xlps, translated);
            assert(all_kept(before, translated)) by {
                assert forall|k: int| 0 <= k < before.len() implies kept(
                    before[k],
                    #[trigger] translated[k],
                ) by {
                    assert(kept(before[k], with_xlps[k]));
                    assert(kept(with_xlps[k], translated[k]));
                }
            }
            lemma_unconsumed_same(before, translated);
        }
        self.coordinator.validate_all_consumed()?;
        let planned = self.plan_calls()?;
        proof {
            let requests = translations(before, self.bound_account()->0, self.env(), now)->Ok_0;
            assert forall|k: int| 0 <= k < before.len() implies {
                let e = #[trigger] translated[k];
                &&& e.voucher == before[k].voucher
                &&& e.source_batch_index == before[k].source_batch_index
                &&& e.dest_batch_index == before[k].dest_batch_index
                &&& e.signed_voucher == before[k].signed_voucher
                &&& e.allowed_xlps is Some
                &&& e.allowed_xlps->0@ == allowed_for(before[k])
                &&& e.voucher_request is Some
                &&& e.voucher_request->0@ == requests[k]
            } by {
                assert(kept(before[k], translated[k]));
                assert(translated[k].allowed_xlps == with_xlps[k].allowed_xlps);
            }
        }
        Ok(planned)
    }
}

impl<A: MultiChainSmartAccount> CrossChainBuilder<ReadyToBuild, A> {
    /// Whether `after` and `r` are what building at the moment `now` (Unix seconds)
    /// makes of `before`: as planning fails, so does building, with the same error;
    /// else the vouchers are recorded as planned, and the planned batches are built in
    /// turn by the account bound. With no batch there is nothing to refuse.
    pub open spec fn built_at(before: &Self, after: &Self, now: u64, r: Result<Vec<SingleChainBatch>>) -> bool {
        match planning(
            before.built(),
            before.bound_account(),
            before.plans(),
            before.registry().entries(),
            before.env(),
            now,
        ) {
            Err(e) => r matches Err(x) && x@ == e,
            Ok(plan) => {
                &&& planned_entries(before.registry().entries(), after.registry().entries(), plan.0)
                &&& before.bound_account() is Some
                &&& exists|planned: Seq<PlannedBatch>|
                    views(planned) == plan.1 && #[trigger] built_from(
                        &before.bound_account()->0,
                        planned,
                        r,
                    )
                &&& r matches Ok(batches) ==> all_sealed(plan.1, batches@)
                &&& plan.1.len() == 0 ==> r is Ok
            },
        }
    }

    /// Whether `r` is what building and signing at the moment `now` (Unix seconds)
    /// makes of this builder: as planning fails, so does the call, with the same
    /// error; else the planned batches are built and signed by the account bound, step
    /// by step, and the batches signed go into their executor.
    pub open spec fn signed_at(&self, now: u64, r: Result<CrossChainExecutor>) -> bool {
        match planning(
            self.built(),
            self.bound_account(),
            self.plans(),
            self.registry().entries(),
            self.env(),
            now,
        ) {
            Err(e) => r matches Err(x) && x@ == e,
            Ok(plan) => {
                &&& self.bound_account() is Some
                &&& exists|
                    planned: Seq<PlannedBatch>,
                    built: Result<Vec<SingleChainBatch>>,
                    signed: Result<Vec<SingleChainBatch>>,
                |
                    views(planned) == plan.1 && #[trigger] sealing(
                        &self.bound_account()->0,
                        self.env(),
                        planned,
                        built,
                        signed,
                        r,
                    )
                &&& r matches Ok(executor) ==> {
                    &&& crate::voucher::all_consumed(self.registry().entries())
                    &&& executor.wf()
                    &&& !executor.started()
                    &&& executor.env() == self.env()
                    &&& executor.timeout() == self.env().spec_config().exec_timeout_seconds
                    &&& executor.statuses().len() == plan.1.len()
                    &&& forall|i: int|
                        0 <= i < plan.1.len() ==> {
                            let status = #[trigger] executor.statuses()[i];
                            &&& crate::executor::initial_status(i, status.batch, status)
                            &&& sealed_and_signed(plan.1[i], status.batch@)
                        }
                }
            },
        }
    }

    /// Builds all batches into single-chain batches, as the operation stands at the
    /// moment `now` (Unix seconds): plans the operation, then has the account encode
    /// the calls of each batch. Fails as planning fails, or with the error of the
    /// account at the first batch whose calls it does not encode.
    pub fn build_single_chain_batches_at(&mut self, now: u64) -> (r: Result<Vec<SingleChainBatch>>)
        requires
            old(self).wf(),
        ensures
            final(self).wf(),
            final(self).same_but_registry(old(self)),
            evolves(old(self).registry().entries(), final(self).registry().entries()),
            Self::built_at(old(self), final(self), now, r),
    {
        let planned = self.plan_batches(now)?;
        let ghost handed = planned@;
        let account = match &self.account {
            Some(a) => a,
            None => {
                return Err(EilError::AccountNotSet);
            },
        };
        let r = build_batches(planned, account);
        proof {
            assert(built_from(&old(self).bound_account()->0, handed, r));
            if handed.len() == 0 {
                lemma_nothing_to_build(account, handed, r);
            }
            if r is Ok {
                assert(all_sealed(views(handed), r->Ok_0@));
            }
        }
        r
    }

    /// Builds all batches into single-chain batches, as the operation stands now.
    /// Whatever the clock says, the result is that of `build_single_chain_batches_at`
    /// for some moment.
    pub fn build_single_chain_batches(&mut self) -> (r: Result<Vec<SingleChainBatch>>)
        requires
            old(self).wf(),
        ensures
            final(self).wf(),
            final(self).same_but_registry(old(self)),
            evolves(old(self).registry().entries(), final(self).registry().entries()),
            exists|now: u64| #[trigger] Self::built_at(old(self), final(self), now, r),
    {
        let now: u64 = now_seconds();
        let r = self.build_single_chain_batches_at(now);
        proof {
            assert(Self::built_at(old(self), self, now, r));
        }
        r
    }

    /// Builds the operation as it stands at the moment `now` (Unix seconds), has the
    /// account sign the user operations of all batches in one call, and seals the
    /// builder into the executor of the signed batches.
    ///
    /// Fails as planning fails, as the account fails to encode calls or to sign, and
    /// with `UserOpNotSigned` where what the account returns from signing is not the
    /// operations it was given, in order, changed in their signatures only. Where it
    /// succeeds, every registered voucher is used by a batch.
    pub fn build_and_sign_at(self, now: u64) -> (r: Result<CrossChainExecutor>)
        requires
            self.wf(),
        ensures
            self.signed_at(now, r),
    {
        let mut this = self;
        let built = this.build_single_chain_batches_at(now);
        let ghost plan = planning(
            self.built(),
            self.bound_account(),
            self.plans(),
            self.registry().entries(),
            self.env(),
            now,
        );
        let batches = match built {
            Ok(b) => b,
            Err(e) => {
                proof {
                    if plan is Ok {
                        let planned = choose|planned: Seq<PlannedBatch>|
                            views(planned) == plan->Ok_0.1 && #[trigger] built_from(
                                &self.bound_account()->0,
                                planned,
                                built,
                            );
                        assert(sealing(
                            &self.bound_account()->0,
                            self.env(),
                            planned,
                            built,
                            Err::<Vec<SingleChainBatch>, EilError>(e),
                            Err::<CrossChainExecutor, EilError>(e),
                        ));
                    }
                }
                return Err(e);
            },
        };
        let ghost planned = choose|planned: Seq<PlannedBatch>|
            views(planned) == plan->Ok_0.1 && #[trigger] built_from(&self.bound_account()->0, planned, built);
        proof {
            lemma_all_consumed(self.registry().entries());
        }
        let account = match &this.account {
            Some(a) => a,
            None => {
                return Err(EilError::AccountNotSet);
            },
        };
        let signed = sign_batches(batches, account);
        let signed_batches = match signed {
            Ok(s) => s,
            Err(e) => {
                proof {
                    assert(sealing(
                        &self.bound_account()->0,
                        self.env(),
                        planned,
                        built,
                        signed,
                        Err::<CrossChainExecutor, EilError>(e),
                    ));
                }
                return Err(e);
            },
        };
        this.is_built = true;
        let executor = CrossChainExecutor::new(this.network_env, signed_batches);
        proof {
            lemma_signing_keeps_batches(&self.bound_account()->0, batches@, signed_batches);
            assert(executor_of(self.env(), signed_batches@, executor));
            assert(sealing(
                &self.bound_account()->0,
                self.env(),
                planned,
                built,
                signed,
                Ok::<CrossChainExecutor, EilError>(executor),
            ));
        }
        Ok(executor)
    }

    /// Builds and signs the operation as it stands now. Whatever the clock says, the
    /// result is that of `build_and_sign_at` for some moment.
    pub fn build_and_sign(self) -> (r: Result<CrossChainExecutor>)
        requires
            self.wf(),
        ensures
            exists|now: u64| #[trigger] self.signed_at(now, r),
            r is Ok ==> crate::voucher::all_consumed(self.registry().entries()),
    {
        let now: u64 = now_seconds();
        let r = self.build_and_sign_at(now);
        proof {
            assert(self.signed_at(now, r));
        }
        r
    }
}

/// Building emits the batches in the order in which they were closed: where it
/// succeeds, there is one single-chain batch for each batch of the builder, on the
/// chain of that batch and with the vouchers that the batch uses and requests; and
/// every registered voucher has its producer and its consumer as before.
pub proof fn lemma_build_emits_batches_in_order<A: MultiChainSmartAccount>(
    before: CrossChainBuilder<ReadyToBuild, A>,
    after: CrossChainBuilder<ReadyToBuild, A>,
    now: u64,
    batches: Vec<SingleChainBatch>,
)
    requires
        CrossChainBuilder::built_at(&before, &after, now, Ok::<Vec<SingleChainBatch>, EilError>(batches)),
    ensures
        batches@.len() == before.plans().len(),
        forall|i: int|
            0 <= i < before.plans().len() ==> {
                let batch = #[trigger] batches@[i];
                &&& batch.chain_id == before.plans()[i].chain_id
                &&& batch@.user_op.chain_id == Some(before.plans()[i].chain_id)
                &&& batch@.input_voucher_requests == views(before.plans()[i].input_vouchers@)
                &&& batch@.out_voucher_requests == views(before.plans()[i].output_vouchers@)
            },
        after.registry().entries().len() == before.registry().entries().len(),
        forall|k: int|
            0 <= k < before.registry().entries().len() ==> {
                let e = #[trigger] after.registry().entries()[k];
                &&& e.key() == before.registry().entries()[k].key()
                &&& e.source_batch_index == before.registry().entries()[k].source_batch_index
                &&& e.dest_batch_index == before.registry().entries()[k].dest_batch_index
                &&& e.dest_batch_index is Some
            },
{
    lemma_planned_operation_uses_every_voucher(
        before.built(),
        before.bound_account(),
        before.plans(),
        before.registry().entries(),
        before.env(),
        now,
    );
    lemma_planned_batches_in_order(before.plans(), before.env());
    let plan = planning(
        before.built(),
        before.bound_account(),
        before.plans(),
        before.registry().entries(),
        before.env(),
        now,
    )->Ok_0;
    assert forall|i: int| 0 <= i < before.plans().len() implies {
        let batch = #[trigger] batches@[i];
        &&& batch.chain_id == before.plans()[i].chain_id
        &&& batch@.user_op.chain_id == Some(before.plans()[i].chain_id)
        &&& batch@.input_voucher_requests == views(before.plans()[i].input_vouchers@)
        &&& batch@.out_voucher_requests == views(before.plans()[i].output_vouchers@)
    } by {
        assert(planned_batch(before.plans()[i], before.env()) == Ok::<PlannedBatchView, EilErrorView>(
            plan.1[i],
        ));
        assert(batches@[i]@ == sealed(plan.1[i], batches@[i]@.user_op.call_data));
    }
}

/// The voucher pair: where a batch requests a voucher and the batch opened next uses
/// it, the use succeeds, and once both batches are closed the voucher is registered
/// with the first batch as its producer and the second as its consumer; the two
/// batches stand in the builder in this order, the voucher among what the first
/// requests and among what the second uses.
pub proof fn lemma_voucher_pair<A: MultiChainSmartAccount>(
    producer: BatchBuilder<A>,
    between: CrossChainBuilder<ReadyToBuild, A>,
    consumer: BatchBuilder<A>,
    used: BatchBuilder<A>,
    closed: CrossChainBuilder<ReadyToBuild, A>,
    j: int,
)
    requires
        producer.wf(),
        0 <= j < producer.plan().output_vouchers@.len(),
        closes(producer, between),
        consumer.wf(),
        consumer.parent() == between,
        uses(consumer, producer.plan().output_vouchers@[j].ref_id@, used),
        closes(used, closed),
    ensures
        ({
            let id = producer.plan().output_vouchers@[j].ref_id@;
            let first = producer.plan().batch_index as int;
            &&& between.registry().contains(id)
            &&& between.registry().entry(id).dest_batch_index is None
            &&& consumer.plan().batch_index == first + 1
            &&& closed.plans().len() == first + 2
            &&& closed.plans()[first] == producer.plan()
            &&& closed.plans()[first + 1] == used.plan()
            &&& lists(used.plan().input_vouchers@, id)
            &&& closed.registry().contains(id)
            &&& closed.registry().entry(id).source_batch_index == first
            &&& closed.registry().entry(id).dest_batch_index == Some(consumer.plan().batch_index)
        }),
{
    let id = producer.plan().output_vouchers@[j].ref_id@;
    let start = producer.parent().registry().entries();
    let middle = between.registry().entries();
    let marked = used.parent().registry().entries();
    let end = closed.registry().entries();
    let p = start.len() + j;
    assert(keyed_at(middle, id, p)) by {
        assert(middle[start.len() + j].voucher@ == producer.plan().output_vouchers@[j]@);
    }
    crate::voucher::lemma_position(middle, id, p);
    assert(keyed_at(marked, id, p));
    assert(end.subrange(0, marked.len() as int)[p] == end[p]);
    assert(keyed_at(end, id, p));
    crate::voucher::lemma_position(end, id, p);
    let inputs = views(used.plan().input_vouchers@);
    assert(inputs[inputs.len() - 1] == middle[p].voucher@);
    assert(used.plan().input_vouchers@[inputs.len() - 1]@ == inputs[inputs.len() - 1]);
}

/// With the mock account, which encodes every call and signs by the rule, building and
/// signing succeeds wherever planning does.
pub proof fn lemma_mock_account_seals_what_is_planned(
    builder: CrossChainBuilder<ReadyToBuild, MockAccount>,
    now: u64,
    r: Result<CrossChainExecutor>,
)
    requires
        builder.signed_at(now, r),
    ensures
        r is Ok <==> planning(
            builder.built(),
            builder.bound_account(),
            builder.plans(),
            builder.registry().entries(),
            builder.env(),
            now,
        ) is Ok,
{
    let plan = planning(
        builder.built(),
        builder.bound_account(),
        builder.plans(),
        builder.registry().entries(),
        builder.env(),
        now,
    );
    if plan is Ok {
        let (planned, built, signed) = choose|
            planned: Seq<PlannedBatch>,
            built: Result<Vec<SingleChainBatch>>,
            signed: Result<Vec<SingleChainBatch>>,
        |
            views(planned) == plan->Ok_0.1 && #[trigger] sealing(
                &builder.bound_account()->0,
                builder.env(),
                planned,
                built,
                signed,
                r,
            );
        assert(built is Ok);
        assert(signed is Ok);
    }
}

/// With the mock account, which encodes every call, building succeeds wherever planning
/// does.
pub proof fn lemma_mock_account_builds_what_is_planned(
    before: CrossChainBuilder<ReadyToBuild, MockAccount>,
    after: CrossChainBuilder<ReadyToBuild, MockAccount>,
    now: u64,
    r: Result<Vec<SingleChainBatch>>,
)
    requires
        CrossChainBuilder::built_at(&before, &after, now, r),
    ensures
        r is Ok <==> planning(
            before.built(),
            before.bound_account(),
            before.plans(),
            before.registry().entries(),
            before.env(),
            now,
        ) is Ok,
{
    let plan = planning(
        before.built(),
        before.bound_account(),
        before.plans(),
        before.registry().entries(),
        before.env(),
        now,
    );
    if plan is Ok && r is Err {
        let planned = choose|planned: Seq<PlannedBatch>|
            views(planned) == plan->Ok_0.1 && #[trigger] built_from(&before.bound_account()->0, planned, r);
        let done = choose|done: Seq<Hex>|
            #[trigger] refused_after(&before.bound_account()->0, planned, done, r->Err_0);
        assert(refused_after(&before.bound_account()->0, planned, done, r->Err_0));
    }
}

/// The voucher pair builds: a fresh builder with an account, a first batch that
/// requests one voucher, a second batch that uses it, both closed in this order, and
/// providers collected since or not. Where every address that the translation of the
/// request asks for is there and both batches can be planned, planning succeeds, and
/// what building comes to rests on the account alone: where it encodes the calls of
/// both batches, there are two single-chain batches, in the order of the closing and
/// on the chains of the batches, the voucher the one output of the first and the one
/// input of the second; else the error is the one with which the account refused.
/// The registry holds the voucher with the first batch as its producer and the second
/// as its consumer.
pub proof fn lemma_voucher_pair_builds<A: MultiChainSmartAccount>(
    producer: BatchBuilder<A>,
    between: CrossChainBuilder<ReadyToBuild, A>,
    consumer: BatchBuilder<A>,
    used: BatchBuilder<A>,
    closed: CrossChainBuilder<ReadyToBuild, A>,
    ready: CrossChainBuilder<ReadyToBuild, A>,
    after: CrossChainBuilder<ReadyToBuild, A>,
    now: u64,
    r: Result<Vec<SingleChainBatch>>,
)
    requires
        producer.wf(),
        producer.parent().plans().len() == 0,
        producer.parent().registry().entries().len() == 0,
        !producer.parent().built(),
        producer.parent().bound_account() is Some,
        producer.plan().input_vouchers@.len() == 0,
        producer.plan().output_vouchers@.len() == 1,
        closes(producer, between),
        consumer.wf(),
        consumer.parent() == between,
        consumer.plan().input_vouchers@.len() == 0,
        consumer.plan().output_vouchers@.len() == 0,
        uses(consumer, producer.plan().output_vouchers@[0].ref_id@, used),
        closes(used, closed),
        ready.same_but_registry(&closed),
        all_kept(closed.registry().entries(), ready.registry().entries()),
        mapped(producer.plan().output_vouchers@[0]@, closed.bound_account()->0, closed.env()),
        planned_batch(producer.plan(), closed.env()) is Ok,
        planned_batch(used.plan(), closed.env()) is Ok,
        CrossChainBuilder::built_at(&ready, &after, now, r),
    ensures
        planning(
            ready.built(),
            ready.bound_account(),
            ready.plans(),
            ready.registry().entries(),
            ready.env(),
            now,
        ) is Ok,
        r matches Ok(batches) ==> {
            &&& batches@.len() == 2
            &&& batches@[0].chain_id == producer.plan().chain_id
            &&& batches@[1].chain_id == consumer.plan().chain_id
            &&& batches@[0]@.input_voucher_requests.len() == 0
            &&& batches@[0]@.out_voucher_requests == seq![producer.plan().output_vouchers@[0]@]
            &&& batches@[1]@.input_voucher_requests == seq![producer.plan().output_vouchers@[0]@]
            &&& batches@[1]@.out_voucher_requests.len() == 0
        },
        r matches Err(e) ==> exists|planned: Seq<PlannedBatch>, done: Seq<Hex>|
            #[trigger] refused_after(&ready.bound_account()->0, planned, done, e),
        after.registry().entries().len() == 1,
        after.registry().entries()[0].key() == producer.plan().output_vouchers@[0].ref_id@,
        after.registry().entries()[0].source_batch_index == 0,
        after.registry().entries()[0].dest_batch_index == Some(1usize),
{
    let request = producer.plan().output_vouchers@[0];
    let id = request.ref_id@;
    let account = closed.bound_account()->0;
    let env = closed.env();
    let middle = between.registry().entries();
    let marked = used.parent().registry().entries();
    let end = closed.registry().entries();
    let held = ready.registry().entries();
    assert(middle.len() == 1);
    assert(middle[0].voucher@ == request@) by {
        let first: int = 0;
        assert(middle[producer.parent().registry().entries().len() + first].voucher@
            == producer.plan().output_vouchers@[first]@);
    }
    assert(keyed_at(middle, id, 0));
    crate::voucher::lemma_position(middle, id, 0);
    assert(marked.len() == 1 && end.len() == 1);
    assert(end.subrange(0, 1)[0] == end[0]);
    assert(end[0] == marked[0]);
    assert(kept(end[0], held[0]));
    assert(held.drop_last() =~= Seq::<InternalVoucherInfo>::empty());
    assert(held.last() == held[0]);
    if held[0].voucher_request is None {
        lemma_mapped_request_translates(held[0].voucher@, account, env, allowed_for(held[0]), now);
    }
    assert(translations(held.drop_last(), account, env, now) is Ok);
    assert(translations(held, account, env, now) is Ok);
    assert(unconsumed_error(held.drop_last()) is None);
    assert(unconsumed_error(held) is None);
    let plans = ready.plans();
    assert(plans == seq![producer.plan(), used.plan()]) by {
        assert(plans =~= seq![producer.plan(), used.plan()]);
    }
    assert(plans.drop_last() =~= seq![producer.plan()]);
    assert(plans.drop_last().drop_last() =~= Seq::<BatchPlan>::empty());
    assert(planned_batches(plans.drop_last().drop_last(), env) is Ok);
    assert(plans.drop_last().last() == producer.plan());
    assert(planned_batches(plans.drop_last(), env) is Ok);
    assert(plans.last() == used.plan());
    assert(planned_batches(plans, env) is Ok);
    if r is Ok {
        lemma_build_emits_batches_in_order(ready, after, now, r->Ok_0);
        let inputs = views(used.plan().input_vouchers@);
        assert(inputs =~= seq![request@]);
        assert(views(producer.plan().output_vouchers@) =~= seq![request@]);
        assert(views(producer.plan().input_vouchers@).len() == 0);
        assert(views(used.plan().output_vouchers@).len() == 0);
    } else {
        let plan = planning(
            ready.built(),
            ready.bound_account(),
            ready.plans(),
            ready.registry().entries(),
            ready.env(),
            now,
        )->Ok_0;
        let planned = choose|planned: Seq<PlannedBatch>|
            views(planned) == plan.1 && #[trigger] built_from(&ready.bound_account()->0, planned, r);
        let done = choose|done: Seq<Hex>|
            #[trigger] refused_after(&ready.bound_account()->0, planned, done, r->Err_0);
        assert(refused_after(&ready.bound_account()->0, planned, done, r->Err_0));
    }
}

} // verus!
