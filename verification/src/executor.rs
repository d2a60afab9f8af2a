//! The cross-chain executor: decides, tick by tick, which batch is submitted next.
//!
//! The executor is a state machine. Whoever drives it performs the outside work
//! (submitting operations, waiting, listening for vouchers) and reports back what
//! happened; every decision, and every progress notice that is owed to the caller, is
//! made here.

use vstd::prelude::*;
use crate::contract_types::{
    copy_blobs, copy_bytes, duplicate_requests, views, BatchStatusInfo, SdkVoucherRequest,
    SdkVoucherRequestView, SingleChainBatch, Voucher,
};
use crate::error::{EilError, Result};
use crate::network::NetworkEnvironment;
use crate::types::{Hex, OperationStatus};

verus! {

/// The kinds of progress notice.
#[derive(Debug, Clone, Copy, PartialEq, Eq, Structural)]
pub enum CallbackType {
    /// Submitting a user operation for execution.
    Executing,
    /// The user operation completed execution.
    Done,
    /// The user operation reverted.
    Failed,
    /// Waiting for vouchers to be signed.
    WaitingForVouchers,
    /// A voucher was signed by a provider.
    VoucherIssued,
}

/// A progress notice about one batch.
#[derive(Debug, Clone)]
pub struct ExecCallbackData {
    /// Batch index.
    pub index: usize,
    /// Kind of notice.
    pub callback_type: CallbackType,
    /// Hash of the user operation of the batch.
    pub user_op_hash: Hex,
    /// Transaction hash (if executed).
    pub tx_hash: Option<Hex>,
    /// Request ids (for vouchers).
    pub request_ids: Option<Vec<Hex>>,
    /// Revert reason (if failed).
    pub revert_reason: Option<String>,
    /// Input voucher requests.
    pub input_voucher_requests: Vec<SdkVoucherRequest>,
    /// Output voucher requests.
    pub out_voucher_requests: Vec<SdkVoucherRequest>,
}

/// What an `ExecCallbackData` stands for.
pub struct ExecCallbackDataView {
    pub index: usize,
    pub callback_type: CallbackType,
    pub user_op_hash: Seq<u8>,
    pub tx_hash: Option<Seq<u8>>,
    pub request_ids: Option<Seq<Seq<u8>>>,
    pub revert_reason: Option<Seq<char>>,
    pub input_voucher_requests: Seq<SdkVoucherRequestView>,
    pub out_voucher_requests: Seq<SdkVoucherRequestView>,
}

impl View for ExecCallbackData {
    type V = ExecCallbackDataView;

    open spec fn view(&self) -> ExecCallbackDataView {
        ExecCallbackDataView {
            index: self.index,
            callback_type: self.callback_type,
            user_op_hash: self.user_op_hash@,
            tx_hash: match self.tx_hash {
                Some(h) => Some(h@),
                None => None,
            },
            request_ids: match self.request_ids {
                Some(ids) => Some(views(ids@)),
                None => None,
            },
            revert_reason: match self.revert_reason {
                Some(reason) => Some(reason@),
                None => None,
            },
            input_voucher_requests: views(self.input_voucher_requests@),
            out_voucher_requests: views(self.out_voucher_requests@),
        }
    }
}

/// What the driver is to do after a tick.
#[derive(Debug, Clone, Copy, PartialEq, Eq, Structural)]
pub enum Tick {
    /// Submit the user operation of this batch, then report how it went.
    Submit { index: usize },
    /// Nothing can be submitted now: wait briefly, then tick again.
    Wait,
    /// Every batch is done or failed.
    Finished,
}

/// How a submission ended.
#[derive(Debug, Clone)]
pub enum Submission {
    /// The operation was executed.
    Executed { tx_hash: Hex, request_ids: Option<Vec<Hex>> },
    /// The operation reverted.
    Reverted { reason: String },
}

/// The reference ids of the vouchers a batch consumes, in order.
pub open spec fn input_refs(b: BatchStatusInfo) -> Seq<Seq<char>> {
    Seq::new(
        b.batch.input_voucher_requests@.len(),
        |k: int| b.batch.input_voucher_requests@[k].ref_id@,
    )
}

/// The reference ids of the signed vouchers a batch has received, in order.
pub open spec fn received_refs(b: BatchStatusInfo) -> Seq<Seq<char>> {
    Seq::new(b.vouchers@.len(), |k: int| b.vouchers@[k].0@)
}

/// Whether a batch has received the signed voucher for each voucher it consumes.
pub open spec fn inputs_ready(b: BatchStatusInfo) -> bool {
    forall|k: int|
        0 <= k < input_refs(b).len() ==> received_refs(b).contains(#[trigger] input_refs(b)[k])
}

/// Whether a batch can be submitted: it is pending and has all its vouchers.
pub open spec fn ready(b: BatchStatusInfo) -> bool {
    b.status == OperationStatus::Pending && inputs_ready(b)
}

/// Whether a batch is done or failed.
pub open spec fn finished(b: BatchStatusInfo) -> bool {
    b.status == OperationStatus::Done || b.status == OperationStatus::Failed
}

/// Whether every batch is done or failed.
pub open spec fn all_finished(s: Seq<BatchStatusInfo>) -> bool {
    forall|i: int| 0 <= i < s.len() ==> finished(#[trigger] s[i])
}

/// Whether `i` is the first batch that can be submitted.
pub open spec fn first_ready(s: Seq<BatchStatusInfo>, i: int) -> bool {
    &&& 0 <= i < s.len()
    &&& ready(s[i])
    &&& forall|k: int| 0 <= k < i ==> !ready(#[trigger] s[k])
}

/// Whether no batch can be submitted.
pub open spec fn none_ready(s: Seq<BatchStatusInfo>) -> bool {
    forall|i: int| 0 <= i < s.len() ==> !ready(#[trigger] s[i])
}

/// Whether every batch carries a signature.
pub open spec fn all_signed(s: Seq<BatchStatusInfo>) -> bool {
    forall|i: int| 0 <= i < s.len() ==> (#[trigger] s[i]).batch.user_op.signature@.len() > 0
}

/// The initial state of a batch in the executor.
pub open spec fn initial_status(index: int, batch: SingleChainBatch, b: BatchStatusInfo) -> bool {
    &&& b.index == index
    &&& b.batch == batch
    &&& b.status == OperationStatus::Pending
    &&& b.vouchers@.len() == 0
    &&& b.request_ids is None
    &&& b.tx_hash is None
    &&& b.revert_reason is None
}

/// The notice of kind `kind` about batch `b`: the batch's index, hash and voucher
/// requests, and what is known of its execution.
pub open spec fn notice(b: BatchStatusInfo, kind: CallbackType) -> ExecCallbackDataView {
    ExecCallbackDataView {
        index: b.index,
        callback_type: kind,
        user_op_hash: b.batch.user_op_hash@,
        tx_hash: match b.tx_hash {
            Some(h) => Some(h@),
            None => None,
        },
        request_ids: match b.request_ids {
            Some(ids) => Some(views(ids@)),
            None => None,
        },
        revert_reason: match b.revert_reason {
            Some(reason) => Some(reason@),
            None => None,
        },
        input_voucher_requests: views(b.batch.input_voucher_requests@),
        out_voucher_requests: views(b.batch.out_voucher_requests@),
    }
}

/// The `WaitingForVouchers` notices owed after the first `end` batches were looked
/// at: one for each pending batch among them that was not reported as waiting before.
pub open spec fn waiting_notices(s: Seq<BatchStatusInfo>, reported: Seq<bool>, end: int) -> Seq<
    ExecCallbackDataView,
>
    decreases end,
{
    if end <= 0 {
        Seq::empty()
    } else {
        let rest = waiting_notices(s, reported, end - 1);
        if s[end - 1].status == OperationStatus::Pending && !reported[end - 1] {
            rest.push(notice(s[end - 1], CallbackType::WaitingForVouchers))
        } else {
            rest
        }
    }
}

/// Which batches count as reported waiting after the first `end` batches were looked
/// at.
pub open spec fn reported_after(s: Seq<BatchStatusInfo>, reported: Seq<bool>, end: int) -> Seq<bool> {
    Seq::new(
        reported.len(),
        |k: int| reported[k] || (k < end && s[k].status == OperationStatus::Pending),
    )
}

/// Executes the signed batches of one cross-chain operation.
pub struct CrossChainExecutor {
    network_env: NetworkEnvironment,
    batches: Vec<BatchStatusInfo>,
    timeout_seconds: u64,
    started: bool,
    waiting_reported: Vec<bool>,
}

fn make_notice(b: &BatchStatusInfo, kind: CallbackType) -> (r: ExecCallbackData)
    ensures
        r@ == notice(*b, kind),
{
    ExecCallbackData {
        index: b.index,
        callback_type: kind,
        user_op_hash: copy_bytes(&b.batch.user_op_hash),
        tx_hash: match &b.tx_hash {
            Some(h) => Some(copy_bytes(h)),
            None => None,
        },
        request_ids: match &b.request_ids {
            Some(ids) => Some(copy_blobs(ids)),
            None => None,
        },
        revert_reason: match &b.revert_reason {
            Some(reason) => Some(reason.clone()),
            None => None,
        },
        input_voucher_requests: duplicate_requests(&b.batch.input_voucher_requests),
        out_voucher_requests: duplicate_requests(&b.batch.out_voucher_requests),
    }
}

fn has_voucher(b: &BatchStatusInfo, ref_id: &String) -> (r: bool)
    ensures
        r == received_refs(*b).contains(ref_id@),
{
    let mut i: usize = 0;
    while i < b.vouchers.len()
        invariant
            i <= b.vouchers.len(),
            forall|k: int| 0 <= k < i ==> received_refs(*b)[k] != ref_id@,
        decreases b.vouchers.len() - i,
    {
        if b.vouchers[i].0 == *ref_id {
            assert(received_refs(*b)[i as int] == ref_id@);
            return true;
        }
        i = i + 1;
    }
    false
}

fn consumes(b: &BatchStatusInfo, ref_id: &String) -> (r: bool)
    ensures
        r == input_refs(*b).contains(ref_id@),
{
    let mut i: usize = 0;
    while i < b.batch.input_voucher_requests.len()
        invariant
            i <= b.batch.input_voucher_requests.len(),
            forall|k: int| 0 <= k < i ==> input_refs(*b)[k] != ref_id@,
        decreases b.batch.input_voucher_requests.len() - i,
    {
        if b.batch.input_voucher_requests[i].ref_id == *ref_id {
            assert(input_refs(*b)[i as int] == ref_id@);
            return true;
        }
        i = i + 1;
    }
    false
}

fn inputs_present(b: &BatchStatusInfo) -> (r: bool)
    ensures
        r == inputs_ready(*b),
{
    let mut i: usize = 0;
    while i < b.batch.input_voucher_requests.len()
        invariant
            i <= b.batch.input_voucher_requests.len(),
            forall|k: int| 0 <= k < i ==> received_refs(*b).contains(#[trigger] input_refs(*b)[k]),
        decreases b.batch.input_voucher_requests.len() - i,
    {
        if !has_voucher(b, &b.batch.input_voucher_requests[i].ref_id) {
            assert(!received_refs(*b).contains(input_refs(*b)[i as int]));
            return false;
        }
        assert(input_refs(*b)[i as int] == b.batch.input_voucher_requests@[i as int].ref_id@);
        i = i + 1;
    }
    true
}

impl CrossChainExecutor {
    /// The state of each batch, in order.
    pub closed spec fn statuses(&self) -> Seq<BatchStatusInfo> {
        self.batches@
    }

    /// For each batch, whether it was already reported as waiting for vouchers.
    pub closed spec fn reported(&self) -> Seq<bool> {
        self.waiting_reported@
    }

    /// The wall-clock budget of the execution, in seconds.
    pub closed spec fn timeout(&self) -> u64 {
        self.timeout_seconds
    }

    /// Whether the execution was started.
    pub closed spec fn started(&self) -> bool {
        self.started
    }

    /// The network environment of the execution.
    pub closed spec fn env(&self) -> NetworkEnvironment {
        self.network_env
    }

    /// The invariant of the executor. In particular, a batch that has left the pending
    /// state has received the signed voucher for every voucher it consumes.
    pub open spec fn wf(&self) -> bool {
        &&& self.reported().len() == self.statuses().len()
        &&& forall|i: int|
            0 <= i < self.statuses().len() ==> (#[trigger] self.statuses()[i]).index == i
        &&& forall|i: int|
            0 <= i < self.statuses().len() && (#[trigger] self.statuses()[i]).status
                != OperationStatus::Pending ==> inputs_ready(self.statuses()[i])
    }

    /// Creates the executor of `batches`: each batch is pending and has received no
    /// voucher; the time budget is the configured execution timeout.
    pub fn new(network_env: NetworkEnvironment, batches: Vec<SingleChainBatch>) -> (r: Self)
        ensures
            r.wf(),
            !r.started(),
            r.env() == network_env,
            r.timeout() == network_env.spec_config().exec_timeout_seconds,
            r.statuses().len() == batches@.len(),
            forall|i: int|
                0 <= i < batches@.len() ==> initial_status(
                    i,
                    batches@[i],
                    #[trigger] r.statuses()[i],
                ),
            forall|i: int| 0 <= i < batches@.len() ==> !(#[trigger] r.reported()[i]),
    {
        let timeout_seconds: u64 = network_env.config().exec_timeout_seconds;
        let mut rest = batches;
        let mut reversed: Vec<SingleChainBatch> = Vec::new();
        while rest.len() > 0
            invariant
                rest@.len() + reversed@.len() == batches@.len(),
                forall|k: int| 0 <= k < rest@.len() ==> rest@[k] == batches@[k],
                forall|k: int|
                    0 <= k < reversed@.len() ==> reversed@[k] == batches@[batches@.len() - 1 - k],
            decreases rest.len(),
        {
            match rest.pop() {
                Some(b) => {
                    reversed.push(b);
                },
                None => {},
            }
        }
        let mut statuses: Vec<BatchStatusInfo> = Vec::new();
        let mut waiting_reported: Vec<bool> = Vec::new();
        while reversed.len() > 0
            invariant
                statuses@.len() + reversed@.len() == batches@.len(),
                waiting_reported@.len() == statuses@.len(),
                forall|k: int|
                    0 <= k < reversed@.len() ==> reversed@[k] == batches@[batches@.len() - 1 - k],
                forall|k: int|
                    0 <= k < statuses@.len() ==> initial_status(
                        k,
                        batches@[k],
                        #[trigger] statuses@[k],
                    ),
                forall|k: int| 0 <= k < statuses@.len() ==> !(#[trigger] waiting_reported@[k]),
            decreases reversed.len(),
        {
            let index: usize = statuses.len();
            match reversed.pop() {
                Some(batch) => {
                    statuses.push(
                        BatchStatusInfo {
                            index,
                            batch,
                            status: OperationStatus::Pending,
                            vouchers: Vec::new(),
                            request_ids: None,
                            tx_hash: None,
                            revert_reason: None,
                        },
                    );
                    waiting_reported.push(false);
                },
                None => {},
            }
        }
        CrossChainExecutor {
            network_env,
            batches: statuses,
            timeout_seconds,
            started: false,
            waiting_reported,
        }
    }

    /// The state of each batch, in order.
    pub fn batches(&self) -> (r: &Vec<BatchStatusInfo>)
        ensures
            r@ == self.statuses(),
    {
        &self.batches
    }

    /// The wall-clock budget of the execution, in seconds.
    pub fn timeout_seconds(&self) -> (r: u64)
        ensures
            r == self.timeout(),
    {
        self.timeout_seconds
    }

    /// Whether the execution was started.
    pub fn is_started(&self) -> (r: bool)
        ensures
            r == self.started(),
    {
        self.started
    }

    /// The status of batch `index`, if there is such a batch.
    pub fn status_of(&self, index: usize) -> (r: Option<OperationStatus>)
        ensures
            r == (if index < self.statuses().len() {
                Some(self.statuses()[index as int].status)
            } else {
                None
            }),
    {
        if index < self.batches.len() {
            Some(self.batches[index].status)
        } else {
            None
        }
    }

    /// Starts the execution. Fails with `ExecutionAlreadyStarted` if it was started
    /// before and with `UserOpNotSigned` if a batch carries no signature.
    pub fn start(&mut self) -> (r: Result<()>)
        requires
            old(self).wf(),
        ensures
            final(self).wf(),
            final(self).statuses() == old(self).statuses(),
            final(self).reported() == old(self).reported(),
            final(self).timeout() == old(self).timeout(),
            r is Ok <==> !old(self).started() && all_signed(old(self).statuses()),
            r is Ok ==> final(self).started(),
            r is Err ==> final(self).started() == old(self).started(),
            r matches Err(e) ==> {
                if old(self).started() {
                    e == EilError::ExecutionAlreadyStarted
                } else {
                    e == EilError::UserOpNotSigned
                }
            },
    {
        if self.started {
            return Err(EilError::ExecutionAlreadyStarted);
        }
        let mut i: usize = 0;
        while i < self.batches.len()
            invariant
                i <= self.batches.len(),
                self.wf(),
                !self.started(),
                *self == *old(self),
                forall|k: int|
                    0 <= k < i ==> (#[trigger] self.statuses()[k]).batch.user_op.signature@.len() > 0,
            decreases self.batches.len() - i,
        {
            if self.batches[i].batch.user_op.signature.len() == 0 {
                return Err(EilError::UserOpNotSigned);
            }
            i = i + 1;
        }
        self.started = true;
        Ok(())
    }

    /// Holds the time elapsed since the start against the time budget: fails with
    /// `ExecutionTimeout` once more seconds have elapsed than the budget allows.
    pub fn check_time(&self, elapsed_seconds: u64) -> (r: Result<()>)
        ensures
            r is Ok <==> elapsed_seconds <= self.timeout(),
            r matches Err(e) ==> e == EilError::ExecutionTimeout(self.timeout()),
    {
        if elapsed_seconds > self.timeout_seconds {
            return Err(EilError::ExecutionTimeout(self.timeout_seconds));
        }
        Ok(())
    }

    /// One tick of the schedule, `elapsed_seconds` after the start.
    ///
    /// Past the time budget the tick fails with `ExecutionTimeout`. Else, if every
    /// batch is done or failed, the execution is finished. Else the first pending batch
    /// that has all its vouchers becomes executing and is to be submitted; if there
    /// is none, the driver is to wait. Pending batches that were looked at on the way
    /// and found waiting are reported as such, once each.
    pub fn tick(&mut self, elapsed_seconds: u64) -> (r: Result<(Tick, Vec<ExecCallbackData>)>)
        requires
            old(self).wf(),
            old(self).started(),
        ensures
            final(self).wf(),
            final(self).started(),
            final(self).timeout() == old(self).timeout(),
            final(self).env() == old(self).env(),
            r is Ok <==> elapsed_seconds <= old(self).timeout(),
            r matches Err(e) ==> e == EilError::ExecutionTimeout(old(self).timeout())
                && final(self).statuses() == old(self).statuses() && final(self).reported()
                == old(self).reported(),
            r matches Ok(step) ==> tick_outcome(
                old(self).statuses(),
                old(self).reported(),
                final(self).statuses(),
                final(self).reported(),
                step.0,
                views(step.1@),
            ),
    {
        self.check_time(elapsed_seconds)?;
        let mut notices: Vec<ExecCallbackData> = Vec::new();
        let mut done: bool = true;
        let mut k: usize = 0;
        while k < self.batches.len()
            invariant
                k <= self.batches.len(),
                *self == *old(self),
                done <==> forall|j: int| 0 <= j < k ==> finished(#[trigger] self.statuses()[j]),
            decreases self.batches.len() - k,
        {
            let over: bool = match self.batches[k].status {
                OperationStatus::Done => true,
                OperationStatus::Failed => true,
                _ => false,
            };
            assert(over == finished(self.statuses()[k as int]));
            if !over {
                done = false;
            }
            k = k + 1;
        }
        if done {
            assert(views(notices@) =~= Seq::<ExecCallbackDataView>::empty());
            return Ok((Tick::Finished, notices));
        }
        let ghost s = self.statuses();
        let ghost rep = self.reported();
        let mut i: usize = 0;
        assert(views(notices@) =~= waiting_notices(s, rep, 0));
        assert(self.reported() =~= reported_after(s, rep, 0));
        while i < self.batches.len()
            invariant
                i <= self.batches.len(),
                self.wf(),
                self.started(),
                elapsed_seconds <= old(self).timeout(),
                s == old(self).statuses(),
                rep == old(self).reported(),
                !all_finished(s),
                self.statuses() == s,
                self.timeout() == old(self).timeout(),
                self.env() == old(self).env(),
                self.reported() == reported_after(s, rep, i as int),
                views(notices@) == waiting_notices(s, rep, i as int),
                forall|j: int| 0 <= j < i ==> !ready(#[trigger] s[j]),
            decreases self.batches.len() - i,
        {
            let ghost shown = views(notices@);
            if self.batches[i].status == OperationStatus::Pending {
                if inputs_present(&self.batches[i]) {
                    notices.push(make_notice(&self.batches[i], CallbackType::Executing));
                    self.batches[i].status = OperationStatus::Executing;
                    proof {
                        assert(first_ready(s, i as int));
                        assert(views(notices@) =~= shown.push(
                            notice(s[i as int], CallbackType::Executing),
                        ));
                        assert(self.statuses() =~= s.update(
                            i as int,
                            BatchStatusInfo { status: OperationStatus::Executing, ..s[i as int] },
                        ));
                        assert forall|j: int|
                            0 <= j < self.statuses().len() && (#[trigger] self.statuses()[j]).status
                                != OperationStatus::Pending implies inputs_ready(
                            self.statuses()[j],
                        ) by {
                            if j != i {
                                assert(self.statuses()[j] == s[j]);
                            }
                        }
                    }
                    return Ok((Tick::Submit { index: i }, notices));
                }
                if !self.waiting_reported[i] {
                    notices.push(make_notice(&self.batches[i], CallbackType::WaitingForVouchers));
                    self.waiting_reported[i] = true;
                    assert(views(notices@) =~= shown.push(
                        notice(s[i as int], CallbackType::WaitingForVouchers),
                    ));
                }
            }
            i = i + 1;
            assert(self.reported() =~= reported_after(s, rep, i as int));
        }
        assert(none_ready(s));
        Ok((Tick::Wait, notices))
    }

    /// Reports how the submission of batch `index` ended. An executed batch becomes
    /// done, with its transaction hash and request ids recorded; a reverted batch
    /// becomes failed, with the reason recorded. The notice of the new state is
    /// returned. Other batches are not affected.
    pub fn complete(&mut self, index: usize, submission: Submission) -> (r: Vec<ExecCallbackData>)
        requires
            old(self).wf(),
            index < old(self).statuses().len(),
            old(self).statuses()[index as int].status == OperationStatus::Executing,
        ensures
            final(self).wf(),
            final(self).started() == old(self).started(),
            final(self).timeout() == old(self).timeout(),
            final(self).env() == old(self).env(),
            final(self).reported() == old(self).reported(),
            final(self).statuses() == old(self).statuses().update(
                index as int,
                completed(old(self).statuses()[index as int], submission),
            ),
            views(r@) == seq![
                notice(
                    final(self).statuses()[index as int],
                    match submission {
                        Submission::Executed { .. } => CallbackType::Done,
                        Submission::Reverted { .. } => CallbackType::Failed,
                    },
                ),
            ],
    {
        let ghost s = self.statuses();
        let kind: CallbackType = match submission {
            Submission::Executed { tx_hash, request_ids } => {
                self.batches[index].status = OperationStatus::Done;
                self.batches[index].tx_hash = Some(tx_hash);
                self.batches[index].request_ids = request_ids;
                CallbackType::Done
            },
            Submission::Reverted { reason } => {
                self.batches[index].status = OperationStatus::Failed;
                self.batches[index].revert_reason = Some(reason);
                CallbackType::Failed
            },
        };
        proof {
            assert(self.statuses() =~= s.update(index as int, completed(s[index as int], submission)));
            assert forall|j: int|
                0 <= j < self.statuses().len() && (#[trigger] self.statuses()[j]).status
                    != OperationStatus::Pending implies inputs_ready(self.statuses()[j]) by {
                if j != index {
                    assert(self.statuses()[j] == s[j]);
                } else {
                    assert(inputs_ready(s[j]));
                    assert(input_refs(self.statuses()[j]) =~= input_refs(s[j]));
                    assert(received_refs(self.statuses()[j]) =~= received_refs(s[j]));
                }
            }
        }
        let mut r: Vec<ExecCallbackData> = Vec::new();
        r.push(make_notice(&self.batches[index], kind));
        assert(views(r@) =~= seq![notice(self.statuses()[index as int], kind)]);
        r
    }

    /// Delivers the signed voucher issued for `ref_id`. It goes to the first batch that
    /// consumes a voucher of that reference id and has not received it yet, and a
    /// `VoucherIssued` notice about that batch is returned; if there is no such batch,
    /// nothing changes and nothing is returned.
    pub fn voucher_issued(&mut self, ref_id: String, voucher: Voucher) -> (r: Vec<ExecCallbackData>)
        requires
            old(self).wf(),
        ensures
            final(self).wf(),
            final(self).started() == old(self).started(),
            final(self).timeout() == old(self).timeout(),
            final(self).env() == old(self).env(),
            final(self).reported() == old(self).reported(),
            final(self).statuses().len() == old(self).statuses().len(),
            none_awaits(old(self).statuses(), ref_id@) ==> final(self).statuses() == old(
                self,
            ).statuses() && r@.len() == 0,
            forall|i: int|
                first_awaiting(old(self).statuses(), ref_id@, i) ==> {
                    &&& delivered(
                        old(self).statuses()[i],
                        #[trigger] final(self).statuses()[i],
                        ref_id,
                        voucher,
                    )
                    &&& forall|j: int|
                        0 <= j < old(self).statuses().len() && j != i ==> final(self).statuses()[j]
                            == old(self).statuses()[j]
                    &&& views(r@) == seq![
                        notice(final(self).statuses()[i], CallbackType::VoucherIssued),
                    ]
                },
    {
        let ghost s = self.statuses();
        let mut r: Vec<ExecCallbackData> = Vec::new();
        let mut i: usize = 0;
        while i < self.batches.len()
            invariant
                i <= self.batches.len(),
                *self == *old(self),
                self.wf(),
                s == self.statuses(),
                r@.len() == 0,
                forall|j: int| 0 <= j < i ==> !awaits(#[trigger] s[j], ref_id@),
            decreases self.batches.len() - i,
        {
            if consumes(&self.batches[i], &ref_id) && !has_voucher(&self.batches[i], &ref_id) {
                assert(first_awaiting(s, ref_id@, i as int));
                self.batches[i].vouchers.push((ref_id, voucher));
                proof {
                    let before = s[i as int];
                    let after = self.statuses()[i as int];
                    assert(received_refs(after) =~= received_refs(before).push(ref_id@));
                    assert(input_refs(after) =~= input_refs(before));
                    assert forall|j: int|
                        0 <= j < self.statuses().len() && (#[trigger] self.statuses()[j]).status
                            != OperationStatus::Pending implies inputs_ready(
                        self.statuses()[j],
                    ) by {
                        if j != i {
                            assert(self.statuses()[j] == s[j]);
                        } else {
                            assert(inputs_ready(before));
                            assert forall|k: int| 0 <= k < input_refs(after).len() implies received_refs(
                                after,
                            ).contains(#[trigger] input_refs(after)[k]) by {
                                let id = input_refs(before)[k];
                                assert(received_refs(before).contains(id));
                                let m = choose|m: int|
                                    0 <= m < received_refs(before).len() && received_refs(
                                        before,
                                    )[m] == id;
                                assert(received_refs(after)[m] == id);
                            }
                        }
                    }
                    assert forall|i2: int| first_awaiting(s, ref_id@, i2) implies i2 == i by {
                        if i2 < i {
                            assert(!awaits(s[i2], ref_id@));
                        }
                    }
                }
                r.push(make_notice(&self.batches[i], CallbackType::VoucherIssued));
                assert(views(r@) =~= seq![
                    notice(self.statuses()[i as int], CallbackType::VoucherIssued),
                ]);
                return r;
            }
            i = i + 1;
        }
        proof {
            assert forall|i2: int| first_awaiting(s, ref_id@, i2) implies false by {
                assert(!awaits(s[i2], ref_id@));
            }
        }
        r
    }
}

/// How a submission ended, told from what the account answered: a hash means that the
/// operation was executed, a contract error that it reverted, for the reason the error
/// gives. Any other error is a failure of the account, not of the batch, and ends the
/// execution.
pub fn submission_of(answer: Result<Hex>) -> (r: Result<Submission>)
    ensures
        match answer {
            Ok(tx_hash) => r == Ok::<Submission, EilError>(
                Submission::Executed { tx_hash, request_ids: None },
            ),
            Err(EilError::AlloyContract(reason)) => r == Ok::<Submission, EilError>(
                Submission::Reverted { reason },
            ),
            Err(e) => r == Err::<Submission, EilError>(e),
        },
{
    match answer {
        Ok(tx_hash) => Ok(Submission::Executed { tx_hash, request_ids: None }),
        Err(EilError::AlloyContract(reason)) => Ok(Submission::Reverted { reason }),
        Err(e) => Err(e),
    }
}

/// The state of a batch after its submission ended.
pub open spec fn completed(b: BatchStatusInfo, submission: Submission) -> BatchStatusInfo {
    match submission {
        Submission::Executed { tx_hash, request_ids } => BatchStatusInfo {
            status: OperationStatus::Done,
            tx_hash: Some(tx_hash),
            request_ids,
            ..b
        },
        Submission::Reverted { reason } => BatchStatusInfo {
            status: OperationStatus::Failed,
            revert_reason: Some(reason),
            ..b
        },
    }
}

/// Whether a batch consumes the voucher `ref_id` and has not received it yet.
pub open spec fn awaits(b: BatchStatusInfo, ref_id: Seq<char>) -> bool {
    input_refs(b).contains(ref_id) && !received_refs(b).contains(ref_id)
}

/// Whether `i` is the first batch that awaits the voucher `ref_id`.
pub open spec fn first_awaiting(s: Seq<BatchStatusInfo>, ref_id: Seq<char>, i: int) -> bool {
    &&& 0 <= i < s.len()
    &&& awaits(s[i], ref_id)
    &&& forall|k: int| 0 <= k < i ==> !awaits(#[trigger] s[k], ref_id)
}

/// Whether no batch awaits the voucher `ref_id`.
pub open spec fn none_awaits(s: Seq<BatchStatusInfo>, ref_id: Seq<char>) -> bool {
    forall|i: int| 0 <= i < s.len() ==> !awaits(#[trigger] s[i], ref_id)
}

/// Whether `after` is `before` with the signed voucher for `ref_id` added to what the
/// batch has received, and nothing else changed.
pub open spec fn delivered(
    before: BatchStatusInfo,
    after: BatchStatusInfo,
    ref_id: String,
    voucher: Voucher,
) -> bool {
    &&& after.vouchers@ == before.vouchers@.push((ref_id, voucher))
    &&& after.index == before.index
    &&& after.batch == before.batch
    &&& after.status == before.status
    &&& after.request_ids == before.request_ids
    &&& after.tx_hash == before.tx_hash
    &&& after.revert_reason == before.revert_reason
}

/// What a tick may do, from the state `s` (with `reported` telling which batches were
/// reported waiting) to the state `s2` (with `reported2`), with the action and the
/// notices it returns.
pub open spec fn tick_outcome(
    s: Seq<BatchStatusInfo>,
    reported: Seq<bool>,
    s2: Seq<BatchStatusInfo>,
    reported2: Seq<bool>,
    action: Tick,
    notices: Seq<ExecCallbackDataView>,
) -> bool {
    if all_finished(s) {
        action == Tick::Finished && s2 == s && reported2 == reported && notices.len() == 0
    } else {
        match action {
            Tick::Submit { index } => {
                &&& first_ready(s, index as int)
                &&& s2 == s.update(
                    index as int,
                    BatchStatusInfo { status: OperationStatus::Executing, ..s[index as int] },
                )
                &&& reported2 == reported_after(s, reported, index as int)
                &&& notices == waiting_notices(s, reported, index as int).push(
                    notice(s[index as int], CallbackType::Executing),
                )
            },
            Tick::Wait => {
                &&& none_ready(s)
                &&& s2 == s
                &&& reported2 == reported_after(s, reported, s.len() as int)
                &&& notices == waiting_notices(s, reported, s.len() as int)
            },
            Tick::Finished => false,
        }
    }
}

/// In every state of a well-formed executor, a batch that is executing, done or failed
/// has received the signed voucher for every voucher it consumes.
pub proof fn lemma_left_pending_with_its_vouchers(executor: CrossChainExecutor, index: int)
    requires
        executor.wf(),
        0 <= index < executor.statuses().len(),
        executor.statuses()[index].status != OperationStatus::Pending,
    ensures
        inputs_ready(executor.statuses()[index]),
        forall|k: int|
            0 <= k < input_refs(executor.statuses()[index]).len() ==> received_refs(
                executor.statuses()[index],
            ).contains(#[trigger] input_refs(executor.statuses()[index])[k]),
{
}

/// Executor safety: a batch is submitted only when it has received the signed voucher
/// for every voucher it consumes. Whenever a tick of a well-formed executor decides to
/// submit a batch, that batch was pending and had all its vouchers before the tick; and
/// in every state of a well-formed executor each batch that is executing, done or
/// failed has them.
pub proof fn lemma_submitted_batch_has_its_vouchers(
    s: Seq<BatchStatusInfo>,
    reported: Seq<bool>,
    s2: Seq<BatchStatusInfo>,
    reported2: Seq<bool>,
    index: usize,
    notices: Seq<ExecCallbackDataView>,
)
    requires
        tick_outcome(s, reported, s2, reported2, Tick::Submit { index }, notices),
    ensures
        index < s.len(),
        s[index as int].status == OperationStatus::Pending,
        inputs_ready(s[index as int]),
        s2[index as int].status == OperationStatus::Executing,
        inputs_ready(s2[index as int]),
        forall|k: int|
            0 <= k < s.len() && k != index ==> (#[trigger] s2[k]).status == s[k].status,
{
    assert(first_ready(s, index as int));
    assert(input_refs(s2[index as int]) =~= input_refs(s[index as int]));
    assert(received_refs(s2[index as int]) =~= received_refs(s[index as int]));
}

} // verus!
