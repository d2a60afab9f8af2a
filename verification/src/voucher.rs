//! The voucher coordinator: the registry of which batch produces and which batch
//! consumes each voucher of a cross-chain operation.

use vstd::prelude::*;
use crate::contract_types::{SdkVoucherRequest, Voucher, VoucherRequest};
use crate::error::{EilError, EilErrorView, Result};
use crate::primitives::Address;

pub use crate::xlp::{get_solvent_xlps, SolventXlpInfo};

verus! {

/// What the coordinator knows of one voucher.
#[derive(Debug, Clone)]
pub struct InternalVoucherInfo {
    /// The SDK voucher request.
    pub voucher: SdkVoucherRequest,
    /// Index of the batch that produces the voucher.
    pub source_batch_index: usize,
    /// Index of the batch that consumes the voucher, once one does.
    pub dest_batch_index: Option<usize>,
    /// The request in its on-chain form, once translated.
    pub voucher_request: Option<VoucherRequest>,
    /// The liquidity providers allowed to issue the voucher, once selected.
    pub allowed_xlps: Option<Vec<Address>>,
    /// The signed voucher, once a provider has issued it.
    pub signed_voucher: Option<Voucher>,
}

impl InternalVoucherInfo {
    /// The entry of a voucher that was just registered.
    pub open spec fn fresh(voucher: SdkVoucherRequest, source_batch_index: usize) -> Self {
        InternalVoucherInfo {
            voucher,
            source_batch_index,
            dest_batch_index: None,
            voucher_request: None,
            allowed_xlps: None,
            signed_voucher: None,
        }
    }

    /// The reference id under which the entry is kept.
    pub open spec fn key(&self) -> Seq<char> {
        self.voucher.ref_id@
    }
}

/// Whether entry `i` of `entries` is the one kept under `ref_id`.
pub open spec fn keyed_at(entries: Seq<InternalVoucherInfo>, ref_id: Seq<char>, i: int) -> bool {
    0 <= i < entries.len() && entries[i].key() == ref_id
}

/// Whether some entry is kept under `ref_id`.
pub open spec fn has_key(entries: Seq<InternalVoucherInfo>, ref_id: Seq<char>) -> bool {
    exists|i: int| keyed_at(entries, ref_id, i)
}

/// The position of the entry kept under `ref_id`.
pub open spec fn position(entries: Seq<InternalVoucherInfo>, ref_id: Seq<char>) -> int {
    choose|i: int| keyed_at(entries, ref_id, i)
}

/// No two entries share a reference id.
pub open spec fn unique_keys(entries: Seq<InternalVoucherInfo>) -> bool {
    forall|i: int, j: int|
        0 <= i < j < entries.len() ==> entries[i].key() != entries[j].key()
}

/// Whether every entry has a consuming batch.
pub open spec fn all_consumed(entries: Seq<InternalVoucherInfo>) -> bool {
    forall|i: int| 0 <= i < entries.len() ==> (#[trigger] entries[i]).dest_batch_index is Some
}

/// The entries without a consuming batch, in order.
pub open spec fn unconsumed(entries: Seq<InternalVoucherInfo>) -> Seq<InternalVoucherInfo>
    decreases entries.len(),
{
    if entries.len() == 0 {
        entries
    } else {
        let rest = unconsumed(entries.drop_last());
        if entries.last().dest_batch_index is None {
            rest.push(entries.last())
        } else {
            rest
        }
    }
}

/// Whether `i` is the first entry without a consuming batch.
pub open spec fn first_unconsumed(entries: Seq<InternalVoucherInfo>, i: int) -> bool {
    &&& 0 <= i < entries.len()
    &&& entries[i].dest_batch_index is None
    &&& forall|k: int| 0 <= k < i ==> (#[trigger] entries[k]).dest_batch_index is Some
}

/// The error that names an entry as not consumed: its reference id and the chain it
/// was requested on (0 if none was recorded).
pub open spec fn not_consumed(e: InternalVoucherInfo) -> EilErrorView {
    EilErrorView::VoucherNotConsumed(
        e.key(),
        match e.voucher.source_chain_id {
            Some(c) => c,
            None => 0,
        },
    )
}

/// The error for the first entry without a consuming batch, if there is one.
pub open spec fn unconsumed_error(entries: Seq<InternalVoucherInfo>) -> Option<EilErrorView>
    decreases entries.len(),
{
    if entries.len() == 0 {
        None
    } else {
        match unconsumed_error(entries.drop_last()) {
            Some(e) => Some(e),
            None => if entries.last().dest_batch_index is None {
                Some(not_consumed(entries.last()))
            } else {
                None
            },
        }
    }
}

/// The first entry without a consuming batch is the one the error names.
pub proof fn lemma_unconsumed_error(entries: Seq<InternalVoucherInfo>, i: int)
    requires
        first_unconsumed(entries, i),
    ensures
        unconsumed_error(entries) == Some(not_consumed(entries[i])),
    decreases entries.len(),
{
    let head = entries.drop_last();
    if i == entries.len() - 1 {
        assert(all_consumed(head)) by {
            assert forall|k: int| 0 <= k < head.len() implies (#[trigger] head[k]).dest_batch_index is Some by {
                assert(entries[k].dest_batch_index is Some);
            }
        }
        lemma_all_consumed(head);
    } else {
        assert(first_unconsumed(head, i)) by {
            assert forall|k: int| 0 <= k < i implies (#[trigger] head[k]).dest_batch_index is Some by {
                assert(entries[k].dest_batch_index is Some);
            }
        }
        lemma_unconsumed_error(head, i);
    }
}

/// There is an error exactly if some entry has no consuming batch.
pub proof fn lemma_all_consumed(entries: Seq<InternalVoucherInfo>)
    ensures
        all_consumed(entries) <==> unconsumed_error(entries) is None,
    decreases entries.len(),
{
    if entries.len() > 0 {
        let head = entries.drop_last();
        lemma_all_consumed(head);
        if all_consumed(entries) {
            assert forall|k: int| 0 <= k < head.len() implies (#[trigger] head[k]).dest_batch_index is Some by {
                assert(entries[k].dest_batch_index is Some);
            }
            assert(entries[entries.len() - 1].dest_batch_index is Some);
        }
        if unconsumed_error(entries) is None {
            assert forall|k: int| 0 <= k < entries.len() implies (#[trigger] entries[k]).dest_batch_index is Some by {
                if k < head.len() {
                    assert(head[k].dest_batch_index is Some);
                }
            }
        }
    }
}

/// The lifecycle rule between an earlier state of an entry and a later one: the entry
/// keeps its reference id and its producing batch, and what is written once (the
/// consuming batch, the on-chain request, the allowed providers, the signed voucher)
/// is never replaced once it is recorded.
pub open spec fn grows(before: InternalVoucherInfo, after: InternalVoucherInfo) -> bool {
    &&& after.key() == before.key()
    &&& after.source_batch_index == before.source_batch_index
    &&& (before.dest_batch_index is Some ==> after.dest_batch_index == before.dest_batch_index)
    &&& (before.voucher_request is Some ==> after.voucher_request == before.voucher_request)
    &&& (before.allowed_xlps is Some ==> after.allowed_xlps == before.allowed_xlps)
    &&& (before.signed_voucher is Some ==> after.signed_voucher == before.signed_voucher)
}

/// The lifecycle rule between an earlier state of the registry and a later one: entries
/// keep their place, and each grows.
pub open spec fn evolves(before: Seq<InternalVoucherInfo>, after: Seq<InternalVoucherInfo>) -> bool {
    &&& before.len() <= after.len()
    &&& forall|i: int| 0 <= i < before.len() ==> grows(before[i], #[trigger] after[i])
}

/// The entry with the on-chain request `voucher_request` recorded, unless one is
/// recorded already.
pub open spec fn with_voucher_request(
    e: InternalVoucherInfo,
    voucher_request: VoucherRequest,
) -> InternalVoucherInfo {
    if e.voucher_request is Some {
        e
    } else {
        InternalVoucherInfo { voucher_request: Some(voucher_request), ..e }
    }
}

/// The entry with the allowed providers `xlps` recorded, unless some are recorded
/// already.
pub open spec fn with_allowed_xlps(e: InternalVoucherInfo, xlps: Vec<Address>) -> InternalVoucherInfo {
    if e.allowed_xlps is Some {
        e
    } else {
        InternalVoucherInfo { allowed_xlps: Some(xlps), ..e }
    }
}

/// The entry with the signed voucher `voucher` recorded, unless one is recorded
/// already.
pub open spec fn with_signed_voucher(e: InternalVoucherInfo, voucher: Voucher) -> InternalVoucherInfo {
    if e.signed_voucher is Some {
        e
    } else {
        InternalVoucherInfo { signed_voucher: Some(voucher), ..e }
    }
}

/// Coordinates voucher requests across batches.
#[derive(Debug, Clone)]
pub struct VoucherCoordinator {
    /// The entries, in the order of their registration.
    vouchers: Vec<InternalVoucherInfo>,
}

impl VoucherCoordinator {
    /// The entries, in the order of their registration.
    pub closed spec fn entries(&self) -> Seq<InternalVoucherInfo> {
        self.vouchers@
    }

    /// The invariant of the registry: reference ids are unique.
    pub open spec fn wf(&self) -> bool {
        unique_keys(self.entries())
    }

    /// Whether a voucher is registered under `ref_id`.
    pub open spec fn contains(&self, ref_id: Seq<char>) -> bool {
        has_key(self.entries(), ref_id)
    }

    /// The entry registered under `ref_id`.
    pub open spec fn entry(&self, ref_id: Seq<char>) -> InternalVoucherInfo {
        self.entries()[position(self.entries(), ref_id)]
    }

    /// Creates an empty coordinator.
    pub fn new() -> (r: Self)
        ensures
            r.entries() == Seq::<InternalVoucherInfo>::empty(),
            r.wf(),
    {
        VoucherCoordinator { vouchers: Vec::new() }
    }

    /// The number of registered vouchers.
    pub fn len(&self) -> (n: usize)
        ensures
            n == self.entries().len(),
    {
        self.vouchers.len()
    }

    fn find(&self, ref_id: &str) -> (r: Option<usize>)
        ensures
            match r {
                Some(i) => keyed_at(self.entries(), ref_id@, i as int),
                None => !has_key(self.entries(), ref_id@),
            },
    {
        let wanted = ref_id.to_owned();
        let mut i: usize = 0;
        while i < self.vouchers.len()
            invariant
                i <= self.vouchers.len(),
                wanted@ == ref_id@,
                forall|k: int| 0 <= k < i ==> !keyed_at(self.entries(), ref_id@, k),
            decreases self.vouchers.len() - i,
        {
            if self.vouchers[i].voucher.ref_id == wanted {
                return Some(i);
            }
            i = i + 1;
        }
        None
    }

    /// Registers a new voucher request as produced by batch `source_batch_index`.
    /// Fails with `DuplicateVoucher` if the reference id is already registered.
    pub fn register(&mut self, voucher: SdkVoucherRequest, source_batch_index: usize) -> (r:
        Result<()>)
        requires
            old(self).wf(),
        ensures
            final(self).wf(),
            evolves(old(self).entries(), final(self).entries()),
            r is Ok <==> !old(self).contains(voucher.ref_id@),
            r is Ok ==> final(self).entries() == old(self).entries().push(
                InternalVoucherInfo::fresh(voucher, source_batch_index),
            ),
            r is Ok ==> final(self).contains(voucher.ref_id@) && final(self).entry(
                voucher.ref_id@,
            ) == InternalVoucherInfo::fresh(voucher, source_batch_index),
            r is Err ==> final(self).entries() == old(self).entries(),
            r matches Err(e) ==> (e matches EilError::DuplicateVoucher(id) && id@
                == voucher.ref_id@),
    {
        match self.find(voucher.ref_id.as_str()) {
            Some(_) => Err(EilError::DuplicateVoucher(voucher.ref_id.clone())),
            None => {
                let ghost before = self.entries();
                let ghost id = voucher.ref_id@;
                self.vouchers.push(
                    InternalVoucherInfo {
                        voucher,
                        source_batch_index,
                        dest_batch_index: None,
                        voucher_request: None,
                        allowed_xlps: None,
                        signed_voucher: None,
                    },
                );
                proof {
                    assert forall|i: int, j: int| 0 <= i < j < self.entries().len() implies
                        self.entries()[i].key() != self.entries()[j].key() by {
                        if j == before.len() {
                            assert(!keyed_at(before, id, i));
                        }
                    }
                    assert(keyed_at(self.entries(), id, before.len() as int));
                    let p = position(self.entries(), id);
                    assert(keyed_at(self.entries(), id, p));
                    assert(p == before.len()) by {
                        if p < before.len() {
                            assert(keyed_at(before, id, p));
                        }
                    }
                }
                Ok(())
            },
        }
    }

    /// Records batch `dest_batch_index` as the consumer of the voucher `ref_id`.
    /// Fails with `VoucherNotFound` if no such voucher is registered and with
    /// `VoucherAlreadyUsed` if it already has a consumer.
    pub fn mark_consumed(&mut self, ref_id: &str, dest_batch_index: usize) -> (r: Result<()>)
        requires
            old(self).wf(),
        ensures
            final(self).wf(),
            evolves(old(self).entries(), final(self).entries()),
            final(self).entries().len() == old(self).entries().len(),
            r is Ok <==> old(self).contains(ref_id@) && old(self).entry(
                ref_id@,
            ).dest_batch_index is None,
            r is Ok ==> final(self).entries() == old(self).entries().update(
                position(old(self).entries(), ref_id@),
                InternalVoucherInfo {
                    dest_batch_index: Some(dest_batch_index),
                    ..old(self).entry(ref_id@)
                },
            ),
            r is Ok ==> final(self).contains(ref_id@) && final(self).entry(ref_id@)
                == (InternalVoucherInfo {
                dest_batch_index: Some(dest_batch_index),
                ..old(self).entry(ref_id@)
            }),
            r is Err ==> final(self).entries() == old(self).entries(),
            r matches Err(e) ==> {
                if old(self).contains(ref_id@) {
                    e matches EilError::VoucherAlreadyUsed(id) && id@ == ref_id@
                } else {
                    e matches EilError::VoucherNotFound(id) && id@ == ref_id@
                }
            },
    {
        match self.find(ref_id) {
            None => Err(EilError::VoucherNotFound(ref_id.to_owned())),
            Some(i) => {
                proof {
                    lemma_position(self.entries(), ref_id@, i as int);
                }
                if self.vouchers[i].dest_batch_index.is_some() {
                    return Err(EilError::VoucherAlreadyUsed(ref_id.to_owned()));
                }
                let ghost before = self.entries();
                self.vouchers[i].dest_batch_index = Some(dest_batch_index);
                proof {
                    assert(self.entries() =~= before.update(
                        i as int,
                        InternalVoucherInfo {
                            dest_batch_index: Some(dest_batch_index),
                            ..before[i as int]
                        },
                    ));
                    lemma_update_keeps_keys(before, self.entries(), i as int);
                    lemma_position(self.entries(), ref_id@, i as int);
                }
                Ok(())
            },
        }
    }

    /// The entry registered under `ref_id`, or `VoucherNotFound`.
    pub fn get(&self, ref_id: &str) -> (r: Result<&InternalVoucherInfo>)
        requires
            self.wf(),
        ensures
            r is Ok <==> self.contains(ref_id@),
            r matches Ok(info) ==> *info == self.entry(ref_id@) && info.key() == ref_id@,
            r matches Err(e) ==> (e matches EilError::VoucherNotFound(id) && id@ == ref_id@),
    {
        match self.find(ref_id) {
            Some(i) => {
                proof {
                    lemma_position(self.entries(), ref_id@, i as int);
                }
                Ok(&self.vouchers[i])
            },
            None => Err(EilError::VoucherNotFound(ref_id.to_owned())),
        }
    }

    /// The entry registered under `ref_id`, for the caller to change, or
    /// `VoucherNotFound`. The registry afterwards holds what the caller left in the
    /// entry; a caller that renames the voucher must keep reference ids unique.
    pub fn get_mut(&mut self, ref_id: &str) -> (r: Result<&mut InternalVoucherInfo>)
        requires
            old(self).wf(),
        ensures
            r is Ok <==> old(self).contains(ref_id@),
            r matches Ok(info) ==> *info == old(self).entry(ref_id@) && final(self).entries()
                == old(self).entries().update(
                position(old(self).entries(), ref_id@),
                *final(info),
            ),
            r is Err ==> final(self).entries() == old(self).entries(),
            r matches Err(e) ==> (e matches EilError::VoucherNotFound(id) && id@ == ref_id@),
    {
        match self.find(ref_id) {
            Some(i) => {
                proof {
                    lemma_position(self.entries(), ref_id@, i as int);
                }
                Ok(&mut self.vouchers[i])
            },
            None => Err(EilError::VoucherNotFound(ref_id.to_owned())),
        }
    }

    /// Records the on-chain form of the voucher request `ref_id`, or fails with
    /// `VoucherNotFound`. The request is written once: where one is recorded already,
    /// the call changes nothing.
    pub fn set_voucher_request(&mut self, ref_id: &str, voucher_request: VoucherRequest) -> (r:
        Result<()>)
        requires
            old(self).wf(),
        ensures
            final(self).wf(),
            evolves(old(self).entries(), final(self).entries()),
            r is Ok <==> old(self).contains(ref_id@),
            r is Ok ==> final(self).entries() == old(self).entries().update(
                position(old(self).entries(), ref_id@),
                with_voucher_request(old(self).entry(ref_id@), voucher_request),
            ),
            r is Err ==> final(self).entries() == old(self).entries(),
            r matches Err(e) ==> (e matches EilError::VoucherNotFound(id) && id@ == ref_id@),
    {
        match self.find(ref_id) {
            None => Err(EilError::VoucherNotFound(ref_id.to_owned())),
            Some(i) => {
                proof {
                    lemma_position(self.entries(), ref_id@, i as int);
                }
                self.set_voucher_request_at(i, voucher_request);
                Ok(())
            },
        }
    }

    /// Records the liquidity providers allowed for the voucher `ref_id`, or fails with
    /// `VoucherNotFound`. The providers are written once: where some are recorded
    /// already, the call changes nothing.
    pub fn set_allowed_xlps(&mut self, ref_id: &str, xlps: Vec<Address>) -> (r: Result<()>)
        requires
            old(self).wf(),
        ensures
            final(self).wf(),
            evolves(old(self).entries(), final(self).entries()),
            r is Ok <==> old(self).contains(ref_id@),
            r is Ok ==> final(self).entries() == old(self).entries().update(
                position(old(self).entries(), ref_id@),
                with_allowed_xlps(old(self).entry(ref_id@), xlps),
            ),
            r is Err ==> final(self).entries() == old(self).entries(),
            r matches Err(e) ==> (e matches EilError::VoucherNotFound(id) && id@ == ref_id@),
    {
        match self.find(ref_id) {
            None => Err(EilError::VoucherNotFound(ref_id.to_owned())),
            Some(i) => {
                proof {
                    lemma_position(self.entries(), ref_id@, i as int);
                }
                self.set_allowed_xlps_at(i, xlps);
                Ok(())
            },
        }
    }

    /// Records the signed voucher issued for `ref_id`, or fails with `VoucherNotFound`.
    /// The voucher is written once: where one is recorded already, the call changes
    /// nothing.
    pub fn set_signed_voucher(&mut self, ref_id: &str, voucher: Voucher) -> (r: Result<()>)
        requires
            old(self).wf(),
        ensures
            final(self).wf(),
            evolves(old(self).entries(), final(self).entries()),
            r is Ok <==> old(self).contains(ref_id@),
            r is Ok ==> final(self).entries() == old(self).entries().update(
                position(old(self).entries(), ref_id@),
                with_signed_voucher(old(self).entry(ref_id@), voucher),
            ),
            r is Err ==> final(self).entries() == old(self).entries(),
            r matches Err(e) ==> (e matches EilError::VoucherNotFound(id) && id@ == ref_id@),
    {
        match self.find(ref_id) {
            None => Err(EilError::VoucherNotFound(ref_id.to_owned())),
            Some(i) => {
                proof {
                    lemma_position(self.entries(), ref_id@, i as int);
                }
                let ghost before = self.entries();
                if self.vouchers[i].signed_voucher.is_none() {
                    self.vouchers[i].signed_voucher = Some(voucher);
                }
                proof {
                    assert(self.entries() =~= before.update(
                        i as int,
                        with_signed_voucher(before[i as int], voucher),
                    ));
                    lemma_update_keeps_keys(before, self.entries(), i as int);
                }
                Ok(())
            },
        }
    }

    /// The entry at position `i` of the registration order.
    pub fn entry_at(&self, i: usize) -> (r: &InternalVoucherInfo)
        requires
            i < self.entries().len(),
        ensures
            *r == self.entries()[i as int],
    {
        &self.vouchers[i]
    }

    /// Records the liquidity providers allowed for the entry at position `i`, unless
    /// some are recorded already.
    pub(crate) fn set_allowed_xlps_at(&mut self, i: usize, xlps: Vec<Address>)
        requires
            old(self).wf(),
            i < old(self).entries().len(),
        ensures
            final(self).wf(),
            evolves(old(self).entries(), final(self).entries()),
            final(self).entries() == old(self).entries().update(
                i as int,
                with_allowed_xlps(old(self).entries()[i as int], xlps),
            ),
    {
        let ghost before = self.entries();
        if self.vouchers[i].allowed_xlps.is_none() {
            self.vouchers[i].allowed_xlps = Some(xlps);
        }
        proof {
            assert(self.entries() =~= before.update(
                i as int,
                with_allowed_xlps(before[i as int], xlps),
            ));
            lemma_update_keeps_keys(before, self.entries(), i as int);
        }
    }

    /// Records the on-chain form of the voucher request at position `i`, unless one is
    /// recorded already.
    pub(crate) fn set_voucher_request_at(&mut self, i: usize, voucher_request: VoucherRequest)
        requires
            old(self).wf(),
            i < old(self).entries().len(),
        ensures
            final(self).wf(),
            evolves(old(self).entries(), final(self).entries()),
            final(self).entries() == old(self).entries().update(
                i as int,
                with_voucher_request(old(self).entries()[i as int], voucher_request),
            ),
    {
        let ghost before = self.entries();
        if self.vouchers[i].voucher_request.is_none() {
            self.vouchers[i].voucher_request = Some(voucher_request);
        }
        proof {
            assert(self.entries() =~= before.update(
                i as int,
                with_voucher_request(before[i as int], voucher_request),
            ));
            lemma_update_keeps_keys(before, self.entries(), i as int);
        }
    }

    /// All entries, in the order of their registration.
    pub fn all_vouchers(&self) -> (r: Vec<&InternalVoucherInfo>)
        ensures
            r@.len() == self.entries().len(),
            forall|i: int| 0 <= i < r@.len() ==> *(#[trigger] r@[i]) == self.entries()[i],
    {
        let mut r: Vec<&InternalVoucherInfo> = Vec::new();
        let mut i: usize = 0;
        while i < self.vouchers.len()
            invariant
                i <= self.vouchers.len(),
                r@.len() == i,
                forall|k: int| 0 <= k < i ==> *(#[trigger] r@[k]) == self.entries()[k],
            decreases self.vouchers.len() - i,
        {
            r.push(&self.vouchers[i]);
            i = i + 1;
        }
        r
    }

    /// The entries that no batch consumes yet, in the order of their registration.
    pub fn unconsumed_vouchers(&self) -> (r: Vec<&InternalVoucherInfo>)
        ensures
            Seq::new(r@.len(), |i: int| *r@[i]) == unconsumed(self.entries()),
    {
        let mut r: Vec<&InternalVoucherInfo> = Vec::new();
        let mut i: usize = 0;
        proof {
            assert(Seq::new(r@.len(), |k: int| *r@[k]) =~= unconsumed(
                self.entries().subrange(0, 0),
            ));
        }
        while i < self.vouchers.len()
            invariant
                i <= self.vouchers.len(),
                Seq::new(r@.len(), |k: int| *r@[k]) == unconsumed(
                    self.entries().subrange(0, i as int),
                ),
            decreases self.vouchers.len() - i,
        {
            let ghost shown = Seq::new(r@.len(), |k: int| *r@[k]);
            proof {
                let next = self.entries().subrange(0, i as int + 1);
                assert(next.drop_last() =~= self.entries().subrange(0, i as int));
                assert(next.last() == self.entries()[i as int]);
            }
            if self.vouchers[i].dest_batch_index.is_none() {
                r.push(&self.vouchers[i]);
                assert(Seq::new(r@.len(), |k: int| *r@[k]) =~= shown.push(
                    self.entries()[i as int],
                ));
            }
            i = i + 1;
        }
        assert(self.entries().subrange(0, i as int) =~= self.entries());
        r
    }

    /// Checks that every registered voucher has a consuming batch. Otherwise fails with
    /// `VoucherNotConsumed`, naming the first registered voucher that has none and the
    /// chain it was requested on (0 if none was recorded).
    pub fn validate_all_consumed(&self) -> (r: Result<()>)
        ensures
            r is Ok <==> all_consumed(self.entries()),
            match unconsumed_error(self.entries()) {
                None => r is Ok,
                Some(e) => r matches Err(x) && x@ == e,
            },
    {
        let mut i: usize = 0;
        while i < self.vouchers.len()
            invariant
                i <= self.vouchers.len(),
                forall|k: int| 0 <= k < i ==> (#[trigger] self.entries()[k]).dest_batch_index is Some,
            decreases self.vouchers.len() - i,
        {
            if self.vouchers[i].dest_batch_index.is_none() {
                let chain: u64 = match self.vouchers[i].voucher.source_chain_id {
                    Some(c) => c,
                    None => 0,
                };
                proof {
                    lemma_unconsumed_error(self.entries(), i as int);
                }
                return Err(
                    EilError::VoucherNotConsumed(self.vouchers[i].voucher.ref_id.clone(), chain),
                );
            }
            i = i + 1;
        }
        proof {
            lemma_all_consumed(self.entries());
        }
        Ok(())
    }
}

impl Default for VoucherCoordinator {
    fn default() -> (r: Self)
        ensures
            r.entries() == Seq::<InternalVoucherInfo>::empty(),
            r.wf(),
    {
        VoucherCoordinator::new()
    }
}

/// Registration, then lookup: where `register` succeeds on a registry with unique
/// reference ids, that is, where the id of the voucher is new and the registry becomes
/// the old one with the fresh entry after it, the entry that `get` then finds under
/// that id has the producing batch that was given and no consuming batch; and the
/// reference ids are still unique.
pub proof fn lemma_registered_then_found(
    before: Seq<InternalVoucherInfo>,
    voucher: SdkVoucherRequest,
    source_batch_index: usize,
)
    requires
        unique_keys(before),
        !has_key(before, voucher.ref_id@),
    ensures
        ({
            let after = before.push(InternalVoucherInfo::fresh(voucher, source_batch_index));
            &&& unique_keys(after)
            &&& evolves(before, after)
            &&& has_key(after, voucher.ref_id@)
            &&& after[position(after, voucher.ref_id@)].voucher == voucher
            &&& after[position(after, voucher.ref_id@)].source_batch_index == source_batch_index
            &&& after[position(after, voucher.ref_id@)].dest_batch_index is None
        }),
{
    let id = voucher.ref_id@;
    let after = before.push(InternalVoucherInfo::fresh(voucher, source_batch_index));
    assert forall|i: int, j: int| 0 <= i < j < after.len() implies after[i].key() != after[j].key() by {
        if j == before.len() {
            assert(!keyed_at(before, id, i));
        }
    }
    assert(keyed_at(after, id, before.len() as int));
    lemma_position(after, id, before.len() as int);
}

/// The lifecycle rule composes: what holds from one state to the next holds over any
/// number of operations.
pub proof fn lemma_evolves_transitive(
    a: Seq<InternalVoucherInfo>,
    b: Seq<InternalVoucherInfo>,
    c: Seq<InternalVoucherInfo>,
)
    requires
        evolves(a, b),
        evolves(b, c),
    ensures
        evolves(a, c),
{
    assert forall|i: int| 0 <= i < a.len() implies grows(a[i], #[trigger] c[i]) by {
        assert(grows(a[i], b[i]));
        assert(grows(b[i], c[i]));
    }
}

/// The consuming batch of a voucher is written once: in every later state of the
/// registry the voucher is still there, under the same reference id, produced by the
/// same batch and consumed by the batch first recorded.
pub proof fn lemma_consumer_written_once(
    before: Seq<InternalVoucherInfo>,
    after: Seq<InternalVoucherInfo>,
    i: int,
)
    requires
        evolves(before, after),
        0 <= i < before.len(),
        before[i].dest_batch_index is Some,
    ensures
        i < after.len(),
        after[i].key() == before[i].key(),
        after[i].source_batch_index == before[i].source_batch_index,
        after[i].dest_batch_index == before[i].dest_batch_index,
{
    assert(grows(before[i], after[i]));
}

/// The on-chain request, the allowed providers and the signed voucher of an entry are
/// each written once: what is recorded in one state of the registry is what is
/// recorded in every later state.
pub proof fn lemma_records_written_once(
    before: Seq<InternalVoucherInfo>,
    after: Seq<InternalVoucherInfo>,
    i: int,
)
    requires
        evolves(before, after),
        0 <= i < before.len(),
    ensures
        i < after.len(),
        before[i].voucher_request is Some ==> after[i].voucher_request == before[i].voucher_request,
        before[i].allowed_xlps is Some ==> after[i].allowed_xlps == before[i].allowed_xlps,
        before[i].signed_voucher is Some ==> after[i].signed_voucher == before[i].signed_voucher,
{
    assert(grows(before[i], after[i]));
}

/// With unique keys, the entry kept under a reference id is found at one position only.
pub proof fn lemma_position(entries: Seq<InternalVoucherInfo>, ref_id: Seq<char>, i: int)
    requires
        unique_keys(entries),
        keyed_at(entries, ref_id, i),
    ensures
        has_key(entries, ref_id),
        position(entries, ref_id) == i,
{
    let p = position(entries, ref_id);
    assert(keyed_at(entries, ref_id, p));
    if p < i {
        assert(entries[p].key() != entries[i].key());
    } else if i < p {
        assert(entries[i].key() != entries[p].key());
    }
}

/// Replacing one entry by one with the same reference id changes neither which ids are
/// registered nor their uniqueness.
pub proof fn lemma_update_keeps_keys(
    before: Seq<InternalVoucherInfo>,
    after: Seq<InternalVoucherInfo>,
    i: int,
)
    requires
        0 <= i < before.len(),
        after.len() == before.len(),
        forall|k: int| 0 <= k < before.len() ==> (#[trigger] after[k]).key() == before[k].key(),
    ensures
        unique_keys(before) ==> unique_keys(after),
        forall|id: Seq<char>| has_key(before, id) <==> has_key(after, id),
        forall|id: Seq<char>, k: int| keyed_at(before, id, k) <==> keyed_at(after, id, k),
{
    assert forall|id: Seq<char>, k: int| keyed_at(before, id, k) <==> keyed_at(after, id, k) by {
        if 0 <= k < before.len() {
            assert(after[k].key() == before[k].key());
        }
    }
    assert forall|id: Seq<char>| has_key(before, id) <==> has_key(after, id) by {
        if has_key(before, id) {
            let k = choose|k: int| keyed_at(before, id, k);
            assert(keyed_at(after, id, k));
        }
        if has_key(after, id) {
            let k = choose|k: int| keyed_at(after, id, k);
            assert(keyed_at(before, id, k));
        }
    }
    if unique_keys(before) {
        assert forall|a: int, b: int| 0 <= a < b < after.len() implies after[a].key()
            != after[b].key() by {
            assert(after[a].key() == before[a].key());
            assert(after[b].key() == before[b].key());
        }
    }
}

} // verus!
