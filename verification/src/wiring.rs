//! How vouchers are wired between batches: what the registry of vouchers and the
//! batches of a builder have to agree on, and why each step of the builder keeps them in
//! agreement.

use vstd::prelude::*;
use crate::builder::BatchPlan;
use crate::contract_types::SdkVoucherRequest;
use crate::voucher::{has_key, keyed_at, unique_keys, InternalVoucherInfo};

verus! {

/// Whether the vouchers `outputs` can be registered one after the other: none of their
/// reference ids is registered already or occurs twice among them.
pub open spec fn registrable(entries: Seq<InternalVoucherInfo>, outputs: Seq<SdkVoucherRequest>) -> bool {
    &&& forall|k: int| 0 <= k < outputs.len() ==> !has_key(entries, (#[trigger] outputs[k]).ref_id@)
    &&& forall|j: int, k: int|
        0 <= j < k < outputs.len() ==> outputs[j].ref_id@ != outputs[k].ref_id@
}

/// Whether `k` is the first of `outputs` that cannot be registered.
pub open spec fn first_clash(
    entries: Seq<InternalVoucherInfo>,
    outputs: Seq<SdkVoucherRequest>,
    k: int,
) -> bool {
    &&& 0 <= k < outputs.len()
    &&& registrable(entries, outputs.subrange(0, k))
    &&& (has_key(entries, outputs[k].ref_id@) || exists|j: int|
        0 <= j < k && outputs[j].ref_id@ == outputs[k].ref_id@)
}

/// The registry after the vouchers `outputs` of batch `batch_index` were registered:
/// the entries of before, then one fresh entry per voucher, in order.
pub open spec fn registered(
    before: Seq<InternalVoucherInfo>,
    after: Seq<InternalVoucherInfo>,
    outputs: Seq<SdkVoucherRequest>,
    batch_index: usize,
) -> bool {
    &&& after.len() == before.len() + outputs.len()
    &&& after.subrange(0, before.len() as int) == before
    &&& forall|k: int|
        0 <= k < outputs.len() ==> {
            let e = #[trigger] after[before.len() + k];
            &&& e.voucher@ == outputs[k]@
            &&& e.source_batch_index == batch_index
            &&& e.dest_batch_index is None
            &&& e.voucher_request is None
            &&& e.allowed_xlps is None
            &&& e.signed_voucher is None
        }
}

/// Whether a registered voucher is wired as the builder wires vouchers, with `closed`
/// batches closed: it names the chain it was requested on, it was requested by a closed
/// batch, and the batch that uses it, if there is one, comes after the batch that
/// requested it and is closed or the one batch that is open.
pub open spec fn wired(e: InternalVoucherInfo, closed: int) -> bool {
    &&& e.voucher.source_chain_id is Some
    &&& e.source_batch_index < closed
    &&& e.dest_batch_index matches Some(d) ==> e.source_batch_index < d <= closed
}

/// Whether some request of `requests` has the reference id `id`.
pub open spec fn lists(requests: Seq<SdkVoucherRequest>, id: Seq<char>) -> bool {
    exists|j: int| 0 <= j < requests.len() && (#[trigger] requests[j]).ref_id@ == id
}

/// Whether the registry records batch `batch` as the one that uses the voucher `id`.
pub open spec fn used_by(entries: Seq<InternalVoucherInfo>, id: Seq<char>, batch: int) -> bool {
    exists|k: int|
        #[trigger] keyed_at(entries, id, k) && entries[k].dest_batch_index is Some
            && entries[k].dest_batch_index->0 == batch
}

/// Whether the registry records batch `batch` as the one that requested the voucher
/// `id`.
pub open spec fn requested_by(entries: Seq<InternalVoucherInfo>, id: Seq<char>, batch: int) -> bool {
    exists|k: int| #[trigger] keyed_at(entries, id, k) && entries[k].source_batch_index == batch
}

/// Whether the batches list a registered voucher where the registry says: among the
/// vouchers that its producing batch requests and, if a batch uses it, among the
/// vouchers that this batch uses.
pub open spec fn entry_listed(e: InternalVoucherInfo, batches: Seq<BatchPlan>) -> bool {
    &&& e.source_batch_index < batches.len()
    &&& lists(batches[e.source_batch_index as int].output_vouchers@, e.key())
    &&& e.dest_batch_index matches Some(d) ==> d < batches.len() && lists(
        batches[d as int].input_vouchers@,
        e.key(),
    )
}

/// Whether the registry and the batches agree on which batch requests and which batch
/// uses each voucher. The first `closed` of the batches are closed; what an open batch
/// requests is not registered yet.
pub open spec fn agree(entries: Seq<InternalVoucherInfo>, batches: Seq<BatchPlan>, closed: int) -> bool {
    &&& forall|k: int| 0 <= k < entries.len() ==> entry_listed(#[trigger] entries[k], batches)
    &&& forall|i: int, j: int|
        0 <= i < batches.len() && 0 <= j < batches[i].input_vouchers@.len() ==> used_by(
            entries,
            (#[trigger] batches[i].input_vouchers@[j]).ref_id@,
            i,
        )
    &&& forall|i: int, j: int|
        0 <= i < closed && i < batches.len() && 0 <= j < batches[i].output_vouchers@.len()
            ==> requested_by(entries, (#[trigger] batches[i].output_vouchers@[j]).ref_id@, i)
}

/// Recording allowed providers or on-chain requests changes nothing of the agreement
/// between the registry and the batches.
pub proof fn lemma_agree_kept(
    before: Seq<InternalVoucherInfo>,
    after: Seq<InternalVoucherInfo>,
    batches: Seq<BatchPlan>,
    closed: int,
)
    requires
        all_kept(before, after),
        agree(before, batches, closed),
    ensures
        agree(after, batches, closed),
{
    assert forall|k: int| 0 <= k < after.len() implies entry_listed(#[trigger] after[k], batches) by {
        assert(kept(before[k], after[k]));
        assert(entry_listed(before[k], batches));
    }
    assert forall|i: int, j: int|
        0 <= i < batches.len() && 0 <= j < batches[i].input_vouchers@.len() implies used_by(
        after,
        (#[trigger] batches[i].input_vouchers@[j]).ref_id@,
        i,
    ) by {
        let id = batches[i].input_vouchers@[j].ref_id@;
        assert(used_by(before, id, i));
        let k = choose|k: int|
            #[trigger] keyed_at(before, id, k) && before[k].dest_batch_index is Some
                && before[k].dest_batch_index->0 == i;
        assert(kept(before[k], after[k]));
        assert(keyed_at(after, id, k));
    }
    assert forall|i: int, j: int|
        0 <= i < closed && i < batches.len() && 0 <= j < batches[i].output_vouchers@.len() implies requested_by(
        after,
        (#[trigger] batches[i].output_vouchers@[j]).ref_id@,
        i,
    ) by {
        let id = batches[i].output_vouchers@[j].ref_id@;
        assert(requested_by(before, id, i));
        let k = choose|k: int| #[trigger] keyed_at(before, id, k) && before[k].source_batch_index == i;
        assert(kept(before[k], after[k]));
        assert(keyed_at(after, id, k));
    }
}

/// Opening a batch that uses no voucher yet, or changing what the open batch requests,
/// changes nothing of the agreement between the registry and the batches.
pub proof fn lemma_agree_open(
    entries: Seq<InternalVoucherInfo>,
    closed_batches: Seq<BatchPlan>,
    before: Seq<BatchPlan>,
    open: BatchPlan,
)
    requires
        forall|k: int| 0 <= k < entries.len() ==> wired(#[trigger] entries[k], closed_batches.len() as int),
        agree(entries, before, closed_batches.len() as int),
        before == closed_batches || (before.len() == closed_batches.len() + 1 && before.drop_last()
            == closed_batches && before.last().input_vouchers == open.input_vouchers),
        before == closed_batches ==> open.input_vouchers@.len() == 0 && forall|k: int|
            0 <= k < entries.len() && (#[trigger] entries[k]).dest_batch_index is Some
                ==> entries[k].dest_batch_index->0 != closed_batches.len(),
    ensures
        agree(entries, closed_batches.push(open), closed_batches.len() as int),
{
    let n = closed_batches.len() as int;
    let after = closed_batches.push(open);
    assert forall|i: int| 0 <= i < n implies after[i] == before[i] by {
        if before != closed_batches {
            assert(before.drop_last()[i] == before[i]);
        }
    }
    assert forall|k: int| 0 <= k < entries.len() implies entry_listed(#[trigger] entries[k], after) by {
        let e = entries[k];
        assert(wired(e, n));
        assert(entry_listed(e, before));
        assert(after[e.source_batch_index as int] == before[e.source_batch_index as int]);
        if e.dest_batch_index is Some {
            let d = e.dest_batch_index->0 as int;
            if d < n {
                assert(after[d] == before[d]);
            } else {
                assert(before != closed_batches);
                assert(after[d].input_vouchers == before[d].input_vouchers);
            }
        }
    }
    assert forall|i: int, j: int|
        0 <= i < after.len() && 0 <= j < after[i].input_vouchers@.len() implies used_by(
        entries,
        (#[trigger] after[i].input_vouchers@[j]).ref_id@,
        i,
    ) by {
        if i < n {
            assert(after[i] == before[i]);
        } else {
            assert(before != closed_batches);
            assert(after[i].input_vouchers == before[i].input_vouchers);
        }
        assert(used_by(entries, before[i].input_vouchers@[j].ref_id@, i));
    }
    assert forall|i: int, j: int|
        0 <= i < n && i < after.len() && 0 <= j < after[i].output_vouchers@.len() implies requested_by(
        entries,
        (#[trigger] after[i].output_vouchers@[j]).ref_id@,
        i,
    ) by {
        assert(after[i] == before[i]);
        assert(requested_by(entries, before[i].output_vouchers@[j].ref_id@, i));
    }
}

/// Using a voucher in the open batch keeps the registry and the batches in agreement:
/// the registry records the open batch as the consumer, and the open batch lists the
/// voucher among those it uses.
pub proof fn lemma_agree_used(
    before: Seq<InternalVoucherInfo>,
    after: Seq<InternalVoucherInfo>,
    closed_batches: Seq<BatchPlan>,
    open_before: BatchPlan,
    open_after: BatchPlan,
    id: Seq<char>,
    p: int,
    index: usize,
)
    requires
        index == closed_batches.len(),
        unique_keys(before),
        forall|k: int| 0 <= k < before.len() ==> wired(#[trigger] before[k], closed_batches.len() as int),
        agree(before, closed_batches.push(open_before), closed_batches.len() as int),
        keyed_at(before, id, p),
        before[p].dest_batch_index is None,
        after == before.update(
            p,
            InternalVoucherInfo { dest_batch_index: Some(index), ..before[p] },
        ),
        open_after.output_vouchers == open_before.output_vouchers,
        open_after.input_vouchers@.len() == open_before.input_vouchers@.len() + 1,
        forall|j: int|
            0 <= j < open_before.input_vouchers@.len() ==> (#[trigger] open_after.input_vouchers@[j]).ref_id@
                == open_before.input_vouchers@[j].ref_id@,
        open_after.input_vouchers@[open_before.input_vouchers@.len() as int].ref_id@ == id,
    ensures
        agree(after, closed_batches.push(open_after), closed_batches.len() as int),
{
    let n = closed_batches.len() as int;
    let batches = closed_batches.push(open_before);
    let batches2 = closed_batches.push(open_after);
    let last = open_before.input_vouchers@.len() as int;
    assert forall|k: int| 0 <= k < after.len() implies entry_listed(#[trigger] after[k], batches2) by {
        let e = before[k];
        assert(wired(e, n));
        assert(entry_listed(e, batches));
        assert(batches2[e.source_batch_index as int] == batches[e.source_batch_index as int]);
        if k == p {
            assert(open_after.input_vouchers@[last].ref_id@ == id);
            assert(lists(batches2[n].input_vouchers@, after[k].key()));
        } else if e.dest_batch_index is Some {
            let d = e.dest_batch_index->0 as int;
            if d < n {
                assert(batches2[d] == batches[d]);
            } else {
                let j = choose|j: int|
                    0 <= j < open_before.input_vouchers@.len() && (
                    #[trigger] open_before.input_vouchers@[j]).ref_id@ == e.key();
                assert(open_after.input_vouchers@[j].ref_id@ == e.key());
            }
        }
    }
    assert forall|i: int, j: int|
        0 <= i < batches2.len() && 0 <= j < batches2[i].input_vouchers@.len() implies used_by(
        after,
        (#[trigger] batches2[i].input_vouchers@[j]).ref_id@,
        i,
    ) by {
        let wanted = batches2[i].input_vouchers@[j].ref_id@;
        if i == n && j == last {
            assert(keyed_at(after, wanted, p));
        } else {
            if i < n {
                assert(batches2[i] == batches[i]);
            } else {
                assert(open_after.input_vouchers@[j].ref_id@ == open_before.input_vouchers@[j].ref_id@);
            }
            assert(used_by(before, batches[i].input_vouchers@[j].ref_id@, i));
            let k = choose|k: int|
                #[trigger] keyed_at(before, wanted, k) && before[k].dest_batch_index is Some
                    && before[k].dest_batch_index->0 == i;
            assert(k != p);
            assert(keyed_at(after, wanted, k));
        }
    }
    assert forall|i: int, j: int|
        0 <= i < n && i < batches2.len() && 0 <= j < batches2[i].output_vouchers@.len() implies requested_by(
        after,
        (#[trigger] batches2[i].output_vouchers@[j]).ref_id@,
        i,
    ) by {
        let wanted = batches2[i].output_vouchers@[j].ref_id@;
        assert(batches2[i] == batches[i]);
        assert(requested_by(before, batches[i].output_vouchers@[j].ref_id@, i));
        let k = choose|k: int| #[trigger] keyed_at(before, wanted, k) && before[k].source_batch_index == i;
        assert(keyed_at(after, wanted, k));
    }
}

/// Closing the open batch keeps the registry and the batches in agreement: the
/// vouchers that the batch requests are registered as requested by it.
pub proof fn lemma_agree_closed(
    before: Seq<InternalVoucherInfo>,
    after: Seq<InternalVoucherInfo>,
    closed_batches: Seq<BatchPlan>,
    open: BatchPlan,
    index: usize,
)
    requires
        index == closed_batches.len(),
        forall|k: int| 0 <= k < before.len() ==> wired(#[trigger] before[k], closed_batches.len() as int),
        agree(before, closed_batches.push(open), closed_batches.len() as int),
        registered(before, after, open.output_vouchers@, index),
    ensures
        agree(after, closed_batches.push(open), closed_batches.len() as int + 1),
{
    let n = closed_batches.len() as int;
    let batches = closed_batches.push(open);
    assert forall|k: int| 0 <= k < before.len() implies after[k] == before[k] by {
        assert(after.subrange(0, before.len() as int)[k] == after[k]);
    }
    assert forall|k: int| 0 <= k < after.len() implies entry_listed(#[trigger] after[k], batches) by {
        if k < before.len() {
            assert(entry_listed(before[k], batches));
        } else {
            let j = k - before.len();
            assert(after[before.len() + j].voucher@ == open.output_vouchers@[j]@);
            assert(open.output_vouchers@[j].ref_id@ == after[k].key());
            assert(lists(batches[n].output_vouchers@, after[k].key()));
        }
    }
    assert forall|i: int, j: int|
        0 <= i < batches.len() && 0 <= j < batches[i].input_vouchers@.len() implies used_by(
        after,
        (#[trigger] batches[i].input_vouchers@[j]).ref_id@,
        i,
    ) by {
        let wanted = batches[i].input_vouchers@[j].ref_id@;
        assert(used_by(before, wanted, i));
        let k = choose|k: int|
            #[trigger] keyed_at(before, wanted, k) && before[k].dest_batch_index is Some
                && before[k].dest_batch_index->0 == i;
        assert(keyed_at(after, wanted, k));
    }
    assert forall|i: int, j: int|
        0 <= i < n + 1 && i < batches.len() && 0 <= j < batches[i].output_vouchers@.len() implies requested_by(
        after,
        (#[trigger] batches[i].output_vouchers@[j]).ref_id@,
        i,
    ) by {
        let wanted = batches[i].output_vouchers@[j].ref_id@;
        if i < n {
            assert(requested_by(before, wanted, i));
            let k = choose|k: int|
                #[trigger] keyed_at(before, wanted, k) && before[k].source_batch_index == i;
            assert(keyed_at(after, wanted, k));
        } else {
            assert(after[before.len() + j].voucher@ == open.output_vouchers@[j]@);
            assert(keyed_at(after, wanted, before.len() + j));
        }
    }
}

/// Whether `after` is the entry `before` with, at most, other allowed providers and
/// another on-chain request recorded.
pub open spec fn kept(before: InternalVoucherInfo, after: InternalVoucherInfo) -> bool {
    &&& after.voucher == before.voucher
    &&& after.source_batch_index == before.source_batch_index
    &&& after.dest_batch_index == before.dest_batch_index
    &&& after.signed_voucher == before.signed_voucher
}

/// Whether each entry of `after` is the entry of `before` at its place, up to the
/// allowed providers and the on-chain request.
pub open spec fn all_kept(before: Seq<InternalVoucherInfo>, after: Seq<InternalVoucherInfo>) -> bool {
    &&& after.len() == before.len()
    &&& forall|k: int| 0 <= k < before.len() ==> kept(before[k], #[trigger] after[k])
}

} // verus!
