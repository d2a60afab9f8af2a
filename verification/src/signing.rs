//! From planned batches to signed batches: the account encodes the calls of each batch,
//! signs the user operations of all batches in one call, and each signed operation
//! takes its place in its batch. What the account answers is its own affair; what is
//! made of each answer is stated here.

use vstd::prelude::*;
use crate::account::{accept_signed, signed_in_order, MultiChainSmartAccount};
use crate::contract_types::{views, SingleChainBatch, UserOperation};
use crate::error::{EilError, Result};
use crate::executor::{initial_status, CrossChainExecutor};
use crate::network::NetworkEnvironment;
use crate::planning::{all_sealed, build_single_chain_batch, PlannedBatch};
use crate::types::Hex;

verus! {

/// Whether `answer` is an answer of the account to the request to encode the calls of
/// the planned batch `planned`.
pub open spec fn encodes<A: MultiChainSmartAccount>(account: &A, planned: PlannedBatch, answer: Result<Hex>) -> bool {
    call_ensures(A::encode_calls, (account, planned.chain_id, planned.calls), answer)
}

/// Whether the account encoded the calls of the first `done.len()` of the planned
/// batches, with `done` as its answers, and refused those of the next with `e`.
pub open spec fn refused_after<A: MultiChainSmartAccount>(
    account: &A,
    planned: Seq<PlannedBatch>,
    done: Seq<Hex>,
    e: EilError,
) -> bool {
    &&& done.len() < planned.len()
    &&& forall|j: int| 0 <= j < done.len() ==> encodes(account, #[trigger] planned[j], Ok(done[j]))
    &&& encodes(account, planned[done.len() as int], Err(e))
}

/// Whether `r` is what building the planned batches in turn comes to: the batches, each
/// sealed with the calldata that the account answered for its calls, where the account
/// encoded the calls of every batch; else the error with which it refused the first
/// batch that it refused.
pub open spec fn built_from<A: MultiChainSmartAccount>(
    account: &A,
    planned: Seq<PlannedBatch>,
    r: Result<Vec<SingleChainBatch>>,
) -> bool {
    match r {
        Ok(batches) => {
            &&& all_sealed(views(planned), batches@)
            &&& forall|i: int|
                0 <= i < planned.len() ==> encodes(
                    account,
                    #[trigger] planned[i],
                    Ok(batches@[i].user_op.call_data),
                )
        },
        Err(e) => exists|done: Seq<Hex>| #[trigger] refused_after(account, planned, done, e),
    }
}

/// With no batch planned there is nothing that the account could refuse.
pub proof fn lemma_nothing_to_build<A: MultiChainSmartAccount>(
    account: &A,
    planned: Seq<PlannedBatch>,
    r: Result<Vec<SingleChainBatch>>,
)
    requires
        built_from(account, planned, r),
        planned.len() == 0,
    ensures
        r matches Ok(batches) && batches@.len() == 0,
{
}

/// Builds the single-chain batches of the planned batches, in order: has the account
/// encode the calls of each and seals the batch with the calldata answered. Stops at
/// the first batch that the account refuses, with the error of the account.
pub fn build_batches<A: MultiChainSmartAccount>(planned: Vec<PlannedBatch>, account: &A) -> (r: Result<
    Vec<SingleChainBatch>,
>)
    ensures
        built_from(account, planned@, r),
{
    let mut rest = planned;
    let mut batches: Vec<SingleChainBatch> = Vec::new();
    let ghost mut done: Seq<Hex> = Seq::empty();
    while rest.len() > 0
        invariant
            batches@.len() + rest@.len() == planned@.len(),
            done.len() == batches@.len(),
            forall|i: int|
                0 <= i < batches@.len() ==> (#[trigger] batches@[i])@ == crate::planning::sealed(
                    planned@[i]@,
                    batches@[i]@.user_op.call_data,
                ),
            forall|i: int| 0 <= i < batches@.len() ==> #[trigger] done[i] == batches@[i].user_op.call_data,
            forall|i: int| 0 <= i < batches@.len() ==> encodes(account, #[trigger] planned@[i], Ok(done[i])),
            forall|i: int| 0 <= i < rest@.len() ==> #[trigger] rest@[i] == planned@[batches@.len() + i],
        decreases rest.len(),
    {
        let ghost at = batches@.len() as int;
        let ghost before = rest@;
        let next = rest.remove(0);
        assert(next == planned@[at]) by {
            assert(before[0] == planned@[at + 0]);
        }
        let batch = match build_single_chain_batch(next, account) {
            Ok(b) => b,
            Err(e) => {
                assert(refused_after(account, planned@, done, e));
                return Err(e);
            },
        };
        proof {
            done = done.push(batch.user_op.call_data);
        }
        batches.push(batch);
        assert forall|i: int| 0 <= i < rest@.len() implies #[trigger] rest@[i] == planned@[batches@.len()
            + i] by {
            assert(rest@[i] == before[i + 1]);
        }
    }
    Ok(batches)
}

/// The user operations of batches, in order.
pub open spec fn user_ops_of(batches: Seq<SingleChainBatch>) -> Seq<UserOperation> {
    Seq::new(batches.len(), |i: int| batches[i].user_op)
}

/// The batches `batches`, each with the operation at its place in `signed` as its user
/// operation and all else as it was.
pub open spec fn with_signed_ops(batches: Seq<SingleChainBatch>, signed: Seq<UserOperation>) -> Seq<
    SingleChainBatch,
> {
    Seq::new(batches.len(), |i: int| SingleChainBatch { user_op: signed[i], ..batches[i] })
}

/// Copies of the user operations of batches, in order: what is handed to the account
/// for signing.
pub fn ops_to_sign(batches: &Vec<SingleChainBatch>) -> (r: Vec<UserOperation>)
    ensures
        views(r@) == views(user_ops_of(batches@)),
{
    let mut r: Vec<UserOperation> = Vec::new();
    let mut i: usize = 0;
    while i < batches.len()
        invariant
            i <= batches.len(),
            r@.len() == i,
            forall|k: int| 0 <= k < i ==> (#[trigger] r@[k])@ == batches@[k].user_op@,
        decreases batches.len() - i,
    {
        r.push(batches[i].user_op.duplicate());
        i = i + 1;
    }
    assert(views(r@) =~= views(user_ops_of(batches@)));
    r
}

/// Puts what the account answered from signing into the batches: where the answer
/// holds one operation per batch, in the order of the batches, each equal to the
/// operation of its batch in all but the account signature, each batch gets its signed
/// operation; any other answer is refused with `UserOpNotSigned`.
pub fn attach_signatures(batches: Vec<SingleChainBatch>, answer: Vec<UserOperation>) -> (r: Result<
    Vec<SingleChainBatch>,
>)
    ensures
        match r {
            Ok(signed) => signed_in_order(user_ops_of(batches@), answer@) && signed@ == with_signed_ops(
                batches@,
                answer@,
            ),
            Err(e) => !signed_in_order(user_ops_of(batches@), answer@) && e == EilError::UserOpNotSigned,
        },
{
    let unsigned = ops_to_sign(&batches);
    proof {
        assert(unsigned@.len() == batches@.len()) by {
            assert(views(unsigned@).len() == views(user_ops_of(batches@)).len());
        }
        assert forall|k: int| 0 <= k < batches@.len() implies (#[trigger] unsigned@[k])@
            == batches@[k].user_op@ by {
            assert(views(unsigned@)[k] == views(user_ops_of(batches@))[k]);
        }
        if unsigned@.len() == answer@.len() {
            assert forall|k: int| 0 <= k < batches@.len() implies (unsigned@[k]@.same_unsigned(
                (#[trigger] answer@[k])@,
            ) <==> user_ops_of(batches@)[k]@.same_unsigned(answer@[k]@)) by {}
        }
    }
    let mut rest_ops = match accept_signed(&unsigned, answer) {
        Ok(accepted) => accepted,
        Err(e) => {
            return Err(e);
        },
    };
    let mut rest = batches;
    let mut signed: Vec<SingleChainBatch> = Vec::new();
    while rest.len() > 0
        invariant
            rest@.len() == rest_ops@.len(),
            answer@.len() == batches@.len(),
            signed@.len() + rest@.len() == batches@.len(),
            forall|k: int| 0 <= k < rest@.len() ==> #[trigger] rest@[k] == batches@[signed@.len() + k],
            forall|k: int| 0 <= k < rest_ops@.len() ==> #[trigger] rest_ops@[k] == answer@[signed@.len() + k],
            forall|k: int|
                0 <= k < signed@.len() ==> #[trigger] signed@[k] == (SingleChainBatch {
                    user_op: answer@[k],
                    ..batches@[k]
                }),
        decreases rest.len(),
    {
        let ghost at = signed@.len() as int;
        let ghost before = rest@;
        let ghost before_ops = rest_ops@;
        let mut batch = rest.remove(0);
        let op = rest_ops.remove(0);
        proof {
            assert(batch == batches@[at]) by {
                assert(before[0] == batches@[at + 0]);
            }
            assert(op == answer@[at]) by {
                assert(before_ops[0] == answer@[at + 0]);
            }
        }
        batch.user_op = op;
        signed.push(batch);
        proof {
            assert forall|k: int| 0 <= k < rest@.len() implies #[trigger] rest@[k] == batches@[signed@.len()
                + k] by {
                assert(rest@[k] == before[k + 1]);
            }
            assert forall|k: int| 0 <= k < rest_ops@.len() implies #[trigger] rest_ops@[k]
                == answer@[signed@.len() + k] by {
                assert(rest_ops@[k] == before_ops[k + 1]);
            }
        }
    }
    assert(signed@ =~= with_signed_ops(batches@, answer@));
    Ok(signed)
}

/// The rule of signing looks at what operations stand for: operations that stand for
/// the same hold an answer to the same rule.
pub proof fn lemma_same_rule(a: Seq<UserOperation>, b: Seq<UserOperation>, signed: Seq<UserOperation>)
    requires
        views(a) == views(b),
    ensures
        signed_in_order(a, signed) == signed_in_order(b, signed),
{
    assert(views(a).len() == a.len() && views(b).len() == b.len());
    assert forall|i: int| 0 <= i < a.len() implies a[i]@ == b[i]@ by {
        assert(views(a)[i] == a[i]@ && views(b)[i] == b[i]@);
    }
}

/// Whether `r` is what signing comes to for `batches`: the account is handed copies of
/// the user operations of the batches, in order, in one call. An error that it answers
/// is handed on; an answer that keeps to the rule of signing goes into the batches;
/// any other answer is refused with `UserOpNotSigned`.
pub open spec fn signed_by<A: MultiChainSmartAccount>(
    account: &A,
    batches: Seq<SingleChainBatch>,
    r: Result<Vec<SingleChainBatch>>,
) -> bool {
    exists|ops: Vec<UserOperation>, answer: Result<Vec<UserOperation>>|
        {
            &&& #[trigger] call_ensures(A::sign_user_ops, (account, ops), answer)
            &&& views(ops@) == views(user_ops_of(batches))
            &&& made_of_answer(ops@, batches, answer, r)
        }
}

/// Whether `r` is what is made of the answer of the account from signing, where it was
/// handed the operations `handed` for the batches `batches`.
pub open spec fn made_of_answer(
    handed: Seq<UserOperation>,
    batches: Seq<SingleChainBatch>,
    answer: Result<Vec<UserOperation>>,
    r: Result<Vec<SingleChainBatch>>,
) -> bool {
    match answer {
        Err(e) => r matches Err(x) && x == e,
        Ok(signed) => if signed_in_order(handed, signed@) {
            r matches Ok(v) && v@ == with_signed_ops(batches, signed@)
        } else {
            r matches Err(x) && x == EilError::UserOpNotSigned
        },
    }
}

/// Signing keeps the batches and touches signatures only: where signing succeeds, there
/// are as many batches as before, in the same order, and each is as it was but for its
/// user operation, which differs from the one it had in the account signature at most.
pub proof fn lemma_signing_keeps_batches<A: MultiChainSmartAccount>(
    account: &A,
    batches: Seq<SingleChainBatch>,
    signed: Vec<SingleChainBatch>,
)
    requires
        signed_by(account, batches, Ok::<Vec<SingleChainBatch>, EilError>(signed)),
    ensures
        signed@.len() == batches.len(),
        forall|i: int|
            0 <= i < batches.len() ==> {
                let batch = #[trigger] signed@[i];
                &&& batches[i].user_op@.same_unsigned(batch.user_op@)
                &&& batch == (SingleChainBatch { user_op: batch.user_op, ..batches[i] })
            },
{
    let (ops, answer) = choose|ops: Vec<UserOperation>, answer: Result<Vec<UserOperation>>|
        {
            &&& #[trigger] call_ensures(A::sign_user_ops, (account, ops), answer)
            &&& views(ops@) == views(user_ops_of(batches))
            &&& made_of_answer(ops@, batches, answer, Ok::<Vec<SingleChainBatch>, EilError>(signed))
        };
    lemma_same_rule(ops@, user_ops_of(batches), answer->Ok_0@);
    assert forall|i: int| 0 <= i < batches.len() implies {
        let batch = #[trigger] signed@[i];
        &&& batches[i].user_op@.same_unsigned(batch.user_op@)
        &&& batch == (SingleChainBatch { user_op: batch.user_op, ..batches[i] })
    } by {
        assert(user_ops_of(batches)[i]@.same_unsigned(answer->Ok_0@[i]@));
    }
}

/// Has the account sign the user operations of `batches` in one call, and puts the
/// signed operations into the batches.
pub fn sign_batches<A: MultiChainSmartAccount>(batches: Vec<SingleChainBatch>, account: &A) -> (r: Result<
    Vec<SingleChainBatch>,
>)
    ensures
        signed_by(account, batches@, r),
{
    let user_ops = ops_to_sign(&batches);
    let ghost handed = user_ops;
    let answer = account.sign_user_ops(user_ops);
    let r = match answer {
        Ok(signed) => attach_signatures(batches, signed),
        Err(e) => Err(e),
    };
    proof {
        assert(call_ensures(A::sign_user_ops, (account, handed), answer));
        if answer is Ok {
            lemma_same_rule(handed@, user_ops_of(batches@), answer->Ok_0@);
        }
    }
    r
}

/// Whether `executor` is the executor of `batches` before its start: each batch is
/// pending and has received no voucher, and the time budget is that of `env`.
pub open spec fn executor_of(
    env: NetworkEnvironment,
    batches: Seq<SingleChainBatch>,
    executor: CrossChainExecutor,
) -> bool {
    &&& executor.wf()
    &&& !executor.started()
    &&& executor.env() == env
    &&& executor.timeout() == env.spec_config().exec_timeout_seconds
    &&& executor.statuses().len() == batches.len()
    &&& forall|i: int|
        0 <= i < batches.len() ==> initial_status(i, batches[i], #[trigger] executor.statuses()[i])
}

/// Whether `r` is what comes of the planned batches `planned`, step by step: `built` is
/// the outcome of building them and `signed` that of signing what was built, an error
/// of either step is handed on, and the batches signed go into their executor.
pub open spec fn sealing<A: MultiChainSmartAccount>(
    account: &A,
    env: NetworkEnvironment,
    planned: Seq<PlannedBatch>,
    built: Result<Vec<SingleChainBatch>>,
    signed: Result<Vec<SingleChainBatch>>,
    r: Result<CrossChainExecutor>,
) -> bool {
    &&& built_from(account, planned, built)
    &&& match built {
        Err(e) => signed matches Err(x) && x == e,
        Ok(batches) => signed_by(account, batches@, signed),
    }
    &&& match signed {
        Err(e) => r matches Err(x) && x == e,
        Ok(batches) => r matches Ok(executor) && executor_of(env, batches@, executor),
    }
}

} // verus!
