//! Selection of the liquidity providers (XLPs) that may issue a voucher: which
//! candidates are solvent for a request, and which of those are allowed.

use vstd::prelude::*;
use crate::config::{Fraction, XlpFilter, XlpSelectionConfig};
use crate::contract_types::{views, XlpEntry};
use crate::error::{EilError, EilErrorView, Result};
use crate::primitives::{Address, U256};
use crate::types::{ChainId, TokenAmount, TokenAmountView};

verus! {

/// A liquidity provider as a paymaster reports it for one request: its entry and, for
/// each requested token in order, what it has deposited and what it holds.
#[derive(Debug, Clone)]
pub struct SolventXlpInfo {
    /// XLP entry.
    pub xlp_entry: XlpEntry,
    /// Deposits per token.
    pub deposits: Vec<U256>,
    /// Balances per token.
    pub balances: Vec<U256>,
}

/// The amount a provider has to cover for each requested token, in order.
pub open spec fn required_amounts(tokens: Seq<TokenAmountView>) -> Seq<U256> {
    Seq::new(tokens.len(), |i: int| TokenAmount::resolved_amount(tokens[i]))
}

/// Whether `available` is at least `required` times `factor`.
pub open spec fn amount_covered(available: U256, required: U256, factor: Fraction) -> bool {
    available.value() * 1_000_000 >= required.value() * factor.micros
}

/// Whether there is one deposit per requested token and each covers the amount
/// required times the reserve factor.
pub open spec fn deposits_cover(deposits: Seq<U256>, required: Seq<U256>, factor: Fraction) -> bool {
    &&& deposits.len() == required.len()
    &&& forall|i: int|
        0 <= i < required.len() ==> amount_covered(#[trigger] deposits[i], required[i], factor)
}

/// Whether there is one balance per requested token and each is at least the amount
/// required.
pub open spec fn balances_cover(balances: Seq<U256>, required: Seq<U256>) -> bool {
    &&& balances.len() == required.len()
    &&& forall|i: int|
        0 <= i < required.len() ==> (#[trigger] balances[i]).value() >= required[i].value()
}

/// Whether a candidate can underwrite a request.
pub open spec fn solvent(
    xlp: SolventXlpInfo,
    required: Seq<U256>,
    factor: Fraction,
    include_balance: bool,
) -> bool {
    &&& deposits_cover(xlp.deposits@, required, factor)
    &&& include_balance ==> balances_cover(xlp.balances@, required)
}

/// The solvent candidates, in the order in which they were given.
pub open spec fn solvent_of(
    candidates: Seq<SolventXlpInfo>,
    required: Seq<U256>,
    factor: Fraction,
    include_balance: bool,
) -> Seq<SolventXlpInfo>
    decreases candidates.len(),
{
    if candidates.len() == 0 {
        candidates
    } else {
        let rest = solvent_of(candidates.drop_last(), required, factor, include_balance);
        if solvent(candidates.last(), required, factor, include_balance) {
            rest.push(candidates.last())
        } else {
            rest
        }
    }
}

/// `s` with `a` put in before the trailing run of addresses greater than `a`.
pub open spec fn insert_sorted(s: Seq<Address>, a: Address) -> Seq<Address>
    decreases s.len(),
{
    if s.len() > 0 && a.spec_lt(s.last()) {
        insert_sorted(s.drop_last(), a).push(s.last())
    } else {
        s.push(a)
    }
}

/// The addresses of `s` in ascending order; equal addresses keep their order.
pub open spec fn sorted_addresses(s: Seq<Address>) -> Seq<Address>
    decreases s.len(),
{
    if s.len() == 0 {
        s
    } else {
        insert_sorted(sorted_addresses(s.drop_last()), s.last())
    }
}

/// Whether `s` is in ascending order.
pub open spec fn ascending(s: Seq<Address>) -> bool {
    forall|i: int, j: int| 0 <= i < j < s.len() ==> !s[j].spec_lt(s[i])
}

/// The addresses, on the chain of the paymaster, of the given providers.
pub open spec fn provider_addresses(xlps: Seq<SolventXlpInfo>) -> Seq<Address> {
    Seq::new(xlps.len(), |i: int| xlps[i].xlp_entry.l2_xlp_address)
}

/// The addresses allowed out of the solvent ones under a policy: with fewer than
/// `min_xlps` of them the selection fails, with `NoXlpsFound` if there is none and
/// with `InsufficientXlps` otherwise; else the addresses are put in ascending order and
/// the first `max_xlps` are taken.
pub open spec fn allowed_of(kept: Seq<Address>, policy: XlpSelectionConfig, chain_id: ChainId) -> std::result::Result<
    Seq<Address>,
    EilErrorView,
> {
    if kept.len() < policy.min_xlps {
        if kept.len() == 0 {
            Err(EilErrorView::NoXlpsFound(chain_id))
        } else {
            Err(
                EilErrorView::InsufficientXlps {
                    found: kept.len() as usize,
                    required: policy.min_xlps,
                    chain_id,
                },
            )
        }
    } else if kept.len() <= policy.max_xlps {
        Ok(sorted_addresses(kept))
    } else {
        Ok(sorted_addresses(kept).subrange(0, policy.max_xlps as int))
    }
}

/// The outcome of the selection protocol for a request on candidates.
pub open spec fn selection(
    candidates: Seq<SolventXlpInfo>,
    tokens: Seq<TokenAmountView>,
    policy: XlpSelectionConfig,
    chain_id: ChainId,
) -> std::result::Result<Seq<Address>, EilErrorView> {
    allowed_of(
        provider_addresses(
            solvent_of(
                candidates,
                required_amounts(tokens),
                policy.deposit_reserve_factor,
                policy.include_balance,
            ),
        ),
        policy,
        chain_id,
    )
}

/// Inserting into an ascending sequence puts the address after every address that is
/// not greater and before every address that is.
pub proof fn lemma_insert_sorted(s: Seq<Address>, a: Address, j: int)
    requires
        0 <= j <= s.len(),
        forall|k: int| j <= k < s.len() ==> a.spec_lt(#[trigger] s[k]),
        j > 0 ==> !a.spec_lt(s[j - 1]),
    ensures
        insert_sorted(s, a) == s.subrange(0, j).push(a) + s.subrange(j, s.len() as int),
    decreases s.len() - j,
{
    if j == s.len() {
        assert(s.subrange(0, j) =~= s);
        assert(s.push(a) + s.subrange(j, s.len() as int) =~= s.push(a));
    } else {
        let t = s.drop_last();
        lemma_insert_sorted(t, a, j);
        assert(t.subrange(0, j) =~= s.subrange(0, j));
        assert((t.subrange(0, j).push(a) + t.subrange(j, t.len() as int)).push(s.last()) =~= s.subrange(
            0,
            j,
        ).push(a) + s.subrange(j, s.len() as int));
    }
}

/// Inserting keeps a sequence ascending and adds exactly the one address.
pub proof fn lemma_insert_keeps_ascending(s: Seq<Address>, a: Address)
    requires
        ascending(s),
    ensures
        ascending(insert_sorted(s, a)),
        insert_sorted(s, a).len() == s.len() + 1,
        insert_sorted(s, a).to_multiset() == s.to_multiset().insert(a),
    decreases s.len(),
{
    broadcast use vstd::seq_lib::group_to_multiset_ensures;

    if s.len() > 0 && a.spec_lt(s.last()) {
        let t = s.drop_last();
        assert(ascending(t)) by {
            assert forall|i: int, j: int| 0 <= i < j < t.len() implies !t[j].spec_lt(t[i]) by {
                assert(!s[j].spec_lt(s[i]));
            }
        }
        lemma_insert_keeps_ascending(t, a);
        let u = insert_sorted(t, a);
        let r = u.push(s.last());
        assert(s =~= t.push(s.last()));
        assert(s.to_multiset() =~= t.to_multiset().insert(s.last()));
        assert(r.to_multiset() =~= s.to_multiset().insert(a));
        assert forall|i: int, j: int| 0 <= i < j < r.len() implies !r[j].spec_lt(r[i]) by {
            if j == u.len() {
                // every member of u is a or a member of t, and none is greater than s.last()
                assert(u.to_multiset().count(u[i]) > 0);
                if u[i] != a {
                    assert(t.to_multiset().count(u[i]) > 0);
                    assert(t.contains(u[i]));
                    let k = choose|k: int| 0 <= k < t.len() && t[k] == u[i];
                    assert(!s[s.len() - 1].spec_lt(s[k]));
                }
            } else {
                assert(!u[j].spec_lt(u[i]));
            }
        }
    } else {
        let r = s.push(a);
        assert forall|i: int, j: int| 0 <= i < j < r.len() implies !r[j].spec_lt(r[i]) by {
            if j == s.len() {
                if s.len() > 0 {
                    assert(!s[s.len() - 1].spec_lt(s[i]) || i == s.len() - 1);
                }
            } else {
                assert(!s[j].spec_lt(s[i]));
            }
        }
    }
}

/// Sorting yields the same addresses, as often as they were given, in ascending order.
pub proof fn lemma_sorted_addresses(s: Seq<Address>)
    ensures
        ascending(sorted_addresses(s)),
        sorted_addresses(s).len() == s.len(),
        sorted_addresses(s).to_multiset() == s.to_multiset(),
    decreases s.len(),
{
    broadcast use vstd::seq_lib::group_to_multiset_ensures;

    if s.len() > 0 {
        lemma_sorted_addresses(s.drop_last());
        lemma_insert_keeps_ascending(sorted_addresses(s.drop_last()), s.last());
        assert(s =~= s.drop_last().push(s.last()));
        assert(s.to_multiset() =~= s.drop_last().to_multiset().insert(s.last()));
    }
}

/// What a successful selection yields: the addresses are in ascending order, they are
/// as many as there were solvent providers but at most `max_xlps`, at least `min_xlps`
/// where the policy lets that many through, and each is the address of a solvent
/// provider.
pub proof fn lemma_allowed_of(kept: Seq<Address>, policy: XlpSelectionConfig, chain_id: ChainId)
    requires
        allowed_of(kept, policy, chain_id) is Ok,
    ensures
        ({
            let allowed = allowed_of(kept, policy, chain_id)->Ok_0;
            &&& ascending(allowed)
            &&& allowed.len() == if kept.len() <= policy.max_xlps {
                kept.len()
            } else {
                policy.max_xlps as nat
            }
            &&& policy.min_xlps <= policy.max_xlps ==> allowed.len() >= policy.min_xlps
            &&& forall|i: int| 0 <= i < allowed.len() ==> kept.contains(#[trigger] allowed[i])
        }),
{
    broadcast use vstd::seq_lib::group_to_multiset_ensures;

    lemma_sorted_addresses(kept);
    let sorted = sorted_addresses(kept);
    let allowed = allowed_of(kept, policy, chain_id)->Ok_0;
    assert forall|i: int| 0 <= i < allowed.len() implies kept.contains(#[trigger] allowed[i]) by {
        assert(allowed[i] == sorted[i]);
        assert(sorted.to_multiset().count(sorted[i]) > 0);
        assert(kept.to_multiset().count(sorted[i]) > 0);
    }
    assert forall|i: int, j: int| 0 <= i < j < allowed.len() implies !allowed[j].spec_lt(allowed[i]) by {
        assert(!sorted[j].spec_lt(sorted[i]));
    }
}

/// Whether `available` is at least `required` times `factor`.
pub fn covers(available: U256, required: U256, factor: Fraction) -> (r: bool)
    ensures
        r == amount_covered(available, required, factor),
{
    let (ca, la) = available.mul_u64(1_000_000);
    let (cr, lr) = required.mul_u64(factor.micros);
    ca > cr || (ca == cr && la.ge(&lr))
}

fn all_covered(available: &Vec<U256>, required: &Vec<U256>, factor: Fraction) -> (r: bool)
    ensures
        r == deposits_cover(available@, required@, factor),
{
    if available.len() != required.len() {
        return false;
    }
    let mut i: usize = 0;
    while i < required.len()
        invariant
            i <= required.len(),
            available.len() == required.len(),
            forall|k: int| 0 <= k < i ==> amount_covered(#[trigger] available@[k], required@[k], factor),
        decreases required.len() - i,
    {
        if !covers(available[i], required[i], factor) {
            return false;
        }
        i = i + 1;
    }
    true
}

fn all_held(balances: &Vec<U256>, required: &Vec<U256>) -> (r: bool)
    ensures
        r == balances_cover(balances@, required@),
{
    if balances.len() != required.len() {
        return false;
    }
    let mut i: usize = 0;
    while i < required.len()
        invariant
            i <= required.len(),
            balances.len() == required.len(),
            forall|k: int| 0 <= k < i ==> (#[trigger] balances@[k]).value() >= required@[k].value(),
        decreases required.len() - i,
    {
        if !balances[i].ge(&required[i]) {
            return false;
        }
        i = i + 1;
    }
    true
}

/// The amount a provider has to cover for each requested token, in order.
pub fn amounts_required(tokens: &Vec<TokenAmount>) -> (r: Vec<U256>)
    ensures
        r@ == required_amounts(views(tokens@)),
{
    let mut r: Vec<U256> = Vec::new();
    let mut i: usize = 0;
    while i < tokens.len()
        invariant
            i <= tokens.len(),
            r@.len() == i,
            forall|k: int| 0 <= k < i ==> #[trigger] r@[k] == TokenAmount::resolved_amount(tokens@[k]@),
        decreases tokens.len() - i,
    {
        r.push(tokens[i].resolve_amount());
        i = i + 1;
    }
    assert(r@ =~= required_amounts(views(tokens@)));
    r
}

/// The candidates that can underwrite a request for `tokens`, in the order given: those
/// whose deposit covers, for each requested token, the amount times
/// `deposit_reserve_factor` and, if `include_balance` is set, whose balance covers the
/// amount. The candidates are what the paymaster of the destination chain lists.
pub fn get_solvent_xlps<'a>(
    candidates: &'a Vec<SolventXlpInfo>,
    tokens: &Vec<TokenAmount>,
    deposit_reserve_factor: Fraction,
    include_balance: bool,
) -> (r: Vec<&'a SolventXlpInfo>)
    ensures
        referents(r@) == solvent_of(
            candidates@,
            required_amounts(views(tokens@)),
            deposit_reserve_factor,
            include_balance,
        ),
{
    let required = amounts_required(tokens);
    let mut r: Vec<&SolventXlpInfo> = Vec::new();
    let mut i: usize = 0;
    proof {
        assert(referents(r@) =~= solvent_of(
            candidates@.subrange(0, 0),
            required@,
            deposit_reserve_factor,
            include_balance,
        ));
    }
    while i < candidates.len()
        invariant
            i <= candidates.len(),
            required@ == required_amounts(views(tokens@)),
            referents(r@) == solvent_of(
                candidates@.subrange(0, i as int),
                required@,
                deposit_reserve_factor,
                include_balance,
            ),
        decreases candidates.len() - i,
    {
        let ghost shown = referents(r@);
        proof {
            let next = candidates@.subrange(0, i as int + 1);
            assert(next.drop_last() =~= candidates@.subrange(0, i as int));
            assert(next.last() == candidates@[i as int]);
        }
        let candidate = &candidates[i];
        let keep: bool = all_covered(&candidate.deposits, &required, deposit_reserve_factor) && (
        !include_balance || all_held(&candidate.balances, &required));
        if keep {
            r.push(candidate);
            assert(referents(r@) =~= shown.push(candidates@[i as int]));
        }
        i = i + 1;
    }
    assert(candidates@.subrange(0, i as int) =~= candidates@);
    r
}

/// The candidates that a list of references refers to, in order.
pub open spec fn referents(v: Seq<&SolventXlpInfo>) -> Seq<SolventXlpInfo> {
    Seq::new(v.len(), |i: int| *v[i])
}

/// Whether `kept` is what a filter leaves of `given`: a subsequence, in which `picks`
/// tells the place in `given` of each member.
pub open spec fn picked(given: Seq<SolventXlpInfo>, kept: Seq<SolventXlpInfo>, picks: Seq<int>) -> bool {
    &&& picks.len() == kept.len()
    &&& forall|k: int| 0 <= k < kept.len() ==> 0 <= #[trigger] picks[k] < given.len() && kept[k] == given[picks[k]]
    &&& forall|j: int, k: int| 0 <= j < k < kept.len() ==> picks[j] < picks[k]
}

/// Whether `accepted` is what `filter` leaves of `given` for the chain `chain_id`, with
/// `picks` telling the place in `given` of each member: the filter answered yes for
/// each candidate in `accepted` and no for each other candidate of `given`.
pub open spec fn accepted_by<F: XlpFilter + ?Sized>(
    filter: &F,
    chain_id: ChainId,
    given: Seq<SolventXlpInfo>,
    accepted: Seq<SolventXlpInfo>,
    picks: Seq<int>,
) -> bool {
    &&& picked(given, accepted, picks)
    &&& forall|k: int|
        0 <= k < accepted.len() ==> call_ensures(F::accepts, (filter, chain_id, &#[trigger] accepted[k]), true)
    &&& forall|i: int|
        0 <= i < given.len() && !picks.contains(i) ==> call_ensures(
            F::accepts,
            (filter, chain_id, &#[trigger] given[i]),
            false,
        )
}

/// Applies a custom filter to solvent candidates: keeps, in order, those that the
/// filter accepts for the chain. Of a filter nothing is known but what it answered:
/// every candidate kept was accepted, every candidate dropped was refused.
pub fn retain_accepted<'a, F: XlpFilter + ?Sized>(
    given: Vec<&'a SolventXlpInfo>,
    filter: &F,
    chain_id: ChainId,
) -> (r: Vec<&'a SolventXlpInfo>)
    ensures
        exists|picks: Seq<int>| #[trigger] accepted_by(filter, chain_id, referents(given@), referents(r@), picks),
{
    let mut kept: Vec<&SolventXlpInfo> = Vec::new();
    let ghost mut picks: Seq<int> = Seq::empty();
    let mut i: usize = 0;
    while i < given.len()
        invariant
            i <= given.len(),
            picked(referents(given@), referents(kept@), picks),
            forall|k: int| 0 <= k < picks.len() ==> #[trigger] picks[k] < i,
            forall|k: int| 0 <= k < picks.len() ==> kept@[k] == given@[#[trigger] picks[k]],
            forall|k: int| 0 <= k < kept@.len() ==> call_ensures(
                F::accepts,
                (filter, chain_id, #[trigger] kept@[k]),
                true,
            ),
            forall|j: int|
                0 <= j < i && !picks.contains(j) ==> call_ensures(
                    F::accepts,
                    (filter, chain_id, #[trigger] given@[j]),
                    false,
                ),
        decreases given.len() - i,
    {
        let candidate: &SolventXlpInfo = given[i];
        let ghost before = picks;
        if filter.accepts(chain_id, candidate) {
            kept.push(candidate);
            proof {
                picks = picks.push(i as int);
                assert forall|j: int| 0 <= j < i + 1 && !picks.contains(j) implies call_ensures(
                    F::accepts,
                    (filter, chain_id, #[trigger] given@[j]),
                    false,
                ) by {
                    if j < i {
                        if before.contains(j) {
                            let k = choose|k: int| 0 <= k < before.len() && before[k] == j;
                            assert(picks[k] == j);
                        }
                    } else {
                        assert(picks[picks.len() - 1] == j);
                    }
                }
            }
        } else {
            proof {
                assert forall|j: int| 0 <= j < i + 1 && !picks.contains(j) implies call_ensures(
                    F::accepts,
                    (filter, chain_id, #[trigger] given@[j]),
                    false,
                ) by {}
            }
        }
        i = i + 1;
    }
    proof {
        let all = referents(given@);
        let left = referents(kept@);
        assert(picked(all, left, picks));
        assert forall|k: int| 0 <= k < left.len() implies call_ensures(
            F::accepts,
            (filter, chain_id, &#[trigger] left[k]),
            true,
        ) by {
            assert(call_ensures(F::accepts, (filter, chain_id, kept@[k]), true));
        }
        assert forall|i: int| 0 <= i < all.len() && !picks.contains(i) implies call_ensures(
            F::accepts,
            (filter, chain_id, &#[trigger] all[i]),
            false,
        ) by {
            assert(call_ensures(F::accepts, (filter, chain_id, given@[i]), false));
        }
        assert(accepted_by(filter, chain_id, all, left, picks));
    }
    kept
}

/// The addresses in ascending order.
pub fn sort_addresses(addresses: &Vec<Address>) -> (r: Vec<Address>)
    ensures
        r@ == sorted_addresses(addresses@),
        ascending(r@),
        r@.len() == addresses@.len(),
        r@.to_multiset() == addresses@.to_multiset(),
{
    let mut r: Vec<Address> = Vec::new();
    let mut i: usize = 0;
    proof {
        assert(addresses@.subrange(0, 0) =~= Seq::<Address>::empty());
    }
    while i < addresses.len()
        invariant
            i <= addresses.len(),
            r@ == sorted_addresses(addresses@.subrange(0, i as int)),
        decreases addresses.len() - i,
    {
        let a: Address = addresses[i];
        proof {
            let next = addresses@.subrange(0, i as int + 1);
            assert(next.drop_last() =~= addresses@.subrange(0, i as int));
            assert(next.last() == a);
            lemma_sorted_addresses(addresses@.subrange(0, i as int));
        }
        let mut j: usize = r.len();
        while j > 0 && a.lt(&r[j - 1])
            invariant
                j <= r.len(),
                forall|k: int| j <= k < r@.len() ==> a.spec_lt(#[trigger] r@[k]),
            decreases j,
        {
            j = j - 1;
        }
        proof {
            lemma_insert_sorted(r@, a, j as int);
        }
        let ghost before = r@;
        r.insert(j, a);
        assert(r@ =~= before.subrange(0, j as int).push(a) + before.subrange(
            j as int,
            before.len() as int,
        ));
        i = i + 1;
    }
    proof {
        assert(addresses@.subrange(0, i as int) =~= addresses@);
        lemma_sorted_addresses(addresses@);
    }
    r
}

/// Applies the selection policy to the solvent candidates of a destination chain.
pub fn select_allowed_xlps(
    kept: &Vec<&SolventXlpInfo>,
    policy: &XlpSelectionConfig,
    chain_id: ChainId,
) -> (r: Result<Vec<Address>>)
    ensures
        match allowed_of(provider_addresses(referents(kept@)), *policy, chain_id) {
            Ok(allowed) => r matches Ok(v) && v@ == allowed,
            Err(e) => r matches Err(x) && x@ == e,
        },
{
    let ghost given = provider_addresses(referents(kept@));
    if kept.len() < policy.min_xlps {
        if kept.len() == 0 {
            return Err(EilError::NoXlpsFound(chain_id));
        }
        return Err(
            EilError::InsufficientXlps { found: kept.len(), required: policy.min_xlps, chain_id },
        );
    }
    let mut addresses: Vec<Address> = Vec::new();
    let mut i: usize = 0;
    while i < kept.len()
        invariant
            i <= kept.len(),
            addresses@.len() == i,
            forall|k: int| 0 <= k < i ==> #[trigger] addresses@[k] == kept@[k].xlp_entry.l2_xlp_address,
        decreases kept.len() - i,
    {
        addresses.push(kept[i].xlp_entry.l2_xlp_address);
        i = i + 1;
    }
    assert(addresses@ =~= given);
    let mut sorted = sort_addresses(&addresses);
    if sorted.len() > policy.max_xlps {
        sorted.truncate(policy.max_xlps);
    }
    Ok(sorted)
}

/// Runs the selection protocol for a request for `tokens` on the candidates that the
/// paymaster of the destination chain `chain_id` lists.
pub fn select_xlps(
    candidates: &Vec<SolventXlpInfo>,
    tokens: &Vec<TokenAmount>,
    policy: &XlpSelectionConfig,
    chain_id: ChainId,
) -> (r: Result<Vec<Address>>)
    ensures
        match selection(candidates@, views(tokens@), *policy, chain_id) {
            Ok(allowed) => r matches Ok(v) && v@ == allowed,
            Err(e) => r matches Err(x) && x@ == e,
        },
{
    let kept = get_solvent_xlps(
        candidates,
        tokens,
        policy.deposit_reserve_factor,
        policy.include_balance,
    );
    select_allowed_xlps(&kept, policy, chain_id)
}

} // verus!
