//! Small helpers: the clock and the fee arithmetic.

use vstd::prelude::*;
use std::time::{SystemTime, UNIX_EPOCH};
use crate::config::Fraction;
use crate::primitives::U256;

verus! {

/// `SystemTime::now` measured from the Unix epoch, in whole seconds; `None` when the
/// system clock stands before the epoch. Nothing is claimed of the value: it is the
/// time of the call.
#[verifier::external_body]
fn seconds_since_epoch() -> (r: Option<u64>) {
    SystemTime::now().duration_since(UNIX_EPOCH).ok().map(|d| d.as_secs())
}

/// The decimal digit of a number below ten.
pub open spec fn digit(d: nat) -> char {
    if d == 0 {
        '0'
    } else if d == 1 {
        '1'
    } else if d == 2 {
        '2'
    } else if d == 3 {
        '3'
    } else if d == 4 {
        '4'
    } else if d == 5 {
        '5'
    } else if d == 6 {
        '6'
    } else if d == 7 {
        '7'
    } else if d == 8 {
        '8'
    } else {
        '9'
    }
}

/// The decimal numeral of a number, without leading zeros.
pub open spec fn decimal(n: nat) -> Seq<char>
    decreases n,
{
    if n < 10 {
        seq![digit(n)]
    } else {
        decimal(n / 10).push(digit(n % 10))
    }
}

/// The decimal digit of a number below ten, as text.
fn digit_text(d: u64) -> (r: &'static str)
    requires
        d < 10,
    ensures
        r@ == seq![digit(d as nat)],
{
    proof {
        reveal_strlit("0");
        reveal_strlit("1");
        reveal_strlit("2");
        reveal_strlit("3");
        reveal_strlit("4");
        reveal_strlit("5");
        reveal_strlit("6");
        reveal_strlit("7");
        reveal_strlit("8");
        reveal_strlit("9");
    }
    if d == 0 {
        "0"
    } else if d == 1 {
        "1"
    } else if d == 2 {
        "2"
    } else if d == 3 {
        "3"
    } else if d == 4 {
        "4"
    } else if d == 5 {
        "5"
    } else if d == 6 {
        "6"
    } else if d == 7 {
        "7"
    } else if d == 8 {
        "8"
    } else {
        "9"
    }
}

/// The decimal numeral of `n`, as text.
pub(crate) fn u64_to_string(n: u64) -> (r: String)
    ensures
        r@ == decimal(n as nat),
    decreases n,
{
    if n < 10 {
        String::from_str(digit_text(n))
    } else {
        let mut r = u64_to_string(n / 10);
        r.append(digit_text(n % 10));
        assert(r@ =~= decimal(n as nat));
        r
    }
}

/// Current Unix timestamp in seconds (0 when the system clock stands before the epoch).
pub fn now_seconds() -> (r: u64) {
    match seconds_since_epoch() {
        Some(s) => s,
        None => 0,
    }
}

/// The fee numerator of a fraction: the fraction times 10,000, rounded toward zero.
pub open spec fn fee_numerator(percent: Fraction) -> nat {
    (percent.micros as nat * 10_000) / 1_000_000
}

/// Converts a fee fraction to its numerator out of 10,000.
pub fn fee_percent_to_numerator(percent: Fraction) -> (r: U256)
    ensures
        r.value() == fee_numerator(percent),
        r == U256::spec_from_u64((percent.micros / 100) as u64),
{
    U256::from_u64(percent.micros / 100)
}

/// Fee-numerator rounding: the numerator of a fraction `p` is the floor of
/// `p` times 10,000, that is, the one natural number `n` with
/// `n <= p * 10,000 < n + 1` (stated in millionths, where `p` is exact).
pub proof fn lemma_fee_numerator_is_floor(percent: Fraction)
    ensures
        fee_numerator(percent) * 1_000_000 <= percent.micros * 10_000,
        percent.micros * 10_000 < (fee_numerator(percent) + 1) * 1_000_000,
        percent.micros <= 1_000_000 ==> fee_numerator(percent) <= 10_000,
{
}

} // verus!
