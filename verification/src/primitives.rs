//! Fixed-width blockchain primitives: 20-byte addresses and 256-bit unsigned integers.
//!
//! Both are plain `Copy` values made of machine integers, read most significant part
//! first, so that their numeric order is the order of their big-endian bytes.

use vstd::prelude::*;
use crate::abi::{parse_address, parsed_address};
use crate::error::{EilError, Result};

verus! {

/// The `n` low-order bytes of `v`, most significant first.
pub open spec fn be_bytes(v: nat, n: nat) -> Seq<u8>
    decreases n,
{
    if n == 0 {
        Seq::empty()
    } else {
        be_bytes(v / 256, (n - 1) as nat).push((v % 256) as u8)
    }
}

/// `n` zero bytes.
pub open spec fn zero_bytes(n: nat) -> Seq<u8> {
    Seq::new(n, |i: int| 0u8)
}

/// `be_bytes` always yields exactly `n` bytes.
pub proof fn lemma_be_bytes_len(v: nat, n: nat)
    ensures
        be_bytes(v, n).len() == n,
    decreases n,
{
    if n > 0 {
        lemma_be_bytes_len(v / 256, (n - 1) as nat);
    }
}

/// Appends the `n` low-order bytes of `v` to `buf`, most significant first.
pub fn push_be_bytes(buf: &mut Vec<u8>, v: u128, n: usize)
    ensures
        final(buf)@ == old(buf)@ + be_bytes(v as nat, n as nat),
    decreases n,
{
    if n > 0 {
        push_be_bytes(buf, v / 256, n - 1);
        let low: u128 = v % 256;
        buf.push(low as u8);
        assert(final(buf)@ == old(buf)@ + be_bytes(v as nat, n as nat)) by {
            assert(buf@ =~= old(buf)@ + be_bytes((v / 256) as nat, (n - 1) as nat).push(
                (v % 256) as u8,
            ));
        }
    } else {
        assert(buf@ =~= old(buf)@ + be_bytes(v as nat, 0));
    }
}

/// A 20-byte account or contract address.
#[derive(Clone, Copy, Debug, PartialEq, Eq, Structural, Hash, PartialOrd, Ord)]
pub struct Address {
    /// The first four bytes, as a big-endian number.
    pub hi: u32,
    /// The last sixteen bytes, as a big-endian number.
    pub lo: u128,
}

impl Address {
    /// The address as a 160-bit number.
    pub open spec fn value(self) -> nat {
        (self.hi as nat) * 0x1_0000_0000_0000_0000_0000_0000_0000_0000 + (self.lo as nat)
    }

    /// The twenty bytes of the address.
    pub open spec fn bytes(self) -> Seq<u8> {
        be_bytes(self.hi as nat, 4) + be_bytes(self.lo as nat, 16)
    }

    /// Whether this is the all-zero address.
    pub open spec fn spec_is_zero(&self) -> bool {
        self.hi == 0 && self.lo == 0
    }

    /// Whether `self` sorts strictly before `other` (numeric, hence byte-wise, order).
    pub open spec fn spec_lt(self, other: Address) -> bool {
        self.value() < other.value()
    }

    /// The all-zero address.
    pub fn zero() -> (a: Address)
        ensures
            a.spec_is_zero(),
            a.value() == 0,
    {
        Address { hi: 0, lo: 0 }
    }

    /// Reads an address from its hexadecimal text (forty digits, with or without the
    /// prefix `0x` or `0X`). Any other text is rejected with `HexDecode`.
    pub fn parse(text: &str) -> (r: Result<Address>)
        ensures
            match parsed_address(text@) {
                Some(a) => r matches Ok(v) && v == a,
                None => r matches Err(EilError::HexDecode(_)),
            },
    {
        match parse_address(text) {
            Ok(a) => Ok(a),
            Err(e) => Err(EilError::HexDecode(e)),
        }
    }

    /// The address whose numeric value is `v`.
    pub fn from_u128(v: u128) -> (a: Address)
        ensures
            a == (Address { hi: 0, lo: v }),
            a.value() == v,
    {
        Address { hi: 0, lo: v }
    }

    /// Whether this is the all-zero address.
    #[verifier::when_used_as_spec(spec_is_zero)]
    pub fn is_zero(&self) -> (z: bool)
        ensures
            z == self.spec_is_zero(),
            z == (self.value() == 0),
    {
        self.hi == 0 && self.lo == 0
    }

    /// Strict numeric comparison.
    pub fn lt(&self, other: &Address) -> (r: bool)
        ensures
            r == self.spec_lt(*other),
    {
        self.hi < other.hi || (self.hi == other.hi && self.lo < other.lo)
    }

    /// The twenty bytes of the address, in order.
    pub fn to_bytes(&self) -> (out: Vec<u8>)
        ensures
            out@ == self.bytes(),
            out@.len() == 20,
    {
        let mut out: Vec<u8> = Vec::new();
        push_be_bytes(&mut out, self.hi as u128, 4);
        push_be_bytes(&mut out, self.lo, 16);
        proof {
            lemma_be_bytes_len(self.hi as nat, 4);
            lemma_be_bytes_len(self.lo as nat, 16);
            assert(out@ =~= self.bytes());
        }
        out
    }
}

impl std::str::FromStr for Address {
    type Err = EilError;

    fn from_str(text: &str) -> (r: Result<Address>)
        ensures
            match parsed_address(text@) {
                Some(a) => r matches Ok(v) && v == a,
                None => r matches Err(EilError::HexDecode(_)),
            },
    {
        Address::parse(text)
    }
}

/// An unsigned 256-bit integer.
#[derive(Clone, Copy, Debug, PartialEq, Eq, Structural, Hash, PartialOrd, Ord)]
pub struct U256 {
    /// The high 128 bits.
    pub hi: u128,
    /// The low 128 bits.
    pub lo: u128,
}

impl U256 {
    /// The number this value stands for.
    pub open spec fn value(self) -> nat {
        (self.hi as nat) * 0x1_0000_0000_0000_0000_0000_0000_0000_0000 + (self.lo as nat)
    }

    /// The 32-byte big-endian word of this number.
    pub open spec fn bytes(self) -> Seq<u8> {
        be_bytes(self.hi as nat, 16) + be_bytes(self.lo as nat, 16)
    }

    /// The 256-bit integer equal to `v`.
    pub open spec fn spec_from_u64(v: u64) -> U256 {
        U256 { hi: 0, lo: v as u128 }
    }

    /// Whether this is zero.
    pub open spec fn spec_is_zero(&self) -> bool {
        self.hi == 0 && self.lo == 0
    }

    /// Zero.
    pub fn zero() -> (r: U256)
        ensures
            r.value() == 0,
            r == U256::spec_from_u64(0),
    {
        U256 { hi: 0, lo: 0 }
    }

    /// The 256-bit integer equal to `v`.
    #[verifier::when_used_as_spec(spec_from_u64)]
    pub fn from_u64(v: u64) -> (r: U256)
        ensures
            r == U256::spec_from_u64(v),
            r.value() == v,
    {
        U256 { hi: 0, lo: v as u128 }
    }

    /// The 256-bit integer equal to `v`.
    pub fn from_u128(v: u128) -> (r: U256)
        ensures
            r == (U256 { hi: 0, lo: v }),
            r.value() == v,
    {
        U256 { hi: 0, lo: v }
    }

    /// Whether this is zero.
    #[verifier::when_used_as_spec(spec_is_zero)]
    pub fn is_zero(&self) -> (z: bool)
        ensures
            z == self.spec_is_zero(),
            z == (self.value() == 0),
    {
        self.hi == 0 && self.lo == 0
    }

    /// Whether `self >= other` as numbers.
    pub fn ge(&self, other: &U256) -> (r: bool)
        ensures
            r == (self.value() >= other.value()),
    {
        self.hi > other.hi || (self.hi == other.hi && self.lo >= other.lo)
    }

    /// The 32-byte big-endian word of this number.
    pub fn to_be_bytes(&self) -> (out: Vec<u8>)
        ensures
            out@ == self.bytes(),
            out@.len() == 32,
    {
        let mut out: Vec<u8> = Vec::new();
        push_be_bytes(&mut out, self.hi, 16);
        push_be_bytes(&mut out, self.lo, 16);
        proof {
            lemma_be_bytes_len(self.hi as nat, 16);
            lemma_be_bytes_len(self.lo as nat, 16);
            assert(out@ =~= self.bytes());
        }
        out
    }
}

/// Two to the power 64.
pub open spec fn pow64() -> nat {
    0x1_0000_0000_0000_0000
}

/// The product of two 64-bit numbers fits in 128 bits with room for a 64-bit carry.
pub proof fn lemma_limb_product(a: u64, m: u64, carry: u64)
    ensures
        (a as nat) * (m as nat) + (carry as nat) <= 0xffff_ffff_ffff_ffff_ffff_ffff_ffff_ffff,
{
    assert((a as nat) * (m as nat) <= 0xffff_ffff_ffff_ffff * 0xffff_ffff_ffff_ffff)
        by (nonlinear_arith)
        requires
            (a as nat) <= 0xffff_ffff_ffff_ffff,
            (m as nat) <= 0xffff_ffff_ffff_ffff,
    ;
}

/// One step of a long multiplication: `limb * m + carry`, split into its low 64 bits
/// and the carry into the next limb.
fn mul_limb(limb: u64, m: u64, carry: u64) -> (r: (u64, u64))
    ensures
        (r.1 as nat) * pow64() + (r.0 as nat) == (limb as nat) * (m as nat) + (carry as nat),
{
    proof {
        lemma_limb_product(limb, m, carry);
    }
    let wide: u128 = (limb as u128) * (m as u128) + (carry as u128);
    let low: u128 = wide % 0x1_0000_0000_0000_0000;
    let high: u128 = wide / 0x1_0000_0000_0000_0000;
    (low as u64, high as u64)
}

impl U256 {
    /// The product of this number and `m`: the low 256 bits and what is carried beyond
    /// them.
    pub fn mul_u64(&self, m: u64) -> (r: (u64, U256))
        ensures
            (r.0 as nat) * 0x1_0000_0000_0000_0000_0000_0000_0000_0000
                * 0x1_0000_0000_0000_0000_0000_0000_0000_0000 + r.1.value() == self.value() * (
            m as nat),
    {
        let a0: u64 = (self.lo % 0x1_0000_0000_0000_0000) as u64;
        let a1: u64 = (self.lo / 0x1_0000_0000_0000_0000) as u64;
        let a2: u64 = (self.hi % 0x1_0000_0000_0000_0000) as u64;
        let a3: u64 = (self.hi / 0x1_0000_0000_0000_0000) as u64;
        let (r0, c0) = mul_limb(a0, m, 0);
        let (r1, c1) = mul_limb(a1, m, c0);
        let (r2, c2) = mul_limb(a2, m, c1);
        let (r3, c3) = mul_limb(a3, m, c2);
        let lo: u128 = (r1 as u128) * 0x1_0000_0000_0000_0000 + (r0 as u128);
        let hi: u128 = (r3 as u128) * 0x1_0000_0000_0000_0000 + (r2 as u128);
        let low = U256 { hi, lo };
        proof {
            let mm: nat = m as nat;
            let x0: nat = (a0 as nat) * mm;
            let x1: nat = (a1 as nat) * mm;
            let x2: nat = (a2 as nat) * mm;
            let x3: nat = (a3 as nat) * mm;
            let v: nat = self.value();
            assert(v == (a0 as nat) + (a1 as nat) * 0x1_0000_0000_0000_0000 + (a2 as nat)
                * 0x1_0000_0000_0000_0000_0000_0000_0000_0000 + (a3 as nat)
                * 0x1_0000_0000_0000_0000_0000_0000_0000_0000_0000_0000_0000_0000);
            assert(v * mm == x0 + x1 * 0x1_0000_0000_0000_0000 + x2
                * 0x1_0000_0000_0000_0000_0000_0000_0000_0000 + x3
                * 0x1_0000_0000_0000_0000_0000_0000_0000_0000_0000_0000_0000_0000)
                by (nonlinear_arith)
                requires
                    v == (a0 as nat) + (a1 as nat) * 0x1_0000_0000_0000_0000 + (a2 as nat)
                        * 0x1_0000_0000_0000_0000_0000_0000_0000_0000 + (a3 as nat)
                        * 0x1_0000_0000_0000_0000_0000_0000_0000_0000_0000_0000_0000_0000,
                    x0 == (a0 as nat) * mm,
                    x1 == (a1 as nat) * mm,
                    x2 == (a2 as nat) * mm,
                    x3 == (a3 as nat) * mm,
            ;
        }
        (c3, low)
    }
}

impl From<u64> for U256 {
    fn from(v: u64) -> (r: U256) {
        U256::from_u64(v)
    }
}

impl vstd::std_specs::convert::FromSpecImpl<u64> for U256 {
    open spec fn obeys_from_spec() -> bool {
        true
    }

    open spec fn from_spec(v: u64) -> U256 {
        U256::spec_from_u64(v)
    }
}

} // verus!
