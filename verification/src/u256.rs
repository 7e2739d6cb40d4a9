//! 256-bit unsigned integers, held as four 64-bit words.

use vstd::prelude::*;

verus! {

/// The largest 256-bit value, `2^256 - 1`.
pub open spec fn u256_max() -> nat {
    0xffff_ffff_ffff_ffff_ffff_ffff_ffff_ffff_ffff_ffff_ffff_ffff_ffff_ffff_ffff_ffffnat
}

/// The number that four little-endian 64-bit words stand for.
pub open spec fn words_value(w0: u64, w1: u64, w2: u64, w3: u64) -> nat {
    (w0 as nat) + (w1 as nat) * 0x1_0000_0000_0000_0000nat + (w2 as nat)
        * 0x1_0000_0000_0000_0000_0000_0000_0000_0000nat + (w3 as nat)
        * 0x1_0000_0000_0000_0000_0000_0000_0000_0000_0000_0000_0000_0000nat
}

/// `value` held between `low` and `high`.
pub open spec fn clamp_nat(value: nat, low: nat, high: nat) -> nat {
    if value < low {
        low
    } else if value > high {
        high
    } else {
        value
    }
}

/// A 256-bit unsigned integer. `w0` is the least significant word.
#[derive(Clone, Copy, Debug, PartialEq, Eq, Structural)]
pub struct U256 {
    pub w0: u64,
    pub w1: u64,
    pub w2: u64,
    pub w3: u64,
}

impl View for U256 {
    type V = nat;

    open spec fn view(&self) -> nat {
        words_value(self.w0, self.w1, self.w2, self.w3)
    }
}

/// Two values with the same number have the same words.
pub proof fn lemma_u256_view_injective(a: U256, b: U256)
    requires
        a@ == b@,
    ensures
        a == b,
{
    let base: int = 0x1_0000_0000_0000_0000;
    let a2: int = a.w2 + base * a.w3;
    let b2: int = b.w2 + base * b.w3;
    let a1: int = a.w1 + base * a2;
    let b1: int = b.w1 + base * b2;
    assert(a@ == a.w0 + base * a1);
    assert(b@ == b.w0 + base * b1);
    assert(a1 == b1 && a.w0 == b.w0);
    assert(a2 == b2 && a.w1 == b.w1);
    assert(a.w3 == b.w3 && a.w2 == b.w2);
}

/// Every value fits in 256 bits.
pub proof fn lemma_u256_view_bound(a: U256)
    ensures
        a@ <= u256_max(),
{
}

impl U256 {
    /// Zero.
    pub fn zero() -> (r: U256)
        ensures
            r@ == 0,
    {
        U256 { w0: 0, w1: 0, w2: 0, w3: 0 }
    }

    /// The largest value.
    pub fn max_value() -> (r: U256)
        ensures
            r@ == u256_max(),
    {
        U256 { w0: u64::MAX, w1: u64::MAX, w2: u64::MAX, w3: u64::MAX }
    }

    /// The 256-bit value of a 64-bit number.
    pub fn from_u64(value: u64) -> (r: U256)
        ensures
            r@ == value,
    {
        U256 { w0: value, w1: 0, w2: 0, w3: 0 }
    }

    /// The 256-bit value of a 128-bit number.
    pub fn from_u128(value: u128) -> (r: U256)
        ensures
            r@ == value,
    {
        let low: u64 = (value & 0xffff_ffff_ffff_ffff) as u64;
        let high: u64 = (value >> 64) as u64;
        assert(value == (value & 0xffff_ffff_ffff_ffff) + (value >> 64) * 0x1_0000_0000_0000_0000
            && (value & 0xffff_ffff_ffff_ffff) <= 0xffff_ffff_ffff_ffff && (value >> 64)
            <= 0xffff_ffff_ffff_ffff) by (bit_vector);
        U256 { w0: low, w1: high, w2: 0, w3: 0 }
    }

    /// The value as a 128-bit number, if it is below `2^128`.
    pub fn to_u128(&self) -> (r: Option<u128>)
        ensures
            self@ <= u128::MAX ==> r == Some(self@ as u128),
            self@ > u128::MAX ==> r.is_none(),
    {
        if self.w2 == 0 && self.w3 == 0 {
            Some((self.w0 as u128) + (self.w1 as u128) * 0x1_0000_0000_0000_0000)
        } else {
            None
        }
    }

    /// Whether the value is zero.
    pub fn is_zero(&self) -> (r: bool)
        ensures
            r == (self@ == 0),
    {
        self.w0 == 0 && self.w1 == 0 && self.w2 == 0 && self.w3 == 0
    }

    /// Whether `self` is strictly below `other`.
    pub fn lt(&self, other: &U256) -> (r: bool)
        ensures
            r == (self@ < other@),
    {
        if self.w3 != other.w3 {
            self.w3 < other.w3
        } else if self.w2 != other.w2 {
            self.w2 < other.w2
        } else if self.w1 != other.w1 {
            self.w1 < other.w1
        } else {
            self.w0 < other.w0
        }
    }

    /// Whether `self` is at most `other`.
    pub fn le(&self, other: &U256) -> (r: bool)
        ensures
            r == (self@ <= other@),
    {
        !other.lt(self)
    }

    /// `self` held between `low` and `high`.
    pub fn clamp(self, low: U256, high: U256) -> (r: U256)
        requires
            low@ <= high@,
        ensures
            r@ == clamp_nat(self@, low@, high@),
    {
        if self.lt(&low) {
            low
        } else if high.lt(&self) {
            high
        } else {
            self
        }
    }

    /// The product, or `None` where it does not fit in 256 bits.
    pub fn checked_mul(self, other: U256) -> (r: Option<U256>)
        ensures
            self@ * other@ <= u256_max() ==> r.is_some() && r.unwrap()@ == self@ * other@,
            self@ * other@ > u256_max() ==> r.is_none(),
    {
        outside_checked_mul(self, other)
    }

    /// The product, or the largest value where the product does not fit in 256 bits.
    pub fn saturating_mul(self, other: U256) -> (r: U256)
        ensures
            r@ == if self@ * other@ > u256_max() {
                u256_max()
            } else {
                self@ * other@
            },
    {
        outside_saturating_mul(self, other)
    }

    /// The quotient rounded down, or `None` where `other` is zero.
    pub fn checked_div(self, other: U256) -> (r: Option<U256>)
        ensures
            other@ == 0 ==> r.is_none(),
            other@ != 0 ==> r.is_some() && r.unwrap()@ == self@ / other@,
    {
        outside_checked_div(self, other)
    }
}

/// Calls `checked_mul` of `sp_core::U256`: the product of the two numbers where it is
/// below `2^256`, and `None` where it is not.
#[verifier::external_body]
fn outside_checked_mul(a: U256, b: U256) -> (r: Option<U256>)
    ensures
        a@ * b@ <= u256_max() ==> r.is_some() && r.unwrap()@ == a@ * b@,
        a@ * b@ > u256_max() ==> r.is_none(),
{
    let x = sp_core::U256([a.w0, a.w1, a.w2, a.w3]);
    let y = sp_core::U256([b.w0, b.w1, b.w2, b.w3]);
    match x.checked_mul(y) {
        Some(p) => Some(U256 { w0: p.0[0], w1: p.0[1], w2: p.0[2], w3: p.0[3] }),
        None => None,
    }
}

/// Calls `saturating_mul` of `sp_core::U256`: the product of the two numbers where it is
/// below `2^256`, and `2^256 - 1` where it is not.
#[verifier::external_body]
fn outside_saturating_mul(a: U256, b: U256) -> (r: U256)
    ensures
        r@ == if a@ * b@ > u256_max() {
            u256_max()
        } else {
            a@ * b@
        },
{
    let x = sp_core::U256([a.w0, a.w1, a.w2, a.w3]);
    let y = sp_core::U256([b.w0, b.w1, b.w2, b.w3]);
    let p = x.saturating_mul(y);
    U256 { w0: p.0[0], w1: p.0[1], w2: p.0[2], w3: p.0[3] }
}

/// Calls `checked_div` of `sp_core::U256`: `None` where the divisor is zero, else the
/// quotient rounded down.
#[verifier::external_body]
fn outside_checked_div(a: U256, b: U256) -> (r: Option<U256>)
    ensures
        b@ == 0 ==> r.is_none(),
        b@ != 0 ==> r.is_some() && r.unwrap()@ == a@ / b@,
{
    let x = sp_core::U256([a.w0, a.w1, a.w2, a.w3]);
    let y = sp_core::U256([b.w0, b.w1, b.w2, b.w3]);
    match x.checked_div(y) {
        Some(q) => Some(U256 { w0: q.0[0], w1: q.0[1], w2: q.0[2], w3: q.0[3] }),
        None => None,
    }
}

} // verus!
