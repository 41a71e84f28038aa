//! Unsigned 192-bit fixed-point numbers with 18 decimals, as `brine_fp` computes them.
//!
//! A [`Fixed`] holds the raw scaled integer of a `brine_fp::UnsignedNumeric`; its view is
//! that integer, so the real value it stands for is `view / 10^18`.
use vstd::prelude::*;

use crate::errors::MathError;
use brine_fp::{InnerUint, UnsignedNumeric};
use solana_math::{SafeMath, SafeMathError};

verus! {

/// The scale of a fixed-point number: 10^18 raw units make 1.
pub open spec fn fp_one() -> int {
    1_000_000_000_000_000_000
}

/// Raw values live below 2^192.
pub open spec fn fp_limit() -> int {
    pow2_128() * pow2_64()
}

/// 2^64.
pub open spec fn pow2_64() -> int {
    0x1_0000000000000000int
}

/// 2^128.
pub open spec fn pow2_128() -> int {
    0x1_00000000000000000000000000000000int
}

/// Raw value of the whole number `v`.
pub open spec fn fp_new(v: int) -> int {
    v * fp_one()
}

/// Fixed-point quotient, rounded half up, with the reduced-precision path that
/// `UnsignedNumeric::checked_div` takes when `a * 10^18` leaves 192 bits.
pub open spec fn fp_div(a: int, b: int) -> Option<int> {
    if b == 0 {
        None
    } else if a * fp_one() < fp_limit() {
        if a * fp_one() + fp_one() / 2 < fp_limit() {
            Some((a * fp_one() + fp_one() / 2) / b)
        } else {
            None
        }
    } else if a + fp_one() / 2 < fp_limit() && (a + fp_one() / 2) / b * fp_one() < fp_limit() {
        Some((a + fp_one() / 2) / b * fp_one())
    } else {
        None
    }
}

/// Fixed-point product, rounded half up, with the reduced-precision path that
/// `UnsignedNumeric::checked_mul` takes when `a * b` leaves 192 bits.
pub open spec fn fp_mul(a: int, b: int) -> Option<int> {
    if a * b < fp_limit() {
        if a * b + fp_one() / 2 < fp_limit() {
            Some((a * b + fp_one() / 2) / fp_one())
        } else {
            None
        }
    } else if a >= b {
        if a / fp_one() * b < fp_limit() {
            Some(a / fp_one() * b)
        } else {
            None
        }
    } else {
        if b / fp_one() * a < fp_limit() {
            Some(b / fp_one() * a)
        } else {
            None
        }
    }
}

/// Fixed-point difference; none below zero.
pub open spec fn fp_sub(a: int, b: int) -> Option<int> {
    if a >= b {
        Some(a - b)
    } else {
        None
    }
}

/// Smallest whole number at or above `a`, as a raw value.
pub open spec fn fp_ceiling(a: int) -> Option<int> {
    if a + (fp_one() - 1) < fp_limit() && (a + (fp_one() - 1)) / fp_one() * fp_one()
        < fp_limit() {
        Some((a + (fp_one() - 1)) / fp_one() * fp_one())
    } else {
        None
    }
}

/// Nearest whole number (halves up) as an integer.
pub open spec fn fp_to_imprecise(a: int) -> Option<int> {
    if a + fp_one() / 2 < fp_limit() {
        Some((a + fp_one() / 2) / fp_one())
    } else {
        None
    }
}

/// Natural logarithm that `UnsignedNumeric::log` computes on the raw value `raw`:
/// the sign and the raw magnitude of the result, or none.
pub uninterp spec fn natural_log(raw: nat) -> Option<(bool, nat)>;

/// A raw 192-bit fixed-point value in three little-endian 64-bit words.
#[derive(Clone, Copy, Debug)]
pub struct Fixed {
    lo: u64,
    mid: u64,
    hi: u64,
}

impl View for Fixed {
    type V = nat;

    closed spec fn view(&self) -> nat {
        (self.lo + self.mid * pow2_64() + self.hi * pow2_128()) as nat
    }
}

impl Fixed {
    /// The raw value `lo + mid * 2^64 + hi * 2^128`.
    pub fn from_words(lo: u64, mid: u64, hi: u64) -> (r: Fixed)
        ensures
            r@ == lo + mid * pow2_64() + hi * pow2_128(),
    {
        Fixed { lo, mid, hi }
    }

    /// The three 64-bit words of the raw value, least significant first.
    pub fn words(&self) -> (r: (u64, u64, u64))
        ensures
            self@ == r.0 + r.1 * pow2_64() + r.2 * pow2_128(),
    {
        (self.lo, self.mid, self.hi)
    }
}

/// A signed fixed-point number: a magnitude and its sign.
#[derive(Clone, Copy, Debug)]
pub struct SignedFixed {
    pub value: Fixed,
    pub is_negative: bool,
}

/// `UnsignedNumeric::new`: the whole number `v`, scaled by 10^18.
#[verifier::external_body]
pub(crate) fn fixed_new(v: u128) -> (r: Fixed)
    ensures
        r@ == fp_new(v as int),
{
    let InnerUint([lo, mid, hi]) = UnsignedNumeric::new(v).value;
    Fixed { lo, mid, hi }
}

/// `<UnsignedNumeric as solana_math::SafeMath>::safe_div`, which calls
/// `UnsignedNumeric::checked_div`: the rounded quotient, or `Overflow` on a zero
/// divisor or a result outside 192 bits.
#[verifier::external_body]
pub(crate) fn fixed_safe_div(a: &Fixed, b: &Fixed) -> (r: Result<Fixed, MathError>)
    ensures
        match fp_div(a@ as int, b@ as int) {
            Some(q) => r == Ok::<Fixed, MathError>(r->Ok_0) && r->Ok_0@ == q,
            None => r == Err::<Fixed, MathError>(MathError::Overflow),
        },
{
    let x = UnsignedNumeric::from_values(a.lo, a.mid, a.hi);
    match x.safe_div(UnsignedNumeric::from_values(b.lo, b.mid, b.hi)) {
        Ok(UnsignedNumeric { value: InnerUint([lo, mid, hi]) }) => Ok(Fixed { lo, mid, hi }),
        Err(SafeMathError::Overflow) => Err(MathError::Overflow),
        Err(SafeMathError::Underflow) => Err(MathError::Underflow),
        Err(SafeMathError::ConversionFailed) => Err(MathError::ConversionFailed),
    }
}

/// `<UnsignedNumeric as solana_math::SafeMath>::safe_mul`, which calls
/// `UnsignedNumeric::checked_mul`: the rounded product, or `Overflow` outside 192 bits.
#[verifier::external_body]
pub(crate) fn fixed_safe_mul(a: &Fixed, b: &Fixed) -> (r: Result<Fixed, MathError>)
    ensures
        match fp_mul(a@ as int, b@ as int) {
            Some(p) => r == Ok::<Fixed, MathError>(r->Ok_0) && r->Ok_0@ == p,
            None => r == Err::<Fixed, MathError>(MathError::Overflow),
        },
{
    let x = UnsignedNumeric::from_values(a.lo, a.mid, a.hi);
    match x.safe_mul(UnsignedNumeric::from_values(b.lo, b.mid, b.hi)) {
        Ok(UnsignedNumeric { value: InnerUint([lo, mid, hi]) }) => Ok(Fixed { lo, mid, hi }),
        Err(SafeMathError::Overflow) => Err(MathError::Overflow),
        Err(SafeMathError::Underflow) => Err(MathError::Underflow),
        Err(SafeMathError::ConversionFailed) => Err(MathError::ConversionFailed),
    }
}

/// `<UnsignedNumeric as solana_math::SafeMath>::safe_sub`, which calls
/// `UnsignedNumeric::checked_sub`: the difference, or `Underflow` below zero.
#[verifier::external_body]
pub(crate) fn fixed_safe_sub(a: &Fixed, b: &Fixed) -> (r: Result<Fixed, MathError>)
    ensures
        match fp_sub(a@ as int, b@ as int) {
            Some(d) => r == Ok::<Fixed, MathError>(r->Ok_0) && r->Ok_0@ == d,
            None => r == Err::<Fixed, MathError>(MathError::Underflow),
        },
{
    let x = UnsignedNumeric::from_values(a.lo, a.mid, a.hi);
    match x.safe_sub(UnsignedNumeric::from_values(b.lo, b.mid, b.hi)) {
        Ok(UnsignedNumeric { value: InnerUint([lo, mid, hi]) }) => Ok(Fixed { lo, mid, hi }),
        Err(SafeMathError::Overflow) => Err(MathError::Overflow),
        Err(SafeMathError::Underflow) => Err(MathError::Underflow),
        Err(SafeMathError::ConversionFailed) => Err(MathError::ConversionFailed),
    }
}

/// `UnsignedNumeric::ceiling`: rounds up to a whole number; none outside 192 bits.
#[verifier::external_body]
pub(crate) fn fixed_ceiling(a: &Fixed) -> (r: Option<Fixed>)
    ensures
        match fp_ceiling(a@ as int) {
            Some(c) => r is Some && r->0@ == c,
            None => r is None,
        },
{
    match UnsignedNumeric::from_values(a.lo, a.mid, a.hi).ceiling() {
        Some(UnsignedNumeric { value: InnerUint([lo, mid, hi]) }) => Some(Fixed { lo, mid, hi }),
        None => None,
    }
}

/// `UnsignedNumeric::to_imprecise`: the nearest whole number as a `u128`. The call panics
/// when that number does not fit in 128 bits, so such values are left out.
#[verifier::external_body]
pub(crate) fn fixed_to_imprecise(a: &Fixed) -> (r: Option<u128>)
    requires
        a@ + fp_one() / 2 < fp_limit() ==> (a@ + fp_one() / 2) / fp_one() < pow2_128(),
    ensures
        match fp_to_imprecise(a@ as int) {
            Some(w) => r == Some(w as u128),
            None => r is None,
        },
{
    UnsignedNumeric::from_values(a.lo, a.mid, a.hi).to_imprecise()
}

/// `UnsignedNumeric::log`: the natural logarithm, named by [`natural_log`]. Of its value
/// nothing more is stated here. It converts its argument with `to_imprecise`, which
/// panics from 2^128 on, so such arguments are left out.
#[verifier::external_body]
pub(crate) fn fixed_ln(a: &Fixed) -> (r: Option<SignedFixed>)
    requires
        a@ + fp_one() / 2 < fp_one() * pow2_128(),
    ensures
        match r {
            Some(s) => natural_log(a@) == Some((s.is_negative, s.value@)),
            None => natural_log(a@) is None,
        },
{
    match UnsignedNumeric::from_values(a.lo, a.mid, a.hi).log() {
        Some(s) => {
            let InnerUint([lo, mid, hi]) = s.value.value;
            Some(SignedFixed { value: Fixed { lo, mid, hi }, is_negative: s.is_negative })
        },
        None => None,
    }
}

} // verus!
