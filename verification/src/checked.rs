//! Checked integer arithmetic of `solana_math`, seen through its contracts.
use vstd::prelude::*;

use crate::errors::MathError;
use solana_math::{SafeConvert, SafeMath, SafeMathError};

verus! {

/// `v` as a `u128`, or `err` when it does not fit.
pub open spec fn fit_u128(v: int, err: MathError) -> Result<u128, MathError> {
    if 0 <= v <= u128::MAX {
        Ok(v as u128)
    } else {
        Err(err)
    }
}

/// `v` as a `u64`, or `err` when it does not fit.
pub open spec fn fit_u64(v: int, err: MathError) -> Result<u64, MathError> {
    if 0 <= v <= u64::MAX {
        Ok(v as u64)
    } else {
        Err(err)
    }
}

/// Quotient of `a` by `b`, or `Overflow` when `b` is zero.
pub open spec fn div_u128(a: u128, b: u128) -> Result<u128, MathError> {
    if b == 0 {
        Err(MathError::Overflow)
    } else {
        Ok((a / b) as u128)
    }
}

/// `<u128 as solana_math::SafeMath>::safe_add`: the sum, or `Overflow` when it leaves `u128`.
#[verifier::external_body]
pub(crate) fn u128_safe_add(a: u128, b: u128) -> (r: Result<u128, MathError>)
    ensures
        r == fit_u128(a + b, MathError::Overflow),
{
    match a.safe_add(b) {
        Ok(v) => Ok(v),
        Err(SafeMathError::Overflow) => Err(MathError::Overflow),
        Err(SafeMathError::Underflow) => Err(MathError::Underflow),
        Err(SafeMathError::ConversionFailed) => Err(MathError::ConversionFailed),
    }
}

/// `<u128 as solana_math::SafeMath>::safe_sub`: the difference, or `Underflow` below zero.
#[verifier::external_body]
pub(crate) fn u128_safe_sub(a: u128, b: u128) -> (r: Result<u128, MathError>)
    ensures
        r == fit_u128(a - b, MathError::Underflow),
{
    match a.safe_sub(b) {
        Ok(v) => Ok(v),
        Err(SafeMathError::Overflow) => Err(MathError::Overflow),
        Err(SafeMathError::Underflow) => Err(MathError::Underflow),
        Err(SafeMathError::ConversionFailed) => Err(MathError::ConversionFailed),
    }
}

/// `<u128 as solana_math::SafeMath>::safe_mul`: the product, or `Overflow` when it leaves `u128`.
#[verifier::external_body]
pub(crate) fn u128_safe_mul(a: u128, b: u128) -> (r: Result<u128, MathError>)
    ensures
        r == fit_u128(a * b, MathError::Overflow),
{
    match a.safe_mul(b) {
        Ok(v) => Ok(v),
        Err(SafeMathError::Overflow) => Err(MathError::Overflow),
        Err(SafeMathError::Underflow) => Err(MathError::Underflow),
        Err(SafeMathError::ConversionFailed) => Err(MathError::ConversionFailed),
    }
}

/// `<u128 as solana_math::SafeMath>::safe_div`: the floored quotient, or `Overflow` when
/// the divisor is zero.
#[verifier::external_body]
pub(crate) fn u128_safe_div(a: u128, b: u128) -> (r: Result<u128, MathError>)
    ensures
        r == div_u128(a, b),
{
    match a.safe_div(b) {
        Ok(v) => Ok(v),
        Err(SafeMathError::Overflow) => Err(MathError::Overflow),
        Err(SafeMathError::Underflow) => Err(MathError::Underflow),
        Err(SafeMathError::ConversionFailed) => Err(MathError::ConversionFailed),
    }
}

/// `<u128 as solana_math::SafeConvert>::safe_to_u64`: the same value as a `u64`, or
/// `Overflow` when it does not fit.
#[verifier::external_body]
pub(crate) fn u128_safe_to_u64(a: u128) -> (r: Result<u64, MathError>)
    ensures
        r == fit_u64(a as int, MathError::Overflow),
{
    match a.safe_to_u64() {
        Ok(v) => Ok(v),
        Err(SafeMathError::Overflow) => Err(MathError::Overflow),
        Err(SafeMathError::Underflow) => Err(MathError::Underflow),
        Err(SafeMathError::ConversionFailed) => Err(MathError::ConversionFailed),
    }
}

/// `<u64 as solana_math::SafeMath>::safe_add`: the sum, or `Overflow` when it leaves `u64`.
#[verifier::external_body]
pub(crate) fn u64_safe_add(a: u64, b: u64) -> (r: Result<u64, MathError>)
    ensures
        r == fit_u64(a + b, MathError::Overflow),
{
    match a.safe_add(b) {
        Ok(v) => Ok(v),
        Err(SafeMathError::Overflow) => Err(MathError::Overflow),
        Err(SafeMathError::Underflow) => Err(MathError::Underflow),
        Err(SafeMathError::ConversionFailed) => Err(MathError::ConversionFailed),
    }
}

} // verus!
