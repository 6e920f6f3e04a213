//! Checked integer arithmetic on unsigned values and their signed pairs.

use vstd::prelude::*;
use crate::error::{Error, Invalid};

verus! {

/// `a + b`, or `None` where the sum leaves `u64`.
///
/// Calls `num_traits::CheckedAdd::checked_add` for `u64`, which forwards to
/// `u64::checked_add`. Trusted: the result is the sum exactly when it fits.
#[verifier::external_body]
pub(crate) fn checked_add(a: u64, b: u64) -> (r: Option<u64>)
    ensures
        r == (if a + b <= u64::MAX { Some((a + b) as u64) } else { None::<u64> }),
{
    num_traits::CheckedAdd::checked_add(&a, &b)
}

/// `a - b`, or `None` where `b > a`.
///
/// Calls `num_traits::CheckedSub::checked_sub` for `u64`, which forwards to
/// `u64::checked_sub`. Trusted: the result is the difference exactly when it
/// is not negative.
#[verifier::external_body]
pub(crate) fn checked_sub(a: u64, b: u64) -> (r: Option<u64>)
    ensures
        r == (if a >= b { Some((a - b) as u64) } else { None::<u64> }),
{
    num_traits::CheckedSub::checked_sub(&a, &b)
}

/// `a * b`, or `None` where the product leaves `u64`.
///
/// Calls `num_traits::CheckedMul::checked_mul` for `u64`, which forwards to
/// `u64::checked_mul`. Trusted: the result is the product exactly when it fits.
#[verifier::external_body]
pub(crate) fn checked_mul(a: u64, b: u64) -> (r: Option<u64>)
    ensures
        r == (if a * b <= u64::MAX { Some((a * b) as u64) } else { None::<u64> }),
{
    num_traits::CheckedMul::checked_mul(&a, &b)
}

/// `a / b` rounded down, or `None` where `b` is zero.
///
/// Calls `num_traits::CheckedDiv::checked_div` for `u64`, which forwards to
/// `u64::checked_div`. Trusted: the result is the quotient exactly when the
/// divisor is not zero.
#[verifier::external_body]
pub(crate) fn checked_div(a: u64, b: u64) -> (r: Option<u64>)
    ensures
        r == (if b != 0 { Some((a / b) as u64) } else { None::<u64> }),
{
    num_traits::CheckedDiv::checked_div(&a, &b)
}

/// `a + b`, or `None` where the sum leaves `i64`.
///
/// Calls `num_traits::CheckedAdd::checked_add` for `i64`, which forwards to
/// `i64::checked_add`. Trusted: the result is the sum exactly when it fits.
#[verifier::external_body]
pub(crate) fn signed_checked_add(a: i64, b: i64) -> (r: Option<i64>)
    ensures
        r == (if i64::MIN <= a + b <= i64::MAX { Some((a + b) as i64) } else { None::<i64> }),
{
    num_traits::CheckedAdd::checked_add(&a, &b)
}

/// `a - b`, or `None` where the difference leaves `i64`.
///
/// Calls `num_traits::CheckedSub::checked_sub` for `i64`, which forwards to
/// `i64::checked_sub`. Trusted: the result is the difference exactly when it
/// fits.
#[verifier::external_body]
pub(crate) fn signed_checked_sub(a: i64, b: i64) -> (r: Option<i64>)
    ensures
        r == (if i64::MIN <= a - b <= i64::MAX { Some((a - b) as i64) } else { None::<i64> }),
{
    num_traits::CheckedSub::checked_sub(&a, &b)
}

/// `-a`, or `None` where `a` is `i64::MIN`.
///
/// Calls `num_traits::CheckedNeg::checked_neg` for `i64`, which forwards to
/// `i64::checked_neg`. Trusted: the result is the negation exactly when it
/// fits.
#[verifier::external_body]
pub(crate) fn signed_checked_neg(a: i64) -> (r: Option<i64>)
    ensures
        r == (if a != i64::MIN { Some((-a) as i64) } else { None::<i64> }),
{
    num_traits::CheckedNeg::checked_neg(&a)
}

/// The magnitude of a signed value.
pub open spec fn magnitude(x: int) -> int {
    if x >= 0 { x } else { -x }
}

/// The quotient of two non-negative values, rounded up.
pub open spec fn div_ceil(a: int, b: int) -> int
    recommends
        a >= 0,
        b > 0,
{
    if a % b == 0 { a / b } else { a / b + 1 }
}

/// A value as `u64`, where it fits.
pub open spec fn fit_unsigned(x: int) -> Option<u64> {
    if 0 <= x <= u64::MAX { Some(x as u64) } else { None }
}

/// A value as `i64`, where it fits.
pub open spec fn fit_signed(x: int) -> Option<i64> {
    if i64::MIN <= x <= i64::MAX { Some(x as i64) } else { None }
}

/// The unsigned value as a signed one; fails with `Convert` above `i64::MAX`.
pub open spec fn to_signed_spec(x: u64) -> Result<i64, Error> {
    if x <= i64::MAX { Ok(x as i64) } else { Err(Error::Convert) }
}

/// The negation of the unsigned value; fails with `Convert` above `i64::MAX`.
pub open spec fn to_opposite_signed_spec(x: u64) -> Result<i64, Error> {
    if x <= i64::MAX { Ok((-(x as int)) as i64) } else { Err(Error::Convert) }
}

/// Converts an unsigned value to the signed type without truncating.
pub fn to_signed(x: u64) -> (r: Result<i64, Error>)
    ensures
        r == to_signed_spec(x),
{
    if x <= 0x7fff_ffff_ffff_ffff {
        Ok(x as i64)
    } else {
        Err(Error::Convert)
    }
}

/// Converts an unsigned value to the signed value of the opposite sign.
pub fn to_opposite_signed(x: u64) -> (r: Result<i64, Error>)
    ensures
        r == to_opposite_signed_spec(x),
{
    if x <= 0x7fff_ffff_ffff_ffff {
        Ok(-(x as i64))
    } else {
        Err(Error::Convert)
    }
}

/// The magnitude of a signed value; every `i64` has one in `u64`.
pub fn unsigned_abs(x: i64) -> (r: u64)
    ensures
        r == magnitude(x as int),
{
    if x >= 0 {
        x as u64
    } else {
        (-(x as i128)) as u64
    }
}

/// The absolute difference of two values.
pub fn diff(a: u64, b: u64) -> (r: u64)
    ensures
        r == magnitude(a - b),
{
    if a >= b { a - b } else { b - a }
}

/// `a + delta`, or `None` where the sum leaves `u64`.
pub fn checked_add_with_signed(a: u64, delta: i64) -> (r: Option<u64>)
    ensures
        r == fit_unsigned(a + delta),
{
    if delta >= 0 {
        checked_add(a, delta as u64)
    } else {
        checked_sub(a, unsigned_abs(delta))
    }
}

/// `a - delta`, or `None` where the difference leaves `u64`.
pub fn checked_sub_with_signed(a: u64, delta: i64) -> (r: Option<u64>)
    ensures
        r == fit_unsigned(a - delta),
{
    if delta >= 0 {
        checked_sub(a, delta as u64)
    } else {
        checked_add(a, unsigned_abs(delta))
    }
}

/// `a - b` as a signed value, or `None` where it leaves `i64`.
pub fn checked_signed_sub(a: u64, b: u64) -> (r: Option<i64>)
    ensures
        r == fit_signed(a - b),
{
    if a >= b {
        let d: u64 = a - b;
        if d <= 0x7fff_ffff_ffff_ffff { Some(d as i64) } else { None }
    } else {
        let d: u64 = b - a;
        if d <= 0x8000_0000_0000_0000 { Some((-(d as i128)) as i64) } else { None }
    }
}

/// `a / b` rounded up, or `None` where `b` is zero.
pub open spec fn round_up_div_spec(a: u64, b: u64) -> Option<u64> {
    if b == 0 { None } else { Some(div_ceil(a as int, b as int) as u64) }
}

/// Division that rounds up: the least `q` with `q * b >= a`.
pub fn checked_round_up_div(a: u64, b: u64) -> (r: Option<u64>)
    ensures
        r == round_up_div_spec(a, b),
        r matches Some(q) ==> q * b >= a && (q > 0 ==> (q - 1) * b < a),
{
    match checked_div(a, b) {
        None => None,
        Some(q) => {
            proof {
                lemma_div_ceil(a as int, b as int);
            }
            if a % b == 0 { Some(q) } else { Some(q + 1) }
        },
    }
}

/// `div_ceil` is the least quotient whose product with the divisor reaches the dividend.
pub proof fn lemma_div_ceil(a: int, b: int)
    requires
        a >= 0,
        b > 0,
    ensures
        0 <= a / b <= div_ceil(a, b) <= a,
        div_ceil(a, b) * b >= a,
        div_ceil(a, b) > 0 ==> (div_ceil(a, b) - 1) * b < a,
        a > 0 ==> div_ceil(a, b) > 0,
{
    vstd::arithmetic::div_mod::lemma_fundamental_div_mod(a, b);
    vstd::arithmetic::div_mod::lemma_div_pos_is_pos(a, b);
    vstd::arithmetic::div_mod::lemma_mod_bound(a, b);
    let q = a / b;
    assert(b * q == q * b) by (nonlinear_arith);
    assert((q + 1) * b == q * b + b) by (nonlinear_arith);
    assert((q - 1) * b == q * b - b) by (nonlinear_arith);
    assert(q <= a) by (nonlinear_arith)
        requires
            q >= 0,
            b >= 1,
            a >= q * b,
    ;
    if a % b != 0 {
        assert(q + 1 <= a) by (nonlinear_arith)
            requires
                q >= 0,
                b >= 1,
                a > q * b,
        ;
    }
}

/// The dividend divided by a positive divisor, its magnitude rounded up and
/// its sign kept; `None` where the divisor is zero.
pub open spec fn round_up_magnitude_div_spec(dividend: i64, divisor: u64) -> Option<i64> {
    if divisor == 0 {
        None
    } else if dividend >= 0 {
        Some(div_ceil(dividend as int, divisor as int) as i64)
    } else {
        Some((-div_ceil(-(dividend as int), divisor as int)) as i64)
    }
}

/// Signed division by an unsigned divisor that rounds away from zero.
pub fn round_up_magnitude_div(dividend: i64, divisor: u64) -> (r: Option<i64>)
    ensures
        r == round_up_magnitude_div_spec(dividend, divisor),
{
    match checked_round_up_div(unsigned_abs(dividend), divisor) {
        None => None,
        Some(q) => {
            proof {
                lemma_div_ceil(magnitude(dividend as int), divisor as int);
            }
            if dividend >= 0 {
                Some(q as i64)
            } else {
                Some((-(q as i128)) as i64)
            }
        },
    }
}

/// `x * numerator / denominator` rounded down, with the product taken
/// without overflow; `None` where the denominator is zero or the result
/// leaves `u64`.
pub open spec fn mul_div_spec(x: u64, numerator: u64, denominator: u64) -> Option<u64> {
    if denominator == 0 {
        None
    } else {
        fit_unsigned((x * numerator) / (denominator as int))
    }
}

/// As `mul_div_spec`, rounded up.
pub open spec fn mul_div_ceil_spec(x: u64, numerator: u64, denominator: u64) -> Option<u64> {
    if denominator == 0 {
        None
    } else {
        fit_unsigned(div_ceil(x * numerator, denominator as int))
    }
}

proof fn lemma_product_fits(x: u64, y: u64)
    ensures
        0 <= x * y <= 0xffff_ffff_ffff_fffe_0000_0000_0000_0001,
        x * y <= u128::MAX,
{
    assert(0 <= x * y <= 0xffff_ffff_ffff_ffff * 0xffff_ffff_ffff_ffff) by (nonlinear_arith)
        requires
            0 <= x <= 0xffff_ffff_ffff_ffff,
            0 <= y <= 0xffff_ffff_ffff_ffff,
    ;
}

/// Multiplies, then divides, rounding down; the product may exceed `u64`.
pub fn checked_mul_div(x: u64, numerator: u64, denominator: u64) -> (r: Option<u64>)
    ensures
        r == mul_div_spec(x, numerator, denominator),
{
    if denominator == 0 {
        return None;
    }
    proof {
        lemma_product_fits(x, numerator);
    }
    let product: u128 = (x as u128) * (numerator as u128);
    let quotient: u128 = product / (denominator as u128);
    if quotient <= 0xffff_ffff_ffff_ffff {
        Some(quotient as u64)
    } else {
        None
    }
}

/// Multiplies, then divides, rounding up; the product may exceed `u64`.
pub fn checked_mul_div_ceil(x: u64, numerator: u64, denominator: u64) -> (r: Option<u64>)
    ensures
        r == mul_div_ceil_spec(x, numerator, denominator),
{
    if denominator == 0 {
        return None;
    }
    proof {
        lemma_product_fits(x, numerator);
        lemma_div_ceil(x * numerator, denominator as int);
    }
    let product: u128 = (x as u128) * (numerator as u128);
    let quotient: u128 = product / (denominator as u128);
    let rounded: u128 = if product % (denominator as u128) == 0 { quotient } else { quotient + 1 };
    if rounded <= 0xffff_ffff_ffff_ffff {
        Some(rounded as u64)
    } else {
        None
    }
}

/// `x * numerator / denominator` for a signed numerator: the magnitude is
/// rounded down and the numerator's sign kept; `None` where the denominator
/// is zero or the result leaves `i64`.
pub open spec fn mul_div_with_signed_numerator_spec(
    x: u64,
    numerator: i64,
    denominator: u64,
) -> Option<i64> {
    if denominator == 0 {
        None
    } else {
        let q = (x * magnitude(numerator as int)) / (denominator as int);
        if q > i64::MAX {
            None
        } else if numerator >= 0 {
            Some(q as i64)
        } else {
            Some((-q) as i64)
        }
    }
}

/// Multiplies by a signed numerator, then divides, rounding toward zero.
pub fn checked_mul_div_with_signed_numerator(
    x: u64,
    numerator: i64,
    denominator: u64,
) -> (r: Option<i64>)
    ensures
        r == mul_div_with_signed_numerator_spec(x, numerator, denominator),
{
    match checked_mul_div(x, unsigned_abs(numerator), denominator) {
        None => {
            proof {
                lemma_product_fits(x, magnitude(numerator as int) as u64);
            }
            None
        },
        Some(q) => {
            proof {
                lemma_product_fits(x, magnitude(numerator as int) as u64);
            }
            if q > 0x7fff_ffff_ffff_ffff {
                None
            } else if numerator >= 0 {
                Some(q as i64)
            } else {
                Some(-(q as i64))
            }
        },
    }
}

/// The signed value with its magnitude brought into `[min, max]` and its sign
/// kept (zero counts as positive); fails with `InvalidArgument` where
/// `min > max`, and with `Convert` where the bounded magnitude is above
/// `i64::MAX`.
pub open spec fn bound_magnitude_spec(value: i64, min: u64, max: u64) -> Result<i64, Error> {
    if min > max {
        Err(Error::InvalidArgument(Invalid::Bounds))
    } else {
        let m = magnitude(value as int);
        let bounded: u64 = if m < min { min } else if m > max { max } else { m as u64 };
        if value < 0 { to_opposite_signed_spec(bounded) } else { to_signed_spec(bounded) }
    }
}

/// Clamps the magnitude of a signed value, keeping its sign.
pub fn bound_magnitude(value: i64, min: u64, max: u64) -> (r: Result<i64, Error>)
    ensures
        r == bound_magnitude_spec(value, min, max),
        r matches Ok(v) ==> min <= magnitude(v as int) <= max,
{
    if min > max {
        return Err(Error::InvalidArgument(Invalid::Bounds));
    }
    let m = unsigned_abs(value);
    let bounded = if m < min { min } else if m > max { max } else { m };
    if value < 0 {
        to_opposite_signed(bounded)
    } else {
        to_signed(bounded)
    }
}

} // verus!
