use gmsol::error::{Error, Invalid};
use gmsol::fixed::{
    apply_exponent_factor, apply_factor, apply_factors, div_to_factor, unit_for_decimals,
};
use gmsol::num::{
    bound_magnitude, checked_add_with_signed, checked_mul_div, checked_mul_div_ceil,
    checked_mul_div_with_signed_numerator, checked_round_up_div, checked_signed_sub,
    checked_sub_with_signed, diff, round_up_magnitude_div, to_opposite_signed, to_signed,
    unsigned_abs,
};

const UNIT: u64 = 1_000_000_000;

#[test]
fn signed_and_unsigned_values_convert_without_truncation() {
    assert_eq!(to_signed(0), Ok(0));
    assert_eq!(to_signed(i64::MAX as u64), Ok(i64::MAX));
    assert_eq!(to_signed(i64::MAX as u64 + 1), Err(Error::Convert));
    assert_eq!(to_opposite_signed(5), Ok(-5));
    assert_eq!(to_opposite_signed(i64::MAX as u64), Ok(-i64::MAX));
    assert_eq!(to_opposite_signed(i64::MAX as u64 + 1), Err(Error::Convert));
    assert_eq!(unsigned_abs(-5), 5);
    assert_eq!(unsigned_abs(5), 5);
    assert_eq!(unsigned_abs(i64::MIN), 1 << 63);
    assert_eq!(diff(3, 10), 7);
    assert_eq!(diff(10, 3), 7);
}

#[test]
fn checked_arithmetic_detects_overflow() {
    assert_eq!(checked_add_with_signed(5, 3), Some(8));
    assert_eq!(checked_add_with_signed(5, -3), Some(2));
    assert_eq!(checked_add_with_signed(5, -6), None);
    assert_eq!(checked_add_with_signed(u64::MAX, 1), None);
    assert_eq!(checked_add_with_signed(1 << 63, i64::MIN), Some(0));
    assert_eq!(checked_sub_with_signed(5, 3), Some(2));
    assert_eq!(checked_sub_with_signed(5, -3), Some(8));
    assert_eq!(checked_sub_with_signed(5, 6), None);
    assert_eq!(checked_sub_with_signed(u64::MAX, -1), None);
    assert_eq!(checked_signed_sub(5, 8), Some(-3));
    assert_eq!(checked_signed_sub(8, 5), Some(3));
    assert_eq!(checked_signed_sub(u64::MAX, 0), None);
    assert_eq!(checked_signed_sub(0, 1 << 63), Some(i64::MIN));
    assert_eq!(checked_signed_sub(0, (1 << 63) + 1), None);
}

#[test]
fn division_rounds_as_asked() {
    assert_eq!(checked_round_up_div(7, 2), Some(4));
    assert_eq!(checked_round_up_div(8, 2), Some(4));
    assert_eq!(checked_round_up_div(0, 2), Some(0));
    assert_eq!(checked_round_up_div(7, 0), None);
    assert_eq!(checked_round_up_div(u64::MAX, 1), Some(u64::MAX));
    assert_eq!(checked_round_up_div(u64::MAX, u64::MAX), Some(1));
    assert_eq!(round_up_magnitude_div(-128, 123), Some(-2));
    assert_eq!(round_up_magnitude_div(128, 123), Some(2));
    assert_eq!(round_up_magnitude_div(-123, 123), Some(-1));
    assert_eq!(round_up_magnitude_div(0, 123), Some(0));
    assert_eq!(round_up_magnitude_div(i64::MIN, 1), Some(i64::MIN));
    assert_eq!(round_up_magnitude_div(5, 0), None);
}

#[test]
fn mul_div_takes_the_product_without_overflow() {
    assert_eq!(checked_mul_div(u64::MAX, u64::MAX, u64::MAX), Some(u64::MAX));
    assert_eq!(checked_mul_div(u64::MAX, 2, 1), None);
    assert_eq!(checked_mul_div(7, 3, 2), Some(10));
    assert_eq!(checked_mul_div_ceil(7, 3, 2), Some(11));
    assert_eq!(checked_mul_div_ceil(8, 3, 2), Some(12));
    assert_eq!(checked_mul_div(7, 3, 0), None);
    assert_eq!(checked_mul_div_ceil(7, 3, 0), None);
    assert_eq!(checked_mul_div_ceil(u64::MAX, u64::MAX, u64::MAX - 1), None);
    assert_eq!(checked_mul_div_with_signed_numerator(7, -3, 2), Some(-10));
    assert_eq!(checked_mul_div_with_signed_numerator(7, 3, 2), Some(10));
    assert_eq!(checked_mul_div_with_signed_numerator(u64::MAX, 1, 1), None);
    assert_eq!(checked_mul_div_with_signed_numerator(1, i64::MIN, 1), None);
    assert_eq!(checked_mul_div_with_signed_numerator(7, 3, 0), None);
}

#[test]
fn magnitudes_are_bounded_with_their_sign() {
    assert_eq!(bound_magnitude(-7, 0, 5), Ok(-5));
    assert_eq!(bound_magnitude(7, 0, 5), Ok(5));
    assert_eq!(bound_magnitude(-1, 2, 5), Ok(-2));
    assert_eq!(bound_magnitude(0, 2, 5), Ok(2));
    assert_eq!(bound_magnitude(3, 2, 5), Ok(3));
    assert_eq!(bound_magnitude(3, 6, 5), Err(Error::InvalidArgument(Invalid::Bounds)));
    assert_eq!(bound_magnitude(i64::MIN, 0, u64::MAX), Err(Error::Convert));
}

#[test]
fn factors_are_fixed_point_values() {
    assert_eq!(unit_for_decimals(0), Some(1));
    assert_eq!(unit_for_decimals(2), Some(100));
    assert_eq!(unit_for_decimals(9), Some(UNIT));
    assert_eq!(unit_for_decimals(19), Some(10_000_000_000_000_000_000));
    assert_eq!(unit_for_decimals(20), None);
    assert_eq!(unit_for_decimals(255), None);
    assert_eq!(apply_factor(8_000_000_000, 700_000, UNIT), Some(5_600_000));
    assert_eq!(apply_factor(3, UNIT / 2, UNIT), Some(1));
    assert_eq!(apply_factor(3, UNIT, 0), None);
    assert_eq!(apply_factor(u64::MAX, 2 * UNIT, UNIT), None);
    assert_eq!(div_to_factor(1, 3, UNIT, false), Some(333_333_333));
    assert_eq!(div_to_factor(1, 3, UNIT, true), Some(333_333_334));
    assert_eq!(div_to_factor(1, 0, UNIT, false), None);
}

#[test]
fn whole_exponents_are_applied() {
    assert_eq!(apply_exponent_factor(5 * UNIT, 0, UNIT), Some(UNIT));
    assert_eq!(apply_exponent_factor(5 * UNIT, UNIT, UNIT), Some(5 * UNIT));
    assert_eq!(apply_exponent_factor(8 * UNIT, 2 * UNIT, UNIT), Some(64 * UNIT));
    assert_eq!(apply_exponent_factor(UNIT / 2, 3 * UNIT, UNIT), Some(UNIT / 8));
    assert_eq!(apply_exponent_factor(3, 2 * UNIT, UNIT), Some(0));
    assert_eq!(apply_exponent_factor(0, 5 * UNIT, UNIT), Some(0));
    assert_eq!(apply_exponent_factor(UNIT, 18_000_000_000 * UNIT, UNIT), Some(UNIT));
    assert_eq!(apply_exponent_factor(1, 18_000_000_000 * UNIT, UNIT), Some(0));
    assert_eq!(apply_exponent_factor(5_000_000 * UNIT, 3 * UNIT, UNIT), None);
    assert_eq!(apply_exponent_factor(5 * UNIT, UNIT + 1, UNIT), None);
    assert_eq!(apply_exponent_factor(5 * UNIT, UNIT, 0), None);
    assert_eq!(apply_factors(8 * UNIT, 2, 2 * UNIT, UNIT), Some(128));
}
