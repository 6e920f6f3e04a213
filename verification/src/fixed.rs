//! Fixed-point factors: values scaled by a unit of ten to the number of
//! fractional digits.

use vstd::prelude::*;
use crate::num::{checked_mul, checked_mul_div, checked_mul_div_ceil, mul_div_ceil_spec,
    mul_div_spec};

verus! {

/// Ten to the power `decimals`, as an integer.
pub open spec fn pow10(decimals: nat) -> nat
    decreases decimals,
{
    if decimals == 0 { 1 } else { 10 * pow10((decimals - 1) as nat) }
}

/// The fixed-point unit for a number of fractional digits, where it fits `u64`.
pub open spec fn unit_spec(decimals: u8) -> Option<u64> {
    if pow10(decimals as nat) <= u64::MAX { Some(pow10(decimals as nat) as u64) } else { None }
}

/// Powers of ten grow with the exponent.
pub proof fn lemma_pow10_monotonic(a: nat, b: nat)
    requires
        a <= b,
    ensures
        1 <= pow10(a) <= pow10(b),
    decreases b,
{
    if b == 0 {
    } else if a == b {
        lemma_pow10_monotonic(0, (b - 1) as nat);
    } else {
        lemma_pow10_monotonic(a, (b - 1) as nat);
    }
}

/// The unit `10^decimals`; `None` where it does not fit `u64` (20 digits or more).
pub fn unit_for_decimals(decimals: u8) -> (r: Option<u64>)
    ensures
        r == unit_spec(decimals),
{
    let mut unit: u64 = 1;
    let mut i: u8 = 0;
    while i < decimals
        invariant
            i <= decimals,
            unit == pow10(i as nat),
        decreases decimals - i,
    {
        match checked_mul(unit, 10) {
            Some(next) => {
                unit = next;
            },
            None => {
                proof {
                    lemma_pow10_monotonic((i + 1) as nat, decimals as nat);
                }
                return None;
            },
        }
        i = i + 1;
    }
    Some(unit)
}

/// `value * factor / unit`, rounded down.
pub open spec fn apply_factor_spec(value: u64, factor: u64, unit: u64) -> Option<u64> {
    mul_div_spec(value, factor, unit)
}

/// Applies a fixed-point factor to a value, rounding down; `None` where the
/// unit is zero or the result leaves `u64`.
pub fn apply_factor(value: u64, factor: u64, unit: u64) -> (r: Option<u64>)
    ensures
        r == apply_factor_spec(value, factor, unit),
{
    checked_mul_div(value, factor, unit)
}

/// `a * unit / b`: the ratio of two values as a fixed-point factor.
pub open spec fn div_to_factor_spec(
    a: u64,
    b: u64,
    unit: u64,
    round_up_magnitude: bool,
) -> Option<u64> {
    if round_up_magnitude { mul_div_ceil_spec(a, unit, b) } else { mul_div_spec(a, unit, b) }
}

/// Divides two values into a fixed-point factor; `None` where `b` is zero or
/// the factor leaves `u64`.
pub fn div_to_factor(a: u64, b: u64, unit: u64, round_up_magnitude: bool) -> (r: Option<u64>)
    ensures
        r == div_to_factor_spec(a, b, unit, round_up_magnitude),
{
    if round_up_magnitude {
        checked_mul_div_ceil(a, unit, b)
    } else {
        checked_mul_div(a, unit, b)
    }
}

/// The fixed-point value raised to a whole power: `unit` for the power zero,
/// and the previous power times the value over the unit, rounded down, for
/// each further one. `None` from the first power that leaves `u64`.
pub open spec fn pow_spec(value: u64, power: nat, unit: u64) -> Option<u64>
    decreases power,
{
    if power == 0 {
        Some(unit)
    } else {
        match pow_spec(value, (power - 1) as nat, unit) {
            Some(previous) => mul_div_spec(previous, value, unit),
            None => None,
        }
    }
}

/// The value raised to a fixed-point exponent. Whole exponents are
/// supported: `None` where the unit is zero, the exponent has a fractional
/// part, or a power leaves `u64`.
pub open spec fn apply_exponent_factor_spec(value: u64, exponent: u64, unit: u64) -> Option<u64> {
    if unit == 0 || exponent % unit != 0 {
        None
    } else {
        pow_spec(value, (exponent / unit) as nat, unit)
    }
}

/// Once a power is zero, all further powers are zero.
pub proof fn lemma_pow_zero_stays(value: u64, unit: u64, reached: nat, power: nat)
    requires
        unit != 0,
        reached <= power,
        pow_spec(value, reached, unit) == Some(0u64),
    ensures
        pow_spec(value, power, unit) == Some(0u64),
    decreases power,
{
    if power > reached {
        lemma_pow_zero_stays(value, unit, reached, (power - 1) as nat);
        assert(0 * value == 0) by (nonlinear_arith);
    }
}

/// Every power of the unit is the unit.
pub proof fn lemma_pow_of_unit(unit: u64, power: nat)
    requires
        unit != 0,
    ensures
        pow_spec(unit, power, unit) == Some(unit),
    decreases power,
{
    if power > 0 {
        lemma_pow_of_unit(unit, (power - 1) as nat);
        vstd::arithmetic::div_mod::lemma_div_multiples_vanish(unit as int, unit as int);
        assert(unit * unit == (unit as int) * (unit as int));
    }
}

/// The exponent one keeps the value.
pub proof fn law_unit_exponent_keeps_the_value(value: u64, unit: u64)
    requires
        unit != 0,
    ensures
        apply_exponent_factor_spec(value, unit, unit) == Some(value),
{
    reveal_with_fuel(pow_spec, 2);
    vstd::arithmetic::div_mod::lemma_div_multiples_vanish(value as int, unit as int);
    assert(unit * value == (value as int) * (unit as int)) by (nonlinear_arith);
}

/// Raises a fixed-point value to a whole fixed-point exponent.
pub fn apply_exponent_factor(value: u64, exponent: u64, unit: u64) -> (r: Option<u64>)
    ensures
        r == apply_exponent_factor_spec(value, exponent, unit),
{
    if unit == 0 || exponent % unit != 0 {
        return None;
    }
    let power: u64 = exponent / unit;
    if value == unit {
        proof {
            lemma_pow_of_unit(unit, power as nat);
        }
        return Some(unit);
    }
    let mut result: u64 = unit;
    let mut i: u64 = 0;
    while i < power
        invariant
            unit != 0,
            exponent % unit == 0,
            power == exponent / unit,
            i <= power,
            pow_spec(value, i as nat, unit) == Some(result),
        decreases power - i,
    {
        if result == 0 {
            proof {
                lemma_pow_zero_stays(value, unit, i as nat, power as nat);
            }
            return Some(0);
        }
        match checked_mul_div(result, value, unit) {
            Some(next) => {
                result = next;
            },
            None => {
                proof {
                    lemma_pow_overflow_stays(value, unit, (i + 1) as nat, power as nat);
                }
                return None;
            },
        }
        i = i + 1;
    }
    Some(result)
}

/// Once a power leaves `u64`, all further powers do.
pub proof fn lemma_pow_overflow_stays(value: u64, unit: u64, reached: nat, power: nat)
    requires
        reached <= power,
        pow_spec(value, reached, unit) is None,
    ensures
        pow_spec(value, power, unit) is None,
    decreases power,
{
    if power > reached {
        lemma_pow_overflow_stays(value, unit, reached, (power - 1) as nat);
    }
}

/// The value raised to the exponent, then scaled by the factor.
pub open spec fn apply_factors_spec(
    value: u64,
    factor: u64,
    exponent: u64,
    unit: u64,
) -> Option<u64> {
    match apply_exponent_factor_spec(value, exponent, unit) {
        Some(raised) => apply_factor_spec(raised, factor, unit),
        None => None,
    }
}

/// Applies an exponent and then a factor to a value.
pub fn apply_factors(value: u64, factor: u64, exponent: u64, unit: u64) -> (r: Option<u64>)
    ensures
        r == apply_factors_spec(value, factor, exponent, unit),
{
    match apply_exponent_factor(value, exponent, unit) {
        Some(raised) => apply_factor(raised, factor, unit),
        None => None,
    }
}

} // verus!
