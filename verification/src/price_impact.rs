//! The price impact of a change of the open-interest balance.

use vstd::prelude::*;
use crate::error::{Calc, Error, compute};
use crate::fixed::{apply_factor, apply_factor_spec, apply_factors, apply_factors_spec};
use crate::market::Market;
use crate::num::{checked_add_with_signed, checked_mul, diff, fit_unsigned, magnitude,
    to_opposite_signed, to_opposite_signed_spec, to_signed, to_signed_spec, unsigned_abs};
use crate::params::PriceImpactParams;
use crate::price::Price;

verus! {

/// Whether a change brought the two sides of a balance closer together.
#[derive(Clone, Copy, Debug, PartialEq, Eq, Structural)]
pub enum BalanceChange {
    /// The sides are closer than before.
    Improved,
    /// The sides are further apart than before.
    Worsened,
    /// The distance of the sides is as before.
    Unchanged,
}

/// The price impact of a change: its USD value, positive where the change is
/// rewarded, and what the change did to the balance.
#[derive(Clone, Copy, Debug, PartialEq, Eq, Structural)]
pub struct PriceImpact {
    pub value: i64,
    pub balance_change: BalanceChange,
}

impl PriceImpact {
    /// No impact.
    pub open spec fn none() -> PriceImpact {
        PriceImpact { value: 0, balance_change: BalanceChange::Unchanged }
    }
}

impl Default for PriceImpact {
    fn default() -> (r: Self)
        ensures
            r == PriceImpact::none(),
    {
        PriceImpact { value: 0, balance_change: BalanceChange::Unchanged }
    }
}

/// What a change did to the distance of the two sides.
pub open spec fn balance_change_spec(initial_diff: u64, next_diff: u64) -> BalanceChange {
    if next_diff < initial_diff {
        BalanceChange::Improved
    } else if next_diff > initial_diff {
        BalanceChange::Worsened
    } else {
        BalanceChange::Unchanged
    }
}

/// The signed value of an impact from its rewarded and its charged part.
pub open spec fn signed_impact_spec(
    rewarded: u64,
    charged: u64,
    positive: bool,
) -> Result<i64, Error> {
    let delta = magnitude(rewarded - charged) as u64;
    if positive {
        to_signed_spec(delta)
    } else {
        to_opposite_signed_spec(delta)
    }
}

/// The price impact of moving the open interest of the two sides from
/// `(long, short)` to `(next_long, next_short)`.
///
/// Where the larger side stays the larger one, the impact is the difference
/// of the cost of the two distances under one factor: the positive factor
/// where the distance shrinks, the negative one otherwise. Where the change
/// crosses over, the shrinking to balance is rewarded under the positive
/// factor and the growth beyond it charged under the negative one. The cost
/// of a distance is the distance raised to the exponent, times the factor.
pub open spec fn price_impact_spec(
    long: u64,
    short: u64,
    next_long: u64,
    next_short: u64,
    params: PriceImpactParams,
    unit: u64,
) -> Result<PriceImpact, Error> {
    let initial_diff = magnitude(long - short) as u64;
    let next_diff = magnitude(next_long - next_short) as u64;
    let balance_change = balance_change_spec(initial_diff, next_diff);
    let same_side = (long <= short) == (next_long <= next_short);
    let shrinks = next_diff < initial_diff;
    let initial_factor = if same_side && !shrinks {
        params.negative_factor
    } else {
        params.adjusted_positive_factor()
    };
    let next_factor = if same_side && shrinks {
        params.adjusted_positive_factor()
    } else {
        params.negative_factor
    };
    match apply_factors_spec(initial_diff, initial_factor, params.exponent, unit) {
        None => Err(Error::Computation(Calc::PriceImpact)),
        Some(rewarded) => match apply_factors_spec(next_diff, next_factor, params.exponent, unit) {
            None => Err(Error::Computation(Calc::PriceImpact)),
            Some(charged) => {
                let positive = if same_side { shrinks } else { rewarded > charged };
                match signed_impact_spec(rewarded, charged, positive) {
                    Err(e) => Err(e),
                    Ok(value) => Ok(PriceImpact { value, balance_change }),
                }
            },
        },
    }
}

/// Computes the price impact of moving the open interest of the two sides.
pub fn price_impact(
    long: u64,
    short: u64,
    next_long: u64,
    next_short: u64,
    params: &PriceImpactParams,
    unit: u64,
) -> (r: Result<PriceImpact, Error>)
    ensures
        r == price_impact_spec(long, short, next_long, next_short, *params, unit),
{
    let initial_diff = diff(long, short);
    let next_diff = diff(next_long, next_short);
    let balance_change = if next_diff < initial_diff {
        BalanceChange::Improved
    } else if next_diff > initial_diff {
        BalanceChange::Worsened
    } else {
        BalanceChange::Unchanged
    };
    let same_side = (long <= short) == (next_long <= next_short);
    let shrinks = next_diff < initial_diff;
    let (positive_factor, negative_factor) = params.adjusted_factors();
    let initial_factor = if same_side && !shrinks { negative_factor } else { positive_factor };
    let next_factor = if same_side && shrinks { positive_factor } else { negative_factor };
    let rewarded = compute(
        apply_factors(initial_diff, initial_factor, params.exponent, unit),
        Calc::PriceImpact,
    )?;
    let charged = compute(
        apply_factors(next_diff, next_factor, params.exponent, unit),
        Calc::PriceImpact,
    )?;
    let positive = if same_side { shrinks } else { rewarded > charged };
    let delta = diff(rewarded, charged);
    let value = if positive { to_signed(delta)? } else { to_opposite_signed(delta)? };
    Ok(PriceImpact { value, balance_change })
}

/// The price impact of a signed change of the size of one side.
pub open spec fn position_price_impact_spec(
    market: Market,
    is_long: bool,
    size_delta_usd: i64,
) -> Result<PriceImpact, Error> {
    match market.open_interest_spec(true) {
        Err(e) => Err(e),
        Ok(long) => match market.open_interest_spec(false) {
            Err(e) => Err(e),
            Ok(short) => {
                let delta_long = if is_long { size_delta_usd as int } else { 0 };
                let delta_short = if is_long { 0 } else { size_delta_usd as int };
                let next_long = fit_unsigned(long + delta_long);
                let next_short = fit_unsigned(short + delta_short);
                if next_long is None || next_short is None {
                    Err(Error::Computation(Calc::PriceImpact))
                } else {
                    price_impact_spec(
                        long,
                        short,
                        next_long->0,
                        next_short->0,
                        market.params.position_impact,
                        market.params.unit,
                    )
                }
            },
        },
    }
}

/// Computes the price impact of a signed change of the size of one side.
pub fn position_price_impact(
    market: &Market,
    is_long: bool,
    size_delta_usd: i64,
) -> (r: Result<PriceImpact, Error>)
    ensures
        r == position_price_impact_spec(*market, is_long, size_delta_usd),
{
    let long = market.open_interest(true)?;
    let short = market.open_interest(false)?;
    let next_long = compute(
        checked_add_with_signed(long, if is_long { size_delta_usd } else { 0 }),
        Calc::PriceImpact,
    );
    let next_short = compute(
        checked_add_with_signed(short, if is_long { 0 } else { size_delta_usd }),
        Calc::PriceImpact,
    );
    let next_long = next_long?;
    let next_short = next_short?;
    price_impact(
        long,
        short,
        next_long,
        next_short,
        &market.params.position_impact,
        market.params.unit,
    )
}

/// A positive impact capped by what the impact pool holds at the bid of the
/// index token, and by the maximum factor of the size; other impacts as
/// they are.
pub open spec fn cap_positive_impact_spec(
    market: Market,
    index_token_price: Price,
    size_delta_usd: i64,
    value: i64,
) -> Result<i64, Error> {
    if value <= 0 {
        Ok(value)
    } else {
        match fit_unsigned(market.position_impact_pool_amount_spec() * index_token_price.min) {
            None => Err(Error::Computation(Calc::PriceImpactCap)),
            Some(pool_value) => match to_signed_spec(pool_value) {
                Err(e) => Err(e),
                Ok(by_pool) => match apply_factor_spec(
                    magnitude(size_delta_usd as int) as u64,
                    market.params.position.max_positive_position_impact_factor,
                    market.params.unit,
                ) {
                    None => Err(Error::Computation(Calc::PriceImpactCap)),
                    Some(max_value) => match to_signed_spec(max_value) {
                        Err(e) => Err(e),
                        Ok(by_factor) => {
                            let capped = if value > by_pool { by_pool } else { value };
                            Ok(if capped > by_factor { by_factor } else { capped })
                        },
                    },
                },
            },
        }
    }
}

/// Caps a positive price impact.
pub fn cap_positive_impact(
    market: &Market,
    index_token_price: &Price,
    size_delta_usd: i64,
    value: i64,
) -> (r: Result<i64, Error>)
    ensures
        r == cap_positive_impact_spec(*market, *index_token_price, size_delta_usd, value),
        r matches Ok(v) ==> (value <= 0 ==> v == value) && (value > 0 ==> 0 <= v <= value),
{
    if value <= 0 {
        return Ok(value);
    }
    let pool_value = compute(
        checked_mul(market.position_impact_pool_amount(), index_token_price.pick_price(false)),
        Calc::PriceImpactCap,
    )?;
    let by_pool = to_signed(pool_value)?;
    let max_value = compute(
        apply_factor(
            unsigned_abs(size_delta_usd),
            market.params.position.max_positive_position_impact_factor,
            market.params.unit,
        ),
        Calc::PriceImpactCap,
    )?;
    let by_factor = to_signed(max_value)?;
    let capped = if value > by_pool { by_pool } else { value };
    Ok(if capped > by_factor { by_factor } else { capped })
}

/// The price impact of a signed change of the size of one side, its positive
/// part capped.
pub open spec fn capped_positive_position_price_impact_spec(
    market: Market,
    is_long: bool,
    index_token_price: Price,
    size_delta_usd: i64,
) -> Result<PriceImpact, Error> {
    match position_price_impact_spec(market, is_long, size_delta_usd) {
        Err(e) => Err(e),
        Ok(impact) => match cap_positive_impact_spec(
            market,
            index_token_price,
            size_delta_usd,
            impact.value,
        ) {
            Err(e) => Err(e),
            Ok(value) => Ok(PriceImpact { value, balance_change: impact.balance_change }),
        },
    }
}

/// Computes the price impact of a change of the size of one side and caps
/// its positive part.
pub fn capped_positive_position_price_impact(
    market: &Market,
    is_long: bool,
    index_token_price: &Price,
    size_delta_usd: i64,
) -> (r: Result<PriceImpact, Error>)
    ensures
        r == capped_positive_position_price_impact_spec(
            *market,
            is_long,
            *index_token_price,
            size_delta_usd,
        ),
{
    let impact = position_price_impact(market, is_long, size_delta_usd)?;
    let value = cap_positive_impact(market, index_token_price, size_delta_usd, impact.value)?;
    Ok(PriceImpact { value, balance_change: impact.balance_change })
}

/// A negative impact capped by the maximum factor of the size; other impacts
/// as they are.
pub open spec fn cap_negative_impact_spec(
    market: Market,
    size_delta_usd: i64,
    value: i64,
) -> Result<i64, Error> {
    if value >= 0 {
        Ok(value)
    } else {
        match apply_factor_spec(
            magnitude(size_delta_usd as int) as u64,
            market.params.position.max_negative_position_impact_factor,
            market.params.unit,
        ) {
            None => Err(Error::Computation(Calc::PriceImpactCap)),
            Some(max_value) => match to_opposite_signed_spec(max_value) {
                Err(e) => Err(e),
                Ok(least) => Ok(if value < least { least } else { value }),
            },
        }
    }
}

/// Caps a negative price impact.
pub fn cap_negative_impact(
    market: &Market,
    size_delta_usd: i64,
    value: i64,
) -> (r: Result<i64, Error>)
    ensures
        r == cap_negative_impact_spec(*market, size_delta_usd, value),
        r matches Ok(v) ==> (value >= 0 ==> v == value) && (value < 0 ==> value <= v <= 0),
{
    if value >= 0 {
        return Ok(value);
    }
    let max_value = compute(
        apply_factor(
            unsigned_abs(size_delta_usd),
            market.params.position.max_negative_position_impact_factor,
            market.params.unit,
        ),
        Calc::PriceImpactCap,
    )?;
    let least = to_opposite_signed(max_value)?;
    Ok(if value < least { least } else { value })
}

} // verus!
