//! The borrowing-fee engine.

use vstd::prelude::*;
use crate::error::{Calc, Error, Invalid, Step, compute, computed};
use crate::fixed::{apply_exponent_factor, apply_exponent_factor_spec, apply_factor,
    apply_factor_spec, div_to_factor, div_to_factor_spec};
use crate::market::{Market, PoolKind};
use crate::num::{checked_add, checked_mul, fit_unsigned, to_signed, to_signed_spec};
use crate::price::Prices;

verus! {

/// Update Borrowing State Action.
#[must_use]
pub struct UpdateBorrowingState<'a> {
    pub market: &'a mut Market,
    pub prices: Prices,
}

/// Update Borrowing Report.
#[derive(Clone, Copy, Debug, PartialEq, Eq, Structural)]
pub struct UpdateBorrowingReport {
    pub duration_in_seconds: u64,
    pub next_cumulative_borrowing_factor_for_long: u64,
    pub next_cumulative_borrowing_factor_for_short: u64,
}

impl UpdateBorrowingReport {
    /// Get considered duration in seconds.
    pub fn duration_in_seconds(&self) -> (r: u64)
        ensures
            r == self.duration_in_seconds,
    {
        self.duration_in_seconds
    }

    /// Get next cumulative borrowing factor.
    pub fn next_cumulative_borrowing_factor(&self, is_long: bool) -> (r: &u64)
        ensures
            *r == (if is_long {
                self.next_cumulative_borrowing_factor_for_long
            } else {
                self.next_cumulative_borrowing_factor_for_short
            }),
    {
        if is_long {
            &self.next_cumulative_borrowing_factor_for_long
        } else {
            &self.next_cumulative_borrowing_factor_for_short
        }
    }
}

/// Whether a side borrows for free: it is the side with the smaller open
/// interest, and the market lets that side off.
pub open spec fn is_smaller_side_let_off(
    market: Market,
    is_long: bool,
    long: u64,
    short: u64,
) -> bool {
    market.params.borrowing_fee.skip_borrowing_fee_for_smaller_side && if is_long {
        long < short
    } else {
        short < long
    }
}

/// The borrowing factor per second of a side: the usage of its pool times
/// the borrowing factor of the side.
///
/// The usage is the value that the side reserves, raised to the exponent of
/// the side, over the value of its pool. A side that reserves nothing, and
/// the smaller side where it is let off, borrows for free. A side that
/// reserves from a pool without value has no factor.
pub open spec fn borrowing_factor_per_second_spec(
    market: Market,
    prices: Prices,
    is_long: bool,
) -> Result<u64, Error> {
    let params = market.params.borrowing_fee;
    match market.reserved_value_spec(prices.index_token_price, is_long) {
        Err(e) => Err(e),
        Ok(reserved_value) => if reserved_value == 0 {
            Ok(0)
        } else {
            match market.open_interest_spec(true) {
                Err(e) => Err(e),
                Ok(long) => match market.open_interest_spec(false) {
                    Err(e) => Err(e),
                    Ok(short) => if is_smaller_side_let_off(market, is_long, long, short) {
                        Ok(0)
                    } else {
                        match market.pool_value_spec(prices, is_long, false) {
                            Err(e) => Err(e),
                            Ok(pool_value) => if pool_value == 0 {
                                Err(Error::UnableToGetBorrowingFactorEmptyPoolValue)
                            } else {
                                usage_factor_spec(market, is_long, reserved_value, pool_value)
                            },
                        }
                    },
                },
            }
        },
    }
}

/// The usage of a pool times the borrowing factor of the side.
pub open spec fn usage_factor_spec(
    market: Market,
    is_long: bool,
    reserved_value: u64,
    pool_value: u64,
) -> Result<u64, Error> {
    let params = market.params.borrowing_fee;
    let unit = market.params.unit;
    match apply_exponent_factor_spec(reserved_value, params.exponent_spec(is_long), unit) {
        None => Err(Error::Computation(Calc::BorrowingFactor)),
        Some(raised) => match div_to_factor_spec(raised, pool_value, unit, false) {
            None => Err(Error::Computation(Calc::BorrowingFactor)),
            Some(usage) => computed(
                apply_factor_spec(usage, params.factor_spec(is_long), unit),
                Calc::BorrowingFactor,
            ),
        },
    }
}

/// The cumulative borrowing factor of a side after a period, and what the
/// period added to it: the seconds times the borrowing factor per second.
pub open spec fn next_cumulative_borrowing_factor_spec(
    market: Market,
    prices: Prices,
    is_long: bool,
    duration_in_seconds: u64,
) -> Result<(u64, u64), Error> {
    match borrowing_factor_per_second_spec(market, prices, is_long) {
        Err(e) => Err(e),
        Ok(per_second) => match fit_unsigned(duration_in_seconds * per_second) {
            None => Err(Error::Computation(Calc::CumulativeBorrowingFactor)),
            Some(delta) => match market.cumulative_borrowing_factor_spec(is_long) {
                Err(e) => Err(e),
                Ok(current) => match fit_unsigned(current + delta) {
                    None => Err(Error::Computation(Calc::CumulativeBorrowingFactor)),
                    Some(next) => Ok((next, delta)),
                },
            },
        },
    }
}

/// The market after the cumulative borrowing factor of one side is brought
/// forward by a period, and the factor that it then has.
pub open spec fn update_one_side_spec(
    market: Market,
    prices: Prices,
    is_long: bool,
    duration_in_seconds: u64,
) -> Step<Market, u64> {
    match next_cumulative_borrowing_factor_spec(market, prices, is_long, duration_in_seconds) {
        Err(e) => Step { state: market, result: Err(e) },
        Ok((next, delta)) => match to_signed_spec(delta) {
            Err(e) => Step { state: market, result: Err(e) },
            Ok(delta) => {
                let applied = market.apply_delta_spec(PoolKind::BorrowingFactor, is_long, delta);
                match applied.result {
                    Err(e) => Step { state: applied.state, result: Err(e) },
                    Ok(()) => Step { state: applied.state, result: Ok(next) },
                }
            },
        },
    }
}

/// What a borrowing update does to a market, and what it returns: the time
/// of the last update becomes now, and the cumulative borrowing factors of
/// the long side and then of the short side are brought forward by the
/// seconds since then.
pub open spec fn update_borrowing_spec(
    market: Market,
    prices: Prices,
) -> Step<Market, UpdateBorrowingReport> {
    let duration_in_seconds = market.passed_for_borrowing_spec();
    let clocked = Market { borrowing_updated_at: market.now, ..market };
    let long = update_one_side_spec(clocked, prices, true, duration_in_seconds);
    match long.result {
        Err(e) => Step { state: long.state, result: Err(e) },
        Ok(for_long) => {
            let short = update_one_side_spec(long.state, prices, false, duration_in_seconds);
            match short.result {
                Err(e) => Step { state: short.state, result: Err(e) },
                Ok(for_short) => Step {
                    state: short.state,
                    result: Ok(
                        UpdateBorrowingReport {
                            duration_in_seconds,
                            next_cumulative_borrowing_factor_for_long: for_long,
                            next_cumulative_borrowing_factor_for_short: for_short,
                        },
                    ),
                },
            }
        },
    }
}

/// Computes the usage of a pool times the borrowing factor of the side.
pub fn usage_factor(
    market: &Market,
    is_long: bool,
    reserved_value: u64,
    pool_value: u64,
) -> (r: Result<u64, Error>)
    ensures
        r == usage_factor_spec(*market, is_long, reserved_value, pool_value),
{
    let params = &market.params.borrowing_fee;
    let unit = market.params.unit;
    let reserved_value_after_exponent = compute(
        apply_exponent_factor(reserved_value, params.exponent(is_long), unit),
        Calc::BorrowingFactor,
    )?;
    let reserved_value_to_pool_factor = compute(
        div_to_factor(reserved_value_after_exponent, pool_value, unit, false),
        Calc::BorrowingFactor,
    )?;
    compute(
        apply_factor(reserved_value_to_pool_factor, params.factor(is_long), unit),
        Calc::BorrowingFactor,
    )
}

/// Computes the borrowing factor per second of a side.
pub fn borrowing_factor_per_second(
    market: &Market,
    prices: &Prices,
    is_long: bool,
) -> (r: Result<u64, Error>)
    ensures
        r == borrowing_factor_per_second_spec(*market, *prices, is_long),
{
    let reserved_value = market.reserved_value(&prices.index_token_price, is_long)?;
    if reserved_value == 0 {
        return Ok(0);
    }
    let long_interest = market.open_interest(true)?;
    let short_interest = market.open_interest(false)?;
    if market.params.borrowing_fee.skip_borrowing_fee_for_smaller_side {
        if (is_long && long_interest < short_interest) || (!is_long && short_interest
            < long_interest) {
            return Ok(0);
        }
    }
    let pool_value = market.pool_value_without_pnl_for_one_side(prices, is_long, false)?;
    if pool_value == 0 {
        return Err(Error::UnableToGetBorrowingFactorEmptyPoolValue);
    }
    usage_factor(market, is_long, reserved_value, pool_value)
}

/// Computes the cumulative borrowing factor of a side after a period, and
/// what the period adds to it.
pub fn next_cumulative_borrowing_factor(
    market: &Market,
    prices: &Prices,
    is_long: bool,
    duration_in_seconds: u64,
) -> (r: Result<(u64, u64), Error>)
    ensures
        r == next_cumulative_borrowing_factor_spec(*market, *prices, is_long, duration_in_seconds),
        r matches Ok((next, delta)) ==> market.cumulative_borrowing_factor_spec(is_long)
            == Ok::<u64, Error>((next - delta) as u64),
{
    let per_second = borrowing_factor_per_second(market, prices, is_long)?;
    let delta = compute(
        checked_mul(duration_in_seconds, per_second),
        Calc::CumulativeBorrowingFactor,
    )?;
    let current = market.cumulative_borrowing_factor(is_long)?;
    let next = compute(checked_add(current, delta), Calc::CumulativeBorrowingFactor)?;
    Ok((next, delta))
}

/// Brings the cumulative borrowing factor of one side forward by a period.
pub fn update_one_side(
    market: &mut Market,
    prices: &Prices,
    is_long: bool,
    duration_in_seconds: u64,
) -> (r: Result<u64, Error>)
    ensures
        (Step { state: *final(market), result: r }) == update_one_side_spec(
            *old(market),
            *prices,
            is_long,
            duration_in_seconds,
        ),
        r is Err ==> *final(market) == *old(market),
        old(market).wf() ==> final(market).wf(),
{
    let (next_cumulative_borrowing_factor, delta) = next_cumulative_borrowing_factor(
        market,
        prices,
        is_long,
        duration_in_seconds,
    )?;
    market.apply_delta(PoolKind::BorrowingFactor, is_long, to_signed(delta)?)?;
    Ok(next_cumulative_borrowing_factor)
}

impl<'a> UpdateBorrowingState<'a> {
    /// Create a new [`UpdateBorrowingState`] action.
    pub fn try_new(market: &'a mut Market, prices: &Prices) -> (r: Result<Self, Error>)
        ensures
            prices.valid() <==> r is Ok,
            r matches Ok(action) ==> *action.market == *old(market) && *final(action.market)
                == *final(market) && action.prices == *prices,
            r matches Err(e) ==> e == Error::InvalidArgument(Invalid::Prices),
            r is Err ==> *final(market) == *old(market),
    {
        prices.validate()?;
        Ok(UpdateBorrowingState { market, prices: *prices })
    }

    /// Executes the borrowing update on the market. On an error the market
    /// holds what was applied before the step that failed.
    pub fn execute(self) -> (r: Result<UpdateBorrowingReport, Error>)
        ensures
            (Step { state: *final(self.market), result: r }) == update_borrowing_spec(
                *old(self.market),
                self.prices,
            ),
            old(self.market).wf() ==> final(self.market).wf(),
    {
        let UpdateBorrowingState { market, prices } = self;
        let duration_in_seconds = market.just_passed_in_seconds_for_borrowing();
        let next_cumulative_borrowing_factor_for_long = update_one_side(
            market,
            &prices,
            true,
            duration_in_seconds,
        )?;
        let next_cumulative_borrowing_factor_for_short = update_one_side(
            market,
            &prices,
            false,
            duration_in_seconds,
        )?;
        Ok(
            UpdateBorrowingReport {
                duration_in_seconds,
                next_cumulative_borrowing_factor_for_long,
                next_cumulative_borrowing_factor_for_short,
            },
        )
    }

    /// Executes the borrowing update on a copy of the market, and keeps the
    /// copy only if the update went through: an update that fails leaves the
    /// market as it was.
    pub fn execute_atomically(self) -> (r: Result<UpdateBorrowingReport, Error>)
        ensures
            r == update_borrowing_spec(*old(self.market), self.prices).result,
            r is Ok ==> *final(self.market) == update_borrowing_spec(
                *old(self.market),
                self.prices,
            ).state,
            r is Err ==> *final(self.market) == *old(self.market),
    {
        let UpdateBorrowingState { market, prices } = self;
        let mut next_market = *market;
        let report = (UpdateBorrowingState { market: &mut next_market, prices }).execute()?;
        *market = next_market;
        Ok(report)
    }
}

} // verus!
