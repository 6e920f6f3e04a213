//! The funding-rate engine.

use vstd::prelude::*;
use crate::error::{Calc, Error, Invalid, Step, compute, computed};
use crate::fixed::{apply_exponent_factor, apply_exponent_factor_spec, apply_factor,
    apply_factor_spec, div_to_factor, div_to_factor_spec};
use crate::market::{Market, PoolKind, Slots, flags_to_index, flags_to_index_spec};
use crate::num::{bound_magnitude, bound_magnitude_spec, checked_add, checked_div, checked_mul,
    checked_mul_div, checked_mul_div_ceil, checked_round_up_div, checked_sub, diff, fit_signed,
    fit_unsigned, magnitude, mul_div_ceil_spec, mul_div_spec, round_up_div_spec, signed_checked_add,
    to_opposite_signed, to_opposite_signed_spec, to_signed, to_signed_spec, unsigned_abs};
use crate::params::FundingRateChangeType;
use crate::price::Prices;

verus! {

/// Update Funding State Action.
#[must_use]
pub struct UpdateFundingState<'a> {
    pub market: &'a mut Market,
    pub prices: Prices,
}

/// Update Funding Report.
#[derive(Clone, Copy, Debug, PartialEq, Eq, Structural)]
pub struct UpdateFundingReport {
    pub duration_in_seconds: u64,
    pub next_funding_factor_per_second: i64,
    pub delta_funding_amount_per_size: Slots,
    pub delta_claimable_funding_amount_per_size: Slots,
}

impl UpdateFundingReport {
    /// The report of a period in which nothing is funded.
    pub open spec fn empty_spec(duration_in_seconds: u64) -> UpdateFundingReport {
        let zero = Slots {
            long_side_long_collateral: 0,
            short_side_long_collateral: 0,
            long_side_short_collateral: 0,
            short_side_short_collateral: 0,
        };
        UpdateFundingReport {
            duration_in_seconds,
            next_funding_factor_per_second: 0,
            delta_funding_amount_per_size: zero,
            delta_claimable_funding_amount_per_size: zero,
        }
    }

    /// Create a new empty report.
    pub fn empty(duration_in_seconds: u64) -> (r: Self)
        ensures
            r == Self::empty_spec(duration_in_seconds),
    {
        UpdateFundingReport {
            duration_in_seconds,
            next_funding_factor_per_second: 0,
            delta_funding_amount_per_size: Slots::zero(),
            delta_claimable_funding_amount_per_size: Slots::zero(),
        }
    }

    /// Get considered duration in seconds.
    pub fn duration_in_seconds(&self) -> (r: u64)
        ensures
            r == self.duration_in_seconds,
    {
        self.duration_in_seconds
    }

    /// Get next funding factor per second.
    pub fn next_funding_factor_per_second(&self) -> (r: &i64)
        ensures
            *r == self.next_funding_factor_per_second,
    {
        &self.next_funding_factor_per_second
    }

    /// Get delta to funding amount per size.
    pub fn delta_funding_amount_per_size(
        &self,
        is_long: bool,
        is_long_collateral: bool,
    ) -> (r: &u64)
        ensures
            *r == self.delta_funding_amount_per_size.of(is_long, is_long_collateral),
    {
        let idx = flags_to_index(is_long, is_long_collateral);
        self.delta_funding_amount_per_size.slot(idx)
    }

    /// Get delta to claimable funding amount per size.
    pub fn delta_claimable_funding_amount_per_size(
        &self,
        is_long: bool,
        is_long_collateral: bool,
    ) -> (r: &u64)
        ensures
            *r == self.delta_claimable_funding_amount_per_size.of(is_long, is_long_collateral),
    {
        let idx = flags_to_index(is_long, is_long_collateral);
        self.delta_claimable_funding_amount_per_size.slot(idx)
    }
}

/// A funding value as an amount per size: the value times the adjustment
/// and the unit, over the open interest and then over the price. Nothing is
/// owed without a value or without open interest. `None` where the price is
/// zero or a step leaves `u64`.
pub open spec fn pack_to_funding_amount_per_size_spec(
    adjustment: u64,
    funding_value: u64,
    open_interest: u64,
    price: u64,
    round_up_magnitude: bool,
    unit: u64,
) -> Option<u64> {
    if funding_value == 0 || open_interest == 0 {
        Some(0)
    } else {
        match fit_unsigned(adjustment * unit) {
            None => None,
            Some(numerator) => if round_up_magnitude {
                match mul_div_ceil_spec(funding_value, numerator, open_interest) {
                    None => None,
                    Some(per_size) => round_up_div_spec(per_size, price),
                }
            } else {
                match mul_div_spec(funding_value, numerator, open_interest) {
                    None => None,
                    Some(per_size) => if price == 0 {
                        None
                    } else {
                        Some(per_size / price)
                    },
                }
            },
        }
    }
}

/// Pack the value to funding amount per size with the given `adjustment`.
pub fn pack_to_funding_amount_per_size(
    adjustment: u64,
    funding_value: u64,
    open_interest: u64,
    price: u64,
    round_up_magnitude: bool,
    unit: u64,
) -> (r: Option<u64>)
    ensures
        r == pack_to_funding_amount_per_size_spec(
            adjustment,
            funding_value,
            open_interest,
            price,
            round_up_magnitude,
            unit,
        ),
{
    if funding_value == 0 || open_interest == 0 {
        return Some(0);
    }
    let numerator = checked_mul(adjustment, unit)?;
    let funding_value_per_size = if round_up_magnitude {
        checked_mul_div_ceil(funding_value, numerator, open_interest)?
    } else {
        checked_mul_div(funding_value, numerator, open_interest)?
    };
    if round_up_magnitude {
        checked_round_up_div(funding_value_per_size, price)
    } else {
        checked_div(funding_value_per_size, price)
    }
}

/// The funding amount of a position: its size times what its side was
/// charged per size since its snapshot, over the adjustment and the unit.
/// `None` where the snapshot is ahead of the market, the scale is zero, or a
/// step leaves `u64`.
pub open spec fn unpack_to_funding_amount_delta_spec(
    adjustment: u64,
    latest_funding_amount_per_size: u64,
    position_funding_amount_per_size: u64,
    size_in_usd: u64,
    round_up_magnitude: bool,
    unit: u64,
) -> Option<u64> {
    if latest_funding_amount_per_size < position_funding_amount_per_size {
        None
    } else {
        let diff = (latest_funding_amount_per_size - position_funding_amount_per_size) as u64;
        match fit_unsigned(adjustment * unit) {
            None => None,
            Some(scale) => if round_up_magnitude {
                mul_div_ceil_spec(size_in_usd, diff, scale)
            } else {
                mul_div_spec(size_in_usd, diff, scale)
            },
        }
    }
}

/// Calculate the funding amount for a position and unpack with the given `adjustment`.
pub fn unpack_to_funding_amount_delta(
    adjustment: u64,
    latest_funding_amount_per_size: u64,
    position_funding_amount_per_size: u64,
    size_in_usd: u64,
    round_up_magnitude: bool,
    unit: u64,
) -> (r: Option<u64>)
    ensures
        r == unpack_to_funding_amount_delta_spec(
            adjustment,
            latest_funding_amount_per_size,
            position_funding_amount_per_size,
            size_in_usd,
            round_up_magnitude,
            unit,
        ),
{
    let funding_diff_factor = checked_sub(
        latest_funding_amount_per_size,
        position_funding_amount_per_size,
    )?;
    let adjustment = checked_mul(adjustment, unit)?;
    if round_up_magnitude {
        checked_mul_div_ceil(size_in_usd, funding_diff_factor, adjustment)
    } else {
        checked_mul_div(size_in_usd, funding_diff_factor, adjustment)
    }
}

/// The difference of the open interest of the two sides as a factor of
/// their sum: the difference raised to the exponent, over the sum, rounded
/// down.
pub open spec fn diff_factor_spec(
    market: Market,
    long_open_interest: u64,
    short_open_interest: u64,
) -> Result<u64, Error> {
    let diff_value = magnitude(long_open_interest - short_open_interest) as u64;
    match fit_unsigned(long_open_interest + short_open_interest) {
        None => Err(Error::Computation(Calc::TotalOpenInterest)),
        Some(total) => if total == 0 {
            Err(Error::UnableToGetFundingFactorEmptyOpenInterest)
        } else {
            match apply_exponent_factor_spec(
                diff_value,
                market.params.funding_fee.exponent,
                market.params.unit,
            ) {
                None => Err(Error::Computation(Calc::DiffExponent)),
                Some(raised) => computed(
                    div_to_factor_spec(raised, total, market.params.unit, false),
                    Calc::DiffFactor,
                ),
            }
        },
    }
}

/// The signed funding factor per second after a period of adaptive funding,
/// before it is bounded.
///
/// An increase adds the difference factor times the increase factor per
/// second times the seconds, toward the side with the larger open interest.
/// A decrease of a factor that is not zero takes the decrease factor per
/// second times the seconds from the magnitude, and stops at the least
/// magnitude of the same sign rather than crossing zero. Otherwise the
/// factor stays.
pub open spec fn adapted_factor_spec(
    market: Market,
    duration_in_seconds: u64,
    long_open_interest: u64,
    short_open_interest: u64,
    diff_factor: u64,
) -> Result<i64, Error> {
    let params = market.params.funding_fee;
    let current = market.funding_factor_per_second;
    let current_magnitude = magnitude(current as int) as u64;
    match params.change_spec(current, long_open_interest, short_open_interest, diff_factor) {
        FundingRateChangeType::Increase => {
            match apply_factor_spec(
                diff_factor,
                params.increase_factor_per_second,
                market.params.unit,
            ) {
                None => Err(Error::Computation(Calc::FactorIncrease)),
                Some(per_second) => match fit_unsigned(per_second * duration_in_seconds) {
                    None => Err(Error::Computation(Calc::FactorIncrease)),
                    Some(increase) => {
                        let signed = if long_open_interest < short_open_interest {
                            to_opposite_signed_spec(increase)
                        } else {
                            to_signed_spec(increase)
                        };
                        match signed {
                            Err(e) => Err(e),
                            Ok(increase) => computed(
                                fit_signed(current + increase),
                                Calc::IncreasedFactor,
                            ),
                        }
                    },
                },
            }
        },
        FundingRateChangeType::Decrease => if current_magnitude == 0 {
            Ok(current)
        } else {
            match fit_unsigned(params.decrease_factor_per_second * duration_in_seconds) {
                None => Err(Error::Computation(Calc::FactorDecrease)),
                Some(decrease) => if current_magnitude <= decrease {
                    match to_signed_spec(current_magnitude) {
                        Err(e) => Err(e),
                        Ok(_) => Ok(if current < 0 { -1i64 } else { 1i64 }),
                    }
                } else {
                    let decreased = (current_magnitude - decrease) as u64;
                    if current < 0 {
                        to_opposite_signed_spec(decreased)
                    } else {
                        to_signed_spec(decreased)
                    }
                },
            }
        },
        FundingRateChangeType::NoChange => Ok(current),
    }
}

/// The funding factor per second of a period, given the open interest of
/// the two sides: its magnitude, whether longs pay shorts, and the signed
/// factor that the market keeps for the next period.
///
/// Balanced sides without adaptive funding fund nothing. Without adaptive
/// funding (no increase factor per second) the factor is the difference
/// factor times the funding factor, at most the maximum, paid by the larger
/// side, and the market keeps no factor. With adaptive funding the kept
/// factor is the adapted one with its magnitude at most the maximum, and the
/// factor of the period is the kept one with its magnitude at least the
/// minimum as well; longs pay where it is positive.
pub open spec fn next_funding_factor_per_second_spec(
    market: Market,
    duration_in_seconds: u64,
    long_open_interest: u64,
    short_open_interest: u64,
) -> Result<(u64, bool, i64), Error> {
    let params = market.params.funding_fee;
    if long_open_interest == short_open_interest && params.increase_factor_per_second == 0 {
        Ok((0, true, 0))
    } else {
        match diff_factor_spec(market, long_open_interest, short_open_interest) {
            Err(e) => Err(e),
            Ok(diff_factor) => if params.increase_factor_per_second == 0 {
                match apply_factor_spec(diff_factor, params.funding_factor, market.params.unit) {
                    None => Err(Error::Computation(Calc::FallbackFundingFactor)),
                    Some(factor) => Ok(
                        (
                            if factor > params.max_factor_per_second {
                                params.max_factor_per_second
                            } else {
                                factor
                            },
                            long_open_interest > short_open_interest,
                            0,
                        ),
                    ),
                }
            } else {
                match adapted_factor_spec(
                    market,
                    duration_in_seconds,
                    long_open_interest,
                    short_open_interest,
                    diff_factor,
                ) {
                    Err(e) => Err(e),
                    Ok(adapted) => match bound_magnitude_spec(
                        adapted,
                        0,
                        params.max_factor_per_second,
                    ) {
                        Err(e) => Err(e),
                        Ok(kept) => match bound_magnitude_spec(
                            kept,
                            params.min_factor_per_second,
                            params.max_factor_per_second,
                        ) {
                            Err(e) => Err(e),
                            Ok(bounded) => Ok(
                                (magnitude(bounded as int) as u64, bounded > 0, kept),
                            ),
                        },
                    },
                }
            },
        }
    }
}

/// The report with the deltas of one collateral token set: the payer's
/// charge per size, rounded up, and then the receiver's claim per size,
/// rounded down, up to the first that cannot be computed.
pub open spec fn set_deltas_for_collateral_spec(
    market: Market,
    prices: Prices,
    report: UpdateFundingReport,
    longs_pay_shorts: bool,
    is_long_collateral: bool,
    funding_value: u64,
    receiver_interest: u64,
) -> Step<UpdateFundingReport, ()> {
    let adjustment = market.params.funding_amount_per_size_adjustment;
    let price = prices.collateral(is_long_collateral).max;
    let payer = flags_to_index_spec(longs_pay_shorts, is_long_collateral);
    let receiver = flags_to_index_spec(!longs_pay_shorts, is_long_collateral);
    match market.amount_spec(PoolKind::open_interest(longs_pay_shorts), is_long_collateral) {
        Err(e) => Step { state: report, result: Err(e) },
        Ok(payer_interest) => match pack_to_funding_amount_per_size_spec(
            adjustment,
            funding_value,
            payer_interest,
            price,
            true,
            market.params.unit,
        ) {
            None => Step {
                state: report,
                result: Err(Error::Computation(Calc::FundingAmountPerSize)),
            },
            Some(charge) => {
                let charged = UpdateFundingReport {
                    delta_funding_amount_per_size: report.delta_funding_amount_per_size.with(
                        payer,
                        charge,
                    ),
                    ..report
                };
                match pack_to_funding_amount_per_size_spec(
                    adjustment,
                    funding_value,
                    receiver_interest,
                    price,
                    false,
                    market.params.unit,
                ) {
                    None => Step {
                        state: charged,
                        result: Err(Error::Computation(Calc::ClaimableFundingAmountPerSize)),
                    },
                    Some(claim) => {
                        let claimable = charged.delta_claimable_funding_amount_per_size;
                        Step {
                            state: UpdateFundingReport {
                                delta_claimable_funding_amount_per_size: claimable.with(
                                    receiver,
                                    claim,
                                ),
                                ..charged
                            },
                            result: Ok(()),
                        }
                    },
                }
            },
        },
    }
}

/// The report with the deltas of both collateral tokens set, the long token
/// first.
pub open spec fn set_deltas_spec(
    market: Market,
    prices: Prices,
    report: UpdateFundingReport,
    longs_pay_shorts: bool,
    for_long_collateral: u64,
    for_short_collateral: u64,
    receiver_interest: u64,
) -> Step<UpdateFundingReport, ()> {
    let first = set_deltas_for_collateral_spec(
        market,
        prices,
        report,
        longs_pay_shorts,
        true,
        for_long_collateral,
        receiver_interest,
    );
    if first.result is Err {
        first
    } else {
        set_deltas_for_collateral_spec(
            market,
            prices,
            first.state,
            longs_pay_shorts,
            false,
            for_short_collateral,
            receiver_interest,
        )
    }
}

/// The funding value of a period, split between the payers with long and
/// with short collateral in proportion to their open interest.
pub open spec fn funding_values_spec(
    market: Market,
    duration_in_seconds: u64,
    long_open_interest: u64,
    short_open_interest: u64,
    funding_factor_per_second: u64,
    longs_pay_shorts: bool,
) -> Result<(u64, u64), Error> {
    let larger = if long_open_interest > short_open_interest {
        long_open_interest
    } else {
        short_open_interest
    };
    let payer_interest = if longs_pay_shorts { long_open_interest } else { short_open_interest };
    let payers = PoolKind::open_interest(longs_pay_shorts);
    match fit_unsigned(duration_in_seconds * funding_factor_per_second) {
        None => Err(Error::Computation(Calc::FundingFactor)),
        Some(funding_factor) => match apply_factor_spec(
            larger,
            funding_factor,
            market.params.unit,
        ) {
            None => Err(Error::Computation(Calc::FundingValue)),
            Some(funding_value) => match market.amount_spec(payers, true) {
                Err(e) => Err(e),
                Ok(with_long) => match mul_div_spec(funding_value, with_long, payer_interest) {
                    None => Err(Error::Computation(Calc::FundingValueForLongCollateral)),
                    Some(for_long) => match market.amount_spec(payers, false) {
                        Err(e) => Err(e),
                        Ok(with_short) => match mul_div_spec(
                            funding_value,
                            with_short,
                            payer_interest,
                        ) {
                            None => Err(Error::Computation(Calc::FundingValueForShortCollateral)),
                            Some(for_short) => Ok((for_long, for_short)),
                        },
                    },
                },
            },
        },
    }
}

/// The funding of a period of `duration_in_seconds`.
///
/// While a side has no open interest nothing is funded and the report is
/// empty. Otherwise the funding factor of the period is resolved, the
/// funding value is the size of the larger side times the factor times the
/// seconds, and the deltas per size follow from its split.
pub open spec fn next_funding_amount_per_size_spec(
    market: Market,
    prices: Prices,
    duration_in_seconds: u64,
) -> Result<UpdateFundingReport, Error> {
    match market.open_interest_spec(true) {
        Err(e) => Err(e),
        Ok(long_open_interest) => match market.open_interest_spec(false) {
            Err(e) => Err(e),
            Ok(short_open_interest) => if long_open_interest == 0 || short_open_interest == 0 {
                Ok(UpdateFundingReport::empty_spec(duration_in_seconds))
            } else {
                match next_funding_factor_per_second_spec(
                    market,
                    duration_in_seconds,
                    long_open_interest,
                    short_open_interest,
                ) {
                    Err(e) => Err(e),
                    Ok((funding_factor_per_second, longs_pay_shorts, next)) => match
                    funding_values_spec(
                        market,
                        duration_in_seconds,
                        long_open_interest,
                        short_open_interest,
                        funding_factor_per_second,
                        longs_pay_shorts,
                    ) {
                        Err(e) => Err(e),
                        Ok((for_long_collateral, for_short_collateral)) => {
                            let set = set_deltas_spec(
                                market,
                                prices,
                                UpdateFundingReport {
                                    next_funding_factor_per_second: next,
                                    ..UpdateFundingReport::empty_spec(duration_in_seconds)
                                },
                                longs_pay_shorts,
                                for_long_collateral,
                                for_short_collateral,
                                if !longs_pay_shorts {
                                    long_open_interest
                                } else {
                                    short_open_interest
                                },
                            );
                            match set.result {
                                Err(e) => Err(e),
                                Ok(()) => Ok(set.state),
                            }
                        },
                    },
                }
            },
        },
    }
}

/// The market after the two deltas of one slot of a report are applied: the
/// charge per size first, then the claim per size.
pub open spec fn apply_slot_spec(
    market: Market,
    report: UpdateFundingReport,
    is_long: bool,
    is_long_collateral: bool,
) -> Step<Market, ()> {
    match to_signed_spec(report.delta_funding_amount_per_size.of(is_long, is_long_collateral)) {
        Err(e) => Step { state: market, result: Err(e) },
        Ok(charge) => {
            let charged = market.apply_delta_to_funding_amount_per_size_spec(
                is_long,
                is_long_collateral,
                charge,
            );
            if charged.result is Err {
                charged
            } else {
                match to_signed_spec(
                    report.delta_claimable_funding_amount_per_size.of(is_long, is_long_collateral),
                ) {
                    Err(e) => Step { state: charged.state, result: Err(e) },
                    Ok(claim) => {
                        let market = charged.state;
                        market.apply_delta_to_claimable_funding_amount_per_size_spec(
                            is_long,
                            is_long_collateral,
                            claim,
                        )
                    },
                }
            }
        },
    }
}

/// The market after a report is applied: the four slots in the order long
/// side before short side and, within a side, long collateral before short
/// collateral; then the funding factor per second of the report. The first
/// delta that is refused stops it.
pub open spec fn apply_report_spec(
    market: Market,
    report: UpdateFundingReport,
) -> Step<Market, ()> {
    let first = apply_slot_spec(market, report, true, true);
    let second = if first.result is Err {
        first
    } else {
        apply_slot_spec(first.state, report, true, false)
    };
    let third = if second.result is Err {
        second
    } else {
        apply_slot_spec(second.state, report, false, true)
    };
    let fourth = if third.result is Err {
        third
    } else {
        apply_slot_spec(third.state, report, false, false)
    };
    if fourth.result is Err {
        fourth
    } else {
        Step {
            state: Market {
                funding_factor_per_second: report.next_funding_factor_per_second,
                ..fourth.state
            },
            result: Ok(()),
        }
    }
}

/// What a funding update does to a market, and what it returns: the time of
/// the last update becomes now, the funding of the seconds since then is
/// computed, and its report is applied.
pub open spec fn update_funding_spec(
    market: Market,
    prices: Prices,
) -> Step<Market, UpdateFundingReport> {
    let clocked = Market { funding_updated_at: market.now, ..market };
    match next_funding_amount_per_size_spec(clocked, prices, market.passed_for_funding_spec()) {
        Err(e) => Step { state: clocked, result: Err(e) },
        Ok(report) => {
            let applied = apply_report_spec(clocked, report);
            match applied.result {
                Err(e) => Step { state: applied.state, result: Err(e) },
                Ok(()) => Step { state: applied.state, result: Ok(report) },
            }
        },
    }
}

/// Computes the difference factor of the open interest of the two sides.
pub fn diff_factor(
    market: &Market,
    long_open_interest: u64,
    short_open_interest: u64,
) -> (r: Result<u64, Error>)
    ensures
        r == diff_factor_spec(*market, long_open_interest, short_open_interest),
{
    let diff_value = diff(long_open_interest, short_open_interest);
    let total_open_interest = compute(
        checked_add(long_open_interest, short_open_interest),
        Calc::TotalOpenInterest,
    )?;
    if total_open_interest == 0 {
        return Err(Error::UnableToGetFundingFactorEmptyOpenInterest);
    }
    let diff_value_after_exponent = compute(
        apply_exponent_factor(diff_value, market.params.funding_fee.exponent, market.params.unit),
        Calc::DiffExponent,
    )?;
    compute(
        div_to_factor(diff_value_after_exponent, total_open_interest, market.params.unit, false),
        Calc::DiffFactor,
    )
}

/// Adapts the funding factor per second over a period.
pub fn adapted_factor(
    market: &Market,
    duration_in_seconds: u64,
    long_open_interest: u64,
    short_open_interest: u64,
    diff_factor: u64,
) -> (r: Result<i64, Error>)
    ensures
        r == adapted_factor_spec(
            *market,
            duration_in_seconds,
            long_open_interest,
            short_open_interest,
            diff_factor,
        ),
{
    let params = &market.params.funding_fee;
    let funding_factor_per_second = market.funding_factor_per_second;
    let funding_factor_per_second_magnitude = unsigned_abs(funding_factor_per_second);
    let change = params.change(
        funding_factor_per_second,
        long_open_interest,
        short_open_interest,
        diff_factor,
    );
    match change {
        FundingRateChangeType::Increase => {
            let per_second = compute(
                apply_factor(diff_factor, params.increase_factor_per_second, market.params.unit),
                Calc::FactorIncrease,
            )?;
            let increase_value = compute(
                checked_mul(per_second, duration_in_seconds),
                Calc::FactorIncrease,
            )?;
            let increase_value = if long_open_interest < short_open_interest {
                to_opposite_signed(increase_value)?
            } else {
                to_signed(increase_value)?
            };
            compute(
                signed_checked_add(funding_factor_per_second, increase_value),
                Calc::IncreasedFactor,
            )
        },
        FundingRateChangeType::Decrease => {
            if funding_factor_per_second_magnitude == 0 {
                return Ok(funding_factor_per_second);
            }
            let decrease_value = compute(
                checked_mul(params.decrease_factor_per_second, duration_in_seconds),
                Calc::FactorDecrease,
            )?;
            if funding_factor_per_second_magnitude <= decrease_value {
                let _ = to_signed(funding_factor_per_second_magnitude)?;
                Ok(if funding_factor_per_second < 0 { -1 } else { 1 })
            } else {
                let decreased = funding_factor_per_second_magnitude - decrease_value;
                if funding_factor_per_second < 0 {
                    to_opposite_signed(decreased)
                } else {
                    to_signed(decreased)
                }
            }
        },
        FundingRateChangeType::NoChange => Ok(funding_factor_per_second),
    }
}

/// Splits the funding value of a period between the collateral tokens of the payers.
pub fn funding_values(
    market: &Market,
    duration_in_seconds: u64,
    long_open_interest: u64,
    short_open_interest: u64,
    funding_factor_per_second: u64,
    longs_pay_shorts: bool,
) -> (r: Result<(u64, u64), Error>)
    ensures
        r == funding_values_spec(
            *market,
            duration_in_seconds,
            long_open_interest,
            short_open_interest,
            funding_factor_per_second,
            longs_pay_shorts,
        ),
{
    let size_of_larger_side = if long_open_interest > short_open_interest {
        long_open_interest
    } else {
        short_open_interest
    };
    let funding_factor = compute(
        checked_mul(duration_in_seconds, funding_factor_per_second),
        Calc::FundingFactor,
    )?;
    let funding_value = compute(
        apply_factor(size_of_larger_side, funding_factor, market.params.unit),
        Calc::FundingValue,
    )?;
    let payer_open_interest = if longs_pay_shorts {
        long_open_interest
    } else {
        short_open_interest
    };
    let payers = PoolKind::for_open_interest(longs_pay_shorts);
    let for_long_collateral = compute(
        checked_mul_div(funding_value, market.amount(payers, true)?, payer_open_interest),
        Calc::FundingValueForLongCollateral,
    )?;
    let for_short_collateral = compute(
        checked_mul_div(funding_value, market.amount(payers, false)?, payer_open_interest),
        Calc::FundingValueForShortCollateral,
    )?;
    Ok((for_long_collateral, for_short_collateral))
}

/// Applies the two deltas of one slot of a report to the market.
pub fn apply_slot(
    market: &mut Market,
    report: &UpdateFundingReport,
    is_long: bool,
    is_long_collateral: bool,
) -> (r: Result<(), Error>)
    ensures
        (Step { state: *final(market), result: r }) == apply_slot_spec(
            *old(market),
            *report,
            is_long,
            is_long_collateral,
        ),
        old(market).wf() ==> final(market).wf(),
{
    market.apply_delta_to_funding_amount_per_size(
        is_long,
        is_long_collateral,
        to_signed(*report.delta_funding_amount_per_size(is_long, is_long_collateral))?,
    )?;
    market.apply_delta_to_claimable_funding_amount_per_size(
        is_long,
        is_long_collateral,
        to_signed(*report.delta_claimable_funding_amount_per_size(is_long, is_long_collateral))?,
    )
}

impl<'a> UpdateFundingState<'a> {
    /// Create a new [`UpdateFundingState`] action.
    pub fn try_new(market: &'a mut Market, prices: &Prices) -> (r: Result<Self, Error>)
        ensures
            prices.valid() <==> r is Ok,
            r matches Ok(action) ==> *action.market == *old(market) && *final(action.market)
                == *final(market) && action.prices == *prices,
            r matches Err(e) ==> e == Error::InvalidArgument(Invalid::Prices),
            r is Err ==> *final(market) == *old(market),
    {
        prices.validate()?;
        Ok(UpdateFundingState { market, prices: *prices })
    }

    /// Calculate next funding amounts per size.
    pub fn next_funding_amount_per_size(
        &self,
        duration_in_seconds: u64,
    ) -> (r: Result<UpdateFundingReport, Error>)
        ensures
            r == next_funding_amount_per_size_spec(
                *old(self.market),
                self.prices,
                duration_in_seconds,
            ),
    {
        let mut report = UpdateFundingReport::empty(duration_in_seconds);
        let long_open_interest = self.market.open_interest(true)?;
        let short_open_interest = self.market.open_interest(false)?;
        if long_open_interest == 0 || short_open_interest == 0 {
            return Ok(report);
        }
        let factor = self.next_funding_factor_per_second(
            duration_in_seconds,
            long_open_interest,
            short_open_interest,
        )?;
        let (funding_factor_per_second, longs_pay_shorts, next_funding_factor_per_second) = factor;
        report.next_funding_factor_per_second = next_funding_factor_per_second;
        let (for_long_collateral, for_short_collateral) = funding_values(
            self.market,
            duration_in_seconds,
            long_open_interest,
            short_open_interest,
            funding_factor_per_second,
            longs_pay_shorts,
        )?;
        self.set_deltas(
            &mut report,
            longs_pay_shorts,
            for_long_collateral,
            for_short_collateral,
            if !longs_pay_shorts { long_open_interest } else { short_open_interest },
        )?;
        Ok(report)
    }

    fn set_deltas_for_collateral(
        &self,
        report: &mut UpdateFundingReport,
        longs_pay_shorts: bool,
        is_long_collateral: bool,
        funding_value: u64,
        receiver_interest: u64,
    ) -> (r: Result<(), Error>)
        ensures
            (Step { state: *final(report), result: r }) == set_deltas_for_collateral_spec(
                *old(self.market),
                self.prices,
                *old(report),
                longs_pay_shorts,
                is_long_collateral,
                funding_value,
                receiver_interest,
            ),
    {
        let adjustment = self.market.params.funding_amount_per_size_adjustment;
        let unit = self.market.params.unit;
        let price = self.prices.collateral_token_price(is_long_collateral).pick_price(true);
        let payer = flags_to_index(longs_pay_shorts, is_long_collateral);
        let receiver = flags_to_index(!longs_pay_shorts, is_long_collateral);
        let payer_interest = self.market.amount(
            PoolKind::for_open_interest(longs_pay_shorts),
            is_long_collateral,
        )?;
        let charge = compute(
            pack_to_funding_amount_per_size(
                adjustment,
                funding_value,
                payer_interest,
                price,
                true,
                unit,
            ),
            Calc::FundingAmountPerSize,
        )?;
        report.delta_funding_amount_per_size.set(payer, charge);
        let claim = compute(
            pack_to_funding_amount_per_size(
                adjustment,
                funding_value,
                receiver_interest,
                price,
                false,
                unit,
            ),
            Calc::ClaimableFundingAmountPerSize,
        )?;
        report.delta_claimable_funding_amount_per_size.set(receiver, claim);
        Ok(())
    }

    /// Sets the deltas per size of a report from the funding values of the
    /// two collateral tokens.
    pub fn set_deltas(
        &self,
        report: &mut UpdateFundingReport,
        longs_pay_shorts: bool,
        for_long_collateral: u64,
        for_short_collateral: u64,
        receiver_interest: u64,
    ) -> (r: Result<(), Error>)
        ensures
            (Step { state: *final(report), result: r }) == set_deltas_spec(
                *old(self.market),
                self.prices,
                *old(report),
                longs_pay_shorts,
                for_long_collateral,
                for_short_collateral,
                receiver_interest,
            ),
    {
        self.set_deltas_for_collateral(
            report,
            longs_pay_shorts,
            true,
            for_long_collateral,
            receiver_interest,
        )?;
        self.set_deltas_for_collateral(
            report,
            longs_pay_shorts,
            false,
            for_short_collateral,
            receiver_interest,
        )
    }

    /// Get next funding factor per second.
    pub fn next_funding_factor_per_second(
        &self,
        duration_in_seconds: u64,
        long_open_interest: u64,
        short_open_interest: u64,
    ) -> (r: Result<(u64, bool, i64), Error>)
        ensures
            r == next_funding_factor_per_second_spec(
                *old(self.market),
                duration_in_seconds,
                long_open_interest,
                short_open_interest,
            ),
    {
        let params = &self.market.params.funding_fee;
        let funding_increase_factor_per_second = params.increase_factor_per_second;
        let diff_value = diff(long_open_interest, short_open_interest);
        if diff_value == 0 && funding_increase_factor_per_second == 0 {
            return Ok((0, true, 0));
        }
        let diff_value_to_open_interest_factor = diff_factor(
            self.market,
            long_open_interest,
            short_open_interest,
        )?;
        if funding_increase_factor_per_second == 0 {
            let mut funding_factor_per_second = compute(
                apply_factor(
                    diff_value_to_open_interest_factor,
                    params.funding_factor,
                    self.market.params.unit,
                ),
                Calc::FallbackFundingFactor,
            )?;
            if funding_factor_per_second > params.max_factor_per_second {
                funding_factor_per_second = params.max_factor_per_second;
            }
            return Ok((funding_factor_per_second, long_open_interest > short_open_interest, 0));
        }
        let next_funding_factor_per_second = adapted_factor(
            self.market,
            duration_in_seconds,
            long_open_interest,
            short_open_interest,
            diff_value_to_open_interest_factor,
        )?;
        let next_funding_factor_per_second = bound_magnitude(
            next_funding_factor_per_second,
            0,
            params.max_factor_per_second,
        )?;
        let next_funding_factor_per_second_with_min_bound = bound_magnitude(
            next_funding_factor_per_second,
            params.min_factor_per_second,
            params.max_factor_per_second,
        )?;
        Ok(
            (
                unsigned_abs(next_funding_factor_per_second_with_min_bound),
                next_funding_factor_per_second_with_min_bound > 0,
                next_funding_factor_per_second,
            ),
        )
    }

    /// Executes the funding update on the market. On an error the market
    /// holds what was applied before the step that failed.
    pub fn execute(self) -> (r: Result<UpdateFundingReport, Error>)
        ensures
            (Step { state: *final(self.market), result: r }) == update_funding_spec(
                *old(self.market),
                self.prices,
            ),
            old(self.market).wf() ==> final(self.market).wf(),
    {
        let duration_in_seconds = self.market.just_passed_in_seconds_for_funding();
        let report = self.next_funding_amount_per_size(duration_in_seconds)?;
        let UpdateFundingState { market, prices: _ } = self;
        apply_slot(market, &report, true, true)?;
        apply_slot(market, &report, true, false)?;
        apply_slot(market, &report, false, true)?;
        apply_slot(market, &report, false, false)?;
        market.funding_factor_per_second = *report.next_funding_factor_per_second();
        Ok(report)
    }

    /// Executes the funding update on a copy of the market, and keeps the
    /// copy only if the update went through: an update that fails leaves the
    /// market as it was.
    pub fn execute_atomically(self) -> (r: Result<UpdateFundingReport, Error>)
        ensures
            r == update_funding_spec(*old(self.market), self.prices).result,
            r is Ok ==> *final(self.market) == update_funding_spec(
                *old(self.market),
                self.prices,
            ).state,
            r is Err ==> *final(self.market) == *old(self.market),
    {
        let UpdateFundingState { market, prices } = self;
        let mut next_market = *market;
        let report = (UpdateFundingState { market: &mut next_market, prices }).execute()?;
        *market = next_market;
        Ok(report)
    }
}

} // verus!
