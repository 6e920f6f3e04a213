//! Increasing a position.

use vstd::prelude::*;
use crate::error::{Calc, Error, Invalid, Step, compute, computed};
use crate::fees::PositionFees;
use crate::market::{Market, PoolKind};
use crate::num::{checked_add, checked_add_with_signed, checked_div, checked_round_up_div,
    checked_sub_with_signed, fit_signed, fit_unsigned, round_up_div_spec, round_up_magnitude_div,
    round_up_magnitude_div_spec, signed_checked_neg, signed_checked_sub, to_signed, to_signed_spec};
use crate::position::{Position, PositionOps, State, update_open_interest, update_open_interest_spec,
    update_total_borrowing, update_total_borrowing_spec};
use crate::price::{Price, Prices};
use crate::price_impact::{BalanceChange, PriceImpact, capped_positive_position_price_impact,
    capped_positive_position_price_impact_spec};

verus! {

/// Increase the position.
#[must_use]
pub struct IncreasePosition<'a> {
    pub position: PositionOps<'a>,
    pub params: IncreasePositionParams,
}

/// Increase Position Params.
#[derive(Clone, Copy, Debug, PartialEq, Eq, Structural)]
pub struct IncreasePositionParams {
    pub collateral_increment_amount: u64,
    pub size_delta_usd: u64,
    pub acceptable_price: Option<u64>,
    pub prices: Prices,
}

impl IncreasePositionParams {
    /// Get collateral increment amount.
    pub fn collateral_increment_amount(&self) -> (r: &u64)
        ensures
            *r == self.collateral_increment_amount,
    {
        &self.collateral_increment_amount
    }

    /// Get size delta USD.
    pub fn size_delta_usd(&self) -> (r: &u64)
        ensures
            *r == self.size_delta_usd,
    {
        &self.size_delta_usd
    }

    /// Get acceptable price.
    pub fn acceptable_price(&self) -> (r: Option<&u64>)
        ensures
            r is Some == self.acceptable_price is Some,
            r matches Some(price) ==> *price == self.acceptable_price->0,
    {
        self.acceptable_price.as_ref()
    }

    /// Get prices.
    pub fn prices(&self) -> (r: &Prices)
        ensures
            *r == self.prices,
    {
        &self.prices
    }
}

/// Execution Params for increasing position.
#[derive(Clone, Copy, Debug, PartialEq, Eq, Structural)]
pub struct ExecutionParams {
    pub price_impact_value: i64,
    pub price_impact_amount: i64,
    pub size_delta_in_tokens: u64,
    pub execution_price: u64,
}

impl ExecutionParams {
    /// Get price impact value.
    pub fn price_impact_value(&self) -> (r: &i64)
        ensures
            *r == self.price_impact_value,
    {
        &self.price_impact_value
    }

    /// Get price impact amount.
    pub fn price_impact_amount(&self) -> (r: &i64)
        ensures
            *r == self.price_impact_amount,
    {
        &self.price_impact_amount
    }

    /// Get size delta in tokens.
    pub fn size_delta_in_tokens(&self) -> (r: &u64)
        ensures
            *r == self.size_delta_in_tokens,
    {
        &self.size_delta_in_tokens
    }

    /// Get execution price.
    pub fn execution_price(&self) -> (r: &u64)
        ensures
            *r == self.execution_price,
    {
        &self.execution_price
    }
}

/// The execution params of an increase, and the price impact behind them.
#[derive(Clone, Copy, Debug, PartialEq, Eq, Structural)]
pub struct ExecutionParamsWithPriceImpact {
    pub execution: ExecutionParams,
    pub price_impact: PriceImpact,
}

/// Report of the execution of position increasing.
#[must_use]
#[derive(Clone, Copy, Debug, PartialEq, Eq, Structural)]
pub struct IncreasePositionReport {
    pub params: IncreasePositionParams,
    pub execution: ExecutionParams,
    pub collateral_delta_amount: i64,
    pub fees: PositionFees,
    /// Output amounts that must be processed.
    pub claimable_funding_long_token_amount: u64,
    pub claimable_funding_short_token_amount: u64,
}

impl IncreasePositionReport {
    /// The report of an increase: its inputs, its outcome, and the funding
    /// amounts that the trader claims with it.
    pub open spec fn new_spec(
        params: IncreasePositionParams,
        execution: ExecutionParams,
        collateral_delta_amount: i64,
        fees: PositionFees,
    ) -> IncreasePositionReport {
        IncreasePositionReport {
            params,
            execution,
            collateral_delta_amount,
            fees,
            claimable_funding_long_token_amount: fees.funding.claimable_long_token_amount,
            claimable_funding_short_token_amount: fees.funding.claimable_short_token_amount,
        }
    }

    fn new(
        params: IncreasePositionParams,
        execution: ExecutionParams,
        collateral_delta_amount: i64,
        fees: PositionFees,
    ) -> (r: Self)
        ensures
            r == Self::new_spec(params, execution, collateral_delta_amount, fees),
    {
        let claimable_funding_long_token_amount = fees.funding_fees().claimable_long_token_amount;
        let claimable_funding_short_token_amount = fees.funding_fees().claimable_short_token_amount;
        IncreasePositionReport {
            params,
            execution,
            collateral_delta_amount,
            fees,
            claimable_funding_long_token_amount,
            claimable_funding_short_token_amount,
        }
    }

    /// Get claimable funding amounts, returns `(long_amount, short_amount)`.
    #[must_use]
    pub fn claimable_funding_amounts(&self) -> (r: (&u64, &u64))
        ensures
            *r.0 == self.claimable_funding_long_token_amount,
            *r.1 == self.claimable_funding_short_token_amount,
    {
        (&self.claimable_funding_long_token_amount, &self.claimable_funding_short_token_amount)
    }

    /// Get params.
    pub fn params(&self) -> (r: &IncreasePositionParams)
        ensures
            *r == self.params,
    {
        &self.params
    }

    /// Get execution params.
    pub fn execution(&self) -> (r: &ExecutionParams)
        ensures
            *r == self.execution,
    {
        &self.execution
    }

    /// Get collateral delta amount.
    pub fn collateral_delta_amount(&self) -> (r: &i64)
        ensures
            *r == self.collateral_delta_amount,
    {
        &self.collateral_delta_amount
    }

    /// Get position fees.
    pub fn fees(&self) -> (r: &PositionFees)
        ensures
            *r == self.fees,
    {
        &self.fees
    }
}

/// The execution price of an increase: the size in USD over the size in
/// tokens, rounded down. With an acceptable price, a long order is refused
/// above it and a short order below it.
pub open spec fn get_execution_price_for_increase_spec(
    size_delta_usd: u64,
    size_delta_in_tokens: u64,
    acceptable_price: Option<u64>,
    is_long: bool,
) -> Result<u64, Error> {
    if size_delta_usd == 0 {
        Err(Error::Computation(Calc::EmptySizeDelta))
    } else if size_delta_in_tokens == 0 {
        Err(Error::Computation(Calc::ExecutionPrice))
    } else {
        let execution_price = (size_delta_usd / size_delta_in_tokens) as u64;
        if acceptable_price is None || (is_long && execution_price <= acceptable_price->0) || (
        !is_long && execution_price >= acceptable_price->0) {
            Ok(execution_price)
        } else {
            Err(Error::InvalidArgument(Invalid::NotFulfillable))
        }
    }
}

/// Computes the execution price of an increase and holds it against the
/// acceptable price.
pub fn get_execution_price_for_increase(
    size_delta_usd: u64,
    size_delta_in_tokens: u64,
    acceptable_price: Option<u64>,
    is_long: bool,
) -> (r: Result<u64, Error>)
    ensures
        r == get_execution_price_for_increase_spec(
            size_delta_usd,
            size_delta_in_tokens,
            acceptable_price,
            is_long,
        ),
{
    if size_delta_usd == 0 {
        return Err(Error::Computation(Calc::EmptySizeDelta));
    }
    let execution_price = compute(
        checked_div(size_delta_usd, size_delta_in_tokens),
        Calc::ExecutionPrice,
    )?;
    let acceptable_price = match acceptable_price {
        Some(price) => price,
        None => {
            return Ok(execution_price);
        },
    };
    if (is_long && execution_price <= acceptable_price) || (!is_long && execution_price
        >= acceptable_price) {
        Ok(execution_price)
    } else {
        Err(Error::InvalidArgument(Invalid::NotFulfillable))
    }
}

/// A price impact in index tokens: a positive value over the ask, rounded
/// down, and any other value over the bid, its magnitude rounded up, so that
/// the pool is favoured either way.
pub open spec fn price_impact_amount_spec(
    value: i64,
    index_token_price: Price,
) -> Result<i64, Error> {
    if value > 0 {
        match to_signed_spec(index_token_price.max) {
            Err(e) => Err(e),
            Ok(price) => if price == 0 {
                Err(Error::Computation(Calc::PriceImpactAmount))
            } else {
                Ok((value / price) as i64)
            },
        }
    } else {
        computed(
            round_up_magnitude_div_spec(value, index_token_price.min),
            Calc::PriceImpactAmount,
        )
    }
}

/// Converts a price impact to an amount of index tokens.
pub fn price_impact_amount(value: i64, index_token_price: &Price) -> (r: Result<i64, Error>)
    ensures
        r == price_impact_amount_spec(value, *index_token_price),
{
    if value > 0 {
        let price = to_signed(index_token_price.pick_price(true))?;
        if price == 0 {
            Err(Error::Computation(Calc::PriceImpactAmount))
        } else {
            Ok(value / price)
        }
    } else {
        compute(
            round_up_magnitude_div(value, index_token_price.pick_price(false)),
            Calc::PriceImpactAmount,
        )
    }
}

/// The position as an increase first finds it: an empty position has no
/// tokens and takes its funding snapshots from the market, so that nothing
/// accrued before it opened is charged to it.
pub open spec fn initialize_position_if_empty_spec(market: Market, position: Position) -> Position {
    if position.size_in_usd == 0 {
        Position { size_in_tokens: 0, ..position.with_funding_snapshots(market) }
    } else {
        position
    }
}

/// The tokens of a size with its price impact: the size over the ask,
/// rounded down, plus the impact for a long position; the size over the bid,
/// rounded up, minus the impact for a short one. The asymmetry keeps the pool
/// from collecting fewer tokens than it is owed.
pub open spec fn size_delta_in_tokens_spec(
    size_delta_usd: u64,
    index_token_price: Price,
    is_long: bool,
    price_impact_amount: i64,
) -> Result<u64, Error> {
    let base = if is_long {
        if index_token_price.max == 0 {
            None
        } else {
            Some((size_delta_usd / index_token_price.max) as u64)
        }
    } else {
        round_up_div_spec(size_delta_usd, index_token_price.min)
    };
    match base {
        None => Err(Error::Computation(Calc::SizeDeltaInTokens)),
        Some(base) => computed(
            fit_unsigned(
                if is_long {
                    base + price_impact_amount
                } else {
                    base - price_impact_amount
                },
            ),
            Calc::PriceImpactLargerThanOrder,
        ),
    }
}

/// Converts a size to tokens and applies its price impact.
pub fn size_delta_in_tokens(
    size_delta_usd: u64,
    index_token_price: &Price,
    is_long: bool,
    price_impact_amount: i64,
) -> (r: Result<u64, Error>)
    ensures
        r == size_delta_in_tokens_spec(
            size_delta_usd,
            *index_token_price,
            is_long,
            price_impact_amount,
        ),
{
    // Base size delta in tokens.
    let base = if is_long {
        checked_div(size_delta_usd, index_token_price.pick_price(true))
    } else {
        checked_round_up_div(size_delta_usd, index_token_price.pick_price(false))
    };
    let base = compute(base, Calc::SizeDeltaInTokens)?;
    // Apply price impact.
    let tokens = if is_long {
        checked_add_with_signed(base, price_impact_amount)
    } else {
        checked_sub_with_signed(base, price_impact_amount)
    };
    compute(tokens, Calc::PriceImpactLargerThanOrder)
}

/// The execution params of an increase.
///
/// Without a size, nothing is impacted and the execution price is the spot
/// price of the direction. Otherwise the price impact of the size, its
/// positive part capped, is taken in tokens and applied to the tokens of the
/// size, and the execution price follows from the two sizes.
pub open spec fn execution_params_spec(
    market: Market,
    position: Position,
    params: IncreasePositionParams,
) -> Result<ExecutionParamsWithPriceImpact, Error> {
    let index_token_price = params.prices.index_token_price;
    if params.size_delta_usd == 0 {
        Ok(
            ExecutionParamsWithPriceImpact {
                execution: ExecutionParams {
                    price_impact_value: 0,
                    price_impact_amount: 0,
                    size_delta_in_tokens: 0,
                    execution_price: index_token_price.pick(position.is_long),
                },
                price_impact: PriceImpact::none(),
            },
        )
    } else {
        match to_signed_spec(params.size_delta_usd) {
            Err(e) => Err(e),
            Ok(size_delta_usd) => match capped_positive_position_price_impact_spec(
                market,
                position.is_long,
                index_token_price,
                size_delta_usd,
            ) {
                Err(e) => Err(e),
                Ok(price_impact) => match price_impact_amount_spec(
                    price_impact.value,
                    index_token_price,
                ) {
                    Err(e) => Err(e),
                    Ok(amount) => match size_delta_in_tokens_spec(
                        params.size_delta_usd,
                        index_token_price,
                        position.is_long,
                        amount,
                    ) {
                        Err(e) => Err(e),
                        Ok(tokens) => match get_execution_price_for_increase_spec(
                            params.size_delta_usd,
                            tokens,
                            params.acceptable_price,
                            position.is_long,
                        ) {
                            Err(e) => Err(e),
                            Ok(execution_price) => Ok(
                                ExecutionParamsWithPriceImpact {
                                    execution: ExecutionParams {
                                        price_impact_value: price_impact.value,
                                        price_impact_amount: amount,
                                        size_delta_in_tokens: tokens,
                                        execution_price,
                                    },
                                    price_impact,
                                },
                            ),
                        },
                    },
                },
            },
        }
    }
}

/// Computes the execution params of an increase.
pub fn get_execution_params(
    market: &Market,
    position: &Position,
    params: &IncreasePositionParams,
) -> (r: Result<ExecutionParamsWithPriceImpact, Error>)
    ensures
        r == execution_params_spec(*market, *position, *params),
{
    let index_token_price = &params.prices.index_token_price;
    if params.size_delta_usd == 0 {
        return Ok(
            ExecutionParamsWithPriceImpact {
                execution: ExecutionParams {
                    price_impact_value: 0,
                    price_impact_amount: 0,
                    size_delta_in_tokens: 0,
                    execution_price: index_token_price.pick_price(position.is_long),
                },
                price_impact: PriceImpact::default(),
            },
        );
    }
    let price_impact = capped_positive_position_price_impact(
        market,
        position.is_long,
        index_token_price,
        to_signed(params.size_delta_usd)?,
    )?;
    let price_impact_amount = price_impact_amount(price_impact.value, index_token_price)?;
    let size_delta_in_tokens = size_delta_in_tokens(
        params.size_delta_usd,
        index_token_price,
        position.is_long,
        price_impact_amount,
    )?;
    let execution_price = get_execution_price_for_increase(
        params.size_delta_usd,
        size_delta_in_tokens,
        params.acceptable_price,
        position.is_long,
    )?;
    Ok(
        ExecutionParamsWithPriceImpact {
            execution: ExecutionParams {
                price_impact_value: price_impact.value,
                price_impact_amount,
                size_delta_in_tokens,
                execution_price,
            },
            price_impact,
        },
    )
}

/// The collateral change of an increase after fees, and the fees.
pub open spec fn collateral_after_fees_spec(
    market: Market,
    position: Position,
    params: IncreasePositionParams,
    balance_change: BalanceChange,
) -> Result<(i64, PositionFees), Error> {
    match to_signed_spec(params.collateral_increment_amount) {
        Err(e) => Err(e),
        Ok(increment) => match position.position_fees_spec(
            market,
            params.prices.collateral(position.is_collateral_token_long),
            params.size_delta_usd,
            balance_change,
        ) {
            Err(e) => Err(e),
            Ok(fees) => match fees.total_cost_amount_spec() {
                Err(e) => Err(e),
                Ok(cost) => match to_signed_spec(cost) {
                    Err(e) => Err(e),
                    Ok(cost) => match fit_signed(increment - cost) {
                        None => Err(Error::Computation(Calc::CollateralFee)),
                        Some(delta) => Ok((delta, fees)),
                    },
                },
            },
        },
    }
}

/// The market after the fees of an increase are booked: the receiver's part
/// to the claimable fee pool, the pool's part to the liquidity, and the
/// collateral change after fees to the collateral sum of the side, in this
/// order and up to the first delta that is refused.
pub open spec fn process_collateral_spec(
    market: Market,
    position: Position,
    params: IncreasePositionParams,
    balance_change: BalanceChange,
) -> Step<Market, (i64, PositionFees)> {
    let token = position.is_collateral_token_long;
    match collateral_after_fees_spec(market, position, params, balance_change) {
        Err(e) => Step { state: market, result: Err(e) },
        Ok((delta, fees)) => match fees.for_receiver_spec() {
            Err(e) => Step { state: market, result: Err(e) },
            Ok(for_receiver) => match to_signed_spec(for_receiver) {
                Err(e) => Step { state: market, result: Err(e) },
                Ok(for_receiver) => {
                    let first = market.apply_delta_spec(
                        PoolKind::ClaimableFee,
                        token,
                        for_receiver,
                    );
                    if first.result is Err {
                        Step { state: first.state, result: Err(first.result->Err_0) }
                    } else {
                        match fees.for_pool_spec() {
                            Err(e) => Step { state: first.state, result: Err(e) },
                            Ok(for_pool) => match to_signed_spec(for_pool) {
                                Err(e) => Step { state: first.state, result: Err(e) },
                                Ok(for_pool) => {
                                    let booked = first.then_apply(
                                        PoolKind::Primary,
                                        token,
                                        for_pool,
                                    ).then_apply(
                                        PoolKind::collateral_sum(position.is_long),
                                        token,
                                        delta,
                                    );
                                    match booked.result {
                                        Err(e) => Step { state: booked.state, result: Err(e) },
                                        Ok(()) => Step {
                                            state: booked.state,
                                            result: Ok((delta, fees)),
                                        },
                                    }
                                },
                            },
                        }
                    }
                },
            },
        },
    }
}

/// Charges the fees of an increase and books the collateral.
pub fn process_collateral(
    market: &mut Market,
    position: &Position,
    params: &IncreasePositionParams,
    balance_change: BalanceChange,
) -> (r: Result<(i64, PositionFees), Error>)
    ensures
        (Step { state: *final(market), result: r }) == process_collateral_spec(
            *old(market),
            *position,
            *params,
            balance_change,
        ),
        old(market).wf() ==> final(market).wf(),
{
    let increment = to_signed(params.collateral_increment_amount)?;
    let collateral_price = position.collateral_price(&params.prices);
    let fees = position.position_fees(
        market,
        &collateral_price,
        params.size_delta_usd,
        balance_change,
    )?;
    let cost = to_signed(fees.total_cost_amount()?)?;
    let collateral_delta_amount = compute(
        signed_checked_sub(increment, cost),
        Calc::CollateralFee,
    )?;
    let is_collateral_token_long = position.is_collateral_token_long;
    let for_receiver = to_signed(fees.for_receiver()?)?;
    market.apply_delta(PoolKind::ClaimableFee, is_collateral_token_long, for_receiver)?;
    let for_pool = to_signed(fees.for_pool()?)?;
    market.apply_delta(PoolKind::Primary, is_collateral_token_long, for_pool)?;
    market.apply_delta(
        PoolKind::for_collateral_sum(position.is_long),
        is_collateral_token_long,
        collateral_delta_amount,
    )?;
    Ok((collateral_delta_amount, fees))
}

/// The position after a signed change of its collateral. The change is
/// refused where the amount would leave `u64`: as a `Computation` failure
/// where collateral is added, as insufficient collateral otherwise.
pub open spec fn apply_collateral_delta_spec(
    position: Position,
    delta: i64,
) -> Result<Position, Error> {
    match fit_unsigned(position.collateral_amount + delta) {
        Some(amount) => Ok(Position { collateral_amount: amount, ..position }),
        None => if delta > 0 {
            Err(Error::Computation(Calc::CollateralAmount))
        } else {
            Err(Error::InvalidArgument(Invalid::InsufficientCollateral))
        },
    }
}

/// Applies a signed change to the collateral of a position.
pub fn apply_collateral_delta(position: &mut Position, delta: i64) -> (r: Result<(), Error>)
    ensures
        match apply_collateral_delta_spec(*old(position), delta) {
            Ok(next) => r is Ok && *final(position) == next,
            Err(e) => r == Err::<(), Error>(e) && *final(position) == *old(position),
        },
{
    let is_collateral_delta_positive = delta > 0;
    match checked_add_with_signed(position.collateral_amount, delta) {
        Some(amount) => {
            position.collateral_amount = amount;
            Ok(())
        },
        None => {
            if is_collateral_delta_positive {
                Err(Error::Computation(Calc::CollateralAmount))
            } else {
                Err(Error::InvalidArgument(Invalid::InsufficientCollateral))
            }
        },
    }
}

/// The market after the negated price impact amount went to the position
/// impact pool.
pub open spec fn apply_position_impact_spec(
    market: Market,
    price_impact_amount: i64,
) -> Step<Market, ()> {
    if price_impact_amount == i64::MIN {
        Step { state: market, result: Err(Error::Computation(Calc::PositionImpactPoolDelta)) }
    } else {
        market.apply_delta_spec(PoolKind::PositionImpact, true, (-price_impact_amount) as i64)
    }
}

/// Books the price impact of a size change to the position impact pool.
pub fn apply_position_impact(
    market: &mut Market,
    price_impact_amount: i64,
) -> (r: Result<(), Error>)
    ensures
        (Step { state: *final(market), result: r }) == apply_position_impact_spec(
            *old(market),
            price_impact_amount,
        ),
        r is Err ==> *final(market) == *old(market),
        old(market).wf() ==> final(market).wf(),
{
    let delta = compute(signed_checked_neg(price_impact_amount), Calc::PositionImpactPoolDelta)?;
    market.apply_delta(PoolKind::PositionImpact, true, delta)
}

/// The market and the position after the size of the position grew.
///
/// The total borrowing of the side is brought to the new size first, against
/// the position as it was; then the size in USD, the size in tokens and the
/// snapshots of the funding and borrowing state follow, in this order and up
/// to the first step that fails.
pub open spec fn roll_size_forward_spec(
    state: State,
    size_delta_usd: u64,
    size_delta_in_tokens: u64,
) -> Step<State, ()> {
    let market = state.market;
    let position = state.position;
    match fit_unsigned(position.size_in_usd + size_delta_usd) {
        None => Step { state, result: Err(Error::Computation(Calc::SizeInUsd)) },
        Some(next_size_in_usd) => match market.cumulative_borrowing_factor_spec(position.is_long) {
            Err(e) => Step { state, result: Err(e) },
            Ok(next_borrowing_factor) => {
                let borrowed = update_total_borrowing_spec(
                    market,
                    position,
                    next_size_in_usd,
                    next_borrowing_factor,
                );
                if borrowed.result is Err {
                    Step {
                        state: State { market: borrowed.state, position },
                        result: Err(borrowed.result->Err_0),
                    }
                } else {
                    let sized = Position { size_in_usd: next_size_in_usd, ..position };
                    match fit_unsigned(sized.size_in_tokens + size_delta_in_tokens) {
                        None => Step {
                            state: State { market: borrowed.state, position: sized },
                            result: Err(Error::Computation(Calc::SizeInTokens)),
                        },
                        Some(next_size_in_tokens) => Step {
                            state: State {
                                market: borrowed.state,
                                position: Position {
                                    size_in_tokens: next_size_in_tokens,
                                    borrowing_factor: next_borrowing_factor,
                                    ..sized.with_funding_snapshots(borrowed.state)
                                },
                            },
                            result: Ok(()),
                        },
                    }
                }
            },
        },
    }
}

/// Rolls the size of a position forward.
pub fn roll_size_forward(
    market: &mut Market,
    position: &mut Position,
    size_delta_usd: u64,
    size_delta_in_tokens: u64,
) -> (r: Result<(), Error>)
    ensures
        (Step { state: State { market: *final(market), position: *final(position) }, result: r })
            == roll_size_forward_spec(
            State { market: *old(market), position: *old(position) },
            size_delta_usd,
            size_delta_in_tokens,
        ),
        old(market).wf() ==> final(market).wf(),
        r is Ok ==> final(position).size_in_usd == old(position).size_in_usd + size_delta_usd,
{
    let next_position_size_in_usd = compute(
        checked_add(position.size_in_usd, size_delta_usd),
        Calc::SizeInUsd,
    )?;
    let next_position_borrowing_factor = market.cumulative_borrowing_factor(position.is_long)?;
    // Update total borrowing before updating position size.
    update_total_borrowing(
        market,
        position,
        next_position_size_in_usd,
        next_position_borrowing_factor,
    )?;
    // Update sizes.
    position.size_in_usd = next_position_size_in_usd;
    position.size_in_tokens = compute(
        checked_add(position.size_in_tokens, size_delta_in_tokens),
        Calc::SizeInTokens,
    )?;
    // Update funding fees state.
    position.refresh_funding_snapshots(market);
    // Update borrowing fee state.
    position.borrowing_factor = next_position_borrowing_factor;
    Ok(())
}

/// What must hold of the market and the position after an increase: with a
/// size, the reserve and the open interest reserve of the side hold and the
/// collateral covers the size; in any case the position is valid.
pub open spec fn validate_after_increase_spec(
    state: State,
    params: IncreasePositionParams,
) -> Result<(), Error> {
    let market = state.market;
    let position = state.position;
    if params.size_delta_usd == 0 {
        position.validate_spec(market, params.prices, true, true)
    } else {
        match market.validate_reserve_spec(params.prices, position.is_long) {
            Err(e) => Err(e),
            Ok(()) => match market.validate_open_interest_reserve_spec(
                params.prices,
                position.is_long,
            ) {
                Err(e) => Err(e),
                Ok(()) => match position.will_collateral_be_sufficient_spec(
                    market,
                    params.prices,
                    position.size_in_usd,
                    position.collateral_amount,
                ) {
                    Err(e) => Err(e),
                    Ok(sufficient) => if !sufficient {
                        Err(Error::InvalidArgument(Invalid::InsufficientCollateralUsd))
                    } else {
                        position.validate_spec(market, params.prices, true, true)
                    },
                },
            },
        }
    }
}

/// Validates the market and the position after an increase.
pub fn validate_after_increase(
    market: &Market,
    position: &Position,
    params: &IncreasePositionParams,
) -> (r: Result<(), Error>)
    ensures
        r == validate_after_increase_spec(State { market: *market, position: *position }, *params),
{
    if params.size_delta_usd != 0 {
        market.validate_reserve(&params.prices, position.is_long)?;
        market.validate_open_interest_reserve(&params.prices, position.is_long)?;
        let will_collateral_be_sufficient = position.will_collateral_be_sufficient(
            market,
            &params.prices,
            position.size_in_usd,
            position.collateral_amount,
        )?;
        if !will_collateral_be_sufficient {
            return Err(Error::InvalidArgument(Invalid::InsufficientCollateralUsd));
        }
    }
    position.validate(market, &params.prices, true, true)
}

/// The market and the position after the collateral change, the price
/// impact, the size and the open interest of an increase are committed, in
/// this order and up to the first step that fails.
pub open spec fn commit_increase_spec(
    state: State,
    params: IncreasePositionParams,
    execution: ExecutionParams,
    collateral_delta_amount: i64,
) -> Step<State, ()> {
    match apply_collateral_delta_spec(state.position, collateral_delta_amount) {
        Err(e) => Step { state, result: Err(e) },
        Ok(funded) => {
            let impacted = apply_position_impact_spec(state.market, execution.price_impact_amount);
            if impacted.result is Err {
                Step {
                    state: State { market: impacted.state, position: funded },
                    result: Err(impacted.result->Err_0),
                }
            } else {
                let rolled = roll_size_forward_spec(
                    State { market: impacted.state, position: funded },
                    params.size_delta_usd,
                    execution.size_delta_in_tokens,
                );
                if rolled.result is Err {
                    rolled
                } else if to_signed_spec(params.size_delta_usd) is Err || to_signed_spec(
                    execution.size_delta_in_tokens,
                ) is Err {
                    Step { state: rolled.state, result: Err(Error::Convert) }
                } else {
                    let opened = update_open_interest_spec(
                        rolled.state.market,
                        rolled.state.position,
                        params.size_delta_usd as i64,
                        execution.size_delta_in_tokens as i64,
                    );
                    Step {
                        state: State { market: opened.state, position: rolled.state.position },
                        result: opened.result,
                    }
                }
            }
        },
    }
}

/// Commits an increase to the market and the position.
pub fn commit_increase(
    market: &mut Market,
    position: &mut Position,
    params: &IncreasePositionParams,
    execution: &ExecutionParams,
    collateral_delta_amount: i64,
) -> (r: Result<(), Error>)
    ensures
        (Step { state: State { market: *final(market), position: *final(position) }, result: r })
            == commit_increase_spec(
            State { market: *old(market), position: *old(position) },
            *params,
            *execution,
            collateral_delta_amount,
        ),
        old(market).wf() ==> final(market).wf(),
        r is Ok ==> final(position).size_in_usd == old(position).size_in_usd
            + params.size_delta_usd,
{
    apply_collateral_delta(position, collateral_delta_amount)?;
    apply_position_impact(market, execution.price_impact_amount)?;
    roll_size_forward(market, position, params.size_delta_usd, execution.size_delta_in_tokens)?;
    let size_delta_usd = to_signed(params.size_delta_usd);
    let size_delta_in_tokens = to_signed(execution.size_delta_in_tokens);
    update_open_interest(market, position, size_delta_usd?, size_delta_in_tokens?)
}

/// What an increase does to a market and a position, and what it returns.
///
/// The position is initialized if it is empty; the execution params are
/// computed; the fees are charged and the collateral booked; the change is
/// committed; the outcome is validated. The action stops at the first step
/// that fails and leaves behind what was applied before: the caller must
/// then discard the market and the position.
pub open spec fn increase_spec(
    market: Market,
    position: Position,
    params: IncreasePositionParams,
) -> Step<State, IncreasePositionReport> {
    let initialized = initialize_position_if_empty_spec(market, position);
    match execution_params_spec(market, initialized, params) {
        Err(e) => Step { state: State { market, position: initialized }, result: Err(e) },
        Ok(with_impact) => {
            let charged = process_collateral_spec(
                market,
                initialized,
                params,
                with_impact.price_impact.balance_change,
            );
            match charged.result {
                Err(e) => Step {
                    state: State { market: charged.state, position: initialized },
                    result: Err(e),
                },
                Ok((collateral_delta_amount, fees)) => {
                    let committed = commit_increase_spec(
                        State { market: charged.state, position: initialized },
                        params,
                        with_impact.execution,
                        collateral_delta_amount,
                    );
                    if committed.result is Err {
                        Step { state: committed.state, result: Err(committed.result->Err_0) }
                    } else {
                        match validate_after_increase_spec(committed.state, params) {
                            Err(e) => Step { state: committed.state, result: Err(e) },
                            Ok(()) => Step {
                                state: committed.state,
                                result: Ok(
                                    IncreasePositionReport::new_spec(
                                        params,
                                        with_impact.execution,
                                        collateral_delta_amount,
                                        fees,
                                    ),
                                ),
                            },
                        }
                    }
                },
            }
        },
    }
}

impl<'a> PositionOps<'a> {
    /// Create an action to increase the position.
    pub fn increase(
        self,
        prices: Prices,
        collateral_increment_amount: u64,
        size_delta_usd: u64,
        acceptable_price: Option<u64>,
    ) -> (r: Result<IncreasePosition<'a>, Error>)
        ensures
            prices.valid() <==> r is Ok,
            r matches Ok(action) ==> action.position == self && action.params == (
            IncreasePositionParams {
                collateral_increment_amount,
                size_delta_usd,
                acceptable_price,
                prices,
            }),
            r matches Err(e) ==> e == Error::InvalidArgument(Invalid::Prices),
            r is Err ==> *final(self.market) == *old(self.market),
            r is Err ==> *final(self.position) == *old(self.position),
    {
        IncreasePosition::try_new(
            self,
            prices,
            collateral_increment_amount,
            size_delta_usd,
            acceptable_price,
        )
    }
}

impl<'a> IncreasePosition<'a> {
    /// Create a new action to increase the given position.
    pub fn try_new(
        position: PositionOps<'a>,
        prices: Prices,
        collateral_increment_amount: u64,
        size_delta_usd: u64,
        acceptable_price: Option<u64>,
    ) -> (r: Result<Self, Error>)
        ensures
            prices.valid() <==> r is Ok,
            r matches Ok(action) ==> action.position == position && action.params == (
            IncreasePositionParams {
                collateral_increment_amount,
                size_delta_usd,
                acceptable_price,
                prices,
            }),
            r matches Err(e) ==> e == Error::InvalidArgument(Invalid::Prices),
            r is Err ==> *final(position.market) == *old(position.market),
            r is Err ==> *final(position.position) == *old(position.position),
    {
        if !prices.is_valid() {
            return Err(Error::InvalidArgument(Invalid::Prices));
        }
        Ok(
            IncreasePosition {
                position,
                params: IncreasePositionParams {
                    collateral_increment_amount,
                    size_delta_usd,
                    acceptable_price,
                    prices,
                },
            },
        )
    }

    /// Executes the increase on the market and the position. On an error
    /// they hold what was applied before the step that failed.
    pub fn execute(self) -> (r: Result<IncreasePositionReport, Error>)
        ensures
            (Step {
                state: State {
                    market: *final(self.position.market),
                    position: *final(self.position.position),
                },
                result: r,
            }) == increase_spec(
                *old(self.position.market),
                *old(self.position.position),
                self.params,
            ),
            old(self.position.market).wf() ==> final(self.position.market).wf(),
            r is Ok ==> final(self.position.position).wf(),
            r is Ok ==> final(self.position.position).size_in_usd
                == old(self.position.position).size_in_usd + self.params.size_delta_usd,
    {
        let IncreasePosition { position: PositionOps { market, position }, params } = self;
        execute_increase(market, position, params)
    }

    /// Executes the increase on a copy of the market and the position, and
    /// keeps the copy only if the increase went through: an increase that
    /// fails leaves both as they were.
    pub fn execute_atomically(self) -> (r: Result<IncreasePositionReport, Error>)
        ensures
            r == increase_spec(
                *old(self.position.market),
                *old(self.position.position),
                self.params,
            ).result,
            r is Ok ==> (State {
                market: *final(self.position.market),
                position: *final(self.position.position),
            }) == increase_spec(
                *old(self.position.market),
                *old(self.position.position),
                self.params,
            ).state,
            r is Err ==> *final(self.position.market) == *old(self.position.market),
            r is Err ==> *final(self.position.position) == *old(self.position.position),
    {
        let IncreasePosition { position: PositionOps { market, position }, params } = self;
        let mut next_market = *market;
        let mut next_position = *position;
        let report = execute_increase(&mut next_market, &mut next_position, params)?;
        *market = next_market;
        *position = next_position;
        Ok(report)
    }
}

/// Executes an increase on a market and a position.
pub fn execute_increase(
    market: &mut Market,
    position: &mut Position,
    params: IncreasePositionParams,
) -> (r: Result<IncreasePositionReport, Error>)
    ensures
        (Step { state: State { market: *final(market), position: *final(position) }, result: r })
            == increase_spec(*old(market), *old(position), params),
        old(market).wf() ==> final(market).wf(),
        r is Ok ==> final(position).wf(),
        r is Ok ==> final(position).size_in_usd == old(position).size_in_usd
            + params.size_delta_usd,
{
    initialize_position_if_empty(position, market);
    let ExecutionParamsWithPriceImpact { execution, price_impact } = get_execution_params(
        market,
        position,
        &params,
    )?;
    let (collateral_delta_amount, fees) = process_collateral(
        market,
        position,
        &params,
        price_impact.balance_change,
    )?;
    commit_increase(market, position, &params, &execution, collateral_delta_amount)?;
    validate_after_increase(market, position, &params)?;
    Ok(IncreasePositionReport::new(params, execution, collateral_delta_amount, fees))
}

/// Initializes an empty position from the market.
pub fn initialize_position_if_empty(position: &mut Position, market: &Market)
    ensures
        *final(position) == initialize_position_if_empty_spec(*market, *old(position)),
{
    if position.size_in_usd == 0 {
        // Ensure that the size in tokens is initialized to zero.
        position.size_in_tokens = 0;
        position.refresh_funding_snapshots(market);
    }
}

} // verus!
