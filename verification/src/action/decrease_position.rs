//! Decreasing a position.

use vstd::prelude::*;
use crate::error::{Calc, Error, Invalid, Step, compute, computed};
use crate::fees::PositionFees;
use crate::market::{Market, PoolKind};
use crate::num::{checked_add, checked_mul_div, checked_sub, div_ceil, fit_unsigned, lemma_div_ceil,
    magnitude, mul_div_spec, to_opposite_signed, to_opposite_signed_spec, to_signed, unsigned_abs};
use crate::position::{Pnl, Position, PositionOps, State, update_open_interest,
    update_open_interest_spec, update_total_borrowing, update_total_borrowing_spec};
use crate::price::{Price, Prices};
use crate::price_impact::{PriceImpact, cap_negative_impact, cap_negative_impact_spec,
    capped_positive_position_price_impact, capped_positive_position_price_impact_spec};

verus! {

/// How a decrease treats a position that cannot pay what it owes.
#[derive(Clone, Copy, Debug, PartialEq, Eq, Structural)]
pub struct DecreasePositionFlags {
    /// Close the position although its collateral does not cover its costs:
    /// the pool then takes all the collateral.
    pub is_insolvent_close_allowed: bool,
}

impl Default for DecreasePositionFlags {
    fn default() -> (r: Self)
        ensures
            r == (DecreasePositionFlags { is_insolvent_close_allowed: false }),
    {
        DecreasePositionFlags { is_insolvent_close_allowed: false }
    }
}

/// Decrease Position Params.
#[derive(Clone, Copy, Debug, PartialEq, Eq, Structural)]
pub struct DecreasePositionParams {
    pub prices: Prices,
    pub initial_size_delta_usd: u64,
    pub acceptable_price: Option<u64>,
    pub initial_collateral_withdrawal_amount: u64,
    pub flags: DecreasePositionFlags,
}

/// Decrease the position.
#[must_use]
pub struct DecreasePosition<'a> {
    pub position: PositionOps<'a>,
    pub params: DecreasePositionParams,
}

/// What a decrease left of the position.
#[derive(Clone, Copy, Debug, PartialEq, Eq, Structural)]
pub enum Closure {
    /// The position stays open with a smaller size.
    Partial { remaining_size_in_usd: u64, remaining_collateral_amount: u64 },
    /// The position is closed: all that was left of its collateral is paid out.
    Full,
}

/// Where the collateral of a decreased position goes.
#[derive(Clone, Copy, Debug, PartialEq, Eq, Structural)]
pub struct Settlement {
    /// What stays with the position.
    pub remaining_collateral_amount: u64,
    /// What is paid out in collateral tokens.
    pub output_amount: u64,
    /// What is paid out in the token of the side, where that is not the collateral token.
    pub secondary_output_amount: u64,
    /// What the liquidity pays in the token of the side: profit and positive impact.
    pub from_pool_amount: u64,
    /// What the liquidity receives in collateral tokens: fees, loss and negative impact.
    pub for_pool_amount: u64,
    /// What the fee receiver may claim in collateral tokens.
    pub for_receiver_amount: u64,
    /// The change of the position impact pool in index tokens.
    pub impact_pool_delta: i64,
    /// Whether the collateral did not cover the costs.
    pub is_insolvent_close: bool,
}

/// Report of the execution of position decreasing.
#[must_use]
#[derive(Clone, Copy, Debug, PartialEq, Eq, Structural)]
pub struct DecreasePositionReport {
    pub params: DecreasePositionParams,
    /// The size that was closed: the size asked for, capped at the position's.
    pub size_delta_usd: u64,
    pub size_delta_in_tokens: u64,
    pub price_impact_value: i64,
    pub execution_price: u64,
    /// The realized profit (positive) or loss.
    pub pnl: i64,
    pub fees: PositionFees,
    pub settlement: Settlement,
    pub closure: Closure,
    /// Output amounts that must be processed.
    pub claimable_funding_long_token_amount: u64,
    pub claimable_funding_short_token_amount: u64,
}

impl DecreasePositionReport {
    /// Whether the position was closed.
    pub fn should_remove(&self) -> (r: bool)
        ensures
            r == (self.closure is Full),
    {
        match self.closure {
            Closure::Full => true,
            Closure::Partial { .. } => false,
        }
    }

    /// Get claimable funding amounts, returns `(long_amount, short_amount)`.
    #[must_use]
    pub fn claimable_funding_amounts(&self) -> (r: (&u64, &u64))
        ensures
            *r.0 == self.claimable_funding_long_token_amount,
            *r.1 == self.claimable_funding_short_token_amount,
    {
        (&self.claimable_funding_long_token_amount, &self.claimable_funding_short_token_amount)
    }

    /// Get the output amounts, returns `(collateral_token_amount, side_token_amount)`.
    #[must_use]
    pub fn output_amounts(&self) -> (r: (u64, u64))
        ensures
            r == (self.settlement.output_amount, self.settlement.secondary_output_amount),
    {
        (self.settlement.output_amount, self.settlement.secondary_output_amount)
    }
}

/// The size that a decrease closes: the size asked for, capped at the size
/// of the position.
pub open spec fn resolved_size_delta_spec(
    position: Position,
    params: DecreasePositionParams,
) -> u64 {
    if params.initial_size_delta_usd >= position.size_in_usd {
        position.size_in_usd
    } else {
        params.initial_size_delta_usd
    }
}

/// The execution price of a decrease: the spot price of the direction,
/// moved by the price impact per token of the size that is closed. A
/// negative impact on a long position and a positive one on a short position
/// lower the price, and may not be larger than the size; the other impacts
/// raise it. With an acceptable price, a long order is refused below it and
/// a short order above it.
pub open spec fn get_execution_price_for_decrease_spec(
    index_token_price: Price,
    size_in_usd: u64,
    size_in_tokens: u64,
    size_delta_usd: u64,
    price_impact_value: i64,
    acceptable_price: Option<u64>,
    is_long: bool,
) -> Result<u64, Error> {
    let spot = index_token_price.pick(!is_long);
    let moved: Result<u64, Error> = if size_delta_usd == 0 || size_in_tokens == 0 {
        Ok(spot)
    } else {
        let lowers = if is_long { price_impact_value < 0 } else { price_impact_value > 0 };
        let impact = magnitude(price_impact_value as int) as u64;
        if lowers && impact > size_delta_usd {
            Err(Error::Computation(Calc::PriceImpactLargerThanOrder))
        } else {
            match mul_div_spec(size_in_usd, impact, size_in_tokens) {
                None => Err(Error::Computation(Calc::ExecutionPrice)),
                Some(per_token) => computed(
                    fit_unsigned(
                        if lowers {
                            spot - (per_token as int) / (size_delta_usd as int)
                        } else {
                            spot + (per_token as int) / (size_delta_usd as int)
                        },
                    ),
                    Calc::ExecutionPrice,
                ),
            }
        }
    };
    match moved {
        Err(e) => Err(e),
        Ok(execution_price) => if acceptable_price is None || (is_long && execution_price
            >= acceptable_price->0) || (!is_long && execution_price <= acceptable_price->0) {
            Ok(execution_price)
        } else {
            Err(Error::InvalidArgument(Invalid::NotFulfillable))
        },
    }
}

/// Computes the execution price of a decrease and holds it against the
/// acceptable price.
pub fn get_execution_price_for_decrease(
    index_token_price: &Price,
    size_in_usd: u64,
    size_in_tokens: u64,
    size_delta_usd: u64,
    price_impact_value: i64,
    acceptable_price: Option<u64>,
    is_long: bool,
) -> (r: Result<u64, Error>)
    ensures
        r == get_execution_price_for_decrease_spec(
            *index_token_price,
            size_in_usd,
            size_in_tokens,
            size_delta_usd,
            price_impact_value,
            acceptable_price,
            is_long,
        ),
{
    let spot = index_token_price.pick_price(!is_long);
    let execution_price = if size_delta_usd == 0 || size_in_tokens == 0 {
        spot
    } else {
        let lowers = if is_long { price_impact_value < 0 } else { price_impact_value > 0 };
        let impact = unsigned_abs(price_impact_value);
        if lowers && impact > size_delta_usd {
            return Err(Error::Computation(Calc::PriceImpactLargerThanOrder));
        }
        let per_token = compute(
            checked_mul_div(size_in_usd, impact, size_in_tokens),
            Calc::ExecutionPrice,
        )?;
        let adjustment = per_token / size_delta_usd;
        let moved = if lowers {
            checked_sub(spot, adjustment)
        } else {
            checked_add(spot, adjustment)
        };
        compute(moved, Calc::ExecutionPrice)?
    };
    let acceptable_price = match acceptable_price {
        Some(price) => price,
        None => {
            return Ok(execution_price);
        },
    };
    if (is_long && execution_price >= acceptable_price) || (!is_long && execution_price
        <= acceptable_price) {
        Ok(execution_price)
    } else {
        Err(Error::InvalidArgument(Invalid::NotFulfillable))
    }
}

/// The capped price impact of closing a size of a position, and the
/// execution price that follows from it.
pub open spec fn decrease_execution_spec(
    market: Market,
    position: Position,
    params: DecreasePositionParams,
    size_delta_usd: u64,
) -> Result<(PriceImpact, u64), Error> {
    match to_opposite_signed_spec(size_delta_usd) {
        Err(e) => Err(e),
        Ok(signed_delta) => match capped_positive_position_price_impact_spec(
            market,
            position.is_long,
            params.prices.index_token_price,
            signed_delta,
        ) {
            Err(e) => Err(e),
            Ok(capped) => match cap_negative_impact_spec(market, signed_delta, capped.value) {
                Err(e) => Err(e),
                Ok(value) => match get_execution_price_for_decrease_spec(
                    params.prices.index_token_price,
                    position.size_in_usd,
                    position.size_in_tokens,
                    size_delta_usd,
                    value,
                    params.acceptable_price,
                    position.is_long,
                ) {
                    Err(e) => Err(e),
                    Ok(execution_price) => Ok(
                        (
                            PriceImpact { value, balance_change: capped.balance_change },
                            execution_price,
                        ),
                    ),
                },
            },
        },
    }
}

/// Computes the price impact and the execution price of a decrease.
pub fn decrease_execution(
    market: &Market,
    position: &Position,
    params: &DecreasePositionParams,
    size_delta_usd: u64,
) -> (r: Result<(PriceImpact, u64), Error>)
    ensures
        r == decrease_execution_spec(*market, *position, *params, size_delta_usd),
{
    let signed_delta = to_opposite_signed(size_delta_usd)?;
    let capped = capped_positive_position_price_impact(
        market,
        position.is_long,
        &params.prices.index_token_price,
        signed_delta,
    )?;
    let value = cap_negative_impact(market, signed_delta, capped.value)?;
    let execution_price = get_execution_price_for_decrease(
        &params.prices.index_token_price,
        position.size_in_usd,
        position.size_in_tokens,
        size_delta_usd,
        value,
        params.acceptable_price,
        position.is_long,
    )?;
    Ok((PriceImpact { value, balance_change: capped.balance_change }, execution_price))
}

/// What a decrease moves between the position and the pools, in tokens.
#[derive(Clone, Copy, Debug, PartialEq, Eq, Structural)]
pub struct Payables {
    /// The profit, in the token of the side.
    pub profit: u64,
    /// The positive price impact, in the token of the side.
    pub bonus: u64,
    /// The loss, in collateral tokens.
    pub loss: u64,
    /// The negative price impact, in collateral tokens.
    pub penalty: u64,
    /// The change of the position impact pool, in index tokens.
    pub impact_pool_delta: i64,
}

/// What a profit or loss and a price impact come to in tokens.
///
/// The liquidity pays profit and positive impact in the token of the side,
/// at its ask and rounded down. The collateral pays loss and negative impact
/// at the bid of the collateral token, rounded up. The position impact pool
/// pays a positive impact at the bid of the index token, rounded up, and
/// receives a negative one at its ask, rounded down. A zero price, or a
/// profit, loss or impact of `i64::MIN`, which has no magnitude in `i64`,
/// is refused.
pub open spec fn payables_spec(
    position: Position,
    prices: Prices,
    pnl: i64,
    price_impact_value: i64,
) -> Result<Payables, Error> {
    let collateral_price = prices.collateral(position.is_collateral_token_long);
    let side_price = prices.collateral(position.is_long);
    let index_price = prices.index_token_price;
    if side_price.max == 0 || collateral_price.min == 0 || index_price.min == 0 || index_price.max
        == 0 || pnl == i64::MIN || price_impact_value == i64::MIN {
        Err(Error::Computation(Calc::Output))
    } else {
        Ok(
            Payables {
                profit: if pnl > 0 { ((pnl as int) / (side_price.max as int)) as u64 } else { 0 },
                bonus: if price_impact_value > 0 {
                    ((price_impact_value as int) / (side_price.max as int)) as u64
                } else {
                    0
                },
                loss: if pnl < 0 { div_ceil(-pnl, collateral_price.min as int) as u64 } else { 0 },
                penalty: if price_impact_value < 0 {
                    div_ceil(-price_impact_value, collateral_price.min as int) as u64
                } else {
                    0
                },
                impact_pool_delta: if price_impact_value > 0 {
                    (-div_ceil(price_impact_value as int, index_price.min as int)) as i64
                } else {
                    ((-(price_impact_value as int)) / (index_price.max as int)) as i64
                },
            },
        )
    }
}

/// Where the collateral of a decreased position goes.
///
/// The collateral pays the fees, the loss and the negative impact. Where it
/// does not cover them, the decrease is refused, or, where an insolvent
/// close is allowed, the liquidity takes all the collateral and nothing goes
/// to the fee receiver. Of what is left, a full close pays out all and a
/// partial close the withdrawal asked for, as far as it goes. What the
/// liquidity pays is paid out with the collateral where the token of the
/// side is the collateral token, and beside it otherwise.
pub open spec fn settlement_spec(
    position: Position,
    params: DecreasePositionParams,
    is_full_close: bool,
    payables: Payables,
    fees: PositionFees,
) -> Result<Settlement, Error> {
    match fees.total_cost_amount_spec() {
        Err(e) => Err(e),
        Ok(cost) => match fees.for_receiver_spec() {
            Err(e) => Err(e),
            Ok(for_receiver) => match fees.for_pool_spec() {
                Err(e) => Err(e),
                Ok(fees_for_pool) => {
                    let owed = cost + payables.loss + payables.penalty;
                    let insolvent = owed > position.collateral_amount;
                    let left = if insolvent { 0 } else { position.collateral_amount - owed };
                    let payout = if is_full_close || params.initial_collateral_withdrawal_amount
                        >= left {
                        left
                    } else {
                        params.initial_collateral_withdrawal_amount as int
                    };
                    let from_pool = payables.profit + payables.bonus;
                    let same_token = position.is_long == position.is_collateral_token_long;
                    let output = if same_token { payout + from_pool } else { payout };
                    if insolvent && !params.flags.is_insolvent_close_allowed {
                        Err(Error::InvalidArgument(Invalid::InsufficientCollateral))
                    } else if output > u64::MAX || from_pool > u64::MAX {
                        Err(Error::Computation(Calc::Output))
                    } else {
                        Ok(
                            Settlement {
                                remaining_collateral_amount: (left - payout) as u64,
                                output_amount: output as u64,
                                secondary_output_amount: if same_token {
                                    0
                                } else {
                                    from_pool as u64
                                },
                                from_pool_amount: from_pool as u64,
                                for_pool_amount: if insolvent {
                                    position.collateral_amount
                                } else {
                                    (fees_for_pool + payables.loss + payables.penalty) as u64
                                },
                                for_receiver_amount: if insolvent { 0 } else { for_receiver },
                                impact_pool_delta: payables.impact_pool_delta,
                                is_insolvent_close: insolvent,
                            },
                        )
                    }
                },
            },
        },
    }
}

/// A non-negative signed value over a price, rounded down or up.
fn value_to_amount(value: i64, price: u64, round_up: bool) -> (r: u64)
    requires
        value >= 0,
        price != 0,
    ensures
        r == (if round_up {
            div_ceil(value as int, price as int)
        } else {
            (value as int) / (price as int)
        }),
        r <= value,
{
    proof {
        lemma_div_ceil(value as int, price as int);
    }
    let value = value as u64;
    if round_up {
        if value % price == 0 { value / price } else { value / price + 1 }
    } else {
        value / price
    }
}

/// Converts the profit or loss and the price impact of a decrease to tokens.
pub fn payables(
    position: &Position,
    prices: &Prices,
    pnl: i64,
    price_impact_value: i64,
) -> (r: Result<Payables, Error>)
    ensures
        r == payables_spec(*position, *prices, pnl, price_impact_value),
{
    let collateral_price = position.collateral_price(prices).pick_price(false);
    let side_price = prices.collateral_token_price(position.is_long).pick_price(true);
    let index_price = &prices.index_token_price;
    if side_price == 0 || collateral_price == 0 || index_price.min == 0 || index_price.max == 0
        || pnl == i64::MIN || price_impact_value == i64::MIN {
        return Err(Error::Computation(Calc::Output));
    }
    let profit: u64 = if pnl > 0 { value_to_amount(pnl, side_price, false) } else { 0 };
    let bonus: u64 = if price_impact_value > 0 {
        value_to_amount(price_impact_value, side_price, false)
    } else {
        0
    };
    let loss: u64 = if pnl < 0 { negated_to_amount(pnl, collateral_price, true) } else { 0 };
    let penalty: u64 = if price_impact_value < 0 {
        negated_to_amount(price_impact_value, collateral_price, true)
    } else {
        0
    };
    let impact_pool_delta: i64 = if price_impact_value > 0 {
        -(value_to_amount(price_impact_value, index_price.min, true) as i64)
    } else {
        negated_to_amount(price_impact_value, index_price.max, false) as i64
    };
    Ok(Payables { profit, bonus, loss, penalty, impact_pool_delta })
}

/// Decides where the collateral of a decreased position goes.
pub fn settle(
    position: &Position,
    params: &DecreasePositionParams,
    is_full_close: bool,
    payables: &Payables,
    fees: &PositionFees,
) -> (r: Result<Settlement, Error>)
    ensures
        r == settlement_spec(*position, *params, is_full_close, *payables, *fees),
{
    let cost = fees.total_cost_amount()?;
    let for_receiver = fees.for_receiver()?;
    let fees_for_pool = fees.for_pool()?;
    let owed: u128 = (cost as u128) + (payables.loss as u128) + (payables.penalty as u128);
    let insolvent = owed > (position.collateral_amount as u128);
    let left: u64 = if insolvent { 0 } else { (position.collateral_amount as u128 - owed) as u64 };
    let payout: u64 = if is_full_close || params.initial_collateral_withdrawal_amount >= left {
        left
    } else {
        params.initial_collateral_withdrawal_amount
    };
    let same_token = position.is_long == position.is_collateral_token_long;
    if insolvent && !params.flags.is_insolvent_close_allowed {
        return Err(Error::InvalidArgument(Invalid::InsufficientCollateral));
    }
    let from_pool = compute(checked_add(payables.profit, payables.bonus), Calc::Output);
    let output = match from_pool {
        Ok(from_pool) => if same_token { checked_add(payout, from_pool) } else { Some(payout) },
        Err(_) => None,
    };
    let output = compute(output, Calc::Output)?;
    let from_pool = from_pool?;
    Ok(
        Settlement {
            remaining_collateral_amount: left - payout,
            output_amount: output,
            secondary_output_amount: if same_token { 0 } else { from_pool },
            from_pool_amount: from_pool,
            for_pool_amount: if insolvent {
                position.collateral_amount
            } else {
                ((fees_for_pool as u128) + (payables.loss as u128) + (payables.penalty as u128))
                    as u64
            },
            for_receiver_amount: if insolvent { 0 } else { for_receiver },
            impact_pool_delta: payables.impact_pool_delta,
            is_insolvent_close: insolvent,
        },
    )
}

/// The magnitude of a non-positive signed value over a price, rounded down or up.
fn negated_to_amount(value: i64, price: u64, round_up: bool) -> (r: u64)
    requires
        i64::MIN < value <= 0,
        price != 0,
    ensures
        r == (if round_up {
            div_ceil(-(value as int), price as int)
        } else {
            (-(value as int)) / (price as int)
        }),
        r <= -(value as int),
{
    proof {
        lemma_div_ceil(-(value as int), price as int);
    }
    let value = unsigned_abs(value);
    if round_up {
        if value % price == 0 { value / price } else { value / price + 1 }
    } else {
        value / price
    }
}

/// The signed deltas that a settlement applies to the pools of a market, or
/// `Convert` where one of them does not fit `i64`.
pub open spec fn settlement_deltas_spec(
    position: Position,
    settlement: Settlement,
) -> Result<(i64, i64, i64, i64), Error> {
    let taken = position.collateral_amount - settlement.remaining_collateral_amount;
    if settlement.from_pool_amount > i64::MAX || settlement.for_receiver_amount > i64::MAX
        || settlement.for_pool_amount > i64::MAX || taken > i64::MAX || taken < 0 {
        Err(Error::Convert)
    } else {
        Ok(
            (
                (-(settlement.from_pool_amount as int)) as i64,
                settlement.for_receiver_amount as i64,
                settlement.for_pool_amount as i64,
                (-taken) as i64,
            ),
        )
    }
}

/// The market after a settlement: the liquidity pays in the token of the
/// side, the position impact pool changes, the fee receiver's and the
/// liquidity's part are booked in collateral tokens, and the collateral sum
/// of the side loses what left the position; in this order and up to the
/// first delta that is refused.
pub open spec fn apply_settlement_spec(
    market: Market,
    position: Position,
    settlement: Settlement,
) -> Step<Market, ()> {
    let token = position.is_collateral_token_long;
    match settlement_deltas_spec(position, settlement) {
        Err(e) => Step { state: market, result: Err(e) },
        Ok((from_pool, for_receiver, for_pool, taken)) => market.apply_delta_spec(
            PoolKind::Primary,
            position.is_long,
            from_pool,
        ).then_apply(PoolKind::PositionImpact, true, settlement.impact_pool_delta).then_apply(
            PoolKind::ClaimableFee,
            token,
            for_receiver,
        ).then_apply(PoolKind::Primary, token, for_pool).then_apply(
            PoolKind::collateral_sum(position.is_long),
            token,
            taken,
        ),
    }
}

/// Applies a settlement to the pools of a market.
pub fn apply_settlement(
    market: &mut Market,
    position: &Position,
    settlement: &Settlement,
) -> (r: Result<(), Error>)
    ensures
        (Step { state: *final(market), result: r }) == apply_settlement_spec(
            *old(market),
            *position,
            *settlement,
        ),
        old(market).wf() ==> final(market).wf(),
{
    let token = position.is_collateral_token_long;
    let from_pool = to_opposite_signed(settlement.from_pool_amount);
    let for_receiver = to_signed(settlement.for_receiver_amount);
    let for_pool = to_signed(settlement.for_pool_amount);
    let taken = match checked_sub(
        position.collateral_amount,
        settlement.remaining_collateral_amount,
    ) {
        Some(taken) => to_opposite_signed(taken),
        None => Err(Error::Convert),
    };
    let from_pool = from_pool?;
    let for_receiver = for_receiver?;
    let for_pool = for_pool?;
    let taken = taken?;
    market.apply_delta(PoolKind::Primary, position.is_long, from_pool)?;
    market.apply_delta(PoolKind::PositionImpact, true, settlement.impact_pool_delta)?;
    market.apply_delta(PoolKind::ClaimableFee, token, for_receiver)?;
    market.apply_delta(PoolKind::Primary, token, for_pool)?;
    market.apply_delta(PoolKind::for_collateral_sum(position.is_long), token, taken)
}

/// The market and the position after the size of the position shrank.
///
/// The position keeps the collateral that the settlement left it. The total
/// borrowing of the side is brought to the new size first, against the
/// position as it was; then the size in USD, the size in tokens, the
/// snapshots of the funding and borrowing state and the open interest
/// follow, in this order and up to the first step that fails.
pub open spec fn commit_decrease_spec(
    state: State,
    size_delta_usd: u64,
    size_delta_in_tokens: u64,
    remaining_collateral_amount: u64,
) -> Step<State, ()> {
    let market = state.market;
    let funded = Position { collateral_amount: remaining_collateral_amount, ..state.position };
    if size_delta_usd > funded.size_in_usd {
        Step {
            state: State { market, position: funded },
            result: Err(Error::Computation(Calc::SizeInUsd)),
        }
    } else {
        let next_size_in_usd = (funded.size_in_usd - size_delta_usd) as u64;
        match market.cumulative_borrowing_factor_spec(funded.is_long) {
            Err(e) => Step { state: State { market, position: funded }, result: Err(e) },
            Ok(next_borrowing_factor) => {
                let borrowed = update_total_borrowing_spec(
                    market,
                    funded,
                    next_size_in_usd,
                    next_borrowing_factor,
                );
                let sized = Position { size_in_usd: next_size_in_usd, ..funded };
                if borrowed.result is Err {
                    Step {
                        state: State { market: borrowed.state, position: funded },
                        result: Err(borrowed.result->Err_0),
                    }
                } else if size_delta_in_tokens > sized.size_in_tokens {
                    Step {
                        state: State { market: borrowed.state, position: sized },
                        result: Err(Error::Computation(Calc::SizeInTokens)),
                    }
                } else {
                    let rolled = Position {
                        size_in_tokens: (sized.size_in_tokens - size_delta_in_tokens) as u64,
                        borrowing_factor: next_borrowing_factor,
                        ..sized.with_funding_snapshots(borrowed.state)
                    };
                    if to_opposite_signed_spec(size_delta_usd) is Err || to_opposite_signed_spec(
                        size_delta_in_tokens,
                    ) is Err {
                        Step {
                            state: State { market: borrowed.state, position: rolled },
                            result: Err(Error::Convert),
                        }
                    } else {
                        let opened = update_open_interest_spec(
                            borrowed.state,
                            rolled,
                            (-(size_delta_usd as int)) as i64,
                            (-(size_delta_in_tokens as int)) as i64,
                        );
                        Step {
                            state: State { market: opened.state, position: rolled },
                            result: opened.result,
                        }
                    }
                }
            },
        }
    }
}

/// Commits a decrease to the market and the position.
pub fn commit_decrease(
    market: &mut Market,
    position: &mut Position,
    size_delta_usd: u64,
    size_delta_in_tokens: u64,
    remaining_collateral_amount: u64,
) -> (r: Result<(), Error>)
    ensures
        (Step { state: State { market: *final(market), position: *final(position) }, result: r })
            == commit_decrease_spec(
            State { market: *old(market), position: *old(position) },
            size_delta_usd,
            size_delta_in_tokens,
            remaining_collateral_amount,
        ),
        old(market).wf() ==> final(market).wf(),
        r is Ok ==> final(position).size_in_usd == old(position).size_in_usd - size_delta_usd,
{
    position.collateral_amount = remaining_collateral_amount;
    let next_position_size_in_usd = compute(
        checked_sub(position.size_in_usd, size_delta_usd),
        Calc::SizeInUsd,
    )?;
    let next_position_borrowing_factor = market.cumulative_borrowing_factor(position.is_long)?;
    // Update total borrowing before updating position size.
    update_total_borrowing(
        market,
        position,
        next_position_size_in_usd,
        next_position_borrowing_factor,
    )?;
    // Update sizes.
    position.size_in_usd = next_position_size_in_usd;
    position.size_in_tokens = compute(
        checked_sub(position.size_in_tokens, size_delta_in_tokens),
        Calc::SizeInTokens,
    )?;
    // Update funding and borrowing fee state.
    position.refresh_funding_snapshots(market);
    position.borrowing_factor = next_position_borrowing_factor;
    let size_delta_usd = to_opposite_signed(size_delta_usd);
    let size_delta_in_tokens = to_opposite_signed(size_delta_in_tokens);
    update_open_interest(market, position, size_delta_usd?, size_delta_in_tokens?)
}

/// What is computed of a decrease before anything changes.
#[derive(Clone, Copy, Debug, PartialEq, Eq, Structural)]
pub struct DecreasePlan {
    pub size_delta_usd: u64,
    pub is_full_close: bool,
    pub pnl: Pnl,
    pub price_impact: PriceImpact,
    pub execution_price: u64,
    pub fees: PositionFees,
    pub settlement: Settlement,
}

/// The plan of a decrease: the size that is closed, its profit or loss, its
/// price impact and execution price, its fees, and its settlement. An empty
/// position cannot be decreased.
pub open spec fn decrease_plan_spec(
    market: Market,
    position: Position,
    params: DecreasePositionParams,
) -> Result<DecreasePlan, Error> {
    let size_delta_usd = resolved_size_delta_spec(position, params);
    let is_full_close = size_delta_usd == position.size_in_usd;
    if position.size_in_usd == 0 {
        Err(Error::InvalidArgument(Invalid::EmptyPosition))
    } else {
        match position.pnl_value_spec(params.prices, size_delta_usd) {
            Err(e) => Err(e),
            Ok(pnl) => match decrease_execution_spec(market, position, params, size_delta_usd) {
                Err(e) => Err(e),
                Ok((price_impact, execution_price)) => match position.position_fees_spec(
                    market,
                    params.prices.collateral(position.is_collateral_token_long),
                    size_delta_usd,
                    price_impact.balance_change,
                ) {
                    Err(e) => Err(e),
                    Ok(fees) => match payables_spec(
                        position,
                        params.prices,
                        pnl.value,
                        price_impact.value,
                    ) {
                        Err(e) => Err(e),
                        Ok(payables) => match settlement_spec(
                            position,
                            params,
                            is_full_close,
                            payables,
                            fees,
                        ) {
                            Err(e) => Err(e),
                            Ok(settlement) => Ok(
                                DecreasePlan {
                                    size_delta_usd,
                                    is_full_close,
                                    pnl,
                                    price_impact,
                                    execution_price,
                                    fees,
                                    settlement,
                                },
                            ),
                        },
                    },
                },
            },
        }
    }
}

/// Plans a decrease.
pub fn decrease_plan(
    market: &Market,
    position: &Position,
    params: &DecreasePositionParams,
) -> (r: Result<DecreasePlan, Error>)
    ensures
        r == decrease_plan_spec(*market, *position, *params),
        r matches Ok(plan) ==> plan.size_delta_usd <= position.size_in_usd
            && plan.size_delta_usd <= params.initial_size_delta_usd,
{
    if position.size_in_usd == 0 {
        return Err(Error::InvalidArgument(Invalid::EmptyPosition));
    }
    let size_delta_usd = if params.initial_size_delta_usd >= position.size_in_usd {
        position.size_in_usd
    } else {
        params.initial_size_delta_usd
    };
    let is_full_close = size_delta_usd == position.size_in_usd;
    let pnl = position.pnl_value(&params.prices, size_delta_usd)?;
    let (price_impact, execution_price) = decrease_execution(
        market,
        position,
        params,
        size_delta_usd,
    )?;
    let collateral_price = position.collateral_price(&params.prices);
    let fees = position.position_fees(
        market,
        &collateral_price,
        size_delta_usd,
        price_impact.balance_change,
    )?;
    let payables = payables(position, &params.prices, pnl.value, price_impact.value)?;
    let settlement = settle(position, params, is_full_close, &payables, &fees)?;
    Ok(
        DecreasePlan {
            size_delta_usd,
            is_full_close,
            pnl,
            price_impact,
            execution_price,
            fees,
            settlement,
        },
    )
}

/// The report of a decrease that went through, from its plan and the
/// position that it left.
pub open spec fn decrease_report_spec(
    params: DecreasePositionParams,
    plan: DecreasePlan,
    left: Position,
) -> DecreasePositionReport {
    DecreasePositionReport {
        params,
        size_delta_usd: plan.size_delta_usd,
        size_delta_in_tokens: plan.pnl.size_delta_in_tokens,
        price_impact_value: plan.price_impact.value,
        execution_price: plan.execution_price,
        pnl: plan.pnl.value,
        fees: plan.fees,
        settlement: plan.settlement,
        closure: if plan.is_full_close {
            Closure::Full
        } else {
            Closure::Partial {
                remaining_size_in_usd: left.size_in_usd,
                remaining_collateral_amount: left.collateral_amount,
            }
        },
        claimable_funding_long_token_amount: plan.fees.funding.claimable_long_token_amount,
        claimable_funding_short_token_amount: plan.fees.funding.claimable_short_token_amount,
    }
}

/// What a decrease does to a market and a position, and what it returns.
///
/// The decrease is planned on the market and the position as they are; the
/// settlement is applied to the pools; the change is committed; a position
/// that stays open is validated. The action stops at the first step that
/// fails and leaves behind what was applied before: the caller must then
/// discard the market and the position.
pub open spec fn decrease_spec(
    market: Market,
    position: Position,
    params: DecreasePositionParams,
) -> Step<State, DecreasePositionReport> {
    match decrease_plan_spec(market, position, params) {
        Err(e) => Step { state: State { market, position }, result: Err(e) },
        Ok(plan) => {
            let settled = apply_settlement_spec(market, position, plan.settlement);
            if settled.result is Err {
                Step {
                    state: State { market: settled.state, position },
                    result: Err(settled.result->Err_0),
                }
            } else {
                let committed = commit_decrease_spec(
                    State { market: settled.state, position },
                    plan.size_delta_usd,
                    plan.pnl.size_delta_in_tokens,
                    plan.settlement.remaining_collateral_amount,
                );
                if committed.result is Err {
                    Step { state: committed.state, result: Err(committed.result->Err_0) }
                } else {
                    let validated = if plan.is_full_close {
                        Ok(())
                    } else {
                        committed.state.position.validate_spec(
                            committed.state.market,
                            params.prices,
                            true,
                            true,
                        )
                    };
                    match validated {
                        Err(e) => Step { state: committed.state, result: Err(e) },
                        Ok(()) => Step {
                            state: committed.state,
                            result: Ok(
                                decrease_report_spec(params, plan, committed.state.position),
                            ),
                        },
                    }
                }
            }
        },
    }
}

/// Executes a decrease on a market and a position.
pub fn execute_decrease(
    market: &mut Market,
    position: &mut Position,
    params: DecreasePositionParams,
) -> (r: Result<DecreasePositionReport, Error>)
    ensures
        (Step { state: State { market: *final(market), position: *final(position) }, result: r })
            == decrease_spec(*old(market), *old(position), params),
        old(market).wf() ==> final(market).wf(),
        r is Ok ==> final(position).size_in_usd == old(position).size_in_usd
            - resolved_size_delta_spec(*old(position), params),
        r is Ok ==> final(position).wf(),
{
    let plan = decrease_plan(market, position, &params)?;
    apply_settlement(market, position, &plan.settlement)?;
    commit_decrease(
        market,
        position,
        plan.size_delta_usd,
        plan.pnl.size_delta_in_tokens,
        plan.settlement.remaining_collateral_amount,
    )?;
    if !plan.is_full_close {
        position.validate(market, &params.prices, true, true)?;
    }
    Ok(
        DecreasePositionReport {
            params,
            size_delta_usd: plan.size_delta_usd,
            size_delta_in_tokens: plan.pnl.size_delta_in_tokens,
            price_impact_value: plan.price_impact.value,
            execution_price: plan.execution_price,
            pnl: plan.pnl.value,
            fees: plan.fees,
            settlement: plan.settlement,
            closure: if plan.is_full_close {
                Closure::Full
            } else {
                Closure::Partial {
                    remaining_size_in_usd: position.size_in_usd,
                    remaining_collateral_amount: position.collateral_amount,
                }
            },
            claimable_funding_long_token_amount: plan.fees.funding.claimable_long_token_amount,
            claimable_funding_short_token_amount: plan.fees.funding.claimable_short_token_amount,
        },
    )
}

impl<'a> PositionOps<'a> {
    /// Create an action to decrease the position.
    pub fn decrease(
        self,
        prices: Prices,
        size_delta_usd: u64,
        acceptable_price: Option<u64>,
        collateral_withdrawal_amount: u64,
        flags: DecreasePositionFlags,
    ) -> (r: Result<DecreasePosition<'a>, Error>)
        ensures
            prices.valid() <==> r is Ok,
            r matches Ok(action) ==> action.position == self && action.params == (
            DecreasePositionParams {
                prices,
                initial_size_delta_usd: size_delta_usd,
                acceptable_price,
                initial_collateral_withdrawal_amount: collateral_withdrawal_amount,
                flags,
            }),
            r matches Err(e) ==> e == Error::InvalidArgument(Invalid::Prices),
            r is Err ==> *final(self.market) == *old(self.market),
            r is Err ==> *final(self.position) == *old(self.position),
    {
        DecreasePosition::try_new(
            self,
            prices,
            size_delta_usd,
            acceptable_price,
            collateral_withdrawal_amount,
            flags,
        )
    }
}

impl<'a> DecreasePosition<'a> {
    /// Create a new action to decrease the given position.
    pub fn try_new(
        position: PositionOps<'a>,
        prices: Prices,
        size_delta_usd: u64,
        acceptable_price: Option<u64>,
        collateral_withdrawal_amount: u64,
        flags: DecreasePositionFlags,
    ) -> (r: Result<Self, Error>)
        ensures
            prices.valid() <==> r is Ok,
            r matches Ok(action) ==> action.position == position && action.params == (
            DecreasePositionParams {
                prices,
                initial_size_delta_usd: size_delta_usd,
                acceptable_price,
                initial_collateral_withdrawal_amount: collateral_withdrawal_amount,
                flags,
            }),
            r matches Err(e) ==> e == Error::InvalidArgument(Invalid::Prices),
            r is Err ==> *final(position.market) == *old(position.market),
            r is Err ==> *final(position.position) == *old(position.position),
    {
        if !prices.is_valid() {
            return Err(Error::InvalidArgument(Invalid::Prices));
        }
        Ok(
            DecreasePosition {
                position,
                params: DecreasePositionParams {
                    prices,
                    initial_size_delta_usd: size_delta_usd,
                    acceptable_price,
                    initial_collateral_withdrawal_amount: collateral_withdrawal_amount,
                    flags,
                },
            },
        )
    }

    /// Executes the decrease on the market and the position. On an error
    /// they hold what was applied before the step that failed.
    pub fn execute(self) -> (r: Result<DecreasePositionReport, Error>)
        ensures
            (Step {
                state: State {
                    market: *final(self.position.market),
                    position: *final(self.position.position),
                },
                result: r,
            }) == decrease_spec(
                *old(self.position.market),
                *old(self.position.position),
                self.params,
            ),
            old(self.position.market).wf() ==> final(self.position.market).wf(),
            r is Ok ==> final(self.position.position).size_in_usd
                == old(self.position.position).size_in_usd - resolved_size_delta_spec(
                *old(self.position.position),
                self.params,
            ),
            r is Ok ==> final(self.position.position).wf(),
    {
        let DecreasePosition { position: PositionOps { market, position }, params } = self;
        execute_decrease(market, position, params)
    }

    /// Executes the decrease on a copy of the market and the position, and
    /// keeps the copy only if the decrease went through: a decrease that
    /// fails leaves both as they were.
    pub fn execute_atomically(self) -> (r: Result<DecreasePositionReport, Error>)
        ensures
            r == decrease_spec(
                *old(self.position.market),
                *old(self.position.position),
                self.params,
            ).result,
            r is Ok ==> (State {
                market: *final(self.position.market),
                position: *final(self.position.position),
            }) == decrease_spec(
                *old(self.position.market),
                *old(self.position.position),
                self.params,
            ).state,
            r is Err ==> *final(self.position.market) == *old(self.position.market),
            r is Err ==> *final(self.position.position) == *old(self.position.position),
    {
        let DecreasePosition { position: PositionOps { market, position }, params } = self;
        let mut next_market = *market;
        let mut next_position = *position;
        let report = execute_decrease(&mut next_market, &mut next_position, params)?;
        *market = next_market;
        *position = next_position;
        Ok(report)
    }
}

} // verus!
