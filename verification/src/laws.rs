//! Laws that relate the actions of the engine to each other.

use vstd::prelude::*;
use crate::action::decrease_position::{DecreasePositionParams, Payables, Settlement,
    apply_settlement_spec, commit_decrease_spec, decrease_plan_spec, decrease_spec,
    resolved_size_delta_spec, settlement_spec};
use crate::action::increase_position::{ExecutionParams, ExecutionParamsWithPriceImpact,
    IncreasePositionParams, commit_increase_spec, execution_params_spec, increase_spec,
    initialize_position_if_empty_spec, process_collateral_spec};
use crate::action::update_borrowing_state::update_borrowing_spec;
use crate::action::update_funding_state::{UpdateFundingReport, adapted_factor_spec,
    apply_report_spec, apply_slot_spec, next_funding_amount_per_size_spec,
    next_funding_factor_per_second_spec, pack_to_funding_amount_per_size_spec,
    update_funding_spec};
use crate::error::{Error, Invalid};
use crate::fees::PositionFees;
use crate::market::{Market, PoolKind};
use crate::num::{lemma_div_ceil, magnitude};
use crate::params::FundingRateChangeType;
use crate::pool::Pool;
use crate::position::{Position, State};
use crate::price::Prices;
use crate::price_impact::BalanceChange;
use crate::price_impact::PriceImpact;

verus! {

/// An increase of no size has no price impact, in value or in tokens, and
/// executes at the spot price of its direction: the ask of the index token
/// for a long position, the bid for a short one. This holds of the execution
/// params and of the report of every increase of no size that goes through.
pub proof fn law_zero_size_delta_has_no_price_impact(
    market: Market,
    position: Position,
    params: IncreasePositionParams,
)
    requires
        params.prices.valid(),
        params.size_delta_usd == 0,
    ensures
        execution_params_spec(market, position, params) == Ok::<
            ExecutionParamsWithPriceImpact,
            Error,
        >(
            ExecutionParamsWithPriceImpact {
                execution: ExecutionParams {
                    price_impact_value: 0,
                    price_impact_amount: 0,
                    size_delta_in_tokens: 0,
                    execution_price: params.prices.index_token_price.pick(position.is_long),
                },
                price_impact: PriceImpact::none(),
            },
        ),
        increase_spec(market, position, params).result matches Ok(report) ==> {
            &&& report.execution.price_impact_value == 0
            &&& report.execution.price_impact_amount == 0
            &&& report.execution.execution_price == params.prices.index_token_price.pick(
                position.is_long,
            )
        },
{
}

/// An increase that goes through adds its size to the position.
pub proof fn law_increase_adds_size(
    market: Market,
    position: Position,
    params: IncreasePositionParams,
)
    requires
        increase_spec(market, position, params).result is Ok,
    ensures
        increase_spec(market, position, params).state.position.size_in_usd == position.size_in_usd
            + params.size_delta_usd,
        increase_spec(market, position, params).state.position.is_long == position.is_long,
        increase_spec(market, position, params).state.position.wf(),
{
}

/// Charging the fees of an increase changes three pools and nothing else:
/// the claimable fees, the liquidity, and the collateral sum of the side.
proof fn lemma_process_collateral_books(
    market: Market,
    position: Position,
    params: IncreasePositionParams,
    balance_change: BalanceChange,
)
    requires
        process_collateral_spec(market, position, params, balance_change).result is Ok,
    ensures
        ({
            let charged = process_collateral_spec(market, position, params, balance_change);
            let after = charged.state;
            let delta = charged.result->Ok_0.0;
            let fees = charged.result->Ok_0.1;
            let token = position.is_collateral_token_long;
            let sums = PoolKind::collateral_sum(position.is_long);
            &&& fees.for_pool_spec() matches Ok(for_pool)
            &&& fees.for_receiver_spec() matches Ok(for_receiver)
            &&& after.primary.signed_amount(token) == market.primary.signed_amount(token)
                + for_pool
            &&& after.claimable_fee.signed_amount(token) == market.claimable_fee.signed_amount(
                token,
            ) + for_receiver
            &&& after.pool_of(sums).signed_amount(token) == market.pool_of(sums).signed_amount(
                token,
            ) + delta
            &&& after.position_impact == market.position_impact
            &&& after.open_interest_for_long == market.open_interest_for_long
            &&& after.open_interest_for_short == market.open_interest_for_short
            &&& after.open_interest_in_tokens_for_long == market.open_interest_in_tokens_for_long
            &&& after.open_interest_in_tokens_for_short
                == market.open_interest_in_tokens_for_short
            &&& after.borrowing_factor == market.borrowing_factor
        }),
{
}

/// Committing an increase changes the collateral and the sizes of the
/// position, the position impact pool, and the total borrowing and the open
/// interest of the side, and leaves the other pools as they are.
proof fn lemma_commit_increase_books(
    state: State,
    params: IncreasePositionParams,
    execution: ExecutionParams,
    collateral_delta_amount: i64,
)
    requires
        commit_increase_spec(state, params, execution, collateral_delta_amount).result is Ok,
    ensures
        ({
            let after = commit_increase_spec(
                state,
                params,
                execution,
                collateral_delta_amount,
            ).state;
            let token = state.position.is_collateral_token_long;
            let interest = PoolKind::open_interest(state.position.is_long);
            let tokens = PoolKind::open_interest_in_tokens(state.position.is_long);
            &&& after.position.collateral_amount == state.position.collateral_amount
                + collateral_delta_amount
            &&& after.position.size_in_usd == state.position.size_in_usd + params.size_delta_usd
            &&& after.position.size_in_tokens == state.position.size_in_tokens
                + execution.size_delta_in_tokens
            &&& after.position.is_long == state.position.is_long
            &&& after.position.is_collateral_token_long == token
            &&& after.market.position_impact.long_amount
                == state.market.position_impact.long_amount - execution.price_impact_amount
            &&& after.market.pool_of(interest).signed_amount(token) == state.market.pool_of(
                interest,
            ).signed_amount(token) + params.size_delta_usd
            &&& params.size_delta_usd != 0 ==> after.market.pool_of(tokens).signed_amount(token)
                == state.market.pool_of(tokens).signed_amount(token)
                + execution.size_delta_in_tokens
            &&& after.market.primary == state.market.primary
            &&& after.market.claimable_fee == state.market.claimable_fee
            &&& after.market.collateral_sum_for_long == state.market.collateral_sum_for_long
            &&& after.market.collateral_sum_for_short == state.market.collateral_sum_for_short
            &&& after.market.borrowing_factor == state.market.borrowing_factor
        }),
{
}

/// An increase that goes through keeps the books: the sums of the market
/// change by what the position changes by. The collateral of the position
/// and the collateral sum of its side grow by the collateral change after
/// fees; the open interest of its side grows by the size, in USD and in
/// tokens; the fees reach the liquidity and the fee receiver; the position
/// impact pool takes the negated price impact.
pub proof fn law_increase_keeps_the_books(
    market: Market,
    position: Position,
    params: IncreasePositionParams,
)
    requires
        increase_spec(market, position, params).result is Ok,
    ensures
        ({
            let after = increase_spec(market, position, params).state;
            let report = increase_spec(market, position, params).result->Ok_0;
            let token = position.is_collateral_token_long;
            let side = position.is_long;
            let tokens_before = initialize_position_if_empty_spec(market, position).size_in_tokens;
            &&& after.position.collateral_amount - position.collateral_amount
                == report.collateral_delta_amount
            &&& after.market.pool_of(PoolKind::collateral_sum(side)).signed_amount(token)
                - market.pool_of(PoolKind::collateral_sum(side)).signed_amount(token)
                == report.collateral_delta_amount
            &&& after.market.pool_of(PoolKind::open_interest(side)).signed_amount(token)
                - market.pool_of(PoolKind::open_interest(side)).signed_amount(token)
                == params.size_delta_usd
            &&& after.position.size_in_tokens - tokens_before
                == report.execution.size_delta_in_tokens
            &&& params.size_delta_usd != 0 ==> after.market.pool_of(
                PoolKind::open_interest_in_tokens(side),
            ).signed_amount(token) - market.pool_of(
                PoolKind::open_interest_in_tokens(side),
            ).signed_amount(token) == report.execution.size_delta_in_tokens
            &&& report.fees.for_pool_spec() matches Ok(for_pool)
            &&& after.market.primary.signed_amount(token) - market.primary.signed_amount(token)
                == for_pool
            &&& report.fees.for_receiver_spec() matches Ok(for_receiver)
            &&& after.market.claimable_fee.signed_amount(token)
                - market.claimable_fee.signed_amount(token) == for_receiver
            &&& after.market.position_impact.long_amount - market.position_impact.long_amount
                == -report.execution.price_impact_amount
        }),
{
    let initialized = initialize_position_if_empty_spec(market, position);
    let with_impact = execution_params_spec(market, initialized, params)->Ok_0;
    let balance_change = with_impact.price_impact.balance_change;
    let charged = process_collateral_spec(market, initialized, params, balance_change);
    lemma_process_collateral_books(market, initialized, params, balance_change);
    lemma_commit_increase_books(
        State { market: charged.state, position: initialized },
        params,
        with_impact.execution,
        charged.result->Ok_0.0,
    );
}

/// Applying a settlement changes the liquidity, the position impact pool,
/// the claimable fees and the collateral sum of the side, and nothing else.
proof fn lemma_apply_settlement_books(market: Market, position: Position, settlement: Settlement)
    requires
        apply_settlement_spec(market, position, settlement).result is Ok,
    ensures
        ({
            let after = apply_settlement_spec(market, position, settlement).state;
            let token = position.is_collateral_token_long;
            let side = position.is_long;
            let sums = PoolKind::collateral_sum(side);
            let paid = if side == token { settlement.from_pool_amount as int } else { 0 };
            &&& after.primary.signed_amount(token) == market.primary.signed_amount(token)
                + settlement.for_pool_amount - paid
            &&& side != token ==> after.primary.signed_amount(side) == market.primary.signed_amount(
                side,
            ) - settlement.from_pool_amount
            &&& after.claimable_fee.signed_amount(token) == market.claimable_fee.signed_amount(
                token,
            ) + settlement.for_receiver_amount
            &&& after.position_impact.long_amount == market.position_impact.long_amount
                + settlement.impact_pool_delta
            &&& after.pool_of(sums).signed_amount(token) == market.pool_of(sums).signed_amount(
                token,
            ) - (position.collateral_amount - settlement.remaining_collateral_amount)
            &&& after.open_interest_for_long == market.open_interest_for_long
            &&& after.open_interest_for_short == market.open_interest_for_short
            &&& after.open_interest_in_tokens_for_long == market.open_interest_in_tokens_for_long
            &&& after.open_interest_in_tokens_for_short
                == market.open_interest_in_tokens_for_short
            &&& after.borrowing_factor == market.borrowing_factor
        }),
{
}

/// Committing a decrease changes the collateral and the sizes of the
/// position and the total borrowing and the open interest of the side, and
/// leaves the other pools as they are.
proof fn lemma_commit_decrease_books(
    state: State,
    size_delta_usd: u64,
    size_delta_in_tokens: u64,
    remaining_collateral_amount: u64,
)
    requires
        commit_decrease_spec(
            state,
            size_delta_usd,
            size_delta_in_tokens,
            remaining_collateral_amount,
        ).result is Ok,
    ensures
        ({
            let after = commit_decrease_spec(
                state,
                size_delta_usd,
                size_delta_in_tokens,
                remaining_collateral_amount,
            ).state;
            let token = state.position.is_collateral_token_long;
            let interest = PoolKind::open_interest(state.position.is_long);
            let tokens = PoolKind::open_interest_in_tokens(state.position.is_long);
            &&& after.position.collateral_amount == remaining_collateral_amount
            &&& after.position.size_in_usd == state.position.size_in_usd - size_delta_usd
            &&& after.position.size_in_tokens == state.position.size_in_tokens
                - size_delta_in_tokens
            &&& after.market.pool_of(interest).signed_amount(token) == state.market.pool_of(
                interest,
            ).signed_amount(token) - size_delta_usd
            &&& size_delta_usd != 0 ==> after.market.pool_of(tokens).signed_amount(token)
                == state.market.pool_of(tokens).signed_amount(token) - size_delta_in_tokens
            &&& after.market.primary == state.market.primary
            &&& after.market.claimable_fee == state.market.claimable_fee
            &&& after.market.position_impact == state.market.position_impact
            &&& after.market.collateral_sum_for_long == state.market.collateral_sum_for_long
            &&& after.market.collateral_sum_for_short == state.market.collateral_sum_for_short
            &&& after.market.borrowing_factor == state.market.borrowing_factor
        }),
{
}

/// A decrease that goes through keeps the books: the sums of the market
/// change by what the position changes by. The collateral sum of the side
/// loses what leaves the position; the open interest of the side loses the
/// size, in USD and in tokens; the liquidity receives its part and pays
/// profit and positive impact; the fee receiver and the position impact pool
/// get theirs.
pub proof fn law_decrease_keeps_the_books(
    market: Market,
    position: Position,
    params: DecreasePositionParams,
)
    requires
        decrease_spec(market, position, params).result is Ok,
    ensures
        ({
            let after = decrease_spec(market, position, params).state;
            let report = decrease_spec(market, position, params).result->Ok_0;
            let settlement = report.settlement;
            let token = position.is_collateral_token_long;
            let side = position.is_long;
            let sums = PoolKind::collateral_sum(side);
            let interest = PoolKind::open_interest(side);
            let tokens = PoolKind::open_interest_in_tokens(side);
            let paid = if side == token { settlement.from_pool_amount as int } else { 0 };
            &&& after.position.collateral_amount == settlement.remaining_collateral_amount
            &&& after.position.collateral_amount <= position.collateral_amount
            &&& after.market.pool_of(sums).signed_amount(token) - market.pool_of(
                sums,
            ).signed_amount(token) == after.position.collateral_amount
                - position.collateral_amount
            &&& after.market.pool_of(interest).signed_amount(token) - market.pool_of(
                interest,
            ).signed_amount(token) == after.position.size_in_usd - position.size_in_usd
            &&& after.market.pool_of(tokens).signed_amount(token) - market.pool_of(
                tokens,
            ).signed_amount(token) == after.position.size_in_tokens - position.size_in_tokens
            &&& position.size_in_tokens - after.position.size_in_tokens
                == report.size_delta_in_tokens
            &&& after.market.primary.signed_amount(token) - market.primary.signed_amount(token)
                == settlement.for_pool_amount - paid
            &&& after.market.claimable_fee.signed_amount(token)
                - market.claimable_fee.signed_amount(token) == settlement.for_receiver_amount
            &&& after.market.position_impact.long_amount - market.position_impact.long_amount
                == settlement.impact_pool_delta
        }),
{
    let plan = decrease_plan_spec(market, position, params)->Ok_0;
    let settled = apply_settlement_spec(market, position, plan.settlement);
    lemma_apply_settlement_books(market, position, plan.settlement);
    lemma_commit_decrease_books(
        State { market: settled.state, position },
        plan.size_delta_usd,
        plan.pnl.size_delta_in_tokens,
        plan.settlement.remaining_collateral_amount,
    );
}

/// A settlement conserves the collateral: what the position held is what it
/// keeps, what is paid out of it, and what the liquidity, the fee receiver
/// and the funding take. In an insolvent close the liquidity takes all.
pub proof fn law_settlement_conserves_collateral(
    position: Position,
    params: DecreasePositionParams,
    is_full_close: bool,
    payables: Payables,
    fees: PositionFees,
)
    requires
        settlement_spec(position, params, is_full_close, payables, fees) is Ok,
    ensures
        ({
            let settlement = settlement_spec(position, params, is_full_close, payables, fees)->Ok_0;
            let from_pool = payables.profit + payables.bonus;
            let same_token = position.is_long == position.is_collateral_token_long;
            let payout = settlement.output_amount - (if same_token { from_pool } else { 0 });
            &&& settlement.from_pool_amount == from_pool
            &&& settlement.output_amount + settlement.secondary_output_amount == payout + from_pool
            &&& payout >= 0
            &&& !settlement.is_insolvent_close ==> position.collateral_amount
                == settlement.remaining_collateral_amount + payout + settlement.for_pool_amount
                + settlement.for_receiver_amount + fees.funding.amount
            &&& settlement.is_insolvent_close ==> settlement.remaining_collateral_amount == 0
                && payout == 0 && settlement.for_pool_amount == position.collateral_amount
                && settlement.for_receiver_amount == 0
            &&& is_full_close ==> settlement.remaining_collateral_amount == 0
            &&& !is_full_close ==> payout <= params.initial_collateral_withdrawal_amount
        }),
{
}

/// A decrease that goes through takes its size from the position: the size
/// asked for, capped at the size of the position. A position that stays open
/// is well-formed, and a closed position has no size in either unit.
pub proof fn law_decrease_takes_size(
    market: Market,
    position: Position,
    params: DecreasePositionParams,
)
    requires
        decrease_spec(market, position, params).result is Ok,
    ensures
        decrease_spec(market, position, params).state.position.size_in_usd == position.size_in_usd
            - resolved_size_delta_spec(position, params),
        resolved_size_delta_spec(position, params) <= position.size_in_usd,
        decrease_spec(market, position, params).state.position.wf(),
{
}

/// A position that is increased and at once decreased by the same size, at
/// the same prices, is back at its size; the fees of both steps are not
/// negative. The collateral does not come back whole: it has paid the fees.
pub proof fn law_increase_then_decrease_restores_size(
    market: Market,
    position: Position,
    increase: IncreasePositionParams,
    decrease: DecreasePositionParams,
)
    requires
        decrease.prices == increase.prices,
        decrease.initial_size_delta_usd == increase.size_delta_usd,
        decrease.initial_collateral_withdrawal_amount == increase.collateral_increment_amount,
        increase_spec(market, position, increase).result is Ok,
        decrease_spec(
            increase_spec(market, position, increase).state.market,
            increase_spec(market, position, increase).state.position,
            decrease,
        ).result is Ok,
    ensures
        ({
            let increased = increase_spec(market, position, increase);
            let decreased = decrease_spec(
                increased.state.market,
                increased.state.position,
                decrease,
            );
            &&& decreased.state.position.size_in_usd == position.size_in_usd
            &&& increased.result->Ok_0.fees.cost_excluding_funding()
                + increased.result->Ok_0.fees.funding.amount >= 0
            &&& decreased.result->Ok_0.fees.cost_excluding_funding()
                + decreased.result->Ok_0.fees.funding.amount >= 0
            &&& decreased.result->Ok_0.size_delta_usd == increase.size_delta_usd
        }),
{
    let increased = increase_spec(market, position, increase);
    law_increase_adds_size(market, position, increase);
    law_decrease_takes_size(increased.state.market, increased.state.position, decrease);
}

/// While the two sides hold the same open interest and funding is not
/// adaptive, nothing is funded, however long the period.
pub proof fn law_balanced_sides_fund_nothing(
    market: Market,
    duration_in_seconds: u64,
    open_interest: u64,
)
    requires
        market.params.funding_fee.increase_factor_per_second == 0,
    ensures
        next_funding_factor_per_second_spec(
            market,
            duration_in_seconds,
            open_interest,
            open_interest,
        ) == Ok::<(u64, bool, i64), Error>((0, true, 0)),
{
}

/// With adaptive funding and unbalanced sides, the funding factor per
/// second of a period is never above the maximum nor below the minimum, and
/// the factor that the market keeps is never above the maximum. Without
/// adaptive funding the factor is never above the maximum either.
pub proof fn law_funding_factor_is_bounded(
    market: Market,
    duration_in_seconds: u64,
    long_open_interest: u64,
    short_open_interest: u64,
)
    requires
        long_open_interest != short_open_interest,
        next_funding_factor_per_second_spec(
            market,
            duration_in_seconds,
            long_open_interest,
            short_open_interest,
        ) is Ok,
    ensures
        ({
            let params = market.params.funding_fee;
            let factor = next_funding_factor_per_second_spec(
                market,
                duration_in_seconds,
                long_open_interest,
                short_open_interest,
            )->Ok_0;
            &&& factor.0 <= params.max_factor_per_second
            &&& magnitude(factor.2 as int) <= params.max_factor_per_second
            &&& params.increase_factor_per_second != 0 ==> params.min_factor_per_second <= factor.0
            &&& params.increase_factor_per_second != 0 ==> (factor.1 <==> factor.2 > 0 || (factor.2
                == 0 && params.min_factor_per_second > 0))
        }),
{
}

/// A funding factor that decreases keeps its sign: its magnitude shrinks
/// toward zero and never crosses it.
pub proof fn law_decreasing_funding_factor_keeps_its_sign(
    market: Market,
    duration_in_seconds: u64,
    long_open_interest: u64,
    short_open_interest: u64,
    diff_factor: u64,
)
    requires
        market.params.funding_fee.change_spec(
            market.funding_factor_per_second,
            long_open_interest,
            short_open_interest,
            diff_factor,
        ) == FundingRateChangeType::Decrease,
        adapted_factor_spec(
            market,
            duration_in_seconds,
            long_open_interest,
            short_open_interest,
            diff_factor,
        ) is Ok,
    ensures
        ({
            let current = market.funding_factor_per_second;
            let adapted = adapted_factor_spec(
                market,
                duration_in_seconds,
                long_open_interest,
                short_open_interest,
                diff_factor,
            )->Ok_0;
            &&& current > 0 ==> 0 < adapted <= current
            &&& current < 0 ==> current <= adapted < 0
            &&& current == 0 ==> adapted == 0
        }),
{
}

/// The payer of funding is never undercharged and the receiver never
/// overpaid: an amount per size that is rounded up covers the funding value
/// at the price, and one that is rounded down stays within it.
pub proof fn law_funding_amounts_favour_the_pool(
    adjustment: u64,
    funding_value: u64,
    open_interest: u64,
    price: u64,
    unit: u64,
)
    requires
        open_interest != 0,
        price != 0,
    ensures
        pack_to_funding_amount_per_size_spec(
            adjustment,
            funding_value,
            open_interest,
            price,
            true,
            unit,
        ) matches Some(charge) ==> charge * price * open_interest >= funding_value * (adjustment
            * unit),
        pack_to_funding_amount_per_size_spec(
            adjustment,
            funding_value,
            open_interest,
            price,
            false,
            unit,
        ) matches Some(claim) ==> claim * price * open_interest <= funding_value * (adjustment
            * unit),
{
    let scale = adjustment * unit;
    let product = funding_value * scale;
    assert(product >= 0) by (nonlinear_arith)
        requires
            product == funding_value * scale,
            funding_value >= 0,
            scale >= 0,
    ;
    if funding_value != 0 && scale <= u64::MAX {
        let up = crate::num::div_ceil(product, open_interest as int);
        let down = product / (open_interest as int);
        lemma_div_ceil(product, open_interest as int);
        vstd::arithmetic::div_mod::lemma_fundamental_div_mod(product, open_interest as int);
        vstd::arithmetic::div_mod::lemma_mod_bound(product, open_interest as int);
        if up <= u64::MAX {
            let charge = crate::num::div_ceil(up, price as int);
            lemma_div_ceil(up, price as int);
            assert(charge * price * open_interest >= product) by (nonlinear_arith)
                requires
                    charge * price >= up,
                    up * open_interest >= product,
                    open_interest > 0,
            ;
        }
        if down <= u64::MAX {
            let claim = down / (price as int);
            vstd::arithmetic::div_mod::lemma_fundamental_div_mod(down, price as int);
            vstd::arithmetic::div_mod::lemma_mod_bound(down, price as int);
            assert(claim * price * open_interest <= product) by (nonlinear_arith)
                requires
                    claim * price <= down,
                    down * open_interest <= product,
                    open_interest > 0,
                    claim >= 0,
                    down >= 0,
            ;
        }
    } else if funding_value == 0 {
        assert(0 * price * open_interest == 0) by (nonlinear_arith);
        assert(funding_value * scale == 0) by (nonlinear_arith)
            requires
                funding_value == 0,
        ;
    }
}

/// The cumulative borrowing factors never decrease: a borrowing update that
/// goes through leaves each of them where it was or above.
pub proof fn law_cumulative_borrowing_factor_is_monotonic(market: Market, prices: Prices)
    requires
        update_borrowing_spec(market, prices).result is Ok,
    ensures
        ({
            let after = update_borrowing_spec(market, prices).state;
            let report = update_borrowing_spec(market, prices).result->Ok_0;
            &&& after.borrowing_factor.long_amount >= market.borrowing_factor.long_amount
            &&& after.borrowing_factor.short_amount >= market.borrowing_factor.short_amount
            &&& after.borrowing_factor.long_amount
                == report.next_cumulative_borrowing_factor_for_long
            &&& after.borrowing_factor.short_amount
                == report.next_cumulative_borrowing_factor_for_short
        }),
{
}

/// Whether two markets hold the same pools.
pub open spec fn same_pools(a: Market, b: Market) -> bool {
    &&& a.primary == b.primary
    &&& a.collateral_sum_for_long == b.collateral_sum_for_long
    &&& a.collateral_sum_for_short == b.collateral_sum_for_short
    &&& a.open_interest_for_long == b.open_interest_for_long
    &&& a.open_interest_for_short == b.open_interest_for_short
    &&& a.open_interest_in_tokens_for_long == b.open_interest_in_tokens_for_long
    &&& a.open_interest_in_tokens_for_short == b.open_interest_in_tokens_for_short
    &&& a.position_impact == b.position_impact
    &&& a.claimable_fee == b.claimable_fee
    &&& a.total_borrowing == b.total_borrowing
    &&& a.borrowing_factor == b.borrowing_factor
}

/// Applying one slot of a funding report leaves the pools as they are.
proof fn lemma_apply_slot_keeps_the_pools(
    market: Market,
    report: UpdateFundingReport,
    is_long: bool,
    is_long_collateral: bool,
)
    ensures
        same_pools(apply_slot_spec(market, report, is_long, is_long_collateral).state, market),
{
}

/// Applying a funding report leaves the pools as they are.
proof fn lemma_apply_report_keeps_the_pools(market: Market, report: UpdateFundingReport)
    ensures
        same_pools(apply_report_spec(market, report).state, market),
{
    let first = apply_slot_spec(market, report, true, true);
    lemma_apply_slot_keeps_the_pools(market, report, true, true);
    if first.result is Ok {
        let second = apply_slot_spec(first.state, report, true, false);
        lemma_apply_slot_keeps_the_pools(first.state, report, true, false);
        if second.result is Ok {
            let third = apply_slot_spec(second.state, report, false, true);
            lemma_apply_slot_keeps_the_pools(second.state, report, false, true);
            if third.result is Ok {
                lemma_apply_slot_keeps_the_pools(third.state, report, false, false);
            }
        }
    }
}

/// A funding update moves no tokens: whether it goes through or not, it
/// leaves every pool of the market as it is, the cumulative borrowing factors
/// among them.
pub proof fn law_funding_update_keeps_the_pools(market: Market, prices: Prices)
    ensures
        same_pools(update_funding_spec(market, prices).state, market),
{
    let clocked = Market { funding_updated_at: market.now, ..market };
    let report = next_funding_amount_per_size_spec(
        clocked,
        prices,
        market.passed_for_funding_spec(),
    );
    if report is Ok {
        lemma_apply_report_keeps_the_pools(clocked, report->Ok_0);
    }
}

/// An increase leaves the cumulative borrowing factors as they are.
pub proof fn law_increase_keeps_the_borrowing_factors(
    market: Market,
    position: Position,
    params: IncreasePositionParams,
)
    requires
        increase_spec(market, position, params).result is Ok,
    ensures
        increase_spec(market, position, params).state.market.borrowing_factor
            == market.borrowing_factor,
{
    let initialized = initialize_position_if_empty_spec(market, position);
    let with_impact = execution_params_spec(market, initialized, params)->Ok_0;
    let balance_change = with_impact.price_impact.balance_change;
    let charged = process_collateral_spec(market, initialized, params, balance_change);
    lemma_process_collateral_books(market, initialized, params, balance_change);
    lemma_commit_increase_books(
        State { market: charged.state, position: initialized },
        params,
        with_impact.execution,
        charged.result->Ok_0.0,
    );
}

/// A decrease leaves the cumulative borrowing factors as they are.
pub proof fn law_decrease_keeps_the_borrowing_factors(
    market: Market,
    position: Position,
    params: DecreasePositionParams,
)
    requires
        decrease_spec(market, position, params).result is Ok,
    ensures
        decrease_spec(market, position, params).state.market.borrowing_factor
            == market.borrowing_factor,
{
    let plan = decrease_plan_spec(market, position, params)->Ok_0;
    let settled = apply_settlement_spec(market, position, plan.settlement);
    lemma_apply_settlement_books(market, position, plan.settlement);
    lemma_commit_decrease_books(
        State { market: settled.state, position },
        plan.size_delta_usd,
        plan.pnl.size_delta_in_tokens,
        plan.settlement.remaining_collateral_amount,
    );
}

/// A pool that must stay non-negative refuses every delta that would take
/// more than it holds, and is then as it was.
pub proof fn law_pool_refuses_overdraw(pool: Pool, is_long_token: bool, delta: i64)
    requires
        pool.non_negative,
        pool.signed_amount(is_long_token) + delta < 0,
    ensures
        pool.apply_delta_spec(is_long_token, delta).result is Err,
        pool.apply_delta_spec(is_long_token, delta).state == pool,
        pool.signed_amount(is_long_token) + delta >= i64::MIN ==> pool.apply_delta_spec(
            is_long_token,
            delta,
        ).result == Err::<(), Error>(Error::InvalidArgument(Invalid::NegativePoolAmount)),
{
}

/// No delta drives a balance of a well-formed market negative: whatever the
/// outcome of a delta, the market stays well-formed, and a refused delta
/// leaves it as it was.
pub proof fn law_market_balances_stay_non_negative(
    market: Market,
    kind: PoolKind,
    is_long_token: bool,
    delta: i64,
)
    requires
        market.wf(),
    ensures
        market.apply_delta_spec(kind, is_long_token, delta).state.wf(),
        market.apply_delta_spec(kind, is_long_token, delta).result is Err
            ==> market.apply_delta_spec(kind, is_long_token, delta).state == market,
        kind != PoolKind::PositionImpact && market.pool_of(kind).signed_amount(is_long_token)
            + delta < 0 ==> market.apply_delta_spec(kind, is_long_token, delta).result is Err,
{
}

} // verus!
