//! The parameters of the orders that a client creates.

use vstd::prelude::*;

verus! {

/// The kinds of order.
#[derive(Clone, Copy, Debug, PartialEq, Eq, Structural)]
pub enum OrderKind {
    /// Liquidation: a keeper closes a position that is not covered.
    Liquidation,
    /// Auto-deleveraging: a keeper decreases a profitable position.
    AutoDeleveraging,
    /// Swap at the market price.
    MarketSwap,
    /// Increase a position at the market price.
    MarketIncrease,
    /// Decrease a position at the market price.
    MarketDecrease,
    /// Swap once the output is acceptable.
    LimitSwap,
    /// Increase a position at a trigger price.
    LimitIncrease,
    /// Decrease a position at a trigger price to take profit.
    LimitDecrease,
    /// Decrease a position at a trigger price to stop a loss.
    StopLossDecrease,
}

/// How the output of a decrease is swapped.
#[derive(Clone, Copy, Debug, PartialEq, Eq, Structural)]
pub enum DecreasePositionSwapType {
    /// Not at all.
    NoSwap,
    /// The token of the side into the collateral token.
    PnlTokenToCollateralToken,
    /// The collateral token into the token of the side.
    CollateralToPnlToken,
}

/// Order Params.
#[derive(Clone, Copy, Debug, PartialEq, Eq, Structural)]
pub struct OrderParams {
    /// Order kind.
    pub kind: OrderKind,
    /// Decrease position swap type.
    pub decrease_position_swap_type: Option<DecreasePositionSwapType>,
    /// Min output amount or value.
    pub min_output_amount: u128,
    /// Size delta usd.
    pub size_delta_usd: u128,
    /// Initial collateral delta amount.
    pub initial_collateral_delta_amount: u64,
    /// Acceptable price (unit price).
    pub acceptable_price: Option<u128>,
    /// Trigger price (unit price).
    pub trigger_price: Option<u128>,
    /// Whether the order is for a long or short position.
    pub is_long: bool,
    /// Valid from this timestamp.
    pub valid_from_ts: Option<i64>,
}

impl OrderParams {
    /// An order of a kind on a position: a size, a collateral amount, and
    /// perhaps a trigger price; nothing else is asked of it.
    pub open spec fn position_order(
        kind: OrderKind,
        is_long: bool,
        size_delta_usd: u128,
        initial_collateral_delta_amount: u64,
        trigger_price: Option<u128>,
    ) -> OrderParams {
        OrderParams {
            kind,
            decrease_position_swap_type: None,
            min_output_amount: 0,
            size_delta_usd,
            initial_collateral_delta_amount,
            acceptable_price: None,
            trigger_price,
            is_long,
            valid_from_ts: None,
        }
    }

    /// A swap of a kind: an amount to swap in and a least output; it has no
    /// size and counts as long.
    pub open spec fn swap_order(
        kind: OrderKind,
        min_output_amount: u128,
        initial_swap_in_token_amount: u64,
    ) -> OrderParams {
        OrderParams {
            kind,
            decrease_position_swap_type: None,
            min_output_amount,
            size_delta_usd: 0,
            initial_collateral_delta_amount: initial_swap_in_token_amount,
            acceptable_price: None,
            trigger_price: None,
            is_long: true,
            valid_from_ts: None,
        }
    }

    /// Create a market increase position order.
    pub fn market_increase(
        initial_collateral_amount: u64,
        is_long: bool,
        increment_size_in_usd: u128,
    ) -> (r: Self)
        ensures
            r == Self::position_order(
                OrderKind::MarketIncrease,
                is_long,
                increment_size_in_usd,
                initial_collateral_amount,
                None,
            ),
    {
        OrderParams {
            kind: OrderKind::MarketIncrease,
            decrease_position_swap_type: None,
            min_output_amount: 0,
            size_delta_usd: increment_size_in_usd,
            initial_collateral_delta_amount: initial_collateral_amount,
            acceptable_price: None,
            trigger_price: None,
            is_long,
            valid_from_ts: None,
        }
    }

    /// Create a market decrease position order.
    pub fn market_decrease(
        collateral_withdrawal_amount: u64,
        is_long: bool,
        decrement_size_in_usd: u128,
    ) -> (r: Self)
        ensures
            r == Self::position_order(
                OrderKind::MarketDecrease,
                is_long,
                decrement_size_in_usd,
                collateral_withdrawal_amount,
                None,
            ),
    {
        OrderParams {
            kind: OrderKind::MarketDecrease,
            decrease_position_swap_type: None,
            min_output_amount: 0,
            size_delta_usd: decrement_size_in_usd,
            initial_collateral_delta_amount: collateral_withdrawal_amount,
            acceptable_price: None,
            trigger_price: None,
            is_long,
            valid_from_ts: None,
        }
    }

    /// Create a market swap order.
    pub fn market_swap(initial_swap_in_token_amount: u64) -> (r: Self)
        ensures
            r == Self::swap_order(OrderKind::MarketSwap, 0, initial_swap_in_token_amount),
    {
        OrderParams {
            kind: OrderKind::MarketSwap,
            decrease_position_swap_type: None,
            min_output_amount: 0,
            size_delta_usd: 0,
            initial_collateral_delta_amount: initial_swap_in_token_amount,
            acceptable_price: None,
            trigger_price: None,
            is_long: true,
            valid_from_ts: None,
        }
    }

    /// Create a limit increase order.
    pub fn limit_increase(
        is_long: bool,
        increment_size_in_usd: u128,
        price: u128,
        initial_collateral_amount: u64,
    ) -> (r: Self)
        ensures
            r == Self::position_order(
                OrderKind::LimitIncrease,
                is_long,
                increment_size_in_usd,
                initial_collateral_amount,
                Some(price),
            ),
    {
        OrderParams {
            kind: OrderKind::LimitIncrease,
            decrease_position_swap_type: None,
            min_output_amount: 0,
            size_delta_usd: increment_size_in_usd,
            initial_collateral_delta_amount: initial_collateral_amount,
            acceptable_price: None,
            trigger_price: Some(price),
            is_long,
            valid_from_ts: None,
        }
    }

    /// Create a limit decrease order.
    pub fn limit_decrease(
        is_long: bool,
        decrement_size_in_usd: u128,
        price: u128,
        collateral_withdrawal_amount: u64,
    ) -> (r: Self)
        ensures
            r == Self::position_order(
                OrderKind::LimitDecrease,
                is_long,
                decrement_size_in_usd,
                collateral_withdrawal_amount,
                Some(price),
            ),
    {
        OrderParams {
            kind: OrderKind::LimitDecrease,
            decrease_position_swap_type: None,
            min_output_amount: 0,
            size_delta_usd: decrement_size_in_usd,
            initial_collateral_delta_amount: collateral_withdrawal_amount,
            acceptable_price: None,
            trigger_price: Some(price),
            is_long,
            valid_from_ts: None,
        }
    }

    /// Create a stop-loss decrease order.
    pub fn stop_loss(
        is_long: bool,
        decrement_size_in_usd: u128,
        price: u128,
        collateral_withdrawal_amount: u64,
    ) -> (r: Self)
        ensures
            r == Self::position_order(
                OrderKind::StopLossDecrease,
                is_long,
                decrement_size_in_usd,
                collateral_withdrawal_amount,
                Some(price),
            ),
    {
        OrderParams {
            kind: OrderKind::StopLossDecrease,
            decrease_position_swap_type: None,
            min_output_amount: 0,
            size_delta_usd: decrement_size_in_usd,
            initial_collateral_delta_amount: collateral_withdrawal_amount,
            acceptable_price: None,
            trigger_price: Some(price),
            is_long,
            valid_from_ts: None,
        }
    }

    /// Create a limit swap order.
    pub fn limit_swap(min_output_amount: u64, initial_swap_in_token_amount: u64) -> (r: Self)
        ensures
            r == Self::swap_order(
                OrderKind::LimitSwap,
                min_output_amount as u128,
                initial_swap_in_token_amount,
            ),
    {
        OrderParams {
            kind: OrderKind::LimitSwap,
            decrease_position_swap_type: None,
            min_output_amount: min_output_amount as u128,
            size_delta_usd: 0,
            initial_collateral_delta_amount: initial_swap_in_token_amount,
            acceptable_price: None,
            trigger_price: None,
            is_long: true,
            valid_from_ts: None,
        }
    }
}

} // verus!
