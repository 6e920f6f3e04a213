//! The position record, and what its state implies at given prices.

use vstd::prelude::*;
use crate::action::update_funding_state::{unpack_to_funding_amount_delta,
    unpack_to_funding_amount_delta_spec};
use crate::error::{Calc, Error, Invalid, Step, compute, computed};
use crate::fees::{BorrowingFees, Fees, FundingFees, PositionFees};
use crate::fixed::{apply_factor, apply_factor_spec};
use crate::market::{Market, PoolKind};
use crate::num::{checked_div, checked_mul, checked_mul_div, checked_mul_div_ceil,
    checked_mul_div_with_signed_numerator, checked_signed_sub, checked_sub, fit_signed,
    fit_unsigned, mul_div_ceil_spec, mul_div_spec, mul_div_with_signed_numerator_spec,
    signed_checked_sub, to_opposite_signed, to_opposite_signed_spec, to_signed, to_signed_spec,
    unsigned_abs};
use crate::price::{Price, Prices};
use crate::price_impact::{BalanceChange, PriceImpact, cap_negative_impact, cap_negative_impact_spec,
    position_price_impact, position_price_impact_spec};

verus! {

/// A market and a position in it, as an action finds or leaves them.
pub struct State {
    pub market: Market,
    pub position: Position,
}

/// A position together with its market, both open to change.
pub struct PositionOps<'a> {
    pub market: &'a mut Market,
    pub position: &'a mut Position,
}

/// The leveraged exposure of one trader to one side of one market.
#[derive(Clone, Copy, Debug, PartialEq, Eq, Structural)]
pub struct Position {
    pub is_long: bool,
    pub is_collateral_token_long: bool,
    pub size_in_usd: u64,
    pub size_in_tokens: u64,
    pub collateral_amount: u64,
    /// The cumulative borrowing factor of the market at the last update.
    pub borrowing_factor: u64,
    /// What the side had been charged per size at the last update.
    pub funding_fee_amount_per_size: u64,
    /// What the side could claim per size in long tokens at the last update.
    pub claimable_funding_fee_amount_per_size_in_long_token: u64,
    /// What the side could claim per size in short tokens at the last update.
    pub claimable_funding_fee_amount_per_size_in_short_token: u64,
}

/// What a collateral value is against the demands on a position.
#[derive(Clone, Copy, Debug, PartialEq, Eq, Structural)]
pub enum CollateralCheck {
    /// The collateral covers every demand.
    Sufficient,
    /// The collateral value is negative.
    Negative,
    /// The collateral value is zero.
    Zero,
    /// The collateral value is below the least value of any position.
    MinCollateral,
    /// The collateral value is below the part of the size that it must cover.
    MinCollateralForLeverage,
}

/// The profit or loss of a part of a position.
#[derive(Clone, Copy, Debug, PartialEq, Eq, Structural)]
pub struct Pnl {
    /// The profit (positive) or loss of the part, in USD.
    pub value: i64,
    /// The tokens of the part.
    pub size_delta_in_tokens: u64,
}

/// The collateral value against the demands on a position of a size: it must
/// not be negative, not below `min_collateral_value` where one is given, not
/// zero unless allowed, and not below the size times the factor.
pub open spec fn check_collateral_spec(
    size_in_usd: u64,
    min_collateral_factor: u64,
    min_collateral_value: Option<u64>,
    allow_zero_collateral: bool,
    collateral_value: i64,
    unit: u64,
) -> Result<CollateralCheck, Error> {
    if collateral_value < 0 {
        if min_collateral_value is Some {
            Ok(CollateralCheck::MinCollateral)
        } else {
            Ok(CollateralCheck::Negative)
        }
    } else if min_collateral_value is Some && collateral_value < min_collateral_value->0 {
        Ok(CollateralCheck::MinCollateral)
    } else if !allow_zero_collateral && collateral_value == 0 {
        Ok(CollateralCheck::Zero)
    } else {
        match apply_factor_spec(size_in_usd, min_collateral_factor, unit) {
            None => Err(Error::Computation(Calc::MinCollateral)),
            Some(for_leverage) => if collateral_value < for_leverage {
                Ok(CollateralCheck::MinCollateralForLeverage)
            } else {
                Ok(CollateralCheck::Sufficient)
            },
        }
    }
}

/// Checks a collateral value against the demands on a position.
pub fn check_collateral(
    size_in_usd: u64,
    min_collateral_factor: u64,
    min_collateral_value: Option<u64>,
    allow_zero_collateral: bool,
    collateral_value: i64,
    unit: u64,
) -> (r: Result<CollateralCheck, Error>)
    ensures
        r == check_collateral_spec(
            size_in_usd,
            min_collateral_factor,
            min_collateral_value,
            allow_zero_collateral,
            collateral_value,
            unit,
        ),
{
    if collateral_value < 0 {
        return if min_collateral_value.is_some() {
            Ok(CollateralCheck::MinCollateral)
        } else {
            Ok(CollateralCheck::Negative)
        };
    }
    let value = unsigned_abs(collateral_value);
    match min_collateral_value {
        Some(least) => {
            if value < least {
                return Ok(CollateralCheck::MinCollateral);
            }
        },
        None => {},
    }
    if !allow_zero_collateral && value == 0 {
        return Ok(CollateralCheck::Zero);
    }
    let for_leverage = compute(
        apply_factor(size_in_usd, min_collateral_factor, unit),
        Calc::MinCollateral,
    )?;
    if value < for_leverage {
        Ok(CollateralCheck::MinCollateralForLeverage)
    } else {
        Ok(CollateralCheck::Sufficient)
    }
}

impl Position {
    /// A position has a size in USD exactly when it has a size in tokens.
    pub open spec fn wf(self) -> bool {
        self.size_in_usd == 0 <==> self.size_in_tokens == 0
    }

    /// An empty position.
    pub open spec fn empty_spec(is_long: bool, is_collateral_token_long: bool) -> Position {
        Position {
            is_long,
            is_collateral_token_long,
            size_in_usd: 0,
            size_in_tokens: 0,
            collateral_amount: 0,
            borrowing_factor: 0,
            funding_fee_amount_per_size: 0,
            claimable_funding_fee_amount_per_size_in_long_token: 0,
            claimable_funding_fee_amount_per_size_in_short_token: 0,
        }
    }

    /// The snapshot of what the side could claim per size, for one token.
    pub open spec fn claimable_snapshot(self, is_long_collateral: bool) -> u64 {
        if is_long_collateral {
            self.claimable_funding_fee_amount_per_size_in_long_token
        } else {
            self.claimable_funding_fee_amount_per_size_in_short_token
        }
    }

    /// The position with its funding snapshots taken from the market.
    pub open spec fn with_funding_snapshots(self, market: Market) -> Position {
        let claimable = market.claimable_funding_amount_per_size;
        Position {
            funding_fee_amount_per_size: market.funding_amount_per_size.of(
                self.is_long,
                self.is_collateral_token_long,
            ),
            claimable_funding_fee_amount_per_size_in_long_token: claimable.of(self.is_long, true),
            claimable_funding_fee_amount_per_size_in_short_token: claimable.of(self.is_long, false),
            ..self
        }
    }

    /// The fee on the size of an order in USD and in collateral tokens, the
    /// tokens split between the fee receiver and the pool. The factor is the
    /// one for orders that improve the balance where the order does, the
    /// other one otherwise; the tokens are valued at the bid.
    pub open spec fn order_fees_spec(
        market: Market,
        collateral_token_price: Price,
        size_delta_usd: u64,
        balance_change: BalanceChange,
    ) -> Result<(u64, Fees), Error> {
        let params = market.params.order_fee;
        let fee_value = apply_factor_spec(
            size_delta_usd,
            params.factor_spec(balance_change == BalanceChange::Improved),
            market.params.unit,
        );
        if fee_value is None || collateral_token_price.min == 0 {
            Err(Error::Computation(Calc::OrderFee))
        } else {
            let fee_amount = (fee_value->0 / collateral_token_price.min) as u64;
            let for_receiver = apply_factor_spec(
                fee_amount,
                params.fee_receiver_factor,
                market.params.unit,
            );
            if for_receiver is None || for_receiver->0 > fee_amount {
                Err(Error::Computation(Calc::OrderFee))
            } else {
                Ok(
                    (
                        fee_value->0,
                        Fees {
                            fee_amount_for_receiver: for_receiver->0,
                            fee_amount_for_pool: (fee_amount - for_receiver->0) as u64,
                        },
                    ),
                )
            }
        }
    }

    /// The borrowing fee that the position owes in USD: its size times the
    /// growth of the cumulative borrowing factor of its side since its
    /// snapshot.
    pub open spec fn pending_borrowing_fee_value_spec(self, market: Market) -> Result<u64, Error> {
        match market.cumulative_borrowing_factor_spec(self.is_long) {
            Err(e) => Err(e),
            Ok(latest) => if latest < self.borrowing_factor {
                Err(Error::Computation(Calc::BorrowingFee))
            } else {
                computed(
                    apply_factor_spec(
                        self.size_in_usd,
                        (latest - self.borrowing_factor) as u64,
                        market.params.unit,
                    ),
                    Calc::BorrowingFee,
                )
            },
        }
    }

    /// The borrowing fee in collateral tokens at the bid, and the fee
    /// receiver's part of it.
    pub open spec fn borrowing_fees_spec(
        self,
        market: Market,
        collateral_token_price: Price,
    ) -> Result<BorrowingFees, Error> {
        match self.pending_borrowing_fee_value_spec(market) {
            Err(e) => Err(e),
            Ok(value) => if collateral_token_price.min == 0 {
                Err(Error::Computation(Calc::BorrowingFee))
            } else {
                let amount = (value / collateral_token_price.min) as u64;
                match apply_factor_spec(
                    amount,
                    market.params.borrowing_fee.receiver_factor,
                    market.params.unit,
                ) {
                    None => Err(Error::Computation(Calc::BorrowingFee)),
                    Some(amount_for_receiver) => Ok(BorrowingFees { amount, amount_for_receiver }),
                }
            },
        }
    }

    /// The funding fee that the position owes, rounded up, and what it may
    /// claim of each token, rounded down, since its snapshots.
    pub open spec fn pending_funding_fees_spec(self, market: Market) -> Result<FundingFees, Error> {
        let adjustment = market.params.funding_amount_per_size_adjustment;
        let unit = market.params.unit;
        let amount = unpack_to_funding_amount_delta_spec(
            adjustment,
            market.funding_amount_per_size.of(self.is_long, self.is_collateral_token_long),
            self.funding_fee_amount_per_size,
            self.size_in_usd,
            true,
            unit,
        );
        let claimable_long = unpack_to_funding_amount_delta_spec(
            adjustment,
            market.claimable_funding_amount_per_size.of(self.is_long, true),
            self.claimable_funding_fee_amount_per_size_in_long_token,
            self.size_in_usd,
            false,
            unit,
        );
        let claimable_short = unpack_to_funding_amount_delta_spec(
            adjustment,
            market.claimable_funding_amount_per_size.of(self.is_long, false),
            self.claimable_funding_fee_amount_per_size_in_short_token,
            self.size_in_usd,
            false,
            unit,
        );
        if amount is None || claimable_long is None || claimable_short is None {
            Err(Error::Computation(Calc::FundingFee))
        } else {
            Ok(
                FundingFees {
                    amount: amount->0,
                    claimable_long_token_amount: claimable_long->0,
                    claimable_short_token_amount: claimable_short->0,
                },
            )
        }
    }

    /// The fees of a change of the position by a size: the order fee on the
    /// size, and the borrowing and funding fees that the position owes.
    pub open spec fn position_fees_spec(
        self,
        market: Market,
        collateral_token_price: Price,
        size_delta_usd: u64,
        balance_change: BalanceChange,
    ) -> Result<PositionFees, Error> {
        match Self::order_fees_spec(
            market,
            collateral_token_price,
            size_delta_usd,
            balance_change,
        ) {
            Err(e) => Err(e),
            Ok(order) => match self.borrowing_fees_spec(market, collateral_token_price) {
                Err(e) => Err(e),
                Ok(borrowing) => match self.pending_funding_fees_spec(market) {
                    Err(e) => Err(e),
                    Ok(funding) => Ok(
                        PositionFees {
                            paid_order_fee_value: order.0,
                            order: order.1,
                            borrowing,
                            funding,
                        },
                    ),
                },
            },
        }
    }

    /// The USD value of the collateral at the bid.
    pub open spec fn collateral_value_spec(self, prices: Prices) -> Result<u64, Error> {
        computed(
            fit_unsigned(
                self.collateral_amount * prices.collateral(self.is_collateral_token_long).min,
            ),
            Calc::CollateralValue,
        )
    }

    /// The profit or loss of the part `size_delta_usd` of the position: the
    /// value of the tokens of the position at the side of the index price
    /// that is worse for the position, against its size, in proportion to
    /// the tokens of the part. The tokens of a part of a long position are
    /// rounded up, those of a short one down; the whole position has all.
    pub open spec fn pnl_value_spec(
        self,
        prices: Prices,
        size_delta_usd: u64,
    ) -> Result<Pnl, Error> {
        let price = prices.index_token_price.pick_for_pnl(self.is_long, false);
        let position_value = self.size_in_tokens * price;
        let total = if self.is_long {
            position_value - self.size_in_usd
        } else {
            self.size_in_usd - position_value
        };
        let tokens = if self.size_in_usd == size_delta_usd {
            Some(self.size_in_tokens)
        } else if self.is_long {
            mul_div_ceil_spec(self.size_in_tokens, size_delta_usd, self.size_in_usd)
        } else {
            mul_div_spec(self.size_in_tokens, size_delta_usd, self.size_in_usd)
        };
        if position_value > i64::MAX || self.size_in_usd > i64::MAX {
            Err(Error::Convert)
        } else if tokens is None || fit_signed(total) is None {
            Err(Error::Computation(Calc::Pnl))
        } else {
            match mul_div_with_signed_numerator_spec(tokens->0, total as i64, self.size_in_tokens) {
                None => Err(Error::Computation(Calc::Pnl)),
                Some(value) => Ok(Pnl { value, size_delta_in_tokens: tokens->0 }),
            }
        }
    }

    /// The price impact of closing the whole position as far as it is
    /// charged against the position: the negative part of the impact, capped,
    /// and what closing does to the balance.
    pub open spec fn closing_impact_spec(self, market: Market) -> Result<PriceImpact, Error> {
        match to_opposite_signed_spec(self.size_in_usd) {
            Err(e) => Err(e),
            Ok(size_delta_usd) => match position_price_impact_spec(
                market,
                self.is_long,
                size_delta_usd,
            ) {
                Err(e) => Err(e),
                Ok(impact) => match cap_negative_impact_spec(
                    market,
                    size_delta_usd,
                    if impact.value < 0 { impact.value } else { 0 },
                ) {
                    Err(e) => Err(e),
                    Ok(value) => Ok(PriceImpact { value, balance_change: impact.balance_change }),
                },
            },
        }
    }

    /// What would be left of the value of the collateral if the position
    /// were closed now: the value at the bid, plus the profit or minus the
    /// loss, minus the negative price impact and the fees of closing.
    pub open spec fn remaining_collateral_value_spec(
        self,
        market: Market,
        prices: Prices,
    ) -> Result<i64, Error> {
        let collateral_price = prices.collateral(self.is_collateral_token_long);
        match self.pnl_value_spec(prices, self.size_in_usd) {
            Err(e) => Err(e),
            Ok(pnl) => match self.collateral_value_spec(prices) {
                Err(e) => Err(e),
                Ok(collateral_value) => match self.closing_impact_spec(market) {
                    Err(e) => Err(e),
                    Ok(impact) => match self.position_fees_spec(
                        market,
                        collateral_price,
                        self.size_in_usd,
                        impact.balance_change,
                    ) {
                        Err(e) => Err(e),
                        Ok(fees) => match fees.total_cost_amount_spec() {
                            Err(e) => Err(e),
                            Ok(cost) => {
                                let cost_value = cost * collateral_price.min;
                                if cost_value > i64::MAX || collateral_value > i64::MAX {
                                    Err(Error::Convert)
                                } else {
                                    computed(
                                        fit_signed(
                                            collateral_value + pnl.value + impact.value
                                                - cost_value,
                                        ),
                                        Calc::CollateralValue,
                                    )
                                }
                            },
                        },
                    },
                },
            },
        }
    }

    /// Why the position is liquidatable, if it is: what would be left of the
    /// value of its collateral is checked against the demands on its size.
    pub open spec fn check_liquidatable_spec(
        self,
        market: Market,
        prices: Prices,
        should_validate_min_collateral_usd: bool,
    ) -> Result<CollateralCheck, Error> {
        match self.remaining_collateral_value_spec(market, prices) {
            Err(e) => Err(e),
            Ok(remaining) => check_collateral_spec(
                self.size_in_usd,
                market.params.position.min_collateral_factor,
                if should_validate_min_collateral_usd {
                    Some(market.params.position.min_collateral_value)
                } else {
                    None
                },
                false,
                remaining,
                market.params.unit,
            ),
        }
    }

    /// Whether a collateral amount would cover a size: its value at the bid
    /// against the size times the least collateral factor.
    pub open spec fn will_collateral_be_sufficient_spec(
        self,
        market: Market,
        prices: Prices,
        next_size_in_usd: u64,
        next_collateral_amount: u64,
    ) -> Result<bool, Error> {
        match fit_unsigned(
            next_collateral_amount * prices.collateral(self.is_collateral_token_long).min,
        ) {
            None => Err(Error::Computation(Calc::CollateralValue)),
            Some(value) => match to_signed_spec(value) {
                Err(e) => Err(e),
                Ok(remaining) => match check_collateral_spec(
                    next_size_in_usd,
                    market.params.position.min_collateral_factor,
                    None,
                    true,
                    remaining,
                    market.params.unit,
                ) {
                    Err(e) => Err(e),
                    Ok(check) => Ok(check == CollateralCheck::Sufficient),
                },
            },
        }
    }

    /// The structural validation of a position that has just changed: both
    /// sizes are non-zero, the size in USD is not below the least size where
    /// that is asked, and the position is not liquidatable.
    pub open spec fn validate_spec(
        self,
        market: Market,
        prices: Prices,
        should_validate_min_position_size: bool,
        should_validate_min_collateral_usd: bool,
    ) -> Result<(), Error> {
        if self.size_in_usd == 0 || self.size_in_tokens == 0 {
            Err(Error::InvalidArgument(Invalid::InconsistentPosition))
        } else if should_validate_min_position_size && self.size_in_usd
            < market.params.position.min_position_size_usd {
            Err(Error::InvalidArgument(Invalid::PositionTooSmall))
        } else {
            match self.check_liquidatable_spec(market, prices, should_validate_min_collateral_usd) {
                Err(e) => Err(e),
                Ok(check) => if check == CollateralCheck::Sufficient {
                    Ok(())
                } else {
                    Err(Error::InvalidArgument(Invalid::Liquidatable))
                },
            }
        }
    }

    /// An empty long position.
    pub fn long(is_collateral_token_long: bool) -> (r: Self)
        ensures
            r == Position::empty_spec(true, is_collateral_token_long),
            r.wf(),
    {
        Position::empty(true, is_collateral_token_long)
    }

    /// An empty short position.
    pub fn short(is_collateral_token_long: bool) -> (r: Self)
        ensures
            r == Position::empty_spec(false, is_collateral_token_long),
            r.wf(),
    {
        Position::empty(false, is_collateral_token_long)
    }

    /// An empty position.
    pub fn empty(is_long: bool, is_collateral_token_long: bool) -> (r: Self)
        ensures
            r == Position::empty_spec(is_long, is_collateral_token_long),
            r.wf(),
    {
        Position {
            is_long,
            is_collateral_token_long,
            size_in_usd: 0,
            size_in_tokens: 0,
            collateral_amount: 0,
            borrowing_factor: 0,
            funding_fee_amount_per_size: 0,
            claimable_funding_fee_amount_per_size_in_long_token: 0,
            claimable_funding_fee_amount_per_size_in_short_token: 0,
        }
    }

    /// Opens the position and its market to an action.
    pub fn ops<'a>(&'a mut self, market: &'a mut Market) -> (r: PositionOps<'a>)
        ensures
            *r.market == *old(market),
            *r.position == *old(self),
            *final(market) == *final(r.market),
            *final(self) == *final(r.position),
    {
        PositionOps { market, position: self }
    }

    /// The price of the collateral token of the position.
    pub fn collateral_price(&self, prices: &Prices) -> (r: Price)
        ensures
            r == prices.collateral(self.is_collateral_token_long),
    {
        prices.collateral_token_price(self.is_collateral_token_long)
    }

    /// Takes the funding snapshots of the position from the market.
    pub fn refresh_funding_snapshots(&mut self, market: &Market)
        ensures
            *final(self) == old(self).with_funding_snapshots(*market),
    {
        self.funding_fee_amount_per_size = market.funding_fee_amount_per_size(
            self.is_long,
            self.is_collateral_token_long,
        );
        let claimable_in_long_token = market.claimable_funding_fee_amount_per_size(
            self.is_long,
            true,
        );
        let claimable_in_short_token = market.claimable_funding_fee_amount_per_size(
            self.is_long,
            false,
        );
        self.claimable_funding_fee_amount_per_size_in_long_token = claimable_in_long_token;
        self.claimable_funding_fee_amount_per_size_in_short_token = claimable_in_short_token;
    }

    /// The fee on the size of an order.
    pub fn order_fees(
        market: &Market,
        collateral_token_price: &Price,
        size_delta_usd: u64,
        balance_change: BalanceChange,
    ) -> (r: Result<(u64, Fees), Error>)
        ensures
            r == Position::order_fees_spec(
                *market,
                *collateral_token_price,
                size_delta_usd,
                balance_change,
            ),
    {
        let is_positive_impact = match balance_change {
            BalanceChange::Improved => true,
            _ => false,
        };
        let fee_value = compute(
            apply_factor(
                size_delta_usd,
                market.params.order_fee.factor(is_positive_impact),
                market.params.unit,
            ),
            Calc::OrderFee,
        )?;
        let fee_amount = compute(
            checked_div(fee_value, collateral_token_price.pick_price(false)),
            Calc::OrderFee,
        )?;
        let for_receiver = compute(
            apply_factor(
                fee_amount,
                market.params.order_fee.fee_receiver_factor,
                market.params.unit,
            ),
            Calc::OrderFee,
        )?;
        let for_pool = compute(checked_sub(fee_amount, for_receiver), Calc::OrderFee)?;
        Ok(
            (
                fee_value,
                Fees { fee_amount_for_receiver: for_receiver, fee_amount_for_pool: for_pool },
            ),
        )
    }

    /// The borrowing fee that the position owes in USD.
    pub fn pending_borrowing_fee_value(&self, market: &Market) -> (r: Result<u64, Error>)
        ensures
            r == self.pending_borrowing_fee_value_spec(*market),
    {
        let latest = market.cumulative_borrowing_factor(self.is_long)?;
        let growth = compute(checked_sub(latest, self.borrowing_factor), Calc::BorrowingFee)?;
        compute(apply_factor(self.size_in_usd, growth, market.params.unit), Calc::BorrowingFee)
    }

    /// The borrowing fee in collateral tokens.
    pub fn borrowing_fees(
        &self,
        market: &Market,
        collateral_token_price: &Price,
    ) -> (r: Result<BorrowingFees, Error>)
        ensures
            r == self.borrowing_fees_spec(*market, *collateral_token_price),
    {
        let value = self.pending_borrowing_fee_value(market)?;
        let amount = compute(
            checked_div(value, collateral_token_price.pick_price(false)),
            Calc::BorrowingFee,
        )?;
        let amount_for_receiver = compute(
            apply_factor(amount, market.params.borrowing_fee.receiver_factor, market.params.unit),
            Calc::BorrowingFee,
        )?;
        Ok(BorrowingFees { amount, amount_for_receiver })
    }

    /// The funding fee that the position owes, and what it may claim.
    pub fn pending_funding_fees(&self, market: &Market) -> (r: Result<FundingFees, Error>)
        ensures
            r == self.pending_funding_fees_spec(*market),
    {
        let adjustment = market.params.funding_amount_per_size_adjustment;
        let unit = market.params.unit;
        let amount = compute(
            unpack_to_funding_amount_delta(
                adjustment,
                market.funding_fee_amount_per_size(self.is_long, self.is_collateral_token_long),
                self.funding_fee_amount_per_size,
                self.size_in_usd,
                true,
                unit,
            ),
            Calc::FundingFee,
        )?;
        let claimable_long_token_amount = compute(
            unpack_to_funding_amount_delta(
                adjustment,
                market.claimable_funding_fee_amount_per_size(self.is_long, true),
                self.claimable_funding_fee_amount_per_size_in_long_token,
                self.size_in_usd,
                false,
                unit,
            ),
            Calc::FundingFee,
        )?;
        let claimable_short_token_amount = compute(
            unpack_to_funding_amount_delta(
                adjustment,
                market.claimable_funding_fee_amount_per_size(self.is_long, false),
                self.claimable_funding_fee_amount_per_size_in_short_token,
                self.size_in_usd,
                false,
                unit,
            ),
            Calc::FundingFee,
        )?;
        Ok(FundingFees { amount, claimable_long_token_amount, claimable_short_token_amount })
    }

    /// The fees of a change of the position by a size.
    pub fn position_fees(
        &self,
        market: &Market,
        collateral_token_price: &Price,
        size_delta_usd: u64,
        balance_change: BalanceChange,
    ) -> (r: Result<PositionFees, Error>)
        ensures
            r == self.position_fees_spec(
                *market,
                *collateral_token_price,
                size_delta_usd,
                balance_change,
            ),
    {
        let (paid_order_fee_value, order) = Position::order_fees(
            market,
            collateral_token_price,
            size_delta_usd,
            balance_change,
        )?;
        let borrowing = self.borrowing_fees(market, collateral_token_price)?;
        let funding = self.pending_funding_fees(market)?;
        Ok(PositionFees { paid_order_fee_value, order, borrowing, funding })
    }

    /// The USD value of the collateral.
    pub fn collateral_value(&self, prices: &Prices) -> (r: Result<u64, Error>)
        ensures
            r == self.collateral_value_spec(*prices),
    {
        compute(
            checked_mul(self.collateral_amount, self.collateral_price(prices).pick_price(false)),
            Calc::CollateralValue,
        )
    }

    /// The profit or loss of a part of the position.
    pub fn pnl_value(&self, prices: &Prices, size_delta_usd: u64) -> (r: Result<Pnl, Error>)
        ensures
            r == self.pnl_value_spec(*prices, size_delta_usd),
    {
        let price = prices.index_token_price.pick_price_for_pnl(self.is_long, false);
        let position_value = match checked_mul(self.size_in_tokens, price) {
            Some(value) => to_signed(value)?,
            None => {
                return Err(Error::Convert);
            },
        };
        let size_in_usd = to_signed(self.size_in_usd)?;
        let tokens = if self.size_in_usd == size_delta_usd {
            Some(self.size_in_tokens)
        } else if self.is_long {
            checked_mul_div_ceil(self.size_in_tokens, size_delta_usd, self.size_in_usd)
        } else {
            checked_mul_div(self.size_in_tokens, size_delta_usd, self.size_in_usd)
        };
        let total = if self.is_long {
            signed_checked_sub(position_value, size_in_usd)
        } else {
            signed_checked_sub(size_in_usd, position_value)
        };
        let tokens = compute(tokens, Calc::Pnl)?;
        let total = compute(total, Calc::Pnl)?;
        let value = compute(
            checked_mul_div_with_signed_numerator(tokens, total, self.size_in_tokens),
            Calc::Pnl,
        )?;
        Ok(Pnl { value, size_delta_in_tokens: tokens })
    }

    /// The price impact of closing the whole position as far as it is
    /// charged against the position.
    pub fn closing_impact(&self, market: &Market) -> (r: Result<PriceImpact, Error>)
        ensures
            r == self.closing_impact_spec(*market),
            r matches Ok(impact) ==> impact.value <= 0,
    {
        let size_delta_usd = to_opposite_signed(self.size_in_usd)?;
        let impact = position_price_impact(market, self.is_long, size_delta_usd)?;
        let value = cap_negative_impact(
            market,
            size_delta_usd,
            if impact.value < 0 { impact.value } else { 0 },
        )?;
        Ok(PriceImpact { value, balance_change: impact.balance_change })
    }

    /// What would be left of the value of the collateral if the position
    /// were closed now.
    pub fn remaining_collateral_value(
        &self,
        market: &Market,
        prices: &Prices,
    ) -> (r: Result<i64, Error>)
        ensures
            r == self.remaining_collateral_value_spec(*market, *prices),
    {
        let collateral_price = self.collateral_price(prices);
        let pnl = self.pnl_value(prices, self.size_in_usd)?;
        let collateral_value = self.collateral_value(prices)?;
        let impact = self.closing_impact(market)?;
        let fees = self.position_fees(
            market,
            &collateral_price,
            self.size_in_usd,
            impact.balance_change,
        )?;
        let cost = fees.total_cost_amount()?;
        let cost_value = match checked_mul(cost, collateral_price.pick_price(false)) {
            Some(value) => to_signed(value)?,
            None => {
                return Err(Error::Convert);
            },
        };
        let collateral_value = to_signed(collateral_value)?;
        net_value(collateral_value, pnl.value, impact.value, cost_value)
    }

    /// Checks whether the position is liquidatable.
    pub fn check_liquidatable(
        &self,
        market: &Market,
        prices: &Prices,
        should_validate_min_collateral_usd: bool,
    ) -> (r: Result<CollateralCheck, Error>)
        ensures
            r == self.check_liquidatable_spec(*market, *prices, should_validate_min_collateral_usd),
    {
        let remaining = self.remaining_collateral_value(market, prices)?;
        check_collateral(
            self.size_in_usd,
            market.params.position.min_collateral_factor,
            if should_validate_min_collateral_usd {
                Some(market.params.position.min_collateral_value)
            } else {
                None
            },
            false,
            remaining,
            market.params.unit,
        )
    }

    /// Whether a collateral amount would cover a size.
    pub fn will_collateral_be_sufficient(
        &self,
        market: &Market,
        prices: &Prices,
        next_size_in_usd: u64,
        next_collateral_amount: u64,
    ) -> (r: Result<bool, Error>)
        ensures
            r == self.will_collateral_be_sufficient_spec(
                *market,
                *prices,
                next_size_in_usd,
                next_collateral_amount,
            ),
    {
        let value = compute(
            checked_mul(next_collateral_amount, self.collateral_price(prices).pick_price(false)),
            Calc::CollateralValue,
        )?;
        let remaining = to_signed(value)?;
        let check = check_collateral(
            next_size_in_usd,
            market.params.position.min_collateral_factor,
            None,
            true,
            remaining,
            market.params.unit,
        )?;
        Ok(
            match check {
                CollateralCheck::Sufficient => true,
                _ => false,
            },
        )
    }

    /// Validates the structure of a position that has just changed.
    pub fn validate(
        &self,
        market: &Market,
        prices: &Prices,
        should_validate_min_position_size: bool,
        should_validate_min_collateral_usd: bool,
    ) -> (r: Result<(), Error>)
        ensures
            r == self.validate_spec(
                *market,
                *prices,
                should_validate_min_position_size,
                should_validate_min_collateral_usd,
            ),
    {
        if self.size_in_usd == 0 || self.size_in_tokens == 0 {
            return Err(Error::InvalidArgument(Invalid::InconsistentPosition));
        }
        if should_validate_min_position_size && self.size_in_usd
            < market.params.position.min_position_size_usd {
            return Err(Error::InvalidArgument(Invalid::PositionTooSmall));
        }
        match self.check_liquidatable(market, prices, should_validate_min_collateral_usd)? {
            CollateralCheck::Sufficient => Ok(()),
            _ => Err(Error::InvalidArgument(Invalid::Liquidatable)),
        }
    }
}

/// The change of the total borrowing of a side that brings it from the
/// position as it is to the position at a new size and borrowing factor.
pub open spec fn total_borrowing_delta_spec(
    market: Market,
    position: Position,
    next_size_in_usd: u64,
    next_borrowing_factor: u64,
) -> Result<i64, Error> {
    let previous = apply_factor_spec(
        position.size_in_usd,
        position.borrowing_factor,
        market.params.unit,
    );
    let next = apply_factor_spec(next_size_in_usd, next_borrowing_factor, market.params.unit);
    if previous is None || next is None {
        Err(Error::Computation(Calc::TotalBorrowing))
    } else {
        computed(fit_signed(next->0 - previous->0), Calc::TotalBorrowing)
    }
}

/// The market after the total borrowing of the side of a position followed
/// the position to a new size and borrowing factor.
pub open spec fn update_total_borrowing_spec(
    market: Market,
    position: Position,
    next_size_in_usd: u64,
    next_borrowing_factor: u64,
) -> Step<Market, ()> {
    match total_borrowing_delta_spec(market, position, next_size_in_usd, next_borrowing_factor) {
        Err(e) => Step { state: market, result: Err(e) },
        Ok(delta) => market.apply_delta_spec(PoolKind::TotalBorrowing, position.is_long, delta),
    }
}

/// Updates the total borrowing of the side of a position.
pub fn update_total_borrowing(
    market: &mut Market,
    position: &Position,
    next_size_in_usd: u64,
    next_borrowing_factor: u64,
) -> (r: Result<(), Error>)
    ensures
        (Step { state: *final(market), result: r }) == update_total_borrowing_spec(
            *old(market),
            *position,
            next_size_in_usd,
            next_borrowing_factor,
        ),
        r is Err ==> *final(market) == *old(market),
        old(market).wf() ==> final(market).wf(),
{
    let previous = apply_factor(
        position.size_in_usd,
        position.borrowing_factor,
        market.params.unit,
    );
    let next = apply_factor(next_size_in_usd, next_borrowing_factor, market.params.unit);
    let previous = compute(previous, Calc::TotalBorrowing);
    let next = compute(next, Calc::TotalBorrowing);
    let previous = previous?;
    let next = next?;
    let delta = compute(checked_signed_sub(next, previous), Calc::TotalBorrowing)?;
    market.apply_delta(PoolKind::TotalBorrowing, position.is_long, delta)
}

/// The market after the open interest of the side of a position changed by
/// a size: first in USD, then in tokens, up to the first delta that is
/// refused. A change of no size changes nothing.
pub open spec fn update_open_interest_spec(
    market: Market,
    position: Position,
    size_delta_usd: i64,
    size_delta_in_tokens: i64,
) -> Step<Market, ()> {
    if size_delta_usd == 0 {
        Step { state: market, result: Ok(()) }
    } else {
        market.apply_delta_spec(
            PoolKind::open_interest(position.is_long),
            position.is_collateral_token_long,
            size_delta_usd,
        ).then_apply(
            PoolKind::open_interest_in_tokens(position.is_long),
            position.is_collateral_token_long,
            size_delta_in_tokens,
        )
    }
}

/// Updates the open interest of the side of a position.
pub fn update_open_interest(
    market: &mut Market,
    position: &Position,
    size_delta_usd: i64,
    size_delta_in_tokens: i64,
) -> (r: Result<(), Error>)
    ensures
        (Step { state: *final(market), result: r }) == update_open_interest_spec(
            *old(market),
            *position,
            size_delta_usd,
            size_delta_in_tokens,
        ),
        old(market).wf() ==> final(market).wf(),
{
    if size_delta_usd != 0 {
        market.apply_delta(
            PoolKind::for_open_interest(position.is_long),
            position.is_collateral_token_long,
            size_delta_usd,
        )?;
        market.apply_delta(
            PoolKind::for_open_interest_in_tokens(position.is_long),
            position.is_collateral_token_long,
            size_delta_in_tokens,
        )?;
    }
    Ok(())
}

/// `collateral + pnl + impact - cost` for a non-positive impact and
/// non-negative collateral and cost; fails with `Computation` where the
/// result leaves `i64`.
fn net_value(
    collateral_value: i64,
    pnl: i64,
    impact: i64,
    cost_value: i64,
) -> (r: Result<i64, Error>)
    requires
        collateral_value >= 0,
        cost_value >= 0,
        impact <= 0,
    ensures
        r == computed(
            fit_signed(collateral_value + pnl + impact - cost_value),
            Calc::CollateralValue,
        ),
{
    let total: i128 = (collateral_value as i128) + (pnl as i128) + (impact as i128) - (
    cost_value as i128);
    if total < -0x8000_0000_0000_0000 || total > 0x7fff_ffff_ffff_ffff {
        Err(Error::Computation(Calc::CollateralValue))
    } else {
        Ok(total as i64)
    }
}

} // verus!
