//! The parameter schedule of a market. The engine reads it and never changes it.

use vstd::prelude::*;

verus! {

/// Parameters of the price impact of a change of the open-interest balance.
#[derive(Clone, Copy, Debug, PartialEq, Eq, Structural)]
pub struct PriceImpactParams {
    /// The exponent of the distance of the two sides; a whole number of units.
    pub exponent: u64,
    /// The factor under which a shrinking distance is rewarded.
    pub positive_factor: u64,
    /// The factor under which a growing distance is charged.
    pub negative_factor: u64,
}

impl PriceImpactParams {
    /// The positive impact factor, which is never above the negative one.
    pub open spec fn adjusted_positive_factor(self) -> u64 {
        if self.positive_factor > self.negative_factor {
            self.negative_factor
        } else {
            self.positive_factor
        }
    }

    /// The factors `(positive, negative)` in use: a positive factor above the
    /// negative one is lowered to it.
    pub fn adjusted_factors(&self) -> (r: (u64, u64))
        ensures
            r == (self.adjusted_positive_factor(), self.negative_factor),
    {
        if self.positive_factor > self.negative_factor {
            (self.negative_factor, self.negative_factor)
        } else {
            (self.positive_factor, self.negative_factor)
        }
    }
}

/// Parameters of the fee on the size of an order.
#[derive(Clone, Copy, Debug, PartialEq, Eq, Structural)]
pub struct FeeParams {
    /// The part of the size charged to an order that improves the balance.
    pub positive_impact_fee_factor: u64,
    /// The part of the size charged to any other order.
    pub negative_impact_fee_factor: u64,
    /// The part of the fee that goes to the fee receiver.
    pub fee_receiver_factor: u64,
}

impl FeeParams {
    /// The fee factor by whether the order improves the balance.
    pub open spec fn factor_spec(self, is_positive_impact: bool) -> u64 {
        if is_positive_impact {
            self.positive_impact_fee_factor
        } else {
            self.negative_impact_fee_factor
        }
    }

    /// The fee factor by whether the order improves the balance.
    pub fn factor(&self, is_positive_impact: bool) -> (r: u64)
        ensures
            r == self.factor_spec(is_positive_impact),
    {
        if is_positive_impact {
            self.positive_impact_fee_factor
        } else {
            self.negative_impact_fee_factor
        }
    }
}

/// Parameters of the borrowing fee.
#[derive(Clone, Copy, Debug, PartialEq, Eq, Structural)]
pub struct BorrowingFeeParams {
    /// The part of the borrowing fee that goes to the fee receiver.
    pub receiver_factor: u64,
    /// The borrowing factor per second of the long side at full usage.
    pub factor_for_long: u64,
    /// The borrowing factor per second of the short side at full usage.
    pub factor_for_short: u64,
    /// The exponent of the reserved value of the long side; a whole number of units.
    pub exponent_for_long: u64,
    /// The exponent of the reserved value of the short side; a whole number of units.
    pub exponent_for_short: u64,
    /// Whether the side with the smaller open interest borrows for free.
    pub skip_borrowing_fee_for_smaller_side: bool,
}

impl BorrowingFeeParams {
    /// The borrowing factor of a side.
    pub open spec fn factor_spec(self, is_long: bool) -> u64 {
        if is_long { self.factor_for_long } else { self.factor_for_short }
    }

    /// The borrowing exponent of a side.
    pub open spec fn exponent_spec(self, is_long: bool) -> u64 {
        if is_long { self.exponent_for_long } else { self.exponent_for_short }
    }

    /// The borrowing factor of a side.
    pub fn factor(&self, is_long: bool) -> (r: u64)
        ensures
            r == self.factor_spec(is_long),
    {
        if is_long { self.factor_for_long } else { self.factor_for_short }
    }

    /// The borrowing exponent of a side.
    pub fn exponent(&self, is_long: bool) -> (r: u64)
        ensures
            r == self.exponent_spec(is_long),
    {
        if is_long { self.exponent_for_long } else { self.exponent_for_short }
    }
}

/// How the funding factor per second changes over a period.
#[derive(Clone, Copy, Debug, PartialEq, Eq, Structural)]
pub enum FundingRateChangeType {
    /// It stays.
    NoChange,
    /// It grows toward the side with the larger open interest.
    Increase,
    /// Its magnitude shrinks.
    Decrease,
}

/// Parameters of the funding fee.
#[derive(Clone, Copy, Debug, PartialEq, Eq, Structural)]
pub struct FundingFeeParams {
    /// The exponent of the open-interest difference; a whole number of units.
    pub exponent: u64,
    /// The funding factor per second at full imbalance, without adaptive funding.
    pub funding_factor: u64,
    /// The largest magnitude of the funding factor per second.
    pub max_factor_per_second: u64,
    /// The least magnitude of the funding factor per second with adaptive funding.
    pub min_factor_per_second: u64,
    /// How fast the funding factor grows per second; zero switches adaptive funding off.
    pub increase_factor_per_second: u64,
    /// How fast the magnitude of the funding factor shrinks per second.
    pub decrease_factor_per_second: u64,
    /// The difference factor above which the funding factor grows.
    pub threshold_for_stable_funding: u64,
    /// The difference factor below which the funding factor shrinks.
    pub threshold_for_decrease_funding: u64,
}

impl FundingFeeParams {
    /// The change of the funding factor. While the current factor charges the
    /// side with the larger open interest, the factor grows above the stable
    /// threshold of the difference factor, shrinks below the decrease
    /// threshold, and stays in between. Otherwise it grows toward the larger
    /// side.
    pub open spec fn change_spec(
        self,
        funding_factor_per_second: i64,
        long_open_interest: u64,
        short_open_interest: u64,
        diff_factor: u64,
    ) -> FundingRateChangeType {
        let same_direction = (funding_factor_per_second > 0 && long_open_interest
            > short_open_interest) || (funding_factor_per_second < 0 && long_open_interest
            < short_open_interest);
        if same_direction {
            if diff_factor > self.threshold_for_stable_funding {
                FundingRateChangeType::Increase
            } else if diff_factor < self.threshold_for_decrease_funding {
                FundingRateChangeType::Decrease
            } else {
                FundingRateChangeType::NoChange
            }
        } else {
            FundingRateChangeType::Increase
        }
    }

    /// Decides how the funding factor per second changes.
    pub fn change(
        &self,
        funding_factor_per_second: i64,
        long_open_interest: u64,
        short_open_interest: u64,
        diff_factor: u64,
    ) -> (r: FundingRateChangeType)
        ensures
            r == self.change_spec(
                funding_factor_per_second,
                long_open_interest,
                short_open_interest,
                diff_factor,
            ),
    {
        let same_direction = (funding_factor_per_second > 0 && long_open_interest
            > short_open_interest) || (funding_factor_per_second < 0 && long_open_interest
            < short_open_interest);
        if same_direction {
            if diff_factor > self.threshold_for_stable_funding {
                FundingRateChangeType::Increase
            } else if diff_factor < self.threshold_for_decrease_funding {
                FundingRateChangeType::Decrease
            } else {
                FundingRateChangeType::NoChange
            }
        } else {
            FundingRateChangeType::Increase
        }
    }
}

/// Parameters that bound positions.
#[derive(Clone, Copy, Debug, PartialEq, Eq, Structural)]
pub struct PositionParams {
    /// The least size of a position that stays open, in USD.
    pub min_position_size_usd: u64,
    /// The least value of the collateral of a position that stays open, in USD.
    pub min_collateral_value: u64,
    /// The part of its size that the collateral of a position must be worth.
    pub min_collateral_factor: u64,
    /// The part of a size that a positive price impact may reach.
    pub max_positive_position_impact_factor: u64,
    /// The part of a size that a negative price impact may reach.
    pub max_negative_position_impact_factor: u64,
}

/// The parameters of a market.
#[derive(Clone, Copy, Debug, PartialEq, Eq, Structural)]
pub struct MarketParams {
    /// The fixed-point unit of USD values and factors: ten to the number of
    /// fractional digits.
    pub unit: u64,
    /// The scale at which funding amounts per size are kept.
    pub funding_amount_per_size_adjustment: u64,
    /// What bounds positions.
    pub position: PositionParams,
    /// The price impact of a change of the open interest.
    pub position_impact: PriceImpactParams,
    /// The fee on the size of an order.
    pub order_fee: FeeParams,
    /// The borrowing fee.
    pub borrowing_fee: BorrowingFeeParams,
    /// The funding fee.
    pub funding_fee: FundingFeeParams,
    /// The part of a side's pool value that its positions may reserve.
    pub reserve_factor: u64,
    /// The part of a side's pool value that its open interest may reserve.
    pub open_interest_reserve_factor: u64,
}

impl MarketParams {
    /// The default parameters: a market of nine fractional digits with
    /// moderate fees, adaptive funding, borrowing for free on the smaller side,
    /// and reserves up to the whole pool.
    pub open spec fn default_spec() -> MarketParams {
        MarketParams {
            unit: 1_000_000_000,
            funding_amount_per_size_adjustment: 10_000,
            position: PositionParams {
                min_position_size_usd: 1_000_000_000,
                min_collateral_value: 1_000_000_000,
                min_collateral_factor: 10_000_000,
                max_positive_position_impact_factor: 5_000_000,
                max_negative_position_impact_factor: 5_000_000,
            },
            position_impact: PriceImpactParams {
                exponent: 2_000_000_000,
                positive_factor: 1,
                negative_factor: 2,
            },
            order_fee: FeeParams {
                positive_impact_fee_factor: 500_000,
                negative_impact_fee_factor: 700_000,
                fee_receiver_factor: 370_000_000,
            },
            borrowing_fee: BorrowingFeeParams {
                receiver_factor: 370_000_000,
                factor_for_long: 28,
                factor_for_short: 28,
                exponent_for_long: 1_000_000_000,
                exponent_for_short: 1_000_000_000,
                skip_borrowing_fee_for_smaller_side: true,
            },
            funding_fee: FundingFeeParams {
                exponent: 1_000_000_000,
                funding_factor: 20,
                max_factor_per_second: 10,
                min_factor_per_second: 1,
                increase_factor_per_second: 10,
                decrease_factor_per_second: 0,
                threshold_for_stable_funding: 50_000_000,
                threshold_for_decrease_funding: 0,
            },
            reserve_factor: 1_000_000_000,
            open_interest_reserve_factor: 1_000_000_000,
        }
    }
}

impl Default for MarketParams {
    fn default() -> (r: Self)
        ensures
            r == MarketParams::default_spec(),
    {
        MarketParams {
            unit: 1_000_000_000,
            funding_amount_per_size_adjustment: 10_000,
            position: PositionParams {
                min_position_size_usd: 1_000_000_000,
                min_collateral_value: 1_000_000_000,
                min_collateral_factor: 10_000_000,
                max_positive_position_impact_factor: 5_000_000,
                max_negative_position_impact_factor: 5_000_000,
            },
            position_impact: PriceImpactParams {
                exponent: 2_000_000_000,
                positive_factor: 1,
                negative_factor: 2,
            },
            order_fee: FeeParams {
                positive_impact_fee_factor: 500_000,
                negative_impact_fee_factor: 700_000,
                fee_receiver_factor: 370_000_000,
            },
            borrowing_fee: BorrowingFeeParams {
                receiver_factor: 370_000_000,
                factor_for_long: 28,
                factor_for_short: 28,
                exponent_for_long: 1_000_000_000,
                exponent_for_short: 1_000_000_000,
                skip_borrowing_fee_for_smaller_side: true,
            },
            funding_fee: FundingFeeParams {
                exponent: 1_000_000_000,
                funding_factor: 20,
                max_factor_per_second: 10,
                min_factor_per_second: 1,
                increase_factor_per_second: 10,
                decrease_factor_per_second: 0,
                threshold_for_stable_funding: 50_000_000,
                threshold_for_decrease_funding: 0,
            },
            reserve_factor: 1_000_000_000,
            open_interest_reserve_factor: 1_000_000_000,
        }
    }
}

} // verus!
