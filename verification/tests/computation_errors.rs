use gmsol::action::increase_position::{
    apply_collateral_delta, apply_position_impact, price_impact_amount, roll_size_forward,
    size_delta_in_tokens,
};
use gmsol::action::update_funding_state::{
    adapted_factor, diff_factor, funding_values, UpdateFundingReport, UpdateFundingState,
};
use gmsol::error::{Calc, Error};
use gmsol::fees::PositionFees;
use gmsol::market::{Market, PoolKind};
use gmsol::position::Position;
use gmsol::price::{Price, Prices};
use gmsol::price_impact::cap_positive_impact;

const UNIT: u64 = 1_000_000_000;

fn failed<T: std::fmt::Debug>(result: Result<T, Error>, calc: Calc) {
    assert_eq!(result.err(), Some(Error::Computation(calc)));
}

#[test]
fn the_difference_factor_names_the_calculation_that_failed() {
    let mut market = Market::default();
    failed(diff_factor(&market, u64::MAX, 1), Calc::TotalOpenInterest);
    market.params.funding_fee.exponent = 3 * UNIT / 2;
    failed(diff_factor(&market, 2_000, 1_000), Calc::DiffExponent);
    market.params.funding_fee.exponent = 3 * UNIT;
    failed(diff_factor(&market, 10_000_000_000_000, 0), Calc::DiffExponent);
    // To the power zero every difference is one unit, which over a small
    // sum is a factor too large for its type.
    market.params.unit = 1_000_000_000_000_000_000;
    market.params.funding_fee.exponent = 0;
    failed(diff_factor(&market, 2, 1), Calc::DiffFactor);
    assert_eq!(
        diff_factor(&market, 500_000_000_000_000_000, 500_000_000_000_000_000),
        Ok(market.params.unit)
    );
}

#[test]
fn the_funding_factor_names_the_calculation_that_failed() {
    let mut market = Market::default();
    let prices = Prices::new_for_test(1, 1, 1);
    market.params.funding_fee.exponent = 0;
    market.params.funding_fee.increase_factor_per_second = 0;
    market.params.funding_fee.funding_factor = u64::MAX;
    {
        let action = UpdateFundingState::try_new(&mut market, &prices).unwrap();
        failed(action.next_funding_factor_per_second(1, 2, 1), Calc::FallbackFundingFactor);
    }
    let mut market = Market::default();
    failed(adapted_factor(&market, u64::MAX, 2_000, 1_000, UNIT), Calc::FactorIncrease);
    market.params.funding_fee.increase_factor_per_second = u64::MAX;
    failed(adapted_factor(&market, 1, 2_000, 1_000, 2 * UNIT), Calc::FactorIncrease);
    let mut market = Market::default();
    market.funding_factor_per_second = i64::MAX;
    failed(adapted_factor(&market, 1, 2_000, 1_000, UNIT), Calc::IncreasedFactor);
    assert_eq!(adapted_factor(&market, 1, 2_000, 1_000, 0), Ok(i64::MAX));
    market.funding_factor_per_second = 5;
    market.params.funding_fee.threshold_for_decrease_funding = UNIT;
    market.params.funding_fee.threshold_for_stable_funding = UNIT;
    market.params.funding_fee.decrease_factor_per_second = 2;
    failed(adapted_factor(&market, u64::MAX, 2_000, 1_000, 0), Calc::FactorDecrease);
    market.funding_factor_per_second = i64::MIN;
    assert_eq!(adapted_factor(&market, 0, 1_000, 2_000, 0), Err(Error::Convert));
    market.params.funding_fee.decrease_factor_per_second = 1 << 63;
    assert_eq!(adapted_factor(&market, 1, 1_000, 2_000, 0), Err(Error::Convert));
}

#[test]
fn the_funding_values_name_the_calculation_that_failed() {
    let mut market = Market::default();
    failed(funding_values(&market, u64::MAX, 2, 1, 2, true), Calc::FundingFactor);
    failed(funding_values(&market, 1, u64::MAX, 1, 2 * UNIT, true), Calc::FundingValue);
    // Nobody pays with long collateral, and the payers are said to hold nothing.
    failed(funding_values(&market, 1, 0, 5, UNIT, true), Calc::FundingValueForLongCollateral);
    market.apply_delta(PoolKind::OpenInterestForLong, false, i64::MAX).unwrap();
    failed(
        funding_values(&market, 1, 1, u64::MAX, UNIT, true),
        Calc::FundingValueForShortCollateral,
    );
    market.apply_delta(PoolKind::OpenInterestForLong, true, 3).unwrap();
    assert_eq!(funding_values(&market, 2, 12, 5, UNIT / 2, true), Ok((3, i64::MAX as u64)));
}

#[test]
fn the_deltas_per_size_name_the_calculation_that_failed() {
    let mut market = Market::default();
    let prices = Prices::new_for_test(1, 1, 1);
    market.apply_delta(PoolKind::OpenInterestForLong, true, 1_000_000_000_000).unwrap();
    let mut overflowing = market;
    overflowing.params.funding_amount_per_size_adjustment = u64::MAX;
    {
        let action = UpdateFundingState::try_new(&mut overflowing, &prices).unwrap();
        let mut report = UpdateFundingReport::empty(1);
        failed(
            action.set_deltas(&mut report, true, 5, 0, 1_000),
            Calc::FundingAmountPerSize,
        );
        assert_eq!(report, UpdateFundingReport::empty(1));
    }
    let action = UpdateFundingState::try_new(&mut market, &prices).unwrap();
    let mut report = UpdateFundingReport::empty(1);
    failed(
        action.set_deltas(&mut report, true, 2_000_000, 0, 1),
        Calc::ClaimableFundingAmountPerSize,
    );
    // The charge of the payer had been set before the claim of the receiver failed.
    assert_eq!(*report.delta_funding_amount_per_size(true, true), 20_000_000);
    let mut report = UpdateFundingReport::empty(1);
    assert_eq!(action.set_deltas(&mut report, true, 2_000_000, 0, 4_000_000), Ok(()));
    assert_eq!(*report.delta_funding_amount_per_size(true, true), 20_000_000);
    assert_eq!(*report.delta_claimable_funding_amount_per_size(false, true), 5_000_000_000_000);
}

#[test]
fn the_execution_names_the_calculation_that_failed() {
    let mut market = Market::default();
    let index = Price { min: 3, max: 3 };
    market.apply_delta(PoolKind::PositionImpact, true, i64::MAX).unwrap();
    failed(cap_positive_impact(&market, &index, 1, 5), Calc::PriceImpactCap);
    let mut market = Market::default();
    market.params.position.max_positive_position_impact_factor = u64::MAX;
    failed(cap_positive_impact(&market, &index, i64::MAX, 5), Calc::PriceImpactCap);

    failed(price_impact_amount(5, &Price { min: 1, max: 0 }), Calc::PriceImpactAmount);
    failed(price_impact_amount(-5, &Price { min: 0, max: 1 }), Calc::PriceImpactAmount);
    assert_eq!(price_impact_amount(5, &Price { min: 1, max: u64::MAX }), Err(Error::Convert));
    assert_eq!(price_impact_amount(7, &Price { min: 1, max: 2 }), Ok(3));
    assert_eq!(price_impact_amount(-7, &Price { min: 2, max: 3 }), Ok(-4));

    let zero = Price { min: 0, max: 0 };
    failed(size_delta_in_tokens(5, &zero, true, 0), Calc::SizeDeltaInTokens);
    failed(size_delta_in_tokens(5, &zero, false, 0), Calc::SizeDeltaInTokens);
    let one = Price { min: 1, max: 1 };
    failed(size_delta_in_tokens(5, &one, true, -6), Calc::PriceImpactLargerThanOrder);
    failed(size_delta_in_tokens(5, &one, false, 6), Calc::PriceImpactLargerThanOrder);
    failed(size_delta_in_tokens(u64::MAX, &one, true, 1), Calc::PriceImpactLargerThanOrder);
    let spread = Price { min: 2, max: 3 };
    assert_eq!(size_delta_in_tokens(7, &spread, true, 1), Ok(3));
    assert_eq!(size_delta_in_tokens(7, &spread, false, 1), Ok(3));
    assert_eq!(size_delta_in_tokens(7, &spread, false, -1), Ok(5));
}

#[test]
fn the_commit_names_the_calculation_that_failed() {
    let mut market = Market::default();
    let mut position = Position::long(true);
    position.collateral_amount = u64::MAX;
    failed(apply_collateral_delta(&mut position, 1), Calc::CollateralAmount);
    assert_eq!(position.collateral_amount, u64::MAX);
    failed(apply_position_impact(&mut market, i64::MIN), Calc::PositionImpactPoolDelta);
    assert_eq!(apply_position_impact(&mut market, 5), Ok(()));
    assert_eq!(market.position_impact.long_amount, -5);

    let mut position = Position::long(true);
    position.size_in_usd = u64::MAX;
    failed(roll_size_forward(&mut market, &mut position, 1, 0), Calc::SizeInUsd);
    position.size_in_usd = 5;
    position.size_in_tokens = u64::MAX;
    failed(roll_size_forward(&mut market, &mut position, 1, 1), Calc::SizeInTokens);
    // The size in USD had been set before the size in tokens failed.
    assert_eq!(position.size_in_usd, 6);
}

#[test]
fn the_values_name_the_calculation_that_failed() {
    let mut market = Market::default();
    let prices = Prices::new_for_test(3, 3, 3);
    market.apply_delta(PoolKind::Primary, true, i64::MAX).unwrap();
    failed(market.pool_value_without_pnl_for_one_side(&prices, true, true), Calc::PoolValue);
    assert_eq!(market.pool_value_without_pnl_for_one_side(&prices, false, true), Ok(0));
    assert_eq!(
        market.validate_reserve(&prices, true).err(),
        Some(Error::Computation(Calc::PoolValue))
    );
    market.apply_delta(PoolKind::OpenInterestInTokensForLong, false, i64::MAX).unwrap();
    failed(market.reserved_value(&prices.index_token_price, true), Calc::ReservedValue);
    let mut position = Position::long(true);
    position.collateral_amount = u64::MAX;
    failed(position.collateral_value(&prices), Calc::CollateralValue);
    failed(
        position.will_collateral_be_sufficient(&market, &prices, 1, u64::MAX),
        Calc::CollateralValue,
    );

    let mut behind = Position::long(true);
    behind.funding_fee_amount_per_size = 1;
    failed(behind.pending_funding_fees(&Market::default()), Calc::FundingFee);
    let mut fees = PositionFees::zero();
    fees.order.fee_amount_for_pool = u64::MAX;
    fees.borrowing.amount = 1;
    failed(fees.total_cost_amount(), Calc::TotalFee);
    failed(fees.total_cost_excluding_funding(), Calc::TotalFee);
    failed(fees.for_pool(), Calc::TotalFee);
    let mut fees = PositionFees::zero();
    fees.funding.amount = u64::MAX;
    fees.borrowing.amount = 1;
    failed(fees.total_cost_amount(), Calc::TotalFee);
    assert_eq!(fees.total_cost_excluding_funding(), Ok(1));
    fees.borrowing.amount_for_receiver = 2;
    failed(fees.for_pool(), Calc::TotalFee);
    fees.order.fee_amount_for_receiver = u64::MAX;
    failed(fees.for_receiver(), Calc::TotalFee);
}
