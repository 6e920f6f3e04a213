use gmsol::action::increase_position::{
    get_execution_price_for_increase, IncreasePosition, IncreasePositionParams,
};
use gmsol::error::{Calc, Error, Invalid};
use gmsol::market::{Market, PoolKind};
use gmsol::position::Position;
use gmsol::price::Prices;

#[test]
fn basic() -> Result<(), Error> {
    let mut market = Market::default();
    let prices = Prices::new_for_test(120, 120, 1);
    market.deposit(1_000_000_000, 0, prices)?.execute()?;
    market.deposit(0, 1_000_000_000, prices)?.execute()?;
    println!("{market:#?}");
    let mut position = Position::long(true);
    let report = position
        .ops(&mut market)
        .increase(
            Prices::new_for_test(123, 123, 1),
            100_000_000,
            8_000_000_000,
            None,
        )?
        .execute()?;
    println!("{report:#?}");
    println!("{position:#?}");
    Ok(())
}

#[test]
fn first_long_position_scenario() {
    let mut market = Market::default();
    market
        .deposit(1_000_000_000, 0, Prices::new_for_test(120, 120, 1))
        .unwrap()
        .execute()
        .unwrap();
    let mut position = Position::long(true);
    let report = position
        .ops(&mut market)
        .increase(Prices::new_for_test(123, 123, 1), 100_000_000, 8_000_000_000, None)
        .unwrap()
        .execute()
        .unwrap();
    assert_eq!(position.size_in_usd, 8_000_000_000);
    assert_eq!(position.size_in_tokens, 65_040_648);
    assert_eq!(*report.execution().price_impact_value(), -128);
    assert_eq!(*report.execution().price_impact_amount(), -2);
    assert_eq!(*report.execution().size_delta_in_tokens(), 65_040_648);
    assert_eq!(*report.execution().execution_price(), 123);
    assert_eq!(report.fees().paid_order_fee_value, 5_600_000);
    assert_eq!(report.fees().order.fee_amount_for_receiver, 16_845);
    assert_eq!(report.fees().order.fee_amount_for_pool, 28_683);
    assert_eq!(*report.collateral_delta_amount(), 100_000_000 - 45_528);
    assert!(*report.collateral_delta_amount() < 100_000_000);
    assert_eq!(position.collateral_amount, 99_954_472);
    assert_eq!(report.claimable_funding_amounts(), (&0, &0));
    assert_eq!(market.amount(PoolKind::Primary, true), Ok(1_000_028_683));
    assert_eq!(market.amount(PoolKind::ClaimableFee, true), Ok(16_845));
    assert_eq!(market.amount(PoolKind::CollateralSumForLong, true), Ok(99_954_472));
    assert_eq!(market.amount(PoolKind::PositionImpact, true), Ok(2));
    assert_eq!(market.open_interest(true), Ok(8_000_000_000));
    assert_eq!(market.open_interest_in_tokens(true), Ok(65_040_648));
    assert_eq!(report.params().size_delta_usd(), &8_000_000_000);
    assert_eq!(report.params().collateral_increment_amount(), &100_000_000);
    assert_eq!(report.params().acceptable_price(), None);
    assert_eq!(report.params().prices(), &Prices::new_for_test(123, 123, 1));
}

#[test]
fn zero_size_delta_has_no_price_impact() {
    let mut market = Market::default();
    market
        .deposit(1_000_000_000, 1_000_000_000, Prices::new_for_test(120, 120, 1))
        .unwrap()
        .execute()
        .unwrap();
    let mut position = Position::long(true);
    let prices = Prices::new_for_test(123, 123, 1);
    position
        .ops(&mut market)
        .increase(prices, 100_000_000, 8_000_000_000, None)
        .unwrap()
        .execute()
        .unwrap();
    let mut spread = prices;
    spread.index_token_price.min = 122;
    spread.index_token_price.max = 124;
    let report = position
        .ops(&mut market)
        .increase(spread, 1_000_000, 0, None)
        .unwrap()
        .execute()
        .unwrap();
    assert_eq!(*report.execution().price_impact_value(), 0);
    assert_eq!(*report.execution().price_impact_amount(), 0);
    assert_eq!(*report.execution().size_delta_in_tokens(), 0);
    assert_eq!(*report.execution().execution_price(), 124);
    assert_eq!(position.size_in_usd, 8_000_000_000);
    assert_eq!(position.collateral_amount, 99_954_472 + 1_000_000);
}

#[test]
fn invalid_prices_are_refused() {
    let mut market = Market::default();
    let mut position = Position::long(true);
    let result = IncreasePosition::try_new(
        position.ops(&mut market),
        Prices::new_for_test(0, 120, 1),
        1,
        1,
        None,
    );
    assert!(matches!(result, Err(Error::InvalidArgument(Invalid::Prices))));
    let mut inverted = Prices::new_for_test(120, 120, 1);
    inverted.long_token_price.min = 121;
    assert!(matches!(
        position.ops(&mut market).increase(inverted, 1, 1, None),
        Err(Error::InvalidArgument(Invalid::Prices))
    ));
}

#[test]
fn acceptable_price_bounds_the_execution_price() {
    assert_eq!(get_execution_price_for_increase(1_000, 10, Some(100), true), Ok(100));
    assert_eq!(
        get_execution_price_for_increase(1_000, 10, Some(99), true),
        Err(Error::InvalidArgument(Invalid::NotFulfillable))
    );
    assert_eq!(get_execution_price_for_increase(1_000, 10, Some(100), false), Ok(100));
    assert_eq!(
        get_execution_price_for_increase(1_000, 10, Some(101), false),
        Err(Error::InvalidArgument(Invalid::NotFulfillable))
    );
    assert_eq!(get_execution_price_for_increase(1_005, 10, None, true), Ok(100));
    assert_eq!(
        get_execution_price_for_increase(0, 10, None, true),
        Err(Error::Computation(Calc::EmptySizeDelta))
    );
    assert_eq!(
        get_execution_price_for_increase(10, 0, None, true),
        Err(Error::Computation(Calc::ExecutionPrice))
    );
}

#[test]
fn unfulfillable_order_is_refused() {
    let mut market = Market::default();
    market
        .deposit(1_000_000_000, 0, Prices::new_for_test(120, 120, 1))
        .unwrap()
        .execute()
        .unwrap();
    let mut position = Position::long(true);
    let result = position
        .ops(&mut market)
        .increase(Prices::new_for_test(123, 123, 1), 100_000_000, 8_000_000_000, Some(122))
        .unwrap()
        .execute();
    assert_eq!(result, Err(Error::InvalidArgument(Invalid::NotFulfillable)));
    assert_eq!(position.size_in_usd, 0);
}

#[test]
fn fees_above_the_collateral_are_refused() {
    let mut market = Market::default();
    market
        .deposit(1_000_000_000, 0, Prices::new_for_test(120, 120, 1))
        .unwrap()
        .execute()
        .unwrap();
    // Alone in its pool, the position would drive the collateral sum negative.
    let mut position = Position::long(true);
    let result = position
        .ops(&mut market)
        .increase(Prices::new_for_test(123, 123, 1), 1_000, 8_000_000_000, None)
        .unwrap()
        .execute();
    assert_eq!(result, Err(Error::InvalidArgument(Invalid::NegativePoolAmount)));

    // Beside another position, it is its own collateral that falls short.
    let mut market = Market::default();
    market
        .deposit(1_000_000_000, 0, Prices::new_for_test(120, 120, 1))
        .unwrap()
        .execute()
        .unwrap();
    let mut other = Position::long(true);
    other
        .ops(&mut market)
        .increase(Prices::new_for_test(123, 123, 1), 100_000_000, 8_000_000_000, None)
        .unwrap()
        .execute()
        .unwrap();
    let mut position = Position::long(true);
    let result = position
        .ops(&mut market)
        .increase(Prices::new_for_test(123, 123, 1), 1_000, 8_000_000_000, None)
        .unwrap()
        .execute();
    assert_eq!(result, Err(Error::InvalidArgument(Invalid::InsufficientCollateral)));
}

#[test]
fn size_beyond_the_reserve_is_refused() {
    let mut market = Market::default();
    market
        .deposit(10_000_000, 0, Prices::new_for_test(120, 120, 1))
        .unwrap()
        .execute()
        .unwrap();
    let mut position = Position::long(true);
    let result = position
        .ops(&mut market)
        .increase(Prices::new_for_test(123, 123, 1), 100_000_000, 8_000_000_000, None)
        .unwrap()
        .execute();
    assert_eq!(result, Err(Error::InvalidArgument(Invalid::InsufficientReserve)));
}

#[test]
fn thin_collateral_is_refused() {
    let mut market = Market::default();
    market
        .deposit(1_000_000_000, 0, Prices::new_for_test(120, 120, 1))
        .unwrap()
        .execute()
        .unwrap();
    let mut position = Position::long(true);
    let result = position
        .ops(&mut market)
        .increase(Prices::new_for_test(123, 123, 1), 600_000, 8_000_000_000, None)
        .unwrap()
        .execute();
    assert_eq!(result, Err(Error::InvalidArgument(Invalid::InsufficientCollateralUsd)));
}

#[test]
fn params_are_kept_as_given() {
    let params = IncreasePositionParams {
        collateral_increment_amount: 7,
        size_delta_usd: 11,
        acceptable_price: Some(13),
        prices: Prices::new_for_test(1, 2, 3),
    };
    assert_eq!(*params.collateral_increment_amount(), 7);
    assert_eq!(*params.size_delta_usd(), 11);
    assert_eq!(params.acceptable_price(), Some(&13));
    assert_eq!(params.prices().long_token_price.max, 2);
}

#[test]
fn a_failed_increase_can_leave_everything_untouched() {
    let mut market = Market::default();
    market
        .deposit(10_000_000, 0, Prices::new_for_test(120, 120, 1))
        .unwrap()
        .execute()
        .unwrap();
    let prices = Prices::new_for_test(123, 123, 1);
    let before = market;
    let mut position = Position::long(true);
    let result = position
        .ops(&mut market)
        .increase(prices, 100_000_000, 8_000_000_000, None)
        .unwrap()
        .execute_atomically();
    assert_eq!(result, Err(Error::InvalidArgument(Invalid::InsufficientReserve)));
    assert_eq!(market, before);
    assert_eq!(position, Position::long(true));

    // Executed in place, the increase is refused at its end and leaves its changes behind.
    let result = position
        .ops(&mut market)
        .increase(prices, 100_000_000, 8_000_000_000, None)
        .unwrap()
        .execute();
    assert_eq!(result, Err(Error::InvalidArgument(Invalid::InsufficientReserve)));
    assert_eq!(position.size_in_usd, 8_000_000_000);
    assert_eq!(market.open_interest(true), Ok(8_000_000_000));

    // An increase that goes through is the same either way.
    let mut market = Market::default();
    market
        .deposit(1_000_000_000, 0, Prices::new_for_test(120, 120, 1))
        .unwrap()
        .execute()
        .unwrap();
    let mut other_market = market;
    let mut position = Position::long(true);
    let mut other_position = position;
    let report = position
        .ops(&mut market)
        .increase(prices, 100_000_000, 8_000_000_000, None)
        .unwrap()
        .execute()
        .unwrap();
    let other_report = other_position
        .ops(&mut other_market)
        .increase(prices, 100_000_000, 8_000_000_000, None)
        .unwrap()
        .execute_atomically()
        .unwrap();
    assert_eq!(report, other_report);
    assert_eq!(market, other_market);
    assert_eq!(position, other_position);
}

#[test]
fn the_precision_is_a_parameter_of_the_market() {
    // The same market at six fractional digits: every factor loses three digits.
    let mut params = Market::default().params;
    params.unit = 1_000_000;
    params.position.min_position_size_usd = 1_000_000;
    params.position.min_collateral_value = 1_000_000;
    params.position.min_collateral_factor = 10_000;
    params.position.max_positive_position_impact_factor = 5_000;
    params.position.max_negative_position_impact_factor = 5_000;
    params.position_impact.exponent = 2_000_000;
    params.order_fee.positive_impact_fee_factor = 500;
    params.order_fee.negative_impact_fee_factor = 700;
    params.order_fee.fee_receiver_factor = 370_000;
    params.borrowing_fee.receiver_factor = 370_000;
    params.reserve_factor = 1_000_000;
    params.open_interest_reserve_factor = 1_000_000;
    let mut market = Market::new(params);
    market
        .deposit(1_000_000_000, 0, Prices::new_for_test(120, 120, 1))
        .unwrap()
        .execute()
        .unwrap();
    let mut position = Position::long(true);
    let report = position
        .ops(&mut market)
        .increase(Prices::new_for_test(123, 123, 1), 100_000, 8_000_000, None)
        .unwrap()
        .execute()
        .unwrap();
    // 8 squared, times the negative factor 2: 128 units of the sixth digit.
    assert_eq!(*report.execution().price_impact_value(), -128);
    assert_eq!(*report.execution().price_impact_amount(), -2);
    assert_eq!(*report.execution().size_delta_in_tokens(), 65_040 - 2);
    assert_eq!(*report.execution().execution_price(), 123);
    // 0.07 % of the size: 5_600, which is 45 tokens at 123.
    assert_eq!(report.fees().paid_order_fee_value, 5_600);
    assert_eq!(*report.collateral_delta_amount(), 100_000 - 45);
    assert_eq!(position.size_in_usd, 8_000_000);
}
