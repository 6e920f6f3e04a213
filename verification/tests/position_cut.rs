use gmsol::action::decrease_position::Closure;
use gmsol::action::position_cut::{PositionCut, PositionCutKind};
use gmsol::error::{Error, Invalid};
use gmsol::market::{Market, PoolKind};
use gmsol::position::{CollateralCheck, Position};
use gmsol::price::Prices;

fn opened(collateral: u64) -> (Market, Position) {
    let mut market = Market::default();
    market.params.position.min_collateral_value = 0;
    market
        .deposit(1_000_000_000, 0, Prices::new_for_test(120, 120, 1))
        .unwrap()
        .execute()
        .unwrap();
    let mut position = Position::long(true);
    position
        .ops(&mut market)
        .increase(Prices::new_for_test(123, 123, 1), collateral, 8_000_000_000, None)
        .unwrap()
        .execute()
        .unwrap();
    (market, position)
}

#[test]
fn a_covered_position_is_not_liquidated() {
    let (mut market, mut position) = opened(100_000_000);
    let prices = Prices::new_for_test(123, 123, 1);
    assert_eq!(
        position.check_liquidatable(&market, &prices, true),
        Ok(CollateralCheck::Sufficient)
    );
    let before = (market, position);
    let result = position.ops(&mut market).liquidate(prices).unwrap().execute();
    assert_eq!(result, Err(Error::InvalidArgument(Invalid::NotLiquidatable)));
    assert_eq!((market, position), before);
}

#[test]
fn an_uncovered_position_is_liquidated() {
    let (mut market, mut position) = opened(100_000_000);
    market.params.position.min_collateral_value = 1_000_000_000;
    let prices = Prices::new_for_test(50, 50, 1);
    assert_eq!(
        position.check_liquidatable(&market, &prices, true),
        Ok(CollateralCheck::MinCollateral)
    );
    let report = position
        .ops(&mut market)
        .liquidate(prices)
        .unwrap()
        .execute_atomically()
        .unwrap();
    assert_eq!(report.closure, Closure::Full);
    assert_eq!(report.size_delta_usd, 8_000_000_000);
    assert_eq!(report.pnl, -4_747_967_600);
    assert_eq!(report.price_impact_value, 64);
    assert_eq!(report.execution_price, 50);
    assert_eq!(report.fees.order.fee_amount_for_receiver, 29_600);
    assert_eq!(report.settlement.for_pool_amount, 95_009_752);
    assert_eq!(report.settlement.output_amount, 4_915_121);
    assert_eq!(report.settlement.impact_pool_delta, -2);
    assert!(!report.settlement.is_insolvent_close);
    assert_eq!(position.size_in_usd, 0);
    assert_eq!(position.collateral_amount, 0);
    assert_eq!(market.amount(PoolKind::PositionImpact, true), Ok(0));
    assert_eq!(market.open_interest(true), Ok(0));
}

#[test]
fn an_insolvent_position_leaves_its_collateral_to_the_pool() {
    let (mut market, mut position) = opened(1_000_000);
    assert_eq!(position.collateral_amount, 954_472);
    let prices = Prices::new_for_test(121, 121, 1);
    assert_eq!(
        position.check_liquidatable(&market, &prices, true),
        Ok(CollateralCheck::MinCollateral)
    );
    assert_eq!(
        position.check_liquidatable(&market, &prices, false),
        Ok(CollateralCheck::Negative)
    );
    // An ordinary decrease is refused: the collateral does not cover the loss.
    let mut copy = (market, position);
    let refused = copy
        .1
        .ops(&mut copy.0)
        .decrease(prices, 8_000_000_000, None, 0, Default::default())
        .unwrap()
        .execute();
    assert_eq!(refused, Err(Error::InvalidArgument(Invalid::InsufficientCollateral)));

    let pool_before = market.amount(PoolKind::Primary, true).unwrap();
    let report = position.ops(&mut market).liquidate(prices).unwrap().execute().unwrap();
    assert!(report.settlement.is_insolvent_close);
    assert_eq!(report.settlement.for_pool_amount, 954_472);
    assert_eq!(report.settlement.for_receiver_amount, 0);
    assert_eq!(report.settlement.output_amount, 0);
    assert_eq!(report.closure, Closure::Full);
    assert_eq!(market.amount(PoolKind::Primary, true), Ok(pool_before + 954_472));
    assert_eq!(market.amount(PoolKind::CollateralSumForLong, true), Ok(0));
    assert_eq!(position.size_in_usd, 0);
}

#[test]
fn nothing_is_deleveraged_within_the_reserve() {
    let (mut market, mut position) = opened(100_000_000);
    let prices = Prices::new_for_test(200, 200, 1);
    let before = (market, position);
    let result = position
        .ops(&mut market)
        .auto_deleverage(prices, 1_000_000_000)
        .unwrap()
        .execute();
    assert_eq!(result, Err(Error::InvalidArgument(Invalid::AdlNotRequired)));
    assert_eq!((market, position), before);
}

#[test]
fn a_profitable_position_is_deleveraged_beyond_the_reserve() {
    let (mut market, mut position) = opened(100_000_000);
    // The open interest may now reserve a hundredth of the pool only.
    market.params.open_interest_reserve_factor = 10_000_000;
    let prices = Prices::new_for_test(200, 200, 1);
    assert_eq!(
        market.validate_open_interest_reserve(&prices, true),
        Err(Error::InvalidArgument(Invalid::InsufficientOpenInterestReserve))
    );
    let report = position
        .ops(&mut market)
        .auto_deleverage(prices, 2_000_000_000)
        .unwrap()
        .execute()
        .unwrap();
    assert_eq!(report.size_delta_usd, 2_000_000_000);
    assert!(report.pnl > 0);
    assert_eq!(position.size_in_usd, 6_000_000_000);
    assert!(matches!(report.closure, Closure::Partial { .. }));
    assert_eq!(report.params.acceptable_price, None);
}

#[test]
fn a_losing_position_is_not_deleveraged() {
    let (mut market, mut position) = opened(100_000_000);
    market.params.open_interest_reserve_factor = 10_000_000;
    let prices = Prices::new_for_test(120, 120, 1);
    let result = position
        .ops(&mut market)
        .auto_deleverage(prices, 2_000_000_000)
        .unwrap()
        .execute();
    assert_eq!(result, Err(Error::InvalidArgument(Invalid::AdlNotProfitable)));
}

#[test]
fn an_empty_position_cannot_be_cut() {
    let mut market = Market::default();
    let mut position = Position::short(false);
    let prices = Prices::new_for_test(120, 120, 1);
    assert_eq!(
        position.ops(&mut market).liquidate(prices).unwrap().execute(),
        Err(Error::InvalidArgument(Invalid::EmptyPosition))
    );
    assert_eq!(
        PositionCut::try_new(position.ops(&mut market), prices, PositionCutKind::AutoDeleverage(1))
            .unwrap()
            .execute(),
        Err(Error::InvalidArgument(Invalid::EmptyPosition))
    );
    assert!(matches!(
        position.ops(&mut market).liquidate(Prices::new_for_test(0, 1, 1)),
        Err(Error::InvalidArgument(Invalid::Prices))
    ));
}
