use gmsol::action::deposit::Deposit;
use gmsol::error::{Calc, Error, Invalid};
use gmsol::market::{Market, PoolKind};
use gmsol::pool::Pool;
use gmsol::price::{Price, Prices};

#[test]
fn apply_delta_refuses_a_negative_balance() {
    let mut pool = Pool::new();
    pool.apply_delta(true, 5).unwrap();
    for delta in [-6, -7, -1_000, i64::MIN + 5, i64::MIN + 6] {
        assert_eq!(
            pool.apply_delta(true, delta),
            Err(Error::InvalidArgument(Invalid::NegativePoolAmount))
        );
        assert_eq!(pool.long_amount(), Ok(5));
    }
    assert_eq!(pool.apply_delta(true, -5), Ok(()));
    assert_eq!(pool.long_amount(), Ok(0));
    assert_eq!(
        pool.apply_delta(false, -1),
        Err(Error::InvalidArgument(Invalid::NegativePoolAmount))
    );
    assert_eq!(pool.short_amount(), Ok(0));
}

#[test]
fn apply_delta_detects_overflow() {
    let mut pool = Pool::new();
    pool.apply_delta(false, i64::MAX).unwrap();
    assert_eq!(pool.apply_delta(false, 1), Err(Error::Computation(Calc::PoolAmount)));
    assert_eq!(pool.short_amount(), Ok(i64::MAX as u64));
    assert_eq!(pool.long_amount(), Ok(0));
    pool.apply_delta(true, i64::MAX).unwrap();
    assert_eq!(pool.total(), Ok(2 * (i64::MAX as u64)));
    let mut signed = Pool::signed();
    signed.apply_delta(true, -5).unwrap();
    assert_eq!(signed.apply_delta(true, i64::MIN), Err(Error::Computation(Calc::PoolAmount)));
}

#[test]
fn a_signed_pool_may_go_negative() {
    let mut pool = Pool::signed();
    assert_eq!(pool.apply_delta(true, -6), Ok(()));
    assert_eq!(pool.long_amount, -6);
    assert_eq!(pool.long_amount(), Err(Error::Convert));
    assert_eq!(pool.total(), Err(Error::Convert));
    assert_eq!(pool.amount(false), Ok(0));
}

#[test]
fn every_balance_of_a_market_refuses_an_overdraw() {
    for kind in [
        PoolKind::Primary,
        PoolKind::CollateralSumForLong,
        PoolKind::CollateralSumForShort,
        PoolKind::OpenInterestForLong,
        PoolKind::OpenInterestForShort,
        PoolKind::OpenInterestInTokensForLong,
        PoolKind::OpenInterestInTokensForShort,
        PoolKind::ClaimableFee,
        PoolKind::TotalBorrowing,
        PoolKind::BorrowingFactor,
    ] {
        let mut market = Market::default();
        market.apply_delta(kind, true, 10).unwrap();
        assert_eq!(
            market.apply_delta(kind, true, -11),
            Err(Error::InvalidArgument(Invalid::NegativePoolAmount))
        );
        assert_eq!(market.amount(kind, true), Ok(10));
        assert_eq!(market.pool(kind).long_amount, 10);
    }
    let mut market = Market::default();
    market.apply_delta(PoolKind::PositionImpact, true, -11).unwrap();
    assert_eq!(market.position_impact.long_amount, -11);
    assert_eq!(market.position_impact_pool_amount(), 0);
}

#[test]
fn deposits_add_liquidity() {
    let mut market = Market::default();
    let prices = Prices::new_for_test(120, 120, 1);
    let report = market.deposit(1_000, 0, prices).unwrap().execute().unwrap();
    assert_eq!(report.params.long_token_amount, 1_000);
    market.deposit(0, 7, prices).unwrap().execute().unwrap();
    assert_eq!(market.amount(PoolKind::Primary, true), Ok(1_000));
    assert_eq!(market.amount(PoolKind::Primary, false), Ok(7));
    assert!(matches!(
        market.deposit(0, 0, prices),
        Err(Error::InvalidArgument(Invalid::EmptyDeposit))
    ));
    assert!(matches!(
        Deposit::try_new(&mut market, 1, 1, Prices::new_for_test(0, 1, 1)),
        Err(Error::InvalidArgument(Invalid::Prices))
    ));
    assert_eq!(
        market.deposit(u64::MAX, 1, prices).unwrap().execute(),
        Err(Error::Convert)
    );
    assert_eq!(
        market.deposit(i64::MAX as u64, 1, prices).unwrap().execute(),
        Err(Error::Computation(Calc::PoolAmount))
    );
    assert_eq!(market.amount(PoolKind::Primary, true), Ok(1_000));
}

#[test]
fn pool_values_and_reserves() {
    let mut market = Market::default();
    let prices = Prices {
        index_token_price: Price { min: 9, max: 11 },
        long_token_price: Price { min: 9, max: 11 },
        short_token_price: Price { min: 1, max: 2 },
    };
    market.deposit(1_000, 500, prices).unwrap().execute().unwrap();
    assert_eq!(market.pool_value_without_pnl_for_one_side(&prices, true, false), Ok(9_000));
    assert_eq!(market.pool_value_without_pnl_for_one_side(&prices, true, true), Ok(11_000));
    assert_eq!(market.pool_value_without_pnl_for_one_side(&prices, false, true), Ok(1_000));
    market.apply_delta(PoolKind::OpenInterestInTokensForLong, true, 800).unwrap();
    market.apply_delta(PoolKind::OpenInterestInTokensForLong, false, 18).unwrap();
    market.apply_delta(PoolKind::OpenInterestForShort, false, 500).unwrap();
    assert_eq!(market.reserved_value(&prices.index_token_price, true), Ok(818 * 11));
    assert_eq!(market.reserved_value(&prices.index_token_price, false), Ok(500));
    assert_eq!(market.validate_reserve(&prices, true), Ok(()));
    assert_eq!(market.validate_reserve(&prices, false), Ok(()));
    market.apply_delta(PoolKind::OpenInterestInTokensForLong, false, 1).unwrap();
    assert_eq!(
        market.validate_reserve(&prices, true),
        Err(Error::InvalidArgument(Invalid::InsufficientReserve))
    );
    assert_eq!(
        market.validate_open_interest_reserve(&prices, true),
        Err(Error::InvalidArgument(Invalid::InsufficientOpenInterestReserve))
    );
    market.apply_delta(PoolKind::OpenInterestForShort, true, 1).unwrap();
    assert_eq!(
        market.validate_reserve(&prices, false),
        Err(Error::InvalidArgument(Invalid::InsufficientReserve))
    );
}

#[test]
fn the_clock_does_not_run_backwards() {
    let mut market = Market::default();
    market.set_now(10);
    market.set_now(5);
    assert_eq!(market.now, 10);
    assert_eq!(market.just_passed_in_seconds_for_funding(), 10);
    assert_eq!(market.just_passed_in_seconds_for_funding(), 0);
    market.pass_seconds(u64::MAX);
    assert_eq!(market.now, u64::MAX);
    market.funding_updated_at = u64::MAX;
    market.now = 3;
    assert_eq!(market.just_passed_in_seconds_for_funding(), 0);
}

#[test]
fn prices_are_valid_without_zero_and_with_bid_below_ask() {
    assert!(Prices::new_for_test(1, 1, 1).is_valid());
    assert!(!Prices::new_for_test(1, 0, 1).is_valid());
    assert!(Price { min: 1, max: 2 }.is_valid());
    assert!(!Price { min: 2, max: 1 }.is_valid());
    assert!(!Price { min: 0, max: 1 }.is_valid());
    assert_eq!(Prices::new_for_test(1, 1, 1).validate(), Ok(()));
    assert_eq!(
        Prices::new_for_test(1, 1, 0).validate(),
        Err(Error::InvalidArgument(Invalid::Prices))
    );
    let price = Price { min: 1, max: 2 };
    assert_eq!(price.pick_price(true), 2);
    assert_eq!(price.pick_price(false), 1);
    assert_eq!(price.pick_price_for_pnl(true, true), 2);
    assert_eq!(price.pick_price_for_pnl(true, false), 1);
    assert_eq!(price.pick_price_for_pnl(false, true), 1);
    assert_eq!(price.pick_price_for_pnl(false, false), 2);
    assert_eq!(Prices::new_for_test(1, 2, 3).collateral_token_price(true).max, 2);
    assert_eq!(Prices::new_for_test(1, 2, 3).collateral_token_price(false).max, 3);
}

#[test]
fn a_failed_deposit_can_leave_the_market_untouched() {
    let mut market = Market::default();
    let prices = Prices::new_for_test(120, 120, 1);
    market.deposit(0, i64::MAX as u64, prices).unwrap().execute().unwrap();
    let before = market;
    assert_eq!(
        market.deposit(5, 1, prices).unwrap().execute_atomically(),
        Err(Error::Computation(Calc::PoolAmount))
    );
    assert_eq!(market, before);
    assert_eq!(
        market.deposit(5, 1, prices).unwrap().execute(),
        Err(Error::Computation(Calc::PoolAmount))
    );
    assert_eq!(market.amount(PoolKind::Primary, true), Ok(5));
    let report = market.deposit(7, 0, prices).unwrap().execute_atomically().unwrap();
    assert_eq!(report.params.long_token_amount, 7);
    assert_eq!(market.amount(PoolKind::Primary, true), Ok(12));
}
