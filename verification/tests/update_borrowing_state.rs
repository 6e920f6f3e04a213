use gmsol::action::update_borrowing_state::{
    borrowing_factor_per_second, next_cumulative_borrowing_factor, UpdateBorrowingState,
};
use gmsol::error::{Calc, Error, Invalid};
use gmsol::market::{Market, PoolKind};
use gmsol::position::Position;
use gmsol::price::Prices;

fn opened() -> (Market, Position, Prices) {
    let mut market = Market::default();
    market
        .deposit(1_000_000_000, 0, Prices::new_for_test(120, 120, 1))
        .unwrap()
        .execute()
        .unwrap();
    let prices = Prices::new_for_test(123, 123, 1);
    let mut position = Position::long(true);
    position
        .ops(&mut market)
        .increase(prices, 100_000_000, 8_000_000_000, None)
        .unwrap()
        .execute()
        .unwrap();
    (market, position, prices)
}

#[test]
fn borrowing_accrues_with_the_usage_of_the_pool() {
    let (mut market, mut position, prices) = opened();
    // 7_999_999_704 reserved of a pool worth 123_003_528_009: 6.5 % of 28 units.
    assert_eq!(borrowing_factor_per_second(&market, &prices, true), Ok(1));
    assert_eq!(borrowing_factor_per_second(&market, &prices, false), Ok(0));
    assert_eq!(next_cumulative_borrowing_factor(&market, &prices, true, 3_600), Ok((3_600, 3_600)));
    market.pass_seconds(3_600);
    let report = UpdateBorrowingState::try_new(&mut market, &prices)
        .unwrap()
        .execute()
        .unwrap();
    assert_eq!(report.duration_in_seconds(), 3_600);
    assert_eq!(*report.next_cumulative_borrowing_factor(true), 3_600);
    assert_eq!(*report.next_cumulative_borrowing_factor(false), 0);
    assert_eq!(market.cumulative_borrowing_factor(true), Ok(3_600));
    assert_eq!(market.cumulative_borrowing_factor(false), Ok(0));
    assert_eq!(market.borrowing_updated_at, 3_600);

    // Nothing accrues without time, and the factor never falls.
    let report = UpdateBorrowingState::try_new(&mut market, &prices)
        .unwrap()
        .execute_atomically()
        .unwrap();
    assert_eq!(report.duration_in_seconds(), 0);
    assert_eq!(market.cumulative_borrowing_factor(true), Ok(3_600));
    market.pass_seconds(10);
    UpdateBorrowingState::try_new(&mut market, &prices).unwrap().execute().unwrap();
    assert_eq!(market.cumulative_borrowing_factor(true), Ok(3_610));

    // The position owes its size times the growth of the factor.
    assert_eq!(position.pending_borrowing_fee_value(&market), Ok(28_880));
    let report = position
        .ops(&mut market)
        .decrease(prices, 8_000_000_000, None, 0, Default::default())
        .unwrap()
        .execute()
        .unwrap();
    assert_eq!(report.fees.borrowing.amount, 234);
    assert_eq!(report.fees.borrowing.amount_for_receiver, 86);
}

#[test]
fn the_smaller_side_borrows_for_free_where_it_is_let_off() {
    let (mut market, _, prices) = opened();
    market.deposit(0, 1_000_000_000_000, prices).unwrap().execute().unwrap();
    let mut short = Position::short(false);
    short
        .ops(&mut market)
        .increase(prices, 10_000_000_000, 4_000_000_000, None)
        .unwrap()
        .execute()
        .unwrap();
    assert_eq!(borrowing_factor_per_second(&market, &prices, false), Ok(0));
    market.params.borrowing_fee.skip_borrowing_fee_for_smaller_side = false;
    market.params.borrowing_fee.factor_for_short = 1_000_000_000;
    // 4_000_000_000 reserved of a pool worth 1_000_000_000_000 and some fees.
    assert_eq!(borrowing_factor_per_second(&market, &prices, false), Ok(3_999_994));
    // Squared: 16, over the same pool.
    market.params.borrowing_fee.exponent_for_short = 2_000_000_000;
    assert_eq!(borrowing_factor_per_second(&market, &prices, false), Ok(15_999_979));
}

#[test]
fn each_failure_of_the_borrowing_update_has_its_error() {
    let (mut market, _, prices) = opened();
    assert!(matches!(
        UpdateBorrowingState::try_new(&mut market, &Prices::new_for_test(0, 1, 1)),
        Err(Error::InvalidArgument(Invalid::Prices))
    ));
    // The pool has lost its value while the side still reserves from it.
    let mut drained = market;
    drained.primary.long_amount = 0;
    assert_eq!(
        borrowing_factor_per_second(&drained, &prices, true),
        Err(Error::UnableToGetBorrowingFactorEmptyPoolValue)
    );
    let mut fractional = market;
    fractional.params.borrowing_fee.exponent_for_long = 1_500_000_000;
    assert_eq!(
        borrowing_factor_per_second(&fractional, &prices, true),
        Err(Error::Computation(Calc::BorrowingFactor))
    );
    assert_eq!(
        next_cumulative_borrowing_factor(&market, &prices, true, u64::MAX),
        Ok((u64::MAX, u64::MAX))
    );
    market.apply_delta(PoolKind::BorrowingFactor, true, 1).unwrap();
    assert_eq!(
        next_cumulative_borrowing_factor(&market, &prices, true, u64::MAX),
        Err(Error::Computation(Calc::CumulativeBorrowingFactor))
    );
    // A factor that does not fit the pool is refused and the market stays as it was.
    market.pass_seconds(u64::MAX);
    let before = market;
    assert_eq!(
        UpdateBorrowingState::try_new(&mut market, &prices).unwrap().execute_atomically(),
        Err(Error::Computation(Calc::CumulativeBorrowingFactor))
    );
    assert_eq!(market, before);
    let mut long_ago = before;
    long_ago.borrowing_updated_at = u64::MAX - (i64::MAX as u64) - 10;
    long_ago.borrowing_factor.long_amount = 0;
    assert_eq!(
        UpdateBorrowingState::try_new(&mut long_ago, &prices).unwrap().execute(),
        Err(Error::Convert)
    );
}
