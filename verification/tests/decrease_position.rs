use gmsol::action::decrease_position::{
    get_execution_price_for_decrease, payables, settle, Closure, DecreasePosition,
    DecreasePositionFlags, DecreasePositionParams, Payables,
};
use gmsol::error::{Calc, Error, Invalid};
use gmsol::fees::{BorrowingFees, Fees, FundingFees, PositionFees};
use gmsol::market::{Market, PoolKind};
use gmsol::position::Position;
use gmsol::price::{Price, Prices};

fn opened() -> (Market, Position, Prices) {
    let mut market = Market::default();
    market
        .deposit(1_000_000_000, 0, Prices::new_for_test(120, 120, 1))
        .unwrap()
        .execute()
        .unwrap();
    let prices = Prices::new_for_test(123, 123, 1);
    let mut position = Position::long(true);
    position
        .ops(&mut market)
        .increase(prices, 100_000_000, 8_000_000_000, None)
        .unwrap()
        .execute()
        .unwrap();
    (market, position, prices)
}

#[test]
fn partial_close_keeps_the_position_open() {
    let (mut market, mut position, prices) = opened();
    let report = position
        .ops(&mut market)
        .decrease(prices, 3_000_000_000, None, 10_000_000, DecreasePositionFlags::default())
        .unwrap()
        .execute()
        .unwrap();
    assert_eq!(report.size_delta_usd, 3_000_000_000);
    assert_eq!(report.size_delta_in_tokens, 24_390_243);
    assert_eq!(report.pnl, -111);
    assert_eq!(report.price_impact_value, 39);
    assert_eq!(report.execution_price, 123);
    assert_eq!(report.fees.paid_order_fee_value, 1_500_000);
    assert_eq!(report.fees.order.fee_amount_for_receiver, 4_512);
    assert_eq!(report.fees.order.fee_amount_for_pool, 7_683);
    assert_eq!(report.settlement.remaining_collateral_amount, 89_942_276);
    assert_eq!(report.output_amounts(), (10_000_000, 0));
    assert_eq!(report.settlement.impact_pool_delta, -1);
    assert!(!report.settlement.is_insolvent_close);
    assert!(!report.should_remove());
    assert_eq!(
        report.closure,
        Closure::Partial {
            remaining_size_in_usd: 5_000_000_000,
            remaining_collateral_amount: 89_942_276,
        }
    );
    assert_eq!(position.size_in_usd, 5_000_000_000);
    assert_eq!(position.size_in_tokens, 65_040_648 - 24_390_243);
    assert_eq!(position.collateral_amount, 89_942_276);
    assert_eq!(market.open_interest(true), Ok(5_000_000_000));
    assert_eq!(market.amount(PoolKind::PositionImpact, true), Ok(1));
    assert_eq!(market.amount(PoolKind::CollateralSumForLong, true), Ok(89_942_276));
    assert_eq!(market.amount(PoolKind::ClaimableFee, true), Ok(16_845 + 4_512));
    assert_eq!(market.amount(PoolKind::Primary, true), Ok(1_000_028_683 + 7_683 + 1));
}

#[test]
fn increase_then_decrease_restores_the_size() {
    let (mut market, mut position, prices) = opened();
    let before = position.size_in_usd;
    let increased = position
        .ops(&mut market)
        .increase(prices, 50_000_000, 2_000_000_000, None)
        .unwrap()
        .execute()
        .unwrap();
    assert_eq!(position.size_in_usd, before + 2_000_000_000);
    let decreased = position
        .ops(&mut market)
        .decrease(prices, 2_000_000_000, None, 50_000_000, DecreasePositionFlags::default())
        .unwrap()
        .execute()
        .unwrap();
    assert_eq!(position.size_in_usd, before);
    assert!(increased.fees().total_cost_amount().unwrap() > 0);
    assert!(decreased.fees.total_cost_amount().unwrap() > 0);
}

#[test]
fn a_size_above_the_position_closes_it() {
    let (mut market, mut position, prices) = opened();
    let report = position
        .ops(&mut market)
        .decrease(prices, u64::MAX, None, 0, DecreasePositionFlags::default())
        .unwrap()
        .execute()
        .unwrap();
    assert_eq!(report.size_delta_usd, 8_000_000_000);
    assert_eq!(report.size_delta_in_tokens, 65_040_648);
    assert_eq!(report.closure, Closure::Full);
    assert!(report.should_remove());
    assert_eq!(position.size_in_usd, 0);
    assert_eq!(position.size_in_tokens, 0);
    assert_eq!(position.collateral_amount, 0);
    assert_eq!(report.settlement.remaining_collateral_amount, 0);
    assert_eq!(market.open_interest(true), Ok(0));
    assert_eq!(market.open_interest_in_tokens(true), Ok(0));
    assert_eq!(market.amount(PoolKind::CollateralSumForLong, true), Ok(0));
    // Loss of 296 at 123 is 3 tokens, and the fee is 4_000_000 / 123 tokens.
    assert_eq!(report.pnl, -296);
    assert_eq!(report.settlement.output_amount, 99_954_472 - 32_520 - 3);
}

#[test]
fn an_empty_position_cannot_be_decreased() {
    let mut market = Market::default();
    let mut position = Position::long(true);
    let result = position
        .ops(&mut market)
        .decrease(Prices::new_for_test(123, 123, 1), 1, None, 0, DecreasePositionFlags::default())
        .unwrap()
        .execute();
    assert_eq!(result, Err(Error::InvalidArgument(Invalid::EmptyPosition)));
}

#[test]
fn decrease_needs_valid_prices() {
    let (mut market, mut position, _) = opened();
    let result = DecreasePosition::try_new(
        position.ops(&mut market),
        Prices::new_for_test(123, 123, 0),
        1,
        None,
        0,
        DecreasePositionFlags::default(),
    );
    assert!(matches!(result, Err(Error::InvalidArgument(Invalid::Prices))));
}

#[test]
fn acceptable_price_bounds_a_decrease_from_the_other_side() {
    let price = Price { min: 100, max: 102 };
    // A long position sells at the bid; a short one buys at the ask.
    assert_eq!(get_execution_price_for_decrease(&price, 1_000, 10, 500, 0, None, true), Ok(100));
    assert_eq!(get_execution_price_for_decrease(&price, 1_000, 10, 500, 0, None, false), Ok(102));
    assert_eq!(
        get_execution_price_for_decrease(&price, 1_000, 10, 500, 0, Some(100), true),
        Ok(100)
    );
    assert_eq!(
        get_execution_price_for_decrease(&price, 1_000, 10, 500, 0, Some(101), true),
        Err(Error::InvalidArgument(Invalid::NotFulfillable))
    );
    assert_eq!(
        get_execution_price_for_decrease(&price, 1_000, 10, 500, 0, Some(102), false),
        Ok(102)
    );
    assert_eq!(
        get_execution_price_for_decrease(&price, 1_000, 10, 500, 0, Some(101), false),
        Err(Error::InvalidArgument(Invalid::NotFulfillable))
    );
    // 1_000 * 50 / 10 = 5_000 per token, over the size of 500: 10.
    assert_eq!(get_execution_price_for_decrease(&price, 1_000, 10, 500, -50, None, true), Ok(90));
    assert_eq!(get_execution_price_for_decrease(&price, 1_000, 10, 500, 50, None, true), Ok(110));
    assert_eq!(get_execution_price_for_decrease(&price, 1_000, 10, 500, 50, None, false), Ok(92));
    assert_eq!(get_execution_price_for_decrease(&price, 1_000, 10, 500, -50, None, false), Ok(112));
    assert_eq!(
        get_execution_price_for_decrease(&price, 1_000, 10, 500, -501, None, true),
        Err(Error::Computation(Calc::PriceImpactLargerThanOrder))
    );
    assert_eq!(
        get_execution_price_for_decrease(&price, 1_000_000, 1, 1, -1, None, true),
        Err(Error::Computation(Calc::ExecutionPrice))
    );
}

#[test]
fn payables_favour_the_pool() {
    let position = Position::long(false);
    let prices = Prices {
        index_token_price: Price { min: 7, max: 9 },
        long_token_price: Price { min: 7, max: 9 },
        short_token_price: Price { min: 2, max: 3 },
    };
    assert_eq!(
        payables(&position, &prices, 100, 100),
        Ok(Payables { profit: 11, bonus: 11, loss: 0, penalty: 0, impact_pool_delta: -15 })
    );
    assert_eq!(
        payables(&position, &prices, -101, -100),
        Ok(Payables { profit: 0, bonus: 0, loss: 51, penalty: 50, impact_pool_delta: 11 })
    );
    assert_eq!(
        payables(&position, &prices, 0, 0),
        Ok(Payables { profit: 0, bonus: 0, loss: 0, penalty: 0, impact_pool_delta: 0 })
    );
    assert_eq!(
        payables(&position, &prices, i64::MIN, 0),
        Err(Error::Computation(Calc::Output))
    );
}

fn fees(for_receiver: u64, for_pool: u64, funding: u64) -> PositionFees {
    PositionFees {
        paid_order_fee_value: 0,
        order: Fees { fee_amount_for_receiver: for_receiver, fee_amount_for_pool: for_pool },
        borrowing: BorrowingFees { amount: 0, amount_for_receiver: 0 },
        funding: FundingFees {
            amount: funding,
            claimable_long_token_amount: 0,
            claimable_short_token_amount: 0,
        },
    }
}

fn params(withdrawal: u64, insolvent: bool) -> DecreasePositionParams {
    DecreasePositionParams {
        prices: Prices::new_for_test(10, 10, 1),
        initial_size_delta_usd: 1,
        acceptable_price: None,
        initial_collateral_withdrawal_amount: withdrawal,
        flags: DecreasePositionFlags { is_insolvent_close_allowed: insolvent },
    }
}

#[test]
fn settlement_pays_costs_before_the_withdrawal() {
    let mut position = Position::long(false);
    position.collateral_amount = 1_000;
    let payables = Payables { profit: 40, bonus: 2, loss: 0, penalty: 30, impact_pool_delta: 3 };
    let settlement = settle(&position, &params(500, false), false, &payables, &fees(10, 20, 5)).unwrap();
    assert_eq!(settlement.remaining_collateral_amount, 1_000 - 35 - 30 - 500);
    assert_eq!(settlement.output_amount, 500);
    assert_eq!(settlement.secondary_output_amount, 42);
    assert_eq!(settlement.from_pool_amount, 42);
    assert_eq!(settlement.for_pool_amount, 20 + 30);
    assert_eq!(settlement.for_receiver_amount, 10);
    assert_eq!(settlement.impact_pool_delta, 3);
    assert!(!settlement.is_insolvent_close);

    // The withdrawal is capped at what the costs leave.
    let settlement = settle(&position, &params(5_000, false), false, &payables, &fees(10, 20, 5)).unwrap();
    assert_eq!(settlement.remaining_collateral_amount, 0);
    assert_eq!(settlement.output_amount, 935);

    // A full close pays out all that is left, whatever was asked for.
    let settlement = settle(&position, &params(0, false), true, &payables, &fees(10, 20, 5)).unwrap();
    assert_eq!(settlement.remaining_collateral_amount, 0);
    assert_eq!(settlement.output_amount, 935);

    // With the collateral in the token of the side, profit joins the output.
    position.is_collateral_token_long = true;
    let settlement = settle(&position, &params(500, false), false, &payables, &fees(10, 20, 5)).unwrap();
    assert_eq!(settlement.output_amount, 542);
    assert_eq!(settlement.secondary_output_amount, 0);
}

#[test]
fn costs_above_the_collateral_need_an_insolvent_close() {
    let mut position = Position::long(false);
    position.collateral_amount = 100;
    let payables = Payables { profit: 0, bonus: 0, loss: 90, penalty: 0, impact_pool_delta: 0 };
    assert_eq!(
        settle(&position, &params(0, false), true, &payables, &fees(5, 5, 1)),
        Err(Error::InvalidArgument(Invalid::InsufficientCollateral))
    );
    let settlement = settle(&position, &params(0, true), true, &payables, &fees(5, 5, 1)).unwrap();
    assert!(settlement.is_insolvent_close);
    assert_eq!(settlement.remaining_collateral_amount, 0);
    assert_eq!(settlement.output_amount, 0);
    assert_eq!(settlement.for_pool_amount, 100);
    assert_eq!(settlement.for_receiver_amount, 0);
}

#[test]
fn a_failed_decrease_can_leave_everything_untouched() {
    let (mut market, mut position, prices) = opened();
    // After the decrease the position would be too small to stay open.
    market.params.position.min_position_size_usd = 6_000_000_000;
    let before = (market, position);
    let result = position
        .ops(&mut market)
        .decrease(prices, 3_000_000_000, None, 0, DecreasePositionFlags::default())
        .unwrap()
        .execute_atomically();
    assert_eq!(result, Err(Error::InvalidArgument(Invalid::PositionTooSmall)));
    assert_eq!((market, position), before);
    let result = position
        .ops(&mut market)
        .decrease(prices, 3_000_000_000, None, 0, DecreasePositionFlags::default())
        .unwrap()
        .execute();
    assert_eq!(result, Err(Error::InvalidArgument(Invalid::PositionTooSmall)));
    assert_eq!(position.size_in_usd, 5_000_000_000);
}
