use gmsol::action::update_funding_state::{adapted_factor, pack_to_funding_amount_per_size};
use gmsol::fixed::apply_exponent_factor;
use gmsol::market::Market;
use gmsol::pool::Pool;
use gmsol::position::Position;
use gmsol::price::Prices;

#[test]
fn a_decreasing_funding_factor_keeps_its_sign() {
    let mut market = Market::default();
    market.params.funding_fee.decrease_factor_per_second = 7;
    market.params.funding_fee.threshold_for_stable_funding = 900_000_000;
    market.params.funding_fee.threshold_for_decrease_funding = 800_000_000;
    for current in [1i64, 5, 6, 7, 8, 1_000, i64::MAX] {
        for duration in [0u64, 1, 2, 1_000_000] {
            market.funding_factor_per_second = current;
            let adapted = adapted_factor(&market, duration, 2_000, 1_000, 0).unwrap();
            assert!(0 < adapted && adapted <= current);
            market.funding_factor_per_second = -current;
            let adapted = adapted_factor(&market, duration, 1_000, 2_000, 0).unwrap();
            assert!(-current <= adapted && adapted < 0);
        }
    }
    market.funding_factor_per_second = 10;
    assert_eq!(adapted_factor(&market, 1, 2_000, 1_000, 0), Ok(3));
    assert_eq!(adapted_factor(&market, 2, 2_000, 1_000, 0), Ok(1));
    // The factor stays between the thresholds and grows above them.
    assert_eq!(adapted_factor(&market, 2, 2_000, 1_000, 850_000_000), Ok(10));
    assert_eq!(adapted_factor(&market, 2, 2_000, 1_000, 950_000_000), Ok(10 + 2 * 9));
    // Against the skew it grows toward the larger side.
    assert_eq!(adapted_factor(&market, 2, 1_000, 2_000, 950_000_000), Ok(10 - 2 * 9));
}

#[test]
fn funding_amounts_per_size_favour_the_pool() {
    let unit = 1_000_000_000u64;
    for (value, interest, price) in [
        (600_000u64, 50_000_000_000_000u64, 123u64),
        (1, 3, 7),
        (7, 3, 1),
        (999_999, 1_000_001, 13),
    ] {
        let exact = (value as u128) * 10_000 * (unit as u128);
        let charge = pack_to_funding_amount_per_size(10_000, value, interest, price, true, unit).unwrap();
        let claim = pack_to_funding_amount_per_size(10_000, value, interest, price, false, unit).unwrap();
        assert!((charge as u128) * (price as u128) * (interest as u128) >= exact);
        assert!((claim as u128) * (price as u128) * (interest as u128) <= exact);
        assert!(charge >= claim);
    }
}

#[test]
fn the_exponent_one_keeps_the_value() {
    for unit in [1u64, 10, 1_000_000_000, u64::MAX] {
        for value in [0u64, 1, 7, 1_000_000_007, u64::MAX] {
            assert_eq!(apply_exponent_factor(value, unit, unit), Some(value));
        }
    }
}

fn books(market: &Market, side: bool, token: bool) -> [i64; 6] {
    let sums = if side { market.collateral_sum_for_long } else { market.collateral_sum_for_short };
    let interest = if side { market.open_interest_for_long } else { market.open_interest_for_short };
    let tokens = if side {
        market.open_interest_in_tokens_for_long
    } else {
        market.open_interest_in_tokens_for_short
    };
    let pick = |pool: Pool| if token { pool.long_amount } else { pool.short_amount };
    [
        pick(sums),
        pick(interest),
        pick(tokens),
        pick(market.primary),
        pick(market.claimable_fee),
        market.position_impact.long_amount,
    ]
}

#[test]
fn the_actions_keep_the_books() {
    for (side, token) in [(true, true), (true, false), (false, true), (false, false)] {
        let mut market = Market::default();
        let prices = Prices::new_for_test(123, 123, 1);
        market
            .deposit(1_000_000_000_000, 100_000_000_000_000, prices)
            .unwrap()
            .execute()
            .unwrap();
        let mut position = Position::empty(side, token);
        let collateral = if token { 1_000_000_000 } else { 123_000_000_000 };

        let before = (books(&market, side, token), position);
        let report = position
            .ops(&mut market)
            .increase(prices, collateral, 50_000_000_000, None)
            .unwrap()
            .execute()
            .unwrap();
        let after = books(&market, side, token);
        let delta = *report.collateral_delta_amount();
        assert_eq!(position.collateral_amount as i64, delta);
        assert_eq!(after[0] - before.0[0], delta);
        assert_eq!(after[1] - before.0[1], 50_000_000_000);
        assert_eq!(after[2] - before.0[2], *report.execution().size_delta_in_tokens() as i64);
        assert_eq!(after[3] - before.0[3], report.fees().for_pool().unwrap() as i64);
        assert_eq!(after[4] - before.0[4], report.fees().for_receiver().unwrap() as i64);
        assert_eq!(after[5] - before.0[5], -*report.execution().price_impact_amount());

        let before = (after, position);
        let report = position
            .ops(&mut market)
            .decrease(prices, 20_000_000_000, None, 1_000, Default::default())
            .unwrap()
            .execute()
            .unwrap();
        let after = books(&market, side, token);
        let settlement = report.settlement;
        let paid = if side == token { settlement.from_pool_amount as i64 } else { 0 };
        let left = position.collateral_amount as i64 - before.1.collateral_amount as i64;
        assert_eq!(after[0] - before.0[0], left);
        assert_eq!(after[1] - before.0[1], -20_000_000_000);
        assert_eq!(after[2] - before.0[2], -(report.size_delta_in_tokens as i64));
        assert_eq!(after[3] - before.0[3], settlement.for_pool_amount as i64 - paid);
        assert_eq!(after[4] - before.0[4], settlement.for_receiver_amount as i64);
        assert_eq!(after[5] - before.0[5], settlement.impact_pool_delta);
        // What left the position went to the trader, the pool, the receiver and the funding.
        assert_eq!(
            -left,
            (settlement.output_amount as i64 - paid)
                + settlement.for_pool_amount as i64
                + settlement.for_receiver_amount as i64
                + report.fees.funding.amount as i64
        );
    }
}
