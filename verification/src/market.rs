//! The market: its pools, its funding and borrowing state, and its clock.

use vstd::prelude::*;
use crate::error::{Calc, Error, Invalid, Step};
use crate::fixed::{apply_factor, apply_factor_spec};
use crate::num::{checked_add, checked_add_with_signed, checked_mul, fit_unsigned};
use crate::params::MarketParams;
use crate::pool::Pool;
use crate::price::{Price, Prices};

verus! {

impl Step<Market, ()> {
    /// The step followed by a delta to a pool: a step that failed stays as
    /// it is, and the delta is applied to what a step that went through left.
    pub open spec fn then_apply(
        self,
        kind: PoolKind,
        is_long_token: bool,
        delta: i64,
    ) -> Step<Market, ()> {
        if self.result is Err {
            self
        } else {
            self.state.apply_delta_spec(kind, is_long_token, delta)
        }
    }
}

/// The pools of a market.
#[derive(Clone, Copy, Debug, PartialEq, Eq, Structural)]
pub enum PoolKind {
    /// The liquidity of the market, by token.
    Primary,
    /// The collateral of the long positions, by token.
    CollateralSumForLong,
    /// The collateral of the short positions, by token.
    CollateralSumForShort,
    /// The open interest of the long positions in USD, by collateral token.
    OpenInterestForLong,
    /// The open interest of the short positions in USD, by collateral token.
    OpenInterestForShort,
    /// The open interest of the long positions in index tokens, by collateral token.
    OpenInterestInTokensForLong,
    /// The open interest of the short positions in index tokens, by collateral token.
    OpenInterestInTokensForShort,
    /// The position impact pool in index tokens, kept in the long amount. It is signed.
    PositionImpact,
    /// The fees that the fee receiver may claim, by token.
    ClaimableFee,
    /// The total borrowing of the long side (long amount) and the short side (short amount).
    TotalBorrowing,
    /// The cumulative borrowing factor of the long side (long amount) and the
    /// short side (short amount).
    BorrowingFactor,
}

impl PoolKind {
    /// The collateral sum pool of a side.
    pub open spec fn collateral_sum(is_long: bool) -> PoolKind {
        if is_long { PoolKind::CollateralSumForLong } else { PoolKind::CollateralSumForShort }
    }

    /// The open interest pool of a side.
    pub open spec fn open_interest(is_long: bool) -> PoolKind {
        if is_long { PoolKind::OpenInterestForLong } else { PoolKind::OpenInterestForShort }
    }

    /// The pool of the open interest in tokens of a side.
    pub open spec fn open_interest_in_tokens(is_long: bool) -> PoolKind {
        if is_long {
            PoolKind::OpenInterestInTokensForLong
        } else {
            PoolKind::OpenInterestInTokensForShort
        }
    }

    /// The collateral sum pool of a side.
    pub fn for_collateral_sum(is_long: bool) -> (r: PoolKind)
        ensures
            r == PoolKind::collateral_sum(is_long),
    {
        if is_long { PoolKind::CollateralSumForLong } else { PoolKind::CollateralSumForShort }
    }

    /// The open interest pool of a side.
    pub fn for_open_interest(is_long: bool) -> (r: PoolKind)
        ensures
            r == PoolKind::open_interest(is_long),
    {
        if is_long { PoolKind::OpenInterestForLong } else { PoolKind::OpenInterestForShort }
    }

    /// The pool of the open interest in tokens of a side.
    pub fn for_open_interest_in_tokens(is_long: bool) -> (r: PoolKind)
        ensures
            r == PoolKind::open_interest_in_tokens(is_long),
    {
        if is_long {
            PoolKind::OpenInterestInTokensForLong
        } else {
            PoolKind::OpenInterestInTokensForShort
        }
    }
}

/// The index of the slot of a side and a collateral token among the four
/// slots of a funding accumulator.
pub open spec fn flags_to_index_spec(is_long: bool, is_long_collateral: bool) -> usize {
    if is_long_collateral {
        if is_long { 0 } else { 1 }
    } else {
        if is_long { 2 } else { 3 }
    }
}

/// Maps a side and a collateral token to the index of their slot.
pub fn flags_to_index(is_long: bool, is_long_collateral: bool) -> (r: usize)
    ensures
        r == flags_to_index_spec(is_long, is_long_collateral),
        r < 4,
{
    match (is_long_collateral, is_long) {
        (true, true) => 0,
        (true, false) => 1,
        (false, true) => 2,
        (false, false) => 3,
    }
}

/// Four amounts per size, one for each side and collateral token.
#[derive(Clone, Copy, Debug, PartialEq, Eq, Structural)]
pub struct Slots {
    pub long_side_long_collateral: u64,
    pub short_side_long_collateral: u64,
    pub long_side_short_collateral: u64,
    pub short_side_short_collateral: u64,
}

impl Slots {
    /// The slot at an index; index 3 stands for every index from 3 on.
    pub open spec fn at(self, index: usize) -> u64 {
        if index == 0 {
            self.long_side_long_collateral
        } else if index == 1 {
            self.short_side_long_collateral
        } else if index == 2 {
            self.long_side_short_collateral
        } else {
            self.short_side_short_collateral
        }
    }

    /// The slots with the one at an index replaced.
    pub open spec fn with(self, index: usize, value: u64) -> Slots {
        if index == 0 {
            Slots { long_side_long_collateral: value, ..self }
        } else if index == 1 {
            Slots { short_side_long_collateral: value, ..self }
        } else if index == 2 {
            Slots { long_side_short_collateral: value, ..self }
        } else {
            Slots { short_side_short_collateral: value, ..self }
        }
    }

    /// The slot of a side and a collateral token.
    pub open spec fn of(self, is_long: bool, is_long_collateral: bool) -> u64 {
        self.at(flags_to_index_spec(is_long, is_long_collateral))
    }

    /// Four empty slots.
    pub fn zero() -> (r: Self)
        ensures
            r == (Slots {
                long_side_long_collateral: 0,
                short_side_long_collateral: 0,
                long_side_short_collateral: 0,
                short_side_short_collateral: 0,
            }),
    {
        Slots {
            long_side_long_collateral: 0,
            short_side_long_collateral: 0,
            long_side_short_collateral: 0,
            short_side_short_collateral: 0,
        }
    }

    /// Reads the slot at an index.
    pub fn get(&self, index: usize) -> (r: u64)
        ensures
            r == self.at(index),
    {
        if index == 0 {
            self.long_side_long_collateral
        } else if index == 1 {
            self.short_side_long_collateral
        } else if index == 2 {
            self.long_side_short_collateral
        } else {
            self.short_side_short_collateral
        }
    }

    /// The slot at an index.
    pub fn slot(&self, index: usize) -> (r: &u64)
        ensures
            *r == self.at(index),
    {
        if index == 0 {
            &self.long_side_long_collateral
        } else if index == 1 {
            &self.short_side_long_collateral
        } else if index == 2 {
            &self.long_side_short_collateral
        } else {
            &self.short_side_short_collateral
        }
    }

    /// Writes the slot at an index.
    pub fn set(&mut self, index: usize, value: u64)
        ensures
            *final(self) == old(self).with(index, value),
    {
        if index == 0 {
            self.long_side_long_collateral = value;
        } else if index == 1 {
            self.short_side_long_collateral = value;
        } else if index == 2 {
            self.long_side_short_collateral = value;
        } else {
            self.short_side_short_collateral = value;
        }
    }
}

/// A market of leveraged positions against pooled liquidity.
#[derive(Clone, Copy, Debug, PartialEq, Eq, Structural)]
pub struct Market {
    pub params: MarketParams,
    pub primary: Pool,
    pub collateral_sum_for_long: Pool,
    pub collateral_sum_for_short: Pool,
    pub open_interest_for_long: Pool,
    pub open_interest_for_short: Pool,
    pub open_interest_in_tokens_for_long: Pool,
    pub open_interest_in_tokens_for_short: Pool,
    pub position_impact: Pool,
    pub claimable_fee: Pool,
    pub total_borrowing: Pool,
    pub borrowing_factor: Pool,
    /// The funding factor per second; positive while longs pay shorts.
    pub funding_factor_per_second: i64,
    /// What each side has been charged per size, by collateral token.
    pub funding_amount_per_size: Slots,
    /// What each side may claim per size, by collateral token.
    pub claimable_funding_amount_per_size: Slots,
    /// The current time in seconds, as the caller last set it.
    pub now: u64,
    /// The time of the last funding update.
    pub funding_updated_at: u64,
    /// The time of the last borrowing update.
    pub borrowing_updated_at: u64,
}

impl Market {
    /// Every balance pool is non-negative and holds no negative amount; the
    /// position impact pool is signed.
    pub open spec fn wf(self) -> bool {
        &&& self.primary.non_negative && self.primary.wf()
        &&& self.collateral_sum_for_long.non_negative && self.collateral_sum_for_long.wf()
        &&& self.collateral_sum_for_short.non_negative && self.collateral_sum_for_short.wf()
        &&& self.open_interest_for_long.non_negative && self.open_interest_for_long.wf()
        &&& self.open_interest_for_short.non_negative && self.open_interest_for_short.wf()
        &&& self.open_interest_in_tokens_for_long.non_negative
            && self.open_interest_in_tokens_for_long.wf()
        &&& self.open_interest_in_tokens_for_short.non_negative
            && self.open_interest_in_tokens_for_short.wf()
        &&& !self.position_impact.non_negative
        &&& self.claimable_fee.non_negative && self.claimable_fee.wf()
        &&& self.total_borrowing.non_negative && self.total_borrowing.wf()
        &&& self.borrowing_factor.non_negative && self.borrowing_factor.wf()
    }

    /// A market without liquidity or positions, at time zero.
    pub open spec fn new_spec(params: MarketParams) -> Market {
        let balance = Pool { long_amount: 0, short_amount: 0, non_negative: true };
        Market {
            params,
            primary: balance,
            collateral_sum_for_long: balance,
            collateral_sum_for_short: balance,
            open_interest_for_long: balance,
            open_interest_for_short: balance,
            open_interest_in_tokens_for_long: balance,
            open_interest_in_tokens_for_short: balance,
            position_impact: Pool { long_amount: 0, short_amount: 0, non_negative: false },
            claimable_fee: balance,
            total_borrowing: balance,
            borrowing_factor: balance,
            funding_factor_per_second: 0,
            funding_amount_per_size: Slots {
                long_side_long_collateral: 0,
                short_side_long_collateral: 0,
                long_side_short_collateral: 0,
                short_side_short_collateral: 0,
            },
            claimable_funding_amount_per_size: Slots {
                long_side_long_collateral: 0,
                short_side_long_collateral: 0,
                long_side_short_collateral: 0,
                short_side_short_collateral: 0,
            },
            now: 0,
            funding_updated_at: 0,
            borrowing_updated_at: 0,
        }
    }

    /// One of the pools.
    pub open spec fn pool_of(self, kind: PoolKind) -> Pool {
        match kind {
            PoolKind::Primary => self.primary,
            PoolKind::CollateralSumForLong => self.collateral_sum_for_long,
            PoolKind::CollateralSumForShort => self.collateral_sum_for_short,
            PoolKind::OpenInterestForLong => self.open_interest_for_long,
            PoolKind::OpenInterestForShort => self.open_interest_for_short,
            PoolKind::OpenInterestInTokensForLong => self.open_interest_in_tokens_for_long,
            PoolKind::OpenInterestInTokensForShort => self.open_interest_in_tokens_for_short,
            PoolKind::PositionImpact => self.position_impact,
            PoolKind::ClaimableFee => self.claimable_fee,
            PoolKind::TotalBorrowing => self.total_borrowing,
            PoolKind::BorrowingFactor => self.borrowing_factor,
        }
    }

    /// The market with one of the pools replaced.
    pub open spec fn with_pool(self, kind: PoolKind, pool: Pool) -> Market {
        match kind {
            PoolKind::Primary => Market { primary: pool, ..self },
            PoolKind::CollateralSumForLong => Market { collateral_sum_for_long: pool, ..self },
            PoolKind::CollateralSumForShort => Market { collateral_sum_for_short: pool, ..self },
            PoolKind::OpenInterestForLong => Market { open_interest_for_long: pool, ..self },
            PoolKind::OpenInterestForShort => Market { open_interest_for_short: pool, ..self },
            PoolKind::OpenInterestInTokensForLong => Market {
                open_interest_in_tokens_for_long: pool,
                ..self
            },
            PoolKind::OpenInterestInTokensForShort => Market {
                open_interest_in_tokens_for_short: pool,
                ..self
            },
            PoolKind::PositionImpact => Market { position_impact: pool, ..self },
            PoolKind::ClaimableFee => Market { claimable_fee: pool, ..self },
            PoolKind::TotalBorrowing => Market { total_borrowing: pool, ..self },
            PoolKind::BorrowingFactor => Market { borrowing_factor: pool, ..self },
        }
    }

    /// The market after a signed delta to one amount of one pool, as
    /// `Pool::apply_delta_spec` decides it. A refused delta leaves the market
    /// as it was.
    pub open spec fn apply_delta_spec(
        self,
        kind: PoolKind,
        is_long_token: bool,
        delta: i64,
    ) -> Step<Market, ()> {
        let outcome = self.pool_of(kind).apply_delta_spec(is_long_token, delta);
        Step { state: self.with_pool(kind, outcome.state), result: outcome.result }
    }

    /// The amount of one token in one pool.
    pub open spec fn amount_spec(self, kind: PoolKind, is_long_token: bool) -> Result<u64, Error> {
        self.pool_of(kind).amount_spec(is_long_token)
    }

    /// The open interest of a side in USD, over both collateral tokens.
    pub open spec fn open_interest_spec(self, is_long: bool) -> Result<u64, Error> {
        self.pool_of(PoolKind::open_interest(is_long)).total_spec()
    }

    /// The open interest of a side in index tokens, over both collateral tokens.
    pub open spec fn open_interest_in_tokens_spec(self, is_long: bool) -> Result<u64, Error> {
        self.pool_of(PoolKind::open_interest_in_tokens(is_long)).total_spec()
    }

    /// The cumulative borrowing factor of a side.
    pub open spec fn cumulative_borrowing_factor_spec(self, is_long: bool) -> Result<u64, Error> {
        self.borrowing_factor.amount_spec(is_long)
    }

    /// The amount of the position impact pool that can pay a positive impact:
    /// a pool in debt has nothing to pay with.
    pub open spec fn position_impact_pool_amount_spec(self) -> u64 {
        if self.position_impact.long_amount >= 0 {
            self.position_impact.long_amount as u64
        } else {
            0
        }
    }

    /// The USD value of the liquidity of one token, at the chosen side of its
    /// price; fails with `Computation` where the value leaves `u64`.
    pub open spec fn pool_value_spec(
        self,
        prices: Prices,
        is_long: bool,
        maximize: bool,
    ) -> Result<u64, Error> {
        match self.primary.amount_spec(is_long) {
            Err(e) => Err(e),
            Ok(amount) => match fit_unsigned(amount * prices.collateral(is_long).pick(maximize)) {
                Some(value) => Ok(value),
                None => Err(Error::Computation(Calc::PoolValue)),
            },
        }
    }

    /// The USD value that the positions of a side reserve: for longs their
    /// open interest in tokens at the ask of the index token, for shorts
    /// their open interest in USD.
    pub open spec fn reserved_value_spec(
        self,
        index_token_price: Price,
        is_long: bool,
    ) -> Result<u64, Error> {
        if is_long {
            match self.open_interest_in_tokens_spec(true) {
                Err(e) => Err(e),
                Ok(tokens) => match fit_unsigned(tokens * index_token_price.max) {
                    Some(value) => Ok(value),
                    None => Err(Error::Computation(Calc::ReservedValue)),
                },
            }
        } else {
            self.open_interest_spec(false)
        }
    }

    /// Whether the reserved value of a side is within `factor` of the value
    /// of its pool; `refusal` is the error where it is not.
    pub open spec fn validate_reserve_with_spec(
        self,
        prices: Prices,
        is_long: bool,
        factor: u64,
        refusal: Invalid,
    ) -> Result<(), Error> {
        match self.pool_value_spec(prices, is_long, false) {
            Err(e) => Err(e),
            Ok(pool_value) => match apply_factor_spec(pool_value, factor, self.params.unit) {
                None => Err(Error::Computation(Calc::PoolValue)),
                Some(max_reserve) => match self.reserved_value_spec(
                    prices.index_token_price,
                    is_long,
                ) {
                    Err(e) => Err(e),
                    Ok(reserved) => if reserved > max_reserve {
                        Err(Error::InvalidArgument(refusal))
                    } else {
                        Ok(())
                    },
                },
            },
        }
    }

    /// Whether the reserved value of a side is within the reserve factor.
    pub open spec fn validate_reserve_spec(
        self,
        prices: Prices,
        is_long: bool,
    ) -> Result<(), Error> {
        self.validate_reserve_with_spec(
            prices,
            is_long,
            self.params.reserve_factor,
            Invalid::InsufficientReserve,
        )
    }

    /// Whether the reserved value of a side is within the open interest
    /// reserve factor.
    pub open spec fn validate_open_interest_reserve_spec(
        self,
        prices: Prices,
        is_long: bool,
    ) -> Result<(), Error> {
        self.validate_reserve_with_spec(
            prices,
            is_long,
            self.params.open_interest_reserve_factor,
            Invalid::InsufficientOpenInterestReserve,
        )
    }

    /// The market after a signed delta to what a side has been charged per
    /// size for one collateral token. The delta is refused with
    /// `Computation` where the sum leaves `u64`, and the market is then as it
    /// was.
    pub open spec fn apply_delta_to_funding_amount_per_size_spec(
        self,
        is_long: bool,
        is_long_collateral: bool,
        delta: i64,
    ) -> Step<Market, ()> {
        let index = flags_to_index_spec(is_long, is_long_collateral);
        match fit_unsigned(self.funding_amount_per_size.at(index) + delta) {
            None => Step { state: self, result: Err(Error::Computation(Calc::FundingAccumulator)) },
            Some(next) => Step {
                state: Market {
                    funding_amount_per_size: self.funding_amount_per_size.with(index, next),
                    ..self
                },
                result: Ok(()),
            },
        }
    }

    /// The market after a signed delta to what a side may claim per size for
    /// one collateral token. The delta is refused with `Computation` where
    /// the sum leaves `u64`, and the market is then as it was.
    pub open spec fn apply_delta_to_claimable_funding_amount_per_size_spec(
        self,
        is_long: bool,
        is_long_collateral: bool,
        delta: i64,
    ) -> Step<Market, ()> {
        let index = flags_to_index_spec(is_long, is_long_collateral);
        match fit_unsigned(self.claimable_funding_amount_per_size.at(index) + delta) {
            None => Step { state: self, result: Err(Error::Computation(Calc::FundingAccumulator)) },
            Some(next) => Step {
                state: Market {
                    claimable_funding_amount_per_size: self.claimable_funding_amount_per_size.with(
                        index,
                        next,
                    ),
                    ..self
                },
                result: Ok(()),
            },
        }
    }

    /// The seconds since the last funding update, never negative.
    pub open spec fn passed_for_funding_spec(self) -> u64 {
        if self.now >= self.funding_updated_at {
            (self.now - self.funding_updated_at) as u64
        } else {
            0
        }
    }

    /// The seconds since the last borrowing update, never negative.
    pub open spec fn passed_for_borrowing_spec(self) -> u64 {
        if self.now >= self.borrowing_updated_at {
            (self.now - self.borrowing_updated_at) as u64
        } else {
            0
        }
    }

    /// A market without liquidity or positions.
    pub fn new(params: MarketParams) -> (r: Self)
        ensures
            r == Market::new_spec(params),
            r.wf(),
    {
        Market {
            params,
            primary: Pool::new(),
            collateral_sum_for_long: Pool::new(),
            collateral_sum_for_short: Pool::new(),
            open_interest_for_long: Pool::new(),
            open_interest_for_short: Pool::new(),
            open_interest_in_tokens_for_long: Pool::new(),
            open_interest_in_tokens_for_short: Pool::new(),
            position_impact: Pool::signed(),
            claimable_fee: Pool::new(),
            total_borrowing: Pool::new(),
            borrowing_factor: Pool::new(),
            funding_factor_per_second: 0,
            funding_amount_per_size: Slots::zero(),
            claimable_funding_amount_per_size: Slots::zero(),
            now: 0,
            funding_updated_at: 0,
            borrowing_updated_at: 0,
        }
    }

    /// One of the pools.
    pub fn pool(&self, kind: PoolKind) -> (r: Pool)
        ensures
            r == self.pool_of(kind),
    {
        match kind {
            PoolKind::Primary => self.primary,
            PoolKind::CollateralSumForLong => self.collateral_sum_for_long,
            PoolKind::CollateralSumForShort => self.collateral_sum_for_short,
            PoolKind::OpenInterestForLong => self.open_interest_for_long,
            PoolKind::OpenInterestForShort => self.open_interest_for_short,
            PoolKind::OpenInterestInTokensForLong => self.open_interest_in_tokens_for_long,
            PoolKind::OpenInterestInTokensForShort => self.open_interest_in_tokens_for_short,
            PoolKind::PositionImpact => self.position_impact,
            PoolKind::ClaimableFee => self.claimable_fee,
            PoolKind::TotalBorrowing => self.total_borrowing,
            PoolKind::BorrowingFactor => self.borrowing_factor,
        }
    }

    /// Applies a signed delta to one amount of one pool. Every change of a
    /// balance goes through here.
    pub fn apply_delta(
        &mut self,
        kind: PoolKind,
        is_long_token: bool,
        delta: i64,
    ) -> (r: Result<(), Error>)
        ensures
            (Step { state: *final(self), result: r }) == old(self).apply_delta_spec(
                kind,
                is_long_token,
                delta,
            ),
            r is Err ==> *final(self) == *old(self),
            old(self).wf() ==> final(self).wf(),
    {
        match kind {
            PoolKind::Primary => self.primary.apply_delta(is_long_token, delta),
            PoolKind::CollateralSumForLong => self.collateral_sum_for_long.apply_delta(
                is_long_token,
                delta,
            ),
            PoolKind::CollateralSumForShort => self.collateral_sum_for_short.apply_delta(
                is_long_token,
                delta,
            ),
            PoolKind::OpenInterestForLong => self.open_interest_for_long.apply_delta(
                is_long_token,
                delta,
            ),
            PoolKind::OpenInterestForShort => self.open_interest_for_short.apply_delta(
                is_long_token,
                delta,
            ),
            PoolKind::OpenInterestInTokensForLong => {
                self.open_interest_in_tokens_for_long.apply_delta(is_long_token, delta)
            },
            PoolKind::OpenInterestInTokensForShort => {
                self.open_interest_in_tokens_for_short.apply_delta(is_long_token, delta)
            },
            PoolKind::PositionImpact => self.position_impact.apply_delta(is_long_token, delta),
            PoolKind::ClaimableFee => self.claimable_fee.apply_delta(is_long_token, delta),
            PoolKind::TotalBorrowing => self.total_borrowing.apply_delta(is_long_token, delta),
            PoolKind::BorrowingFactor => self.borrowing_factor.apply_delta(is_long_token, delta),
        }
    }

    /// The amount of one token in one pool.
    pub fn amount(&self, kind: PoolKind, is_long_token: bool) -> (r: Result<u64, Error>)
        ensures
            r == self.amount_spec(kind, is_long_token),
    {
        self.pool(kind).amount(is_long_token)
    }

    /// The open interest of a side in USD.
    pub fn open_interest(&self, is_long: bool) -> (r: Result<u64, Error>)
        ensures
            r == self.open_interest_spec(is_long),
    {
        self.pool(PoolKind::for_open_interest(is_long)).total()
    }

    /// The open interest of a side in index tokens.
    pub fn open_interest_in_tokens(&self, is_long: bool) -> (r: Result<u64, Error>)
        ensures
            r == self.open_interest_in_tokens_spec(is_long),
    {
        self.pool(PoolKind::for_open_interest_in_tokens(is_long)).total()
    }

    /// The cumulative borrowing factor of a side.
    pub fn cumulative_borrowing_factor(&self, is_long: bool) -> (r: Result<u64, Error>)
        ensures
            r == self.cumulative_borrowing_factor_spec(is_long),
    {
        self.borrowing_factor.amount(is_long)
    }

    /// What a side has been charged per size, for one collateral token.
    pub fn funding_fee_amount_per_size(&self, is_long: bool, is_long_collateral: bool) -> (r: u64)
        ensures
            r == self.funding_amount_per_size.of(is_long, is_long_collateral),
    {
        self.funding_amount_per_size.get(flags_to_index(is_long, is_long_collateral))
    }

    /// What a side may claim per size, for one collateral token.
    pub fn claimable_funding_fee_amount_per_size(
        &self,
        is_long: bool,
        is_long_collateral: bool,
    ) -> (r: u64)
        ensures
            r == self.claimable_funding_amount_per_size.of(is_long, is_long_collateral),
    {
        self.claimable_funding_amount_per_size.get(flags_to_index(is_long, is_long_collateral))
    }

    /// Applies a signed delta to what a side has been charged per size.
    pub fn apply_delta_to_funding_amount_per_size(
        &mut self,
        is_long: bool,
        is_long_collateral: bool,
        delta: i64,
    ) -> (r: Result<(), Error>)
        ensures
            (Step { state: *final(self), result: r })
                == old(self).apply_delta_to_funding_amount_per_size_spec(
                is_long,
                is_long_collateral,
                delta,
            ),
            r is Err ==> *final(self) == *old(self),
            old(self).wf() ==> final(self).wf(),
    {
        let index = flags_to_index(is_long, is_long_collateral);
        match checked_add_with_signed(self.funding_amount_per_size.get(index), delta) {
            Some(next) => {
                self.funding_amount_per_size.set(index, next);
                Ok(())
            },
            None => Err(Error::Computation(Calc::FundingAccumulator)),
        }
    }

    /// Applies a signed delta to what a side may claim per size.
    pub fn apply_delta_to_claimable_funding_amount_per_size(
        &mut self,
        is_long: bool,
        is_long_collateral: bool,
        delta: i64,
    ) -> (r: Result<(), Error>)
        ensures
            (Step { state: *final(self), result: r })
                == old(self).apply_delta_to_claimable_funding_amount_per_size_spec(
                is_long,
                is_long_collateral,
                delta,
            ),
            r is Err ==> *final(self) == *old(self),
            old(self).wf() ==> final(self).wf(),
    {
        let index = flags_to_index(is_long, is_long_collateral);
        match checked_add_with_signed(self.claimable_funding_amount_per_size.get(index), delta) {
            Some(next) => {
                self.claimable_funding_amount_per_size.set(index, next);
                Ok(())
            },
            None => Err(Error::Computation(Calc::FundingAccumulator)),
        }
    }

    /// The amount of the position impact pool that can pay a positive impact.
    pub fn position_impact_pool_amount(&self) -> (r: u64)
        ensures
            r == self.position_impact_pool_amount_spec(),
    {
        if self.position_impact.long_amount >= 0 {
            self.position_impact.long_amount as u64
        } else {
            0
        }
    }

    /// The USD value of the liquidity of one token.
    pub fn pool_value_without_pnl_for_one_side(
        &self,
        prices: &Prices,
        is_long: bool,
        maximize: bool,
    ) -> (r: Result<u64, Error>)
        ensures
            r == self.pool_value_spec(*prices, is_long, maximize),
    {
        let amount = self.primary.amount(is_long)?;
        let price = prices.collateral_token_price(is_long).pick_price(maximize);
        match checked_mul(amount, price) {
            Some(value) => Ok(value),
            None => Err(Error::Computation(Calc::PoolValue)),
        }
    }

    /// The USD value that the positions of a side reserve.
    pub fn reserved_value(
        &self,
        index_token_price: &Price,
        is_long: bool,
    ) -> (r: Result<u64, Error>)
        ensures
            r == self.reserved_value_spec(*index_token_price, is_long),
    {
        if is_long {
            let tokens = self.open_interest_in_tokens(true)?;
            match checked_mul(tokens, index_token_price.pick_price(true)) {
                Some(value) => Ok(value),
                None => Err(Error::Computation(Calc::ReservedValue)),
            }
        } else {
            self.open_interest(false)
        }
    }

    fn validate_reserve_with(
        &self,
        prices: &Prices,
        is_long: bool,
        factor: u64,
        refusal: Invalid,
    ) -> (r: Result<(), Error>)
        ensures
            r == self.validate_reserve_with_spec(*prices, is_long, factor, refusal),
    {
        let pool_value = self.pool_value_without_pnl_for_one_side(prices, is_long, false)?;
        let max_reserve = match apply_factor(pool_value, factor, self.params.unit) {
            Some(value) => value,
            None => {
                return Err(Error::Computation(Calc::PoolValue));
            },
        };
        let reserved = self.reserved_value(&prices.index_token_price, is_long)?;
        if reserved > max_reserve {
            Err(Error::InvalidArgument(refusal))
        } else {
            Ok(())
        }
    }

    /// Fails with `InsufficientReserve` where the positions of a side reserve
    /// more than the reserve factor allows.
    pub fn validate_reserve(&self, prices: &Prices, is_long: bool) -> (r: Result<(), Error>)
        ensures
            r == self.validate_reserve_spec(*prices, is_long),
    {
        self.validate_reserve_with(
            prices,
            is_long,
            self.params.reserve_factor,
            Invalid::InsufficientReserve,
        )
    }

    /// Fails with `InsufficientOpenInterestReserve` where the open interest
    /// of a side reserves more than the open interest reserve factor allows.
    pub fn validate_open_interest_reserve(
        &self,
        prices: &Prices,
        is_long: bool,
    ) -> (r: Result<(), Error>)
        ensures
            r == self.validate_open_interest_reserve_spec(*prices, is_long),
    {
        self.validate_reserve_with(
            prices,
            is_long,
            self.params.open_interest_reserve_factor,
            Invalid::InsufficientOpenInterestReserve,
        )
    }

    /// Sets the current time. Time does not run backwards: an earlier time
    /// than the current one is ignored.
    pub fn set_now(&mut self, now: u64)
        ensures
            *final(self) == (Market {
                now: if now >= old(self).now { now } else { old(self).now },
                ..*old(self)
            }),
    {
        if now >= self.now {
            self.now = now;
        }
    }

    /// Lets `seconds` pass; the clock stops at the end of its range.
    pub fn pass_seconds(&mut self, seconds: u64)
        ensures
            *final(self) == (Market {
                now: if old(self).now + seconds <= u64::MAX {
                    (old(self).now + seconds) as u64
                } else {
                    u64::MAX
                },
                ..*old(self)
            }),
    {
        self.now = match checked_add(self.now, seconds) {
            Some(now) => now,
            None => u64::MAX,
        };
    }

    /// The seconds since the last funding update, which becomes now.
    pub fn just_passed_in_seconds_for_funding(&mut self) -> (r: u64)
        ensures
            r == old(self).passed_for_funding_spec(),
            *final(self) == (Market { funding_updated_at: old(self).now, ..*old(self) }),
    {
        let passed = if self.now >= self.funding_updated_at {
            self.now - self.funding_updated_at
        } else {
            0
        };
        self.funding_updated_at = self.now;
        passed
    }
}

impl Market {
    /// The seconds since the last borrowing update, which becomes now.
    pub fn just_passed_in_seconds_for_borrowing(&mut self) -> (r: u64)
        ensures
            r == old(self).passed_for_borrowing_spec(),
            *final(self) == (Market { borrowing_updated_at: old(self).now, ..*old(self) }),
    {
        let passed = if self.now >= self.borrowing_updated_at {
            self.now - self.borrowing_updated_at
        } else {
            0
        };
        self.borrowing_updated_at = self.now;
        passed
    }
}

impl Default for Market {
    /// An empty market of nine fractional digits with the default parameters.
    fn default() -> (r: Self)
        ensures
            r == Market::new_spec(MarketParams::default_spec()),
    {
        Market::new(MarketParams::default())
    }
}

} // verus!
