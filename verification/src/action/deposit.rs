//! Depositing liquidity.

use vstd::prelude::*;
use crate::error::{Error, Invalid, Step};
use crate::market::{Market, PoolKind};
use crate::num::{to_signed, to_signed_spec};
use crate::price::Prices;

verus! {

/// Deposit Params.
#[derive(Clone, Copy, Debug, PartialEq, Eq, Structural)]
pub struct DepositParams {
    pub long_token_amount: u64,
    pub short_token_amount: u64,
    pub prices: Prices,
}

/// Deposit liquidity into the market.
#[must_use]
pub struct Deposit<'a> {
    pub market: &'a mut Market,
    pub params: DepositParams,
}

/// Report of the execution of a deposit.
#[must_use]
#[derive(Clone, Copy, Debug, PartialEq, Eq, Structural)]
pub struct DepositReport {
    pub params: DepositParams,
}

/// Whether a deposit is accepted: its prices are valid and it deposits
/// something.
pub open spec fn deposit_params_spec(
    long_token_amount: u64,
    short_token_amount: u64,
    prices: Prices,
) -> Result<DepositParams, Error> {
    if !prices.valid() {
        Err(Error::InvalidArgument(Invalid::Prices))
    } else if long_token_amount == 0 && short_token_amount == 0 {
        Err(Error::InvalidArgument(Invalid::EmptyDeposit))
    } else {
        Ok(DepositParams { long_token_amount, short_token_amount, prices })
    }
}

/// What a deposit does to a market: the long tokens and then the short
/// tokens are added to the liquidity, up to the first amount that is
/// refused. Amounts above `i64::MAX` are refused before anything changes.
pub open spec fn deposit_spec(
    market: Market,
    params: DepositParams,
) -> Step<Market, DepositReport> {
    if to_signed_spec(params.long_token_amount) is Err || to_signed_spec(params.short_token_amount)
        is Err {
        Step { state: market, result: Err(Error::Convert) }
    } else {
        let added = market.apply_delta_spec(
            PoolKind::Primary,
            true,
            params.long_token_amount as i64,
        ).then_apply(PoolKind::Primary, false, params.short_token_amount as i64);
        match added.result {
            Err(e) => Step { state: added.state, result: Err(e) },
            Ok(()) => Step { state: added.state, result: Ok(DepositReport { params }) },
        }
    }
}

impl Market {
    /// Create an action to deposit liquidity.
    pub fn deposit<'a>(
        &'a mut self,
        long_token_amount: u64,
        short_token_amount: u64,
        prices: Prices,
    ) -> (r: Result<Deposit<'a>, Error>)
        ensures
            match deposit_params_spec(long_token_amount, short_token_amount, prices) {
                Ok(params) => r matches Ok(action) && action.params == params && *action.market
                    == *old(self) && *final(action.market) == *final(self),
                Err(e) => r matches Err(f) && e == f && *final(self) == *old(self),
            },
    {
        Deposit::try_new(self, long_token_amount, short_token_amount, prices)
    }
}

impl<'a> Deposit<'a> {
    /// Create a new action to deposit into the given market.
    pub fn try_new(
        market: &'a mut Market,
        long_token_amount: u64,
        short_token_amount: u64,
        prices: Prices,
    ) -> (r: Result<Self, Error>)
        ensures
            match deposit_params_spec(long_token_amount, short_token_amount, prices) {
                Ok(params) => r matches Ok(action) && action.params == params && *action.market
                    == *old(market) && *final(action.market) == *final(market),
                Err(e) => r matches Err(f) && e == f && *final(market) == *old(market),
            },
    {
        if !prices.is_valid() {
            return Err(Error::InvalidArgument(Invalid::Prices));
        }
        if long_token_amount == 0 && short_token_amount == 0 {
            return Err(Error::InvalidArgument(Invalid::EmptyDeposit));
        }
        Ok(
            Deposit {
                market,
                params: DepositParams { long_token_amount, short_token_amount, prices },
            },
        )
    }

    /// Executes the deposit on the market. On an error the market holds
    /// what was applied before the step that failed.
    pub fn execute(self) -> (r: Result<DepositReport, Error>)
        ensures
            (Step { state: *final(self.market), result: r }) == deposit_spec(
                *old(self.market),
                self.params,
            ),
            old(self.market).wf() ==> final(self.market).wf(),
    {
        let Deposit { market, params } = self;
        let long_token_amount = to_signed(params.long_token_amount);
        let short_token_amount = to_signed(params.short_token_amount);
        let long_token_amount = long_token_amount?;
        let short_token_amount = short_token_amount?;
        market.apply_delta(PoolKind::Primary, true, long_token_amount)?;
        market.apply_delta(PoolKind::Primary, false, short_token_amount)?;
        Ok(DepositReport { params })
    }

    /// Executes the deposit on a copy of the market, and keeps the copy only
    /// if the deposit went through: a deposit that fails leaves the market
    /// as it was.
    pub fn execute_atomically(self) -> (r: Result<DepositReport, Error>)
        ensures
            r == deposit_spec(*old(self.market), self.params).result,
            r is Ok ==> *final(self.market) == deposit_spec(*old(self.market), self.params).state,
            r is Err ==> *final(self.market) == *old(self.market),
    {
        let Deposit { market, params } = self;
        let mut next_market = *market;
        let report = (Deposit { market: &mut next_market, params }).execute()?;
        *market = next_market;
        Ok(report)
    }
}

} // verus!
