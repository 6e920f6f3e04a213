//! Forced decreases: liquidation and auto-deleveraging.

use vstd::prelude::*;
use crate::action::decrease_position::{DecreasePositionFlags, DecreasePositionParams,
    DecreasePositionReport, decrease_spec, execute_decrease};
use crate::error::{Error, Invalid, Step};
use crate::market::Market;
use crate::position::{CollateralCheck, Position, PositionOps, State};
use crate::price::Prices;

verus! {

/// The kinds of forced decrease.
#[derive(Clone, Copy, Debug, PartialEq, Eq, Structural)]
pub enum PositionCutKind {
    /// Close a position whose collateral no longer covers it.
    Liquidate,
    /// Decrease a profitable position by a size, while the open interest
    /// of its side reserves more than the pool allows.
    AutoDeleverage(u64),
}

/// Cut the position. A keeper executes it: no acceptable price is held
/// against it, and the condition that triggers it is checked again on the
/// market as it is when the cut executes.
#[must_use]
pub struct PositionCut<'a> {
    pub position: PositionOps<'a>,
    pub kind: PositionCutKind,
    pub prices: Prices,
}

/// The decrease that a cut comes to, where the condition that triggers it
/// holds.
///
/// A liquidation closes the whole position, insolvent or not, and needs the
/// position to be liquidatable. An auto-deleverage closes the given size and
/// needs the open interest reserve of the side to be exceeded and the
/// position to be in profit. An empty position cannot be cut.
pub open spec fn cut_trigger_spec(
    market: Market,
    position: Position,
    prices: Prices,
    kind: PositionCutKind,
) -> Result<DecreasePositionParams, Error> {
    if position.size_in_usd == 0 {
        Err(Error::InvalidArgument(Invalid::EmptyPosition))
    } else {
        match kind {
            PositionCutKind::Liquidate => match position.check_liquidatable_spec(
                market,
                prices,
                true,
            ) {
                Err(e) => Err(e),
                Ok(check) => if check == CollateralCheck::Sufficient {
                    Err(Error::InvalidArgument(Invalid::NotLiquidatable))
                } else {
                    Ok(
                        DecreasePositionParams {
                            prices,
                            initial_size_delta_usd: position.size_in_usd,
                            acceptable_price: None,
                            initial_collateral_withdrawal_amount: 0,
                            flags: DecreasePositionFlags { is_insolvent_close_allowed: true },
                        },
                    )
                },
            },
            PositionCutKind::AutoDeleverage(
                size_delta_usd,
            ) => match market.validate_open_interest_reserve_spec(prices, position.is_long) {
                Ok(()) => Err(Error::InvalidArgument(Invalid::AdlNotRequired)),
                Err(e) => if e != Error::InvalidArgument(Invalid::InsufficientOpenInterestReserve) {
                    Err(e)
                } else {
                    match position.pnl_value_spec(prices, position.size_in_usd) {
                        Err(e) => Err(e),
                        Ok(pnl) => if pnl.value <= 0 {
                            Err(Error::InvalidArgument(Invalid::AdlNotProfitable))
                        } else {
                            Ok(
                                DecreasePositionParams {
                                    prices,
                                    initial_size_delta_usd: size_delta_usd,
                                    acceptable_price: None,
                                    initial_collateral_withdrawal_amount: 0,
                                    flags: DecreasePositionFlags {
                                        is_insolvent_close_allowed: false,
                                    },
                                },
                            )
                        },
                    }
                },
            },
        }
    }
}

/// What a cut does to a market and a position, and what it returns: where
/// the condition that triggers it holds, what the decrease that it comes to
/// does; otherwise nothing, and the error says what did not hold.
pub open spec fn position_cut_spec(
    market: Market,
    position: Position,
    prices: Prices,
    kind: PositionCutKind,
) -> Step<State, DecreasePositionReport> {
    match cut_trigger_spec(market, position, prices, kind) {
        Err(e) => Step { state: State { market, position }, result: Err(e) },
        Ok(params) => decrease_spec(market, position, params),
    }
}

/// Checks the condition that triggers a cut.
pub fn cut_trigger(
    market: &Market,
    position: &Position,
    prices: &Prices,
    kind: PositionCutKind,
) -> (r: Result<DecreasePositionParams, Error>)
    ensures
        r == cut_trigger_spec(*market, *position, *prices, kind),
{
    if position.size_in_usd == 0 {
        return Err(Error::InvalidArgument(Invalid::EmptyPosition));
    }
    match kind {
        PositionCutKind::Liquidate => {
            match position.check_liquidatable(market, prices, true)? {
                CollateralCheck::Sufficient => Err(
                    Error::InvalidArgument(Invalid::NotLiquidatable),
                ),
                _ => Ok(
                    DecreasePositionParams {
                        prices: *prices,
                        initial_size_delta_usd: position.size_in_usd,
                        acceptable_price: None,
                        initial_collateral_withdrawal_amount: 0,
                        flags: DecreasePositionFlags { is_insolvent_close_allowed: true },
                    },
                ),
            }
        },
        PositionCutKind::AutoDeleverage(size_delta_usd) => {
            match market.validate_open_interest_reserve(prices, position.is_long) {
                Ok(()) => {
                    return Err(Error::InvalidArgument(Invalid::AdlNotRequired));
                },
                Err(Error::InvalidArgument(Invalid::InsufficientOpenInterestReserve)) => {},
                Err(e) => {
                    return Err(e);
                },
            }
            let pnl = position.pnl_value(prices, position.size_in_usd)?;
            if pnl.value <= 0 {
                return Err(Error::InvalidArgument(Invalid::AdlNotProfitable));
            }
            Ok(
                DecreasePositionParams {
                    prices: *prices,
                    initial_size_delta_usd: size_delta_usd,
                    acceptable_price: None,
                    initial_collateral_withdrawal_amount: 0,
                    flags: DecreasePositionFlags { is_insolvent_close_allowed: false },
                },
            )
        },
    }
}

impl<'a> PositionOps<'a> {
    /// Create an action to liquidate the position.
    pub fn liquidate(self, prices: Prices) -> (r: Result<PositionCut<'a>, Error>)
        ensures
            prices.valid() <==> r is Ok,
            r matches Ok(action) ==> action.position == self && action.prices == prices
                && action.kind == PositionCutKind::Liquidate,
            r matches Err(e) ==> e == Error::InvalidArgument(Invalid::Prices),
            r is Err ==> *final(self.market) == *old(self.market),
            r is Err ==> *final(self.position) == *old(self.position),
    {
        PositionCut::try_new(self, prices, PositionCutKind::Liquidate)
    }

    /// Create an action to auto-deleverage the position by a size.
    pub fn auto_deleverage(
        self,
        prices: Prices,
        size_delta_usd: u64,
    ) -> (r: Result<PositionCut<'a>, Error>)
        ensures
            prices.valid() <==> r is Ok,
            r matches Ok(action) ==> action.position == self && action.prices == prices
                && action.kind == PositionCutKind::AutoDeleverage(size_delta_usd),
            r matches Err(e) ==> e == Error::InvalidArgument(Invalid::Prices),
            r is Err ==> *final(self.market) == *old(self.market),
            r is Err ==> *final(self.position) == *old(self.position),
    {
        PositionCut::try_new(self, prices, PositionCutKind::AutoDeleverage(size_delta_usd))
    }
}

impl<'a> PositionCut<'a> {
    /// Create a new action to cut the given position.
    pub fn try_new(
        position: PositionOps<'a>,
        prices: Prices,
        kind: PositionCutKind,
    ) -> (r: Result<Self, Error>)
        ensures
            prices.valid() <==> r is Ok,
            r matches Ok(action) ==> action.position == position && action.prices == prices
                && action.kind == kind,
            r matches Err(e) ==> e == Error::InvalidArgument(Invalid::Prices),
            r is Err ==> *final(position.market) == *old(position.market),
            r is Err ==> *final(position.position) == *old(position.position),
    {
        if !prices.is_valid() {
            return Err(Error::InvalidArgument(Invalid::Prices));
        }
        Ok(PositionCut { position, kind, prices })
    }

    /// Executes the cut on the market and the position. On an error they
    /// hold what was applied before the step that failed.
    pub fn execute(self) -> (r: Result<DecreasePositionReport, Error>)
        ensures
            (Step {
                state: State {
                    market: *final(self.position.market),
                    position: *final(self.position.position),
                },
                result: r,
            }) == position_cut_spec(
                *old(self.position.market),
                *old(self.position.position),
                self.prices,
                self.kind,
            ),
            old(self.position.market).wf() ==> final(self.position.market).wf(),
            r is Ok ==> final(self.position.position).wf(),
            cut_trigger_spec(
                *old(self.position.market),
                *old(self.position.position),
                self.prices,
                self.kind,
            ) is Err ==> r is Err && *final(self.position.market) == *old(self.position.market)
                && *final(self.position.position) == *old(self.position.position),
    {
        let PositionCut { position: PositionOps { market, position }, kind, prices } = self;
        let params = cut_trigger(market, position, &prices, kind)?;
        execute_decrease(market, position, params)
    }

    /// Executes the cut on a copy of the market and the position, and keeps
    /// the copy only if the cut went through: a cut that fails leaves both
    /// as they were.
    pub fn execute_atomically(self) -> (r: Result<DecreasePositionReport, Error>)
        ensures
            r == position_cut_spec(
                *old(self.position.market),
                *old(self.position.position),
                self.prices,
                self.kind,
            ).result,
            r is Ok ==> (State {
                market: *final(self.position.market),
                position: *final(self.position.position),
            }) == position_cut_spec(
                *old(self.position.market),
                *old(self.position.position),
                self.prices,
                self.kind,
            ).state,
            r is Err ==> *final(self.position.market) == *old(self.position.market),
            r is Err ==> *final(self.position.position) == *old(self.position.position),
    {
        let PositionCut { position: PositionOps { market, position }, kind, prices } = self;
        let params = cut_trigger(market, position, &prices, kind)?;
        let mut next_market = *market;
        let mut next_position = *position;
        let report = execute_decrease(&mut next_market, &mut next_position, params)?;
        *market = next_market;
        *position = next_position;
        Ok(report)
    }
}

} // verus!
