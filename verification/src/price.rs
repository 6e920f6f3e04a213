//! Bid/ask prices and the price snapshot of a market.

use vstd::prelude::*;
use crate::error::{Error, Invalid};

verus! {

/// The bid (`min`) and ask (`max`) of a token, in USD per token unit.
#[derive(Clone, Copy, Debug, PartialEq, Eq, Structural)]
pub struct Price {
    pub min: u64,
    pub max: u64,
}

impl Price {
    /// Neither side is zero and the bid is not above the ask.
    pub open spec fn valid(self) -> bool {
        self.min != 0 && self.max != 0 && self.min <= self.max
    }

    /// The ask for `is_max`, the bid otherwise.
    pub open spec fn pick(self, is_max: bool) -> u64 {
        if is_max { self.max } else { self.min }
    }

    /// The side at which a position's value is taken: the higher value of
    /// the position for `maximize`, the lower one otherwise.
    pub open spec fn pick_for_pnl(self, is_long: bool, maximize: bool) -> u64 {
        self.pick(is_long == maximize)
    }

    /// A price whose bid and ask are both `price`.
    pub fn new_for_test(price: u64) -> (r: Self)
        ensures
            r == (Price { min: price, max: price }),
    {
        Price { min: price, max: price }
    }

    /// Whether the price is valid.
    pub fn is_valid(&self) -> (r: bool)
        ensures
            r == self.valid(),
    {
        self.min != 0 && self.max != 0 && self.min <= self.max
    }

    /// Picks the conservative side for a direction.
    pub fn pick_price(&self, is_max: bool) -> (r: u64)
        ensures
            r == self.pick(is_max),
    {
        if is_max { self.max } else { self.min }
    }

    /// Picks the side for valuing a position.
    pub fn pick_price_for_pnl(&self, is_long: bool, maximize: bool) -> (r: u64)
        ensures
            r == self.pick_for_pnl(is_long, maximize),
    {
        self.pick_price(is_long == maximize)
    }
}

/// The prices of the index, long and short tokens of a market.
#[derive(Clone, Copy, Debug, PartialEq, Eq, Structural)]
pub struct Prices {
    pub index_token_price: Price,
    pub long_token_price: Price,
    pub short_token_price: Price,
}

impl Prices {
    /// All three prices are valid.
    pub open spec fn valid(self) -> bool {
        self.index_token_price.valid() && self.long_token_price.valid()
            && self.short_token_price.valid()
    }

    /// The price of the collateral token of a side.
    pub open spec fn collateral(self, is_long: bool) -> Price {
        if is_long { self.long_token_price } else { self.short_token_price }
    }

    /// Prices without a spread.
    pub fn new_for_test(index: u64, long: u64, short: u64) -> (r: Self)
        ensures
            r == (Prices {
                index_token_price: Price { min: index, max: index },
                long_token_price: Price { min: long, max: long },
                short_token_price: Price { min: short, max: short },
            }),
    {
        Prices {
            index_token_price: Price::new_for_test(index),
            long_token_price: Price::new_for_test(long),
            short_token_price: Price::new_for_test(short),
        }
    }

    /// Whether all three prices are valid.
    pub fn is_valid(&self) -> (r: bool)
        ensures
            r == self.valid(),
    {
        self.index_token_price.is_valid() && self.long_token_price.is_valid()
            && self.short_token_price.is_valid()
    }

    /// Fails with `InvalidArgument` unless all three prices are valid.
    pub fn validate(&self) -> (r: Result<(), Error>)
        ensures
            r == (if self.valid() {
                Ok::<(), Error>(())
            } else {
                Err(Error::InvalidArgument(Invalid::Prices))
            }),
    {
        if self.is_valid() {
            Ok(())
        } else {
            Err(Error::InvalidArgument(Invalid::Prices))
        }
    }

    /// The price of the collateral token of a side.
    pub fn collateral_token_price(&self, is_long: bool) -> (r: Price)
        ensures
            r == self.collateral(is_long),
    {
        if is_long { self.long_token_price } else { self.short_token_price }
    }
}

} // verus!
