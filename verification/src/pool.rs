//! The pool ledger: accumulators of long-token and short-token amounts.

use vstd::prelude::*;
use crate::error::{Calc, Error, Invalid, Step};
use crate::num::{checked_add, signed_checked_add};

verus! {

/// A named accumulator of a long-token and a short-token amount.
///
/// A pool is either constrained to stay non-negative, which is the case of
/// every balance, or explicitly signed, which is the case of the impact pool.
#[derive(Clone, Copy, Debug, PartialEq, Eq, Structural)]
pub struct Pool {
    pub long_amount: i64,
    pub short_amount: i64,
    pub non_negative: bool,
}

impl Pool {
    /// A non-negative pool holds no negative amount.
    pub open spec fn wf(self) -> bool {
        self.non_negative ==> self.long_amount >= 0 && self.short_amount >= 0
    }

    /// The amount of one token side.
    pub open spec fn signed_amount(self, is_long_token: bool) -> i64 {
        if is_long_token { self.long_amount } else { self.short_amount }
    }

    /// The amount of one token side as an unsigned value; fails with
    /// `Convert` where the amount is negative.
    pub open spec fn amount_spec(self, is_long_token: bool) -> Result<u64, Error> {
        if self.signed_amount(is_long_token) >= 0 {
            Ok(self.signed_amount(is_long_token) as u64)
        } else {
            Err(Error::Convert)
        }
    }

    /// The sum of both amounts; fails with `Convert` where one is negative
    /// (the sum of two non-negative `i64` fits `u64`).
    pub open spec fn total_spec(self) -> Result<u64, Error> {
        if self.long_amount >= 0 && self.short_amount >= 0 {
            Ok((self.long_amount + self.short_amount) as u64)
        } else {
            Err(Error::Convert)
        }
    }

    /// The pool with one amount replaced.
    pub open spec fn with_amount(self, is_long_token: bool, amount: i64) -> Pool {
        if is_long_token {
            Pool { long_amount: amount, ..self }
        } else {
            Pool { short_amount: amount, ..self }
        }
    }

    /// The pool after a signed delta to one amount. The delta is refused with
    /// `Computation` where the sum leaves `i64`, and with `InvalidArgument`
    /// where a non-negative pool would go negative; a refused delta leaves
    /// the pool as it was.
    pub open spec fn apply_delta_spec(self, is_long_token: bool, delta: i64) -> Step<Pool, ()> {
        let next = self.signed_amount(is_long_token) + delta;
        if next < i64::MIN || next > i64::MAX {
            Step { state: self, result: Err(Error::Computation(Calc::PoolAmount)) }
        } else if self.non_negative && next < 0 {
            Step { state: self, result: Err(Error::InvalidArgument(Invalid::NegativePoolAmount)) }
        } else {
            Step { state: self.with_amount(is_long_token, next as i64), result: Ok(()) }
        }
    }

    /// An empty pool that must stay non-negative.
    pub fn new() -> (r: Self)
        ensures
            r == (Pool { long_amount: 0, short_amount: 0, non_negative: true }),
            r.wf(),
    {
        Pool { long_amount: 0, short_amount: 0, non_negative: true }
    }

    /// An empty pool whose amounts may go negative.
    pub fn signed() -> (r: Self)
        ensures
            r == (Pool { long_amount: 0, short_amount: 0, non_negative: false }),
            r.wf(),
    {
        Pool { long_amount: 0, short_amount: 0, non_negative: false }
    }

    /// The amount of one token side.
    pub fn amount(&self, is_long_token: bool) -> (r: Result<u64, Error>)
        ensures
            r == self.amount_spec(is_long_token),
            self.wf() && self.non_negative ==> r is Ok,
    {
        let amount = if is_long_token { self.long_amount } else { self.short_amount };
        if amount >= 0 {
            Ok(amount as u64)
        } else {
            Err(Error::Convert)
        }
    }

    /// The long-token amount.
    pub fn long_amount(&self) -> (r: Result<u64, Error>)
        ensures
            r == self.amount_spec(true),
    {
        self.amount(true)
    }

    /// The short-token amount.
    pub fn short_amount(&self) -> (r: Result<u64, Error>)
        ensures
            r == self.amount_spec(false),
    {
        self.amount(false)
    }

    /// The sum of both amounts.
    pub fn total(&self) -> (r: Result<u64, Error>)
        ensures
            r == self.total_spec(),
    {
        let long = self.amount(true)?;
        let short = self.amount(false)?;
        match checked_add(long, short) {
            Some(total) => Ok(total),
            None => Err(Error::Convert),
        }
    }

    /// Applies a signed delta to one amount. Every mutation of a pool goes
    /// through here, so a non-negative pool never goes negative.
    pub fn apply_delta(&mut self, is_long_token: bool, delta: i64) -> (r: Result<(), Error>)
        ensures
            (Step { state: *final(self), result: r }) == old(self).apply_delta_spec(
                is_long_token,
                delta,
            ),
            r is Err ==> *final(self) == *old(self),
            old(self).wf() ==> final(self).wf(),
            final(self).non_negative == old(self).non_negative,
    {
        let current = if is_long_token { self.long_amount } else { self.short_amount };
        match signed_checked_add(current, delta) {
            None => Err(Error::Computation(Calc::PoolAmount)),
            Some(next) => {
                if self.non_negative && next < 0 {
                    Err(Error::InvalidArgument(Invalid::NegativePoolAmount))
                } else {
                    if is_long_token {
                        self.long_amount = next;
                    } else {
                        self.short_amount = next;
                    }
                    Ok(())
                }
            },
        }
    }
}

} // verus!
