//! The fees that a position pays when its size changes.

use vstd::prelude::*;
use crate::error::{Calc, Error};
use crate::num::{checked_add, checked_sub, fit_unsigned};

verus! {

/// The fee on the size of an order, split between the fee receiver and the pool.
#[derive(Clone, Copy, Debug, PartialEq, Eq, Structural)]
pub struct Fees {
    pub fee_amount_for_receiver: u64,
    pub fee_amount_for_pool: u64,
}

/// The borrowing fee, and the part of it that goes to the fee receiver.
#[derive(Clone, Copy, Debug, PartialEq, Eq, Structural)]
pub struct BorrowingFees {
    pub amount: u64,
    pub amount_for_receiver: u64,
}

/// The funding fee that the position pays, and what it may claim of each token.
#[derive(Clone, Copy, Debug, PartialEq, Eq, Structural)]
pub struct FundingFees {
    pub amount: u64,
    pub claimable_long_token_amount: u64,
    pub claimable_short_token_amount: u64,
}

/// The fees of a change of a position, in collateral tokens.
#[derive(Clone, Copy, Debug, PartialEq, Eq, Structural)]
pub struct PositionFees {
    /// The order fee in USD.
    pub paid_order_fee_value: u64,
    pub order: Fees,
    pub borrowing: BorrowingFees,
    pub funding: FundingFees,
}

impl PositionFees {
    /// The order fee and the borrowing fee together, as an integer.
    pub open spec fn cost_excluding_funding(self) -> int {
        self.order.fee_amount_for_pool + self.order.fee_amount_for_receiver
            + self.borrowing.amount
    }

    /// The order fee and the borrowing fee together; fails with
    /// `Computation` where the sum leaves `u64`.
    pub open spec fn total_cost_excluding_funding_spec(self) -> Result<u64, Error> {
        match fit_unsigned(self.cost_excluding_funding()) {
            Some(total) => Ok(total),
            None => Err(Error::Computation(Calc::TotalFee)),
        }
    }

    /// All fees together; fails with `Computation` where the sum leaves `u64`.
    pub open spec fn total_cost_amount_spec(self) -> Result<u64, Error> {
        match fit_unsigned(self.cost_excluding_funding() + self.funding.amount) {
            Some(total) => Ok(total),
            None => Err(Error::Computation(Calc::TotalFee)),
        }
    }

    /// What goes to the fee receiver; fails with `Computation` where the sum
    /// leaves `u64`.
    pub open spec fn for_receiver_spec(self) -> Result<u64, Error> {
        match fit_unsigned(
            self.order.fee_amount_for_receiver + self.borrowing.amount_for_receiver,
        ) {
            Some(total) => Ok(total),
            None => Err(Error::Computation(Calc::TotalFee)),
        }
    }

    /// What goes to the pool: the order fee and the borrowing fee without the
    /// receiver's part; fails with `Computation` where a sum leaves `u64` or
    /// the receiver's part is the larger.
    pub open spec fn for_pool_spec(self) -> Result<u64, Error> {
        match self.total_cost_excluding_funding_spec() {
            Err(e) => Err(e),
            Ok(total) => match self.for_receiver_spec() {
                Err(e) => Err(e),
                Ok(receiver) => if receiver <= total {
                    Ok((total - receiver) as u64)
                } else {
                    Err(Error::Computation(Calc::TotalFee))
                },
            },
        }
    }

    /// No fees.
    pub fn zero() -> (r: Self)
        ensures
            r == (PositionFees {
                paid_order_fee_value: 0,
                order: Fees { fee_amount_for_receiver: 0, fee_amount_for_pool: 0 },
                borrowing: BorrowingFees { amount: 0, amount_for_receiver: 0 },
                funding: FundingFees {
                    amount: 0,
                    claimable_long_token_amount: 0,
                    claimable_short_token_amount: 0,
                },
            }),
    {
        PositionFees {
            paid_order_fee_value: 0,
            order: Fees { fee_amount_for_receiver: 0, fee_amount_for_pool: 0 },
            borrowing: BorrowingFees { amount: 0, amount_for_receiver: 0 },
            funding: FundingFees {
                amount: 0,
                claimable_long_token_amount: 0,
                claimable_short_token_amount: 0,
            },
        }
    }

    /// The order fee and the borrowing fee together.
    pub fn total_cost_excluding_funding(&self) -> (r: Result<u64, Error>)
        ensures
            r == self.total_cost_excluding_funding_spec(),
    {
        let order = match checked_add(
            self.order.fee_amount_for_pool,
            self.order.fee_amount_for_receiver,
        ) {
            Some(order) => order,
            None => {
                return Err(Error::Computation(Calc::TotalFee));
            },
        };
        match checked_add(order, self.borrowing.amount) {
            Some(total) => Ok(total),
            None => Err(Error::Computation(Calc::TotalFee)),
        }
    }

    /// All fees together.
    pub fn total_cost_amount(&self) -> (r: Result<u64, Error>)
        ensures
            r == self.total_cost_amount_spec(),
    {
        let order = match checked_add(
            self.order.fee_amount_for_pool,
            self.order.fee_amount_for_receiver,
        ) {
            Some(order) => order,
            None => {
                return Err(Error::Computation(Calc::TotalFee));
            },
        };
        let excluding = match checked_add(order, self.borrowing.amount) {
            Some(total) => total,
            None => {
                return Err(Error::Computation(Calc::TotalFee));
            },
        };
        match checked_add(excluding, self.funding.amount) {
            Some(total) => Ok(total),
            None => Err(Error::Computation(Calc::TotalFee)),
        }
    }

    /// What goes to the fee receiver.
    pub fn for_receiver(&self) -> (r: Result<u64, Error>)
        ensures
            r == self.for_receiver_spec(),
    {
        match checked_add(self.order.fee_amount_for_receiver, self.borrowing.amount_for_receiver) {
            Some(total) => Ok(total),
            None => Err(Error::Computation(Calc::TotalFee)),
        }
    }

    /// What goes to the pool.
    pub fn for_pool(&self) -> (r: Result<u64, Error>)
        ensures
            r == self.for_pool_spec(),
    {
        let total = self.total_cost_excluding_funding()?;
        let receiver = self.for_receiver()?;
        match checked_sub(total, receiver) {
            Some(pool) => Ok(pool),
            None => Err(Error::Computation(Calc::TotalFee)),
        }
    }

    /// The funding fee that the position pays, and what it may claim.
    pub fn funding_fees(&self) -> (r: FundingFees)
        ensures
            r == self.funding,
    {
        self.funding
    }
}

} // verus!
