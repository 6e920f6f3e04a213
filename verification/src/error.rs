//! Error classes of the engine and of the store.

use vstd::prelude::*;

verus! {

/// The precondition that a caller's input violates.
#[derive(Clone, Copy, Debug, PartialEq, Eq, Structural)]
pub enum Invalid {
    /// A price is zero, or a bid is above its ask.
    Prices,
    /// The order cannot be filled within the acceptable price.
    NotFulfillable,
    /// The collateral cannot cover the fees charged against it.
    InsufficientCollateral,
    /// The collateral is worth too little for the size of the position.
    InsufficientCollateralUsd,
    /// A pool that must stay non-negative would go negative.
    NegativePoolAmount,
    /// The pool cannot back the reserved value of the side.
    InsufficientReserve,
    /// The pool cannot back the open interest of the side.
    InsufficientOpenInterestReserve,
    /// The lower bound of a magnitude is above its upper bound.
    Bounds,
    /// Nothing is being deposited.
    EmptyDeposit,
    /// The position holds no size.
    EmptyPosition,
    /// One of the sizes of the position is zero while the other is not, or both are.
    InconsistentPosition,
    /// The position is smaller than the market allows.
    PositionTooSmall,
    /// The position does not hold the collateral that its size demands.
    Liquidatable,
    /// The position is not liquidatable, so it cannot be liquidated.
    NotLiquidatable,
    /// The side's profit is within its limit, so nothing is deleveraged.
    AdlNotRequired,
    /// The position is not in profit, so it cannot be deleveraged.
    AdlNotProfitable,
}

/// The calculation that failed.
#[derive(Clone, Copy, Debug, PartialEq, Eq, Structural)]
pub enum Calc {
    /// A pool amount left the range of its type.
    PoolAmount,
    /// The total open interest.
    TotalOpenInterest,
    /// The exponent applied to the open-interest difference.
    DiffExponent,
    /// The difference-to-open-interest factor.
    DiffFactor,
    /// The funding factor per second without adaptive funding.
    FallbackFundingFactor,
    /// The increase of the funding factor.
    FactorIncrease,
    /// The increased funding factor.
    IncreasedFactor,
    /// The decrease of the funding factor.
    FactorDecrease,
    /// The funding factor over the period.
    FundingFactor,
    /// The funding value over the period.
    FundingValue,
    /// The funding value owed by long-collateral positions.
    FundingValueForLongCollateral,
    /// The funding value owed by short-collateral positions.
    FundingValueForShortCollateral,
    /// The change of a funding amount per size.
    FundingAmountPerSize,
    /// The change of a claimable funding amount per size.
    ClaimableFundingAmountPerSize,
    /// A funding accumulator left the range of its type.
    FundingAccumulator,
    /// The price impact of a size change.
    PriceImpact,
    /// The cap on a price impact.
    PriceImpactCap,
    /// The price impact as a token amount.
    PriceImpactAmount,
    /// The size change in tokens.
    SizeDeltaInTokens,
    /// The price impact is larger than the order.
    PriceImpactLargerThanOrder,
    /// An execution price was asked for a change of no size.
    EmptySizeDelta,
    /// The execution price.
    ExecutionPrice,
    /// The order fee.
    OrderFee,
    /// The borrowing fee.
    BorrowingFee,
    /// The borrowing factor per second.
    BorrowingFactor,
    /// The cumulative borrowing factor.
    CumulativeBorrowingFactor,
    /// The funding fee.
    FundingFee,
    /// The sum of the fees.
    TotalFee,
    /// The fees taken from the collateral change.
    CollateralFee,
    /// The collateral amount left the range of its type.
    CollateralAmount,
    /// The change of the position impact pool.
    PositionImpactPoolDelta,
    /// The size in USD left the range of its type.
    SizeInUsd,
    /// The size in tokens left the range of its type.
    SizeInTokens,
    /// The total borrowing.
    TotalBorrowing,
    /// The value of a pool.
    PoolValue,
    /// The reserved value of a side.
    ReservedValue,
    /// The value of the collateral.
    CollateralValue,
    /// The collateral value that the size demands.
    MinCollateral,
    /// The profit or loss of a position.
    Pnl,
    /// The amount paid out.
    Output,
}

/// What an action fails with. The action stops at the first failure.
#[derive(Clone, Copy, Debug, PartialEq, Eq, Structural)]
pub enum Error {
    /// The caller's input violates a precondition; the caller may adjust it.
    InvalidArgument(Invalid),
    /// Overflow, division by zero, or an inconsistent intermediate state.
    Computation(Calc),
    /// A value does not fit the signed or unsigned type it is converted to.
    Convert,
    /// The funding factor was asked for a market without open interest.
    UnableToGetFundingFactorEmptyOpenInterest,
    /// The borrowing factor was asked for a pool without value.
    UnableToGetBorrowingFactorEmptyPoolValue,
}

/// What an operation on the state of a store fails with.
#[derive(Clone, Copy, Debug, PartialEq, Eq, Structural)]
pub enum CoreError {
    /// The state does not allow the operation.
    PreconditionsAreNotMet,
    /// An argument is not valid.
    InvalidArgument,
    /// A name is too long, or a table is full.
    ExceedMaxLengthLimit,
    /// The authority is not a member.
    PermissionDenied,
    /// What was asked for is not known.
    NotFound,
    /// The state of the store is not consistent.
    Internal,
}

/// The state that a step leaves behind, and what the step returned. A failed
/// step may leave a part of its changes behind; the state says which.
pub struct Step<S, T> {
    pub state: S,
    pub result: Result<T, Error>,
}

/// The value of a calculation, or the `Computation` error that names it.
pub open spec fn computed<T>(value: Option<T>, calc: Calc) -> Result<T, Error> {
    match value {
        Some(v) => Ok(v),
        None => Err(Error::Computation(calc)),
    }
}

/// Turns the failure of a calculation into the error that names it.
pub fn compute<T>(value: Option<T>, calc: Calc) -> (r: Result<T, Error>)
    ensures
        r == computed(value, calc),
{
    match value {
        Some(v) => Ok(v),
        None => Err(Error::Computation(calc)),
    }
}

} // verus!
