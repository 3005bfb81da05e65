use vstd::prelude::*;

verus! {

/// Every way an operation of the protocol can be refused.
#[derive(Clone, Copy, Debug, PartialEq, Eq, Structural)]
pub enum ErrorCode {
    /// Funding or cancelling a loan that already has a lender.
    AlreadyFunded,
    /// Claiming collateral of a loan that was never funded.
    NotFunded,
    /// Repaying at or after the repayment deadline.
    LoanExpired,
    /// Claiming collateral at or before the repayment deadline.
    LoanIsNotExpired,
    /// Removing a loan request that the registry does not hold.
    NotFoundInRegistry,
    /// An amount could not be computed within 64 bits, or a division by zero.
    CalculationError,
    /// A deadline could not be computed within 64 bits.
    Overflow,
    /// The collateral offered is below the amount required for the loan.
    InsufficientCollateral,
    /// The payer's stable-coin balance is below the total due.
    InsufficientBalance,
    /// The collateral vault is empty.
    NoCollateral,
    /// A registry page was asked to take more than its capacity.
    PageIsFull,
    /// The caller of a claim is not the loan's lender.
    UnauthorizedLender,
    /// The caller is not the loan's borrower.
    NotRightBorrower,
    /// The caller of a liquidation is not the loan's lender.
    NotRightLender,
    /// The stable-coin offered is not the one the configuration accepts.
    IncorrectMintAddress,
    /// The caller is not the configured authority.
    NotAdmin,
    /// The collateral is still worth at least 110% of the principal.
    CannotLiquidateYet,
    /// The price feed has no quote that is recent enough.
    StaleOrMissingPrice,
}

} // verus!
