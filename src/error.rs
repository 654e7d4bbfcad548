use vstd::prelude::*;

verus! {

/// Every way an operation of the marketplace can be rejected.
///
/// A rejected operation leaves every record as it was.
#[derive(Clone, Copy, Debug, PartialEq, Eq, Structural)]
pub enum LoanMarketplaceErrorCode {
    /// A malformed or out-of-range argument.
    InvalidParam,
    /// The operation is not valid in the loan's current lifecycle state.
    InvalidState,
    /// A checked arithmetic operation would overflow.
    MathOverflow,
    /// Funding was attempted after the funding deadline.
    FundingExpired,
    /// A contribution would push the funded amount past the requested amount.
    ExceedsLoanAmount,
    /// Funding was finalized before the loan was fully funded.
    InsufficientFunding,
    /// A default was attempted before the grace period elapsed.
    TooEarly,
    /// The lender's default payout was already claimed.
    AlreadyClaimed,
    /// An escrow withdrawal exceeds the escrow balance.
    InsufficientFunds,
    /// The caller lacks the capability the operation requires.
    Unauthorized,
    /// The record named by the caller does not exist or does not belong to the loan.
    InvalidAccount,
}

} // verus!
