use vstd::prelude::*;
use crate::key::AccountKey;

verus! {

/// A loan was opened for funding.
#[derive(Clone, Copy, Debug)]
pub struct LoanCreated {
    pub borrower: AccountKey,
    pub loan: u64,
    pub amount: u64,
    pub term_secs: i64,
    pub max_apr_bps: u32,
    pub min_collateral_bps: u32,
    pub funding_deadline: i64,
}

/// A lender contributed to a loan.
#[derive(Clone, Copy, Debug)]
pub struct LenderFunded {
    pub loan: u64,
    pub lender: AccountKey,
    pub amount: u64,
    pub total_funded: u64,
    /// Whether this contribution completed the funding.
    pub fully_funded: bool,
}

/// The borrower added collateral.
#[derive(Clone, Copy, Debug)]
pub struct CollateralDeposited {
    pub loan: u64,
    pub borrower: AccountKey,
    pub amount: u64,
    pub total: u64,
}

/// Funding was finalized by an explicit call.
#[derive(Clone, Copy, Debug)]
pub struct LoanFunded {
    pub loan: u64,
    pub funded_amount: u64,
}

/// The borrower drew the funded principal.
#[derive(Clone, Copy, Debug)]
pub struct LoanDrawn {
    pub loan: u64,
    pub borrower: AccountKey,
    pub amount: u64,
    pub start_ts: i64,
    pub due_ts: i64,
}

/// A repayment was applied, interest first.
#[derive(Clone, Copy, Debug)]
pub struct Repayment {
    pub loan: u64,
    pub amount: u64,
    pub interest_paid: u64,
    pub principal_paid: u64,
}

/// The loan was repaid in full and the remaining collateral returned.
#[derive(Clone, Copy, Debug)]
pub struct LoanSettled {
    pub loan: u64,
    pub collateral_returned: u64,
}

/// The loan was declared in default and its collateral seized.
#[derive(Clone, Copy, Debug)]
pub struct LoanDefaulted {
    pub loan: u64,
    pub borrower: AccountKey,
    pub collateral_seized: u64,
    pub outstanding_principal: u64,
    pub outstanding_interest: u64,
}

/// A lender took its part of a defaulted loan's collateral.
#[derive(Clone, Copy, Debug)]
pub struct DefaultPayout {
    pub loan: u64,
    pub lender: AccountKey,
    pub amount: u64,
}

} // verus!
