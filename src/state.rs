use vstd::prelude::*;
use crate::error::LoanMarketplaceErrorCode;
use crate::key::AccountKey;

verus! {

/// The lifecycle states of a loan. `Settled` and `Defaulted` are terminal.
#[derive(Clone, Copy, Debug, PartialEq, Eq, Structural)]
pub enum LoanState {
    Created,
    /// Open to lenders until the funding deadline.
    Funding,
    /// Fully funded; the rate and the pro-rata parts are fixed.
    Funded,
    /// Drawn down. A drawdown moves the loan straight on to `InRepayment`,
    /// since the interest clock starts at drawdown.
    Drawn,
    /// Accruing interest and accepting repayments.
    InRepayment,
    /// Overdue; may be declared in default like a loan in repayment.
    Delinquent,
    /// Declared in default; lenders may claim their part of the collateral.
    Defaulted,
    /// Repaid in full.
    Settled,
}

/// The record of one loan: its terms, its funding and collateral aggregates,
/// and its repayment balances.
#[derive(Clone, Copy, Debug)]
pub struct LoanAccount {
    pub borrower: AccountKey,
    pub loan_id: u64,
    /// The requested amount, which is also the principal once drawn.
    pub amount: u64,
    pub term_secs: i64,
    pub max_apr_bps: u32,
    pub min_collateral_bps: u32,
    pub funding_deadline: i64,
    pub state: LoanState,
    pub funded_amount: u64,
    pub collateral_amount: u64,
    pub actual_apr_bps: u32,
    pub start_ts: i64,
    pub due_ts: i64,
    pub last_accrual_ts: i64,
    pub accrued_interest: u64,
    pub outstanding_principal: u64,
    pub total_repaid_principal: u64,
    pub total_repaid_interest: u64,
}

/// One lender's stake in one loan.
#[derive(Clone, Copy, Debug)]
pub struct LenderShare {
    pub lender: AccountKey,
    /// The identifier of the loan the share belongs to.
    pub loan: u64,
    /// Everything this lender has contributed.
    pub principal: u64,
    pub repaid_principal: u64,
    pub repaid_interest: u64,
    /// The lender's part of the whole funding, in basis points; set when funding completes.
    pub pro_rata_bps: u32,
    /// Set once the lender has taken its part of a defaulted loan's collateral.
    pub payout_claimed: bool,
}

impl LenderShare {
    /// Whether a default payout has already reached this lender.
    pub open spec fn claimed_spec(&self) -> bool {
        self.payout_claimed || self.repaid_principal > 0 || self.repaid_interest > 0
    }

    /// Whether a default payout has already reached this lender.
    pub fn is_claimed(&self) -> (r: bool)
        ensures
            r == self.claimed_spec(),
    {
        self.payout_claimed || self.repaid_principal > 0 || self.repaid_interest > 0
    }
}

/// The largest protocol fee, in basis points (10%).
pub const MAX_FEE_BPS: u16 = 1000;

/// Protocol-wide parameters, set once by the administrator.
#[derive(Clone, Copy, Debug)]
pub struct Config {
    pub admin: AccountKey,
    pub fee_bps: u16,
    pub usdc_mint: AccountKey,
}

impl Config {
    /// The configuration for `admin`, with a fee of at most 10%; a larger fee
    /// is rejected with `InvalidParam`.
    pub fn init_config(admin: AccountKey, fee_bps: u16, usdc_mint: AccountKey) -> (r: Result<
        Config,
        LoanMarketplaceErrorCode,
    >)
        ensures
            fee_bps <= MAX_FEE_BPS ==> r == Ok::<Config, LoanMarketplaceErrorCode>(
                Config { admin, fee_bps, usdc_mint },
            ),
            fee_bps > MAX_FEE_BPS ==> r == Err::<Config, LoanMarketplaceErrorCode>(
                LoanMarketplaceErrorCode::InvalidParam,
            ),
    {
        if fee_bps > MAX_FEE_BPS {
            Err(LoanMarketplaceErrorCode::InvalidParam)
        } else {
            Ok(Config { admin, fee_bps, usdc_mint })
        }
    }
}

} // verus!
