use vstd::prelude::*;
use crate::error::LoanMarketplaceErrorCode;
use crate::escrow::Escrow;
use crate::events::{
    CollateralDeposited, DefaultPayout, LenderFunded, LoanDefaulted, LoanDrawn, LoanFunded,
    LoanSettled, Repayment,
};
use crate::interest::{interest_due, interest_overflows};
use crate::key::AccountKey;
use crate::ledger::{
    all_of_loan, credited, has_share, lemma_credited, lemma_pro_rata_keeps_shares,
    lemma_pro_rata_sums_to_whole, lemma_same_bps, lemma_same_principals, lenders_unique,
    pro_rata_shares, share_index, sum_bps, sum_principal, WHOLE_BPS,
};
use crate::state::{LenderShare, LoanAccount, LoanState};
use crate::waterfall::{interest_part, paid, principal_part};

verus! {

/// The smallest loan that can be requested (1 USDC at 6 decimals).
pub const MIN_LOAN_AMOUNT: u64 = 1_000_000;

/// The largest loan that can be requested (1,000,000 USDC at 6 decimals).
pub const MAX_LOAN_AMOUNT: u64 = 1_000_000_000_000;

/// The shortest term: one day.
pub const MIN_TERM_SECS: i64 = 86_400;

/// The longest term: one year.
pub const MAX_TERM_SECS: i64 = 31_536_000;

/// The cap on basis-point rates.
pub const MAX_RATE_BPS: u32 = 10_000;

/// How far ahead of creation the funding deadline may lie: 30 days.
pub const MAX_FUNDING_WINDOW_SECS: i64 = 2_592_000;

/// The delay after the due date before a loan may be declared in default: 7 days.
pub const GRACE_PERIOD_SECS: i64 = 604_800;

/// One loan with everything an operation on it may touch: the loan record,
/// its lenders' shares and its escrow.
pub struct LoanBookModel {
    pub loan: LoanAccount,
    pub shares: Seq<LenderShare>,
    pub escrow: Escrow,
}

/// Whether a loan has left the funding phase.
pub open spec fn past_funding(state: LoanState) -> bool {
    state != LoanState::Created && state != LoanState::Funding
}

impl LoanBookModel {
    /// The accounting invariants of one loan.
    pub open spec fn wf(self) -> bool {
        &&& self.loan.amount > 0
        &&& self.loan.funded_amount == sum_principal(self.shares)
        &&& self.loan.funded_amount <= self.loan.amount
        &&& self.loan.outstanding_principal + self.loan.total_repaid_principal == self.loan.amount
        &&& lenders_unique(self.shares)
        &&& all_of_loan(self.shares, self.loan.loan_id)
        &&& past_funding(self.loan.state) ==> sum_bps(self.shares) == WHOLE_BPS
    }
}

/// The terms a loan may be created with, at time `now`.
pub open spec fn valid_terms(
    amount: u64,
    term_secs: i64,
    max_apr_bps: u32,
    min_collateral_bps: u32,
    funding_deadline: i64,
    now: i64,
) -> bool {
    &&& MIN_LOAN_AMOUNT <= amount <= MAX_LOAN_AMOUNT
    &&& MIN_TERM_SECS <= term_secs <= MAX_TERM_SECS
    &&& 0 < max_apr_bps <= MAX_RATE_BPS
    &&& min_collateral_bps <= MAX_RATE_BPS
    &&& now < funding_deadline
    &&& funding_deadline - now <= MAX_FUNDING_WINDOW_SECS
}

/// A freshly created loan: open for funding, nothing funded, no collateral,
/// the whole amount outstanding.
pub open spec fn opened(
    loan_id: u64,
    borrower: AccountKey,
    amount: u64,
    term_secs: i64,
    max_apr_bps: u32,
    min_collateral_bps: u32,
    funding_deadline: i64,
) -> LoanBookModel {
    LoanBookModel {
        loan: LoanAccount {
            borrower,
            loan_id,
            amount,
            term_secs,
            max_apr_bps,
            min_collateral_bps,
            funding_deadline,
            state: LoanState::Funding,
            funded_amount: 0,
            collateral_amount: 0,
            actual_apr_bps: max_apr_bps,
            start_ts: 0,
            due_ts: 0,
            last_accrual_ts: 0,
            accrued_interest: 0,
            outstanding_principal: amount,
            total_repaid_principal: 0,
            total_repaid_interest: 0,
        },
        shares: Seq::empty(),
        escrow: Escrow { balance: 0 },
    }
}

/// A lender's contribution. It needs an open, unexpired loan and may not
/// push the funded amount past the request. The contribution that completes
/// the funding locks the rate and fixes every lender's pro-rata part.
pub open spec fn fund_step(m: LoanBookModel, lender: AccountKey, amount: u64, now: i64) -> Result<
    (LoanBookModel, LenderFunded),
    LoanMarketplaceErrorCode,
> {
    let loan = m.loan;
    let total = loan.funded_amount + amount;
    if amount == 0 {
        Err(LoanMarketplaceErrorCode::InvalidParam)
    } else if loan.state != LoanState::Funding {
        Err(LoanMarketplaceErrorCode::InvalidState)
    } else if now > loan.funding_deadline {
        Err(LoanMarketplaceErrorCode::FundingExpired)
    } else if total > u64::MAX {
        Err(LoanMarketplaceErrorCode::MathOverflow)
    } else if total > loan.amount {
        Err(LoanMarketplaceErrorCode::ExceedsLoanAmount)
    } else if m.escrow.balance + amount > u64::MAX {
        Err(LoanMarketplaceErrorCode::MathOverflow)
    } else {
        let shares = credited(m.shares, loan.loan_id, lender, amount);
        let complete = total == loan.amount;
        let next = LoanBookModel {
            loan: if complete {
                LoanAccount {
                    funded_amount: total as u64,
                    state: LoanState::Funded,
                    actual_apr_bps: loan.max_apr_bps,
                    ..loan
                }
            } else {
                LoanAccount { funded_amount: total as u64, ..loan }
            },
            shares: if complete {
                pro_rata_shares(shares, total)
            } else {
                shares
            },
            escrow: Escrow { balance: (m.escrow.balance + amount) as u64 },
        };
        Ok(
            (
                next,
                LenderFunded {
                    loan: loan.loan_id,
                    lender,
                    amount,
                    total_funded: total as u64,
                    fully_funded: complete,
                },
            ),
        )
    }
}

/// The borrower adds collateral to a loan that is still being funded.
pub open spec fn deposit_collateral_step(m: LoanBookModel, caller: AccountKey, amount: u64) -> Result<
    (LoanBookModel, CollateralDeposited),
    LoanMarketplaceErrorCode,
> {
    let loan = m.loan;
    if caller != loan.borrower {
        Err(LoanMarketplaceErrorCode::Unauthorized)
    } else if amount == 0 {
        Err(LoanMarketplaceErrorCode::InvalidParam)
    } else if loan.state != LoanState::Funding {
        Err(LoanMarketplaceErrorCode::InvalidState)
    } else if m.escrow.balance + amount > u64::MAX || loan.collateral_amount + amount > u64::MAX {
        Err(LoanMarketplaceErrorCode::MathOverflow)
    } else {
        let total = (loan.collateral_amount + amount) as u64;
        Ok(
            (
                LoanBookModel {
                    loan: LoanAccount { collateral_amount: total, ..loan },
                    shares: m.shares,
                    escrow: Escrow { balance: (m.escrow.balance + amount) as u64 },
                },
                CollateralDeposited { loan: loan.loan_id, borrower: loan.borrower, amount, total },
            ),
        )
    }
}

/// An explicit end to funding, once the funded amount has reached the request:
/// the rate is locked and the pro-rata parts fixed.
pub open spec fn finalize_step(m: LoanBookModel) -> Result<
    (LoanBookModel, LoanFunded),
    LoanMarketplaceErrorCode,
> {
    let loan = m.loan;
    if loan.state != LoanState::Funding {
        Err(LoanMarketplaceErrorCode::InvalidState)
    } else if loan.funded_amount < loan.amount {
        Err(LoanMarketplaceErrorCode::InsufficientFunding)
    } else {
        Ok(
            (
                LoanBookModel {
                    loan: LoanAccount {
                        state: LoanState::Funded,
                        actual_apr_bps: loan.max_apr_bps,
                        ..loan
                    },
                    shares: pro_rata_shares(m.shares, loan.funded_amount as int),
                    escrow: m.escrow,
                },
                LoanFunded { loan: loan.loan_id, funded_amount: loan.funded_amount },
            ),
        )
    }
}

/// The borrower draws the funded amount out of escrow. The term and the
/// interest clock start now, and the loan enters repayment.
pub open spec fn drawdown_step(m: LoanBookModel, caller: AccountKey, now: i64) -> Result<
    (LoanBookModel, LoanDrawn),
    LoanMarketplaceErrorCode,
> {
    let loan = m.loan;
    let due = now + loan.term_secs;
    if caller != loan.borrower {
        Err(LoanMarketplaceErrorCode::Unauthorized)
    } else if loan.state != LoanState::Funded {
        Err(LoanMarketplaceErrorCode::InvalidState)
    } else if due > i64::MAX || due < i64::MIN {
        Err(LoanMarketplaceErrorCode::MathOverflow)
    } else if loan.amount > m.escrow.balance {
        Err(LoanMarketplaceErrorCode::InsufficientFunds)
    } else {
        Ok(
            (
                LoanBookModel {
                    loan: LoanAccount {
                        state: LoanState::InRepayment,
                        start_ts: now,
                        due_ts: due as i64,
                        last_accrual_ts: now,
                        ..loan
                    },
                    shares: m.shares,
                    escrow: Escrow { balance: (m.escrow.balance - loan.amount) as u64 },
                },
                LoanDrawn {
                    loan: loan.loan_id,
                    borrower: loan.borrower,
                    amount: loan.amount,
                    start_ts: now,
                    due_ts: due as i64,
                },
            ),
        )
    }
}

/// The loan with interest accrued up to `now` and its clock advanced; nothing
/// changes when `now` is not later than the last accrual.
pub open spec fn accrued_to(loan: LoanAccount, now: i64) -> Result<LoanAccount, LoanMarketplaceErrorCode> {
    let elapsed = now - loan.last_accrual_ts;
    let p = loan.outstanding_principal as int;
    let rate = loan.actual_apr_bps as int;
    if elapsed <= 0 {
        Ok(loan)
    } else if elapsed > i64::MAX || interest_overflows(p, rate, elapsed) || loan.accrued_interest
        + interest_due(p, rate, elapsed) > u64::MAX {
        Err(LoanMarketplaceErrorCode::MathOverflow)
    } else {
        Ok(
            LoanAccount {
                accrued_interest: (loan.accrued_interest + interest_due(p, rate, elapsed)) as u64,
                last_accrual_ts: now,
                ..loan
            },
        )
    }
}

/// The smaller of two amounts.
pub open spec fn min_u64(a: u64, b: u64) -> u64 {
    if a < b {
        a
    } else {
        b
    }
}

/// A repayment by the borrower. Interest is accrued up to `now` first; the
/// payment may not exceed what is owed after that, and goes to interest, then
/// principal. When nothing is left owing, the loan settles and the
/// collateral still in escrow goes back to the borrower.
pub open spec fn repay_step(m: LoanBookModel, caller: AccountKey, amount: u64, now: i64) -> Result<
    (LoanBookModel, (Repayment, Option<LoanSettled>)),
    LoanMarketplaceErrorCode,
> {
    let loan = m.loan;
    if loan.state != LoanState::InRepayment {
        Err(LoanMarketplaceErrorCode::InvalidState)
    } else if caller != loan.borrower {
        Err(LoanMarketplaceErrorCode::Unauthorized)
    } else if amount == 0 {
        Err(LoanMarketplaceErrorCode::InvalidParam)
    } else {
        match accrued_to(loan, now) {
            Err(e) => Err(e),
            Ok(l1) => {
                if amount > l1.accrued_interest + l1.outstanding_principal {
                    Err(LoanMarketplaceErrorCode::InvalidParam)
                } else if m.escrow.balance + amount > u64::MAX {
                    Err(LoanMarketplaceErrorCode::MathOverflow)
                } else {
                    match paid(l1, amount) {
                        Err(e) => Err(e),
                        Ok(l2) => {
                            let balance = (m.escrow.balance + amount) as u64;
                            let receipt = Repayment {
                                loan: loan.loan_id,
                                amount,
                                interest_paid: interest_part(l1, amount) as u64,
                                principal_paid: principal_part(l1, amount) as u64,
                            };
                            if l2.outstanding_principal == 0 && l2.accrued_interest == 0 {
                                let back = min_u64(l2.collateral_amount, balance);
                                Ok(
                                    (
                                        LoanBookModel {
                                            loan: LoanAccount {
                                                state: LoanState::Settled,
                                                collateral_amount: (l2.collateral_amount
                                                    - back) as u64,
                                                ..l2
                                            },
                                            shares: m.shares,
                                            escrow: Escrow { balance: (balance - back) as u64 },
                                        },
                                        (
                                            receipt,
                                            Some(
                                                LoanSettled {
                                                    loan: loan.loan_id,
                                                    collateral_returned: back,
                                                },
                                            ),
                                        ),
                                    ),
                                )
                            } else {
                                Ok(
                                    (
                                        LoanBookModel {
                                            loan: l2,
                                            shares: m.shares,
                                            escrow: Escrow { balance },
                                        },
                                        (receipt, None),
                                    ),
                                )
                            }
                        },
                    }
                }
            },
        }
    }
}

/// Any caller may declare a loan in repayment in default once the grace period
/// after its due date has passed. The collateral is seized, bounded by what the
/// escrow actually holds, for distribution to the lenders.
pub open spec fn mark_default_step(m: LoanBookModel, now: i64) -> Result<
    (LoanBookModel, LoanDefaulted),
    LoanMarketplaceErrorCode,
> {
    let loan = m.loan;
    if loan.state != LoanState::InRepayment && loan.state != LoanState::Delinquent {
        Err(LoanMarketplaceErrorCode::InvalidState)
    } else if now <= loan.due_ts + GRACE_PERIOD_SECS {
        Err(LoanMarketplaceErrorCode::TooEarly)
    } else {
        let seized = min_u64(loan.collateral_amount, m.escrow.balance);
        Ok(
            (
                LoanBookModel {
                    loan: LoanAccount {
                        state: LoanState::Defaulted,
                        collateral_amount: seized,
                        ..loan
                    },
                    shares: m.shares,
                    escrow: m.escrow,
                },
                LoanDefaulted {
                    loan: loan.loan_id,
                    borrower: loan.borrower,
                    collateral_seized: seized,
                    outstanding_principal: loan.outstanding_principal,
                    outstanding_interest: loan.accrued_interest,
                },
            ),
        )
    }
}

/// A lender's part of the seized collateral: its pro-rata part, rounded down.
pub open spec fn entitlement(collateral: u64, pro_rata_bps: u32) -> int {
    collateral * pro_rata_bps / WHOLE_BPS as int
}

/// A lender takes its part of a defaulted loan's seized collateral, once.
pub open spec fn claim_step(m: LoanBookModel, lender: AccountKey) -> Result<
    (LoanBookModel, DefaultPayout),
    LoanMarketplaceErrorCode,
> {
    let loan = m.loan;
    if loan.state != LoanState::Defaulted {
        Err(LoanMarketplaceErrorCode::InvalidState)
    } else if !has_share(m.shares, lender) {
        Err(LoanMarketplaceErrorCode::InvalidAccount)
    } else {
        let i = share_index(m.shares, lender);
        let share = m.shares[i];
        let amount = entitlement(loan.collateral_amount, share.pro_rata_bps);
        if share.claimed_spec() {
            Err(LoanMarketplaceErrorCode::AlreadyClaimed)
        } else if amount > m.escrow.balance {
            Err(LoanMarketplaceErrorCode::InsufficientFunds)
        } else {
            Ok(
                (
                    LoanBookModel {
                        loan,
                        shares: m.shares.update(
                            i,
                            LenderShare {
                                repaid_principal: amount as u64,
                                repaid_interest: 0,
                                payout_claimed: true,
                                ..share
                            },
                        ),
                        escrow: Escrow { balance: (m.escrow.balance - amount) as u64 },
                    },
                    DefaultPayout { loan: loan.loan_id, lender, amount: amount as u64 },
                ),
            )
        }
    }
}

pub proof fn lemma_opened_wf(
    loan_id: u64,
    borrower: AccountKey,
    amount: u64,
    term_secs: i64,
    max_apr_bps: u32,
    min_collateral_bps: u32,
    funding_deadline: i64,
)
    requires
        amount > 0,
    ensures
        opened(loan_id, borrower, amount, term_secs, max_apr_bps, min_collateral_bps, funding_deadline).wf(),
{
}

pub proof fn lemma_fund_step_wf(m: LoanBookModel, lender: AccountKey, amount: u64, now: i64)
    requires
        m.wf(),
    ensures
        fund_step(m, lender, amount, now) matches Ok((n, _)) ==> n.wf(),
{
    if fund_step(m, lender, amount, now) is Ok {
        let loan = m.loan;
        let total = loan.funded_amount + amount;
        let shares = credited(m.shares, loan.loan_id, lender, amount);
        lemma_credited(m.shares, loan.loan_id, lender, amount);
        if total == loan.amount {
            lemma_pro_rata_keeps_shares(shares, total, loan.loan_id);
            lemma_pro_rata_sums_to_whole(shares, total);
        }
    }
}

pub proof fn lemma_deposit_collateral_step_wf(m: LoanBookModel, caller: AccountKey, amount: u64)
    requires
        m.wf(),
    ensures
        deposit_collateral_step(m, caller, amount) matches Ok((n, _)) ==> n.wf(),
{
}

pub proof fn lemma_finalize_step_wf(m: LoanBookModel)
    requires
        m.wf(),
    ensures
        finalize_step(m) matches Ok((n, _)) ==> n.wf(),
{
    if finalize_step(m) is Ok {
        lemma_pro_rata_keeps_shares(m.shares, m.loan.funded_amount as int, m.loan.loan_id);
        lemma_pro_rata_sums_to_whole(m.shares, m.loan.funded_amount as int);
    }
}

pub proof fn lemma_drawdown_step_wf(m: LoanBookModel, caller: AccountKey, now: i64)
    requires
        m.wf(),
    ensures
        drawdown_step(m, caller, now) matches Ok((n, _)) ==> n.wf(),
{
}

pub proof fn lemma_repay_step_wf(m: LoanBookModel, caller: AccountKey, amount: u64, now: i64)
    requires
        m.wf(),
    ensures
        repay_step(m, caller, amount, now) matches Ok((n, _)) ==> n.wf(),
{
}

pub proof fn lemma_mark_default_step_wf(m: LoanBookModel, now: i64)
    requires
        m.wf(),
    ensures
        mark_default_step(m, now) matches Ok((n, _)) ==> n.wf(),
{
}

pub proof fn lemma_claim_step_wf(m: LoanBookModel, lender: AccountKey)
    requires
        m.wf(),
    ensures
        claim_step(m, lender) matches Ok((n, _)) ==> n.wf(),
{
    if claim_step(m, lender) is Ok {
        let i = share_index(m.shares, lender);
        let t = claim_step(m, lender)->Ok_0.0.shares;
        assert forall|j: int| 0 <= j < t.len() implies #[trigger] t[j].principal == m.shares[j].principal by {}
        assert forall|j: int| 0 <= j < t.len() implies #[trigger] t[j].pro_rata_bps == m.shares[j].pro_rata_bps by {}
        lemma_same_principals(t, m.shares);
        lemma_same_bps(t, m.shares);
        assert forall|a: int, b: int|
            0 <= a < t.len() && 0 <= b < t.len() && t[a].lender == t[b].lender implies a == b by {
            assert(t[a].lender == m.shares[a].lender && t[b].lender == m.shares[b].lender);
        }
        assert forall|j: int| 0 <= j < t.len() implies #[trigger] t[j].loan == m.loan.loan_id by {
            assert(t[j].loan == m.shares[j].loan);
        }
    }
}

} // verus!
