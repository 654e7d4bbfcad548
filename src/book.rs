use vstd::prelude::*;
use vstd::pervasive::VecAdditionalExecFns;
use vstd::arithmetic::div_mod::{lemma_div_is_ordered, lemma_div_multiples_vanish};
use crate::error::LoanMarketplaceErrorCode;
use crate::escrow::Escrow;
use crate::events::{
    CollateralDeposited, DefaultPayout, LenderFunded, LoanCreated, LoanDefaulted, LoanDrawn,
    LoanFunded, LoanSettled, Repayment,
};
use crate::interest::accrue;
use crate::key::AccountKey;
use crate::ledger::{
    assign_pro_rata, credit_share, find_share, lemma_bps_le_sum, lemma_credited,
    lemma_found_is_share_index, lemma_prefix_bps_le, lemma_prefix_principal_le,
    lemma_sum_principal_nonneg, sum_bps, sum_principal, WHOLE_BPS,
};
use crate::model::{
    accrued_to, claim_step, past_funding, deposit_collateral_step, drawdown_step, finalize_step, fund_step,
    lemma_claim_step_wf, lemma_deposit_collateral_step_wf, lemma_drawdown_step_wf,
    lemma_finalize_step_wf, lemma_fund_step_wf, lemma_mark_default_step_wf, lemma_opened_wf,
    lemma_repay_step_wf, mark_default_step, min_u64, opened, repay_step, valid_terms,
    LoanBookModel, GRACE_PERIOD_SECS, MAX_FUNDING_WINDOW_SECS, MAX_LOAN_AMOUNT, MAX_RATE_BPS,
    MAX_TERM_SECS, MIN_LOAN_AMOUNT, MIN_TERM_SECS,
};
use crate::state::{LenderShare, LoanAccount, LoanState};
use crate::waterfall::apply_payment;

verus! {

/// One loan with its lenders' shares and its escrow: the set of records that
/// every operation on the loan reads and writes as a single unit.
pub struct LoanBook {
    pub loan: LoanAccount,
    pub shares: Vec<LenderShare>,
    pub escrow: Escrow,
}

impl View for LoanBook {
    type V = LoanBookModel;

    open spec fn view(&self) -> LoanBookModel {
        LoanBookModel { loan: self.loan, shares: self.shares@, escrow: self.escrow }
    }
}

/// Accrues interest on the loan up to `now` and advances its clock. On failure
/// the loan is unchanged.
pub fn accrue_interest(loan: &mut LoanAccount, now: i64) -> (r: Result<(), LoanMarketplaceErrorCode>)
    ensures
        match accrued_to(*old(loan), now) {
            Ok(l) => r is Ok && *final(loan) == l,
            Err(e) => r == Err::<(), LoanMarketplaceErrorCode>(e) && *final(loan) == *old(loan),
        },
{
    let elapsed = now as i128 - loan.last_accrual_ts as i128;
    if elapsed <= 0 {
        return Ok(());
    }
    if elapsed > i64::MAX as i128 {
        return Err(LoanMarketplaceErrorCode::MathOverflow);
    }
    let delta = match accrue(loan.outstanding_principal, loan.actual_apr_bps, elapsed as i64) {
        Ok(d) => d,
        Err(e) => return Err(e),
    };
    let total = match loan.accrued_interest.checked_add(delta) {
        Some(t) => t,
        None => return Err(LoanMarketplaceErrorCode::MathOverflow),
    };
    loan.accrued_interest = total;
    loan.last_accrual_ts = now;
    Ok(())
}

fn smaller(a: u64, b: u64) -> (r: u64)
    ensures
        r == min_u64(a, b),
{
    if a < b {
        a
    } else {
        b
    }
}

impl LoanBook {
    /// Whether the records hold the accounting invariants of a loan; every
    /// operation requires them.
    pub fn is_well_formed(&self) -> (r: bool)
        ensures
            r == self@.wf(),
    {
        let loan = self.loan;
        if loan.amount == 0 || loan.funded_amount > loan.amount {
            return false;
        }
        if loan.outstanding_principal as u128 + loan.total_repaid_principal as u128
            != loan.amount as u128 {
            return false;
        }
        let ghost s = self.shares@;
        let check_bps = loan.state != LoanState::Created && loan.state != LoanState::Funding;
        let n = self.shares.len();
        let mut principal_total: u64 = 0;
        let mut bps_total: u64 = 0;
        let mut i: usize = 0;
        while i < n
            invariant
                s == self.shares@,
                n == s.len(),
                0 <= i <= n,
                loan == self.loan,
                check_bps == past_funding(loan.state),
                principal_total == sum_principal(s.take(i as int)),
                principal_total <= loan.funded_amount,
                check_bps ==> bps_total == sum_bps(s.take(i as int)) && bps_total <= WHOLE_BPS,
                forall|k: int| 0 <= k < i ==> #[trigger] s[k].loan == loan.loan_id,
            decreases n - i,
        {
            let share = self.shares[i];
            proof {
                assert(s.take(i + 1).drop_last() =~= s.take(i as int));
                lemma_prefix_principal_le(s, i + 1);
                lemma_prefix_bps_le(s, i + 1);
                lemma_sum_principal_nonneg(s.take(i + 1));
            }
            if share.loan != loan.loan_id {
                return false;
            }
            if share.principal > loan.funded_amount - principal_total {
                return false;
            }
            principal_total = principal_total + share.principal;
            if check_bps {
                if share.pro_rata_bps as u64 > WHOLE_BPS - bps_total {
                    return false;
                }
                bps_total = bps_total + share.pro_rata_bps as u64;
            }
            i = i + 1;
        }
        proof {
            assert(s.take(n as int) =~= s);
        }
        if principal_total != loan.funded_amount || (check_bps && bps_total != WHOLE_BPS) {
            return false;
        }
        let mut a: usize = 0;
        while a < n
            invariant
                s == self.shares@,
                n == s.len(),
                0 <= a <= n,
                forall|x: int, y: int| 0 <= x < y < a ==> s[x].lender != s[y].lender,
            decreases n - a,
        {
            let mut b: usize = 0;
            while b < a
                invariant
                    s == self.shares@,
                    n == s.len(),
                    0 <= b <= a < n,
                    forall|x: int, y: int| 0 <= x < y < a ==> s[x].lender != s[y].lender,
                    forall|x: int| 0 <= x < b ==> s[x].lender != s[a as int].lender,
                decreases a - b,
            {
                if self.shares[b].lender.same(&self.shares[a].lender) {
                    return false;
                }
                b = b + 1;
            }
            a = a + 1;
        }
        proof {
            assert forall|x: int, y: int|
                0 <= x < s.len() && 0 <= y < s.len() && s[x].lender == s[y].lender implies x
                == y by {
                if x < y {
                    assert(s[x].lender != s[y].lender);
                } else if y < x {
                    assert(s[y].lender != s[x].lender);
                }
            }
        }
        true
    }

    /// Opens a loan for funding, with no shares, no collateral and an empty
    /// escrow. Terms outside the allowed ranges are rejected with `InvalidParam`.
    pub fn create_loan(
        loan_id: u64,
        borrower: AccountKey,
        amount: u64,
        term_secs: i64,
        max_apr_bps: u32,
        min_collateral_bps: u32,
        funding_deadline: i64,
        now: i64,
    ) -> (r: Result<(LoanBook, LoanCreated), LoanMarketplaceErrorCode>)
        ensures
            match r {
                Ok((book, event)) => {
                    &&& valid_terms(
                        amount,
                        term_secs,
                        max_apr_bps,
                        min_collateral_bps,
                        funding_deadline,
                        now,
                    )
                    &&& book@ == opened(
                        loan_id,
                        borrower,
                        amount,
                        term_secs,
                        max_apr_bps,
                        min_collateral_bps,
                        funding_deadline,
                    )
                    &&& book@.wf()
                    &&& event == (LoanCreated {
                        borrower,
                        loan: loan_id,
                        amount,
                        term_secs,
                        max_apr_bps,
                        min_collateral_bps,
                        funding_deadline,
                    })
                },
                Err(e) => !valid_terms(
                    amount,
                    term_secs,
                    max_apr_bps,
                    min_collateral_bps,
                    funding_deadline,
                    now,
                ) && e == LoanMarketplaceErrorCode::InvalidParam,
            },
    {
        if amount < MIN_LOAN_AMOUNT || amount > MAX_LOAN_AMOUNT {
            return Err(LoanMarketplaceErrorCode::InvalidParam);
        }
        if term_secs < MIN_TERM_SECS || term_secs > MAX_TERM_SECS {
            return Err(LoanMarketplaceErrorCode::InvalidParam);
        }
        if max_apr_bps == 0 || max_apr_bps > MAX_RATE_BPS {
            return Err(LoanMarketplaceErrorCode::InvalidParam);
        }
        if min_collateral_bps > MAX_RATE_BPS {
            return Err(LoanMarketplaceErrorCode::InvalidParam);
        }
        if funding_deadline <= now || funding_deadline as i128 - now as i128
            > MAX_FUNDING_WINDOW_SECS as i128 {
            return Err(LoanMarketplaceErrorCode::InvalidParam);
        }
        let loan = LoanAccount {
            borrower,
            loan_id,
            amount,
            term_secs,
            max_apr_bps,
            min_collateral_bps,
            funding_deadline,
            state: LoanState::Funding,
            funded_amount: 0,
            collateral_amount: 0,
            actual_apr_bps: max_apr_bps,
            start_ts: 0,
            due_ts: 0,
            last_accrual_ts: 0,
            accrued_interest: 0,
            outstanding_principal: amount,
            total_repaid_principal: 0,
            total_repaid_interest: 0,
        };
        let book = LoanBook { loan, shares: Vec::new(), escrow: Escrow::new() };
        proof {
            assert(book@.shares =~= Seq::<LenderShare>::empty());
            lemma_opened_wf(
                loan_id,
                borrower,
                amount,
                term_secs,
                max_apr_bps,
                min_collateral_bps,
                funding_deadline,
            );
        }
        let event = LoanCreated {
            borrower,
            loan: loan_id,
            amount,
            term_secs,
            max_apr_bps,
            min_collateral_bps,
            funding_deadline,
        };
        Ok((book, event))
    }

    /// A lender contributes `amount` at time `now` (see `fund_step`).
    pub fn lender_fund(&mut self, lender: AccountKey, amount: u64, now: i64) -> (r: Result<
        LenderFunded,
        LoanMarketplaceErrorCode,
    >)
        requires
            old(self)@.wf(),
        ensures
            final(self)@.wf(),
            final(self).loan.loan_id == old(self).loan.loan_id,
            match fund_step(old(self)@, lender, amount, now) {
                Ok((m, event)) => final(self)@ == m && r == Ok::<
                    LenderFunded,
                    LoanMarketplaceErrorCode,
                >(event),
                Err(e) => final(self)@ == old(self)@ && r == Err::<
                    LenderFunded,
                    LoanMarketplaceErrorCode,
                >(e),
            },
    {
        proof {
            lemma_fund_step_wf(self@, lender, amount, now);
        }
        if amount == 0 {
            return Err(LoanMarketplaceErrorCode::InvalidParam);
        }
        if self.loan.state != LoanState::Funding {
            return Err(LoanMarketplaceErrorCode::InvalidState);
        }
        if now > self.loan.funding_deadline {
            return Err(LoanMarketplaceErrorCode::FundingExpired);
        }
        let total = match self.loan.funded_amount.checked_add(amount) {
            Some(t) => t,
            None => return Err(LoanMarketplaceErrorCode::MathOverflow),
        };
        if total > self.loan.amount {
            return Err(LoanMarketplaceErrorCode::ExceedsLoanAmount);
        }
        let mut escrow = self.escrow;
        if let Err(e) = escrow.deposit(amount) {
            return Err(e);
        }
        proof {
            lemma_credited(self.shares@, self.loan.loan_id, lender, amount);
        }
        credit_share(&mut self.shares, self.loan.loan_id, lender, amount);
        self.escrow = escrow;
        self.loan.funded_amount = total;
        let complete = total == self.loan.amount;
        if complete {
            self.loan.state = LoanState::Funded;
            self.loan.actual_apr_bps = self.loan.max_apr_bps;
            self.shares = assign_pro_rata(&self.shares, total);
        }
        Ok(
            LenderFunded {
                loan: self.loan.loan_id,
                lender,
                amount,
                total_funded: total,
                fully_funded: complete,
            },
        )
    }

    /// The borrower adds `amount` of collateral (see `deposit_collateral_step`).
    pub fn deposit_collateral(&mut self, caller: AccountKey, amount: u64) -> (r: Result<
        CollateralDeposited,
        LoanMarketplaceErrorCode,
    >)
        requires
            old(self)@.wf(),
        ensures
            final(self)@.wf(),
            final(self).loan.loan_id == old(self).loan.loan_id,
            match deposit_collateral_step(old(self)@, caller, amount) {
                Ok((m, event)) => final(self)@ == m && r == Ok::<
                    CollateralDeposited,
                    LoanMarketplaceErrorCode,
                >(event),
                Err(e) => final(self)@ == old(self)@ && r == Err::<
                    CollateralDeposited,
                    LoanMarketplaceErrorCode,
                >(e),
            },
    {
        proof {
            lemma_deposit_collateral_step_wf(self@, caller, amount);
        }
        if !caller.same(&self.loan.borrower) {
            return Err(LoanMarketplaceErrorCode::Unauthorized);
        }
        if amount == 0 {
            return Err(LoanMarketplaceErrorCode::InvalidParam);
        }
        if self.loan.state != LoanState::Funding {
            return Err(LoanMarketplaceErrorCode::InvalidState);
        }
        let mut escrow = self.escrow;
        if let Err(e) = escrow.deposit(amount) {
            return Err(e);
        }
        let total = match self.loan.collateral_amount.checked_add(amount) {
            Some(t) => t,
            None => return Err(LoanMarketplaceErrorCode::MathOverflow),
        };
        self.escrow = escrow;
        self.loan.collateral_amount = total;
        Ok(
            CollateralDeposited {
                loan: self.loan.loan_id,
                borrower: self.loan.borrower,
                amount,
                total,
            },
        )
    }

    /// Ends funding explicitly once the request is met (see `finalize_step`).
    pub fn finalize_funding(&mut self) -> (r: Result<LoanFunded, LoanMarketplaceErrorCode>)
        requires
            old(self)@.wf(),
        ensures
            final(self)@.wf(),
            final(self).loan.loan_id == old(self).loan.loan_id,
            match finalize_step(old(self)@) {
                Ok((m, event)) => final(self)@ == m && r == Ok::<
                    LoanFunded,
                    LoanMarketplaceErrorCode,
                >(event),
                Err(e) => final(self)@ == old(self)@ && r == Err::<
                    LoanFunded,
                    LoanMarketplaceErrorCode,
                >(e),
            },
    {
        proof {
            lemma_finalize_step_wf(self@);
        }
        if self.loan.state != LoanState::Funding {
            return Err(LoanMarketplaceErrorCode::InvalidState);
        }
        if self.loan.funded_amount < self.loan.amount {
            return Err(LoanMarketplaceErrorCode::InsufficientFunding);
        }
        self.loan.actual_apr_bps = self.loan.max_apr_bps;
        self.loan.state = LoanState::Funded;
        self.shares = assign_pro_rata(&self.shares, self.loan.funded_amount);
        Ok(LoanFunded { loan: self.loan.loan_id, funded_amount: self.loan.funded_amount })
    }

    /// The borrower draws the funded amount at time `now` (see `drawdown_step`).
    pub fn drawdown(&mut self, caller: AccountKey, now: i64) -> (r: Result<
        LoanDrawn,
        LoanMarketplaceErrorCode,
    >)
        requires
            old(self)@.wf(),
        ensures
            final(self)@.wf(),
            final(self).loan.loan_id == old(self).loan.loan_id,
            match drawdown_step(old(self)@, caller, now) {
                Ok((m, event)) => final(self)@ == m && r == Ok::<
                    LoanDrawn,
                    LoanMarketplaceErrorCode,
                >(event),
                Err(e) => final(self)@ == old(self)@ && r == Err::<
                    LoanDrawn,
                    LoanMarketplaceErrorCode,
                >(e),
            },
    {
        proof {
            lemma_drawdown_step_wf(self@, caller, now);
        }
        if !caller.same(&self.loan.borrower) {
            return Err(LoanMarketplaceErrorCode::Unauthorized);
        }
        if self.loan.state != LoanState::Funded {
            return Err(LoanMarketplaceErrorCode::InvalidState);
        }
        let due = now as i128 + self.loan.term_secs as i128;
        if due > i64::MAX as i128 || due < i64::MIN as i128 {
            return Err(LoanMarketplaceErrorCode::MathOverflow);
        }
        let mut escrow = self.escrow;
        if let Err(e) = escrow.withdraw(self.loan.amount) {
            return Err(e);
        }
        self.escrow = escrow;
        self.loan.state = LoanState::InRepayment;
        self.loan.start_ts = now;
        self.loan.due_ts = due as i64;
        self.loan.last_accrual_ts = now;
        Ok(
            LoanDrawn {
                loan: self.loan.loan_id,
                borrower: self.loan.borrower,
                amount: self.loan.amount,
                start_ts: now,
                due_ts: due as i64,
            },
        )
    }

    /// The borrower repays `amount` at time `now` (see `repay_step`).
    pub fn repay(&mut self, caller: AccountKey, amount: u64, now: i64) -> (r: Result<
        (Repayment, Option<LoanSettled>),
        LoanMarketplaceErrorCode,
    >)
        requires
            old(self)@.wf(),
        ensures
            final(self)@.wf(),
            final(self).loan.loan_id == old(self).loan.loan_id,
            final(self).loan.outstanding_principal + final(self).loan.total_repaid_principal
                == final(self).loan.amount,
            match repay_step(old(self)@, caller, amount, now) {
                Ok((m, events)) => final(self)@ == m && r == Ok::<
                    (Repayment, Option<LoanSettled>),
                    LoanMarketplaceErrorCode,
                >(events),
                Err(e) => final(self)@ == old(self)@ && r == Err::<
                    (Repayment, Option<LoanSettled>),
                    LoanMarketplaceErrorCode,
                >(e),
            },
    {
        proof {
            lemma_repay_step_wf(self@, caller, amount, now);
        }
        if self.loan.state != LoanState::InRepayment {
            return Err(LoanMarketplaceErrorCode::InvalidState);
        }
        if !caller.same(&self.loan.borrower) {
            return Err(LoanMarketplaceErrorCode::Unauthorized);
        }
        if amount == 0 {
            return Err(LoanMarketplaceErrorCode::InvalidParam);
        }
        let mut loan = self.loan;
        if let Err(e) = accrue_interest(&mut loan, now) {
            return Err(e);
        }
        if amount as u128 > loan.accrued_interest as u128 + loan.outstanding_principal as u128 {
            return Err(LoanMarketplaceErrorCode::InvalidParam);
        }
        let mut escrow = self.escrow;
        if let Err(e) = escrow.deposit(amount) {
            return Err(e);
        }
        let split = match apply_payment(&mut loan, amount) {
            Ok(s) => s,
            Err(e) => return Err(e),
        };
        let receipt = Repayment {
            loan: loan.loan_id,
            amount,
            interest_paid: split.interest_paid,
            principal_paid: split.principal_paid,
        };
        if loan.outstanding_principal == 0 && loan.accrued_interest == 0 {
            let back = smaller(loan.collateral_amount, escrow.balance);
            if let Err(e) = escrow.withdraw(back) {
                return Err(e);
            }
            loan.collateral_amount = loan.collateral_amount - back;
            loan.state = LoanState::Settled;
            self.loan = loan;
            self.escrow = escrow;
            Ok((receipt, Some(LoanSettled { loan: loan.loan_id, collateral_returned: back })))
        } else {
            self.loan = loan;
            self.escrow = escrow;
            Ok((receipt, None))
        }
    }

    /// Declares the loan in default at time `now` (see `mark_default_step`).
    pub fn mark_default(&mut self, now: i64) -> (r: Result<LoanDefaulted, LoanMarketplaceErrorCode>)
        requires
            old(self)@.wf(),
        ensures
            final(self)@.wf(),
            final(self).loan.loan_id == old(self).loan.loan_id,
            match mark_default_step(old(self)@, now) {
                Ok((m, event)) => final(self)@ == m && r == Ok::<
                    LoanDefaulted,
                    LoanMarketplaceErrorCode,
                >(event),
                Err(e) => final(self)@ == old(self)@ && r == Err::<
                    LoanDefaulted,
                    LoanMarketplaceErrorCode,
                >(e),
            },
    {
        proof {
            lemma_mark_default_step_wf(self@, now);
        }
        if self.loan.state != LoanState::InRepayment && self.loan.state != LoanState::Delinquent {
            return Err(LoanMarketplaceErrorCode::InvalidState);
        }
        if now as i128 <= self.loan.due_ts as i128 + GRACE_PERIOD_SECS as i128 {
            return Err(LoanMarketplaceErrorCode::TooEarly);
        }
        let seized = smaller(self.loan.collateral_amount, self.escrow.balance);
        self.loan.state = LoanState::Defaulted;
        self.loan.collateral_amount = seized;
        Ok(
            LoanDefaulted {
                loan: self.loan.loan_id,
                borrower: self.loan.borrower,
                collateral_seized: seized,
                outstanding_principal: self.loan.outstanding_principal,
                outstanding_interest: self.loan.accrued_interest,
            },
        )
    }

    /// Pays `lender` its part of the seized collateral (see `claim_step`).
    pub fn payout(&mut self, lender: AccountKey) -> (r: Result<DefaultPayout, LoanMarketplaceErrorCode>)
        requires
            old(self)@.wf(),
        ensures
            final(self)@.wf(),
            final(self).loan.loan_id == old(self).loan.loan_id,
            match claim_step(old(self)@, lender) {
                Ok((m, event)) => final(self)@ == m && r == Ok::<
                    DefaultPayout,
                    LoanMarketplaceErrorCode,
                >(event),
                Err(e) => final(self)@ == old(self)@ && r == Err::<
                    DefaultPayout,
                    LoanMarketplaceErrorCode,
                >(e),
            },
    {
        proof {
            lemma_claim_step_wf(self@, lender);
        }
        if self.loan.state != LoanState::Defaulted {
            return Err(LoanMarketplaceErrorCode::InvalidState);
        }
        let i = match find_share(&self.shares, &lender) {
            Some(i) => i,
            None => return Err(LoanMarketplaceErrorCode::InvalidAccount),
        };
        proof {
            lemma_found_is_share_index(self.shares@, lender, i as int);
            lemma_bps_le_sum(self.shares@, i as int);
        }
        let mut share = self.shares[i];
        if share.is_claimed() {
            return Err(LoanMarketplaceErrorCode::AlreadyClaimed);
        }
        let c = self.loan.collateral_amount;
        let b = share.pro_rata_bps;
        proof {
            let ci = c as int;
            let bi = b as int;
            let x = ci * bi;
            assert(0 <= x <= ci * 10000) by (nonlinear_arith)
                requires
                    x == ci * bi,
                    0 <= bi <= 10000,
                    ci >= 0,
            ;
            lemma_div_is_ordered(x, ci * 10000, 10000);
            assert(ci * 10000 == 10000 * ci);
            lemma_div_multiples_vanish(ci, 10000);
        }
        let amount = ((c as u128 * b as u128) / (WHOLE_BPS as u128)) as u64;
        let mut escrow = self.escrow;
        if let Err(e) = escrow.withdraw(amount) {
            return Err(e);
        }
        share.repaid_principal = amount;
        share.repaid_interest = 0;
        share.payout_claimed = true;
        self.shares.set(i, share);
        self.escrow = escrow;
        Ok(DefaultPayout { loan: self.loan.loan_id, lender, amount })
    }
}

} // verus!
