//! The marketplace: every loan, addressed by its identifier, under one
//! protocol configuration. Loans are independent; an operation on one loan
//! leaves every other loan as it was.
use vstd::prelude::*;
use crate::book::LoanBook;
use crate::error::LoanMarketplaceErrorCode;
use crate::events::{
    CollateralDeposited, DefaultPayout, LenderFunded, LoanCreated, LoanDefaulted, LoanDrawn,
    LoanFunded, LoanSettled, Repayment,
};
use crate::key::AccountKey;
use crate::model::{
    claim_step, deposit_collateral_step, drawdown_step, finalize_step, fund_step,
    mark_default_step, opened, repay_step, valid_terms, LoanBookModel,
};
use crate::state::Config;

verus! {

/// All loans of the marketplace; a loan's identifier is its position.
pub struct Marketplace {
    pub config: Config,
    pub books: Vec<LoanBook>,
}

/// The marketplace with each loan seen through its model.
pub struct MarketplaceView {
    pub config: Config,
    pub loans: Seq<LoanBookModel>,
}

impl View for Marketplace {
    type V = MarketplaceView;

    open spec fn view(&self) -> MarketplaceView {
        MarketplaceView { config: self.config, loans: self.books@.map_values(|b: LoanBook| b@) }
    }
}

impl MarketplaceView {
    /// Every loan keeps its invariants and is stored under its own identifier.
    pub open spec fn wf(self) -> bool {
        forall|i: int|
            0 <= i < self.loans.len() ==> #[trigger] self.loans[i].wf() && self.loans[i].loan.loan_id
                == i
    }
}

/// What an operation on loan `loan_id` did: an unknown identifier is rejected
/// with `InvalidAccount`; otherwise the loan went through `step`, the other
/// loans staying as they were, and a rejected step changed nothing.
pub open spec fn applied<T>(
    before: MarketplaceView,
    after: MarketplaceView,
    loan_id: u64,
    step: Result<(LoanBookModel, T), LoanMarketplaceErrorCode>,
    r: Result<T, LoanMarketplaceErrorCode>,
) -> bool {
    if loan_id >= before.loans.len() {
        r == Err::<T, LoanMarketplaceErrorCode>(LoanMarketplaceErrorCode::InvalidAccount) && after
            == before
    } else {
        match step {
            Ok((m, out)) => r == Ok::<T, LoanMarketplaceErrorCode>(out) && after == (
            MarketplaceView { loans: before.loans.update(loan_id as int, m), ..before }),
            Err(e) => r == Err::<T, LoanMarketplaceErrorCode>(e) && after == before,
        }
    }
}

impl Marketplace {
    /// A marketplace with no loans.
    pub fn new(config: Config) -> (r: Marketplace)
        ensures
            r@.config == config,
            r@.loans.len() == 0,
            r@.wf(),
    {
        Marketplace { config, books: Vec::new() }
    }

    /// Opens a loan for `borrower` under the next identifier (see `LoanBook::create_loan`).
    pub fn create_loan(
        &mut self,
        borrower: AccountKey,
        amount: u64,
        term_secs: i64,
        max_apr_bps: u32,
        min_collateral_bps: u32,
        funding_deadline: i64,
        now: i64,
    ) -> (r: Result<LoanCreated, LoanMarketplaceErrorCode>)
        requires
            old(self)@.wf(),
        ensures
            final(self)@.wf(),
            match r {
                Ok(event) => {
                    &&& valid_terms(
                        amount,
                        term_secs,
                        max_apr_bps,
                        min_collateral_bps,
                        funding_deadline,
                        now,
                    )
                    &&& event.loan == old(self)@.loans.len()
                    &&& final(self)@ == (MarketplaceView {
                        loans: old(self)@.loans.push(
                            opened(
                                event.loan,
                                borrower,
                                amount,
                                term_secs,
                                max_apr_bps,
                                min_collateral_bps,
                                funding_deadline,
                            ),
                        ),
                        ..old(self)@
                    })
                },
                Err(e) => !valid_terms(
                    amount,
                    term_secs,
                    max_apr_bps,
                    min_collateral_bps,
                    funding_deadline,
                    now,
                ) && e == LoanMarketplaceErrorCode::InvalidParam && final(self)@ == old(self)@,
            },
    {
        let loan_id = self.books.len() as u64;
        match LoanBook::create_loan(
            loan_id,
            borrower,
            amount,
            term_secs,
            max_apr_bps,
            min_collateral_bps,
            funding_deadline,
            now,
        ) {
            Err(e) => Err(e),
            Ok((book, event)) => {
                self.books.push(book);
                proof {
                    assert(self@.loans =~= old(self)@.loans.push(book@));
                }
                Ok(event)
            },
        }
    }

    /// A lender contributes to loan `loan_id` (see `fund_step`).
    pub fn lender_fund(&mut self, loan_id: u64, lender: AccountKey, amount: u64, now: i64) -> (r:
        Result<LenderFunded, LoanMarketplaceErrorCode>)
        requires
            old(self)@.wf(),
        ensures
            final(self)@.wf(),
            applied(
                old(self)@,
                final(self)@,
                loan_id,
                fund_step(old(self)@.loans[loan_id as int], lender, amount, now),
                r,
            ),
    {
        if loan_id >= self.books.len() as u64 {
            return Err(LoanMarketplaceErrorCode::InvalidAccount);
        }
        let i = loan_id as usize;
        proof {
            assert(self.books@[i as int]@.wf());
        }
        let r = self.books[i].lender_fund(lender, amount, now);
        proof {
            assert(self@.loans =~= old(self)@.loans.update(i as int, self.books@[i as int]@));
            if r is Err {
                assert(self@.loans =~= old(self)@.loans);
            }
        }
        r
    }

    /// The borrower adds collateral to loan `loan_id` (see `deposit_collateral_step`).
    pub fn deposit_collateral(&mut self, loan_id: u64, caller: AccountKey, amount: u64) -> (r:
        Result<CollateralDeposited, LoanMarketplaceErrorCode>)
        requires
            old(self)@.wf(),
        ensures
            final(self)@.wf(),
            applied(
                old(self)@,
                final(self)@,
                loan_id,
                deposit_collateral_step(old(self)@.loans[loan_id as int], caller, amount),
                r,
            ),
    {
        if loan_id >= self.books.len() as u64 {
            return Err(LoanMarketplaceErrorCode::InvalidAccount);
        }
        let i = loan_id as usize;
        proof {
            assert(self.books@[i as int]@.wf());
        }
        let r = self.books[i].deposit_collateral(caller, amount);
        proof {
            assert(self@.loans =~= old(self)@.loans.update(i as int, self.books@[i as int]@));
            if r is Err {
                assert(self@.loans =~= old(self)@.loans);
            }
        }
        r
    }

    /// Ends funding of loan `loan_id` explicitly (see `finalize_step`).
    pub fn finalize_funding(&mut self, loan_id: u64) -> (r: Result<LoanFunded, LoanMarketplaceErrorCode>)
        requires
            old(self)@.wf(),
        ensures
            final(self)@.wf(),
            applied(
                old(self)@,
                final(self)@,
                loan_id,
                finalize_step(old(self)@.loans[loan_id as int]),
                r,
            ),
    {
        if loan_id >= self.books.len() as u64 {
            return Err(LoanMarketplaceErrorCode::InvalidAccount);
        }
        let i = loan_id as usize;
        proof {
            assert(self.books@[i as int]@.wf());
        }
        let r = self.books[i].finalize_funding();
        proof {
            assert(self@.loans =~= old(self)@.loans.update(i as int, self.books@[i as int]@));
            if r is Err {
                assert(self@.loans =~= old(self)@.loans);
            }
        }
        r
    }

    /// The borrower draws loan `loan_id` (see `drawdown_step`).
    pub fn drawdown(&mut self, loan_id: u64, caller: AccountKey, now: i64) -> (r: Result<
        LoanDrawn,
        LoanMarketplaceErrorCode,
    >)
        requires
            old(self)@.wf(),
        ensures
            final(self)@.wf(),
            applied(
                old(self)@,
                final(self)@,
                loan_id,
                drawdown_step(old(self)@.loans[loan_id as int], caller, now),
                r,
            ),
    {
        if loan_id >= self.books.len() as u64 {
            return Err(LoanMarketplaceErrorCode::InvalidAccount);
        }
        let i = loan_id as usize;
        proof {
            assert(self.books@[i as int]@.wf());
        }
        let r = self.books[i].drawdown(caller, now);
        proof {
            assert(self@.loans =~= old(self)@.loans.update(i as int, self.books@[i as int]@));
            if r is Err {
                assert(self@.loans =~= old(self)@.loans);
            }
        }
        r
    }

    /// The borrower repays loan `loan_id` (see `repay_step`).
    pub fn repay(&mut self, loan_id: u64, caller: AccountKey, amount: u64, now: i64) -> (r: Result<
        (Repayment, Option<LoanSettled>),
        LoanMarketplaceErrorCode,
    >)
        requires
            old(self)@.wf(),
        ensures
            final(self)@.wf(),
            applied(
                old(self)@,
                final(self)@,
                loan_id,
                repay_step(old(self)@.loans[loan_id as int], caller, amount, now),
                r,
            ),
    {
        if loan_id >= self.books.len() as u64 {
            return Err(LoanMarketplaceErrorCode::InvalidAccount);
        }
        let i = loan_id as usize;
        proof {
            assert(self.books@[i as int]@.wf());
        }
        let r = self.books[i].repay(caller, amount, now);
        proof {
            assert(self@.loans =~= old(self)@.loans.update(i as int, self.books@[i as int]@));
            if r is Err {
                assert(self@.loans =~= old(self)@.loans);
            }
        }
        r
    }

    /// Declares loan `loan_id` in default (see `mark_default_step`).
    pub fn mark_default(&mut self, loan_id: u64, now: i64) -> (r: Result<
        LoanDefaulted,
        LoanMarketplaceErrorCode,
    >)
        requires
            old(self)@.wf(),
        ensures
            final(self)@.wf(),
            applied(
                old(self)@,
                final(self)@,
                loan_id,
                mark_default_step(old(self)@.loans[loan_id as int], now),
                r,
            ),
    {
        if loan_id >= self.books.len() as u64 {
            return Err(LoanMarketplaceErrorCode::InvalidAccount);
        }
        let i = loan_id as usize;
        proof {
            assert(self.books@[i as int]@.wf());
        }
        let r = self.books[i].mark_default(now);
        proof {
            assert(self@.loans =~= old(self)@.loans.update(i as int, self.books@[i as int]@));
            if r is Err {
                assert(self@.loans =~= old(self)@.loans);
            }
        }
        r
    }

    /// Pays `lender` its part of defaulted loan `loan_id` (see `claim_step`).
    pub fn payout(&mut self, loan_id: u64, lender: AccountKey) -> (r: Result<
        DefaultPayout,
        LoanMarketplaceErrorCode,
    >)
        requires
            old(self)@.wf(),
        ensures
            final(self)@.wf(),
            applied(
                old(self)@,
                final(self)@,
                loan_id,
                claim_step(old(self)@.loans[loan_id as int], lender),
                r,
            ),
    {
        if loan_id >= self.books.len() as u64 {
            return Err(LoanMarketplaceErrorCode::InvalidAccount);
        }
        let i = loan_id as usize;
        proof {
            assert(self.books@[i as int]@.wf());
        }
        let r = self.books[i].payout(lender);
        proof {
            assert(self@.loans =~= old(self)@.loans.update(i as int, self.books@[i as int]@));
            if r is Err {
                assert(self@.loans =~= old(self)@.loans);
            }
        }
        r
    }
}

} // verus!
