//! Properties that relate several operations, or every sequence of them.
use vstd::prelude::*;
use crate::error::LoanMarketplaceErrorCode;
use crate::key::AccountKey;
use crate::ledger::{lemma_found_is_share_index, share_index, sum_bps, WHOLE_BPS};
use crate::model::{
    claim_step, fund_step, lemma_claim_step_wf, lemma_fund_step_wf, lemma_mark_default_step_wf,
    lemma_repay_step_wf, mark_default_step, past_funding, repay_step, LoanBookModel,
};
use crate::state::LoanState;

verus! {

/// One funding call: who contributes, how much, and when.
pub struct FundingCall {
    pub lender: AccountKey,
    pub amount: u64,
    pub now: i64,
}

/// One repayment call: who pays, how much, and when.
pub struct RepaymentCall {
    pub caller: AccountKey,
    pub amount: u64,
    pub now: i64,
}

/// The loan after a sequence of funding calls, each applied if it succeeds
/// and dropped if it fails.
pub open spec fn after_fundings(m: LoanBookModel, calls: Seq<FundingCall>) -> LoanBookModel
    decreases calls.len(),
{
    if calls.len() == 0 {
        m
    } else {
        let prev = after_fundings(m, calls.drop_last());
        let c = calls.last();
        match fund_step(prev, c.lender, c.amount, c.now) {
            Ok((n, _)) => n,
            Err(_) => prev,
        }
    }
}

/// The amounts of the funding calls of a sequence that succeeded, added up.
pub open spec fn accepted_funding(m: LoanBookModel, calls: Seq<FundingCall>) -> int
    decreases calls.len(),
{
    if calls.len() == 0 {
        0
    } else {
        let prev = after_fundings(m, calls.drop_last());
        let c = calls.last();
        accepted_funding(m, calls.drop_last()) + if fund_step(prev, c.lender, c.amount, c.now) is Ok {
            c.amount as int
        } else {
            0
        }
    }
}

/// The loan after a sequence of repayment calls, each applied if it succeeds
/// and dropped if it fails.
pub open spec fn after_repayments(m: LoanBookModel, calls: Seq<RepaymentCall>) -> LoanBookModel
    decreases calls.len(),
{
    if calls.len() == 0 {
        m
    } else {
        let prev = after_repayments(m, calls.drop_last());
        let c = calls.last();
        match repay_step(prev, c.caller, c.amount, c.now) {
            Ok((n, _)) => n,
            Err(_) => prev,
        }
    }
}

/// Over any sequence of funding calls, the funded amount grows by exactly the
/// successful contributions and never passes the requested amount.
pub proof fn lemma_funding_adds_up(m: LoanBookModel, calls: Seq<FundingCall>)
    requires
        m.wf(),
    ensures
        after_fundings(m, calls).wf(),
        after_fundings(m, calls).loan.amount == m.loan.amount,
        after_fundings(m, calls).loan.funded_amount == m.loan.funded_amount + accepted_funding(
            m,
            calls,
        ),
        after_fundings(m, calls).loan.funded_amount <= m.loan.amount,
    decreases calls.len(),
{
    if calls.len() > 0 {
        lemma_funding_adds_up(m, calls.drop_last());
        let prev = after_fundings(m, calls.drop_last());
        let c = calls.last();
        lemma_fund_step_wf(prev, c.lender, c.amount, c.now);
    }
}

/// Once funding is over, whether by the contribution that completed it or
/// later, the lenders' pro-rata parts make up exactly 10,000 basis points.
pub proof fn lemma_funded_parts_make_whole(m: LoanBookModel, calls: Seq<FundingCall>)
    requires
        m.wf(),
        past_funding(after_fundings(m, calls).loan.state),
    ensures
        sum_bps(after_fundings(m, calls).shares) == WHOLE_BPS,
{
    lemma_funding_adds_up(m, calls);
}

/// Over any sequence of repayment calls, outstanding principal plus repaid
/// principal stays equal to the loan amount.
pub proof fn lemma_repayments_keep_principal(m: LoanBookModel, calls: Seq<RepaymentCall>)
    requires
        m.wf(),
    ensures
        after_repayments(m, calls).wf(),
        after_repayments(m, calls).loan.outstanding_principal + after_repayments(
            m,
            calls,
        ).loan.total_repaid_principal == after_repayments(m, calls).loan.amount,
        after_repayments(m, calls).loan.amount == m.loan.amount,
    decreases calls.len(),
{
    if calls.len() > 0 {
        lemma_repayments_keep_principal(m, calls.drop_last());
        let prev = after_repayments(m, calls.drop_last());
        let c = calls.last();
        lemma_repay_step_wf(prev, c.caller, c.amount, c.now);
    }
}

/// A settled loan rejects every further repayment with `InvalidState`.
pub proof fn lemma_settled_rejects_repayment(
    m: LoanBookModel,
    caller: AccountKey,
    amount: u64,
    now: i64,
)
    requires
        m.loan.state == LoanState::Settled,
    ensures
        repay_step(m, caller, amount, now) == Err::<
            (LoanBookModel, (crate::events::Repayment, Option<crate::events::LoanSettled>)),
            LoanMarketplaceErrorCode,
        >(LoanMarketplaceErrorCode::InvalidState),
{
}

/// A lender can take its default payout once: after a successful claim, a
/// second claim by the same lender fails with `AlreadyClaimed`.
pub proof fn lemma_payout_claimed_once(m: LoanBookModel, lender: AccountKey)
    requires
        m.wf(),
        claim_step(m, lender) is Ok,
    ensures
        claim_step(claim_step(m, lender)->Ok_0.0, lender) matches Err(e) && e
            == LoanMarketplaceErrorCode::AlreadyClaimed,
{
    lemma_claim_step_wf(m, lender);
    let n = claim_step(m, lender)->Ok_0.0;
    let i = share_index(m.shares, lender);
    assert(n.shares[i].lender == lender);
    lemma_found_is_share_index(n.shares, lender, i);
}

/// A loan can be declared in default once: a second declaration fails with
/// `InvalidState`, whenever it is made.
pub proof fn lemma_default_marked_once(m: LoanBookModel, now: i64, later: i64)
    requires
        m.wf(),
        mark_default_step(m, now) is Ok,
    ensures
        mark_default_step(mark_default_step(m, now)->Ok_0.0, later) matches Err(e) && e
            == LoanMarketplaceErrorCode::InvalidState,
{
    lemma_mark_default_step_wf(m, now);
}

} // verus!
