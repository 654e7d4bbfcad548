use loans_marketplace::book::LoanBook;
use loans_marketplace::error::LoanMarketplaceErrorCode;
use loans_marketplace::key::AccountKey;
use loans_marketplace::state::LoanState;

const NOW: i64 = 1_700_000_000;
const DAY: i64 = 86_400;

fn key(b: u8) -> AccountKey {
    AccountKey::new([b; 32])
}

fn borrower() -> AccountKey {
    key(1)
}

fn new_loan(amount: u64) -> LoanBook {
    let (book, _) =
        LoanBook::create_loan(7, borrower(), amount, 90 * DAY, 1200, 5000, NOW + DAY, NOW).unwrap();
    book
}

fn drawn_loan() -> LoanBook {
    let mut book = new_loan(1_000_000);
    book.lender_fund(key(2), 600_000, NOW).unwrap();
    book.lender_fund(key(3), 400_000, NOW).unwrap();
    book.drawdown(borrower(), NOW).unwrap();
    book
}

fn check_principal_balance(book: &LoanBook) {
    assert_eq!(
        book.loan.outstanding_principal + book.loan.total_repaid_principal,
        book.loan.amount
    );
}

#[test]
fn create_loan_sets_initial_record() {
    let (book, event) =
        LoanBook::create_loan(7, borrower(), 2_000_000, 30 * DAY, 900, 2500, NOW + DAY, NOW)
            .unwrap();
    assert_eq!(book.loan.state, LoanState::Funding);
    assert_eq!(book.loan.funded_amount, 0);
    assert_eq!(book.loan.collateral_amount, 0);
    assert_eq!(book.loan.outstanding_principal, 2_000_000);
    assert_eq!(book.loan.actual_apr_bps, 900);
    assert_eq!(book.loan.loan_id, 7);
    assert!(book.shares.is_empty());
    assert_eq!(book.escrow.balance, 0);
    assert_eq!(event.loan, 7);
    assert_eq!(event.amount, 2_000_000);
    assert_eq!(event.funding_deadline, NOW + DAY);
}

#[test]
fn create_loan_rejects_out_of_range_terms() {
    let bad = [
        LoanBook::create_loan(1, borrower(), 999_999, 30 * DAY, 900, 0, NOW + DAY, NOW),
        LoanBook::create_loan(1, borrower(), 1_000_000_000_001, 30 * DAY, 900, 0, NOW + DAY, NOW),
        LoanBook::create_loan(1, borrower(), 1_000_000, DAY - 1, 900, 0, NOW + DAY, NOW),
        LoanBook::create_loan(1, borrower(), 1_000_000, 31_536_001, 900, 0, NOW + DAY, NOW),
        LoanBook::create_loan(1, borrower(), 1_000_000, 30 * DAY, 0, 0, NOW + DAY, NOW),
        LoanBook::create_loan(1, borrower(), 1_000_000, 30 * DAY, 10_001, 0, NOW + DAY, NOW),
        LoanBook::create_loan(1, borrower(), 1_000_000, 30 * DAY, 900, 10_001, NOW + DAY, NOW),
        LoanBook::create_loan(1, borrower(), 1_000_000, 30 * DAY, 900, 0, NOW, NOW),
        LoanBook::create_loan(1, borrower(), 1_000_000, 30 * DAY, 900, 0, NOW + 2_592_001, NOW),
    ];
    for r in bad.iter() {
        assert!(matches!(r, Err(LoanMarketplaceErrorCode::InvalidParam)));
    }
}

#[test]
fn create_loan_accepts_boundary_terms() {
    assert!(LoanBook::create_loan(1, borrower(), 1_000_000, DAY, 1, 10_000, NOW + 2_592_000, NOW)
        .is_ok());
    assert!(LoanBook::create_loan(
        1,
        borrower(),
        1_000_000_000_000,
        31_536_000,
        10_000,
        0,
        NOW + 1,
        NOW
    )
    .is_ok());
}

#[test]
fn two_lenders_fund_draw_and_pay_interest() {
    let mut book = new_loan(1_000_000);
    let first = book.lender_fund(key(2), 600_000, NOW).unwrap();
    assert!(!first.fully_funded);
    assert_eq!(book.loan.state, LoanState::Funding);
    let second = book.lender_fund(key(3), 400_000, NOW).unwrap();
    assert!(second.fully_funded);
    assert_eq!(second.total_funded, 1_000_000);
    assert_eq!(book.loan.state, LoanState::Funded);
    assert_eq!(book.shares[0].pro_rata_bps, 6000);
    assert_eq!(book.shares[1].pro_rata_bps, 4000);
    assert_eq!(book.escrow.balance, 1_000_000);

    let drawn = book.drawdown(borrower(), NOW).unwrap();
    assert_eq!(drawn.amount, 1_000_000);
    assert_eq!(drawn.due_ts, NOW + 90 * DAY);
    assert_eq!(book.loan.state, LoanState::InRepayment);
    assert_eq!(book.escrow.balance, 0);

    // 1,000,000 * 1200 * 2,592,000 / (10,000 * 31,536,000) = 9,863.01...
    let later = NOW + 30 * DAY;
    let (payment, settled) = book.repay(borrower(), 9_858, later).unwrap();
    assert!(settled.is_none());
    assert_eq!(payment.interest_paid, 9_858);
    assert_eq!(payment.principal_paid, 0);
    assert_eq!(book.loan.accrued_interest, 5);
    assert_eq!(book.loan.outstanding_principal, 1_000_000);
    assert_eq!(book.loan.total_repaid_interest, 9_858);
    assert_eq!(book.loan.last_accrual_ts, later);
}

#[test]
fn repayment_of_accrued_interest_leaves_principal_unchanged() {
    let mut book = drawn_loan();
    let (payment, settled) = book.repay(borrower(), 9_863, NOW + 30 * DAY).unwrap();
    assert!(settled.is_none());
    assert_eq!(payment.interest_paid, 9_863);
    assert_eq!(book.loan.accrued_interest, 0);
    assert_eq!(book.loan.outstanding_principal, 1_000_000);
    assert_eq!(book.loan.total_repaid_principal, 0);
}

#[test]
fn funding_past_the_request_is_rejected() {
    let mut book = new_loan(1_000_000);
    assert_eq!(
        book.lender_fund(key(2), 1_200_000, NOW).unwrap_err(),
        LoanMarketplaceErrorCode::ExceedsLoanAmount
    );
    assert_eq!(book.loan.funded_amount, 0);
    assert!(book.shares.is_empty());
    book.lender_fund(key(2), 700_000, NOW).unwrap();
    assert_eq!(
        book.lender_fund(key(3), 300_001, NOW).unwrap_err(),
        LoanMarketplaceErrorCode::ExceedsLoanAmount
    );
    assert_eq!(book.loan.funded_amount, 700_000);
    assert_eq!(book.escrow.balance, 700_000);
}

#[test]
fn funded_amount_is_sum_of_successful_contributions() {
    let mut book = new_loan(1_000_000);
    let calls: [(u8, u64, i64); 7] = [
        (2, 250_000, NOW),
        (3, 0, NOW),
        (4, 900_000, NOW),
        (2, 100_000, NOW + 10),
        (5, 50_000, NOW + 2 * DAY),
        (4, 400_000, NOW + DAY),
        (6, 250_000, NOW + DAY),
    ];
    let mut accepted: u64 = 0;
    for (lender, amount, when) in calls.iter() {
        if book.lender_fund(key(*lender), *amount, *when).is_ok() {
            accepted += *amount;
        }
        assert_eq!(book.loan.funded_amount, accepted);
        assert!(book.loan.funded_amount <= book.loan.amount);
    }
    assert_eq!(accepted, 1_000_000);
    assert_eq!(book.loan.state, LoanState::Funded);
    // a repeat lender keeps a single share
    assert_eq!(book.shares.len(), 3);
    assert_eq!(book.shares[0].principal, 350_000);
}

#[test]
fn pro_rata_rounding_remainder_goes_to_largest_contributor() {
    let mut book = new_loan(1_000_000);
    book.lender_fund(key(2), 333_333, NOW).unwrap();
    book.lender_fund(key(3), 333_334, NOW).unwrap();
    book.lender_fund(key(4), 333_333, NOW).unwrap();
    let parts: Vec<u32> = book.shares.iter().map(|s| s.pro_rata_bps).collect();
    assert_eq!(parts, vec![3333, 3334, 3333]);
    assert_eq!(parts.iter().sum::<u32>(), 10_000);
}

#[test]
fn pro_rata_parts_sum_to_whole_for_uneven_shares() {
    let mut book = new_loan(3_000_001);
    book.lender_fund(key(2), 1_000_000, NOW).unwrap();
    book.lender_fund(key(3), 1_000_000, NOW).unwrap();
    book.lender_fund(key(4), 999_999, NOW).unwrap();
    book.lender_fund(key(5), 2, NOW).unwrap();
    let sum: u32 = book.shares.iter().map(|s| s.pro_rata_bps).sum();
    assert_eq!(sum, 10_000);
    assert_eq!(book.shares[0].pro_rata_bps, 3334);
    assert_eq!(book.shares[1].pro_rata_bps, 3333);
    assert_eq!(book.shares[2].pro_rata_bps, 3333);
    assert_eq!(book.shares[3].pro_rata_bps, 0);
}

#[test]
fn funding_after_deadline_is_rejected() {
    let mut book = new_loan(1_000_000);
    assert!(book.lender_fund(key(2), 100, NOW + DAY).is_ok());
    assert_eq!(
        book.lender_fund(key(2), 100, NOW + DAY + 1).unwrap_err(),
        LoanMarketplaceErrorCode::FundingExpired
    );
}

#[test]
fn funding_needs_positive_amount_and_open_loan() {
    let mut book = new_loan(1_000_000);
    assert_eq!(book.lender_fund(key(2), 0, NOW).unwrap_err(), LoanMarketplaceErrorCode::InvalidParam);
    book.lender_fund(key(2), 1_000_000, NOW).unwrap();
    assert_eq!(book.lender_fund(key(3), 1, NOW).unwrap_err(), LoanMarketplaceErrorCode::InvalidState);
}

#[test]
fn collateral_deposits_accumulate() {
    let mut book = new_loan(1_000_000);
    assert_eq!(
        book.deposit_collateral(key(9), 10).unwrap_err(),
        LoanMarketplaceErrorCode::Unauthorized
    );
    assert_eq!(
        book.deposit_collateral(borrower(), 0).unwrap_err(),
        LoanMarketplaceErrorCode::InvalidParam
    );
    let first = book.deposit_collateral(borrower(), 200_000).unwrap();
    assert_eq!(first.total, 200_000);
    let second = book.deposit_collateral(borrower(), 50_000).unwrap();
    assert_eq!(second.total, 250_000);
    assert_eq!(book.loan.collateral_amount, 250_000);
    assert_eq!(book.escrow.balance, 250_000);
    book.lender_fund(key(2), 1_000_000, NOW).unwrap();
    assert_eq!(
        book.deposit_collateral(borrower(), 1).unwrap_err(),
        LoanMarketplaceErrorCode::InvalidState
    );
}

#[test]
fn finalize_requires_full_funding() {
    let mut book = new_loan(1_000_000);
    book.lender_fund(key(2), 999_999, NOW).unwrap();
    assert_eq!(
        book.finalize_funding().unwrap_err(),
        LoanMarketplaceErrorCode::InsufficientFunding
    );
    assert_eq!(book.loan.state, LoanState::Funding);
    book.lender_fund(key(3), 1, NOW).unwrap();
    assert_eq!(book.finalize_funding().unwrap_err(), LoanMarketplaceErrorCode::InvalidState);
}

#[test]
fn drawdown_checks_borrower_and_state() {
    let mut book = new_loan(1_000_000);
    assert_eq!(book.drawdown(borrower(), NOW).unwrap_err(), LoanMarketplaceErrorCode::InvalidState);
    book.lender_fund(key(2), 1_000_000, NOW).unwrap();
    assert_eq!(book.drawdown(key(2), NOW).unwrap_err(), LoanMarketplaceErrorCode::Unauthorized);
    book.drawdown(borrower(), NOW + 5).unwrap();
    assert_eq!(book.loan.start_ts, NOW + 5);
    assert_eq!(book.loan.last_accrual_ts, NOW + 5);
    assert_eq!(book.drawdown(borrower(), NOW).unwrap_err(), LoanMarketplaceErrorCode::InvalidState);
}

#[test]
fn drawdown_overflowing_due_date_is_rejected() {
    let (mut book, _) =
        LoanBook::create_loan(7, borrower(), 1_000_000, DAY, 100, 0, i64::MAX, i64::MAX - 10)
            .unwrap();
    book.lender_fund(key(2), 1_000_000, i64::MAX - 10).unwrap();
    assert_eq!(
        book.drawdown(borrower(), i64::MAX - 10).unwrap_err(),
        LoanMarketplaceErrorCode::MathOverflow
    );
    assert_eq!(book.loan.state, LoanState::Funded);
}

#[test]
fn repayment_checks() {
    let mut book = drawn_loan();
    assert_eq!(
        book.repay(key(2), 10, NOW + DAY).unwrap_err(),
        LoanMarketplaceErrorCode::Unauthorized
    );
    assert_eq!(
        book.repay(borrower(), 0, NOW + DAY).unwrap_err(),
        LoanMarketplaceErrorCode::InvalidParam
    );
    // more than is owed is refused, with nothing accrued
    assert_eq!(
        book.repay(borrower(), 1_000_001, NOW).unwrap_err(),
        LoanMarketplaceErrorCode::InvalidParam
    );
    assert_eq!(book.loan.last_accrual_ts, NOW);
    assert_eq!(book.escrow.balance, 0);
}

#[test]
fn principal_balance_holds_after_every_repayment() {
    let mut book = drawn_loan();
    let mut when = NOW;
    for amount in [5_000u64, 300_000, 1, 250_000, 100_000].iter() {
        when += 10 * DAY;
        book.repay(borrower(), *amount, when).unwrap();
        check_principal_balance(&book);
    }
    assert!(book.loan.total_repaid_principal > 0);
    assert_eq!(book.loan.state, LoanState::InRepayment);
}

#[test]
fn full_repayment_settles_and_returns_collateral() {
    let mut book = new_loan(1_000_000);
    book.deposit_collateral(borrower(), 300_000).unwrap();
    book.lender_fund(key(2), 1_000_000, NOW).unwrap();
    book.drawdown(borrower(), NOW).unwrap();
    assert_eq!(book.escrow.balance, 300_000);
    // same instant: no interest, exactly the principal is owed
    let (payment, settled) = book.repay(borrower(), 1_000_000, NOW).unwrap();
    assert_eq!(payment.principal_paid, 1_000_000);
    assert_eq!(settled.unwrap().collateral_returned, 300_000);
    assert_eq!(book.loan.state, LoanState::Settled);
    assert_eq!(book.loan.collateral_amount, 0);
    assert_eq!(book.escrow.balance, 1_000_000);
    check_principal_balance(&book);
    assert_eq!(
        book.repay(borrower(), 1, NOW + DAY).unwrap_err(),
        LoanMarketplaceErrorCode::InvalidState
    );
    assert_eq!(
        book.repay(key(9), 0, NOW + DAY).unwrap_err(),
        LoanMarketplaceErrorCode::InvalidState
    );
}

#[test]
fn default_marked_once_after_grace_period() {
    let mut book = drawn_loan();
    let due = book.loan.due_ts;
    assert_eq!(book.mark_default(due).unwrap_err(), LoanMarketplaceErrorCode::TooEarly);
    assert_eq!(book.mark_default(due + 7 * DAY).unwrap_err(), LoanMarketplaceErrorCode::TooEarly);
    let event = book.mark_default(due + 7 * DAY + 1).unwrap();
    assert_eq!(event.outstanding_principal, 1_000_000);
    assert_eq!(book.loan.state, LoanState::Defaulted);
    assert_eq!(
        book.mark_default(due + 8 * DAY).unwrap_err(),
        LoanMarketplaceErrorCode::InvalidState
    );
}

#[test]
fn default_needs_loan_in_repayment() {
    let mut book = new_loan(1_000_000);
    assert_eq!(book.mark_default(NOW + 400 * DAY).unwrap_err(), LoanMarketplaceErrorCode::InvalidState);
}

#[test]
fn default_payout_is_pro_rata_and_claimable_once() {
    let mut book = new_loan(1_000_000);
    book.deposit_collateral(borrower(), 500_000).unwrap();
    book.lender_fund(key(2), 600_000, NOW).unwrap();
    book.lender_fund(key(3), 400_000, NOW).unwrap();
    assert_eq!(book.payout(key(2)).unwrap_err(), LoanMarketplaceErrorCode::InvalidState);
    book.drawdown(borrower(), NOW).unwrap();
    let due = book.loan.due_ts;
    let defaulted = book.mark_default(due + 7 * DAY + 1).unwrap();
    assert_eq!(defaulted.collateral_seized, 500_000);

    let first = book.payout(key(2)).unwrap();
    assert_eq!(first.amount, 300_000);
    assert_eq!(book.shares[0].repaid_principal, 300_000);
    assert_eq!(
        book.payout(key(2)).unwrap_err(),
        LoanMarketplaceErrorCode::AlreadyClaimed
    );
    let second = book.payout(key(3)).unwrap();
    assert_eq!(second.amount, 200_000);
    assert_eq!(book.escrow.balance, 0);
    assert_eq!(
        book.payout(key(3)).unwrap_err(),
        LoanMarketplaceErrorCode::AlreadyClaimed
    );
    assert_eq!(book.payout(key(8)).unwrap_err(), LoanMarketplaceErrorCode::InvalidAccount);
}

#[test]
fn zero_payout_still_counts_as_claimed() {
    let mut book = drawn_loan();
    let due = book.loan.due_ts;
    book.mark_default(due + 7 * DAY + 1).unwrap();
    assert_eq!(book.payout(key(2)).unwrap().amount, 0);
    assert_eq!(
        book.payout(key(2)).unwrap_err(),
        LoanMarketplaceErrorCode::AlreadyClaimed
    );
}

#[test]
fn seized_collateral_is_bounded_by_escrow() {
    let mut book = new_loan(1_000_000);
    book.deposit_collateral(borrower(), 400_000).unwrap();
    book.lender_fund(key(2), 1_000_000, NOW).unwrap();
    book.drawdown(borrower(), NOW).unwrap();
    // the escrow is drained by an outside correction of the record
    book.escrow.balance = 150_000;
    let due = book.loan.due_ts;
    let event = book.mark_default(due + 7 * DAY + 1).unwrap();
    assert_eq!(event.collateral_seized, 150_000);
    assert_eq!(book.payout(key(2)).unwrap().amount, 150_000);
}
