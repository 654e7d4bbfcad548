use loans_marketplace::error::LoanMarketplaceErrorCode;
use loans_marketplace::escrow::Escrow;
use loans_marketplace::interest::accrue;
use loans_marketplace::key::AccountKey;
use loans_marketplace::ledger::{assign_pro_rata, contribution_bps, credit_share, find_share};
use loans_marketplace::state::{Config, LenderShare, LoanAccount, LoanState};
use loans_marketplace::waterfall::apply_payment;

fn key(b: u8) -> AccountKey {
    AccountKey::new([b; 32])
}

fn share(lender: u8, principal: u64) -> LenderShare {
    LenderShare {
        lender: key(lender),
        loan: 1,
        principal,
        repaid_principal: 0,
        repaid_interest: 0,
        pro_rata_bps: 0,
        payout_claimed: false,
    }
}

fn loan_owing(accrued_interest: u64, outstanding_principal: u64) -> LoanAccount {
    LoanAccount {
        borrower: key(1),
        loan_id: 1,
        amount: 1_000_000,
        term_secs: 86_400,
        max_apr_bps: 1000,
        min_collateral_bps: 0,
        funding_deadline: 0,
        state: LoanState::InRepayment,
        funded_amount: 1_000_000,
        collateral_amount: 0,
        actual_apr_bps: 1000,
        start_ts: 0,
        due_ts: 86_400,
        last_accrual_ts: 0,
        accrued_interest,
        outstanding_principal,
        total_repaid_principal: 1_000_000 - outstanding_principal,
        total_repaid_interest: 0,
    }
}

#[test]
fn accrue_thirty_days_at_twelve_percent() {
    assert_eq!(accrue(1_000_000, 1200, 2_592_000), Ok(9_863));
}

#[test]
fn accrue_full_year_is_the_rate() {
    assert_eq!(accrue(1_000_000, 1200, 31_536_000), Ok(120_000));
    assert_eq!(accrue(10_000, 10_000, 31_536_000), Ok(10_000));
}

#[test]
fn accrue_nothing_without_elapsed_time() {
    assert_eq!(accrue(1_000_000, 1200, 0), Ok(0));
    assert_eq!(accrue(1_000_000, 1200, -5), Ok(0));
    assert_eq!(accrue(0, 1200, 1_000), Ok(0));
}

#[test]
fn accrue_rounds_down() {
    // 1 * 1 * 315_359_999_999 / 315_360_000_000 < 1
    assert_eq!(accrue(1, 1, 315_359_999_999), Ok(0));
    assert_eq!(accrue(1, 1, 315_360_000_000), Ok(1));
}

#[test]
fn accrue_overflow_is_reported() {
    assert_eq!(
        accrue(u64::MAX, u32::MAX, i64::MAX),
        Err(LoanMarketplaceErrorCode::MathOverflow)
    );
    // the 128-bit product fits but the result does not fit 64 bits
    assert_eq!(
        accrue(u64::MAX, 10_000, 31_536_000 * 2),
        Err(LoanMarketplaceErrorCode::MathOverflow)
    );
    assert_eq!(accrue(u64::MAX, 10_000, 31_536_000), Ok(u64::MAX));
}

#[test]
fn escrow_deposit_and_withdraw() {
    let mut e = Escrow::new();
    assert_eq!(e.deposit(500), Ok(()));
    assert_eq!(e.withdraw(200), Ok(()));
    assert_eq!(e.balance, 300);
    assert_eq!(e.withdraw(301), Err(LoanMarketplaceErrorCode::InsufficientFunds));
    assert_eq!(e.balance, 300);
    assert_eq!(e.withdraw(300), Ok(()));
    assert_eq!(e.balance, 0);
}

#[test]
fn escrow_deposit_overflow_is_reported() {
    let mut e = Escrow { balance: u64::MAX - 1 };
    assert_eq!(e.deposit(2), Err(LoanMarketplaceErrorCode::MathOverflow));
    assert_eq!(e.balance, u64::MAX - 1);
    assert_eq!(e.deposit(1), Ok(()));
    assert_eq!(e.balance, u64::MAX);
}

#[test]
fn waterfall_pays_interest_before_principal() {
    let mut loan = loan_owing(500, 10_000);
    let split = apply_payment(&mut loan, 2_000).unwrap();
    assert_eq!(split.interest_paid, 500);
    assert_eq!(split.principal_paid, 1_500);
    assert_eq!(loan.accrued_interest, 0);
    assert_eq!(loan.outstanding_principal, 8_500);
    assert_eq!(loan.total_repaid_interest, 500);
    assert_eq!(loan.total_repaid_principal, 991_500);
}

#[test]
fn waterfall_partial_interest_only() {
    let mut loan = loan_owing(500, 10_000);
    let split = apply_payment(&mut loan, 200).unwrap();
    assert_eq!(split.interest_paid, 200);
    assert_eq!(split.principal_paid, 0);
    assert_eq!(loan.accrued_interest, 300);
    assert_eq!(loan.outstanding_principal, 10_000);
}

#[test]
fn waterfall_does_not_absorb_excess() {
    let mut loan = loan_owing(10, 20);
    let split = apply_payment(&mut loan, 100).unwrap();
    assert_eq!(split.interest_paid, 10);
    assert_eq!(split.principal_paid, 20);
    assert_eq!(loan.accrued_interest, 0);
    assert_eq!(loan.outstanding_principal, 0);
}

#[test]
fn waterfall_overflow_leaves_loan_unchanged() {
    let mut loan = loan_owing(10, 20);
    loan.total_repaid_interest = u64::MAX - 5;
    assert_eq!(apply_payment(&mut loan, 10), Err(LoanMarketplaceErrorCode::MathOverflow));
    assert_eq!(loan.accrued_interest, 10);
    assert_eq!(loan.total_repaid_interest, u64::MAX - 5);
}

#[test]
fn contribution_bps_rounds_down() {
    assert_eq!(contribution_bps(1, 3), 3333);
    assert_eq!(contribution_bps(2, 3), 6666);
    assert_eq!(contribution_bps(3, 3), 10_000);
    assert_eq!(contribution_bps(0, 3), 0);
}

#[test]
fn credit_share_opens_then_grows() {
    let mut shares: Vec<LenderShare> = Vec::new();
    credit_share(&mut shares, 1, key(2), 100);
    credit_share(&mut shares, 1, key(3), 50);
    credit_share(&mut shares, 1, key(2), 25);
    assert_eq!(shares.len(), 2);
    assert_eq!(shares[0].principal, 125);
    assert_eq!(shares[1].principal, 50);
    assert_eq!(find_share(&shares, &key(3)), Some(1));
    assert_eq!(find_share(&shares, &key(4)), None);
}

#[test]
fn assign_pro_rata_single_lender_gets_whole() {
    let out = assign_pro_rata(&vec![share(2, 777)], 777);
    assert_eq!(out[0].pro_rata_bps, 10_000);
    assert_eq!(out[0].principal, 777);
}

#[test]
fn assign_pro_rata_ties_go_to_first() {
    let out = assign_pro_rata(&vec![share(2, 1), share(3, 1), share(4, 1)], 3);
    let parts: Vec<u32> = out.iter().map(|s| s.pro_rata_bps).collect();
    assert_eq!(parts, vec![3334, 3333, 3333]);
}

#[test]
fn config_fee_is_capped() {
    let c = Config::init_config(key(1), 1000, key(5)).unwrap();
    assert_eq!(c.fee_bps, 1000);
    assert_eq!(c.admin, key(1));
    assert!(matches!(
        Config::init_config(key(1), 1001, key(5)),
        Err(LoanMarketplaceErrorCode::InvalidParam)
    ));
}

#[test]
fn account_keys_compare_by_bytes() {
    let mut b = [7u8; 32];
    assert!(key(7).same(&AccountKey::new(b)));
    b[31] = 8;
    assert!(!key(7).same(&AccountKey::new(b)));
    assert!(key(7) != AccountKey::new(b));
}

