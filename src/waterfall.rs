use vstd::prelude::*;
use crate::error::LoanMarketplaceErrorCode;
use crate::state::LoanAccount;

verus! {

/// The part of a payment that goes to accrued interest.
pub open spec fn interest_part(loan: LoanAccount, amount: u64) -> int {
    if amount < loan.accrued_interest {
        amount as int
    } else {
        loan.accrued_interest as int
    }
}

/// The part of a payment that goes to principal, after interest.
pub open spec fn principal_part(loan: LoanAccount, amount: u64) -> int {
    let rest = amount - interest_part(loan, amount);
    if rest < loan.outstanding_principal {
        rest
    } else {
        loan.outstanding_principal as int
    }
}

/// The loan after a payment of `amount`: interest first, then principal.
/// What exceeds both is not absorbed. Fails with `MathOverflow` when a
/// repaid total would overflow.
pub open spec fn paid(loan: LoanAccount, amount: u64) -> Result<LoanAccount, LoanMarketplaceErrorCode> {
    let i = interest_part(loan, amount);
    let p = principal_part(loan, amount);
    if loan.total_repaid_interest + i > u64::MAX || loan.total_repaid_principal + p > u64::MAX {
        Err(LoanMarketplaceErrorCode::MathOverflow)
    } else {
        Ok(
            LoanAccount {
                accrued_interest: (loan.accrued_interest - i) as u64,
                total_repaid_interest: (loan.total_repaid_interest + i) as u64,
                outstanding_principal: (loan.outstanding_principal - p) as u64,
                total_repaid_principal: (loan.total_repaid_principal + p) as u64,
                ..loan
            },
        )
    }
}

/// How one payment was split.
#[derive(Clone, Copy, Debug, PartialEq, Eq, Structural)]
pub struct PaymentSplit {
    pub interest_paid: u64,
    pub principal_paid: u64,
}

/// Applies a payment to the loan's balances, interest before principal, and
/// says how it was split. On failure the loan is unchanged.
pub fn apply_payment(loan: &mut LoanAccount, amount: u64) -> (r: Result<
    PaymentSplit,
    LoanMarketplaceErrorCode,
>)
    ensures
        match paid(*old(loan), amount) {
            Ok(l) => *final(loan) == l && r == Ok::<PaymentSplit, LoanMarketplaceErrorCode>(
                PaymentSplit {
                    interest_paid: interest_part(*old(loan), amount) as u64,
                    principal_paid: principal_part(*old(loan), amount) as u64,
                },
            ),
            Err(e) => *final(loan) == *old(loan) && r == Err::<
                PaymentSplit,
                LoanMarketplaceErrorCode,
            >(e),
        },
{
    let pay_interest = if amount < loan.accrued_interest {
        amount
    } else {
        loan.accrued_interest
    };
    let rest = amount - pay_interest;
    let pay_principal = if rest < loan.outstanding_principal {
        rest
    } else {
        loan.outstanding_principal
    };
    let new_interest_total = match loan.total_repaid_interest.checked_add(pay_interest) {
        Some(v) => v,
        None => return Err(LoanMarketplaceErrorCode::MathOverflow),
    };
    let new_principal_total = match loan.total_repaid_principal.checked_add(pay_principal) {
        Some(v) => v,
        None => return Err(LoanMarketplaceErrorCode::MathOverflow),
    };
    loan.accrued_interest = loan.accrued_interest - pay_interest;
    loan.total_repaid_interest = new_interest_total;
    loan.outstanding_principal = loan.outstanding_principal - pay_principal;
    loan.total_repaid_principal = new_principal_total;
    Ok(PaymentSplit { interest_paid: pay_interest, principal_paid: pay_principal })
}

} // verus!
