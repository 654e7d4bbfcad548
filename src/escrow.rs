use vstd::prelude::*;
use crate::error::LoanMarketplaceErrorCode;

verus! {

/// A custodial balance held on behalf of one loan: lenders' funds, the
/// borrower's collateral and repayments all pass through it.
#[derive(Clone, Copy, Debug, PartialEq, Eq, Structural)]
pub struct Escrow {
    pub balance: u64,
}

/// The escrow after crediting `amount`, or `None` when the balance would overflow.
pub open spec fn deposited(e: Escrow, amount: u64) -> Option<Escrow> {
    if e.balance + amount > u64::MAX {
        None
    } else {
        Some(Escrow { balance: (e.balance + amount) as u64 })
    }
}

/// The escrow after debiting `amount`, or `None` when the balance is short.
pub open spec fn withdrawn(e: Escrow, amount: u64) -> Option<Escrow> {
    if amount > e.balance {
        None
    } else {
        Some(Escrow { balance: (e.balance - amount) as u64 })
    }
}

impl Escrow {
    /// An empty escrow.
    pub fn new() -> (r: Escrow)
        ensures
            r.balance == 0,
    {
        Escrow { balance: 0 }
    }

    /// Credits `amount`; fails with `MathOverflow`, unchanged, when the balance would overflow.
    pub fn deposit(&mut self, amount: u64) -> (r: Result<(), LoanMarketplaceErrorCode>)
        ensures
            match deposited(*old(self), amount) {
                Some(e) => r is Ok && *final(self) == e,
                None => r == Err::<(), LoanMarketplaceErrorCode>(
                    LoanMarketplaceErrorCode::MathOverflow,
                ) && *final(self) == *old(self),
            },
    {
        match self.balance.checked_add(amount) {
            Some(b) => {
                self.balance = b;
                Ok(())
            },
            None => Err(LoanMarketplaceErrorCode::MathOverflow),
        }
    }

    /// Debits `amount`; fails with `InsufficientFunds`, unchanged, when it exceeds the balance.
    pub fn withdraw(&mut self, amount: u64) -> (r: Result<(), LoanMarketplaceErrorCode>)
        ensures
            match withdrawn(*old(self), amount) {
                Some(e) => r is Ok && *final(self) == e,
                None => r == Err::<(), LoanMarketplaceErrorCode>(
                    LoanMarketplaceErrorCode::InsufficientFunds,
                ) && *final(self) == *old(self),
            },
    {
        if amount > self.balance {
            Err(LoanMarketplaceErrorCode::InsufficientFunds)
        } else {
            self.balance = self.balance - amount;
            Ok(())
        }
    }
}

} // verus!
