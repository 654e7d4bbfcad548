use vstd::prelude::*;
use crate::error::LoanMarketplaceErrorCode;

verus! {

/// Seconds in the 365-day year over which an annual rate is spread.
pub const SECONDS_PER_YEAR: u64 = 31_536_000;

/// Basis points in a whole (100%).
pub const BPS_DENOMINATOR: u64 = 10_000;

/// The divisor of the simple-interest formula: basis points times seconds per year.
pub const INTEREST_DIVISOR: u128 = 315_360_000_000;

/// Simple interest owed on `principal` at `apr_bps` over `elapsed` seconds,
/// rounded down; nothing accrues over a non-positive interval.
pub open spec fn interest_due(principal: int, apr_bps: int, elapsed: int) -> int {
    if elapsed <= 0 {
        0
    } else {
        principal * apr_bps * elapsed / (BPS_DENOMINATOR * SECONDS_PER_YEAR) as int
    }
}

/// Whether computing the interest overflows: the 128-bit product of the three
/// factors, or the 64-bit result.
pub open spec fn interest_overflows(principal: int, apr_bps: int, elapsed: int) -> bool {
    elapsed > 0 && (principal * apr_bps * elapsed > u128::MAX || interest_due(
        principal,
        apr_bps,
        elapsed,
    ) > u64::MAX)
}

/// Interest accrued on an outstanding principal over `elapsed_seconds`,
/// computed with 128-bit intermediates; overflow is reported, never wrapped.
pub fn accrue(outstanding_principal: u64, apr_bps: u32, elapsed_seconds: i64) -> (r: Result<
    u64,
    LoanMarketplaceErrorCode,
>)
    ensures
        interest_overflows(outstanding_principal as int, apr_bps as int, elapsed_seconds as int)
            ==> r == Err::<u64, LoanMarketplaceErrorCode>(LoanMarketplaceErrorCode::MathOverflow),
        !interest_overflows(outstanding_principal as int, apr_bps as int, elapsed_seconds as int)
            ==> r == Ok::<u64, LoanMarketplaceErrorCode>(
            interest_due(outstanding_principal as int, apr_bps as int, elapsed_seconds as int)
                as u64,
        ),
{
    if elapsed_seconds <= 0 {
        return Ok(0);
    }
    let p = outstanding_principal as u128;
    let a = apr_bps as u128;
    assert(p * a <= u128::MAX) by (nonlinear_arith)
        requires
            p <= u64::MAX,
            a <= u32::MAX,
    ;
    let pa = p * a;
    match pa.checked_mul(elapsed_seconds as u128) {
        None => Err(LoanMarketplaceErrorCode::MathOverflow),
        Some(x) => {
            let q = x / INTEREST_DIVISOR;
            if q > u64::MAX as u128 {
                Err(LoanMarketplaceErrorCode::MathOverflow)
            } else {
                Ok(q as u64)
            }
        },
    }
}

} // verus!
