//! Ledger arithmetic: the utilization percentage, the borrow fee, and the
//! simple annualized interest formula, each with its mathematical statement.

use vstd::prelude::*;

verus! {

/// Seconds in a 365-day year times 100, the denominator of the interest
/// formula (the rate is a percentage).
pub const INTEREST_RATE_DENOMINATOR: u64 = 31_536_000 * 100;

/// The percentage of pool liquidity currently lent out, as held in the
/// ledger's `u8` field: zero when there is no liquidity, otherwise
/// `⌊loans · 100 / liquidity⌋` reduced modulo 256 to the stored width.
/// The ratio itself is unclamped, so it exceeds 100 when loans exceed
/// liquidity.
pub open spec fn utilization_of(total_loans: u64, total_liquidity: u64) -> u8 {
    if total_liquidity == 0 {
        0u8
    } else {
        ((total_loans * 100 / (total_liquidity as int)) % 256) as u8
    }
}

/// Recomputes the utilization percentage after a ledger change.  Pure: the
/// caller stores the result back into the ledger record.
pub fn calculate_utilization(total_loans: u64, total_liquidity: u64) -> (r: u8)
    ensures
        r == utilization_of(total_loans, total_liquidity),
{
    if total_liquidity == 0 {
        0
    } else {
        let quotient: u128 = (total_loans as u128) * 100 / (total_liquidity as u128);
        (quotient % 256) as u8
    }
}

/// Utilization law: with no liquidity the rate is zero; with liquidity it is
/// exactly the floor of `loans · 100 / liquidity` whenever that ratio fits
/// the stored width.
pub proof fn lemma_utilization_formula(total_loans: u64, total_liquidity: u64)
    ensures
        total_liquidity == 0 ==> utilization_of(total_loans, total_liquidity) == 0,
        total_liquidity > 0 && total_loans * 100 / (total_liquidity as int) < 256 ==> utilization_of(
            total_loans,
            total_liquidity,
        ) == total_loans * 100 / (total_liquidity as int),
{
}

/// The borrow fee and the lender reward skim: one percent, rounded down.
pub open spec fn fee_of(amount: u64) -> int {
    amount as int / 100
}

/// The seconds of interest accrual: the gap from the recorded borrow
/// timestamp to `now`, clamped to zero when no timestamp is recorded or the
/// timestamp lies in the future.
pub open spec fn elapsed_since(now: i64, borrow_timestamp: i64) -> int {
    if borrow_timestamp <= 0 || now < borrow_timestamp {
        0
    } else {
        now - borrow_timestamp
    }
}

/// Simple, non-compounding interest: principal times the percentage rate
/// times the elapsed seconds, annualized over a 365-day year.
pub open spec fn interest_due_on(principal: u64, rate: u8, elapsed: int) -> int {
    principal * rate * elapsed / (INTEREST_RATE_DENOMINATOR as int)
}

/// Whether the checked product chain of the interest computation stays
/// within `u64` at each step.
pub open spec fn interest_fits(principal: u64, rate: u8, elapsed: int) -> bool {
    &&& principal * rate <= u64::MAX
    &&& principal * rate * elapsed <= u64::MAX
}

} // verus!
