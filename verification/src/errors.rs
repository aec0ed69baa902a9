//! The error taxonomy of the protocol: the first failing check aborts the
//! whole operation with one of these kinds, and no record is mutated.

use vstd::prelude::*;

verus! {

/// Why an operation was rejected.  An operation either fully applies its
/// updates or returns one of these and leaves every record untouched.
#[derive(Clone, Copy, Debug, PartialEq, Eq, Structural)]
pub enum ZKError {
    /// Proof verification failed.
    InvalidProof,
    /// A checked arithmetic step over- or underflowed.
    MathOverflow,
    /// The borrower's collateral does not cover the requested amount.
    InsufficientCollateral,
    /// The pool does not hold enough liquidity.
    InsufficientLiquidity,
    /// A repayment does not cover principal plus accrued interest.
    RepayExceedsBorrow,
    /// The liquidation conditions are not met.
    LiquidationNotAllowed,
    /// The voter is not on the institutional whitelist.
    UnauthorizedVoter,
    /// The supplied proposal id does not match the live proposal.
    InvalidProposal,
    /// Collateral is still sufficient, so liquidation is not allowed.
    CollateralSufficient,
    /// The minimum dwell time between borrows has not passed.
    CollateralLockTimeNotMet,
    /// The signer may not use this borrowing path.
    UnauthorizedBorrower,
    /// The requested amount exceeds the delegated credit ceiling.
    BorrowLimitExceeded,
}

} // verus!
