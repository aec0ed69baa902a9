//! Accounting and authorization core of an over-collateralized lending
//! protocol.
//!
//! The library is the ledger state machine: collateral staking, three
//! borrowing paths (open, whitelisted-institutional, delegated-credit-line),
//! interest-bearing repayment, partial liquidation, and a minimal governance
//! vote counter.  Every operation is a pure state transition over explicitly
//! passed ledger records; the surrounding runtime locates the records,
//! supplies the current time, and physically moves tokens between escrow
//! accounts when an operation reports success.

pub mod encrypted;
pub mod errors;
pub mod math;
pub mod ops;
pub mod state;
