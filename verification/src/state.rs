//! The ledger records: durable, independently addressable pieces of protocol
//! state.  Each record is exclusively owned by the ledger; participant
//! identities are external keys, never owned by it.

use vstd::prelude::*;
use crate::encrypted::EncryptedAmount;
use crate::math::utilization_of;

verus! {

/// A participant identity: an external key held by the surrounding runtime.
/// The ledger only ever compares keys for equality.
#[derive(Clone, Copy, Debug, PartialEq, Eq, Structural)]
pub struct ParticipantKey {
    pub key: u64,
}

/// Global protocol state, a singleton mutated by every borrow and repay.
#[derive(Clone, Copy, Debug, PartialEq, Eq, Structural)]
pub struct ProtocolState {
    pub total_collateral: u64,
    pub total_loans: u64,
    pub total_liquidity: u64,
    /// Percent per annum.
    pub base_interest_rate: u8,
    /// Percent, derived from loans and liquidity.
    pub utilization_rate: u8,
    /// Minimum dwell time between borrows, in seconds.
    pub min_collateral_lock_time: i64,
}

impl ProtocolState {
    /// The derived utilization percentage is consistent with the loan and
    /// liquidity aggregates.
    pub open spec fn wf(self) -> bool {
        self.utilization_rate == utilization_of(self.total_loans, self.total_liquidity)
    }
}

/// Treasury singleton collecting the borrow fees.
#[derive(Clone, Copy, Debug, PartialEq, Eq, Structural)]
pub struct ProtocolTreasury {
    pub total_fees_collected: u64,
    pub governance_fund: u64,
}

/// A pool of liquidity available to be borrowed, with its own escrow.
#[derive(Clone, Copy, Debug, PartialEq, Eq, Structural)]
pub struct LendingPool {
    pub pool_authority: ParticipantKey,
    pub total_liquidity: u64,
    pub base_interest_rate: u8,
    pub utilization_rate: u8,
    pub lender_rewards: u64,
}

/// Aggregate holding of one accepted collateral asset.
#[derive(Clone, Copy, Debug, PartialEq, Eq, Structural)]
pub struct CollateralPool {
    pub asset_mint: ParticipantKey,
    pub total_collateral: u64,
}

/// An institutional pool: a read-only gate for the institutional borrowing
/// path and for voting eligibility.
#[derive(Clone, Debug)]
pub struct InstitutionalLendingPool {
    pub pool_owner: ParticipantKey,
    pub total_liquidity: u64,
    pub fixed_interest_rate: u8,
    pub zk_whitelist: Vec<ParticipantKey>,
}

impl InstitutionalLendingPool {
    /// Whether `who` is on the whitelist.
    pub open spec fn spec_whitelisted(self, who: ParticipantKey) -> bool {
        self.zk_whitelist@.contains(who)
    }

    /// Scans the whitelist for `who`.
    pub fn is_whitelisted(&self, who: ParticipantKey) -> (r: bool)
        ensures
            r == self.spec_whitelisted(who),
    {
        let mut i: usize = 0;
        while i < self.zk_whitelist.len()
            invariant
                0 <= i <= self.zk_whitelist.len(),
                forall|j: int| 0 <= j < i ==> self.zk_whitelist@[j] != who,
            decreases self.zk_whitelist.len() - i,
        {
            if self.zk_whitelist[i] == who {
                return true;
            }
            i += 1;
        }
        false
    }
}

/// A participant's position: confidential collateral and debt balances plus
/// the flash-loan lock timestamp.
#[derive(Clone, Copy, Debug, PartialEq, Eq, Structural)]
pub struct BorrowerAccount {
    pub encrypted_collateral: EncryptedAmount,
    pub encrypted_borrowed: EncryptedAmount,
    /// Zero when no borrow is live, otherwise the time of the last borrow.
    pub borrow_timestamp: i64,
}

impl BorrowerAccount {
    /// The timestamp is never negative: it is either zero or a time the
    /// clock reported.
    pub open spec fn wf(self) -> bool {
        0 <= self.borrow_timestamp
    }
}

/// A reputation record, tracked but not consumed by any transition here:
/// a reserved extension point.
#[derive(Clone, Copy, Debug, PartialEq, Eq, Structural)]
pub struct BorrowerReputation {
    pub borrower: ParticipantKey,
    pub zk_reputation_score: u64,
}

/// The single-slot governance record: one live proposal at a time.
#[derive(Clone, Copy, Debug, PartialEq, Eq, Structural)]
pub struct Governance {
    /// Monotonic counter; a new proposal supersedes the old one.
    pub proposal_id: u64,
    pub proposal_type: u8,
    pub new_value: u64,
    /// Signed tally: approvals minus rejections.
    pub votes: i64,
}

/// A capability record granting `delegate` the right to draw against
/// `delegator`'s credit line up to a ceiling.  Immutable once created.
#[derive(Clone, Copy, Debug, PartialEq, Eq, Structural)]
pub struct DelegatedBorrower {
    pub delegator: ParticipantKey,
    pub delegate: ParticipantKey,
    pub max_borrow_amount: u64,
}

} // verus!
