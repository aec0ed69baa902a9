//! The callable operation surface: every state transition that mutates
//! balances or authorizes movement of value.
//!
//! Each operation takes the ledger records it reads and writes as explicit
//! parameters and the current time as a plain value; the surrounding runtime
//! locates the records, serializes overlapping operations, and performs the
//! token movement an operation reports.  An operation either fully applies
//! its updates or returns an error and leaves every record exactly as it
//! found it.

use vstd::prelude::*;
use crate::encrypted::amount_after_add;
use crate::encrypted::amount_after_sub;
use crate::encrypted::extract_value_from_encryption;
use crate::encrypted::has_sufficient_collateral;
use crate::encrypted::reset_encryption;
use crate::encrypted::spec_proof_accepted;
use crate::encrypted::update_encrypted_value;
use crate::encrypted::verify_zk_proof;
use crate::errors::ZKError;
use crate::math::calculate_utilization;
use crate::math::elapsed_since;
use crate::math::fee_of;
use crate::math::interest_due_on;
use crate::math::interest_fits;
use crate::math::utilization_of;
use crate::math::INTEREST_RATE_DENOMINATOR;
use crate::state::BorrowerAccount;
use crate::state::CollateralPool;
use crate::state::DelegatedBorrower;
use crate::state::Governance;
use crate::state::InstitutionalLendingPool;
use crate::state::LendingPool;
use crate::state::ParticipantKey;
use crate::state::ProtocolState;
use crate::state::ProtocolTreasury;

verus! {

/// The base interest rate a fresh protocol starts with, in percent per annum.
pub const DEFAULT_BASE_INTEREST_RATE: u8 = 5;

/// The flash-loan dwell time a fresh protocol starts with, in seconds.
pub const DEFAULT_MIN_COLLATERAL_LOCK_TIME: i64 = 600;

/// Creates the protocol state and treasury singletons: all counters zeroed,
/// the default base interest rate and minimum collateral lock time set.
pub fn initialize(protocol_state: &mut ProtocolState, protocol_treasury: &mut ProtocolTreasury) -> (r:
    Result<(), ZKError>)
    ensures
        r is Ok,
        final(protocol_state).total_collateral == 0,
        final(protocol_state).total_loans == 0,
        final(protocol_state).total_liquidity == 0,
        final(protocol_state).base_interest_rate == DEFAULT_BASE_INTEREST_RATE,
        final(protocol_state).utilization_rate == 0,
        final(protocol_state).min_collateral_lock_time == DEFAULT_MIN_COLLATERAL_LOCK_TIME,
        final(protocol_state).wf(),
        final(protocol_treasury).total_fees_collected == 0,
        final(protocol_treasury).governance_fund == 0,
{
    protocol_state.total_collateral = 0;
    protocol_state.total_loans = 0;
    protocol_state.total_liquidity = 0;
    protocol_state.base_interest_rate = DEFAULT_BASE_INTEREST_RATE;
    protocol_state.utilization_rate = 0;
    protocol_state.min_collateral_lock_time = DEFAULT_MIN_COLLATERAL_LOCK_TIME;

    protocol_treasury.total_fees_collected = 0;
    protocol_treasury.governance_fund = 0;
    Ok(())
}

/// Flash-loan protection: a position with a live borrow timestamp must have
/// dwelt at least the minimum lock time before borrowing again.
pub open spec fn lock_time_ok(acct: BorrowerAccount, min_lock: i64, now: i64) -> bool {
    acct.borrow_timestamp == 0 || now - acct.borrow_timestamp >= min_lock
}

/// Whether the ledger update of a borrow stays within the counters: the
/// treasury fee and the loan total must fit in `u64`, and the liquidity
/// total must cover the amount (its underflow signals pool insolvency and is
/// a hard failure, not a soft rejection).
pub open spec fn borrow_update_fits(ps: ProtocolState, tr: ProtocolTreasury, amount: u64) -> bool {
    &&& tr.total_fees_collected + fee_of(amount) <= u64::MAX
    &&& ps.total_loans + amount <= u64::MAX
    &&& amount <= ps.total_liquidity
}

/// Whether the shared borrow algorithm goes through once the policy check
/// has passed: the flash-loan lock, the collateral cover, and the ledger
/// counters all permit it.
pub open spec fn borrow_applies(
    acct: BorrowerAccount,
    ps: ProtocolState,
    tr: ProtocolTreasury,
    amount: u64,
    now: i64,
) -> bool {
    &&& lock_time_ok(acct, ps.min_collateral_lock_time, now)
    &&& acct.encrypted_collateral.value >= amount
    &&& borrow_update_fits(ps, tr, amount)
}

/// The records after a successful borrow, relative to the records before:
/// the borrow time is recorded, the debt grows by the full principal, the
/// one-percent fee lands in the treasury, loans grow and liquidity shrinks
/// by the amount, and the utilization percentage is recomputed.  Everything
/// else is untouched.
pub open spec fn borrow_applied(
    ba0: BorrowerAccount,
    ba1: BorrowerAccount,
    ps0: ProtocolState,
    ps1: ProtocolState,
    tr0: ProtocolTreasury,
    tr1: ProtocolTreasury,
    amount: u64,
    now: i64,
) -> bool {
    &&& ba1.borrow_timestamp == now
    &&& ba1.encrypted_borrowed.value == amount_after_add(ba0.encrypted_borrowed.value, amount)
    &&& ba1.encrypted_collateral == ba0.encrypted_collateral
    &&& ps1.total_loans == ps0.total_loans + amount
    &&& ps1.total_liquidity == ps0.total_liquidity - amount
    &&& ps1.utilization_rate == utilization_of(ps1.total_loans, ps1.total_liquidity)
    &&& ps1.total_collateral == ps0.total_collateral
    &&& ps1.base_interest_rate == ps0.base_interest_rate
    &&& ps1.min_collateral_lock_time == ps0.min_collateral_lock_time
    &&& tr1.total_fees_collected == tr0.total_fees_collected + fee_of(amount)
    &&& tr1.governance_fund == tr0.governance_fund
}

/// The funds-release, fee, and ledger-update algorithm that the three
/// borrowing paths share, applied after a path's own authorization check.
/// On success the caller owes the borrower a transfer of the returned net
/// amount out of the lending pool escrow.
pub fn apply_borrow(
    borrower_account: &mut BorrowerAccount,
    protocol_state: &mut ProtocolState,
    protocol_treasury: &mut ProtocolTreasury,
    amount: u64,
    now: i64,
) -> (r: Result<u64, ZKError>)
    requires
        old(borrower_account).wf(),
        0 <= now,
    ensures
        r is Ok <==> borrow_applies(
            *old(borrower_account),
            *old(protocol_state),
            *old(protocol_treasury),
            amount,
            now,
        ),
        r == Err::<u64, ZKError>(ZKError::CollateralLockTimeNotMet) <==> !lock_time_ok(
            *old(borrower_account),
            old(protocol_state).min_collateral_lock_time,
            now,
        ),
        r == Err::<u64, ZKError>(ZKError::InsufficientCollateral) <==> lock_time_ok(
            *old(borrower_account),
            old(protocol_state).min_collateral_lock_time,
            now,
        ) && old(borrower_account).encrypted_collateral.value < amount,
        r == Err::<u64, ZKError>(ZKError::MathOverflow) <==> lock_time_ok(
            *old(borrower_account),
            old(protocol_state).min_collateral_lock_time,
            now,
        ) && old(borrower_account).encrypted_collateral.value >= amount && !borrow_update_fits(
            *old(protocol_state),
            *old(protocol_treasury),
            amount,
        ),
        r matches Ok(net) ==> net == amount - fee_of(amount),
        r is Ok ==> borrow_applied(
            *old(borrower_account),
            *final(borrower_account),
            *old(protocol_state),
            *final(protocol_state),
            *old(protocol_treasury),
            *final(protocol_treasury),
            amount,
            now,
        ),
        r is Err ==> *final(borrower_account) == *old(borrower_account) && *final(protocol_state)
            == *old(protocol_state) && *final(protocol_treasury) == *old(protocol_treasury),
        final(borrower_account).wf(),
        r is Ok ==> final(protocol_state).wf(),
{
    // Flash-loan protection: an existing position must have dwelt long
    // enough since its last borrow.
    if borrower_account.borrow_timestamp > 0 {
        if now - borrower_account.borrow_timestamp < protocol_state.min_collateral_lock_time {
            return Err(ZKError::CollateralLockTimeNotMet);
        }
    }

    // Collateral sufficiency.
    if !has_sufficient_collateral(borrower_account.encrypted_collateral, amount) {
        return Err(ZKError::InsufficientCollateral);
    }

    // One percent fee, funded out of pool liquidity: the borrower's recorded
    // debt is the full principal while only the net amount is released.
    let fee: u64 = amount / 100;
    let net_amount: u64 = amount - fee;

    // Every counter update is checked up front so that a failure leaves all
    // records untouched.
    if protocol_treasury.total_fees_collected > u64::MAX - fee {
        return Err(ZKError::MathOverflow);
    }
    if protocol_state.total_loans > u64::MAX - amount {
        return Err(ZKError::MathOverflow);
    }
    if protocol_state.total_liquidity < amount {
        return Err(ZKError::MathOverflow);
    }

    // The borrow time is recorded unconditionally, first borrow included.
    borrower_account.borrow_timestamp = now;
    borrower_account.encrypted_borrowed = update_encrypted_value(
        borrower_account.encrypted_borrowed,
        amount,
        true,
    );
    protocol_treasury.total_fees_collected = protocol_treasury.total_fees_collected + fee;
    protocol_state.total_loans = protocol_state.total_loans + amount;
    protocol_state.total_liquidity = protocol_state.total_liquidity - amount;
    protocol_state.utilization_rate = calculate_utilization(
        protocol_state.total_loans,
        protocol_state.total_liquidity,
    );
    Ok(net_amount)
}

/// The open borrowing path: any signer with sufficient collateral may
/// borrow.  On success the caller owes the borrower a transfer of the
/// returned net amount out of the lending pool escrow.
pub fn borrow(
    borrower_account: &mut BorrowerAccount,
    protocol_state: &mut ProtocolState,
    protocol_treasury: &mut ProtocolTreasury,
    amount: u64,
    zk_proof: Vec<u8>,
    now: i64,
) -> (r: Result<u64, ZKError>)
    requires
        old(borrower_account).wf(),
        0 <= now,
    ensures
        r is Ok <==> spec_proof_accepted(zk_proof@) && borrow_applies(
            *old(borrower_account),
            *old(protocol_state),
            *old(protocol_treasury),
            amount,
            now,
        ),
        r == Err::<u64, ZKError>(ZKError::InvalidProof) <==> !spec_proof_accepted(zk_proof@),
        r == Err::<u64, ZKError>(ZKError::CollateralLockTimeNotMet) <==> spec_proof_accepted(
            zk_proof@,
        ) && !lock_time_ok(
            *old(borrower_account),
            old(protocol_state).min_collateral_lock_time,
            now,
        ),
        r == Err::<u64, ZKError>(ZKError::InsufficientCollateral) <==> spec_proof_accepted(
            zk_proof@,
        ) && lock_time_ok(*old(borrower_account), old(protocol_state).min_collateral_lock_time, now)
            && old(borrower_account).encrypted_collateral.value < amount,
        r == Err::<u64, ZKError>(ZKError::MathOverflow) <==> spec_proof_accepted(zk_proof@)
            && lock_time_ok(*old(borrower_account), old(protocol_state).min_collateral_lock_time, now)
            && old(borrower_account).encrypted_collateral.value >= amount && !borrow_update_fits(
            *old(protocol_state),
            *old(protocol_treasury),
            amount,
        ),
        r matches Ok(net) ==> net == amount - fee_of(amount),
        r is Ok ==> borrow_applied(
            *old(borrower_account),
            *final(borrower_account),
            *old(protocol_state),
            *final(protocol_state),
            *old(protocol_treasury),
            *final(protocol_treasury),
            amount,
            now,
        ),
        r is Err ==> *final(borrower_account) == *old(borrower_account) && *final(protocol_state)
            == *old(protocol_state) && *final(protocol_treasury) == *old(protocol_treasury),
        final(borrower_account).wf(),
        r is Ok ==> final(protocol_state).wf(),
{
    if !verify_zk_proof(&zk_proof) {
        return Err(ZKError::InvalidProof);
    }
    apply_borrow(borrower_account, protocol_state, protocol_treasury, amount, now)
}

/// The institutional borrowing path: only signers on the institutional
/// pool's whitelist may borrow.  On success the caller owes the borrower a
/// transfer of the returned net amount out of the lending pool escrow.
pub fn institutional_borrow(
    borrower_account: &mut BorrowerAccount,
    protocol_state: &mut ProtocolState,
    protocol_treasury: &mut ProtocolTreasury,
    institutional_pool: &InstitutionalLendingPool,
    borrower: ParticipantKey,
    amount: u64,
    zk_proof: Vec<u8>,
    now: i64,
) -> (r: Result<u64, ZKError>)
    requires
        old(borrower_account).wf(),
        0 <= now,
    ensures
        r is Ok <==> spec_proof_accepted(zk_proof@) && institutional_pool.spec_whitelisted(borrower)
            && borrow_applies(
            *old(borrower_account),
            *old(protocol_state),
            *old(protocol_treasury),
            amount,
            now,
        ),
        r == Err::<u64, ZKError>(ZKError::InvalidProof) <==> !spec_proof_accepted(zk_proof@),
        r == Err::<u64, ZKError>(ZKError::UnauthorizedBorrower) <==> spec_proof_accepted(zk_proof@)
            && !institutional_pool.spec_whitelisted(borrower),
        r == Err::<u64, ZKError>(ZKError::CollateralLockTimeNotMet) <==> spec_proof_accepted(
            zk_proof@,
        ) && institutional_pool.spec_whitelisted(borrower) && !lock_time_ok(
            *old(borrower_account),
            old(protocol_state).min_collateral_lock_time,
            now,
        ),
        r == Err::<u64, ZKError>(ZKError::InsufficientCollateral) <==> spec_proof_accepted(
            zk_proof@,
        ) && institutional_pool.spec_whitelisted(borrower) && lock_time_ok(
            *old(borrower_account),
            old(protocol_state).min_collateral_lock_time,
            now,
        ) && old(borrower_account).encrypted_collateral.value < amount,
        r == Err::<u64, ZKError>(ZKError::MathOverflow) <==> spec_proof_accepted(zk_proof@)
            && institutional_pool.spec_whitelisted(borrower) && lock_time_ok(
            *old(borrower_account),
            old(protocol_state).min_collateral_lock_time,
            now,
        ) && old(borrower_account).encrypted_collateral.value >= amount && !borrow_update_fits(
            *old(protocol_state),
            *old(protocol_treasury),
            amount,
        ),
        r matches Ok(net) ==> net == amount - fee_of(amount),
        r is Ok ==> borrow_applied(
            *old(borrower_account),
            *final(borrower_account),
            *old(protocol_state),
            *final(protocol_state),
            *old(protocol_treasury),
            *final(protocol_treasury),
            amount,
            now,
        ),
        r is Err ==> *final(borrower_account) == *old(borrower_account) && *final(protocol_state)
            == *old(protocol_state) && *final(protocol_treasury) == *old(protocol_treasury),
        final(borrower_account).wf(),
        r is Ok ==> final(protocol_state).wf(),
{
    if !verify_zk_proof(&zk_proof) {
        return Err(ZKError::InvalidProof);
    }
    if !institutional_pool.is_whitelisted(borrower) {
        return Err(ZKError::UnauthorizedBorrower);
    }
    apply_borrow(borrower_account, protocol_state, protocol_treasury, amount, now)
}

/// Whether `amount` stays within the delegated credit ceiling.
pub open spec fn within_credit_line(delegated: DelegatedBorrower, amount: u64) -> bool {
    amount <= delegated.max_borrow_amount
}

/// The delegated borrowing path: the credit-line record must name the signer
/// as its delegate, and the amount must not exceed the delegated ceiling.
/// On success the caller owes the borrower a transfer of the returned net
/// amount out of the lending pool escrow.
pub fn delegated_borrow(
    borrower_account: &mut BorrowerAccount,
    protocol_state: &mut ProtocolState,
    protocol_treasury: &mut ProtocolTreasury,
    delegated_borrower: &DelegatedBorrower,
    borrower: ParticipantKey,
    amount: u64,
    zk_proof: Vec<u8>,
    now: i64,
) -> (r: Result<u64, ZKError>)
    requires
        old(borrower_account).wf(),
        0 <= now,
    ensures
        r is Ok <==> spec_proof_accepted(zk_proof@) && delegated_borrower.delegate == borrower
            && within_credit_line(*delegated_borrower, amount) && borrow_applies(
            *old(borrower_account),
            *old(protocol_state),
            *old(protocol_treasury),
            amount,
            now,
        ),
        r == Err::<u64, ZKError>(ZKError::InvalidProof) <==> !spec_proof_accepted(zk_proof@),
        r == Err::<u64, ZKError>(ZKError::UnauthorizedBorrower) <==> spec_proof_accepted(zk_proof@)
            && delegated_borrower.delegate != borrower,
        r == Err::<u64, ZKError>(ZKError::BorrowLimitExceeded) <==> spec_proof_accepted(zk_proof@)
            && delegated_borrower.delegate == borrower && !within_credit_line(
            *delegated_borrower,
            amount,
        ),
        r == Err::<u64, ZKError>(ZKError::CollateralLockTimeNotMet) <==> spec_proof_accepted(
            zk_proof@,
        ) && delegated_borrower.delegate == borrower && within_credit_line(
            *delegated_borrower,
            amount,
        ) && !lock_time_ok(
            *old(borrower_account),
            old(protocol_state).min_collateral_lock_time,
            now,
        ),
        r == Err::<u64, ZKError>(ZKError::InsufficientCollateral) <==> spec_proof_accepted(
            zk_proof@,
        ) && delegated_borrower.delegate == borrower && within_credit_line(
            *delegated_borrower,
            amount,
        ) && lock_time_ok(*old(borrower_account), old(protocol_state).min_collateral_lock_time, now)
            && old(borrower_account).encrypted_collateral.value < amount,
        r == Err::<u64, ZKError>(ZKError::MathOverflow) <==> spec_proof_accepted(zk_proof@)
            && delegated_borrower.delegate == borrower && within_credit_line(
            *delegated_borrower,
            amount,
        ) && lock_time_ok(*old(borrower_account), old(protocol_state).min_collateral_lock_time, now)
            && old(borrower_account).encrypted_collateral.value >= amount && !borrow_update_fits(
            *old(protocol_state),
            *old(protocol_treasury),
            amount,
        ),
        r matches Ok(net) ==> net == amount - fee_of(amount),
        r is Ok ==> borrow_applied(
            *old(borrower_account),
            *final(borrower_account),
            *old(protocol_state),
            *final(protocol_state),
            *old(protocol_treasury),
            *final(protocol_treasury),
            amount,
            now,
        ),
        r is Err ==> *final(borrower_account) == *old(borrower_account) && *final(protocol_state)
            == *old(protocol_state) && *final(protocol_treasury) == *old(protocol_treasury),
        final(borrower_account).wf(),
        r is Ok ==> final(protocol_state).wf(),
{
    if !verify_zk_proof(&zk_proof) {
        return Err(ZKError::InvalidProof);
    }
    if !(delegated_borrower.delegate == borrower) {
        return Err(ZKError::UnauthorizedBorrower);
    }
    if amount > delegated_borrower.max_borrow_amount {
        return Err(ZKError::BorrowLimitExceeded);
    }
    apply_borrow(borrower_account, protocol_state, protocol_treasury, amount, now)
}

/// Whether the checked interest computation of a repayment stays within
/// `u64`: the product chain of the interest formula and the final sum of
/// principal and interest.
pub open spec fn repay_charge_fits(ba: BorrowerAccount, ps: ProtocolState, now: i64) -> bool {
    let principal = ba.encrypted_borrowed.value;
    let rate = ps.base_interest_rate;
    let elapsed = elapsed_since(now, ba.borrow_timestamp);
    &&& interest_fits(principal, rate, elapsed)
    &&& principal + interest_due_on(principal, rate, elapsed) <= u64::MAX
}

/// What a repayment must cover in full: the principal plus the interest
/// accrued since the recorded borrow time.
pub open spec fn repay_total_due(ba: BorrowerAccount, ps: ProtocolState, now: i64) -> int {
    ba.encrypted_borrowed.value + interest_due_on(
        ba.encrypted_borrowed.value,
        ps.base_interest_rate,
        elapsed_since(now, ba.borrow_timestamp),
    )
}

/// Whether the ledger update of a repayment stays within the counters: the
/// lender reward must fit, the loan total must cover the principal, and the
/// liquidity total must fit after the inbound amount.
pub open spec fn repay_update_fits(
    ps: ProtocolState,
    lp: LendingPool,
    amount: u64,
    principal: u64,
) -> bool {
    &&& lp.lender_rewards + fee_of(amount) <= u64::MAX
    &&& principal <= ps.total_loans
    &&& ps.total_liquidity + amount <= u64::MAX
}

/// The records after a successful repayment, relative to the records
/// before: the debt closes in full and the timestamp resets, the lending
/// pool skims one percent of the inbound amount as lender rewards, loans
/// shrink by the principal, liquidity grows by the amount, and the
/// utilization percentage is recomputed.  Everything else is untouched.
pub open spec fn repay_applied(
    ba0: BorrowerAccount,
    ba1: BorrowerAccount,
    ps0: ProtocolState,
    ps1: ProtocolState,
    lp0: LendingPool,
    lp1: LendingPool,
    amount: u64,
) -> bool {
    let principal = ba0.encrypted_borrowed.value;
    &&& ba1.encrypted_borrowed.value == 0
    &&& ba1.borrow_timestamp == 0
    &&& ba1.encrypted_collateral == ba0.encrypted_collateral
    &&& lp1.lender_rewards == lp0.lender_rewards + fee_of(amount)
    &&& lp1.pool_authority == lp0.pool_authority
    &&& lp1.total_liquidity == lp0.total_liquidity
    &&& lp1.base_interest_rate == lp0.base_interest_rate
    &&& lp1.utilization_rate == lp0.utilization_rate
    &&& ps1.total_loans == ps0.total_loans - principal
    &&& ps1.total_liquidity == ps0.total_liquidity + amount
    &&& ps1.utilization_rate == utilization_of(ps1.total_loans, ps1.total_liquidity)
    &&& ps1.total_collateral == ps0.total_collateral
    &&& ps1.base_interest_rate == ps0.base_interest_rate
    &&& ps1.min_collateral_lock_time == ps0.min_collateral_lock_time
}

/// Repays a position in full: the amount must cover the principal plus the
/// interest accrued since the borrow time.  Partial repayment is not
/// supported; on success the debt closes completely and the caller owes the
/// lending pool escrow a transfer of the full amount from the borrower.
pub fn repay(
    borrower_account: &mut BorrowerAccount,
    protocol_state: &mut ProtocolState,
    lending_pool: &mut LendingPool,
    amount: u64,
    now: i64,
) -> (r: Result<(), ZKError>)
    requires
        old(borrower_account).wf(),
        0 <= now,
    ensures
        r is Ok <==> repay_charge_fits(*old(borrower_account), *old(protocol_state), now) && amount
            >= repay_total_due(*old(borrower_account), *old(protocol_state), now)
            && repay_update_fits(
            *old(protocol_state),
            *old(lending_pool),
            amount,
            old(borrower_account).encrypted_borrowed.value,
        ),
        r == Err::<(), ZKError>(ZKError::RepayExceedsBorrow) <==> repay_charge_fits(
            *old(borrower_account),
            *old(protocol_state),
            now,
        ) && amount < repay_total_due(*old(borrower_account), *old(protocol_state), now),
        r == Err::<(), ZKError>(ZKError::MathOverflow) <==> !repay_charge_fits(
            *old(borrower_account),
            *old(protocol_state),
            now,
        ) || (amount >= repay_total_due(*old(borrower_account), *old(protocol_state), now)
            && !repay_update_fits(
            *old(protocol_state),
            *old(lending_pool),
            amount,
            old(borrower_account).encrypted_borrowed.value,
        )),
        r is Ok ==> repay_applied(
            *old(borrower_account),
            *final(borrower_account),
            *old(protocol_state),
            *final(protocol_state),
            *old(lending_pool),
            *final(lending_pool),
            amount,
        ),
        r is Err ==> *final(borrower_account) == *old(borrower_account) && *final(protocol_state)
            == *old(protocol_state) && *final(lending_pool) == *old(lending_pool),
        final(borrower_account).wf(),
        r is Ok ==> final(protocol_state).wf(),
{
    // Seconds of accrual, clamped to zero when no borrow time is recorded
    // or the recorded time lies in the future.
    let ts: i64 = borrower_account.borrow_timestamp;
    let time_elapsed: i64 = if ts <= 0 || now < ts {
        0
    } else {
        now - ts
    };
    let principal: u64 = borrower_account.encrypted_borrowed.value;
    let rate: u64 = protocol_state.base_interest_rate as u64;

    // interest_due = principal * rate * elapsed / (seconds in a year * 100),
    // every intermediate product checked against the `u64` range.
    proof {
        assert((principal as int) * (rate as int) <= (u64::MAX as int) * 255) by (nonlinear_arith)
            requires
                principal <= u64::MAX,
                rate <= 255,
        ;
    }
    let product_rate: u128 = (principal as u128) * (rate as u128);
    if product_rate > u64::MAX as u128 {
        return Err(ZKError::MathOverflow);
    }
    proof {
        assert((product_rate as int) * (time_elapsed as int) <= (u64::MAX as int) * (i64::MAX
            as int)) by (nonlinear_arith)
            requires
                product_rate <= u64::MAX,
                0 <= time_elapsed <= i64::MAX,
        ;
    }
    let product_time: u128 = product_rate * (time_elapsed as u128);
    if product_time > u64::MAX as u128 {
        return Err(ZKError::MathOverflow);
    }
    let interest_due: u64 = (product_time as u64) / INTEREST_RATE_DENOMINATOR;

    if principal > u64::MAX - interest_due {
        return Err(ZKError::MathOverflow);
    }
    let total_due: u64 = principal + interest_due;

    // Repayment must cover principal plus accrued interest in full.
    if amount < total_due {
        return Err(ZKError::RepayExceedsBorrow);
    }

    // One percent of the inbound amount accrues to the lenders.
    let reward: u64 = amount / 100;
    if lending_pool.lender_rewards > u64::MAX - reward {
        return Err(ZKError::MathOverflow);
    }
    if protocol_state.total_loans < principal {
        return Err(ZKError::MathOverflow);
    }
    if protocol_state.total_liquidity > u64::MAX - amount {
        return Err(ZKError::MathOverflow);
    }

    lending_pool.lender_rewards = lending_pool.lender_rewards + reward;
    borrower_account.encrypted_borrowed = reset_encryption();
    borrower_account.borrow_timestamp = 0;
    protocol_state.total_loans = protocol_state.total_loans - principal;
    protocol_state.total_liquidity = protocol_state.total_liquidity + amount;
    protocol_state.utilization_rate = calculate_utilization(
        protocol_state.total_loans,
        protocol_state.total_liquidity,
    );
    Ok(())
}

/// Stakes collateral into a collateral pool.  On success the caller owes
/// the pool escrow a transfer of the amount from the staker; the amount is
/// added to the staker's confidential collateral and to the pool total.
pub fn stake_collateral(
    borrower_account: &mut BorrowerAccount,
    collateral_pool: &mut CollateralPool,
    amount: u64,
    zk_proof: Vec<u8>,
) -> (r: Result<(), ZKError>)
    ensures
        r is Ok <==> spec_proof_accepted(zk_proof@) && old(collateral_pool).total_collateral
            + amount <= u64::MAX,
        r == Err::<(), ZKError>(ZKError::InvalidProof) <==> !spec_proof_accepted(zk_proof@),
        r == Err::<(), ZKError>(ZKError::MathOverflow) <==> spec_proof_accepted(zk_proof@) && old(
            collateral_pool,
        ).total_collateral + amount > u64::MAX,
        r is Ok ==> final(borrower_account).encrypted_collateral.value == amount_after_add(
            old(borrower_account).encrypted_collateral.value,
            amount,
        ),
        r is Ok ==> final(borrower_account).encrypted_borrowed == old(
            borrower_account,
        ).encrypted_borrowed && final(borrower_account).borrow_timestamp == old(
            borrower_account,
        ).borrow_timestamp,
        r is Ok ==> final(collateral_pool).total_collateral == old(
            collateral_pool,
        ).total_collateral + amount,
        r is Ok ==> final(collateral_pool).asset_mint == old(collateral_pool).asset_mint,
        r is Err ==> *final(borrower_account) == *old(borrower_account) && *final(collateral_pool)
            == *old(collateral_pool),
{
    if !verify_zk_proof(&zk_proof) {
        return Err(ZKError::InvalidProof);
    }
    if collateral_pool.total_collateral > u64::MAX - amount {
        return Err(ZKError::MathOverflow);
    }
    borrower_account.encrypted_collateral = update_encrypted_value(
        borrower_account.encrypted_collateral,
        amount,
        true,
    );
    collateral_pool.total_collateral = collateral_pool.total_collateral + amount;
    Ok(())
}

/// Adds collateral to a position without touching the owning pool's total:
/// a rebalance moves value already inside the pool, so only the position's
/// own balance changes.
pub fn rebalance_collateral(
    borrower_account: &mut BorrowerAccount,
    additional_collateral: u64,
    zk_proof: Vec<u8>,
) -> (r: Result<(), ZKError>)
    ensures
        r is Ok <==> spec_proof_accepted(zk_proof@),
        r == Err::<(), ZKError>(ZKError::InvalidProof) <==> !spec_proof_accepted(zk_proof@),
        r is Ok ==> final(borrower_account).encrypted_collateral.value == amount_after_add(
            old(borrower_account).encrypted_collateral.value,
            additional_collateral,
        ),
        r is Ok ==> final(borrower_account).encrypted_borrowed == old(
            borrower_account,
        ).encrypted_borrowed && final(borrower_account).borrow_timestamp == old(
            borrower_account,
        ).borrow_timestamp,
        r is Err ==> *final(borrower_account) == *old(borrower_account),
{
    if !verify_zk_proof(&zk_proof) {
        return Err(ZKError::InvalidProof);
    }
    borrower_account.encrypted_collateral = update_encrypted_value(
        borrower_account.encrypted_collateral,
        additional_collateral,
        true,
    );
    Ok(())
}

/// Partially liquidates an under-collateralized position, seizing half of
/// its collateral from the position and from the pool total.  The
/// insufficiency probe is a zero-amount threshold: only a position whose
/// collateral is already exactly zero is deemed under-collateralized, so a
/// successful liquidation seizes nothing; a debt-to-collateral ratio check
/// is deliberately absent here.  Debt is not touched.
pub fn liquidate(
    borrower_account: &mut BorrowerAccount,
    collateral_pool: &mut CollateralPool,
    zk_proof: Vec<u8>,
) -> (r: Result<(), ZKError>)
    ensures
        r is Ok <==> spec_proof_accepted(zk_proof@) && old(
            borrower_account,
        ).encrypted_collateral.value == 0,
        r == Err::<(), ZKError>(ZKError::InvalidProof) <==> !spec_proof_accepted(zk_proof@),
        r == Err::<(), ZKError>(ZKError::LiquidationNotAllowed) <==> spec_proof_accepted(zk_proof@)
            && old(borrower_account).encrypted_collateral.value > 0,
        r is Ok ==> final(borrower_account).encrypted_collateral.value == amount_after_sub(
            old(borrower_account).encrypted_collateral.value,
            old(borrower_account).encrypted_collateral.value / 2,
        ),
        r is Ok ==> final(borrower_account).encrypted_borrowed == old(
            borrower_account,
        ).encrypted_borrowed && final(borrower_account).borrow_timestamp == old(
            borrower_account,
        ).borrow_timestamp,
        r is Ok ==> final(collateral_pool).total_collateral == old(
            collateral_pool,
        ).total_collateral - old(borrower_account).encrypted_collateral.value / 2,
        r is Ok ==> final(collateral_pool).asset_mint == old(collateral_pool).asset_mint,
        r is Err ==> *final(borrower_account) == *old(borrower_account) && *final(collateral_pool)
            == *old(collateral_pool),
{
    if !verify_zk_proof(&zk_proof) {
        return Err(ZKError::InvalidProof);
    }
    // The zero-amount sufficiency probe: any positive collateral still
    // counts as sufficient.
    let current_collateral: u64 = extract_value_from_encryption(
        borrower_account.encrypted_collateral,
    );
    if current_collateral > 0 {
        return Err(ZKError::LiquidationNotAllowed);
    }

    let liquidate_amount: u64 = current_collateral / 2;
    if collateral_pool.total_collateral < liquidate_amount {
        return Err(ZKError::MathOverflow);
    }
    borrower_account.encrypted_collateral = update_encrypted_value(
        borrower_account.encrypted_collateral,
        liquidate_amount,
        false,
    );
    collateral_pool.total_collateral = collateral_pool.total_collateral - liquidate_amount;
    Ok(())
}

/// Opens a new proposal in the single-slot governance record: the id
/// counter advances, the proposal payload is overwritten, and the tally
/// resets to zero.  Any prior proposal's tally is silently discarded.
pub fn propose_change(governance: &mut Governance, proposal_type: u8, new_value: u64) -> (r: Result<
    (),
    ZKError,
>)
    ensures
        r is Ok <==> old(governance).proposal_id < u64::MAX,
        r == Err::<(), ZKError>(ZKError::MathOverflow) <==> old(governance).proposal_id
            == u64::MAX,
        r is Ok ==> final(governance).proposal_id == old(governance).proposal_id + 1,
        r is Ok ==> final(governance).proposal_type == proposal_type,
        r is Ok ==> final(governance).new_value == new_value,
        r is Ok ==> final(governance).votes == 0,
        r is Err ==> *final(governance) == *old(governance),
{
    if governance.proposal_id == u64::MAX {
        return Err(ZKError::MathOverflow);
    }
    governance.proposal_id = governance.proposal_id + 1;
    governance.proposal_type = proposal_type;
    governance.new_value = new_value;
    governance.votes = 0;
    Ok(())
}

/// Casts a vote on the live proposal.  Only whitelisted voters may vote;
/// the supplied id must match the live proposal's id, which also rejects
/// votes against a superseded proposal.  An approval adds one to the signed
/// tally, a rejection subtracts one.
pub fn vote(
    governance: &mut Governance,
    institutional_pool: &InstitutionalLendingPool,
    voter: ParticipantKey,
    proposal_id: u64,
    approve: bool,
) -> (r: Result<(), ZKError>)
    ensures
        r is Ok <==> institutional_pool.spec_whitelisted(voter) && old(governance).proposal_id
            == proposal_id && (if approve {
            old(governance).votes < i64::MAX
        } else {
            old(governance).votes > i64::MIN
        }),
        r == Err::<(), ZKError>(ZKError::UnauthorizedVoter) <==> !institutional_pool
            .spec_whitelisted(voter),
        r == Err::<(), ZKError>(ZKError::InvalidProposal) <==> institutional_pool.spec_whitelisted(
            voter,
        ) && old(governance).proposal_id != proposal_id,
        r == Err::<(), ZKError>(ZKError::MathOverflow) <==> institutional_pool.spec_whitelisted(
            voter,
        ) && old(governance).proposal_id == proposal_id && (if approve {
            old(governance).votes == i64::MAX
        } else {
            old(governance).votes == i64::MIN
        }),
        r is Ok ==> final(governance).votes == old(governance).votes + (if approve {
            1int
        } else {
            -1int
        }),
        r is Ok ==> final(governance).proposal_id == old(governance).proposal_id
            && final(governance).proposal_type == old(governance).proposal_type
            && final(governance).new_value == old(governance).new_value,
        r is Err ==> *final(governance) == *old(governance),
{
    if !institutional_pool.is_whitelisted(voter) {
        return Err(ZKError::UnauthorizedVoter);
    }
    if governance.proposal_id != proposal_id {
        return Err(ZKError::InvalidProposal);
    }
    if approve {
        if governance.votes == i64::MAX {
            return Err(ZKError::MathOverflow);
        }
        governance.votes = governance.votes + 1;
    } else {
        if governance.votes == i64::MIN {
            return Err(ZKError::MathOverflow);
        }
        governance.votes = governance.votes - 1;
    }
    Ok(())
}

/// Conservation law for borrowing: a successful borrow moves exactly the
/// requested amount out of the liquidity total and into the loan total.
pub proof fn lemma_borrow_conservation(
    ba0: BorrowerAccount,
    ba1: BorrowerAccount,
    ps0: ProtocolState,
    ps1: ProtocolState,
    tr0: ProtocolTreasury,
    tr1: ProtocolTreasury,
    amount: u64,
    now: i64,
)
    requires
        borrow_applied(ba0, ba1, ps0, ps1, tr0, tr1, amount, now),
    ensures
        ps1.total_loans - ps0.total_loans == amount,
        ps0.total_liquidity - ps1.total_liquidity == amount,
{
}

/// Conservation law for repayment: a successful repayment removes exactly
/// the old principal from the loan total and adds the full inbound amount
/// to the liquidity total.
pub proof fn lemma_repay_conservation(
    ba0: BorrowerAccount,
    ba1: BorrowerAccount,
    ps0: ProtocolState,
    ps1: ProtocolState,
    lp0: LendingPool,
    lp1: LendingPool,
    amount: u64,
)
    requires
        repay_applied(ba0, ba1, ps0, ps1, lp0, lp1, amount),
    ensures
        ps0.total_loans - ps1.total_loans == ba0.encrypted_borrowed.value,
        ps1.total_liquidity - ps0.total_liquidity == amount,
{
}

/// Flash-loan lock law: after a borrow recorded at `first_now`, a second
/// attempt at `second_now` passes the dwell check exactly when the gap has
/// reached the minimum lock time.
pub proof fn lemma_flash_loan_lock(
    acct: BorrowerAccount,
    min_lock: i64,
    first_now: i64,
    second_now: i64,
)
    requires
        acct.borrow_timestamp == first_now,
        0 < first_now,
    ensures
        lock_time_ok(acct, min_lock, second_now) <==> second_now - first_now >= min_lock,
{
}

/// Delegated ceiling law: the ceiling itself may be drawn in full, and one
/// unit above it may not.
pub proof fn lemma_delegated_ceiling(delegated: DelegatedBorrower)
    ensures
        within_credit_line(delegated, delegated.max_borrow_amount),
        delegated.max_borrow_amount < u64::MAX ==> !within_credit_line(
            delegated,
            (delegated.max_borrow_amount + 1) as u64,
        ),
{
}

/// Governance supersession law: opening a new proposal advances the id, so
/// no id of a prior proposal (each at most the superseded id) matches the
/// live one, and a vote carrying it is rejected.
pub proof fn lemma_proposal_supersession(superseded: Governance, live: Governance, stale_id: u64)
    requires
        live.proposal_id == superseded.proposal_id + 1,
        stale_id <= superseded.proposal_id,
    ensures
        stale_id != live.proposal_id,
{
}

} // verus!
