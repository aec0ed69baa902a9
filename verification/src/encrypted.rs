//! The confidential-balance placeholder: an unsigned quantity behind an
//! "encrypted amount" wrapper.  The value is plaintext internally, but call
//! sites only go through the operations here, so a real confidential
//! arithmetic backend can be swapped in later without touching them.

use vstd::prelude::*;

verus! {

/// A confidential balance.  Never negative: subtraction saturates at zero,
/// and an addition that would overflow leaves the balance unchanged.
#[derive(Clone, Copy, Debug, PartialEq, Eq, Structural)]
pub struct EncryptedAmount {
    pub value: u64,
}

/// The balance after `amount` is added: the sum when it fits in a `u64`,
/// the old balance unchanged otherwise.
pub open spec fn amount_after_add(current: u64, amount: u64) -> u64 {
    if current + amount <= u64::MAX {
        (current + amount) as u64
    } else {
        current
    }
}

/// The balance after `amount` is subtracted, saturating at zero.
pub open spec fn amount_after_sub(current: u64, amount: u64) -> u64 {
    if amount <= current {
        (current - amount) as u64
    } else {
        0u64
    }
}

/// Whether a proof is accepted by the verification placeholder: every proof
/// is, until a real proof system replaces the stub below.
pub open spec fn spec_proof_accepted(zk_proof: Seq<u8>) -> bool {
    true
}

/// Proof verification placeholder; accepts every proof.
pub fn verify_zk_proof(zk_proof: &Vec<u8>) -> (r: bool)
    ensures
        r == spec_proof_accepted(zk_proof@),
{
    true
}

/// Applies a confidential balance update: adds `amount` when `add` is set
/// (keeping the current balance if the sum would overflow), otherwise
/// subtracts `amount`, saturating at zero.
pub fn update_encrypted_value(current: EncryptedAmount, amount: u64, add: bool) -> (r: EncryptedAmount)
    ensures
        add ==> r.value == amount_after_add(current.value, amount),
        !add ==> r.value == amount_after_sub(current.value, amount),
{
    if add {
        if amount <= u64::MAX - current.value {
            EncryptedAmount { value: current.value + amount }
        } else {
            EncryptedAmount { value: current.value }
        }
    } else {
        if amount <= current.value {
            EncryptedAmount { value: current.value - amount }
        } else {
            EncryptedAmount { value: 0 }
        }
    }
}

/// Compares a confidential balance against a plain threshold.
pub fn has_sufficient_collateral(encrypted_collateral: EncryptedAmount, amount: u64) -> (r: bool)
    ensures
        r == (encrypted_collateral.value >= amount),
{
    encrypted_collateral.value >= amount
}

/// A fresh zero balance.
pub fn reset_encryption() -> (r: EncryptedAmount)
    ensures
        r.value == 0,
{
    EncryptedAmount { value: 0 }
}

/// Reads the plain quantity out of a confidential balance.
pub fn extract_value_from_encryption(encrypted: EncryptedAmount) -> (r: u64)
    ensures
        r == encrypted.value,
{
    encrypted.value
}

} // verus!
