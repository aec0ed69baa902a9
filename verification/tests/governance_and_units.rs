use zk_lending_protocol::encrypted::extract_value_from_encryption;
use zk_lending_protocol::encrypted::has_sufficient_collateral;
use zk_lending_protocol::encrypted::reset_encryption;
use zk_lending_protocol::encrypted::update_encrypted_value;
use zk_lending_protocol::encrypted::verify_zk_proof;
use zk_lending_protocol::encrypted::EncryptedAmount;
use zk_lending_protocol::errors::ZKError;
use zk_lending_protocol::math::calculate_utilization;
use zk_lending_protocol::ops::propose_change;
use zk_lending_protocol::ops::rebalance_collateral;
use zk_lending_protocol::ops::vote;
use zk_lending_protocol::state::BorrowerAccount;
use zk_lending_protocol::state::Governance;
use zk_lending_protocol::state::InstitutionalLendingPool;
use zk_lending_protocol::state::ParticipantKey;

fn voters() -> InstitutionalLendingPool {
    InstitutionalLendingPool {
        pool_owner: ParticipantKey { key: 1 },
        total_liquidity: 0,
        fixed_interest_rate: 3,
        zk_whitelist: vec![ParticipantKey { key: 7 }, ParticipantKey { key: 8 }],
    }
}

fn fresh_governance() -> Governance {
    Governance { proposal_id: 0, proposal_type: 0, new_value: 0, votes: 0 }
}

#[test]
fn propose_change_advances_id_and_resets_tally() {
    let mut governance = Governance { proposal_id: 4, proposal_type: 1, new_value: 10, votes: 3 };
    let r = propose_change(&mut governance, 2, 750);
    assert_eq!(r, Ok(()));
    assert_eq!(governance.proposal_id, 5);
    assert_eq!(governance.proposal_type, 2);
    assert_eq!(governance.new_value, 750);
    assert_eq!(governance.votes, 0);
}

#[test]
fn propose_change_id_overflow_is_rejected() {
    let mut governance = Governance {
        proposal_id: u64::MAX,
        proposal_type: 1,
        new_value: 10,
        votes: 3,
    };
    let r = propose_change(&mut governance, 2, 750);
    assert_eq!(r, Err(ZKError::MathOverflow));
    assert_eq!(governance.proposal_id, u64::MAX);
    assert_eq!(governance.votes, 3);
}

#[test]
fn vote_tallies_up_and_down() {
    let pool = voters();
    let mut governance = fresh_governance();
    propose_change(&mut governance, 1, 42).unwrap();
    assert_eq!(vote(&mut governance, &pool, ParticipantKey { key: 7 }, 1, true), Ok(()));
    assert_eq!(governance.votes, 1);
    assert_eq!(vote(&mut governance, &pool, ParticipantKey { key: 8 }, 1, false), Ok(()));
    assert_eq!(governance.votes, 0);
    assert_eq!(vote(&mut governance, &pool, ParticipantKey { key: 8 }, 1, false), Ok(()));
    assert_eq!(governance.votes, -1);
}

#[test]
fn vote_requires_whitelisted_voter() {
    let pool = voters();
    let mut governance = fresh_governance();
    propose_change(&mut governance, 1, 42).unwrap();
    let r = vote(&mut governance, &pool, ParticipantKey { key: 9 }, 1, true);
    assert_eq!(r, Err(ZKError::UnauthorizedVoter));
    assert_eq!(governance.votes, 0);
}

#[test]
fn vote_on_superseded_proposal_is_rejected() {
    let pool = voters();
    let mut governance = fresh_governance();
    propose_change(&mut governance, 1, 42).unwrap();
    assert_eq!(governance.proposal_id, 1);
    // A new proposal supersedes the first; its id no longer matches.
    propose_change(&mut governance, 2, 43).unwrap();
    let stale = vote(&mut governance, &pool, ParticipantKey { key: 7 }, 1, true);
    assert_eq!(stale, Err(ZKError::InvalidProposal));
    let bogus = vote(&mut governance, &pool, ParticipantKey { key: 7 }, 3, true);
    assert_eq!(bogus, Err(ZKError::InvalidProposal));
    assert_eq!(vote(&mut governance, &pool, ParticipantKey { key: 7 }, 2, true), Ok(()));
}

#[test]
fn vote_tally_overflow_is_rejected() {
    let pool = voters();
    let mut governance = Governance { proposal_id: 1, proposal_type: 0, new_value: 0, votes: i64::MAX };
    let up = vote(&mut governance, &pool, ParticipantKey { key: 7 }, 1, true);
    assert_eq!(up, Err(ZKError::MathOverflow));
    assert_eq!(governance.votes, i64::MAX);

    governance.votes = i64::MIN;
    let down = vote(&mut governance, &pool, ParticipantKey { key: 7 }, 1, false);
    assert_eq!(down, Err(ZKError::MathOverflow));
    assert_eq!(governance.votes, i64::MIN);
}

#[test]
fn rebalance_adds_only_to_the_position() {
    let mut account = BorrowerAccount {
        encrypted_collateral: EncryptedAmount { value: 100 },
        encrypted_borrowed: EncryptedAmount { value: 40 },
        borrow_timestamp: 5,
    };
    let r = rebalance_collateral(&mut account, 25, vec![1]);
    assert_eq!(r, Ok(()));
    assert_eq!(account.encrypted_collateral.value, 125);
    assert_eq!(account.encrypted_borrowed.value, 40);
    assert_eq!(account.borrow_timestamp, 5);
}

#[test]
fn utilization_matches_the_floor_formula() {
    assert_eq!(calculate_utilization(0, 5), 0);
    assert_eq!(calculate_utilization(0, 0), 0);
    assert_eq!(calculate_utilization(5, 0), 0);
    assert_eq!(calculate_utilization(100, 100), 100);
    assert_eq!(calculate_utilization(50, 100), 50);
    assert_eq!(calculate_utilization(199, 100), 199);
    assert_eq!(calculate_utilization(1, 3), 33);
}

#[test]
fn utilization_wraps_at_the_stored_width() {
    // 300 * 100 / 1 == 30000, which the u8 field holds modulo 256.
    assert_eq!(calculate_utilization(300, 1), (30000 % 256) as u8);
}

#[test]
fn encrypted_addition_keeps_value_on_overflow() {
    let full = EncryptedAmount { value: u64::MAX };
    let r = update_encrypted_value(full, 1, true);
    assert_eq!(r.value, u64::MAX);
    let some = EncryptedAmount { value: 10 };
    assert_eq!(update_encrypted_value(some, 5, true).value, 15);
}

#[test]
fn encrypted_subtraction_saturates_at_zero() {
    let small = EncryptedAmount { value: 5 };
    assert_eq!(update_encrypted_value(small, 10, false).value, 0);
    assert_eq!(update_encrypted_value(small, 3, false).value, 2);
}

#[test]
fn encrypted_helpers_expose_the_plain_quantity() {
    let amount = EncryptedAmount { value: 42 };
    assert!(has_sufficient_collateral(amount, 42));
    assert!(!has_sufficient_collateral(amount, 43));
    assert_eq!(extract_value_from_encryption(amount), 42);
    assert_eq!(reset_encryption().value, 0);
    assert!(verify_zk_proof(&vec![1, 2, 3]));
    assert!(verify_zk_proof(&Vec::new()));
}
