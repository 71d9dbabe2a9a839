use transfer_gate::errors::{GateError, IdendityError, RecoveryError};
use transfer_gate::gate::Gate;
use transfer_gate::recovery::{contains_address, quorum_reached};

#[test]
fn contains_address_finds_member() {
    assert!(contains_address(&vec![10, 20, 30], 20));
    assert!(!contains_address(&vec![10, 20, 30], 40));
    assert!(!contains_address(&vec![], 40));
}

#[test]
fn quorum_counts_authorized_signers() {
    assert!(quorum_reached(&vec![10, 20, 30], &vec![20, 10], 2));
    assert!(!quorum_reached(&vec![10, 20, 30], &vec![20, 10], 3));
    assert!(quorum_reached(&vec![10, 20, 30], &vec![30], 1));
}

#[test]
fn quorum_ignores_unauthorized_signers() {
    // Two signatures, but only one from the authorized list.
    assert!(!quorum_reached(&vec![10, 20, 30], &vec![99, 10], 2));
}

#[test]
fn duplicate_authority_entries_reduce_effective_quorum() {
    // The data model does not enforce uniqueness: a duplicated entry is
    // counted once per occurrence.
    assert!(quorum_reached(&vec![10, 10, 10], &vec![10], 3));
}

/// A state with one protected account (100, owned by 1, funded with 77
/// units), an empty account 200 for the would-be new owner, and a recovery
/// delegation of owner 1 to signers 11 and 12 with the given threshold.
fn setup(cooldown: i64, minimum_signatures: u8, now: i64) -> Gate {
    let mut gate = Gate::new(cooldown);
    gate.add_token_account(100);
    gate.add_token_account(200);
    gate.mint_to(100, 77);
    assert_eq!(gate.add_idendity(9, 1, 100, 86400, now), Ok(()));
    gate.initialize_recovery(1, vec![11, 12], minimum_signatures, now);
    gate
}

#[test]
fn recover_rejects_too_few_signatures() {
    let mut gate = setup(0, 2, 0);
    // Two signers, but one is unauthorized: the effective count stays at 1.
    assert_eq!(
        gate.recover_account(1, 200, 100, &vec![99, 11], 10),
        Err(GateError::Recovery(RecoveryError::NotEnoughSignatures))
    );
    // The ledger and the identity record are untouched.
    assert_eq!(gate.ledger.balance_of(100), Some(77));
    assert_eq!(gate.ledger.balance_of(200), Some(0));
    assert!(gate.idendities.get(&100).unwrap().recovered_token_address.is_empty());
}

#[test]
fn recover_rejects_within_cooldown() {
    // The last transfer was at 500 and the quiet period is 1000.
    let mut gate = setup(1000, 1, 500);
    assert_eq!(
        gate.recover_account(1, 200, 100, &vec![11], 600),
        Err(GateError::Recovery(RecoveryError::RecoveryTimeNotPassed))
    );
    assert_eq!(
        gate.recover_account(1, 200, 100, &vec![11], 1501),
        Ok(())
    );
}

#[test]
fn recover_moves_full_balance_and_closes_source() {
    let mut gate = setup(0, 1, 0);
    assert_eq!(gate.recover_account(1, 200, 100, &vec![12], 10), Ok(()));
    // Balance-preserving: the new owner's account holds exactly what the
    // source held before the burn, and the source no longer exists.
    assert_eq!(gate.ledger.balance_of(200), Some(77));
    assert_eq!(gate.ledger.balance_of(100), None);
    assert_eq!(gate.idendities.get(&100).unwrap().recovered_token_address, vec![200]);
}

#[test]
fn recover_twice_rejected_and_keeps_first_redirect() {
    let mut gate = setup(0, 1, 0);
    assert_eq!(gate.recover_account(1, 200, 100, &vec![11], 10), Ok(()));
    // The settlement layer re-creates the source asset account, and another
    // party tries to recover the same identity towards account 300.
    gate.add_token_account(300);
    gate.add_token_account(100);
    assert_eq!(
        gate.recover_account(1, 300, 100, &vec![11, 12], 20),
        Err(GateError::Idendity(IdendityError::IdendityAlreadyRecovered))
    );
    // The redirect still names the address from the first successful call.
    assert_eq!(gate.idendities.get(&100).unwrap().recovered_token_address, vec![200]);
}
