use transfer_gate::errors::{GateError, IdendityError, TwoAuthError};
use transfer_gate::gate::Gate;
use transfer_gate::two_auth::{TransactionRepresentation, TwoAuthFunction};

/// Accounts A (100, owner 1) and B (200, owner 2), both with active
/// identities of one day's validity issued at time 0; A is funded and put
/// under the step-up policy `[OnMax { max: 1000 }]` with approving party 55.
fn setup() -> Gate {
    let mut gate = Gate::new(0);
    gate.add_token_account(100);
    gate.add_token_account(200);
    gate.mint_to(100, 5000);
    assert_eq!(gate.add_idendity(9, 1, 100, 86400, 0), Ok(()));
    assert_eq!(gate.add_idendity(9, 2, 200, 86400, 0), Ok(()));
    gate.initialize_recovery(1, vec![11, 12], 1, 0);
    gate.initialize_two_auth(1, 100, 55, vec![TwoAuthFunction::OnMax { max: 1000 }], vec![]);
    gate
}

#[test]
fn end_to_end_scenario() {
    let mut gate = setup();

    // A small transfer passes without step-up and updates the last activity.
    assert_eq!(gate.transfer_hook(1, 100, 200, 50, 10), Ok(()));
    assert_eq!(gate.last_tx.get(&1).unwrap().last_tx_timestamp, 10);

    // A large transfer needs an approval; none is present.
    assert_eq!(
        gate.transfer_hook(1, 100, 200, 2000, 20),
        Err(GateError::TwoAuth(TwoAuthError::NotAuthorized))
    );

    // The approving party approves exactly this transaction.
    let transaction =
        TransactionRepresentation { source: 100, destination: 200, amount: 2000, time: 20 };
    assert_eq!(gate.approve_transaction(55, 1, 100, transaction), Ok(()));

    // Retrying the same transfer now succeeds and consumes the approval.
    assert_eq!(gate.transfer_hook(1, 100, 200, 2000, 30), Ok(()));
    assert!(!gate.approvals.get(&1).unwrap().active);
    assert_eq!(gate.last_tx.get(&1).unwrap().last_tx_timestamp, 30);

    // A third attempt fails: the approval was already consumed.
    assert_eq!(
        gate.transfer_hook(1, 100, 200, 2000, 40),
        Err(GateError::TwoAuth(TwoAuthError::NotAuthorized))
    );
}

#[test]
fn transfer_rejects_expired_sender() {
    let mut gate = setup();
    // The sender's attestation expires at 86400.
    assert_eq!(
        gate.transfer_hook(1, 100, 200, 50, 86401),
        Err(GateError::Idendity(IdendityError::IdendityExpired))
    );
    // Nothing was recorded.
    assert_eq!(gate.last_tx.get(&1).unwrap().last_tx_timestamp, 0);
}

#[test]
fn transfer_rejects_inactive_receiver() {
    let mut gate = setup();
    gate.idendities.get_mut(&200).unwrap().issuers[0].active = false;
    assert_eq!(
        gate.transfer_hook(1, 100, 200, 50, 10),
        Err(GateError::Idendity(IdendityError::IdendityNotActive))
    );
}

#[test]
fn transfer_from_recovered_account_must_target_redirect() {
    let mut gate = setup();
    // A third protected account C the sender might try instead.
    gate.add_token_account(300);
    assert_eq!(gate.add_idendity(9, 3, 300, 86400, 0), Ok(()));
    // Recover A towards B.
    assert_eq!(gate.recover_account(1, 200, 100, &vec![11], 5), Ok(()));
    // A transfer from A anywhere but to the redirect is rejected.
    assert_eq!(
        gate.transfer_hook(1, 100, 300, 50, 10),
        Err(GateError::Idendity(IdendityError::IdendityRecovered))
    );
    // Towards the redirect it passes the redirect check (and no step-up is
    // needed for a small amount).
    assert_eq!(gate.transfer_hook(1, 100, 200, 50, 10), Ok(()));
}

#[test]
fn approve_requires_designated_party() {
    let mut gate = setup();
    let transaction =
        TransactionRepresentation { source: 100, destination: 200, amount: 2000, time: 20 };
    assert_eq!(gate.approve_transaction(99, 1, 100, transaction), Err(TwoAuthError::NotAuthorized));
    assert!(!gate.approvals.get(&1).unwrap().active);
}

#[test]
fn approval_expires_after_validity_window() {
    let mut gate = setup();
    let transaction =
        TransactionRepresentation { source: 100, destination: 200, amount: 2000, time: 20 };
    assert_eq!(gate.approve_transaction(55, 1, 100, transaction), Ok(()));
    // 20 + 5000 < 5021: the approval is too old.
    assert_eq!(
        gate.transfer_hook(1, 100, 200, 2000, 5021),
        Err(GateError::TwoAuth(TwoAuthError::ExpiredApproval))
    );
    // On the boundary it is still valid.
    assert_eq!(gate.transfer_hook(1, 100, 200, 2000, 5020), Ok(()));
}

#[test]
fn approval_mismatch_in_any_field_rejects() {
    let mut gate = setup();
    let transaction =
        TransactionRepresentation { source: 100, destination: 200, amount: 2000, time: 0 };
    assert_eq!(gate.approve_transaction(55, 1, 100, transaction), Ok(()));
    // Same source and destination, different amount.
    assert_eq!(
        gate.transfer_hook(1, 100, 200, 1999, 10),
        Err(GateError::TwoAuth(TwoAuthError::NotAuthorized))
    );
}

#[test]
fn add_idendity_rejects_second_record() {
    let mut gate = setup();
    assert_eq!(
        gate.add_idendity(8, 1, 100, 86400, 0),
        Err(IdendityError::IdendityAlreadyExists)
    );
}

#[test]
fn add_issuer_to_idendity_appends_and_rejects_duplicates() {
    let mut gate = setup();
    assert_eq!(gate.add_issuer_to_idendity(8, 100, 1000, 5), Ok(()));
    assert_eq!(gate.idendities.get(&100).unwrap().issuers.len(), 2);
    assert_eq!(
        gate.add_issuer_to_idendity(8, 100, 2000, 6),
        Err(IdendityError::IdendityAlreadyExists)
    );
    assert_eq!(gate.idendities.get(&100).unwrap().issuers.len(), 2);
}

#[test]
fn mint_to_adds_to_balance() {
    let mut gate = setup();
    gate.mint_to(200, 25);
    assert_eq!(gate.ledger.balance_of(200), Some(25));
    gate.mint_to(200, 5);
    assert_eq!(gate.ledger.balance_of(200), Some(30));
}
