use transfer_gate::errors::TwoAuthError;
use transfer_gate::transfer_hook::check_approval;
use transfer_gate::two_auth::{
    apply_two_auth_functions, match_functions, on_max, Duration, TransactionAproval,
    TransactionRepresentation, TwoAuthFunction,
};

#[test]
fn empty_policy_requires_step_up() {
    // AND over the empty set is true.
    assert!(apply_two_auth_functions(50, &vec![]));
}

#[test]
fn never_policy_waives_step_up() {
    assert!(!apply_two_auth_functions(50, &vec![TwoAuthFunction::Never]));
}

#[test]
fn always_policy_requires_step_up() {
    assert!(apply_two_auth_functions(0, &vec![TwoAuthFunction::Always]));
}

#[test]
fn on_max_policy_boundary() {
    let policy = vec![TwoAuthFunction::OnMax { max: 100 }];
    assert!(apply_two_auth_functions(100, &policy));
    assert!(!apply_two_auth_functions(99, &policy));
}

#[test]
fn policy_list_is_a_conjunction() {
    assert!(!apply_two_auth_functions(
        150,
        &vec![TwoAuthFunction::Always, TwoAuthFunction::Never],
    ));
    assert!(apply_two_auth_functions(
        150,
        &vec![TwoAuthFunction::OnMax { max: 100 }, TwoAuthFunction::Always],
    ));
    assert!(!apply_two_auth_functions(
        50,
        &vec![TwoAuthFunction::OnMax { max: 100 }, TwoAuthFunction::Always],
    ));
}

#[test]
fn reserved_variants_default_to_true() {
    assert!(match_functions(1, &TwoAuthFunction::Random));
    assert!(match_functions(1, &TwoAuthFunction::CounterResetOnMax { max: 5 }));
    assert!(match_functions(
        1,
        &TwoAuthFunction::CounterResetOnTime { max: 5, time: Duration::Days(1) },
    ));
    assert!(match_functions(
        1,
        &TwoAuthFunction::CounterWithTimeWindow { max: 5, time: Duration::Hours(2) },
    ));
    assert!(match_functions(1, &TwoAuthFunction::DeactivateForGeneralWhiteList));
    assert!(match_functions(1, &TwoAuthFunction::DeactivateForUserSpecificWhiteList));
}

#[test]
fn on_max_threshold() {
    assert!(on_max(5, 5));
    assert!(on_max(6, 5));
    assert!(!on_max(4, 5));
}

fn approval() -> TransactionAproval {
    TransactionAproval {
        transaction: TransactionRepresentation { source: 1, destination: 2, amount: 50, time: 1000 },
        active: true,
    }
}

#[test]
fn check_approval_accepts_exact_match() {
    assert_eq!(check_approval(&approval(), 1, 2, 50, 1000), Ok(()));
}

#[test]
fn check_approval_rejects_wrong_source() {
    assert_eq!(check_approval(&approval(), 9, 2, 50, 1000), Err(TwoAuthError::NotAuthorized));
}

#[test]
fn check_approval_rejects_wrong_destination() {
    assert_eq!(check_approval(&approval(), 1, 9, 50, 1000), Err(TwoAuthError::NotAuthorized));
}

#[test]
fn check_approval_rejects_wrong_amount() {
    assert_eq!(check_approval(&approval(), 1, 2, 51, 1000), Err(TwoAuthError::NotAuthorized));
}

#[test]
fn check_approval_rejects_inactive_approval() {
    let mut a = approval();
    a.active = false;
    assert_eq!(check_approval(&a, 1, 2, 50, 1000), Err(TwoAuthError::NotAuthorized));
}

#[test]
fn check_approval_expires_after_validity_window() {
    assert_eq!(check_approval(&approval(), 1, 2, 50, 6000), Ok(()));
    assert_eq!(check_approval(&approval(), 1, 2, 50, 6001), Err(TwoAuthError::ExpiredApproval));
}
