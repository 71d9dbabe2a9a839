//! The checks every transfer must pass, in their fixed order. Each one is a
//! pure guard over the records involved; the first failing check decides the
//! rejection.

use vstd::prelude::*;

use crate::Address;
use crate::errors::{GateError, IdendityError, TwoAuthError};
use crate::identity::{check_valid, check_valid_result, IdAccount};
use crate::two_auth::{
    apply_two_auth_functions, policy_requires_two_auth, TransactionAproval, TwoAuthFunction,
    TwoAuthParameters,
};

verus! {

/// How long an approval stays valid after it was given, in the timestamp
/// unit of the ledger clock.
pub const APPROVAL_VALIDITY_WINDOW: i64 = 5000;

/// The guard result of checking both parties' identity records: the sender's
/// failure wins, then the receiver's.
pub open spec fn check_idendities_result(
    sender: IdAccount,
    receiver: IdAccount,
    now: i64,
) -> Result<(), IdendityError> {
    match check_valid_result(sender, now) {
        Err(e) => Err(e),
        Ok(()) => check_valid_result(receiver, now),
    }
}

/// The guard result of the redirect check: a recovered sender may only
/// transfer to the recorded redirect address.
pub open spec fn check_not_recovered_result(
    sender: IdAccount,
    destination_token: Address,
) -> Result<(), IdendityError> {
    if sender.redirected() && sender.redirect_target() != destination_token {
        Err(IdendityError::IdendityRecovered)
    } else {
        Ok(())
    }
}

/// Whether the pending approval speaks about exactly the requested transfer:
/// it is active and its source, destination and amount all match.
pub open spec fn approval_matches(
    approval: TransactionAproval,
    source_token: Address,
    destination_token: Address,
    amount: u64,
) -> bool {
    &&& approval.active
    &&& approval.transaction.amount == amount
    &&& approval.transaction.source == source_token
    &&& approval.transaction.destination == destination_token
}

/// The guard result of consuming an approval: `NotAuthorized` unless an
/// active approval matches the transfer exactly, `ExpiredApproval` when the
/// matching approval is older than the validity window.
pub open spec fn check_approval_result(
    approval: TransactionAproval,
    source_token: Address,
    destination_token: Address,
    amount: u64,
    now: i64,
) -> Result<(), TwoAuthError> {
    if !approval_matches(approval, source_token, destination_token, amount) {
        Err(TwoAuthError::NotAuthorized)
    } else if approval.transaction.time + APPROVAL_VALIDITY_WINDOW < now {
        Err(TwoAuthError::ExpiredApproval)
    } else {
        Ok(())
    }
}

/// The decision of the whole gate for one transfer attempt, given the
/// records involved: identity checks on both parties, the redirect check on
/// the sender, and — only when the policy requires step-up — the approval
/// check.
pub open spec fn transfer_hook_result(
    sender: IdAccount,
    receiver: IdAccount,
    functions: Seq<TwoAuthFunction>,
    approval: TransactionAproval,
    source_token: Address,
    destination_token: Address,
    amount: u64,
    now: i64,
) -> Result<(), GateError> {
    match check_idendities_result(sender, receiver, now) {
        Err(e) => Err(GateError::Idendity(e)),
        Ok(()) => match check_not_recovered_result(sender, destination_token) {
            Err(e) => Err(GateError::Idendity(e)),
            Ok(()) => if policy_requires_two_auth(amount, functions) {
                match check_approval_result(approval, source_token, destination_token, amount, now) {
                    Err(e) => Err(GateError::TwoAuth(e)),
                    Ok(()) => Ok(()),
                }
            } else {
                Ok(())
            },
        },
    }
}

/// Validates the identity records of both transfer parties.
pub fn check_idendities(
    idendity_sender: &IdAccount,
    idendity_receiver: &IdAccount,
    now: i64,
) -> (r: Result<(), IdendityError>)
    requires
        idendity_sender.wf(),
        idendity_receiver.wf(),
    ensures
        r == check_idendities_result(*idendity_sender, *idendity_receiver, now),
{
    check_valid(idendity_sender, now)?;
    check_valid(idendity_receiver, now)?;
    Ok(())
}

/// Rejects a transfer from a recovered account unless it targets the
/// recorded redirect address.
pub fn check_not_recovered(idendity_sender: &IdAccount, destination_token: Address) -> (r: Result<
    (),
    IdendityError,
>)
    requires
        idendity_sender.wf(),
    ensures
        r == check_not_recovered_result(*idendity_sender, destination_token),
{
    if idendity_sender.recovered_token_address.len() > 0 {
        let recovered_address = idendity_sender.recovered_token_address[0];
        if recovered_address != destination_token {
            return Err(IdendityError::IdendityRecovered);
        }
    }
    Ok(())
}

/// Consumability check of the pending approval for the requested transfer.
/// A mismatch in any one of source, destination or amount — or an inactive
/// approval — is `NotAuthorized`; a matching approval given more than the
/// validity window before `now` is `ExpiredApproval`.
pub fn check_approval(
    transaction_approval: &TransactionAproval,
    source_token: Address,
    destination_token: Address,
    amount: u64,
    now: i64,
) -> (r: Result<(), TwoAuthError>)
    ensures
        r == check_approval_result(
            *transaction_approval,
            source_token,
            destination_token,
            amount,
            now,
        ),
{
    let transaction = &transaction_approval.transaction;
    if !(transaction_approval.active && transaction.amount == amount && transaction.source
        == source_token && transaction.destination == destination_token) {
        return Err(TwoAuthError::NotAuthorized);
    }
    if (transaction.time as i128) + (APPROVAL_VALIDITY_WINDOW as i128) < (now as i128) {
        return Err(TwoAuthError::ExpiredApproval);
    }
    Ok(())
}

/// Whether this transfer needs a step-up approval under the sender's policy.
pub fn need_two_auth(two_auth: &TwoAuthParameters, amount: u64) -> (r: bool)
    ensures
        r == policy_requires_two_auth(amount, two_auth.functions@),
{
    apply_two_auth_functions(amount, &two_auth.functions)
}

} // verus!
