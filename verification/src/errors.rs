//! Failure kinds. Every failure is a terminal rejection of the current
//! request: nothing is retried and no partial state is committed.

use vstd::prelude::*;

verus! {

/// Identity-compliance failures.
#[derive(Clone, Copy, Debug, PartialEq, Eq, Structural)]
pub enum IdendityError {
    /// A record (or an attestation by the same issuer) already exists.
    IdendityAlreadyExists,
    /// The authoritative attestation is not active.
    IdendityNotActive,
    /// The authoritative attestation has expired.
    IdendityExpired,
    /// The account was recovered and the transfer does not target the
    /// recorded redirect address.
    IdendityRecovered,
    /// The account was already recovered once; a second recovery is refused.
    IdendityAlreadyRecovered,
}

/// Recovery-authorization failures.
#[derive(Clone, Copy, Debug, PartialEq, Eq, Structural)]
pub enum RecoveryError {
    /// The recovery cooldown since the last transfer has not elapsed.
    RecoveryTimeNotPassed,
    /// Fewer authorized recovery signers than the configured threshold.
    NotEnoughSignatures,
}

/// Step-up-authorization failures.
#[derive(Clone, Copy, Debug, PartialEq, Eq, Structural)]
pub enum TwoAuthError {
    /// The caller is not the designated approving party, or no active
    /// approval matches the requested transfer.
    NotAuthorized,
    /// The matching approval is older than the validity window.
    ExpiredApproval,
}

/// Any failure a gate operation can surface. The settlement layer must pass
/// the specific kind on to the initiator.
#[derive(Clone, Copy, Debug, PartialEq, Eq, Structural)]
pub enum GateError {
    Idendity(IdendityError),
    Recovery(RecoveryError),
    TwoAuth(TwoAuthError),
}

} // verus!
