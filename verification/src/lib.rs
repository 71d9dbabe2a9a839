//! An authorization gate that sits between a value-transfer operation and its
//! settlement. Before a transfer of the fungible asset may settle, three
//! independent compliance mechanisms are enforced: identity attestations of
//! both parties must be valid, the source account must not have been recovered
//! to a new owner (or, if it has, the transfer must target the redirect
//! address), and transfers selected by the step-up policy must carry a
//! matching, unexpired, single-use approval.
//!
//! The crate models the persistent protocol state as plain in-memory records
//! keyed by account address. A surrounding settlement layer is expected to
//! serialize requests; every operation here is a single atomic step that
//! either commits fully or rejects without mutating anything.

use vstd::prelude::*;

pub mod errors;
pub mod gate;
pub mod identity;
pub mod ledger;
pub mod recovery;
pub mod transfer_hook;
pub mod two_auth;

verus! {

/// An account address. The protocol compares addresses only for equality, so
/// they are modeled as plain integers rather than full public keys.
pub type Address = u64;

} // verus!
