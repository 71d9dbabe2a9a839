//! Step-up ("two-factor") approval protocol: per-asset policy rules deciding
//! which transfers need an out-of-band approval, and the single pending
//! approval descriptor a designated approving party can set per owner.

use vstd::prelude::*;

use crate::Address;

verus! {

/// A policy predicate evaluated against a pending transfer amount. The set is
/// closed; variants beyond `Always`, `Never` and `OnMax` are reserved and
/// currently evaluate to true as a safe default.
#[derive(Clone, Copy, Debug, PartialEq, Eq, Structural)]
pub enum TwoAuthFunction {
    Always,
    Never,
    OnMax { max: u64 },
    Random,
    CounterResetOnMax { max: u64 },
    CounterResetOnTime { max: u64, time: Duration },
    CounterWithTimeWindow { max: u64, time: Duration },
    DeactivateForGeneralWhiteList,
    DeactivateForUserSpecificWhiteList,
}

/// A coarse time span, used by the reserved counter/time-window policy rules.
#[derive(Clone, Copy, Debug, PartialEq, Eq, Structural)]
pub enum Duration {
    Seconds(u8),
    Minutes(u8),
    Hours(u8),
    Days(u8),
    Weeks(u8),
}

/// Per-asset step-up configuration: the policy rules, the designated
/// approving address, and the issuers allowed to co-sign policy context.
/// Created once and immutable thereafter.
#[derive(Debug)]
pub struct TwoAuthParameters {
    pub functions: Vec<TwoAuthFunction>,
    pub two_auth_entity: Address,
    pub allowed_issuers: Vec<Address>,
}

/// The transfer a pending approval speaks about: source and destination
/// asset accounts, amount, and the time of approval.
#[derive(Clone, Copy, Debug, PartialEq, Eq, Structural)]
pub struct TransactionRepresentation {
    pub source: Address,
    pub destination: Address,
    pub amount: u64,
    pub time: i64,
}

/// The single pending approval per owner. Overwritten by each new approval
/// and consumed (deactivated) by the first matching transfer.
#[derive(Clone, Copy, Debug, PartialEq, Eq, Structural)]
pub struct TransactionAproval {
    pub transaction: TransactionRepresentation,
    pub active: bool,
}

/// What a single policy rule decides for a given amount.
pub open spec fn requires_two_auth(amount: u64, function: TwoAuthFunction) -> bool {
    match function {
        TwoAuthFunction::Always => true,
        TwoAuthFunction::Never => false,
        TwoAuthFunction::OnMax { max } => amount >= max,
        _ => true,
    }
}

/// Whether a whole policy list requires step-up: the conjunction over all its
/// rules. The empty list vacuously requires step-up.
pub open spec fn policy_requires_two_auth(amount: u64, functions: Seq<TwoAuthFunction>) -> bool {
    forall|i: int| 0 <= i < functions.len() ==> requires_two_auth(amount, #[trigger] functions[i])
}

/// Evaluates one policy rule against the amount.
pub fn match_functions(amount: u64, function: &TwoAuthFunction) -> (r: bool)
    ensures
        r == requires_two_auth(amount, *function),
{
    match function {
        TwoAuthFunction::Always => true,
        TwoAuthFunction::Never => false,
        TwoAuthFunction::OnMax { max } => amount >= *max,
        _ => true,
    }
}

/// True iff the amount reaches the threshold.
pub fn on_max(amount: u64, max: u64) -> (r: bool)
    ensures
        r == (amount >= max),
{
    if amount >= max {
        true
    } else {
        false
    }
}

/// True iff there is need for step-up: the logical AND of all configured
/// rules evaluated against the amount. An empty policy list returns true.
pub fn apply_two_auth_functions(amount: u64, functions: &Vec<TwoAuthFunction>) -> (r: bool)
    ensures
        r == policy_requires_two_auth(amount, functions@),
{
    let mut i: usize = 0;
    while i < functions.len()
        invariant
            0 <= i <= functions@.len(),
            forall|j: int| 0 <= j < i ==> requires_two_auth(amount, #[trigger] functions@[j]),
        decreases functions@.len() - i,
    {
        if !match_functions(amount, &functions[i]) {
            return false;
        }
        i = i + 1;
    }
    true
}

} // verus!
