//! Recovery quorum protocol records: per original owner, the list of
//! authorized recovery signers with a minimum-signature threshold, and the
//! last-activity timestamp used as the recovery cooldown.

use vstd::prelude::*;
use vstd::set_lib::lemma_len_subset;

use crate::Address;

verus! {

/// When one owner last moved funds. Every transfer that passes the checks
/// advances it, never backwards; recovery waits until enough quiet time has
/// passed since this moment.
#[derive(Clone, Copy, Debug, PartialEq, Eq, Structural)]
pub struct LastTx {
    pub last_tx_timestamp: i64,
}

/// The recovery delegation of one owner: any party on the list may co-sign a
/// recovery, and at least `minimum_signatures` of them must do so together.
/// Created once at setup and immutable thereafter. Uniqueness of the listed
/// addresses is not enforced by the data model; a duplicated entry silently
/// reduces the effective quorum.
#[derive(Debug)]
pub struct RecoveryAuthority {
    pub authorities: Vec<Address>,
    pub minimum_signatures: u8,
}

impl RecoveryAuthority {
    /// The threshold is meaningful: at least one signature, and no more than
    /// the number of listed authorities.
    pub open spec fn wf(self) -> bool {
        1 <= self.minimum_signatures <= self.authorities@.len()
    }
}

/// No address occurs twice.
pub open spec fn distinct_addresses(s: Seq<Address>) -> bool {
    forall|i: int, j: int| 0 <= i < j < s.len() ==> s[i] != s[j]
}

/// How many entries of the authority list are covered by the signer set.
/// Each entry is counted on its own, so a duplicated authority entry counts
/// once per occurrence.
pub open spec fn matched_count(authorities: Seq<Address>, signers: Seq<Address>) -> nat
    decreases authorities.len(),
{
    if authorities.len() == 0 {
        0
    } else {
        matched_count(authorities.drop_last(), signers) + if signers.contains(
            authorities.last(),
        ) {
            1nat
        } else {
            0nat
        }
    }
}

/// The set of authority entries covered by the signer set.
pub open spec fn matched_set(authorities: Seq<Address>, signers: Seq<Address>) -> Set<Address>
    decreases authorities.len(),
{
    if authorities.len() == 0 {
        Set::empty()
    } else {
        let rest = matched_set(authorities.drop_last(), signers);
        if signers.contains(authorities.last()) {
            rest.insert(authorities.last())
        } else {
            rest
        }
    }
}

/// Counting a prefix of the authority list never counts more than the whole
/// list does.
pub proof fn lemma_matched_count_prefix_le(authorities: Seq<Address>, signers: Seq<Address>, k: int)
    requires
        0 <= k <= authorities.len(),
    ensures
        matched_count(authorities.take(k), signers) <= matched_count(authorities, signers),
    decreases authorities.len(),
{
    if k == authorities.len() {
        assert(authorities.take(k) =~= authorities);
    } else {
        assert(authorities.take(k) =~= authorities.drop_last().take(k));
        lemma_matched_count_prefix_le(authorities.drop_last(), signers, k);
    }
}

/// The matched entries form a finite set, drawn from both the authority list
/// and the signer set; and when the authority list has no duplicates, the
/// match count is exactly the cardinality of that set.
pub proof fn lemma_matched_set(authorities: Seq<Address>, signers: Seq<Address>)
    ensures
        matched_set(authorities, signers).finite(),
        matched_set(authorities, signers).subset_of(authorities.to_set()),
        matched_set(authorities, signers).subset_of(signers.to_set()),
        distinct_addresses(authorities) ==> matched_count(authorities, signers) == matched_set(
            authorities,
            signers,
        ).len(),
    decreases authorities.len(),
{
    if authorities.len() == 0 {
    } else {
        let rest = authorities.drop_last();
        let a = authorities.last();
        lemma_matched_set(rest, signers);
        assert(rest.to_set().subset_of(authorities.to_set())) by {
            assert forall|x: Address| rest.to_set().contains(x) implies authorities.to_set()
                .contains(x) by {
                let i = choose|i: int| 0 <= i < rest.len() && rest[i] == x;
                assert(authorities[i] == x);
            }
        }
        assert(authorities.to_set().contains(a));
        if distinct_addresses(authorities) {
            assert(distinct_addresses(rest));
            assert(!rest.to_set().contains(a)) by {
                if rest.to_set().contains(a) {
                    let i = choose|i: int| 0 <= i < rest.len() && rest[i] == a;
                    assert(authorities[i] == authorities[authorities.len() - 1]);
                }
            }
            if signers.contains(a) {
                assert(!matched_set(rest, signers).contains(a));
            }
        }
        if signers.contains(a) {
            assert(signers.to_set().contains(a));
        }
    }
}

/// Too few signatures can never reach the quorum: with a duplicate-free
/// authority list, a signer set smaller than the threshold always falls
/// short of it, however many unauthorized addresses are mixed in.
pub proof fn lemma_quorum_needs_enough_signers(
    authorities: Seq<Address>,
    signers: Seq<Address>,
    minimum_signatures: u8,
)
    requires
        distinct_addresses(authorities),
        signers.len() < minimum_signatures,
    ensures
        matched_count(authorities, signers) < minimum_signatures,
{
    lemma_matched_set(authorities, signers);
    signers.lemma_cardinality_of_set();
    lemma_len_subset(matched_set(authorities, signers), signers.to_set());
}

/// True iff the list contains the address.
pub fn contains_address(addresses: &Vec<Address>, address: Address) -> (r: bool)
    ensures
        r == addresses@.contains(address),
{
    let mut i: usize = 0;
    while i < addresses.len()
        invariant
            0 <= i <= addresses@.len(),
            forall|j: int| 0 <= j < i ==> addresses@[j] != address,
        decreases addresses@.len() - i,
    {
        if addresses[i] == address {
            return true;
        }
        i = i + 1;
    }
    false
}

/// Counts how many authorized recovery addresses appear in the signer set,
/// stopping early once the threshold is reached, and reports whether the
/// quorum was met.
pub fn quorum_reached(
    authorities: &Vec<Address>,
    signers: &Vec<Address>,
    minimum_signatures: u8,
) -> (r: bool)
    requires
        minimum_signatures >= 1,
    ensures
        r == (matched_count(authorities@, signers@) >= minimum_signatures),
{
    let n = authorities.len();
    let mut number_of_signatures: u8 = 0;
    let mut reached = false;
    let mut i: usize = 0;
    while i < n
        invariant_except_break
            n == authorities@.len(),
            0 <= i <= n,
            minimum_signatures >= 1,
            !reached,
            number_of_signatures < minimum_signatures,
            number_of_signatures as nat == matched_count(authorities@.take(i as int), signers@),
        ensures
            reached ==> matched_count(authorities@, signers@) >= minimum_signatures,
            !reached ==> i == n && number_of_signatures as nat == matched_count(
                authorities@.take(i as int),
                signers@,
            ) && number_of_signatures < minimum_signatures,
        decreases n - i,
    {
        if contains_address(signers, authorities[i]) {
            number_of_signatures = number_of_signatures + 1;
        }
        proof {
            assert(authorities@.take(i as int + 1).drop_last() =~= authorities@.take(i as int));
            assert(authorities@.take(i as int + 1).last() == authorities@[i as int]);
        }
        if number_of_signatures >= minimum_signatures {
            reached = true;
            proof {
                lemma_matched_count_prefix_le(authorities@, signers@, i as int + 1);
            }
            break;
        }
        i = i + 1;
    }
    proof {
        assert(authorities@.take(n as int) =~= authorities@);
    }
    reached
}

} // verus!
