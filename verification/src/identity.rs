//! Identity & issuance registry records: per protected asset account, a list
//! of issuer attestations and an optional "recovered to" redirect address.

use vstd::prelude::*;

use crate::Address;
use crate::errors::IdendityError;

verus! {

/// One issuer attestation. Immutable once appended.
#[derive(Clone, Copy, Debug, PartialEq, Eq, Structural)]
pub struct Issuer {
    pub key: Address,
    pub last_modified: i64,
    pub expires_at: i64,
    pub active: bool,
}

/// The identity record of one protected asset account. The issuer list is
/// append-only and insertion-ordered; the attestation at index 0 is treated
/// as authoritative. `recovered_token_address` holds zero or one redirect
/// addresses, written at most once by the recovery protocol.
#[derive(Debug)]
pub struct IdAccount {
    pub owner: Address,
    pub token_account: Address,
    pub issuers: Vec<Issuer>,
    pub recovered_token_address: Vec<Address>,
}

/// Whether some attestation in the list carries the given issuer key.
pub open spec fn issuer_key_in(issuers: Seq<Issuer>, key: Address) -> bool {
    exists|i: int| 0 <= i < issuers.len() && #[trigger] issuers[i].key == key
}

impl IdAccount {
    /// Well-formedness: at least one attestation, pairwise-distinct issuer
    /// keys, and at most one redirect address.
    pub open spec fn wf(self) -> bool {
        &&& self.issuers@.len() >= 1
        &&& forall|i: int, j: int|
            0 <= i < j < self.issuers@.len() ==> #[trigger] self.issuers@[i].key != #[trigger] self.issuers@[j].key
        &&& self.recovered_token_address@.len() <= 1
    }

    /// Whether the given issuer has already attested this record.
    pub open spec fn issuer_known(self, key: Address) -> bool {
        issuer_key_in(self.issuers@, key)
    }

    /// Validity at a point in time: the authoritative attestation is active
    /// and has not expired. The boundary `now == expires_at` is still valid.
    pub open spec fn valid_at(self, now: i64) -> bool {
        self.issuers@[0].active && self.issuers@[0].expires_at >= now
    }

    /// Whether the account has been recovered to a new holder.
    pub open spec fn redirected(self) -> bool {
        self.recovered_token_address@.len() > 0
    }

    /// The redirect address recorded by the first successful recovery.
    pub open spec fn redirect_target(self) -> Address {
        self.recovered_token_address@[0]
    }
}

/// The guard result of validity checking: which failure kind `check_valid`
/// reports for a record at a point in time.
pub open spec fn check_valid_result(idendity: IdAccount, now: i64) -> Result<(), IdendityError> {
    if !idendity.issuers@[0].active {
        Err(IdendityError::IdendityNotActive)
    } else if idendity.issuers@[0].expires_at < now {
        Err(IdendityError::IdendityExpired)
    } else {
        Ok(())
    }
}

/// Creates a fresh identity record with a single attestation that expires
/// `id_validity_duration` after `now`.
pub fn new_idendity(
    owner: Address,
    token_account: Address,
    issuer_key: Address,
    now: i64,
    id_validity_duration: i64,
) -> (r: IdAccount)
    requires
        i64::MIN <= now + id_validity_duration <= i64::MAX,
    ensures
        r.wf(),
        r.owner == owner,
        r.token_account == token_account,
        r.issuers@.len() == 1,
        r.issuers@[0] == (Issuer {
            key: issuer_key,
            last_modified: now,
            expires_at: (now + id_validity_duration) as i64,
            active: true,
        }),
        !r.redirected(),
{
    let issuer = Issuer {
        key: issuer_key,
        last_modified: now,
        expires_at: now + id_validity_duration,
        active: true,
    };
    IdAccount {
        owner,
        token_account,
        issuers: vec![issuer],
        recovered_token_address: Vec::new(),
    }
}

/// Appends a new attestation, rejecting a second attestation by the same
/// issuer: adding the same issuer twice always fails the second time with
/// `IdendityAlreadyExists`, regardless of the validity duration argument.
pub fn add_issuer(
    idendity: &mut IdAccount,
    issuer_key: Address,
    now: i64,
    id_validity_duration: i64,
) -> (r: Result<(), IdendityError>)
    requires
        old(idendity).wf(),
        i64::MIN <= now + id_validity_duration <= i64::MAX,
    ensures
        final(idendity).wf(),
        r is Err <==> old(idendity).issuer_known(issuer_key),
        r is Err ==> r == Err::<(), IdendityError>(IdendityError::IdendityAlreadyExists)
            && *final(idendity) == *old(idendity),
        r is Ok ==> final(idendity).issuers@ == old(idendity).issuers@.push(Issuer {
            key: issuer_key,
            last_modified: now,
            expires_at: (now + id_validity_duration) as i64,
            active: true,
        }),
        final(idendity).owner == old(idendity).owner,
        final(idendity).token_account == old(idendity).token_account,
        final(idendity).recovered_token_address == old(idendity).recovered_token_address,
{
    let n = idendity.issuers.len();
    let mut i: usize = 0;
    while i < n
        invariant
            old(idendity).wf(),
            n == idendity.issuers@.len(),
            0 <= i <= n,
            forall|j: int| 0 <= j < i ==> #[trigger] idendity.issuers@[j].key != issuer_key,
            *idendity == *old(idendity),
        decreases n - i,
    {
        if idendity.issuers[i].key == issuer_key {
            return Err(IdendityError::IdendityAlreadyExists);
        }
        i = i + 1;
    }
    let new_issuer = Issuer {
        key: issuer_key,
        last_modified: now,
        expires_at: now + id_validity_duration,
        active: true,
    };
    idendity.issuers.push(new_issuer);
    Ok(())
}

/// Validity guard used on every transfer: `Ok` iff the authoritative
/// attestation is active and unexpired, `IdendityNotActive` when the active
/// flag is cleared, `IdendityExpired` when `now` is past the expiry.
pub fn check_valid(idendity: &IdAccount, now: i64) -> (r: Result<(), IdendityError>)
    requires
        idendity.wf(),
    ensures
        r == check_valid_result(*idendity, now),
        r is Ok <==> idendity.valid_at(now),
        r is Err <==> (!idendity.issuers@[0].active || now > idendity.issuers@[0].expires_at),
{
    let issuer = &idendity.issuers[0];
    if !issuer.active {
        return Err(IdendityError::IdendityNotActive);
    }
    if issuer.expires_at < now {
        return Err(IdendityError::IdendityExpired);
    }
    Ok(())
}

/// Records the redirect address of a recovered account. At most one redirect
/// is ever recorded: a second attempt fails with `IdendityAlreadyRecovered`
/// and leaves the first address in place.
pub fn mark_recovered(idendity: &mut IdAccount, new_token_account: Address) -> (r: Result<
    (),
    IdendityError,
>)
    requires
        old(idendity).wf(),
    ensures
        final(idendity).wf(),
        r is Err <==> old(idendity).redirected(),
        r is Err ==> r == Err::<(), IdendityError>(IdendityError::IdendityAlreadyRecovered)
            && *final(idendity) == *old(idendity),
        r is Ok ==> final(idendity).recovered_token_address@
            == old(idendity).recovered_token_address@.push(new_token_account),
        final(idendity).owner == old(idendity).owner,
        final(idendity).token_account == old(idendity).token_account,
        final(idendity).issuers == old(idendity).issuers,
{
    if idendity.recovered_token_address.len() > 0 {
        return Err(IdendityError::IdendityAlreadyRecovered);
    }
    idendity.recovered_token_address.push(new_token_account);
    Ok(())
}

/// Adding the same issuer twice is always rejected the second time: once an
/// attestation with key `iss.key` has been appended, the key is known to the
/// record, which is exactly the condition under which `add_issuer` returns
/// `IdendityAlreadyExists`, whatever validity duration the second call uses.
pub proof fn lemma_add_issuer_idempotent_rejecting(issuers: Seq<Issuer>, iss: Issuer)
    ensures
        issuer_key_in(issuers.push(iss), iss.key),
{
    assert(issuers.push(iss)[issuers.len() as int].key == iss.key);
}

/// A second recovery is always rejected and does not disturb the redirect:
/// after the first successful recovery of a previously unrecovered record the
/// redirect list is non-empty — the condition under which `mark_recovered`
/// (and with it the recovery protocol) fails with `IdendityAlreadyRecovered`
/// — and the address it holds is the one from the first call.
pub proof fn lemma_recover_twice_rejected(recovered: Seq<Address>, dest: Address)
    requires
        recovered.len() == 0,
    ensures
        recovered.push(dest).len() > 0,
        recovered.push(dest)[0] == dest,
{
}

} // verus!
