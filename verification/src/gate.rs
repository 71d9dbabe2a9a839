//! Protocol state and its operations. Every record kind lives in a map keyed
//! by an account address, standing in for storage whose location is derived
//! from the owning account; a record can only be created where none exists
//! yet. Each operation takes effect as a whole or rejects with a specific
//! failure kind and changes nothing.

use std::collections::HashMap;
use vstd::prelude::*;

use crate::Address;
use crate::errors::{GateError, IdendityError, RecoveryError, TwoAuthError};
use crate::identity::{add_issuer, mark_recovered, new_idendity, IdAccount, Issuer};
use crate::ledger::TokenLedger;
use crate::recovery::{matched_count, quorum_reached, LastTx, RecoveryAuthority};
use crate::transfer_hook::{
    check_approval, check_idendities, check_not_recovered, need_two_auth, transfer_hook_result,
};
use crate::two_auth::{
    policy_requires_two_auth, TransactionAproval, TransactionRepresentation, TwoAuthFunction,
    TwoAuthParameters,
};

verus! {

/// The decision of the recovery protocol for one attempt, given the records
/// involved: quorum first, then the cooldown, then the one-shot check that
/// the identity was not recovered before.
pub open spec fn recover_result(
    recovery_authority: RecoveryAuthority,
    last_tx: LastTx,
    idendity: IdAccount,
    signers: Seq<Address>,
    recovery_cooldown: i64,
    now: i64,
) -> Result<(), GateError> {
    if matched_count(recovery_authority.authorities@, signers)
        < recovery_authority.minimum_signatures {
        Err(GateError::Recovery(RecoveryError::NotEnoughSignatures))
    } else if last_tx.last_tx_timestamp + recovery_cooldown > now {
        Err(GateError::Recovery(RecoveryError::RecoveryTimeNotPassed))
    } else if idendity.redirected() {
        Err(GateError::Idendity(IdendityError::IdendityAlreadyRecovered))
    } else {
        Ok(())
    }
}

/// The whole protocol state: one record store per record kind, the balances
/// of the asset ledger, and the configured recovery cooldown.
#[derive(Debug)]
pub struct Gate {
    /// Identity records, keyed by the protected asset account.
    pub idendities: HashMap<Address, IdAccount>,
    /// Recovery delegations, keyed by the original owner.
    pub recovery_authorities: HashMap<Address, RecoveryAuthority>,
    /// Last-transfer timestamps, keyed by the original owner.
    pub last_tx: HashMap<Address, LastTx>,
    /// Step-up policy parameters, keyed by the protected asset account.
    pub two_auth: HashMap<Address, TwoAuthParameters>,
    /// Pending transaction approvals, keyed by the owner.
    pub approvals: HashMap<Address, TransactionAproval>,
    /// Balances of the fungible asset.
    pub ledger: TokenLedger,
    /// The quiet period that must have passed since the owner's last
    /// transfer before the account may be recovered.
    pub recovery_cooldown: i64,
}

impl Gate {
    /// Well-formedness of the whole state: every stored identity record is
    /// well-formed and keyed by its own asset account, every recovery
    /// delegation has a meaningful threshold, and the cooldown is a span.
    pub open spec fn wf(self) -> bool {
        &&& forall|k: Address| #[trigger]
            self.idendities@.contains_key(k) ==> self.idendities@[k].wf()
                && self.idendities@[k].token_account == k
        &&& forall|k: Address| #[trigger]
            self.recovery_authorities@.contains_key(k) ==> self.recovery_authorities@[k].wf()
        &&& self.recovery_cooldown >= 0
    }

    /// A fresh state with no records and an empty ledger.
    pub fn new(recovery_cooldown: i64) -> (r: Gate)
        requires
            recovery_cooldown >= 0,
        ensures
            r.wf(),
            r.idendities@ == Map::<Address, IdAccount>::empty(),
            r.recovery_authorities@ == Map::<Address, RecoveryAuthority>::empty(),
            r.last_tx@ == Map::<Address, LastTx>::empty(),
            r.two_auth@ == Map::<Address, TwoAuthParameters>::empty(),
            r.approvals@ == Map::<Address, TransactionAproval>::empty(),
            r.ledger.balances() == Map::<Address, u64>::empty(),
            r.recovery_cooldown == recovery_cooldown,
    {
        Gate {
            idendities: HashMap::new(),
            recovery_authorities: HashMap::new(),
            last_tx: HashMap::new(),
            two_auth: HashMap::new(),
            approvals: HashMap::new(),
            ledger: TokenLedger::new(),
            recovery_cooldown,
        }
    }

    /// Creates an empty asset account on the ledger.
    pub fn add_token_account(&mut self, token_account: Address)
        requires
            old(self).wf(),
            !old(self).ledger.has_account(token_account),
        ensures
            final(self).wf(),
            final(self).ledger.balances() == old(self).ledger.balances().insert(
                token_account,
                0u64,
            ),
            final(self).idendities@ == old(self).idendities@,
            final(self).recovery_authorities@ == old(self).recovery_authorities@,
            final(self).last_tx@ == old(self).last_tx@,
            final(self).two_auth@ == old(self).two_auth@,
            final(self).approvals@ == old(self).approvals@,
            final(self).recovery_cooldown == old(self).recovery_cooldown,
    {
        self.ledger.add_token_account(token_account);
    }

    /// Issues asset units into an existing account.
    pub fn mint_to(&mut self, to_token_account: Address, amount: u64)
        requires
            old(self).wf(),
            old(self).ledger.has_account(to_token_account),
            old(self).ledger.balance(to_token_account) + amount <= u64::MAX,
        ensures
            final(self).wf(),
            final(self).ledger.balances() == old(self).ledger.balances().insert(
                to_token_account,
                (old(self).ledger.balance(to_token_account) + amount) as u64,
            ),
            final(self).idendities@ == old(self).idendities@,
            final(self).recovery_authorities@ == old(self).recovery_authorities@,
            final(self).last_tx@ == old(self).last_tx@,
            final(self).two_auth@ == old(self).two_auth@,
            final(self).approvals@ == old(self).approvals@,
            final(self).recovery_cooldown == old(self).recovery_cooldown,
    {
        self.ledger.mint_tokens(to_token_account, amount);
    }

    /// Issues a new identity record for a protected asset account, with a
    /// single attestation by `issuer` that expires `id_validity_duration`
    /// after `now`. At most one record per account ever exists: a second
    /// issuance fails with `IdendityAlreadyExists`.
    pub fn add_idendity(
        &mut self,
        issuer: Address,
        owner: Address,
        token_account: Address,
        id_validity_duration: i64,
        now: i64,
    ) -> (r: Result<(), IdendityError>)
        requires
            old(self).wf(),
            i64::MIN <= now + id_validity_duration <= i64::MAX,
        ensures
            final(self).wf(),
            r is Err <==> old(self).idendities@.contains_key(token_account),
            r is Err ==> r == Err::<(), IdendityError>(IdendityError::IdendityAlreadyExists)
                && final(self).idendities@ == old(self).idendities@,
            r is Ok ==> {
                &&& forall|k: Address| #[trigger]
                    final(self).idendities@.contains_key(k) <==> (
                    old(self).idendities@.contains_key(k) || k == token_account)
                &&& final(self).idendities@[token_account].owner == owner
                &&& final(self).idendities@[token_account].token_account == token_account
                &&& final(self).idendities@[token_account].issuers@.len() == 1
                &&& final(self).idendities@[token_account].issuers@[0] == (Issuer {
                    key: issuer,
                    last_modified: now,
                    expires_at: (now + id_validity_duration) as i64,
                    active: true,
                })
                &&& !final(self).idendities@[token_account].redirected()
                &&& forall|k: Address|
                    k != token_account && #[trigger] old(self).idendities@.contains_key(k)
                        ==> final(self).idendities@[k] == old(self).idendities@[k]
            },
            final(self).recovery_authorities@ == old(self).recovery_authorities@,
            final(self).last_tx@ == old(self).last_tx@,
            final(self).two_auth@ == old(self).two_auth@,
            final(self).approvals@ == old(self).approvals@,
            final(self).ledger.balances() == old(self).ledger.balances(),
            final(self).recovery_cooldown == old(self).recovery_cooldown,
    {
        if self.idendities.contains_key(&token_account) {
            return Err(IdendityError::IdendityAlreadyExists);
        }
        let record = new_idendity(owner, token_account, issuer, now, id_validity_duration);
        self.idendities.insert(token_account, record);
        Ok(())
    }

    /// Appends an attestation by `issuer` to an existing identity record.
    /// The same issuer can attest a record only once: a repeated addition
    /// fails with `IdendityAlreadyExists` whatever the duration argument.
    pub fn add_issuer_to_idendity(
        &mut self,
        issuer: Address,
        token_account: Address,
        id_validity_duration: i64,
        now: i64,
    ) -> (r: Result<(), IdendityError>)
        requires
            old(self).wf(),
            old(self).idendities@.contains_key(token_account),
            i64::MIN <= now + id_validity_duration <= i64::MAX,
        ensures
            final(self).wf(),
            r is Err <==> old(self).idendities@[token_account].issuer_known(issuer),
            r is Err ==> r == Err::<(), IdendityError>(IdendityError::IdendityAlreadyExists)
                && final(self).idendities@ == old(self).idendities@,
            r is Ok ==> {
                &&& forall|k: Address| #[trigger]
                    final(self).idendities@.contains_key(k) <==> old(self).idendities@.contains_key(k)
                &&& final(self).idendities@[token_account].issuers@ == old(self).idendities@[token_account].issuers@.push(Issuer {
                    key: issuer,
                    last_modified: now,
                    expires_at: (now + id_validity_duration) as i64,
                    active: true,
                })
                &&& final(self).idendities@[token_account].owner == old(self).idendities@[token_account].owner
                &&& final(self).idendities@[token_account].recovered_token_address == old(self).idendities@[token_account].recovered_token_address
                &&& forall|k: Address|
                    k != token_account && #[trigger] old(self).idendities@.contains_key(k)
                        ==> final(self).idendities@[k] == old(self).idendities@[k]
            },
            final(self).recovery_authorities@ == old(self).recovery_authorities@,
            final(self).last_tx@ == old(self).last_tx@,
            final(self).two_auth@ == old(self).two_auth@,
            final(self).approvals@ == old(self).approvals@,
            final(self).ledger.balances() == old(self).ledger.balances(),
            final(self).recovery_cooldown == old(self).recovery_cooldown,
    {
        let mut record = self.idendities.remove(&token_account).unwrap();
        let result = add_issuer(&mut record, issuer, now, id_validity_duration);
        self.idendities.insert(token_account, record);
        proof {
            if result is Err {
                assert(final(self).idendities@ =~= old(self).idendities@);
            }
        }
        result
    }

    /// One-time creation of the recovery delegation and the last-activity
    /// record of an owner. The threshold must lie between one and the number
    /// of delegates; the delegation is immutable afterwards.
    pub fn initialize_recovery(
        &mut self,
        owner: Address,
        recovery_delegates: Vec<Address>,
        minimum_signatures: u8,
        now: i64,
    )
        requires
            old(self).wf(),
            !old(self).recovery_authorities@.contains_key(owner),
            !old(self).last_tx@.contains_key(owner),
            1 <= minimum_signatures <= recovery_delegates@.len(),
        ensures
            final(self).wf(),
            forall|k: Address| #[trigger]
                final(self).recovery_authorities@.contains_key(k) <==> (
                old(self).recovery_authorities@.contains_key(k) || k == owner),
            final(self).recovery_authorities@[owner].authorities@ == recovery_delegates@,
            final(self).recovery_authorities@[owner].minimum_signatures == minimum_signatures,
            forall|k: Address|
                k != owner && #[trigger] old(self).recovery_authorities@.contains_key(k)
                    ==> final(self).recovery_authorities@[k] == old(self).recovery_authorities@[k],
            final(self).last_tx@ == old(self).last_tx@.insert(
                owner,
                LastTx { last_tx_timestamp: now },
            ),
            final(self).idendities@ == old(self).idendities@,
            final(self).two_auth@ == old(self).two_auth@,
            final(self).approvals@ == old(self).approvals@,
            final(self).ledger.balances() == old(self).ledger.balances(),
            final(self).recovery_cooldown == old(self).recovery_cooldown,
    {
        self.last_tx.insert(owner, LastTx { last_tx_timestamp: now });
        let recovery_authority = RecoveryAuthority {
            authorities: recovery_delegates,
            minimum_signatures,
        };
        self.recovery_authorities.insert(owner, recovery_authority);
    }

    /// One-time creation of the step-up configuration of a protected asset
    /// account, together with the owner's (initially inactive) pending
    /// approval slot.
    pub fn initialize_two_auth(
        &mut self,
        owner: Address,
        token_account: Address,
        two_auth_entity: Address,
        functions: Vec<TwoAuthFunction>,
        allowed_issuers: Vec<Address>,
    )
        requires
            old(self).wf(),
            !old(self).two_auth@.contains_key(token_account),
            !old(self).approvals@.contains_key(owner),
        ensures
            final(self).wf(),
            forall|k: Address| #[trigger]
                final(self).two_auth@.contains_key(k) <==> (old(self).two_auth@.contains_key(k)
                    || k == token_account),
            final(self).two_auth@[token_account].functions@ == functions@,
            final(self).two_auth@[token_account].two_auth_entity == two_auth_entity,
            final(self).two_auth@[token_account].allowed_issuers@ == allowed_issuers@,
            forall|k: Address|
                k != token_account && #[trigger] old(self).two_auth@.contains_key(k)
                    ==> final(self).two_auth@[k] == old(self).two_auth@[k],
            final(self).approvals@ == old(self).approvals@.insert(
                owner,
                TransactionAproval {
                    transaction: TransactionRepresentation {
                        source: 0,
                        destination: 0,
                        amount: 0,
                        time: 0,
                    },
                    active: false,
                },
            ),
            final(self).idendities@ == old(self).idendities@,
            final(self).recovery_authorities@ == old(self).recovery_authorities@,
            final(self).last_tx@ == old(self).last_tx@,
            final(self).ledger.balances() == old(self).ledger.balances(),
            final(self).recovery_cooldown == old(self).recovery_cooldown,
    {
        let two_auth_parameters = TwoAuthParameters { functions, two_auth_entity, allowed_issuers };
        self.two_auth.insert(token_account, two_auth_parameters);
        let transaction_approval = TransactionAproval {
            transaction: TransactionRepresentation { source: 0, destination: 0, amount: 0, time: 0 },
            active: false,
        };
        self.approvals.insert(owner, transaction_approval);
    }

    /// Records a pending approval for the owner's next matching transfer.
    /// Only the designated approving address of the asset account may do so;
    /// each approval overwrites the previous one and is set active.
    pub fn approve_transaction(
        &mut self,
        approver: Address,
        owner: Address,
        token_account: Address,
        transaction: TransactionRepresentation,
    ) -> (r: Result<(), TwoAuthError>)
        requires
            old(self).wf(),
            old(self).two_auth@.contains_key(token_account),
            old(self).approvals@.contains_key(owner),
        ensures
            final(self).wf(),
            r is Err <==> approver != old(self).two_auth@[token_account].two_auth_entity,
            r is Err ==> r == Err::<(), TwoAuthError>(TwoAuthError::NotAuthorized) && final(self).approvals@ == old(self).approvals@,
            r is Ok ==> final(self).approvals@ == old(self).approvals@.insert(
                owner,
                TransactionAproval { transaction, active: true },
            ),
            final(self).idendities@ == old(self).idendities@,
            final(self).recovery_authorities@ == old(self).recovery_authorities@,
            final(self).last_tx@ == old(self).last_tx@,
            final(self).two_auth@ == old(self).two_auth@,
            final(self).ledger.balances() == old(self).ledger.balances(),
            final(self).recovery_cooldown == old(self).recovery_cooldown,
    {
        let two_auth_parameters = self.two_auth.get(&token_account).unwrap();
        if two_auth_parameters.two_auth_entity != approver {
            return Err(TwoAuthError::NotAuthorized);
        }
        let transaction_approval = TransactionAproval { transaction, active: true };
        self.approvals.insert(owner, transaction_approval);
        Ok(())
    }

    /// Quorum-checked ownership transfer of a protected account. Counts the
    /// authorized recovery addresses among the signers (rejecting below the
    /// threshold), enforces the recovery cooldown against the owner's last
    /// activity, records the redirect exactly once, and then effects the
    /// ledger transfer: burn the source's full balance, mint the same amount
    /// into the new owner's account, close the emptied source account.
    pub fn recover_account(
        &mut self,
        owner: Address,
        new_token_account: Address,
        source_token: Address,
        signers: &Vec<Address>,
        now: i64,
    ) -> (r: Result<(), GateError>)
        requires
            old(self).wf(),
            old(self).recovery_authorities@.contains_key(owner),
            old(self).last_tx@.contains_key(owner),
            old(self).idendities@.contains_key(source_token),
            old(self).ledger.has_account(source_token),
            old(self).ledger.has_account(new_token_account),
            new_token_account != source_token,
            old(self).ledger.balance(new_token_account) + old(self).ledger.balance(source_token)
                <= u64::MAX,
        ensures
            final(self).wf(),
            r == recover_result(
                old(self).recovery_authorities@[owner],
                old(self).last_tx@[owner],
                old(self).idendities@[source_token],
                signers@,
                old(self).recovery_cooldown,
                now,
            ),
            r is Err ==> final(self).idendities@ == old(self).idendities@ && final(self).ledger.balances() == old(self).ledger.balances(),
            r is Ok ==> {
                &&& forall|k: Address| #[trigger]
                    final(self).idendities@.contains_key(k) <==> old(self).idendities@.contains_key(k)
                &&& final(self).idendities@[source_token].recovered_token_address@ == old(self).idendities@[source_token].recovered_token_address@.push(new_token_account)
                &&& final(self).idendities@[source_token].issuers == old(self).idendities@[source_token].issuers
                &&& forall|k: Address|
                    k != source_token && #[trigger] old(self).idendities@.contains_key(k)
                        ==> final(self).idendities@[k] == old(self).idendities@[k]
                &&& final(self).ledger.balances() == old(self).ledger.balances().insert(
                    new_token_account,
                    (old(self).ledger.balance(new_token_account) + old(self).ledger.balance(
                        source_token,
                    )) as u64,
                ).remove(source_token)
                &&& !final(self).ledger.has_account(source_token)
                &&& final(self).ledger.balance(new_token_account) == old(self).ledger.balance(
                    new_token_account,
                ) + old(self).ledger.balance(source_token)
            },
            final(self).recovery_authorities@ == old(self).recovery_authorities@,
            final(self).last_tx@ == old(self).last_tx@,
            final(self).two_auth@ == old(self).two_auth@,
            final(self).approvals@ == old(self).approvals@,
            final(self).recovery_cooldown == old(self).recovery_cooldown,
    {
        let recovery_authority = self.recovery_authorities.get(&owner).unwrap();
        if !quorum_reached(
            &recovery_authority.authorities,
            signers,
            recovery_authority.minimum_signatures,
        ) {
            return Err(GateError::Recovery(RecoveryError::NotEnoughSignatures));
        }

        let last_tx = self.last_tx.get(&owner).unwrap();
        if (last_tx.last_tx_timestamp as i128) + (self.recovery_cooldown as i128) > (now as i128) {
            return Err(GateError::Recovery(RecoveryError::RecoveryTimeNotPassed));
        }

        let mut idendity = self.idendities.remove(&source_token).unwrap();
        match mark_recovered(&mut idendity, new_token_account) {
            Err(e) => {
                self.idendities.insert(source_token, idendity);
                proof {
                    assert(self.idendities@ =~= old(self).idendities@);
                }
                return Err(GateError::Idendity(e));
            },
            Ok(()) => {},
        }
        self.idendities.insert(source_token, idendity);

        let amount = self.ledger.balance_of(source_token).unwrap();
        self.ledger.burn_tokens(source_token, amount);
        self.ledger.mint_tokens(new_token_account, amount);
        self.ledger.close_token_account(source_token);
        proof {
            assert(self.ledger.balances() =~= old(self).ledger.balances().insert(
                new_token_account,
                (old(self).ledger.balance(new_token_account) + old(self).ledger.balance(
                    source_token,
                )) as u64,
            ).remove(source_token));
        }
        Ok(())
    }

    /// Runs the checks for one transfer and stops at the first failure.
    /// Validates both identities, rejects a recovered sender
    /// unless the transfer targets the redirect, consumes a matching
    /// approval when the step-up policy requires one, and finally moves the
    /// owner's last-activity timestamp forward to `now`. On any failure the
    /// state is untouched and the transfer must not settle.
    pub fn transfer_hook(
        &mut self,
        owner: Address,
        source_token: Address,
        destination_token: Address,
        amount: u64,
        now: i64,
    ) -> (r: Result<(), GateError>)
        requires
            old(self).wf(),
            old(self).idendities@.contains_key(source_token),
            old(self).idendities@.contains_key(destination_token),
            old(self).two_auth@.contains_key(source_token),
            old(self).approvals@.contains_key(owner),
            old(self).last_tx@.contains_key(owner),
            old(self).last_tx@[owner].last_tx_timestamp <= now,
        ensures
            final(self).wf(),
            r == transfer_hook_result(
                old(self).idendities@[source_token],
                old(self).idendities@[destination_token],
                old(self).two_auth@[source_token].functions@,
                old(self).approvals@[owner],
                source_token,
                destination_token,
                amount,
                now,
            ),
            r is Err ==> final(self).last_tx@ == old(self).last_tx@ && final(self).approvals@
                == old(self).approvals@,
            r is Ok ==> final(self).last_tx@ == old(self).last_tx@.insert(
                owner,
                LastTx { last_tx_timestamp: now },
            ),
            // The last-activity timestamp is only ever set forward.
            final(self).last_tx@[owner].last_tx_timestamp >= old(
                self,
            ).last_tx@[owner].last_tx_timestamp,
            r is Ok ==> final(self).approvals@ == (if policy_requires_two_auth(
                amount,
                old(self).two_auth@[source_token].functions@,
            ) {
                old(self).approvals@.insert(
                    owner,
                    TransactionAproval {
                        transaction: old(self).approvals@[owner].transaction,
                        active: false,
                    },
                )
            } else {
                old(self).approvals@
            }),
            final(self).idendities@ == old(self).idendities@,
            final(self).recovery_authorities@ == old(self).recovery_authorities@,
            final(self).two_auth@ == old(self).two_auth@,
            final(self).ledger.balances() == old(self).ledger.balances(),
            final(self).recovery_cooldown == old(self).recovery_cooldown,
    {
        let idendity_sender = self.idendities.get(&source_token).unwrap();
        let idendity_receiver = self.idendities.get(&destination_token).unwrap();
        match check_idendities(idendity_sender, idendity_receiver, now) {
            Err(e) => {
                return Err(GateError::Idendity(e));
            },
            Ok(()) => {},
        }
        match check_not_recovered(idendity_sender, destination_token) {
            Err(e) => {
                return Err(GateError::Idendity(e));
            },
            Ok(()) => {},
        }

        let two_auth_parameters = self.two_auth.get(&source_token).unwrap();
        if need_two_auth(two_auth_parameters, amount) {
            let transaction_approval = self.approvals.get(&owner).unwrap();
            match check_approval(transaction_approval, source_token, destination_token, amount, now)
            {
                Err(e) => {
                    return Err(GateError::TwoAuth(e));
                },
                Ok(()) => {},
            }
            let mut consumed = self.approvals.remove(&owner).unwrap();
            consumed.active = false;
            self.approvals.insert(owner, consumed);
        }

        self.last_tx.insert(owner, LastTx { last_tx_timestamp: now });
        Ok(())
    }
}

/// Recovery's ledger effect is balance-preserving. `recover_account` turns
/// the balances into
/// `balances.insert(dest, balance(dest) + balance(source)).remove(source)`;
/// when the new owner's account starts empty, the recovered account ends up
/// holding exactly the source's balance from before the burn, and the old
/// source account no longer exists.
pub proof fn lemma_recovery_balance_preserving(
    old_balances: Map<Address, u64>,
    new_balances: Map<Address, u64>,
    source_token: Address,
    new_token_account: Address,
)
    requires
        old_balances.contains_key(source_token),
        old_balances.contains_key(new_token_account),
        new_token_account != source_token,
        old_balances[new_token_account] == 0,
        new_balances == old_balances.insert(
            new_token_account,
            (old_balances[new_token_account] + old_balances[source_token]) as u64,
        ).remove(source_token),
    ensures
        !new_balances.contains_key(source_token),
        new_balances[new_token_account] == old_balances[source_token],
{
}

} // verus!
