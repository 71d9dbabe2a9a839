//! A model of the asset ledger at its interface: per-account balances of the
//! single fungible asset, with the mint, burn and close effects the recovery
//! protocol and the issuance operations rely on. In a deployment a separate
//! ledger service applies these effects; this model applies them directly,
//! as verified transitions.

use std::collections::HashMap;
use vstd::prelude::*;

use crate::Address;

verus! {

/// Per-account balances of the fungible asset. An account is present from
/// its creation until it is closed.
#[derive(Debug)]
pub struct TokenLedger {
    pub accounts: HashMap<Address, u64>,
}

impl TokenLedger {
    /// The ledger as a map from account address to balance.
    pub open spec fn balances(self) -> Map<Address, u64> {
        self.accounts@
    }

    /// Whether an asset account exists.
    pub open spec fn has_account(self, account: Address) -> bool {
        self.accounts@.contains_key(account)
    }

    /// The balance of an existing account.
    pub open spec fn balance(self, account: Address) -> u64 {
        self.accounts@[account]
    }

    /// An empty ledger with no asset accounts.
    pub fn new() -> (r: TokenLedger)
        ensures
            r.balances() == Map::<Address, u64>::empty(),
    {
        TokenLedger { accounts: HashMap::new() }
    }

    /// Creates an empty asset account.
    pub fn add_token_account(&mut self, account: Address)
        requires
            !old(self).has_account(account),
        ensures
            final(self).balances() == old(self).balances().insert(account, 0u64),
    {
        self.accounts.insert(account, 0);
    }

    /// The balance of the account, or `None` if no such account exists.
    pub fn balance_of(&self, account: Address) -> (r: Option<u64>)
        ensures
            match r {
                Some(b) => self.has_account(account) && b == self.balance(account),
                None => !self.has_account(account),
            },
    {
        match self.accounts.get(&account) {
            Some(b) => Some(*b),
            None => None,
        }
    }

    /// Mints `amount` into an existing account.
    pub fn mint_tokens(&mut self, account: Address, amount: u64)
        requires
            old(self).has_account(account),
            old(self).balance(account) + amount <= u64::MAX,
        ensures
            final(self).balances() == old(self).balances().insert(
                account,
                (old(self).balance(account) + amount) as u64,
            ),
    {
        let b = *self.accounts.get(&account).unwrap();
        self.accounts.insert(account, b + amount);
    }

    /// Burns `amount` from an existing account.
    pub fn burn_tokens(&mut self, account: Address, amount: u64)
        requires
            old(self).has_account(account),
            amount <= old(self).balance(account),
        ensures
            final(self).balances() == old(self).balances().insert(
                account,
                (old(self).balance(account) - amount) as u64,
            ),
    {
        let b = *self.accounts.get(&account).unwrap();
        self.accounts.insert(account, b - amount);
    }

    /// Closes an account. Only an emptied account may be closed, so closing
    /// never destroys asset units.
    pub fn close_token_account(&mut self, account: Address)
        requires
            old(self).has_account(account),
            old(self).balance(account) == 0,
        ensures
            final(self).balances() == old(self).balances().remove(account),
    {
        self.accounts.remove(&account);
    }
}

} // verus!
