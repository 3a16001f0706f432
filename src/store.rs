//! Storage of client accounts and of the transactions that can be disputed.

use std::collections::HashMap;
use vstd::prelude::*;

use crate::money::{fits_i128, MoneyAmount};

verus! {

broadcast use vstd::std_specs::hash::group_hash_axioms;

/// Identifier of a client account.
pub type ClientId = u16;

/// Identifier of a transaction.
pub type TransactionId = u32;

/// The balances of one client.
#[derive(Clone, Copy, Debug, PartialEq, Eq, Structural)]
pub struct Account {
    /// Funds the client may withdraw or dispute against.
    pub available: MoneyAmount,
    /// Funds frozen while a dispute is open.
    pub held: MoneyAmount,
    /// Whether a chargeback has frozen the account.
    pub locked: bool,
}

/// An account with zero balances that is not locked.
pub open spec fn zero_account() -> Account {
    Account {
        available: MoneyAmount { units: 0 },
        held: MoneyAmount { units: 0 },
        locked: false,
    }
}

impl Account {
    /// Available plus held funds, in ten-thousandths.
    pub open spec fn total(&self) -> int {
        self.available.units + self.held.units
    }

    /// Whether the total can be held by an amount.
    pub open spec fn total_fits(&self) -> bool {
        fits_i128(self.total())
    }

    /// An account with zero balances that is not locked.
    pub fn new() -> (r: Account)
        ensures
            r == zero_account(),
    {
        Account { available: MoneyAmount::zero(), held: MoneyAmount::zero(), locked: false }
    }

    /// Sum of available and held funds.
    pub fn total_funds(&self) -> (r: MoneyAmount)
        requires
            self.total_fits(),
        ensures
            r.units == self.total(),
    {
        MoneyAmount { units: self.available.units + self.held.units }
    }
}

/// Where a stored transaction stands in the dispute life-cycle.
#[derive(Clone, Copy, Debug, PartialEq, Eq, Structural)]
pub enum DisputeState {
    NotDisputed,
    Disputed,
    Resolved,
    ChargedBack,
}

/// A deposit or withdrawal kept so that it can be disputed later.
#[derive(Clone, Copy, Debug, PartialEq, Eq, Structural)]
pub struct StoredTransaction {
    /// The amount deposited or withdrawn.
    pub amount: MoneyAmount,
    /// Where the transaction stands in the dispute life-cycle.
    pub state: DisputeState,
}

/// The abstract content of a ledger.
pub struct LedgerView {
    pub accounts: Map<ClientId, Account>,
    pub transactions: Map<TransactionId, StoredTransaction>,
}

/// `s` with an account for `client`, created with zero balances if absent.
pub open spec fn with_account(s: LedgerView, client: ClientId) -> LedgerView {
    if s.accounts.contains_key(client) {
        s
    } else {
        LedgerView { accounts: s.accounts.insert(client, zero_account()), transactions: s.transactions }
    }
}

/// Whether every account's total can be held by an amount.
pub open spec fn totals_fit(s: LedgerView) -> bool {
    forall|c: ClientId| #[trigger] s.accounts.contains_key(c) ==> s.accounts[c].total_fits()
}

/// Client accounts and the deposits and withdrawals that were applied.
pub struct Ledger {
    accounts: HashMap<ClientId, Account>,
    transactions: HashMap<TransactionId, StoredTransaction>,
}

impl View for Ledger {
    type V = LedgerView;

    closed spec fn view(&self) -> LedgerView {
        LedgerView { accounts: self.accounts@, transactions: self.transactions@ }
    }
}

impl Ledger {
    /// A ledger with no account and no transaction.
    pub fn new() -> (r: Ledger)
        ensures
            r@.accounts == Map::<ClientId, Account>::empty(),
            r@.transactions == Map::<TransactionId, StoredTransaction>::empty(),
    {
        Ledger { accounts: HashMap::new(), transactions: HashMap::new() }
    }

    /// The account of `client`, if it was ever referenced.
    pub fn account(&self, client: ClientId) -> (r: Option<Account>)
        ensures
            match r {
                Some(a) => self@.accounts.contains_key(client) && a == self@.accounts[client],
                None => !self@.accounts.contains_key(client),
            },
    {
        match self.accounts.get(&client) {
            Some(a) => Some(*a),
            None => None,
        }
    }

    /// Number of accounts.
    pub fn num_accounts(&self) -> (r: usize)
        ensures
            r == self@.accounts.len(),
    {
        self.accounts.len()
    }

    /// All accounts, by client.
    pub fn accounts(&self) -> (r: &HashMap<ClientId, Account>)
        ensures
            r@ == self@.accounts,
    {
        &self.accounts
    }

    /// The account of `client`, created with zero balances if absent.
    pub fn get_or_create_account(&mut self, client: ClientId) -> (r: Account)
        ensures
            final(self)@ == with_account(old(self)@, client),
            r == final(self)@.accounts[client],
    {
        match self.accounts.get(&client) {
            Some(a) => *a,
            None => {
                let a = Account::new();
                self.accounts.insert(client, a);
                a
            },
        }
    }

    /// Replaces the account of `client`.
    pub fn set_account(&mut self, client: ClientId, account: Account)
        ensures
            final(self)@.accounts == old(self)@.accounts.insert(client, account),
            final(self)@.transactions == old(self)@.transactions,
    {
        self.accounts.insert(client, account);
    }

    /// The stored transaction `tx`, if any.
    pub fn get_transaction(&self, tx: TransactionId) -> (r: Option<StoredTransaction>)
        ensures
            match r {
                Some(t) => self@.transactions.contains_key(tx) && t == self@.transactions[tx],
                None => !self@.transactions.contains_key(tx),
            },
    {
        match self.transactions.get(&tx) {
            Some(t) => Some(*t),
            None => None,
        }
    }

    /// Stores `amount` under `tx`, not disputed, replacing any earlier entry.
    pub fn record_transaction(&mut self, tx: TransactionId, amount: MoneyAmount)
        ensures
            final(self)@.accounts == old(self)@.accounts,
            final(self)@.transactions == old(self)@.transactions.insert(
                tx,
                StoredTransaction { amount, state: DisputeState::NotDisputed },
            ),
    {
        self.transactions.insert(tx, StoredTransaction { amount, state: DisputeState::NotDisputed });
    }

    /// Moves the stored transaction `tx` to `state`, keeping its amount.
    pub fn set_dispute_state(&mut self, tx: TransactionId, state: DisputeState)
        requires
            old(self)@.transactions.contains_key(tx),
        ensures
            final(self)@.accounts == old(self)@.accounts,
            final(self)@.transactions == old(self)@.transactions.insert(
                tx,
                StoredTransaction { amount: old(self)@.transactions[tx].amount, state },
            ),
    {
        let t = *self.transactions.get(&tx).unwrap();
        self.transactions.insert(tx, StoredTransaction { amount: t.amount, state });
    }
}

} // verus!
