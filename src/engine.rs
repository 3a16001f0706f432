//! The transaction engine: validates one record at a time and applies it to a
//! ledger.

use vstd::prelude::*;
use vstd::string::StringExecFns;

use crate::money::{fits_i128, MoneyAmount};
use crate::store::{
    with_account, Account, ClientId, DisputeState, Ledger, LedgerView, StoredTransaction,
    TransactionId,
};

verus! {

/// The kind of a record.
#[derive(Clone, Copy, Debug, PartialEq, Eq, Structural)]
pub enum RecordKind {
    Deposit,
    Withdrawal,
    Dispute,
    Resolve,
    Chargeback,
}

/// The kind that a record's type name stands for, if any.
pub open spec fn kind_named(name: Seq<char>) -> Option<RecordKind> {
    if name == "deposit"@ {
        Some(RecordKind::Deposit)
    } else if name == "withdrawal"@ {
        Some(RecordKind::Withdrawal)
    } else if name == "dispute"@ {
        Some(RecordKind::Dispute)
    } else if name == "resolve"@ {
        Some(RecordKind::Resolve)
    } else if name == "chargeback"@ {
        Some(RecordKind::Chargeback)
    } else {
        None
    }
}

impl RecordKind {
    /// Decodes a record's type name; an unknown name is rejected and carries
    /// the name.
    pub fn from_name(name: &str) -> (r: Result<RecordKind, Rejection>)
        ensures
            match kind_named(name@) {
                Some(k) => r == Ok::<RecordKind, Rejection>(k),
                None => r matches Err(Rejection::UnknownTransactionType(n)) && n@ == name@,
            },
    {
        let n = String::from_str(name);
        if n == String::from_str("deposit") {
            Ok(RecordKind::Deposit)
        } else if n == String::from_str("withdrawal") {
            Ok(RecordKind::Withdrawal)
        } else if n == String::from_str("dispute") {
            Ok(RecordKind::Dispute)
        } else if n == String::from_str("resolve") {
            Ok(RecordKind::Resolve)
        } else if n == String::from_str("chargeback") {
            Ok(RecordKind::Chargeback)
        } else {
            Err(Rejection::UnknownTransactionType(n))
        }
    }
}

/// One record of the input stream.
///
/// For a deposit or a withdrawal `tx` names the new transaction; for a
/// dispute, resolve or chargeback it names the transaction that is targeted.
#[derive(Clone, Copy, Debug, PartialEq, Eq, Structural)]
pub struct Record {
    pub kind: RecordKind,
    pub client: ClientId,
    pub tx: TransactionId,
    pub amount: Option<MoneyAmount>,
}

/// Why a record was rejected. A rejected record changes no balance.
#[derive(Clone, Debug, PartialEq, Eq)]
pub enum Rejection {
    /// The record carried an amount that is zero or negative.
    InvalidAmount(MoneyAmount),
    /// A deposit carried no amount.
    DepositWithoutAmount,
    /// A withdrawal carried no amount.
    WithdrawalWithoutAmount,
    /// A withdrawal asked for more than is available: client, requested
    /// amount, available amount.
    NotEnoughAvailableFunds(ClientId, MoneyAmount, MoneyAmount),
    /// No deposit or withdrawal is stored under this id.
    UnknownTransactionId(TransactionId),
    /// The targeted transaction was disputed before.
    TransactionAlreadyUnderDispute(TransactionId),
    /// The targeted transaction is not under dispute.
    TransactionNotUnderDispute(TransactionId),
    /// The client's account is locked.
    ClientLocked(ClientId),
    /// The type name of a record is not one of the five known kinds.
    UnknownTransactionType(String),
    /// A balance of this client would leave the range of an amount.
    BalanceOverflow(ClientId),
}

/// Whether an account with these balances can be kept.
pub open spec fn balances_fit(available: int, held: int) -> bool {
    fits_i128(available) && fits_i128(held) && fits_i128(available + held)
}

/// `a` with the given balances and lock flag.
pub open spec fn with_balances(a: Account, available: int, held: int, locked: bool) -> Account {
    Account {
        available: MoneyAmount { units: available as i128 },
        held: MoneyAmount { units: held as i128 },
        locked,
    }
}

/// `s` with the account of `client` replaced.
pub open spec fn put_account(s: LedgerView, client: ClientId, a: Account) -> LedgerView {
    LedgerView { accounts: s.accounts.insert(client, a), transactions: s.transactions }
}

/// `s` with `tx` stored as a new, undisputed transaction of `amount`.
pub open spec fn put_transaction(s: LedgerView, tx: TransactionId, amount: MoneyAmount) -> LedgerView {
    LedgerView {
        accounts: s.accounts,
        transactions: s.transactions.insert(
            tx,
            StoredTransaction { amount, state: DisputeState::NotDisputed },
        ),
    }
}

/// `s` with the stored transaction `tx` moved to `state`.
pub open spec fn put_state(s: LedgerView, tx: TransactionId, state: DisputeState) -> LedgerView {
    LedgerView {
        accounts: s.accounts,
        transactions: s.transactions.insert(
            tx,
            StoredTransaction { amount: s.transactions[tx].amount, state },
        ),
    }
}

/// A deposit of `amount` to `client` under `tx`, once the account exists
/// and is not locked.
pub open spec fn deposit_step(s: LedgerView, client: ClientId, tx: TransactionId, amount: Option<MoneyAmount>) -> (LedgerView, Result<(), Rejection>) {
    let a = s.accounts[client];
    match amount {
        None => (s, Err(Rejection::DepositWithoutAmount)),
        Some(m) => {
            let available = a.available.units + m.units;
            if !balances_fit(available, a.held.units as int) {
                (s, Err(Rejection::BalanceOverflow(client)))
            } else {
                (
                    put_transaction(
                        put_account(s, client, with_balances(a, available, a.held.units as int, a.locked)),
                        tx,
                        m,
                    ),
                    Ok(()),
                )
            }
        },
    }
}

/// A withdrawal of `amount` from `client` under `tx`, once the account
/// exists and is not locked.
pub open spec fn withdrawal_step(s: LedgerView, client: ClientId, tx: TransactionId, amount: Option<MoneyAmount>) -> (LedgerView, Result<(), Rejection>) {
    let a = s.accounts[client];
    match amount {
        None => (s, Err(Rejection::WithdrawalWithoutAmount)),
        Some(m) => {
            let available = a.available.units - m.units;
            if a.available.units < m.units {
                (s, Err(Rejection::NotEnoughAvailableFunds(client, m, a.available)))
            } else if !balances_fit(available, a.held.units as int) {
                (s, Err(Rejection::BalanceOverflow(client)))
            } else {
                (
                    put_transaction(
                        put_account(s, client, with_balances(a, available, a.held.units as int, a.locked)),
                        tx,
                        m,
                    ),
                    Ok(()),
                )
            }
        },
    }
}

/// A dispute by `client` of the stored transaction `tx`, once the account
/// exists and is not locked.
pub open spec fn dispute_step(s: LedgerView, client: ClientId, tx: TransactionId) -> (LedgerView, Result<(), Rejection>) {
    let a = s.accounts[client];
    if !s.transactions.contains_key(tx) {
        (s, Err(Rejection::UnknownTransactionId(tx)))
    } else if s.transactions[tx].state != DisputeState::NotDisputed {
        (s, Err(Rejection::TransactionAlreadyUnderDispute(tx)))
    } else {
        let m = s.transactions[tx].amount.units;
        let available = a.available.units - m;
        let held = a.held.units + m;
        if !balances_fit(available, held) {
            (s, Err(Rejection::BalanceOverflow(client)))
        } else {
            (
                put_state(put_account(s, client, with_balances(a, available, held, a.locked)), tx, DisputeState::Disputed),
                Ok(()),
            )
        }
    }
}

/// A resolve by `client` of the stored transaction `tx`, once the account
/// exists and is not locked.
pub open spec fn resolve_step(s: LedgerView, client: ClientId, tx: TransactionId) -> (LedgerView, Result<(), Rejection>) {
    let a = s.accounts[client];
    if !s.transactions.contains_key(tx) {
        (s, Err(Rejection::UnknownTransactionId(tx)))
    } else if s.transactions[tx].state != DisputeState::Disputed {
        (s, Err(Rejection::TransactionNotUnderDispute(tx)))
    } else {
        let m = s.transactions[tx].amount.units;
        let available = a.available.units + m;
        let held = a.held.units - m;
        if !balances_fit(available, held) {
            (s, Err(Rejection::BalanceOverflow(client)))
        } else {
            (
                put_state(put_account(s, client, with_balances(a, available, held, a.locked)), tx, DisputeState::Resolved),
                Ok(()),
            )
        }
    }
}

/// A chargeback by `client` of the stored transaction `tx`, once the account
/// exists and is not locked.
pub open spec fn chargeback_step(s: LedgerView, client: ClientId, tx: TransactionId) -> (LedgerView, Result<(), Rejection>) {
    let a = s.accounts[client];
    if !s.transactions.contains_key(tx) {
        (s, Err(Rejection::UnknownTransactionId(tx)))
    } else if s.transactions[tx].state != DisputeState::Disputed {
        (s, Err(Rejection::TransactionNotUnderDispute(tx)))
    } else {
        let m = s.transactions[tx].amount.units;
        let held = a.held.units - m;
        if !balances_fit(a.available.units as int, held) {
            (s, Err(Rejection::BalanceOverflow(client)))
        } else {
            (
                put_state(put_account(s, client, with_balances(a, a.available.units as int, held, true)), tx, DisputeState::ChargedBack),
                Ok(()),
            )
        }
    }
}

/// The ledger and the outcome after applying `r` to `s`.
pub open spec fn step(s: LedgerView, r: Record) -> (LedgerView, Result<(), Rejection>) {
    if r.amount is Some && r.amount->Some_0.units <= 0 {
        (s, Err(Rejection::InvalidAmount(r.amount->Some_0)))
    } else {
        let s1 = with_account(s, r.client);
        if s1.accounts[r.client].locked {
            (s1, Err(Rejection::ClientLocked(r.client)))
        } else {
            match r.kind {
                RecordKind::Deposit => deposit_step(s1, r.client, r.tx, r.amount),
                RecordKind::Withdrawal => withdrawal_step(s1, r.client, r.tx, r.amount),
                RecordKind::Dispute => dispute_step(s1, r.client, r.tx),
                RecordKind::Resolve => resolve_step(s1, r.client, r.tx),
                RecordKind::Chargeback => chargeback_step(s1, r.client, r.tx),
            }
        }
    }
}

/// The ledger after applying `records` to `s` in order.
pub open spec fn replay(s: LedgerView, records: Seq<Record>) -> LedgerView
    decreases records.len(),
{
    if records.len() == 0 {
        s
    } else {
        step(replay(s, records.drop_last()), records.last()).0
    }
}

/// A ledger with no account and no transaction.
pub open spec fn empty_ledger() -> LedgerView {
    LedgerView { accounts: Map::empty(), transactions: Map::empty() }
}

/// The balances `available` and `held` as an account, or `None` when they
/// cannot be kept.
fn checked_account(available: Option<MoneyAmount>, held: Option<MoneyAmount>, locked: bool) -> (r: Option<Account>)
    ensures
        match r {
            Some(a) => available is Some && held is Some && a.available == available->Some_0
                && a.held == held->Some_0 && a.locked == locked
                && fits_i128(a.available.units + a.held.units),
            None => available is None || held is None
                || !fits_i128(available->Some_0.units + held->Some_0.units),
        },
{
    match (available, held) {
        (Some(av), Some(h)) => match av.checked_add(&h) {
            Some(_) => Some(Account { available: av, held: h, locked }),
            None => None,
        },
        _ => None,
    }
}

impl Ledger {
    /// Applies a deposit to the existing, unlocked account of `client`.
    fn process_deposit(&mut self, client: ClientId, account: Account, tx: TransactionId, amount: Option<MoneyAmount>) -> (r: Result<(), Rejection>)
        requires
            old(self)@.accounts.contains_key(client),
            old(self)@.accounts[client] == account,
        ensures
            (final(self)@, r) == deposit_step(old(self)@, client, tx, amount),
    {
        let Some(amount) = amount else {
            return Err(Rejection::DepositWithoutAmount);
        };
        match checked_account(account.available.checked_add(&amount), Some(account.held), account.locked) {
            None => Err(Rejection::BalanceOverflow(client)),
            Some(updated) => {
                self.set_account(client, updated);
                self.record_transaction(tx, amount);
                Ok(())
            },
        }
    }

    /// Applies a withdrawal to the existing, unlocked account of `client`.
    fn process_withdrawal(&mut self, client: ClientId, account: Account, tx: TransactionId, amount: Option<MoneyAmount>) -> (r: Result<(), Rejection>)
        requires
            old(self)@.accounts.contains_key(client),
            old(self)@.accounts[client] == account,
        ensures
            (final(self)@, r) == withdrawal_step(old(self)@, client, tx, amount),
    {
        let Some(amount) = amount else {
            return Err(Rejection::WithdrawalWithoutAmount);
        };
        if account.available.units < amount.units {
            return Err(Rejection::NotEnoughAvailableFunds(client, amount, account.available));
        }
        match checked_account(account.available.checked_sub(&amount), Some(account.held), account.locked) {
            None => Err(Rejection::BalanceOverflow(client)),
            Some(updated) => {
                self.set_account(client, updated);
                self.record_transaction(tx, amount);
                Ok(())
            },
        }
    }

    /// Applies a dispute of `tx` to the existing, unlocked account of
    /// `client`.
    fn process_dispute(&mut self, client: ClientId, account: Account, tx: TransactionId) -> (r: Result<(), Rejection>)
        requires
            old(self)@.accounts.contains_key(client),
            old(self)@.accounts[client] == account,
        ensures
            (final(self)@, r) == dispute_step(old(self)@, client, tx),
    {
        let Some(target) = self.get_transaction(tx) else {
            return Err(Rejection::UnknownTransactionId(tx));
        };
        if target.state != DisputeState::NotDisputed {
            return Err(Rejection::TransactionAlreadyUnderDispute(tx));
        }
        match checked_account(
            account.available.checked_sub(&target.amount),
            account.held.checked_add(&target.amount),
            account.locked,
        ) {
            None => Err(Rejection::BalanceOverflow(client)),
            Some(updated) => {
                self.set_account(client, updated);
                self.set_dispute_state(tx, DisputeState::Disputed);
                Ok(())
            },
        }
    }

    /// Applies a resolve of `tx` to the existing, unlocked account of
    /// `client`.
    fn process_resolve(&mut self, client: ClientId, account: Account, tx: TransactionId) -> (r: Result<(), Rejection>)
        requires
            old(self)@.accounts.contains_key(client),
            old(self)@.accounts[client] == account,
        ensures
            (final(self)@, r) == resolve_step(old(self)@, client, tx),
    {
        let Some(target) = self.get_transaction(tx) else {
            return Err(Rejection::UnknownTransactionId(tx));
        };
        if target.state != DisputeState::Disputed {
            return Err(Rejection::TransactionNotUnderDispute(tx));
        }
        match checked_account(
            account.available.checked_add(&target.amount),
            account.held.checked_sub(&target.amount),
            account.locked,
        ) {
            None => Err(Rejection::BalanceOverflow(client)),
            Some(updated) => {
                self.set_account(client, updated);
                self.set_dispute_state(tx, DisputeState::Resolved);
                Ok(())
            },
        }
    }

    /// Applies a chargeback of `tx` to the existing, unlocked account of
    /// `client`.
    fn process_chargeback(&mut self, client: ClientId, account: Account, tx: TransactionId) -> (r: Result<(), Rejection>)
        requires
            old(self)@.accounts.contains_key(client),
            old(self)@.accounts[client] == account,
        ensures
            (final(self)@, r) == chargeback_step(old(self)@, client, tx),
    {
        let Some(target) = self.get_transaction(tx) else {
            return Err(Rejection::UnknownTransactionId(tx));
        };
        if target.state != DisputeState::Disputed {
            return Err(Rejection::TransactionNotUnderDispute(tx));
        }
        match checked_account(Some(account.available), account.held.checked_sub(&target.amount), true) {
            None => Err(Rejection::BalanceOverflow(client)),
            Some(updated) => {
                self.set_account(client, updated);
                self.set_dispute_state(tx, DisputeState::ChargedBack);
                Ok(())
            },
        }
    }

    /// Validates `record` and applies it. A rejected record changes no
    /// balance and no stored transaction; it may only create the client's
    /// account with zero balances.
    pub fn apply(&mut self, record: Record) -> (r: Result<(), Rejection>)
        ensures
            (final(self)@, r) == step(old(self)@, record),
    {
        if let Some(amount) = record.amount {
            if !amount.is_positive() {
                return Err(Rejection::InvalidAmount(amount));
            }
        }
        let account = self.get_or_create_account(record.client);
        if account.locked {
            return Err(Rejection::ClientLocked(record.client));
        }
        match record.kind {
            RecordKind::Deposit => self.process_deposit(record.client, account, record.tx, record.amount),
            RecordKind::Withdrawal => self.process_withdrawal(record.client, account, record.tx, record.amount),
            RecordKind::Dispute => self.process_dispute(record.client, account, record.tx),
            RecordKind::Resolve => self.process_resolve(record.client, account, record.tx),
            RecordKind::Chargeback => self.process_chargeback(record.client, account, record.tx),
        }
    }
}

/// Applies `records` in order to an empty ledger. Rejected records are
/// skipped; processing goes on with the next one.
pub fn process_records(records: &Vec<Record>) -> (l: Ledger)
    ensures
        l@ == replay(empty_ledger(), records@),
{
    let mut l = Ledger::new();
    let mut i: usize = 0;
    while i < records.len()
        invariant
            i <= records@.len(),
            l@ == replay(empty_ledger(), records@.take(i as int)),
        decreases records@.len() - i,
    {
        proof {
            assert(records@.take(i + 1).drop_last() == records@.take(i as int));
        }
        let _ = l.apply(records[i]);
        i = i + 1;
    }
    proof {
        assert(records@.take(records@.len() as int) == records@);
    }
    l
}

} // verus!
