//! Properties of the engine that relate balances before and after records.

use vstd::prelude::*;

use crate::engine::{replay, step, Record, RecordKind};
use crate::store::{
    totals_fit, with_account, zero_account, Account, DisputeState, LedgerView, StoredTransaction,
};

verus! {

/// The account of `client` as the engine sees it before a record: the stored
/// one, or a zero account when the client is new.
pub open spec fn account_before(s: LedgerView, client: u16) -> Account {
    with_account(s, client).accounts[client]
}

/// Whether `s2` holds the same balances and transactions as `s`, apart from
/// an account of `client` that may have been created with zero balances.
pub open spec fn nothing_changed(s: LedgerView, s2: LedgerView, client: u16) -> bool {
    s2 == s || s2 == with_account(s, client)
}

/// An accepted deposit raises the client's total by exactly its amount, an
/// accepted withdrawal lowers it by exactly its amount, and the total stays
/// the sum of available and held funds.
pub proof fn lemma_deposit_withdrawal_total(s: LedgerView, r: Record)
    requires
        r.kind == RecordKind::Deposit || r.kind == RecordKind::Withdrawal,
        step(s, r).1 is Ok,
    ensures
        r.amount is Some,
        step(s, r).0.accounts.contains_key(r.client),
        step(s, r).0.accounts[r.client].total() == step(s, r).0.accounts[r.client].available.units
            + step(s, r).0.accounts[r.client].held.units,
        r.kind == RecordKind::Deposit ==> step(s, r).0.accounts[r.client].total()
            == account_before(s, r.client).total() + r.amount->Some_0.units,
        r.kind == RecordKind::Withdrawal ==> step(s, r).0.accounts[r.client].total()
            == account_before(s, r.client).total() - r.amount->Some_0.units,
{
}

/// An accepted dispute leaves the total unchanged: it moves the disputed
/// amount from available to held funds.
pub proof fn lemma_dispute_moves_to_held(s: LedgerView, r: Record)
    requires
        r.kind == RecordKind::Dispute,
        step(s, r).1 is Ok,
    ensures
        s.transactions.contains_key(r.tx),
        step(s, r).0.accounts[r.client].total() == account_before(s, r.client).total(),
        step(s, r).0.accounts[r.client].available.units == account_before(s, r.client).available.units
            - s.transactions[r.tx].amount.units,
        step(s, r).0.accounts[r.client].held.units == account_before(s, r.client).held.units
            + s.transactions[r.tx].amount.units,
        step(s, r).0.transactions[r.tx].state == DisputeState::Disputed,
{
}

/// A resolve that follows a dispute of the same transaction by the same
/// client restores that client's balances to what they were before the
/// dispute, and the transaction ends resolved.
pub proof fn lemma_resolve_reverses_dispute(s: LedgerView, d: Record, r: Record)
    requires
        d.kind == RecordKind::Dispute,
        r.kind == RecordKind::Resolve,
        r.client == d.client,
        r.tx == d.tx,
        step(s, d).1 is Ok,
        step(step(s, d).0, r).1 is Ok,
    ensures
        step(step(s, d).0, r).0.accounts[r.client] == account_before(s, r.client),
        step(step(s, d).0, r).0.transactions[r.tx] == (StoredTransaction {
            amount: s.transactions[r.tx].amount,
            state: DisputeState::Resolved,
        }),
{
}

/// An accepted chargeback removes the disputed amount from held funds,
/// leaves available funds untouched and locks the account.
pub proof fn lemma_chargeback_removes_held(s: LedgerView, r: Record)
    requires
        r.kind == RecordKind::Chargeback,
        step(s, r).1 is Ok,
    ensures
        s.transactions.contains_key(r.tx),
        step(s, r).0.accounts[r.client].held.units == account_before(s, r.client).held.units
            - s.transactions[r.tx].amount.units,
        step(s, r).0.accounts[r.client].available == account_before(s, r.client).available,
        step(s, r).0.accounts[r.client].locked,
        step(s, r).0.transactions[r.tx].state == DisputeState::ChargedBack,
{
}

/// Every record for a locked account is rejected and changes nothing.
pub proof fn lemma_locked_rejects_all(s: LedgerView, r: Record)
    requires
        s.accounts.contains_key(r.client),
        s.accounts[r.client].locked,
    ensures
        step(s, r).1 is Err,
        step(s, r).0 == s,
{
}

/// A record of another client leaves the account of `c` as it was.
pub proof fn lemma_other_accounts_untouched(s: LedgerView, r: Record, c: u16)
    requires
        s.accounts.contains_key(c),
        r.client != c,
    ensures
        step(s, r).0.accounts.contains_key(c),
        step(s, r).0.accounts[c] == s.accounts[c],
{
}

/// Once an account is locked, no sequence of later records, of any client,
/// changes it.
pub proof fn lemma_locked_account_frozen(s: LedgerView, records: Seq<Record>, c: u16)
    requires
        s.accounts.contains_key(c),
        s.accounts[c].locked,
    ensures
        replay(s, records).accounts.contains_key(c),
        replay(s, records).accounts[c] == s.accounts[c],
    decreases records.len(),
{
    if records.len() > 0 {
        lemma_locked_account_frozen(s, records.drop_last(), c);
        let s1 = replay(s, records.drop_last());
        if records.last().client == c {
            lemma_locked_rejects_all(s1, records.last());
        } else {
            lemma_other_accounts_untouched(s1, records.last(), c);
        }
    }
}

/// A locked account stays locked, whatever record comes next.
pub proof fn lemma_lock_is_permanent(s: LedgerView, r: Record, c: u16)
    requires
        s.accounts.contains_key(c),
        s.accounts[c].locked,
    ensures
        step(s, r).0.accounts.contains_key(c),
        step(s, r).0.accounts[c].locked,
{
}

/// A dispute, resolve or chargeback that names no stored transaction, or a
/// transaction in the wrong dispute state, is rejected and changes no
/// balance.
pub proof fn lemma_bad_target_rejected(s: LedgerView, r: Record)
    requires
        r.kind == RecordKind::Dispute || r.kind == RecordKind::Resolve || r.kind
            == RecordKind::Chargeback,
        !s.transactions.contains_key(r.tx) || (r.kind == RecordKind::Dispute
            && s.transactions[r.tx].state != DisputeState::NotDisputed) || (r.kind
            != RecordKind::Dispute && s.transactions[r.tx].state != DisputeState::Disputed),
    ensures
        step(s, r).1 is Err,
        nothing_changed(s, step(s, r).0, r.client),
{
}

/// A rejected record changes no balance and no stored transaction; at most
/// it creates the client's account with zero balances.
pub proof fn lemma_rejection_changes_nothing(s: LedgerView, r: Record)
    requires
        step(s, r).1 is Err,
    ensures
        nothing_changed(s, step(s, r).0, r.client),
        step(s, r).0.accounts.contains_key(r.client) ==> step(s, r).0.accounts[r.client]
            == account_before(s, r.client),
{
}

/// Replaying a rejected record gives the same rejection and changes nothing
/// further.
pub proof fn lemma_rejection_idempotent(s: LedgerView, r: Record)
    requires
        step(s, r).1 is Err,
    ensures
        step(step(s, r).0, r) == step(s, r),
{
    assert(with_account(with_account(s, r.client), r.client) == with_account(s, r.client));
}

/// Every account's total stays representable as an amount.
pub proof fn lemma_totals_stay_in_range(s: LedgerView, r: Record)
    requires
        totals_fit(s),
    ensures
        totals_fit(step(s, r).0),
{
    assert(zero_account().total_fits());
}

} // verus!
