use payments_engine::engine::{process_records, Record, RecordKind, Rejection};
use payments_engine::money::MoneyAmount;
use payments_engine::store::{Account, DisputeState, Ledger};

/// The amount written `mantissa` with `scale` fractional digits.
fn amt(mantissa: i128, scale: u32) -> MoneyAmount {
    MoneyAmount::from_decimal_parts(mantissa, scale).unwrap()
}

fn rec(kind: RecordKind, client: u16, tx: u32, amount: Option<MoneyAmount>) -> Record {
    Record { kind, client, tx, amount }
}

fn deposit(client: u16, tx: u32, amount: MoneyAmount) -> Record {
    rec(RecordKind::Deposit, client, tx, Some(amount))
}

fn withdrawal(client: u16, tx: u32, amount: MoneyAmount) -> Record {
    rec(RecordKind::Withdrawal, client, tx, Some(amount))
}

fn dispute(client: u16, tx: u32) -> Record {
    rec(RecordKind::Dispute, client, tx, None)
}

fn resolve(client: u16, tx: u32) -> Record {
    rec(RecordKind::Resolve, client, tx, None)
}

fn chargeback(client: u16, tx: u32) -> Record {
    rec(RecordKind::Chargeback, client, tx, None)
}

fn account(available: i128, held: i128, locked: bool) -> Account {
    Account {
        available: MoneyAmount::from_units(available),
        held: MoneyAmount::from_units(held),
        locked,
    }
}

#[test]
fn test_deposits() {
    let records = vec![deposit(1, 1, amt(10, 1)), deposit(2, 2, amt(20, 1)), deposit(1, 3, amt(20, 1))];
    let result = process_records(&records);
    assert_eq!(result.num_accounts(), 2);
    assert_eq!(result.account(1).unwrap(), account(30000, 0, false));
    assert_eq!(result.account(2).unwrap(), account(20000, 0, false));
}

#[test]
fn test_invalid_deposits() {
    let records = vec![deposit(1, 1, amt(-10, 1)), deposit(2, 2, amt(20, 1)), deposit(1, 3, amt(20, 1))];
    let result = process_records(&records);
    assert_eq!(result.num_accounts(), 2);
    assert_eq!(result.account(1).unwrap(), account(20000, 0, false));
    assert_eq!(result.account(2).unwrap(), account(20000, 0, false));

    let records = vec![deposit(1, 1, amt(0, 1)), deposit(2, 2, amt(20, 1)), deposit(1, 3, amt(20, 1))];
    let result = process_records(&records);
    assert_eq!(result.num_accounts(), 2);
    assert_eq!(result.account(1).unwrap(), account(20000, 0, false));
    assert_eq!(result.account(2).unwrap(), account(20000, 0, false));

    let records = vec![
        rec(RecordKind::Deposit, 1, 1, None),
        deposit(2, 2, amt(20, 1)),
        deposit(1, 3, amt(20, 1)),
    ];
    let result = process_records(&records);
    assert_eq!(result.num_accounts(), 2);
    assert_eq!(result.account(1).unwrap(), account(20000, 0, false));
    assert_eq!(result.account(2).unwrap(), account(20000, 0, false));
}

#[test]
fn test_withdrawals() {
    let records = vec![
        deposit(1, 1, amt(10, 1)),
        deposit(2, 2, amt(20, 1)),
        deposit(1, 3, amt(20, 1)),
        withdrawal(1, 4, amt(15, 1)),
        withdrawal(2, 5, amt(30, 1)),
    ];
    let result = process_records(&records);
    assert_eq!(result.num_accounts(), 2);
    assert_eq!(result.account(1).unwrap(), account(15000, 0, false));
    assert_eq!(result.account(2).unwrap(), account(20000, 0, false));
}

#[test]
fn test_dispute_and_resolve() {
    let records = vec![
        deposit(1, 1, amt(20, 1)),
        resolve(1, 1),
        withdrawal(1, 2, amt(15, 1)),
        dispute(1, 2),
        resolve(1, 2),
        dispute(1, 2),
        deposit(1, 10, amt(20, 1)),
    ];
    let result = process_records(&records);
    assert_eq!(result.num_accounts(), 1);
    assert_eq!(result.account(1).unwrap(), account(25000, 0, false));

    let records = vec![
        deposit(1, 1, amt(20, 1)),
        dispute(1, 1),
        resolve(1, 1),
        dispute(1, 2),
        deposit(1, 10, amt(20, 1)),
    ];
    let result = process_records(&records);
    assert_eq!(result.num_accounts(), 1);
    assert_eq!(result.account(1).unwrap(), account(40000, 0, false));
}

#[test]
fn test_dispute_and_chargeback() {
    let records = vec![
        deposit(1, 1, amt(20, 1)),
        withdrawal(1, 2, amt(15, 1)),
        dispute(1, 2),
        chargeback(1, 2),
        deposit(1, 10, amt(20, 1)),
    ];
    let result = process_records(&records);
    assert_eq!(result.num_accounts(), 1);
    assert_eq!(result.account(1).unwrap(), account(-10000, 0, true));
}

#[test]
fn deposit_and_withdrawal_change_total_exactly() {
    let mut l = Ledger::new();
    assert!(l.apply(deposit(7, 1, amt(1, 4))).is_ok());
    assert!(l.apply(deposit(7, 2, amt(2, 4))).is_ok());
    let a = l.account(7).unwrap();
    assert_eq!(a.total_funds().units(), 3);
    assert!(l.apply(withdrawal(7, 3, amt(3, 4))).is_ok());
    let a = l.account(7).unwrap();
    assert_eq!(a.total_funds().units(), 0);
    assert_eq!(a, account(0, 0, false));
}

#[test]
fn dispute_moves_funds_to_held() {
    let mut l = Ledger::new();
    assert!(l.apply(deposit(1, 1, amt(50, 1))).is_ok());
    assert!(l.apply(dispute(1, 1)).is_ok());
    let a = l.account(1).unwrap();
    assert_eq!(a, account(0, 50000, false));
    assert_eq!(a.total_funds().units(), 50000);
    assert_eq!(l.get_transaction(1).unwrap().state, DisputeState::Disputed);
}

#[test]
fn resolve_restores_balances() {
    let mut l = Ledger::new();
    assert!(l.apply(deposit(1, 1, amt(50, 1))).is_ok());
    assert!(l.apply(deposit(1, 2, amt(25, 1))).is_ok());
    let before = l.account(1).unwrap();
    assert!(l.apply(dispute(1, 2)).is_ok());
    assert_eq!(l.account(1).unwrap(), account(50000, 25000, false));
    assert!(l.apply(resolve(1, 2)).is_ok());
    assert_eq!(l.account(1).unwrap(), before);
    assert_eq!(l.get_transaction(2).unwrap().state, DisputeState::Resolved);
    assert_eq!(l.apply(dispute(1, 2)), Err(Rejection::TransactionAlreadyUnderDispute(2)));
}

#[test]
fn chargeback_removes_held_and_locks() {
    let mut l = Ledger::new();
    assert!(l.apply(deposit(3, 1, amt(50, 1))).is_ok());
    assert!(l.apply(deposit(3, 2, amt(10, 1))).is_ok());
    assert!(l.apply(dispute(3, 1)).is_ok());
    assert!(l.apply(chargeback(3, 1)).is_ok());
    assert_eq!(l.account(3).unwrap(), account(10000, 0, true));
    assert_eq!(l.get_transaction(1).unwrap().state, DisputeState::ChargedBack);
}

#[test]
fn locked_account_rejects_every_record() {
    let mut l = Ledger::new();
    assert!(l.apply(deposit(1, 1, amt(20, 1))).is_ok());
    assert!(l.apply(deposit(1, 2, amt(20, 1))).is_ok());
    assert!(l.apply(dispute(1, 1)).is_ok());
    assert!(l.apply(chargeback(1, 1)).is_ok());
    let frozen = l.account(1).unwrap();
    assert_eq!(frozen, account(20000, 0, true));
    let later = vec![
        deposit(1, 3, amt(10, 1)),
        withdrawal(1, 4, amt(10, 1)),
        dispute(1, 2),
        resolve(1, 2),
        chargeback(1, 2),
    ];
    for r in later {
        assert_eq!(l.apply(r), Err(Rejection::ClientLocked(1)));
        assert_eq!(l.account(1).unwrap(), frozen);
    }
    assert_eq!(l.get_transaction(2).unwrap().state, DisputeState::NotDisputed);
}

#[test]
fn bad_dispute_targets_are_rejected() {
    let mut l = Ledger::new();
    assert!(l.apply(deposit(1, 1, amt(20, 1))).is_ok());
    assert_eq!(l.apply(dispute(1, 9)), Err(Rejection::UnknownTransactionId(9)));
    assert_eq!(l.apply(resolve(1, 9)), Err(Rejection::UnknownTransactionId(9)));
    assert_eq!(l.apply(chargeback(1, 9)), Err(Rejection::UnknownTransactionId(9)));
    assert_eq!(l.apply(resolve(1, 1)), Err(Rejection::TransactionNotUnderDispute(1)));
    assert_eq!(l.apply(chargeback(1, 1)), Err(Rejection::TransactionNotUnderDispute(1)));
    assert_eq!(l.account(1).unwrap(), account(20000, 0, false));
    assert!(l.apply(dispute(1, 1)).is_ok());
    assert_eq!(l.apply(dispute(1, 1)), Err(Rejection::TransactionAlreadyUnderDispute(1)));
    assert_eq!(l.account(1).unwrap(), account(0, 20000, false));
}

#[test]
fn replaying_a_rejected_record_changes_nothing() {
    let mut l = Ledger::new();
    assert!(l.apply(deposit(1, 1, amt(10, 1))).is_ok());
    let bad = withdrawal(1, 2, amt(50, 1));
    let first = l.apply(bad);
    assert_eq!(
        first,
        Err(Rejection::NotEnoughAvailableFunds(1, MoneyAmount::from_units(50000), MoneyAmount::from_units(10000)))
    );
    for _ in 0..3 {
        assert_eq!(l.apply(bad), first);
        assert_eq!(l.account(1).unwrap(), account(10000, 0, false));
        assert_eq!(l.num_accounts(), 1);
        assert!(l.get_transaction(2).is_none());
    }
}

#[test]
fn rejected_record_of_new_client_creates_zero_account() {
    let mut l = Ledger::new();
    assert_eq!(l.apply(dispute(4, 1)), Err(Rejection::UnknownTransactionId(1)));
    assert_eq!(l.account(4).unwrap(), account(0, 0, false));
    assert_eq!(l.apply(dispute(4, 1)), Err(Rejection::UnknownTransactionId(1)));
    assert_eq!(l.num_accounts(), 1);
}

#[test]
fn scenario_non_positive_amounts_rejected() {
    let mut l = Ledger::new();
    assert!(l.apply(deposit(1, 1, amt(20, 1))).is_ok());
    let before = l.account(1).unwrap();
    for a in [amt(0, 0), amt(-5, 1)] {
        assert_eq!(l.apply(deposit(1, 2, a)), Err(Rejection::InvalidAmount(a)));
        assert_eq!(l.account(1).unwrap(), before);
        assert_eq!(l.apply(withdrawal(1, 3, a)), Err(Rejection::InvalidAmount(a)));
        assert_eq!(l.account(1).unwrap(), before);
    }
    // A non-positive amount is refused before the account is created.
    assert_eq!(l.apply(deposit(5, 4, amt(-1, 0))), Err(Rejection::InvalidAmount(amt(-1, 0))));
    assert!(l.account(5).is_none());
}

#[test]
fn missing_amounts_are_rejected() {
    let mut l = Ledger::new();
    assert_eq!(l.apply(rec(RecordKind::Deposit, 1, 1, None)), Err(Rejection::DepositWithoutAmount));
    assert_eq!(l.apply(rec(RecordKind::Withdrawal, 1, 2, None)), Err(Rejection::WithdrawalWithoutAmount));
    assert_eq!(l.account(1).unwrap(), account(0, 0, false));
}

#[test]
fn dispute_of_withdrawal_can_make_available_negative() {
    let mut l = Ledger::new();
    assert!(l.apply(deposit(1, 1, amt(20, 1))).is_ok());
    assert!(l.apply(withdrawal(1, 2, amt(15, 1))).is_ok());
    assert!(l.apply(dispute(1, 2)).is_ok());
    assert_eq!(l.account(1).unwrap(), account(-10000, 15000, false));
}

#[test]
fn duplicate_transaction_id_overwrites() {
    let mut l = Ledger::new();
    assert!(l.apply(deposit(1, 1, amt(10, 1))).is_ok());
    assert!(l.apply(deposit(1, 1, amt(30, 1))).is_ok());
    assert_eq!(l.get_transaction(1).unwrap().amount, amt(30, 1));
    assert!(l.apply(dispute(1, 1)).is_ok());
    assert_eq!(l.account(1).unwrap(), account(10000, 30000, false));
}

#[test]
fn balance_overflow_is_rejected() {
    let mut l = Ledger::new();
    let big = MoneyAmount::from_units(i128::MAX);
    assert!(l.apply(deposit(1, 1, big)).is_ok());
    assert_eq!(l.apply(deposit(1, 2, amt(1, 4))), Err(Rejection::BalanceOverflow(1)));
    assert_eq!(l.account(1).unwrap(), account(i128::MAX, 0, false));
    assert!(l.get_transaction(2).is_none());
}

#[test]
fn type_names_decode() {
    assert_eq!(RecordKind::from_name("deposit"), Ok(RecordKind::Deposit));
    assert_eq!(RecordKind::from_name("withdrawal"), Ok(RecordKind::Withdrawal));
    assert_eq!(RecordKind::from_name("dispute"), Ok(RecordKind::Dispute));
    assert_eq!(RecordKind::from_name("resolve"), Ok(RecordKind::Resolve));
    assert_eq!(RecordKind::from_name("chargeback"), Ok(RecordKind::Chargeback));
    assert_eq!(
        RecordKind::from_name("refund"),
        Err(Rejection::UnknownTransactionType("refund".to_string()))
    );
    assert!(RecordKind::from_name("Deposit").is_err());
}

#[test]
fn decimal_parts_convert_exactly() {
    assert_eq!(MoneyAmount::from_decimal_parts(15, 1), Some(MoneyAmount::from_units(15000)));
    assert_eq!(MoneyAmount::from_decimal_parts(-2, 0), Some(MoneyAmount::from_units(-20000)));
    assert_eq!(MoneyAmount::from_decimal_parts(12345, 4), Some(MoneyAmount::from_units(12345)));
    assert_eq!(MoneyAmount::from_decimal_parts(100000, 5), Some(MoneyAmount::from_units(10000)));
    assert_eq!(MoneyAmount::from_decimal_parts(-700, 6), Some(MoneyAmount::from_units(-7)));
    assert_eq!(MoneyAmount::from_decimal_parts(1, 5), None);
    assert_eq!(MoneyAmount::from_decimal_parts(0, 60), Some(MoneyAmount::zero()));
    assert_eq!(MoneyAmount::from_decimal_parts(3, 60), None);
    assert_eq!(MoneyAmount::from_decimal_parts(i128::MAX, 0), None);
    assert_eq!(MoneyAmount::from_decimal_parts(i128::MIN, 4), Some(MoneyAmount::from_units(i128::MIN)));
}

#[test]
fn total_is_available_plus_held() {
    let a = account(-10000, 15000, false);
    assert_eq!(a.total_funds(), MoneyAmount::from_units(5000));
    assert_eq!(Account::new(), account(0, 0, false));
}
