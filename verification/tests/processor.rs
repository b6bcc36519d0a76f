use ledger_engine::{
    Account, AccountingError, Amount, Transaction, TransactionData, TransactionProcessor,
};
use rust_decimal::Decimal;

fn dec(mantissa: i64, scale: u32) -> Amount {
    Amount::from_decimal(&Decimal::new(mantissa, scale)).unwrap()
}

fn deposit(client_id: u16, tx_id: u32, amount: Amount) -> Transaction {
    Transaction::Deposit(TransactionData {
        client_id,
        tx_id,
        amount: Some(amount),
        under_dispute: false,
    })
}

fn withdrawal(client_id: u16, tx_id: u32, amount: Amount) -> Transaction {
    Transaction::Withdrawal(TransactionData {
        client_id,
        tx_id,
        amount: Some(amount),
        under_dispute: false,
    })
}

fn dispute(client_id: u16, tx_id: u32) -> Transaction {
    Transaction::Dispute(TransactionData { client_id, tx_id, amount: None, under_dispute: false })
}

fn resolve(client_id: u16, tx_id: u32) -> Transaction {
    Transaction::Resolve(TransactionData { client_id, tx_id, amount: None, under_dispute: false })
}

fn chargeback(client_id: u16, tx_id: u32) -> Transaction {
    Transaction::Chargeback(TransactionData {
        client_id,
        tx_id,
        amount: None,
        under_dispute: false,
    })
}

fn locked(mut account: Account) -> Account {
    account.locked = true;
    account
}

#[test]
fn test_one_deposit() {
    let processor = TransactionProcessor::new();
    let processor = processor.process(vec![deposit(1, 1, dec(15, 1))]);
    let output = processor.accounts();
    assert_eq!(
        &Account::new(1u16, dec(15, 1), dec(0, 0), dec(15, 1)),
        output.get(0).unwrap()
    );
}

#[test]
fn test_two_deposits_and_one_withdrawal() {
    let processor = TransactionProcessor::new();
    let processor = processor.process(vec![
        deposit(1, 1, dec(15, 1)),
        deposit(2, 2, dec(33333, 4)),
        withdrawal(2, 3, dec(1, 0)),
    ]);
    let output = processor.accounts();
    assert_eq!(
        &Account::new(1u16, dec(15, 1), dec(0, 0), dec(15, 1)),
        output.get(0).unwrap()
    );
    assert_eq!(
        &Account::new(2u16, dec(23333, 4), dec(0, 0), dec(23333, 4)),
        output.get(1).unwrap()
    );
}

#[test]
fn test_dispute() {
    let processor = TransactionProcessor::new();
    let processor = processor.process(vec![
        deposit(1, 1, dec(15, 1)),
        deposit(1, 2, dec(3, 0)),
        dispute(1, 2),
    ]);
    let output = processor.accounts();
    assert_eq!(
        &Account::new(1u16, dec(15, 1), dec(3, 0), dec(45, 1)),
        output.get(0).unwrap()
    );
}

#[test]
fn test_chargeback() {
    let processor = TransactionProcessor::new();
    let processor = processor.process(vec![
        deposit(1, 1, dec(15, 1)),
        deposit(1, 2, dec(3, 0)),
        dispute(1, 2),
        chargeback(1, 2),
    ]);
    let output = processor.accounts();
    let mut account = Account::new(1u16, dec(15, 1), dec(0, 0), dec(15, 1));
    account.locked = true;
    assert_eq!(&account, output.get(0).unwrap());
}

#[test]
fn test_resolve() {
    let processor = TransactionProcessor::new();
    let processor = processor.process(vec![
        deposit(1, 1, dec(15, 1)),
        deposit(1, 2, dec(3, 0)),
        dispute(1, 2),
        resolve(1, 2),
    ]);
    let output = processor.accounts();
    assert_eq!(
        &Account::new(1u16, dec(45, 1), dec(0, 0), dec(45, 1)),
        output.get(0).unwrap()
    );
}

#[test]
fn new_processor_has_no_accounts() {
    let processor = TransactionProcessor::new();
    assert!(processor.accounts().is_empty());
    assert_eq!(processor.account(1), None);
    assert_eq!(processor.ledger_entry(1), None);
}

#[test]
fn deposit_creates_account_and_entry() {
    let mut processor = TransactionProcessor::new();
    assert_eq!(processor.process_transaction(deposit(1, 1, dec(15, 1))), Ok(()));
    let account = processor.account(1).unwrap();
    assert_eq!(account.client(), 1);
    assert_eq!(account.available().units, 15000);
    assert_eq!(account.held().units, 0);
    assert_eq!(account.total().units, 15000);
    assert!(!account.is_locked());
    let entry = processor.ledger_entry(1).unwrap();
    assert_eq!(entry.client_id, 1);
    assert_eq!(entry.tx_id, 1);
    assert_eq!(entry.amount.units, 15000);
    assert!(!entry.under_dispute);
}

#[test]
fn chargeback_locks_and_later_deposit_is_refused() {
    let mut processor = TransactionProcessor::new();
    assert_eq!(processor.process_transaction(deposit(1, 1, dec(15, 1))), Ok(()));
    assert_eq!(processor.process_transaction(deposit(1, 2, dec(3, 0))), Ok(()));
    assert_eq!(processor.process_transaction(dispute(1, 2)), Ok(()));
    assert_eq!(
        processor.account(1).unwrap(),
        Account::new(1, dec(15, 1), dec(3, 0), dec(45, 1))
    );
    assert!(processor.ledger_entry(2).unwrap().under_dispute);
    assert_eq!(processor.process_transaction(chargeback(1, 2)), Ok(()));
    let after = locked(Account::new(1, dec(15, 1), dec(0, 0), dec(15, 1)));
    assert_eq!(processor.account(1).unwrap(), after);
    assert!(!processor.ledger_entry(2).unwrap().under_dispute);
    assert_eq!(
        processor.process_transaction(deposit(1, 3, dec(5, 0))),
        Err(AccountingError::AccountLocked)
    );
    assert_eq!(processor.account(1).unwrap(), after);
    assert_eq!(processor.ledger_entry(3), None);
}

#[test]
fn locked_account_refuses_every_kind_of_event() {
    let mut processor = TransactionProcessor::new().process(vec![
        deposit(7, 1, dec(10, 0)),
        deposit(7, 2, dec(4, 0)),
        dispute(7, 1),
        dispute(7, 2),
        chargeback(7, 1),
    ]);
    let after = locked(Account::new(7, dec(0, 0), dec(4, 0), dec(4, 0)));
    assert_eq!(processor.account(7).unwrap(), after);
    let events = vec![
        deposit(7, 3, dec(1, 0)),
        withdrawal(7, 4, dec(1, 0)),
        dispute(7, 2),
        resolve(7, 2),
        chargeback(7, 2),
        deposit(8, 5, dec(1, 0)),
    ];
    for (i, event) in events.into_iter().enumerate() {
        let outcome = processor.process_transaction(event);
        if i < 5 {
            assert_eq!(outcome, Err(AccountingError::AccountLocked));
        } else {
            assert_eq!(outcome, Ok(()));
        }
        assert_eq!(processor.account(7).unwrap(), after);
    }
    assert!(processor.ledger_entry(2).unwrap().under_dispute);
}

#[test]
fn withdrawal_beyond_available_funds_fails() {
    let mut processor = TransactionProcessor::new();
    assert_eq!(processor.process_transaction(deposit(2, 1, dec(33333, 4))), Ok(()));
    assert_eq!(processor.process_transaction(withdrawal(2, 2, dec(1, 0))), Ok(()));
    let expected = Account::new(2, dec(23333, 4), dec(0, 0), dec(23333, 4));
    assert_eq!(processor.account(2).unwrap(), expected);
    assert_eq!(
        processor.process_transaction(withdrawal(2, 3, dec(10, 0))),
        Err(AccountingError::InsufficientFunds)
    );
    assert_eq!(processor.account(2).unwrap(), expected);
    assert_eq!(processor.ledger_entry(3), None);
}

#[test]
fn repeated_deposit_counts_once() {
    let mut processor = TransactionProcessor::new();
    assert_eq!(processor.process_transaction(deposit(1, 1, dec(25, 1))), Ok(()));
    assert_eq!(
        processor.process_transaction(deposit(1, 1, dec(25, 1))),
        Err(AccountingError::DuplicateTransaction)
    );
    assert_eq!(
        processor.account(1).unwrap(),
        Account::new(1, dec(25, 1), dec(0, 0), dec(25, 1))
    );
}

#[test]
fn first_writer_of_a_transaction_id_wins() {
    let mut processor = TransactionProcessor::new();
    assert_eq!(processor.process_transaction(deposit(1, 1, dec(25, 1))), Ok(()));
    assert_eq!(
        processor.process_transaction(deposit(2, 1, dec(9, 0))),
        Err(AccountingError::DuplicateTransaction)
    );
    assert_eq!(
        processor.process_transaction(withdrawal(1, 1, dec(1, 0))),
        Err(AccountingError::DuplicateTransaction)
    );
    let entry = processor.ledger_entry(1).unwrap();
    assert_eq!(entry.client_id, 1);
    assert_eq!(entry.amount.units, 25000);
    assert_eq!(
        processor.account(1).unwrap(),
        Account::new(1, dec(25, 1), dec(0, 0), dec(25, 1))
    );
    assert_eq!(
        processor.account(2).unwrap(),
        Account::new(2, dec(0, 0), dec(0, 0), dec(0, 0))
    );
}

#[test]
fn dispute_then_resolve_restores_the_split() {
    let mut processor = TransactionProcessor::new();
    assert_eq!(processor.process_transaction(deposit(1, 2, dec(3, 0))), Ok(()));
    let before = processor.account(1).unwrap();
    assert_eq!(processor.process_transaction(dispute(1, 2)), Ok(()));
    let between = processor.account(1).unwrap();
    assert_eq!(between, Account::new(1, dec(0, 0), dec(3, 0), dec(3, 0)));
    assert_eq!(between.total(), before.total());
    assert_eq!(processor.process_transaction(resolve(1, 2)), Ok(()));
    assert_eq!(processor.account(1).unwrap(), before);
    assert!(!processor.ledger_entry(2).unwrap().under_dispute);
}

#[test]
fn dispute_of_unknown_transaction_is_ignored() {
    let mut processor = TransactionProcessor::new();
    assert_eq!(processor.process_transaction(dispute(1, 999)), Ok(()));
    assert_eq!(
        processor.account(1).unwrap(),
        Account::new(1, dec(0, 0), dec(0, 0), dec(0, 0))
    );
    assert_eq!(processor.ledger_entry(999), None);
    assert_eq!(processor.process_transaction(resolve(1, 999)), Ok(()));
    assert_eq!(processor.process_transaction(chargeback(1, 999)), Ok(()));
    assert_eq!(
        processor.account(1).unwrap(),
        Account::new(1, dec(0, 0), dec(0, 0), dec(0, 0))
    );
}

#[test]
fn dispute_in_the_wrong_state_is_ignored() {
    let mut processor = TransactionProcessor::new();
    assert_eq!(processor.process_transaction(deposit(1, 1, dec(5, 0))), Ok(()));
    assert_eq!(processor.process_transaction(resolve(1, 1)), Ok(()));
    assert_eq!(processor.process_transaction(chargeback(1, 1)), Ok(()));
    let untouched = Account::new(1, dec(5, 0), dec(0, 0), dec(5, 0));
    assert_eq!(processor.account(1).unwrap(), untouched);
    assert_eq!(processor.process_transaction(dispute(1, 1)), Ok(()));
    assert_eq!(processor.process_transaction(dispute(1, 1)), Ok(()));
    assert_eq!(
        processor.account(1).unwrap(),
        Account::new(1, dec(0, 0), dec(5, 0), dec(5, 0))
    );
}

#[test]
fn dispute_of_withdrawn_funds_fails() {
    let mut processor = TransactionProcessor::new();
    assert_eq!(processor.process_transaction(deposit(1, 1, dec(5, 0))), Ok(()));
    assert_eq!(processor.process_transaction(withdrawal(1, 2, dec(4, 0))), Ok(()));
    assert_eq!(
        processor.process_transaction(dispute(1, 1)),
        Err(AccountingError::InsufficientFundsForDispute)
    );
    assert_eq!(
        processor.account(1).unwrap(),
        Account::new(1, dec(1, 0), dec(0, 0), dec(1, 0))
    );
    assert!(!processor.ledger_entry(1).unwrap().under_dispute);
}

#[test]
fn resolve_for_another_client_without_held_funds_fails() {
    let mut processor = TransactionProcessor::new();
    assert_eq!(processor.process_transaction(deposit(1, 1, dec(5, 0))), Ok(()));
    assert_eq!(processor.process_transaction(dispute(1, 1)), Ok(()));
    assert_eq!(
        processor.process_transaction(resolve(2, 1)),
        Err(AccountingError::InternalInvariantViolation)
    );
    assert_eq!(
        processor.process_transaction(chargeback(2, 1)),
        Err(AccountingError::InternalInvariantViolation)
    );
    assert_eq!(
        processor.account(2).unwrap(),
        Account::new(2, dec(0, 0), dec(0, 0), dec(0, 0))
    );
    assert_eq!(
        processor.account(1).unwrap(),
        Account::new(1, dec(0, 0), dec(5, 0), dec(5, 0))
    );
    assert!(processor.ledger_entry(1).unwrap().under_dispute);
}

#[test]
fn amounts_that_are_not_positive_are_invalid() {
    let mut processor = TransactionProcessor::new();
    assert_eq!(
        processor.process_transaction(deposit(1, 1, dec(0, 0))),
        Err(AccountingError::InvalidAmount)
    );
    assert_eq!(
        processor.process_transaction(deposit(1, 2, dec(-5, 0))),
        Err(AccountingError::InvalidAmount)
    );
    assert_eq!(
        processor.process_transaction(withdrawal(1, 3, dec(0, 0))),
        Err(AccountingError::InvalidAmount)
    );
    assert_eq!(
        processor.process_transaction(withdrawal(1, 4, dec(-1, 0))),
        Err(AccountingError::InvalidAmount)
    );
    let without_amount =
        TransactionData { client_id: 1, tx_id: 5, amount: None, under_dispute: false };
    assert_eq!(
        processor.process_transaction(Transaction::Deposit(without_amount)),
        Err(AccountingError::InvalidAmount)
    );
    assert_eq!(
        processor.process_transaction(Transaction::Withdrawal(without_amount)),
        Err(AccountingError::InvalidAmount)
    );
    assert_eq!(
        processor.account(1).unwrap(),
        Account::new(1, dec(0, 0), dec(0, 0), dec(0, 0))
    );
    assert_eq!(processor.ledger_entry(1), None);
    assert_eq!(processor.ledger_entry(5), None);
}

#[test]
fn deposit_beyond_the_range_is_invalid() {
    let mut processor = TransactionProcessor::new();
    let most = Amount::from_units(i128::MAX);
    assert_eq!(processor.process_transaction(deposit(1, 1, most)), Ok(()));
    assert_eq!(
        processor.process_transaction(deposit(1, 2, Amount::from_units(1))),
        Err(AccountingError::InvalidAmount)
    );
    assert_eq!(processor.account(1).unwrap(), Account::new(1, most, Amount::zero(), most));
    assert_eq!(processor.ledger_entry(2), None);
}

#[test]
fn failed_events_do_not_stop_the_stream() {
    let processor = TransactionProcessor::new().process(vec![
        deposit(1, 1, dec(10, 0)),
        withdrawal(1, 2, dec(50, 0)),
        deposit(1, 1, dec(10, 0)),
        dispute(1, 77),
        withdrawal(1, 3, dec(25, 1)),
    ]);
    assert_eq!(
        processor.account(1).unwrap(),
        Account::new(1, dec(75, 1), dec(0, 0), dec(75, 1))
    );
}

#[test]
fn accounts_come_out_in_client_order() {
    let processor = TransactionProcessor::new().process(vec![
        deposit(65535, 1, dec(1, 0)),
        deposit(9, 2, dec(2, 0)),
        dispute(0, 5),
        deposit(300, 3, dec(3, 0)),
    ]);
    let clients: Vec<u16> = processor.accounts().iter().map(|a| a.client()).collect();
    assert_eq!(clients, vec![0, 9, 300, 65535]);
}

#[test]
fn balances_stay_consistent_along_a_stream() {
    let events = vec![
        deposit(1, 1, dec(100, 0)),
        withdrawal(1, 2, dec(305, 1)),
        dispute(1, 1),
        dispute(1, 2),
        deposit(2, 3, dec(12345, 4)),
        dispute(2, 3),
        resolve(2, 3),
        withdrawal(2, 4, dec(99, 0)),
        dispute(2, 1),
        chargeback(1, 2),
        deposit(1, 5, dec(1, 0)),
    ];
    let mut processor = TransactionProcessor::new();
    for event in events {
        let _ = processor.process_transaction(event);
        for account in processor.accounts() {
            assert!(account.available().units >= 0);
            assert!(account.held().units >= 0);
            assert_eq!(account.total().units, account.available().units + account.held().units);
        }
    }
    assert_eq!(
        processor.account(1).unwrap(),
        locked(Account::new(1, dec(39, 0), dec(0, 0), dec(39, 0)))
    );
    assert_eq!(
        processor.account(2).unwrap(),
        Account::new(2, dec(12345, 4), dec(0, 0), dec(12345, 4))
    );
}

#[test]
fn silently_passed_events_can_be_told_apart() {
    let mut processor = TransactionProcessor::new();
    assert!(processor.ignores(dispute(1, 999)));
    assert!(processor.ignores(resolve(1, 999)));
    assert!(processor.ignores(chargeback(1, 999)));
    assert!(!processor.ignores(deposit(1, 1, dec(5, 0))));
    assert_eq!(processor.account(1), None);
    assert_eq!(processor.process_transaction(deposit(1, 1, dec(5, 0))), Ok(()));
    assert!(!processor.ignores(dispute(1, 1)));
    assert!(processor.ignores(resolve(1, 1)));
    assert!(processor.ignores(chargeback(1, 1)));
    assert_eq!(processor.process_transaction(dispute(1, 1)), Ok(()));
    assert!(processor.ignores(dispute(1, 1)));
    assert!(!processor.ignores(resolve(1, 1)));
    assert!(!processor.ignores(chargeback(1, 1)));
    assert!(!processor.ignores(withdrawal(1, 2, dec(1, 0))));
    assert_eq!(processor.process_transaction(chargeback(1, 1)), Ok(()));
    assert!(!processor.ignores(dispute(1, 999)));
    assert!(processor.ignores(dispute(2, 999)));
}
