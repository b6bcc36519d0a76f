use ledger_engine::{Account, AccountingError, Amount, Ledger, LedgerEntry};

fn units(n: i128) -> Amount {
    Amount::from_units(n)
}

#[test]
fn default_account_is_empty() {
    let account = Account::default();
    assert_eq!(account, Account::new(0, units(0), units(0), units(0)));
    assert!(!account.is_locked());
}

#[test]
fn deposit_adds_to_available_and_total() {
    let mut account = Account::new(4, units(10000), units(5000), units(15000));
    assert!(account.can_deposit(units(2500)));
    account.deposit(units(2500));
    assert_eq!(account, Account::new(4, units(12500), units(5000), units(17500)));
}

#[test]
fn can_deposit_checks_sign_and_range() {
    let account = Account::new(4, units(i128::MAX - 10), units(0), units(i128::MAX - 10));
    assert!(account.can_deposit(units(10)));
    assert!(!account.can_deposit(units(11)));
    assert!(!account.can_deposit(units(0)));
    assert!(!account.can_deposit(units(-1)));
}

#[test]
fn withdrawal_takes_from_available_and_total() {
    let mut account = Account::new(4, units(10000), units(5000), units(15000));
    assert_eq!(account.withdrawal(units(10000)), Ok(()));
    assert_eq!(account, Account::new(4, units(0), units(5000), units(5000)));
}

#[test]
fn withdrawal_is_refused_without_cover() {
    let mut account = Account::new(4, units(10000), units(5000), units(15000));
    assert_eq!(account.withdrawal(units(10001)), Err(AccountingError::InsufficientFunds));
    assert_eq!(account.withdrawal(units(0)), Err(AccountingError::InsufficientFunds));
    assert_eq!(account.withdrawal(units(-3)), Err(AccountingError::InsufficientFunds));
    assert_eq!(account, Account::new(4, units(10000), units(5000), units(15000)));
}

#[test]
fn dispute_moves_available_to_held() {
    let mut account = Account::new(4, units(10000), units(5000), units(15000));
    assert_eq!(account.dispute(units(4000)), Ok(()));
    assert_eq!(account, Account::new(4, units(6000), units(9000), units(15000)));
    assert_eq!(account.dispute(units(6001)), Err(AccountingError::InsufficientFundsForDispute));
    assert_eq!(account, Account::new(4, units(6000), units(9000), units(15000)));
}

#[test]
fn resolve_moves_held_to_available() {
    let mut account = Account::new(4, units(6000), units(9000), units(15000));
    account.resolve(units(9000));
    assert_eq!(account, Account::new(4, units(15000), units(0), units(15000)));
}

#[test]
fn chargeback_removes_held_funds_and_locks() {
    let mut account = Account::new(4, units(6000), units(9000), units(15000));
    account.chargeback(units(4000));
    let mut expected = Account::new(4, units(6000), units(5000), units(11000));
    expected.locked = true;
    assert_eq!(account, expected);
    assert!(account.is_locked());
}

#[test]
fn ledger_keeps_the_first_entry() {
    let mut ledger = Ledger::new();
    let first = LedgerEntry { client_id: 1, tx_id: 8, amount: units(5), under_dispute: false };
    let second = LedgerEntry { client_id: 2, tx_id: 8, amount: units(6), under_dispute: false };
    assert!(!ledger.contains(8));
    assert_eq!(ledger.get(8), None);
    assert_eq!(ledger.record_if_absent(8, first), Ok(()));
    assert_eq!(ledger.record_if_absent(8, second), Err(AccountingError::DuplicateTransaction));
    assert!(ledger.contains(8));
    assert_eq!(ledger.get(8), Some(first));
}

#[test]
fn ledger_sets_the_dispute_flag_of_known_entries() {
    let mut ledger = Ledger::new();
    let entry = LedgerEntry { client_id: 1, tx_id: 8, amount: units(5), under_dispute: false };
    assert_eq!(ledger.record_if_absent(8, entry), Ok(()));
    ledger.set_under_dispute(8, true);
    assert_eq!(ledger.get(8), Some(LedgerEntry { under_dispute: true, ..entry }));
    ledger.set_under_dispute(9, true);
    assert_eq!(ledger.get(9), None);
    ledger.set_under_dispute(8, false);
    assert_eq!(ledger.get(8), Some(entry));
}

#[test]
fn error_messages() {
    assert_eq!(
        AccountingError::InsufficientFunds.message(),
        "Error: Insufficient funds for withdrawal"
    );
    assert_eq!(
        AccountingError::InsufficientFundsForDispute.message(),
        "Error: Insufficient funds for dispute"
    );
    assert_eq!(AccountingError::InvalidAmount.message(), "Error: Invalid amount");
    assert_eq!(
        AccountingError::DuplicateTransaction.message(),
        "Error: The transaction already exists in the ledger"
    );
    assert_eq!(AccountingError::AccountLocked.message(), "Error: Account is locked");
    assert_eq!(
        AccountingError::InternalInvariantViolation.message(),
        "Error: Held funds are less than the disputed amount"
    );
    assert_eq!(
        AccountingError::MalformedTransaction.message(),
        "Error: malformed transaction"
    );
}

#[test]
fn normalized_values_drop_trailing_zeros() {
    let account = Account::new(3, units(15000), units(30000), units(45000));
    let (available, held, total) = account.normalize_values().unwrap();
    assert_eq!(available.to_string(), "1.5");
    assert_eq!(held.to_string(), "3");
    assert_eq!(total.to_string(), "4.5");
    let large = Account::new(3, units(i128::MAX), units(0), units(i128::MAX));
    assert_eq!(large.normalize_values(), None);
}

#[test]
fn normalized_values_equal_the_balances() {
    let account = Account::new(3, units(12000), units(-500), units(11500));
    let (available, held, total) = account.normalize_values().unwrap();
    assert_eq!((available.mantissa(), available.scale()), (12, 1));
    assert_eq!((held.mantissa(), held.scale()), (-5, 2));
    assert_eq!((total.mantissa(), total.scale()), (115, 2));
    assert_eq!(Amount::from_decimal(&available), Some(units(12000)));
    assert_eq!(Amount::from_decimal(&held), Some(units(-500)));
    assert_eq!(Amount::from_decimal(&total), Some(units(11500)));
    assert_eq!(account, Account::new(3, units(12000), units(-500), units(11500)));
}

#[test]
fn dispute_then_resolve_gives_the_account_back() {
    let before = Account::new(4, units(10000), units(5000), units(15000));
    let mut account = before;
    assert_eq!(account.dispute(units(7500)), Ok(()));
    assert_eq!(account.total(), before.total());
    account.resolve(units(7500));
    assert_eq!(account, before);
}
