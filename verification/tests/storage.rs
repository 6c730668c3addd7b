use tx_ledger::account::Account;
use tx_ledger::amount::Amount;
use tx_ledger::ledger::Ledger;
use tx_ledger::transaction::{Transaction, Type};

fn amount(units: i128) -> Amount {
    Amount::from_units(units).unwrap()
}

fn deposit(client_id: u16, tx_id: u32, units: i128) -> Transaction {
    Transaction { type_: Type::Deposit, client_id, tx_id, amount: Some(amount(units)), disputed: None }
}

#[test]
fn new_ledger_is_empty() {
    let ledger = Ledger::new();
    assert!(ledger.accounts().is_empty());
    assert_eq!(ledger.get_account(1), None);
    assert!(!ledger.has_transaction(1));
    assert_eq!(ledger.get_transaction(1), None);
}

#[test]
fn get_or_create_account_inserts_a_zeroed_account() {
    let mut ledger = Ledger::new();
    assert_eq!(*ledger.get_or_create_account(4), Account::new(4));
    assert_eq!(ledger.get_account(4), Some(&Account::new(4)));
    assert_eq!(ledger.accounts(), vec![Account::new(4)]);
}

#[test]
fn get_or_create_account_returns_the_existing_account() {
    let mut ledger = Ledger::new();
    ledger.get_or_create_account(4).available = amount(10);
    ledger.get_or_create_account(4).locked = true;
    let account = *ledger.get_or_create_account(4);
    assert_eq!(account.available, amount(10));
    assert!(account.locked);
    assert_eq!(ledger.accounts().len(), 1);
}

#[test]
fn insert_transaction_files_under_the_id() {
    let mut ledger = Ledger::new();
    ledger.insert_transaction(deposit(1, 8, 5));
    assert!(ledger.has_transaction(8));
    assert!(!ledger.has_transaction(1));
    assert_eq!(ledger.get_transaction(8), Some(&deposit(1, 8, 5)));
    assert!(ledger.accounts().is_empty());
}

#[test]
fn insert_transaction_replaces_an_earlier_one() {
    let mut ledger = Ledger::new();
    ledger.insert_transaction(deposit(1, 8, 5));
    ledger.insert_transaction(deposit(2, 8, 6));
    assert_eq!(ledger.get_transaction(8), Some(&deposit(2, 8, 6)));
}

#[test]
fn get_transaction_mut_changes_the_stored_transaction() {
    let mut ledger = Ledger::new();
    ledger.insert_transaction(deposit(1, 8, 5));
    ledger.get_transaction_mut(8).unwrap().disputed = Some(true);
    assert_eq!(ledger.get_transaction(8).unwrap().disputed, Some(true));
    assert_eq!(ledger.get_transaction(8).unwrap().amount, Some(amount(5)));
}

#[test]
fn get_transaction_mut_of_unknown_id_is_none() {
    let mut ledger = Ledger::new();
    ledger.insert_transaction(deposit(1, 8, 5));
    assert!(ledger.get_transaction_mut(9).is_none());
    assert!(!ledger.has_transaction(9));
    assert!(ledger.has_transaction(8));
}

#[test]
fn accounts_lists_every_client_once() {
    let mut ledger = Ledger::new();
    for client_id in [5u16, 1, 9, 5, 1] {
        ledger.get_or_create_account(client_id);
    }
    let mut clients: Vec<u16> = ledger.accounts().iter().map(|account| account.client_id).collect();
    clients.sort();
    assert_eq!(clients, vec![1, 5, 9]);
}

#[test]
fn default_ledger_is_empty() {
    let ledger = Ledger::default();
    assert!(ledger.accounts().is_empty());
    assert!(!ledger.has_transaction(0));
}
