use thestreamer::account::AccountId;
use thestreamer::{Ledger, LedgerError};

fn acct(name: &str) -> AccountId {
    AccountId::new(name.to_string())
}

#[test]
fn deposit_to_unregistered_account_is_refused() {
    let mut ledger = Ledger::new();
    assert_eq!(ledger.deposit(&acct("a"), 5), Err(LedgerError::NotRegistered));
    assert_eq!(ledger.balance_of(&acct("a")), 0);
    assert_eq!(ledger.total_supply(), 0);
}

#[test]
fn withdraw_beyond_balance_is_refused() {
    let mut ledger = Ledger::new();
    ledger.register(&acct("a"));
    assert!(ledger.deposit(&acct("a"), 5).is_ok());
    assert_eq!(
        ledger.withdraw(&acct("a"), 6),
        Err(LedgerError::InsufficientBalance)
    );
    assert_eq!(ledger.balance_of(&acct("a")), 5);
    assert!(ledger.withdraw(&acct("a"), 5).is_ok());
    assert_eq!(ledger.balance_of(&acct("a")), 0);
    assert_eq!(ledger.total_supply(), 0);
}

#[test]
fn transfer_needs_both_accounts_registered() {
    let mut ledger = Ledger::new();
    ledger.register(&acct("a"));
    assert!(ledger.deposit(&acct("a"), 5).is_ok());
    assert_eq!(
        ledger.transfer(&acct("a"), &acct("b"), 1),
        Err(LedgerError::NotRegistered)
    );
    ledger.register(&acct("b"));
    assert!(ledger.transfer(&acct("a"), &acct("b"), 1).is_ok());
    assert_eq!(ledger.balance_of(&acct("a")), 4);
    assert_eq!(ledger.balance_of(&acct("b")), 1);
    assert_eq!(ledger.total_supply(), 5);
}

#[test]
fn deposit_overflowing_supply_is_refused() {
    let mut ledger = Ledger::new();
    ledger.register(&acct("a"));
    ledger.register(&acct("b"));
    assert!(ledger.deposit(&acct("a"), u128::MAX - 1).is_ok());
    assert_eq!(
        ledger.deposit(&acct("b"), 2),
        Err(LedgerError::BalanceOverflow)
    );
    assert!(ledger.deposit(&acct("b"), 1).is_ok());
    assert_eq!(ledger.total_supply(), u128::MAX);
}

#[test]
fn registering_twice_changes_nothing() {
    let mut ledger = Ledger::new();
    ledger.register(&acct("a"));
    assert!(ledger.deposit(&acct("a"), 7).is_ok());
    ledger.register(&acct("a"));
    assert_eq!(ledger.balance_of(&acct("a")), 7);
    assert!(ledger.is_registered(&acct("a")));
    assert!(!ledger.is_registered(&acct("b")));
}

#[test]
fn self_transfer_moves_nothing() {
    let mut ledger = Ledger::new();
    ledger.register(&acct("a"));
    assert!(ledger.deposit(&acct("a"), 9).is_ok());
    assert!(ledger.transfer(&acct("a"), &acct("a"), 4).is_ok());
    assert_eq!(ledger.balance_of(&acct("a")), 9);
}
