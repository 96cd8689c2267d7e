use thestreamer::account::AccountId;
use thestreamer::{AuditRecord, Contract, ContractError, LedgerError};

fn acct(name: &str) -> AccountId {
    AccountId::new(name.to_string())
}

fn contract_with(owner: &str, supply: u128, price: u128) -> Contract {
    Contract::new(
        acct(owner),
        supply,
        price,
        "Example NEAR fungible token".to_string(),
        "EXAMPLE".to_string(),
    )
}

#[test]
fn buy_settlement_example() {
    // price = 1,000,000; paying 10,500,000 buys 10 units, refunds 500,000.
    let mut c = contract_with("alice", 1_000, 1_000_000);
    let receipt = c.buy_ft_tokens(&acct("bob"), 10_500_000).unwrap();

    assert_eq!(receipt.affordable_amount, 10);
    assert_eq!(receipt.surplus, 500_000);
    assert_eq!(c.ft_balance_of(&acct("bob")), 10);
    assert_eq!(c.ft_balance_of(&acct("alice")), 990);
    assert_eq!(c.ft_total_supply(), 1_000);

    // The spent part goes to the operator, the surplus back to the buyer,
    // in that order.
    assert_eq!(receipt.payouts.len(), 2);
    assert_eq!(receipt.payouts[0].receiver.as_str(), "alice");
    assert_eq!(receipt.payouts[0].amount, 10_000_000);
    assert_eq!(receipt.payouts[1].receiver.as_str(), "bob");
    assert_eq!(receipt.payouts[1].amount, 500_000);

    match &receipt.audit {
        AuditRecord::Purchase { buyer, amount, symbol, surplus } => {
            assert_eq!(buyer.as_str(), "bob");
            assert_eq!(*amount, 10);
            assert_eq!(symbol.as_str(), "EXAMPLE");
            assert_eq!(*surplus, 500_000);
        }
        other => panic!("expected a purchase record, got {:?}", other),
    }
}

#[test]
fn buy_below_price_refunds_everything() {
    // Paying less than one unit's price buys nothing; the whole payment is
    // refunded and the ledger does not move.
    let mut c = contract_with("alice", 1_000, 1_000_000);
    let receipt = c.buy_ft_tokens(&acct("bob"), 999_999).unwrap();

    assert_eq!(receipt.affordable_amount, 0);
    assert_eq!(receipt.surplus, 999_999);
    assert_eq!(c.ft_balance_of(&acct("bob")), 0);
    assert_eq!(c.ft_balance_of(&acct("alice")), 1_000);
    assert_eq!(receipt.payouts[0].amount, 0);
    assert_eq!(receipt.payouts[1].amount, 999_999);
}

#[test]
fn buy_with_zero_price_is_refused() {
    let mut c = contract_with("alice", 1_000, 0);
    let result = c.buy_ft_tokens(&acct("bob"), 5);
    assert!(matches!(result, Err(ContractError::ZeroExchangePrice)));
    assert_eq!(c.ft_balance_of(&acct("bob")), 0);
}

#[test]
fn buy_beyond_operator_balance_is_refused() {
    // The operator holds 3 units; asking for 5 aborts with a ledger error
    // and moves nothing.
    let mut c = contract_with("alice", 3, 100);
    let result = c.buy_ft_tokens(&acct("bob"), 500);
    assert!(matches!(
        result,
        Err(ContractError::Ledger(LedgerError::InsufficientBalance))
    ));
    assert_eq!(c.ft_balance_of(&acct("alice")), 3);
    assert_eq!(c.ft_balance_of(&acct("bob")), 0);
}

#[test]
fn buy_exact_multiple_has_no_surplus() {
    let mut c = contract_with("alice", 1_000, 250);
    let receipt = c.buy_ft_tokens(&acct("bob"), 1_000).unwrap();
    assert_eq!(receipt.affordable_amount, 4);
    assert_eq!(receipt.surplus, 0);
    assert_eq!(c.ft_balance_of(&acct("bob")), 4);
}

#[test]
fn owner_buying_from_themselves_keeps_balances() {
    let mut c = contract_with("alice", 100, 10);
    let receipt = c.buy_ft_tokens(&acct("alice"), 55).unwrap();
    assert_eq!(receipt.affordable_amount, 5);
    assert_eq!(receipt.surplus, 5);
    assert_eq!(c.ft_balance_of(&acct("alice")), 100);
}

#[test]
fn mint_overflow_is_refused() {
    let mut c = contract_with("alice", u128::MAX - 10, 1);
    let result = c.print_tokens(&acct("alice"), 11);
    assert!(matches!(
        result,
        Err(ContractError::Ledger(LedgerError::BalanceOverflow))
    ));
    assert_eq!(c.ft_total_supply(), u128::MAX - 10);

    let ok = c.print_tokens(&acct("alice"), 10);
    assert!(ok.is_ok());
    assert_eq!(c.ft_total_supply(), u128::MAX);
}

#[test]
fn mint_returns_audit_record() {
    let mut c = contract_with("alice", 100, 1);
    let record = c.print_tokens(&acct("alice"), 42).unwrap();
    assert!(matches!(record, AuditRecord::Mint { amount: 42 }));
    assert_eq!(c.ft_balance_of(&acct("alice")), 142);
}

#[test]
fn replace_price_returns_audit_record() {
    let mut c = contract_with("alice", 100, 1);
    let record = c.replace_exchange_price(&acct("alice"), 77).unwrap();
    assert!(matches!(record, AuditRecord::PriceChange { new_price: 77 }));
    assert_eq!(c.exchange_price(), 77);
}

#[test]
fn non_owner_mint_is_refused_with_not_owner() {
    let mut c = contract_with("alice", 100, 1);
    let result = c.print_tokens(&acct("bob"), 1);
    assert!(matches!(result, Err(ContractError::NotOwner)));
    assert_eq!(c.ft_total_supply(), 100);
}

#[test]
fn settlement_formula_holds_for_sampled_inputs() {
    let samples: [(u128, u128); 6] = [
        (0, 1),
        (1, 1),
        (999, 1_000),
        (1_000, 1_000),
        (1_001, 1_000),
        (u128::MAX, 3),
    ];
    for (paid, price) in samples {
        let mut c = contract_with("alice", u128::MAX, price);
        let receipt = c.buy_ft_tokens(&acct("bob"), paid).unwrap();
        assert_eq!(receipt.affordable_amount * price + receipt.surplus, paid);
        assert!(receipt.surplus < price);
    }
}

#[test]
fn buying_after_a_reprice_uses_the_new_price() {
    let mut c = contract_with("alice", 1_000, 100);
    assert!(c.replace_exchange_price(&acct("alice"), 50).is_ok());
    let receipt = c.buy_ft_tokens(&acct("bob"), 120).unwrap();
    assert_eq!(receipt.affordable_amount, 2);
    assert_eq!(receipt.surplus, 20);
}

#[test]
fn charge_clamps_to_available_balance() {
    // A holds 5 and is charged exactly 5; B holds 30, is asked for 100 and
    // loses the entire balance; the clamped record keeps the request.
    let mut c = contract_with("operator", 1_000, 1);
    assert!(c.buy_ft_tokens(&acct("aaa"), 5).is_ok());
    assert!(c.buy_ft_tokens(&acct("bbb"), 30).is_ok());

    let records = c
        .charge_users(
            &acct("operator"),
            vec![(acct("aaa"), 5u128), (acct("bbb"), 100u128)],
        )
        .unwrap();

    assert_eq!(c.ft_balance_of(&acct("aaa")), 0);
    assert_eq!(c.ft_balance_of(&acct("bbb")), 0);

    assert_eq!(records.len(), 2);
    match &records[0] {
        AuditRecord::Charge { account, amount, symbol } => {
            assert_eq!(account.as_str(), "aaa");
            assert_eq!(*amount, 5);
            assert_eq!(symbol.as_str(), "EXAMPLE");
        }
        other => panic!("expected a full charge record, got {:?}", other),
    }
    match &records[1] {
        AuditRecord::ChargeClamped { account, charged, requested, symbol } => {
            assert_eq!(account.as_str(), "bbb");
            assert_eq!(*charged, 30);
            assert_eq!(*requested, 100);
            assert_eq!(symbol.as_str(), "EXAMPLE");
        }
        other => panic!("expected a clamped charge record, got {:?}", other),
    }
}

#[test]
fn charge_of_unregistered_account_moves_nothing() {
    let mut c = contract_with("operator", 100, 1);
    let records = c
        .charge_users(&acct("operator"), vec![(acct("ghost"), 7u128)])
        .unwrap();
    assert_eq!(c.ft_balance_of(&acct("ghost")), 0);
    assert_eq!(c.ft_total_supply(), 100);
    assert!(matches!(
        records[0],
        AuditRecord::ChargeClamped { charged: 0, requested: 7, .. }
    ));
}

#[test]
fn charge_same_account_twice_runs_in_order() {
    // The second entry is clamped against what the first one left behind.
    let mut c = contract_with("operator", 100, 1);
    assert!(c.buy_ft_tokens(&acct("aaa"), 10).is_ok());
    let records = c
        .charge_users(
            &acct("operator"),
            vec![(acct("aaa"), 6u128), (acct("aaa"), 6u128)],
        )
        .unwrap();
    assert_eq!(c.ft_balance_of(&acct("aaa")), 0);
    assert!(matches!(records[0], AuditRecord::Charge { .. }));
    assert!(matches!(
        records[1],
        AuditRecord::ChargeClamped { charged: 4, requested: 6, .. }
    ));
}
