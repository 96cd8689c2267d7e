use thestreamer::account::AccountId;
use thestreamer::subscriptions::{Event, FunctionCallTrigger, TransferTrigger};
use thestreamer::{Contract, ContractError};

fn acct(name: &str) -> AccountId {
    AccountId::new(name.to_string())
}

fn fresh_contract() -> Contract {
    Contract::new(
        acct("operator"),
        1_000,
        10,
        "Example NEAR fungible token".to_string(),
        "EXAMPLE".to_string(),
    )
}

fn transfer_event() -> Event {
    Event::ReceiptTransferResult(vec![
        TransferTrigger::ReceiverId(acct("bob")),
        TransferTrigger::AmountEqualOrGreater(100),
    ])
}

fn call_event() -> Event {
    Event::ReceiptFunctionCallResult(vec![
        FunctionCallTrigger::ReceiverId(acct("bob")),
        FunctionCallTrigger::FunctionNameExact("ft_transfer".to_string()),
        FunctionCallTrigger::FunctionNameLike("ft_%".to_string()),
    ])
}

#[test]
fn first_subscription_gets_id_one_then_ids_count_up() {
    let mut c = fresh_contract();
    let id1 = c
        .create_subscription(&acct("bob"), "http://localhost:3030".to_string(), transfer_event())
        .unwrap();
    assert_eq!(id1, 1);
    let id2 = c
        .create_subscription(&acct("bob"), "http://localhost:3031".to_string(), call_event())
        .unwrap();
    assert_eq!(id2, 2);

    let listed = c.subscriptions_of(&acct("bob"));
    assert_eq!(listed.len(), 2);
    assert_eq!(listed[0].id, 1);
    assert!(listed[0].enabled);
    assert_eq!(listed[0].endpoint.as_str(), "http://localhost:3030");
    assert_eq!(listed[1].id, 2);
    assert_eq!(listed[1].endpoint.as_str(), "http://localhost:3031");
}

#[test]
fn listing_is_verbatim_and_per_account() {
    let mut c = fresh_contract();
    assert!(c
        .create_subscription(&acct("bob"), "http://b".to_string(), transfer_event())
        .is_ok());
    assert!(c
        .create_subscription(&acct("carol"), "http://c".to_string(), call_event())
        .is_ok());

    let bobs = c.subscriptions_of(&acct("bob"));
    assert_eq!(bobs.len(), 1);
    assert_eq!(bobs[0].endpoint.as_str(), "http://b");
    match &bobs[0].event {
        Event::ReceiptTransferResult(triggers) => {
            assert_eq!(triggers.len(), 2);
            match &triggers[0] {
                TransferTrigger::ReceiverId(a) => assert_eq!(a.as_str(), "bob"),
                other => panic!("expected a receiver trigger, got {:?}", other),
            }
            assert!(matches!(triggers[1], TransferTrigger::AmountEqualOrGreater(100)));
        }
        other => panic!("expected a transfer event, got {:?}", other),
    }

    let carols = c.subscriptions_of(&acct("carol"));
    assert_eq!(carols.len(), 1);
    match &carols[0].event {
        Event::ReceiptFunctionCallResult(triggers) => {
            assert_eq!(triggers.len(), 3);
            match &triggers[1] {
                FunctionCallTrigger::FunctionNameExact(name) => assert_eq!(name, "ft_transfer"),
                other => panic!("expected an exact-name trigger, got {:?}", other),
            }
        }
        other => panic!("expected a function-call event, got {:?}", other),
    }

    // An account that never created one gets the empty sequence.
    assert!(c.subscriptions_of(&acct("nobody")).is_empty());
}

#[test]
fn delete_removes_first_match_and_keeps_order() {
    let mut c = fresh_contract();
    for endpoint in ["http://1", "http://2", "http://3"] {
        assert!(c
            .create_subscription(&acct("bob"), endpoint.to_string(), transfer_event())
            .is_ok());
    }
    assert!(c.delete_subscription(&acct("bob"), 2).is_ok());
    let listed = c.subscriptions_of(&acct("bob"));
    assert_eq!(listed.len(), 2);
    assert_eq!(listed[0].id, 1);
    assert_eq!(listed[0].endpoint.as_str(), "http://1");
    assert_eq!(listed[1].id, 3);
    assert_eq!(listed[1].endpoint.as_str(), "http://3");
}

#[test]
fn delete_of_unknown_id_aborts_and_changes_nothing() {
    let mut c = fresh_contract();
    assert!(c
        .create_subscription(&acct("bob"), "http://b".to_string(), transfer_event())
        .is_ok());

    let result = c.delete_subscription(&acct("bob"), 9);
    match result {
        Err(ContractError::SubscriptionNotFound { account, id }) => {
            assert_eq!(account.as_str(), "bob");
            assert_eq!(id, 9);
        }
        other => panic!("expected a not-found failure, got {:?}", other),
    }
    let listed = c.subscriptions_of(&acct("bob"));
    assert_eq!(listed.len(), 1);
    assert_eq!(listed[0].id, 1);

    // An account with no sequence at all fails the same way.
    let result = c.delete_subscription(&acct("nobody"), 1);
    assert!(matches!(result, Err(ContractError::SubscriptionNotFound { .. })));
}

#[test]
fn deleting_the_only_subscription_reuses_id_one() {
    let mut c = fresh_contract();
    let id = c
        .create_subscription(&acct("bob"), "http://b".to_string(), transfer_event())
        .unwrap();
    assert_eq!(id, 1);
    assert!(c.delete_subscription(&acct("bob"), 1).is_ok());
    assert!(c.subscriptions_of(&acct("bob")).is_empty());

    // The id space is recomputed from the highest existing id, so the freed
    // id comes back.
    let reused = c
        .create_subscription(&acct("bob"), "http://b2".to_string(), call_event())
        .unwrap();
    assert_eq!(reused, 1);
}

#[test]
fn deleting_the_highest_id_reuses_it() {
    let mut c = fresh_contract();
    for endpoint in ["http://1", "http://2"] {
        assert!(c
            .create_subscription(&acct("bob"), endpoint.to_string(), transfer_event())
            .is_ok());
    }
    assert!(c.delete_subscription(&acct("bob"), 2).is_ok());
    let id = c
        .create_subscription(&acct("bob"), "http://again".to_string(), transfer_event())
        .unwrap();
    assert_eq!(id, 2);
}

#[test]
fn id_space_exhaustion_is_refused() {
    let mut c = fresh_contract();
    for _ in 0..255 {
        assert!(c
            .create_subscription(&acct("bob"), "http://b".to_string(), transfer_event())
            .is_ok());
    }
    assert_eq!(c.subscriptions_of(&acct("bob")).len(), 255);
    let result =
        c.create_subscription(&acct("bob"), "http://b".to_string(), transfer_event());
    assert!(matches!(result, Err(ContractError::SubscriptionIdsExhausted)));
    assert_eq!(c.subscriptions_of(&acct("bob")).len(), 255);
}
