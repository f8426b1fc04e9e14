use indexer::relay::{classify_subscription, RelayRole, RelayState, SubscribeDecision};

#[test]
fn classify_subscription_kinds() {
    assert!(matches!(
        classify_subscription(&String::from("wallet-subscribe"), true),
        SubscribeDecision::Register(RelayRole::Wallet)
    ));
    assert!(matches!(
        classify_subscription(&String::from("wallet-subscribe"), false),
        SubscribeDecision::Reject(RelayRole::Wallet)
    ));
    assert!(matches!(
        classify_subscription(&String::from("frontend-subscribe"), true),
        SubscribeDecision::Register(RelayRole::Frontend)
    ));
    assert!(matches!(
        classify_subscription(&String::from("frontend-subscribe"), false),
        SubscribeDecision::Reject(RelayRole::Frontend)
    ));
    assert!(matches!(
        classify_subscription(&String::from("something-else"), true),
        SubscribeDecision::Ignore
    ));
}

#[test]
fn forwarding_requires_matching_frontend() {
    let mut state = RelayState::new();
    let session = 42u128;
    state.subscribe(RelayRole::Wallet, session);
    // The wallet is reachable for incoming transactions, but its messages
    // have nowhere to go until a frontend pairs under the same session.
    assert!(state.has_wallet(session));
    assert!(!state.has_frontend(session));
    state.subscribe(RelayRole::Frontend, session);
    assert!(state.has_frontend(session));
    // Another session stays unrelated.
    assert!(!state.has_frontend(7u128));
}

#[test]
fn unsubscribe_removes_only_that_role() {
    let mut state = RelayState::new();
    let session = 42u128;
    state.subscribe(RelayRole::Wallet, session);
    state.subscribe(RelayRole::Frontend, session);
    state.unsubscribe(RelayRole::Wallet, session);
    assert!(!state.has_wallet(session));
    assert!(state.has_frontend(session));
    state.unsubscribe(RelayRole::Frontend, session);
    assert!(!state.has_frontend(session));
}

#[test]
fn duplicate_subscription_is_kept_once() {
    let mut state = RelayState::new();
    state.subscribe(RelayRole::Wallet, 1u128);
    state.subscribe(RelayRole::Wallet, 1u128);
    state.unsubscribe(RelayRole::Wallet, 1u128);
    assert!(!state.has_wallet(1u128));
}
