use indexer::db::models::{ClosePositionEvent, CollateralCombineEvent, CollateralDepositEvent,
    CollateralMarkerLiquidatedEvent, CollateralTransfer, CollateralWithdrawEvent, NewAccountEvent,
    OpenPositionEvent, StartCollateralValueAssertionEvent, VaultCreatedEvent};
use indexer::db::repositories::close_position_events::ClosePositionEventRepository;
use indexer::db::repositories::collateral_combine_event::CollateralCombineEventRepository;
use indexer::db::repositories::collateral_deposit_event::CollateralDepositEventRepository;
use indexer::db::repositories::collateral_marker_liquidated_event::CollateralMarkerLiquidatedEventRepository;
use indexer::db::repositories::collateral_transfer::CollateralTransferRepository;
use indexer::db::repositories::collateral_withdraw_event::CollateralWithdrawEventRepository;
use indexer::db::repositories::new_account_event::NewAccountEventRepository;
use indexer::db::repositories::open_position_events::OpenPositionEventRepository;
use indexer::db::repositories::start_collateral_value_assertion_event::StartCollateralValueAssertionEventRepository;
use indexer::db::repositories::vault_created_events::VaultCreatedEventRepository;
use indexer::handlers::{get_account_by_id, get_account_collateral,
    get_account_collateral_by_token_address, get_latest_collateral_assertion_by_account_id,
    map_db_event_to_response, ApiError};

fn deposit(tx: &str, marker: &str, account: &str, token: &str, amount: u64) -> CollateralDepositEvent {
    CollateralDepositEvent {
        transaction_hash: String::from(tx),
        collateral_id: String::from("c1"),
        collateral_marker_id: String::from(marker),
        account_id: String::from(account),
        token_address: String::from(token),
        amount,
        timestamp: 1,
    }
}

fn open_position(tx: &str, pid: &str, account: &str) -> OpenPositionEvent {
    OpenPositionEvent {
        transaction_hash: String::from(tx),
        position_id: String::from(pid),
        position_type: String::from("Long"),
        amount: 10,
        leverage_multiplier: 2,
        entry_price: 100,
        entry_price_decimals: 2,
        supported_positions_token_i: 0,
        price_feed_id_bytes: String::from(""),
        account_id: String::from(account),
        timestamp: 1,
    }
}

fn close_position(tx: &str, pid: &str, account: &str) -> ClosePositionEvent {
    ClosePositionEvent {
        transaction_hash: String::from(tx),
        position_id: String::from(pid),
        position_type: String::from("Long"),
        amount: 10,
        leverage_multiplier: 2,
        entry_price: 100,
        entry_price_decimals: 2,
        close_price: 120,
        close_price_decimals: 2,
        price_delta: 20,
        transfer_amount: 5,
        transfer_to: String::from("User"),
        account_id: String::from(account),
        timestamp: 2,
    }
}

#[test]
fn idempotent_create_keeps_one_row_and_returns_it_unchanged() {
    let mut repo = CollateralDepositEventRepository::new();
    let first = repo.create(deposit("tx1", "m1", "acct", "tok", 500)).unwrap();
    let second = repo.create(deposit("tx1", "m1", "acct", "tok", 999)).unwrap();
    // The second call resolves to the first row, unchanged.
    assert_eq!(second.transaction_hash, first.transaction_hash);
    assert_eq!(second.amount, 500);
    let found = repo.find(&String::from("tx1")).unwrap();
    assert_eq!(found.amount, 500);
}

#[test]
fn idempotent_create_on_assertion_id() {
    let mut repo = StartCollateralValueAssertionEventRepository::new();
    let row = StartCollateralValueAssertionEvent {
        cva_id: String::from("cva1"),
        transaction_hash: String::from("txA"),
        account_id: String::from("acct"),
        program_id: String::from("prog"),
        num_open_collateral_objects: 2,
        timestamp: 10,
    };
    let replay = StartCollateralValueAssertionEvent {
        transaction_hash: String::from("txB"),
        ..row_clone(&row)
    };
    repo.create(row).unwrap();
    let second = repo.create(replay).unwrap();
    assert_eq!(second.transaction_hash, "txA");
}

fn row_clone(r: &StartCollateralValueAssertionEvent) -> StartCollateralValueAssertionEvent {
    StartCollateralValueAssertionEvent {
        cva_id: r.cva_id.clone(),
        transaction_hash: r.transaction_hash.clone(),
        account_id: r.account_id.clone(),
        program_id: r.program_id.clone(),
        num_open_collateral_objects: r.num_open_collateral_objects,
        timestamp: r.timestamp,
    }
}

#[test]
fn plain_insert_refuses_duplicate_key() {
    let mut repo = OpenPositionEventRepository::new();
    assert!(repo.create(open_position("tx1", "p1", "a1")).is_ok());
    assert!(repo.create(open_position("tx1", "p2", "a1")).is_err());
    assert_eq!(repo.get_all().len(), 1);
}

#[test]
fn open_positions_anti_join() {
    let mut opens = OpenPositionEventRepository::new();
    let mut closes = ClosePositionEventRepository::new();
    opens.create(open_position("t1", "p1", "alice")).unwrap();
    opens.create(open_position("t2", "p2", "alice")).unwrap();
    opens.create(open_position("t3", "p3", "bob")).unwrap();
    closes.create(close_position("t4", "p1", "alice")).unwrap();

    let open_alice = opens.get_open_positions_for_account(String::from("alice"), &closes);
    assert_eq!(open_alice.len(), 1);
    assert_eq!(open_alice[0].position_id, "p2");

    // Closing the remaining position empties the projection.
    closes.create(close_position("t5", "p2", "alice")).unwrap();
    let open_alice = opens.get_open_positions_for_account(String::from("alice"), &closes);
    assert!(open_alice.is_empty());

    // Another account's close never affects this one.
    let open_bob = opens.get_open_positions_for_account(String::from("bob"), &closes);
    assert_eq!(open_bob.len(), 1);
    assert_eq!(open_bob[0].position_id, "p3");
}

#[test]
fn live_collateral_excludes_each_consuming_kind() {
    let mut deposits = CollateralDepositEventRepository::new();
    let liqs = CollateralMarkerLiquidatedEventRepository::new();
    let mut wds = CollateralWithdrawEventRepository::new();
    let mut cmbs = CollateralCombineEventRepository::new();

    deposits.create(deposit("t1", "m1", "alice", "tokA", 100)).unwrap();
    deposits.create(deposit("t2", "m2", "alice", "tokA", 200)).unwrap();
    deposits.create(deposit("t3", "m3", "alice", "tokB", 300)).unwrap();
    deposits.create(deposit("t4", "m4", "alice", "tokA", 400)).unwrap();

    // m2 withdrawn with the marker destroyed.
    wds.create(CollateralWithdrawEvent {
        transaction_hash: String::from("w1"),
        collateral_id: String::from("c"),
        collateral_marker_id: String::from("m2"),
        account_id: String::from("alice"),
        token_address: String::from("tokA"),
        withdrawn_amount: 200,
        marker_destroyed: true,
        remaining_amount_in_marker: 0,
        timestamp: 3,
    })
    .unwrap();
    // m3 consumed as a combine source.
    cmbs.create(CollateralCombineEvent {
        transaction_hash: String::from("cb1"),
        old_collateral_id1: String::from("x"),
        old_collateral_marker_id1: String::from("m9"),
        old_collateral_id2: String::from("y"),
        old_collateral_marker_id2: String::from("m3"),
        new_collateral_id: String::from("z"),
        new_collateral_marker_id: String::from("m10"),
        account_id: String::from("alice"),
        token_address: String::from("tokB"),
        combined_amount: 300,
        timestamp: 4,
    })
    .unwrap();

    let live = deposits.find_by_account_id(&String::from("alice"), &liqs, &wds, &cmbs);
    let markers: Vec<&str> = live.iter().map(|d| d.collateral_marker_id.as_str()).collect();
    assert_eq!(markers, vec!["m1", "m4"]);

    // A withdrawal that does not destroy the marker keeps it live.
    wds.create(CollateralWithdrawEvent {
        transaction_hash: String::from("w2"),
        collateral_id: String::from("c"),
        collateral_marker_id: String::from("m1"),
        account_id: String::from("alice"),
        token_address: String::from("tokA"),
        withdrawn_amount: 50,
        marker_destroyed: false,
        remaining_amount_in_marker: 50,
        timestamp: 5,
    })
    .unwrap();
    let live = deposits.find_by_account_id(&String::from("alice"), &liqs, &wds, &cmbs);
    assert_eq!(live.len(), 2);

    // Restricting to a token filters further.
    let live_a =
        deposits.find_by_account_id_and_token_address(&String::from("alice"), &String::from("tokA"), &liqs, &wds, &cmbs);
    let markers: Vec<&str> = live_a.iter().map(|d| d.collateral_marker_id.as_str()).collect();
    assert_eq!(markers, vec!["m1", "m4"]);
}

#[test]
fn liquidated_marker_excluded_after_storing_liquidation() {
    let mut deposits = CollateralDepositEventRepository::new();
    let mut liqs = CollateralMarkerLiquidatedEventRepository::new();
    let wds = CollateralWithdrawEventRepository::new();
    let cmbs = CollateralCombineEventRepository::new();

    deposits.create(deposit("t1", "mM", "alice", "tok", 100)).unwrap();
    let live = deposits.find_by_account_id(&String::from("alice"), &liqs, &wds, &cmbs);
    assert_eq!(live.len(), 1);

    liqs.create(CollateralMarkerLiquidatedEvent {
        transaction_hash: String::from("lq1"),
        collateral_marker_id: String::from("mM"),
        account_id: String::from("alice"),
        timestamp: 9,
    })
    .unwrap();
    let live = deposits.find_by_account_id(&String::from("alice"), &liqs, &wds, &cmbs);
    assert!(live.is_empty());
}

#[test]
fn vault_lookup_by_address() {
    let mut vaults = VaultCreatedEventRepository::new();
    vaults
        .create(VaultCreatedEvent {
            transaction_hash: String::from("v1"),
            vault_address: String::from("0xabc"),
            vault_marker_address: String::from("0xmark"),
            coin_token_info: String::from("coin"),
            lp_token_info: String::from("lp"),
            timestamp: 1,
        })
        .unwrap();
    assert!(vaults.find_by_vault_address(&String::from("0xabc")).is_some());
    assert!(vaults.find_by_vault_address(&String::from("0xdef")).is_none());
    assert_eq!(vaults.find_all().len(), 1);
}

#[test]
fn latest_assertion_orders_by_time_descending() {
    let mut repo = StartCollateralValueAssertionEventRepository::new();
    for (id, t) in [("a1", 10i64), ("a2", 30), ("a3", 20)] {
        repo.create(StartCollateralValueAssertionEvent {
            cva_id: String::from(id),
            transaction_hash: String::from(id),
            account_id: String::from("alice"),
            program_id: String::from("p"),
            num_open_collateral_objects: 0,
            timestamp: t,
        })
        .unwrap();
    }
    let latest = repo.find_latest_by_account_id(&String::from("alice")).unwrap();
    assert_eq!(latest.cva_id, "a2");
    assert!(repo.find_latest_by_account_id(&String::from("bob")).is_none());
}

#[test]
fn unfulfilled_transfers_scan() {
    let mut repo = CollateralTransferRepository::new();
    repo.create(CollateralTransfer {
        transaction_hash: String::from("t1"),
        transfer_id: String::from("tr1"),
        collateral_marker_id: String::from("m"),
        collateral_address: String::from("c"),
        amount: 5,
        to_vault_address: String::from("v"),
        fulfilled: false,
        timestamp: 1,
    })
    .unwrap();
    repo.create(CollateralTransfer {
        transaction_hash: String::from("t2"),
        transfer_id: String::from("tr2"),
        collateral_marker_id: String::from("m"),
        collateral_address: String::from("c"),
        amount: 6,
        to_vault_address: String::from("v"),
        fulfilled: true,
        timestamp: 2,
    })
    .unwrap();
    let unfulfilled = repo.find_unfulfilled();
    assert_eq!(unfulfilled.len(), 1);
    assert_eq!(unfulfilled[0].transfer_id, "tr1");
    assert!(repo.find_by_id(&String::from("tr2")).is_some());
}

#[test]
fn account_handlers_decide_found_and_not_found() {
    let mut accounts = NewAccountEventRepository::new();
    assert!(matches!(
        get_account_by_id(&String::from("alice"), &accounts),
        Err(ApiError::NotFound)
    ));
    accounts
        .create(NewAccountEvent {
            transaction_hash: String::from("t1"),
            account_id: String::from("alice"),
            stats_id: String::from("s1"),
            timestamp: 1,
        })
        .unwrap();
    let row = get_account_by_id(&String::from("alice"), &accounts).unwrap();
    assert_eq!(row.stats_id, "s1");
    assert_eq!(accounts.find_all().len(), 1);
}

#[test]
fn collateral_handler_serves_responses_and_not_found() {
    let mut deposits = CollateralDepositEventRepository::new();
    let liqs = CollateralMarkerLiquidatedEventRepository::new();
    let wds = CollateralWithdrawEventRepository::new();
    let cmbs = CollateralCombineEventRepository::new();

    assert!(matches!(
        get_account_collateral(&String::from("alice"), &deposits, &liqs, &wds, &cmbs),
        Err(ApiError::NotFound)
    ));

    let account = "33".repeat(32);
    deposits
        .create(CollateralDepositEvent {
            transaction_hash: String::from("t1"),
            collateral_id: "11".repeat(32),
            collateral_marker_id: "22".repeat(32),
            account_id: account.clone(),
            token_address: String::from("tok"),
            amount: 900,
            timestamp: 1,
        })
        .unwrap();
    let resps = get_account_collateral(&account, &deposits, &liqs, &wds, &cmbs).unwrap();
    assert_eq!(resps.len(), 1);
    assert_eq!(resps[0].collateral_id, [0x11u8; 32]);
    assert_eq!(resps[0].collateral_marker_id, [0x22u8; 32]);
    assert_eq!(resps[0].account_id, [0x33u8; 32]);
    assert_eq!(resps[0].token_id.token_address, "tok");
    assert_eq!(resps[0].amount, 900);

    let by_token = get_account_collateral_by_token_address(
        &account,
        &String::from("tok"),
        &deposits,
        &liqs,
        &wds,
        &cmbs,
    )
    .unwrap();
    assert_eq!(by_token.len(), 1);
    assert!(matches!(
        get_account_collateral_by_token_address(
            &account,
            &String::from("other"),
            &deposits,
            &liqs,
            &wds,
            &cmbs
        ),
        Err(ApiError::NotFound)
    ));
}

#[test]
fn response_mapping_rejects_malformed_identifiers() {
    let bad = CollateralDepositEvent {
        transaction_hash: String::from("t"),
        collateral_id: String::from("xyz"),
        collateral_marker_id: "22".repeat(32),
        account_id: "33".repeat(32),
        token_address: String::from("tok"),
        amount: 1,
        timestamp: 1,
    };
    assert!(map_db_event_to_response(bad).is_err());
    let short = CollateralDepositEvent {
        transaction_hash: String::from("t"),
        collateral_id: String::from("1122"),
        collateral_marker_id: "22".repeat(32),
        account_id: "33".repeat(32),
        token_address: String::from("tok"),
        amount: 1,
        timestamp: 1,
    };
    assert!(map_db_event_to_response(short).is_err());
}

#[test]
fn latest_assertion_handler_converts() {
    let mut repo = StartCollateralValueAssertionEventRepository::new();
    let account = "ab".repeat(32);
    repo.create(StartCollateralValueAssertionEvent {
        cva_id: "cd".repeat(32),
        transaction_hash: String::from("tx"),
        account_id: account.clone(),
        program_id: "ef".repeat(32),
        num_open_collateral_objects: 3,
        timestamp: 7,
    })
    .unwrap();
    let resp = get_latest_collateral_assertion_by_account_id(&account, &repo).unwrap();
    assert_eq!(resp.cva_id, [0xcdu8; 32]);
    assert_eq!(resp.program_id, [0xefu8; 32]);
    assert_eq!(resp.num_open_collateral_objects, 3);
    assert_eq!(resp.timestamp, 7);
}
