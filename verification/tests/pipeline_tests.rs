use indexer::config::Config;
use indexer::db::models::VaultCreatedEvent as VaultCreatedRow;
use indexer::db::repositories::close_position_events::ClosePositionEventRepository;
use indexer::db::repositories::collateral_deposit_event::CollateralDepositEventRepository;
use indexer::db::repositories::collateral_marker_liquidated_event::CollateralMarkerLiquidatedEventRepository;
use indexer::db::repositories::collateral_transfer::CollateralTransferRepository;
use indexer::db::repositories::new_account_event::NewAccountEventRepository;
use indexer::db::repositories::open_position_events::OpenPositionEventRepository;
use indexer::db::repositories::position_liquidated_event::PositionLiquidatedEventRepository;
use indexer::db::repositories::start_collateral_value_assertion_event::StartCollateralValueAssertionEventRepository;
use indexer::db::repositories::vault_created_events::VaultCreatedEventRepository;
use indexer::db::repositories::vault_transfer::VaultTransferRepository;
use indexer::worker::{Checkpoint, EventPayload, Notification, PositionEventWorker, Transaction};

fn test_config() -> Config {
    Config::load(
        String::from("postgres://localhost/indexer"),
        String::from("0xpkg"),
        String::from("https://checkpoints.example"),
        0,
        1,
        String::from("127.0.0.1:3000"),
        String::from("http://settlement.example"),
    )
}

fn new_worker() -> PositionEventWorker {
    PositionEventWorker::new(
        OpenPositionEventRepository::new(),
        ClosePositionEventRepository::new(),
        VaultCreatedEventRepository::new(),
        NewAccountEventRepository::new(),
        CollateralDepositEventRepository::new(),
        StartCollateralValueAssertionEventRepository::new(),
        CollateralTransferRepository::new(),
        VaultTransferRepository::new(),
        PositionLiquidatedEventRepository::new(),
        CollateralMarkerLiquidatedEventRepository::new(),
        &test_config(),
    )
}

fn position_created_payload(position_id: [u8; 32], account_id: [u8; 32]) -> Vec<u8> {
    let mut p = Vec::new();
    p.extend_from_slice(&position_id);
    p.push(0); // long
    p.extend_from_slice(&500u64.to_le_bytes());
    p.extend_from_slice(&3u16.to_le_bytes());
    p.extend_from_slice(&42_000u64.to_le_bytes());
    p.push(6);
    p.extend_from_slice(&2u64.to_le_bytes());
    p.push(0); // empty price feed id bytes
    p.extend_from_slice(&account_id);
    p
}

fn deposit_payload(marker: [u8; 32], account: [u8; 32]) -> Vec<u8> {
    let mut p = Vec::new();
    p.extend_from_slice(&[0x31; 32]);
    p.extend_from_slice(&marker);
    p.extend_from_slice(&account);
    // token identifier: "tok", 9 decimals, no feed bytes, oracle 0, not deprecated
    p.push(3);
    p.extend_from_slice(b"tok");
    p.push(9);
    p.push(0);
    p.extend_from_slice(&0u16.to_le_bytes());
    p.push(0);
    p.extend_from_slice(&1_000u64.to_le_bytes());
    p
}

fn marker_liquidated_payload(marker: [u8; 32], account: [u8; 32]) -> Vec<u8> {
    let mut p = Vec::new();
    p.extend_from_slice(&marker);
    p.extend_from_slice(&account);
    p
}

fn collateral_transfer_payload(vault: [u8; 32]) -> Vec<u8> {
    let mut p = Vec::new();
    p.extend_from_slice(&[0x61; 32]); // transfer id
    p.extend_from_slice(&[0x62; 32]); // marker id
    p.extend_from_slice(&[0x63; 32]); // collateral address
    p.extend_from_slice(&250u64.to_le_bytes());
    p.extend_from_slice(&vault);
    p
}

fn vault_transfer_payload() -> Vec<u8> {
    let mut p = Vec::new();
    p.extend_from_slice(&[0x71; 32]); // transfer id
    p.extend_from_slice(&[0x72; 32]); // vault marker id
    p.extend_from_slice(&[0x73; 32]); // vault address
    p.extend_from_slice(&99u64.to_le_bytes());
    p.extend_from_slice(&[0x74; 32]); // to user
    p
}

fn checkpoint_with(tag: &str, payload: Vec<u8>, digest: &str) -> Checkpoint {
    Checkpoint {
        sequence_number: 1,
        timestamp_ms: 1_700_000_000_000,
        transactions: vec![Transaction {
            digest: String::from(digest),
            events: Some(vec![EventPayload { type_tag: String::from(tag), payload }]),
        }],
    }
}

#[test]
fn worker_builds_catalogue_from_package_id() {
    let worker = new_worker();
    assert_eq!(worker.position_created_event_type, "0xpkg::positions::PositionCreatedEvent");
    assert_eq!(worker.position_closed_event_type, "0xpkg::positions::PositionClosedEvent");
    assert_eq!(worker.vault_created_event_type, "0xpkg::lp::VaultCreatedEvent");
    assert_eq!(worker.new_account_event_type, "0xpkg::accounts::NewAccountEvent");
    assert_eq!(worker.collateral_deposit_event_type, "0xpkg::collateral::CollateralDepositEvent");
    assert_eq!(
        worker.start_collateral_value_assertion_event_type,
        "0xpkg::collateral::StartCollateralValueAssertionEvent"
    );
    assert_eq!(
        worker.collateral_transfer_created_event_type,
        "0xpkg::collateral::CollateralTransferCreated"
    );
    assert_eq!(worker.vault_transfer_created_event_type, "0xpkg::lp::VaultTransferCreated");
    assert_eq!(
        worker.position_liquidated_event_type,
        "0xpkg::positions::PositionLiquidatedEvent"
    );
    assert_eq!(
        worker.collateral_marker_liquidated_event_type,
        "0xpkg::collateral::CollateralMarkerLiquidatedEvent"
    );
    assert_eq!(worker.liquidation_transfer_service_url, "http://settlement.example");
}

#[test]
fn checkpoint_with_position_opened_materializes_open_position() {
    let mut worker = new_worker();
    let cp = checkpoint_with(
        "0xpkg::positions::PositionCreatedEvent",
        position_created_payload([0xaa; 32], [0xbb; 32]),
        "DigestOne",
    );
    let notes = worker.process_checkpoint(&cp).unwrap();
    assert!(notes.is_empty());

    let account = format!("0x{}", "bb".repeat(32));
    let open = worker.open_repo.get_open_positions_for_account(account, &worker.close_repo);
    assert_eq!(open.len(), 1);
    assert_eq!(open[0].position_id, format!("0x{}", "aa".repeat(32)));
    assert_eq!(open[0].transaction_hash, "DigestOne");
    assert_eq!(open[0].timestamp, 1_700_000_000_000);
}

#[test]
fn reprocessing_hash_keyed_checkpoint_leaves_one_row() {
    let mut worker = new_worker();
    let cp = checkpoint_with(
        "0xpkg::collateral::CollateralDepositEvent",
        deposit_payload([0x10; 32], [0x20; 32]),
        "SameDigest",
    );
    worker.process_checkpoint(&cp).unwrap();
    worker.process_checkpoint(&cp).unwrap();
    let row = worker.collateral_deposit_repo.find(&String::from("SameDigest"));
    assert!(row.is_some());
    let live = worker.collateral_deposit_repo.find_by_account_id(
        &"20".repeat(32),
        &worker.collateral_marker_liquidated_repo,
        &indexer::db::repositories::collateral_withdraw_event::CollateralWithdrawEventRepository::new(),
        &indexer::db::repositories::collateral_combine_event::CollateralCombineEventRepository::new(),
    );
    assert_eq!(live.len(), 1);
}

#[test]
fn liquidation_after_deposit_excludes_live_collateral() {
    let mut worker = new_worker();
    let marker = [0x10u8; 32];
    let account = [0x20u8; 32];
    worker
        .process_checkpoint(&checkpoint_with(
            "0xpkg::collateral::CollateralDepositEvent",
            deposit_payload(marker, account),
            "DepTx",
        ))
        .unwrap();
    worker
        .process_checkpoint(&checkpoint_with(
            "0xpkg::collateral::CollateralMarkerLiquidatedEvent",
            marker_liquidated_payload(marker, account),
            "LiqTx",
        ))
        .unwrap();
    let live = worker.collateral_deposit_repo.find_by_account_id(
        &"20".repeat(32),
        &worker.collateral_marker_liquidated_repo,
        &indexer::db::repositories::collateral_withdraw_event::CollateralWithdrawEventRepository::new(),
        &indexer::db::repositories::collateral_combine_event::CollateralCombineEventRepository::new(),
    );
    assert!(live.is_empty());
}

#[test]
fn collateral_transfer_without_vault_is_persisted_and_skips_notification() {
    let mut worker = new_worker();
    let cp = checkpoint_with(
        "0xpkg::collateral::CollateralTransferCreated",
        collateral_transfer_payload([0x99; 32]),
        "TransferTx",
    );
    let notes = worker.process_checkpoint(&cp).unwrap();
    // No vault-created row matches the destination: the notification is
    // skipped entirely while the transfer is still persisted locally.
    assert!(notes.is_empty());
    let transfer_id = format!("0x{}", "61".repeat(32));
    let row = worker.collateral_transfer_repo.find_by_id(&transfer_id).unwrap();
    assert_eq!(row.to_vault_address, format!("0x{}", "99".repeat(32)));
    assert!(!row.fulfilled);
}

#[test]
fn collateral_transfer_with_vault_notifies_with_resolved_marker() {
    let mut worker = new_worker();
    let vault_address = format!("0x{}", "99".repeat(32));
    worker
        .vault_repo
        .create(VaultCreatedRow {
            transaction_hash: String::from("VaultTx"),
            vault_address: vault_address.clone(),
            vault_marker_address: String::from("0xmarker"),
            coin_token_info: String::from("coin"),
            lp_token_info: String::from("lp"),
            timestamp: 1,
        })
        .unwrap();
    let cp = checkpoint_with(
        "0xpkg::collateral::CollateralTransferCreated",
        collateral_transfer_payload([0x99; 32]),
        "TransferTx",
    );
    let notes = worker.process_checkpoint(&cp).unwrap();
    assert_eq!(notes.len(), 1);
    match &notes[0] {
        Notification::CollateralTransfer(n) => {
            assert_eq!(n.endpoint, "http://settlement.example/execute_collateral_transfer");
            assert_eq!(n.transfer_id, format!("0x{}", "61".repeat(32)));
            assert_eq!(n.collateral_address, format!("0x{}", "63".repeat(32)));
            assert_eq!(n.to_vault_address, vault_address);
            assert_eq!(n.vault_marker_id, "0xmarker");
            assert_eq!(n.collateral_marker_id, format!("0x{}", "62".repeat(32)));
            assert_eq!(n.amount, "250");
        },
        Notification::VaultTransfer(_) => panic!("wrong notification kind"),
    }
}

#[test]
fn vault_transfer_is_persisted_and_notified_independently() {
    let mut worker = new_worker();
    let cp = checkpoint_with(
        "0xpkg::lp::VaultTransferCreated",
        vault_transfer_payload(),
        "VtTx",
    );
    let notes = worker.process_checkpoint(&cp).unwrap();
    // The notification is owed unconditionally; whatever becomes of its
    // delivery, the local row exists.
    assert_eq!(notes.len(), 1);
    match &notes[0] {
        Notification::VaultTransfer(n) => {
            assert_eq!(n.endpoint, "http://settlement.example/execute_vault_transfer");
            assert_eq!(n.transfer_id, format!("0x{}", "71".repeat(32)));
            assert_eq!(n.vault_marker_id, format!("0x{}", "72".repeat(32)));
            assert_eq!(n.vault_address, format!("0x{}", "73".repeat(32)));
            assert_eq!(n.amount, "99");
            assert_eq!(n.to_user_address, format!("0x{}", "74".repeat(32)));
        },
        Notification::CollateralTransfer(_) => panic!("wrong notification kind"),
    }
    let transfer_id = format!("0x{}", "71".repeat(32));
    assert!(worker.vault_transfer_repo.find_by_id(&transfer_id).is_some());
}

#[test]
fn malformed_event_is_skipped_and_checkpoint_continues() {
    let mut worker = new_worker();
    let good = position_created_payload([0xaa; 32], [0xbb; 32]);
    let mut bad = good.clone();
    bad.pop();
    let cp = Checkpoint {
        sequence_number: 7,
        timestamp_ms: 1_700_000_000_000,
        transactions: vec![Transaction {
            digest: String::from("MixedTx"),
            events: Some(vec![
                EventPayload {
                    type_tag: String::from("0xpkg::positions::PositionCreatedEvent"),
                    payload: bad,
                },
                EventPayload {
                    type_tag: String::from("0xother::positions::PositionCreatedEvent"),
                    payload: good.clone(),
                },
                EventPayload {
                    type_tag: String::from("0xpkg::positions::PositionCreatedEvent"),
                    payload: good,
                },
            ]),
        }],
    };
    worker.process_checkpoint(&cp).unwrap();
    // The truncated payload and the foreign tag are skipped; the valid
    // matching event is stored.
    assert_eq!(worker.open_repo.get_all().len(), 1);
}

#[test]
fn out_of_range_timestamp_is_fatal_and_stores_nothing() {
    let mut worker = new_worker();
    let cp = Checkpoint {
        sequence_number: 8,
        timestamp_ms: 8_210_266_876_800_000,
        transactions: vec![Transaction {
            digest: String::from("LateTx"),
            events: Some(vec![EventPayload {
                type_tag: String::from("0xpkg::positions::PositionCreatedEvent"),
                payload: position_created_payload([1; 32], [2; 32]),
            }]),
        }],
    };
    assert!(worker.process_checkpoint(&cp).is_err());
    assert!(worker.open_repo.get_all().is_empty());
}

#[test]
fn transaction_without_events_is_skipped() {
    let mut worker = new_worker();
    let cp = Checkpoint {
        sequence_number: 9,
        timestamp_ms: 1,
        transactions: vec![Transaction { digest: String::from("Empty"), events: None }],
    };
    let notes = worker.process_checkpoint(&cp).unwrap();
    assert!(notes.is_empty());
}
