use indexer::events::collateral_combine_event::CollateralCombineEvent;
use indexer::events::collateral_withdraw_event::CollateralWithdrawEvent;
use indexer::events::common::{PositionType, TransferTo};
use indexer::events::position_closed::PositionClosedEvent;
use indexer::worker::{Checkpoint, EventPayload, PositionEventWorker, Transaction};
use indexer::config::Config;
use indexer::db::repositories::close_position_events::ClosePositionEventRepository;
use indexer::db::repositories::collateral_deposit_event::CollateralDepositEventRepository;
use indexer::db::repositories::collateral_marker_liquidated_event::CollateralMarkerLiquidatedEventRepository;
use indexer::db::repositories::collateral_transfer::CollateralTransferRepository;
use indexer::db::repositories::new_account_event::NewAccountEventRepository;
use indexer::db::repositories::open_position_events::OpenPositionEventRepository;
use indexer::db::repositories::position_liquidated_event::PositionLiquidatedEventRepository;
use indexer::db::repositories::start_collateral_value_assertion_event::StartCollateralValueAssertionEventRepository;
use indexer::db::repositories::vault_created_events::VaultCreatedEventRepository;
use indexer::db::repositories::vault_transfer::VaultTransferRepository;

fn token_identifier_bytes(info: &str) -> Vec<u8> {
    let mut p = Vec::new();
    p.extend_from_slice(&bcs::to_bytes(&String::from(info)).unwrap());
    p.push(9);
    p.push(0); // empty price feed bytes
    p.extend_from_slice(&0u16.to_le_bytes());
    p.push(0);
    p
}

#[test]
fn decode_position_closed_exact() {
    let mut payload = Vec::new();
    payload.extend_from_slice(&[0x01; 32]);
    payload.push(1); // short
    payload.extend_from_slice(&10u64.to_le_bytes());
    payload.extend_from_slice(&4u16.to_le_bytes());
    payload.extend_from_slice(&100u64.to_le_bytes());
    payload.push(2);
    payload.extend_from_slice(&120u64.to_le_bytes());
    payload.push(3);
    payload.extend_from_slice(&20u64.to_le_bytes());
    payload.extend_from_slice(&15u64.to_le_bytes());
    payload.push(0); // transfer to the vault
    payload.extend_from_slice(&[0x02; 32]);

    let ev = PositionClosedEvent::decode(&payload).unwrap();
    assert!(matches!(ev.position_type, PositionType::Short));
    assert!(matches!(ev.transfer_to, TransferTo::Vault));
    assert_eq!(ev.close_price, 120);
    assert_eq!(ev.close_price_decimals, 3);
    assert_eq!(ev.price_delta, 20);
    assert_eq!(ev.transfer_amount, 15);
    assert!(PositionClosedEvent::decode(&payload[..payload.len() - 1]).is_err());

    let row = ev.try_map_to_db(String::from("tx"), 9).unwrap();
    assert_eq!(row.position_type, "Short");
    assert_eq!(row.transfer_to, "Vault");
    assert_eq!(row.position_id, format!("0x{}", "01".repeat(32)));
}

#[test]
fn decode_collateral_withdraw_exact() {
    let mut payload = Vec::new();
    payload.extend_from_slice(&[0x11; 32]);
    payload.extend_from_slice(&[0x12; 32]);
    payload.extend_from_slice(&[0x13; 32]);
    payload.extend_from_slice(&token_identifier_bytes("tokW"));
    payload.extend_from_slice(&70u64.to_le_bytes());
    payload.push(1); // marker destroyed
    payload.extend_from_slice(&0u64.to_le_bytes());

    let ev = CollateralWithdrawEvent::decode(&payload).unwrap();
    assert!(ev.marker_destroyed);
    assert_eq!(ev.withdrawn_amount, 70);
    assert_eq!(ev.remaining_amount_in_marker, 0);
    let row = ev.try_map_to_db(String::from("tx"), 1).unwrap();
    assert_eq!(row.collateral_marker_id, "12".repeat(32));
    assert_eq!(row.token_address, "tokW");
    assert!(CollateralWithdrawEvent::decode(&payload[..payload.len() - 1]).is_err());
}

#[test]
fn decode_collateral_combine_exact() {
    let mut payload = Vec::new();
    for b in [0x21u8, 0x22, 0x23, 0x24, 0x25, 0x26, 0x27] {
        payload.extend_from_slice(&[b; 32]);
    }
    payload.extend_from_slice(&token_identifier_bytes("tokC"));
    payload.extend_from_slice(&500u64.to_le_bytes());

    let ev = CollateralCombineEvent::decode(&payload).unwrap();
    assert_eq!(ev.old_collateral_marker_id1, vec![0x22; 32]);
    assert_eq!(ev.old_collateral_marker_id2, vec![0x24; 32]);
    assert_eq!(ev.new_collateral_marker_id, vec![0x26; 32]);
    assert_eq!(ev.combined_amount, 500);
    let row = ev.try_map_to_db(String::from("tx"), 1).unwrap();
    assert_eq!(row.old_collateral_marker_id1, "22".repeat(32));
    assert_eq!(row.old_collateral_marker_id2, "24".repeat(32));
    assert!(CollateralCombineEvent::decode(&payload[..payload.len() - 1]).is_err());
}

fn new_worker() -> PositionEventWorker {
    let config = Config::load(
        String::from("postgres://localhost/indexer"),
        String::from("0xpkg"),
        String::from(""),
        0,
        1,
        String::from("127.0.0.1:3000"),
        String::from("http://settlement.example"),
    );
    PositionEventWorker::new(
        OpenPositionEventRepository::new(),
        ClosePositionEventRepository::new(),
        VaultCreatedEventRepository::new(),
        NewAccountEventRepository::new(),
        CollateralDepositEventRepository::new(),
        StartCollateralValueAssertionEventRepository::new(),
        CollateralTransferRepository::new(),
        VaultTransferRepository::new(),
        PositionLiquidatedEventRepository::new(),
        CollateralMarkerLiquidatedEventRepository::new(),
        &config,
    )
}

#[test]
fn one_checkpoint_feeds_every_matched_table() {
    let mut worker = new_worker();

    let mut new_account = Vec::new();
    new_account.extend_from_slice(&[0x31; 32]);
    new_account.extend_from_slice(&[0x32; 32]);

    let mut vault_created = Vec::new();
    vault_created.extend_from_slice(&[0x41; 32]);
    vault_created.extend_from_slice(&[0x42; 32]);
    vault_created.extend_from_slice(&bcs::to_bytes(&String::from("coin")).unwrap());
    vault_created.extend_from_slice(&bcs::to_bytes(&String::from("lp")).unwrap());

    let mut start_cva = Vec::new();
    start_cva.extend_from_slice(&[0x51; 32]);
    start_cva.extend_from_slice(&[0x52; 32]);
    start_cva.extend_from_slice(&[0x53; 32]);
    start_cva.extend_from_slice(&4u64.to_le_bytes());

    let position_liquidated = vec![0x61u8; 32];

    let cp = Checkpoint {
        sequence_number: 3,
        timestamp_ms: 1_700_000_000_000,
        transactions: vec![
            Transaction {
                digest: String::from("TxA"),
                events: Some(vec![
                    EventPayload {
                        type_tag: String::from("0xpkg::accounts::NewAccountEvent"),
                        payload: new_account,
                    },
                    EventPayload {
                        type_tag: String::from("0xpkg::lp::VaultCreatedEvent"),
                        payload: vault_created,
                    },
                ]),
            },
            Transaction {
                digest: String::from("TxB"),
                events: Some(vec![
                    EventPayload {
                        type_tag: String::from(
                            "0xpkg::collateral::StartCollateralValueAssertionEvent",
                        ),
                        payload: start_cva,
                    },
                    EventPayload {
                        type_tag: String::from("0xpkg::positions::PositionLiquidatedEvent"),
                        payload: position_liquidated,
                    },
                ]),
            },
        ],
    };
    let notes = worker.process_checkpoint(&cp).unwrap();
    assert!(notes.is_empty());

    assert_eq!(worker.new_account_repo.find_all().len(), 1);
    assert_eq!(worker.vault_repo.find_all().len(), 1);
    let cva = worker
        .start_collateral_value_assertion_repo
        .find(&"51".repeat(32))
        .expect("assertion row stored under its id");
    assert_eq!(cva.transaction_hash, "TxB");
    assert_eq!(cva.num_open_collateral_objects, 4);
    let liq = worker.position_liquidated_repo.get_all();
    assert_eq!(liq.len(), 1);
    assert_eq!(liq[0].position_id, format!("0x{}", "61".repeat(32)));
    assert_eq!(liq[0].transaction_hash, "TxB");

    // The vault row keeps the textual convention for later lookups.
    let vault = worker
        .vault_repo
        .find_by_vault_address(&format!("0x{}", "41".repeat(32)))
        .expect("vault stored under its prefixed address");
    assert_eq!(vault.vault_marker_address, format!("0x{}", "42".repeat(32)));
}
