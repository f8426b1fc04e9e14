use indexer::events::collateral_marker_liquidated::CollateralMarkerLiquidatedEvent;
use indexer::events::common::{convert_sui_address_to_hex_string, position_type_to_string,
    transfer_to_string, PositionType, TransferTo};
use indexer::events::position_created::PositionCreatedEvent;
use indexer::events::start_collateral_value_assertion_event::StartCollateralValueAssertionEvent;
use indexer::text::{hex_decode, hex_encode, hex_encode_prefixed, u64_to_dec_string};
use indexer::worker::PositionEventWorker;
use chrono::TimeZone;

#[test]
fn hex_encode_matches_reference() {
    let bytes: Vec<u8> = (0u8..=255u8).collect();
    assert_eq!(hex_encode(&bytes), hex::encode(&bytes));
}

#[test]
fn hex_encode_exact_value() {
    assert_eq!(hex_encode(&[0x00, 0x0f, 0xa5, 0xff]), "000fa5ff");
    assert_eq!(hex_encode_prefixed(&[0xde, 0xad]), "0xdead");
    assert_eq!(hex_encode(&[]), "");
}

#[test]
fn hex_decode_round_trip_and_errors() {
    let bytes = vec![0x12, 0x34, 0xab, 0xcd];
    let s = hex_encode(&bytes);
    assert_eq!(hex_decode(&s).unwrap(), bytes);
    assert_eq!(hex_decode(&String::from("AB0f")).unwrap(), vec![0xab, 0x0f]);
    assert!(hex_decode(&String::from("abc")).is_none());
    assert!(hex_decode(&String::from("zz")).is_none());
}

#[test]
fn decimal_string_exact() {
    assert_eq!(u64_to_dec_string(0), "0");
    assert_eq!(u64_to_dec_string(7), "7");
    assert_eq!(u64_to_dec_string(1234567890), "1234567890");
    assert_eq!(u64_to_dec_string(u64::MAX), "18446744073709551615");
}

#[test]
fn enum_strings() {
    assert_eq!(position_type_to_string(PositionType::Long), "Long");
    assert_eq!(position_type_to_string(PositionType::Short), "Short");
    assert_eq!(transfer_to_string(TransferTo::Vault), "Vault");
    assert_eq!(transfer_to_string(TransferTo::User), "User");
}

#[test]
fn address_conversion_is_prefixed_lowercase() {
    let addr = vec![0xAB; 32];
    let s = convert_sui_address_to_hex_string(&addr);
    assert_eq!(s, format!("0x{}", "ab".repeat(32)));
}

#[test]
fn mapping_formats_identifiers() {
    let ev = PositionCreatedEvent {
        position_id: vec![0xaa; 32],
        position_type: PositionType::Long,
        amount: 500,
        leverage_multiplier: 3,
        entry_price: 42_000,
        entry_price_decimals: 6,
        supported_positions_token_i: 2,
        price_feed_id_bytes: vec![0x01, 0xff],
        account_id: vec![0xbb; 32],
    };
    let row = ev.try_map_to_db(String::from("Digest111"), 1_700_000_000_000).unwrap();
    assert_eq!(row.transaction_hash, "Digest111");
    assert_eq!(row.position_id, format!("0x{}", "aa".repeat(32)));
    assert_eq!(row.position_type, "Long");
    assert_eq!(row.amount, 500);
    assert_eq!(row.leverage_multiplier, 3);
    assert_eq!(row.entry_price, 42_000);
    assert_eq!(row.entry_price_decimals, 6);
    assert_eq!(row.supported_positions_token_i, 2);
    assert_eq!(row.price_feed_id_bytes, "01ff");
    assert_eq!(row.account_id, format!("0x{}", "bb".repeat(32)));
    assert_eq!(row.timestamp, 1_700_000_000_000);
}

#[test]
fn mapping_overflowing_token_index_fails_not_truncates() {
    let ev = PositionCreatedEvent {
        position_id: vec![0; 32],
        position_type: PositionType::Long,
        amount: 1,
        leverage_multiplier: 1,
        entry_price: 1,
        entry_price_decimals: 0,
        supported_positions_token_i: (i32::MAX as u64) + 1,
        price_feed_id_bytes: vec![],
        account_id: vec![0; 32],
    };
    assert!(ev.try_map_to_db(String::from("d"), 0).is_err());
    let ok = PositionCreatedEvent {
        supported_positions_token_i: i32::MAX as u64,
        position_id: vec![0; 32],
        position_type: PositionType::Long,
        amount: 1,
        leverage_multiplier: 1,
        entry_price: 1,
        entry_price_decimals: 0,
        price_feed_id_bytes: vec![],
        account_id: vec![0; 32],
    };
    assert_eq!(ok.try_map_to_db(String::from("d"), 0).unwrap().supported_positions_token_i, i32::MAX);
}

#[test]
fn mapping_overflowing_object_count_fails_not_wraps() {
    let ev = StartCollateralValueAssertionEvent {
        cva_id: vec![1; 32],
        account_id: vec![2; 32],
        program_id: vec![3; 32],
        num_open_collateral_objects: (i64::MAX as u64) + 1,
    };
    assert!(ev.try_map_to_db(String::from("d"), 0).is_err());
}

#[test]
fn marker_liquidated_maps_bare_hex() {
    let ev = CollateralMarkerLiquidatedEvent {
        collateral_marker_id: vec![0xcd; 32],
        account_id: vec![0xce; 32],
    };
    let row = ev.try_map_to_db(String::from("tx"), 5).unwrap();
    assert_eq!(row.collateral_marker_id, "cd".repeat(32));
    assert_eq!(row.account_id, "ce".repeat(32));
}

#[test]
fn timestamp_range_matches_reference_library() {
    for ms in [
        0u64,
        1_700_000_000_000u64,
        8210266876799999u64,
        8210266876800000u64,
        u64::MAX,
        i64::MAX as u64,
        (i64::MAX as u64) + 1,
        // The wrapped forms of the earliest representable millisecond,
        // of the millisecond just before it, and of one full day below.
        18438409472480751616u64,
        18438409472480751615u64,
        18438409472394351616u64,
    ] {
        let ours = PositionEventWorker::timestamp_ms_to_datetime(ms).is_ok();
        let reference = chrono::Utc.timestamp_millis_opt(ms as i64).single().is_some();
        assert_eq!(ours, reference, "disagreement at {}", ms);
    }
}

#[test]
fn timestamp_value_is_reinterpreted_field() {
    assert_eq!(PositionEventWorker::timestamp_ms_to_datetime(12345).unwrap(), 12345);
    // The earliest representable millisecond, in its wrapped unsigned form.
    assert_eq!(
        PositionEventWorker::timestamp_ms_to_datetime(18438409472480751616).unwrap(),
        -8334601228800000
    );
}

#[test]
fn timestamp_error_reports_the_offending_value() {
    let too_late = 8210266876800000u64;
    match PositionEventWorker::timestamp_ms_to_datetime(too_late) {
        Err(e) => assert_eq!(e.timestamp_ms, too_late),
        Ok(_) => panic!("one millisecond past the representable range must fail"),
    }
}
