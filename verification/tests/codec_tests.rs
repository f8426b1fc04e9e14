use indexer::codec::{read_bool, read_bytes, read_id32, read_string, read_u16, read_u64, read_u8,
    read_uleb128};
use indexer::events::collateral_deposit_event::CollateralDepositEvent;
use indexer::events::common::PositionType;
use indexer::events::new_account_event::NewAccountEvent;
use indexer::events::position_created::PositionCreatedEvent;
use indexer::events::position_liquidated::PositionLiquidatedEvent;
use indexer::events::vault_created::VaultCreatedEvent;
use indexer::events::vault_transfer_created::VaultTransferCreatedEvent;

#[test]
fn read_u64_matches_reference_encoding() {
    let bytes = bcs::to_bytes(&0xdead_beef_0102_0304u64).unwrap();
    let (v, p) = read_u64(&bytes, 0).unwrap();
    assert_eq!(v, 0xdead_beef_0102_0304u64);
    assert_eq!(p, 8);
}

#[test]
fn read_u16_and_u8_little_endian() {
    let bytes = vec![0x34, 0x12, 0x7f];
    let (v, p) = read_u16(&bytes, 0).unwrap();
    assert_eq!(v, 0x1234);
    let (b, q) = read_u8(&bytes, p).unwrap();
    assert_eq!(b, 0x7f);
    assert_eq!(q, 3);
}

#[test]
fn read_u64_truncated_fails() {
    let bytes = vec![1, 2, 3, 4, 5, 6, 7];
    assert!(read_u64(&bytes, 0).is_none());
}

#[test]
fn uleb128_single_byte() {
    let (v, p) = read_uleb128(&[0x05], 0).unwrap();
    assert_eq!(v, 5);
    assert_eq!(p, 1);
}

#[test]
fn uleb128_multi_byte_matches_reference_encoding() {
    // The reference encoder length-prefixes a byte vector with ULEB128.
    let payload: Vec<u8> = vec![7u8; 300];
    let encoded = bcs::to_bytes(&payload).unwrap();
    let (len, p) = read_uleb128(&encoded, 0).unwrap();
    assert_eq!(len, 300);
    assert_eq!(p, 2);
    assert_eq!(encoded.len(), 2 + 300);
}

#[test]
fn uleb128_non_canonical_rejected() {
    // 0x80 0x00 denotes zero with a redundant continuation byte.
    assert!(read_uleb128(&[0x80, 0x00], 0).is_none());
    assert!(read_uleb128(&[0x00], 0).is_some());
}

#[test]
fn uleb128_overflow_rejected() {
    // Five continuation bytes push the value past 32 bits.
    assert!(read_uleb128(&[0xff, 0xff, 0xff, 0xff, 0x7f], 0).is_none());
}

#[test]
fn read_bool_is_strict() {
    assert_eq!(read_bool(&[0x00], 0).unwrap().0, false);
    assert_eq!(read_bool(&[0x01], 0).unwrap().0, true);
    assert!(read_bool(&[0x02], 0).is_none());
}

#[test]
fn read_bytes_matches_reference_encoding() {
    let payload: Vec<u8> = vec![1, 2, 3, 4, 5];
    let encoded = bcs::to_bytes(&payload).unwrap();
    let (v, p) = read_bytes(&encoded, 0).unwrap();
    assert_eq!(v, payload);
    assert_eq!(p, encoded.len());
}

#[test]
fn read_string_matches_reference_encoding() {
    let text = String::from("0x2::sui::SUI");
    let encoded = bcs::to_bytes(&text).unwrap();
    let (s, p) = read_string(&encoded, 0).unwrap();
    assert_eq!(s, text);
    assert_eq!(p, encoded.len());
}

#[test]
fn read_string_rejects_invalid_utf8() {
    // Length prefix 2, then an invalid UTF-8 sequence.
    let encoded = vec![0x02, 0xff, 0xfe];
    assert!(read_string(&encoded, 0).is_none());
}

#[test]
fn read_id32_takes_exactly_32_bytes() {
    let arr = [9u8; 32];
    let encoded = bcs::to_bytes(&arr).unwrap();
    assert_eq!(encoded.len(), 32);
    let (v, p) = read_id32(&encoded, 0).unwrap();
    assert_eq!(v, arr.to_vec());
    assert_eq!(p, 32);
    assert!(read_id32(&encoded[..31], 0).is_none());
}

fn position_created_payload(
    position_id: [u8; 32],
    variant: u8,
    amount: u64,
    leverage: u16,
    entry_price: u64,
    entry_price_decimals: u8,
    token_i: u64,
    feed: &[u8],
    account_id: [u8; 32],
) -> Vec<u8> {
    let mut p = Vec::new();
    p.extend_from_slice(&bcs::to_bytes(&position_id).unwrap());
    p.push(variant);
    p.extend_from_slice(&bcs::to_bytes(&amount).unwrap());
    p.extend_from_slice(&bcs::to_bytes(&leverage).unwrap());
    p.extend_from_slice(&bcs::to_bytes(&entry_price).unwrap());
    p.push(entry_price_decimals);
    p.extend_from_slice(&bcs::to_bytes(&token_i).unwrap());
    p.extend_from_slice(&bcs::to_bytes(&feed.to_vec()).unwrap());
    p.extend_from_slice(&bcs::to_bytes(&account_id).unwrap());
    p
}

#[test]
fn decode_position_created_exact() {
    let payload = position_created_payload(
        [0xaa; 32],
        1,
        500,
        3,
        42_000,
        6,
        2,
        &[1, 2, 3],
        [0xbb; 32],
    );
    let ev = PositionCreatedEvent::decode(&payload).unwrap();
    assert_eq!(ev.position_id, vec![0xaa; 32]);
    assert!(matches!(ev.position_type, PositionType::Short));
    assert_eq!(ev.amount, 500);
    assert_eq!(ev.leverage_multiplier, 3);
    assert_eq!(ev.entry_price, 42_000);
    assert_eq!(ev.entry_price_decimals, 6);
    assert_eq!(ev.supported_positions_token_i, 2);
    assert_eq!(ev.price_feed_id_bytes, vec![1, 2, 3]);
    assert_eq!(ev.account_id, vec![0xbb; 32]);
}

#[test]
fn decode_position_created_one_byte_short_fails() {
    let payload = position_created_payload(
        [0xaa; 32],
        0,
        500,
        3,
        42_000,
        6,
        2,
        &[1, 2, 3],
        [0xbb; 32],
    );
    let truncated = &payload[..payload.len() - 1];
    assert!(PositionCreatedEvent::decode(truncated).is_err());
}

#[test]
fn decode_position_created_trailing_byte_fails() {
    let mut payload = position_created_payload(
        [0xaa; 32],
        0,
        500,
        3,
        42_000,
        6,
        2,
        &[],
        [0xbb; 32],
    );
    payload.push(0);
    assert!(PositionCreatedEvent::decode(&payload).is_err());
}

#[test]
fn decode_position_created_bad_variant_fails() {
    let payload = position_created_payload(
        [0xaa; 32],
        2,
        500,
        3,
        42_000,
        6,
        2,
        &[],
        [0xbb; 32],
    );
    assert!(PositionCreatedEvent::decode(&payload).is_err());
}

#[test]
fn decode_new_account_exact() {
    let mut payload = Vec::new();
    payload.extend_from_slice(&[0x11; 32]);
    payload.extend_from_slice(&[0x22; 32]);
    let ev = NewAccountEvent::decode(&payload).unwrap();
    assert_eq!(ev.account_id, vec![0x11; 32]);
    assert_eq!(ev.stats_id, vec![0x22; 32]);
    assert!(NewAccountEvent::decode(&payload[..63]).is_err());
}

#[test]
fn decode_vault_created_exact() {
    let mut payload = Vec::new();
    payload.extend_from_slice(&[0x01; 32]);
    payload.extend_from_slice(&[0x02; 32]);
    payload.extend_from_slice(&bcs::to_bytes(&String::from("coin")).unwrap());
    payload.extend_from_slice(&bcs::to_bytes(&String::from("lp")).unwrap());
    let ev = VaultCreatedEvent::decode(&payload).unwrap();
    assert_eq!(ev.vault_address, vec![0x01; 32]);
    assert_eq!(ev.vault_marker_address, vec![0x02; 32]);
    assert_eq!(ev.coin_token_info, "coin");
    assert_eq!(ev.lp_token_info, "lp");
}

fn token_identifier_bytes(info: &str, decimals: u8, feed: &[u8], oracle: u16, dep: bool) -> Vec<u8> {
    let mut p = Vec::new();
    p.extend_from_slice(&bcs::to_bytes(&String::from(info)).unwrap());
    p.push(decimals);
    p.extend_from_slice(&bcs::to_bytes(&feed.to_vec()).unwrap());
    p.extend_from_slice(&bcs::to_bytes(&oracle).unwrap());
    p.push(if dep { 1 } else { 0 });
    p
}

#[test]
fn decode_collateral_deposit_exact() {
    let mut payload = Vec::new();
    payload.extend_from_slice(&[0x31; 32]);
    payload.extend_from_slice(&[0x32; 32]);
    payload.extend_from_slice(&[0x33; 32]);
    payload.extend_from_slice(&token_identifier_bytes("0x2::sui::SUI", 9, &[7], 1, false));
    payload.extend_from_slice(&bcs::to_bytes(&1_000u64).unwrap());
    let ev = CollateralDepositEvent::decode(&payload).unwrap();
    assert_eq!(ev.collateral_id, vec![0x31; 32]);
    assert_eq!(ev.collateral_marker_id, vec![0x32; 32]);
    assert_eq!(ev.account_id, vec![0x33; 32]);
    assert_eq!(ev.token_id.token_info, "0x2::sui::SUI");
    assert_eq!(ev.token_id.token_decimals, 9);
    assert_eq!(ev.token_id.price_feed_id_bytes, vec![7]);
    assert_eq!(ev.token_id.oracle_feed, 1);
    assert!(!ev.token_id.deprecated);
    assert_eq!(ev.amount, 1_000);
    assert!(CollateralDepositEvent::decode(&payload[..payload.len() - 1]).is_err());
}

#[test]
fn decode_vault_transfer_created_exact() {
    let mut payload = Vec::new();
    payload.extend_from_slice(&[0x41; 32]);
    payload.extend_from_slice(&[0x42; 32]);
    payload.extend_from_slice(&[0x43; 32]);
    payload.extend_from_slice(&bcs::to_bytes(&77u64).unwrap());
    payload.extend_from_slice(&[0x44; 32]);
    let ev = VaultTransferCreatedEvent::decode(&payload).unwrap();
    assert_eq!(ev.transfer_id, vec![0x41; 32]);
    assert_eq!(ev.vault_marker_id, vec![0x42; 32]);
    assert_eq!(ev.vault_address, vec![0x43; 32]);
    assert_eq!(ev.amount, 77);
    assert_eq!(ev.to_user_address, vec![0x44; 32]);
}

#[test]
fn decode_position_liquidated_exact() {
    let payload = vec![0x55; 32];
    let ev = PositionLiquidatedEvent::decode(&payload).unwrap();
    assert_eq!(ev.position_id, vec![0x55; 32]);
    assert!(PositionLiquidatedEvent::decode(&payload[..31]).is_err());
}
