//! The position-opened event: payload decode and mapping to its storage row.
use vstd::prelude::*;

verus! {

use crate::MappingError;
use crate::codec::{spec_read_bytes, spec_read_id32, spec_read_u16, spec_read_u64, spec_read_u8,
    read_bytes, read_id32, read_u16, read_u64, read_u8};
use crate::db::models::{OpenPositionEvent, OpenPositionEventV};
use crate::events::common::{PositionType, position_type_to_string, read_position_type,
    spec_position_type_str, spec_read_position_type};
use crate::text::{hex0x_of, hex_encode, hex_encode_prefixed, hex_of};
use crate::codec::{lemma_read_bytes_extend, lemma_read_id32_extend, lemma_read_u16_extend,
    lemma_read_u64_extend, lemma_read_u8_extend};
use crate::events::common::lemma_read_position_type_extend;
use crate::DecodeError;

/// A decoded position-opened payload.
#[derive(Debug)]
pub struct PositionCreatedEvent {
    pub position_id: Vec<u8>,
    pub position_type: PositionType,
    pub amount: u64,
    pub leverage_multiplier: u16,
    pub entry_price: u64,
    pub entry_price_decimals: u8,
    pub supported_positions_token_i: u64,
    pub price_feed_id_bytes: Vec<u8>,
    pub account_id: Vec<u8>,
}

pub struct PositionCreatedEventV {
    pub position_id: Seq<u8>,
    pub position_type: PositionType,
    pub amount: u64,
    pub leverage_multiplier: u16,
    pub entry_price: u64,
    pub entry_price_decimals: u8,
    pub supported_positions_token_i: u64,
    pub price_feed_id_bytes: Seq<u8>,
    pub account_id: Seq<u8>,
}

impl View for PositionCreatedEvent {
    type V = PositionCreatedEventV;

    open spec fn view(&self) -> PositionCreatedEventV {
        PositionCreatedEventV {
            position_id: self.position_id@,
            position_type: self.position_type,
            amount: self.amount,
            leverage_multiplier: self.leverage_multiplier,
            entry_price: self.entry_price,
            entry_price_decimals: self.entry_price_decimals,
            supported_positions_token_i: self.supported_positions_token_i,
            price_feed_id_bytes: self.price_feed_id_bytes@,
            account_id: self.account_id@,
        }
    }
}

/// The payload schema: position id, side, amount, leverage, entry price and
/// its decimals, token index, price-feed id bytes, account id — and nothing
/// after them.
pub open spec fn spec_decode_position_created(b: Seq<u8>) -> Option<PositionCreatedEventV> {
    match spec_read_id32(b, 0) {
        None => None,
        Some((position_id, p1)) => match spec_read_position_type(b, p1) {
            None => None,
            Some((position_type, p2)) => match spec_read_u64(b, p2) {
                None => None,
                Some((amount, p3)) => match spec_read_u16(b, p3) {
                    None => None,
                    Some((leverage_multiplier, p4)) => match spec_read_u64(b, p4) {
                        None => None,
                        Some((entry_price, p5)) => match spec_read_u8(b, p5) {
                            None => None,
                            Some((entry_price_decimals, p6)) => match spec_read_u64(b, p6) {
                                None => None,
                                Some((supported_positions_token_i, p7)) => match spec_read_bytes(
                                    b,
                                    p7,
                                ) {
                                    None => None,
                                    Some((price_feed_id_bytes, p8)) => match spec_read_id32(
                                        b,
                                        p8,
                                    ) {
                                        None => None,
                                        Some((account_id, p9)) => if p9 == b.len() {
                                            Some(
                                                PositionCreatedEventV {
                                                    position_id,
                                                    position_type,
                                                    amount,
                                                    leverage_multiplier,
                                                    entry_price,
                                                    entry_price_decimals,
                                                    supported_positions_token_i,
                                                    price_feed_id_bytes,
                                                    account_id,
                                                },
                                            )
                                        } else {
                                            None
                                        },
                                    },
                                },
                            },
                        },
                    },
                },
            },
        },
    }
}

impl PositionCreatedEvent {
    /// Strict decode of a position-opened payload: a malformed, truncated or
    /// over-long payload fails outright, never yielding a partial value.
    pub fn decode(payload: &[u8]) -> (r: Result<PositionCreatedEvent, DecodeError>)
        ensures
            match r {
                Ok(ev) => spec_decode_position_created(payload@) == Some(ev@),
                Err(_) => spec_decode_position_created(payload@) is None,
            },
    {
        let r1 = read_id32(payload, 0);
        if r1.is_none() {
            return Err(DecodeError);
        }
        let (position_id, p1) = r1.unwrap();
        let r2 = read_position_type(payload, p1);
        if r2.is_none() {
            return Err(DecodeError);
        }
        let (position_type, p2) = r2.unwrap();
        let r3 = read_u64(payload, p2);
        if r3.is_none() {
            return Err(DecodeError);
        }
        let (amount, p3) = r3.unwrap();
        let r4 = read_u16(payload, p3);
        if r4.is_none() {
            return Err(DecodeError);
        }
        let (leverage_multiplier, p4) = r4.unwrap();
        let r5 = read_u64(payload, p4);
        if r5.is_none() {
            return Err(DecodeError);
        }
        let (entry_price, p5) = r5.unwrap();
        let r6 = read_u8(payload, p5);
        if r6.is_none() {
            return Err(DecodeError);
        }
        let (entry_price_decimals, p6) = r6.unwrap();
        let r7 = read_u64(payload, p6);
        if r7.is_none() {
            return Err(DecodeError);
        }
        let (supported_positions_token_i, p7) = r7.unwrap();
        let r8 = read_bytes(payload, p7);
        if r8.is_none() {
            return Err(DecodeError);
        }
        let (price_feed_id_bytes, p8) = r8.unwrap();
        let r9 = read_id32(payload, p8);
        if r9.is_none() {
            return Err(DecodeError);
        }
        let (account_id, p9) = r9.unwrap();
        if p9 != payload.len() {
            return Err(DecodeError);
        }
        Ok(
            PositionCreatedEvent {
                position_id,
                position_type,
                amount,
                leverage_multiplier,
                entry_price,
                entry_price_decimals,
                supported_positions_token_i,
                price_feed_id_bytes,
                account_id,
            },
        )
    }
}

/// The storage row a position-opened event maps to: ids as "0x"-prefixed
/// hex, the token index narrowed to the stored integer type, or no row at
/// all when it does not fit.
pub open spec fn spec_map_position_created(
    e: PositionCreatedEventV,
    tx: Seq<char>,
    t: i64,
) -> Option<OpenPositionEventV> {
    if e.supported_positions_token_i > i32::MAX as u64 {
        None
    } else {
        Some(
            OpenPositionEventV {
                transaction_hash: tx,
                position_id: hex0x_of(e.position_id),
                position_type: spec_position_type_str(e.position_type),
                amount: e.amount,
                leverage_multiplier: e.leverage_multiplier,
                entry_price: e.entry_price,
                entry_price_decimals: e.entry_price_decimals as i32,
                supported_positions_token_i: e.supported_positions_token_i as i32,
                price_feed_id_bytes: hex_of(e.price_feed_id_bytes),
                account_id: hex0x_of(e.account_id),
                timestamp: t,
            },
        )
    }
}

impl PositionCreatedEvent {
    /// Maps the decoded event to its storage row. A token index that cannot
    /// be represented in the stored integer type is a hard mapping failure,
    /// never a truncation.
    pub fn try_map_to_db(&self, tx_digest: String, timestamp: i64) -> (r: Result<
        OpenPositionEvent,
        MappingError,
    >)
        ensures
            match r {
                Ok(row) => spec_map_position_created(self@, tx_digest@, timestamp) == Some(row@),
                Err(_) => spec_map_position_created(self@, tx_digest@, timestamp) is None,
            },
    {
        if self.supported_positions_token_i > i32::MAX as u64 {
            return Err(MappingError);
        }
        Ok(
            OpenPositionEvent {
                transaction_hash: tx_digest,
                position_id: hex_encode_prefixed(self.position_id.as_slice()),
                position_type: position_type_to_string(self.position_type),
                amount: self.amount,
                leverage_multiplier: self.leverage_multiplier,
                entry_price: self.entry_price,
                entry_price_decimals: self.entry_price_decimals as i32,
                supported_positions_token_i: self.supported_positions_token_i as i32,
                price_feed_id_bytes: hex_encode(self.price_feed_id_bytes.as_slice()),
                account_id: hex_encode_prefixed(self.account_id.as_slice()),
                timestamp,
            },
        )
    }
}

/// A truncated payload never decodes: a payload the schema accepts has
/// no decodable strict prefix, so cutting it short (by one byte or more)
/// always fails outright and no partial record can arise.
pub proof fn lemma_decode_position_created_prefix_free(b: Seq<u8>, k: int)
    requires
        0 <= k < b.len(),
        spec_decode_position_created(b) is Some,
    ensures
        spec_decode_position_created(b.take(k)) is None,
{
    let p = b.take(k);
    if spec_decode_position_created(p) is Some {
        lemma_read_id32_extend(b, k, 0);
        let (v1, p1) = spec_read_id32(p, 0).unwrap();
        lemma_read_position_type_extend(b, k, p1);
        let (v2, p2) = spec_read_position_type(p, p1).unwrap();
        lemma_read_u64_extend(b, k, p2);
        let (v3, p3) = spec_read_u64(p, p2).unwrap();
        lemma_read_u16_extend(b, k, p3);
        let (v4, p4) = spec_read_u16(p, p3).unwrap();
        lemma_read_u64_extend(b, k, p4);
        let (v5, p5) = spec_read_u64(p, p4).unwrap();
        lemma_read_u8_extend(b, k, p5);
        let (v6, p6) = spec_read_u8(p, p5).unwrap();
        lemma_read_u64_extend(b, k, p6);
        let (v7, p7) = spec_read_u64(p, p6).unwrap();
        lemma_read_bytes_extend(b, k, p7);
        let (v8, p8) = spec_read_bytes(p, p7).unwrap();
        lemma_read_id32_extend(b, k, p8);
        let (v9, p9) = spec_read_id32(p, p8).unwrap();
        assert(spec_decode_position_created(b) is None);
    }
}

} // verus!
