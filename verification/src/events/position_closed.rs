//! The position-closed event: payload decode and mapping to its storage row.
use vstd::prelude::*;

verus! {

use crate::MappingError;
use crate::codec::{spec_read_id32, spec_read_u16, spec_read_u64, spec_read_u8, read_id32,
    read_u16, read_u64, read_u8};
use crate::db::models::{ClosePositionEvent, ClosePositionEventV};
use crate::events::common::{PositionType, TransferTo, position_type_to_string, read_position_type,
    read_transfer_to, spec_position_type_str, spec_read_position_type, spec_read_transfer_to,
    spec_transfer_to_str, transfer_to_string};
use crate::text::{hex0x_of, hex_encode_prefixed};
use crate::codec::{lemma_read_id32_extend, lemma_read_u16_extend, lemma_read_u64_extend,
    lemma_read_u8_extend};
use crate::events::common::{lemma_read_position_type_extend, lemma_read_transfer_to_extend};
use crate::DecodeError;

/// A decoded position-closed payload.
#[derive(Debug)]
pub struct PositionClosedEvent {
    pub position_id: Vec<u8>,
    pub position_type: PositionType,
    pub amount: u64,
    pub leverage_multiplier: u16,
    pub entry_price: u64,
    pub entry_price_decimals: u8,
    pub close_price: u64,
    pub close_price_decimals: u8,
    pub price_delta: u64,
    pub transfer_amount: u64,
    pub transfer_to: TransferTo,
    pub account_id: Vec<u8>,
}

pub struct PositionClosedEventV {
    pub position_id: Seq<u8>,
    pub position_type: PositionType,
    pub amount: u64,
    pub leverage_multiplier: u16,
    pub entry_price: u64,
    pub entry_price_decimals: u8,
    pub close_price: u64,
    pub close_price_decimals: u8,
    pub price_delta: u64,
    pub transfer_amount: u64,
    pub transfer_to: TransferTo,
    pub account_id: Seq<u8>,
}

impl View for PositionClosedEvent {
    type V = PositionClosedEventV;

    open spec fn view(&self) -> PositionClosedEventV {
        PositionClosedEventV {
            position_id: self.position_id@,
            position_type: self.position_type,
            amount: self.amount,
            leverage_multiplier: self.leverage_multiplier,
            entry_price: self.entry_price,
            entry_price_decimals: self.entry_price_decimals,
            close_price: self.close_price,
            close_price_decimals: self.close_price_decimals,
            price_delta: self.price_delta,
            transfer_amount: self.transfer_amount,
            transfer_to: self.transfer_to,
            account_id: self.account_id@,
        }
    }
}

/// The payload schema: position id, side, amount, leverage, entry price and
/// decimals, close price and decimals, price delta, transfer amount and
/// destination, account id — and nothing after them.
pub open spec fn spec_decode_position_closed(b: Seq<u8>) -> Option<PositionClosedEventV> {
    match spec_read_id32(b, 0) {
        None => None,
        Some((position_id, p1)) => match spec_read_position_type(b, p1) {
            None => None,
            Some((position_type, p2)) => match spec_read_u64(b, p2) {
                None => None,
                Some((amount, p3)) => match spec_read_u16(b, p3) {
                    None => None,
                    Some((leverage_multiplier, p4)) => match spec_read_u64(b, p4) {
                        None => None,
                        Some((entry_price, p5)) => match spec_read_u8(b, p5) {
                            None => None,
                            Some((entry_price_decimals, p6)) => match spec_read_u64(b, p6) {
                                None => None,
                                Some((close_price, p7)) => match spec_read_u8(b, p7) {
                                    None => None,
                                    Some((close_price_decimals, p8)) => match spec_read_u64(
                                        b,
                                        p8,
                                    ) {
                                        None => None,
                                        Some((price_delta, p9)) => match spec_read_u64(b, p9) {
                                            None => None,
                                            Some((transfer_amount, p10)) => match spec_read_transfer_to(
                                                b,
                                                p10,
                                            ) {
                                                None => None,
                                                Some((transfer_to, p11)) => match spec_read_id32(
                                                    b,
                                                    p11,
                                                ) {
                                                    None => None,
                                                    Some((account_id, p12)) => if p12 == b.len() {
                                                        Some(
                                                            PositionClosedEventV {
                                                                position_id,
                                                                position_type,
                                                                amount,
                                                                leverage_multiplier,
                                                                entry_price,
                                                                entry_price_decimals,
                                                                close_price,
                                                                close_price_decimals,
                                                                price_delta,
                                                                transfer_amount,
                                                                transfer_to,
                                                                account_id,
                                                            },
                                                        )
                                                    } else {
                                                        None
                                                    },
                                                },
                                            },
                                        },
                                    },
                                },
                            },
                        },
                    },
                },
            },
        },
    }
}

impl PositionClosedEvent {
    /// Strict decode of a position-closed payload.
    pub fn decode(payload: &[u8]) -> (r: Result<PositionClosedEvent, DecodeError>)
        ensures
            match r {
                Ok(ev) => spec_decode_position_closed(payload@) == Some(ev@),
                Err(_) => spec_decode_position_closed(payload@) is None,
            },
    {
        let r1 = read_id32(payload, 0);
        if r1.is_none() {
            return Err(DecodeError);
        }
        let (position_id, p1) = r1.unwrap();
        let r2 = read_position_type(payload, p1);
        if r2.is_none() {
            return Err(DecodeError);
        }
        let (position_type, p2) = r2.unwrap();
        let r3 = read_u64(payload, p2);
        if r3.is_none() {
            return Err(DecodeError);
        }
        let (amount, p3) = r3.unwrap();
        let r4 = read_u16(payload, p3);
        if r4.is_none() {
            return Err(DecodeError);
        }
        let (leverage_multiplier, p4) = r4.unwrap();
        let r5 = read_u64(payload, p4);
        if r5.is_none() {
            return Err(DecodeError);
        }
        let (entry_price, p5) = r5.unwrap();
        let r6 = read_u8(payload, p5);
        if r6.is_none() {
            return Err(DecodeError);
        }
        let (entry_price_decimals, p6) = r6.unwrap();
        let r7 = read_u64(payload, p6);
        if r7.is_none() {
            return Err(DecodeError);
        }
        let (close_price, p7) = r7.unwrap();
        let r8 = read_u8(payload, p7);
        if r8.is_none() {
            return Err(DecodeError);
        }
        let (close_price_decimals, p8) = r8.unwrap();
        let r9 = read_u64(payload, p8);
        if r9.is_none() {
            return Err(DecodeError);
        }
        let (price_delta, p9) = r9.unwrap();
        let r10 = read_u64(payload, p9);
        if r10.is_none() {
            return Err(DecodeError);
        }
        let (transfer_amount, p10) = r10.unwrap();
        let r11 = read_transfer_to(payload, p10);
        if r11.is_none() {
            return Err(DecodeError);
        }
        let (transfer_to, p11) = r11.unwrap();
        let r12 = read_id32(payload, p11);
        if r12.is_none() {
            return Err(DecodeError);
        }
        let (account_id, p12) = r12.unwrap();
        if p12 != payload.len() {
            return Err(DecodeError);
        }
        Ok(
            PositionClosedEvent {
                position_id,
                position_type,
                amount,
                leverage_multiplier,
                entry_price,
                entry_price_decimals,
                close_price,
                close_price_decimals,
                price_delta,
                transfer_amount,
                transfer_to,
                account_id,
            },
        )
    }
}

/// The storage row a position-closed event maps to: ids as "0x"-prefixed
/// hex and both enums in their textual storage form.
pub open spec fn spec_map_position_closed(
    e: PositionClosedEventV,
    tx: Seq<char>,
    t: i64,
) -> ClosePositionEventV {
    ClosePositionEventV {
        transaction_hash: tx,
        position_id: hex0x_of(e.position_id),
        position_type: spec_position_type_str(e.position_type),
        amount: e.amount,
        leverage_multiplier: e.leverage_multiplier,
        entry_price: e.entry_price,
        entry_price_decimals: e.entry_price_decimals as i32,
        close_price: e.close_price,
        close_price_decimals: e.close_price_decimals as i32,
        price_delta: e.price_delta,
        transfer_amount: e.transfer_amount,
        transfer_to: spec_transfer_to_str(e.transfer_to),
        account_id: hex0x_of(e.account_id),
        timestamp: t,
    }
}

impl PositionClosedEvent {
    /// Maps the decoded event to its storage row; every field converts.
    pub fn try_map_to_db(&self, tx_digest: String, timestamp: i64) -> (r: Result<
        ClosePositionEvent,
        MappingError,
    >)
        ensures
            match r {
                Ok(row) => row@ == spec_map_position_closed(self@, tx_digest@, timestamp),
                Err(_) => false,
            },
    {
        Ok(
            ClosePositionEvent {
                transaction_hash: tx_digest,
                position_id: hex_encode_prefixed(self.position_id.as_slice()),
                position_type: position_type_to_string(self.position_type),
                amount: self.amount,
                leverage_multiplier: self.leverage_multiplier,
                entry_price: self.entry_price,
                entry_price_decimals: self.entry_price_decimals as i32,
                close_price: self.close_price,
                close_price_decimals: self.close_price_decimals as i32,
                price_delta: self.price_delta,
                transfer_amount: self.transfer_amount,
                transfer_to: transfer_to_string(self.transfer_to),
                account_id: hex_encode_prefixed(self.account_id.as_slice()),
                timestamp,
            },
        )
    }
}

/// A truncated payload never decodes: a payload the schema accepts has
/// no decodable strict prefix, so cutting it short (by one byte or more)
/// always fails outright and no partial record can arise.
pub proof fn lemma_decode_position_closed_prefix_free(b: Seq<u8>, k: int)
    requires
        0 <= k < b.len(),
        spec_decode_position_closed(b) is Some,
    ensures
        spec_decode_position_closed(b.take(k)) is None,
{
    let p = b.take(k);
    if spec_decode_position_closed(p) is Some {
        lemma_read_id32_extend(b, k, 0);
        let (v1, p1) = spec_read_id32(p, 0).unwrap();
        lemma_read_position_type_extend(b, k, p1);
        let (v2, p2) = spec_read_position_type(p, p1).unwrap();
        lemma_read_u64_extend(b, k, p2);
        let (v3, p3) = spec_read_u64(p, p2).unwrap();
        lemma_read_u16_extend(b, k, p3);
        let (v4, p4) = spec_read_u16(p, p3).unwrap();
        lemma_read_u64_extend(b, k, p4);
        let (v5, p5) = spec_read_u64(p, p4).unwrap();
        lemma_read_u8_extend(b, k, p5);
        let (v6, p6) = spec_read_u8(p, p5).unwrap();
        lemma_read_u64_extend(b, k, p6);
        let (v7, p7) = spec_read_u64(p, p6).unwrap();
        lemma_read_u8_extend(b, k, p7);
        let (v8, p8) = spec_read_u8(p, p7).unwrap();
        lemma_read_u64_extend(b, k, p8);
        let (v9, p9) = spec_read_u64(p, p8).unwrap();
        lemma_read_u64_extend(b, k, p9);
        let (v10, p10) = spec_read_u64(p, p9).unwrap();
        lemma_read_transfer_to_extend(b, k, p10);
        let (v11, p11) = spec_read_transfer_to(p, p10).unwrap();
        lemma_read_id32_extend(b, k, p11);
        let (v12, p12) = spec_read_id32(p, p11).unwrap();
        assert(spec_decode_position_closed(b) is None);
    }
}

} // verus!
