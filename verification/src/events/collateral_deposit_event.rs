//! The collateral-deposit event: the token identifier it carries, payload
//! decode, and mapping to its storage row.
use vstd::prelude::*;

verus! {

use crate::MappingError;
use crate::codec::{spec_read_bool, spec_read_bytes, spec_read_id32, spec_read_string,
    spec_read_u16, spec_read_u64, spec_read_u8, lemma_read_bool_extend, lemma_read_bytes_extend,
    lemma_read_id32_extend, lemma_read_string_extend, lemma_read_u16_extend, lemma_read_u64_extend,
    lemma_read_u8_extend, read_bool, read_bytes, read_id32, read_string, read_u16, read_u64,
    read_u8};
use crate::db::models::{CollateralDepositEvent as CollateralDepositRow, CollateralDepositEventV as
    CollateralDepositRowV};
use crate::text::{hex_encode, hex_of};
use crate::DecodeError;

/// The on-chain token identifier carried inside collateral events.
#[derive(Debug)]
pub struct MoveTokenIdentifier {
    pub token_info: String,
    pub token_decimals: u8,
    pub price_feed_id_bytes: Vec<u8>,
    pub oracle_feed: u16,
    pub deprecated: bool,
}

pub struct MoveTokenIdentifierV {
    pub token_info: Seq<char>,
    pub token_decimals: u8,
    pub price_feed_id_bytes: Seq<u8>,
    pub oracle_feed: u16,
    pub deprecated: bool,
}

impl View for MoveTokenIdentifier {
    type V = MoveTokenIdentifierV;

    open spec fn view(&self) -> MoveTokenIdentifierV {
        MoveTokenIdentifierV {
            token_info: self.token_info@,
            token_decimals: self.token_decimals,
            price_feed_id_bytes: self.price_feed_id_bytes@,
            oracle_feed: self.oracle_feed,
            deprecated: self.deprecated,
        }
    }
}

/// The token-identifier schema: token info string, decimals, price-feed id
/// bytes, oracle feed index, deprecation flag.
pub open spec fn spec_read_token_identifier(b: Seq<u8>, pos: int) -> Option<
    (MoveTokenIdentifierV, int),
> {
    match spec_read_string(b, pos) {
        None => None,
        Some((token_info, p1)) => match spec_read_u8(b, p1) {
            None => None,
            Some((token_decimals, p2)) => match spec_read_bytes(b, p2) {
                None => None,
                Some((price_feed_id_bytes, p3)) => match spec_read_u16(b, p3) {
                    None => None,
                    Some((oracle_feed, p4)) => match spec_read_bool(b, p4) {
                        None => None,
                        Some((deprecated, p5)) => Some(
                            (
                                MoveTokenIdentifierV {
                                    token_info,
                                    token_decimals,
                                    price_feed_id_bytes,
                                    oracle_feed,
                                    deprecated,
                                },
                                p5,
                            ),
                        ),
                    },
                },
            },
        },
    }
}

/// A token-identifier read that succeeds on a prefix succeeds identically
/// on the whole payload.
pub proof fn lemma_read_token_identifier_extend(b: Seq<u8>, k: int, pos: int)
    requires
        0 <= k <= b.len(),
    ensures
        spec_read_token_identifier(b.take(k), pos) is Some ==> spec_read_token_identifier(b, pos)
            == spec_read_token_identifier(b.take(k), pos),
{
    let p = b.take(k);
    if spec_read_token_identifier(p, pos) is Some {
        lemma_read_string_extend(b, k, pos);
        let (token_info, p1) = spec_read_string(p, pos).unwrap();
        lemma_read_u8_extend(b, k, p1);
        let (token_decimals, p2) = spec_read_u8(p, p1).unwrap();
        lemma_read_bytes_extend(b, k, p2);
        let (feed, p3) = spec_read_bytes(p, p2).unwrap();
        lemma_read_u16_extend(b, k, p3);
        let (oracle_feed, p4) = spec_read_u16(p, p3).unwrap();
        lemma_read_bool_extend(b, k, p4);
    }
}

pub fn read_token_identifier(b: &[u8], pos: usize) -> (r: Option<(MoveTokenIdentifier, usize)>)
    ensures
        match r {
            Some((v, p)) => spec_read_token_identifier(b@, pos as int) == Some((v@, p as int))
                && pos < p + 1 && p <= b@.len(),
            None => spec_read_token_identifier(b@, pos as int) is None,
        },
{
    let r1 = read_string(b, pos);
    if r1.is_none() {
        return None;
    }
    let (token_info, p1) = r1.unwrap();
    let r2 = read_u8(b, p1);
    if r2.is_none() {
        return None;
    }
    let (token_decimals, p2) = r2.unwrap();
    let r3 = read_bytes(b, p2);
    if r3.is_none() {
        return None;
    }
    let (price_feed_id_bytes, p3) = r3.unwrap();
    let r4 = read_u16(b, p3);
    if r4.is_none() {
        return None;
    }
    let (oracle_feed, p4) = r4.unwrap();
    let r5 = read_bool(b, p4);
    if r5.is_none() {
        return None;
    }
    let (deprecated, p5) = r5.unwrap();
    Some(
        (
            MoveTokenIdentifier {
                token_info,
                token_decimals,
                price_feed_id_bytes,
                oracle_feed,
                deprecated,
            },
            p5,
        ),
    )
}

/// A decoded collateral-deposit payload.
#[derive(Debug)]
pub struct CollateralDepositEvent {
    pub collateral_id: Vec<u8>,
    pub collateral_marker_id: Vec<u8>,
    pub account_id: Vec<u8>,
    pub token_id: MoveTokenIdentifier,
    pub amount: u64,
}

pub struct CollateralDepositEventV {
    pub collateral_id: Seq<u8>,
    pub collateral_marker_id: Seq<u8>,
    pub account_id: Seq<u8>,
    pub token_id: MoveTokenIdentifierV,
    pub amount: u64,
}

impl View for CollateralDepositEvent {
    type V = CollateralDepositEventV;

    open spec fn view(&self) -> CollateralDepositEventV {
        CollateralDepositEventV {
            collateral_id: self.collateral_id@,
            collateral_marker_id: self.collateral_marker_id@,
            account_id: self.account_id@,
            token_id: self.token_id@,
            amount: self.amount,
        }
    }
}

/// The payload schema: collateral id, marker id, account id, token
/// identifier, amount — and nothing after them.
pub open spec fn spec_decode_collateral_deposit(b: Seq<u8>) -> Option<CollateralDepositEventV> {
    match spec_read_id32(b, 0) {
        None => None,
        Some((collateral_id, p1)) => match spec_read_id32(b, p1) {
            None => None,
            Some((collateral_marker_id, p2)) => match spec_read_id32(b, p2) {
                None => None,
                Some((account_id, p3)) => match spec_read_token_identifier(b, p3) {
                    None => None,
                    Some((token_id, p4)) => match spec_read_u64(b, p4) {
                        None => None,
                        Some((amount, p5)) => if p5 == b.len() {
                            Some(
                                CollateralDepositEventV {
                                    collateral_id,
                                    collateral_marker_id,
                                    account_id,
                                    token_id,
                                    amount,
                                },
                            )
                        } else {
                            None
                        },
                    },
                },
            },
        },
    }
}

/// The storage row a collateral-deposit event maps to: ids as bare
/// lowercase hex, the token address taken from the token info string.
pub open spec fn spec_map_collateral_deposit(
    e: CollateralDepositEventV,
    tx: Seq<char>,
    t: i64,
) -> CollateralDepositRowV {
    CollateralDepositRowV {
        transaction_hash: tx,
        collateral_id: hex_of(e.collateral_id),
        collateral_marker_id: hex_of(e.collateral_marker_id),
        account_id: hex_of(e.account_id),
        token_address: e.token_id.token_info,
        amount: e.amount,
        timestamp: t,
    }
}

impl CollateralDepositEvent {
    /// Strict decode of a collateral-deposit payload.
    pub fn decode(payload: &[u8]) -> (r: Result<CollateralDepositEvent, DecodeError>)
        ensures
            match r {
                Ok(ev) => spec_decode_collateral_deposit(payload@) == Some(ev@),
                Err(_) => spec_decode_collateral_deposit(payload@) is None,
            },
    {
        let r1 = read_id32(payload, 0);
        if r1.is_none() {
            return Err(DecodeError);
        }
        let (collateral_id, p1) = r1.unwrap();
        let r2 = read_id32(payload, p1);
        if r2.is_none() {
            return Err(DecodeError);
        }
        let (collateral_marker_id, p2) = r2.unwrap();
        let r3 = read_id32(payload, p2);
        if r3.is_none() {
            return Err(DecodeError);
        }
        let (account_id, p3) = r3.unwrap();
        let r4 = read_token_identifier(payload, p3);
        if r4.is_none() {
            return Err(DecodeError);
        }
        let (token_id, p4) = r4.unwrap();
        let r5 = read_u64(payload, p4);
        if r5.is_none() {
            return Err(DecodeError);
        }
        let (amount, p5) = r5.unwrap();
        if p5 != payload.len() {
            return Err(DecodeError);
        }
        Ok(CollateralDepositEvent { collateral_id, collateral_marker_id, account_id, token_id, amount })
    }

    /// Maps the decoded event to its storage row; every field converts.
    pub fn try_map_to_db(&self, tx_digest: String, timestamp: i64) -> (r: Result<
        CollateralDepositRow,
        MappingError,
    >)
        ensures
            match r {
                Ok(row) => row@ == spec_map_collateral_deposit(self@, tx_digest@, timestamp),
                Err(_) => false,
            },
    {
        Ok(
            CollateralDepositRow {
                transaction_hash: tx_digest,
                collateral_id: hex_encode(self.collateral_id.as_slice()),
                collateral_marker_id: hex_encode(self.collateral_marker_id.as_slice()),
                account_id: hex_encode(self.account_id.as_slice()),
                token_address: self.token_id.token_info.clone(),
                amount: self.amount,
                timestamp,
            },
        )
    }
}

/// A truncated payload never decodes: a payload the schema accepts has
/// no decodable strict prefix, so cutting it short (by one byte or more)
/// always fails outright and no partial record can arise.
pub proof fn lemma_decode_collateral_deposit_prefix_free(b: Seq<u8>, k: int)
    requires
        0 <= k < b.len(),
        spec_decode_collateral_deposit(b) is Some,
    ensures
        spec_decode_collateral_deposit(b.take(k)) is None,
{
    let p = b.take(k);
    if spec_decode_collateral_deposit(p) is Some {
        lemma_read_id32_extend(b, k, 0);
        let (v1, p1) = spec_read_id32(p, 0).unwrap();
        lemma_read_id32_extend(b, k, p1);
        let (v2, p2) = spec_read_id32(p, p1).unwrap();
        lemma_read_id32_extend(b, k, p2);
        let (v3, p3) = spec_read_id32(p, p2).unwrap();
        lemma_read_token_identifier_extend(b, k, p3);
        let (v4, p4) = spec_read_token_identifier(p, p3).unwrap();
        lemma_read_u64_extend(b, k, p4);
        let (v5, p5) = spec_read_u64(p, p4).unwrap();
        assert(spec_decode_collateral_deposit(b) is None);
    }
}

} // verus!
