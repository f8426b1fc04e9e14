//! The collateral-combine event: payload decode and mapping to its storage
//! row. The two old markers are consumed for the live-collateral
//! projection; the new marker carries the combined claim on.
use vstd::prelude::*;

verus! {

use crate::MappingError;
use crate::codec::{spec_read_id32, spec_read_u64, read_id32, read_u64};
use crate::db::models::{CollateralCombineEvent as CollateralCombineRow, CollateralCombineEventV as
    CollateralCombineRowV};
use crate::events::collateral_deposit_event::{MoveTokenIdentifier, MoveTokenIdentifierV,
    read_token_identifier, spec_read_token_identifier};
use crate::text::{hex_encode, hex_of};
use crate::codec::{lemma_read_id32_extend, lemma_read_u64_extend};
use crate::events::collateral_deposit_event::lemma_read_token_identifier_extend;
use crate::DecodeError;

/// A decoded collateral-combine payload.
#[derive(Debug)]
pub struct CollateralCombineEvent {
    pub old_collateral_id1: Vec<u8>,
    pub old_collateral_marker_id1: Vec<u8>,
    pub old_collateral_id2: Vec<u8>,
    pub old_collateral_marker_id2: Vec<u8>,
    pub new_collateral_id: Vec<u8>,
    pub new_collateral_marker_id: Vec<u8>,
    pub account_id: Vec<u8>,
    pub token_id: MoveTokenIdentifier,
    pub combined_amount: u64,
}

pub struct CollateralCombineEventV {
    pub old_collateral_id1: Seq<u8>,
    pub old_collateral_marker_id1: Seq<u8>,
    pub old_collateral_id2: Seq<u8>,
    pub old_collateral_marker_id2: Seq<u8>,
    pub new_collateral_id: Seq<u8>,
    pub new_collateral_marker_id: Seq<u8>,
    pub account_id: Seq<u8>,
    pub token_id: MoveTokenIdentifierV,
    pub combined_amount: u64,
}

impl View for CollateralCombineEvent {
    type V = CollateralCombineEventV;

    open spec fn view(&self) -> CollateralCombineEventV {
        CollateralCombineEventV {
            old_collateral_id1: self.old_collateral_id1@,
            old_collateral_marker_id1: self.old_collateral_marker_id1@,
            old_collateral_id2: self.old_collateral_id2@,
            old_collateral_marker_id2: self.old_collateral_marker_id2@,
            new_collateral_id: self.new_collateral_id@,
            new_collateral_marker_id: self.new_collateral_marker_id@,
            account_id: self.account_id@,
            token_id: self.token_id@,
            combined_amount: self.combined_amount,
        }
    }
}

/// The payload schema: the two consumed collateral/marker pairs, the new
/// pair, the account id, the token identifier, and the combined amount —
/// and nothing after them.
pub open spec fn spec_decode_collateral_combine(b: Seq<u8>) -> Option<CollateralCombineEventV> {
    match spec_read_id32(b, 0) {
        None => None,
        Some((old_collateral_id1, p1)) => match spec_read_id32(b, p1) {
            None => None,
            Some((old_collateral_marker_id1, p2)) => match spec_read_id32(b, p2) {
                None => None,
                Some((old_collateral_id2, p3)) => match spec_read_id32(b, p3) {
                    None => None,
                    Some((old_collateral_marker_id2, p4)) => match spec_read_id32(b, p4) {
                        None => None,
                        Some((new_collateral_id, p5)) => match spec_read_id32(b, p5) {
                            None => None,
                            Some((new_collateral_marker_id, p6)) => match spec_read_id32(b, p6) {
                                None => None,
                                Some((account_id, p7)) => match spec_read_token_identifier(
                                    b,
                                    p7,
                                ) {
                                    None => None,
                                    Some((token_id, p8)) => match spec_read_u64(b, p8) {
                                        None => None,
                                        Some((combined_amount, p9)) => if p9 == b.len() {
                                            Some(
                                                CollateralCombineEventV {
                                                    old_collateral_id1,
                                                    old_collateral_marker_id1,
                                                    old_collateral_id2,
                                                    old_collateral_marker_id2,
                                                    new_collateral_id,
                                                    new_collateral_marker_id,
                                                    account_id,
                                                    token_id,
                                                    combined_amount,
                                                },
                                            )
                                        } else {
                                            None
                                        },
                                    },
                                },
                            },
                        },
                    },
                },
            },
        },
    }
}

/// The storage row a collateral-combine event maps to: ids as bare
/// lowercase hex, the token address taken from the token info string.
pub open spec fn spec_map_collateral_combine(
    e: CollateralCombineEventV,
    tx: Seq<char>,
    t: i64,
) -> CollateralCombineRowV {
    CollateralCombineRowV {
        transaction_hash: tx,
        old_collateral_id1: hex_of(e.old_collateral_id1),
        old_collateral_marker_id1: hex_of(e.old_collateral_marker_id1),
        old_collateral_id2: hex_of(e.old_collateral_id2),
        old_collateral_marker_id2: hex_of(e.old_collateral_marker_id2),
        new_collateral_id: hex_of(e.new_collateral_id),
        new_collateral_marker_id: hex_of(e.new_collateral_marker_id),
        account_id: hex_of(e.account_id),
        token_address: e.token_id.token_info,
        combined_amount: e.combined_amount,
        timestamp: t,
    }
}

impl CollateralCombineEvent {
    /// Strict decode of a collateral-combine payload.
    pub fn decode(payload: &[u8]) -> (r: Result<CollateralCombineEvent, DecodeError>)
        ensures
            match r {
                Ok(ev) => spec_decode_collateral_combine(payload@) == Some(ev@),
                Err(_) => spec_decode_collateral_combine(payload@) is None,
            },
    {
        let r1 = read_id32(payload, 0);
        if r1.is_none() {
            return Err(DecodeError);
        }
        let (old_collateral_id1, p1) = r1.unwrap();
        let r2 = read_id32(payload, p1);
        if r2.is_none() {
            return Err(DecodeError);
        }
        let (old_collateral_marker_id1, p2) = r2.unwrap();
        let r3 = read_id32(payload, p2);
        if r3.is_none() {
            return Err(DecodeError);
        }
        let (old_collateral_id2, p3) = r3.unwrap();
        let r4 = read_id32(payload, p3);
        if r4.is_none() {
            return Err(DecodeError);
        }
        let (old_collateral_marker_id2, p4) = r4.unwrap();
        let r5 = read_id32(payload, p4);
        if r5.is_none() {
            return Err(DecodeError);
        }
        let (new_collateral_id, p5) = r5.unwrap();
        let r6 = read_id32(payload, p5);
        if r6.is_none() {
            return Err(DecodeError);
        }
        let (new_collateral_marker_id, p6) = r6.unwrap();
        let r7 = read_id32(payload, p6);
        if r7.is_none() {
            return Err(DecodeError);
        }
        let (account_id, p7) = r7.unwrap();
        let r8 = read_token_identifier(payload, p7);
        if r8.is_none() {
            return Err(DecodeError);
        }
        let (token_id, p8) = r8.unwrap();
        let r9 = read_u64(payload, p8);
        if r9.is_none() {
            return Err(DecodeError);
        }
        let (combined_amount, p9) = r9.unwrap();
        if p9 != payload.len() {
            return Err(DecodeError);
        }
        Ok(
            CollateralCombineEvent {
                old_collateral_id1,
                old_collateral_marker_id1,
                old_collateral_id2,
                old_collateral_marker_id2,
                new_collateral_id,
                new_collateral_marker_id,
                account_id,
                token_id,
                combined_amount,
            },
        )
    }

    /// Maps the decoded event to its storage row; every field converts.
    pub fn try_map_to_db(&self, tx_digest: String, timestamp: i64) -> (r: Result<
        CollateralCombineRow,
        MappingError,
    >)
        ensures
            match r {
                Ok(row) => row@ == spec_map_collateral_combine(self@, tx_digest@, timestamp),
                Err(_) => false,
            },
    {
        Ok(
            CollateralCombineRow {
                transaction_hash: tx_digest,
                old_collateral_id1: hex_encode(self.old_collateral_id1.as_slice()),
                old_collateral_marker_id1: hex_encode(self.old_collateral_marker_id1.as_slice()),
                old_collateral_id2: hex_encode(self.old_collateral_id2.as_slice()),
                old_collateral_marker_id2: hex_encode(self.old_collateral_marker_id2.as_slice()),
                new_collateral_id: hex_encode(self.new_collateral_id.as_slice()),
                new_collateral_marker_id: hex_encode(self.new_collateral_marker_id.as_slice()),
                account_id: hex_encode(self.account_id.as_slice()),
                token_address: self.token_id.token_info.clone(),
                combined_amount: self.combined_amount,
                timestamp,
            },
        )
    }
}

/// A truncated payload never decodes: a payload the schema accepts has
/// no decodable strict prefix, so cutting it short (by one byte or more)
/// always fails outright and no partial record can arise.
pub proof fn lemma_decode_collateral_combine_prefix_free(b: Seq<u8>, k: int)
    requires
        0 <= k < b.len(),
        spec_decode_collateral_combine(b) is Some,
    ensures
        spec_decode_collateral_combine(b.take(k)) is None,
{
    let p = b.take(k);
    if spec_decode_collateral_combine(p) is Some {
        lemma_read_id32_extend(b, k, 0);
        let (v1, p1) = spec_read_id32(p, 0).unwrap();
        lemma_read_id32_extend(b, k, p1);
        let (v2, p2) = spec_read_id32(p, p1).unwrap();
        lemma_read_id32_extend(b, k, p2);
        let (v3, p3) = spec_read_id32(p, p2).unwrap();
        lemma_read_id32_extend(b, k, p3);
        let (v4, p4) = spec_read_id32(p, p3).unwrap();
        lemma_read_id32_extend(b, k, p4);
        let (v5, p5) = spec_read_id32(p, p4).unwrap();
        lemma_read_id32_extend(b, k, p5);
        let (v6, p6) = spec_read_id32(p, p5).unwrap();
        lemma_read_id32_extend(b, k, p6);
        let (v7, p7) = spec_read_id32(p, p6).unwrap();
        lemma_read_token_identifier_extend(b, k, p7);
        let (v8, p8) = spec_read_token_identifier(p, p7).unwrap();
        lemma_read_u64_extend(b, k, p8);
        let (v9, p9) = spec_read_u64(p, p8).unwrap();
        assert(spec_decode_collateral_combine(b) is None);
    }
}

} // verus!
