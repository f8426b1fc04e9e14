//! The collateral-withdraw event: payload decode and mapping to its storage
//! row. A withdrawal that destroys the marker consumes it for the
//! live-collateral projection.
use vstd::prelude::*;

verus! {

use crate::MappingError;
use crate::codec::{spec_read_bool, spec_read_id32, spec_read_u64, read_bool, read_id32, read_u64};
use crate::db::models::{CollateralWithdrawEvent as CollateralWithdrawRow, CollateralWithdrawEventV
    as CollateralWithdrawRowV};
use crate::events::collateral_deposit_event::{MoveTokenIdentifier, MoveTokenIdentifierV,
    read_token_identifier, spec_read_token_identifier};
use crate::text::{hex_encode, hex_of};
use crate::codec::{lemma_read_bool_extend, lemma_read_id32_extend, lemma_read_u64_extend};
use crate::events::collateral_deposit_event::lemma_read_token_identifier_extend;
use crate::DecodeError;

/// A decoded collateral-withdraw payload.
#[derive(Debug)]
pub struct CollateralWithdrawEvent {
    pub collateral_id: Vec<u8>,
    pub collateral_marker_id: Vec<u8>,
    pub account_id: Vec<u8>,
    pub token_id: MoveTokenIdentifier,
    pub withdrawn_amount: u64,
    pub marker_destroyed: bool,
    pub remaining_amount_in_marker: u64,
}

pub struct CollateralWithdrawEventV {
    pub collateral_id: Seq<u8>,
    pub collateral_marker_id: Seq<u8>,
    pub account_id: Seq<u8>,
    pub token_id: MoveTokenIdentifierV,
    pub withdrawn_amount: u64,
    pub marker_destroyed: bool,
    pub remaining_amount_in_marker: u64,
}

impl View for CollateralWithdrawEvent {
    type V = CollateralWithdrawEventV;

    open spec fn view(&self) -> CollateralWithdrawEventV {
        CollateralWithdrawEventV {
            collateral_id: self.collateral_id@,
            collateral_marker_id: self.collateral_marker_id@,
            account_id: self.account_id@,
            token_id: self.token_id@,
            withdrawn_amount: self.withdrawn_amount,
            marker_destroyed: self.marker_destroyed,
            remaining_amount_in_marker: self.remaining_amount_in_marker,
        }
    }
}

/// The payload schema: collateral id, marker id, account id, token
/// identifier, withdrawn amount, destroyed flag, remaining amount — and
/// nothing after them.
pub open spec fn spec_decode_collateral_withdraw(b: Seq<u8>) -> Option<CollateralWithdrawEventV> {
    match spec_read_id32(b, 0) {
        None => None,
        Some((collateral_id, p1)) => match spec_read_id32(b, p1) {
            None => None,
            Some((collateral_marker_id, p2)) => match spec_read_id32(b, p2) {
                None => None,
                Some((account_id, p3)) => match spec_read_token_identifier(b, p3) {
                    None => None,
                    Some((token_id, p4)) => match spec_read_u64(b, p4) {
                        None => None,
                        Some((withdrawn_amount, p5)) => match spec_read_bool(b, p5) {
                            None => None,
                            Some((marker_destroyed, p6)) => match spec_read_u64(b, p6) {
                                None => None,
                                Some((remaining_amount_in_marker, p7)) => if p7 == b.len() {
                                    Some(
                                        CollateralWithdrawEventV {
                                            collateral_id,
                                            collateral_marker_id,
                                            account_id,
                                            token_id,
                                            withdrawn_amount,
                                            marker_destroyed,
                                            remaining_amount_in_marker,
                                        },
                                    )
                                } else {
                                    None
                                },
                            },
                        },
                    },
                },
            },
        },
    }
}

/// The storage row a collateral-withdraw event maps to: ids as bare
/// lowercase hex, the token address taken from the token info string.
pub open spec fn spec_map_collateral_withdraw(
    e: CollateralWithdrawEventV,
    tx: Seq<char>,
    t: i64,
) -> CollateralWithdrawRowV {
    CollateralWithdrawRowV {
        transaction_hash: tx,
        collateral_id: hex_of(e.collateral_id),
        collateral_marker_id: hex_of(e.collateral_marker_id),
        account_id: hex_of(e.account_id),
        token_address: e.token_id.token_info,
        withdrawn_amount: e.withdrawn_amount,
        marker_destroyed: e.marker_destroyed,
        remaining_amount_in_marker: e.remaining_amount_in_marker,
        timestamp: t,
    }
}

impl CollateralWithdrawEvent {
    /// Strict decode of a collateral-withdraw payload.
    pub fn decode(payload: &[u8]) -> (r: Result<CollateralWithdrawEvent, DecodeError>)
        ensures
            match r {
                Ok(ev) => spec_decode_collateral_withdraw(payload@) == Some(ev@),
                Err(_) => spec_decode_collateral_withdraw(payload@) is None,
            },
    {
        let r1 = read_id32(payload, 0);
        if r1.is_none() {
            return Err(DecodeError);
        }
        let (collateral_id, p1) = r1.unwrap();
        let r2 = read_id32(payload, p1);
        if r2.is_none() {
            return Err(DecodeError);
        }
        let (collateral_marker_id, p2) = r2.unwrap();
        let r3 = read_id32(payload, p2);
        if r3.is_none() {
            return Err(DecodeError);
        }
        let (account_id, p3) = r3.unwrap();
        let r4 = read_token_identifier(payload, p3);
        if r4.is_none() {
            return Err(DecodeError);
        }
        let (token_id, p4) = r4.unwrap();
        let r5 = read_u64(payload, p4);
        if r5.is_none() {
            return Err(DecodeError);
        }
        let (withdrawn_amount, p5) = r5.unwrap();
        let r6 = read_bool(payload, p5);
        if r6.is_none() {
            return Err(DecodeError);
        }
        let (marker_destroyed, p6) = r6.unwrap();
        let r7 = read_u64(payload, p6);
        if r7.is_none() {
            return Err(DecodeError);
        }
        let (remaining_amount_in_marker, p7) = r7.unwrap();
        if p7 != payload.len() {
            return Err(DecodeError);
        }
        Ok(
            CollateralWithdrawEvent {
                collateral_id,
                collateral_marker_id,
                account_id,
                token_id,
                withdrawn_amount,
                marker_destroyed,
                remaining_amount_in_marker,
            },
        )
    }

    /// Maps the decoded event to its storage row; every field converts.
    pub fn try_map_to_db(&self, tx_digest: String, timestamp: i64) -> (r: Result<
        CollateralWithdrawRow,
        MappingError,
    >)
        ensures
            match r {
                Ok(row) => row@ == spec_map_collateral_withdraw(self@, tx_digest@, timestamp),
                Err(_) => false,
            },
    {
        Ok(
            CollateralWithdrawRow {
                transaction_hash: tx_digest,
                collateral_id: hex_encode(self.collateral_id.as_slice()),
                collateral_marker_id: hex_encode(self.collateral_marker_id.as_slice()),
                account_id: hex_encode(self.account_id.as_slice()),
                token_address: self.token_id.token_info.clone(),
                withdrawn_amount: self.withdrawn_amount,
                marker_destroyed: self.marker_destroyed,
                remaining_amount_in_marker: self.remaining_amount_in_marker,
                timestamp,
            },
        )
    }
}

/// A truncated payload never decodes: a payload the schema accepts has
/// no decodable strict prefix, so cutting it short (by one byte or more)
/// always fails outright and no partial record can arise.
pub proof fn lemma_decode_collateral_withdraw_prefix_free(b: Seq<u8>, k: int)
    requires
        0 <= k < b.len(),
        spec_decode_collateral_withdraw(b) is Some,
    ensures
        spec_decode_collateral_withdraw(b.take(k)) is None,
{
    let p = b.take(k);
    if spec_decode_collateral_withdraw(p) is Some {
        lemma_read_id32_extend(b, k, 0);
        let (v1, p1) = spec_read_id32(p, 0).unwrap();
        lemma_read_id32_extend(b, k, p1);
        let (v2, p2) = spec_read_id32(p, p1).unwrap();
        lemma_read_id32_extend(b, k, p2);
        let (v3, p3) = spec_read_id32(p, p2).unwrap();
        lemma_read_token_identifier_extend(b, k, p3);
        let (v4, p4) = spec_read_token_identifier(p, p3).unwrap();
        lemma_read_u64_extend(b, k, p4);
        let (v5, p5) = spec_read_u64(p, p4).unwrap();
        lemma_read_bool_extend(b, k, p5);
        let (v6, p6) = spec_read_bool(p, p5).unwrap();
        lemma_read_u64_extend(b, k, p6);
        let (v7, p7) = spec_read_u64(p, p6).unwrap();
        assert(spec_decode_collateral_withdraw(b) is None);
    }
}

} // verus!
