//! The marker-liquidated event: payload decode and mapping to its storage
//! row. A liquidated marker is consumed for the live-collateral projection.
use vstd::prelude::*;

verus! {

use crate::MappingError;
use crate::codec::{spec_read_id32, read_id32};
use crate::db::models::{CollateralMarkerLiquidatedEvent as CollateralMarkerLiquidatedRow,
    CollateralMarkerLiquidatedEventV as CollateralMarkerLiquidatedRowV};
use crate::text::{hex_encode, hex_of};
use crate::codec::lemma_read_id32_extend;
use crate::DecodeError;

/// A decoded marker-liquidated payload.
#[derive(Debug)]
pub struct CollateralMarkerLiquidatedEvent {
    pub collateral_marker_id: Vec<u8>,
    pub account_id: Vec<u8>,
}

pub struct CollateralMarkerLiquidatedEventV {
    pub collateral_marker_id: Seq<u8>,
    pub account_id: Seq<u8>,
}

impl View for CollateralMarkerLiquidatedEvent {
    type V = CollateralMarkerLiquidatedEventV;

    open spec fn view(&self) -> CollateralMarkerLiquidatedEventV {
        CollateralMarkerLiquidatedEventV {
            collateral_marker_id: self.collateral_marker_id@,
            account_id: self.account_id@,
        }
    }
}

/// The payload schema: the marker id, the account id, and nothing after
/// them.
pub open spec fn spec_decode_collateral_marker_liquidated(b: Seq<u8>) -> Option<
    CollateralMarkerLiquidatedEventV,
> {
    match spec_read_id32(b, 0) {
        None => None,
        Some((collateral_marker_id, p1)) => match spec_read_id32(b, p1) {
            None => None,
            Some((account_id, p2)) => if p2 == b.len() {
                Some(CollateralMarkerLiquidatedEventV { collateral_marker_id, account_id })
            } else {
                None
            },
        },
    }
}

/// The storage row a marker-liquidated event maps to: ids as bare
/// lowercase hex.
pub open spec fn spec_map_collateral_marker_liquidated(
    e: CollateralMarkerLiquidatedEventV,
    tx: Seq<char>,
    t: i64,
) -> CollateralMarkerLiquidatedRowV {
    CollateralMarkerLiquidatedRowV {
        transaction_hash: tx,
        collateral_marker_id: hex_of(e.collateral_marker_id),
        account_id: hex_of(e.account_id),
        timestamp: t,
    }
}

impl CollateralMarkerLiquidatedEvent {
    /// Strict decode of a marker-liquidated payload.
    pub fn decode(payload: &[u8]) -> (r: Result<CollateralMarkerLiquidatedEvent, DecodeError>)
        ensures
            match r {
                Ok(ev) => spec_decode_collateral_marker_liquidated(payload@) == Some(ev@),
                Err(_) => spec_decode_collateral_marker_liquidated(payload@) is None,
            },
    {
        let r1 = read_id32(payload, 0);
        if r1.is_none() {
            return Err(DecodeError);
        }
        let (collateral_marker_id, p1) = r1.unwrap();
        let r2 = read_id32(payload, p1);
        if r2.is_none() {
            return Err(DecodeError);
        }
        let (account_id, p2) = r2.unwrap();
        if p2 != payload.len() {
            return Err(DecodeError);
        }
        Ok(CollateralMarkerLiquidatedEvent { collateral_marker_id, account_id })
    }

    /// Maps the decoded event to its storage row; every field converts.
    pub fn try_map_to_db(&self, tx_digest: String, timestamp: i64) -> (r: Result<
        CollateralMarkerLiquidatedRow,
        MappingError,
    >)
        ensures
            match r {
                Ok(row) => row@ == spec_map_collateral_marker_liquidated(
                    self@,
                    tx_digest@,
                    timestamp,
                ),
                Err(_) => false,
            },
    {
        Ok(
            CollateralMarkerLiquidatedRow {
                transaction_hash: tx_digest,
                collateral_marker_id: hex_encode(self.collateral_marker_id.as_slice()),
                account_id: hex_encode(self.account_id.as_slice()),
                timestamp,
            },
        )
    }
}

/// A truncated payload never decodes: a payload the schema accepts has
/// no decodable strict prefix, so cutting it short (by one byte or more)
/// always fails outright and no partial record can arise.
pub proof fn lemma_decode_collateral_marker_liquidated_prefix_free(b: Seq<u8>, k: int)
    requires
        0 <= k < b.len(),
        spec_decode_collateral_marker_liquidated(b) is Some,
    ensures
        spec_decode_collateral_marker_liquidated(b.take(k)) is None,
{
    let p = b.take(k);
    if spec_decode_collateral_marker_liquidated(p) is Some {
        lemma_read_id32_extend(b, k, 0);
        let (v1, p1) = spec_read_id32(p, 0).unwrap();
        lemma_read_id32_extend(b, k, p1);
        let (v2, p2) = spec_read_id32(p, p1).unwrap();
        assert(spec_decode_collateral_marker_liquidated(b) is None);
    }
}

} // verus!
