//! The position-liquidated event: payload decode and mapping to its storage
//! row.
use vstd::prelude::*;

verus! {

use crate::MappingError;
use crate::codec::{spec_read_id32, read_id32};
use crate::db::models::{PositionLiquidatedEvent as PositionLiquidatedRow, PositionLiquidatedEventV
    as PositionLiquidatedRowV};
use crate::text::{hex0x_of, hex_encode_prefixed};
use crate::codec::lemma_read_id32_extend;
use crate::DecodeError;

/// A decoded position-liquidated payload.
#[derive(Debug)]
pub struct PositionLiquidatedEvent {
    pub position_id: Vec<u8>,
}

pub struct PositionLiquidatedEventV {
    pub position_id: Seq<u8>,
}

impl View for PositionLiquidatedEvent {
    type V = PositionLiquidatedEventV;

    open spec fn view(&self) -> PositionLiquidatedEventV {
        PositionLiquidatedEventV { position_id: self.position_id@ }
    }
}

/// The payload schema: the position id and nothing after it.
pub open spec fn spec_decode_position_liquidated(b: Seq<u8>) -> Option<PositionLiquidatedEventV> {
    match spec_read_id32(b, 0) {
        None => None,
        Some((position_id, p1)) => if p1 == b.len() {
            Some(PositionLiquidatedEventV { position_id })
        } else {
            None
        },
    }
}

/// The storage row a position-liquidated event maps to.
pub open spec fn spec_map_position_liquidated(
    e: PositionLiquidatedEventV,
    tx: Seq<char>,
    t: i64,
) -> PositionLiquidatedRowV {
    PositionLiquidatedRowV {
        transaction_hash: tx,
        position_id: hex0x_of(e.position_id),
        timestamp: t,
    }
}

impl PositionLiquidatedEvent {
    /// Strict decode of a position-liquidated payload.
    pub fn decode(payload: &[u8]) -> (r: Result<PositionLiquidatedEvent, DecodeError>)
        ensures
            match r {
                Ok(ev) => spec_decode_position_liquidated(payload@) == Some(ev@),
                Err(_) => spec_decode_position_liquidated(payload@) is None,
            },
    {
        let r1 = read_id32(payload, 0);
        if r1.is_none() {
            return Err(DecodeError);
        }
        let (position_id, p1) = r1.unwrap();
        if p1 != payload.len() {
            return Err(DecodeError);
        }
        Ok(PositionLiquidatedEvent { position_id })
    }

    /// Maps the decoded event to its storage row; every field converts.
    pub fn try_map_to_db(&self, tx_digest: String, timestamp: i64) -> (r: Result<
        PositionLiquidatedRow,
        MappingError,
    >)
        ensures
            match r {
                Ok(row) => row@ == spec_map_position_liquidated(self@, tx_digest@, timestamp),
                Err(_) => false,
            },
    {
        Ok(
            PositionLiquidatedRow {
                transaction_hash: tx_digest,
                position_id: hex_encode_prefixed(self.position_id.as_slice()),
                timestamp,
            },
        )
    }
}

/// A truncated payload never decodes: a payload the schema accepts has
/// no decodable strict prefix, so cutting it short (by one byte or more)
/// always fails outright and no partial record can arise.
pub proof fn lemma_decode_position_liquidated_prefix_free(b: Seq<u8>, k: int)
    requires
        0 <= k < b.len(),
        spec_decode_position_liquidated(b) is Some,
    ensures
        spec_decode_position_liquidated(b.take(k)) is None,
{
    let p = b.take(k);
    if spec_decode_position_liquidated(p) is Some {
        lemma_read_id32_extend(b, k, 0);
        let (v1, p1) = spec_read_id32(p, 0).unwrap();
        assert(spec_decode_position_liquidated(b) is None);
    }
}

} // verus!
