//! The collateral-value-assertion start event: payload decode and mapping
//! to its storage row.
use vstd::prelude::*;

verus! {

use crate::MappingError;
use crate::codec::{spec_read_id32, spec_read_u64, read_id32, read_u64};
use crate::db::models::{StartCollateralValueAssertionEvent as StartCvaRow,
    StartCollateralValueAssertionEventV as StartCvaRowV};
use crate::text::{hex_encode, hex_of};
use crate::codec::lemma_read_id32_extend;
use crate::codec::lemma_read_u64_extend;
use crate::DecodeError;

/// A decoded collateral-value-assertion start payload.
#[derive(Debug)]
pub struct StartCollateralValueAssertionEvent {
    pub cva_id: Vec<u8>,
    pub account_id: Vec<u8>,
    pub program_id: Vec<u8>,
    pub num_open_collateral_objects: u64,
}

pub struct StartCollateralValueAssertionEventV {
    pub cva_id: Seq<u8>,
    pub account_id: Seq<u8>,
    pub program_id: Seq<u8>,
    pub num_open_collateral_objects: u64,
}

impl View for StartCollateralValueAssertionEvent {
    type V = StartCollateralValueAssertionEventV;

    open spec fn view(&self) -> StartCollateralValueAssertionEventV {
        StartCollateralValueAssertionEventV {
            cva_id: self.cva_id@,
            account_id: self.account_id@,
            program_id: self.program_id@,
            num_open_collateral_objects: self.num_open_collateral_objects,
        }
    }
}

/// The payload schema: assertion id, account id, program id, open-object
/// count — and nothing after them.
pub open spec fn spec_decode_start_cva(b: Seq<u8>) -> Option<StartCollateralValueAssertionEventV> {
    match spec_read_id32(b, 0) {
        None => None,
        Some((cva_id, p1)) => match spec_read_id32(b, p1) {
            None => None,
            Some((account_id, p2)) => match spec_read_id32(b, p2) {
                None => None,
                Some((program_id, p3)) => match spec_read_u64(b, p3) {
                    None => None,
                    Some((num_open_collateral_objects, p4)) => if p4 == b.len() {
                        Some(
                            StartCollateralValueAssertionEventV {
                                cva_id,
                                account_id,
                                program_id,
                                num_open_collateral_objects,
                            },
                        )
                    } else {
                        None
                    },
                },
            },
        },
    }
}

/// The storage row an assertion-start event maps to: ids as bare lowercase
/// hex, the open-object count narrowed to the stored integer type, or no
/// row at all when it does not fit.
pub open spec fn spec_map_start_cva(
    e: StartCollateralValueAssertionEventV,
    tx: Seq<char>,
    t: i64,
) -> Option<StartCvaRowV> {
    if e.num_open_collateral_objects > i64::MAX as u64 {
        None
    } else {
        Some(
            StartCvaRowV {
                cva_id: hex_of(e.cva_id),
                transaction_hash: tx,
                account_id: hex_of(e.account_id),
                program_id: hex_of(e.program_id),
                num_open_collateral_objects: e.num_open_collateral_objects as i64,
                timestamp: t,
            },
        )
    }
}

impl StartCollateralValueAssertionEvent {
    /// Strict decode of an assertion-start payload.
    pub fn decode(payload: &[u8]) -> (r: Result<StartCollateralValueAssertionEvent, DecodeError>)
        ensures
            match r {
                Ok(ev) => spec_decode_start_cva(payload@) == Some(ev@),
                Err(_) => spec_decode_start_cva(payload@) is None,
            },
    {
        let r1 = read_id32(payload, 0);
        if r1.is_none() {
            return Err(DecodeError);
        }
        let (cva_id, p1) = r1.unwrap();
        let r2 = read_id32(payload, p1);
        if r2.is_none() {
            return Err(DecodeError);
        }
        let (account_id, p2) = r2.unwrap();
        let r3 = read_id32(payload, p2);
        if r3.is_none() {
            return Err(DecodeError);
        }
        let (program_id, p3) = r3.unwrap();
        let r4 = read_u64(payload, p3);
        if r4.is_none() {
            return Err(DecodeError);
        }
        let (num_open_collateral_objects, p4) = r4.unwrap();
        if p4 != payload.len() {
            return Err(DecodeError);
        }
        Ok(StartCollateralValueAssertionEvent { cva_id, account_id, program_id, num_open_collateral_objects })
    }

    /// Maps the decoded event to its storage row. An open-object count that
    /// cannot be represented in the stored integer type is a hard mapping
    /// failure, never a truncation.
    pub fn try_map_to_db(&self, tx_digest: String, timestamp: i64) -> (r: Result<
        StartCvaRow,
        MappingError,
    >)
        ensures
            match r {
                Ok(row) => spec_map_start_cva(self@, tx_digest@, timestamp) == Some(row@),
                Err(_) => spec_map_start_cva(self@, tx_digest@, timestamp) is None,
            },
    {
        if self.num_open_collateral_objects > i64::MAX as u64 {
            return Err(MappingError);
        }
        Ok(
            StartCvaRow {
                cva_id: hex_encode(self.cva_id.as_slice()),
                transaction_hash: tx_digest,
                account_id: hex_encode(self.account_id.as_slice()),
                program_id: hex_encode(self.program_id.as_slice()),
                num_open_collateral_objects: self.num_open_collateral_objects as i64,
                timestamp,
            },
        )
    }
}

/// A truncated payload never decodes: a payload the schema accepts has
/// no decodable strict prefix, so cutting it short (by one byte or more)
/// always fails outright and no partial record can arise.
pub proof fn lemma_decode_start_cva_prefix_free(b: Seq<u8>, k: int)
    requires
        0 <= k < b.len(),
        spec_decode_start_cva(b) is Some,
    ensures
        spec_decode_start_cva(b.take(k)) is None,
{
    let p = b.take(k);
    if spec_decode_start_cva(p) is Some {
        lemma_read_id32_extend(b, k, 0);
        let (v1, p1) = spec_read_id32(p, 0).unwrap();
        lemma_read_id32_extend(b, k, p1);
        let (v2, p2) = spec_read_id32(p, p1).unwrap();
        lemma_read_id32_extend(b, k, p2);
        let (v3, p3) = spec_read_id32(p, p2).unwrap();
        lemma_read_u64_extend(b, k, p3);
        let (v4, p4) = spec_read_u64(p, p3).unwrap();
        assert(spec_decode_start_cva(b) is None);
    }
}

} // verus!
