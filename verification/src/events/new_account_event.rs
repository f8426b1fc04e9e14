//! The account-opened event: payload decode and mapping to its storage row.
use vstd::prelude::*;

verus! {

use crate::MappingError;
use crate::codec::{spec_read_id32, read_id32};
use crate::db::models::{NewAccountEvent as NewAccountRow, NewAccountEventV as NewAccountRowV};
use crate::text::{hex_encode, hex_of};
use crate::codec::lemma_read_id32_extend;
use crate::DecodeError;

/// A decoded account-opened payload.
#[derive(Debug)]
pub struct NewAccountEvent {
    pub account_id: Vec<u8>,
    pub stats_id: Vec<u8>,
}

pub struct NewAccountEventV {
    pub account_id: Seq<u8>,
    pub stats_id: Seq<u8>,
}

impl View for NewAccountEvent {
    type V = NewAccountEventV;

    open spec fn view(&self) -> NewAccountEventV {
        NewAccountEventV { account_id: self.account_id@, stats_id: self.stats_id@ }
    }
}

/// The payload schema: the account id, the stats id, and nothing after
/// them.
pub open spec fn spec_decode_new_account(b: Seq<u8>) -> Option<NewAccountEventV> {
    match spec_read_id32(b, 0) {
        None => None,
        Some((account_id, p1)) => match spec_read_id32(b, p1) {
            None => None,
            Some((stats_id, p2)) => if p2 == b.len() {
                Some(NewAccountEventV { account_id, stats_id })
            } else {
                None
            },
        },
    }
}

/// The storage row an account-opened event maps to: ids as bare lowercase
/// hex.
pub open spec fn spec_map_new_account(e: NewAccountEventV, tx: Seq<char>, t: i64) -> NewAccountRowV {
    NewAccountRowV {
        transaction_hash: tx,
        account_id: hex_of(e.account_id),
        stats_id: hex_of(e.stats_id),
        timestamp: t,
    }
}

impl NewAccountEvent {
    /// Strict decode of an account-opened payload.
    pub fn decode(payload: &[u8]) -> (r: Result<NewAccountEvent, DecodeError>)
        ensures
            match r {
                Ok(ev) => spec_decode_new_account(payload@) == Some(ev@),
                Err(_) => spec_decode_new_account(payload@) is None,
            },
    {
        let r1 = read_id32(payload, 0);
        if r1.is_none() {
            return Err(DecodeError);
        }
        let (account_id, p1) = r1.unwrap();
        let r2 = read_id32(payload, p1);
        if r2.is_none() {
            return Err(DecodeError);
        }
        let (stats_id, p2) = r2.unwrap();
        if p2 != payload.len() {
            return Err(DecodeError);
        }
        Ok(NewAccountEvent { account_id, stats_id })
    }

    /// Maps the decoded event to its storage row; every field converts.
    pub fn try_map_to_db(&self, tx_digest: String, timestamp: i64) -> (r: Result<
        NewAccountRow,
        MappingError,
    >)
        ensures
            match r {
                Ok(row) => row@ == spec_map_new_account(self@, tx_digest@, timestamp),
                Err(_) => false,
            },
    {
        Ok(
            NewAccountRow {
                transaction_hash: tx_digest,
                account_id: hex_encode(self.account_id.as_slice()),
                stats_id: hex_encode(self.stats_id.as_slice()),
                timestamp,
            },
        )
    }
}

/// A truncated payload never decodes: a payload the schema accepts has
/// no decodable strict prefix, so cutting it short (by one byte or more)
/// always fails outright and no partial record can arise.
pub proof fn lemma_decode_new_account_prefix_free(b: Seq<u8>, k: int)
    requires
        0 <= k < b.len(),
        spec_decode_new_account(b) is Some,
    ensures
        spec_decode_new_account(b.take(k)) is None,
{
    let p = b.take(k);
    if spec_decode_new_account(p) is Some {
        lemma_read_id32_extend(b, k, 0);
        let (v1, p1) = spec_read_id32(p, 0).unwrap();
        lemma_read_id32_extend(b, k, p1);
        let (v2, p2) = spec_read_id32(p, p1).unwrap();
        assert(spec_decode_new_account(b) is None);
    }
}

} // verus!
