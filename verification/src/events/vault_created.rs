//! The vault-created event: payload decode and mapping to its storage row.
use vstd::prelude::*;

verus! {

use crate::MappingError;
use crate::codec::{spec_read_id32, spec_read_string, read_id32, read_string};
use crate::db::models::{VaultCreatedEvent as VaultCreatedRow, VaultCreatedEventV as
    VaultCreatedRowV};
use crate::text::{hex0x_of, hex_encode_prefixed};
use crate::codec::{lemma_read_id32_extend, lemma_read_string_extend};
use crate::DecodeError;

/// A decoded vault-created payload.
#[derive(Debug)]
pub struct VaultCreatedEvent {
    pub vault_address: Vec<u8>,
    pub vault_marker_address: Vec<u8>,
    pub coin_token_info: String,
    pub lp_token_info: String,
}

pub struct VaultCreatedEventV {
    pub vault_address: Seq<u8>,
    pub vault_marker_address: Seq<u8>,
    pub coin_token_info: Seq<char>,
    pub lp_token_info: Seq<char>,
}

impl View for VaultCreatedEvent {
    type V = VaultCreatedEventV;

    open spec fn view(&self) -> VaultCreatedEventV {
        VaultCreatedEventV {
            vault_address: self.vault_address@,
            vault_marker_address: self.vault_marker_address@,
            coin_token_info: self.coin_token_info@,
            lp_token_info: self.lp_token_info@,
        }
    }
}

/// The payload schema: the vault address, its marker address, the coin and
/// LP token info strings, and nothing after them.
pub open spec fn spec_decode_vault_created(b: Seq<u8>) -> Option<VaultCreatedEventV> {
    match spec_read_id32(b, 0) {
        None => None,
        Some((vault_address, p1)) => match spec_read_id32(b, p1) {
            None => None,
            Some((vault_marker_address, p2)) => match spec_read_string(b, p2) {
                None => None,
                Some((coin_token_info, p3)) => match spec_read_string(b, p3) {
                    None => None,
                    Some((lp_token_info, p4)) => if p4 == b.len() {
                        Some(
                            VaultCreatedEventV {
                                vault_address,
                                vault_marker_address,
                                coin_token_info,
                                lp_token_info,
                            },
                        )
                    } else {
                        None
                    },
                },
            },
        },
    }
}

/// The storage row a vault-created event maps to: addresses as
/// "0x"-prefixed hex, token info strings kept as decoded.
pub open spec fn spec_map_vault_created(
    e: VaultCreatedEventV,
    tx: Seq<char>,
    t: i64,
) -> VaultCreatedRowV {
    VaultCreatedRowV {
        transaction_hash: tx,
        vault_address: hex0x_of(e.vault_address),
        vault_marker_address: hex0x_of(e.vault_marker_address),
        coin_token_info: e.coin_token_info,
        lp_token_info: e.lp_token_info,
        timestamp: t,
    }
}

impl VaultCreatedEvent {
    /// Strict decode of a vault-created payload.
    pub fn decode(payload: &[u8]) -> (r: Result<VaultCreatedEvent, DecodeError>)
        ensures
            match r {
                Ok(ev) => spec_decode_vault_created(payload@) == Some(ev@),
                Err(_) => spec_decode_vault_created(payload@) is None,
            },
    {
        let r1 = read_id32(payload, 0);
        if r1.is_none() {
            return Err(DecodeError);
        }
        let (vault_address, p1) = r1.unwrap();
        let r2 = read_id32(payload, p1);
        if r2.is_none() {
            return Err(DecodeError);
        }
        let (vault_marker_address, p2) = r2.unwrap();
        let r3 = read_string(payload, p2);
        if r3.is_none() {
            return Err(DecodeError);
        }
        let (coin_token_info, p3) = r3.unwrap();
        let r4 = read_string(payload, p3);
        if r4.is_none() {
            return Err(DecodeError);
        }
        let (lp_token_info, p4) = r4.unwrap();
        if p4 != payload.len() {
            return Err(DecodeError);
        }
        Ok(VaultCreatedEvent { vault_address, vault_marker_address, coin_token_info, lp_token_info })
    }

    /// Maps the decoded event to its storage row; every field converts.
    pub fn try_map_to_db(&self, tx_digest: String, timestamp: i64) -> (r: Result<
        VaultCreatedRow,
        MappingError,
    >)
        ensures
            match r {
                Ok(row) => row@ == spec_map_vault_created(self@, tx_digest@, timestamp),
                Err(_) => false,
            },
    {
        Ok(
            VaultCreatedRow {
                transaction_hash: tx_digest,
                vault_address: hex_encode_prefixed(self.vault_address.as_slice()),
                vault_marker_address: hex_encode_prefixed(self.vault_marker_address.as_slice()),
                coin_token_info: self.coin_token_info.clone(),
                lp_token_info: self.lp_token_info.clone(),
                timestamp,
            },
        )
    }
}

/// A truncated payload never decodes: a payload the schema accepts has
/// no decodable strict prefix, so cutting it short (by one byte or more)
/// always fails outright and no partial record can arise.
pub proof fn lemma_decode_vault_created_prefix_free(b: Seq<u8>, k: int)
    requires
        0 <= k < b.len(),
        spec_decode_vault_created(b) is Some,
    ensures
        spec_decode_vault_created(b.take(k)) is None,
{
    let p = b.take(k);
    if spec_decode_vault_created(p) is Some {
        lemma_read_id32_extend(b, k, 0);
        let (v1, p1) = spec_read_id32(p, 0).unwrap();
        lemma_read_id32_extend(b, k, p1);
        let (v2, p2) = spec_read_id32(p, p1).unwrap();
        lemma_read_string_extend(b, k, p2);
        let (v3, p3) = spec_read_string(p, p2).unwrap();
        lemma_read_string_extend(b, k, p3);
        let (v4, p4) = spec_read_string(p, p3).unwrap();
        assert(spec_decode_vault_created(b) is None);
    }
}

} // verus!
