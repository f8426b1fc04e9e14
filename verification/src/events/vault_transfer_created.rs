//! The vault-transfer-created event: payload decode and mapping to its
//! storage row. Its identifiers carry a "0x" prefix to match the textual
//! convention of the external settlement service.
use vstd::prelude::*;

verus! {

use crate::MappingError;
use crate::codec::{spec_read_id32, spec_read_u64, read_id32, read_u64};
use crate::db::models::{VaultTransfer, VaultTransferV};
use crate::events::common::convert_sui_address_to_hex_string;
use crate::text::hex0x_of;
use crate::codec::{lemma_read_id32_extend, lemma_read_u64_extend};
use crate::DecodeError;

/// A decoded vault-transfer-created payload.
#[derive(Debug)]
pub struct VaultTransferCreatedEvent {
    pub transfer_id: Vec<u8>,
    pub vault_marker_id: Vec<u8>,
    pub vault_address: Vec<u8>,
    pub amount: u64,
    pub to_user_address: Vec<u8>,
}

pub struct VaultTransferCreatedEventV {
    pub transfer_id: Seq<u8>,
    pub vault_marker_id: Seq<u8>,
    pub vault_address: Seq<u8>,
    pub amount: u64,
    pub to_user_address: Seq<u8>,
}

impl View for VaultTransferCreatedEvent {
    type V = VaultTransferCreatedEventV;

    open spec fn view(&self) -> VaultTransferCreatedEventV {
        VaultTransferCreatedEventV {
            transfer_id: self.transfer_id@,
            vault_marker_id: self.vault_marker_id@,
            vault_address: self.vault_address@,
            amount: self.amount,
            to_user_address: self.to_user_address@,
        }
    }
}

/// The payload schema: transfer id, vault marker id, vault address, amount,
/// destination user address — and nothing after them.
pub open spec fn spec_decode_vault_transfer_created(b: Seq<u8>) -> Option<
    VaultTransferCreatedEventV,
> {
    match spec_read_id32(b, 0) {
        None => None,
        Some((transfer_id, p1)) => match spec_read_id32(b, p1) {
            None => None,
            Some((vault_marker_id, p2)) => match spec_read_id32(b, p2) {
                None => None,
                Some((vault_address, p3)) => match spec_read_u64(b, p3) {
                    None => None,
                    Some((amount, p4)) => match spec_read_id32(b, p4) {
                        None => None,
                        Some((to_user_address, p5)) => if p5 == b.len() {
                            Some(
                                VaultTransferCreatedEventV {
                                    transfer_id,
                                    vault_marker_id,
                                    vault_address,
                                    amount,
                                    to_user_address,
                                },
                            )
                        } else {
                            None
                        },
                    },
                },
            },
        },
    }
}

/// The storage row a vault-transfer-created event maps to: ids as
/// "0x"-prefixed hex and the advisory fulfilled flag initially false.
pub open spec fn spec_map_vault_transfer_created(
    e: VaultTransferCreatedEventV,
    tx: Seq<char>,
    t: i64,
) -> VaultTransferV {
    VaultTransferV {
        transaction_hash: tx,
        transfer_id: hex0x_of(e.transfer_id),
        vault_marker_id: hex0x_of(e.vault_marker_id),
        vault_address: hex0x_of(e.vault_address),
        amount: e.amount,
        to_user_address: hex0x_of(e.to_user_address),
        fulfilled: false,
        timestamp: t,
    }
}

impl VaultTransferCreatedEvent {
    /// Strict decode of a vault-transfer-created payload.
    pub fn decode(payload: &[u8]) -> (r: Result<VaultTransferCreatedEvent, DecodeError>)
        ensures
            match r {
                Ok(ev) => spec_decode_vault_transfer_created(payload@) == Some(ev@),
                Err(_) => spec_decode_vault_transfer_created(payload@) is None,
            },
    {
        let r1 = read_id32(payload, 0);
        if r1.is_none() {
            return Err(DecodeError);
        }
        let (transfer_id, p1) = r1.unwrap();
        let r2 = read_id32(payload, p1);
        if r2.is_none() {
            return Err(DecodeError);
        }
        let (vault_marker_id, p2) = r2.unwrap();
        let r3 = read_id32(payload, p2);
        if r3.is_none() {
            return Err(DecodeError);
        }
        let (vault_address, p3) = r3.unwrap();
        let r4 = read_u64(payload, p3);
        if r4.is_none() {
            return Err(DecodeError);
        }
        let (amount, p4) = r4.unwrap();
        let r5 = read_id32(payload, p4);
        if r5.is_none() {
            return Err(DecodeError);
        }
        let (to_user_address, p5) = r5.unwrap();
        if p5 != payload.len() {
            return Err(DecodeError);
        }
        Ok(
            VaultTransferCreatedEvent {
                transfer_id,
                vault_marker_id,
                vault_address,
                amount,
                to_user_address,
            },
        )
    }

    /// Maps the decoded event to its storage row; every field converts.
    pub fn try_map_to_db(&self, tx_digest: String, timestamp: i64) -> (r: Result<
        VaultTransfer,
        MappingError,
    >)
        ensures
            match r {
                Ok(row) => row@ == spec_map_vault_transfer_created(self@, tx_digest@, timestamp),
                Err(_) => false,
            },
    {
        Ok(
            VaultTransfer {
                transaction_hash: tx_digest,
                transfer_id: convert_sui_address_to_hex_string(&self.transfer_id),
                vault_marker_id: convert_sui_address_to_hex_string(&self.vault_marker_id),
                vault_address: convert_sui_address_to_hex_string(&self.vault_address),
                amount: self.amount,
                to_user_address: convert_sui_address_to_hex_string(&self.to_user_address),
                fulfilled: false,
                timestamp,
            },
        )
    }
}

/// A truncated payload never decodes: a payload the schema accepts has
/// no decodable strict prefix, so cutting it short (by one byte or more)
/// always fails outright and no partial record can arise.
pub proof fn lemma_decode_vault_transfer_created_prefix_free(b: Seq<u8>, k: int)
    requires
        0 <= k < b.len(),
        spec_decode_vault_transfer_created(b) is Some,
    ensures
        spec_decode_vault_transfer_created(b.take(k)) is None,
{
    let p = b.take(k);
    if spec_decode_vault_transfer_created(p) is Some {
        lemma_read_id32_extend(b, k, 0);
        let (v1, p1) = spec_read_id32(p, 0).unwrap();
        lemma_read_id32_extend(b, k, p1);
        let (v2, p2) = spec_read_id32(p, p1).unwrap();
        lemma_read_id32_extend(b, k, p2);
        let (v3, p3) = spec_read_id32(p, p2).unwrap();
        lemma_read_u64_extend(b, k, p3);
        let (v4, p4) = spec_read_u64(p, p3).unwrap();
        lemma_read_id32_extend(b, k, p4);
        let (v5, p5) = spec_read_id32(p, p4).unwrap();
        assert(spec_decode_vault_transfer_created(b) is None);
    }
}

} // verus!
