//! Items shared by the event kinds: the two payload enums, their textual
//! storage forms, and the hex convention for 32-byte chain addresses.
use vstd::prelude::*;

verus! {

use crate::codec::{spec_read_uleb128, lemma_read_uleb128_extend, read_uleb128};
use crate::text::{hex0x_of, hex_encode_prefixed};
use vstd::string::StringExecFns;

/// The side of a position.
#[derive(Debug, Clone, Copy, PartialEq, Eq, Structural)]
pub enum PositionType {
    Long,
    Short,
}

/// The receiving side of a close-transfer.
#[derive(Debug, Clone, Copy, PartialEq, Eq, Structural)]
pub enum TransferTo {
    Vault,
    User,
}

/// The textual storage form of a position side.
pub open spec fn spec_position_type_str(pt: PositionType) -> Seq<char> {
    match pt {
        PositionType::Long => "Long"@,
        PositionType::Short => "Short"@,
    }
}

pub fn position_type_to_string(pt: PositionType) -> (r: String)
    ensures
        r@ == spec_position_type_str(pt),
{
    match pt {
        PositionType::Long => String::from_str("Long"),
        PositionType::Short => String::from_str("Short"),
    }
}

/// The textual storage form of a transfer destination.
pub open spec fn spec_transfer_to_str(tt: TransferTo) -> Seq<char> {
    match tt {
        TransferTo::Vault => "Vault"@,
        TransferTo::User => "User"@,
    }
}

pub fn transfer_to_string(tt: TransferTo) -> (r: String)
    ensures
        r@ == spec_transfer_to_str(tt),
{
    match tt {
        TransferTo::Vault => String::from_str("Vault"),
        TransferTo::User => String::from_str("User"),
    }
}

/// The textual form of a 32-byte chain address: lowercase hex with a "0x"
/// prefix, identical on the write and read paths.
pub fn convert_sui_address_to_hex_string(address: &Vec<u8>) -> (r: String)
    ensures
        r@ == hex0x_of(address@),
{
    hex_encode_prefixed(address.as_slice())
}

/// A position-side variant index: 0 is long, 1 is short.
pub open spec fn spec_read_position_type(b: Seq<u8>, pos: int) -> Option<(PositionType, int)> {
    match spec_read_uleb128(b, pos) {
        Some((v, p)) => if v == 0 {
            Some((PositionType::Long, p))
        } else if v == 1 {
            Some((PositionType::Short, p))
        } else {
            None
        },
        None => None,
    }
}

pub fn read_position_type(b: &[u8], pos: usize) -> (r: Option<(PositionType, usize)>)
    ensures
        match r {
            Some((v, p)) => spec_read_position_type(b@, pos as int) == Some((v, p as int)) && pos
                < p <= b@.len(),
            None => spec_read_position_type(b@, pos as int) is None,
        },
{
    match read_uleb128(b, pos) {
        Some((v, p)) => if v == 0 {
            Some((PositionType::Long, p))
        } else if v == 1 {
            Some((PositionType::Short, p))
        } else {
            None
        },
        None => None,
    }
}

/// A transfer-destination variant index: 0 is the vault, 1 is the user.
pub open spec fn spec_read_transfer_to(b: Seq<u8>, pos: int) -> Option<(TransferTo, int)> {
    match spec_read_uleb128(b, pos) {
        Some((v, p)) => if v == 0 {
            Some((TransferTo::Vault, p))
        } else if v == 1 {
            Some((TransferTo::User, p))
        } else {
            None
        },
        None => None,
    }
}

pub fn read_transfer_to(b: &[u8], pos: usize) -> (r: Option<(TransferTo, usize)>)
    ensures
        match r {
            Some((v, p)) => spec_read_transfer_to(b@, pos as int) == Some((v, p as int)) && pos < p
                <= b@.len(),
            None => spec_read_transfer_to(b@, pos as int) is None,
        },
{
    match read_uleb128(b, pos) {
        Some((v, p)) => if v == 0 {
            Some((TransferTo::Vault, p))
        } else if v == 1 {
            Some((TransferTo::User, p))
        } else {
            None
        },
        None => None,
    }
}

/// A variant index read that succeeds on a prefix succeeds identically on
/// the whole payload.
pub proof fn lemma_read_position_type_extend(b: Seq<u8>, k: int, pos: int)
    requires
        0 <= k <= b.len(),
    ensures
        spec_read_position_type(b.take(k), pos) is Some ==> spec_read_position_type(b, pos)
            == spec_read_position_type(b.take(k), pos),
{
    if spec_read_position_type(b.take(k), pos) is Some {
        lemma_read_uleb128_extend(b, k, pos);
    }
}

pub proof fn lemma_read_transfer_to_extend(b: Seq<u8>, k: int, pos: int)
    requires
        0 <= k <= b.len(),
    ensures
        spec_read_transfer_to(b.take(k), pos) is Some ==> spec_read_transfer_to(b, pos)
            == spec_read_transfer_to(b.take(k), pos),
{
    if spec_read_transfer_to(b.take(k), pos) is Some {
        lemma_read_uleb128_extend(b, k, pos);
    }
}

} // verus!
