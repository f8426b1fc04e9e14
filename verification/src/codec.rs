//! Strict binary readers for the event payload format: little-endian
//! integers, ULEB128-encoded lengths and variant indices, fixed 32-byte
//! identifiers, length-prefixed byte strings and UTF-8 text. Malformed or
//! truncated input fails outright; no partial value is ever produced.
use vstd::prelude::*;

verus! {

use vstd::bytes::{spec_u16_from_le_bytes, spec_u64_from_le_bytes, u16_from_le_bytes,
    u64_from_le_bytes};
use vstd::slice::{slice_subrange, slice_to_vec};
use vstd::utf8::{valid_utf8, decode_utf8};

/// The longest sequence the payload format accepts.
pub const MAX_SEQUENCE_LENGTH: usize = 0x7fff_ffff;

pub open spec fn spec_read_u8(b: Seq<u8>, pos: int) -> Option<(u8, int)> {
    if 0 <= pos && pos + 1 <= b.len() {
        Some((b[pos], pos + 1))
    } else {
        None
    }
}

pub fn read_u8(b: &[u8], pos: usize) -> (r: Option<(u8, usize)>)
    ensures
        match r {
            Some((v, p)) => spec_read_u8(b@, pos as int) == Some((v, p as int)) && pos < p <= b@.len(),
            None => spec_read_u8(b@, pos as int) is None,
        },
{
    if pos < b.len() {
        Some((b[pos], pos + 1))
    } else {
        None
    }
}

pub open spec fn spec_read_u16(b: Seq<u8>, pos: int) -> Option<(u16, int)> {
    if 0 <= pos && pos + 2 <= b.len() {
        Some((spec_u16_from_le_bytes(b.subrange(pos, pos + 2)), pos + 2))
    } else {
        None
    }
}

pub fn read_u16(b: &[u8], pos: usize) -> (r: Option<(u16, usize)>)
    ensures
        match r {
            Some((v, p)) => spec_read_u16(b@, pos as int) == Some((v, p as int)) && pos < p
                <= b@.len(),
            None => spec_read_u16(b@, pos as int) is None,
        },
{
    if b.len() >= 2 && pos <= b.len() - 2 {
        let w = slice_subrange(b, pos, pos + 2);
        let v = u16_from_le_bytes(w);
        Some((v, pos + 2))
    } else {
        None
    }
}

pub open spec fn spec_read_u64(b: Seq<u8>, pos: int) -> Option<(u64, int)> {
    if 0 <= pos && pos + 8 <= b.len() {
        Some((spec_u64_from_le_bytes(b.subrange(pos, pos + 8)), pos + 8))
    } else {
        None
    }
}

pub fn read_u64(b: &[u8], pos: usize) -> (r: Option<(u64, usize)>)
    ensures
        match r {
            Some((v, p)) => spec_read_u64(b@, pos as int) == Some((v, p as int)) && pos < p
                <= b@.len(),
            None => spec_read_u64(b@, pos as int) is None,
        },
{
    if b.len() >= 8 && pos <= b.len() - 8 {
        let w = slice_subrange(b, pos, pos + 8);
        let v = u64_from_le_bytes(w);
        Some((v, pos + 8))
    } else {
        None
    }
}

/// A fixed 32-byte identifier (an address, marker or object id).
pub open spec fn spec_read_id32(b: Seq<u8>, pos: int) -> Option<(Seq<u8>, int)> {
    if 0 <= pos && pos + 32 <= b.len() {
        Some((b.subrange(pos, pos + 32), pos + 32))
    } else {
        None
    }
}

pub fn read_id32(b: &[u8], pos: usize) -> (r: Option<(Vec<u8>, usize)>)
    ensures
        match r {
            Some((v, p)) => spec_read_id32(b@, pos as int) == Some((v@, p as int)) && pos < p
                <= b@.len() && v@.len() == 32,
            None => spec_read_id32(b@, pos as int) is None,
        },
{
    if b.len() >= 32 && pos <= b.len() - 32 {
        let w = slice_subrange(b, pos, pos + 32);
        Some((slice_to_vec(w), pos + 32))
    } else {
        None
    }
}

/// A strict boolean: one byte that must be exactly 0 or 1.
pub open spec fn spec_read_bool(b: Seq<u8>, pos: int) -> Option<(bool, int)> {
    match spec_read_u8(b, pos) {
        Some((x, p)) => if x == 0 {
            Some((false, p))
        } else if x == 1 {
            Some((true, p))
        } else {
            None
        },
        None => None,
    }
}

pub fn read_bool(b: &[u8], pos: usize) -> (r: Option<(bool, usize)>)
    ensures
        match r {
            Some((v, p)) => spec_read_bool(b@, pos as int) == Some((v, p as int)) && pos < p
                <= b@.len(),
            None => spec_read_bool(b@, pos as int) is None,
        },
{
    match read_u8(b, pos) {
        Some((x, p)) => if x == 0 {
            Some((false, p))
        } else if x == 1 {
            Some((true, p))
        } else {
            None
        },
        None => None,
    }
}

/// One step of canonical ULEB128 decoding of a 32-bit value; `shift` walks
/// 0, 7, 14, 21, 28, and a fifth continuation overflows. A terminal zero
/// digit after the first byte is a non-canonical encoding and is rejected.
pub open spec fn spec_read_uleb128_step(b: Seq<u8>, pos: int, shift: nat, acc: u64) -> Option<
    (u32, int),
>
    decreases 38 - shift,
{
    if shift >= 32 {
        None
    } else if !(0 <= pos && pos < b.len()) {
        None
    } else {
        let byte = b[pos];
        let digit = (byte & 0x7f) as u64;
        let value = acc | (digit << shift);
        if byte & 0x80 == 0 {
            if shift > 0 && digit == 0 {
                None
            } else if value > u32::MAX as u64 {
                None
            } else {
                Some((value as u32, pos + 1))
            }
        } else {
            spec_read_uleb128_step(b, pos + 1, shift + 7, value)
        }
    }
}

pub open spec fn spec_read_uleb128(b: Seq<u8>, pos: int) -> Option<(u32, int)> {
    spec_read_uleb128_step(b, pos, 0, 0)
}

fn read_uleb128_step(b: &[u8], pos: usize, shift: u32, acc: u64) -> (r: Option<(u32, usize)>)
    requires
        shift <= 38,
    ensures
        match r {
            Some((v, p)) => spec_read_uleb128_step(b@, pos as int, shift as nat, acc) == Some(
                (v, p as int),
            ) && pos < p <= b@.len(),
            None => spec_read_uleb128_step(b@, pos as int, shift as nat, acc) is None,
        },
    decreases 38 - shift,
{
    if shift >= 32 {
        None
    } else if pos >= b.len() {
        None
    } else {
        let byte = b[pos];
        let digit = (byte & 0x7f) as u64;
        let value = acc | (digit << shift);
        if byte & 0x80 == 0 {
            if shift > 0 && digit == 0 {
                None
            } else if value > u32::MAX as u64 {
                None
            } else {
                Some((value as u32, pos + 1))
            }
        } else {
            read_uleb128_step(b, pos + 1, shift + 7, value)
        }
    }
}

/// Reads a canonical ULEB128-encoded 32-bit value.
pub fn read_uleb128(b: &[u8], pos: usize) -> (r: Option<(u32, usize)>)
    ensures
        match r {
            Some((v, p)) => spec_read_uleb128(b@, pos as int) == Some((v, p as int)) && pos < p
                <= b@.len(),
            None => spec_read_uleb128(b@, pos as int) is None,
        },
{
    read_uleb128_step(b, pos, 0, 0)
}

/// A length-prefixed byte string: a ULEB128 length no greater than the
/// sequence cap, followed by exactly that many bytes.
pub open spec fn spec_read_bytes(b: Seq<u8>, pos: int) -> Option<(Seq<u8>, int)> {
    match spec_read_uleb128(b, pos) {
        Some((len, p)) => if len as int <= MAX_SEQUENCE_LENGTH as int && p + len <= b.len() {
            Some((b.subrange(p, p + len), p + len))
        } else {
            None
        },
        None => None,
    }
}

pub fn read_bytes(b: &[u8], pos: usize) -> (r: Option<(Vec<u8>, usize)>)
    ensures
        match r {
            Some((v, p)) => spec_read_bytes(b@, pos as int) == Some((v@, p as int)) && pos < p + 1
                && p <= b@.len(),
            None => spec_read_bytes(b@, pos as int) is None,
        },
{
    match read_uleb128(b, pos) {
        Some((len, p)) => {
            let len_usize = len as usize;
            if len_usize <= MAX_SEQUENCE_LENGTH && len_usize <= b.len() - p {
                let w = slice_subrange(b, p, p + len_usize);
                Some((slice_to_vec(w), p + len_usize))
            } else {
                None
            }
        },
        None => None,
    }
}

/// A length-prefixed UTF-8 string; bytes that are not valid UTF-8 fail the
/// decode.
pub open spec fn spec_read_string(b: Seq<u8>, pos: int) -> Option<(Seq<char>, int)> {
    match spec_read_bytes(b, pos) {
        Some((bytes, p)) => if valid_utf8(bytes) {
            Some((decode_utf8(bytes), p))
        } else {
            None
        },
        None => None,
    }
}

/// Relies on String::from_utf8: it returns `Ok` exactly when the input is
/// valid UTF-8, and the returned string holds the characters that the input
/// bytes encode.
#[verifier::external_body]
fn bytes_to_string(v: Vec<u8>) -> (r: Option<String>)
    ensures
        r is Some <==> valid_utf8(v@),
        r is Some ==> r.unwrap()@ == decode_utf8(v@),
{
    match String::from_utf8(v) {
        Ok(s) => Some(s),
        Err(_) => None,
    }
}

pub fn read_string(b: &[u8], pos: usize) -> (r: Option<(String, usize)>)
    ensures
        match r {
            Some((v, p)) => spec_read_string(b@, pos as int) == Some((v@, p as int)) && pos < p + 1
                && p <= b@.len(),
            None => spec_read_string(b@, pos as int) is None,
        },
{
    match read_bytes(b, pos) {
        Some((bytes, p)) => match bytes_to_string(bytes) {
            Some(s) => Some((s, p)),
            None => None,
        },
        None => None,
    }
}

/// A read that succeeds on a prefix of the input succeeds with the same
/// value and end position on the input itself: every reader consumes
/// positions determined by the bytes it has already seen, so truncation
/// can only turn successes into failures, never alter one.
pub proof fn lemma_read_u8_extend(b: Seq<u8>, k: int, pos: int)
    requires
        0 <= k <= b.len(),
    ensures
        spec_read_u8(b.take(k), pos) is Some ==> spec_read_u8(b, pos) == spec_read_u8(
            b.take(k),
            pos,
        ),
{
    if spec_read_u8(b.take(k), pos) is Some {
        assert(b.take(k)[pos] == b[pos]);
    }
}

pub proof fn lemma_read_u16_extend(b: Seq<u8>, k: int, pos: int)
    requires
        0 <= k <= b.len(),
    ensures
        spec_read_u16(b.take(k), pos) is Some ==> spec_read_u16(b, pos) == spec_read_u16(
            b.take(k),
            pos,
        ),
{
    if spec_read_u16(b.take(k), pos) is Some {
        assert(b.take(k).subrange(pos, pos + 2) =~= b.subrange(pos, pos + 2));
    }
}

pub proof fn lemma_read_u64_extend(b: Seq<u8>, k: int, pos: int)
    requires
        0 <= k <= b.len(),
    ensures
        spec_read_u64(b.take(k), pos) is Some ==> spec_read_u64(b, pos) == spec_read_u64(
            b.take(k),
            pos,
        ),
{
    if spec_read_u64(b.take(k), pos) is Some {
        assert(b.take(k).subrange(pos, pos + 8) =~= b.subrange(pos, pos + 8));
    }
}

pub proof fn lemma_read_id32_extend(b: Seq<u8>, k: int, pos: int)
    requires
        0 <= k <= b.len(),
    ensures
        spec_read_id32(b.take(k), pos) is Some ==> spec_read_id32(b, pos) == spec_read_id32(
            b.take(k),
            pos,
        ),
{
    if spec_read_id32(b.take(k), pos) is Some {
        assert(b.take(k).subrange(pos, pos + 32) =~= b.subrange(pos, pos + 32));
    }
}

pub proof fn lemma_read_bool_extend(b: Seq<u8>, k: int, pos: int)
    requires
        0 <= k <= b.len(),
    ensures
        spec_read_bool(b.take(k), pos) is Some ==> spec_read_bool(b, pos) == spec_read_bool(
            b.take(k),
            pos,
        ),
{
    if spec_read_bool(b.take(k), pos) is Some {
        lemma_read_u8_extend(b, k, pos);
    }
}

proof fn lemma_read_uleb128_step_extend(b: Seq<u8>, k: int, pos: int, shift: nat, acc: u64)
    requires
        0 <= k <= b.len(),
        shift <= 38,
    ensures
        spec_read_uleb128_step(b.take(k), pos, shift, acc) is Some ==> spec_read_uleb128_step(
            b,
            pos,
            shift,
            acc,
        ) == spec_read_uleb128_step(b.take(k), pos, shift, acc),
    decreases 38 - shift,
{
    let p = b.take(k);
    if spec_read_uleb128_step(p, pos, shift, acc) is Some {
        assert(p[pos] == b[pos]);
        let byte = b[pos];
        if byte & 0x80 != 0 {
            lemma_read_uleb128_step_extend(
                b,
                k,
                pos + 1,
                shift + 7,
                acc | (((byte & 0x7f) as u64) << shift),
            );
        }
    }
}

proof fn lemma_read_uleb128_step_bounds(b: Seq<u8>, pos: int, shift: nat, acc: u64)
    requires
        shift <= 38,
    ensures
        spec_read_uleb128_step(b, pos, shift, acc) matches Some((v, q)) ==> pos < q <= b.len(),
    decreases 38 - shift,
{
    if 0 <= pos && pos < b.len() && shift < 32 {
        let byte = b[pos];
        if byte & 0x80 != 0 {
            lemma_read_uleb128_step_bounds(
                b,
                pos + 1,
                shift + 7,
                acc | (((byte & 0x7f) as u64) << shift),
            );
        }
    }
}

pub proof fn lemma_read_uleb128_extend(b: Seq<u8>, k: int, pos: int)
    requires
        0 <= k <= b.len(),
    ensures
        spec_read_uleb128(b.take(k), pos) is Some ==> spec_read_uleb128(b, pos)
            == spec_read_uleb128(b.take(k), pos),
{
    lemma_read_uleb128_step_extend(b, k, pos, 0, 0);
}

pub proof fn lemma_read_bytes_extend(b: Seq<u8>, k: int, pos: int)
    requires
        0 <= k <= b.len(),
    ensures
        spec_read_bytes(b.take(k), pos) is Some ==> spec_read_bytes(b, pos) == spec_read_bytes(
            b.take(k),
            pos,
        ),
{
    let p = b.take(k);
    if spec_read_bytes(p, pos) is Some {
        lemma_read_uleb128_extend(b, k, pos);
        lemma_read_uleb128_step_bounds(p, pos, 0, 0);
        let (len, q) = spec_read_uleb128(p, pos).unwrap();
        assert(0 <= q && q + len <= k);
        assert(p.subrange(q, q + len) =~= b.subrange(q, q + len));
    }
}

pub proof fn lemma_read_string_extend(b: Seq<u8>, k: int, pos: int)
    requires
        0 <= k <= b.len(),
    ensures
        spec_read_string(b.take(k), pos) is Some ==> spec_read_string(b, pos) == spec_read_string(
            b.take(k),
            pos,
        ),
{
    if spec_read_string(b.take(k), pos) is Some {
        lemma_read_bytes_extend(b, k, pos);
    }
}

} // verus!
