//! Textual encodings used on the storage and notification paths: lowercase
//! hexadecimal for 32-byte identifiers and decimal strings for amounts.
//! Identifiers must use the identical encoding on write and read paths, so
//! both directions are specified against the same spec functions.
use vstd::prelude::*;

verus! {

use vstd::string::StringExecFns;

/// The lowercase hexadecimal digit for a nibble.
pub open spec fn hex_digit_char(n: u8) -> char
    recommends
        n < 16,
{
    if n == 0 {
        '0'
    } else if n == 1 {
        '1'
    } else if n == 2 {
        '2'
    } else if n == 3 {
        '3'
    } else if n == 4 {
        '4'
    } else if n == 5 {
        '5'
    } else if n == 6 {
        '6'
    } else if n == 7 {
        '7'
    } else if n == 8 {
        '8'
    } else if n == 9 {
        '9'
    } else if n == 10 {
        'a'
    } else if n == 11 {
        'b'
    } else if n == 12 {
        'c'
    } else if n == 13 {
        'd'
    } else if n == 14 {
        'e'
    } else {
        'f'
    }
}

/// Lowercase hex encoding of a byte sequence: two digits per byte.
pub open spec fn hex_of(bytes: Seq<u8>) -> Seq<char>
    decreases bytes.len(),
{
    if bytes.len() == 0 {
        Seq::empty()
    } else {
        seq![hex_digit_char(bytes[0] / 16), hex_digit_char(bytes[0] % 16)] + hex_of(
            bytes.drop_first(),
        )
    }
}

/// Hex encoding with the textual "0x" prefix used by the position, vault and
/// transfer rows and by the settlement notifications.
pub open spec fn hex0x_of(bytes: Seq<u8>) -> Seq<char> {
    seq!['0', 'x'] + hex_of(bytes)
}

proof fn lemma_hex_of_push(bytes: Seq<u8>, b: u8)
    ensures
        hex_of(bytes.push(b)) == hex_of(bytes) + seq![
            hex_digit_char(b / 16),
            hex_digit_char(b % 16),
        ],
    decreases bytes.len(),
{
    let pair = seq![hex_digit_char(b / 16), hex_digit_char(b % 16)];
    if bytes.len() == 0 {
        assert(bytes.push(b)[0] == b);
        assert(bytes.push(b).drop_first() =~= Seq::<u8>::empty());
        assert(hex_of(Seq::<u8>::empty()) == Seq::<char>::empty());
        assert(hex_of(bytes.push(b)) =~= hex_of(bytes) + pair);
    } else {
        assert(bytes.push(b)[0] == bytes[0]);
        lemma_hex_of_push(bytes.drop_first(), b);
        assert(bytes.push(b).drop_first() =~= bytes.drop_first().push(b));
        assert(hex_of(bytes.push(b)) =~= hex_of(bytes) + pair);
    }
}

fn push_hex_digit(s: &mut String, n: u8)
    requires
        n < 16,
    ensures
        final(s)@ == old(s)@ + seq![hex_digit_char(n)],
{
    proof {
        reveal_strlit("0");
        reveal_strlit("1");
        reveal_strlit("2");
        reveal_strlit("3");
        reveal_strlit("4");
        reveal_strlit("5");
        reveal_strlit("6");
        reveal_strlit("7");
        reveal_strlit("8");
        reveal_strlit("9");
        reveal_strlit("a");
        reveal_strlit("b");
        reveal_strlit("c");
        reveal_strlit("d");
        reveal_strlit("e");
        reveal_strlit("f");
    }
    if n == 0 {
        s.append("0");
    } else if n == 1 {
        s.append("1");
    } else if n == 2 {
        s.append("2");
    } else if n == 3 {
        s.append("3");
    } else if n == 4 {
        s.append("4");
    } else if n == 5 {
        s.append("5");
    } else if n == 6 {
        s.append("6");
    } else if n == 7 {
        s.append("7");
    } else if n == 8 {
        s.append("8");
    } else if n == 9 {
        s.append("9");
    } else if n == 10 {
        s.append("a");
    } else if n == 11 {
        s.append("b");
    } else if n == 12 {
        s.append("c");
    } else if n == 13 {
        s.append("d");
    } else if n == 14 {
        s.append("e");
    } else {
        s.append("f");
    }
}

/// Lowercase hex encoding of a byte slice.
pub fn hex_encode(bytes: &[u8]) -> (r: String)
    ensures
        r@ == hex_of(bytes@),
{
    let mut s = String::new();
    let mut i: usize = 0;
    while i < bytes.len()
        invariant
            i <= bytes@.len(),
            s@ == hex_of(bytes@.take(i as int)),
        decreases bytes@.len() - i,
    {
        let b = bytes[i];
        push_hex_digit(&mut s, b / 16);
        push_hex_digit(&mut s, b % 16);
        proof {
            lemma_hex_of_push(bytes@.take(i as int), b);
            assert(bytes@.take(i + 1) =~= bytes@.take(i as int).push(b));
            assert(s@ =~= hex_of(bytes@.take(i + 1)));
        }
        i = i + 1;
    }
    proof {
        assert(bytes@.take(bytes@.len() as int) =~= bytes@);
    }
    s
}

/// Hex encoding with a "0x" prefix.
pub fn hex_encode_prefixed(bytes: &[u8]) -> (r: String)
    ensures
        r@ == hex0x_of(bytes@),
{
    proof {
        reveal_strlit("0x");
    }
    let mut s = String::from_str("0x");
    let rest = hex_encode(bytes);
    s.append(rest.as_str());
    proof {
        assert(s@ =~= hex0x_of(bytes@));
    }
    s
}

/// The decimal digit string of a number, most significant digit first.
pub open spec fn dec_str_of(n: nat) -> Seq<char>
    decreases n,
{
    if n < 10 {
        seq![hex_digit_char(n as u8)]
    } else {
        dec_str_of(n / 10).push(hex_digit_char((n % 10) as u8))
    }
}

/// The decimal string of an amount, as sent to the settlement service.
pub fn u64_to_dec_string(n: u64) -> (r: String)
    ensures
        r@ == dec_str_of(n as nat),
    decreases n,
{
    if n < 10 {
        let mut s = String::new();
        push_hex_digit(&mut s, n as u8);
        s
    } else {
        let mut s = u64_to_dec_string(n / 10);
        push_hex_digit(&mut s, (n % 10) as u8);
        s
    }
}

/// The value of a hexadecimal digit character, upper or lower case.
pub open spec fn hex_char_val(c: char) -> Option<u8> {
    if c == '0' {
        Some(0u8)
    } else if c == '1' {
        Some(1u8)
    } else if c == '2' {
        Some(2u8)
    } else if c == '3' {
        Some(3u8)
    } else if c == '4' {
        Some(4u8)
    } else if c == '5' {
        Some(5u8)
    } else if c == '6' {
        Some(6u8)
    } else if c == '7' {
        Some(7u8)
    } else if c == '8' {
        Some(8u8)
    } else if c == '9' {
        Some(9u8)
    } else if c == 'a' || c == 'A' {
        Some(10u8)
    } else if c == 'b' || c == 'B' {
        Some(11u8)
    } else if c == 'c' || c == 'C' {
        Some(12u8)
    } else if c == 'd' || c == 'D' {
        Some(13u8)
    } else if c == 'e' || c == 'E' {
        Some(14u8)
    } else if c == 'f' || c == 'F' {
        Some(15u8)
    } else {
        None
    }
}

/// Decoding of a hex string back to bytes: `None` on odd length or on any
/// non-hex character, else the byte sequence, two digits per byte.
pub open spec fn hex_decode_spec(s: Seq<char>) -> Option<Seq<u8>>
    decreases s.len(),
{
    if s.len() == 0 {
        Some(Seq::empty())
    } else if s.len() == 1 {
        None
    } else {
        match (hex_char_val(s[0]), hex_char_val(s[1])) {
            (Some(hi), Some(lo)) => match hex_decode_spec(s.subrange(2, s.len() as int)) {
                Some(rest) => Some(seq![(hi * 16 + lo) as u8] + rest),
                None => None,
            },
            _ => None,
        }
    }
}

fn hex_char_value(c: char) -> (r: Option<u8>)
    ensures
        r == hex_char_val(c),
{
    if c == '0' {
        Some(0u8)
    } else if c == '1' {
        Some(1u8)
    } else if c == '2' {
        Some(2u8)
    } else if c == '3' {
        Some(3u8)
    } else if c == '4' {
        Some(4u8)
    } else if c == '5' {
        Some(5u8)
    } else if c == '6' {
        Some(6u8)
    } else if c == '7' {
        Some(7u8)
    } else if c == '8' {
        Some(8u8)
    } else if c == '9' {
        Some(9u8)
    } else if c == 'a' || c == 'A' {
        Some(10u8)
    } else if c == 'b' || c == 'B' {
        Some(11u8)
    } else if c == 'c' || c == 'C' {
        Some(12u8)
    } else if c == 'd' || c == 'D' {
        Some(13u8)
    } else if c == 'e' || c == 'E' {
        Some(14u8)
    } else if c == 'f' || c == 'F' {
        Some(15u8)
    } else {
        None
    }
}

proof fn lemma_hex_decode_snoc(s: Seq<char>, hi: char, lo: char)
    requires
        s.len() % 2 == 0,
        hex_decode_spec(s) is Some,
        hex_char_val(hi) is Some,
        hex_char_val(lo) is Some,
    ensures
        hex_decode_spec(s + seq![hi, lo]) == Some(
            hex_decode_spec(s).unwrap().push(
                (hex_char_val(hi).unwrap() * 16 + hex_char_val(lo).unwrap()) as u8,
            ),
        ),
    decreases s.len(),
{
    let ext = s + seq![hi, lo];
    let b = (hex_char_val(hi).unwrap() * 16 + hex_char_val(lo).unwrap()) as u8;
    if s.len() == 0 {
        assert(ext.len() == 2);
        assert(ext[0] == hi && ext[1] == lo);
        assert(ext.subrange(2, 2) =~= Seq::<char>::empty());
        assert(hex_decode_spec(ext.subrange(2, 2)) == Some(Seq::<u8>::empty()));
        assert(hex_decode_spec(ext) == Some(seq![b] + Seq::<u8>::empty()));
        assert(seq![b] + Seq::<u8>::empty() =~= hex_decode_spec(s).unwrap().push(b));
    } else {
        assert(ext[0] == s[0] && ext[1] == s[1]);
        lemma_hex_decode_snoc(s.subrange(2, s.len() as int), hi, lo);
        assert(ext.subrange(2, ext.len() as int) =~= s.subrange(2, s.len() as int) + seq![hi, lo]);
        let hv0 = hex_char_val(s[0]).unwrap();
        let lv0 = hex_char_val(s[1]).unwrap();
        let b0 = (hv0 * 16 + lv0) as u8;
        let rest = hex_decode_spec(s.subrange(2, s.len() as int)).unwrap();
        assert(hex_decode_spec(s) == Some(seq![b0] + rest));
        assert(hex_decode_spec(ext) == Some(seq![b0] + rest.push(b)));
        assert(seq![b0] + rest.push(b) =~= (seq![b0] + rest).push(b));
    }
}

proof fn lemma_hex_decode_snoc_bad(s: Seq<char>, hi: char, lo: char)
    requires
        s.len() % 2 == 0,
        hex_decode_spec(s) is None || hex_char_val(hi) is None || hex_char_val(lo) is None,
    ensures
        hex_decode_spec(s + seq![hi, lo]) is None,
    decreases s.len(),
{
    let ext = s + seq![hi, lo];
    if s.len() == 0 {
        assert(ext[0] == hi && ext[1] == lo);
        assert(ext.subrange(2, 2) =~= Seq::<char>::empty());
    } else {
        assert(ext[0] == s[0] && ext[1] == s[1]);
        if hex_char_val(s[0]) is None || hex_char_val(s[1]) is None {
            assert(hex_decode_spec(ext) is None);
        } else {
            assert(hex_char_val(hi) is None || hex_char_val(lo) is None || hex_decode_spec(
                s.subrange(2, s.len() as int),
            ) is None);
            lemma_hex_decode_snoc_bad(s.subrange(2, s.len() as int), hi, lo);
            assert(ext.subrange(2, ext.len() as int) =~= s.subrange(2, s.len() as int) + seq![
                hi,
                lo,
            ]);
        }
    }
}

/// Decodes a lowercase or uppercase hex string into its bytes; fails on odd
/// length or on a non-hex character.
pub fn hex_decode(s: &String) -> (r: Option<Vec<u8>>)
    ensures
        match r {
            Some(v) => hex_decode_spec(s@) == Some(v@),
            None => hex_decode_spec(s@) is None,
        },
{
    let n = s.as_str().unicode_len();
    if n % 2 != 0 {
        proof {
            lemma_hex_decode_odd(s@);
        }
        return None;
    }
    let mut out: Vec<u8> = Vec::new();
    let mut i: usize = 0;
    while i < n
        invariant
            i <= n,
            i % 2 == 0,
            n % 2 == 0,
            n == s@.len(),
            hex_decode_spec(s@.take(i as int)) == Some(out@),
        decreases n - i,
    {
        let hi = s.as_str().get_char(i);
        let lo = s.as_str().get_char(i + 1);
        let hv = hex_char_value(hi);
        let lv = hex_char_value(lo);
        match (hv, lv) {
            (Some(h), Some(l)) => {
                out.push(h * 16 + l);
                proof {
                    lemma_hex_decode_snoc(s@.take(i as int), hi, lo);
                    assert(s@.take(i + 2) =~= s@.take(i as int) + seq![hi, lo]);
                }
                i = i + 2;
            },
            _ => {
                proof {
                    lemma_hex_decode_snoc_bad(s@.take(i as int), hi, lo);
                    assert(s@.take(i + 2) =~= s@.take(i as int) + seq![hi, lo]);
                    lemma_hex_decode_prefix_none(s@, (i + 2) as int);
                }
                return None;
            },
        }
    }
    proof {
        assert(s@.take(n as int) =~= s@);
    }
    Some(out)
}

proof fn lemma_hex_decode_odd(s: Seq<char>)
    requires
        s.len() % 2 == 1,
    ensures
        hex_decode_spec(s) is None,
    decreases s.len(),
{
    if s.len() > 1 {
        lemma_hex_decode_odd(s.subrange(2, s.len() as int));
    }
}

proof fn lemma_hex_decode_prefix_none(s: Seq<char>, i: int)
    requires
        0 <= i <= s.len(),
        i % 2 == 0,
        hex_decode_spec(s.take(i)) is None,
    ensures
        hex_decode_spec(s) is None,
    decreases i,
{
    if i >= 2 {
        let t = s.take(i);
        assert(t[0] == s[0] && t[1] == s[1]);
        if hex_char_val(s[0]) is Some && hex_char_val(s[1]) is Some {
            assert(t.subrange(2, i) =~= s.subrange(2, s.len() as int).take(i - 2));
            lemma_hex_decode_prefix_none(s.subrange(2, s.len() as int), i - 2);
        }
    }
}

} // verus!
