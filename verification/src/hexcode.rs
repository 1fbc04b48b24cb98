//! Hexadecimal encoding and decoding of byte strings, with a proved
//! round trip: decoding an encoded byte string gives the bytes back.
use vstd::prelude::*;

verus! {

/// Is `c` a hexadecimal digit (either case)?
pub open spec fn is_hex_digit(c: char) -> bool {
    ('0' <= c && c <= '9') || ('a' <= c && c <= 'f') || ('A' <= c && c <= 'F')
}

/// The numeric value of a hexadecimal digit.
pub open spec fn hex_val(c: char) -> u8 {
    if '0' <= c && c <= '9' {
        (c as u32 - '0' as u32) as u8
    } else if 'a' <= c && c <= 'f' {
        (c as u32 - 'a' as u32 + 10) as u8
    } else {
        (c as u32 - 'A' as u32 + 10) as u8
    }
}

/// The lowercase hexadecimal digit for a value below 16.
pub open spec fn hex_char(v: u8) -> char {
    if v == 0 { '0' }
    else if v == 1 { '1' }
    else if v == 2 { '2' }
    else if v == 3 { '3' }
    else if v == 4 { '4' }
    else if v == 5 { '5' }
    else if v == 6 { '6' }
    else if v == 7 { '7' }
    else if v == 8 { '8' }
    else if v == 9 { '9' }
    else if v == 10 { 'a' }
    else if v == 11 { 'b' }
    else if v == 12 { 'c' }
    else if v == 13 { 'd' }
    else if v == 14 { 'e' }
    else { 'f' }
}

/// Lowercase hexadecimal encoding: two digits per byte, high nibble first.
pub open spec fn hex_encode_spec(s: Seq<u8>) -> Seq<char> {
    Seq::new(s.len() * 2, |i: int| if i % 2 == 0 {
        hex_char((s[i / 2] / 16) as u8)
    } else {
        hex_char((s[i / 2] % 16) as u8)
    })
}

/// Does `t` consist of hexadecimal digits only?
pub open spec fn all_hex(t: Seq<char>) -> bool {
    forall|i: int| 0 <= i < t.len() ==> is_hex_digit(#[trigger] t[i])
}

/// The bytes an even-length string of hexadecimal digits stands for.
pub open spec fn hex_decode_spec(t: Seq<char>) -> Seq<u8> {
    Seq::new(t.len() / 2, |i: int| (hex_val(t[2 * i]) * 16 + hex_val(t[2 * i + 1])) as u8)
}

proof fn lemma_hex_char_val(v: u8)
    requires
        v < 16,
    ensures
        is_hex_digit(hex_char(v)),
        hex_val(hex_char(v)) == v,
        hex_char(v) != 'n',
{
}

/// Encoding produces hexadecimal digits only, and decoding the encoding of
/// a byte string gives the bytes back.
pub proof fn lemma_hex_round_trip(s: Seq<u8>)
    ensures
        hex_encode_spec(s).len() == s.len() * 2,
        all_hex(hex_encode_spec(s)),
        hex_decode_spec(hex_encode_spec(s)) == s,
{
    let t = hex_encode_spec(s);
    assert forall|i: int| 0 <= i < t.len() implies is_hex_digit(#[trigger] t[i]) by {
        if i % 2 == 0 {
            lemma_hex_char_val((s[i / 2] / 16) as u8);
        } else {
            lemma_hex_char_val((s[i / 2] % 16) as u8);
        }
    }
    assert forall|i: int| 0 <= i < s.len() implies hex_decode_spec(t)[i] == s[i] by {
        let b = s[i];
        assert(t[2 * i] == hex_char((b / 16) as u8));
        assert(t[2 * i + 1] == hex_char((b % 16) as u8));
        lemma_hex_char_val((b / 16) as u8);
        lemma_hex_char_val((b % 16) as u8);
        assert((b / 16) * 16 + (b % 16) == b) by (nonlinear_arith);
    }
    assert(hex_decode_spec(t) =~= s);
}

/// Exec test for a hexadecimal digit.
pub fn is_hex_digit_exec(c: char) -> (r: bool)
    ensures
        r == is_hex_digit(c),
{
    ('0' <= c && c <= '9') || ('a' <= c && c <= 'f') || ('A' <= c && c <= 'F')
}

/// Exec value of a hexadecimal digit.
pub fn hex_val_exec(c: char) -> (r: u8)
    requires
        is_hex_digit(c),
    ensures
        r == hex_val(c),
{
    let v: u32 = c as u32;
    if '0' <= c && c <= '9' {
        (v - 48) as u8
    } else if 'a' <= c && c <= 'f' {
        (v - 97 + 10) as u8
    } else {
        (v - 65 + 10) as u8
    }
}

/// Exec lowercase digit of a value below 16.
pub fn hex_char_exec(v: u8) -> (r: char)
    requires
        v < 16,
    ensures
        r == hex_char(v),
{
    if v == 0 { '0' }
    else if v == 1 { '1' }
    else if v == 2 { '2' }
    else if v == 3 { '3' }
    else if v == 4 { '4' }
    else if v == 5 { '5' }
    else if v == 6 { '6' }
    else if v == 7 { '7' }
    else if v == 8 { '8' }
    else if v == 9 { '9' }
    else if v == 10 { 'a' }
    else if v == 11 { 'b' }
    else if v == 12 { 'c' }
    else if v == 13 { 'd' }
    else if v == 14 { 'e' }
    else { 'f' }
}

/// Collects characters into a `String`.
///
/// Relies on `String`'s `FromIterator<char>`: collecting characters yields
/// the string of exactly those characters, in order.
#[verifier::external_body]
pub(crate) fn chars_to_string(chars: &Vec<char>) -> (r: String)
    ensures
        r@ == chars@,
{
    chars.iter().collect()
}

/// Encodes bytes as lowercase hexadecimal text.
pub fn to_hex(bytes: &Vec<u8>) -> (r: String)
    ensures
        r@ == hex_encode_spec(bytes@),
{
    let mut chars: Vec<char> = Vec::new();
    let mut i: usize = 0;
    while i < bytes.len()
        invariant
            i <= bytes@.len(),
            chars@ =~= hex_encode_spec(bytes@.take(i as int)),
        decreases bytes@.len() - i,
    {
        let b = bytes[i];
        chars.push(hex_char_exec(b / 16));
        chars.push(hex_char_exec(b % 16));
        i = i + 1;
        proof {
            assert(chars@ =~= hex_encode_spec(bytes@.take(i as int)));
        }
    }
    proof {
        assert(bytes@.take(bytes@.len() as int) =~= bytes@);
    }
    chars_to_string(&chars)
}

/// Decodes an even-length string of hexadecimal digits held as characters.
pub fn decode_hex_chars(chars: &Vec<char>) -> (r: Vec<u8>)
    requires
        all_hex(chars@),
        chars@.len() % 2 == 0,
    ensures
        r@ == hex_decode_spec(chars@),
{
    let mut bytes: Vec<u8> = Vec::new();
    let mut i: usize = 0;
    while i + 1 < chars.len()
        invariant
            all_hex(chars@),
            chars@.len() % 2 == 0,
            i % 2 == 0,
            i <= chars@.len(),
            bytes@ =~= hex_decode_spec(chars@.take(i as int)),
        decreases chars@.len() - i,
    {
        let hi = hex_val_exec(chars[i]);
        let lo = hex_val_exec(chars[i + 1]);
        bytes.push(hi * 16 + lo);
        i = i + 2;
        proof {
            assert(bytes@ =~= hex_decode_spec(chars@.take(i as int)));
        }
    }
    proof {
        assert(chars@.take(chars@.len() as int) =~= chars@);
    }
    bytes
}

} // verus!
