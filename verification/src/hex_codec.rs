//! Hexadecimal text: two digits per byte, most significant digit first.

use vstd::prelude::*;

verus! {

/// `c` is a decimal digit or one of `a` to `f`.
pub open spec fn is_lower_hex_digit(c: char) -> bool {
    ('0' <= c && c <= '9') || ('a' <= c && c <= 'f')
}

/// `c` is a hexadecimal digit in either case.
pub open spec fn is_hex_digit(c: char) -> bool {
    is_lower_hex_digit(c) || ('A' <= c && c <= 'F')
}

/// The number from 0 to 15 that the hexadecimal digit `c` stands for.
pub open spec fn hex_digit_value(c: char) -> int {
    if '0' <= c && c <= '9' {
        c as int - '0' as int
    } else if 'a' <= c && c <= 'f' {
        c as int - 'a' as int + 10
    } else {
        c as int - 'A' as int + 10
    }
}

/// The lower-case digit for a number from 0 to 15.
pub open spec fn lower_hex_digit(n: int) -> char {
    if n < 10 {
        ('0' as int + n) as char
    } else {
        ('a' as int + (n - 10)) as char
    }
}

/// `s` is an even number of hexadecimal digits.
pub open spec fn is_hex_string(s: Seq<char>) -> bool {
    &&& s.len() % 2 == 0
    &&& forall|i: int| 0 <= i < s.len() ==> is_hex_digit(#[trigger] s[i])
}

/// `s` without the `0x` it may begin with.
pub open spec fn without_hex_prefix(s: Seq<char>) -> Seq<char> {
    if s.len() >= 2 && s[0] == '0' && s[1] == 'x' {
        s.skip(2)
    } else {
        s
    }
}

/// The byte that the digit pair at position `i` of `s` stands for.
pub open spec fn hex_pair_value(s: Seq<char>, i: int) -> int {
    16 * hex_digit_value(s[2 * i]) + hex_digit_value(s[2 * i + 1])
}

/// The bytes that the digits of `s` stand for, pair by pair.
pub open spec fn hex_to_bytes(s: Seq<char>) -> Seq<u8> {
    Seq::new(s.len() / 2, |i: int| hex_pair_value(s, i) as u8)
}

/// The number that the digit at position `i` of the text for `bytes` shows:
/// the high half of a byte at even positions, the low half at odd ones.
pub open spec fn nibble_at(bytes: Seq<u8>, i: int) -> int {
    if i % 2 == 0 {
        bytes[i / 2] as int / 16
    } else {
        bytes[i / 2] as int % 16
    }
}

/// The lower-case hexadecimal text of `bytes`.
pub open spec fn bytes_to_hex(bytes: Seq<u8>) -> Seq<char> {
    Seq::new(2 * bytes.len(), |i: int| lower_hex_digit(nibble_at(bytes, i)))
}

/// Reading a digit gives back the number it was written for.
pub proof fn lemma_digit_round_trip(n: int)
    requires
        0 <= n < 16,
    ensures
        is_lower_hex_digit(lower_hex_digit(n)),
        hex_digit_value(lower_hex_digit(n)) == n,
{
}

/// The text written for `bytes` is lower-case hexadecimal and reads back as
/// `bytes`.
pub proof fn lemma_hex_round_trip(bytes: Seq<u8>)
    ensures
        bytes_to_hex(bytes).len() == 2 * bytes.len(),
        forall|i: int|
            0 <= i < 2 * bytes.len() ==> is_lower_hex_digit(#[trigger] bytes_to_hex(bytes)[i]),
        is_hex_string(bytes_to_hex(bytes)),
        hex_to_bytes(bytes_to_hex(bytes)) == bytes,
{
    let text = bytes_to_hex(bytes);
    assert forall|i: int| 0 <= i < text.len() implies is_lower_hex_digit(#[trigger] text[i]) by {
        lemma_digit_round_trip(nibble_at(bytes, i));
    }
    assert forall|k: int| 0 <= k < bytes.len() implies hex_to_bytes(text)[k] == bytes[k] by {
        lemma_digit_round_trip(nibble_at(bytes, 2 * k));
        lemma_digit_round_trip(nibble_at(bytes, 2 * k + 1));
        assert(text[2 * k] == lower_hex_digit(nibble_at(bytes, 2 * k)));
        assert(text[2 * k + 1] == lower_hex_digit(nibble_at(bytes, 2 * k + 1)));
        assert(hex_pair_value(text, k) == bytes[k] as int);
    }
    assert(hex_to_bytes(text) =~= bytes);
}

/// The lower-case digit for `n`.
pub fn lower_hex_digit_of(n: u8) -> (c: char)
    requires
        n < 16,
    ensures
        c == lower_hex_digit(n as int),
{
    if n < 10 {
        (48u8 + n) as char
    } else {
        (87u8 + n) as char
    }
}

/// The value of `c` if it is a hexadecimal digit.
pub fn hex_digit_value_of(c: char) -> (r: Option<u8>)
    ensures
        r is Some <==> is_hex_digit(c),
        r is Some ==> r->0 as int == hex_digit_value(c),
{
    let code: u32 = c as u32;
    if '0' <= c && c <= '9' {
        Some((code - 48) as u8)
    } else if 'a' <= c && c <= 'f' {
        Some((code - 87) as u8)
    } else if 'A' <= c && c <= 'F' {
        Some((code - 55) as u8)
    } else {
        None
    }
}

/// The lower-case hexadecimal text of `bytes`.
pub fn encode_hex(bytes: &[u8]) -> (text: String)
    ensures
        text@ == bytes_to_hex(bytes@),
{
    let mut text = String::new();
    let mut i: usize = 0;
    while i < bytes.len()
        invariant
            i <= bytes.len(),
            text@.len() == 2 * i,
            forall|j: int|
                0 <= j < 2 * i ==> #[trigger] text@[j] == lower_hex_digit(nibble_at(bytes@, j)),
        decreases bytes.len() - i,
    {
        let byte = bytes[i];
        text.push(lower_hex_digit_of(byte / 16));
        text.push(lower_hex_digit_of(byte % 16));
        i += 1;
    }
    assert(text@ =~= bytes_to_hex(bytes@));
    text
}

} // verus!
