//! Account addresses: twenty bytes, written as forty hexadecimal digits after
//! `0x`.

use crate::error::AuthError;
use crate::hex_codec::{
    bytes_to_hex, encode_hex, hex_digit_value, hex_digit_value_of, hex_pair_value, hex_to_bytes,
    is_hex_digit, is_lower_hex_digit, lemma_hex_round_trip, without_hex_prefix,
};
use crate::text::{
    ascii_lower, chars_of, is_whitespace, lemma_trim_unchanged, to_ascii_lowercase, trim,
    trim_bounds,
};
use vstd::prelude::*;

verus! {

/// The lower-case text of an address: `0x` and the digits of its bytes. This
/// form is the key under which an account is stored.
pub open spec fn lower_address_text(bytes: Seq<u8>) -> Seq<char> {
    seq!['0', 'x'] + bytes_to_hex(bytes)
}

/// The address that a text in lower case stands for: forty digits, after `0x`
/// or without it.
pub open spec fn parse_lower_address(s: Seq<char>) -> Option<Seq<u8>> {
    let digits = without_hex_prefix(s);
    if digits.len() == 40 && (forall|i: int| 0 <= i < 40 ==> is_lower_hex_digit(#[trigger] digits[i])) {
        Some(hex_to_bytes(digits))
    } else {
        None
    }
}

/// The address that `raw` stands for. White space at either end and the case
/// of the letters do not count; anything but forty hexadecimal digits, with
/// or without `0x` before them, is no address.
pub open spec fn parse_address(raw: Seq<char>) -> Option<Seq<u8>> {
    parse_lower_address(to_ascii_lowercase(trim(raw)))
}

/// The EIP-55 text of an address, as `ethers::utils::to_checksum` writes it
/// without a chain id: the lower-case text with some letters raised, chosen by
/// a Keccak-256 hash of the digits.
pub uninterp spec fn checksum_address_text(bytes: Seq<u8>) -> Seq<char>;

/// An account address.
#[derive(Clone, Copy, Debug, Eq)]
pub struct DomainEthAddress(pub [u8; 20]);

impl View for DomainEthAddress {
    type V = Seq<u8>;

    open spec fn view(&self) -> Seq<u8> {
        self.0@
    }
}

impl PartialEq for DomainEthAddress {
    fn eq(&self, other: &Self) -> (same: bool) {
        let mut i: usize = 0;
        while i < 20
            invariant
                i <= 20,
                forall|j: int| 0 <= j < i ==> self.0@[j] == other.0@[j],
            decreases 20 - i,
        {
            if self.0[i] != other.0[i] {
                return false;
            }
            i += 1;
        }
        assert(self.0@ =~= other.0@);
        true
    }
}

impl vstd::std_specs::cmp::PartialEqSpecImpl for DomainEthAddress {
    open spec fn obeys_eq_spec() -> bool {
        true
    }

    open spec fn eq_spec(&self, other: &Self) -> bool {
        self@ == other@
    }
}

/// Lowering the case of a digit keeps its value, and a character is a digit
/// exactly if its lower-case form is a lower-case digit.
pub proof fn lemma_digit_ignores_case(c: char)
    ensures
        is_hex_digit(c) <==> is_lower_hex_digit(ascii_lower(c)),
        is_hex_digit(c) ==> hex_digit_value(ascii_lower(c)) == hex_digit_value(c),
        is_whitespace(c) <==> is_whitespace(ascii_lower(c)),
{
}

/// A text that differs from the lower-case text of an address only in the
/// case of its letters stands for that address.
pub proof fn lemma_parse_ignores_case(text: Seq<char>, bytes: Seq<u8>)
    requires
        bytes.len() == 20,
        to_ascii_lowercase(text) == lower_address_text(bytes),
    ensures
        parse_address(text) == Some(bytes),
{
    let lower = lower_address_text(bytes);
    let digits = bytes_to_hex(bytes);
    lemma_hex_round_trip(bytes);
    assert(digits.len() == 40);
    assert(lower.len() == 42);
    assert(to_ascii_lowercase(text).len() == text.len());
    assert(lower[0] == '0' && lower[1] == 'x');
    assert(lower[41] == digits[39]);
    assert(is_lower_hex_digit(digits[39]));
    assert(to_ascii_lowercase(text)[0] == ascii_lower(text[0]));
    assert(to_ascii_lowercase(text)[41] == ascii_lower(text[41]));
    lemma_digit_ignores_case(text[0]);
    lemma_digit_ignores_case(text[41]);
    assert(text.first() == text[0] && text.last() == text[41]);
    lemma_trim_unchanged(text);
    assert(without_hex_prefix(lower) =~= digits);
}

/// The lower-case text of an address stands for that address.
pub proof fn lemma_parse_lower_text(bytes: Seq<u8>)
    requires
        bytes.len() == 20,
    ensures
        parse_address(lower_address_text(bytes)) == Some(bytes),
{
    let lower = lower_address_text(bytes);
    let digits = bytes_to_hex(bytes);
    lemma_hex_round_trip(bytes);
    assert(lower.len() == 42);
    assert forall|i: int| 0 <= i < 42 implies ascii_lower(lower[i]) == lower[i] by {
        if i >= 2 {
            assert(lower[i] == digits[i - 2]);
            assert(is_lower_hex_digit(digits[i - 2]));
        }
    }
    assert(to_ascii_lowercase(lower) =~= lower);
    lemma_parse_ignores_case(lower, bytes);
}

/// Whatever text stands for an address, the address has twenty bytes, and
/// both its lower-case text and any change of case of that text stand for it
/// again.
pub proof fn lemma_address_round_trip(raw: Seq<char>, display: Seq<char>)
    requires
        parse_address(raw) is Some,
        to_ascii_lowercase(display) == lower_address_text(parse_address(raw)->0),
    ensures
        parse_address(raw)->0.len() == 20,
        parse_address(lower_address_text(parse_address(raw)->0)) == parse_address(raw),
        parse_address(display) == parse_address(raw),
{
    let bytes = parse_address(raw)->0;
    lemma_parse_lower_text(bytes);
    lemma_parse_ignores_case(display, bytes);
}

/// `ethers::utils::to_checksum`, called without a chain id. The result is the
/// EIP-55 text of the address; lowering its case gives the lower-case text,
/// since the function writes each digit of that text either as it is or in
/// upper case.
#[verifier::external_body]
fn checksum_text_of(bytes: &[u8; 20]) -> (text: String)
    ensures
        text@ == checksum_address_text(bytes@),
        to_ascii_lowercase(text@) == lower_address_text(bytes@),
{
    ethers::utils::to_checksum(&ethers::types::H160(*bytes), None)
}

impl DomainEthAddress {
    /// Reads an address from text. White space at either end and the case of
    /// the letters do not count.
    pub fn parse(raw: &str) -> (r: Result<DomainEthAddress, AuthError>)
        ensures
            r is Ok <==> parse_address(raw@) is Some,
            r matches Ok(address) ==> parse_address(raw@) == Some(address@),
            r matches Err(e) ==> e == AuthError::InvalidAddress,
    {
        let chars = chars_of(raw);
        let (from, to) = trim_bounds(&chars);
        let ghost lower = to_ascii_lowercase(trim(raw@));
        assert(lower.len() == to - from);
        assert forall|k: int| 0 <= k < to - from implies #[trigger] lower[k] == ascii_lower(
            chars@[from + k],
        ) by {
            assert(trim(raw@)[k] == chars@[from + k]);
        }
        let mut start: usize = from;
        if to - from >= 2 && chars[from] == '0' && (chars[from + 1] == 'x' || chars[from + 1]
            == 'X') {
            start = from + 2;
        }
        let ghost digits = without_hex_prefix(lower);
        proof {
            if to - from >= 2 {
                assert(lower[0] == ascii_lower(chars@[from + 0]));
                assert(lower[1] == ascii_lower(chars@[from + 1]));
            }
            assert(digits.len() == to - start);
            assert forall|k: int| 0 <= k < to - start implies #[trigger] digits[k] == ascii_lower(
                chars@[start + k],
            ) by {
                assert(digits[k] == lower[k + (start - from)]);
            }
        }
        if to - start != 40 {
            return Err(AuthError::InvalidAddress);
        }
        let mut bytes = [0u8; 20];
        let mut i: usize = 0;
        while i < 20
            invariant
                i <= 20,
                start + 40 == to <= chars@.len(),
                digits.len() == 40,
                digits == without_hex_prefix(to_ascii_lowercase(trim(raw@))),
                forall|k: int|
                    0 <= k < 40 ==> #[trigger] digits[k] == ascii_lower(chars@[start + k]),
                forall|k: int| 0 <= k < 2 * i ==> is_lower_hex_digit(#[trigger] digits[k]),
                forall|k: int| 0 <= k < i ==> #[trigger] bytes@[k] as int == hex_pair_value(digits, k),
            decreases 20 - i,
        {
            let high = hex_digit_value_of(chars[start + 2 * i]);
            let low = hex_digit_value_of(chars[start + 2 * i + 1]);
            proof {
                lemma_digit_ignores_case(chars@[start + 2 * i]);
                lemma_digit_ignores_case(chars@[start + 2 * i + 1]);
                assert(digits[2 * i as int] == ascii_lower(chars@[start + 2 * i]));
                assert(digits[2 * i + 1] == ascii_lower(chars@[start + (2 * i + 1)]));
            }
            match (high, low) {
                (Some(h), Some(l)) => {
                    bytes[i] = h * 16 + l;
                },
                _ => {
                    proof {
                        if high is None {
                            assert(!is_lower_hex_digit(digits[2 * i as int]));
                        } else {
                            assert(!is_lower_hex_digit(digits[2 * i + 1]));
                        }
                    }
                    return Err(AuthError::InvalidAddress);
                },
            }
            i += 1;
        }
        assert(bytes@ =~= hex_to_bytes(digits));
        Ok(DomainEthAddress(bytes))
    }

    /// The lower-case text of the address, `0x` and forty digits.
    pub fn to_string_full(&self) -> (text: String)
        ensures
            text@ == lower_address_text(self@),
    {
        let digits = encode_hex(self.0.as_slice());
        let mut text = String::new();
        text.push('0');
        text.push('x');
        text.append(digits.as_str());
        assert(text@ =~= lower_address_text(self@));
        text
    }

    /// The text of the address for display, in the mixed case of EIP-55. It
    /// reads back as the same address.
    pub fn to_display_string(&self) -> (text: String)
        ensures
            text@ == checksum_address_text(self@),
            to_ascii_lowercase(text@) == lower_address_text(self@),
            parse_address(text@) == Some(self@),
    {
        let text = checksum_text_of(&self.0);
        proof {
            lemma_parse_ignores_case(text@, self@);
        }
        text
    }
}

} // verus!
