//! Unsigned numbers of 256 bits, written in decimal.

use crate::text::{decimal_digits, decimal_value, is_decimal_string, lemma_decimal_round_trip};
use ethers::abi::ethereum_types::FromDecStrErr;
use ethers::types::U256;
use vstd::prelude::*;

verus! {

/// The error that `U256::from_dec_str` returns.
#[verifier::external_type_specification]
#[verifier::external_body]
pub struct ExFromDecStrErr(FromDecStrErr);

/// The number of values of a word of 64 bits: two to the power of 64.
pub open spec fn word_base() -> nat {
    0x1_0000_0000_0000_0000nat
}

/// The first number that 256 bits cannot hold: two to the power of 256.
pub open spec fn uint256_limit() -> nat {
    0x1_0000_0000_0000_0000_0000_0000_0000_0000_0000_0000_0000_0000_0000_0000_0000_0000nat
}

/// The number held in four words of 64 bits, the least significant first:
/// the words are weighed by two to the power of 0, 64, 128 and 192.
pub open spec fn words_value(words: Seq<u64>) -> nat {
    (words[0] as nat) + (words[1] as nat) * 0x1_0000_0000_0000_0000nat + (words[2] as nat)
        * 0x1_0000_0000_0000_0000_0000_0000_0000_0000nat + (words[3] as nat)
        * 0x1_0000_0000_0000_0000_0000_0000_0000_0000_0000_0000_0000_0000nat
}

/// `s` is the decimal text of a number that 256 bits can hold: decimal digits
/// only, leading zeros allowed, and no digits at all for zero.
pub open spec fn is_uint256_decimal(s: Seq<char>) -> bool {
    is_decimal_string(s) && decimal_value(s) < uint256_limit()
}

/// Why a value is no unsigned number of 256 bits.
#[derive(Clone, Copy, Debug, PartialEq, Eq, Structural)]
pub enum Uint256Error {
    /// The text holds something other than decimal digits, or its number
    /// needs more than 256 bits.
    InvalidDecimal,
    /// The number is below zero.
    Negative,
}

/// An unsigned number of 256 bits, as four words of 64 bits with the least
/// significant first.
#[derive(Clone, Copy, Debug, Eq)]
pub struct DomainUint256(pub [u64; 4]);

impl View for DomainUint256 {
    type V = nat;

    open spec fn view(&self) -> nat {
        words_value(self.0@)
    }
}

impl PartialEq for DomainUint256 {
    fn eq(&self, other: &Self) -> (same: bool) {
        let same = self.0[0] == other.0[0] && self.0[1] == other.0[1] && self.0[2] == other.0[2]
            && self.0[3] == other.0[3];
        assert(same == (self.0@ =~= other.0@));
        same
    }
}

impl vstd::std_specs::cmp::PartialEqSpecImpl for DomainUint256 {
    open spec fn obeys_eq_spec() -> bool {
        true
    }

    open spec fn eq_spec(&self, other: &Self) -> bool {
        self.0@ == other.0@
    }
}

/// The weights and the limit are what their docs say. A word holds the
/// numbers below `word_base`; each word weighs `word_base` times as much as
/// the one before it; the limit is the fourth power of `word_base`, which is
/// two to the power of 256 written out in decimal, and it is one more than the
/// number held in four words that are all as large as a word can be.
pub proof fn lemma_uint256_limit_is_exact()
    ensures
        word_base() == u64::MAX as nat + 1,
        words_value(seq![1u64, 0u64, 0u64, 0u64]) == 1,
        words_value(seq![0u64, 1u64, 0u64, 0u64]) == word_base(),
        words_value(seq![0u64, 0u64, 1u64, 0u64]) == word_base() * word_base(),
        words_value(seq![0u64, 0u64, 0u64, 1u64]) == word_base() * word_base() * word_base(),
        uint256_limit() == word_base() * word_base() * word_base() * word_base(),
        uint256_limit()
            == 115792089237316195423570985008687907853269984665640564039457584007913129639936nat,
        uint256_limit() == words_value(seq![u64::MAX, u64::MAX, u64::MAX, u64::MAX]) + 1,
{
}

/// Four words hold a number below two to the power of 256, and the decimal
/// text written for it reads back as the same number.
pub proof fn lemma_uint256_text_round_trip(words: Seq<u64>)
    requires
        words.len() == 4,
    ensures
        words_value(words) < uint256_limit(),
        is_uint256_decimal(decimal_digits(words_value(words))),
        decimal_value(decimal_digits(words_value(words))) == words_value(words),
{
    lemma_decimal_round_trip(words_value(words));
}

/// `U256::from_dec_str`. It reads the bytes from the left, fails on the first
/// that is no decimal digit or that takes the number past 256 bits, and so
/// succeeds exactly on digits whose number fits; no digits give zero.
#[verifier::external_body]
fn words_from_dec_str(value: &str) -> (r: Result<[u64; 4], FromDecStrErr>)
    ensures
        r is Ok <==> is_uint256_decimal(value@),
        r matches Ok(words) ==> words_value(words@) == decimal_value(value@),
{
    U256::from_dec_str(value).map(|number| number.0)
}

/// `to_string` on a `U256`, which writes the number in decimal without
/// leading zeros, and `0` for zero.
#[verifier::external_body]
fn words_to_dec_string(words: &[u64; 4]) -> (text: String)
    ensures
        text@ == decimal_digits(words_value(words@)),
{
    U256(*words).to_string()
}

impl DomainUint256 {
    /// The number that the decimal digits of `value` stand for.
    pub fn from_dec_str(value: &str) -> (r: Result<DomainUint256, Uint256Error>)
        ensures
            r is Ok <==> is_uint256_decimal(value@),
            r matches Ok(number) ==> number@ == decimal_value(value@),
            r matches Err(e) ==> e == Uint256Error::InvalidDecimal,
    {
        match words_from_dec_str(value) {
            Ok(words) => Ok(DomainUint256(words)),
            Err(_) => Err(Uint256Error::InvalidDecimal),
        }
    }

    /// The number `value`.
    pub fn from_u64(value: u64) -> (number: DomainUint256)
        ensures
            number@ == value as nat,
    {
        DomainUint256([value, 0, 0, 0])
    }

    /// The number `value`, unless it is below zero.
    pub fn from_i64(value: i64) -> (r: Result<DomainUint256, Uint256Error>)
        ensures
            match r {
                Ok(number) => value >= 0 && number@ == value as nat,
                Err(e) => value < 0 && e == Uint256Error::Negative,
            },
    {
        if value < 0 {
            Err(Uint256Error::Negative)
        } else {
            Ok(Self::from_u64(value as u64))
        }
    }

    /// The number in decimal, without leading zeros.
    pub fn to_dec_string(&self) -> (text: String)
        ensures
            text@ == decimal_digits(self@),
            is_uint256_decimal(text@),
            decimal_value(text@) == self@,
    {
        proof {
            lemma_uint256_text_round_trip(self.0@);
        }
        words_to_dec_string(&self.0)
    }
}

} // verus!
