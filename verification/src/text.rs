//! Characters and text: white space, ASCII case, decimal numbers.

use vstd::prelude::*;

verus! {

/// `String::push` appends one character to the end of the string.
pub assume_specification[ String::push ](s: &mut String, c: char)
    ensures
        final(s)@ == old(s)@.push(c),
;

/// `c` has the Unicode property White_Space.
pub open spec fn is_whitespace(c: char) -> bool {
    ||| ('\u{9}' <= c && c <= '\u{d}')
    ||| c == ' '
    ||| c == '\u{85}'
    ||| c == '\u{a0}'
    ||| c == '\u{1680}'
    ||| ('\u{2000}' <= c && c <= '\u{200a}')
    ||| c == '\u{2028}'
    ||| c == '\u{2029}'
    ||| c == '\u{202f}'
    ||| c == '\u{205f}'
    ||| c == '\u{3000}'
}

/// `s` without the white space it begins with.
pub open spec fn trim_start(s: Seq<char>) -> Seq<char>
    decreases s.len(),
{
    if s.len() > 0 && is_whitespace(s.first()) {
        trim_start(s.drop_first())
    } else {
        s
    }
}

/// `s` without the white space it ends with.
pub open spec fn trim_end(s: Seq<char>) -> Seq<char>
    decreases s.len(),
{
    if s.len() > 0 && is_whitespace(s.last()) {
        trim_end(s.drop_last())
    } else {
        s
    }
}

/// `s` without the white space at either end.
pub open spec fn trim(s: Seq<char>) -> Seq<char> {
    trim_end(trim_start(s))
}

/// `c`, or its lower-case form if it is one of `A` to `Z`.
pub open spec fn ascii_lower(c: char) -> char {
    if 'A' <= c && c <= 'Z' {
        (c as int + 32) as char
    } else {
        c
    }
}

/// `s` with each of `A` to `Z` replaced by its lower-case form.
pub open spec fn to_ascii_lowercase(s: Seq<char>) -> Seq<char> {
    Seq::new(s.len(), |i: int| ascii_lower(s[i]))
}

/// The character for a number from 0 to 9.
pub open spec fn decimal_digit(n: int) -> char {
    ('0' as int + n) as char
}

/// The decimal digits of `n`, without leading zeros.
pub open spec fn decimal_digits(n: nat) -> Seq<char>
    decreases n,
{
    if n < 10 {
        seq![decimal_digit(n as int)]
    } else {
        decimal_digits(n / 10).push(decimal_digit((n % 10) as int))
    }
}

/// The decimal text of `i`: its digits, after a minus sign if it is negative.
pub open spec fn decimal_text(i: int) -> Seq<char> {
    if i < 0 {
        seq!['-'] + decimal_digits((-i) as nat)
    } else {
        decimal_digits(i as nat)
    }
}

/// `c` is one of `0` to `9`.
pub open spec fn is_decimal_digit(c: char) -> bool {
    '0' <= c && c <= '9'
}

/// `s` holds decimal digits only.
pub open spec fn is_decimal_string(s: Seq<char>) -> bool {
    forall|i: int| 0 <= i < s.len() ==> is_decimal_digit(#[trigger] s[i])
}

/// The number that the decimal digits of `s` stand for; zero for no digits.
pub open spec fn decimal_value(s: Seq<char>) -> nat
    decreases s.len(),
{
    if s.len() == 0 {
        0
    } else {
        decimal_value(s.drop_last()) * 10 + (s.last() as int - '0' as int) as nat
    }
}

/// The digits written for a number are decimal digits and read back as that
/// number.
pub proof fn lemma_decimal_round_trip(n: nat)
    ensures
        is_decimal_string(decimal_digits(n)),
        decimal_value(decimal_digits(n)) == n,
    decreases n,
{
    let digits = decimal_digits(n);
    if n < 10 {
        assert(digits.drop_last() =~= Seq::<char>::empty());
        assert(decimal_value(digits.drop_last()) == 0);
    } else {
        lemma_decimal_round_trip(n / 10);
        assert(digits.drop_last() =~= decimal_digits(n / 10));
    }
}

/// The digits of `n` that stand before those already written: none once `n`
/// has reached zero.
pub open spec fn digits_left(n: nat) -> Seq<char> {
    if n == 0 {
        Seq::empty()
    } else {
        decimal_digits(n)
    }
}

/// Where white space ends at the front of `s`, the rest is what `trim_start`
/// leaves.
pub proof fn lemma_trim_start_skips(s: Seq<char>, lead: int)
    requires
        0 <= lead <= s.len(),
        forall|j: int| 0 <= j < lead ==> is_whitespace(#[trigger] s[j]),
        lead == s.len() || !is_whitespace(s[lead]),
    ensures
        trim_start(s) == s.skip(lead),
    decreases lead,
{
    if lead == 0 {
        assert(s.skip(0) =~= s);
    } else {
        assert(is_whitespace(s[0]));
        let rest = s.drop_first();
        assert forall|j: int| 0 <= j < lead - 1 implies is_whitespace(#[trigger] rest[j]) by {
            assert(rest[j] == s[j + 1]);
        }
        lemma_trim_start_skips(rest, lead - 1);
        assert(rest.skip(lead - 1) =~= s.skip(lead));
    }
}

/// Where white space begins at the back of `s`, what stands before it is what
/// `trim_end` leaves.
pub proof fn lemma_trim_end_takes(s: Seq<char>, keep: int)
    requires
        0 <= keep <= s.len(),
        forall|j: int| keep <= j < s.len() ==> is_whitespace(#[trigger] s[j]),
        keep == 0 || !is_whitespace(s[keep - 1]),
    ensures
        trim_end(s) == s.take(keep),
    decreases s.len() - keep,
{
    if keep == s.len() {
        assert(s.take(keep) =~= s);
    } else {
        assert(is_whitespace(s[s.len() - 1]));
        let rest = s.drop_last();
        lemma_trim_end_takes(rest, keep);
        assert(rest.take(keep) =~= s.take(keep));
    }
}

/// A text that neither begins nor ends with white space is its own trim.
pub proof fn lemma_trim_unchanged(s: Seq<char>)
    requires
        s.len() > 0 ==> !is_whitespace(s.first()) && !is_whitespace(s.last()),
    ensures
        trim(s) == s,
{
}

/// Whether `c` is white space.
pub fn is_whitespace_char(c: char) -> (b: bool)
    ensures
        b == is_whitespace(c),
{
    ('\u{9}' <= c && c <= '\u{d}') || c == ' ' || c == '\u{85}' || c == '\u{a0}' || c
        == '\u{1680}' || ('\u{2000}' <= c && c <= '\u{200a}') || c == '\u{2028}' || c == '\u{2029}'
        || c == '\u{202f}' || c == '\u{205f}' || c == '\u{3000}'
}

/// The lower-case form of `c` within ASCII.
pub fn ascii_lower_of(c: char) -> (lower: char)
    ensures
        lower == ascii_lower(c),
{
    if 'A' <= c && c <= 'Z' {
        ((c as u32 + 32) as u8) as char
    } else {
        c
    }
}

/// The characters of `s`, in order.
pub fn chars_of(s: &str) -> (chars: Vec<char>)
    ensures
        chars@ == s@,
{
    let mut chars: Vec<char> = Vec::new();
    for c in it: s.chars()
        invariant
            it.seq() == s@,
            chars@ == s@.take(it.index() as int),
    {
        chars.push(c);
    }
    chars
}

/// The bounds of `chars` without the white space at either end.
pub fn trim_bounds(chars: &Vec<char>) -> (bounds: (usize, usize))
    ensures
        bounds.0 <= bounds.1 <= chars@.len(),
        chars@.subrange(bounds.0 as int, bounds.1 as int) == trim(chars@),
{
    let len = chars.len();
    let mut from: usize = 0;
    while from < len && is_whitespace_char(chars[from])
        invariant
            from <= len == chars@.len(),
            forall|j: int| 0 <= j < from ==> is_whitespace(#[trigger] chars@[j]),
        decreases len - from,
    {
        from += 1;
    }
    let mut to: usize = len;
    while to > from && is_whitespace_char(chars[to - 1])
        invariant
            from <= to <= len == chars@.len(),
            forall|j: int| to <= j < len ==> is_whitespace(#[trigger] chars@[j]),
        decreases to,
    {
        to -= 1;
    }
    proof {
        let rest = chars@.skip(from as int);
        lemma_trim_start_skips(chars@, from as int);
        assert forall|j: int| to - from <= j < rest.len() implies is_whitespace(
            #[trigger] rest[j],
        ) by {
            assert(rest[j] == chars@[j + from]);
        }
        lemma_trim_end_takes(rest, to - from);
        assert(rest.take(to - from) =~= chars@.subrange(from as int, to as int));
    }
    (from, to)
}

/// The decimal digits of `n`.
pub fn format_u64(n: u64) -> (text: String)
    ensures
        text@ == decimal_digits(n as nat),
{
    let mut backwards: Vec<char> = Vec::new();
    backwards.push(((48 + n % 10) as u8) as char);
    let mut rest: u64 = n / 10;
    assert(decimal_digits(n as nat) =~= digits_left(rest as nat) + backwards@.reverse());
    while rest > 0
        invariant
            decimal_digits(n as nat) == digits_left(rest as nat) + backwards@.reverse(),
        decreases rest,
    {
        let ghost before = backwards@;
        let digit = ((48 + rest % 10) as u8) as char;
        backwards.push(digit);
        assert(backwards@.reverse() =~= seq![digit] + before.reverse());
        assert(digits_left(rest as nat) =~= digits_left((rest / 10) as nat) + seq![digit]);
        rest = rest / 10;
    }
    let mut text = String::new();
    let mut k: usize = backwards.len();
    while k > 0
        invariant
            k <= backwards@.len(),
            text@.len() == backwards@.len() - k,
            forall|j: int|
                0 <= j < text@.len() ==> #[trigger] text@[j] == backwards@[backwards@.len() - 1
                    - j],
        decreases k,
    {
        k -= 1;
        text.push(backwards[k]);
    }
    assert(text@ =~= backwards@.reverse());
    text
}

/// The decimal text of `i`.
pub fn format_i64(i: i64) -> (text: String)
    ensures
        text@ == decimal_text(i as int),
{
    if i >= 0 {
        format_u64(i as u64)
    } else {
        let magnitude: u64 = (-(i + 1)) as u64 + 1;
        let digits = format_u64(magnitude);
        let mut text = String::new();
        text.push('-');
        text.append(digits.as_str());
        assert(text@ =~= seq!['-'] + decimal_digits((-i) as nat));
        text
    }
}

} // verus!
