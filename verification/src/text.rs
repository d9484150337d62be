//! Text: the few operations on strings that the rest of the crate needs, with contracts over
//! the characters of the text.
use vstd::prelude::*;

verus! {

/// Whether `pattern` occurs in `text` as a run of consecutive characters.
pub open spec fn occurs_in(pattern: Seq<char>, text: Seq<char>) -> bool {
    exists|at: int|
        0 <= at && at + pattern.len() <= text.len() && #[trigger] text.subrange(
            at,
            at + pattern.len(),
        ) == pattern
}

/// The characters with the Unicode property `White_Space`.
pub open spec fn is_white_space(c: char) -> bool {
    ||| '\u{9}' <= c <= '\u{d}'
    ||| c == ' '
    ||| c == '\u{85}'
    ||| c == '\u{a0}'
    ||| c == '\u{1680}'
    ||| '\u{2000}' <= c <= '\u{200a}'
    ||| c == '\u{2028}'
    ||| c == '\u{2029}'
    ||| c == '\u{202f}'
    ||| c == '\u{205f}'
    ||| c == '\u{3000}'
}

/// Whether every character of `text` is white space.
pub open spec fn is_blank(text: Seq<char>) -> bool {
    forall|i: int| 0 <= i < text.len() ==> is_white_space(#[trigger] text[i])
}

/// `text` without the white space that it starts with.
pub open spec fn trimmed_start(text: Seq<char>) -> Seq<char>
    decreases text.len(),
{
    if text.len() > 0 && is_white_space(text.first()) {
        trimmed_start(text.drop_first())
    } else {
        text
    }
}

/// `text` without the white space that it ends with.
pub open spec fn trimmed_end(text: Seq<char>) -> Seq<char>
    decreases text.len(),
{
    if text.len() > 0 && is_white_space(text.last()) {
        trimmed_end(text.drop_last())
    } else {
        text
    }
}

/// `text` without the white space at both ends.
pub open spec fn trimmed(text: Seq<char>) -> Seq<char> {
    trimmed_end(trimmed_start(text))
}

pub open spec fn is_decimal_digit(c: char) -> bool {
    '0' <= c <= '9'
}

/// The number that a run of decimal digits denotes.
pub open spec fn decimal_value(digits: Seq<char>) -> nat
    decreases digits.len(),
{
    if digits.len() == 0 {
        0
    } else {
        decimal_value(digits.drop_last()) * 10 + (digits.last() as nat - '0' as nat) as nat
    }
}

/// Whether `text` is a run of decimal digits, at least one.
pub open spec fn is_decimal(text: Seq<char>) -> bool {
    text.len() > 0 && forall|i: int| 0 <= i < text.len() ==> is_decimal_digit(#[trigger] text[i])
}

/// The number that `text` denotes as an unsigned decimal integer: digits only, at least one,
/// with an optional plus sign in front.
pub open spec fn unsigned_value(text: Seq<char>) -> Option<nat> {
    let digits = if text.len() > 0 && text.first() == '+' {
        text.drop_first()
    } else {
        text
    };
    if is_decimal(digits) {
        Some(decimal_value(digits))
    } else {
        None
    }
}

pub open spec fn ascii_lower(c: char) -> char {
    if 'A' <= c <= 'Z' {
        (c as u8 + 32) as char
    } else {
        c
    }
}

/// The lowercase equivalent of a text, as `str::to_lowercase` computes it from the Unicode
/// tables.
pub uninterp spec fn lowercased(text: Seq<char>) -> Seq<char>;

/// The error of the integer parsers of std, which is only ever handed on.
#[verifier::external_type_specification]
#[verifier::external_body]
pub struct ExParseIntError(std::num::ParseIntError);

/// `str::contains` with a string as the pattern: whether the pattern is a part of the text.
#[verifier::external_body]
pub(crate) fn contains_text(text: &str, pattern: &str) -> (found: bool)
    ensures
        found == occurs_in(pattern@, text@),
{
    text.contains(pattern)
}

/// `str::trim`: the text without the white space it starts and ends with.
#[verifier::external_body]
pub(crate) fn trim_text(text: &str) -> (part: &str)
    ensures
        part@ == trimmed(text@),
{
    text.trim()
}

/// `str::to_lowercase`: the result depends on the text alone. Of a text that is all ASCII it is
/// the text with `A` to `Z` replaced by `a` to `z`.
#[verifier::external_body]
pub(crate) fn lowercase_text(text: &str) -> (lower: String)
    ensures
        lower@ == lowercased(text@),
        text.is_ascii() ==> lower@ == text@.map_values(|c: char| ascii_lower(c)),
{
    text.to_lowercase()
}

/// `str::parse::<u64>`: accepts an optional plus sign followed by decimal digits whose number
/// fits in 64 bits, and nothing else.
#[verifier::external_body]
pub(crate) fn parse_u64(text: &str) -> (parsed: Result<u64, std::num::ParseIntError>)
    ensures
        match parsed {
            Ok(value) => unsigned_value(text@) == Some(value as nat),
            Err(_) => unsigned_value(text@) is None || unsigned_value(text@)->0 > u64::MAX,
        },
{
    text.parse::<u64>()
}

/// `str::parse::<u32>`: accepts an optional plus sign followed by decimal digits whose number
/// fits in 32 bits, and nothing else.
#[verifier::external_body]
pub(crate) fn parse_u32(text: &str) -> (parsed: Result<u32, std::num::ParseIntError>)
    ensures
        match parsed {
            Ok(value) => unsigned_value(text@) == Some(value as nat),
            Err(_) => unsigned_value(text@) is None || unsigned_value(text@)->0 > u32::MAX,
        },
{
    text.parse::<u32>()
}

/// Whether two texts have the same characters.
pub fn same_text(left: &str, right: &str) -> (same: bool)
    ensures
        same == (left@ == right@),
{
    left.to_owned() == right.to_owned()
}

/// `left`, `middle` and `right`, one behind the other.
pub fn join3(left: &str, middle: &str, right: &str) -> (joined: String)
    ensures
        joined@ == left@ + middle@ + right@,
{
    let mut joined = left.to_owned();
    joined.append(middle);
    joined.append(right);
    joined
}

/// The characters of a text, one by one.
pub fn chars_of(text: &str) -> (chars: Vec<char>)
    ensures
        chars@ == text@,
{
    let mut chars: Vec<char> = Vec::new();
    for c in it: text.chars()
        invariant
            it.seq() == text@,
            chars@ == it.seq().take(it.index() as int),
    {
        chars.push(c);
    }
    chars
}

/// Nothing is left of a text after trimming exactly if the text is blank.
pub proof fn trimmed_is_empty_iff_blank(text: Seq<char>)
    ensures
        trimmed(text).len() == 0 <==> is_blank(text),
{
    trimmed_start_facts(text);
    let rest = trimmed_start(text);
    trimmed_end_facts(rest);
    if rest.len() > 0 {
        assert(!is_white_space(rest[0]));
        assert(text[text.len() - rest.len()] == rest[0]);
    }
}

proof fn trimmed_start_facts(text: Seq<char>)
    ensures
        trimmed_start(text).len() <= text.len(),
        trimmed_start(text) == text.subrange(
            text.len() - trimmed_start(text).len(),
            text.len() as int,
        ),
        trimmed_start(text).len() > 0 ==> !is_white_space(trimmed_start(text).first()),
        trimmed_start(text).len() == 0 ==> is_blank(text),
    decreases text.len(),
{
    if text.len() > 0 && is_white_space(text.first()) {
        trimmed_start_facts(text.drop_first());
        let rest = trimmed_start(text.drop_first());
        assert(text.drop_first() == text.subrange(1, text.len() as int));
        if rest.len() == 0 {
            assert forall|i: int| 0 <= i < text.len() implies is_white_space(
                #[trigger] text[i],
            ) by {
                if i > 0 {
                    assert(text.drop_first()[i - 1] == text[i]);
                }
            }
        }
    } else {
        assert(text == text.subrange(0, text.len() as int));
    }
}

proof fn trimmed_end_facts(text: Seq<char>)
    ensures
        trimmed_end(text).len() == 0 <==> is_blank(text),
    decreases text.len(),
{
    if text.len() > 0 && is_white_space(text.last()) {
        trimmed_end_facts(text.drop_last());
        let rest = text.drop_last();
        if is_blank(rest) {
            assert forall|i: int| 0 <= i < text.len() implies is_white_space(
                #[trigger] text[i],
            ) by {
                if i < text.len() - 1 {
                    assert(rest[i] == text[i]);
                }
            }
        }
        if is_blank(text) {
            assert forall|i: int| 0 <= i < rest.len() implies is_white_space(
                #[trigger] rest[i],
            ) by {
                assert(rest[i] == text[i]);
            }
        }
    } else if text.len() > 0 {
        assert(!is_white_space(text[text.len() - 1]));
    }
}

} // verus!
