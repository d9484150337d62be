//! What holds of the operations on text.
use vstd::prelude::*;

use crate::text::{
    ascii_lower, decimal_value, is_blank, is_decimal, is_white_space, occurs_in, trimmed,
    trimmed_end, trimmed_start, unsigned_value,
};

verus! {

/// A text occurs in everything that it is put into, and a text in which it occurs is it with
/// something before and behind.
pub proof fn a_text_occurs_in_what_surrounds_it(
    before: Seq<char>,
    pattern: Seq<char>,
    behind: Seq<char>,
    text: Seq<char>,
)
    ensures
        occurs_in(pattern, before + pattern + behind),
        occurs_in(pattern, text) ==> exists|left: Seq<char>, right: Seq<char>|
            text == #[trigger] (left + pattern + right),
        occurs_in(pattern, text) ==> pattern.len() <= text.len(),
        pattern.len() == text.len() ==> (occurs_in(pattern, text) <==> pattern == text),
{
    let whole = before + pattern + behind;
    let at = before.len() as int;
    assert(whole.subrange(at, at + pattern.len()) == pattern);
    if occurs_in(pattern, text) {
        let at = choose|at: int|
            0 <= at && at + pattern.len() <= text.len() && #[trigger] text.subrange(
                at,
                at + pattern.len(),
            ) == pattern;
        let left = text.take(at);
        let right = text.skip(at + pattern.len());
        assert(text == left + pattern + right) by {
            assert forall|i: int| 0 <= i < text.len() implies text[i] == (left + pattern
                + right)[i] by {
                if at <= i < at + pattern.len() {
                    assert(text.subrange(at, at + pattern.len())[i - at] == text[i]);
                }
            }
        }
        if pattern.len() == text.len() {
            assert(text.subrange(0, text.len() as int) == text);
        }
    }
    if pattern == text {
        let none: int = 0;
        assert(text.subrange(none, none + pattern.len()) == pattern);
    }
}

/// Blanks around a text that neither starts nor ends with white space are trimmed off, and
/// nothing else: what is left of any text is such a text.
pub proof fn trimming_takes_off_the_white_space(
    before: Seq<char>,
    text: Seq<char>,
    behind: Seq<char>,
)
    requires
        is_blank(before),
        is_blank(behind),
        text.len() > 0 ==> !is_white_space(text[0]) && !is_white_space(text[text.len() - 1]),
    ensures
        trimmed(before + text + behind) == text,
{
    start_is_trimmed(before, text + behind);
    assert(before + text + behind == before + (text + behind));
    if text.len() > 0 {
        assert((text + behind).first() == text[0]);
        assert(trimmed_start(text + behind) == text + behind);
        end_is_trimmed(text, behind);
    } else {
        assert(text + behind == behind);
        start_is_trimmed(behind, text);
        assert(behind + text == behind);
        assert(trimmed_start(behind).len() == 0);
    }
}

proof fn start_is_trimmed(before: Seq<char>, rest: Seq<char>)
    requires
        is_blank(before),
    ensures
        trimmed_start(before + rest) == trimmed_start(rest),
    decreases before.len(),
{
    if before.len() > 0 {
        let shorter = before.drop_first();
        assert forall|i: int| 0 <= i < shorter.len() implies is_white_space(
            #[trigger] shorter[i],
        ) by {
            assert(shorter[i] == before[i + 1]);
        }
        start_is_trimmed(shorter, rest);
        assert((before + rest).first() == before[0]);
        assert((before + rest).drop_first() == shorter + rest);
    } else {
        assert(before + rest == rest);
    }
}

proof fn end_is_trimmed(text: Seq<char>, behind: Seq<char>)
    requires
        is_blank(behind),
        text.len() > 0,
        !is_white_space(text[text.len() - 1]),
    ensures
        trimmed_end(text + behind) == text,
    decreases behind.len(),
{
    if behind.len() > 0 {
        let shorter = behind.drop_last();
        assert forall|i: int| 0 <= i < shorter.len() implies is_white_space(
            #[trigger] shorter[i],
        ) by {
            assert(shorter[i] == behind[i]);
        }
        end_is_trimmed(text, shorter);
        assert((text + behind).last() == behind[behind.len() - 1]);
        assert((text + behind).drop_last() == text + shorter);
    } else {
        assert(text + behind == text);
    }
}

/// Every text is what is left of it after trimming, with blanks around it.
pub proof fn a_text_is_its_trimmed_part_with_blanks(text: Seq<char>) -> (parts: (
    Seq<char>,
    Seq<char>,
))
    ensures
        text == parts.0 + trimmed(text) + parts.1,
        is_blank(parts.0),
        is_blank(parts.1),
        trimmed(text).len() > 0 ==> !is_white_space(trimmed(text)[0]) && !is_white_space(
            trimmed(text)[trimmed(text).len() - 1],
        ),
{
    let before = cut_at_start(text);
    let rest = trimmed_start(text);
    let behind = cut_at_end(rest);
    assert(text == before + trimmed(text) + behind);
    if trimmed(text).len() > 0 {
        assert(rest[0] == trimmed(text)[0]);
    }
    (before, behind)
}

proof fn cut_at_start(text: Seq<char>) -> (before: Seq<char>)
    ensures
        is_blank(before),
        text == before + trimmed_start(text),
        trimmed_start(text).len() > 0 ==> !is_white_space(trimmed_start(text)[0]),
    decreases text.len(),
{
    if text.len() > 0 && is_white_space(text.first()) {
        let rest = text.drop_first();
        let cut = cut_at_start(rest);
        let before = seq![text.first()] + cut;
        assert(text == seq![text.first()] + rest);
        assert(text == before + trimmed_start(text));
        before
    } else {
        assert(text == Seq::<char>::empty() + text);
        Seq::empty()
    }
}

proof fn cut_at_end(text: Seq<char>) -> (behind: Seq<char>)
    ensures
        is_blank(behind),
        text == trimmed_end(text) + behind,
        trimmed_end(text).len() > 0 ==> !is_white_space(
            trimmed_end(text)[trimmed_end(text).len() - 1],
        ),
    decreases text.len(),
{
    if text.len() > 0 && is_white_space(text.last()) {
        let rest = text.drop_last();
        let cut = cut_at_end(rest);
        let behind = cut + seq![text.last()];
        assert(text == rest + seq![text.last()]);
        assert(text == trimmed_end(text) + behind);
        behind
    } else {
        assert(text == text + Seq::<char>::empty());
        Seq::empty()
    }
}

/// A digit behind a number makes it ten times as large and adds the digit. A single digit is
/// worth what it shows.
pub proof fn digits_count_ten_times_those_behind(digits: Seq<char>, digit: char)
    requires
        '0' <= digit <= '9',
    ensures
        decimal_value(seq![digit]) == digit as int - '0' as int,
        decimal_value(digits.push(digit)) == 10 * decimal_value(digits) + (digit as int
            - '0' as int),
{
    assert(digits.push(digit).drop_last() == digits);
    assert(seq![digit].drop_last() == Seq::<char>::empty());
    assert(decimal_value(Seq::<char>::empty()) == 0);
}

/// A text is a number exactly if it is digits, at least one, behind a plus sign or not; the sign
/// and zeros in front do not change the number.
pub proof fn numbers_are_digits(text: Seq<char>)
    ensures
        unsigned_value(text) is Some <==> {
            ||| text.len() > 0 && forall|i: int| 0 <= i < text.len() ==> '0' <= #[trigger] text[i]
                <= '9'
            ||| text.len() > 1 && text[0] == '+' && forall|i: int|
                1 <= i < text.len() ==> '0' <= #[trigger] text[i] <= '9'
        },
        text.len() > 0 && text[0] != '+' && unsigned_value(text) is Some ==> unsigned_value(
            seq!['+'] + text,
        ) == unsigned_value(text),
        text.len() > 0 && text[0] != '+' && unsigned_value(text) is Some ==> unsigned_value(
            seq!['0'] + text,
        ) == unsigned_value(text),
        text.len() > 0 && text[0] != '+' && unsigned_value(text) is Some ==> unsigned_value(text)
            == Some(decimal_value(text)),
{
    if text.len() > 0 && text[0] == '+' {
        let digits = text.drop_first();
        if is_decimal(digits) {
            assert forall|i: int| 1 <= i < text.len() implies '0' <= #[trigger] text[i] <= '9' by {
                assert(digits[i - 1] == text[i]);
            }
        }
        if text.len() > 1 && forall|i: int|
            1 <= i < text.len() ==> '0' <= #[trigger] text[i] <= '9' {
            assert forall|i: int| 0 <= i < digits.len() implies '0' <= #[trigger] digits[i]
                <= '9' by {
                assert(digits[i] == text[i + 1]);
            }
            assert(is_decimal(digits));
        }
    } else {
        let signed = seq!['+'] + text;
        assert(signed.drop_first() == text);
        assert(signed.first() == '+');
        let longer = seq!['0'] + text;
        assert(longer.first() == '0');
        if is_decimal(text) {
            assert forall|i: int| 0 <= i < longer.len() implies '0' <= #[trigger] longer[i]
                <= '9' by {
                if i > 0 {
                    assert(longer[i] == text[i - 1]);
                }
            }
            assert(is_decimal(longer));
            zero_in_front(text);
        }
    }
}

proof fn zero_in_front(digits: Seq<char>)
    ensures
        decimal_value(seq!['0'] + digits) == decimal_value(digits),
    decreases digits.len(),
{
    let longer = seq!['0'] + digits;
    if digits.len() > 0 {
        zero_in_front(digits.drop_last());
        assert(longer.drop_last() == seq!['0'] + digits.drop_last());
        assert(longer.last() == digits.last());
    } else {
        assert(longer.drop_last() == digits);
        assert(longer.last() == '0');
    }
}

/// A text of white space alone is blank, and no other.
pub proof fn blank_is_nothing_but_white_space(text: Seq<char>, c: char)
    ensures
        is_blank(Seq::<char>::empty()),
        is_blank(text.push(c)) <==> is_blank(text) && is_white_space(c),
{
    let longer = text.push(c);
    if is_blank(longer) {
        assert forall|i: int| 0 <= i < text.len() implies is_white_space(#[trigger] text[i]) by {
            assert(longer[i] == text[i]);
        }
        assert(longer[text.len() as int] == c);
    }
}

/// The twenty-six capital letters become the small ones, in their order, and every other
/// character stays.
pub proof fn only_capital_letters_are_lowered(c: char)
    ensures
        !('A' <= c <= 'Z') ==> ascii_lower(c) == c,
        'A' <= c <= 'Z' ==> ascii_lower(c) as int - 'a' as int == c as int - 'A' as int,
        ascii_lower(ascii_lower(c)) == ascii_lower(c),
{
}

} // verus!
