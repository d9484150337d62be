//! What holds of reading a text as JSON, and of looking into the value.
use vstd::prelude::*;

use crate::json_laws::{a_key_finds_its_first_entry, first_holds};
use crate::json_value::{
    counts_past_limit, has_endless_fraction, is_fraction_of_zero, json_outcome, outruns_count,
    parse_json, parsed_value, string_state, Json, JsonKind, JsonModel,
};
use crate::text::decimal_value;

verus! {

/// A text in which no point is followed by more than 32,768 digits is read as the parser reads
/// it: with the same value, or the same message. So is every text that is not longer than that.
pub proof fn texts_are_read_as_parsed(text: &str, parsed: Result<Json, String>)
    requires
        call_ensures(parse_json, (text,), parsed),
        forall|point: int|
            0 <= point < text@.len() - 32_769 && #[trigger] text@[point] == '.' ==> exists|k: int|
                point < k <= point + 32_769 && !('0' <= #[trigger] text@[k] <= '9'),
    ensures
        parsed_value(text@) matches Ok(value) ==> (parsed matches Ok(found) && found@ == value),
        parsed_value(text@) matches Err(reason) ==> (parsed matches Err(message) && message@
            == reason),
        json_outcome(text@) == parsed_value(text@),
{
    if has_endless_fraction(text@) {
        let point = choose|point: int| #[trigger]
            is_fraction_of_zero(text@, point) && outruns_count(text@, point);
        let k = choose|k: int| counts_past_limit(text@, point, k);
        let behind = text@.skip(point + 1);
        assert(text@[point] == '.');
        assert(behind.len() > 32_768);
        assert forall|i: int| point < i <= point + 32_769 implies '0' <= #[trigger] text@[i]
            <= '9' by {
            assert(behind[i - point - 1] == text@[i]);
        }
    }
}

/// Every text is read as the parser reads it, or refused.
pub proof fn no_text_is_read_otherwise(text: &str, value: Json)
    requires
        call_ensures(parse_json, (text,), Ok::<Json, String>(value)),
    ensures
        parsed_value(text@) == Ok::<JsonModel, Seq<char>>(value@),
{
}

proof fn zeros_are_zero(digits: Seq<char>)
    requires
        forall|i: int| 0 <= i < digits.len() ==> #[trigger] digits[i] == '0',
    ensures
        decimal_value(digits) == 0,
    decreases digits.len(),
{
    if digits.len() > 0 {
        let rest = digits.drop_last();
        assert forall|i: int| 0 <= i < rest.len() implies #[trigger] rest[i] == '0' by {
            assert(rest[i] == digits[i]);
        }
        zeros_are_zero(rest);
        assert(digits.last() == digits[digits.len() - 1]);
    }
}

/// A fraction that begins with more zeros than can be counted is refused.
pub proof fn endless_fractions_are_refused(text: &str, parsed: Result<Json, String>)
    requires
        call_ensures(parse_json, (text,), parsed),
        text@.len() >= 32_771,
        text@[0] == '0',
        text@[1] == '.',
        forall|i: int| 2 <= i < 32_771 ==> #[trigger] text@[i] == '0',
    ensures
        parsed is Err,
{
    reveal_with_fuel(string_state, 2);
    let behind = text@.skip(2);
    let counted = behind.take(32_768);
    assert forall|i: int| 0 <= i < counted.len() implies #[trigger] counted[i] == '0' by {
        assert(counted[i] == text@[i + 2]);
    }
    zeros_are_zero(counted);
    assert forall|i: int| 0 <= i <= 32_768 implies crate::text::is_decimal_digit(
        #[trigger] behind[i],
    ) by {
        assert(behind[i] == text@[i + 2]);
    }
    assert(behind[32_768] == text@[32_770]);
    assert(counts_past_limit(text@, 1, 32_768));
    assert(is_fraction_of_zero(text@, 1));
    assert(outruns_count(text@, 1));
}

/// What an object holds under a key is the content of its first entry with that key, and there is
/// nothing where no entry has it or the value is no object.
pub proof fn a_key_gets_its_first_entry(
    value: Json,
    key: &str,
    found: Option<&Json>,
    has_key: bool,
    at: int,
)
    requires
        call_ensures(Json::get, (&value, key), found),
        call_ensures(Json::has_key, (&value, key), has_key),
    ensures
        first_holds(value@, key@, at, value@.kind->Object_0[at].1) ==> (found matches Some(content)
            && content@ == value@.kind->Object_0[at].1) && has_key,
        !(value.kind is Object) || (forall|i: int|
            0 <= i < value@.kind->Object_0.len() ==> (#[trigger] value@.kind->Object_0[i]).0
                != key@) ==> found is None && !has_key,
{
    a_key_finds_its_first_entry(value@, key@, at, value@.kind->Object_0[at].1);
}

/// A value gives the text, number or flag that it is, and nothing of another sort.
pub proof fn a_value_gives_what_it_is(
    value: Json,
    text: Option<&str>,
    number: Option<u64>,
    flag: Option<bool>,
)
    requires
        call_ensures(Json::as_str, (&value,), text),
        call_ensures(Json::as_u64, (&value,), number),
        call_ensures(Json::as_bool, (&value,), flag),
    ensures
        match value.kind {
            JsonKind::Text(content) => text matches Some(found) && found@ == content@,
            _ => text is None,
        },
        match value.kind {
            JsonKind::Number(content) => number == (if content.positive && content.exponent == 0 {
                Some(content.mantissa)
            } else {
                None
            }),
            _ => number is None,
        },
        match value.kind {
            JsonKind::Boolean(content) => flag == Some(content),
            _ => flag is None,
        },
{
}

/// A value knows of which sort it is.
pub proof fn a_value_knows_its_sort(
    value: Json,
    is_array: bool,
    is_object: bool,
    is_null: bool,
    is_number: bool,
)
    requires
        call_ensures(Json::is_array, (&value,), is_array),
        call_ensures(Json::is_object, (&value,), is_object),
        call_ensures(Json::is_null, (&value,), is_null),
        call_ensures(Json::is_number, (&value,), is_number),
    ensures
        is_array <==> value.kind is Array,
        is_object <==> value.kind is Object,
        is_null <==> value.kind is Null,
        is_number <==> value.kind is Number,
{
}

/// An array or an object is empty exactly without members.
pub proof fn a_value_without_members_is_empty(value: Json, result: bool)
    requires
        call_ensures(Json::is_empty, (&value,), result),
    ensures
        value.kind matches JsonKind::Array(members) ==> (result <==> members@.len() == 0),
        value.kind matches JsonKind::Object(entries) ==> (result <==> entries@.len() == 0),
        value.kind is Null ==> result,
        value.kind matches JsonKind::Text(text) ==> (result <==> text@.len() == 0),
        value.kind matches JsonKind::Boolean(flag) ==> result != flag,
        value.kind matches JsonKind::Number(number) ==> (result <==> number.mantissa == 0),
{
    match value.kind {
        JsonKind::Array(members) => {
            crate::json_value::members_model_at(members@);
        },
        JsonKind::Object(entries) => {
            crate::json_value::entries_model_at(entries@);
        },
        _ => {},
    }
}

} // verus!
