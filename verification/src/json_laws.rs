//! What holds of reading JSON values.
use vstd::prelude::*;

use crate::json_value::{lookup, Json, JsonKind, JsonKindModel, JsonModel, JsonNumber};

verus! {

/// Whether `value` is an object whose first entry under `key` is at `at` and holds `content`.
pub open spec fn first_holds(
    value: JsonModel,
    key: Seq<char>,
    at: int,
    content: JsonModel,
) -> bool {
    &&& value.kind is Object
    &&& 0 <= at < value.kind->Object_0.len()
    &&& value.kind->Object_0[at].0 == key
    &&& value.kind->Object_0[at].1 == content
    &&& forall|i: int| 0 <= i < at ==> (#[trigger] value.kind->Object_0[i]).0 != key
}

proof fn lookup_finds_the_first(entries: Seq<(Seq<char>, JsonModel)>, key: Seq<char>, at: int)
    requires
        0 <= at < entries.len(),
        entries[at].0 == key,
        forall|i: int| 0 <= i < at ==> (#[trigger] entries[i]).0 != key,
    ensures
        lookup(entries, key) == Some(entries[at].1),
    decreases at,
{
    if at > 0 {
        assert(entries[0].0 != key);
        let rest = entries.drop_first();
        assert forall|i: int| 0 <= i < at - 1 implies (#[trigger] rest[i]).0 != key by {
            assert(rest[i] == entries[i + 1]);
        }
        lookup_finds_the_first(rest, key, at - 1);
    }
}

proof fn lookup_finds_nothing(entries: Seq<(Seq<char>, JsonModel)>, key: Seq<char>)
    requires
        forall|i: int| 0 <= i < entries.len() ==> (#[trigger] entries[i]).0 != key,
    ensures
        lookup(entries, key) is None,
    decreases entries.len(),
{
    if entries.len() > 0 {
        assert(entries[0].0 != key);
        let rest = entries.drop_first();
        assert forall|i: int| 0 <= i < rest.len() implies (#[trigger] rest[i]).0 != key by {
            assert(rest[i] == entries[i + 1]);
        }
        lookup_finds_nothing(rest, key);
    }
}

/// What an object holds under a key is the content of its first entry with that key; where no
/// entry has the key, or the value is no object, it is nothing, which reads as null.
pub proof fn a_key_finds_its_first_entry(
    value: JsonModel,
    key: Seq<char>,
    at: int,
    content: JsonModel,
)
    ensures
        first_holds(value, key, at, content) ==> value.field(key) == Some(content) && value.at(key)
            == content,
        !(value.kind is Object) || (forall|i: int|
            0 <= i < value.kind->Object_0.len() ==> (#[trigger] value.kind->Object_0[i]).0 != key)
            ==> value.field(key) is None && value.at(key).kind is Null,
{
    if first_holds(value, key, at, content) {
        lookup_finds_the_first(value.kind->Object_0, key, at);
    }
    if value.kind is Object && (forall|i: int|
        0 <= i < value.kind->Object_0.len() ==> (#[trigger] value.kind->Object_0[i]).0 != key) {
        lookup_finds_nothing(value.kind->Object_0, key);
    }
}

/// A value reads as the text, number or flag that it is, and as no other.
pub proof fn values_read_as_what_they_are(
    text: Seq<char>,
    shown: Seq<char>,
    flag: bool,
    number: JsonNumber,
)
    ensures
        ({
            let value = JsonModel { text: shown, kind: JsonKindModel::Text(text) };
            value.string() == Some(text) && value.boolean() is None && value.unsigned() is None
        }),
        ({
            let value = JsonModel { text: shown, kind: JsonKindModel::Boolean(flag) };
            value.boolean() == Some(flag) && value.string() is None && value.unsigned() is None
        }),
        ({
            let value = JsonModel { text: shown, kind: JsonKindModel::Number(number) };
            &&& value.string() is None && value.boolean() is None
            &&& number.positive && number.exponent == 0 ==> value.unsigned() == Some(
                number.mantissa,
            )
            &&& !number.positive || number.exponent != 0 ==> value.unsigned() is None
        }),
        ({
            let value = JsonModel { text: shown, kind: JsonKindModel::Null };
            value.string() is None && value.boolean() is None && value.unsigned() is None
        }),
{
}

/// An object or an array reads as no text, number or flag, and is empty exactly without members.
/// Of the others null, false, zero and the empty text are empty.
pub proof fn emptiness_is_having_nothing(value: JsonModel)
    ensures
        value.kind matches JsonKindModel::Array(members) ==> (value.is_empty() <==> members.len()
            == 0) && value.string() is None && value.unsigned() is None
            && value.boolean() is None,
        value.kind matches JsonKindModel::Object(entries) ==> (value.is_empty() <==> entries.len()
            == 0) && value.string() is None
            && value.unsigned() is None && value.boolean() is None,
        value.kind is Null ==> value.is_empty(),
        value.kind matches JsonKindModel::Boolean(flag) ==> value.is_empty() != flag,
        value.kind matches JsonKindModel::Number(number) ==> (value.is_empty() <==> number.mantissa
            == 0),
        value.kind matches JsonKindModel::Text(text) ==> (value.is_empty() <==> text.len() == 0),
{
}

/// The model of a value shows its text, its sort and what it holds.
pub proof fn the_model_shows_the_value(value: Json)
    ensures
        value@.text == value.text@,
        value.kind is Null <==> value@.kind is Null,
        value.kind matches JsonKind::Text(text) ==> value@.kind == JsonKindModel::Text(text@),
        value.kind matches JsonKind::Number(number) ==> value@.kind == JsonKindModel::Number(
            number,
        ),
        value.kind matches JsonKind::Boolean(flag) ==> value@.kind == JsonKindModel::Boolean(flag),
        value.kind matches JsonKind::Array(members) ==> {
            &&& value@.kind is Array
            &&& value@.kind->Array_0.len() == members@.len()
            &&& forall|i: int|
                0 <= i < members@.len() ==> #[trigger] value@.kind->Array_0[i] == members@[i]@
        },
        value.kind matches JsonKind::Object(entries) ==> {
            &&& value@.kind is Object
            &&& value@.kind->Object_0.len() == entries@.len()
            &&& forall|i: int|
                0 <= i < entries@.len() ==> #[trigger] value@.kind->Object_0[i] == (
                    entries@[i].0@,
                    entries@[i].1@,
                )
        },
{
    match value.kind {
        JsonKind::Array(members) => {
            crate::json_value::members_model_at(members@);
        },
        JsonKind::Object(entries) => {
            crate::json_value::entries_model_at(entries@);
        },
        _ => {},
    }
}

} // verus!
