//! JSON values as the command parsers read them.
use json::JsonValue;
use vstd::prelude::*;

use crate::text::{chars_of, decimal_value, is_decimal_digit, same_text};

verus! {

/// What a JSON value holds, as a mathematical value.
pub struct JsonModel {
    /// How the value is shown in messages.
    pub text: Seq<char>,
    pub kind: JsonKindModel,
}

pub enum JsonKindModel {
    Null,
    Text(Seq<char>),
    Number(JsonNumber),
    Boolean(bool),
    Object(Seq<(Seq<char>, JsonModel)>),
    Array(Seq<JsonModel>),
}

/// A JSON value.
#[derive(Debug)]
pub struct Json {
    /// How the value is shown in messages.
    pub text: String,
    pub kind: JsonKind,
}

/// The six sorts of JSON value.
#[derive(Debug)]
pub enum JsonKind {
    Null,
    Text(String),
    Number(JsonNumber),
    Boolean(bool),
    /// The entries in the order in which their keys first occur.
    Object(Vec<(String, Json)>),
    Array(Vec<Json>),
}

/// A decimal number: the mantissa times ten to the exponent, with a sign.
#[derive(Debug, Clone, Copy, PartialEq, Eq, Structural)]
pub struct JsonNumber {
    pub positive: bool,
    pub mantissa: u64,
    pub exponent: i16,
}

/// What a JSON value holds.
pub open spec fn json_model(value: Json) -> JsonModel
    decreases value,
{
    JsonModel {
        text: value.text@,
        kind: match value.kind {
            JsonKind::Null => JsonKindModel::Null,
            JsonKind::Text(text) => JsonKindModel::Text(text@),
            JsonKind::Number(number) => JsonKindModel::Number(number),
            JsonKind::Boolean(flag) => JsonKindModel::Boolean(flag),
            JsonKind::Object(entries) => JsonKindModel::Object(entries_model(entries@)),
            JsonKind::Array(members) => JsonKindModel::Array(members_model(members@)),
        },
    }
}

/// What the entries of an object hold, one by one.
pub open spec fn entries_model(entries: Seq<(String, Json)>) -> Seq<(Seq<char>, JsonModel)>
    decreases entries,
{
    if entries.len() == 0 {
        Seq::empty()
    } else {
        entries_model(entries.drop_last()).push((entries.last().0@, json_model(entries.last().1)))
    }
}

/// What the members of an array hold, one by one.
pub open spec fn members_model(members: Seq<Json>) -> Seq<JsonModel>
    decreases members,
{
    if members.len() == 0 {
        Seq::empty()
    } else {
        members_model(members.drop_last()).push(json_model(members.last()))
    }
}

impl View for Json {
    type V = JsonModel;

    open spec fn view(&self) -> JsonModel {
        json_model(*self)
    }
}

pub proof fn entries_model_at(entries: Seq<(String, Json)>)
    ensures
        entries_model(entries).len() == entries.len(),
        forall|i: int|
            0 <= i < entries.len() ==> #[trigger] entries_model(entries)[i] == (
                entries[i].0@,
                entries[i].1@,
            ),
    decreases entries.len(),
{
    if entries.len() > 0 {
        entries_model_at(entries.drop_last());
        assert forall|i: int| 0 <= i < entries.len() implies #[trigger] entries_model(entries)[i]
            == (entries[i].0@, entries[i].1@) by {
            if i < entries.len() - 1 {
                assert(entries_model(entries)[i] == entries_model(entries.drop_last())[i]);
            }
        }
    }
}

pub proof fn members_model_at(members: Seq<Json>)
    ensures
        members_model(members).len() == members.len(),
        forall|i: int|
            0 <= i < members.len() ==> #[trigger] members_model(members)[i] == members[i]@,
    decreases members.len(),
{
    if members.len() > 0 {
        members_model_at(members.drop_last());
        assert forall|i: int| 0 <= i < members.len() implies #[trigger] members_model(members)[i]
            == members[i]@ by {
            if i < members.len() - 1 {
                assert(members_model(members)[i] == members_model(members.drop_last())[i]);
            }
        }
    }
}

impl JsonNumber {
    /// The number as an unsigned integer: a positive number without an exponent.
    pub open spec fn unsigned(self) -> Option<u64> {
        if self.positive && self.exponent == 0 {
            Some(self.mantissa)
        } else {
            None
        }
    }
}

/// The value of the first entry under `key`.
pub open spec fn lookup(entries: Seq<(Seq<char>, JsonModel)>, key: Seq<char>) -> Option<JsonModel>
    decreases entries.len(),
{
    if entries.len() == 0 {
        None
    } else if entries.first().0 == key {
        Some(entries.first().1)
    } else {
        lookup(entries.drop_first(), key)
    }
}

impl JsonModel {
    /// The null value.
    pub open spec fn null() -> JsonModel {
        JsonModel { text: "null"@, kind: JsonKindModel::Null }
    }

    /// What an object holds under `key`; other values hold nothing under any key.
    pub open spec fn field(self, key: Seq<char>) -> Option<JsonModel> {
        match self.kind {
            JsonKindModel::Object(entries) => lookup(entries, key),
            _ => None,
        }
    }

    /// What an object holds under `key`, or null where it holds nothing.
    pub open spec fn at(self, key: Seq<char>) -> JsonModel {
        match self.field(key) {
            Some(value) => value,
            None => JsonModel::null(),
        }
    }

    pub open spec fn string(self) -> Option<Seq<char>> {
        match self.kind {
            JsonKindModel::Text(text) => Some(text),
            _ => None,
        }
    }

    pub open spec fn unsigned(self) -> Option<u64> {
        match self.kind {
            JsonKindModel::Number(number) => number.unsigned(),
            _ => None,
        }
    }

    pub open spec fn boolean(self) -> Option<bool> {
        match self.kind {
            JsonKindModel::Boolean(value) => Some(value),
            _ => None,
        }
    }

    /// Whether there is nothing to the value: null, an empty text, zero, false, or an array or
    /// object without members.
    pub open spec fn is_empty(self) -> bool {
        match self.kind {
            JsonKindModel::Null => true,
            JsonKindModel::Text(text) => text.len() == 0,
            JsonKindModel::Number(number) => number.mantissa == 0,
            JsonKindModel::Boolean(value) => !value,
            JsonKindModel::Object(entries) => entries.len() == 0,
            JsonKindModel::Array(members) => members.len() == 0,
        }
    }
}

impl Json {
    pub fn null() -> (value: Json)
        ensures
            value@ == JsonModel::null(),
    {
        Json { text: "null".to_owned(), kind: JsonKind::Null }
    }

    pub fn is_array(&self) -> (result: bool)
        ensures
            result == (self@.kind is Array),
    {
        match self.kind {
            JsonKind::Array(_) => true,
            _ => false,
        }
    }

    pub fn is_object(&self) -> (result: bool)
        ensures
            result == (self@.kind is Object),
    {
        match self.kind {
            JsonKind::Object(_) => true,
            _ => false,
        }
    }

    pub fn is_null(&self) -> (result: bool)
        ensures
            result == (self@.kind is Null),
    {
        match self.kind {
            JsonKind::Null => true,
            _ => false,
        }
    }

    pub fn is_number(&self) -> (result: bool)
        ensures
            result == (self@.kind is Number),
    {
        match self.kind {
            JsonKind::Number(_) => true,
            _ => false,
        }
    }

    pub fn is_empty(&self) -> (result: bool)
        ensures
            result == self@.is_empty(),
    {
        proof {
            match &self.kind {
                JsonKind::Object(entries) => entries_model_at(entries@),
                JsonKind::Array(members) => members_model_at(members@),
                _ => {},
            }
        }
        match &self.kind {
            JsonKind::Null => true,
            JsonKind::Text(text) => text.as_str().is_empty(),
            JsonKind::Number(number) => number.mantissa == 0,
            JsonKind::Boolean(value) => !*value,
            JsonKind::Object(entries) => entries.len() == 0,
            JsonKind::Array(members) => members.len() == 0,
        }
    }

    /// What an object holds under `key`.
    pub fn get(&self, key: &str) -> (value: Option<&Json>)
        ensures
            match value {
                Some(found) => self@.field(key@) == Some(found@),
                None => self@.field(key@) is None,
            },
    {
        match &self.kind {
            JsonKind::Object(entries) => {
                let ghost all = entries_model(entries@);
                proof {
                    entries_model_at(entries@);
                }
                let mut at: usize = 0;
                assert(all.skip(0) == all);
                while at < entries.len()
                    invariant
                        at <= entries.len(),
                        all.len() == entries.len(),
                        forall|i: int|
                            0 <= i < all.len() ==> #[trigger] all[i] == (
                                entries[i].0@,
                                entries[i].1@,
                            ),
                        lookup(all, key@) == lookup(all.skip(at as int), key@),
                        self@.field(key@) == lookup(all, key@),
                    decreases entries.len() - at,
                {
                    let ghost rest = all.skip(at as int);
                    assert(rest.first() == all[at as int]);
                    assert(rest.drop_first() == all.skip(at + 1));
                    if same_text(entries[at].0.as_str(), key) {
                        return Some(&entries[at].1);
                    }
                    at = at + 1;
                }
                None
            },
            _ => None,
        }
    }

    /// Whether an object holds something under `key`.
    pub fn has_key(&self, key: &str) -> (result: bool)
        ensures
            result == (self@.field(key@) is Some),
    {
        self.get(key).is_some()
    }

    pub fn as_str(&self) -> (text: Option<&str>)
        ensures
            match text {
                Some(found) => self@.string() == Some(found@),
                None => self@.string() is None,
            },
    {
        match &self.kind {
            JsonKind::Text(text) => Some(text.as_str()),
            _ => None,
        }
    }

    pub fn as_u64(&self) -> (value: Option<u64>)
        ensures
            value == self@.unsigned(),
    {
        match self.kind {
            JsonKind::Number(number) => if number.positive && number.exponent == 0 {
                Some(number.mantissa)
            } else {
                None
            },
            _ => None,
        }
    }

    pub fn as_bool(&self) -> (value: Option<bool>)
        ensures
            value == self@.boolean(),
    {
        match self.kind {
            JsonKind::Boolean(value) => Some(value),
            _ => None,
        }
    }
}

/// A value of the `json` crate, which is read through the functions below.
#[verifier::external_type_specification]
#[verifier::external_body]
pub struct ExJsonValue(JsonValue);

/// What a value of the `json` crate holds: its sort, its members or entries in order, and the
/// text that it prints as.
pub uninterp spec fn value_model(value: JsonValue) -> JsonModel;

/// What `json::parse` makes of a text: a value, or the text of its error.
pub uninterp spec fn parsed_value(text: Seq<char>) -> Result<JsonModel, Seq<char>>;

/// One layer of a value of the `json` crate.
pub(crate) enum JsonNode {
    Null,
    Text(String),
    Number(JsonNumber),
    Boolean(bool),
    Object(Vec<(String, JsonValue)>),
    Array(Vec<JsonValue>),
}

/// Whether `node` is the outer layer of a value that holds `kind`.
pub(crate) open spec fn is_layer_of(node: JsonNode, kind: JsonKindModel) -> bool {
    match node {
        JsonNode::Null => kind == JsonKindModel::Null,
        JsonNode::Text(text) => kind == JsonKindModel::Text(text@),
        JsonNode::Number(number) => kind == JsonKindModel::Number(number),
        JsonNode::Boolean(flag) => kind == JsonKindModel::Boolean(flag),
        JsonNode::Object(entries) => {
            &&& kind is Object
            &&& kind->Object_0.len() == entries@.len()
            &&& forall|i: int|
                0 <= i < entries@.len() ==> #[trigger] kind->Object_0[i] == (
                    entries@[i].0@,
                    value_model(entries@[i].1),
                )
        },
        JsonNode::Array(members) => {
            &&& kind is Array
            &&& kind->Array_0.len() == members@.len()
            &&& forall|i: int|
                0 <= i < members@.len() ==> #[trigger] kind->Array_0[i] == value_model(members@[i])
        },
    }
}

/// How many digits of a fraction the parser of the `json` crate can count.
pub const FRACTION_LIMIT: usize = 32_768;

/// Whether the character at `at` stands inside a string of a JSON text, and whether a backslash
/// stands directly before it there.
pub open spec fn string_state(text: Seq<char>, at: int) -> (bool, bool)
    decreases at,
{
    if at <= 0 {
        (false, false)
    } else {
        state_after(string_state(text, at - 1), text[at - 1])
    }
}

/// The state behind a character.
pub open spec fn state_after(state: (bool, bool), c: char) -> (bool, bool) {
    let (inside, escaped) = state;
    if !inside {
        (c == '"', false)
    } else if escaped {
        (true, false)
    } else if c == '\\' {
        (true, true)
    } else {
        (c != '"', false)
    }
}

/// The characters that can stand directly before a number.
pub open spec fn can_precede_number(c: char) -> bool {
    c == '[' || c == ',' || c == ':' || c == '-' || c == ' ' || '\u{9}' <= c <= '\u{d}'
}

/// Whether the point at `point` follows a zero with which a number begins, outside of strings.
pub open spec fn is_fraction_of_zero(text: Seq<char>, point: int) -> bool {
    &&& 1 <= point < text.len()
    &&& text[point] == '.'
    &&& text[point - 1] == '0'
    &&& point == 1 || can_precede_number(text[point - 2])
    &&& !string_state(text, point).0
}

/// Whether the digit at `k` behind `point` is counted, and `FRACTION_LIMIT` digits before it. A
/// digit is counted where it can be put behind the number that the counted ones make so far, in
/// 64 bits, and is passed over otherwise. So the first `FRACTION_LIMIT` characters are digits,
/// zeros but for the last few, and those between them and `k` are digits too.
pub open spec fn counts_past_limit(text: Seq<char>, point: int, k: int) -> bool {
    let behind = text.skip(point + 1);
    &&& FRACTION_LIMIT <= k < behind.len()
    &&& forall|i: int| 0 <= i <= k ==> is_decimal_digit(#[trigger] behind[i])
    &&& decimal_value(behind.take(FRACTION_LIMIT as int)) * 10 + (behind[k] as nat - '0' as nat)
        <= u64::MAX
}

/// Whether more digits are counted behind `point` than the parser of the `json` crate can count.
pub open spec fn outruns_count(text: Seq<char>, point: int) -> bool {
    exists|k: int| counts_past_limit(text, point, k)
}

/// Whether a number in `text` has more digits behind its point than the parser of the `json`
/// crate can count.
pub open spec fn has_endless_fraction(text: Seq<char>) -> bool {
    exists|point: int| #[trigger] is_fraction_of_zero(text, point) && outruns_count(text, point)
}

/// `json::parse`: the outcome depends on the text alone. The crate counts in 16 bits those digits
/// of a fraction that still fit into a number of 64 bits, passes over the others, and may panic
/// where the count runs over. Only behind a zero can that happen. Such texts are left out.
#[verifier::external_body]
pub(crate) fn outside_parse(text: &str) -> (parsed: Result<JsonValue, String>)
    requires
        !has_endless_fraction(text@),
    ensures
        match parsed {
            Ok(value) => parsed_value(text@) == Ok::<JsonModel, Seq<char>>(value_model(value)),
            Err(message) => parsed_value(text@) == Err::<JsonModel, Seq<char>>(message@),
        },
{
    json::parse(text).map_err(|error| error.to_string())
}

/// `JsonValue::to_string`, from its `Display`: the text that the value prints as.
#[verifier::external_body]
pub(crate) fn outside_text(value: &JsonValue) -> (text: String)
    ensures
        text@ == value_model(*value).text,
{
    value.to_string()
}

/// Takes a `JsonValue` apart by its variants. An object gives up its entries as `Object::iter`
/// walks them, a number its sign, mantissa and exponent as `Number::as_parts` gives them.
#[verifier::external_body]
pub(crate) fn outside_node(value: JsonValue) -> (node: JsonNode)
    ensures
        is_layer_of(node, value_model(value).kind),
{
    match value {
        JsonValue::Null => JsonNode::Null,
        JsonValue::Short(text) => JsonNode::Text(text.to_string()),
        JsonValue::String(text) => JsonNode::Text(text),
        JsonValue::Number(number) => {
            let (positive, mantissa, exponent): (bool, u64, i16) = number.as_parts();
            JsonNode::Number(JsonNumber { positive, mantissa, exponent })
        },
        JsonValue::Boolean(flag) => JsonNode::Boolean(flag),
        JsonValue::Object(object) => JsonNode::Object(
            object.iter().map(|(key, value)| (key.to_string(), value.clone())).collect(),
        ),
        JsonValue::Array(members) => JsonNode::Array(members),
    }
}

proof fn decimal_value_grows(digits: Seq<char>, shorter: int)
    requires
        0 <= shorter <= digits.len(),
    ensures
        decimal_value(digits.take(shorter)) <= decimal_value(digits),
    decreases digits.len() - shorter,
{
    if shorter < digits.len() {
        decimal_value_grows(digits, shorter + 1);
        assert(digits.take(shorter + 1).drop_last() == digits.take(shorter));
    } else {
        assert(digits.take(shorter) == digits);
    }
}

/// The number that `value` becomes with `digit` behind it, where 64 bits hold it.
fn appended(value: u64, digit: u64) -> (longer: Option<u64>)
    ensures
        longer == (if value * 10 + digit <= u64::MAX {
            Some((value * 10 + digit) as u64)
        } else {
            None
        }),
{
    match value.checked_mul(10) {
        Some(shifted) => shifted.checked_add(digit),
        None => None,
    }
}

/// Whether more digits are counted behind `point` than the parser can count.
fn find_outrun(chars: &Vec<char>, point: usize) -> (found: bool)
    requires
        point < chars@.len(),
    ensures
        found == outruns_count(chars@, point as int),
{
    let ghost behind = chars@.skip(point + 1);
    let length: usize = chars.len();
    let first: usize = point + 1;
    let count: usize = length - first;
    if count <= FRACTION_LIMIT {
        return false;
    }
    let ghost counted = behind.take(FRACTION_LIMIT as int);
    let mut value: u64 = 0;
    let mut k: usize = 0;
    while k < FRACTION_LIMIT
        invariant
            k <= FRACTION_LIMIT < count,
            first == point + 1,
            first + count == chars@.len(),
            chars@.len() <= usize::MAX,
            behind == chars@.skip(point + 1),
            counted == behind.take(FRACTION_LIMIT as int),
            forall|i: int| 0 <= i < k ==> is_decimal_digit(#[trigger] behind[i]),
            value == decimal_value(counted.take(k as int)),
        decreases FRACTION_LIMIT - k,
    {
        let c = chars[first + k];
        assert(c == behind[k as int]);
        if !('0' <= c && c <= '9') {
            return false;
        }
        let digit: u64 = (c as u32 - '0' as u32) as u64;
        let ghost longer = counted.take(k + 1);
        proof {
            assert(longer.drop_last() == counted.take(k as int));
            assert(longer.last() == c);
            assert(decimal_value(longer) == value * 10 + digit);
            decimal_value_grows(counted, k + 1);
        }
        match appended(value, digit) {
            Some(next) => {
                value = next;
            },
            None => {
                return false;
            },
        }
        k = k + 1;
    }
    assert(counted.take(k as int) == counted);
    while k < count
        invariant
            FRACTION_LIMIT <= k <= count,
            first == point + 1,
            first + count == chars@.len(),
            chars@.len() <= usize::MAX,
            behind == chars@.skip(point + 1),
            counted == behind.take(FRACTION_LIMIT as int),
            forall|i: int| 0 <= i < k ==> is_decimal_digit(#[trigger] behind[i]),
            value == decimal_value(counted),
            forall|earlier: int|
                earlier < k ==> !#[trigger] counts_past_limit(chars@, point as int, earlier),
        decreases count - k,
    {
        let c = chars[first + k];
        assert(c == behind[k as int]);
        if !('0' <= c && c <= '9') {
            return false;
        }
        let digit: u64 = (c as u32 - '0' as u32) as u64;
        if appended(value, digit).is_some() {
            assert(counts_past_limit(chars@, point as int, k as int));
            return true;
        }
        k = k + 1;
    }
    false
}

fn find_endless_fraction(text: &str) -> (found: bool)
    ensures
        found == has_endless_fraction(text@),
{
    let chars = chars_of(text);
    let mut inside: bool = false;
    let mut escaped: bool = false;
    let mut at: usize = 0;
    while at < chars.len()
        invariant
            at <= chars@.len(),
            chars@ == text@,
            (inside, escaped) == string_state(chars@, at as int),
            forall|point: int|
                point < at && #[trigger] is_fraction_of_zero(chars@, point) ==> !outruns_count(
                    chars@,
                    point,
                ),
        decreases chars@.len() - at,
    {
        let c = chars[at];
        if c == '.' && !inside && at >= 1 && chars[at - 1] == '0' && (at == 1
            || can_precede(chars[at - 2])) {
            assert(is_fraction_of_zero(chars@, at as int));
            if find_outrun(&chars, at) {
                return true;
            }
        }
        if !inside {
            inside = c == '"';
            escaped = false;
        } else if escaped {
            escaped = false;
        } else if c == '\\' {
            escaped = true;
        } else {
            inside = c != '"';
        }
        at = at + 1;
    }
    false
}

fn can_precede(c: char) -> (result: bool)
    ensures
        result == can_precede_number(c),
{
    c == '[' || c == ',' || c == ':' || c == '-' || c == ' ' || ('\u{9}' <= c && c <= '\u{d}')
}

/// The library's own form of a value of the `json` crate.
fn from_outside(value: JsonValue) -> (result: Json)
    ensures
        result@ == value_model(value),
    decreases value_model(value),
{
    let text = outside_text(&value);
    let ghost model = value_model(value);
    match outside_node(value) {
        JsonNode::Null => Json { text, kind: JsonKind::Null },
        JsonNode::Text(content) => Json { text, kind: JsonKind::Text(content) },
        JsonNode::Number(number) => Json { text, kind: JsonKind::Number(number) },
        JsonNode::Boolean(flag) => Json { text, kind: JsonKind::Boolean(flag) },
        JsonNode::Object(entries) => {
            let ghost all = entries@;
            let ghost models = model.kind->Object_0;
            let mut rest = entries;
            let mut converted: Vec<(String, Json)> = Vec::new();
            while rest.len() > 0
                invariant
                    model == value_model(value),
                    model.kind == JsonKindModel::Object(models),
                    models.len() == all.len(),
                    forall|i: int|
                        0 <= i < all.len() ==> #[trigger] models[i] == (
                            all[i].0@,
                            value_model(all[i].1),
                        ),
                    converted@.len() + rest@.len() == all.len(),
                    rest@ == all.skip(converted@.len() as int),
                    forall|i: int|
                        0 <= i < converted@.len() ==> models[i] == (
                            (#[trigger] converted@[i]).0@,
                            converted@[i].1@,
                        ),
                decreases rest.len(),
            {
                let ghost at = converted@.len() as int;
                assert(rest@[0] == all[at]);
                let (key, member) = rest.remove(0);
                assert(models[at] == (key@, value_model(member)));
                assert(decreases_to!(model => model.kind));
                assert(decreases_to!(model.kind => model.kind->Object_0));
                assert(decreases_to!(models => models[at]));
                assert(decreases_to!(models[at] => models[at].1));
                converted.push((key, from_outside(member)));
                assert(rest@ == all.skip(at + 1));
            }
            proof {
                entries_model_at(converted@);
                assert(entries_model(converted@) =~= models);
            }
            Json { text, kind: JsonKind::Object(converted) }
        },
        JsonNode::Array(members) => {
            let ghost all = members@;
            let ghost models = model.kind->Array_0;
            let mut rest = members;
            let mut converted: Vec<Json> = Vec::new();
            while rest.len() > 0
                invariant
                    model == value_model(value),
                    model.kind == JsonKindModel::Array(models),
                    models.len() == all.len(),
                    forall|i: int|
                        0 <= i < all.len() ==> #[trigger] models[i] == value_model(all[i]),
                    converted@.len() + rest@.len() == all.len(),
                    rest@ == all.skip(converted@.len() as int),
                    forall|i: int|
                        0 <= i < converted@.len() ==> models[i] == (#[trigger] converted@[i])@,
                decreases rest.len(),
            {
                let ghost at = converted@.len() as int;
                assert(rest@[0] == all[at]);
                let member = rest.remove(0);
                assert(models[at] == value_model(member));
                assert(decreases_to!(model => model.kind));
                assert(decreases_to!(model.kind => model.kind->Array_0));
                assert(decreases_to!(models => models[at]));
                converted.push(from_outside(member));
                assert(rest@ == all.skip(at + 1));
            }
            proof {
                members_model_at(converted@);
                assert(members_model(converted@) =~= models);
            }
            Json { text, kind: JsonKind::Array(converted) }
        },
    }
}

/// What a text is as JSON: a value, or a message that says why it is none.
pub open spec fn json_outcome(text: Seq<char>) -> Result<JsonModel, Seq<char>> {
    if has_endless_fraction(text) {
        Err("fraction has too many digits"@)
    } else {
        parsed_value(text)
    }
}

/// Reads a text as JSON.
pub fn parse_json(text: &str) -> (parsed: Result<Json, String>)
    ensures
        match parsed {
            Ok(value) => json_outcome(text@) == Ok::<JsonModel, Seq<char>>(value@),
            Err(message) => json_outcome(text@) == Err::<JsonModel, Seq<char>>(message@),
        },
{
    if find_endless_fraction(text) {
        return Err("fraction has too many digits".to_owned());
    }
    match outside_parse(text) {
        Ok(value) => Ok(from_outside(value)),
        Err(message) => Err(message),
    }
}

} // verus!
