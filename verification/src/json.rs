//! JSON documents as the service sends them: a model of what a parsed document
//! holds, and the readers that take single members out of one.
//!
//! Parsing is done by `serde_json`. A parsed document is a `serde_json::Value`,
//! which the verifier cannot look into; [`json_of`] names what it holds, and the
//! functions at the end of this file say, each for one method of `Value`, how
//! the method's result relates to that.

use vstd::prelude::*;

verus! {

/// A JSON number, as far as this library reads one.
pub struct JsonNumber {
    /// The number as an unsigned integer, where the parser holds it as one.
    pub unsigned: Option<u64>,
    /// The bit pattern of the number as an IEEE-754 double.
    pub bits: u64,
}

/// What a JSON document holds.
pub enum JsonValue {
    Null,
    Bool(bool),
    Number(JsonNumber),
    Text(Seq<char>),
    Array(Seq<JsonValue>),
    Object(Map<Seq<char>, JsonValue>),
}

impl JsonValue {
    /// The member `key` of an object; `None` where there is no such member or
    /// the value is no object.
    pub open spec fn member(self, key: Seq<char>) -> Option<JsonValue> {
        match self {
            JsonValue::Object(members) => if members.contains_key(key) {
                Some(members[key])
            } else {
                None
            },
            _ => None,
        }
    }

    /// The value as an unsigned integer of 64 bits.
    pub open spec fn unsigned64(self) -> Option<u64> {
        match self {
            JsonValue::Number(number) => number.unsigned,
            _ => None,
        }
    }

    /// The value as an unsigned integer of 32 bits: `None` also where the
    /// number is too large for one.
    pub open spec fn unsigned32(self) -> Option<u32> {
        match self.unsigned64() {
            Some(n) => if n <= u32::MAX {
                Some(n as u32)
            } else {
                None
            },
            None => None,
        }
    }

    /// The bit pattern of the value as a double; any number has one.
    pub open spec fn double_bits(self) -> Option<u64> {
        match self {
            JsonValue::Number(number) => Some(number.bits),
            _ => None,
        }
    }

    /// The value as a boolean.
    pub open spec fn flag(self) -> Option<bool> {
        match self {
            JsonValue::Bool(b) => Some(b),
            _ => None,
        }
    }

    /// The value as a string.
    pub open spec fn text(self) -> Option<Seq<char>> {
        match self {
            JsonValue::Text(s) => Some(s),
            _ => None,
        }
    }

    /// The value as an array of strings: `None` where it is no array or one of
    /// its items is no string.
    pub open spec fn texts(self) -> Option<Seq<Seq<char>>> {
        match self {
            JsonValue::Array(items) => if forall|i: int|
                0 <= i < items.len() ==> (#[trigger] items[i]).text() is Some {
                Some(Seq::new(items.len(), |i: int| items[i].text()->0))
            } else {
                None
            },
            _ => None,
        }
    }
}

/// The member `key` of `object` read as a `u32`. The member must be there.
pub open spec fn field_u32(object: JsonValue, key: Seq<char>) -> Option<u32> {
    match object.member(key) {
        Some(value) => value.unsigned32(),
        None => None,
    }
}

/// The member `key` of `object` read as a `u64`. The member must be there.
pub open spec fn field_u64(object: JsonValue, key: Seq<char>) -> Option<u64> {
    match object.member(key) {
        Some(value) => value.unsigned64(),
        None => None,
    }
}

/// The member `key` of `object` read as the bits of a double. The member
/// must be there.
pub open spec fn field_double_bits(object: JsonValue, key: Seq<char>) -> Option<u64> {
    match object.member(key) {
        Some(value) => value.double_bits(),
        None => None,
    }
}

/// The member `key` of `object` read as a boolean. The member must be there.
pub open spec fn field_flag(object: JsonValue, key: Seq<char>) -> Option<bool> {
    match object.member(key) {
        Some(value) => value.flag(),
        None => None,
    }
}

/// The member `key` of `object` read as a string. The member must be there.
pub open spec fn field_text(object: JsonValue, key: Seq<char>) -> Option<Seq<char>> {
    match object.member(key) {
        Some(value) => value.text(),
        None => None,
    }
}

/// The member `key` of `object` read as an array of strings. The member must
/// be there.
pub open spec fn field_texts(object: JsonValue, key: Seq<char>) -> Option<Seq<Seq<char>>> {
    match object.member(key) {
        Some(value) => value.texts(),
        None => None,
    }
}

/// The member `key` of `object` read as a `u32` that may be absent. A missing
/// member and `null` both read as absent (`Some(None)`); a member that is
/// there and is neither `null` nor a `u32` does not read at all (`None`).
pub open spec fn optional_u32(object: JsonValue, key: Seq<char>) -> Option<Option<u32>> {
    match object.member(key) {
        None => Some(None),
        Some(JsonValue::Null) => Some(None),
        Some(value) => match value.unsigned32() {
            Some(n) => Some(Some(n)),
            None => None,
        },
    }
}

/// The member `key` of `object` read as a string that may be absent, by the
/// rules of [`optional_u32`].
pub open spec fn optional_text(object: JsonValue, key: Seq<char>) -> Option<Option<Seq<char>>> {
    match object.member(key) {
        None => Some(None),
        Some(JsonValue::Null) => Some(None),
        Some(value) => match value.text() {
            Some(s) => Some(Some(s)),
            None => None,
        },
    }
}

/// Reads the member `key` of `object` as a `u32`.
pub(crate) fn read_u32(object: &serde_json::Value, key: &str) -> (r: Option<u32>)
    ensures
        r == field_u32(json_of(*object), key@),
{
    match member(object, key) {
        Some(value) => to_u32(value),
        None => None,
    }
}

/// Reads the member `key` of `object` as a `u64`.
pub(crate) fn read_u64(object: &serde_json::Value, key: &str) -> (r: Option<u64>)
    ensures
        r == field_u64(json_of(*object), key@),
{
    match member(object, key) {
        Some(value) => as_unsigned(value),
        None => None,
    }
}

/// Reads the member `key` of `object` as the bits of a double.
pub(crate) fn read_double_bits(object: &serde_json::Value, key: &str) -> (r: Option<u64>)
    ensures
        r == field_double_bits(json_of(*object), key@),
{
    match member(object, key) {
        Some(value) => as_double_bits(value),
        None => None,
    }
}

/// Reads the member `key` of `object` as a boolean.
pub(crate) fn read_flag(object: &serde_json::Value, key: &str) -> (r: Option<bool>)
    ensures
        r == field_flag(json_of(*object), key@),
{
    match member(object, key) {
        Some(value) => as_flag(value),
        None => None,
    }
}

/// Reads the member `key` of `object` as a string.
pub(crate) fn read_text(object: &serde_json::Value, key: &str) -> (r: Option<String>)
    ensures
        match r {
            Some(s) => field_text(json_of(*object), key@) == Some(s@),
            None => field_text(json_of(*object), key@) is None,
        },
{
    match member(object, key) {
        Some(value) => to_text(value),
        None => None,
    }
}

/// Reads the member `key` of `object` as an array of strings.
pub(crate) fn read_texts(object: &serde_json::Value, key: &str) -> (r: Option<Vec<String>>)
    ensures
        match r {
            Some(list) => field_texts(json_of(*object), key@) == Some(text_views(list@)),
            None => field_texts(json_of(*object), key@) is None,
        },
{
    let value = match member(object, key) {
        Some(value) => value,
        None => return None,
    };
    let items = match as_items(value) {
        Some(items) => items,
        None => return None,
    };
    let ghost models = items@.map_values(|item: serde_json::Value| json_of(item));
    let mut list: Vec<String> = Vec::new();
    let mut i: usize = 0;
    while i < items.len()
        invariant
            i <= items.len(),
            models == items@.map_values(|item: serde_json::Value| json_of(item)),
            json_of(*value) == JsonValue::Array(models),
            json_of(*object).member(key@) == Some(json_of(*value)),
            list@.len() == i,
            forall|k: int| 0 <= k < i ==> models[k].text() == Some(#[trigger] list@[k]@),
        decreases items.len() - i,
    {
        assert(models[i as int] == json_of(items@[i as int]));
        match to_text(&items[i]) {
            Some(s) => {
                list.push(s);
            },
            None => {
                assert(models[i as int].text() is None);
                assert(json_of(*value).texts() is None);
                return None;
            },
        }
        i = i + 1;
    }
    assert forall|k: int| 0 <= k < models.len() implies (#[trigger] models[k]).text() is Some by {
        assert(models[k].text() == Some(list@[k]@));
    }
    assert(text_views(list@) =~= Seq::new(models.len(), |k: int| models[k].text()->0)) by {
        assert forall|k: int| 0 <= k < list@.len() implies text_views(list@)[k]
            == models[k].text()->0 by {
            assert(models[k].text() == Some(list@[k]@));
        }
    }
    Some(list)
}

/// Reads the member `key` of `object` as a `u32` that may be absent.
pub(crate) fn read_optional_u32(object: &serde_json::Value, key: &str) -> (r: Option<Option<u32>>)
    ensures
        r == optional_u32(json_of(*object), key@),
{
    match member(object, key) {
        None => Some(None),
        Some(value) => {
            if is_null(value) {
                Some(None)
            } else {
                match to_u32(value) {
                    Some(n) => Some(Some(n)),
                    None => None,
                }
            }
        },
    }
}

/// Reads the member `key` of `object` as a string that may be absent.
pub(crate) fn read_optional_text(object: &serde_json::Value, key: &str) -> (r: Option<Option<String>>)
    ensures
        match r {
            Some(Some(s)) => optional_text(json_of(*object), key@) == Some(Some(s@)),
            Some(None) => optional_text(json_of(*object), key@) == Some(None::<Seq<char>>),
            None => optional_text(json_of(*object), key@) is None,
        },
{
    match member(object, key) {
        None => Some(None),
        Some(value) => {
            if is_null(value) {
                Some(None)
            } else {
                match to_text(value) {
                    Some(s) => Some(Some(s)),
                    None => None,
                }
            }
        },
    }
}

/// The views of a list of strings.
pub open spec fn text_views(list: Seq<String>) -> Seq<Seq<char>> {
    list.map_values(|s: String| s@)
}

fn to_u32(value: &serde_json::Value) -> (r: Option<u32>)
    ensures
        r == json_of(*value).unsigned32(),
{
    match as_unsigned(value) {
        Some(n) => if n <= u32::MAX as u64 {
            Some(n as u32)
        } else {
            None
        },
        None => None,
    }
}

fn to_text(value: &serde_json::Value) -> (r: Option<String>)
    ensures
        match r {
            Some(s) => json_of(*value).text() == Some(s@),
            None => json_of(*value).text() is None,
        },
{
    match as_text(value) {
        Some(s) => Some(s.to_owned()),
        None => None,
    }
}

/// `serde_json::Value`, a parsed JSON document. Nothing inside it is
/// visible here: what is known of one is what the functions below say.
#[verifier::external_type_specification]
#[verifier::external_body]
pub struct ExValue(serde_json::Value);

/// What a parsed document holds.
pub uninterp spec fn json_of(value: serde_json::Value) -> JsonValue;

/// What the JSON document `text` holds; `None` where `text` is no JSON
/// document.
pub uninterp spec fn json_document(text: Seq<char>) -> Option<JsonValue>;

/// Calls `serde_json::from_str` for a `Value`, and gives `None` where that
/// fails. The contract names the outcome: it depends on the text alone.
#[verifier::external_body]
pub(crate) fn parse(text: &str) -> (r: Option<serde_json::Value>)
    ensures
        match r {
            Some(value) => json_document(text@) == Some(json_of(value)),
            None => json_document(text@) is None,
        },
{
    serde_json::from_str(text).ok()
}

/// Calls `Value::get` with a string: the member of that name where the value
/// is an object that has one, `None` otherwise.
#[verifier::external_body]
pub(crate) fn member<'a>(value: &'a serde_json::Value, key: &str) -> (r: Option<
    &'a serde_json::Value,
>)
    ensures
        match r {
            Some(found) => json_of(*value).member(key@) == Some(json_of(*found)),
            None => json_of(*value).member(key@) is None,
        },
{
    value.get(key)
}

/// Calls `Value::is_null`.
#[verifier::external_body]
pub(crate) fn is_null(value: &serde_json::Value) -> (r: bool)
    ensures
        r == (json_of(*value) is Null),
{
    value.is_null()
}

/// Calls `Value::as_bool`: the boolean where the value is one.
#[verifier::external_body]
pub(crate) fn as_flag(value: &serde_json::Value) -> (r: Option<bool>)
    ensures
        r == json_of(*value).flag(),
{
    value.as_bool()
}

/// Calls `Value::as_u64`: the integer where the value is a number that the
/// parser holds as an unsigned integer.
#[verifier::external_body]
pub(crate) fn as_unsigned(value: &serde_json::Value) -> (r: Option<u64>)
    ensures
        r == json_of(*value).unsigned64(),
{
    value.as_u64()
}

/// Calls `Value::as_f64`, which gives a double for every number, and hands
/// out the double's bit pattern.
#[verifier::external_body]
pub(crate) fn as_double_bits(value: &serde_json::Value) -> (r: Option<u64>)
    ensures
        r == json_of(*value).double_bits(),
{
    match value.as_f64() {
        Some(double) => Some(double.to_bits()),
        None => None,
    }
}

/// Calls `Value::as_str`: the string where the value is one.
#[verifier::external_body]
pub(crate) fn as_text<'a>(value: &'a serde_json::Value) -> (r: Option<&'a str>)
    ensures
        match r {
            Some(s) => json_of(*value).text() == Some(s@),
            None => json_of(*value).text() is None,
        },
{
    value.as_str()
}

/// Calls `Value::as_array`: the items, in order, where the value is an array.
#[verifier::external_body]
pub(crate) fn as_items<'a>(value: &'a serde_json::Value) -> (r: Option<
    &'a Vec<serde_json::Value>,
>)
    ensures
        match r {
            Some(items) => json_of(*value) == JsonValue::Array(
                items@.map_values(|item: serde_json::Value| json_of(item)),
            ),
            None => !(json_of(*value) is Array),
        },
{
    value.as_array()
}

} // verus!
