//! JSON documents as `serde_json` holds them.
//!
//! The library never looks inside a `serde_json::Value` itself. It reads and
//! builds values through the functions of this module, and states what they do
//! over [`Json`], the mathematical content of a value. Nothing here is proved:
//! each item says in its doc comment which function of `serde_json` it stands
//! for and what it assumes of it.
use serde_json::Value;
use vstd::prelude::*;

verus! {

/// `serde_json::Value`, taken as it is. What one holds is [`value_model`] of
/// it; nothing else is known of it.
#[verifier::external_type_specification]
#[verifier::external_body]
pub struct ExValue(serde_json::Value);

/// A JSON number in the three forms in which `serde_json` stores one.
pub enum JsonNumber {
    /// A non-negative integer.
    Unsigned(u64),
    /// An integer below zero.
    Negative(i64),
    /// Any other finite number, by the bits of its double.
    Float(u64),
}

/// The mathematical content of a JSON document. An object maps each key to one
/// value; its keys carry no order.
pub enum Json {
    Null,
    Bool(bool),
    Number(JsonNumber),
    String(Seq<char>),
    Array(Seq<Json>),
    Object(Map<Seq<char>, Json>),
}

/// The document that a `serde_json::Value` holds.
pub uninterp spec fn value_model(v: Value) -> Json;

/// The document that `serde_json::from_slice` reads from a text, or `None`
/// where it reports an error.
pub uninterp spec fn json_parse(text: Seq<u8>) -> Option<Json>;

/// The bytes that `serde_json::to_vec` writes for a document, or `None` where
/// it reports an error.
pub uninterp spec fn json_bytes(j: Json) -> Option<Seq<u8>>;

/// The characters that `serde_json::to_string` writes for a document, or `None`
/// where it reports an error.
pub uninterp spec fn json_text(j: Json) -> Option<Seq<char>>;

/// The documents held by a sequence of values.
pub open spec fn models(s: Seq<Value>) -> Seq<Json> {
    s.map_values(|v: Value| value_model(v))
}

/// The document held by an optional value.
pub open spec fn model_of(r: Option<Value>) -> Option<Json> {
    match r {
        Some(v) => Some(value_model(v)),
        None => None,
    }
}

/// The document held by an optional reference to a value.
pub open spec fn model_of_ref(r: Option<&Value>) -> Option<Json> {
    match r {
        Some(v) => Some(value_model(*v)),
        None => None,
    }
}

/// The characters of each text of a sequence.
pub open spec fn texts(s: Seq<String>) -> Seq<Seq<char>> {
    s.map_values(|t: String| t@)
}

/// The value under `key` in an object; `None` for a missing key and for
/// anything that is not an object.
pub open spec fn member(j: Json, key: Seq<char>) -> Option<Json> {
    match j {
        Json::Object(m) => if m.dom().contains(key) {
            Some(m[key])
        } else {
            None
        },
        _ => None,
    }
}

/// The element at `index` in an array; `None` out of bounds and for anything
/// that is not an array.
pub open spec fn element(j: Json, index: int) -> Option<Json> {
    match j {
        Json::Array(a) => if 0 <= index < a.len() {
            Some(a[index])
        } else {
            None
        },
        _ => None,
    }
}

/// An object with `key` set to `x`; other keys keep their values.
pub open spec fn with_member(j: Json, key: Seq<char>, x: Json) -> Json {
    match j {
        Json::Object(m) => Json::Object(m.insert(key, x)),
        _ => j,
    }
}

/// A number as an unsigned 64-bit integer, where it is one.
pub open spec fn number_u64(n: JsonNumber) -> Option<u64> {
    match n {
        JsonNumber::Unsigned(u) => Some(u),
        _ => None,
    }
}

/// A number as a signed 64-bit integer, where it is one.
pub open spec fn number_i64(n: JsonNumber) -> Option<i64> {
    match n {
        JsonNumber::Unsigned(u) => if u <= i64::MAX {
            Some(u as i64)
        } else {
            None
        },
        JsonNumber::Negative(i) => Some(i),
        JsonNumber::Float(_) => None,
    }
}

/// `serde_json::from_slice`, read into a `Value`: the document that the text
/// holds, or `None` where the text is not one JSON document.
#[verifier::external_body]
pub(crate) fn parse(text: &[u8]) -> (r: Option<Value>)
    ensures
        model_of(r) == json_parse(text@),
{
    serde_json::from_slice::<Value>(text).ok()
}

/// `serde_json::to_vec` of a `Value`: its compact JSON text as bytes.
#[verifier::external_body]
pub(crate) fn to_bytes(v: &Value) -> (r: Option<Vec<u8>>)
    ensures
        r is Some == json_bytes(value_model(*v)) is Some,
        r matches Some(b) ==> json_bytes(value_model(*v)) == Some(b@),
{
    serde_json::to_vec(v).ok()
}

/// `serde_json::to_string` of a `Value`: its compact JSON text.
#[verifier::external_body]
pub(crate) fn to_text(v: &Value) -> (r: Option<String>)
    ensures
        r is Some == json_text(value_model(*v)) is Some,
        r matches Some(s) ==> json_text(value_model(*v)) == Some(s@),
{
    serde_json::to_string(v).ok()
}

/// `Value::get` with a string index: the value under that key of an object.
#[verifier::external_body]
pub(crate) fn get_member<'a>(v: &'a Value, key: &str) -> (r: Option<&'a Value>)
    ensures
        model_of_ref(r) == member(value_model(*v), key@),
{
    v.get(key)
}

/// `Value::get` with a `usize` index: the element at that place of an array.
#[verifier::external_body]
pub(crate) fn get_element<'a>(v: &'a Value, index: usize) -> (r: Option<&'a Value>)
    ensures
        model_of_ref(r) == element(value_model(*v), index as int),
{
    v.get(index)
}

/// `Map::keys` on the map of an object: each key of the object, once.
#[verifier::external_body]
pub(crate) fn object_keys(v: &Value) -> (r: Vec<String>)
    requires
        value_model(*v) is Object,
    ensures
        texts(r@).to_set() == value_model(*v)->Object_0.dom(),
{
    v.as_object().unwrap().keys().cloned().collect()
}

/// `Map::new` inside `Value::Object`: the object without keys.
#[verifier::external_body]
pub(crate) fn empty_object() -> (r: Value)
    ensures
        value_model(r) == Json::Object(Map::empty()),
{
    Value::Object(serde_json::Map::new())
}

/// `Value::String`: the string with these characters.
#[verifier::external_body]
pub(crate) fn string_value(s: String) -> (r: Value)
    ensures
        value_model(r) == Json::String(s@),
{
    Value::String(s)
}

/// `Value::Array`: the array of these values, in their order.
#[verifier::external_body]
pub(crate) fn array_value(items: Vec<Value>) -> (r: Value)
    ensures
        value_model(r) == Json::Array(models(items@)),
{
    Value::Array(items)
}

/// Assignment through `IndexMut` with a string index: sets `key` of an object
/// to `x`, whether or not the key was there. On anything but an object or
/// null `serde_json` panics, so only objects are admitted.
#[verifier::external_body]
pub(crate) fn set_member(v: &mut Value, key: &str, x: Value)
    requires
        value_model(*old(v)) is Object,
    ensures
        value_model(*final(v)) == with_member(value_model(*old(v)), key@, value_model(x)),
{
    v[key] = x;
}

/// `Value::clone` gives a value with the same content.
pub assume_specification[ <Value as Clone>::clone ](v: &Value) -> (r: Value)
    ensures
        value_model(r) == value_model(*v),
;

/// `Value::is_object` tells whether the value is an object.
pub assume_specification[ Value::is_object ](v: &Value) -> (r: bool)
    ensures
        r == (value_model(*v) is Object),
;

/// `Value::is_null` tells whether the value is null.
pub assume_specification[ Value::is_null ](v: &Value) -> (r: bool)
    ensures
        r == (value_model(*v) is Null),
;

/// `Value::as_bool` gives the boolean of a boolean value.
pub assume_specification[ Value::as_bool ](v: &Value) -> (r: Option<bool>)
    ensures
        r == (match value_model(*v) {
            Json::Bool(b) => Some(b),
            _ => None,
        }),
;

/// `Value::as_u64` gives the integer of a number stored as a non-negative
/// integer.
pub assume_specification[ Value::as_u64 ](v: &Value) -> (r: Option<u64>)
    ensures
        r == (match value_model(*v) {
            Json::Number(n) => number_u64(n),
            _ => None,
        }),
;

/// `Value::as_i64` gives the integer of a number stored as an integer that
/// fits 64 signed bits.
pub assume_specification[ Value::as_i64 ](v: &Value) -> (r: Option<i64>)
    ensures
        r == (match value_model(*v) {
            Json::Number(n) => number_i64(n),
            _ => None,
        }),
;

/// `Value::as_str` gives the text of a string value.
pub assume_specification<'a>[ Value::as_str ](v: &'a Value) -> (r: Option<&'a str>)
    ensures
        r is Some == (value_model(*v) is String),
        r matches Some(s) ==> value_model(*v) == Json::String(s@),
;

/// `Value::as_array` gives the elements of an array value.
pub assume_specification<'a>[ Value::as_array ](v: &'a Value) -> (r: Option<&'a Vec<Value>>)
    ensures
        r is Some == (value_model(*v) is Array),
        r matches Some(a) ==> value_model(*v) == Json::Array(models(a@)),
;

} // verus!
