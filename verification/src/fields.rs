//! Reading single fields of a JSON object by the rules of the moderation
//! service's schema.
//!
//! Each reader answers `None` where the field is there but has the wrong
//! type: the whole reply is then malformed. A field that may be missing
//! has a reader that says what stands in for it.
use crate::extract::opt_text;
use crate::json::{get_member, member, models, number_i64, number_u64, texts, value_model, Json};
use serde_json::Value;
use vstd::prelude::*;

verus! {

/// A field that must be a string.
pub open spec fn text_field(j: Json, key: Seq<char>) -> Option<Seq<char>> {
    match member(j, key) {
        Some(Json::String(s)) => Some(s),
        _ => None,
    }
}

/// A string field that is empty where it is missing.
pub open spec fn text_field_or_empty(j: Json, key: Seq<char>) -> Option<Seq<char>> {
    match member(j, key) {
        None => Some(Seq::empty()),
        Some(Json::String(s)) => Some(s),
        Some(_) => None,
    }
}

/// A string field that may be missing or null.
pub open spec fn opt_text_field(j: Json, key: Seq<char>) -> Option<Option<Seq<char>>> {
    match member(j, key) {
        None => Some(None),
        Some(Json::Null) => Some(None),
        Some(Json::String(s)) => Some(Some(s)),
        Some(_) => None,
    }
}

/// A boolean field that is `false` where it is missing.
pub open spec fn flag_field_or_false(j: Json, key: Seq<char>) -> Option<bool> {
    match member(j, key) {
        None => Some(false),
        Some(Json::Bool(b)) => Some(b),
        Some(_) => None,
    }
}

/// Whether every element of an array is a string.
pub open spec fn all_strings(a: Seq<Json>) -> bool {
    forall|i: int| 0 <= i < a.len() ==> (#[trigger] a[i]) is String
}

/// The texts of an array of strings.
pub open spec fn strings_of(a: Seq<Json>) -> Seq<Seq<char>> {
    a.map_values(|x: Json| x->String_0)
}

/// A field that holds an array of strings, empty where it is missing.
pub open spec fn texts_field_or_empty(j: Json, key: Seq<char>) -> Option<Seq<Seq<char>>> {
    match member(j, key) {
        None => Some(Seq::empty()),
        Some(Json::Array(a)) => if all_strings(a) {
            Some(strings_of(a))
        } else {
            None
        },
        Some(_) => None,
    }
}

/// A field that holds an integer of 32 signed bits, zero where it is missing.
pub open spec fn i32_field_or_zero(j: Json, key: Seq<char>) -> Option<i32> {
    match member(j, key) {
        None => Some(0i32),
        Some(Json::Number(n)) => match number_i64(n) {
            Some(i) => if i32::MIN <= i <= i32::MAX {
                Some(i as i32)
            } else {
                None
            },
            None => None,
        },
        Some(_) => None,
    }
}

/// A field that must hold an integer of 16 unsigned bits.
pub open spec fn u16_field(j: Json, key: Seq<char>) -> Option<u16> {
    match member(j, key) {
        Some(Json::Number(n)) => match number_u64(n) {
            Some(u) => if u <= u16::MAX {
                Some(u as u16)
            } else {
                None
            },
            None => None,
        },
        _ => None,
    }
}

/// A field that holds an array of any values, and may be missing or null.
pub open spec fn opt_array_field(j: Json, key: Seq<char>) -> Option<Option<Seq<Json>>> {
    match member(j, key) {
        None => Some(None),
        Some(Json::Null) => Some(None),
        Some(Json::Array(a)) => Some(Some(a)),
        Some(_) => None,
    }
}

/// The characters of a text that may be missing, of a reader that may fail.
pub open spec fn opt_opt_text(r: Option<Option<String>>) -> Option<Option<Seq<char>>> {
    match r {
        Some(o) => Some(opt_text(o)),
        None => None,
    }
}

/// The texts of a list that a reader may fail to give.
pub open spec fn opt_texts(r: Option<Vec<String>>) -> Option<Seq<Seq<char>>> {
    match r {
        Some(v) => Some(texts(v@)),
        None => None,
    }
}

/// The documents of a list that may be missing, of a reader that may fail.
pub open spec fn opt_opt_models(r: Option<Option<Vec<Value>>>) -> Option<Option<Seq<Json>>> {
    match r {
        Some(Some(v)) => Some(Some(models(v@))),
        Some(None) => Some(None),
        None => None,
    }
}

/// Reads a field that must be a string.
pub fn read_text(obj: &Value, key: &str) -> (r: Option<String>)
    ensures
        opt_text(r) == text_field(value_model(*obj), key@),
{
    match get_member(obj, key) {
        Some(v) => match v.as_str() {
            Some(s) => Some(s.to_owned()),
            None => None,
        },
        None => None,
    }
}

/// Reads a string field that is empty where it is missing.
pub fn read_text_or_empty(obj: &Value, key: &str) -> (r: Option<String>)
    ensures
        opt_text(r) == text_field_or_empty(value_model(*obj), key@),
{
    match get_member(obj, key) {
        Some(v) => match v.as_str() {
            Some(s) => Some(s.to_owned()),
            None => None,
        },
        None => Some(String::new()),
    }
}

/// Reads a string field that may be missing or null.
pub fn read_opt_text(obj: &Value, key: &str) -> (r: Option<Option<String>>)
    ensures
        opt_opt_text(r) == opt_text_field(value_model(*obj), key@),
{
    match get_member(obj, key) {
        Some(v) => {
            if v.is_null() {
                Some(None)
            } else {
                match v.as_str() {
                    Some(s) => Some(Some(s.to_owned())),
                    None => None,
                }
            }
        },
        None => Some(None),
    }
}

/// Reads a boolean field that is `false` where it is missing.
pub fn read_flag_or_false(obj: &Value, key: &str) -> (r: Option<bool>)
    ensures
        r == flag_field_or_false(value_model(*obj), key@),
{
    match get_member(obj, key) {
        Some(v) => v.as_bool(),
        None => Some(false),
    }
}

/// Reads a field that holds an array of strings, empty where it is missing.
pub fn read_texts_or_empty(obj: &Value, key: &str) -> (r: Option<Vec<String>>)
    ensures
        opt_texts(r) == texts_field_or_empty(value_model(*obj), key@),
{
    let field = match get_member(obj, key) {
        Some(v) => v,
        None => {
            let out: Vec<String> = Vec::new();
            return Some(out);
        },
    };
    let items = match field.as_array() {
        Some(a) => a,
        None => return None,
    };
    let ghost a = models(items@);
    let mut out: Vec<String> = Vec::new();
    let mut i: usize = 0;
    while i < items.len()
        invariant
            i <= items.len(),
            out.len() == i,
            a == models(items@),
            member(value_model(*obj), key@) == Some(Json::Array(a)),
            forall|k: int| 0 <= k < i ==> (#[trigger] a[k]) is String,
            forall|k: int| 0 <= k < i ==> (#[trigger] out@[k])@ == a[k]->String_0,
        decreases items.len() - i,
    {
        match items[i].as_str() {
            Some(s) => {
                out.push(s.to_owned());
            },
            None => {
                assert(!(a[i as int] is String));
                return None;
            },
        }
        i += 1;
    }
    Some(out)
}

/// Reads a field that holds an integer of 32 signed bits, zero where it is
/// missing.
pub fn read_i32_or_zero(obj: &Value, key: &str) -> (r: Option<i32>)
    ensures
        r == i32_field_or_zero(value_model(*obj), key@),
{
    match get_member(obj, key) {
        Some(v) => match v.as_i64() {
            Some(i) => {
                if -2147483648 <= i && i <= 2147483647 {
                    Some(i as i32)
                } else {
                    None
                }
            },
            None => None,
        },
        None => Some(0),
    }
}

/// Reads a field that must hold an integer of 16 unsigned bits.
pub fn read_u16(obj: &Value, key: &str) -> (r: Option<u16>)
    ensures
        r == u16_field(value_model(*obj), key@),
{
    match get_member(obj, key) {
        Some(v) => match v.as_u64() {
            Some(u) => {
                if u <= 65535 {
                    Some(u as u16)
                } else {
                    None
                }
            },
            None => None,
        },
        None => None,
    }
}

/// Reads a field that holds an array of any values, and may be missing or
/// null.
pub fn read_opt_array(obj: &Value, key: &str) -> (r: Option<Option<Vec<Value>>>)
    ensures
        opt_opt_models(r) == opt_array_field(value_model(*obj), key@),
{
    match get_member(obj, key) {
        Some(v) => {
            if v.is_null() {
                Some(None)
            } else {
                match v.as_array() {
                    Some(a) => Some(Some(crate::extract::clone_values(a.as_slice()))),
                    None => None,
                }
            }
        },
        None => Some(None),
    }
}


/// A boolean field that is `true` where it is missing.
pub open spec fn flag_field_or_true(j: Json, key: Seq<char>) -> Option<bool> {
    match member(j, key) {
        None => Some(true),
        Some(Json::Bool(b)) => Some(b),
        Some(_) => None,
    }
}

/// A field that holds an integer of 64 unsigned bits, `absent` where it is
/// missing.
pub open spec fn u64_field_or(j: Json, key: Seq<char>, absent: u64) -> Option<u64> {
    match member(j, key) {
        None => Some(absent),
        Some(Json::Number(n)) => number_u64(n),
        Some(_) => None,
    }
}

/// Reads a boolean field that is `true` where it is missing.
pub fn read_flag_or_true(obj: &Value, key: &str) -> (r: Option<bool>)
    ensures
        r == flag_field_or_true(value_model(*obj), key@),
{
    match get_member(obj, key) {
        Some(v) => v.as_bool(),
        None => Some(true),
    }
}

/// Reads a field that holds an integer of 64 unsigned bits, `absent` where it
/// is missing.
pub fn read_u64_or(obj: &Value, key: &str, absent: u64) -> (r: Option<u64>)
    ensures
        r == u64_field_or(value_model(*obj), key@, absent),
{
    match get_member(obj, key) {
        Some(v) => v.as_u64(),
        None => Some(absent),
    }
}

} // verus!
