//! Reading chat messages and assistant content out of JSON bodies, and writing
//! new values back.
//!
//! Every function here is total. A body that is not JSON, or that lacks the
//! field in question, is no fault: readers answer `None` or `false`, and
//! writers hand the body back byte for byte.
use crate::json::{
    array_value, element, get_element, get_member, json_bytes, json_parse, json_text, member,
    model_of, models, parse, set_member, string_value, to_bytes, to_text, value_model, with_member,
    Json,
};
use serde_json::Value;
use vstd::prelude::*;
use vstd::slice::slice_to_vec;

verus! {

/// The characters of an optional text.
pub open spec fn opt_text(r: Option<String>) -> Option<Seq<char>> {
    match r {
        Some(s) => Some(s@),
        None => None,
    }
}

/// The bytes of an optional byte vector.
pub open spec fn opt_bytes(r: Option<Vec<u8>>) -> Option<Seq<u8>> {
    match r {
        Some(b) => Some(b@),
        None => None,
    }
}

/// The documents of an optional list of values.
pub open spec fn opt_models(r: Option<Vec<Value>>) -> Option<Seq<Json>> {
    match r {
        Some(v) => Some(models(v@)),
        None => None,
    }
}

/// The `messages` array of a document.
pub open spec fn messages_in(j: Json) -> Option<Seq<Json>> {
    match member(j, "messages"@) {
        Some(Json::Array(a)) => Some(a),
        _ => None,
    }
}

/// The `messages` array of a request body.
pub open spec fn messages_of(body: Seq<u8>) -> Option<Seq<Json>> {
    match json_parse(body) {
        Some(j) => messages_in(j),
        None => None,
    }
}

/// Whether a request body asks for a streamed answer: its `stream` field,
/// where that is a boolean.
pub open spec fn streaming_of(body: Seq<u8>) -> bool {
    match json_parse(body) {
        Some(j) => match member(j, "stream"@) {
            Some(Json::Bool(b)) => b,
            _ => false,
        },
        None => false,
    }
}

/// The first choice of a completion: `choices[0]`.
pub open spec fn first_choice(j: Json) -> Option<Json> {
    match member(j, "choices"@) {
        Some(c) => element(c, 0),
        None => None,
    }
}

/// The message of the first choice: `choices[0].message`.
pub open spec fn first_message(j: Json) -> Option<Json> {
    match first_choice(j) {
        Some(f) => member(f, "message"@),
        None => None,
    }
}

/// The assistant's text in a completion: `choices[0].message.content`, where
/// that is a string.
pub open spec fn content_in(j: Json) -> Option<Seq<char>> {
    match first_message(j) {
        Some(m) => match member(m, "content"@) {
            Some(Json::String(s)) => Some(s),
            _ => None,
        },
        None => None,
    }
}

/// The assistant's text in a response body.
pub open spec fn content_of(body: Seq<u8>) -> Option<Seq<char>> {
    match json_parse(body) {
        Some(j) => content_in(j),
        None => None,
    }
}

/// A document with its `messages` field replaced, where it has one.
pub open spec fn with_messages(j: Json, messages: Seq<Json>) -> Option<Json> {
    if member(j, "messages"@) is Some {
        Some(with_member(j, "messages"@, Json::Array(messages)))
    } else {
        None
    }
}

/// A document with its top-level `model` field replaced, where it has one.
pub open spec fn with_model(j: Json, model: Seq<char>) -> Option<Json> {
    if member(j, "model"@) is Some {
        Some(with_member(j, "model"@, Json::String(model)))
    } else {
        None
    }
}

/// A completion with `choices[0].message.content` replaced, where it has that
/// field. Everything else in the document stays.
pub open spec fn with_content(j: Json, content: Seq<char>) -> Option<Json> {
    match first_message(j) {
        Some(m) => if member(m, "content"@) is Some {
            let message = with_member(m, "content"@, Json::String(content));
            let choice = with_member(first_choice(j)->0, "message"@, message);
            let choices = member(j, "choices"@)->0->Array_0.update(0, choice);
            Some(with_member(j, "choices"@, Json::Array(choices)))
        } else {
            None
        },
        None => None,
    }
}

/// The bytes of a rewritten document; `None` where there is nothing to
/// rewrite or the document cannot be written.
pub open spec fn written(j: Option<Json>) -> Option<Seq<u8>> {
    match j {
        Some(j) => json_bytes(j),
        None => None,
    }
}

/// The body that [`rebuild_request_body`] returns.
pub open spec fn rebuilt_request(body: Seq<u8>, messages: Seq<Json>) -> Seq<u8> {
    match json_parse(body) {
        Some(j) => match written(with_messages(j, messages)) {
            Some(b) => b,
            None => body,
        },
        None => body,
    }
}

/// The body that [`rebuild_response_body`] returns.
pub open spec fn rebuilt_response(body: Seq<u8>, content: Seq<char>) -> Seq<u8> {
    match json_parse(body) {
        Some(j) => match written(with_content(j, content)) {
            Some(b) => b,
            None => body,
        },
        None => body,
    }
}

/// A request body with its `model` field rewritten, or `None` where there is
/// nothing to rewrite or the body cannot be written again.
pub open spec fn rewritten_model(body: Seq<u8>, model: Seq<char>) -> Option<Seq<u8>> {
    match json_parse(body) {
        Some(j) => written(with_model(j, model)),
        None => None,
    }
}

/// The body that [`rewrite_model_field`] returns.
pub open spec fn rebuilt_model(body: Seq<u8>, model: Seq<char>) -> Seq<u8> {
    match rewritten_model(body, model) {
        Some(b) => b,
        None => body,
    }
}

/// The text that [`rebuild_proxy_response_body`] returns.
pub open spec fn rebuilt_proxy_response(body: Seq<char>, content: Seq<char>) -> Seq<char> {
    match json_parse(vstd::utf8::encode_utf8(body)) {
        Some(j) => match with_content(j, content) {
            Some(n) => match json_text(n) {
                Some(t) => t,
                None => body,
            },
            None => body,
        },
        None => body,
    }
}

/// Copies a list of values.
pub fn clone_values(items: &[Value]) -> (r: Vec<Value>)
    ensures
        models(r@) == models(items@),
{
    let mut out: Vec<Value> = Vec::new();
    let mut i: usize = 0;
    while i < items.len()
        invariant
            i <= items.len(),
            out.len() == i,
            forall|k: int| 0 <= k < i ==> value_model(#[trigger] out@[k]) == value_model(items@[k]),
        decreases items.len() - i,
    {
        out.push(items[i].clone());
        i += 1;
    }
    out
}

/// The `messages` array of a request body, or `None` where the body is not
/// JSON or has no such array.
pub fn parse_messages(body: &[u8]) -> (r: Option<Vec<Value>>)
    ensures
        opt_models(r) == messages_of(body@),
{
    let json = match parse(body) {
        Some(j) => j,
        None => return None,
    };
    let field = match get_member(&json, "messages") {
        Some(f) => f,
        None => return None,
    };
    match field.as_array() {
        Some(a) => Some(clone_values(a.as_slice())),
        None => None,
    }
}

/// Whether a request body asks for a streamed answer. `false` where the body
/// is not JSON or says nothing of it.
pub fn check_streaming(body: &[u8]) -> (r: bool)
    ensures
        r == streaming_of(body@),
{
    let json = match parse(body) {
        Some(j) => j,
        None => return false,
    };
    match get_member(&json, "stream") {
        Some(v) => match v.as_bool() {
            Some(b) => b,
            None => false,
        },
        None => false,
    }
}

/// The assistant's text in a parsed completion.
fn content_of_value(json: &Value) -> (r: Option<String>)
    ensures
        opt_text(r) == content_in(value_model(*json)),
{
    let choices = match get_member(json, "choices") {
        Some(c) => c,
        None => return None,
    };
    let first = match get_element(choices, 0) {
        Some(f) => f,
        None => return None,
    };
    let message = match get_member(first, "message") {
        Some(m) => m,
        None => return None,
    };
    let content = match get_member(message, "content") {
        Some(c) => c,
        None => return None,
    };
    match content.as_str() {
        Some(s) => Some(s.to_owned()),
        None => None,
    }
}

/// The assistant's text in a response body: `choices[0].message.content`.
/// `None` where the body is not JSON or any step of that path is missing.
pub fn extract_response_content(body: &[u8]) -> (r: Option<String>)
    ensures
        opt_text(r) == content_of(body@),
{
    match parse(body) {
        Some(json) => content_of_value(&json),
        None => None,
    }
}

/// The assistant's text in a response body held as text.
pub fn extract_content_from_body(body: &str) -> (r: Option<String>)
    ensures
        opt_text(r) == content_of(vstd::utf8::encode_utf8(body@)),
{
    extract_response_content(body.as_bytes())
}

/// A parsed request with its `messages` replaced.
fn replace_messages(json: Value, messages: &[Value]) -> (r: Option<Value>)
    ensures
        model_of(r) == with_messages(value_model(json), models(messages@)),
{
    if get_member(&json, "messages").is_none() {
        return None;
    }
    let mut out = json;
    set_member(&mut out, "messages", array_value(clone_values(messages)));
    Some(out)
}

/// A parsed request with its `model` replaced.
fn replace_model(json: Value, model: &str) -> (r: Option<Value>)
    ensures
        model_of(r) == with_model(value_model(json), model@),
{
    if get_member(&json, "model").is_none() {
        return None;
    }
    let mut out = json;
    set_member(&mut out, "model", string_value(model.to_owned()));
    Some(out)
}

/// A parsed completion with the assistant's text replaced.
fn replace_content(json: Value, content: &str) -> (r: Option<Value>)
    ensures
        model_of(r) == with_content(value_model(json), content@),
{
    let choices = match get_member(&json, "choices") {
        Some(c) => c,
        None => return None,
    };
    let first = match get_element(choices, 0) {
        Some(f) => f,
        None => return None,
    };
    let message = match get_member(first, "message") {
        Some(m) => m,
        None => return None,
    };
    if get_member(message, "content").is_none() {
        return None;
    }
    let items = match choices.as_array() {
        Some(a) => a,
        None => return None,
    };
    let mut new_message = message.clone();
    set_member(&mut new_message, "content", string_value(content.to_owned()));
    let mut new_first = first.clone();
    set_member(&mut new_first, "message", new_message);
    let mut new_items = clone_values(items.as_slice());
    new_items.set(0, new_first);
    let ghost want = member(value_model(json), "choices"@)->0->Array_0.update(
        0,
        value_model(new_first),
    );
    assert(models(new_items@) =~= want);
    let mut out = json.clone();
    set_member(&mut out, "choices", array_value(new_items));
    Some(out)
}

/// Replaces the `messages` field of a request body. The body comes back
/// unchanged where it is not JSON, has no `messages` field, or cannot be
/// written again.
pub fn rebuild_request_body(body: &[u8], messages: &[Value]) -> (r: Vec<u8>)
    ensures
        r@ == rebuilt_request(body@, models(messages@)),
{
    let json = match parse(body) {
        Some(j) => j,
        None => return slice_to_vec(body),
    };
    let new_json = match replace_messages(json, messages) {
        Some(n) => n,
        None => return slice_to_vec(body),
    };
    match to_bytes(&new_json) {
        Some(b) => b,
        None => slice_to_vec(body),
    }
}

/// Replaces the assistant's text, `choices[0].message.content`, in a response
/// body. The body comes back unchanged where it is not JSON, has no such
/// field, or cannot be written again.
pub fn rebuild_response_body(body: &[u8], new_content: &str) -> (r: Vec<u8>)
    ensures
        r@ == rebuilt_response(body@, new_content@),
{
    let json = match parse(body) {
        Some(j) => j,
        None => return slice_to_vec(body),
    };
    let new_json = match replace_content(json, new_content) {
        Some(n) => n,
        None => return slice_to_vec(body),
    };
    match to_bytes(&new_json) {
        Some(b) => b,
        None => slice_to_vec(body),
    }
}

/// Replaces the assistant's text in a response body held as text, with the
/// same rules as [`rebuild_response_body`].
pub fn rebuild_proxy_response_body(original_body: &str, new_content: &str) -> (r: String)
    ensures
        r@ == rebuilt_proxy_response(original_body@, new_content@),
{
    let json = match parse(original_body.as_bytes()) {
        Some(j) => j,
        None => return original_body.to_owned(),
    };
    let new_json = match replace_content(json, new_content) {
        Some(n) => n,
        None => return original_body.to_owned(),
    };
    match to_text(&new_json) {
        Some(t) => t,
        None => original_body.to_owned(),
    }
}

/// Replaces the top-level `model` field of a request body. The body comes
/// back unchanged where it is not JSON, has no `model` field, or cannot be
/// written again.
pub fn rewrite_model_field(body: &[u8], new_model: &str) -> (r: Vec<u8>)
    ensures
        r@ == rebuilt_model(body@, new_model@),
{
    match try_rewrite_model_field(body, new_model) {
        Some(b) => b,
        None => slice_to_vec(body),
    }
}

/// Replaces the top-level `model` field of a request body, and tells whether
/// there was anything to replace: `None` where the body is not JSON, has no
/// `model` field, or cannot be written again.
pub fn try_rewrite_model_field(body: &[u8], new_model: &str) -> (r: Option<Vec<u8>>)
    ensures
        opt_bytes(r) == rewritten_model(body@, new_model@),
{
    let json = match parse(body) {
        Some(j) => j,
        None => return None,
    };
    let new_json = match replace_model(json, new_model) {
        Some(n) => n,
        None => return None,
    };
    to_bytes(&new_json)
}

} // verus!
