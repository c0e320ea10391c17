//! The moderation client: what is sent to the moderation service, and where.
//!
//! Nothing here performs a call. The payload builders give the bytes of a
//! request, and [`describe_call`] gives the host everything it needs to
//! dispatch one.
use crate::extract::opt_models;
use crate::json::{
    array_value, empty_object, json_bytes, models, set_member, string_value, to_bytes,
    value_model, with_member, Json,
};
use crate::og_connector::{pairs_map, RestoreMapping};
use crate::text::{authority_of, strip_scheme};
use serde_json::Value;
use vstd::prelude::*;

verus! {

/// Path of the input check.
pub const PROCESS_INPUT_PATH: &'static str = "/v1/gateway/process-input";

/// Path of the output check.
pub const PROCESS_OUTPUT_PATH: &'static str = "/v1/gateway/process-output";

/// An object with `key` set to `x` where there is an `x`.
pub open spec fn with_optional(j: Json, key: Seq<char>, x: Option<Json>) -> Json {
    match x {
        Some(v) => with_member(j, key, v),
        None => j,
    }
}

/// The application identifier as a payload field: left out where it is empty.
pub open spec fn application_field(application_id: Seq<char>) -> Option<Json> {
    if application_id.len() == 0 {
        None
    } else {
        Some(Json::String(application_id))
    }
}

/// A restore table as a JSON object of strings.
pub open spec fn mapping_json(m: Map<Seq<char>, Seq<char>>) -> Json {
    Json::Object(m.map_values(|s: Seq<char>| Json::String(s)))
}

/// The request of an input check: `messages`, and `application_id` where
/// there is one.
pub open spec fn input_payload(messages: Seq<Json>, application_id: Seq<char>) -> Json {
    with_optional(
        with_member(Json::Object(Map::empty()), "messages"@, Json::Array(messages)),
        "application_id"@,
        application_field(application_id),
    )
}

/// The request of an output check: `content`, and each of `session_id`,
/// `restore_mapping`, `application_id` and `messages` where there is one.
pub open spec fn output_payload(
    content: Seq<char>,
    session_id: Option<Seq<char>>,
    restore_mapping: Option<Map<Seq<char>, Seq<char>>>,
    application_id: Seq<char>,
    context_messages: Option<Seq<Json>>,
) -> Json {
    let a = with_member(Json::Object(Map::empty()), "content"@, Json::String(content));
    let b = with_optional(
        a,
        "session_id"@,
        match session_id {
            Some(s) => Some(Json::String(s)),
            None => None,
        },
    );
    let c = with_optional(
        b,
        "restore_mapping"@,
        match restore_mapping {
            Some(m) => Some(mapping_json(m)),
            None => None,
        },
    );
    let d = with_optional(c, "application_id"@, application_field(application_id));
    with_optional(
        d,
        "messages"@,
        match context_messages {
            Some(m) => Some(Json::Array(m)),
            None => None,
        },
    )
}

/// The bytes of a payload; none at all where it cannot be written.
pub open spec fn payload_bytes(j: Json) -> Seq<u8> {
    match json_bytes(j) {
        Some(b) => b,
        None => Seq::empty(),
    }
}

/// Writes a payload.
fn write_payload(request: &Value) -> (r: Vec<u8>)
    ensures
        r@ == payload_bytes(value_model(*request)),
{
    match to_bytes(request) {
        Some(b) => b,
        None => Vec::new(),
    }
}

/// The body of an input check for these messages. An empty `application_id`
/// is left out of the payload altogether.
pub fn build_input_request(messages: Vec<Value>, application_id: &str) -> (r: Vec<u8>)
    ensures
        r@ == payload_bytes(input_payload(models(messages@), application_id@)),
{
    let mut request = empty_object();
    set_member(&mut request, "messages", array_value(messages));
    if !application_id.is_empty() {
        set_member(&mut request, "application_id", string_value(application_id.to_owned()));
    }
    write_payload(&request)
}

/// A restore table as a JSON object.
fn mapping_value(mapping: &RestoreMapping) -> (r: Value)
    ensures
        value_model(r) == mapping_json(mapping@),
{
    let mut obj = empty_object();
    let mut i: usize = 0;
    assert(mapping_json(pairs_map(mapping.entries@.take(0))) == Json::Object(Map::empty())) by {
        assert(pairs_map(mapping.entries@.take(0)).map_values(|s: Seq<char>| Json::String(s))
            =~= Map::<Seq<char>, Json>::empty());
    }
    while i < mapping.entries.len()
        invariant
            i <= mapping.entries.len(),
            value_model(obj) == mapping_json(pairs_map(mapping.entries@.take(i as int))),
        decreases mapping.entries.len() - i,
    {
        let ghost done = pairs_map(mapping.entries@.take(i as int));
        let key = mapping.entries[i].0.as_str();
        let text = mapping.entries[i].1.clone();
        set_member(&mut obj, key, string_value(text));
        proof {
            let next = mapping.entries@.take(i + 1);
            assert(next.drop_last() =~= mapping.entries@.take(i as int));
            assert(done.map_values(|s: Seq<char>| Json::String(s)).insert(
                key@,
                Json::String(text@),
            ) =~= pairs_map(next).map_values(|s: Seq<char>| Json::String(s)));
        }
        i += 1;
    }
    assert(mapping.entries@.take(i as int) =~= mapping.entries@);
    obj
}

/// The body of an output check for this content. What is `None`, and an empty
/// `application_id`, is left out of the payload altogether.
pub fn build_output_request(
    content: &str,
    session_id: Option<&String>,
    restore_mapping: Option<&RestoreMapping>,
    application_id: &str,
    context_messages: Option<Vec<Value>>,
) -> (r: Vec<u8>)
    ensures
        r@ == payload_bytes(
            output_payload(
                content@,
                match session_id {
                    Some(s) => Some(s@),
                    None => None,
                },
                match restore_mapping {
                    Some(m) => Some(m@),
                    None => None,
                },
                application_id@,
                opt_models(context_messages),
            ),
        ),
{
    let mut request = empty_object();
    set_member(&mut request, "content", string_value(content.to_owned()));
    match session_id {
        Some(s) => {
            set_member(&mut request, "session_id", string_value(s.clone()));
        },
        None => {},
    }
    match restore_mapping {
        Some(m) => {
            set_member(&mut request, "restore_mapping", mapping_value(m));
        },
        None => {},
    }
    if !application_id.is_empty() {
        set_member(&mut request, "application_id", string_value(application_id.to_owned()));
    }
    match context_messages {
        Some(m) => {
            set_member(&mut request, "messages", array_value(m));
        },
        None => {},
    }
    write_payload(&request)
}

/// Why a call cannot be described.
#[derive(Debug, Clone, Copy, PartialEq, Eq, Structural)]
pub enum ConfigurationError {
    /// The exchange has no configuration.
    NoConfiguration,
    /// The configuration names no destination route.
    NoRoute,
}

/// One call to the moderation service, ready for the host to dispatch.
#[derive(Debug, PartialEq, Eq)]
pub struct CallDescriptor {
    /// Destination route.
    pub cluster: String,
    /// Request headers, pseudo-headers first.
    pub headers: Vec<(String, String)>,
    pub body: Vec<u8>,
    pub timeout_ms: u64,
}

/// A [`CallDescriptor`] as a specification sees it.
pub struct CallView {
    pub cluster: Seq<char>,
    pub headers: Seq<(Seq<char>, Seq<char>)>,
    pub body: Seq<u8>,
    pub timeout_ms: u64,
}

/// The characters of each header of a list.
pub open spec fn headers_view(s: Seq<(String, String)>) -> Seq<(Seq<char>, Seq<char>)> {
    s.map_values(|h: (String, String)| (h.0@, h.1@))
}

impl View for CallDescriptor {
    type V = CallView;

    open spec fn view(&self) -> CallView {
        CallView {
            cluster: self.cluster@,
            headers: headers_view(self.headers@),
            body: self.body@,
            timeout_ms: self.timeout_ms,
        }
    }
}

/// The headers of a call: method, path, authority, content type and the
/// bearer credential, then the caller's identity where it is known.
pub open spec fn call_headers(
    path: Seq<char>,
    base_url: Seq<char>,
    api_key: Seq<char>,
    consumer_id: Option<Seq<char>>,
) -> Seq<(Seq<char>, Seq<char>)> {
    let fixed = seq![
        (":method"@, "POST"@),
        (":path"@, path),
        (":authority"@, authority_of(base_url)),
        ("content-type"@, "application/json"@),
        ("authorization"@, "Bearer "@ + api_key),
    ];
    match consumer_id {
        Some(c) => fixed.push(("X-OG-Application-ID"@, c)),
        None => fixed,
    }
}

/// What [`describe_call`] returns.
pub open spec fn described_call(
    path: Seq<char>,
    payload: Seq<u8>,
    cluster: Seq<char>,
    base_url: Seq<char>,
    api_key: Seq<char>,
    timeout_ms: u64,
    consumer_id: Option<Seq<char>>,
) -> Result<CallView, ConfigurationError> {
    if cluster.len() == 0 {
        Err(ConfigurationError::NoRoute)
    } else {
        Ok(
            CallView {
                cluster,
                headers: call_headers(path, base_url, api_key, consumer_id),
                body: payload,
                timeout_ms,
            },
        )
    }
}

/// The view of a described call or of the error in its place.
pub open spec fn call_result_view(r: Result<CallDescriptor, ConfigurationError>) -> Result<
    CallView,
    ConfigurationError,
> {
    match r {
        Ok(c) => Ok(c@),
        Err(e) => Err(e),
    }
}

/// Describes a `POST` of `payload` to `path` at the moderation service. Fails
/// exactly where `cluster`, the destination route, is empty.
pub fn describe_call(
    path: &str,
    payload: Vec<u8>,
    cluster: &str,
    base_url: &str,
    api_key: &str,
    timeout_ms: u64,
    consumer_id: Option<&String>,
) -> (r: Result<CallDescriptor, ConfigurationError>)
    ensures
        call_result_view(r) == described_call(
            path@,
            payload@,
            cluster@,
            base_url@,
            api_key@,
            timeout_ms,
            match consumer_id {
                Some(c) => Some(c@),
                None => None,
            },
        ),
{
    if cluster.is_empty() {
        return Err(ConfigurationError::NoRoute);
    }
    let mut headers: Vec<(String, String)> = Vec::new();
    headers.push((":method".to_owned(), "POST".to_owned()));
    headers.push((":path".to_owned(), path.to_owned()));
    headers.push((":authority".to_owned(), strip_scheme(base_url)));
    headers.push(("content-type".to_owned(), "application/json".to_owned()));
    headers.push(("authorization".to_owned(), "Bearer ".to_owned().concat(api_key)));
    match consumer_id {
        Some(c) => {
            headers.push(("X-OG-Application-ID".to_owned(), c.clone()));
        },
        None => {},
    }
    let call = CallDescriptor { cluster: cluster.to_owned(), headers, body: payload, timeout_ms };
    assert(headers_view(call.headers@) =~= call_headers(
        path@,
        base_url@,
        api_key@,
        match consumer_id {
            Some(c) => Some(c@),
            None => None,
        },
    ));
    Ok(call)
}

} // verus!
