use og_connector_higress::client::{
    build_input_request, build_output_request, describe_call, CallDescriptor, ConfigurationError,
    PROCESS_INPUT_PATH, PROCESS_OUTPUT_PATH,
};
use og_connector_higress::og_connector::RestoreMapping;
use serde_json::Value;

fn value(text: &str) -> Value {
    serde_json::from_str(text).unwrap()
}

fn text(bytes: Vec<u8>) -> String {
    String::from_utf8(bytes).unwrap()
}

fn pair(a: &str, b: &str) -> (String, String) {
    (a.to_string(), b.to_string())
}

#[test]
fn input_request_holds_the_messages() {
    let messages = vec![value(r#"{"role":"user","content":"hi"}"#)];
    assert_eq!(
        text(build_input_request(messages, "")),
        r#"{"messages":[{"content":"hi","role":"user"}]}"#
    );
}

#[test]
fn input_request_names_the_application_where_there_is_one() {
    let messages = vec![value(r#"{"role":"user","content":"hi"}"#)];
    assert_eq!(
        text(build_input_request(messages, "app-1")),
        r#"{"application_id":"app-1","messages":[{"content":"hi","role":"user"}]}"#
    );
}

#[test]
fn input_request_leaves_out_an_empty_application() {
    let payload: Value = serde_json::from_slice(&build_input_request(vec![], "")).unwrap();
    assert!(payload.get("application_id").is_none());
    assert_eq!(payload.get("messages"), Some(&Value::Array(vec![])));
}

#[test]
fn output_request_with_content_alone() {
    assert_eq!(
        text(build_output_request("hello", None, None, "", None)),
        r#"{"content":"hello"}"#
    );
}

#[test]
fn output_request_with_every_field() {
    let session = "sess_1".to_string();
    let mapping = RestoreMapping {
        entries: vec![pair("__PHONE_1__", "555"), pair("__EMAIL_1__", "a@b.com")],
    };
    let messages = vec![value(r#"{"role":"user","content":"hi"}"#)];
    assert_eq!(
        text(build_output_request("hello", Some(&session), Some(&mapping), "app-1", Some(messages))),
        r#"{"application_id":"app-1","content":"hello","messages":[{"content":"hi","role":"user"}],"restore_mapping":{"__EMAIL_1__":"a@b.com","__PHONE_1__":"555"},"session_id":"sess_1"}"#
    );
}

#[test]
fn output_request_leaves_out_what_is_unset() {
    let payload: Value =
        serde_json::from_slice(&build_output_request("x", None, None, "", None)).unwrap();
    let object = payload.as_object().unwrap();
    assert_eq!(object.len(), 1);
    assert!(!object.contains_key("session_id"));
    assert!(!object.contains_key("restore_mapping"));
    assert!(!object.contains_key("application_id"));
    assert!(!object.contains_key("messages"));
}

#[test]
fn output_request_keeps_an_empty_mapping_and_empty_messages() {
    let mapping = RestoreMapping { entries: vec![] };
    assert_eq!(
        text(build_output_request("x", None, Some(&mapping), "", Some(vec![]))),
        r#"{"content":"x","messages":[],"restore_mapping":{}}"#
    );
}

#[test]
fn output_request_takes_the_later_of_two_pairs_with_one_key() {
    let mapping = RestoreMapping { entries: vec![pair("k", "first"), pair("k", "second")] };
    assert_eq!(
        text(build_output_request("x", None, Some(&mapping), "", None)),
        r#"{"content":"x","restore_mapping":{"k":"second"}}"#
    );
}

#[test]
fn restore_mapping_clone_is_equal() {
    let mapping = RestoreMapping { entries: vec![pair("a", "1"), pair("b", "2")] };
    assert_eq!(mapping.clone(), mapping);
}

#[test]
fn describe_call_builds_the_headers() {
    let call = describe_call(
        PROCESS_INPUT_PATH,
        b"{}".to_vec(),
        "outbound|5002||og.dns",
        "http://og.local:5002",
        "sk-test",
        5000,
        None,
    );
    assert_eq!(
        call,
        Ok(CallDescriptor {
            cluster: "outbound|5002||og.dns".to_string(),
            headers: vec![
                pair(":method", "POST"),
                pair(":path", "/v1/gateway/process-input"),
                pair(":authority", "og.local:5002"),
                pair("content-type", "application/json"),
                pair("authorization", "Bearer sk-test"),
            ],
            body: b"{}".to_vec(),
            timeout_ms: 5000,
        })
    );
}

#[test]
fn describe_call_names_the_consumer_where_it_is_known() {
    let consumer = "team-a".to_string();
    let call = describe_call(
        PROCESS_OUTPUT_PATH,
        vec![1, 2, 3],
        "c",
        "https://og.example.com",
        "",
        1,
        Some(&consumer),
    )
    .unwrap();
    assert_eq!(
        call.headers,
        vec![
            pair(":method", "POST"),
            pair(":path", "/v1/gateway/process-output"),
            pair(":authority", "og.example.com"),
            pair("content-type", "application/json"),
            pair("authorization", "Bearer "),
            pair("X-OG-Application-ID", "team-a"),
        ]
    );
    assert_eq!(call.body, vec![1, 2, 3]);
    assert_eq!(call.timeout_ms, 1);
    assert_eq!(call.cluster, "c");
}

#[test]
fn describe_call_fails_without_a_route() {
    assert_eq!(
        describe_call(PROCESS_INPUT_PATH, vec![], "", "http://og", "k", 5000, None),
        Err(ConfigurationError::NoRoute)
    );
}
