use og_connector_higress::client::{CallDescriptor, ConfigurationError};
use og_connector_higress::connector::{ConnectorState, OGConnector};
use og_connector_higress::host::{Action, Failure, HostCall, Step};
use og_connector_higress::og_connector::{
    HttpResponse, InputVerdict, RestoreMapping, VerdictAction,
};
use og_connector_higress::{OGConnectorConfig, OGConnectorRoot};
use serde_json::Value;

const REQUEST: &[u8] = br#"{"messages":[{"role":"user","content":"hi"}],"stream":false}"#;
const UPSTREAM: &[u8] = br#"{"choices":[{"message":{"content":"hello"}}]}"#;

fn config() -> OGConnectorConfig {
    OGConnectorConfig {
        og_cluster: "outbound|5002||og.dns".to_string(),
        og_base_url: "http://og.local:5002".to_string(),
        og_api_key: "sk-test".to_string(),
        application_id: String::new(),
        timeout_ms: 5000,
        enable_input_detection: true,
        enable_output_detection: true,
    }
}

fn connector() -> OGConnector {
    OGConnector::new(7, Some(config()))
}

fn pair(a: &str, b: &str) -> (String, String) {
    (a.to_string(), b.to_string())
}

fn value(text: &str) -> Value {
    serde_json::from_str(text).unwrap()
}

fn call(path: &str, body: &str, consumer: Option<&str>) -> CallDescriptor {
    let mut headers = vec![
        pair(":method", "POST"),
        pair(":path", path),
        pair(":authority", "og.local:5002"),
        pair("content-type", "application/json"),
        pair("authorization", "Bearer sk-test"),
    ];
    if let Some(c) = consumer {
        headers.push(pair("X-OG-Application-ID", c));
    }
    CallDescriptor {
        cluster: "outbound|5002||og.dns".to_string(),
        headers,
        body: body.as_bytes().to_vec(),
        timeout_ms: 5000,
    }
}

fn dispatch(path: &str, body: &str) -> Step {
    Step {
        action: Action::Pause,
        calls: vec![HostCall::DispatchHttpCall { call: call(path, body, None) }],
        failure: None,
    }
}

fn idle() -> Step {
    Step { action: Action::Continue, calls: vec![], failure: None }
}

fn unchecked(failure: Failure) -> Step {
    Step { action: Action::Continue, calls: vec![], failure: Some(failure) }
}

fn hold() -> Step {
    Step { action: Action::Pause, calls: vec![], failure: None }
}

fn local(status_code: u32, content_type: &str, body: &str) -> Step {
    Step {
        action: Action::Pause,
        calls: vec![
            HostCall::SetRequestBody { body: vec![] },
            HostCall::SendHttpResponse {
                status_code,
                content_type: content_type.to_string(),
                body: body.as_bytes().to_vec(),
            },
        ],
        failure: None,
    }
}

fn header(name: &str, value: &str) -> HostCall {
    HostCall::SetRequestHeader { name: name.to_string(), value: Some(value.to_string()) }
}

/// An exchange whose request is held for the verdict of the input check.
fn awaiting_input(body: &[u8]) -> OGConnector {
    let mut c = connector();
    c.on_http_request_headers(None, None, None);
    let step = c.on_http_request_body(Some(body.to_vec()), true);
    assert_eq!(step.action, Action::Pause);
    assert_eq!(c.state(), ConnectorState::WaitingInputResponse);
    c
}

/// An exchange whose response is held for the verdict of the output check.
fn awaiting_output(c: &mut OGConnector, body: &[u8]) {
    c.on_http_response_headers();
    let step = c.on_http_response_body(Some(body.to_vec()), true);
    assert_eq!(step.action, Action::Pause);
    assert_eq!(c.state(), ConnectorState::WaitingOutputResponse);
}

#[test]
fn new_exchange_is_empty() {
    let c = OGConnectorRoot { config: Some(config()) }.create_http_context(42);
    assert_eq!(c.context_id(), 42);
    assert_eq!(c.config(), Some(&config()));
    assert_eq!(c.state(), ConnectorState::Initial);
    assert!(c.request_body().is_empty());
    assert!(c.response_body().is_empty());
    assert!(c.session_id().is_none());
    assert!(c.restore_mapping().is_none());
    assert!(!c.is_streaming());
    assert!(c.input_messages().is_none());
    assert!(!c.bypassed());
    assert!(c.pending_proxy_response().is_none());
    assert!(!c.response_sent());
    assert!(c.consumer_id().is_none());
}

#[test]
fn root_starts_without_configuration() {
    let root = OGConnectorRoot::new();
    assert!(root.config.is_none());
    assert!(root.create_http_context(1).config().is_none());
}

#[test]
fn request_headers_strip_the_content_length() {
    let mut c = connector();
    let step = c.on_http_request_headers(None, None, None);
    assert_eq!(
        step,
        Step {
            action: Action::Pause,
            calls: vec![HostCall::SetRequestHeader { name: "content-length".to_string(), value: None }],
            failure: None,
        }
    );
    assert_eq!(c.state(), ConnectorState::Initial);
    assert!(!c.bypassed());
    assert!(c.consumer_id().is_none());
}

#[test]
fn request_headers_with_a_bypass_credential_skip_all_checking() {
    let mut c = connector();
    let step = c.on_http_request_headers(Some("tok".to_string()), Some("team-a".to_string()), None);
    assert_eq!(
        step,
        Step {
            action: Action::Continue,
            calls: vec![HostCall::SetRequestHeader {
                name: "X-OG-Bypass-Token".to_string(),
                value: None
            }],
            failure: None,
        }
    );
    assert!(c.bypassed());
    assert!(c.consumer_id().is_none());
    assert_eq!(c.on_http_request_body(Some(REQUEST.to_vec()), true), idle());
    assert!(c.request_body().is_empty());
    assert_eq!(c.on_http_response_body(Some(UPSTREAM.to_vec()), true), idle());
    assert!(c.response_body().is_empty());
    assert_eq!(c.state(), ConnectorState::Initial);
}

#[test]
fn request_headers_take_the_consumer_from_either_casing() {
    let mut c = connector();
    c.on_http_request_headers(None, Some("lower".to_string()), Some("mixed".to_string()));
    assert_eq!(c.consumer_id(), Some("lower"));
    let mut c = connector();
    c.on_http_request_headers(None, None, Some("mixed".to_string()));
    assert_eq!(c.consumer_id(), Some("mixed"));
}

#[test]
fn exchange_without_configuration_passes_everything() {
    let mut c = OGConnector::new(1, None);
    let missing = unchecked(Failure::ConfigurationMissing);
    assert_eq!(c.on_http_request_headers(Some("tok".to_string()), None, None), missing);
    assert!(!c.bypassed());
    assert_eq!(c.on_http_request_body(Some(REQUEST.to_vec()), true), missing);
    assert_eq!(c.request_body(), REQUEST);
    assert_eq!(c.on_http_response_body(Some(UPSTREAM.to_vec()), true), missing);
    assert_eq!(c.state(), ConnectorState::Initial);
    assert_eq!(
        c.call_og_api("/v1/gateway/process-input", vec![]),
        Err(ConfigurationError::NoConfiguration)
    );
}

#[test]
fn request_body_is_held_until_its_last_chunk() {
    let mut c = connector();
    assert_eq!(c.on_http_request_body(None, false), hold());
    assert!(c.request_body().is_empty());
    assert_eq!(c.state(), ConnectorState::Initial);
}

#[test]
fn complete_request_body_is_sent_to_the_input_check() {
    let mut c = connector();
    c.on_http_request_headers(None, None, None);
    let step = c.on_http_request_body(Some(REQUEST.to_vec()), true);
    assert_eq!(
        step,
        dispatch(
            "/v1/gateway/process-input",
            r#"{"messages":[{"content":"hi","role":"user"}]}"#
        )
    );
    assert_eq!(c.state(), ConnectorState::WaitingInputResponse);
    assert_eq!(c.request_body(), REQUEST);
    assert_eq!(c.input_messages(), Some(&vec![value(r#"{"role":"user","content":"hi"}"#)]));
    assert!(!c.is_streaming());
}

#[test]
fn input_check_carries_application_and_consumer() {
    let mut cfg = config();
    cfg.application_id = "app-1".to_string();
    let mut c = OGConnector::new(1, Some(cfg));
    c.on_http_request_headers(None, Some("team-a".to_string()), None);
    let step = c.on_http_request_body(
        Some(br#"{"stream":true,"messages":[{"role":"user","content":"hi"}]}"#.to_vec()),
        true,
    );
    assert_eq!(
        step.calls,
        vec![HostCall::DispatchHttpCall {
            call: call(
                "/v1/gateway/process-input",
                r#"{"application_id":"app-1","messages":[{"content":"hi","role":"user"}]}"#,
                Some("team-a")
            )
        }]
    );
    assert!(c.is_streaming());
}

#[test]
fn request_body_passes_where_the_input_check_does_not_apply() {
    let mut cfg = config();
    cfg.enable_input_detection = false;
    let mut c = OGConnector::new(1, Some(cfg));
    assert_eq!(c.on_http_request_body(Some(REQUEST.to_vec()), true), idle());
    assert_eq!(c.request_body(), REQUEST);
    assert!(c.input_messages().is_none());

    for body in [&b""[..], &b"plain"[..], &br#"{"prompt":"hi"}"#[..]] {
        let mut c = connector();
        assert_eq!(
            c.on_http_request_body(Some(body.to_vec()), true),
            unchecked(Failure::BodyNotApplicable)
        );
        assert_eq!(c.state(), ConnectorState::Initial);
        assert!(c.input_messages().is_none());
    }

    let mut c = connector();
    assert_eq!(c.on_http_request_body(None, true), unchecked(Failure::BodyNotApplicable));
}

#[test]
fn request_passes_where_no_route_is_configured() {
    let mut cfg = config();
    cfg.og_cluster = String::new();
    let mut c = OGConnector::new(1, Some(cfg));
    assert_eq!(c.call_og_api("/p", vec![]), Err(ConfigurationError::NoRoute));
    assert_eq!(
        c.on_http_request_body(Some(REQUEST.to_vec()), true),
        unchecked(Failure::ConfigurationMissing)
    );
    assert_eq!(
        c.on_http_response_body(Some(UPSTREAM.to_vec()), true),
        unchecked(Failure::ConfigurationMissing)
    );
    assert_eq!(c.state(), ConnectorState::Initial);
}

#[test]
fn failed_dispatch_of_the_input_check_lets_the_request_pass() {
    let mut c = awaiting_input(REQUEST);
    assert_eq!(c.on_dispatch_failed(), unchecked(Failure::TransportFailure));
    assert_eq!(c.state(), ConnectorState::Initial);
    assert!(!c.response_sent());
}

#[test]
fn pass_verdict_resumes_the_request_untouched() {
    let mut c = awaiting_input(REQUEST);
    let step = c.on_http_call_response(Some("200"), Some(br#"{"action":"pass"}"#.to_vec()));
    assert_eq!(step, Step { action: Action::Continue, calls: vec![HostCall::ResumeHttpRequest], failure: None });
    assert_eq!(c.state(), ConnectorState::Initial);
    assert_eq!(c.request_body(), REQUEST);
    assert!(!c.response_sent());
}

#[test]
fn unknown_action_passes() {
    let mut c = awaiting_input(REQUEST);
    let step = c.on_http_call_response(Some("200"), Some(br#"{"action":"observe"}"#.to_vec()));
    assert_eq!(step.calls, vec![HostCall::ResumeHttpRequest]);
    assert_eq!(c.state(), ConnectorState::Initial);
}

#[test]
fn scenario_pass_on_both_checks_leaves_the_upstream_body() {
    let mut c = connector();
    c.on_http_request_headers(None, None, None);
    let asked = c.on_http_request_body(Some(REQUEST.to_vec()), true);
    assert_eq!(asked.calls.len(), 1);
    let resumed = c.on_http_call_response(Some("200"), Some(br#"{"action":"pass"}"#.to_vec()));
    assert_eq!(resumed.calls, vec![HostCall::ResumeHttpRequest]);
    assert_eq!(c.state(), ConnectorState::Initial);

    let headers = c.on_http_response_headers();
    assert_eq!(
        headers,
        Step {
            action: Action::Continue,
            calls: vec![HostCall::SetResponseHeader { name: "content-length".to_string(), value: None }],
            failure: None,
        }
    );
    let checked = c.on_http_response_body(Some(UPSTREAM.to_vec()), true);
    assert_eq!(
        checked,
        dispatch(
            "/v1/gateway/process-output",
            r#"{"content":"hello","messages":[{"content":"hi","role":"user"}]}"#
        )
    );
    assert_eq!(c.state(), ConnectorState::WaitingOutputResponse);
    let done = c.on_http_call_response(Some("200"), Some(br#"{"action":"pass"}"#.to_vec()));
    assert_eq!(done, Step { action: Action::Continue, calls: vec![HostCall::ResumeHttpResponse], failure: None });
    assert_eq!(c.state(), ConnectorState::Done);
    assert_eq!(c.response_body(), UPSTREAM);
    assert!(!c.response_sent());
}

#[test]
fn scenario_switch_private_model_reroutes_the_request() {
    let mut c = awaiting_input(br#"{"model":"gpt-4","messages":[{"role":"user","content":"hi"}]}"#);
    let step = c.on_http_call_response(
        Some("200"),
        Some(br#"{"action":"switch_private_model","private_model":{"model_name":"alt-7b","higress_cluster":"outbound|alt"}}"#.to_vec()),
    );
    assert_eq!(
        step,
        Step {
            action: Action::Continue,
            calls: vec![
                header("x-higress-llm-model", "alt-7b"),
                HostCall::SetProperty {
                    name: "cluster_name".to_string(),
                    bytes: b"outbound|alt".to_vec()
                },
                HostCall::SetRequestBody {
                    body: br#"{"messages":[{"content":"hi","role":"user"}],"model":"alt-7b"}"#.to_vec()
                },
                HostCall::ResumeHttpRequest,
            ],
            failure: None,
        }
    );
    assert_eq!(c.state(), ConnectorState::Initial);
}

#[test]
fn switch_private_model_applies_every_edit_in_order() {
    let mut c = awaiting_input(br#"{"model":"gpt-4","messages":[]}"#);
    let step = c.on_http_call_response(
        Some("200"),
        Some(br#"{"action":"switch_private_model","bypass_token":"tok","bypass_header":"X-Skip",
            "private_model":{"api_base_url":"http://alt","api_key":"sk-alt","model_name":"alt-7b",
            "provider":"openai","higress_cluster":"outbound|alt"}}"#.to_vec()),
    );
    assert_eq!(
        step.calls,
        vec![
            header("X-Skip", "tok"),
            header("authorization", "Bearer sk-alt"),
            header("x-higress-llm-provider", "openai"),
            header("x-higress-llm-model", "alt-7b"),
            HostCall::SetProperty { name: "cluster_name".to_string(), bytes: b"outbound|alt".to_vec() },
            HostCall::SetRequestBody { body: br#"{"messages":[],"model":"alt-7b"}"#.to_vec() },
            HostCall::ResumeHttpRequest,
        ]
    );
    assert_eq!(step.action, Action::Continue);
}

#[test]
fn switch_private_model_uses_the_default_bypass_header() {
    let mut c = awaiting_input(REQUEST);
    let step = c.on_http_call_response(
        Some("200"),
        Some(br#"{"action":"switch_private_model","bypass_token":"tok"}"#.to_vec()),
    );
    assert_eq!(step.calls, vec![header("X-OG-Bypass-Token", "tok"), HostCall::ResumeHttpRequest]);
    assert_eq!(c.state(), ConnectorState::Initial);
}

#[test]
fn switch_private_model_leaves_a_body_without_model_field() {
    let mut c = awaiting_input(REQUEST);
    let step = c.on_http_call_response(
        Some("200"),
        Some(br#"{"action":"switch_private_model","private_model":{"model_name":"alt-7b"}}"#.to_vec()),
    );
    assert_eq!(step.calls, vec![header("x-higress-llm-model", "alt-7b"), HostCall::ResumeHttpRequest]);
}

#[test]
fn block_verdict_answers_the_client_and_forwards_nothing() {
    let mut c = awaiting_input(REQUEST);
    let step = c.on_http_call_response(
        Some("200"),
        Some(br#"{"action":"block","block_response":{"code":403,"content_type":"application/json","body":"{\"error\":\"blocked\"}"}}"#.to_vec()),
    );
    assert_eq!(step, local(403, "application/json", r#"{"error":"blocked"}"#));
    assert!(!step.calls.contains(&HostCall::ResumeHttpRequest));
    assert_eq!(c.state(), ConnectorState::Done);
    assert!(c.response_sent());
}

#[test]
fn replace_verdict_answers_the_client() {
    let mut c = awaiting_input(REQUEST);
    let step = c.on_http_call_response(
        Some("200"),
        Some(br#"{"action":"replace","replace_response":{"code":200,"content_type":"text/plain","body":"kept short"},
            "block_response":{"code":403,"content_type":"text/plain","body":"unused"}}"#.to_vec()),
    );
    assert_eq!(step, local(200, "text/plain", "kept short"));
    assert_eq!(c.state(), ConnectorState::Done);
    assert!(c.response_sent());
}

#[test]
fn block_verdict_without_a_response_ends_the_exchange_held() {
    for verdict in [&br#"{"action":"block"}"#[..], &br#"{"action":"replace"}"#[..], &br#"{"action":"proxy_response"}"#[..]] {
        let mut c = awaiting_input(REQUEST);
        let step = c.on_http_call_response(Some("200"), Some(verdict.to_vec()));
        assert_eq!(step, hold());
        assert_eq!(c.state(), ConnectorState::Done);
        assert!(!c.response_sent());
    }
}

#[test]
fn anonymize_verdict_rewrites_the_messages_and_keeps_the_session() {
    let mut c = awaiting_input(br#"{"model":"gpt-4","messages":[{"role":"user","content":"mail a@b.com"}],"stream":false}"#);
    let step = c.on_http_call_response(
        Some("200"),
        Some(br#"{"action":"anonymize","session_id":"sess_1","anonymized_messages":[{"role":"user","content":"mail __EMAIL_1__"}]}"#.to_vec()),
    );
    assert_eq!(
        step,
        Step {
            action: Action::Continue,
            calls: vec![
                HostCall::SetRequestBody {
                    body: br#"{"messages":[{"content":"mail __EMAIL_1__","role":"user"}],"model":"gpt-4","stream":false}"#.to_vec()
                },
                HostCall::ResumeHttpRequest,
            ],
            failure: None,
        }
    );
    assert_eq!(c.state(), ConnectorState::Initial);
    assert_eq!(c.session_id(), Some("sess_1"));
    assert!(c.restore_mapping().is_none());
    assert_eq!(c.input_messages(), Some(&vec![value(r#"{"role":"user","content":"mail a@b.com"}"#)]));
}

#[test]
fn anonymize_verdict_without_messages_resumes_the_request() {
    let mut c = awaiting_input(REQUEST);
    let step = c.on_http_call_response(
        Some("200"),
        Some(br#"{"action":"anonymize","session_id":"sess_1"}"#.to_vec()),
    );
    assert_eq!(step.calls, vec![HostCall::ResumeHttpRequest]);
    assert_eq!(c.session_id(), Some("sess_1"));
}

#[test]
fn restore_mapping_takes_precedence_over_the_session() {
    let mut c = awaiting_input(REQUEST);
    c.on_http_call_response(
        Some("200"),
        Some(br#"{"action":"anonymize","session_id":"sess_1","restore_mapping":{"__EMAIL_1__":"a@b.com"}}"#.to_vec()),
    );
    assert!(c.session_id().is_none());
    assert_eq!(
        c.restore_mapping(),
        Some(&RestoreMapping { entries: vec![pair("__EMAIL_1__", "a@b.com")] })
    );
}

#[test]
fn scenario_anonymize_then_restore_round_trip() {
    let mut c = awaiting_input(br#"{"messages":[{"role":"user","content":"contact a@b.com"}]}"#);
    let resumed = c.on_http_call_response(
        Some("200"),
        Some(br#"{"action":"anonymize","restore_mapping":{"__EMAIL_1__":"a@b.com"},
            "anonymized_messages":[{"role":"user","content":"contact __EMAIL_1__"}]}"#.to_vec()),
    );
    assert_eq!(
        resumed.calls,
        vec![
            HostCall::SetRequestBody {
                body: br#"{"messages":[{"content":"contact __EMAIL_1__","role":"user"}]}"#.to_vec()
            },
            HostCall::ResumeHttpRequest,
        ]
    );

    c.on_http_response_headers();
    let upstream = br#"{"choices":[{"message":{"content":"contact __EMAIL_1__"}}]}"#;
    let checked = c.on_http_response_body(Some(upstream.to_vec()), true);
    assert_eq!(
        checked,
        dispatch(
            "/v1/gateway/process-output",
            r#"{"content":"contact __EMAIL_1__","messages":[{"content":"contact a@b.com","role":"user"}],"restore_mapping":{"__EMAIL_1__":"a@b.com"}}"#
        )
    );
    let done = c.on_http_call_response(
        Some("200"),
        Some(br#"{"action":"restore","restored_content":"contact a@b.com"}"#.to_vec()),
    );
    assert_eq!(
        done,
        Step {
            action: Action::Continue,
            calls: vec![
                HostCall::SetResponseBody {
                    body: br#"{"choices":[{"message":{"content":"contact a@b.com"}}]}"#.to_vec()
                },
                HostCall::ResumeHttpResponse,
            ],
            failure: None,
        }
    );
    let visible: Value = match &done.calls[0] {
        HostCall::SetResponseBody { body } => serde_json::from_slice(body).unwrap(),
        other => panic!("unexpected call {:?}", other),
    };
    assert_eq!(
        visible.get("choices").unwrap().get(0).unwrap().get("message").unwrap().get("content"),
        Some(&Value::String("contact a@b.com".to_string()))
    );
    assert_eq!(c.state(), ConnectorState::Done);
}

#[test]
fn output_check_runs_for_a_session_even_where_checking_is_off() {
    let mut cfg = config();
    cfg.enable_output_detection = false;
    let mut c = OGConnector::new(1, Some(cfg.clone()));
    assert_eq!(c.on_http_response_body(Some(UPSTREAM.to_vec()), true), idle());
    assert_eq!(c.state(), ConnectorState::Initial);

    let mut c = OGConnector::new(1, Some(cfg));
    c.on_http_request_body(Some(REQUEST.to_vec()), true);
    c.on_http_call_response(Some("200"), Some(br#"{"action":"anonymize","session_id":"s"}"#.to_vec()));
    let step = c.on_http_response_body(Some(UPSTREAM.to_vec()), true);
    assert_eq!(
        step,
        dispatch(
            "/v1/gateway/process-output",
            r#"{"content":"hello","messages":[{"content":"hi","role":"user"}],"session_id":"s"}"#
        )
    );
}

#[test]
fn response_body_is_held_until_its_last_chunk() {
    let mut c = connector();
    assert_eq!(c.on_http_response_body(None, false), hold());
    assert!(c.response_body().is_empty());
}

#[test]
fn response_without_content_passes() {
    for body in [&b""[..], &b"<html>"[..], &br#"{"choices":[]}"#[..], &br#"{"error":"x"}"#[..]] {
        let mut c = connector();
        assert_eq!(
            c.on_http_response_body(Some(body.to_vec()), true),
            unchecked(Failure::BodyNotApplicable)
        );
        assert_eq!(c.state(), ConnectorState::Initial);
        assert_eq!(c.response_body(), body);
    }
}

#[test]
fn failed_dispatch_of_the_output_check_lets_the_response_pass() {
    let mut c = connector();
    awaiting_output(&mut c, UPSTREAM);
    assert_eq!(c.on_dispatch_failed(), unchecked(Failure::TransportFailure));
    assert_eq!(c.state(), ConnectorState::Initial);
}

#[test]
fn output_block_replaces_the_response_body() {
    let mut c = connector();
    awaiting_output(&mut c, UPSTREAM);
    let step = c.on_http_call_response(
        Some("200"),
        Some(br#"{"action":"block","block_response":{"code":200,"content_type":"application/json","body":"{\"blocked\":true}"}}"#.to_vec()),
    );
    assert_eq!(
        step,
        Step {
            action: Action::Continue,
            calls: vec![
                HostCall::SetResponseBody { body: br#"{"blocked":true}"#.to_vec() },
                HostCall::ResumeHttpResponse,
            ],
            failure: None,
        }
    );
    assert_eq!(c.state(), ConnectorState::Done);
    assert!(!c.response_sent());
}

#[test]
fn output_anonymize_rewrites_the_content() {
    let mut c = connector();
    awaiting_output(&mut c, UPSTREAM);
    let step = c.on_http_call_response(
        Some("200"),
        Some(br#"{"action":"anonymize","anonymized_content":"h***o"}"#.to_vec()),
    );
    assert_eq!(
        step.calls,
        vec![
            HostCall::SetResponseBody { body: br#"{"choices":[{"message":{"content":"h***o"}}]}"#.to_vec() },
            HostCall::ResumeHttpResponse,
        ]
    );
}

#[test]
fn output_verdict_without_its_payload_resumes_the_response() {
    for verdict in [
        &br#"{"action":"block"}"#[..],
        &br#"{"action":"restore"}"#[..],
        &br#"{"action":"anonymize"}"#[..],
        &br#"{"action":"restore","anonymized_content":"x"}"#[..],
        &br#"{"action":"pass","restored_content":"x"}"#[..],
    ] {
        let mut c = connector();
        awaiting_output(&mut c, UPSTREAM);
        let step = c.on_http_call_response(Some("200"), Some(verdict.to_vec()));
        assert_eq!(step, Step { action: Action::Continue, calls: vec![HostCall::ResumeHttpResponse], failure: None });
        assert_eq!(c.state(), ConnectorState::Done);
    }
}

const PROXY_REPLY: &[u8] = br#"{"action":"proxy_response","proxy_response":{"code":200,"content_type":"application/json","body":"{\"choices\":[{\"message\":{\"content\":\"from alt\"}}]}"}}"#;
const PROXY_BODY: &str = r#"{"choices":[{"message":{"content":"from alt"}}]}"#;

/// An exchange that holds the answer of an alternate model while the output
/// check judges it.
fn holding_alternate() -> OGConnector {
    let mut c = awaiting_input(REQUEST);
    let step = c.on_http_call_response(Some("200"), Some(PROXY_REPLY.to_vec()));
    assert_eq!(
        step,
        dispatch(
            "/v1/gateway/process-output",
            r#"{"content":"from alt","messages":[{"content":"hi","role":"user"}]}"#
        )
    );
    assert_eq!(c.state(), ConnectorState::WaitingOutputResponse);
    assert_eq!(
        c.pending_proxy_response(),
        Some(&HttpResponse {
            code: 200,
            content_type: "application/json".to_string(),
            body: PROXY_BODY.to_string()
        })
    );
    assert!(!c.response_sent());
    c
}

#[test]
fn proxy_response_is_held_for_the_output_check() {
    holding_alternate();
}

#[test]
fn proxy_response_goes_out_directly_where_output_checking_is_off() {
    let mut cfg = config();
    cfg.enable_output_detection = false;
    let mut c = OGConnector::new(1, Some(cfg));
    c.on_http_request_body(Some(REQUEST.to_vec()), true);
    let step = c.on_http_call_response(Some("200"), Some(PROXY_REPLY.to_vec()));
    assert_eq!(step, local(200, "application/json", PROXY_BODY));
    assert!(c.pending_proxy_response().is_none());
    assert!(c.response_sent());
    assert_eq!(c.state(), ConnectorState::Done);
}

#[test]
fn proxy_response_without_content_goes_out_directly() {
    let mut c = awaiting_input(REQUEST);
    let step = c.on_http_call_response(
        Some("200"),
        Some(br#"{"action":"proxy_response","proxy_response":{"code":502,"content_type":"text/plain","body":"upstream down"}}"#.to_vec()),
    );
    assert_eq!(
        step,
        Step { failure: Some(Failure::BodyNotApplicable), ..local(502, "text/plain", "upstream down") }
    );
    assert!(c.response_sent());
}

#[test]
fn held_alternate_passes_the_output_check() {
    let mut c = holding_alternate();
    let step = c.on_http_call_response(Some("200"), Some(br#"{"action":"pass"}"#.to_vec()));
    assert_eq!(step, local(200, "application/json", PROXY_BODY));
    assert!(c.pending_proxy_response().is_none());
    assert!(c.response_sent());
    assert_eq!(c.state(), ConnectorState::Done);
}

#[test]
fn held_alternate_is_blocked_by_the_output_check() {
    let mut c = holding_alternate();
    let step = c.on_http_call_response(
        Some("200"),
        Some(br#"{"action":"block","block_response":{"code":451,"content_type":"text/plain","body":"no"}}"#.to_vec()),
    );
    assert_eq!(step, local(451, "text/plain", "no"));
    assert!(c.pending_proxy_response().is_none());
}

#[test]
fn held_alternate_is_restored_by_the_output_check() {
    let mut c = holding_alternate();
    let step = c.on_http_call_response(
        Some("200"),
        Some(br#"{"action":"restore","restored_content":"from a@b.com"}"#.to_vec()),
    );
    assert_eq!(
        step,
        local(200, "application/json", r#"{"choices":[{"message":{"content":"from a@b.com"}}]}"#)
    );
}

#[test]
fn held_alternate_goes_out_as_it_is_where_the_verdict_brings_nothing() {
    for verdict in [
        &br#"{"action":"block"}"#[..],
        &br#"{"action":"restore"}"#[..],
        &br#"{"action":"anonymize","anonymized_content":"x"}"#[..],
    ] {
        let mut c = holding_alternate();
        let step = c.on_http_call_response(Some("200"), Some(verdict.to_vec()));
        assert_eq!(step, local(200, "application/json", PROXY_BODY));
        assert!(c.pending_proxy_response().is_none());
        assert!(c.response_sent());
    }
    let mut c = holding_alternate();
    let step = c.on_http_call_response(Some("200"), Some(b"unreadable".to_vec()));
    assert_eq!(
        step,
        Step {
            failure: Some(Failure::DecodeFailure),
            ..local(200, "application/json", PROXY_BODY)
        }
    );
    assert!(c.pending_proxy_response().is_none());
    assert!(c.response_sent());
}

#[test]
fn held_alternate_goes_out_where_the_output_check_cannot_be_dispatched() {
    let mut c = holding_alternate();
    let step = c.on_dispatch_failed();
    assert_eq!(
        step,
        Step {
            failure: Some(Failure::TransportFailure),
            ..local(200, "application/json", PROXY_BODY)
        }
    );
    assert!(c.pending_proxy_response().is_none());
    assert!(c.response_sent());
    assert_eq!(c.state(), ConnectorState::Done);
}

#[test]
fn failed_input_check_fails_open() {
    let transport = Failure::TransportFailure;
    let decode = Failure::DecodeFailure;
    for (status, body, failure) in [
        (None, None, transport),
        (Some("503"), Some(b"busy".to_vec()), transport),
        (Some("404"), Some(br#"{"action":"block","block_response":{"code":403,"content_type":"t","body":"b"}}"#.to_vec()), transport),
        (Some("200"), None, decode),
        (Some("200"), Some(b"not json".to_vec()), decode),
        (Some("200"), Some(br#"{"request_id":"r"}"#.to_vec()), decode),
    ] {
        let mut c = awaiting_input(REQUEST);
        let step = c.on_http_call_response(status, body);
        assert_eq!(step, Step { action: Action::Continue, calls: vec![HostCall::ResumeHttpRequest], failure: Some(failure) });
        assert_eq!(c.state(), ConnectorState::Initial);
        assert_eq!(c.request_body(), REQUEST);
        assert!(!c.response_sent());
    }
}

#[test]
fn failed_output_check_fails_open() {
    for (status, body, failure) in [
        (None, None, Failure::TransportFailure),
        (Some("500"), Some(br#"{"action":"block","block_response":{"code":403,"content_type":"t","body":"b"}}"#.to_vec()), Failure::TransportFailure),
        (Some("200"), Some(b"{".to_vec()), Failure::DecodeFailure),
    ] {
        let mut c = connector();
        awaiting_output(&mut c, UPSTREAM);
        let step = c.on_http_call_response(status, body);
        assert_eq!(step, Step { action: Action::Continue, calls: vec![HostCall::ResumeHttpResponse], failure: Some(failure) });
        assert_eq!(c.state(), ConnectorState::Done);
        assert_eq!(c.response_body(), UPSTREAM);
        assert!(!c.response_sent());
    }
}

#[test]
fn failed_output_check_relays_the_held_alternate() {
    for status in [None, Some("504")] {
        let mut c = holding_alternate();
        let step = c.on_http_call_response(status, None);
        assert_eq!(
            step,
            Step {
                failure: Some(Failure::TransportFailure),
                ..local(200, "application/json", PROXY_BODY)
            }
        );
        assert!(c.response_sent());
        assert!(c.pending_proxy_response().is_none());
    }
}

#[test]
fn any_status_of_the_two_hundreds_counts_as_an_answer() {
    let mut c = awaiting_input(REQUEST);
    let step = c.on_http_call_response(
        Some("201"),
        Some(br#"{"action":"block","block_response":{"code":403,"content_type":"t","body":"b"}}"#.to_vec()),
    );
    assert_eq!(step, local(403, "t", "b"));
}

fn snapshot(c: &OGConnector) -> String {
    format!("{:?}", c)
}

#[test]
fn nothing_follows_a_sent_response() {
    let mut c = awaiting_input(REQUEST);
    c.on_http_call_response(
        Some("200"),
        Some(br#"{"action":"block","block_response":{"code":403,"content_type":"t","body":"b"}}"#.to_vec()),
    );
    assert!(c.response_sent());
    let before = snapshot(&c);

    assert_eq!(c.on_http_request_headers(Some("tok".to_string()), Some("x".to_string()), None), idle());
    assert_eq!(c.on_http_request_body(Some(REQUEST.to_vec()), true), idle());
    assert_eq!(c.on_http_response_headers(), idle());
    assert_eq!(c.on_http_response_body(Some(UPSTREAM.to_vec()), true), idle());
    assert_eq!(c.on_http_response_body(None, false), idle());
    assert_eq!(c.on_http_call_response(Some("200"), Some(br#"{"action":"pass"}"#.to_vec())), idle());
    assert_eq!(c.on_http_call_response(None, None), idle());
    assert_eq!(c.on_dispatch_failed(), idle());
    assert_eq!(c.handle_input_response(PROXY_REPLY), idle());
    assert_eq!(c.handle_output_response(br#"{"action":"pass"}"#), idle());
    assert_eq!(c.apply_input_verdict(Err(Failure::TransportFailure)), idle());
    assert_eq!(c.apply_output_verdict(Err(Failure::DecodeFailure)), idle());
    assert_eq!(snapshot(&c), before);
}

#[test]
fn finished_exchange_processes_no_body() {
    let mut c = connector();
    awaiting_output(&mut c, UPSTREAM);
    c.on_http_call_response(Some("200"), Some(br#"{"action":"pass"}"#.to_vec()));
    assert_eq!(c.state(), ConnectorState::Done);
    let before = snapshot(&c);
    assert_eq!(c.on_http_request_body(Some(REQUEST.to_vec()), true), idle());
    assert_eq!(c.on_http_response_body(Some(b"again".to_vec()), true), idle());
    assert_eq!(c.on_http_call_response(Some("200"), Some(br#"{"action":"pass"}"#.to_vec())), idle());
    assert_eq!(snapshot(&c), before);
}

#[test]
fn answers_that_nobody_awaits_are_ignored() {
    let mut c = connector();
    let before = snapshot(&c);
    assert_eq!(c.on_http_call_response(Some("200"), Some(PROXY_REPLY.to_vec())), idle());
    assert_eq!(c.on_dispatch_failed(), idle());
    assert_eq!(c.handle_input_response(br#"{"action":"pass"}"#), idle());
    assert_eq!(c.handle_output_response(br#"{"action":"pass"}"#), idle());
    assert_eq!(snapshot(&c), before);

    let mut c = awaiting_input(REQUEST);
    let before = snapshot(&c);
    assert_eq!(c.handle_output_response(br#"{"action":"pass"}"#), idle());
    assert_eq!(snapshot(&c), before);
}

#[test]
fn bodies_that_arrive_while_an_answer_is_awaited_are_held() {
    let mut c = awaiting_input(REQUEST);
    let before = snapshot(&c);
    assert_eq!(c.on_http_request_body(Some(b"more".to_vec()), true), hold());
    assert_eq!(c.on_http_response_body(Some(UPSTREAM.to_vec()), true), hold());
    assert_eq!(snapshot(&c), before);
}

#[test]
fn apply_input_verdict_takes_a_decoded_verdict() {
    let mut c = awaiting_input(REQUEST);
    let verdict = InputVerdict::from_slice(
        br#"{"action":"block","block_response":{"code":403,"content_type":"t","body":"b"}}"#,
    );
    assert_eq!(c.apply_input_verdict(Ok(verdict.unwrap())), local(403, "t", "b"));
}

#[test]
fn apply_input_verdict_passes_for_the_actions_of_the_output_phase() {
    for action in [
        VerdictAction::Pass,
        VerdictAction::Restore { content: Some("x".to_string()) },
        VerdictAction::AnonymizeOutput { content: Some("x".to_string()) },
    ] {
        let mut c = awaiting_input(REQUEST);
        let verdict = InputVerdict { action, session_id: None, restore_mapping: None };
        let step = c.apply_input_verdict(Ok(verdict));
        assert_eq!(step, Step { action: Action::Continue, calls: vec![HostCall::ResumeHttpRequest], failure: None });
        assert_eq!(c.state(), ConnectorState::Initial);
    }
}

#[test]
fn apply_output_verdict_passes_for_the_actions_of_the_input_phase() {
    let response = HttpResponse { code: 403, content_type: "t".to_string(), body: "b".to_string() };
    for action in [
        VerdictAction::Pass,
        VerdictAction::Replace { response: Some(response.clone()) },
        VerdictAction::ProxyResponse { response: Some(response.clone()) },
        VerdictAction::Anonymize { messages: Some(vec![]) },
        VerdictAction::SwitchModel { private_model: None, bypass_token: None, bypass_header: None },
    ] {
        let mut c = connector();
        awaiting_output(&mut c, UPSTREAM);
        let step = c.apply_output_verdict(Ok(action));
        assert_eq!(step, Step { action: Action::Continue, calls: vec![HostCall::ResumeHttpResponse], failure: None });
        assert_eq!(c.state(), ConnectorState::Done);
    }
}

#[test]
fn exchange_stays_well_formed() {
    let mut c = connector();
    assert!(c.well_formed());
    c.on_http_request_headers(None, None, None);
    assert!(c.well_formed());
    c.on_http_request_body(Some(REQUEST.to_vec()), true);
    assert!(c.well_formed());
    c.on_http_call_response(Some("200"), Some(PROXY_REPLY.to_vec()));
    assert!(c.well_formed());
    c.on_http_call_response(None, None);
    assert!(c.well_formed());
    c.on_http_response_body(Some(UPSTREAM.to_vec()), true);
    assert!(c.well_formed());

    let mut c = awaiting_input(REQUEST);
    c.on_http_call_response(
        Some("200"),
        Some(br#"{"action":"anonymize","session_id":"s","restore_mapping":{"k":"v"}}"#.to_vec()),
    );
    assert!(c.well_formed());
    awaiting_output(&mut c, UPSTREAM);
    assert!(c.well_formed());
    c.on_dispatch_failed();
    assert!(c.well_formed());
}

#[test]
fn builders_of_an_exchange_use_what_it_keeps() {
    let mut cfg = config();
    cfg.application_id = "app-1".to_string();
    let mut c = OGConnector::new(1, Some(cfg));
    c.on_http_request_body(Some(REQUEST.to_vec()), true);
    c.on_http_call_response(
        Some("200"),
        Some(br#"{"action":"anonymize","session_id":"s1"}"#.to_vec()),
    );
    assert_eq!(c.session_id(), Some("s1"));
    assert_eq!(
        String::from_utf8(c.build_input_request(vec![value("1")])).unwrap(),
        r#"{"application_id":"app-1","messages":[1]}"#
    );
    assert_eq!(
        String::from_utf8(c.build_output_request("out")).unwrap(),
        r#"{"application_id":"app-1","content":"out","messages":[{"content":"hi","role":"user"}],"session_id":"s1"}"#
    );
    assert_eq!(
        c.call_og_api("/v1/gateway/process-input", b"{}".to_vec()),
        Ok(call("/v1/gateway/process-input", "{}", None))
    );
}
