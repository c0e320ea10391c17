//! The exchange state machine.
//!
//! An [`OGConnector`] follows one client request and its response. The host
//! feeds it events: headers, bodies, and the answers of the moderation
//! service. To each it replies with a [`Step`], and the host carries that out.
//! The connector never waits: while a moderation call is under way it is a
//! record that the answer will find again.
//!
//! What each handler does is a specification function of this module, from
//! the exchange before the event to the exchange after it and the step. The
//! handlers are proved to compute exactly that.
use crate::client::{
    build_input_request, build_output_request, call_result_view, describe_call, described_call,
    input_payload, output_payload, payload_bytes, CallDescriptor, CallView, ConfigurationError,
    PROCESS_INPUT_PATH, PROCESS_OUTPUT_PATH,
};
use crate::config::{ConfigView, OGConnectorConfig, OGConnectorRoot};
use crate::extract::{
    check_streaming, clone_values, content_of, extract_content_from_body,
    extract_response_content, messages_of, opt_bytes, opt_models, opt_text, parse_messages,
    rebuild_proxy_response_body, rebuild_request_body, rebuild_response_body, rebuilt_proxy_response,
    rebuilt_request, rebuilt_response, rewritten_model, streaming_of, try_rewrite_model_field,
};
use crate::host::{
    authorization_swap, bypass_header, calls_view, held, idle, model_hint, noting, one_call,
    provider_hint, request_header_removal, response_header_removal, route_hint,
    set_bypass_header, set_model_hint, set_provider_hint, set_route_hint, strip_content_length,
    strip_response_content_length, swap_authorization, unchecked, Action, Failure, HostCall,
    HostCallView, Step, StepView, BYPASS_HEADER,
};
use crate::json::{models, Json};
use crate::og_connector::{
    input_verdict_of, opt_view, output_action_of, HttpResponse, HttpResponseView, InputVerdict,
    InputVerdictView, PrivateModelInfo, PrivateModelView, RestoreMapping, VerdictAction,
    VerdictActionView,
};
use crate::text::{is_success, is_success_status};
use serde_json::Value;
use vstd::prelude::*;
use vstd::utf8::encode_utf8;

verus! {

/// Where an exchange stands.
#[derive(Debug, Clone, Copy, PartialEq, Eq, Structural)]
pub enum ConnectorState {
    /// Nothing is awaited.
    Initial,
    /// The request is held until the input check answers.
    WaitingInputResponse,
    /// The response is held until the output check answers.
    WaitingOutputResponse,
    /// The exchange is over.
    Done,
}

/// One exchange: a client request and its eventual response. Only the
/// handlers change it, so that it stays well formed from
/// [`OGConnector::new`] on.
#[derive(Debug)]
pub struct OGConnector {
    context_id: u32,
    config: Option<OGConnectorConfig>,
    state: ConnectorState,
    request_body: Vec<u8>,
    response_body: Vec<u8>,
    session_id: Option<String>,
    restore_mapping: Option<RestoreMapping>,
    is_streaming: bool,
    input_messages: Option<Vec<Value>>,
    bypassed: bool,
    pending_proxy_response: Option<HttpResponse>,
    response_sent: bool,
    consumer_id: Option<String>,
}

/// An [`OGConnector`] as a specification sees it.
pub struct ConnectorView {
    pub context_id: u32,
    pub config: Option<ConfigView>,
    pub state: ConnectorState,
    /// The request body, once its last chunk has arrived.
    pub request_body: Seq<u8>,
    /// The response body, once its last chunk has arrived.
    pub response_body: Seq<u8>,
    /// Token under which the moderation service keeps what it anonymized.
    pub session_id: Option<Seq<char>>,
    /// Table that undoes the anonymization; kept in place of the token where
    /// a verdict brings both.
    pub restore_mapping: Option<Map<Seq<char>, Seq<char>>>,
    pub is_streaming: bool,
    /// The request's messages as they were before any anonymization.
    pub input_messages: Option<Seq<Json>>,
    /// The request came with a bypass credential: it is not checked again.
    pub bypassed: bool,
    /// Answer of an alternate model, held while its content is checked.
    pub pending_proxy_response: Option<HttpResponseView>,
    /// A response of the connector's own has gone to the client.
    pub response_sent: bool,
    /// The caller's identity, passed on to the moderation service.
    pub consumer_id: Option<Seq<char>>,
}

impl View for OGConnector {
    type V = ConnectorView;

    closed spec fn view(&self) -> ConnectorView {
        ConnectorView {
            context_id: self.context_id,
            config: opt_view(self.config),
            state: self.state,
            request_body: self.request_body@,
            response_body: self.response_body@,
            session_id: opt_text(self.session_id),
            restore_mapping: opt_view(self.restore_mapping),
            is_streaming: self.is_streaming,
            input_messages: opt_models(self.input_messages),
            bypassed: self.bypassed,
            pending_proxy_response: opt_view(self.pending_proxy_response),
            response_sent: self.response_sent,
            consumer_id: opt_text(self.consumer_id),
        }
    }
}

impl ConnectorView {
    /// What holds of every exchange: the token and the table never stand
    /// together; a response of the connector's own ends the exchange; an
    /// alternate answer is held only while the output check is awaited; and
    /// nothing is awaited without a configuration.
    pub open spec fn wf(self) -> bool {
        &&& !(self.session_id is Some && self.restore_mapping is Some)
        &&& self.response_sent ==> self.state == ConnectorState::Done
        &&& self.pending_proxy_response is Some ==> self.state
            == ConnectorState::WaitingOutputResponse
        &&& (self.state == ConnectorState::WaitingInputResponse || self.state
            == ConnectorState::WaitingOutputResponse) ==> self.config is Some
    }

    /// The application identifier of the configuration; empty without one.
    pub open spec fn application_id(self) -> Seq<char> {
        match self.config {
            Some(c) => c.application_id,
            None => Seq::empty(),
        }
    }

    /// Whether output checking is switched on.
    pub open spec fn output_enabled(self) -> bool {
        match self.config {
            Some(c) => c.enable_output_detection,
            None => false,
        }
    }
}

/// A new exchange.
pub open spec fn fresh(context_id: u32, config: Option<ConfigView>) -> ConnectorView {
    ConnectorView {
        context_id,
        config,
        state: ConnectorState::Initial,
        request_body: Seq::empty(),
        response_body: Seq::empty(),
        session_id: None,
        restore_mapping: None,
        is_streaming: false,
        input_messages: None,
        bypassed: false,
        pending_proxy_response: None,
        response_sent: false,
        consumer_id: None,
    }
}

/// The call that [`OGConnector::call_og_api`] describes.
pub open spec fn call_for(pre: ConnectorView, path: Seq<char>, payload: Seq<u8>) -> Result<
    CallView,
    ConfigurationError,
> {
    match pre.config {
        None => Err(ConfigurationError::NoConfiguration),
        Some(c) => described_call(
            path,
            payload,
            c.og_cluster,
            c.og_base_url,
            c.og_api_key,
            c.timeout_ms,
            pre.consumer_id,
        ),
    }
}

/// The body of the input check that an exchange sends for these messages.
pub open spec fn input_request(pre: ConnectorView, messages: Seq<Json>) -> Seq<u8> {
    payload_bytes(input_payload(messages, pre.application_id()))
}

/// The body of the output check that an exchange sends for this content.
pub open spec fn output_request(pre: ConnectorView, content: Seq<char>) -> Seq<u8> {
    payload_bytes(
        output_payload(
            content,
            pre.session_id,
            pre.restore_mapping,
            pre.application_id(),
            pre.input_messages,
        ),
    )
}

/// The exchange ends with a response of the connector's own. The buffered
/// request body is emptied first, so that the host cannot forward it.
pub open spec fn local_response(
    pre: ConnectorView,
    status_code: u32,
    content_type: Seq<char>,
    body: Seq<u8>,
) -> (ConnectorView, StepView) {
    (
        ConnectorView { response_sent: true, state: ConnectorState::Done, ..pre },
        StepView {
            action: Action::Pause,
            calls: seq![
                HostCallView::SetRequestBody { body: Seq::empty() },
                HostCallView::SendHttpResponse { status_code, content_type, body },
            ],
            failure: None,
        },
    )
}

/// The exchange ends with this ready-made response.
pub open spec fn relay(pre: ConnectorView, h: HttpResponseView) -> (ConnectorView, StepView) {
    local_response(pre, h.code as u32, h.content_type, encode_utf8(h.body))
}

/// The end of the exchange after a verdict that blocks. The response that the
/// verdict brings goes to the client. Where it brings none, the exchange ends
/// held and nothing is forwarded.
pub open spec fn relay_or_end(pre: ConnectorView, h: Option<HttpResponseView>) -> (
    ConnectorView,
    StepView,
) {
    match h {
        Some(h) => relay(pre, h),
        None => (ConnectorView { state: ConnectorState::Done, ..pre }, held()),
    }
}

/// The held request goes on, with these calls before it.
pub open spec fn resume_request(pre: ConnectorView, edits: Seq<HostCallView>) -> (
    ConnectorView,
    StepView,
) {
    (
        ConnectorView { state: ConnectorState::Initial, ..pre },
        StepView {
            action: Action::Continue,
            calls: edits.push(HostCallView::ResumeHttpRequest),
            failure: None,
        },
    )
}

/// The edit that an anonymizing verdict asks for.
pub open spec fn anonymize_edit(request_body: Seq<u8>, messages: Option<Seq<Json>>) -> Seq<
    HostCallView,
> {
    match messages {
        Some(m) => seq![HostCallView::SetRequestBody { body: rebuilt_request(request_body, m) }],
        None => Seq::empty(),
    }
}

/// The edit that attaches a verdict's bypass credential.
pub open spec fn bypass_edit(token: Option<Seq<char>>, header: Option<Seq<char>>) -> Seq<
    HostCallView,
> {
    match token {
        Some(t) => seq![
            bypass_header(
                match header {
                    Some(n) => n,
                    None => BYPASS_HEADER@,
                },
                t,
            ),
        ],
        None => Seq::empty(),
    }
}

/// The request body with the alternate model's name in it, where the body
/// can take one.
pub open spec fn model_rewrite(request_body: Seq<u8>, model: Seq<char>) -> Option<Seq<u8>> {
    if request_body.len() == 0 {
        None
    } else {
        rewritten_model(request_body, model)
    }
}

/// The call that is there, as a list of calls.
pub open spec fn optional(call: Option<HostCallView>) -> Seq<HostCallView> {
    match call {
        Some(c) => seq![c],
        None => Seq::empty(),
    }
}

/// The edits that reroute a request to an alternate model: credential,
/// provider, model name, route, and the model name in the body.
pub open spec fn reroute_edits(p: PrivateModelView, request_body: Seq<u8>) -> Seq<HostCallView> {
    optional(
        match p.api_key {
            Some(k) => Some(authorization_swap(k)),
            None => None,
        },
    ) + optional(
        match p.provider {
            Some(x) => Some(provider_hint(x)),
            None => None,
        },
    ) + seq![model_hint(p.model_name)] + optional(
        match p.higress_cluster {
            Some(c) => Some(route_hint(c)),
            None => None,
        },
    ) + optional(
        match model_rewrite(request_body, p.model_name) {
            Some(b) => Some(HostCallView::SetRequestBody { body: b }),
            None => None,
        },
    )
}

/// All edits of a rerouting verdict.
pub open spec fn switch_edits(
    private_model: Option<PrivateModelView>,
    bypass_token: Option<Seq<char>>,
    bypass_header: Option<Seq<char>>,
    request_body: Seq<u8>,
) -> Seq<HostCallView> {
    bypass_edit(bypass_token, bypass_header) + (match private_model {
        Some(p) => reroute_edits(p, request_body),
        None => Seq::empty(),
    })
}

/// The answer of an alternate model has come in place of a verdict. Where
/// output checking is on and the answer holds content, the answer is kept and
/// its content is sent to the output check. Else it goes to the client as it
/// is: unchecked because checking is off, or because the answer holds no
/// content, or because the check cannot be described.
pub open spec fn proxy_step(pre: ConnectorView, h: Option<HttpResponseView>) -> (
    ConnectorView,
    StepView,
) {
    match h {
        None => relay_or_end(pre, None),
        Some(h) => if !pre.output_enabled() {
            relay(pre, h)
        } else {
            match content_of(encode_utf8(h.body)) {
                Some(content) => {
                    let waiting = ConnectorView {
                        pending_proxy_response: Some(h),
                        state: ConnectorState::WaitingOutputResponse,
                        ..pre
                    };
                    match call_for(
                        waiting,
                        PROCESS_OUTPUT_PATH@,
                        output_request(waiting, content),
                    ) {
                        Ok(call) => (
                            waiting,
                            one_call(Action::Pause, HostCallView::DispatchHttpCall { call }),
                        ),
                        Err(_) => noting(relay(pre, h), Failure::ConfigurationMissing),
                    }
                },
                None => noting(relay(pre, h), Failure::BodyNotApplicable),
            }
        },
    }
}

/// What an exchange keeps of a verdict for the output phase: the restore
/// table where there is one, else the session token.
pub open spec fn remember(pre: ConnectorView, v: InputVerdictView) -> ConnectorView {
    ConnectorView {
        session_id: if v.restore_mapping is Some {
            None
        } else {
            v.session_id
        },
        restore_mapping: v.restore_mapping,
        ..pre
    }
}

/// What the answer to an input check does to an exchange that awaits one.
/// Where the answer could not be had or read, the request goes on as it is
/// and the step tells why. An exchange that awaits no such answer ignores it.
pub open spec fn input_verdict_step(
    pre: ConnectorView,
    verdict: Result<InputVerdictView, Failure>,
) -> (ConnectorView, StepView) {
    if pre.response_sent || pre.state != ConnectorState::WaitingInputResponse {
        (pre, idle())
    } else {
        match verdict {
            Ok(v) => input_verdict_applied(pre, Some(v)),
            Err(failure) => noting(input_verdict_applied(pre, None), failure),
        }
    }
}

/// What a verdict of the input check does to the exchange that awaits it;
/// without a verdict the request goes on as it is.
pub open spec fn input_verdict_applied(pre: ConnectorView, verdict: Option<InputVerdictView>)
    -> (ConnectorView, StepView) {
    match verdict {
        None => resume_request(pre, Seq::empty()),
        Some(v) => {
            let kept = remember(pre, v);
            match v.action {
                VerdictActionView::Block { response } => relay_or_end(kept, response),
                VerdictActionView::Replace { response } => relay_or_end(kept, response),
                VerdictActionView::Anonymize { messages } => resume_request(
                    kept,
                    anonymize_edit(pre.request_body, messages),
                ),
                VerdictActionView::ProxyResponse { response } => proxy_step(kept, response),
                VerdictActionView::SwitchModel {
                    private_model,
                    bypass_token,
                    bypass_header,
                } => resume_request(
                    kept,
                    switch_edits(private_model, bypass_token, bypass_header, pre.request_body),
                ),
                _ => resume_request(kept, Seq::empty()),
            }
        },
    }
}

/// The alternate answer as a verdict of the output check leaves it.
pub open spec fn judged_alternate(p: HttpResponseView, verdict: Option<VerdictActionView>)
    -> HttpResponseView {
    match verdict {
        Some(VerdictActionView::Block { response: Some(b) }) => b,
        Some(VerdictActionView::Restore { content: Some(c) }) => HttpResponseView {
            body: rebuilt_proxy_response(p.body, c),
            ..p
        },
        _ => p,
    }
}

/// The edit of the upstream's response body that a verdict of the output
/// check asks for.
pub open spec fn response_edit(response_body: Seq<u8>, verdict: VerdictActionView) -> Seq<
    HostCallView,
> {
    match verdict {
        VerdictActionView::Block { response: Some(b) } => seq![
            HostCallView::SetResponseBody { body: encode_utf8(b.body) },
        ],
        VerdictActionView::AnonymizeOutput { content: Some(c) } => seq![
            HostCallView::SetResponseBody { body: rebuilt_response(response_body, c) },
        ],
        VerdictActionView::Restore { content: Some(c) } => seq![
            HostCallView::SetResponseBody { body: rebuilt_response(response_body, c) },
        ],
        _ => Seq::empty(),
    }
}

/// What the answer to an output check does to an exchange that awaits one.
/// A held alternate answer goes to the client, as the verdict leaves it; else
/// the upstream's response goes on, edited as the verdict asks. Where the
/// answer could not be had or read, what is there goes on as it is and the
/// step tells why. An exchange that awaits no such answer ignores it.
pub open spec fn output_verdict_step(
    pre: ConnectorView,
    verdict: Result<VerdictActionView, Failure>,
) -> (ConnectorView, StepView) {
    if pre.response_sent || pre.state != ConnectorState::WaitingOutputResponse {
        (pre, idle())
    } else {
        match verdict {
            Ok(v) => output_verdict_applied(pre, Some(v)),
            Err(failure) => noting(output_verdict_applied(pre, None), failure),
        }
    }
}

/// What a verdict of the output check does to the exchange that awaits it;
/// without a verdict what is there goes on as it is.
pub open spec fn output_verdict_applied(pre: ConnectorView, verdict: Option<VerdictActionView>)
    -> (ConnectorView, StepView) {
    let done = ConnectorView {
        state: ConnectorState::Done,
        pending_proxy_response: None,
        ..pre
    };
    match pre.pending_proxy_response {
        Some(p) => relay(done, judged_alternate(p, verdict)),
        None => (
            done,
            StepView {
                action: Action::Continue,
                calls: (match verdict {
                    Some(v) => response_edit(pre.response_body, v),
                    None => Seq::empty(),
                }).push(HostCallView::ResumeHttpResponse),
                failure: None,
            },
        ),
    }
}

/// A body as the moderation service's answer gives it: empty where the host
/// has none.
pub open spec fn body_or_empty(body: Option<Seq<u8>>) -> Seq<u8> {
    match body {
        Some(b) => b,
        None => Seq::empty(),
    }
}

/// What was read from the answer of the moderation service, or why nothing
/// was: an answer without a status, or with one that does not report success,
/// is a failed call, and a body that cannot be read is a failed decoding.
pub open spec fn answer_read<T>(status: Option<Seq<char>>, read: Option<T>) -> Result<
    T,
    Failure,
> {
    if status is Some && is_success(status->0) {
        match read {
            Some(v) => Ok(v),
            None => Err(Failure::DecodeFailure),
        }
    } else {
        Err(Failure::TransportFailure)
    }
}

/// What the answer of the moderation service does to an exchange.
pub open spec fn call_response_step(
    pre: ConnectorView,
    status: Option<Seq<char>>,
    body: Option<Seq<u8>>,
) -> (ConnectorView, StepView) {
    if pre.state == ConnectorState::WaitingInputResponse {
        input_verdict_step(pre, answer_read(status, input_verdict_of(body_or_empty(body))))
    } else if pre.state == ConnectorState::WaitingOutputResponse {
        output_verdict_step(pre, answer_read(status, output_action_of(body_or_empty(body))))
    } else {
        (pre, idle())
    }
}

/// What a call that the host could not dispatch does to an exchange: the
/// stream goes on unchecked, or the held alternate answer goes to the
/// client.
pub open spec fn dispatch_failed_step(pre: ConnectorView) -> (ConnectorView, StepView) {
    if pre.response_sent {
        (pre, idle())
    } else if pre.state == ConnectorState::WaitingInputResponse {
        (
            ConnectorView { state: ConnectorState::Initial, ..pre },
            unchecked(Some(Failure::TransportFailure)),
        )
    } else if pre.state == ConnectorState::WaitingOutputResponse {
        match pre.pending_proxy_response {
            Some(p) => noting(
                relay(ConnectorView { pending_proxy_response: None, ..pre }, p),
                Failure::TransportFailure,
            ),
            None => (
                ConnectorView { state: ConnectorState::Initial, ..pre },
                unchecked(Some(Failure::TransportFailure)),
            ),
        }
    } else {
        (pre, idle())
    }
}

/// What the arrival of the request headers does to an exchange.
pub open spec fn request_headers_step(
    pre: ConnectorView,
    bypass_token: Option<Seq<char>>,
    consumer: Option<Seq<char>>,
    consumer_alt: Option<Seq<char>>,
) -> (ConnectorView, StepView) {
    if pre.response_sent {
        (pre, idle())
    } else if pre.config is None {
        (pre, unchecked(Some(Failure::ConfigurationMissing)))
    } else if bypass_token is Some {
        (
            ConnectorView { bypassed: true, ..pre },
            one_call(Action::Continue, request_header_removal(BYPASS_HEADER@)),
        )
    } else {
        (
            ConnectorView {
                consumer_id: if consumer is Some {
                    consumer
                } else {
                    consumer_alt
                },
                ..pre
            },
            one_call(Action::Pause, request_header_removal("content-length"@)),
        )
    }
}

/// An exchange that holds this request body where the host has one.
pub open spec fn with_request_body(pre: ConnectorView, body: Option<Seq<u8>>) -> ConnectorView {
    match body {
        Some(b) => ConnectorView { request_body: b, ..pre },
        None => pre,
    }
}

/// An exchange that holds this response body where the host has one.
pub open spec fn with_response_body(pre: ConnectorView, body: Option<Seq<u8>>) -> ConnectorView {
    match body {
        Some(b) => ConnectorView { response_body: b, ..pre },
        None => pre,
    }
}

/// Whether the input check applies to an exchange whose request body is
/// complete.
pub open spec fn input_check_applies(stored: ConnectorView) -> bool {
    &&& stored.config is Some
    &&& stored.config->0.enable_input_detection
    &&& stored.request_body.len() > 0
    &&& messages_of(stored.request_body) is Some
}

/// Why the input check does not apply, where that is a failure: there is no
/// configuration, or checking is on and the body holds no messages.
pub open spec fn input_check_skipped(stored: ConnectorView) -> Option<Failure> {
    match stored.config {
        None => Some(Failure::ConfigurationMissing),
        Some(c) => if c.enable_input_detection {
            Some(Failure::BodyNotApplicable)
        } else {
            None
        },
    }
}

/// What a chunk of the request body does to an exchange. Until the last
/// chunk, and while an answer is awaited, the stream is held. At the last
/// chunk the input check is dispatched where it applies and can be described;
/// else the request goes on unchecked.
pub open spec fn request_body_step(pre: ConnectorView, body: Option<Seq<u8>>, end_of_stream: bool)
    -> (ConnectorView, StepView) {
    if pre.response_sent || pre.state == ConnectorState::Done || pre.bypassed {
        (pre, idle())
    } else if !end_of_stream || pre.state != ConnectorState::Initial {
        (pre, held())
    } else {
        let stored = with_request_body(pre, body);
        if input_check_applies(stored) {
            let messages = messages_of(stored.request_body)->0;
            let noted = ConnectorView {
                input_messages: Some(messages),
                is_streaming: streaming_of(stored.request_body),
                ..stored
            };
            match call_for(noted, PROCESS_INPUT_PATH@, input_request(noted, messages)) {
                Ok(call) => (
                    ConnectorView { state: ConnectorState::WaitingInputResponse, ..noted },
                    one_call(Action::Pause, HostCallView::DispatchHttpCall { call }),
                ),
                Err(_) => (noted, unchecked(Some(Failure::ConfigurationMissing))),
            }
        } else {
            (stored, unchecked(input_check_skipped(stored)))
        }
    }
}

/// What the arrival of the response headers does to an exchange.
pub open spec fn response_headers_step(pre: ConnectorView) -> (ConnectorView, StepView) {
    if pre.response_sent {
        (pre, idle())
    } else {
        (pre, one_call(Action::Continue, response_header_removal("content-length"@)))
    }
}

/// Whether the output check is wanted for an exchange: checking is on, or
/// there is something to restore.
pub open spec fn output_check_wanted(stored: ConnectorView) -> bool {
    &&& stored.config is Some
    &&& (stored.config->0.enable_output_detection || stored.session_id is Some
        || stored.restore_mapping is Some)
}

/// Whether the output check applies to an exchange whose response body is
/// complete: it is wanted, and the body holds content.
pub open spec fn output_check_applies(stored: ConnectorView) -> bool {
    &&& output_check_wanted(stored)
    &&& content_of(stored.response_body) is Some
}

/// Why the output check does not apply, where that is a failure: there is no
/// configuration, or the check is wanted and the body holds no content.
pub open spec fn output_check_skipped(stored: ConnectorView) -> Option<Failure> {
    if stored.config is None {
        Some(Failure::ConfigurationMissing)
    } else if output_check_wanted(stored) {
        Some(Failure::BodyNotApplicable)
    } else {
        None
    }
}

/// What a chunk of the response body does to an exchange. Until the last
/// chunk, and while an answer is awaited, the stream is held. At the last
/// chunk the output check is dispatched where it applies and can be
/// described; else the response goes on unchecked.
pub open spec fn response_body_step(
    pre: ConnectorView,
    body: Option<Seq<u8>>,
    end_of_stream: bool,
) -> (ConnectorView, StepView) {
    if pre.response_sent || pre.state == ConnectorState::Done || pre.bypassed {
        (pre, idle())
    } else if !end_of_stream || pre.state != ConnectorState::Initial {
        (pre, held())
    } else {
        let stored = with_response_body(pre, body);
        if output_check_applies(stored) {
            let content = content_of(stored.response_body)->0;
            match call_for(stored, PROCESS_OUTPUT_PATH@, output_request(stored, content)) {
                Ok(call) => (
                    ConnectorView { state: ConnectorState::WaitingOutputResponse, ..stored },
                    one_call(Action::Pause, HostCallView::DispatchHttpCall { call }),
                ),
                Err(_) => (stored, unchecked(Some(Failure::ConfigurationMissing))),
            }
        } else {
            (stored, unchecked(output_check_skipped(stored)))
        }
    }
}

/// The view of a verdict, or the failure in its place.
pub open spec fn verdict_view<T: View>(r: Result<T, Failure>) -> Result<T::V, Failure> {
    match r {
        Ok(v) => Ok(v@),
        Err(failure) => Err(failure),
    }
}

/// What was read from a body, or the failed decoding in its place.
pub open spec fn decoding<T>(read: Option<T>) -> Result<T, Failure> {
    match read {
        Some(v) => Ok(v),
        None => Err(Failure::DecodeFailure),
    }
}

/// The view of what an optional reference points to.
pub open spec fn opt_ref_view<T: View>(o: Option<&T>) -> Option<T::V> {
    match o {
        Some(x) => Some(x@),
        None => None,
    }
}

/// The characters of an optional string slice.
pub open spec fn opt_str(o: Option<&str>) -> Option<Seq<char>> {
    match o {
        Some(s) => Some(s@),
        None => None,
    }
}

impl OGConnectorRoot {
    /// A new exchange under this root's configuration.
    pub fn create_http_context(&self, context_id: u32) -> (r: OGConnector)
        ensures
            r@ == fresh(context_id, opt_view(self.config)),
            r@.wf(),
    {
        let config = match &self.config {
            Some(c) => Some(c.clone()),
            None => None,
        };
        OGConnector::new(context_id, config)
    }
}

impl OGConnector {
    /// A new exchange: nothing buffered, nothing awaited.
    pub fn new(context_id: u32, config: Option<OGConnectorConfig>) -> (r: Self)
        ensures
            r@ == fresh(context_id, opt_view(config)),
            r@.wf(),
    {
        OGConnector {
            context_id,
            config,
            state: ConnectorState::Initial,
            request_body: Vec::new(),
            response_body: Vec::new(),
            session_id: None,
            restore_mapping: None,
            is_streaming: false,
            input_messages: None,
            bypassed: false,
            pending_proxy_response: None,
            response_sent: false,
            consumer_id: None,
        }
    }

    /// The identifier that the host gave the exchange.
    pub fn context_id(&self) -> (r: u32)
        ensures
            r == self@.context_id,
    {
        self.context_id
    }

    /// The configuration under which the exchange runs.
    pub fn config(&self) -> (r: Option<&OGConnectorConfig>)
        ensures
            opt_ref_view(r) == self@.config,
    {
        self.config.as_ref()
    }

    /// Where the exchange stands.
    pub fn state(&self) -> (r: ConnectorState)
        ensures
            r == self@.state,
    {
        self.state
    }

    /// The request body, once its last chunk has arrived.
    pub fn request_body(&self) -> (r: &[u8])
        ensures
            r@ == self@.request_body,
    {
        self.request_body.as_slice()
    }

    /// The response body, once its last chunk has arrived.
    pub fn response_body(&self) -> (r: &[u8])
        ensures
            r@ == self@.response_body,
    {
        self.response_body.as_slice()
    }

    /// The session token that the last input verdict issued.
    pub fn session_id(&self) -> (r: Option<&str>)
        ensures
            opt_str(r) == self@.session_id,
    {
        match &self.session_id {
            Some(s) => Some(s.as_str()),
            None => None,
        }
    }

    /// The restore table that the last input verdict issued.
    pub fn restore_mapping(&self) -> (r: Option<&RestoreMapping>)
        ensures
            opt_ref_view(r) == self@.restore_mapping,
    {
        self.restore_mapping.as_ref()
    }

    /// Whether the request asked for a streamed answer.
    pub fn is_streaming(&self) -> (r: bool)
        ensures
            r == self@.is_streaming,
    {
        self.is_streaming
    }

    /// The request's messages as they were before any anonymization.
    pub fn input_messages(&self) -> (r: Option<&Vec<Value>>)
        ensures
            (match r {
                Some(m) => Some(models(m@)),
                None => None,
            }) == self@.input_messages,
    {
        self.input_messages.as_ref()
    }

    /// Whether the request came with a bypass credential.
    pub fn bypassed(&self) -> (r: bool)
        ensures
            r == self@.bypassed,
    {
        self.bypassed
    }

    /// The answer of an alternate model that is held for the output check.
    pub fn pending_proxy_response(&self) -> (r: Option<&HttpResponse>)
        ensures
            opt_ref_view(r) == self@.pending_proxy_response,
    {
        self.pending_proxy_response.as_ref()
    }

    /// Whether a response of the connector's own has gone to the client.
    pub fn response_sent(&self) -> (r: bool)
        ensures
            r == self@.response_sent,
    {
        self.response_sent
    }

    /// The caller's identity, as the request headers gave it.
    pub fn consumer_id(&self) -> (r: Option<&str>)
        ensures
            opt_str(r) == self@.consumer_id,
    {
        match &self.consumer_id {
            Some(s) => Some(s.as_str()),
            None => None,
        }
    }

    /// Whether the exchange is well formed, tested on what it holds. It is
    /// for every exchange: [`OGConnector::new`] makes it so and the handlers
    /// keep it so.
    pub fn well_formed(&self) -> (r: bool)
        ensures
            r == self@.wf(),
    {
        let awaiting = self.state == ConnectorState::WaitingInputResponse || self.state
            == ConnectorState::WaitingOutputResponse;
        !(self.session_id.is_some() && self.restore_mapping.is_some()) && (!self.response_sent
            || self.state == ConnectorState::Done) && (self.pending_proxy_response.is_none()
            || self.state == ConnectorState::WaitingOutputResponse) && (!awaiting
            || self.config.is_some())
    }

    /// Ends the exchange with a response of the connector's own. The host
    /// empties the buffered request body first, then answers the client.
    fn send_local_response(&mut self, status_code: u32, content_type: &str, body: &[u8]) -> (r:
        Step)
        ensures
            (final(self)@, r@) == local_response(old(self)@, status_code, content_type@, body@),
    {
        self.response_sent = true;
        self.state = ConnectorState::Done;
        let mut calls: Vec<HostCall> = Vec::new();
        calls.push(HostCall::SetRequestBody { body: Vec::new() });
        calls.push(
            HostCall::SendHttpResponse {
                status_code,
                content_type: content_type.to_owned(),
                body: vstd::slice::slice_to_vec(body),
            },
        );
        let r = Step { action: Action::Pause, calls, failure: None };
        assert(r@.calls =~= local_response(old(self)@, status_code, content_type@, body@).1.calls);
        r
    }

    /// Ends the exchange with a ready-made response.
    fn relay(&mut self, h: &HttpResponse) -> (r: Step)
        ensures
            (final(self)@, r@) == relay(old(self)@, h@),
    {
        self.send_local_response(h.code as u32, h.content_type.as_str(), h.body.as_str().as_bytes())
    }

    /// Ends the exchange with a verdict's response, or held where the verdict
    /// brings none.
    fn relay_or_end(&mut self, h: Option<HttpResponse>) -> (r: Step)
        ensures
            (final(self)@, r@) == relay_or_end(old(self)@, opt_view(h)),
    {
        match h {
            Some(h) => self.relay(&h),
            None => {
                self.state = ConnectorState::Done;
                Step::bare(Action::Pause)
            },
        }
    }

    /// Lets the held request go on, after these calls.
    fn resume_request(&mut self, edits: Vec<HostCall>) -> (r: Step)
        ensures
            (final(self)@, r@) == resume_request(old(self)@, calls_view(edits@)),
    {
        self.state = ConnectorState::Initial;
        let mut calls = edits;
        calls.push(HostCall::ResumeHttpRequest);
        let r = Step { action: Action::Continue, calls, failure: None };
        assert(r@.calls =~= calls_view(edits@).push(HostCallView::ResumeHttpRequest));
        r
    }

    /// Lets the held request go on as it is.
    fn pass(&mut self) -> (r: Step)
        ensures
            (final(self)@, r@) == resume_request(old(self)@, Seq::empty()),
    {
        let edits: Vec<HostCall> = Vec::new();
        assert(calls_view(edits@) =~= Seq::<HostCallView>::empty());
        self.resume_request(edits)
    }

    /// Describes a call to the moderation service with this body. Fails where
    /// the exchange has no configuration, or the configuration no route.
    pub fn call_og_api(&self, path: &str, body: Vec<u8>) -> (r: Result<
        CallDescriptor,
        ConfigurationError,
    >)
        ensures
            call_result_view(r) == call_for(self@, path@, body@),
    {
        let config = match &self.config {
            Some(c) => c,
            None => return Err(ConfigurationError::NoConfiguration),
        };
        describe_call(
            path,
            body,
            config.og_cluster.as_str(),
            config.og_base_url.as_str(),
            config.og_api_key.as_str(),
            config.timeout_ms,
            self.consumer_id.as_ref(),
        )
    }

    /// The body of the input check for these messages.
    pub fn build_input_request(&self, messages: Vec<Value>) -> (r: Vec<u8>)
        ensures
            r@ == input_request(self@, models(messages@)),
    {
        proof {
            reveal_strlit("");
        }
        match &self.config {
            Some(c) => build_input_request(messages, c.application_id.as_str()),
            None => build_input_request(messages, ""),
        }
    }

    /// The body of the output check for this content, with what the exchange
    /// keeps for it: session token or restore table, and the request's
    /// messages.
    pub fn build_output_request(&self, content: &str) -> (r: Vec<u8>)
        ensures
            r@ == output_request(self@, content@),
    {
        proof {
            reveal_strlit("");
        }
        let context = match &self.input_messages {
            Some(m) => Some(clone_values(m.as_slice())),
            None => None,
        };
        match &self.config {
            Some(c) => build_output_request(
                content,
                self.session_id.as_ref(),
                self.restore_mapping.as_ref(),
                c.application_id.as_str(),
                context,
            ),
            None => build_output_request(
                content,
                self.session_id.as_ref(),
                self.restore_mapping.as_ref(),
                "",
                context,
            ),
        }
    }

    /// Keeps what the output phase needs of a verdict.
    fn remember(&mut self, session_id: Option<String>, restore_mapping: Option<RestoreMapping>)
        ensures
            final(self)@ == (ConnectorView {
                session_id: if restore_mapping is Some {
                    None
                } else {
                    opt_text(session_id)
                },
                restore_mapping: opt_view(restore_mapping),
                ..old(self)@
            }),
    {
        if restore_mapping.is_some() {
            self.session_id = None;
        } else {
            self.session_id = session_id;
        }
        self.restore_mapping = restore_mapping;
    }

    /// Handles the answer of an alternate model that came in place of a
    /// verdict.
    fn proxy_step(&mut self, h: Option<HttpResponse>) -> (r: Step)
        ensures
            (final(self)@, r@) == proxy_step(old(self)@, opt_view(h)),
    {
        let h = match h {
            Some(h) => h,
            None => return self.relay_or_end(None),
        };
        let enabled = match &self.config {
            Some(c) => c.enable_output_detection,
            None => false,
        };
        if !enabled {
            return self.relay(&h);
        }
        let content = match extract_content_from_body(h.body.as_str()) {
            Some(c) => c,
            None => return self.relay(&h).noting(Failure::BodyNotApplicable),
        };
        let payload = self.build_output_request(content.as_str());
        match self.call_og_api(PROCESS_OUTPUT_PATH, payload) {
            Ok(call) => {
                self.pending_proxy_response = Some(h);
                self.state = ConnectorState::WaitingOutputResponse;
                Step::single(Action::Pause, HostCall::DispatchHttpCall { call })
            },
            Err(_) => self.relay(&h).noting(Failure::ConfigurationMissing),
        }
    }

    /// The edit that attaches a verdict's bypass credential.
    fn bypass_calls(bypass_token: &Option<String>, bypass_header_name: &Option<String>) -> (r: Vec<
        HostCall,
    >)
        ensures
            calls_view(r@) == bypass_edit(opt_text(*bypass_token), opt_text(*bypass_header_name)),
    {
        let mut calls: Vec<HostCall> = Vec::new();
        match bypass_token {
            Some(token) => {
                let name = match bypass_header_name {
                    Some(n) => n.as_str(),
                    None => BYPASS_HEADER,
                };
                calls.push(set_bypass_header(name, token.as_str()));
            },
            None => {},
        }
        assert(calls_view(calls@) =~= bypass_edit(
            opt_text(*bypass_token),
            opt_text(*bypass_header_name),
        ));
        calls
    }

    /// The edits that reroute the request to an alternate model.
    fn reroute_calls(&self, p: &PrivateModelInfo) -> (r: Vec<HostCall>)
        ensures
            calls_view(r@) == reroute_edits(p@, self@.request_body),
    {
        let mut calls: Vec<HostCall> = Vec::new();
        let ghost body = self@.request_body;
        let ghost key = optional(
            match p@.api_key {
                Some(k) => Some(authorization_swap(k)),
                None => None,
            },
        );
        let ghost provider = optional(
            match p@.provider {
                Some(x) => Some(provider_hint(x)),
                None => None,
            },
        );
        let ghost model = seq![model_hint(p@.model_name)];
        let ghost route = optional(
            match p@.higress_cluster {
                Some(c) => Some(route_hint(c)),
                None => None,
            },
        );
        match &p.api_key {
            Some(k) => {
                calls.push(swap_authorization(k.as_str()));
            },
            None => {},
        }
        assert(calls_view(calls@) =~= key);
        match &p.provider {
            Some(x) => {
                calls.push(set_provider_hint(x.as_str()));
            },
            None => {},
        }
        assert(calls_view(calls@) =~= key + provider);
        calls.push(set_model_hint(p.model_name.as_str()));
        assert(calls_view(calls@) =~= key + provider + model);
        match &p.higress_cluster {
            Some(c) => {
                calls.push(set_route_hint(c.as_str()));
            },
            None => {},
        }
        assert(calls_view(calls@) =~= key + provider + model + route);
        if self.request_body.len() > 0 {
            match try_rewrite_model_field(self.request_body.as_slice(), p.model_name.as_str()) {
                Some(b) => {
                    calls.push(HostCall::SetRequestBody { body: b });
                },
                None => {},
            }
        }
        assert(calls_view(calls@) =~= reroute_edits(p@, body));
        calls
    }

    /// All edits of a rerouting verdict.
    fn switch_edits(
        &self,
        bypass_token: &Option<String>,
        bypass_header_name: &Option<String>,
        private_model: &Option<PrivateModelInfo>,
    ) -> (r: Vec<HostCall>)
        ensures
            calls_view(r@) == switch_edits(
                opt_view(*private_model),
                opt_text(*bypass_token),
                opt_text(*bypass_header_name),
                self@.request_body,
            ),
    {
        let mut calls = Self::bypass_calls(bypass_token, bypass_header_name);
        let ghost first = calls@;
        match private_model {
            Some(p) => {
                let mut more = self.reroute_calls(p);
                let ghost second = more@;
                calls.append(&mut more);
                assert(calls_view(first + second) =~= calls_view(first) + calls_view(second));
            },
            None => {
                assert(calls_view(first) + Seq::<HostCallView>::empty() =~= calls_view(first));
            },
        }
        calls
    }

    /// Applies the verdict of an input check, or lets the request go on as it
    /// is where the answer could not be had or read.
    pub fn apply_input_verdict(&mut self, verdict: Result<InputVerdict, Failure>) -> (r: Step)
        ensures
            (final(self)@, r@) == input_verdict_step(old(self)@, verdict_view(verdict)),
            old(self)@.wf() ==> final(self)@.wf(),
    {
        if self.response_sent || self.state != ConnectorState::WaitingInputResponse {
            return Step::bare(Action::Continue);
        }
        let v = match verdict {
            Ok(v) => v,
            Err(failure) => return self.pass().noting(failure),
        };
        let InputVerdict { action, session_id, restore_mapping } = v;
        self.remember(session_id, restore_mapping);
        match action {
            VerdictAction::Block { response } => self.relay_or_end(response),
            VerdictAction::Replace { response } => self.relay_or_end(response),
            VerdictAction::Anonymize { messages } => {
                let mut edits: Vec<HostCall> = Vec::new();
                match messages {
                    Some(m) => {
                        let body = rebuild_request_body(self.request_body.as_slice(), m.as_slice());
                        edits.push(HostCall::SetRequestBody { body });
                    },
                    None => {},
                }
                assert(calls_view(edits@) =~= anonymize_edit(
                    old(self)@.request_body,
                    opt_models(messages),
                ));
                self.resume_request(edits)
            },
            VerdictAction::ProxyResponse { response } => self.proxy_step(response),
            VerdictAction::SwitchModel { private_model, bypass_token, bypass_header } => {
                let edits = self.switch_edits(&bypass_token, &bypass_header, &private_model);
                self.resume_request(edits)
            },
            _ => self.pass(),
        }
    }

    /// Handles the body of the moderation service's answer to an input check.
    /// A body that cannot be read counts as a failed call.
    pub fn handle_input_response(&mut self, body: &[u8]) -> (r: Step)
        ensures
            (final(self)@, r@) == input_verdict_step(
                old(self)@,
                decoding(input_verdict_of(body@)),
            ),
            old(self)@.wf() ==> final(self)@.wf(),
    {
        match InputVerdict::from_slice(body) {
            Some(v) => self.apply_input_verdict(Ok(v)),
            None => self.apply_input_verdict(Err(Failure::DecodeFailure)),
        }
    }

    /// The alternate answer as a verdict of the output check leaves it.
    fn judge_alternate(p: HttpResponse, verdict: Option<VerdictAction>) -> (r: HttpResponse)
        ensures
            r@ == judged_alternate(p@, opt_view(verdict)),
    {
        match verdict {
            Some(VerdictAction::Block { response: Some(b) }) => b,
            Some(VerdictAction::Restore { content: Some(c) }) => {
                let body = rebuild_proxy_response_body(p.body.as_str(), c.as_str());
                HttpResponse { code: p.code, content_type: p.content_type, body }
            },
            _ => p,
        }
    }

    /// The edit of the upstream's response body that a verdict asks for.
    fn response_edit(&self, verdict: VerdictAction) -> (r: Vec<HostCall>)
        ensures
            calls_view(r@) == response_edit(self@.response_body, verdict@),
    {
        let mut calls: Vec<HostCall> = Vec::new();
        match verdict {
            VerdictAction::Block { response: Some(b) } => {
                calls.push(HostCall::SetResponseBody { body: b.body.as_str().as_bytes_vec() });
            },
            VerdictAction::AnonymizeOutput { content: Some(c) } => {
                let body = rebuild_response_body(self.response_body.as_slice(), c.as_str());
                calls.push(HostCall::SetResponseBody { body });
            },
            VerdictAction::Restore { content: Some(c) } => {
                let body = rebuild_response_body(self.response_body.as_slice(), c.as_str());
                calls.push(HostCall::SetResponseBody { body });
            },
            _ => {},
        }
        assert(calls_view(calls@) =~= response_edit(self@.response_body, verdict@));
        calls
    }

    /// Applies the verdict of an output check and ends the exchange. Where
    /// the answer could not be had or read, what is there goes to the client
    /// as it is.
    pub fn apply_output_verdict(&mut self, verdict: Result<VerdictAction, Failure>) -> (r: Step)
        ensures
            (final(self)@, r@) == output_verdict_step(old(self)@, verdict_view(verdict)),
            old(self)@.wf() ==> final(self)@.wf(),
    {
        if self.response_sent || self.state != ConnectorState::WaitingOutputResponse {
            return Step::bare(Action::Continue);
        }
        match verdict {
            Ok(v) => self.end_with(Some(v)),
            Err(failure) => self.end_with(None).noting(failure),
        }
    }

    /// Ends the exchange as a verdict of the output check asks; without a
    /// verdict what is there goes to the client as it is.
    fn end_with(&mut self, verdict: Option<VerdictAction>) -> (r: Step)
        ensures
            (final(self)@, r@) == output_verdict_applied(old(self)@, opt_view(verdict)),
    {
        self.state = ConnectorState::Done;
        match self.pending_proxy_response.take() {
            Some(p) => {
                let judged = Self::judge_alternate(p, verdict);
                self.relay(&judged)
            },
            None => {
                let mut calls = match verdict {
                    Some(v) => self.response_edit(v),
                    None => Vec::new(),
                };
                let ghost edits = calls_view(calls@);
                calls.push(HostCall::ResumeHttpResponse);
                let r = Step { action: Action::Continue, calls, failure: None };
                assert(r@.calls =~= edits.push(HostCallView::ResumeHttpResponse));
                assert(verdict is None ==> edits =~= Seq::<HostCallView>::empty());
                r
            },
        }
    }

    /// Handles the body of the moderation service's answer to an output
    /// check. A body that cannot be read counts as a failed call.
    pub fn handle_output_response(&mut self, body: &[u8]) -> (r: Step)
        ensures
            (final(self)@, r@) == output_verdict_step(
                old(self)@,
                decoding(output_action_of(body@)),
            ),
            old(self)@.wf() ==> final(self)@.wf(),
    {
        match VerdictAction::from_output_slice(body) {
            Some(v) => self.apply_output_verdict(Ok(v)),
            None => self.apply_output_verdict(Err(Failure::DecodeFailure)),
        }
    }

    /// Handles the answer of the moderation service: `status` is its
    /// `:status`, `body` its body, each `None` where the host has none, as
    /// after a timeout.
    pub fn on_http_call_response(&mut self, status: Option<&str>, body: Option<Vec<u8>>) -> (r:
        Step)
        ensures
            (final(self)@, r@) == call_response_step(
                old(self)@,
                opt_str(status),
                opt_bytes(body),
            ),
            old(self)@.wf() ==> final(self)@.wf(),
    {
        let ok = match status {
            Some(s) => is_success_status(s),
            None => false,
        };
        let body = match body {
            Some(b) => b,
            None => Vec::new(),
        };
        match self.state {
            ConnectorState::WaitingInputResponse => {
                if ok {
                    self.handle_input_response(body.as_slice())
                } else {
                    self.apply_input_verdict(Err(Failure::TransportFailure))
                }
            },
            ConnectorState::WaitingOutputResponse => {
                if ok {
                    self.handle_output_response(body.as_slice())
                } else {
                    self.apply_output_verdict(Err(Failure::TransportFailure))
                }
            },
            _ => Step::bare(Action::Continue),
        }
    }

    /// Tells the exchange that the host could not dispatch the call of the
    /// last step.
    pub fn on_dispatch_failed(&mut self) -> (r: Step)
        ensures
            (final(self)@, r@) == dispatch_failed_step(old(self)@),
            old(self)@.wf() ==> final(self)@.wf(),
    {
        if self.response_sent {
            return Step::bare(Action::Continue);
        }
        match self.state {
            ConnectorState::WaitingInputResponse => {
                self.state = ConnectorState::Initial;
                Step::unchecked(Some(Failure::TransportFailure))
            },
            ConnectorState::WaitingOutputResponse => {
                match self.pending_proxy_response.take() {
                    Some(p) => self.relay(&p).noting(Failure::TransportFailure),
                    None => {
                        self.state = ConnectorState::Initial;
                        Step::unchecked(Some(Failure::TransportFailure))
                    },
                }
            },
            _ => Step::bare(Action::Continue),
        }
    }

    /// Handles the arrival of the request headers. `bypass_token` is the
    /// value of the bypass header, `consumer` and `consumer_alt` those of the
    /// caller-identity header in its two casings; each is `None` where the
    /// request has no such header.
    pub fn on_http_request_headers(
        &mut self,
        bypass_token: Option<String>,
        consumer: Option<String>,
        consumer_alt: Option<String>,
    ) -> (r: Step)
        ensures
            (final(self)@, r@) == request_headers_step(
                old(self)@,
                opt_text(bypass_token),
                opt_text(consumer),
                opt_text(consumer_alt),
            ),
            old(self)@.wf() ==> final(self)@.wf(),
    {
        if self.response_sent {
            return Step::bare(Action::Continue);
        }
        if self.config.is_none() {
            return Step::unchecked(Some(Failure::ConfigurationMissing));
        }
        if bypass_token.is_some() {
            self.bypassed = true;
            let call = HostCall::SetRequestHeader { name: BYPASS_HEADER.to_owned(), value: None };
            return Step::single(Action::Continue, call);
        }
        self.consumer_id = match consumer {
            Some(c) => Some(c),
            None => consumer_alt,
        };
        Step::single(Action::Pause, strip_content_length())
    }

    /// Handles a chunk of the request body. `body` is the whole buffered
    /// body, which the host reads at the last chunk.
    pub fn on_http_request_body(&mut self, body: Option<Vec<u8>>, end_of_stream: bool) -> (r: Step)
        ensures
            (final(self)@, r@) == request_body_step(old(self)@, opt_bytes(body), end_of_stream),
            old(self)@.wf() ==> final(self)@.wf(),
    {
        if self.response_sent || self.state == ConnectorState::Done || self.bypassed {
            return Step::bare(Action::Continue);
        }
        if !end_of_stream || self.state != ConnectorState::Initial {
            return Step::bare(Action::Pause);
        }
        match body {
            Some(b) => {
                self.request_body = b;
            },
            None => {},
        }
        let enabled = match &self.config {
            Some(c) => c.enable_input_detection,
            None => return Step::unchecked(Some(Failure::ConfigurationMissing)),
        };
        if !enabled {
            return Step::bare(Action::Continue);
        }
        if self.request_body.len() == 0 {
            return Step::unchecked(Some(Failure::BodyNotApplicable));
        }
        let messages = match parse_messages(self.request_body.as_slice()) {
            Some(m) => m,
            None => return Step::unchecked(Some(Failure::BodyNotApplicable)),
        };
        self.input_messages = Some(clone_values(messages.as_slice()));
        self.is_streaming = check_streaming(self.request_body.as_slice());
        let payload = self.build_input_request(messages);
        match self.call_og_api(PROCESS_INPUT_PATH, payload) {
            Ok(call) => {
                self.state = ConnectorState::WaitingInputResponse;
                Step::single(Action::Pause, HostCall::DispatchHttpCall { call })
            },
            Err(_) => Step::unchecked(Some(Failure::ConfigurationMissing)),
        }
    }

    /// Handles the arrival of the response headers.
    pub fn on_http_response_headers(&mut self) -> (r: Step)
        ensures
            (final(self)@, r@) == response_headers_step(old(self)@),
            old(self)@.wf() ==> final(self)@.wf(),
    {
        if self.response_sent {
            return Step::bare(Action::Continue);
        }
        Step::single(Action::Continue, strip_response_content_length())
    }

    /// Handles a chunk of the response body. `body` is the whole buffered
    /// body, which the host reads at the last chunk.
    pub fn on_http_response_body(&mut self, body: Option<Vec<u8>>, end_of_stream: bool) -> (r:
        Step)
        ensures
            (final(self)@, r@) == response_body_step(old(self)@, opt_bytes(body), end_of_stream),
            old(self)@.wf() ==> final(self)@.wf(),
    {
        if self.response_sent || self.state == ConnectorState::Done || self.bypassed {
            return Step::bare(Action::Continue);
        }
        if !end_of_stream || self.state != ConnectorState::Initial {
            return Step::bare(Action::Pause);
        }
        match body {
            Some(b) => {
                self.response_body = b;
            },
            None => {},
        }
        let wanted = match &self.config {
            Some(c) => c.enable_output_detection || self.session_id.is_some()
                || self.restore_mapping.is_some(),
            None => return Step::unchecked(Some(Failure::ConfigurationMissing)),
        };
        if !wanted {
            return Step::bare(Action::Continue);
        }
        let content = match extract_response_content(self.response_body.as_slice()) {
            Some(c) => c,
            None => return Step::unchecked(Some(Failure::BodyNotApplicable)),
        };
        let payload = self.build_output_request(content.as_str());
        match self.call_og_api(PROCESS_OUTPUT_PATH, payload) {
            Ok(call) => {
                self.state = ConnectorState::WaitingOutputResponse;
                Step::single(Action::Pause, HostCall::DispatchHttpCall { call })
            },
            Err(_) => Step::unchecked(Some(Failure::ConfigurationMissing)),
        }
    }
}

} // verus!
