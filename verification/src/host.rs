//! What the connector asks of the host runtime.
//!
//! The connector performs no I/O. Each of its handlers returns a [`Step`]: the
//! host calls to make, in their order, and whether the stream goes on or is
//! held. The header and route edits that a verdict may require are host calls
//! too, built by the functions of this module.
use crate::client::{CallDescriptor, CallView};
use crate::extract::opt_text;
use vstd::prelude::*;

verus! {

/// Name of the header that carries a bypass credential unless a verdict names
/// another.
pub const BYPASS_HEADER: &'static str = "X-OG-Bypass-Token";

/// What a handler hands back to the host: let the stream go on, or hold it.
#[derive(Debug, Clone, Copy, PartialEq, Eq, Structural)]
pub enum Action {
    Continue,
    Pause,
}

/// Why a check did not run or did not count. None of these stops an
/// exchange: the traffic goes on as it is, or a response that is already there
/// goes to the client. They are told so that the host can report them.
#[derive(Debug, Clone, Copy, PartialEq, Eq, Structural)]
pub enum Failure {
    /// There is no usable configuration, or it names no route: the exchange
    /// goes unchecked.
    ConfigurationMissing,
    /// The call to the moderation service could not be dispatched, timed out,
    /// or came back with a status that reports no success.
    TransportFailure,
    /// The answer of the moderation service could not be read.
    DecodeFailure,
    /// The body holds nothing to check.
    BodyNotApplicable,
}

/// One call for the host to make.
#[derive(Debug, PartialEq, Eq)]
pub enum HostCall {
    /// Set a request header, or remove it where `value` is `None`.
    SetRequestHeader { name: String, value: Option<String> },
    /// Set a response header, or remove it where `value` is `None`.
    SetResponseHeader { name: String, value: Option<String> },
    /// Set a property of the stream.
    SetProperty { name: String, bytes: Vec<u8> },
    /// Replace the whole buffered request body.
    SetRequestBody { body: Vec<u8> },
    /// Replace the whole buffered response body.
    SetResponseBody { body: Vec<u8> },
    /// Answer the client at once with this response.
    SendHttpResponse { status_code: u32, content_type: String, body: Vec<u8> },
    /// Let the held request go on to the upstream.
    ResumeHttpRequest,
    /// Let the held response go on to the client.
    ResumeHttpResponse,
    /// Send this call to the moderation service.
    DispatchHttpCall { call: CallDescriptor },
}

/// A [`HostCall`] as a specification sees it.
pub enum HostCallView {
    SetRequestHeader { name: Seq<char>, value: Option<Seq<char>> },
    SetResponseHeader { name: Seq<char>, value: Option<Seq<char>> },
    SetProperty { name: Seq<char>, bytes: Seq<u8> },
    SetRequestBody { body: Seq<u8> },
    SetResponseBody { body: Seq<u8> },
    SendHttpResponse { status_code: u32, content_type: Seq<char>, body: Seq<u8> },
    ResumeHttpRequest,
    ResumeHttpResponse,
    DispatchHttpCall { call: CallView },
}

impl View for HostCall {
    type V = HostCallView;

    open spec fn view(&self) -> HostCallView {
        match *self {
            HostCall::SetRequestHeader { name, value } => HostCallView::SetRequestHeader {
                name: name@,
                value: opt_text(value),
            },
            HostCall::SetResponseHeader { name, value } => HostCallView::SetResponseHeader {
                name: name@,
                value: opt_text(value),
            },
            HostCall::SetProperty { name, bytes } => HostCallView::SetProperty {
                name: name@,
                bytes: bytes@,
            },
            HostCall::SetRequestBody { body } => HostCallView::SetRequestBody { body: body@ },
            HostCall::SetResponseBody { body } => HostCallView::SetResponseBody { body: body@ },
            HostCall::SendHttpResponse {
                status_code,
                content_type,
                body,
            } => HostCallView::SendHttpResponse {
                status_code,
                content_type: content_type@,
                body: body@,
            },
            HostCall::ResumeHttpRequest => HostCallView::ResumeHttpRequest,
            HostCall::ResumeHttpResponse => HostCallView::ResumeHttpResponse,
            HostCall::DispatchHttpCall { call } => HostCallView::DispatchHttpCall { call: call@ },
        }
    }
}

/// The views of a list of host calls.
pub open spec fn calls_view(s: Seq<HostCall>) -> Seq<HostCallView> {
    s.map_values(|c: HostCall| c@)
}

/// What a handler returns.
#[derive(Debug, PartialEq, Eq)]
pub struct Step {
    /// Whether the stream goes on or is held.
    pub action: Action,
    /// The host calls to make, in this order.
    pub calls: Vec<HostCall>,
    /// Why a check did not run or did not count, where that is so.
    pub failure: Option<Failure>,
}

/// A [`Step`] as a specification sees it.
pub struct StepView {
    pub action: Action,
    pub calls: Seq<HostCallView>,
    pub failure: Option<Failure>,
}

impl View for Step {
    type V = StepView;

    open spec fn view(&self) -> StepView {
        StepView { action: self.action, calls: calls_view(self.calls@), failure: self.failure }
    }
}

/// The step that lets the stream go on and asks nothing of the host.
pub open spec fn idle() -> StepView {
    StepView { action: Action::Continue, calls: Seq::empty(), failure: None }
}

/// The step that lets the stream go on unchecked, for this reason if there is
/// one to tell.
pub open spec fn unchecked(reason: Option<Failure>) -> StepView {
    StepView { action: Action::Continue, calls: Seq::empty(), failure: reason }
}

/// The step that holds the stream and asks nothing of the host.
pub open spec fn held() -> StepView {
    StepView { action: Action::Pause, calls: Seq::empty(), failure: None }
}

/// The step that makes one host call.
pub open spec fn one_call(action: Action, call: HostCallView) -> StepView {
    StepView { action, calls: seq![call], failure: None }
}

/// A step with the failure that led to it.
pub open spec fn noting<S>(r: (S, StepView), failure: Failure) -> (S, StepView) {
    (r.0, StepView { failure: Some(failure), ..r.1 })
}

impl Step {
    /// A step without host calls.
    pub fn bare(action: Action) -> (r: Step)
        ensures
            r@ == (StepView { action, calls: Seq::empty(), failure: None }),
    {
        let r = Step { action, calls: Vec::new(), failure: None };
        assert(calls_view(r.calls@) =~= Seq::<HostCallView>::empty());
        r
    }

    /// A step that lets the stream go on unchecked.
    pub fn unchecked(reason: Option<Failure>) -> (r: Step)
        ensures
            r@ == unchecked(reason),
    {
        let r = Step { action: Action::Continue, calls: Vec::new(), failure: reason };
        assert(calls_view(r.calls@) =~= Seq::<HostCallView>::empty());
        r
    }

    /// A step with one host call.
    pub fn single(action: Action, call: HostCall) -> (r: Step)
        ensures
            r@ == one_call(action, call@),
    {
        let mut calls: Vec<HostCall> = Vec::new();
        calls.push(call);
        let r = Step { action, calls, failure: None };
        assert(calls_view(r.calls@) =~= seq![call@]);
        r
    }

    /// This step, with the failure that led to it.
    pub fn noting(self, failure: Failure) -> (r: Step)
        ensures
            r@ == (StepView { failure: Some(failure), ..self@ }),
    {
        Step { action: self.action, calls: self.calls, failure: Some(failure) }
    }
}

/// The edit that puts `new_key` in place of the request's credential.
pub open spec fn authorization_swap(new_key: Seq<char>) -> HostCallView {
    HostCallView::SetRequestHeader { name: "authorization"@, value: Some("Bearer "@ + new_key) }
}

/// The edit that names the provider of the alternate model.
pub open spec fn provider_hint(name: Seq<char>) -> HostCallView {
    HostCallView::SetRequestHeader { name: "x-higress-llm-provider"@, value: Some(name) }
}

/// The edit that names the alternate model.
pub open spec fn model_hint(name: Seq<char>) -> HostCallView {
    HostCallView::SetRequestHeader { name: "x-higress-llm-model"@, value: Some(name) }
}

/// The edit that routes the request to another destination.
pub open spec fn route_hint(name: Seq<char>) -> HostCallView {
    HostCallView::SetProperty { name: "cluster_name"@, bytes: vstd::utf8::encode_utf8(name) }
}

/// The edit that attaches a bypass credential.
pub open spec fn bypass_header(name: Seq<char>, token: Seq<char>) -> HostCallView {
    HostCallView::SetRequestHeader { name, value: Some(token) }
}

/// The edit that removes a request header.
pub open spec fn request_header_removal(name: Seq<char>) -> HostCallView {
    HostCallView::SetRequestHeader { name, value: None }
}

/// The edit that removes a response header.
pub open spec fn response_header_removal(name: Seq<char>) -> HostCallView {
    HostCallView::SetResponseHeader { name, value: None }
}

/// Replaces the request's credential with `new_key`, as a bearer credential.
pub fn swap_authorization(new_key: &str) -> (r: HostCall)
    ensures
        r@ == authorization_swap(new_key@),
{
    HostCall::SetRequestHeader {
        name: "authorization".to_owned(),
        value: Some("Bearer ".to_owned().concat(new_key)),
    }
}

/// Names the provider of the alternate model to the gateway's router.
pub fn set_provider_hint(name: &str) -> (r: HostCall)
    ensures
        r@ == provider_hint(name@),
{
    HostCall::SetRequestHeader {
        name: "x-higress-llm-provider".to_owned(),
        value: Some(name.to_owned()),
    }
}

/// Names the alternate model to the gateway's router.
pub fn set_model_hint(name: &str) -> (r: HostCall)
    ensures
        r@ == model_hint(name@),
{
    HostCall::SetRequestHeader {
        name: "x-higress-llm-model".to_owned(),
        value: Some(name.to_owned()),
    }
}

/// Routes the request to the destination `name`.
pub fn set_route_hint(name: &str) -> (r: HostCall)
    ensures
        r@ == route_hint(name@),
{
    HostCall::SetProperty { name: "cluster_name".to_owned(), bytes: name.as_bytes_vec() }
}

/// Attaches the bypass credential `token` under the header `name`.
pub fn set_bypass_header(name: &str, token: &str) -> (r: HostCall)
    ensures
        r@ == bypass_header(name@, token@),
{
    HostCall::SetRequestHeader { name: name.to_owned(), value: Some(token.to_owned()) }
}

/// Removes the request's `content-length`, since the body may change.
pub fn strip_content_length() -> (r: HostCall)
    ensures
        r@ == request_header_removal("content-length"@),
{
    HostCall::SetRequestHeader { name: "content-length".to_owned(), value: None }
}

/// Removes the response's `content-length`, since the body may change.
pub fn strip_response_content_length() -> (r: HostCall)
    ensures
        r@ == response_header_removal("content-length"@),
{
    HostCall::SetResponseHeader { name: "content-length".to_owned(), value: None }
}

} // verus!
