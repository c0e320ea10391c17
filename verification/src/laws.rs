//! What holds of every exchange.
//!
//! The handlers of [`crate::connector`] are each proved to compute a
//! specification function. This module puts those functions side by side as
//! one transition function, [`step`], and proves what follows for every
//! exchange and every event.
use crate::connector::{
    anonymize_edit, body_or_empty, call_response_step, dispatch_failed_step,
    input_verdict_applied, judged_alternate, local_response, output_verdict_applied, proxy_step,
    relay_or_end, remember, request_body_step, request_headers_step, response_body_step,
    response_headers_step, resume_request, switch_edits, ConnectorState, ConnectorView,
};
use crate::extract::{
    content_in, content_of, messages_in, messages_of, rebuilt_model, rebuilt_proxy_response,
    rebuilt_request, rebuilt_response, rewritten_model, with_content, with_messages, with_model,
};
use crate::host::{
    authorization_swap, idle, model_hint, provider_hint, route_hint, Action, Failure,
    HostCallView, StepView,
};
use crate::json::{json_bytes, json_parse, member, Json};
use crate::og_connector::{
    decoded_input, decoded_output, input_verdict_of, output_action_of, HttpResponseView,
    InputVerdictView, VerdictActionView,
};
use crate::text::is_success;
use vstd::prelude::*;
use vstd::utf8::encode_utf8;

verus! {

/// What the host can tell an exchange.
pub enum Event {
    /// The request headers have arrived.
    RequestHeaders {
        bypass_token: Option<Seq<char>>,
        consumer: Option<Seq<char>>,
        consumer_alt: Option<Seq<char>>,
    },
    /// A chunk of the request body has arrived.
    RequestBody { body: Option<Seq<u8>>, end_of_stream: bool },
    /// The response headers have arrived.
    ResponseHeaders,
    /// A chunk of the response body has arrived.
    ResponseBody { body: Option<Seq<u8>>, end_of_stream: bool },
    /// The moderation service has answered, or the call has timed out.
    CallResponse { status: Option<Seq<char>>, body: Option<Seq<u8>> },
    /// The host could not dispatch the call of the last step.
    DispatchFailed,
}

/// What an event does to an exchange: the exchange after it, and the step
/// that the host carries out.
pub open spec fn step(pre: ConnectorView, event: Event) -> (ConnectorView, StepView) {
    match event {
        Event::RequestHeaders { bypass_token, consumer, consumer_alt } => request_headers_step(
            pre,
            bypass_token,
            consumer,
            consumer_alt,
        ),
        Event::RequestBody { body, end_of_stream } => request_body_step(pre, body, end_of_stream),
        Event::ResponseHeaders => response_headers_step(pre),
        Event::ResponseBody { body, end_of_stream } => response_body_step(
            pre,
            body,
            end_of_stream,
        ),
        Event::CallResponse { status, body } => call_response_step(pre, status, body),
        Event::DispatchFailed => dispatch_failed_step(pre),
    }
}

/// How many of these calls answer the client.
pub open spec fn responses_sent(calls: Seq<HostCallView>) -> nat
    decreases calls.len(),
{
    if calls.len() == 0 {
        0
    } else {
        responses_sent(calls.drop_last()) + (if calls.last() is SendHttpResponse {
            1nat
        } else {
            0nat
        })
    }
}

/// Whether one of these calls lets the request go on to the upstream.
pub open spec fn resumes_request(calls: Seq<HostCallView>) -> bool {
    calls.contains(HostCallView::ResumeHttpRequest)
}

/// The request body that the host holds after these calls, if it held `body`
/// before them.
pub open spec fn request_body_after(body: Seq<u8>, calls: Seq<HostCallView>) -> Seq<u8>
    decreases calls.len(),
{
    if calls.len() == 0 {
        body
    } else {
        match calls.last() {
            HostCallView::SetRequestBody { body: b } => b,
            _ => request_body_after(body, calls.drop_last()),
        }
    }
}

/// The response body that the host holds after these calls, if it held `body`
/// before them.
pub open spec fn response_body_after(body: Seq<u8>, calls: Seq<HostCallView>) -> Seq<u8>
    decreases calls.len(),
{
    if calls.len() == 0 {
        body
    } else {
        match calls.last() {
            HostCallView::SetResponseBody { body: b } => b,
            _ => response_body_after(body, calls.drop_last()),
        }
    }
}

/// Whether a verdict's action lets traffic pass: it is none of the actions
/// that the connector knows.
pub open spec fn is_pass(action: Seq<char>) -> bool {
    &&& action != "block"@
    &&& action != "replace"@
    &&& action != "anonymize"@
    &&& action != "proxy_response"@
    &&& action != "switch_private_model"@
}

/// The actions that the connector knows are different words, so that a
/// verdict names at most one of them, and `pass` is none of them.
pub proof fn law_actions_are_distinct()
    ensures
        "block"@ != "replace"@,
        "block"@ != "anonymize"@,
        "block"@ != "proxy_response"@,
        "block"@ != "switch_private_model"@,
        "block"@ != "restore"@,
        "replace"@ != "anonymize"@,
        "replace"@ != "proxy_response"@,
        "replace"@ != "switch_private_model"@,
        "replace"@ != "restore"@,
        "anonymize"@ != "proxy_response"@,
        "anonymize"@ != "switch_private_model"@,
        "anonymize"@ != "restore"@,
        "proxy_response"@ != "switch_private_model"@,
        "proxy_response"@ != "restore"@,
        "switch_private_model"@ != "restore"@,
        is_pass("pass"@),
{
    reveal_strlit("block");
    reveal_strlit("replace");
    reveal_strlit("anonymize");
    reveal_strlit("proxy_response");
    reveal_strlit("switch_private_model");
    reveal_strlit("restore");
    reveal_strlit("pass");
    assert("anonymize"@.len() == 9);
    assert("proxy_response"@.len() == 14);
    assert("switch_private_model"@.len() == 20);
    assert("pass"@.len() == 4);
    assert("replace"@[2] == 'p');
    assert("restore"@[2] == 's');
}

/// Every event leaves an exchange well formed: the session token and the
/// restore table never stand together, a response of the connector's own ends
/// the exchange, an alternate answer is held only while the output check is
/// awaited, and nothing is awaited without a configuration.
pub proof fn law_step_keeps_exchange_well_formed(pre: ConnectorView, event: Event)
    requires
        pre.wf(),
    ensures
        step(pre, event).0.wf(),
{
}

/// Once a response of the connector's own has gone to the client, no event
/// changes the exchange or asks anything of the host.
pub proof fn law_nothing_follows_a_sent_response(pre: ConnectorView, event: Event)
    requires
        pre.response_sent,
    ensures
        step(pre, event) == (pre, idle()),
{
}

/// An exchange answers the client at most once. A step answers the client
/// exactly where it marks the response as sent, and the mark is never taken
/// back.
pub proof fn law_one_response_at_most(pre: ConnectorView, event: Event)
    requires
        pre.wf(),
    ensures
        pre.response_sent ==> step(pre, event).0.response_sent,
        responses_sent(step(pre, event).1.calls) <= 1,
        responses_sent(step(pre, event).1.calls) == 1 <==> (!pre.response_sent && step(
            pre,
            event,
        ).0.response_sent),
{
    if !pre.response_sent {
        match event {
            Event::CallResponse { status, body } => {
                let ok = status is Some && is_success(status->0);
                if pre.state == ConnectorState::WaitingInputResponse {
                    lemma_input_verdict_answers_once(
                        pre,
                        if ok {
                            input_verdict_of(body_or_empty(body))
                        } else {
                            None
                        },
                    );
                } else if pre.state == ConnectorState::WaitingOutputResponse {
                    lemma_output_verdict_answers_once(
                        pre,
                        if ok {
                            output_action_of(body_or_empty(body))
                        } else {
                            None
                        },
                    );
                }
            },
            Event::DispatchFailed => {
                if pre.state == ConnectorState::WaitingOutputResponse
                    && pre.pending_proxy_response is Some {
                    let p = pre.pending_proxy_response->0;
                    lemma_local_response_answers_once(
                        ConnectorView { pending_proxy_response: None, ..pre },
                        p.code as u32,
                        p.content_type,
                        encode_utf8(p.body),
                    );
                }
            },
            _ => {
                lemma_edits_answer_nobody(step(pre, event).1.calls);
            },
        }
    }
}

/// Calls of which none answers the client.
proof fn lemma_edits_answer_nobody(calls: Seq<HostCallView>)
    requires
        forall|i: int| 0 <= i < calls.len() ==> !((#[trigger] calls[i]) is SendHttpResponse),
    ensures
        responses_sent(calls) == 0,
    decreases calls.len(),
{
    if calls.len() > 0 {
        lemma_edits_answer_nobody(calls.drop_last());
    }
}

/// A response of the connector's own is one answer to the client.
proof fn lemma_local_response_answers_once(
    pre: ConnectorView,
    status_code: u32,
    content_type: Seq<char>,
    body: Seq<u8>,
)
    ensures
        responses_sent(local_response(pre, status_code, content_type, body).1.calls) == 1,
        local_response(pre, status_code, content_type, body).0.response_sent,
{
    reveal_with_fuel(responses_sent, 3);
}

/// A request that is resumed after edits answers nobody.
proof fn lemma_resumed_request_answers_nobody(pre: ConnectorView, edits: Seq<HostCallView>)
    requires
        forall|i: int| 0 <= i < edits.len() ==> !((#[trigger] edits[i]) is SendHttpResponse),
    ensures
        responses_sent(resume_request(pre, edits).1.calls) == 0,
        resume_request(pre, edits).0.response_sent == pre.response_sent,
{
    lemma_edits_answer_nobody(edits.push(HostCallView::ResumeHttpRequest));
}

/// A verdict of the input check answers the client at most once, and exactly
/// where it marks the response as sent.
proof fn lemma_input_verdict_answers_once(pre: ConnectorView, verdict: Option<InputVerdictView>)
    requires
        !pre.response_sent,
    ensures
        responses_sent(input_verdict_applied(pre, verdict).1.calls) <= 1,
        responses_sent(input_verdict_applied(pre, verdict).1.calls) == 1 <==> input_verdict_applied(
            pre,
            verdict,
        ).0.response_sent,
{
    match verdict {
        None => {
            lemma_resumed_request_answers_nobody(pre, Seq::empty());
        },
        Some(v) => {
            let kept = remember(pre, v);
            match v.action {
                VerdictActionView::Block { response } => {
                    lemma_relay_or_end_answers_once(kept, response);
                },
                VerdictActionView::Replace { response } => {
                    lemma_relay_or_end_answers_once(kept, response);
                },
                VerdictActionView::Anonymize { messages } => {
                    lemma_resumed_request_answers_nobody(
                        kept,
                        anonymize_edit(pre.request_body, messages),
                    );
                },
                VerdictActionView::ProxyResponse { response } => {
                    match response {
                        None => {
                            lemma_relay_or_end_answers_once(kept, None);
                        },
                        Some(h) => {
                            lemma_local_response_answers_once(
                                kept,
                                h.code as u32,
                                h.content_type,
                                encode_utf8(h.body),
                            );
                            if !proxy_step(kept, response).0.response_sent {
                                lemma_edits_answer_nobody(proxy_step(kept, response).1.calls);
                            }
                        },
                    }
                },
                VerdictActionView::SwitchModel { private_model, bypass_token, bypass_header } => {
                    lemma_resumed_request_answers_nobody(
                        kept,
                        switch_edits(private_model, bypass_token, bypass_header, pre.request_body),
                    );
                },
                _ => {
                    lemma_resumed_request_answers_nobody(kept, Seq::empty());
                },
            }
        },
    }
}

/// The end of an exchange after a verdict that blocks answers the client
/// once where the verdict brings a response, and nobody where it brings none.
proof fn lemma_relay_or_end_answers_once(pre: ConnectorView, h: Option<HttpResponseView>)
    requires
        !pre.response_sent,
    ensures
        responses_sent(relay_or_end(pre, h).1.calls) <= 1,
        responses_sent(relay_or_end(pre, h).1.calls) == 1 <==> relay_or_end(
            pre,
            h,
        ).0.response_sent,
{
    match h {
        Some(h) => {
            lemma_local_response_answers_once(
                pre,
                h.code as u32,
                h.content_type,
                encode_utf8(h.body),
            );
        },
        None => {},
    }
}

/// A verdict of the output check answers the client at most once, and
/// exactly where it marks the response as sent.
proof fn lemma_output_verdict_answers_once(
    pre: ConnectorView,
    verdict: Option<VerdictActionView>,
)
    requires
        !pre.response_sent,
    ensures
        responses_sent(output_verdict_applied(pre, verdict).1.calls) <= 1,
        responses_sent(output_verdict_applied(pre, verdict).1.calls) == 1
            <==> output_verdict_applied(pre, verdict).0.response_sent,
{
    let done = ConnectorView {
        state: ConnectorState::Done,
        pending_proxy_response: None,
        ..pre
    };
    match pre.pending_proxy_response {
        Some(p) => {
            let h = judged_alternate(p, verdict);
            lemma_local_response_answers_once(
                done,
                h.code as u32,
                h.content_type,
                encode_utf8(h.body),
            );
        },
        None => {
            lemma_edits_answer_nobody(output_verdict_applied(pre, verdict).1.calls);
        },
    }
}

/// A finished exchange stays finished, and body chunks that reach it go on
/// unprocessed.
pub proof fn law_finished_exchange_stays_finished(pre: ConnectorView, event: Event)
    requires
        pre.wf(),
        pre.state == ConnectorState::Done,
    ensures
        step(pre, event).0.state == ConnectorState::Done,
        event is RequestBody || event is ResponseBody ==> step(pre, event) == (pre, idle()),
{
}

/// A request whose input check passes goes upstream byte for byte. Where
/// the check can be dispatched, the body is sent to it and the verdict
/// resumes the request; neither step touches the body.
pub proof fn law_passed_request_is_untouched(
    pre: ConnectorView,
    body: Seq<u8>,
    status: Seq<char>,
    reply: Seq<u8>,
)
    requires
        pre.wf(),
        pre.state == ConnectorState::Initial,
        !pre.bypassed,
        pre.config is Some,
        pre.config->0.enable_input_detection,
        messages_of(body) is Some,
        is_success(status),
        decoded_input(reply) is Some,
        is_pass(decoded_input(reply)->0.action),
    ensures
        ({
            let (waiting, asked) = request_body_step(pre, Some(body), true);
            let (after, resumed) = call_response_step(waiting, Some(status), Some(reply));
            &&& waiting.request_body == body
            &&& request_body_after(body, asked.calls) == body
            &&& request_body_after(body, resumed.calls) == body
            &&& after.request_body == body
            &&& after.state == ConnectorState::Initial
            &&& !after.response_sent
            &&& body.len() > 0 && pre.config->0.og_cluster.len() > 0 ==> {
                &&& asked.action == Action::Pause
                &&& asked.calls.len() == 1
                &&& asked.calls[0] is DispatchHttpCall
                &&& waiting.state == ConnectorState::WaitingInputResponse
                &&& resumed.calls == seq![HostCallView::ResumeHttpRequest]
            }
        }),
{
    reveal_with_fuel(request_body_after, 3);
}

/// A blocking verdict of the input check never lets the request go upstream.
/// The buffered request body is emptied and the client receives exactly the
/// status, content type and body that the verdict supplies.
pub proof fn law_block_answers_the_client(pre: ConnectorView, status: Seq<char>, reply: Seq<u8>)
    requires
        pre.wf(),
        pre.state == ConnectorState::WaitingInputResponse,
        is_success(status),
        decoded_input(reply) is Some,
        decoded_input(reply)->0.action == "block"@,
    ensures
        ({
            let verdict = decoded_input(reply)->0;
            let (after, answered) = call_response_step(pre, Some(status), Some(reply));
            &&& !resumes_request(answered.calls)
            &&& answered.action == Action::Pause
            &&& after.state == ConnectorState::Done
            &&& verdict.block_response is Some ==> {
                &&& answered.calls == seq![
                    HostCallView::SetRequestBody { body: Seq::empty() },
                    HostCallView::SendHttpResponse {
                        status_code: verdict.block_response->0.code as u32,
                        content_type: verdict.block_response->0.content_type,
                        body: encode_utf8(verdict.block_response->0.body),
                    },
                ]
                &&& request_body_after(pre.request_body, answered.calls) == Seq::<u8>::empty()
                &&& after.response_sent
            }
        }),
{
    reveal_with_fuel(request_body_after, 3);
}

/// An anonymizing verdict puts its messages in place of the request's and
/// leaves every other field of the request as it was. What the verdict
/// issues for the restoration is kept: the restore table, or the session
/// token where it brings no table.
pub proof fn law_anonymize_replaces_messages_only(
    pre: ConnectorView,
    status: Seq<char>,
    reply: Seq<u8>,
)
    requires
        pre.wf(),
        pre.state == ConnectorState::WaitingInputResponse,
        is_success(status),
        decoded_input(reply) is Some,
        decoded_input(reply)->0.action == "anonymize"@,
        decoded_input(reply)->0.anonymized_messages is Some,
    ensures
        ({
            let verdict = decoded_input(reply)->0;
            let messages = verdict.anonymized_messages->0;
            let (after, resumed) = call_response_step(pre, Some(status), Some(reply));
            let forwarded = rebuilt_request(pre.request_body, messages);
            &&& resumed.calls == seq![
                HostCallView::SetRequestBody { body: forwarded },
                HostCallView::ResumeHttpRequest,
            ]
            &&& request_body_after(pre.request_body, resumed.calls) == forwarded
            &&& after.state == ConnectorState::Initial
            &&& after.restore_mapping == verdict.restore_mapping
            &&& verdict.restore_mapping is None ==> after.session_id == verdict.session_id
            &&& messages_of(pre.request_body) is Some ==> {
                let before = json_parse(pre.request_body)->0;
                let rewritten = with_messages(before, messages);
                &&& rewritten is Some
                &&& member(rewritten->0, "messages"@) == Some(Json::Array(messages))
                &&& forall|key: Seq<char>|
                    key != "messages"@ ==> member(rewritten->0, key) == member(before, key)
                &&& json_bytes(rewritten->0) is Some ==> Some(forwarded) == json_bytes(
                    rewritten->0,
                )
            }
        }),
{
    law_actions_are_distinct();
    reveal_with_fuel(request_body_after, 3);
}

/// What a rewrite puts into a document is what a reader finds there, and the
/// other fields of the document stay as they were.
pub proof fn law_rewritten_field_is_read_back(
    j: Json,
    messages: Seq<Json>,
    content: Seq<char>,
    model: Seq<char>,
)
    ensures
        with_messages(j, messages) matches Some(n) ==> {
            &&& messages_in(n) == Some(messages)
            &&& forall|key: Seq<char>| key != "messages"@ ==> member(n, key) == member(j, key)
        },
        with_content(j, content) matches Some(n) ==> {
            &&& content_in(n) == Some(content)
            &&& forall|key: Seq<char>| key != "choices"@ ==> member(n, key) == member(j, key)
        },
        with_model(j, model) matches Some(n) ==> {
            &&& member(n, "model"@) == Some(Json::String(model))
            &&& forall|key: Seq<char>| key != "model"@ ==> member(n, key) == member(j, key)
        },
        content_in(j) is Some ==> with_content(j, content) is Some,
        messages_in(j) is Some ==> with_messages(j, messages) is Some,
{
}

/// A restoring verdict of the output check puts its content in place of the
/// assistant's text in the upstream's response, and the response goes on to
/// the client.
pub proof fn law_restore_puts_content_in_response(
    pre: ConnectorView,
    status: Seq<char>,
    reply: Seq<u8>,
)
    requires
        pre.wf(),
        pre.state == ConnectorState::WaitingOutputResponse,
        pre.pending_proxy_response is None,
        is_success(status),
        decoded_output(reply) is Some,
        decoded_output(reply)->0.action == "restore"@,
        decoded_output(reply)->0.restored_content is Some,
    ensures
        ({
            let content = decoded_output(reply)->0.restored_content->0;
            let (after, resumed) = call_response_step(pre, Some(status), Some(reply));
            let visible = rebuilt_response(pre.response_body, content);
            &&& resumed.calls == seq![
                HostCallView::SetResponseBody { body: visible },
                HostCallView::ResumeHttpResponse,
            ]
            &&& response_body_after(pre.response_body, resumed.calls) == visible
            &&& after.state == ConnectorState::Done
            &&& !after.response_sent
            &&& content_of(pre.response_body) is Some ==> {
                let rewritten = with_content(json_parse(pre.response_body)->0, content);
                &&& rewritten is Some
                &&& content_in(rewritten->0) == Some(content)
                &&& json_bytes(rewritten->0) is Some ==> Some(visible) == json_bytes(rewritten->0)
            }
        }),
{
    law_actions_are_distinct();
    reveal_with_fuel(response_body_after, 3);
    if content_of(pre.response_body) is Some {
        law_rewritten_field_is_read_back(
            json_parse(pre.response_body)->0,
            Seq::empty(),
            decoded_output(reply)->0.restored_content->0,
            Seq::empty(),
        );
    }
}

/// A rewrite with nothing to rewrite gives the body back byte for byte: a
/// body that is not JSON, or that lacks the field in question, stays as it
/// is.
pub proof fn law_rewrite_without_field_is_identity(
    body: Seq<u8>,
    text: Seq<char>,
    messages: Seq<Json>,
    content: Seq<char>,
    model: Seq<char>,
)
    ensures
        json_parse(body) is None ==> {
            &&& rebuilt_request(body, messages) == body
            &&& rebuilt_response(body, content) == body
            &&& rebuilt_model(body, model) == body
            &&& rewritten_model(body, model) is None
        },
        json_parse(body) is Some && member(json_parse(body)->0, "messages"@) is None
            ==> rebuilt_request(body, messages) == body,
        json_parse(body) is Some && with_content(json_parse(body)->0, content) is None
            ==> rebuilt_response(body, content) == body,
        content_of(body) is Some ==> with_content(json_parse(body)->0, content) is Some,
        json_parse(body) is Some && member(json_parse(body)->0, "model"@) is None ==> {
            &&& rebuilt_model(body, model) == body
            &&& rewritten_model(body, model) is None
        },
        json_parse(encode_utf8(text)) is None ==> rebuilt_proxy_response(text, content) == text,
        json_parse(encode_utf8(text)) is Some && with_content(
            json_parse(encode_utf8(text))->0,
            content,
        ) is None ==> rebuilt_proxy_response(text, content) == text,
{
}

/// A moderation call that fails, by timeout or by a status that reports no
/// success, lets the exchange end with what was there before the check. In
/// the input phase the request goes on with its body untouched. In the output
/// phase the upstream's response goes on with its body untouched, or the held
/// alternate answer goes to the client as it came. Nothing is asked again
/// of the moderation service, and the step tells of the failed call.
pub proof fn law_failed_call_fails_open(
    pre: ConnectorView,
    status: Option<Seq<char>>,
    body: Option<Seq<u8>>,
)
    requires
        pre.wf(),
        status is None || !is_success(status->0),
    ensures
        ({
            let (after, taken) = call_response_step(pre, status, body);
            &&& pre.state == ConnectorState::WaitingInputResponse ==> {
                &&& taken.calls == seq![HostCallView::ResumeHttpRequest]
                &&& request_body_after(pre.request_body, taken.calls) == pre.request_body
                &&& after.state == ConnectorState::Initial
                &&& !after.response_sent
            }
            &&& pre.state == ConnectorState::WaitingOutputResponse
                && pre.pending_proxy_response is None ==> {
                &&& taken.calls == seq![HostCallView::ResumeHttpResponse]
                &&& response_body_after(pre.response_body, taken.calls) == pre.response_body
                &&& after.state == ConnectorState::Done
                &&& !after.response_sent
            }
            &&& pre.state == ConnectorState::WaitingOutputResponse
                && pre.pending_proxy_response is Some ==> {
                &&& taken.calls == seq![
                    HostCallView::SetRequestBody { body: Seq::empty() },
                    HostCallView::SendHttpResponse {
                        status_code: pre.pending_proxy_response->0.code as u32,
                        content_type: pre.pending_proxy_response->0.content_type,
                        body: encode_utf8(pre.pending_proxy_response->0.body),
                    },
                ]
                &&& after.state == ConnectorState::Done
                &&& after.response_sent
                &&& after.pending_proxy_response is None
            }
            &&& forall|i: int|
                0 <= i < taken.calls.len() ==> !((#[trigger] taken.calls[i]) is DispatchHttpCall)
            &&& pre.state == ConnectorState::WaitingInputResponse || pre.state
                == ConnectorState::WaitingOutputResponse ==> taken.failure == Some(
                Failure::TransportFailure,
            )
        }),
{
    reveal_with_fuel(request_body_after, 3);
    reveal_with_fuel(response_body_after, 3);
}

/// An answer of the moderation service that cannot be read counts as a
/// failed call: the exchange does what it does after a timeout, and only the
/// failure that the step tells is another.
pub proof fn law_unreadable_verdict_is_a_failed_call(
    pre: ConnectorView,
    status: Seq<char>,
    reply: Seq<u8>,
)
    requires
        is_success(status),
        pre.state == ConnectorState::WaitingInputResponse ==> decoded_input(reply) is None,
        pre.state == ConnectorState::WaitingOutputResponse ==> decoded_output(reply) is None,
    ensures
        ({
            let (after, taken) = call_response_step(pre, Some(status), Some(reply));
            let (timed_out, fallen_back) = call_response_step(pre, None, None);
            &&& after == timed_out
            &&& taken.action == fallen_back.action
            &&& taken.calls == fallen_back.calls
            &&& !pre.response_sent && (pre.state == ConnectorState::WaitingInputResponse
                || pre.state == ConnectorState::WaitingOutputResponse) ==> {
                &&& taken.failure == Some(Failure::DecodeFailure)
                &&& fallen_back.failure == Some(Failure::TransportFailure)
            }
        }),
{
}

/// A step that tells of a failure dispatches nothing and rewrites nothing.
/// At most it sends the client a response that was there already, after
/// emptying the buffered request body.
pub proof fn law_failure_changes_nothing(pre: ConnectorView, event: Event)
    requires
        step(pre, event).1.failure is Some,
    ensures
        ({
            let taken = step(pre, event).1;
            forall|i: int|
                0 <= i < taken.calls.len() ==> {
                    &&& !((#[trigger] taken.calls[i]) is DispatchHttpCall)
                    &&& !(taken.calls[i] is SetResponseBody)
                    &&& !(taken.calls[i] is SetRequestHeader)
                    &&& taken.calls[i] is SetRequestBody ==> taken.calls.last() is SendHttpResponse
                }
        }),
{
}

/// The verdict of the output check on a held alternate answer decides what
/// the client receives, and the answer is held no longer.
pub proof fn law_held_answer_is_consumed(
    pre: ConnectorView,
    status: Option<Seq<char>>,
    body: Option<Seq<u8>>,
)
    requires
        pre.wf(),
        pre.pending_proxy_response is Some,
    ensures
        ({
            let (after, taken) = call_response_step(pre, status, body);
            &&& after.pending_proxy_response is None
            &&& after.response_sent
            &&& after.state == ConnectorState::Done
            &&& responses_sent(taken.calls) == 1
        }),
{
    law_one_response_at_most(pre, Event::CallResponse { status, body });
}

/// The request headers after a host call, if they were `headers` before.
pub open spec fn request_headers_after(headers: Map<Seq<char>, Seq<char>>, call: HostCallView)
    -> Map<Seq<char>, Seq<char>> {
    match call {
        HostCallView::SetRequestHeader { name, value: Some(v) } => headers.insert(name, v),
        HostCallView::SetRequestHeader { name, value: None } => headers.remove(name),
        _ => headers,
    }
}

/// Whether two host calls write the same request header.
pub open spec fn write_same_header(a: HostCallView, b: HostCallView) -> bool {
    match (a, b) {
        (
            HostCallView::SetRequestHeader { name: x, .. },
            HostCallView::SetRequestHeader { name: y, .. },
        ) => x == y,
        _ => false,
    }
}

/// A header edit that is made twice does what it does when made once.
pub proof fn law_header_edit_is_idempotent(headers: Map<Seq<char>, Seq<char>>, edit: HostCallView)
    ensures
        request_headers_after(request_headers_after(headers, edit), edit) == request_headers_after(
            headers,
            edit,
        ),
{
}

/// Two edits of different headers give the same headers in either order.
pub proof fn law_header_edits_commute(
    headers: Map<Seq<char>, Seq<char>>,
    first: HostCallView,
    second: HostCallView,
)
    requires
        !write_same_header(first, second),
    ensures
        request_headers_after(request_headers_after(headers, first), second)
            == request_headers_after(request_headers_after(headers, second), first),
{
}

/// The header edits that reroute a request write three different headers, so
/// that they can be made in any order.
pub proof fn law_reroute_edits_do_not_conflict(
    new_key: Seq<char>,
    provider: Seq<char>,
    model: Seq<char>,
    route: Seq<char>,
)
    ensures
        !write_same_header(authorization_swap(new_key), provider_hint(provider)),
        !write_same_header(authorization_swap(new_key), model_hint(model)),
        !write_same_header(provider_hint(provider), model_hint(model)),
        !write_same_header(route_hint(route), authorization_swap(new_key)),
        !write_same_header(route_hint(route), provider_hint(provider)),
        !write_same_header(route_hint(route), model_hint(model)),
{
    reveal_strlit("authorization");
    reveal_strlit("x-higress-llm-provider");
    reveal_strlit("x-higress-llm-model");
    assert("x-higress-llm-provider"@.len() == 22);
    assert("x-higress-llm-model"@.len() == 19);
}

} // verus!
