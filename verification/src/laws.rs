//! What holds of the bridge on every input, proved from the definitions that
//! the contracts of the library are stated over.

use vstd::prelude::*;
use crate::alb::{alb_response_of, body_bytes, http_request_of, request_failure, AlbRequest};
use crate::codec::{
    alb_request_decoding, base64_encoding, configuration_decoding, AlbRequestFields,
    ConfigurationFields,
};
use crate::failure::{cause_kind, cause_prefix, DispatchErrorView, ErrorKind, FailureCause};
use crate::http::HttpResponse;
use crate::text::option_text;
use crate::lifecycle::{
    call_outcome, CallOutcomeView, ProviderErrorView, OP_BIND_ACTOR, OP_REMOVE_ACTOR, SYSTEM_ACTOR,
};
use crate::poller::{
    duplicate, log, post_error, post_response, report, resolves, transition, EffectView, FetchOutcome, LogLevel,
    PhaseView, PollerEvent, PollerInputView, PollerView, RawOutcome,
};
use crate::table::{is_live, stopped};
use crate::wire::{is_success_status, PollReply};

verus! {

/// Whether a list of effects posts nothing to the endpoint.
pub open spec fn posts_nothing(effects: Seq<EffectView>) -> bool {
    forall|i: int|
        0 <= i < effects.len() ==> !(#[trigger] effects[i] is PostError) && !(effects[i]
            is PostResponse)
}

/// The event that says that a fetch ended with the given reply.
pub open spec fn fetched(reply: PollReply) -> PollerEvent {
    PollerEvent::Fetched(FetchOutcome::Reply(reply))
}

/// An event without correlation identifier is discarded: whatever state the
/// poller is in, nothing is posted to the endpoint for it and nothing counts
/// as delivered, and a poller that was waiting for the fetch is back at the
/// iteration boundary, from where a live poller fetches again.
pub proof fn unidentified_event_is_discarded(
    s: PollerView,
    reply: PollReply,
    input: PollerInputView,
)
    requires
        is_success_status(reply.status),
        reply.request_id is None,
        resolves(fetched(reply), input),
    ensures
        posts_nothing(transition(s, input).1),
        transition(s, input).0.dispatched == s.dispatched,
        s.phase is Fetching ==> {
            let next = transition(s, input).0;
            &&& next.phase is Idle
            &&& transition(next, PollerInputView::Boundary { alive: true }) == (
                next.at(PhaseView::Fetching),
                seq![EffectView::Fetch],
            )
        },
{
    assert(input == PollerInputView::Unidentified);
}

/// A payload that decodes into a structured request without method or
/// without path is no failure of the cycle: the failure is only a warning,
/// no error is posted for it, and the event is dispatched as a raw event with
/// its body as it was fetched. (The one error that may be posted in such a
/// step is the anomaly of a correlation identifier that was delivered
/// before.)
pub proof fn missing_field_falls_back(
    s: PollerView,
    reply: PollReply,
    fields: AlbRequestFields,
    input: PollerInputView,
)
    requires
        s.phase is Fetching,
        is_success_status(reply.status),
        reply.request_id is Some,
        alb_request_decoding(reply.body@) == Some(fields),
        fields.http_method is None || fields.path is None,
        resolves(fetched(reply), input),
    ensures
        request_failure(fields) matches Some(e) && {
            let step = transition(s, input);
            let request_id = reply.request_id->0@;
            &&& cause_kind(e.cause) == ErrorKind::Classification
            &&& step.0 == s.at(PhaseView::AwaitingRaw { request_id })
            &&& step.1.len() >= 2
            &&& step.1[step.1.len() - 2] == log(LogLevel::Warn, e.message())
            &&& step.1.last() == (EffectView::InvokeRaw { actor: s.module_id, body: reply.body@ })
            &&& !s.dispatched.contains(request_id) ==> posts_nothing(step.1)
            &&& forall|i: int|
                0 <= i < step.1.len() && #[trigger] step.1[i] is PostError ==> step.1[i]
                    == post_error(duplicate(request_id).message(), request_id)
        },
{
}

/// The response of a successful raw-event dispatch is posted under the
/// correlation identifier of the event that it came from: a fetched event that
/// does not decode into the structured shape is handed to the handler as a raw
/// event, and what the handler returns for it is posted, alone and unchanged,
/// under the identifier that the event was fetched with.
pub proof fn raw_response_keeps_correlation(
    s: PollerView,
    reply: PollReply,
    input: PollerInputView,
    returned: Vec<u8>,
    answer: PollerInputView,
)
    requires
        s.phase is Fetching,
        is_success_status(reply.status),
        reply.request_id is Some,
        alb_request_decoding(reply.body@) is None,
        resolves(fetched(reply), input),
        resolves(PollerEvent::RawReturned(RawOutcome::Replied(returned)), answer),
    ensures
        ({
            let request_id = reply.request_id->0@;
            let dispatched = transition(s, input);
            let replied = transition(dispatched.0, answer);
            &&& dispatched.0.phase == (PhaseView::AwaitingRaw { request_id })
            &&& dispatched.1.last() == (EffectView::InvokeRaw {
                actor: s.module_id,
                body: reply.body@,
            })
            &&& replied.1 == seq![post_response(returned@, request_id)]
            &&& replied.0.phase is Idle
            &&& replied.0.dispatched == s.dispatched.insert(request_id)
        }),
{
}

/// The response of a successful HTTP-request dispatch is posted under the
/// correlation identifier of the event that it came from: where the handler
/// returns for the request and a document can be made of what it returned,
/// that document is posted, alone, under the identifier that the poller holds
/// for the event; where none can be made, the failure is posted under it.
/// Either way the request counts as delivered.
pub proof fn http_response_keeps_correlation(
    s: PollerView,
    request_id: Seq<char>,
    returned: Vec<u8>,
    input: PollerInputView,
)
    requires
        s.phase == (PhaseView::AwaitingHttp { request_id }),
        resolves(PollerEvent::HttpReturned(Ok(returned)), input),
    ensures
        input matches PollerInputView::HttpReplied(outcome) && {
            let step = transition(s, input);
            &&& step.0 == s.delivered(request_id).at(PhaseView::Idle)
            &&& outcome matches Ok(document) ==> step.1 == seq![post_response(document, request_id)]
            &&& outcome matches Err(e) ==> step.1 == seq![
                log(LogLevel::Error, e.message()),
                post_error(e.message(), request_id),
            ]
        },
{
}

/// Whatever the poller waits for after an event was fetched, it waits for it
/// under the correlation identifier of that event, and a raw-event dispatch
/// hands the handler the body of that event. Where the poller waits for
/// nothing, the cycle has ended with an error posted under that identifier.
pub proof fn dispatch_keeps_correlation(s: PollerView, reply: PollReply, input: PollerInputView)
    requires
        s.phase is Fetching,
        is_success_status(reply.status),
        reply.request_id is Some,
        resolves(fetched(reply), input),
    ensures
        ({
            let step = transition(s, input);
            match step.0.phase {
                PhaseView::AwaitingHttp { request_id } => request_id == reply.request_id->0@
                    && step.1.last() is InvokeHttp,
                PhaseView::AwaitingRaw { request_id } => request_id == reply.request_id->0@
                    && step.1.last() == (EffectView::InvokeRaw {
                    actor: s.module_id,
                    body: reply.body@,
                }),
                PhaseView::Idle => step.1.len() > 0 && (step.1.last() matches EffectView::PostError(
                    error,
                ) && error.request_id == reply.request_id->0@),
                _ => false,
            }
        }),
{
}

/// A failure of the handler on a raw event is logged, and posted as an error
/// under the correlation identifier of the event, with a message that ends in
/// the handler's text. The request does not count as delivered.
pub proof fn raw_target_failure_is_posted(
    s: PollerView,
    request_id: Seq<char>,
    reason: String,
    input: PollerInputView,
)
    requires
        s.phase == (PhaseView::AwaitingRaw { request_id }),
        resolves(PollerEvent::RawReturned(RawOutcome::Failed(reason)), input),
    ensures
        ({
            let message = cause_prefix(FailureCause::TargetEvent) + reason@;
            &&& transition(s, input).1 == seq![
                log(LogLevel::Error, message),
                post_error(message, request_id),
            ]
            &&& transition(s, input).0 == s.at(PhaseView::Idle)
        }),
{
}

/// A failure of the handler on an HTTP request is logged, and posted as an
/// error under the correlation identifier of the event, with a message that
/// ends in the handler's text. The request does not count as delivered.
pub proof fn http_target_failure_is_posted(
    s: PollerView,
    request_id: Seq<char>,
    reason: String,
    input: PollerInputView,
)
    requires
        s.phase == (PhaseView::AwaitingHttp { request_id }),
        resolves(PollerEvent::HttpReturned(Err(reason)), input),
    ensures
        ({
            let message = cause_prefix(FailureCause::TargetHttp) + reason@;
            &&& transition(s, input).1 == seq![
                log(LogLevel::Error, message),
                post_error(message, request_id),
            ]
            &&& transition(s, input).0 == s.at(PhaseView::Idle)
        }),
{
}

/// The record of delivered requests tells a failure before delivery from one
/// after it. Where the handler has returned for a request and no response
/// can be made of what it returned, the request is on record when the failure
/// is posted. Where the handler was not reached or failed itself, the record
/// is as it was.
pub proof fn failure_is_attributed_by_the_record(
    s: PollerView,
    request_id: Seq<char>,
    e: DispatchErrorView,
)
    requires
        s.phase == (PhaseView::AwaitingHttp { request_id }) || s.phase == (PhaseView::AwaitingRaw {
            request_id,
        }),
    ensures
        ({
            let after = if s.phase is AwaitingHttp {
                transition(s, PollerInputView::HttpReplied(Err(e)))
            } else {
                transition(s, PollerInputView::RawReplied(Err(e)))
            };
            let before = if s.phase is AwaitingHttp {
                transition(s, PollerInputView::HttpFailed(e))
            } else {
                transition(s, PollerInputView::RawFailed(e))
            };
            &&& after.1 == report(e, request_id)
            &&& after.0.dispatched == s.dispatched.insert(request_id)
            &&& before.1 == report(e, request_id)
            &&& before.0.dispatched == s.dispatched
        }),
{
}

/// A stop request for a tenant that is not in the table changes nothing.
pub proof fn stop_of_unknown_tenant_changes_nothing(
    table: Map<Seq<char>, bool>,
    tenant_id: Seq<char>,
)
    requires
        !table.contains_key(tenant_id),
    ensures
        stopped(table, tenant_id) == table,
{
}

/// A stop request may be repeated: the second changes nothing, whether the
/// tenant is in the table or not. After it no poller of the tenant is live,
/// the same tenants are in the table, and the other tenants are as they
/// were.
pub proof fn stop_is_idempotent(table: Map<Seq<char>, bool>, tenant_id: Seq<char>)
    ensures
        stopped(stopped(table, tenant_id), tenant_id) == stopped(table, tenant_id),
        !is_live(stopped(table, tenant_id), tenant_id),
        stopped(table, tenant_id).dom() == table.dom(),
        forall|other: Seq<char>|
            other != tenant_id ==> is_live(stopped(table, tenant_id), other) == is_live(
                table,
                other,
            ),
{
    assert(stopped(stopped(table, tenant_id), tenant_id) =~= stopped(table, tenant_id));
    assert(stopped(table, tenant_id).dom() =~= table.dom());
}

/// A call of the host that removes an actor without a poller succeeds and
/// changes nothing, however often it is made.
pub proof fn remove_of_unknown_actor_changes_nothing(
    table: Map<Seq<char>, bool>,
    message: Seq<u8>,
    configuration: ConfigurationFields,
)
    requires
        configuration_decoding(message) == Ok::<ConfigurationFields, Seq<char>>(configuration),
        !table.contains_key(configuration.module),
    ensures
        call_outcome(table, SYSTEM_ACTOR@, OP_REMOVE_ACTOR@, message) == (
            table,
            Ok::<CallOutcomeView, ProviderErrorView>(
                CallOutcomeView::Stopped { tenant_id: configuration.module, known: false },
            ),
        ),
{
    reveal_strlit("BindActor");
    reveal_strlit("RemoveActor");
    assert(OP_BIND_ACTOR@ != OP_REMOVE_ACTOR@) by {
        assert(OP_BIND_ACTOR@[0] == 'B');
        assert(OP_REMOVE_ACTOR@[0] == 'R');
    }
}

/// The life of a tenant in the table: a start enters it as live; a stop
/// leaves it in the table and clears its flag, so that its poller, which reads
/// the flag at the iteration boundary, stops there; and when the poller has
/// exited and the tenant is taken out, the table is as if the tenant had never
/// been started.
pub proof fn tenant_lifecycle(table: Map<Seq<char>, bool>, tenant_id: Seq<char>, s: PollerView)
    requires
        s.phase is Idle,
    ensures
        ({
            let started = table.insert(tenant_id, true);
            let stopping = stopped(started, tenant_id);
            let boundary = PollerInputView::Boundary { alive: is_live(stopping, tenant_id) };
            &&& is_live(started, tenant_id)
            &&& stopping.contains_key(tenant_id)
            &&& !is_live(stopping, tenant_id)
            &&& transition(s, boundary) == (s.at(PhaseView::Stopped), Seq::<EffectView>::empty())
            &&& stopping.remove(tenant_id) == table.remove(tenant_id)
        }),
{
    let started = table.insert(tenant_id, true);
    let stopping = stopped(started, tenant_id);
    assert(stopping.remove(tenant_id) =~= table.remove(tenant_id));
}

/// The body of an HTTP-shaped request that is marked as base64 reaches the
/// handler decoded: where the request has its method and its path and the
/// text of its body decodes to some bytes, the request that is encoded for the
/// handler has the method and the path of the payload and those bytes as its
/// body.
pub proof fn base64_body_reaches_handler_decoded(request: AlbRequest, bytes: Seq<u8>)
    requires
        request.http_method is Some,
        request.path is Some,
        request.is_base64_encoded,
        request.body is Some,
        body_bytes(option_text(request.body), true) == Ok::<Seq<u8>, DispatchErrorView>(bytes),
    ensures
        http_request_of(request) matches Ok(http) && http.method == request.http_method->0@
            && http.path == request.path->0@ && http.body == bytes,
{
}

/// The response that is returned for an HTTP-shaped request is always marked
/// as base64, and its body is the base64 text of the handler's body,
/// whatever the encoding of the request was.
pub proof fn outbound_body_is_always_base64(response: HttpResponse)
    ensures
        alb_response_of(response) matches Ok(alb) ==> alb.is_base64_encoded && alb.body == Some(
            base64_encoding(response.body@),
        ),
{
}

/// A correlation identifier that is fetched again after it was delivered is
/// an anomaly: it is logged as an error and posted as an error under that
/// identifier, right after the export of any trace identifier, and the cycle
/// then goes on as for any event. The poller does not stop.
pub proof fn duplicate_is_reported(s: PollerView, reply: PollReply, input: PollerInputView)
    requires
        s.phase is Fetching,
        is_success_status(reply.status),
        reply.request_id is Some,
        s.dispatched.contains(reply.request_id->0@),
        resolves(fetched(reply), input),
    ensures
        ({
            let step = transition(s, input);
            let request_id = reply.request_id->0@;
            let message = cause_prefix(FailureCause::Duplicate) + request_id;
            let at: int = if reply.trace_id is Some {
                1
            } else {
                0
            };
            &&& step.1.len() >= at + 2
            &&& step.1[at] == log(LogLevel::Error, message)
            &&& step.1[at + 1] == post_error(message, request_id)
            &&& !(step.0.phase is Stopped)
        }),
{
}

/// Whether an effect asks the caller to hand a result back.
pub open spec fn asks(effect: EffectView) -> bool {
    effect is Fetch || effect is InvokeHttp || effect is InvokeRaw
}

/// A step asks for at most one result, and with its last effect. Where it
/// asks, the poller waits for that result; where it has effects and does not
/// ask, the poller is back at the iteration boundary.
pub proof fn step_asks_at_most_once(s: PollerView, input: PollerInputView)
    ensures
        ({
            let step = transition(s, input);
            &&& forall|i: int| 0 <= i < step.1.len() - 1 ==> !asks(#[trigger] step.1[i])
            &&& step.1.len() > 0 ==> match step.1.last() {
                EffectView::Fetch => step.0.phase is Fetching,
                EffectView::InvokeHttp { .. } => step.0.phase is AwaitingHttp,
                EffectView::InvokeRaw { .. } => step.0.phase is AwaitingRaw,
                _ => step.0.phase is Idle,
            }
        }),
{
}

/// Over any step, the tenant of a poller stays the same, and the set of
/// delivered correlation identifiers only grows. A poller stops only at the
/// iteration boundary, and only where its liveness flag is cleared; once
/// stopped, it takes no further step.
pub proof fn poller_keeps_its_record(s: PollerView, input: PollerInputView)
    ensures
        transition(s, input).0.module_id == s.module_id,
        s.dispatched.subset_of(transition(s, input).0.dispatched),
        transition(s, input).0.phase is Stopped && !(s.phase is Stopped) ==> s.phase is Idle
            && input == (PollerInputView::Boundary { alive: false }),
        s.phase is Stopped ==> transition(s, input) == (s, Seq::<EffectView>::empty()),
{
}

} // verus!
