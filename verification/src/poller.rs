//! The poll loop of one tenant, as a state machine.
//!
//! The caller performs what a step asks for (a fetch, a call of the handler, a
//! post) and hands the result back as the next event. One cycle runs from the
//! iteration boundary, where the liveness flag is read, to the response or
//! error that is posted for the event.

use vstd::prelude::*;
use vstd::string::*;
use crate::dispatch::{
    attempt_http, attempt_on, interpret_http_reply, reply_on, HttpAttempt, HttpAttemptView,
};
use crate::failure::{
    bytes_outcome, cause_kind, DispatchError, DispatchErrorView, ErrorKind, FailureCause,
};
use crate::invocation::{
    InvocationError, InvocationErrorView, InvocationResponse, InvocationResponseView,
};
use crate::text::option_text;
use crate::tracker::DispatchedSet;
use crate::wire::{event_from_reply, event_of, PollReply};

verus! {

/// How loudly something is logged.
#[derive(Clone, Copy, Debug, PartialEq, Eq, Structural)]
pub enum LogLevel {
    Warn,
    Error,
}

/// What a phase holds.
pub enum PhaseView {
    Idle,
    Fetching,
    AwaitingHttp { request_id: Seq<char> },
    AwaitingRaw { request_id: Seq<char> },
    Stopped,
}

/// Where a poller stands in its cycle.
#[derive(Debug)]
pub enum Phase {
    /// At the iteration boundary: the liveness flag is read next.
    Idle,
    /// The next event is being fetched.
    Fetching,
    /// The handler is working on the HTTP request made of the event.
    AwaitingHttp { request_id: String },
    /// The handler is working on the raw event.
    AwaitingRaw { request_id: String },
    /// The poller has observed that it is to stop. It takes no further step.
    Stopped,
}

impl View for Phase {
    type V = PhaseView;

    open spec fn view(&self) -> PhaseView {
        match self {
            Phase::Idle => PhaseView::Idle,
            Phase::Fetching => PhaseView::Fetching,
            Phase::AwaitingHttp { request_id } => PhaseView::AwaitingHttp { request_id: request_id@ },
            Phase::AwaitingRaw { request_id } => PhaseView::AwaitingRaw { request_id: request_id@ },
            Phase::Stopped => PhaseView::Stopped,
        }
    }
}

/// What an effect holds.
pub enum EffectView {
    Fetch,
    ExportTraceId(Seq<char>),
    Log { level: LogLevel, message: Seq<char> },
    PostError(InvocationErrorView),
    PostResponse(InvocationResponseView),
    InvokeHttp { actor: Seq<char>, payload: Seq<u8> },
    InvokeRaw { actor: Seq<char>, body: Seq<u8> },
}

/// What a step asks its caller to do.
#[derive(Debug)]
pub enum Effect {
    /// Fetch the next event, and hand in what came of it.
    Fetch,
    /// Export the trace identifier for the time of handling the event.
    ExportTraceId(String),
    /// Write a line to the log.
    Log { level: LogLevel, message: String },
    /// Post the error to the endpoint.
    PostError(InvocationError),
    /// Post the response to the endpoint.
    PostResponse(InvocationResponse),
    /// Call the handler's HTTP-request operation for the actor with the
    /// payload, and hand in what it returned.
    InvokeHttp { actor: String, payload: Vec<u8> },
    /// Wrap the body into a raw event, call the handler's raw-event operation
    /// for the actor with it, and hand in what it returned.
    InvokeRaw { actor: String, body: Vec<u8> },
}

impl View for Effect {
    type V = EffectView;

    open spec fn view(&self) -> EffectView {
        match self {
            Effect::Fetch => EffectView::Fetch,
            Effect::ExportTraceId(trace_id) => EffectView::ExportTraceId(trace_id@),
            Effect::Log { level, message } => EffectView::Log { level: *level, message: message@ },
            Effect::PostError(error) => EffectView::PostError(error@),
            Effect::PostResponse(response) => EffectView::PostResponse(response@),
            Effect::InvokeHttp { actor, payload } => EffectView::InvokeHttp {
                actor: actor@,
                payload: payload@,
            },
            Effect::InvokeRaw { actor, body } => EffectView::InvokeRaw { actor: actor@, body: body@ },
        }
    }
}

/// What each effect of a list holds.
pub open spec fn effects_view(effects: Seq<Effect>) -> Seq<EffectView> {
    effects.map_values(|e: Effect| e@)
}

/// What came of a fetch.
#[derive(Debug)]
pub enum FetchOutcome {
    /// The endpoint could not be reached, or its reply could not be read.
    Failed(String),
    /// The endpoint replied.
    Reply(PollReply),
}

/// What came of a call of the handler's raw-event operation.
#[derive(Debug)]
pub enum RawOutcome {
    /// The raw event could not be encoded; the handler was not called.
    NotEncoded(String),
    /// The handler failed.
    Failed(String),
    /// The handler returned, and what it returned could not be decoded.
    Undecodable(String),
    /// The handler returned this body.
    Replied(Vec<u8>),
}

/// What the caller hands in.
#[derive(Debug)]
pub enum PollerEvent {
    /// The iteration boundary was reached, and the tenant's liveness flag read.
    Boundary { alive: bool },
    /// The fetch ended.
    Fetched(FetchOutcome),
    /// The handler's HTTP-request operation ended: with what it returned, or
    /// with the text of its failure.
    HttpReturned(Result<Vec<u8>, String>),
    /// The handler's raw-event operation ended.
    RawReturned(RawOutcome),
}

/// What an input holds.
pub enum PollerInputView {
    Boundary { alive: bool },
    FetchFailed(Seq<char>),
    NoEvent,
    Unidentified,
    Event {
        request_id: Seq<char>,
        trace_id: Option<Seq<char>>,
        body: Seq<u8>,
        attempt: HttpAttemptView,
    },
    HttpFailed(DispatchErrorView),
    HttpReplied(Result<Seq<u8>, DispatchErrorView>),
    RawFailed(DispatchErrorView),
    RawReplied(Result<Seq<u8>, DispatchErrorView>),
}

/// An event after the payloads in it have been decoded: all that a step
/// depends on.
#[derive(Debug)]
pub enum PollerInput {
    /// The iteration boundary was reached, and the tenant's liveness flag read.
    Boundary { alive: bool },
    /// The fetch failed in transport.
    FetchFailed(String),
    /// The endpoint has no event this cycle.
    NoEvent,
    /// An event without correlation identifier: it cannot be acknowledged.
    Unidentified,
    /// An event, with what came of the attempt to treat it as an HTTP request.
    Event { request_id: String, trace_id: Option<String>, body: Vec<u8>, attempt: HttpAttempt },
    /// The handler failed on the HTTP request.
    HttpFailed(DispatchError),
    /// The handler returned for the HTTP request: the bytes to post, or why
    /// there are none.
    HttpReplied(Result<Vec<u8>, DispatchError>),
    /// The raw event did not reach the handler, or the handler failed on it.
    RawFailed(DispatchError),
    /// The handler returned for the raw event: the bytes to post, or why there
    /// are none.
    RawReplied(Result<Vec<u8>, DispatchError>),
}

impl View for PollerInput {
    type V = PollerInputView;

    open spec fn view(&self) -> PollerInputView {
        match self {
            PollerInput::Boundary { alive } => PollerInputView::Boundary { alive: *alive },
            PollerInput::FetchFailed(reason) => PollerInputView::FetchFailed(reason@),
            PollerInput::NoEvent => PollerInputView::NoEvent,
            PollerInput::Unidentified => PollerInputView::Unidentified,
            PollerInput::Event { request_id, trace_id, body, attempt } => PollerInputView::Event {
                request_id: request_id@,
                trace_id: option_text(*trace_id),
                body: body@,
                attempt: attempt@,
            },
            PollerInput::HttpFailed(e) => PollerInputView::HttpFailed(e@),
            PollerInput::HttpReplied(outcome) => PollerInputView::HttpReplied(
                bytes_outcome(*outcome),
            ),
            PollerInput::RawFailed(e) => PollerInputView::RawFailed(e@),
            PollerInput::RawReplied(outcome) => PollerInputView::RawReplied(bytes_outcome(*outcome)),
        }
    }
}

/// What a poller holds.
pub struct PollerView {
    pub module_id: Seq<char>,
    pub dispatched: Set<Seq<char>>,
    pub phase: PhaseView,
}

impl PollerView {
    /// The same poller in another phase.
    pub open spec fn at(self, phase: PhaseView) -> PollerView {
        PollerView { phase, ..self }
    }

    /// The same poller after the request has been handed to the handler.
    pub open spec fn delivered(self, request_id: Seq<char>) -> PollerView {
        PollerView { dispatched: self.dispatched.insert(request_id), ..self }
    }
}

/// A log line.
pub open spec fn log(level: LogLevel, message: Seq<char>) -> EffectView {
    EffectView::Log { level, message }
}

/// The post of an error.
pub open spec fn post_error(message: Seq<char>, request_id: Seq<char>) -> EffectView {
    EffectView::PostError(InvocationErrorView { message, request_id })
}

/// The post of a response.
pub open spec fn post_response(body: Seq<u8>, request_id: Seq<char>) -> EffectView {
    EffectView::PostResponse(InvocationResponseView { body, request_id })
}

/// How a failure is reported for a request: it is logged as an error, and
/// its text is posted to the endpoint.
pub open spec fn report(e: DispatchErrorView, request_id: Seq<char>) -> Seq<EffectView> {
    seq![log(LogLevel::Error, e.message()), post_error(e.message(), request_id)]
}

/// The anomaly of a request that is seen again.
pub open spec fn duplicate(request_id: Seq<char>) -> DispatchErrorView {
    DispatchErrorView { cause: FailureCause::Duplicate, detail: request_id }
}

/// What precedes the dispatch of an event: its trace identifier is exported,
/// and a request that was delivered before is reported as an anomaly.
pub open spec fn announce(
    s: PollerView,
    request_id: Seq<char>,
    trace_id: Option<Seq<char>>,
) -> Seq<EffectView> {
    let export = match trace_id {
        Some(id) => seq![EffectView::ExportTraceId(id)],
        None => Seq::<EffectView>::empty(),
    };
    if s.dispatched.contains(request_id) {
        export + report(duplicate(request_id), request_id)
    } else {
        export
    }
}

/// The raw-event dispatch of a body.
pub open spec fn dispatch_raw(s: PollerView, request_id: Seq<char>, body: Seq<u8>) -> (
    PollerView,
    Seq<EffectView>,
) {
    (
        s.at(PhaseView::AwaitingRaw { request_id }),
        seq![EffectView::InvokeRaw { actor: s.module_id, body }],
    )
}

/// What follows a failed attempt to treat an event as an HTTP request. A
/// failure of classification is a warning, and the event is dispatched as a
/// raw event with its body as it was fetched. Any other failure is reported,
/// and the cycle ends.
pub open spec fn after_failed_attempt(
    s: PollerView,
    request_id: Seq<char>,
    body: Seq<u8>,
    e: DispatchErrorView,
) -> (PollerView, Seq<EffectView>) {
    if cause_kind(e.cause) == ErrorKind::Classification {
        (
            dispatch_raw(s, request_id, body).0,
            seq![log(LogLevel::Warn, e.message())] + dispatch_raw(s, request_id, body).1,
        )
    } else {
        (s.at(PhaseView::Idle), report(e, request_id))
    }
}

/// What is done with an event that has a correlation identifier.
pub open spec fn on_event(
    s: PollerView,
    request_id: Seq<char>,
    trace_id: Option<Seq<char>>,
    body: Seq<u8>,
    attempt: HttpAttemptView,
) -> (PollerView, Seq<EffectView>) {
    let first = announce(s, request_id, trace_id);
    match attempt {
        HttpAttemptView::NotHttp => (
            dispatch_raw(s, request_id, body).0,
            first + dispatch_raw(s, request_id, body).1,
        ),
        HttpAttemptView::Failed(e) => (
            after_failed_attempt(s, request_id, body, e).0,
            first + after_failed_attempt(s, request_id, body, e).1,
        ),
        HttpAttemptView::Ready(payload) => (
            s.at(PhaseView::AwaitingHttp { request_id }),
            first + seq![EffectView::InvokeHttp { actor: s.module_id, payload }],
        ),
    }
}

/// What is done when the handler has returned for a request. The request
/// counts as delivered before the reply is looked at: where no response can
/// be made of the reply, the failure is one after delivery.
pub open spec fn on_reply(
    s: PollerView,
    request_id: Seq<char>,
    outcome: Result<Seq<u8>, DispatchErrorView>,
) -> (PollerView, Seq<EffectView>) {
    let t = s.delivered(request_id).at(PhaseView::Idle);
    match outcome {
        Err(e) => (t, report(e, request_id)),
        Ok(response) => (t, seq![post_response(response, request_id)]),
    }
}

/// The transition function of a poller: the state after an input, and the
/// effects that the caller is asked for, in order. An input that the phase
/// does not wait for changes nothing and asks for nothing.
pub open spec fn transition(s: PollerView, input: PollerInputView) -> (PollerView, Seq<EffectView>) {
    match s.phase {
        PhaseView::Idle => match input {
            PollerInputView::Boundary { alive } => if alive {
                (s.at(PhaseView::Fetching), seq![EffectView::Fetch])
            } else {
                (s.at(PhaseView::Stopped), Seq::empty())
            },
            _ => (s, Seq::empty()),
        },
        PhaseView::Fetching => match input {
            PollerInputView::FetchFailed(reason) => (
                s.at(PhaseView::Idle),
                seq![log(LogLevel::Error, reason)],
            ),
            PollerInputView::NoEvent => (
                s.at(PhaseView::Idle),
                seq![log(LogLevel::Warn, "No event"@)],
            ),
            PollerInputView::Unidentified => (
                s.at(PhaseView::Idle),
                seq![log(LogLevel::Warn, "No request ID"@)],
            ),
            PollerInputView::Event { request_id, trace_id, body, attempt } => on_event(
                s,
                request_id,
                trace_id,
                body,
                attempt,
            ),
            _ => (s, Seq::empty()),
        },
        PhaseView::AwaitingHttp { request_id } => match input {
            PollerInputView::HttpFailed(e) => (s.at(PhaseView::Idle), report(e, request_id)),
            PollerInputView::HttpReplied(outcome) => on_reply(s, request_id, outcome),
            _ => (s, Seq::empty()),
        },
        PhaseView::AwaitingRaw { request_id } => match input {
            PollerInputView::RawFailed(e) => (s.at(PhaseView::Idle), report(e, request_id)),
            PollerInputView::RawReplied(outcome) => on_reply(s, request_id, outcome),
            _ => (s, Seq::empty()),
        },
        PhaseView::Stopped => (s, Seq::empty()),
    }
}

/// A failure with the text that the failing party gave.
pub open spec fn failed_with(cause: FailureCause, detail: Seq<char>) -> DispatchErrorView {
    DispatchErrorView { cause, detail }
}

/// What the input of an event is. All of it is fixed by the event, but for
/// what the two encoders decide: whether the message for the handler can be
/// made of a request, and whether the document for the endpoint can be made of
/// the handler's response, and what its bytes are.
pub open spec fn resolves(event: PollerEvent, input: PollerInputView) -> bool {
    match event {
        PollerEvent::Boundary { alive } => input == (PollerInputView::Boundary { alive }),
        PollerEvent::Fetched(FetchOutcome::Failed(reason)) => input == PollerInputView::FetchFailed(
            reason@,
        ),
        PollerEvent::Fetched(FetchOutcome::Reply(reply)) => match event_of(reply) {
            None => input == PollerInputView::NoEvent,
            Some(fetched) => match fetched.request_id {
                None => input == PollerInputView::Unidentified,
                Some(id) => {
                    &&& input matches PollerInputView::Event { request_id, trace_id, body, attempt }
                    &&& request_id == id
                    &&& trace_id == fetched.trace_id
                    &&& body == fetched.body
                    &&& attempt_on(fetched.body, attempt)
                },
            },
        },
        PollerEvent::HttpReturned(Err(reason)) => input == PollerInputView::HttpFailed(
            failed_with(FailureCause::TargetHttp, reason@),
        ),
        PollerEvent::HttpReturned(Ok(reply)) => {
            &&& input matches PollerInputView::HttpReplied(outcome)
            &&& reply_on(reply@, outcome)
        },
        PollerEvent::RawReturned(RawOutcome::NotEncoded(reason)) => input
            == PollerInputView::RawFailed(failed_with(FailureCause::EventEncoding, reason@)),
        PollerEvent::RawReturned(RawOutcome::Failed(reason)) => input == PollerInputView::RawFailed(
            failed_with(FailureCause::TargetEvent, reason@),
        ),
        PollerEvent::RawReturned(RawOutcome::Undecodable(reason)) => input
            == PollerInputView::RawReplied(
            Err(failed_with(FailureCause::ResponseDecoding, reason@)),
        ),
        PollerEvent::RawReturned(RawOutcome::Replied(reply)) => input == PollerInputView::RawReplied(
            Ok(reply@),
        ),
    }
}

/// The effects that report a failure for a request.
fn report_effects(e: &DispatchError, request_id: &str) -> (effects: Vec<Effect>)
    ensures
        effects_view(effects@) == report(e@, request_id@),
{
    let message = e.message();
    let mut effects: Vec<Effect> = Vec::new();
    effects.push(Effect::Log { level: LogLevel::Error, message: message.clone() });
    effects.push(Effect::PostError(InvocationError::new(message, request_id)));
    assert(effects_view(effects@) =~= report(e@, request_id@));
    effects
}

/// The effects of two lists, one after the other.
fn chain(first: Vec<Effect>, second: Vec<Effect>) -> (effects: Vec<Effect>)
    ensures
        effects_view(effects@) == effects_view(first@) + effects_view(second@),
{
    let mut effects = first;
    let mut rest = second;
    effects.append(&mut rest);
    assert(effects_view(effects@) =~= effects_view(first@) + effects_view(second@));
    effects
}

/// A list of one effect.
fn single(effect: Effect) -> (effects: Vec<Effect>)
    ensures
        effects_view(effects@) == seq![effect@],
{
    let mut effects: Vec<Effect> = Vec::new();
    effects.push(effect);
    assert(effects_view(effects@) =~= seq![effect@]);
    effects
}

/// No effect.
fn nothing() -> (effects: Vec<Effect>)
    ensures
        effects_view(effects@) == Seq::<EffectView>::empty(),
{
    let effects: Vec<Effect> = Vec::new();
    assert(effects_view(effects@) =~= Seq::<EffectView>::empty());
    effects
}

/// A list of one log line.
fn log_line(level: LogLevel, message: String) -> (effects: Vec<Effect>)
    ensures
        effects_view(effects@) == seq![log(level, message@)],
{
    single(Effect::Log { level, message })
}

/// Decodes the payloads of an event: the body of a fetched event is tried as
/// an HTTP-shaped request, and what the handler returned for an HTTP request
/// is made into the bytes to post.
pub fn resolve(event: PollerEvent) -> (input: PollerInput)
    ensures
        resolves(event, input@),
{
    match event {
        PollerEvent::Boundary { alive } => PollerInput::Boundary { alive },
        PollerEvent::Fetched(FetchOutcome::Failed(reason)) => PollerInput::FetchFailed(reason),
        PollerEvent::Fetched(FetchOutcome::Reply(reply)) => match event_from_reply(reply) {
            None => PollerInput::NoEvent,
            Some(fetched) => {
                let (body, request_id, trace_id) = fetched.into_parts();
                match request_id {
                    None => PollerInput::Unidentified,
                    Some(request_id) => {
                        let attempt = attempt_http(body.as_slice());
                        PollerInput::Event { request_id, trace_id, body, attempt }
                    },
                }
            },
        },
        PollerEvent::HttpReturned(Err(reason)) => PollerInput::HttpFailed(
            DispatchError::new(FailureCause::TargetHttp, reason),
        ),
        PollerEvent::HttpReturned(Ok(reply)) => PollerInput::HttpReplied(
            interpret_http_reply(reply.as_slice()),
        ),
        PollerEvent::RawReturned(RawOutcome::NotEncoded(reason)) => PollerInput::RawFailed(
            DispatchError::new(FailureCause::EventEncoding, reason),
        ),
        PollerEvent::RawReturned(RawOutcome::Failed(reason)) => PollerInput::RawFailed(
            DispatchError::new(FailureCause::TargetEvent, reason),
        ),
        PollerEvent::RawReturned(RawOutcome::Undecodable(reason)) => PollerInput::RawReplied(
            Err(DispatchError::new(FailureCause::ResponseDecoding, reason)),
        ),
        PollerEvent::RawReturned(RawOutcome::Replied(reply)) => PollerInput::RawReplied(Ok(reply)),
    }
}

/// The poll loop of one tenant: the tenant's identifier, the correlation
/// identifiers that have been delivered to the handler, and the phase of the
/// cycle.
pub struct Poller {
    module_id: String,
    dispatched: DispatchedSet,
    phase: Phase,
}

impl View for Poller {
    type V = PollerView;

    closed spec fn view(&self) -> PollerView {
        PollerView { module_id: self.module_id@, dispatched: self.dispatched@, phase: self.phase@ }
    }
}

impl Poller {
    /// The record of delivered requests holds each identifier once.
    pub closed spec fn well_formed(&self) -> bool {
        self.dispatched.well_formed()
    }

    /// Creates a new `Poller` for the tenant. It has delivered nothing, and
    /// stands at the iteration boundary.
    pub fn new(module_id: &str) -> (r: Self)
        ensures
            r.well_formed(),
            r@ == (PollerView {
                module_id: module_id@,
                dispatched: Set::<Seq<char>>::empty(),
                phase: PhaseView::Idle,
            }),
    {
        Poller {
            module_id: module_id.to_owned(),
            dispatched: DispatchedSet::new(),
            phase: Phase::Idle,
        }
    }

    /// Returns the tenant's identifier.
    pub fn module_id(&self) -> (r: &str)
        ensures
            r@ == self@.module_id,
    {
        self.module_id.as_str()
    }

    /// Returns the phase of the cycle.
    pub fn phase(&self) -> (r: &Phase)
        ensures
            r@ == self@.phase,
    {
        &self.phase
    }

    /// Returns whether the poller has stopped.
    pub fn is_stopped(&self) -> (r: bool)
        ensures
            r == (self@.phase is Stopped),
    {
        match self.phase {
            Phase::Stopped => true,
            _ => false,
        }
    }

    /// Returns whether the request has been delivered to the handler.
    pub fn has_dispatched(&self, request_id: &str) -> (r: bool)
        ensures
            r == self@.dispatched.contains(request_id@),
    {
        self.dispatched.contains(request_id)
    }

    /// Returns the number of requests that have been delivered to the handler.
    pub fn dispatched_count(&self) -> (r: usize)
        requires
            self.well_formed(),
        ensures
            r == self@.dispatched.len(),
    {
        self.dispatched.len()
    }

    fn announce(&self, request_id: &str, trace_id: Option<String>) -> (effects: Vec<Effect>)
        ensures
            effects_view(effects@) == announce(self@, request_id@, option_text(trace_id)),
    {
        let export = match trace_id {
            Some(id) => single(Effect::ExportTraceId(id)),
            None => nothing(),
        };
        if self.dispatched.contains(request_id) {
            let anomaly = DispatchError::new(FailureCause::Duplicate, request_id.to_owned());
            chain(export, report_effects(&anomaly, request_id))
        } else {
            export
        }
    }

    fn dispatch_raw(&mut self, request_id: String, body: Vec<u8>) -> (effects: Vec<Effect>)
        ensures
            old(self).well_formed() ==> final(self).well_formed(),
            final(self)@ == dispatch_raw(old(self)@, request_id@, body@).0,
            effects_view(effects@) == dispatch_raw(old(self)@, request_id@, body@).1,
    {
        self.phase = Phase::AwaitingRaw { request_id };
        single(Effect::InvokeRaw { actor: self.module_id.clone(), body })
    }

    fn after_failed_attempt(&mut self, request_id: String, body: Vec<u8>, e: DispatchError) -> (effects:
        Vec<Effect>)
        ensures
            old(self).well_formed() ==> final(self).well_formed(),
            final(self)@ == after_failed_attempt(old(self)@, request_id@, body@, e@).0,
            effects_view(effects@) == after_failed_attempt(old(self)@, request_id@, body@, e@).1,
    {
        match e.kind() {
            ErrorKind::Classification => {
                let warning = log_line(LogLevel::Warn, e.message());
                let raw = self.dispatch_raw(request_id, body);
                chain(warning, raw)
            },
            _ => {
                self.phase = Phase::Idle;
                report_effects(&e, request_id.as_str())
            },
        }
    }

    fn on_event(
        &mut self,
        request_id: String,
        trace_id: Option<String>,
        body: Vec<u8>,
        attempt: HttpAttempt,
    ) -> (effects: Vec<Effect>)
        ensures
            old(self).well_formed() ==> final(self).well_formed(),
            final(self)@ == on_event(
                old(self)@,
                request_id@,
                option_text(trace_id),
                body@,
                attempt@,
            ).0,
            effects_view(effects@) == on_event(
                old(self)@,
                request_id@,
                option_text(trace_id),
                body@,
                attempt@,
            ).1,
    {
        let first = self.announce(request_id.as_str(), trace_id);
        match attempt {
            HttpAttempt::NotHttp => {
                let raw = self.dispatch_raw(request_id, body);
                chain(first, raw)
            },
            HttpAttempt::Failed(e) => {
                let rest = self.after_failed_attempt(request_id, body, e);
                chain(first, rest)
            },
            HttpAttempt::Ready(payload) => {
                self.phase = Phase::AwaitingHttp { request_id };
                chain(first, single(Effect::InvokeHttp { actor: self.module_id.clone(), payload }))
            },
        }
    }

    fn on_reply(&mut self, request_id: String, outcome: Result<Vec<u8>, DispatchError>) -> (effects:
        Vec<Effect>)
        ensures
            old(self).well_formed() ==> final(self).well_formed(),
            final(self)@ == on_reply(old(self)@, request_id@, bytes_outcome(outcome)).0,
            effects_view(effects@) == on_reply(old(self)@, request_id@, bytes_outcome(outcome)).1,
    {
        self.dispatched.insert(request_id.as_str());
        self.phase = Phase::Idle;
        match outcome {
            Err(e) => report_effects(&e, request_id.as_str()),
            Ok(response) => single(
                Effect::PostResponse(InvocationResponse::new(response, request_id.as_str())),
            ),
        }
    }

    /// Takes one step: the poller moves to the state that `transition` gives
    /// for the input, and returns the effects that it gives, in order.
    pub fn advance(&mut self, input: PollerInput) -> (effects: Vec<Effect>)
        ensures
            old(self).well_formed() ==> final(self).well_formed(),
            final(self)@ == transition(old(self)@, input@).0,
            effects_view(effects@) == transition(old(self)@, input@).1,
    {
        let mut phase = Phase::Idle;
        core::mem::swap(&mut self.phase, &mut phase);
        match phase {
            Phase::Idle => match input {
                PollerInput::Boundary { alive } => {
                    if alive {
                        self.phase = Phase::Fetching;
                        single(Effect::Fetch)
                    } else {
                        self.phase = Phase::Stopped;
                        nothing()
                    }
                },
                _ => nothing(),
            },
            Phase::Fetching => match input {
                PollerInput::FetchFailed(reason) => log_line(LogLevel::Error, reason),
                PollerInput::NoEvent => log_line(LogLevel::Warn, String::from_str("No event")),
                PollerInput::Unidentified => log_line(
                    LogLevel::Warn,
                    String::from_str("No request ID"),
                ),
                PollerInput::Event { request_id, trace_id, body, attempt } => self.on_event(
                    request_id,
                    trace_id,
                    body,
                    attempt,
                ),
                _ => {
                    self.phase = Phase::Fetching;
                    nothing()
                },
            },
            Phase::AwaitingHttp { request_id } => match input {
                PollerInput::HttpFailed(e) => report_effects(&e, request_id.as_str()),
                PollerInput::HttpReplied(outcome) => self.on_reply(request_id, outcome),
                _ => {
                    self.phase = Phase::AwaitingHttp { request_id };
                    nothing()
                },
            },
            Phase::AwaitingRaw { request_id } => match input {
                PollerInput::RawFailed(e) => report_effects(&e, request_id.as_str()),
                PollerInput::RawReplied(outcome) => self.on_reply(request_id, outcome),
                _ => {
                    self.phase = Phase::AwaitingRaw { request_id };
                    nothing()
                },
            },
            Phase::Stopped => {
                self.phase = Phase::Stopped;
                nothing()
            },
        }
    }

    /// Handles one event: decodes its payloads, then takes the step for what
    /// they are. Whatever the decoders make of the payloads, the step is the
    /// one that `transition` gives for an input of the event.
    pub fn step(&mut self, event: PollerEvent) -> (effects: Vec<Effect>)
        ensures
            old(self).well_formed() ==> final(self).well_formed(),
            exists|input: PollerInputView|
                #![trigger resolves(event, input)]
                {
                    &&& resolves(event, input)
                    &&& final(self)@ == transition(old(self)@, input).0
                    &&& effects_view(effects@) == transition(old(self)@, input).1
                },
    {
        let input = resolve(event);
        let ghost given = input@;
        let effects = self.advance(input);
        assert(resolves(event, given));
        effects
    }
}

} // verus!
