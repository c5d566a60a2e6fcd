use lambda_runtime_provider::dispatch::HttpAttempt;
use lambda_runtime_provider::failure::{DispatchError, FailureCause};
use lambda_runtime_provider::poller::{
    resolve, Effect, FetchOutcome, LogLevel, Phase, Poller, PollerEvent, PollerInput, RawOutcome,
};
use lambda_runtime_provider::wire::PollReply;

const HTTP_EVENT: &[u8] = br#"{"httpMethod":"GET","path":"/x","queryStringParameters":{},"headers":{},"requestContext":{"elb":{"targetGroupArn":"arn"}},"isBase64Encoded":false,"body":"ping"}"#;

const HTTP_EVENT_NO_METHOD: &[u8] = br#"{"path":"/x","requestContext":{"elb":{"targetGroupArn":"arn"}},"isBase64Encoded":false}"#;

fn fetched(status: u16, body: &[u8], request_id: Option<&str>, trace_id: Option<&str>) -> PollerEvent {
    PollerEvent::Fetched(FetchOutcome::Reply(PollReply {
        status,
        body: body.to_vec(),
        request_id: request_id.map(String::from),
        trace_id: trace_id.map(String::from),
    }))
}

fn fetching_poller(actor: &str) -> Poller {
    let mut poller = Poller::new(actor);
    let effects = poller.step(PollerEvent::Boundary { alive: true });
    assert_eq!(effects.len(), 1);
    assert!(matches!(effects[0], Effect::Fetch));
    assert!(matches!(poller.phase(), Phase::Fetching));
    poller
}

fn handler_reply(status_code: u32, status: &str, body: &[u8]) -> Vec<u8> {
    wascc_codec::serialize(wascc_codec::http::Response {
        status_code,
        status: String::from(status),
        header: std::collections::HashMap::new(),
        body: body.to_vec(),
    })
    .unwrap()
}

fn is_log(effect: &Effect, wanted_level: LogLevel, wanted: &str) -> bool {
    match effect {
        Effect::Log { level, message } => *level == wanted_level && message == wanted,
        _ => false,
    }
}

fn is_post_error(effect: &Effect, wanted: &str, request_id: &str) -> bool {
    match effect {
        Effect::PostError(error) => {
            error.error_message() == wanted && error.request_id() == request_id
        },
        _ => false,
    }
}

fn is_post_response(effect: &Effect, wanted: &[u8], request_id: &str) -> bool {
    match effect {
        Effect::PostResponse(response) => {
            response.body() == wanted && response.request_id() == request_id
        },
        _ => false,
    }
}

fn is_invoke_raw(effect: &Effect, wanted_actor: &str, wanted: &[u8]) -> bool {
    match effect {
        Effect::InvokeRaw { actor, body } => actor == wanted_actor && body.as_slice() == wanted,
        _ => false,
    }
}

fn posts(effects: &[Effect]) -> usize {
    effects
        .iter()
        .filter(|e| matches!(e, Effect::PostError(_) | Effect::PostResponse(_)))
        .count()
}

#[test]
fn new_poller_waits_at_the_boundary() {
    let poller = Poller::new("MACTOR");
    assert_eq!(poller.module_id(), "MACTOR");
    assert!(matches!(poller.phase(), Phase::Idle));
    assert!(!poller.is_stopped());
    assert!(!poller.has_dispatched("abc-1"));
    assert_eq!(poller.dispatched_count(), 0);
}

#[test]
fn cleared_flag_stops_the_poller_at_the_boundary() {
    let mut poller = Poller::new("MACTOR");
    let effects = poller.step(PollerEvent::Boundary { alive: false });
    assert!(effects.is_empty());
    assert!(poller.is_stopped());
    let after = poller.step(PollerEvent::Boundary { alive: true });
    assert!(after.is_empty());
    assert!(poller.is_stopped());
    let late = poller.step(fetched(200, b"x", Some("abc-1"), None));
    assert!(late.is_empty());
    assert!(poller.is_stopped());
}

#[test]
fn flag_is_not_read_while_a_cycle_runs() {
    let mut poller = fetching_poller("MACTOR");
    let effects = poller.step(PollerEvent::Boundary { alive: false });
    assert!(effects.is_empty());
    assert!(matches!(poller.phase(), Phase::Fetching));
    assert!(!poller.is_stopped());
}

#[test]
fn transport_failure_is_logged_and_the_loop_goes_on() {
    let mut poller = fetching_poller("MACTOR");
    let effects =
        poller.step(PollerEvent::Fetched(FetchOutcome::Failed(String::from("connection refused"))));
    assert_eq!(effects.len(), 1);
    assert!(is_log(&effects[0], LogLevel::Error, "connection refused"));
    assert!(matches!(poller.phase(), Phase::Idle));
    let next = poller.step(PollerEvent::Boundary { alive: true });
    assert!(matches!(next[0], Effect::Fetch));
}

#[test]
fn not_found_means_no_event_and_is_no_error() {
    let mut poller = fetching_poller("MACTOR");
    let effects = poller.step(fetched(404, b"", None, None));
    assert_eq!(effects.len(), 1);
    assert!(is_log(&effects[0], LogLevel::Warn, "No event"));
    assert!(!effects.iter().any(|e| matches!(e, Effect::Log { level: LogLevel::Error, .. })));
    assert_eq!(posts(&effects), 0);
    assert!(matches!(poller.phase(), Phase::Idle));
    let next = poller.step(PollerEvent::Boundary { alive: true });
    assert_eq!(next.len(), 1);
    assert!(matches!(next[0], Effect::Fetch));
    assert!(matches!(poller.phase(), Phase::Fetching));
}

#[test]
fn event_without_request_id_is_discarded() {
    let mut poller = fetching_poller("MACTOR");
    let effects = poller.step(fetched(200, HTTP_EVENT, None, Some("Root=1")));
    assert_eq!(effects.len(), 1);
    assert!(is_log(&effects[0], LogLevel::Warn, "No request ID"));
    assert_eq!(posts(&effects), 0);
    assert!(matches!(poller.phase(), Phase::Idle));
    let next = poller.step(PollerEvent::Boundary { alive: true });
    assert!(matches!(next[0], Effect::Fetch));
}

#[test]
fn http_event_is_dispatched_as_http_request_and_answered() {
    let mut poller = fetching_poller("MACTOR");
    let effects = poller.step(fetched(200, HTTP_EVENT, Some("abc-1"), None));
    assert_eq!(effects.len(), 1);
    let payload = match &effects[0] {
        Effect::InvokeHttp { actor, payload } => {
            assert_eq!(actor, "MACTOR");
            payload.clone()
        },
        _ => panic!("the event is an HTTP request"),
    };
    let request: wascc_codec::http::Request = wascc_codec::deserialize(&payload).unwrap();
    assert_eq!(request.method, "GET");
    assert_eq!(request.path, "/x");
    assert_eq!(request.body, b"ping".to_vec());
    assert!(matches!(poller.phase(), Phase::AwaitingHttp { .. }));
    assert!(!poller.has_dispatched("abc-1"));

    let answered = poller.step(PollerEvent::HttpReturned(Ok(handler_reply(200, "OK", b"pong"))));
    assert_eq!(answered.len(), 1);
    match &answered[0] {
        Effect::PostResponse(response) => {
            assert_eq!(response.request_id(), "abc-1");
            let value: serde_json::Value = serde_json::from_slice(response.body()).unwrap();
            assert_eq!(value.get("statusCode").and_then(|v| v.as_i64()), Some(200));
            assert_eq!(value.get("body").and_then(|v| v.as_str()), Some("cG9uZw=="));
            assert_eq!(value.get("isBase64Encoded").and_then(|v| v.as_bool()), Some(true));
        },
        _ => panic!("the response is posted"),
    }
    assert!(poller.has_dispatched("abc-1"));
    assert!(matches!(poller.phase(), Phase::Idle));
}

#[test]
fn trace_id_is_exported_before_the_dispatch() {
    let mut poller = fetching_poller("MACTOR");
    let effects = poller.step(fetched(200, b"raw", Some("abc-1"), Some("Root=1-5bef4de7")));
    assert_eq!(effects.len(), 2);
    assert!(matches!(&effects[0], Effect::ExportTraceId(id) if id == "Root=1-5bef4de7"));
    assert!(is_invoke_raw(&effects[1], "MACTOR", b"raw"));
}

#[test]
fn opaque_event_is_dispatched_raw_and_answered_under_its_id() {
    let mut poller = fetching_poller("MACTOR");
    let effects = poller.step(fetched(200, b"\x01\x02 opaque", Some("id-42"), None));
    assert_eq!(effects.len(), 1);
    assert!(is_invoke_raw(&effects[0], "MACTOR", b"\x01\x02 opaque"));
    assert!(matches!(poller.phase(), Phase::AwaitingRaw { .. }));
    let answered = poller.step(PollerEvent::RawReturned(RawOutcome::Replied(b"result".to_vec())));
    assert_eq!(answered.len(), 1);
    assert!(is_post_response(&answered[0], b"result", "id-42"));
    assert!(poller.has_dispatched("id-42"));
    assert!(matches!(poller.phase(), Phase::Idle));
}

#[test]
fn raw_target_failure_is_posted_with_the_target_text() {
    let mut poller = fetching_poller("MACTOR");
    poller.step(fetched(200, b"opaque", Some("id-43"), None));
    let effects = poller.step(PollerEvent::RawReturned(RawOutcome::Failed(String::from("guest trapped"))));
    assert_eq!(effects.len(), 2);
    assert!(is_log(&effects[0], LogLevel::Error, "Guest failed to handle Lambda event: guest trapped"));
    assert!(is_post_error(
        &effects[1],
        "Guest failed to handle Lambda event: guest trapped",
        "id-43"
    ));
    assert!(!poller.has_dispatched("id-43"));
    assert!(matches!(poller.phase(), Phase::Idle));
}

#[test]
fn raw_event_that_cannot_be_encoded_is_posted_as_error() {
    let mut poller = fetching_poller("MACTOR");
    poller.step(fetched(200, b"opaque", Some("id-44"), None));
    let effects = poller.step(PollerEvent::RawReturned(RawOutcome::NotEncoded(String::from("too deep"))));
    assert_eq!(effects.len(), 2);
    assert!(is_post_error(&effects[1], "Failed to serialize Lambda raw event: too deep", "id-44"));
    assert!(!poller.has_dispatched("id-44"));
}

#[test]
fn raw_reply_that_cannot_be_decoded_counts_as_delivered() {
    let mut poller = fetching_poller("MACTOR");
    poller.step(fetched(200, b"opaque", Some("id-45"), None));
    let effects = poller.step(PollerEvent::RawReturned(RawOutcome::Undecodable(String::from("eof"))));
    assert_eq!(effects.len(), 2);
    assert!(is_log(&effects[0], LogLevel::Error, "Failed to deserialize HTTP response: eof"));
    assert!(is_post_error(&effects[1], "Failed to deserialize HTTP response: eof", "id-45"));
    assert!(poller.has_dispatched("id-45"));
    assert!(matches!(poller.phase(), Phase::Idle));
}

#[test]
fn request_missing_a_field_falls_back_to_raw_dispatch() {
    let mut poller = fetching_poller("MACTOR");
    let effects = poller.step(fetched(200, HTTP_EVENT_NO_METHOD, Some("id-46"), None));
    assert_eq!(effects.len(), 2);
    assert!(is_log(&effects[0], LogLevel::Warn, "Missing method in ALB request"));
    assert!(is_invoke_raw(&effects[1], "MACTOR", HTTP_EVENT_NO_METHOD));
    assert_eq!(posts(&effects), 0);
    assert!(matches!(poller.phase(), Phase::AwaitingRaw { .. }));
}

#[test]
fn http_target_failure_is_posted_with_the_target_text() {
    let mut poller = fetching_poller("MACTOR");
    poller.step(fetched(200, HTTP_EVENT, Some("id-47"), None));
    let effects = poller.step(PollerEvent::HttpReturned(Err(String::from("no such operation"))));
    assert_eq!(effects.len(), 2);
    assert!(is_log(
        &effects[0],
        LogLevel::Error,
        "Guest failed to handle HTTP request: no such operation"
    ));
    assert!(is_post_error(
        &effects[1],
        "Guest failed to handle HTTP request: no such operation",
        "id-47"
    ));
    assert!(!poller.has_dispatched("id-47"));
    assert!(matches!(poller.phase(), Phase::Idle));
    let next = poller.step(PollerEvent::Boundary { alive: true });
    assert!(matches!(next[0], Effect::Fetch));
}

#[test]
fn request_with_bad_base64_body_falls_back_to_raw_dispatch() {
    let payload = br#"{"httpMethod":"GET","path":"/x","requestContext":{"elb":{}},"isBase64Encoded":true,"body":"!!!!"}"#;
    let mut poller = fetching_poller("MACTOR");
    let effects = poller.step(fetched(200, payload, Some("id-52"), None));
    assert_eq!(effects.len(), 2);
    assert!(is_log(&effects[0], LogLevel::Warn, "Invalid byte 33, offset 0."));
    assert!(is_invoke_raw(&effects[1], "MACTOR", payload));
    assert_eq!(posts(&effects), 0);
}

#[test]
fn failure_after_delivery_is_posted_and_not_dispatched_again() {
    let mut poller = fetching_poller("MACTOR");
    poller.step(fetched(200, HTTP_EVENT, Some("id-48"), None));
    let effects = poller.step(PollerEvent::HttpReturned(Ok(b"\xc1 garbage".to_vec())));
    assert_eq!(effects.len(), 2);
    let message = match &effects[0] {
        Effect::Log { level: LogLevel::Error, message } => message.clone(),
        _ => panic!("the failure is logged as an error"),
    };
    assert!(message.starts_with("Failed to deserialize HTTP response: "));
    assert!(is_post_error(&effects[1], &message, "id-48"));
    assert!(poller.has_dispatched("id-48"));
    assert!(matches!(poller.phase(), Phase::Idle));
}

#[test]
fn repeated_request_id_is_reported_and_the_loop_goes_on() {
    let mut poller = fetching_poller("MACTOR");
    poller.step(fetched(200, b"opaque", Some("abc-1"), None));
    poller.step(PollerEvent::RawReturned(RawOutcome::Replied(b"first".to_vec())));
    assert!(poller.has_dispatched("abc-1"));

    let boundary = poller.step(PollerEvent::Boundary { alive: true });
    assert!(matches!(boundary[0], Effect::Fetch));
    let effects = poller.step(fetched(200, b"opaque", Some("abc-1"), None));
    assert_eq!(effects.len(), 3);
    assert!(is_log(&effects[0], LogLevel::Error, "Already dispatched: abc-1"));
    assert!(is_post_error(&effects[1], "Already dispatched: abc-1", "abc-1"));
    assert!(is_invoke_raw(&effects[2], "MACTOR", b"opaque"));
    assert!(!poller.is_stopped());

    let answered = poller.step(PollerEvent::RawReturned(RawOutcome::Replied(b"second".to_vec())));
    assert!(is_post_response(&answered[0], b"second", "abc-1"));
    assert_eq!(poller.dispatched_count(), 1);
    assert!(matches!(poller.phase(), Phase::Idle));
    let next = poller.step(PollerEvent::Boundary { alive: true });
    assert_eq!(next.len(), 1);
    assert!(matches!(next[0], Effect::Fetch));
}

#[test]
fn repeated_request_with_missing_field_still_falls_back() {
    let mut poller = fetching_poller("MACTOR");
    poller.step(fetched(200, b"opaque", Some("abc-1"), None));
    poller.step(PollerEvent::RawReturned(RawOutcome::Replied(b"first".to_vec())));
    poller.step(PollerEvent::Boundary { alive: true });
    let effects = poller.step(fetched(200, HTTP_EVENT_NO_METHOD, Some("abc-1"), None));
    assert_eq!(effects.len(), 4);
    assert!(is_log(&effects[0], LogLevel::Error, "Already dispatched: abc-1"));
    assert!(is_post_error(&effects[1], "Already dispatched: abc-1", "abc-1"));
    assert!(is_log(&effects[2], LogLevel::Warn, "Missing method in ALB request"));
    assert!(is_invoke_raw(&effects[3], "MACTOR", HTTP_EVENT_NO_METHOD));
    assert_eq!(posts(&effects), 1);
    assert!(matches!(poller.phase(), Phase::AwaitingRaw { .. }));
}

#[test]
fn http_target_failure_on_delivered_request_is_posted() {
    let mut poller = fetching_poller("MACTOR");
    poller.step(fetched(200, b"opaque", Some("abc-1"), None));
    poller.step(PollerEvent::RawReturned(RawOutcome::Replied(b"first".to_vec())));
    poller.step(PollerEvent::Boundary { alive: true });
    poller.step(fetched(200, HTTP_EVENT, Some("abc-1"), None));
    assert!(matches!(poller.phase(), Phase::AwaitingHttp { .. }));
    let effects = poller.step(PollerEvent::HttpReturned(Err(String::from("trap"))));
    assert_eq!(effects.len(), 2);
    assert!(is_log(&effects[0], LogLevel::Error, "Guest failed to handle HTTP request: trap"));
    assert!(is_post_error(&effects[1], "Guest failed to handle HTTP request: trap", "abc-1"));
    assert!(matches!(poller.phase(), Phase::Idle));
}

#[test]
fn event_that_the_phase_does_not_wait_for_is_ignored() {
    let mut poller = Poller::new("MACTOR");
    assert!(poller.step(fetched(200, b"x", Some("abc-1"), None)).is_empty());
    assert!(poller.step(PollerEvent::HttpReturned(Ok(Vec::new()))).is_empty());
    assert!(poller.step(PollerEvent::RawReturned(RawOutcome::Replied(Vec::new()))).is_empty());
    assert!(matches!(poller.phase(), Phase::Idle));
    assert!(!poller.has_dispatched("abc-1"));
    let mut waiting = fetching_poller("MACTOR");
    waiting.step(fetched(200, b"opaque", Some("abc-2"), None));
    assert!(waiting.step(PollerEvent::HttpReturned(Err(String::from("x")))).is_empty());
    assert!(matches!(waiting.phase(), Phase::AwaitingRaw { .. }));
}

#[test]
fn document_is_posted_as_the_encoder_made_it() {
    let mut poller = fetching_poller("MACTOR");
    let input = PollerInput::Event {
        request_id: String::from("id-50"),
        trace_id: None,
        body: b"body".to_vec(),
        attempt: HttpAttempt::Ready(b"message".to_vec()),
    };
    let effects = poller.advance(input);
    assert_eq!(effects.len(), 1);
    assert!(matches!(&effects[0], Effect::InvokeHttp { payload, .. } if payload.as_slice() == b"message"));
    let after = poller.advance(PollerInput::HttpReplied(Ok(b"document".to_vec())));
    assert_eq!(after.len(), 1);
    assert!(is_post_response(&after[0], b"document", "id-50"));
    assert!(poller.has_dispatched("id-50"));
    assert!(matches!(poller.phase(), Phase::Idle));
}

#[test]
fn request_that_cannot_be_encoded_is_reported() {
    let mut poller = fetching_poller("MACTOR");
    let input = PollerInput::Event {
        request_id: String::from("id-51"),
        trace_id: Some(String::from("t")),
        body: b"body".to_vec(),
        attempt: HttpAttempt::Failed(DispatchError::new(
            FailureCause::RequestEncoding,
            String::from("depth limit"),
        )),
    };
    let effects = poller.advance(input);
    assert_eq!(effects.len(), 3);
    assert!(matches!(&effects[0], Effect::ExportTraceId(id) if id == "t"));
    assert!(is_log(&effects[1], LogLevel::Error, "Failed to serialize HTTP request: depth limit"));
    assert!(is_post_error(&effects[2], "Failed to serialize HTTP request: depth limit", "id-51"));
    assert!(!poller.has_dispatched("id-51"));
    assert!(matches!(poller.phase(), Phase::Idle));
}

#[test]
fn response_that_cannot_be_encoded_is_a_failure_after_delivery() {
    let mut poller = fetching_poller("MACTOR");
    poller.step(fetched(200, HTTP_EVENT, Some("id-53"), None));
    let failure = DispatchError::new(FailureCause::ResponseEncoding, String::from("key must be a string"));
    let effects = poller.advance(PollerInput::HttpReplied(Err(failure)));
    assert_eq!(effects.len(), 2);
    assert!(is_post_error(
        &effects[1],
        "Failed to serialize ALB response: key must be a string",
        "id-53"
    ));
    assert!(poller.has_dispatched("id-53"));
}

#[test]
fn resolving_decodes_the_payloads() {
    assert!(matches!(resolve(PollerEvent::Boundary { alive: true }), PollerInput::Boundary { alive: true }));
    assert!(matches!(resolve(fetched(503, b"", None, None)), PollerInput::NoEvent));
    assert!(matches!(resolve(fetched(200, b"x", None, None)), PollerInput::Unidentified));
    match resolve(fetched(200, b"x", Some("r"), Some("t"))) {
        PollerInput::Event { request_id, trace_id, body, attempt } => {
            assert_eq!(request_id, "r");
            assert_eq!(trace_id.as_deref(), Some("t"));
            assert_eq!(body, b"x".to_vec());
            assert!(matches!(attempt, HttpAttempt::NotHttp));
        },
        _ => panic!("an event was fetched"),
    }
    match resolve(fetched(200, HTTP_EVENT, Some("r"), None)) {
        PollerInput::Event { attempt, .. } => assert!(matches!(attempt, HttpAttempt::Ready(_))),
        _ => panic!("an event was fetched"),
    }
    match resolve(PollerEvent::HttpReturned(Err(String::from("e")))) {
        PollerInput::HttpFailed(e) => {
            assert_eq!(e.cause, FailureCause::TargetHttp);
            assert_eq!(e.detail, "e");
        },
        _ => panic!("the handler failed"),
    }
    match resolve(PollerEvent::RawReturned(RawOutcome::Failed(String::from("e")))) {
        PollerInput::RawFailed(e) => assert_eq!(e.cause, FailureCause::TargetEvent),
        _ => panic!("the handler failed"),
    }
    match resolve(PollerEvent::RawReturned(RawOutcome::NotEncoded(String::from("e")))) {
        PollerInput::RawFailed(e) => assert_eq!(e.cause, FailureCause::EventEncoding),
        _ => panic!("the event was not encoded"),
    }
    match resolve(PollerEvent::RawReturned(RawOutcome::Undecodable(String::from("e")))) {
        PollerInput::RawReplied(Err(e)) => assert_eq!(e.cause, FailureCause::ResponseDecoding),
        _ => panic!("the reply was not decoded"),
    }
    assert!(matches!(
        resolve(PollerEvent::RawReturned(RawOutcome::Replied(vec![1]))),
        PollerInput::RawReplied(Ok(_))
    ));
}
