use lambda_runtime_provider::client::{
    LambdaInvocationError, LambdaInvocationEvent, LambdaInvocationResponse,
};
use lambda_runtime_provider::invocation::{InvocationError, InvocationResponse};
use lambda_runtime_provider::wire::{
    error_post, event_from_reply, invocation_error_url, invocation_response_url, is_success,
    next_invocation_url, response_post, user_agent, PollReply, REQUEST_ID_HEADER,
    TRACE_ID_HEADER, TRACE_ID_VARIABLE,
};

fn poll_reply(status: u16, body: &[u8], request_id: Option<&str>, trace_id: Option<&str>) -> PollReply {
    PollReply {
        status,
        body: body.to_vec(),
        request_id: request_id.map(String::from),
        trace_id: trace_id.map(String::from),
    }
}

#[test]
fn urls_follow_the_path_templates() {
    assert_eq!(
        next_invocation_url("127.0.0.1:9001"),
        "http://127.0.0.1:9001/2018-06-01/runtime/invocation/next"
    );
    assert_eq!(
        invocation_response_url("127.0.0.1:9001", "abc-1"),
        "http://127.0.0.1:9001/2018-06-01/runtime/invocation/abc-1/response"
    );
    assert_eq!(
        invocation_error_url("localhost:80", "abc-1"),
        "http://localhost:80/2018-06-01/runtime/invocation/abc-1/error"
    );
    assert_eq!(next_invocation_url(""), "http:///2018-06-01/runtime/invocation/next");
}

#[test]
fn header_and_variable_names_are_the_protocol_names() {
    assert_eq!(REQUEST_ID_HEADER, "Lambda-Runtime-Aws-Request-Id");
    assert_eq!(TRACE_ID_HEADER, "Lambda-Runtime-Trace-Id");
    assert_eq!(TRACE_ID_VARIABLE, "_X_AMZN_TRACE_ID");
    assert_eq!(user_agent("0.3.0"), "AWS_Lambda_waSCC/0.3.0");
}

#[test]
fn success_is_any_status_from_200_to_299() {
    assert!(!is_success(0));
    assert!(!is_success(199));
    assert!(is_success(200));
    assert!(is_success(204));
    assert!(is_success(299));
    assert!(!is_success(300));
    assert!(!is_success(404));
    assert!(!is_success(500));
    assert!(!is_success(u16::MAX));
}

#[test]
fn status_agrees_with_the_http_client() {
    for code in 100u16..600 {
        let theirs = reqwest::StatusCode::from_u16(code).unwrap().is_success();
        assert_eq!(is_success(code), theirs, "status {}", code);
    }
}

#[test]
fn not_found_reply_is_no_event() {
    assert!(event_from_reply(poll_reply(404, b"nothing here", Some("abc-1"), None)).is_none());
    assert!(event_from_reply(poll_reply(500, b"", None, None)).is_none());
    assert!(event_from_reply(poll_reply(301, b"", None, None)).is_none());
}

#[test]
fn successful_reply_becomes_an_event() {
    let event = event_from_reply(poll_reply(200, b"{\"k\":1}", Some("abc-1"), Some("Root=1"))).unwrap();
    assert_eq!(event.body().as_slice(), b"{\"k\":1}");
    assert_eq!(event.request_id(), Some("abc-1"));
    assert_eq!(event.trace_id(), Some("Root=1"));
    let bare = event_from_reply(poll_reply(202, b"", None, None)).unwrap();
    assert!(bare.body().is_empty());
    assert_eq!(bare.request_id(), None);
    assert_eq!(bare.trace_id(), None);
    let traced = event_from_reply(poll_reply(200, b"x", None, Some("t"))).unwrap();
    assert_eq!(traced.request_id(), None);
    assert_eq!(traced.trace_id(), Some("t"));
}

#[test]
fn response_is_posted_verbatim() {
    let response = InvocationResponse::new(vec![0, 159, 146, 150], "abc-1");
    let post = response_post("host:1", &response);
    assert_eq!(post.url, "http://host:1/2018-06-01/runtime/invocation/abc-1/response");
    assert_eq!(post.body, vec![0u8, 159, 146, 150]);
    assert!(!post.json);
}

#[test]
fn error_is_posted_as_a_json_document() {
    let error = InvocationError::new(String::from("boom"), "abc-9");
    let post = error_post("host:1", &error).unwrap();
    assert_eq!(post.url, "http://host:1/2018-06-01/runtime/invocation/abc-9/error");
    assert_eq!(post.body, b"{\"errorMessage\":\"boom\"}".to_vec());
    assert!(post.json);
}

#[test]
fn error_document_escapes_the_message() {
    let error = InvocationError::new(String::from("say \"hi\"\n\\"), "r");
    let post = error_post("h", &error).unwrap();
    assert_eq!(post.body, b"{\"errorMessage\":\"say \\\"hi\\\"\\n\\\\\"}".to_vec());
    let value: serde_json::Value = serde_json::from_slice(&post.body).unwrap();
    assert_eq!(value.get("errorMessage").and_then(|m| m.as_str()), Some("say \"hi\"\n\\"));
    assert_eq!(value.as_object().map(|o| o.len()), Some(1));
}

#[test]
fn lambda_event_has_no_ids_when_new() {
    let event = LambdaInvocationEvent::new(vec![4, 5]);
    assert_eq!(event.body(), &vec![4u8, 5]);
    assert_eq!(event.request_id(), None);
    assert_eq!(event.trace_id(), None);
}

#[test]
fn lambda_event_from_reply_takes_the_headers() {
    let event =
        LambdaInvocationEvent::from_reply(poll_reply(200, b"e", Some("id-1"), Some("tr-1"))).unwrap();
    assert_eq!(event.body().as_slice(), b"e");
    assert_eq!(event.request_id(), Some("id-1"));
    assert_eq!(event.trace_id(), Some("tr-1"));
    assert!(LambdaInvocationEvent::from_reply(poll_reply(404, b"e", Some("id-1"), None)).is_none());
    assert!(LambdaInvocationEvent::from_reply(poll_reply(199, b"", None, None)).is_none());
}

#[test]
fn lambda_response_without_request_id_is_not_sent() {
    let response = LambdaInvocationResponse::new(b"r".to_vec());
    assert!(response.post("host:1").is_none());
}

#[test]
fn lambda_response_with_request_id_is_posted_verbatim() {
    let response = LambdaInvocationResponse::new(b"r".to_vec()).request_id("id-7");
    let post = response.post("host:1").unwrap();
    assert_eq!(post.url, "http://host:1/2018-06-01/runtime/invocation/id-7/response");
    assert_eq!(post.body, b"r".to_vec());
    assert!(!post.json);
}

#[test]
fn lambda_error_without_request_id_is_not_sent() {
    let error = LambdaInvocationError::new(String::from("nope"));
    assert!(error.post("host:1").is_none());
}

#[test]
fn lambda_error_with_request_id_is_posted_as_json() {
    let error = LambdaInvocationError::new(String::from("nope")).request_id("id-8");
    let post = error.post("host:1").unwrap().unwrap();
    assert_eq!(post.url, "http://host:1/2018-06-01/runtime/invocation/id-8/error");
    assert_eq!(post.body, b"{\"errorMessage\":\"nope\"}".to_vec());
    assert!(post.json);
}
