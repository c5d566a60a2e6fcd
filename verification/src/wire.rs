//! The wire protocol of the runtime endpoint: where the next event is fetched,
//! what a poll reply means, and what is posted for a response or an error.

use vstd::prelude::*;
use vstd::slice::slice_to_vec;
use vstd::string::*;
use crate::codec::{encode_json_member, json_member};
use crate::invocation::{
    InvocationError, InvocationEvent, InvocationEventBuilder, InvocationEventView,
    InvocationResponse,
};
use crate::text::{join, option_text};

verus! {

/// The response header that carries the correlation identifier of an event.
pub const REQUEST_ID_HEADER: &'static str = "Lambda-Runtime-Aws-Request-Id";

/// The response header that carries the trace identifier of an event.
pub const TRACE_ID_HEADER: &'static str = "Lambda-Runtime-Trace-Id";

/// The environment variable in which the trace identifier is exported.
pub const TRACE_ID_VARIABLE: &'static str = "_X_AMZN_TRACE_ID";

/// What the endpoint answered to a poll, as far as the bridge reads it.
#[derive(Debug)]
pub struct PollReply {
    /// The HTTP status code.
    pub status: u16,
    /// The body of the reply.
    pub body: Vec<u8>,
    /// The correlation identifier header, if it was there.
    pub request_id: Option<String>,
    /// The trace identifier header, if it was there.
    pub trace_id: Option<String>,
}

/// What is posted to the endpoint.
#[derive(Debug)]
pub struct Post {
    /// The address that the body is posted to.
    pub url: String,
    /// The body.
    pub body: Vec<u8>,
    /// Whether the body is a JSON document.
    pub json: bool,
}

/// Whether a status code stands for success.
pub open spec fn is_success_status(status: u16) -> bool {
    200 <= status < 300
}

/// The base address of the invocation API at an endpoint.
pub open spec fn invocation_base(endpoint: Seq<char>) -> Seq<char> {
    "http://"@ + endpoint + "/2018-06-01/runtime/invocation/"@
}

/// The address from which the next event is fetched.
pub open spec fn next_url(endpoint: Seq<char>) -> Seq<char> {
    invocation_base(endpoint) + "next"@
}

/// The address to which the response for a request is posted.
pub open spec fn response_url(endpoint: Seq<char>, request_id: Seq<char>) -> Seq<char> {
    invocation_base(endpoint) + request_id + "/response"@
}

/// The address to which the error for a request is posted.
pub open spec fn error_url(endpoint: Seq<char>, request_id: Seq<char>) -> Seq<char> {
    invocation_base(endpoint) + request_id + "/error"@
}

/// The event that a poll reply stands for, if any.
pub open spec fn event_of(reply: PollReply) -> Option<InvocationEventView> {
    if is_success_status(reply.status) {
        Some(
            InvocationEventView {
                body: reply.body@,
                request_id: option_text(reply.request_id),
                trace_id: option_text(reply.trace_id),
            },
        )
    } else {
        None
    }
}

/// Whether a status code stands for success: any code from 200 to 299.
pub fn is_success(status: u16) -> (r: bool)
    ensures
        r == is_success_status(status),
{
    300 > status && status >= 200
}

fn base(endpoint: &str) -> (r: String)
    ensures
        r@ == invocation_base(endpoint@),
{
    let mut url = join("http://", endpoint);
    url.append("/2018-06-01/runtime/invocation/");
    url
}

/// Returns the address from which the next event is fetched.
pub fn next_invocation_url(endpoint: &str) -> (r: String)
    ensures
        r@ == next_url(endpoint@),
{
    let mut url = base(endpoint);
    url.append("next");
    url
}

/// Returns the address to which the response for a request is posted.
pub fn invocation_response_url(endpoint: &str, request_id: &str) -> (r: String)
    ensures
        r@ == response_url(endpoint@, request_id@),
{
    let mut url = base(endpoint);
    url.append(request_id);
    url.append("/response");
    url
}

/// Returns the address to which the error for a request is posted.
pub fn invocation_error_url(endpoint: &str, request_id: &str) -> (r: String)
    ensures
        r@ == error_url(endpoint@, request_id@),
{
    let mut url = base(endpoint);
    url.append(request_id);
    url.append("/error");
    url
}

/// Makes an invocation event of a poll reply. Any status other than success
/// means that no event is available this cycle.
pub fn event_from_reply(reply: PollReply) -> (r: Option<InvocationEvent>)
    ensures
        match r {
            Some(event) => event_of(reply) == Some(event@),
            None => event_of(reply) is None,
        },
{
    if !is_success(reply.status) {
        return None;
    }
    let mut builder = InvocationEventBuilder::new(reply.body);
    if let Some(request_id) = reply.request_id {
        builder = builder.request_id(request_id.as_str());
    }
    if let Some(trace_id) = reply.trace_id {
        builder = builder.trace_id(trace_id.as_str());
    }
    Some(builder.build())
}

/// The name under which the client of the given version presents itself.
pub fn user_agent(version: &str) -> (r: String)
    ensures
        r@ == "AWS_Lambda_waSCC/"@ + version@,
{
    join("AWS_Lambda_waSCC/", version)
}

/// The document that reports an error message: a JSON object whose only
/// member, `errorMessage`, is the message.
pub open spec fn error_document(message: Seq<char>) -> Result<Seq<u8>, Seq<char>> {
    json_member("errorMessage"@, message)
}

/// What is posted for a response: its body, verbatim, at the response address
/// of its request.
pub fn response_post(endpoint: &str, response: &InvocationResponse) -> (r: Post)
    ensures
        r.url@ == response_url(endpoint@, response@.request_id),
        r.body@ == response@.body,
        !r.json,
{
    let url = invocation_response_url(endpoint, response.request_id());
    let body = slice_to_vec(response.body());
    Post { url, body, json: false }
}

/// What is posted for an error: the error document of its message, at the
/// error address of its request. Fails with the encoder's text where the
/// document cannot be made.
pub fn error_post(endpoint: &str, error: &InvocationError) -> (r: Result<Post, String>)
    ensures
        match r {
            Ok(post) => post.url@ == error_url(endpoint@, error@.request_id) && post.json
                && error_document(error@.message) == Ok::<Seq<u8>, Seq<char>>(post.body@),
            Err(reason) => error_document(error@.message) == Err::<Seq<u8>, Seq<char>>(reason@),
        },
{
    let message = error.error_message();
    match encode_json_member("errorMessage", message.as_str()) {
        Ok(body) => Ok(
            Post { url: invocation_error_url(endpoint, error.request_id()), body, json: true },
        ),
        Err(reason) => Err(reason),
    }
}

} // verus!
