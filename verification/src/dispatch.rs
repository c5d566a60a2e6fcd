//! The two halves of an HTTP-request dispatch: what is made of a payload
//! before the handler is called, and what is made of the handler's reply.

use vstd::prelude::*;
use vstd::string::*;
use crate::alb::{
    alb_response_from_http, classify, encodable_limit, http_request_from_alb, request_failure,
    AlbRequest,
};
use crate::codec::{
    alb_request_decoding, decode_http_response, encode_alb_response, encode_http_request,
    http_response_decoding, request_fields, response_fields, AlbRequestFields, HttpResponseFields,
};
use crate::failure::{bytes_outcome, DispatchError, DispatchErrorView, FailureCause};
use crate::http::HttpResponse;

verus! {

/// What an attempt holds.
pub enum HttpAttemptView {
    NotHttp,
    Failed(DispatchErrorView),
    Ready(Seq<u8>),
}

/// How the attempt to treat a payload as an HTTP-shaped request ended, before
/// the handler was called.
#[derive(Debug)]
pub enum HttpAttempt {
    /// The payload does not decode into the structured shape.
    NotHttp,
    /// The payload decodes, but no message for the handler could be made of it.
    Failed(DispatchError),
    /// The message that is handed to the handler.
    Ready(Vec<u8>),
}

impl View for HttpAttempt {
    type V = HttpAttemptView;

    open spec fn view(&self) -> HttpAttemptView {
        match self {
            HttpAttempt::NotHttp => HttpAttemptView::NotHttp,
            HttpAttempt::Failed(e) => HttpAttemptView::Failed(e@),
            HttpAttempt::Ready(message) => HttpAttemptView::Ready(message@),
        }
    }
}

/// What an attempt on a request with the given fields may come to. Where
/// the fields show a failure, the attempt fails with it. Where they show none,
/// the request is encoded for the handler, and the encoder decides: the
/// attempt is ready, or fails with the encoder's text.
pub open spec fn attempt_on_fields(fields: AlbRequestFields, attempt: HttpAttemptView) -> bool {
    match request_failure(fields) {
        Some(e) => attempt == HttpAttemptView::Failed(e),
        None => attempt is Ready || (attempt matches HttpAttemptView::Failed(e) && e.cause
            == FailureCause::RequestEncoding),
    }
}

/// What an attempt on a payload may come to. A payload that does not decode
/// into the structured shape is no HTTP request. For one that decodes, its
/// fields decide.
pub open spec fn attempt_on(body: Seq<u8>, attempt: HttpAttemptView) -> bool {
    match alb_request_decoding(body) {
        None => attempt is NotHttp,
        Some(fields) => attempt_on_fields(fields, attempt),
    }
}

/// What may be made of a response with the given fields. A response whose
/// body is too long fails with that cause. Any other response is encoded, and
/// the encoder decides: there is a document, or the encoder's text.
pub open spec fn reply_on_fields(
    fields: HttpResponseFields,
    outcome: Result<Seq<u8>, DispatchErrorView>,
) -> bool {
    if fields.body.len() > encodable_limit() {
        outcome == Err::<Seq<u8>, DispatchErrorView>(
            DispatchErrorView::bare(FailureCause::ResponseTooLarge),
        )
    } else {
        outcome is Ok || (outcome matches Err(e) && e.cause == FailureCause::ResponseEncoding)
    }
}

/// What may be made of the handler's reply. A reply that does not decode
/// fails with the decoder's text. For one that decodes, its fields decide.
pub open spec fn reply_on(reply: Seq<u8>, outcome: Result<Seq<u8>, DispatchErrorView>) -> bool {
    match http_response_decoding(reply) {
        Err(reason) => outcome == Err::<Seq<u8>, DispatchErrorView>(
            DispatchErrorView { cause: FailureCause::ResponseDecoding, detail: reason },
        ),
        Ok(fields) => reply_on_fields(fields, outcome),
    }
}

/// Makes the handler's message of a decoded request. A request that lacks a
/// required field, or whose body does not decode, fails with that cause. Any
/// other request is converted by `http_request_from_alb` and then encoded;
/// whether the encoder accepts it is the encoder's decision.
pub fn prepare_http_dispatch(request: AlbRequest) -> (r: HttpAttempt)
    ensures
        attempt_on_fields(request_fields(request), r@),
{
    match http_request_from_alb(request) {
        Err(e) => HttpAttempt::Failed(e),
        Ok(http) => {
            let encoded = encode_http_request(&http);
            match DispatchError::attribute(encoded, FailureCause::RequestEncoding) {
                Ok(message) => HttpAttempt::Ready(message),
                Err(e) => HttpAttempt::Failed(e),
            }
        },
    }
}

/// Attempts to treat a payload as an HTTP-shaped request. A payload that does
/// not decode into the shape is no such request; one that decodes is, whatever
/// it was meant to be.
pub fn attempt_http(body: &[u8]) -> (r: HttpAttempt)
    ensures
        attempt_on(body@, r@),
{
    match classify(body) {
        None => HttpAttempt::NotHttp,
        Some(request) => prepare_http_dispatch(request),
    }
}

/// Makes the bytes that are posted to the endpoint of the handler's HTTP
/// response. A response whose body is too long fails with that cause. Any other
/// response is converted by `alb_response_from_http` and then encoded; whether
/// the encoder accepts it is the encoder's decision.
pub fn encode_http_reply(response: HttpResponse) -> (r: Result<Vec<u8>, DispatchError>)
    ensures
        reply_on_fields(response_fields(response), bytes_outcome(r)),
{
    match alb_response_from_http(response) {
        Err(e) => Err(e),
        Ok(alb) => DispatchError::attribute(
            encode_alb_response(&alb),
            FailureCause::ResponseEncoding,
        ),
    }
}

/// Interprets what the handler returned for an HTTP request: the bytes that
/// are posted to the endpoint, or the failure that is reported in their place.
pub fn interpret_http_reply(reply: &[u8]) -> (r: Result<Vec<u8>, DispatchError>)
    ensures
        reply_on(reply@, bytes_outcome(r)),
{
    match decode_http_response(reply) {
        Err(reason) => Err(DispatchError::new(FailureCause::ResponseDecoding, reason)),
        Ok(response) => encode_http_reply(response),
    }
}

} // verus!
