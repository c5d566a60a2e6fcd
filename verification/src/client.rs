//! The values of the client interface in which a response or an error gets
//! its request identifier after it was made, and may be left without one.

use vstd::prelude::*;
use vstd::string::*;
use crate::codec::encode_json_member;
use crate::invocation::InvocationEventView;
use crate::text::{option_slice_text, option_text};
use crate::wire::{
    error_document, error_url, invocation_error_url, invocation_response_url, is_success,
    is_success_status, response_url, PollReply, Post,
};

verus! {

/// Represents an invocation event.
#[derive(Debug)]
pub struct LambdaInvocationEvent {
    body: Vec<u8>,
    request_id: Option<String>,
    trace_id: Option<String>,
}

impl View for LambdaInvocationEvent {
    type V = InvocationEventView;

    closed spec fn view(&self) -> InvocationEventView {
        InvocationEventView {
            body: self.body@,
            request_id: option_text(self.request_id),
            trace_id: option_text(self.trace_id),
        }
    }
}

/// The event that a poll reply stands for, if any.
pub open spec fn lambda_event_of(reply: PollReply) -> Option<InvocationEventView> {
    if is_success_status(reply.status) {
        Some(
            InvocationEventView {
                body: reply.body@,
                request_id: option_text(reply.request_id),
                trace_id: option_text(reply.trace_id),
            },
        )
    } else {
        None
    }
}

impl LambdaInvocationEvent {
    /// Creates a new `LambdaInvocationEvent` with the specified body.
    pub fn new(body: Vec<u8>) -> (r: Self)
        ensures
            r@ == (InvocationEventView { body: body@, request_id: None, trace_id: None }),
    {
        LambdaInvocationEvent { body, request_id: None, trace_id: None }
    }

    /// Makes an event of a poll reply. Any status other than success means
    /// that no event is available.
    pub fn from_reply(reply: PollReply) -> (r: Option<Self>)
        ensures
            match r {
                Some(event) => lambda_event_of(reply) == Some(event@),
                None => lambda_event_of(reply) is None,
            },
    {
        if !is_success(reply.status) {
            return None;
        }
        let mut event = LambdaInvocationEvent::new(reply.body);
        event.request_id = reply.request_id;
        event.trace_id = reply.trace_id;
        Some(event)
    }

    /// Returns the event body.
    pub fn body(&self) -> (r: &Vec<u8>)
        ensures
            r@ == self@.body,
    {
        &self.body
    }

    /// Returns any request ID.
    pub fn request_id(&self) -> (r: Option<&str>)
        ensures
            option_slice_text(r) == self@.request_id,
    {
        match &self.request_id {
            Some(id) => Some(id.as_str()),
            None => None,
        }
    }

    /// Returns any trace ID.
    pub fn trace_id(&self) -> (r: Option<&str>)
        ensures
            option_slice_text(r) == self@.trace_id,
    {
        match &self.trace_id {
            Some(id) => Some(id.as_str()),
            None => None,
        }
    }
}

/// What an invocation response holds.
pub struct LambdaInvocationResponseView {
    pub body: Seq<u8>,
    pub request_id: Option<Seq<char>>,
}

/// Represents an invocation response.
#[derive(Debug)]
pub struct LambdaInvocationResponse {
    body: Vec<u8>,
    request_id: Option<String>,
}

impl View for LambdaInvocationResponse {
    type V = LambdaInvocationResponseView;

    closed spec fn view(&self) -> LambdaInvocationResponseView {
        LambdaInvocationResponseView {
            body: self.body@,
            request_id: option_text(self.request_id),
        }
    }
}

impl LambdaInvocationResponse {
    /// Creates a new `LambdaInvocationResponse` with the specified body.
    pub fn new(body: Vec<u8>) -> (r: Self)
        ensures
            r@ == (LambdaInvocationResponseView { body: body@, request_id: None }),
    {
        LambdaInvocationResponse { body, request_id: None }
    }

    /// Creates a new `LambdaInvocationResponse` with the specified request ID.
    pub fn request_id(self, request_id: &str) -> (r: Self)
        ensures
            r@ == (LambdaInvocationResponseView { request_id: Some(request_id@), ..self@ }),
    {
        LambdaInvocationResponse { body: self.body, request_id: Some(request_id.to_owned()) }
    }

    /// What is posted for the response: its body, verbatim, at the response
    /// address of its request. A response without request identifier cannot
    /// be sent: nothing is posted for it.
    pub fn post(&self, endpoint: &str) -> (r: Option<Post>)
        ensures
            r is Some <==> self@.request_id is Some,
            r matches Some(post) ==> {
                &&& post.url@ == response_url(endpoint@, self@.request_id->0)
                &&& post.body@ == self@.body
                &&& !post.json
            },
    {
        match &self.request_id {
            None => None,
            Some(request_id) => Some(
                Post {
                    url: invocation_response_url(endpoint, request_id.as_str()),
                    body: self.body.clone(),
                    json: false,
                },
            ),
        }
    }
}

/// What an invocation error holds.
pub struct LambdaInvocationErrorView {
    pub message: Seq<char>,
    pub request_id: Option<Seq<char>>,
}

/// Represents an invocation error: the text of the failure, and any request
/// that it is reported for.
#[derive(Debug)]
pub struct LambdaInvocationError {
    message: String,
    request_id: Option<String>,
}

impl View for LambdaInvocationError {
    type V = LambdaInvocationErrorView;

    closed spec fn view(&self) -> LambdaInvocationErrorView {
        LambdaInvocationErrorView {
            message: self.message@,
            request_id: option_text(self.request_id),
        }
    }
}

impl LambdaInvocationError {
    /// Creates a new `LambdaInvocationError` with the specified error text.
    pub fn new(message: String) -> (r: Self)
        ensures
            r@ == (LambdaInvocationErrorView { message: message@, request_id: None }),
    {
        LambdaInvocationError { message, request_id: None }
    }

    /// Creates a new `LambdaInvocationError` with the specified request ID.
    pub fn request_id(self, request_id: &str) -> (r: Self)
        ensures
            r@ == (LambdaInvocationErrorView { request_id: Some(request_id@), ..self@ }),
    {
        LambdaInvocationError { message: self.message, request_id: Some(request_id.to_owned()) }
    }

    /// What is posted for the error: the error document of its message, at
    /// the error address of its request, or the encoder's text where the
    /// document cannot be made. An error without request identifier cannot be
    /// sent: nothing is posted for it.
    pub fn post(&self, endpoint: &str) -> (r: Option<Result<Post, String>>)
        ensures
            r is Some <==> self@.request_id is Some,
            r matches Some(Ok(post)) ==> {
                &&& post.url@ == error_url(endpoint@, self@.request_id->0)
                &&& post.json
                &&& error_document(self@.message) == Ok::<Seq<u8>, Seq<char>>(post.body@)
            },
            r matches Some(Err(reason)) ==> error_document(self@.message) == Err::<
                Seq<u8>,
                Seq<char>,
            >(reason@),
    {
        match &self.request_id {
            None => None,
            Some(request_id) => match encode_json_member("errorMessage", self.message.as_str()) {
                Ok(body) => Some(
                    Ok(
                        Post {
                            url: invocation_error_url(endpoint, request_id.as_str()),
                            body,
                            json: true,
                        },
                    ),
                ),
                Err(reason) => Some(Err(reason)),
            },
        }
    }
}

} // verus!
