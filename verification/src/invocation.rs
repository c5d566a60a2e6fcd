//! The values exchanged with the runtime endpoint: the event that a poll
//! retrieves, and the response or error reported for it.

use vstd::prelude::*;
use vstd::string::*;
use crate::text::{clone_option, option_slice_text, option_text};

verus! {

/// What an invocation event holds.
pub struct InvocationEventView {
    pub body: Seq<u8>,
    pub request_id: Option<Seq<char>>,
    pub trace_id: Option<Seq<char>>,
}

/// Represents an invocation event.
#[derive(Debug)]
pub struct InvocationEvent {
    body: Vec<u8>,
    request_id: Option<String>,
    trace_id: Option<String>,
}

impl View for InvocationEvent {
    type V = InvocationEventView;

    closed spec fn view(&self) -> InvocationEventView {
        InvocationEventView {
            body: self.body@,
            request_id: option_text(self.request_id),
            trace_id: option_text(self.trace_id),
        }
    }
}

impl Clone for InvocationEvent {
    fn clone(&self) -> (r: Self)
        ensures
            r@ == self@,
    {
        InvocationEvent {
            body: self.body.clone(),
            request_id: clone_option(&self.request_id),
            trace_id: clone_option(&self.trace_id),
        }
    }
}

impl InvocationEvent {
    /// Returns the event body.
    pub fn body(&self) -> (r: &Vec<u8>)
        ensures
            r@ == self@.body,
    {
        &self.body
    }

    /// Returns any request ID.
    pub fn request_id(&self) -> (r: Option<&str>)
        ensures
            option_slice_text(r) == self@.request_id,
    {
        match &self.request_id {
            Some(id) => Some(id.as_str()),
            None => None,
        }
    }

    /// Returns any trace ID.
    pub fn trace_id(&self) -> (r: Option<&str>)
        ensures
            option_slice_text(r) == self@.trace_id,
    {
        match &self.trace_id {
            Some(id) => Some(id.as_str()),
            None => None,
        }
    }

    /// Takes the event apart: its body, any request ID and any trace ID.
    pub fn into_parts(self) -> (r: (Vec<u8>, Option<String>, Option<String>))
        ensures
            r.0@ == self@.body,
            option_text(r.1) == self@.request_id,
            option_text(r.2) == self@.trace_id,
    {
        (self.body, self.request_id, self.trace_id)
    }
}

/// Builds an `InvocationEvent`.
#[derive(Debug)]
pub struct InvocationEventBuilder {
    body: Vec<u8>,
    request_id: Option<String>,
    trace_id: Option<String>,
}

impl View for InvocationEventBuilder {
    type V = InvocationEventView;

    closed spec fn view(&self) -> InvocationEventView {
        InvocationEventView {
            body: self.body@,
            request_id: option_text(self.request_id),
            trace_id: option_text(self.trace_id),
        }
    }
}

impl InvocationEventBuilder {
    /// Creates a new `InvocationEventBuilder` with the specified body.
    pub fn new(body: Vec<u8>) -> (r: Self)
        ensures
            r@ == (InvocationEventView { body: body@, request_id: None, trace_id: None }),
    {
        Self { body, request_id: None, trace_id: None }
    }

    /// Adds the specified request ID to the builder.
    pub fn request_id(self, request_id: &str) -> (r: Self)
        ensures
            r@ == (InvocationEventView { request_id: Some(request_id@), ..self@ }),
    {
        Self { body: self.body, request_id: Some(request_id.to_owned()), trace_id: self.trace_id }
    }

    /// Adds the specified trace ID to the builder.
    pub fn trace_id(self, trace_id: &str) -> (r: Self)
        ensures
            r@ == (InvocationEventView { trace_id: Some(trace_id@), ..self@ }),
    {
        Self { body: self.body, request_id: self.request_id, trace_id: Some(trace_id.to_owned()) }
    }

    /// Builds an `InvocationEvent`, consuming this builder.
    pub fn build(self) -> (r: InvocationEvent)
        ensures
            r@ == self@,
    {
        InvocationEvent { body: self.body, request_id: self.request_id, trace_id: self.trace_id }
    }
}

/// What an invocation response holds.
pub struct InvocationResponseView {
    pub body: Seq<u8>,
    pub request_id: Seq<char>,
}

/// Represents an invocation response.
#[derive(Debug)]
pub struct InvocationResponse {
    body: Vec<u8>,
    request_id: String,
}

impl View for InvocationResponse {
    type V = InvocationResponseView;

    closed spec fn view(&self) -> InvocationResponseView {
        InvocationResponseView { body: self.body@, request_id: self.request_id@ }
    }
}

impl InvocationResponse {
    /// Creates a new `InvocationResponse` with the specified body and request ID.
    pub fn new(body: Vec<u8>, request_id: &str) -> (r: Self)
        ensures
            r@ == (InvocationResponseView { body: body@, request_id: request_id@ }),
    {
        Self { body, request_id: request_id.to_owned() }
    }

    /// Returns the body.
    pub fn body(&self) -> (r: &[u8])
        ensures
            r@ == self@.body,
    {
        self.body.as_slice()
    }

    /// Returns the request ID.
    pub fn request_id(&self) -> (r: &str)
        ensures
            r@ == self@.request_id,
    {
        self.request_id.as_str()
    }
}

/// What an invocation error holds.
pub struct InvocationErrorView {
    pub message: Seq<char>,
    pub request_id: Seq<char>,
}

/// Represents an invocation error: the text of the failure and the request
/// that it is reported for.
#[derive(Debug)]
pub struct InvocationError {
    message: String,
    request_id: String,
}

impl View for InvocationError {
    type V = InvocationErrorView;

    closed spec fn view(&self) -> InvocationErrorView {
        InvocationErrorView { message: self.message@, request_id: self.request_id@ }
    }
}

impl InvocationError {
    /// Creates a new `InvocationError` with the specified error text and request ID.
    pub fn new(message: String, request_id: &str) -> (r: Self)
        ensures
            r@ == (InvocationErrorView { message: message@, request_id: request_id@ }),
    {
        Self { message, request_id: request_id.to_owned() }
    }

    /// Returns the error message.
    pub fn error_message(&self) -> (r: String)
        ensures
            r@ == self@.message,
    {
        self.message.clone()
    }

    /// Returns the request ID.
    pub fn request_id(&self) -> (r: &str)
        ensures
            r@ == self@.request_id,
    {
        self.request_id.as_str()
    }
}

} // verus!
