//! The failures of one poll cycle, with the text that is reported for each.

use vstd::prelude::*;
use vstd::string::*;
use crate::text::join;

verus! {

/// The classes of failure that a cycle tells apart.
#[derive(Clone, Copy, Debug, PartialEq, Eq, Structural)]
pub enum ErrorKind {
    /// The payload matched the structured request shape but could not be used.
    Classification,
    /// An envelope could not be encoded or decoded.
    Serialization,
    /// The dispatch target itself reported failure.
    Target,
    /// A correlation identifier was seen again after it had been delivered.
    DuplicateDispatch,
}

/// What went wrong.
#[derive(Clone, Copy, Debug, PartialEq, Eq, Structural)]
pub enum FailureCause {
    /// The structured request lacks its method.
    MissingMethod,
    /// The structured request lacks its path.
    MissingPath,
    /// The request body is marked as base64 and does not decode.
    BodyEncoding,
    /// The request body is marked as base64 and is too long for the decoder.
    BodyTooLarge,
    /// The HTTP request could not be encoded for the target.
    RequestEncoding,
    /// The target failed on the HTTP request.
    TargetHttp,
    /// The target's reply could not be decoded.
    ResponseDecoding,
    /// The response body is too long for the base64 encoder.
    ResponseTooLarge,
    /// The structured response could not be encoded.
    ResponseEncoding,
    /// The raw event could not be encoded for the target.
    EventEncoding,
    /// The target failed on the raw event.
    TargetEvent,
    /// The correlation identifier had been delivered before.
    Duplicate,
}

/// The text that a failure of the given cause starts with.
pub open spec fn cause_prefix(cause: FailureCause) -> Seq<char> {
    match cause {
        FailureCause::MissingMethod => "Missing method in ALB request"@,
        FailureCause::MissingPath => "Missing path in ALB request"@,
        FailureCause::BodyEncoding => ""@,
        FailureCause::BodyTooLarge => "Request body too large to decode"@,
        FailureCause::RequestEncoding => "Failed to serialize HTTP request: "@,
        FailureCause::TargetHttp => "Guest failed to handle HTTP request: "@,
        FailureCause::ResponseDecoding => "Failed to deserialize HTTP response: "@,
        FailureCause::ResponseTooLarge => "Response body too large to encode"@,
        FailureCause::ResponseEncoding => "Failed to serialize ALB response: "@,
        FailureCause::EventEncoding => "Failed to serialize Lambda raw event: "@,
        FailureCause::TargetEvent => "Guest failed to handle Lambda event: "@,
        FailureCause::Duplicate => "Already dispatched: "@,
    }
}

/// The class that a cause belongs to.
pub open spec fn cause_kind(cause: FailureCause) -> ErrorKind {
    match cause {
        FailureCause::MissingMethod => ErrorKind::Classification,
        FailureCause::MissingPath => ErrorKind::Classification,
        FailureCause::BodyEncoding => ErrorKind::Classification,
        FailureCause::BodyTooLarge => ErrorKind::Classification,
        FailureCause::RequestEncoding => ErrorKind::Serialization,
        FailureCause::TargetHttp => ErrorKind::Target,
        FailureCause::ResponseDecoding => ErrorKind::Serialization,
        FailureCause::ResponseTooLarge => ErrorKind::Serialization,
        FailureCause::ResponseEncoding => ErrorKind::Serialization,
        FailureCause::EventEncoding => ErrorKind::Serialization,
        FailureCause::TargetEvent => ErrorKind::Target,
        FailureCause::Duplicate => ErrorKind::DuplicateDispatch,
    }
}

/// What a dispatch error holds.
pub struct DispatchErrorView {
    pub cause: FailureCause,
    pub detail: Seq<char>,
}

impl DispatchErrorView {
    /// The text that is logged and reported for the failure: the cause's
    /// prefix, then the detail.
    pub open spec fn message(self) -> Seq<char> {
        cause_prefix(self.cause) + self.detail
    }

    /// A failure without detail.
    pub open spec fn bare(cause: FailureCause) -> DispatchErrorView {
        DispatchErrorView { cause, detail: Seq::empty() }
    }
}

/// What a result of bytes holds.
pub open spec fn bytes_outcome(r: Result<Vec<u8>, DispatchError>) -> Result<
    Seq<u8>,
    DispatchErrorView,
> {
    match r {
        Ok(bytes) => Ok(bytes@),
        Err(e) => Err(e@),
    }
}

/// A failure of one poll cycle: its cause, and the text that the failing
/// party gave (empty where it gave none).
#[derive(Debug)]
pub struct DispatchError {
    pub cause: FailureCause,
    pub detail: String,
}

impl View for DispatchError {
    type V = DispatchErrorView;

    open spec fn view(&self) -> DispatchErrorView {
        DispatchErrorView { cause: self.cause, detail: self.detail@ }
    }
}

impl DispatchError {
    /// A failure of the given cause with the given detail.
    pub fn new(cause: FailureCause, detail: String) -> (r: Self)
        ensures
            r@ == (DispatchErrorView { cause, detail: detail@ }),
    {
        DispatchError { cause, detail }
    }

    /// A failure of the given cause without detail.
    pub fn bare(cause: FailureCause) -> (r: Self)
        ensures
            r@ == DispatchErrorView::bare(cause),
    {
        DispatchError { cause, detail: String::new() }
    }

    /// Attributes what an encoder returned: its bytes, or a failure of the
    /// given cause with the encoder's text.
    pub fn attribute(outcome: Result<Vec<u8>, String>, cause: FailureCause) -> (r: Result<
        Vec<u8>,
        Self,
    >)
        ensures
            match outcome {
                Ok(bytes) => bytes_outcome(r) == Ok::<Seq<u8>, DispatchErrorView>(bytes@),
                Err(reason) => bytes_outcome(r) == Err::<Seq<u8>, DispatchErrorView>(
                    DispatchErrorView { cause, detail: reason@ },
                ),
            },
    {
        match outcome {
            Ok(bytes) => Ok(bytes),
            Err(reason) => Err(DispatchError { cause, detail: reason }),
        }
    }

    /// The class of the failure.
    pub fn kind(&self) -> (r: ErrorKind)
        ensures
            r == cause_kind(self@.cause),
    {
        match self.cause {
            FailureCause::MissingMethod => ErrorKind::Classification,
            FailureCause::MissingPath => ErrorKind::Classification,
            FailureCause::BodyEncoding => ErrorKind::Classification,
            FailureCause::BodyTooLarge => ErrorKind::Classification,
            FailureCause::RequestEncoding => ErrorKind::Serialization,
            FailureCause::TargetHttp => ErrorKind::Target,
            FailureCause::ResponseDecoding => ErrorKind::Serialization,
            FailureCause::ResponseTooLarge => ErrorKind::Serialization,
            FailureCause::ResponseEncoding => ErrorKind::Serialization,
            FailureCause::EventEncoding => ErrorKind::Serialization,
            FailureCause::TargetEvent => ErrorKind::Target,
            FailureCause::Duplicate => ErrorKind::DuplicateDispatch,
        }
    }

    /// The text that is logged and reported for the failure.
    pub fn message(&self) -> (r: String)
        ensures
            r@ == self@.message(),
    {
        let prefix = match self.cause {
            FailureCause::MissingMethod => "Missing method in ALB request",
            FailureCause::MissingPath => "Missing path in ALB request",
            FailureCause::BodyEncoding => "",
            FailureCause::BodyTooLarge => "Request body too large to decode",
            FailureCause::RequestEncoding => "Failed to serialize HTTP request: ",
            FailureCause::TargetHttp => "Guest failed to handle HTTP request: ",
            FailureCause::ResponseDecoding => "Failed to deserialize HTTP response: ",
            FailureCause::ResponseTooLarge => "Response body too large to encode",
            FailureCause::ResponseEncoding => "Failed to serialize ALB response: ",
            FailureCause::EventEncoding => "Failed to serialize Lambda raw event: ",
            FailureCause::TargetEvent => "Guest failed to handle Lambda event: ",
            FailureCause::Duplicate => "Already dispatched: ",
        };
        join(prefix, self.detail.as_str())
    }
}

} // verus!
