//! The load-balancer shape of an event: the request that a payload may decode
//! into, the response that is returned for it, and the conversions between
//! that shape and the handler's HTTP request and response.

use vstd::prelude::*;
use vstd::string::*;
use vstd::utf8::encode_utf8;
use crate::codec::{
    alb_request_decoding, base64_decode, base64_decoding, base64_encode, base64_encoding,
    decode_alb_request, form_urlencode, form_urlencoding, request_fields, AlbRequestFields,
};
use crate::failure::{bytes_outcome, DispatchError, DispatchErrorView, FailureCause};
use crate::http::{pairs_text, HttpRequest, HttpRequestView, HttpResponse, Pairs};
use crate::text::option_text;

verus! {

/// What the bridge reads of a request that a load balancer proxied.
#[derive(Debug)]
pub struct AlbRequest {
    pub http_method: Option<String>,
    pub path: Option<String>,
    pub query_string_parameters: Pairs,
    pub headers: Pairs,
    pub is_base64_encoded: bool,
    pub body: Option<String>,
}

/// What a load-balancer response holds.
pub struct AlbResponseView {
    pub status_code: int,
    pub status_description: Option<Seq<char>>,
    pub headers: Seq<(Seq<char>, Seq<char>)>,
    pub body: Option<Seq<char>>,
    pub is_base64_encoded: bool,
}

/// The response that is returned to the load balancer.
#[derive(Debug)]
pub struct AlbResponse {
    pub status_code: i64,
    pub status_description: Option<String>,
    pub headers: Pairs,
    pub body: Option<String>,
    pub is_base64_encoded: bool,
}

impl View for AlbResponse {
    type V = AlbResponseView;

    open spec fn view(&self) -> AlbResponseView {
        AlbResponseView {
            status_code: self.status_code as int,
            status_description: option_text(self.status_description),
            headers: pairs_text(self.headers@),
            body: option_text(self.body),
            is_base64_encoded: self.is_base64_encoded,
        }
    }
}

/// The longest text, in bytes, that is handed to the base64 decoder.
pub open spec fn decodable_limit() -> int {
    usize::MAX as int / 4
}

/// The longest body, in bytes, that is handed to the base64 encoder.
pub open spec fn encodable_limit() -> int {
    usize::MAX as int / 2
}

/// The bytes that a request body stands for: the decoded bytes where the
/// request says that the body is base64, else the bytes of the text itself,
/// and none where there is no body.
pub open spec fn body_bytes(body: Option<Seq<char>>, is_base64_encoded: bool) -> Result<
    Seq<u8>,
    DispatchErrorView,
> {
    match body {
        None => Ok(Seq::empty()),
        Some(text) => if !is_base64_encoded {
            Ok(encode_utf8(text))
        } else if encode_utf8(text).len() > decodable_limit() {
            Err(DispatchErrorView::bare(FailureCause::BodyTooLarge))
        } else {
            match base64_decoding(text) {
                Ok(bytes) => Ok(bytes),
                Err(reason) => Err(
                    DispatchErrorView { cause: FailureCause::BodyEncoding, detail: reason },
                ),
            }
        },
    }
}

/// Why no HTTP request can be made of a load-balancer request, if so. The
/// method is asked for first, then the path, then the body.
pub open spec fn request_failure(fields: AlbRequestFields) -> Option<DispatchErrorView> {
    if fields.http_method is None {
        Some(DispatchErrorView::bare(FailureCause::MissingMethod))
    } else if fields.path is None {
        Some(DispatchErrorView::bare(FailureCause::MissingPath))
    } else {
        match body_bytes(fields.body, fields.is_base64_encoded) {
            Err(e) => Some(e),
            Ok(_) => None,
        }
    }
}

/// The HTTP request that a load-balancer request stands for, or why there is
/// none.
pub open spec fn http_request_of(request: AlbRequest) -> Result<
    HttpRequestView,
    DispatchErrorView,
> {
    match request_failure(request_fields(request)) {
        Some(e) => Err(e),
        None => Ok(
            HttpRequestView {
                method: request.http_method->0@,
                path: request.path->0@,
                query_string: form_urlencoding(pairs_text(request.query_string_parameters@)),
                header: pairs_text(request.headers@),
                body: body_bytes(option_text(request.body), request.is_base64_encoded)->Ok_0,
            },
        ),
    }
}

/// The load-balancer response that an HTTP response stands for. Its body is
/// always base64, whatever the encoding of the request was.
pub open spec fn alb_response_of(response: HttpResponse) -> Result<
    AlbResponseView,
    DispatchErrorView,
> {
    if response.body@.len() > encodable_limit() {
        Err(DispatchErrorView::bare(FailureCause::ResponseTooLarge))
    } else {
        Ok(
            AlbResponseView {
                status_code: response.status_code as int,
                status_description: Some(response.status@),
                headers: pairs_text(response.header@),
                body: Some(base64_encoding(response.body@)),
                is_base64_encoded: true,
            },
        )
    }
}

/// Attempts to read a payload as a load-balancer request. The decision is
/// structural: any payload that decodes into the shape is such a request.
pub fn classify(body: &[u8]) -> (r: Option<AlbRequest>)
    ensures
        match r {
            Some(request) => alb_request_decoding(body@) == Some(request_fields(request)),
            None => alb_request_decoding(body@) is None,
        },
{
    decode_alb_request(body)
}

/// Applies the body encoding rule of a load-balancer request.
pub fn decode_body(body: Option<String>, is_base64_encoded: bool) -> (r: Result<
    Vec<u8>,
    DispatchError,
>)
    ensures
        bytes_outcome(r) == body_bytes(option_text(body), is_base64_encoded),
{
    match body {
        None => Ok(Vec::new()),
        Some(text) => {
            if !is_base64_encoded {
                Ok(text.as_str().as_bytes_vec())
            } else if text.as_str().as_bytes().len() > usize::MAX / 4 {
                Err(DispatchError::bare(FailureCause::BodyTooLarge))
            } else {
                match base64_decode(text.as_str()) {
                    Ok(bytes) => Ok(bytes),
                    Err(reason) => Err(DispatchError::new(FailureCause::BodyEncoding, reason)),
                }
            }
        },
    }
}

/// Converts a load-balancer request into the HTTP request that is handed to
/// the handler.
pub fn http_request_from_alb(request: AlbRequest) -> (r: Result<HttpRequest, DispatchError>)
    ensures
        match r {
            Ok(http) => http_request_of(request) == Ok::<HttpRequestView, DispatchErrorView>(http@),
            Err(e) => http_request_of(request) == Err::<HttpRequestView, DispatchErrorView>(e@),
        },
{
    let query_string = form_urlencode(&request.query_string_parameters);
    let method = match request.http_method {
        Some(method) => method,
        None => { return Err(DispatchError::bare(FailureCause::MissingMethod)); },
    };
    let path = match request.path {
        Some(path) => path,
        None => { return Err(DispatchError::bare(FailureCause::MissingPath)); },
    };
    let body = match decode_body(request.body, request.is_base64_encoded) {
        Ok(body) => body,
        Err(e) => { return Err(e); },
    };
    Ok(HttpRequest { method, path, query_string, header: request.headers, body })
}

/// Converts the handler's HTTP response into the response that is returned to
/// the load balancer.
pub fn alb_response_from_http(response: HttpResponse) -> (r: Result<AlbResponse, DispatchError>)
    ensures
        match r {
            Ok(alb) => alb_response_of(response) == Ok::<AlbResponseView, DispatchErrorView>(alb@),
            Err(e) => alb_response_of(response) == Err::<AlbResponseView, DispatchErrorView>(e@),
        },
{
    if response.body.len() > usize::MAX / 2 {
        return Err(DispatchError::bare(FailureCause::ResponseTooLarge));
    }
    let body = base64_encode(response.body.as_slice());
    Ok(
        AlbResponse {
            status_code: response.status_code as i64,
            status_description: Some(response.status),
            headers: response.header,
            body: Some(body),
            is_base64_encoded: true,
        },
    )
}

} // verus!
