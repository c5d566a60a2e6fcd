//! The calls into the crates that encode and decode the bridge's payloads.
//!
//! Nothing here is proved: each function states what the crate it calls is
//! taken to do, and the rest of the library is verified against that.

use vstd::prelude::*;
use vstd::string::*;
use crate::alb::{AlbRequest, AlbResponse};
use crate::http::{
    pairs_map, pairs_text, ActorConfiguration, HttpRequest, HttpResponse, Pairs,
};
use crate::text::option_text;

verus! {

/// What `base64::decode` makes of a text: the bytes that it stands for, or the
/// text of the decoder's error.
pub uninterp spec fn base64_decoding(text: Seq<char>) -> Result<Seq<u8>, Seq<char>>;

/// What `base64::encode` makes of a sequence of bytes.
pub uninterp spec fn base64_encoding(bytes: Seq<u8>) -> Seq<char>;

/// What `url::form_urlencoded::Serializer` makes of a list of pairs that are
/// appended to it in order.
pub uninterp spec fn form_urlencoding(pairs: Seq<(Seq<char>, Seq<char>)>) -> Seq<char>;

/// What the bridge reads of a decoded load-balancer request, its two maps
/// without an order.
pub struct AlbRequestFields {
    pub http_method: Option<Seq<char>>,
    pub path: Option<Seq<char>>,
    pub query_string_parameters: Map<Seq<char>, Seq<char>>,
    pub headers: Map<Seq<char>, Seq<char>>,
    pub is_base64_encoded: bool,
    pub body: Option<Seq<char>>,
}

/// What `serde_json::from_slice` makes of a payload that is decoded into an
/// `aws_lambda_events::event::alb::AlbTargetGroupRequest`: the method, the
/// path, the query parameters, the headers, the body and its encoding flag, or
/// nothing where the payload does not decode.
pub uninterp spec fn alb_request_decoding(body: Seq<u8>) -> Option<AlbRequestFields>;

/// What a decoded HTTP response holds, its headers without an order.
pub struct HttpResponseFields {
    pub status_code: u32,
    pub status: Seq<char>,
    pub header: Map<Seq<char>, Seq<char>>,
    pub body: Seq<u8>,
}

/// What `wascc_codec::deserialize` makes of a reply that is decoded into a
/// `wascc_codec::http::Response`: the status code, the status, the headers and
/// the body, or the text of the decoder's error.
pub uninterp spec fn http_response_decoding(reply: Seq<u8>) -> Result<
    HttpResponseFields,
    Seq<char>,
>;

/// What a decoded configuration holds: the actor, and each configured name
/// with its value.
pub struct ConfigurationFields {
    pub module: Seq<char>,
    pub values: Map<Seq<char>, Seq<char>>,
}

/// What `wascc_codec::deserialize` makes of a message that is decoded into a
/// `wascc_codec::core::CapabilityConfiguration`: the actor and its values, or
/// the text of the decoder's error.
pub uninterp spec fn configuration_decoding(message: Seq<u8>) -> Result<
    ConfigurationFields,
    Seq<char>,
>;

/// What a request holds, its two maps without their order.
pub open spec fn request_fields(request: AlbRequest) -> AlbRequestFields {
    AlbRequestFields {
        http_method: option_text(request.http_method),
        path: option_text(request.path),
        query_string_parameters: pairs_map(pairs_text(request.query_string_parameters@)),
        headers: pairs_map(pairs_text(request.headers@)),
        is_base64_encoded: request.is_base64_encoded,
        body: option_text(request.body),
    }
}

/// What a response holds, its headers without their order.
pub open spec fn response_fields(response: HttpResponse) -> HttpResponseFields {
    HttpResponseFields {
        status_code: response.status_code,
        status: response.status@,
        header: pairs_map(pairs_text(response.header@)),
        body: response.body@,
    }
}

/// What a configuration holds, its values without their order.
pub open spec fn configuration_fields(configuration: ActorConfiguration) -> ConfigurationFields {
    ConfigurationFields {
        module: configuration.module@,
        values: pairs_map(pairs_text(configuration.values@)),
    }
}

/// What `serde_json::to_vec` makes of a JSON object with one member, whose
/// value is a string: the document, or the text of the encoder's error.
pub uninterp spec fn json_member(name: Seq<char>, value: Seq<char>) -> Result<Seq<u8>, Seq<char>>;

/// `base64::decode`, with the standard alphabet and padding. The result is
/// `base64_decoding` of the text; an error is handed out as its text. The
/// decoder sizes its buffer by four times the input's length, which must not
/// overflow.
#[verifier::external_body]
pub(crate) fn base64_decode(text: &str) -> (r: Result<Vec<u8>, String>)
    requires
        text.spec_bytes().len() * 4 <= usize::MAX,
    ensures
        match r {
            Ok(bytes) => base64_decoding(text@) == Ok::<Seq<u8>, Seq<char>>(bytes@),
            Err(reason) => base64_decoding(text@) == Err::<Seq<u8>, Seq<char>>(reason@),
        },
{
    match base64::decode(text) {
        Ok(bytes) => Ok(bytes),
        Err(e) => Err(e.to_string()),
    }
}

/// `base64::encode`, with the standard alphabet and padding. The result is
/// `base64_encoding` of the bytes. The encoder panics where the encoded
/// length, four bytes for every three of the input, overflows.
#[verifier::external_body]
pub(crate) fn base64_encode(bytes: &[u8]) -> (r: String)
    requires
        bytes@.len() / 3 * 4 + 4 <= usize::MAX,
    ensures
        r@ == base64_encoding(bytes@),
{
    base64::encode(bytes)
}

/// `url::form_urlencoded::Serializer`: a new serializer on an empty string,
/// `extend_pairs` with the pairs in order, then `finish`. The result is
/// `form_urlencoding` of the pairs.
#[verifier::external_body]
pub(crate) fn form_urlencode(pairs: &Pairs) -> (r: String)
    ensures
        r@ == form_urlencoding(pairs_text(pairs@)),
{
    url::form_urlencoded::Serializer::new(String::new()).extend_pairs(pairs.iter()).finish()
}

/// `serde_json::from_slice` into an
/// `aws_lambda_events::event::alb::AlbTargetGroupRequest`, of which the method,
/// the path, the query parameters, the headers, the body and its encoding flag
/// are kept. `None` stands for any decoding error. What the request holds is
/// what `alb_request_decoding` gives. The two maps are handed out as lists, in
/// whatever order they are walked: of the order nothing is stated. (A map
/// holds no name twice, so a list stands for the same map in any order.)
#[verifier::external_body]
pub(crate) fn decode_alb_request(body: &[u8]) -> (r: Option<AlbRequest>)
    ensures
        match r {
            Some(request) => alb_request_decoding(body@) == Some(request_fields(request)),
            None => alb_request_decoding(body@) is None,
        },
{
    match serde_json::from_slice::<aws_lambda_events::event::alb::AlbTargetGroupRequest>(body) {
        Ok(request) => Some(AlbRequest {
            http_method: request.http_method,
            path: request.path,
            query_string_parameters: request.query_string_parameters.into_iter().collect(),
            headers: request.headers.into_iter().collect(),
            is_base64_encoded: request.is_base64_encoded,
            body: request.body,
        }),
        Err(_) => None,
    }
}

/// `serde_json::to_vec` of an
/// `aws_lambda_events::event::alb::AlbTargetGroupResponse` with the given
/// fields and no multi-value headers. An error is handed out as its text. The
/// headers are written in the order of a hash map, so nothing is stated of the
/// bytes.
#[verifier::external_body]
pub(crate) fn encode_alb_response(response: &AlbResponse) -> (r: Result<Vec<u8>, String>)
{
    let outside = aws_lambda_events::event::alb::AlbTargetGroupResponse {
        status_code: response.status_code,
        status_description: response.status_description.clone(),
        headers: response.headers.iter().cloned().collect(),
        multi_value_headers: std::collections::HashMap::new(),
        body: response.body.clone(),
        is_base64_encoded: response.is_base64_encoded,
    };
    match serde_json::to_vec(&outside) {
        Ok(bytes) => Ok(bytes),
        Err(e) => Err(e.to_string()),
    }
}

/// `wascc_codec::serialize` of a `wascc_codec::http::Request` with the given
/// fields. An error is handed out as its text. The headers are written in the
/// order of a hash map, so nothing is stated of the bytes.
#[verifier::external_body]
pub(crate) fn encode_http_request(request: &HttpRequest) -> (r: Result<Vec<u8>, String>)
{
    let outside = wascc_codec::http::Request {
        method: request.method.clone(),
        path: request.path.clone(),
        query_string: request.query_string.clone(),
        header: request.header.iter().cloned().collect(),
        body: request.body.clone(),
    };
    match wascc_codec::serialize(outside) {
        Ok(bytes) => Ok(bytes),
        Err(e) => Err(e.to_string()),
    }
}

/// `wascc_codec::deserialize` into a `wascc_codec::http::Response`, whose
/// fields are handed out. An error is handed out as its text. What the
/// response holds, or the error's text, is what `http_response_decoding`
/// gives. The headers are handed out as a list, in whatever order the map is
/// walked: of the order nothing is stated. (A map holds no name twice, so the
/// list stands for the same map in any order.)
#[verifier::external_body]
pub(crate) fn decode_http_response(reply: &[u8]) -> (r: Result<HttpResponse, String>)
    ensures
        match r {
            Ok(response) => http_response_decoding(reply@) == Ok::<HttpResponseFields, Seq<char>>(
                response_fields(response),
            ),
            Err(reason) => http_response_decoding(reply@) == Err::<HttpResponseFields, Seq<char>>(
                reason@,
            ),
        },
{
    match wascc_codec::deserialize::<wascc_codec::http::Response>(reply) {
        Ok(response) => Ok(HttpResponse {
            status_code: response.status_code,
            status: response.status,
            header: response.header.into_iter().collect(),
            body: response.body,
        }),
        Err(e) => Err(e.to_string()),
    }
}

/// `wascc_codec::deserialize` into a
/// `wascc_codec::core::CapabilityConfiguration`, whose fields are handed out.
/// An error is handed out as its text. What the configuration holds, or the
/// error's text, is what `configuration_decoding` gives. The values are handed
/// out as a list, in whatever order the map is walked: of the order nothing is
/// stated. (A map holds no name twice, so the list stands for the same map in
/// any order.)
#[verifier::external_body]
pub(crate) fn decode_configuration(message: &[u8]) -> (r: Result<ActorConfiguration, String>)
    ensures
        match r {
            Ok(configuration) => configuration_decoding(message@) == Ok::<
                ConfigurationFields,
                Seq<char>,
            >(configuration_fields(configuration)),
            Err(reason) => configuration_decoding(message@) == Err::<ConfigurationFields, Seq<char>>(
                reason@,
            ),
        },
{
    match wascc_codec::deserialize::<wascc_codec::core::CapabilityConfiguration>(message) {
        Ok(configuration) => Ok(ActorConfiguration {
            module: configuration.module,
            values: configuration.values.into_iter().collect(),
        }),
        Err(e) => Err(e.to_string()),
    }
}

/// `serde_json::to_vec` of a `serde_json::Value` that is an object with one
/// member, the given name with the given string as its value. The result is
/// `json_member` of the two; an error is handed out as its text.
#[verifier::external_body]
pub(crate) fn encode_json_member(name: &str, value: &str) -> (r: Result<Vec<u8>, String>)
    ensures
        match r {
            Ok(bytes) => json_member(name@, value@) == Ok::<Seq<u8>, Seq<char>>(bytes@),
            Err(reason) => json_member(name@, value@) == Err::<Seq<u8>, Seq<char>>(reason@),
        },
{
    let mut object = serde_json::Map::new();
    object.insert(name.to_owned(), serde_json::Value::String(value.to_owned()));
    match serde_json::to_vec(&serde_json::Value::Object(object)) {
        Ok(bytes) => Ok(bytes),
        Err(e) => Err(e.to_string()),
    }
}

} // verus!
