//! The transport boundary: the request value one HTTP round trip needs, the
//! reply or fault it produces, and the interpretation of that outcome —
//! status classification, error-message extraction, and body parsing.
//!
//! The round trip itself is I/O and lives outside the verified library; the
//! host hands the outcome back as a plain value, and everything decided from
//! it is verified here.
use vstd::prelude::*;

verus! {

use vstd::string::StringExecFns;
use vstd::utf8::decode_utf8;
use vstd::utf8::valid_utf8;
use crate::ApiError;
use crate::ApiErrorCode;
use crate::json::Json;
use crate::json::jget;
use crate::json::json_doc;
use crate::json::obj_get;
use crate::json::parse_json;
use crate::text::dec_str;
use crate::text::push_dec_u64;
use crate::text::push_str_chars;
use crate::text::string_of_chars;

/// The request methods the remote service's operations use.
#[derive(Clone, Copy, Debug, PartialEq, Eq, Structural)]
pub enum HttpMethod {
    Get,
    Post,
    Delete,
}

/// One request to the remote service: everything the host transport needs
/// besides the fixed origin and the two fixed headers.
pub struct HttpRequest {
    pub method: HttpMethod,
    pub path: String,
    pub body: Option<String>,
}

/// A complete response from the remote service.
pub struct HttpReply {
    pub status: u16,
    pub body: Vec<u8>,
}

/// The stage at which a round trip failed before a complete reply was read.
#[derive(Clone, Copy, Debug, PartialEq, Eq, Structural)]
pub enum TransportFault {
    ContentTypeHeader,
    ApiKeyHeader,
    SetMethod,
    SetPath,
    SetScheme,
    SetAuthority,
    OutgoingBody,
    OutgoingBodyStream,
    WriteBody,
    FinishBody,
    SendRequest,
    NotCompleted,
    RequestFailed,
    RequestError,
    ResponseBody,
    ResponseBodyStream,
    ReadResponse,
}

/// What one round trip came to: a complete reply, or the stage that failed.
pub type TransportOutcome = Result<HttpReply, TransportFault>;

/// The error kind of every transport fault: a failure at any stage before
/// a status code was classified — header construction, request building,
/// transmission, body streaming — is `Unknown`; only a classified remote
/// status yields another kind.
pub open spec fn fault_code(f: TransportFault) -> ApiErrorCode {
    ApiErrorCode::Unknown
}

/// The message naming the failing stage of each transport fault.
pub open spec fn fault_text(f: TransportFault) -> Seq<char> {
    match f {
        TransportFault::ContentTypeHeader => "failed to append content-type header"@,
        TransportFault::ApiKeyHeader => "Failed to set API key header"@,
        TransportFault::SetMethod => "Failed to set method"@,
        TransportFault::SetPath => "Failed to set path"@,
        TransportFault::SetScheme => "Failed to set scheme"@,
        TransportFault::SetAuthority => "Failed to set authority"@,
        TransportFault::OutgoingBody => "Failed to get outgoing body"@,
        TransportFault::OutgoingBodyStream => "Failed to get body stream"@,
        TransportFault::WriteBody => "Failed to write body"@,
        TransportFault::FinishBody => "Failed to finish body"@,
        TransportFault::SendRequest => "Failed to send request"@,
        TransportFault::NotCompleted => "Request not completed"@,
        TransportFault::RequestFailed => "Request failed"@,
        TransportFault::RequestError => "Request error"@,
        TransportFault::ResponseBody => "Failed to get response body"@,
        TransportFault::ResponseBodyStream => "Failed to get body stream"@,
        TransportFault::ReadResponse => "Failed to read response"@,
    }
}

/// The HTTP status classification the transport applies to every
/// non-success response.
pub open spec fn status_error_code(status: u16) -> ApiErrorCode {
    if status == 401 {
        ApiErrorCode::Unauthorized
    } else if status == 404 {
        ApiErrorCode::NotFound
    } else if status == 429 {
        ApiErrorCode::TooManyRequests
    } else if status == 400 {
        ApiErrorCode::BadRequest
    } else if status == 422 {
        ApiErrorCode::Validation
    } else {
        ApiErrorCode::Unknown
    }
}

/// Maps a non-success HTTP status to its error kind.
pub fn classify_status(status: u16) -> (r: ApiErrorCode)
    ensures
        r == status_error_code(status),
{
    match status {
        401 => ApiErrorCode::Unauthorized,
        404 => ApiErrorCode::NotFound,
        429 => ApiErrorCode::TooManyRequests,
        400 => ApiErrorCode::BadRequest,
        422 => ApiErrorCode::Validation,
        _ => ApiErrorCode::Unknown,
    }
}

/// Builds a classified error from an error kind and a message.
pub fn api_error(code: ApiErrorCode, message: &str) -> (r: ApiError)
    ensures
        r.code == code,
        r.message@ == message@,
{
    ApiError { code, message: message.to_owned() }
}

/// The fallback error message: `HTTP ` followed by the decimal status.
pub open spec fn http_status_text(status: u16) -> Seq<char> {
    "HTTP "@ + dec_str(status as nat)
}

/// Renders the fallback error message for a status.
pub fn http_status_string(status: u16) -> (r: String)
    ensures
        r@ == http_status_text(status),
{
    let mut out: Vec<char> = Vec::new();
    push_str_chars("HTTP ", &mut out);
    push_dec_u64(status as u64, &mut out);
    string_of_chars(&out)
}

/// The first of the `detail`, `errorMessage` and `message` fields that an
/// error body carries, whatever its type.
pub open spec fn first_error_field(j: Json) -> Option<Json> {
    match jget(j, "detail"@) {
        Some(v) => Some(v),
        None => match jget(j, "errorMessage"@) {
            Some(v) => Some(v),
            None => jget(j, "message"@),
        },
    }
}

/// The message taken from a JSON error body: the first known field when it
/// is a string, else the fallback `HTTP <status>` text.
pub open spec fn json_error_message(j: Json, status: u16) -> Seq<char> {
    match first_error_field(j) {
        Some(Json::Text(s)) => s@,
        _ => http_status_text(status),
    }
}

/// The message extracted from a non-success response body: the JSON error
/// field when the body is a JSON document, the raw text when it is text but
/// not JSON, and `HTTP <status>` when it is not even UTF-8.
pub open spec fn error_body_message(status: u16, body: Seq<u8>) -> Seq<char> {
    if valid_utf8(body) {
        match json_doc(decode_utf8(body)) {
            Some(j) => json_error_message(j, status),
            None => decode_utf8(body),
        }
    } else {
        http_status_text(status)
    }
}

/// Relies on `String::from_utf8`: it succeeds exactly on valid UTF-8 input
/// and returns the text those bytes encode.
#[verifier::external_body]
fn utf8_to_string(bytes: Vec<u8>) -> (r: Option<String>)
    ensures
        r is Some <==> valid_utf8(bytes@),
        r matches Some(s) ==> s@ == decode_utf8(bytes@),
{
    String::from_utf8(bytes).ok()
}

/// Builds the classified error for a non-success reply: the status picks the
/// kind, the body the message.
pub fn error_from_reply(status: u16, body: Vec<u8>) -> (r: ApiError)
    ensures
        r.code == status_error_code(status),
        r.message@ == error_body_message(status, body@),
{
    let code = classify_status(status);
    match utf8_to_string(body) {
        None => ApiError { code, message: http_status_string(status) },
        Some(text) => match parse_json(text.as_str()) {
            None => ApiError { code, message: text },
            Some(j) => {
                let first = match obj_get(&j, "detail") {
                    Some(v) => Some(v),
                    None => match obj_get(&j, "errorMessage") {
                        Some(v) => Some(v),
                        None => obj_get(&j, "message"),
                    },
                };
                match first {
                    Some(Json::Text(s)) => ApiError { code, message: s.clone() },
                    _ => ApiError { code, message: http_status_string(status) },
                }
            },
        },
    }
}

/// The classified error an outcome produces, if it produces one: the fault's
/// kind and stage message, the classification of a non-success status, or
/// the two decoding failures of a success body.
pub open spec fn outcome_error(o: TransportOutcome) -> Option<(ApiErrorCode, Seq<char>)> {
    match o {
        Err(f) => Some((fault_code(f), fault_text(f))),
        Ok(reply) => if reply.status >= 400 {
            Some((status_error_code(reply.status), error_body_message(reply.status, reply.body@)))
        } else if !valid_utf8(reply.body@) {
            Some((ApiErrorCode::Unknown, "Invalid UTF-8 in response"@))
        } else if json_doc(decode_utf8(reply.body@)) is None {
            Some((ApiErrorCode::Unknown, "Failed to parse response"@))
        } else {
            None
        },
    }
}

/// The parsed document of a successful outcome; `Null` where
/// `outcome_error` reports a failure instead.
pub open spec fn outcome_doc(o: TransportOutcome) -> Json {
    match o {
        Ok(reply) => match json_doc(decode_utf8(reply.body@)) {
            Some(j) => j,
            None => Json::Null,
        },
        Err(_) => Json::Null,
    }
}

/// Turns one round-trip outcome into the parsed JSON document of a success,
/// or the classified error the adapter owes for every failure.
pub fn interpret_response(outcome: TransportOutcome) -> (r: Result<Json, ApiError>)
    ensures
        match outcome_error(outcome) {
            Some(e) => r matches Err(a) && a.code == e.0 && a.message@ == e.1,
            None => r == Ok::<Json, ApiError>(outcome_doc(outcome)),
        },
{
    match outcome {
        Err(f) => Err(fault_error(f)),
        Ok(reply) => {
            if reply.status >= 400 {
                Err(error_from_reply(reply.status, reply.body))
            } else {
                match utf8_to_string(reply.body) {
                    None => Err(api_error(ApiErrorCode::Unknown, "Invalid UTF-8 in response")),
                    Some(text) => match parse_json(text.as_str()) {
                        None => Err(api_error(ApiErrorCode::Unknown, "Failed to parse response")),
                        Some(j) => Ok(j),
                    },
                }
            }
        },
    }
}

/// Whether `r` is exactly the classified error `e` (kind and message).
pub open spec fn errs_match<T>(r: Result<T, ApiError>, e: (ApiErrorCode, Seq<char>)) -> bool {
    r matches Err(a) && a.code == e.0 && a.message@ == e.1
}

/// What an operation without a response payload owes for each outcome:
/// plain success on every complete reply under 400, the classified error
/// otherwise.
pub open spec fn empty_op_result(r: Result<(), ApiError>, outcome: TransportOutcome) -> bool {
    match outcome {
        Err(f) => errs_match(r, (fault_code(f), fault_text(f))),
        Ok(reply) => if reply.status >= 400 {
            errs_match(
                r,
                (status_error_code(reply.status), error_body_message(reply.status, reply.body@)),
            )
        } else {
            r == Ok::<(), ApiError>(())
        },
    }
}

/// Turns one round-trip outcome into plain success — the reply body is
/// discarded — or the classified error, with the same classification as
/// [`interpret_response`].
pub fn interpret_empty_response(outcome: TransportOutcome) -> (r: Result<(), ApiError>)
    ensures
        empty_op_result(r, outcome),
{
    match outcome {
        Err(f) => Err(fault_error(f)),
        Ok(reply) => {
            if reply.status >= 400 {
                Err(error_from_reply(reply.status, reply.body))
            } else {
                Ok(())
            }
        },
    }
}

/// Builds the classified error for a transport fault.
pub fn fault_error(f: TransportFault) -> (r: ApiError)
    ensures
        r.code == fault_code(f),
        r.message@ == fault_text(f),
{
    match f {
        TransportFault::ContentTypeHeader => api_error(
            ApiErrorCode::Unknown,
            "failed to append content-type header",
        ),
        TransportFault::ApiKeyHeader => api_error(
            ApiErrorCode::Unknown,
            "Failed to set API key header",
        ),
        TransportFault::SetMethod => api_error(ApiErrorCode::Unknown, "Failed to set method"),
        TransportFault::SetPath => api_error(ApiErrorCode::Unknown, "Failed to set path"),
        TransportFault::SetScheme => api_error(ApiErrorCode::Unknown, "Failed to set scheme"),
        TransportFault::SetAuthority => api_error(ApiErrorCode::Unknown, "Failed to set authority"),
        TransportFault::OutgoingBody => api_error(
            ApiErrorCode::Unknown,
            "Failed to get outgoing body",
        ),
        TransportFault::OutgoingBodyStream => api_error(
            ApiErrorCode::Unknown,
            "Failed to get body stream",
        ),
        TransportFault::WriteBody => api_error(ApiErrorCode::Unknown, "Failed to write body"),
        TransportFault::FinishBody => api_error(ApiErrorCode::Unknown, "Failed to finish body"),
        TransportFault::SendRequest => api_error(ApiErrorCode::Unknown, "Failed to send request"),
        TransportFault::NotCompleted => api_error(ApiErrorCode::Unknown, "Request not completed"),
        TransportFault::RequestFailed => api_error(ApiErrorCode::Unknown, "Request failed"),
        TransportFault::RequestError => api_error(ApiErrorCode::Unknown, "Request error"),
        TransportFault::ResponseBody => api_error(
            ApiErrorCode::Unknown,
            "Failed to get response body",
        ),
        TransportFault::ResponseBodyStream => api_error(
            ApiErrorCode::Unknown,
            "Failed to get body stream",
        ),
        TransportFault::ReadResponse => api_error(ApiErrorCode::Unknown, "Failed to read response"),
    }
}

/// The fixed origin every request is sent to, over HTTPS.
pub fn base_authority() -> (r: String)
    ensures
        r@ == "api.heyreach.io"@,
{
    "api.heyreach.io".to_owned()
}

/// The two headers every request carries: the JSON content type and the
/// caller's credential.
pub fn request_headers(api_key: &str) -> (r: Vec<(String, String)>)
    ensures
        r@.len() == 2,
        r@[0].0@ == "content-type"@,
        r@[0].1@ == "application/json; charset=utf-8"@,
        r@[1].0@ == "x-api-key"@,
        r@[1].1@ == api_key@,
{
    let mut headers: Vec<(String, String)> = Vec::new();
    headers.push(("content-type".to_owned(), "application/json; charset=utf-8".to_owned()));
    headers.push(("x-api-key".to_owned(), api_key.to_owned()));
    headers
}

} // verus!
