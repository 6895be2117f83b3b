//! Status classification and error-message extraction at the transport
//! boundary.
use heyreach_client::ApiErrorCode;
use heyreach_client::client::campaigns_get_by_id;
use heyreach_client::client::check_api_key;
use heyreach_client::transport::HttpReply;
use heyreach_client::transport::TransportFault;

fn reply(status: u16, body: &str) -> Result<HttpReply, TransportFault> {
    Ok(HttpReply { status, body: body.as_bytes().to_vec() })
}

#[test]
fn status_429_with_message_field() {
    let r = check_api_key(reply(429, "{\"message\":\"rate limited\"}"));
    let e = r.unwrap_err();
    assert_eq!(e.code, ApiErrorCode::TooManyRequests);
    assert_eq!(e.message, "rate limited");
}

#[test]
fn status_404_with_non_json_body() {
    let r = check_api_key(reply(404, "not found"));
    let e = r.unwrap_err();
    assert_eq!(e.code, ApiErrorCode::NotFound);
    assert_eq!(e.message, "not found");
}

#[test]
fn status_classification_covers_the_taxonomy() {
    assert_eq!(check_api_key(reply(400, "x")).unwrap_err().code, ApiErrorCode::BadRequest);
    assert_eq!(check_api_key(reply(401, "x")).unwrap_err().code, ApiErrorCode::Unauthorized);
    assert_eq!(check_api_key(reply(404, "x")).unwrap_err().code, ApiErrorCode::NotFound);
    assert_eq!(check_api_key(reply(422, "x")).unwrap_err().code, ApiErrorCode::Validation);
    assert_eq!(check_api_key(reply(429, "x")).unwrap_err().code, ApiErrorCode::TooManyRequests);
    assert_eq!(check_api_key(reply(500, "x")).unwrap_err().code, ApiErrorCode::Unknown);
    assert_eq!(check_api_key(reply(418, "x")).unwrap_err().code, ApiErrorCode::Unknown);
}

#[test]
fn detail_field_is_preferred_over_error_message_and_message() {
    let body = "{\"detail\":\"d\",\"errorMessage\":\"e\",\"message\":\"m\"}";
    assert_eq!(check_api_key(reply(400, body)).unwrap_err().message, "d");
    let body = "{\"errorMessage\":\"e\",\"message\":\"m\"}";
    assert_eq!(check_api_key(reply(400, body)).unwrap_err().message, "e");
    let body = "{\"message\":\"m\"}";
    assert_eq!(check_api_key(reply(400, body)).unwrap_err().message, "m");
}

#[test]
fn non_string_detail_falls_back_to_http_status() {
    let body = "{\"detail\":7,\"message\":\"m\"}";
    assert_eq!(check_api_key(reply(400, body)).unwrap_err().message, "HTTP 400");
}

#[test]
fn json_body_without_known_fields_falls_back_to_http_status() {
    assert_eq!(check_api_key(reply(503, "{\"oops\":true}")).unwrap_err().message, "HTTP 503");
}

#[test]
fn invalid_utf8_error_body_falls_back_to_http_status() {
    let r = check_api_key(Ok(HttpReply { status: 500, body: vec![0xff, 0xfe] }));
    let e = r.unwrap_err();
    assert_eq!(e.code, ApiErrorCode::Unknown);
    assert_eq!(e.message, "HTTP 500");
}

#[test]
fn success_statuses_below_400_succeed_for_empty_operations() {
    assert!(check_api_key(reply(200, "")).is_ok());
    assert!(check_api_key(reply(204, "")).is_ok());
    assert!(check_api_key(reply(399, "anything")).is_ok());
}

#[test]
fn transport_faults_all_classify_as_unknown() {
    let e = check_api_key(Err(TransportFault::ApiKeyHeader)).unwrap_err();
    assert_eq!(e.code, ApiErrorCode::Unknown);
    assert_eq!(e.message, "Failed to set API key header");
    let e = check_api_key(Err(TransportFault::SendRequest)).unwrap_err();
    assert_eq!(e.code, ApiErrorCode::Unknown);
    assert_eq!(e.message, "Failed to send request");
    let e = check_api_key(Err(TransportFault::ReadResponse)).unwrap_err();
    assert_eq!(e.code, ApiErrorCode::Unknown);
    assert_eq!(e.message, "Failed to read response");
}

#[test]
fn success_body_that_is_not_utf8_is_an_unknown_error() {
    let r = campaigns_get_by_id(Ok(HttpReply { status: 200, body: vec![0xff] }));
    let e = r.unwrap_err();
    assert_eq!(e.code, ApiErrorCode::Unknown);
    assert_eq!(e.message, "Invalid UTF-8 in response");
}

#[test]
fn success_body_that_is_not_json_is_an_unknown_error() {
    let r = campaigns_get_by_id(reply(200, "definitely not json"));
    let e = r.unwrap_err();
    assert_eq!(e.code, ApiErrorCode::Unknown);
    assert_eq!(e.message, "Failed to parse response");
}
