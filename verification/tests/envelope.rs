//! Tests for the response envelope: wire decoding and status
//! interpretation.

use ucas_iclass::decode_envelope;
use ucas_iclass::IClassError;
use ucas_iclass::RawResponse;
use ucas_iclass::Response;

fn envelope<T>(status: i8, err_msg: Option<&str>, result: Option<T>) -> Response<T> {
    Response { status, err_code: None, err_msg: err_msg.map(String::from), result }
}

#[test]
fn success_with_payload_yields_payload() {
    let r = envelope(0, None, Some(5u32)).into_result();
    assert_eq!(r, Ok(5));
}

#[test]
fn success_without_payload_is_data_parsing_error() {
    let r = envelope::<u32>(0, None, None).into_result();
    assert_eq!(r, Err(IClassError::DataParsingError));
}

#[test]
fn success_ignores_error_message() {
    let r = envelope(0, Some("spurious"), Some(1u32)).into_result();
    assert_eq!(r, Ok(1));
}

#[test]
fn user_not_found_is_authentication_failure() {
    let r = envelope(106, Some("no such user"), Some(1u32)).into_result();
    assert_eq!(r, Err(IClassError::AuthenticationFailed));
    let r2 = envelope::<u32>(106, None, None).into_result();
    assert_eq!(r2, Err(IClassError::AuthenticationFailed));
}

#[test]
fn wrong_password_is_authentication_failure() {
    let r = envelope::<u32>(107, Some("wrong password"), None).into_result();
    assert_eq!(r, Err(IClassError::AuthenticationFailed));
    let r2 = envelope(107, None, Some(9u32)).into_result();
    assert_eq!(r2, Err(IClassError::AuthenticationFailed));
}

#[test]
fn other_status_carries_upstream_message() {
    let r = envelope::<u32>(100, Some("bad parameter"), None).into_result();
    assert_eq!(r, Err(IClassError::ApiError(String::from("bad parameter"))));
}

#[test]
fn other_status_without_message_gets_fallback() {
    let r = envelope::<u32>(42, None, None).into_result();
    assert_eq!(r, Err(IClassError::ApiError(String::from("unknown error, status 42"))));
    let r2 = envelope::<u32>(-3, None, None).into_result();
    assert_eq!(r2, Err(IClassError::ApiError(String::from("unknown error, status -3"))));
}

#[test]
fn fallback_carries_error_code_when_present() {
    let resp = Response::<u32> {
        status: 1,
        err_code: Some(100),
        err_msg: None,
        result: None,
    };
    assert_eq!(
        resp.into_result(),
        Err(IClassError::ApiError(String::from("unknown error, status 1, code 100")))
    );
}

#[test]
fn failed_status_ignores_present_result() {
    let r = envelope(1, Some("failed"), Some(7u32)).into_result();
    assert_eq!(r, Err(IClassError::ApiError(String::from("failed"))));
}

#[test]
fn raw_envelope_decodes() {
    let raw = RawResponse {
        status: String::from("0"),
        err_code: None,
        err_msg: None,
        result: Some(3u32),
    };
    let resp = decode_envelope(raw).unwrap();
    assert_eq!(resp.status, 0);
    assert_eq!(resp.err_code, None);
    assert_eq!(resp.err_msg, None);
    assert_eq!(resp.result, Some(3));
}

#[test]
fn raw_envelope_decodes_error_fields() {
    let raw = RawResponse::<u32> {
        status: String::from("1"),
        err_code: Some(String::from("106")),
        err_msg: Some(String::from("oops")),
        result: None,
    };
    let resp = decode_envelope(raw).unwrap();
    assert_eq!(resp.status, 1);
    assert_eq!(resp.err_code, Some(106));
    assert_eq!(resp.err_msg, Some(String::from("oops")));
    assert_eq!(resp.result, None);
}

#[test]
fn raw_envelope_bad_status_fails() {
    let raw = RawResponse::<u32> {
        status: String::from("zero"),
        err_code: None,
        err_msg: None,
        result: None,
    };
    assert_eq!(decode_envelope(raw).unwrap_err(), IClassError::FormatError);
    let raw2 = RawResponse::<u32> {
        status: String::from("999"),
        err_code: None,
        err_msg: None,
        result: None,
    };
    assert_eq!(decode_envelope(raw2).unwrap_err(), IClassError::FormatError);
}

#[test]
fn raw_envelope_bad_err_code_fails() {
    let raw = RawResponse::<u32> {
        status: String::from("0"),
        err_code: Some(String::from("x")),
        err_msg: None,
        result: None,
    };
    assert_eq!(decode_envelope(raw).unwrap_err(), IClassError::FormatError);
}
