//! The error taxonomy: names, status mappings, wire bodies, and the lift of
//! generic responses.

use twirp_bridge::errors::{ErrorCode, ErrorRecord};
use twirp_bridge::json::error_body;
use twirp_bridge::lift::error_from_response;
use twirp_bridge::router::bad_route;

#[test]
fn test_code_names() {
    assert_eq!(ErrorCode::Cancelled.name(), "canceled");
    assert_eq!(ErrorCode::Unknown.name(), "unknown");
    assert_eq!(ErrorCode::InvalidArgument.name(), "invalid_argument");
    assert_eq!(ErrorCode::Malformed.name(), "malformed");
    assert_eq!(ErrorCode::DeadlineExceeded.name(), "deadline_exceeded");
    assert_eq!(ErrorCode::NotFound.name(), "not_found");
    assert_eq!(ErrorCode::BadRoute.name(), "bad_route");
    assert_eq!(ErrorCode::AlreadyExists.name(), "already_exists");
    assert_eq!(ErrorCode::PermissionDenied.name(), "permission_denied");
    assert_eq!(ErrorCode::Unauthenticated.name(), "unauthenticated");
    assert_eq!(ErrorCode::ResourceExhausted.name(), "resource_exhausted");
    assert_eq!(ErrorCode::FailedPrecondition.name(), "failed_precondition");
    assert_eq!(ErrorCode::Aborted.name(), "aborted");
    assert_eq!(ErrorCode::OutOfRange.name(), "out_of_range");
    assert_eq!(ErrorCode::Unimplemented.name(), "unimplemented");
    assert_eq!(ErrorCode::Internal.name(), "internal");
    assert_eq!(ErrorCode::Unavailable.name(), "unavailable");
    assert_eq!(ErrorCode::DataLoss.name(), "dataloss");
}

#[test]
fn test_http_status_mapping() {
    assert_eq!(ErrorCode::Cancelled.http_status(), 408);
    assert_eq!(ErrorCode::Unknown.http_status(), 500);
    assert_eq!(ErrorCode::InvalidArgument.http_status(), 400);
    assert_eq!(ErrorCode::Malformed.http_status(), 400);
    assert_eq!(ErrorCode::DeadlineExceeded.http_status(), 408);
    assert_eq!(ErrorCode::NotFound.http_status(), 404);
    assert_eq!(ErrorCode::BadRoute.http_status(), 404);
    assert_eq!(ErrorCode::AlreadyExists.http_status(), 409);
    assert_eq!(ErrorCode::PermissionDenied.http_status(), 403);
    assert_eq!(ErrorCode::Unauthenticated.http_status(), 401);
    assert_eq!(ErrorCode::ResourceExhausted.http_status(), 429);
    assert_eq!(ErrorCode::FailedPrecondition.http_status(), 412);
    assert_eq!(ErrorCode::Aborted.http_status(), 409);
    assert_eq!(ErrorCode::OutOfRange.http_status(), 400);
    assert_eq!(ErrorCode::Unimplemented.http_status(), 501);
    assert_eq!(ErrorCode::Internal.http_status(), 500);
    assert_eq!(ErrorCode::Unavailable.http_status(), 503);
    assert_eq!(ErrorCode::DataLoss.http_status(), 503);
}

#[test]
fn test_grpc_code_mapping() {
    assert_eq!(ErrorCode::Cancelled.grpc_code(), 1);
    assert_eq!(ErrorCode::Unknown.grpc_code(), 2);
    assert_eq!(ErrorCode::InvalidArgument.grpc_code(), 3);
    assert_eq!(ErrorCode::Malformed.grpc_code(), 3);
    assert_eq!(ErrorCode::DeadlineExceeded.grpc_code(), 4);
    assert_eq!(ErrorCode::NotFound.grpc_code(), 5);
    assert_eq!(ErrorCode::BadRoute.grpc_code(), 5);
    assert_eq!(ErrorCode::AlreadyExists.grpc_code(), 6);
    assert_eq!(ErrorCode::PermissionDenied.grpc_code(), 7);
    assert_eq!(ErrorCode::ResourceExhausted.grpc_code(), 8);
    assert_eq!(ErrorCode::FailedPrecondition.grpc_code(), 9);
    assert_eq!(ErrorCode::Aborted.grpc_code(), 10);
    assert_eq!(ErrorCode::OutOfRange.grpc_code(), 11);
    assert_eq!(ErrorCode::Unimplemented.grpc_code(), 12);
    assert_eq!(ErrorCode::Internal.grpc_code(), 13);
    assert_eq!(ErrorCode::Unavailable.grpc_code(), 14);
    assert_eq!(ErrorCode::DataLoss.grpc_code(), 15);
    assert_eq!(ErrorCode::Unauthenticated.grpc_code(), 16);
}

#[test]
fn test_inbound_grpc_code_classification() {
    assert_eq!(ErrorCode::from_grpc_code(0), ErrorCode::Unknown);
    assert_eq!(ErrorCode::from_grpc_code(1), ErrorCode::Cancelled);
    assert_eq!(ErrorCode::from_grpc_code(5), ErrorCode::NotFound);
    assert_eq!(ErrorCode::from_grpc_code(16), ErrorCode::Unauthenticated);
    assert_eq!(ErrorCode::from_grpc_code(99), ErrorCode::Unknown);
}

#[test]
fn test_error_body_shape() {
    let error = ErrorRecord::not_found("Object foo not found");
    assert_eq!(
        error_body(&error),
        b"{\"code\":\"not_found\",\"msg\":\"Object foo not found\"}".to_vec()
    );
}

#[test]
fn test_error_body_escapes_message() {
    let error = ErrorRecord::internal("say \"hi\" \\ twice\nplease \u{1}");
    assert_eq!(
        error_body(&error),
        b"{\"code\":\"internal\",\"msg\":\"say \\\"hi\\\" \\\\ twice\\nplease \\u0001\"}".to_vec()
    );
}

#[test]
fn test_bad_route_message() {
    let error = bad_route("/package.MyService/Nope");
    assert_eq!(error.code, ErrorCode::BadRoute);
    assert_eq!(error.message, "/package.MyService/Nope is not a supported Twirp method");
}

#[test]
fn test_lift_canonical_body() {
    let original = ErrorRecord::new(
        ErrorCode::PermissionDenied,
        "Thou shall not pass".to_string(),
    );
    let body = error_body(&original);
    let lifted = error_from_response(403, &body);
    assert_eq!(lifted.code, ErrorCode::PermissionDenied);
    assert_eq!(lifted.message, "Thou shall not pass");
}

#[test]
fn test_lift_canonical_body_with_escapes() {
    let original = ErrorRecord::new(ErrorCode::Malformed, "bad \"json\"\n\u{2}".to_string());
    let body = error_body(&original);
    let lifted = error_from_response(400, &body);
    assert_eq!(lifted.code, ErrorCode::Malformed);
    assert_eq!(lifted.message, "bad \"json\"\n\u{2}");
}

#[test]
fn test_lift_plain_body_defaults_to_internal() {
    let lifted = error_from_response(403, b"Thou shall not pass");
    assert_eq!(lifted.code, ErrorCode::Internal);
    assert_eq!(lifted.message, "Thou shall not pass");
}

#[test]
fn test_lift_unknown_code_defaults_to_internal() {
    let lifted = error_from_response(400, b"{\"code\":\"nonsense\",\"msg\":\"x\"}");
    assert_eq!(lifted.code, ErrorCode::Internal);
}

#[test]
fn test_lift_round_trip_every_code() {
    let codes = [
        ErrorCode::Cancelled,
        ErrorCode::Unknown,
        ErrorCode::InvalidArgument,
        ErrorCode::Malformed,
        ErrorCode::DeadlineExceeded,
        ErrorCode::NotFound,
        ErrorCode::BadRoute,
        ErrorCode::AlreadyExists,
        ErrorCode::PermissionDenied,
        ErrorCode::Unauthenticated,
        ErrorCode::ResourceExhausted,
        ErrorCode::FailedPrecondition,
        ErrorCode::Aborted,
        ErrorCode::OutOfRange,
        ErrorCode::Unimplemented,
        ErrorCode::Internal,
        ErrorCode::Unavailable,
        ErrorCode::DataLoss,
    ];
    for code in codes {
        let message = format!("went wrong: {:?}", code);
        let record = ErrorRecord::new(code, message.clone());
        let lifted = error_from_response(code.http_status(), &error_body(&record));
        assert_eq!(lifted.code, code);
        assert_eq!(lifted.message, message);
    }
}

#[test]
fn test_transcode_failure_is_internal() {
    let outcome: Result<u32, ErrorRecord> =
        twirp_bridge::codec::classify_transcode(Err("field mismatch".to_string()));
    let error = outcome.unwrap_err();
    assert_eq!(error.code, ErrorCode::Internal);
    assert_eq!(error.message, "Internal error while parsing the JSON request");
    let passed = twirp_bridge::codec::classify_transcode::<u32>(Ok(7));
    assert_eq!(passed.unwrap(), 7);
}

#[test]
fn test_wrap_keeps_cause_off_the_wire() {
    let error = ErrorRecord::wrap(
        ErrorCode::Internal,
        "Failed to build the response".to_string(),
        "diagnostic detail".to_string(),
    );
    assert_eq!(error.cause, Some("diagnostic detail".to_string()));
    let body = error_body(&error);
    assert_eq!(
        body,
        b"{\"code\":\"internal\",\"msg\":\"Failed to build the response\"}".to_vec()
    );
}
