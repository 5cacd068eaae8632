//! The error taxonomy and the transport mapper.

use customer_care::errors::{handle_err, ParseFailure, Rejection, ServiceError};

fn rejected_with(e: ServiceError) -> Rejection {
    Rejection {
        cors_forbidden: false,
        malformed_body: false,
        service_error: Some(e),
    }
}

#[test]
fn status_table_is_the_authoritative_one() {
    let table = [
        (ServiceError::MissingParams, 422),
        (ServiceError::InvalidParamsRange, 422),
        (ServiceError::ParseError(ParseFailure::InvalidDigit), 422),
        (ServiceError::ObjectNotFound, 404),
        (ServiceError::AuthCredsMissing, 401),
        (ServiceError::AuthTokenMissingOrInvalid, 401),
        (ServiceError::ConflictInDb, 409),
        (ServiceError::DbQueryError, 500),
        (ServiceError::EnvVarUnset, 500),
        (ServiceError::AuthTokenEncoderErr, 500),
        (ServiceError::ExternalApiError, 500),
    ];
    for (kind, status) in table {
        assert_eq!(handle_err(&rejected_with(kind)).status, status, "{:?}", kind);
    }
}

#[test]
fn security_sensitive_bodies_are_empty() {
    assert_eq!(handle_err(&rejected_with(ServiceError::AuthCredsMissing)).body, "");
    assert_eq!(handle_err(&rejected_with(ServiceError::ObjectNotFound)).body, "");
}

#[test]
fn informative_bodies_carry_the_message() {
    assert_eq!(
        handle_err(&rejected_with(ServiceError::ConflictInDb)).body,
        "Already exists"
    );
    assert_eq!(
        handle_err(&rejected_with(ServiceError::DbQueryError)).body,
        "Query couldn't be executed"
    );
    assert_eq!(
        handle_err(&rejected_with(ServiceError::EnvVarUnset)).body,
        "Case reported to admin. Please try again later."
    );
    assert_eq!(
        handle_err(&rejected_with(ServiceError::ParseError(ParseFailure::Empty))).body,
        "Failed to parse parameter: cannot parse integer from empty string"
    );
}

#[test]
fn cors_takes_priority_over_everything() {
    let r = Rejection {
        cors_forbidden: true,
        malformed_body: true,
        service_error: Some(ServiceError::DbQueryError),
    };
    let resp = handle_err(&r);
    assert_eq!(resp.status, 403);
    assert_eq!(resp.body, "CORS request forbidden");
}

#[test]
fn malformed_body_takes_priority_over_service_errors() {
    let r = Rejection {
        cors_forbidden: false,
        malformed_body: true,
        service_error: Some(ServiceError::DbQueryError),
    };
    assert_eq!(handle_err(&r).status, 422);
}

#[test]
fn unmatched_requests_fall_back_to_route_not_found() {
    let r = Rejection {
        cors_forbidden: false,
        malformed_body: false,
        service_error: None,
    };
    let resp = handle_err(&r);
    assert_eq!(resp.status, 404);
    assert_eq!(resp.body, "Route not found");
}

#[test]
fn mapping_is_deterministic_across_calls() {
    for kind in [
        ServiceError::MissingParams,
        ServiceError::ObjectNotFound,
        ServiceError::AuthCredsMissing,
        ServiceError::ExternalApiError,
    ] {
        let first = handle_err(&rejected_with(kind));
        let second = handle_err(&rejected_with(kind));
        assert_eq!(first, second);
    }
}

#[test]
fn parse_failure_messages() {
    assert_eq!(
        ParseFailure::Empty.message(),
        "cannot parse integer from empty string"
    );
    assert_eq!(
        ParseFailure::InvalidDigit.message(),
        "invalid digit found in string"
    );
    assert_eq!(
        ParseFailure::OutOfRange.message(),
        "number too large to fit in target type"
    );
}
