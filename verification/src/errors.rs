//! The closed taxonomy of failure kinds produced anywhere in the service, and
//! the single mapping from each kind (plus the two transport-native failure
//! conditions) to a response status and body.

use vstd::prelude::*;
use vstd::string::StringExecFns;

verus! {

/// Why parsing a numeric parameter failed; the one piece of structured
/// context a `ServiceError::ParseError` carries.
#[derive(Clone, Copy, Debug, PartialEq, Eq, Structural)]
pub enum ParseFailure {
    /// The text was empty.
    Empty,
    /// A character other than a decimal digit (or a leading `+`) appeared.
    InvalidDigit,
    /// The digits denote a value too large for the target type.
    OutOfRange,
}

/// The closed set of failure kinds. Instances are constructed at the point of
/// failure, propagated unchanged through call layers, and consumed exactly
/// once by the transport mapper.
#[derive(Clone, Copy, Debug, PartialEq, Eq, Structural)]
pub enum ServiceError {
    EnvVarUnset,
    ParseError(ParseFailure),
    MissingParams,
    InvalidParamsRange,
    ObjectNotFound,
    DbQueryError,
    ExternalApiError,
    AuthCredsMissing,
    ConflictInDb,
    AuthTokenEncoderErr,
    AuthTokenMissingOrInvalid,
}

impl ParseFailure {
    pub open spec fn spec_message(self) -> Seq<char> {
        match self {
            ParseFailure::Empty => "cannot parse integer from empty string"@,
            ParseFailure::InvalidDigit => "invalid digit found in string"@,
            ParseFailure::OutOfRange => "number too large to fit in target type"@,
        }
    }

    /// Human-readable description of the parse failure.
    pub fn message(&self) -> (r: &'static str)
        ensures
            r@ == self.spec_message(),
    {
        match self {
            ParseFailure::Empty => "cannot parse integer from empty string",
            ParseFailure::InvalidDigit => "invalid digit found in string",
            ParseFailure::OutOfRange => "number too large to fit in target type",
        }
    }
}

impl ServiceError {
    /// The human-readable text shown for this kind wherever the response body
    /// is not intentionally empty.
    pub open spec fn spec_message(self) -> Seq<char> {
        match self {
            ServiceError::EnvVarUnset => "Case reported to admin. Please try again later."@,
            ServiceError::ParseError(c) => "Failed to parse parameter: "@ + c.spec_message(),
            ServiceError::MissingParams => "Missing parameter"@,
            ServiceError::InvalidParamsRange => "Invalid parameters range"@,
            ServiceError::ObjectNotFound => "Not found"@,
            ServiceError::DbQueryError => "Query couldn't be executed"@,
            ServiceError::ExternalApiError => "Error fetching data from external service"@,
            ServiceError::AuthCredsMissing => ""@,
            ServiceError::ConflictInDb => "Already exists"@,
            ServiceError::AuthTokenEncoderErr => "Case reported to admin. Please try again later."@,
            ServiceError::AuthTokenMissingOrInvalid => "Authentication token missing or invalid"@,
        }
    }

    pub fn message(&self) -> (r: String)
        ensures
            r@ == self.spec_message(),
    {
        match self {
            ServiceError::EnvVarUnset => "Case reported to admin. Please try again later.".to_owned(),
            ServiceError::ParseError(c) => {
                let mut m = "Failed to parse parameter: ".to_owned();
                m.append(c.message());
                m
            },
            ServiceError::MissingParams => "Missing parameter".to_owned(),
            ServiceError::InvalidParamsRange => "Invalid parameters range".to_owned(),
            ServiceError::ObjectNotFound => "Not found".to_owned(),
            ServiceError::DbQueryError => "Query couldn't be executed".to_owned(),
            ServiceError::ExternalApiError => "Error fetching data from external service".to_owned(),
            ServiceError::AuthCredsMissing => "".to_owned(),
            ServiceError::ConflictInDb => "Already exists".to_owned(),
            ServiceError::AuthTokenEncoderErr => "Case reported to admin. Please try again later.".to_owned(),
            ServiceError::AuthTokenMissingOrInvalid => "Authentication token missing or invalid".to_owned(),
        }
    }

    /// The one authoritative kind-to-status table.
    pub open spec fn spec_status(self) -> u16 {
        match self {
            ServiceError::EnvVarUnset => 500,
            ServiceError::ParseError(_) => 422,
            ServiceError::MissingParams => 422,
            ServiceError::InvalidParamsRange => 422,
            ServiceError::ObjectNotFound => 404,
            ServiceError::DbQueryError => 500,
            ServiceError::ExternalApiError => 500,
            ServiceError::AuthCredsMissing => 401,
            ServiceError::ConflictInDb => 409,
            ServiceError::AuthTokenEncoderErr => 500,
            ServiceError::AuthTokenMissingOrInvalid => 401,
        }
    }

    pub fn status_code(&self) -> (s: u16)
        ensures
            s == self.spec_status(),
    {
        match self {
            ServiceError::EnvVarUnset => 500,
            ServiceError::ParseError(_) => 422,
            ServiceError::MissingParams => 422,
            ServiceError::InvalidParamsRange => 422,
            ServiceError::ObjectNotFound => 404,
            ServiceError::DbQueryError => 500,
            ServiceError::ExternalApiError => 500,
            ServiceError::AuthCredsMissing => 401,
            ServiceError::ConflictInDb => 409,
            ServiceError::AuthTokenEncoderErr => 500,
            ServiceError::AuthTokenMissingOrInvalid => 401,
        }
    }

    /// Whether the response body for this kind is intentionally empty, so as
    /// not to leak detail: missing enrollment credentials, and "not found"
    /// (which also hides ownership denials).
    pub open spec fn spec_body_hidden(self) -> bool {
        self == ServiceError::AuthCredsMissing || self == ServiceError::ObjectNotFound
    }

    /// The response body for this kind.
    pub open spec fn spec_body(self) -> Seq<char> {
        if self.spec_body_hidden() {
            Seq::empty()
        } else {
            self.spec_message()
        }
    }

    pub fn response_body(&self) -> (b: String)
        ensures
            b@ == self.spec_body(),
    {
        match self {
            ServiceError::AuthCredsMissing => String::new(),
            ServiceError::ObjectNotFound => String::new(),
            _ => self.message(),
        }
    }
}

/// What the transport layer saw go wrong with a request, most specific
/// condition first: a disallowed cross-origin request, a request body that
/// could not be read, a typed failure raised by a handler, or none of these
/// (the request matched no route).
#[derive(Clone, Copy, Debug, PartialEq, Eq)]
pub struct Rejection {
    pub cors_forbidden: bool,
    pub malformed_body: bool,
    pub service_error: Option<ServiceError>,
}

/// A complete transport-level outcome.
#[derive(Clone, Debug, PartialEq, Eq)]
pub struct Response {
    pub status: u16,
    pub body: String,
}

/// The status the mapper yields, checked in priority order: the most specific
/// condition wins, with "route not found" as the terminal fallback.
pub open spec fn response_status_of(r: Rejection) -> u16 {
    if r.cors_forbidden {
        403
    } else if r.malformed_body {
        422
    } else {
        match r.service_error {
            Some(e) => e.spec_status(),
            None => 404,
        }
    }
}

/// The body the mapper yields, in the same priority order.
pub open spec fn response_body_of(r: Rejection) -> Seq<char> {
    if r.cors_forbidden {
        "CORS request forbidden"@
    } else if r.malformed_body {
        "Request body could not be deserialized"@
    } else {
        match r.service_error {
            Some(e) => e.spec_body(),
            None => "Route not found"@,
        }
    }
}

/// The single total mapping from a rejected request to its transport-level
/// outcome.
pub fn handle_err(r: &Rejection) -> (resp: Response)
    ensures
        resp.status == response_status_of(*r),
        resp.body@ == response_body_of(*r),
{
    if r.cors_forbidden {
        Response { status: 403, body: "CORS request forbidden".to_owned() }
    } else if r.malformed_body {
        Response { status: 422, body: "Request body could not be deserialized".to_owned() }
    } else {
        match &r.service_error {
            Some(e) => Response { status: e.status_code(), body: e.response_body() },
            None => Response { status: 404, body: "Route not found".to_owned() },
        }
    }
}

/// The mapping is a function of the failure kind alone: equal rejections get
/// equal statuses and equal bodies, across any two calls.
pub proof fn lemma_mapper_deterministic(a: Rejection, b: Rejection)
    requires
        a == b,
    ensures
        response_status_of(a) == response_status_of(b),
        response_body_of(a) == response_body_of(b),
{
}

} // verus!
