//! Decision logic around the storage layer: interpreting what a query's
//! outcome means for the caller, and classifying database error codes into
//! the failure taxonomy. The storage layer itself is an external
//! collaborator; these functions consume the plain values it hands back.

use vstd::prelude::*;
use crate::errors::ServiceError;

verus! {

/// The database error code raised on a unique-constraint violation.
pub const UNIQUE_VIOLATION_CODE: u16 = 23505;

/// What a mutation's outcome means: a query failure propagates unchanged,
/// and zero affected rows means the resource was absent — or, with the
/// ownership check folded into the query, that the caller does not own it —
/// so the caller sees `ObjectNotFound` either way.
pub fn mutation_outcome(outcome: Result<u64, ServiceError>) -> (r: Result<(), ServiceError>)
    ensures
        outcome matches Err(e) ==> r == Err::<(), ServiceError>(e),
        outcome matches Ok(n) && n == 0 ==> r == Err::<(), ServiceError>(
            ServiceError::ObjectNotFound,
        ),
        outcome matches Ok(n) && n > 0 ==> r == Ok::<(), ServiceError>(()),
{
    match outcome {
        Err(e) => Err(e),
        Ok(rows_affected) => if rows_affected == 0 {
            Err(ServiceError::ObjectNotFound)
        } else {
            Ok(())
        },
    }
}

/// What fetching a single resource yields: an absent row is `ObjectNotFound`.
pub fn single_fetch_outcome<T>(fetched: Option<T>) -> (r: Result<T, ServiceError>)
    ensures
        fetched matches Some(v) ==> r == Ok::<T, ServiceError>(v),
        fetched is None ==> r == Err::<T, ServiceError>(ServiceError::ObjectNotFound),
{
    match fetched {
        Some(v) => Ok(v),
        None => Err(ServiceError::ObjectNotFound),
    }
}

/// What fetching a listing yields: a failed query is `DbQueryError`.
pub fn list_fetch_outcome<T>(fetched: Option<Vec<T>>) -> (r: Result<Vec<T>, ServiceError>)
    ensures
        fetched matches Some(v) ==> r == Ok::<Vec<T>, ServiceError>(v),
        fetched is None ==> r == Err::<Vec<T>, ServiceError>(ServiceError::DbQueryError),
{
    match fetched {
        Some(v) => Ok(v),
        None => Err(ServiceError::DbQueryError),
    }
}

/// Classify the error code of a failed account insertion: a
/// unique-constraint violation means the account already exists; anything
/// else is an opaque query failure.
pub fn classify_insert_error(code: u16) -> (r: ServiceError)
    ensures
        code == UNIQUE_VIOLATION_CODE ==> r == ServiceError::ConflictInDb,
        code != UNIQUE_VIOLATION_CODE ==> r == ServiceError::DbQueryError,
{
    if code == UNIQUE_VIOLATION_CODE {
        ServiceError::ConflictInDb
    } else {
        ServiceError::DbQueryError
    }
}

/// Classify the error code of a failed credential lookup: code zero means no
/// row matched the credentials, surfaced as `ObjectNotFound`; anything else
/// is an opaque query failure.
pub fn classify_creds_lookup_error(code: u16) -> (r: ServiceError)
    ensures
        code == 0 ==> r == ServiceError::ObjectNotFound,
        code != 0 ==> r == ServiceError::DbQueryError,
{
    if code == 0 {
        ServiceError::ObjectNotFound
    } else {
        ServiceError::DbQueryError
    }
}

} // verus!
