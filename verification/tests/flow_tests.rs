//! The end-to-end scenario: login yields a token; a mutating request with
//! that token on someone else's resource is hidden behind a 404; the same
//! request with a moderator token goes through.

use customer_care::auth::{authenticate, login, JWTAuth};
use customer_care::errors::{handle_err, Rejection, ServiceError};
use customer_care::ownership::authorize_mutation;
use customer_care::store::mutation_outcome;
use customer_care::users::UserOut;

fn now_ts() -> u64 {
    chrono::Utc::now().timestamp() as u64
}

fn account(id: &str, moderator: bool) -> UserOut {
    UserOut {
        _id: id.to_string(),
        created_at: "2024-01-01".to_string(),
        email: "a@b.c".to_string(),
        first_name: "A".to_string(),
        last_name: "B".to_string(),
        is_moderator: moderator,
        is_staff: false,
        is_superuser: false,
    }
}

fn rejection_of(e: ServiceError) -> Rejection {
    Rejection {
        cors_forbidden: false,
        malformed_body: false,
        service_error: Some(e),
    }
}

#[test]
fn login_with_valid_credentials_yields_a_token() {
    let auth = JWTAuth::new("secret".to_string());
    let token = login(&auth, Ok(account("u2", false)), now_ts()).unwrap();
    assert!(!token.token.is_empty());
}

#[test]
fn login_propagates_lookup_failures_unchanged() {
    let auth = JWTAuth::new("secret".to_string());
    assert_eq!(
        login(&auth, Err(ServiceError::ObjectNotFound), now_ts()),
        Err(ServiceError::ObjectNotFound)
    );
    assert_eq!(
        login(&auth, Err(ServiceError::DbQueryError), now_ts()),
        Err(ServiceError::DbQueryError)
    );
}

#[test]
fn mutating_someone_elses_resource_is_hidden_behind_not_found() {
    let auth = JWTAuth::new("secret".to_string());
    let now = now_ts();

    // POST login as the non-moderator u2: a token comes back.
    let token = login(&auth, Ok(account("u2", false)), now).unwrap();

    // A mutating request with that token, for a resource owned by u1.
    let identity = authenticate(&auth, Some(format!("Token {}", token.token)), now).unwrap();
    assert_eq!(identity._id, "u2");
    let outcome = authorize_mutation(&"u1".to_string(), &identity);
    assert_eq!(outcome, Err(ServiceError::ObjectNotFound));

    // The caller-visible response: 404 with an empty body.
    let resp = handle_err(&rejection_of(outcome.unwrap_err()));
    assert_eq!(resp.status, 404);
    assert_eq!(resp.body, "");
}

#[test]
fn a_moderator_token_lets_the_mutation_through() {
    let auth = JWTAuth::new("secret".to_string());
    let now = now_ts();

    let token = login(&auth, Ok(account("u2", true)), now).unwrap();
    let identity = authenticate(&auth, Some(format!("Token {}", token.token)), now).unwrap();
    assert!(identity.is_moderator);

    assert_eq!(authorize_mutation(&"u1".to_string(), &identity), Ok(()));
    // The storage layer reports one row affected; the mutation succeeds.
    assert_eq!(mutation_outcome(Ok(1)), Ok(()));
}

#[test]
fn a_forged_token_never_reaches_the_handler() {
    let auth = JWTAuth::new("secret".to_string());
    let forger = JWTAuth::new("guessed wrong".to_string());
    let now = now_ts();

    let token = login(&forger, Ok(account("u2", true)), now).unwrap();
    let outcome = authenticate(&auth, Some(format!("Token {}", token.token)), now);
    assert_eq!(outcome, Err(ServiceError::AuthTokenMissingOrInvalid));

    let resp = handle_err(&rejection_of(outcome.unwrap_err()));
    assert_eq!(resp.status, 401);
}
