//! Domain types and decision functions: pagination, question shapes,
//! identifiers, enrollment, ownership, and storage outcomes.

use customer_care::errors::{ParseFailure, ServiceError};
use customer_care::ownership::{authorize, authorize_mutation};
use customer_care::pagination::{resolve_pagination, Pagination};
use customer_care::questions::{apply_censorship, needs_censorship, QuestIn, QuestStatus};
use customer_care::shared::Id;
use customer_care::store::{
    classify_creds_lookup_error, classify_insert_error, list_fetch_outcome, mutation_outcome,
    single_fetch_outcome,
};
use customer_care::text_processing::{extract_censored_content, BadWordsServiceOkResponse};
use customer_care::users::{validate_moderator, UserIn, UserTknDetails};

fn params(pairs: &[(&str, &str)]) -> Vec<(String, String)> {
    pairs
        .iter()
        .map(|(k, v)| (k.to_string(), v.to_string()))
        .collect()
}

fn caller(id: &str, moderator: bool) -> UserTknDetails {
    UserTknDetails {
        _id: id.to_string(),
        is_moderator: moderator,
    }
}

fn new_user(moderator: Option<bool>) -> UserIn {
    UserIn {
        email: "a@b.c".to_string(),
        password: "pw".to_string(),
        first_name: "A".to_string(),
        last_name: "B".to_string(),
        is_moderator: moderator,
    }
}

fn question(title: &str, content: &str) -> QuestIn {
    QuestIn {
        title: title.to_string(),
        content: content.to_string(),
        tags: Some(vec!["tag".to_string()]),
        status: None,
    }
}

#[test]
fn pagination_parses_offset_and_limit() {
    let p = Pagination::parse_from_map(&params(&[("offset", "1"), ("limit", "100")])).unwrap();
    assert_eq!(p.offset, 1);
    assert_eq!(p.limit, Some(100));
}

#[test]
fn pagination_requires_both_parameters() {
    assert_eq!(
        Pagination::parse_from_map(&params(&[("offset", "1")])),
        Err(ServiceError::MissingParams)
    );
    assert_eq!(
        Pagination::parse_from_map(&params(&[("limit", "10")])),
        Err(ServiceError::MissingParams)
    );
}

#[test]
fn pagination_rejects_non_numeric_values() {
    assert_eq!(
        Pagination::parse_from_map(&params(&[("offset", "x"), ("limit", "10")])),
        Err(ServiceError::ParseError(ParseFailure::InvalidDigit))
    );
    assert_eq!(
        Pagination::parse_from_map(&params(&[("offset", "-1"), ("limit", "10")])),
        Err(ServiceError::ParseError(ParseFailure::InvalidDigit))
    );
    assert_eq!(
        Pagination::parse_from_map(&params(&[("offset", ""), ("limit", "10")])),
        Err(ServiceError::ParseError(ParseFailure::Empty))
    );
    assert_eq!(
        Pagination::parse_from_map(&params(&[("offset", "0"), ("limit", "4294967296")])),
        Err(ServiceError::ParseError(ParseFailure::OutOfRange))
    );
}

#[test]
fn pagination_accepts_a_leading_plus_and_wraps_large_values() {
    let p = Pagination::parse_from_map(&params(&[("offset", "+7"), ("limit", "4294967295")]))
        .unwrap();
    assert_eq!(p.offset, 7);
    assert_eq!(p.limit, Some(-1));
}

#[test]
fn empty_query_resolves_to_the_default_window() {
    let p = resolve_pagination(&Vec::new()).unwrap();
    assert_eq!(p.offset, 0);
    assert_eq!(p.limit, None);
}

#[test]
fn status_names_round_trip() {
    for status in [
        QuestStatus::Resolved,
        QuestStatus::Unresolved,
        QuestStatus::Pending,
        QuestStatus::Canceled,
    ] {
        assert_eq!(QuestStatus::from_str(&status.to_str()), Some(status));
    }
    assert_eq!(QuestStatus::from_str("Closed"), None);
    assert_eq!(QuestStatus::from_str("resolved"), None);
}

#[test]
fn authored_by_attributes_and_keeps_the_body() {
    let q = question("t", "c").authored_by("user-9".to_string());
    assert_eq!(q.title, "t");
    assert_eq!(q.content, "c");
    assert_eq!(q.tags, Some(vec!["tag".to_string()]));
    assert_eq!(q.status, None);
    assert_eq!(q.user_id, "user-9");
}

#[test]
fn absent_status_is_stored_as_pending() {
    let q = question("t", "c").authored_by("u".to_string());
    assert_eq!(q.parse_status(), "Pending");
    let mut q2 = question("t", "c");
    q2.status = Some(QuestStatus::Canceled);
    assert_eq!(q2.authored_by("u".to_string()).parse_status(), "Canceled");
}

#[test]
fn id_round_trips_through_text() {
    let id = Id::from_str("deadbeef").unwrap();
    assert_eq!(id.to_str(), "deadbeef");
    assert_eq!(Id::from_str(""), None);
}

#[test]
fn id_as_dict_serializes_under_the_conventional_key() {
    let id = Id::from_str("deadbeef").unwrap();
    let dict = id.as_dict();
    assert_eq!(dict.len(), 1);
    assert_eq!(dict[0].0, "_id");
    assert_eq!(dict[0].1.to_str(), "deadbeef");
}

#[test]
fn enrollment_fails_without_a_key() {
    assert_eq!(
        validate_moderator(new_user(Some(true)), None, "secret".to_string()),
        Err(ServiceError::AuthCredsMissing)
    );
}

#[test]
fn enrollment_fails_with_a_blank_key() {
    assert_eq!(
        validate_moderator(new_user(Some(true)), Some("   ".to_string()), "secret".to_string()),
        Err(ServiceError::AuthCredsMissing)
    );
    // Unicode whitespace trims away just like the ASCII kind.
    assert_eq!(
        validate_moderator(
            new_user(Some(true)),
            Some("\u{2003}\u{a0}\t".to_string()),
            "secret".to_string()
        ),
        Err(ServiceError::AuthCredsMissing)
    );
}

#[test]
fn blankness_follows_unicode_whitespace() {
    assert!(customer_care::text::is_blank(""));
    assert!(customer_care::text::is_blank(" \t\r\n\u{2003}\u{3000}"));
    assert!(!customer_care::text::is_blank(" x "));
}

#[test]
fn enrollment_fails_with_the_wrong_key() {
    assert_eq!(
        validate_moderator(new_user(Some(true)), Some("wrong".to_string()), "secret".to_string()),
        Err(ServiceError::AuthCredsMissing)
    );
}

#[test]
fn enrollment_allows_the_exact_key() {
    let u = new_user(Some(true));
    assert_eq!(
        validate_moderator(u.clone(), Some("secret".to_string()), "secret".to_string()),
        Ok(u)
    );
}

#[test]
fn enrollment_allows_plain_accounts_without_a_key() {
    let u = new_user(None);
    assert_eq!(validate_moderator(u.clone(), None, "secret".to_string()), Ok(u));
    let u = new_user(Some(false));
    assert_eq!(validate_moderator(u.clone(), None, "secret".to_string()), Ok(u));
}

#[test]
fn ownership_denies_other_peoples_resources() {
    assert!(!authorize(&"u1".to_string(), &caller("u2", false)));
    assert_eq!(
        authorize_mutation(&"u1".to_string(), &caller("u2", false)),
        Err(ServiceError::ObjectNotFound)
    );
}

#[test]
fn moderators_may_act_on_any_resource() {
    assert!(authorize(&"u1".to_string(), &caller("u2", true)));
    assert_eq!(authorize_mutation(&"u1".to_string(), &caller("u2", true)), Ok(()));
}

#[test]
fn owners_may_act_on_their_own_resources() {
    assert!(authorize(&"u1".to_string(), &caller("u1", false)));
    assert_eq!(authorize_mutation(&"u1".to_string(), &caller("u1", false)), Ok(()));
}

#[test]
fn mutation_outcomes_fold_to_the_taxonomy() {
    assert_eq!(mutation_outcome(Ok(1)), Ok(()));
    assert_eq!(mutation_outcome(Ok(0)), Err(ServiceError::ObjectNotFound));
    assert_eq!(
        mutation_outcome(Err(ServiceError::DbQueryError)),
        Err(ServiceError::DbQueryError)
    );
}

#[test]
fn fetch_outcomes_fold_to_the_taxonomy() {
    assert_eq!(single_fetch_outcome(Some(7)), Ok(7));
    assert_eq!(single_fetch_outcome::<u32>(None), Err(ServiceError::ObjectNotFound));
    assert_eq!(list_fetch_outcome(Some(vec![1, 2])), Ok(vec![1, 2]));
    assert_eq!(list_fetch_outcome::<u32>(None), Err(ServiceError::DbQueryError));
}

#[test]
fn database_error_codes_classify() {
    assert_eq!(classify_insert_error(23505), ServiceError::ConflictInDb);
    assert_eq!(classify_insert_error(23503), ServiceError::DbQueryError);
    assert_eq!(classify_creds_lookup_error(0), ServiceError::ObjectNotFound);
    assert_eq!(classify_creds_lookup_error(1), ServiceError::DbQueryError);
}

#[test]
fn censorship_applies_to_non_moderators_only() {
    assert!(needs_censorship(&caller("u1", false)));
    assert!(!needs_censorship(&caller("u1", true)));
}

#[test]
fn censored_text_replaces_the_question_body() {
    let q = question("bad title", "bad content");
    let censored = apply_censorship(
        q,
        Ok("*** title".to_string()),
        Ok("*** content".to_string()),
    )
    .unwrap();
    assert_eq!(censored.title, "*** title");
    assert_eq!(censored.content, "*** content");
    assert_eq!(censored.tags, Some(vec!["tag".to_string()]));
}

#[test]
fn censorship_failures_propagate_title_first() {
    let q = question("t", "c");
    assert_eq!(
        apply_censorship(
            q.clone(),
            Err(ServiceError::ExternalApiError),
            Ok("c".to_string())
        ),
        Err(ServiceError::ExternalApiError)
    );
    assert_eq!(
        apply_censorship(q, Ok("t".to_string()), Err(ServiceError::ExternalApiError)),
        Err(ServiceError::ExternalApiError)
    );
}

#[test]
fn censor_responses_fold_to_content_or_error() {
    let ok = BadWordsServiceOkResponse {
        content: "damn".to_string(),
        bad_words_total: 1,
        bad_words_list: Vec::new(),
        censored_content: "****".to_string(),
    };
    assert_eq!(extract_censored_content(Some(ok)), Ok("****".to_string()));
    assert_eq!(
        extract_censored_content(None),
        Err(ServiceError::ExternalApiError)
    );
}
