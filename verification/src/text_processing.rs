//! The response shapes of the external text-censorship service, and the
//! decision over its parsed answer. The call itself is I/O and lives with
//! the transport; this module consumes what came back.

use vstd::prelude::*;
use crate::errors::ServiceError;

verus! {

/// A successful censorship answer.
#[derive(Clone, Debug, PartialEq, Eq)]
pub struct BadWordsServiceOkResponse {
    pub content: String,
    pub bad_words_total: i64,
    pub bad_words_list: Vec<BadWord>,
    pub censored_content: String,
}

/// One flagged word inside a censorship answer.
#[derive(Clone, Debug, PartialEq, Eq)]
pub struct BadWord {
    pub original: String,
    pub word: String,
    pub deviations: i64,
    pub info: i64,
    pub start: i64,
    pub end: i64,
    pub replaced_len: i64,
}

/// What the censorship call's parsed answer means for the text: a response
/// that could not be obtained or read — a transport failure, an unsuccessful
/// status, an unreadable body — is `ExternalApiError`; otherwise the text is
/// replaced by the censored content.
pub fn extract_censored_content(response: Option<BadWordsServiceOkResponse>) -> (r: Result<
    String,
    ServiceError,
>)
    ensures
        response matches Some(ok) ==> r == Ok::<String, ServiceError>(ok.censored_content),
        response is None ==> r == Err::<String, ServiceError>(ServiceError::ExternalApiError),
{
    match response {
        Some(ok) => Ok(ok.censored_content),
        None => Err(ServiceError::ExternalApiError),
    }
}

} // verus!
