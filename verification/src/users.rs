//! Account data shapes and the moderator enrollment guard: elevating a new
//! account to moderator privilege requires presenting the secret enrollment
//! key matching server configuration.

use vstd::prelude::*;
use crate::errors::ServiceError;
use crate::text::{is_blank, spec_is_blank};

verus! {

/// An account-creation request body.
#[derive(Clone, Debug, PartialEq, Eq)]
pub struct UserIn {
    pub email: String,
    pub password: String,
    pub first_name: String,
    pub last_name: String,
    pub is_moderator: Option<bool>,
}

/// A stored account row, as the storage layer hands it back.
#[derive(Clone, Debug, PartialEq, Eq)]
pub struct UserOut {
    pub _id: String,
    pub created_at: String,
    pub email: String,
    pub first_name: String,
    pub last_name: String,
    pub is_moderator: bool,
    pub is_staff: bool,
    pub is_superuser: bool,
}

/// The validated identity: the only thing handlers may trust about the
/// caller, derived exclusively from successfully validated token claims.
#[derive(Clone, Debug, PartialEq, Eq)]
pub struct UserTknDetails {
    pub _id: String,
    pub is_moderator: bool,
}

/// Whether an account-creation request may proceed: either no moderator
/// privilege was requested, or the presented key is neither absent nor blank
/// and equals the configured key exactly.
pub open spec fn enrollment_allowed(
    requested: bool,
    presented: Option<Seq<char>>,
    configured: Seq<char>,
) -> bool {
    !requested || {
        let key = match presented {
            Some(k) => k,
            None => Seq::empty(),
        };
        !spec_is_blank(key) && key == configured
    }
}

/// The moderator enrollment guard, run once at account-creation time before
/// the new account is persisted. An absent, blank, or mismatched key is
/// rejected with `AuthCredsMissing`; a request without moderator privilege
/// always passes, unchanged.
pub fn validate_moderator(
    new_user: UserIn,
    moderator_key_presented: Option<String>,
    moderator_key_real: String,
) -> (r: Result<UserIn, ServiceError>)
    ensures
        ({
            let requested = new_user.is_moderator == Some(true);
            let presented = match moderator_key_presented {
                Some(k) => Some(k@),
                None => None::<Seq<char>>,
            };
            if enrollment_allowed(requested, presented, moderator_key_real@) {
                r == Ok::<UserIn, ServiceError>(new_user)
            } else {
                r == Err::<UserIn, ServiceError>(ServiceError::AuthCredsMissing)
            }
        }),
{
    let requested = match new_user.is_moderator {
        Some(b) => b,
        None => false,
    };
    if requested {
        let key_presented = match &moderator_key_presented {
            Some(k) => k.clone(),
            None => String::new(),
        };
        if is_blank(key_presented.as_str()) {
            return Err(ServiceError::AuthCredsMissing);
        }
        if !(moderator_key_real == key_presented) {
            return Err(ServiceError::AuthCredsMissing);
        }
    }
    Ok(new_user)
}

} // verus!
