//! The ownership authorizer: the decision function mutating operations
//! consult before applying an update or delete.

use vstd::prelude::*;
use crate::errors::ServiceError;
use crate::users::UserTknDetails;

verus! {

/// The decision rule: allow when the caller is a moderator (moderators may
/// act on any resource), or when the caller is the resource's recorded owner.
pub open spec fn spec_authorized(owner: Seq<char>, caller_id: Seq<char>, is_moderator: bool) -> bool {
    is_moderator || owner == caller_id
}

/// Whether `caller` may mutate a resource whose recorded owner is
/// `resource_owner_id`.
pub fn authorize(resource_owner_id: &String, caller: &UserTknDetails) -> (r: bool)
    ensures
        r == spec_authorized(resource_owner_id@, caller._id@, caller.is_moderator),
{
    caller.is_moderator || *resource_owner_id == caller._id
}

/// The authorizer as mutating operations consume it: on a denial the
/// caller-visible outcome is `ObjectNotFound`, indistinguishable from a
/// resource that does not exist, so that resources owned by others do not
/// leak their existence.
pub fn authorize_mutation(resource_owner_id: &String, caller: &UserTknDetails) -> (r: Result<
    (),
    ServiceError,
>)
    ensures
        spec_authorized(resource_owner_id@, caller._id@, caller.is_moderator) ==> r == Ok::<
            (),
            ServiceError,
        >(()),
        !spec_authorized(resource_owner_id@, caller._id@, caller.is_moderator) ==> r == Err::<
            (),
            ServiceError,
        >(ServiceError::ObjectNotFound),
{
    if authorize(resource_owner_id, caller) {
        Ok(())
    } else {
        Err(ServiceError::ObjectNotFound)
    }
}

} // verus!
