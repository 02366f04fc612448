use vstd::prelude::*;
use crate::failure::STATUS_FORBIDDEN;
use crate::role::{role_below, role_less, Role};
use crate::user::model::UserIdContext;

verus! {

/// The user may edit or delete a short URL: a root user may touch any, others
/// only those they created.
pub open spec fn may_manage_url(role: Role, user_id: i64, owner_id: i64) -> bool {
    role == Role::Root || user_id == owner_id
}

/// The check made before a short URL is edited or deleted: a user below root
/// who did not create the URL is refused with 403.
pub fn url_access(user: &UserIdContext, owner_id: i64) -> (r: Result<(), u16>)
    ensures
        r is Ok <==> !(role_below(user.role, Role::Root) && user.id != owner_id),
        r is Ok <==> (user.role == Role::Root || user.id == owner_id),
        r matches Err(s) ==> s == 403u16,
{
    if role_less(&user.role, &Role::Root) && user.id != owner_id {
        Err(STATUS_FORBIDDEN)
    } else {
        Ok(())
    }
}

/// Whether the list of short URLs offers the edit and delete actions on a URL.
pub fn shows_url_actions(user: &UserIdContext, owner_id: i64) -> (r: bool)
    ensures
        r == (user.role == Role::Root || user.id == owner_id),
{
    user.role == Role::Root || user.id == owner_id
}

/// The list offers the edit and delete actions exactly on the short URLs whose
/// edit and delete requests the access check lets through.
pub proof fn lemma_actions_match_access(role: Role, user_id: i64, owner_id: i64)
    ensures
        (role == Role::Root || user_id == owner_id) <==> !(role_below(role, Role::Root) && user_id != owner_id),
        may_manage_url(role, user_id, owner_id) <==> !(role_below(role, Role::Root) && user_id != owner_id),
{
}

} // verus!
