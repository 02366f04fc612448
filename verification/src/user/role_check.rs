use vstd::prelude::*;
use crate::failure::{STATUS_FORBIDDEN, STATUS_UNAUTHORIZED};
use crate::role::{role_below, role_less, Role};

verus! {

/// Where the login pages live.
pub const LOGIN_ROUTE: &'static str = "/user-login";

/// Where the account pages live.
pub const USER_ROUTE: &'static str = "/user";

/// A guard that lets through requests whose user ranks at least a given role.
#[derive(Debug, Clone, Copy)]
pub struct UserRoleCheck(pub Role);

impl UserRoleCheck {
    /// The guard's decision on a request by a user of role `role`: one ranked
    /// below the required role is refused with 401.
    pub fn call(&self, role: Role) -> (r: Result<(), u16>)
        ensures
            r is Ok <==> !role_below(role, self.0),
            r matches Err(s) ==> s == STATUS_UNAUTHORIZED,
    {
        if role_less(&role, &self.0) {
            Err(STATUS_UNAUTHORIZED)
        } else {
            Ok(())
        }
    }
}

/// The guard of pages for signed-in users.
pub fn must_be_user() -> (r: UserRoleCheck)
    ensures
        r.0 == Role::User,
{
    UserRoleCheck(Role::User)
}

/// The guard of pages for root users.
pub fn must_be_root() -> (r: UserRoleCheck)
    ensures
        r.0 == Role::Root,
{
    UserRoleCheck(Role::Root)
}

/// The guard of pages for the anonymous visitor only (the login form): any
/// signed-in user is refused with 403.
pub fn visitor_only(role: Role) -> (r: Result<(), u16>)
    ensures
        r is Ok <==> role == Role::Visitor,
        r matches Err(s) ==> s == STATUS_FORBIDDEN,
{
    if role != Role::Visitor {
        Err(STATUS_FORBIDDEN)
    } else {
        Ok(())
    }
}

/// The guard of pages for signed-in users that sends the anonymous visitor to
/// the login page: `Err` holds where to redirect.
pub fn visitor_redirect(role: Role) -> (r: Result<(), &'static str>)
    ensures
        r is Ok <==> role != Role::Visitor,
        r matches Err(to) ==> to@ == LOGIN_ROUTE@,
{
    if role == Role::Visitor {
        Err(LOGIN_ROUTE)
    } else {
        Ok(())
    }
}

/// A role guard that lets a role through lets every role ranked above it
/// through as well.
pub proof fn lemma_guard_admits_higher_roles(required: Role, a: Role, b: Role)
    requires
        !role_below(a, required),
        !role_below(b, a),
    ensures
        !role_below(b, required),
{
}

/// The anonymous visitor passes no role guard of the signed-in pages, and
/// every signed-in user passes the user guard.
pub proof fn lemma_guards_split_visitors(role: Role)
    ensures
        !role_below(role, Role::User) <==> role != Role::Visitor,
        !role_below(role, Role::Root) <==> role == Role::Root,
{
}

} // verus!
