use vstd::prelude::*;
use crate::role::Role;

verus! {

/// Who is making the request: an account, or the anonymous visitor.
#[derive(Debug)]
pub struct UserIdContext {
    pub id: i64,
    pub username: String,
    pub role: Role,
}

/// An account's id and its stored password hash.
#[derive(Debug)]
pub struct IdPassword {
    pub id: i64,
    pub password: Vec<u8>,
}

/// The editable details of an account.
#[derive(Debug)]
pub struct FetchUser {
    pub username: String,
    pub role: Role,
}

/// One account in the list of accounts.
#[derive(Debug)]
pub struct ListUser {
    pub id: i64,
    pub username: String,
    pub role: Role,
}

/// An account's stored password hash.
#[derive(Debug)]
pub struct FetchPassword {
    pub password: Vec<u8>,
}

} // verus!

verus! {

/// The context of a request made by nobody signed in: the anonymous visitor,
/// under the name that no account may take.
pub fn visitor_context() -> (r: UserIdContext)
    ensures
        r.id == 0,
        r.username@ == "visitor"@,
        r.role == Role::Visitor,
{
    UserIdContext { id: 0, username: crate::text::owned("visitor"), role: Role::Visitor }
}

/// Who made a request, given the lookup of its session token (`None` when
/// it carried none): the account the token belongs to, else the visitor.
pub fn request_user<E>(found: Option<Result<UserIdContext, E>>) -> (r: UserIdContext)
    ensures
        found matches Some(Ok(u)) ==> r == u,
        !(found matches Some(Ok(_))) ==> r.id == 0 && r.username@ == "visitor"@ && r.role == Role::Visitor,
{
    match found {
        Some(Ok(u)) => u,
        _ => visitor_context(),
    }
}

} // verus!
