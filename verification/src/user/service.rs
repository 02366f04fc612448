use vstd::prelude::*;
use crate::failure::{wraps, Failure, STATUS_INTERNAL_SERVER_ERROR, STATUS_NOT_FOUND};
use crate::role::Role;
use crate::user::form::{AddUserValidated, EditUserValidated};
use crate::user::model::{FetchUser, IdPassword, ListUser};
use crate::user::repository::{UserManagerRepositoryError, UserRepositoryError};

verus! {

/// A lowercase hexadecimal digit.
pub open spec fn is_lower_hex(c: char) -> bool {
    ('0' <= c && c <= '9') || ('a' <= c && c <= 'f')
}

/// The text of a random (version 4, RFC 4122 variant) UUID in its hyphenated
/// lowercase form: 36 characters, hyphens at 8, 13, 18 and 23, lowercase hex
/// digits elsewhere, the version digit `4` at 14 and a variant digit among
/// `8`, `9`, `a`, `b` at 19.
pub open spec fn is_uuid_v4_text(s: Seq<char>) -> bool {
    &&& s.len() == 36
    &&& forall|i: int| 0 <= i < 36 ==>
        (if i == 8 || i == 13 || i == 18 || i == 23 { #[trigger] s[i] == '-' } else { is_lower_hex(s[i]) })
    &&& s[14] == '4'
    &&& (s[19] == '8' || s[19] == '9' || s[19] == 'a' || s[19] == 'b')
}

/// uuid's `Uuid::new_v4` rendered with `to_string`. Claimed, from uuid's
/// source: `new_v4` sets the version bits to 4 and the variant bits to `10`
/// over random bits, and `to_string` writes the hyphenated lowercase form.
/// Which random digits come out is not claimed.
#[verifier::external_body]
fn new_login_token() -> (r: String)
    ensures
        is_uuid_v4_text(r@),
{
    uuid::Uuid::new_v4().to_string()
}

/// Hashes and verifies passwords (the hashing itself is done by the caller).
#[derive(Debug)]
pub struct PasswordLayer {}

impl PasswordLayer {
    pub fn new() -> (r: PasswordLayer) {
        PasswordLayer {}
    }
}

/// The next thing a login attempt needs, or its outcome.
#[derive(Debug)]
pub enum LoginStep {
    /// Verify the submitted password against this account's stored hash.
    VerifyPassword { user_id: i64, password_hash: Vec<u8> },
    /// Store this fresh token for this account.
    StoreToken { token: String, user_id: i64 },
    /// The attempt is over: the session token, or `None` when it failed.
    Done(Option<String>),
}

/// Signs people in and out.
#[derive(Debug)]
pub struct UserLoginService {
    pub token_cookie: Option<String>,
}

impl UserLoginService {
    /// A service for a request that carried `token_cookie`, if any.
    pub fn new(token_cookie: Option<String>) -> (r: UserLoginService)
        ensures
            r.token_cookie == token_cookie,
    {
        UserLoginService { token_cookie }
    }

    /// Starts a login, given the lookup of the submitted username's password:
    /// an unknown name (or a failed lookup) ends the attempt.
    pub fn validate_login(&self, found: Result<IdPassword, Failure<UserRepositoryError>>) -> (r: LoginStep)
        ensures
            match found {
                Ok(ip) => r == LoginStep::VerifyPassword { user_id: ip.id, password_hash: ip.password },
                Err(_) => r == LoginStep::Done(None),
            },
    {
        match found {
            Ok(ip) => LoginStep::VerifyPassword { user_id: ip.id, password_hash: ip.password },
            Err(_) => LoginStep::Done(None),
        }
    }

    /// Continues a login once the password was verified: a valid password
    /// gets a fresh random token (a version 4 UUID) to store, any other
    /// outcome ends the attempt.
    pub fn password_verified(&self, user_id: i64, valid: bool) -> (r: LoginStep)
        ensures
            valid ==> (r matches LoginStep::StoreToken { token, user_id: u } && u == user_id && is_uuid_v4_text(token@)),
            !valid ==> r == LoginStep::Done(None),
    {
        if valid {
            LoginStep::StoreToken { token: new_login_token(), user_id }
        } else {
            LoginStep::Done(None)
        }
    }

    /// Ends a login once the token was stored: the token is handed out only
    /// when it was stored.
    pub fn token_stored(&self, token: String, stored: Result<(), Failure<UserRepositoryError>>) -> (r: Option<String>)
        ensures
            stored is Ok ==> r == Some(token),
            stored is Err ==> r is None,
    {
        match stored {
            Ok(()) => Some(token),
            Err(_) => None,
        }
    }

    /// The token to revoke on logout: the one the request carried, if any.
    pub fn logout_token(&self) -> (r: Option<String>)
        ensures
            r == self.token_cookie,
    {
        self.token_cookie.clone()
    }

    /// Whether the logout succeeded: there was a token and revoking it worked.
    pub fn logout(&self, revoked: Option<Result<(), Failure<UserRepositoryError>>>) -> (r: bool)
        ensures
            r == (self.token_cookie is Some && revoked matches Some(Ok(_))),
    {
        match (&self.token_cookie, revoked) {
            (Some(_), Some(Ok(()))) => true,
            _ => false,
        }
    }
}

/// How hashing a new password failed: the hash itself, or its encoding.
#[derive(Debug, Clone, Copy, PartialEq, Eq, Structural)]
pub enum PasswordHashFailure {
    Hash,
    Serialize,
}

/// Why an account could not be created.
#[derive(Debug, Clone, Copy, PartialEq, Eq, Structural)]
pub enum AddUserServiceError {
    SubmitFailed,
    PasswordHashError,
    PasswordSerializeError,
}

/// Why an account's password could not be set.
#[derive(Debug, Clone, Copy, PartialEq, Eq, Structural)]
pub enum EditPasswordServiceError {
    UserNotFound,
    DbError,
    PasswordHashError,
    PasswordSerializeError,
}

/// Why an account could not be edited.
#[derive(Debug, Clone, Copy, PartialEq, Eq, Structural)]
pub enum EditUserServiceError {
    SubmitFailed,
    UserNotFound,
}

/// The row to insert for a new account.
#[derive(Debug)]
pub struct AddUserRecord {
    pub username: String,
    pub password: Vec<u8>,
    pub role: Role,
}

/// Whether a name is taken: the lookup's answer, or no when it failed.
pub open spec fn taken_or_free<E>(r: Result<bool, Failure<E>>) -> bool {
    match r {
        Ok(b) => b,
        Err(_) => false,
    }
}

/// The outcome of looking up an account by id, under a service's error.
pub open spec fn user_outcome<E>(
    found: Result<Option<FetchUser>, Failure<UserManagerRepositoryError>>,
    r: Result<FetchUser, Failure<E>>,
    not_found: E,
) -> bool {
    match found {
        Ok(Some(u)) => r == Ok::<FetchUser, Failure<E>>(u),
        Ok(None) => r == Err::<FetchUser, Failure<E>>(Failure { error: not_found, status: Some(STATUS_NOT_FOUND), note: None }),
        Err(f) => r matches Err(g) && wraps(f, g, not_found),
    }
}

/// Creates accounts.
#[derive(Debug)]
pub struct AddUserService {}

impl AddUserService {
    pub fn new() -> (r: AddUserService) {
        AddUserService {}
    }

    /// The row to store for a validated form, given the outcome of hashing
    /// its password: a hashing failure is a server error.
    pub fn add_user_record(
        &self,
        form: &AddUserValidated,
        hashed: Result<Vec<u8>, PasswordHashFailure>,
    ) -> (r: Result<AddUserRecord, Failure<AddUserServiceError>>)
        ensures
            match hashed {
                Ok(h) => r matches Ok(rec) && rec.username@ == form.username.value@ && rec.password == h
                    && rec.role == form.role,
                Err(PasswordHashFailure::Hash) => r == Err::<AddUserRecord, Failure<AddUserServiceError>>(
                    Failure { error: AddUserServiceError::PasswordHashError, status: Some(STATUS_INTERNAL_SERVER_ERROR), note: None }),
                Err(PasswordHashFailure::Serialize) => r == Err::<AddUserRecord, Failure<AddUserServiceError>>(
                    Failure { error: AddUserServiceError::PasswordSerializeError, status: Some(STATUS_INTERNAL_SERVER_ERROR), note: None }),
            },
    {
        match hashed {
            Ok(h) => Ok(AddUserRecord { username: form.username.value.clone(), password: h, role: form.role }),
            Err(PasswordHashFailure::Hash) => Err(Failure::with_status(AddUserServiceError::PasswordHashError, STATUS_INTERNAL_SERVER_ERROR)),
            Err(PasswordHashFailure::Serialize) => Err(Failure::with_status(AddUserServiceError::PasswordSerializeError, STATUS_INTERNAL_SERVER_ERROR)),
        }
    }

    /// The outcome of creating the account, given the outcome of the insert.
    pub fn add_user_submit(&self, stored: Result<(), Failure<UserManagerRepositoryError>>) -> (r: Result<(), Failure<AddUserServiceError>>)
        ensures
            stored is Ok <==> r is Ok,
            stored matches Err(f) ==> (r matches Err(g) && wraps(f, g, AddUserServiceError::SubmitFailed)),
    {
        match stored {
            Ok(()) => Ok(()),
            Err(f) => Err(Failure { error: AddUserServiceError::SubmitFailed, status: f.status, note: f.note }),
        }
    }

    /// Whether a username is taken, given the lookup (a failed lookup says no).
    pub fn is_username_taken(&self, looked_up: Result<bool, Failure<UserManagerRepositoryError>>) -> (r: bool)
        ensures
            r == taken_or_free(looked_up),
    {
        match looked_up {
            Ok(b) => b,
            Err(_) => false,
        }
    }
}

/// Sets account passwords.
#[derive(Debug)]
pub struct EditPasswordService {}

impl EditPasswordService {
    pub fn new() -> (r: EditPasswordService) {
        EditPasswordService {}
    }

    /// The hash to store, given the outcome of hashing the new password.
    pub fn hash_password(&self, hashed: Result<Vec<u8>, PasswordHashFailure>) -> (r: Result<Vec<u8>, Failure<EditPasswordServiceError>>)
        ensures
            match hashed {
                Ok(h) => r == Ok::<Vec<u8>, Failure<EditPasswordServiceError>>(h),
                Err(PasswordHashFailure::Hash) => r == Err::<Vec<u8>, Failure<EditPasswordServiceError>>(
                    Failure { error: EditPasswordServiceError::PasswordHashError, status: Some(STATUS_INTERNAL_SERVER_ERROR), note: None }),
                Err(PasswordHashFailure::Serialize) => r == Err::<Vec<u8>, Failure<EditPasswordServiceError>>(
                    Failure { error: EditPasswordServiceError::PasswordSerializeError, status: Some(STATUS_INTERNAL_SERVER_ERROR), note: None }),
            },
    {
        match hashed {
            Ok(h) => Ok(h),
            Err(PasswordHashFailure::Hash) => Err(Failure::with_status(EditPasswordServiceError::PasswordHashError, STATUS_INTERNAL_SERVER_ERROR)),
            Err(PasswordHashFailure::Serialize) => Err(Failure::with_status(EditPasswordServiceError::PasswordSerializeError, STATUS_INTERNAL_SERVER_ERROR)),
        }
    }

    /// The update to make for account `user_id`, given the outcome of hashing
    /// its new password: the account's id with the hash, or the hashing
    /// failure as a server error.
    pub fn edit_password_record(&self, user_id: i64, hashed: Result<Vec<u8>, PasswordHashFailure>) -> (r: Result<EditPasswordRecord, Failure<EditPasswordServiceError>>)
        ensures
            match hashed {
                Ok(h) => r matches Ok(rec) && rec.id == user_id && rec.password == h,
                Err(PasswordHashFailure::Hash) => r == Err::<EditPasswordRecord, Failure<EditPasswordServiceError>>(
                    Failure { error: EditPasswordServiceError::PasswordHashError, status: Some(STATUS_INTERNAL_SERVER_ERROR), note: None }),
                Err(PasswordHashFailure::Serialize) => r == Err::<EditPasswordRecord, Failure<EditPasswordServiceError>>(
                    Failure { error: EditPasswordServiceError::PasswordSerializeError, status: Some(STATUS_INTERNAL_SERVER_ERROR), note: None }),
            },
    {
        match self.hash_password(hashed) {
            Ok(h) => Ok(EditPasswordRecord { id: user_id, password: h }),
            Err(f) => Err(f),
        }
    }

    /// The outcome of setting the password, given the outcome of the update.
    pub fn edit_password_submit(&self, stored: Result<(), Failure<UserManagerRepositoryError>>) -> (r: Result<(), Failure<EditPasswordServiceError>>)
        ensures
            stored is Ok <==> r is Ok,
            stored matches Err(f) ==> (r matches Err(g) && wraps(f, g, EditPasswordServiceError::DbError)),
    {
        match stored {
            Ok(()) => Ok(()),
            Err(f) => Err(Failure { error: EditPasswordServiceError::DbError, status: f.status, note: f.note }),
        }
    }

    /// The account, given the lookup by id.
    pub fn fetch_user(&self, found: Result<Option<FetchUser>, Failure<UserManagerRepositoryError>>) -> (r: Result<FetchUser, Failure<EditPasswordServiceError>>)
        ensures
            user_outcome(found, r, EditPasswordServiceError::UserNotFound),
    {
        match found {
            Ok(Some(u)) => Ok(u),
            Ok(None) => Err(Failure::with_status(EditPasswordServiceError::UserNotFound, STATUS_NOT_FOUND)),
            Err(f) => Err(Failure { error: EditPasswordServiceError::UserNotFound, status: f.status, note: f.note }),
        }
    }
}

/// The new password hash of an existing account.
#[derive(Debug)]
pub struct EditPasswordRecord {
    pub id: i64,
    pub password: Vec<u8>,
}

/// The new name and role of an existing account.
#[derive(Debug)]
pub struct EditUserRecord {
    pub id: i64,
    pub username: String,
    pub role: Role,
}

/// Renames accounts and changes their role.
#[derive(Debug)]
pub struct EditUserService {}

impl EditUserService {
    pub fn new() -> (r: EditUserService) {
        EditUserService {}
    }

    /// The values to store for account `user_id` from a validated form.
    pub fn edit_user_record(&self, user_id: i64, form: &EditUserValidated) -> (r: EditUserRecord)
        ensures
            r.id == user_id,
            r.username@ == form.username.value@,
            r.role == form.role,
    {
        EditUserRecord { id: user_id, username: form.username.value.clone(), role: form.role }
    }

    /// The outcome of editing, given the outcome of the update.
    pub fn edit_user_submit(&self, stored: Result<(), Failure<UserManagerRepositoryError>>) -> (r: Result<(), Failure<EditUserServiceError>>)
        ensures
            stored is Ok <==> r is Ok,
            stored matches Err(f) ==> (r matches Err(g) && wraps(f, g, EditUserServiceError::SubmitFailed)),
    {
        match stored {
            Ok(()) => Ok(()),
            Err(f) => Err(Failure { error: EditUserServiceError::SubmitFailed, status: f.status, note: f.note }),
        }
    }

    /// The account, given the lookup by id.
    pub fn fetch_user(&self, found: Result<Option<FetchUser>, Failure<UserManagerRepositoryError>>) -> (r: Result<FetchUser, Failure<EditUserServiceError>>)
        ensures
            user_outcome(found, r, EditUserServiceError::UserNotFound),
    {
        match found {
            Ok(Some(u)) => Ok(u),
            Ok(None) => Err(Failure::with_status(EditUserServiceError::UserNotFound, STATUS_NOT_FOUND)),
            Err(f) => Err(Failure { error: EditUserServiceError::UserNotFound, status: f.status, note: f.note }),
        }
    }

    /// Whether a username is taken, given the lookup (a failed lookup says no).
    pub fn is_username_taken(&self, looked_up: Result<bool, Failure<UserManagerRepositoryError>>) -> (r: bool)
        ensures
            r == taken_or_free(looked_up),
    {
        match looked_up {
            Ok(b) => b,
            Err(_) => false,
        }
    }
}

/// Lists accounts.
#[derive(Debug)]
pub struct ListUserService {}

impl ListUserService {
    pub fn new() -> (r: ListUserService) {
        ListUserService {}
    }

    /// The accounts to show: those listed, or none when the listing failed.
    pub fn list_users(&self, listed: Result<Vec<ListUser>, Failure<UserManagerRepositoryError>>) -> (r: Vec<ListUser>)
        ensures
            match listed {
                Ok(v) => r == v,
                Err(_) => r@.len() == 0,
            },
    {
        match listed {
            Ok(v) => v,
            Err(_) => Vec::new(),
        }
    }
}

} // verus!
