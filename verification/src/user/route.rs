use vstd::prelude::*;
use crate::html::context::Flash;
use crate::locale::{text_or, Locale};
use crate::role::{role_below, role_name, Role};
use crate::text::{join2, owned, signed_decimal, with_number};
use crate::user::model::ListUser;
use crate::user::role_check::{LOGIN_ROUTE, USER_ROUTE};

verus! {

/// The list of accounts, where the browser goes after a change.
pub fn user_list_location() -> (r: String)
    ensures
        r@ == "/user/"@,
{
    proof {
        reveal_strlit("/user");
        reveal_strlit("/");
        reveal_strlit("/user/");
    }
    let r = join2(USER_ROUTE, "/");
    assert(r@ =~= "/user/"@);
    r
}

/// The page that creates an account.
pub fn user_add_href() -> (r: String)
    ensures
        r@ == "/user/add-user"@,
{
    proof {
        reveal_strlit("/user");
        reveal_strlit("/add-user");
        reveal_strlit("/user/add-user");
    }
    let r = join2(USER_ROUTE, "/add-user");
    assert(r@ =~= "/user/add-user"@);
    r
}

/// The page that edits account `id`.
pub fn user_edit_href(id: i64) -> (r: String)
    ensures
        r@ == "/user/edit/"@ + signed_decimal(id as int),
{
    with_number("/user/edit/", id)
}

/// The page that sets the password of account `id`.
pub fn user_password_href(id: i64) -> (r: String)
    ensures
        r@ == "/user/edit-password/"@ + signed_decimal(id as int),
{
    with_number("/user/edit-password/", id)
}

/// The request that signs account `id` out everywhere.
pub fn user_sign_out_href(id: i64) -> (r: String)
    ensures
        r@ == "/user/sign-out/"@ + signed_decimal(id as int),
{
    with_number("/user/sign-out/", id)
}

/// Whether the account pages offer their management actions (the action
/// column, the links on each account and the link that adds one).
pub fn shows_user_admin(viewer: Role) -> (r: bool)
    ensures
        r == (viewer == Role::Root),
{
    viewer == Role::Root
}

/// The links a row of the account list offers.
#[derive(Debug)]
pub struct UserRowActions {
    pub edit_href: String,
    pub password_href: String,
    pub sign_out_href: String,
}

/// One account as the list page shows it.
#[derive(Debug)]
pub struct UserListRow {
    pub id: i64,
    pub username: String,
    pub role: String,
    /// The management links, offered to root only.
    pub actions: Option<UserRowActions>,
}

/// `row` shows `user` to a viewer of role `viewer`.
pub open spec fn user_row_shows(row: UserListRow, user: ListUser, viewer: Role) -> bool {
    &&& row.id == user.id
    &&& row.username@ == user.username@
    &&& row.role@ == role_name(user.role)
    &&& (row.actions is Some <==> viewer == Role::Root)
    &&& (row.actions matches Some(a) ==> a.edit_href@ == "/user/edit/"@ + signed_decimal(user.id as int)
            && a.password_href@ == "/user/edit-password/"@ + signed_decimal(user.id as int)
            && a.sign_out_href@ == "/user/sign-out/"@ + signed_decimal(user.id as int))
}

/// The rows of the account list, one per account and in the same order.
pub fn user_list_rows(viewer: Role, users: &Vec<ListUser>) -> (r: Vec<UserListRow>)
    ensures
        r@.len() == users@.len(),
        forall|i: int| 0 <= i < users@.len() ==> user_row_shows(#[trigger] r@[i], users@[i], viewer),
{
    let admin = shows_user_admin(viewer);
    let mut rows: Vec<UserListRow> = Vec::new();
    let mut i: usize = 0;
    while i < users.len()
        invariant
            i <= users@.len(),
            rows@.len() == i,
            admin == (viewer == Role::Root),
            forall|k: int| 0 <= k < i ==> user_row_shows(#[trigger] rows@[k], users@[k], viewer),
        decreases users@.len() - i,
    {
        let user = &users[i];
        let actions = if admin {
            Some(UserRowActions {
                edit_href: user_edit_href(user.id),
                password_href: user_password_href(user.id),
                sign_out_href: user_sign_out_href(user.id),
            })
        } else {
            None
        };
        rows.push(UserListRow { id: user.id, username: user.username.clone(), role: user.role.as_stringed(), actions });
        i = i + 1;
    }
    rows
}

/// The account list offers its management links exactly to the viewers that
/// the root guard of the management pages lets through.
pub proof fn lemma_user_actions_match_root_guard(row: UserListRow, user: ListUser, viewer: Role)
    requires
        user_row_shows(row, user, viewer),
    ensures
        row.actions is Some <==> !role_below(viewer, Role::Root),
{
}

/// A translated message, or the English text when there is no translation.
pub open spec fn translated_or(translated: Option<String>, english: Seq<char>) -> Seq<char> {
    match translated {
        Some(t) => t@,
        None => english,
    }
}

/// The message shown after account `user_id` was edited: the translation of
/// `user-route-flash-edit-success` for that id when the caller found one.
pub fn user_edited_flash(translated: Option<String>, user_id: i64) -> (r: Flash)
    ensures
        r matches Flash::Success { msg }
            && msg@ == translated_or(translated, "Successfully edited user id: "@ + signed_decimal(user_id as int)),
{
    match translated {
        Some(t) => Flash::Success { msg: t },
        None => Flash::Success { msg: with_number("Successfully edited user id: ", user_id) },
    }
}

/// The message shown after the password of account `user_id` was set: the
/// translation of `user-route-flash-password-success` when the caller found one.
pub fn password_edited_flash(translated: Option<String>, user_id: i64) -> (r: Flash)
    ensures
        r matches Flash::Success { msg }
            && msg@ == translated_or(translated, "Successfully edited password for user id: "@ + signed_decimal(user_id as int)),
{
    match translated {
        Some(t) => Flash::Success { msg: t },
        None => Flash::Success { msg: with_number("Successfully edited password for user id: ", user_id) },
    }
}

/// The message shown after account `username` was created: the translation
/// of `user-route-flash-add-success` when the caller found one.
pub fn user_added_flash(translated: Option<String>, username: &str) -> (r: Flash)
    ensures
        r matches Flash::Success { msg }
            && msg@ == translated_or(translated, "Successfully created user: "@ + username@),
{
    match translated {
        Some(t) => Flash::Success { msg: t },
        None => Flash::Success { msg: join2("Successfully created user: ", username) },
    }
}

/// The message shown after account `user_id` was to be signed out
/// everywhere: an error when revoking its tokens failed, else a success. The
/// caller passes the translation of `user-route-flash-sign-out-error` or
/// `user-route-flash-sign-out-success` (whichever applies) when it found one.
pub fn sign_out_flash(revoked: bool, translated: Option<String>, user_id: i64) -> (r: Flash)
    ensures
        !revoked ==> (r matches Flash::Error { msg }
            && msg@ == translated_or(translated, "Failed to sign out user id: "@ + signed_decimal(user_id as int))),
        revoked ==> (r matches Flash::Success { msg }
            && msg@ == translated_or(translated, "Successfully signed out user id: "@ + signed_decimal(user_id as int))),
{
    let msg = match translated {
        Some(t) => t,
        None => if revoked {
            with_number("Successfully signed out user id: ", user_id)
        } else {
            with_number("Failed to sign out user id: ", user_id)
        },
    };
    if revoked {
        Flash::Success { msg }
    } else {
        Flash::Error { msg }
    }
}

/// The cookie that carries a signed-in account's session token.
pub const LOGIN_TOKEN_COOKIE_NAME: &'static str = "login-token";

/// How many days a session token cookie lasts.
pub const LOGIN_TOKEN_LIFETIME_DAYS: i64 = 30;

/// The session token cookie set after a login.
#[derive(Debug)]
pub struct LoginCookie {
    pub name: String,
    pub value: String,
    pub path: String,
    /// The cookie expires this many days after it is set.
    pub lifetime_days: i64,
    pub secure: bool,
    pub http_only: bool,
}

/// `c` is the session cookie of `token`: named `login-token`, for the whole
/// site, expiring 30 days after it is set, sent over HTTPS only and hidden
/// from scripts.
pub open spec fn is_login_cookie(c: LoginCookie, token: Seq<char>) -> bool {
    &&& c.name@ == "login-token"@
    &&& c.value@ == token
    &&& c.path@ == "/"@
    &&& c.lifetime_days == 30
    &&& c.secure
    &&& c.http_only
}

/// The session cookie that carries `token`.
pub fn login_cookie(token: String) -> (r: LoginCookie)
    ensures
        is_login_cookie(r, token@),
{
    LoginCookie {
        name: owned(LOGIN_TOKEN_COOKIE_NAME),
        value: token,
        path: owned("/"),
        lifetime_days: LOGIN_TOKEN_LIFETIME_DAYS,
        secure: true,
        http_only: true,
    }
}

/// What a login form submission is answered with: the message to flash, where
/// to send the browser, and the session token to set as a cookie.
#[derive(Debug)]
pub struct LoginOutcome {
    pub flash: Flash,
    pub location: String,
    pub token: Option<String>,
}

/// The answer to a login once its token (if any) is known: a signed-in user
/// goes home with a success message and the token, anyone else back to the
/// login page with a failure message.
pub fn login_post_outcome(l: &Locale, token: Option<String>) -> (r: LoginOutcome)
    ensures
        r.token == token,
        token is Some ==> (r.flash matches Flash::Success { msg }
            && msg@ == text_or(l.entries@, "login-post-flash-success"@, "Login success"@)
            && r.location@ == "/"@),
        token is None ==> (r.flash matches Flash::Error { msg }
            && msg@ == text_or(l.entries@, "login-post-flash-failed"@, "Login failed"@)
            && r.location@ == "/user-login/"@),
{
    match token {
        Some(t) => LoginOutcome {
            flash: Flash::Success { msg: l.text_with_default("login-post-flash-success", "Login success") },
            location: owned("/"),
            token: Some(t),
        },
        None => {
            proof {
                reveal_strlit("/user-login");
                reveal_strlit("/");
                reveal_strlit("/user-login/");
            }
            let location = join2(LOGIN_ROUTE, "/");
            assert(location@ =~= "/user-login/"@);
            LoginOutcome {
                flash: Flash::Error { msg: l.text_with_default("login-post-flash-failed", "Login failed") },
                location,
                token: None,
            }
        },
    }
}

/// The message shown after signing out; the browser then goes home.
pub fn logout_flash(l: &Locale) -> (r: Flash)
    ensures
        r matches Flash::Success { msg }
            && msg@ == text_or(l.entries@, "login-logout-post-success"@, "Logout success"@),
{
    Flash::Success { msg: l.text_with_default("login-logout-post-success", "Logout success") }
}

} // verus!
