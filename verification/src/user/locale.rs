use vstd::prelude::*;
use crate::locale::{text_or, Locale};
use crate::text::join3;

verus! {

/// The texts of the account forms.
#[derive(Debug)]
pub struct UserFormLocale {
    pub title_add: String,
    pub title_edit: String,
    pub title_edit_password: String,
    pub username: String,
    pub username_placeholder: String,
    pub password: String,
    pub password_placeholder: String,
    pub password_confirm: String,
    pub password_confirm_placeholder: String,
    pub role: String,
    pub submit_add: String,
    pub submit_edit: String,
    pub submit_password: String,
}

impl UserFormLocale {
    pub fn new(locale: &Locale) -> (r: UserFormLocale)
        ensures
            r.title_add@ == text_or(locale.entries@, "user-form-title-add"@, "Add User"@),
            r.title_edit@ == text_or(locale.entries@, "user-form-title-edit"@, "Edit User"@),
            r.title_edit_password@ == text_or(locale.entries@, "user-form-title-edit-password"@, "Edit User Password"@),
            r.username@ == text_or(locale.entries@, "user-form-username"@, "Username:"@),
            r.username_placeholder@ == text_or(locale.entries@, "user-form-username-placeholder"@, "Username"@),
            r.password@ == text_or(locale.entries@, "user-form-password"@, "Password:"@),
            r.password_placeholder@ == text_or(locale.entries@, "user-form-password-placeholder"@, "Password"@),
            r.password_confirm@ == text_or(locale.entries@, "user-form-password-confirm"@, "Password Confirm:"@),
            r.password_confirm_placeholder@ == text_or(locale.entries@, "user-form-password-confirm-placeholder"@, "Password Confirm"@),
            r.role@ == text_or(locale.entries@, "user-form-role"@, "Role:"@),
            r.submit_add@ == text_or(locale.entries@, "user-form-submit-add"@, "Add"@),
            r.submit_edit@ == text_or(locale.entries@, "user-form-submit-edit"@, "Edit"@),
            r.submit_password@ == text_or(locale.entries@, "user-form-submit-password"@, "Submit"@),
    {
        UserFormLocale {
            title_add: locale.text_with_default("user-form-title-add", "Add User"),
            title_edit: locale.text_with_default("user-form-title-edit", "Edit User"),
            title_edit_password: locale.text_with_default("user-form-title-edit-password", "Edit User Password"),
            username: locale.text_with_default("user-form-username", "Username:"),
            username_placeholder: locale.text_with_default("user-form-username-placeholder", "Username"),
            password: locale.text_with_default("user-form-password", "Password:"),
            password_placeholder: locale.text_with_default("user-form-password-placeholder", "Password"),
            password_confirm: locale.text_with_default("user-form-password-confirm", "Password Confirm:"),
            password_confirm_placeholder: locale.text_with_default("user-form-password-confirm-placeholder", "Password Confirm"),
            role: locale.text_with_default("user-form-role", "Role:"),
            submit_add: locale.text_with_default("user-form-submit-add", "Add"),
            submit_edit: locale.text_with_default("user-form-submit-edit", "Edit"),
            submit_password: locale.text_with_default("user-form-submit-password", "Submit"),
        }
    }
}

/// The texts of the login page.
#[derive(Debug)]
pub struct LoginLocale {
    pub title: String,
    pub username: String,
    pub password: String,
    pub confirm_button: String,
}

impl LoginLocale {
    pub fn new(locale: &Locale) -> (r: LoginLocale)
        ensures
            r.title@ == text_or(locale.entries@, "login-title"@, "User Login"@),
            r.username@ == text_or(locale.entries@, "login-username"@, "Username"@),
            r.password@ == text_or(locale.entries@, "login-password"@, "Password"@),
            r.confirm_button@ == text_or(locale.entries@, "login-confirm-button"@, "Login"@),
    {
        LoginLocale {
            title: locale.text_with_default("login-title", "User Login"),
            username: locale.text_with_default("login-username", "Username"),
            password: locale.text_with_default("login-password", "Password"),
            confirm_button: locale.text_with_default("login-confirm-button", "Login"),
        }
    }
}

/// The flash messages of a login attempt.
#[derive(Debug)]
pub struct LoginPostLocale {
    pub flash_success: String,
    pub flash_failed: String,
}

impl LoginPostLocale {
    pub fn new(locale: &Locale) -> (r: LoginPostLocale)
        ensures
            r.flash_success@ == text_or(locale.entries@, "login-post-flash-success"@, "Login success"@),
            r.flash_failed@ == text_or(locale.entries@, "login-post-flash-failed"@, "Login failed"@),
    {
        LoginPostLocale {
            flash_success: locale.text_with_default("login-post-flash-success", "Login success"),
            flash_failed: locale.text_with_default("login-post-flash-failed", "Login failed"),
        }
    }
}

/// The flash message of a logout.
#[derive(Debug)]
pub struct LogoutLocale {
    pub flash_success: String,
}

impl LogoutLocale {
    pub fn new(locale: &Locale) -> (r: LogoutLocale)
        ensures
            r.flash_success@ == text_or(locale.entries@, "login-logout-post-success"@, "Logout success"@),
    {
        LogoutLocale { flash_success: locale.text_with_default("login-logout-post-success", "Logout success") }
    }
}

/// The texts of the list of accounts.
#[derive(Debug)]
pub struct UserLocale {
    pub user_list_title: String,
    pub user_list_head_id: String,
    pub user_list_head_username: String,
    pub user_list_head_role: String,
    pub user_list_action_edit: String,
    pub user_list_action_password: String,
    pub user_list_action_sign_out: String,
    pub user_list_action_add_user: String,
}

impl UserLocale {
    pub fn new(l: &Locale) -> (r: UserLocale)
        ensures
            r.user_list_title@ == text_or(l.entries@, "user-route-list-user-title"@, "List of Users"@),
            r.user_list_head_id@ == text_or(l.entries@, "user-route-list-head-id"@, "Id"@),
            r.user_list_head_username@ == text_or(l.entries@, "user-route-list-head-username"@, "Username"@),
            r.user_list_head_role@ == text_or(l.entries@, "user-route-list-head-role"@, "Role"@),
            r.user_list_action_edit@ == text_or(l.entries@, "user-route-list-action-edit"@, "Edit User"@),
            r.user_list_action_password@ == text_or(l.entries@, "user-route-list-action-password"@, "Edit Password"@),
            r.user_list_action_sign_out@ == text_or(l.entries@, "user-route-list-action-sign-out"@, "Sign Out User"@),
            r.user_list_action_add_user@ == text_or(l.entries@, "user-route-list-action-add-user"@, "Add Users"@),
    {
        UserLocale {
            user_list_title: l.text_with_default("user-route-list-user-title", "List of Users"),
            user_list_head_id: l.text_with_default("user-route-list-head-id", "Id"),
            user_list_head_username: l.text_with_default("user-route-list-head-username", "Username"),
            user_list_head_role: l.text_with_default("user-route-list-head-role", "Role"),
            user_list_action_edit: l.text_with_default("user-route-list-action-edit", "Edit User"),
            user_list_action_password: l.text_with_default("user-route-list-action-password", "Edit Password"),
            user_list_action_sign_out: l.text_with_default("user-route-list-action-sign-out", "Sign Out User"),
            user_list_action_add_user: l.text_with_default("user-route-list-action-add-user", "Add Users"),
        }
    }
}

/// The question asked before an account is signed out everywhere: the
/// translation of `user-route-logout-confirm-message` for that username when
/// the caller found one, else the English text.
pub fn user_logout_confirm_message(translated: Option<String>, username: &str) -> (r: String)
    ensures
        match translated {
            Some(t) => r@ == t@,
            None => r@ == "Are you sure you want to log out '"@ + username@ + "'?"@,
        },
{
    match translated {
        Some(t) => t,
        None => join3("Are you sure you want to log out '", username, "'?"),
    }
}

} // verus!
