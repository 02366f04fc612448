use vstd::prelude::*;
use crate::locale::{translated, Locale};
use crate::role::Role;
use crate::text::{trim, trim_spec};
use crate::user::rule::{
    login_password_rules, login_username_rules, password_add_check, user_add_check,
    PasswordRulesForLoginExt, PasswordUserManagerRulesExt, UsernameRulesForLoginExt,
    UsernameUserManagerRulesExt,
};
use crate::validation::{
    grapheme_count, outcome_matches, password_accepted, password_messages, password_rule_check,
    string_rule_check, username_accepted, username_messages, MessageView, Password, PasswordError,
    Username, UsernameError,
};

verus! {

/// The translated texts of a list of messages, as strings.
pub open spec fn strings_view(v: Seq<String>) -> Seq<Seq<char>> {
    v.map_values(|s: String| s@)
}

/// The submitted login form.
#[derive(Debug, Clone)]
pub struct UserLoginForm {
    pub username: String,
    pub password: String,
    pub csrf_token: String,
}

/// A login form whose fields passed their rules.
#[derive(Debug)]
pub struct UserLoginFormValidated {
    pub username: Username,
    pub password: Password,
}

/// A login form with a field that failed its rules.
#[derive(Debug)]
pub struct UserLoginFormError {
    pub username: Result<Username, UsernameError>,
    pub password: Result<Password, PasswordError>,
}

/// The outcome of checking a [`UserLoginForm`].
#[derive(Debug)]
pub struct UserLoginFormResult(pub Result<UserLoginFormValidated, UserLoginFormError>);

pub open spec fn login_username_check(f: UserLoginForm) -> Result<Seq<char>, Seq<MessageView>> {
    let t = trim_spec(f.username@);
    string_rule_check(Some(t), login_username_rules(), grapheme_count(t))
}

pub open spec fn login_password_check(f: UserLoginForm) -> Result<Seq<char>, Seq<MessageView>> {
    let t = trim_spec(f.password@);
    password_rule_check(Some(t), login_password_rules(), grapheme_count(t))
}

impl UserLoginForm {
    /// Checks both fields (after trimming white space); the form is accepted
    /// only when both are.
    pub fn as_validated(&self) -> (r: UserLoginFormResult)
        ensures
            r.0 is Ok <==> (login_username_check(*self) is Ok && login_password_check(*self) is Ok),
            r.0 matches Ok(v) ==> login_username_check(*self) == Ok::<Seq<char>, Seq<MessageView>>(v.username.value@)
                && login_password_check(*self) == Ok::<Seq<char>, Seq<MessageView>>(v.password.value@),
            r.0 matches Err(e) ==> outcome_matches(login_username_check(*self), username_accepted(e.username), username_messages(e.username))
                && outcome_matches(login_password_check(*self), password_accepted(e.password), password_messages(e.password)),
    {
        let username = Username::parse_user_login(Some(trim(self.username.as_str())));
        let password = Password::parse_user_login(Some(trim(self.password.as_str())));
        match (username, password) {
            (Ok(username), Ok(password)) => UserLoginFormResult(Ok(UserLoginFormValidated { username, password })),
            (username, password) => UserLoginFormResult(Err(UserLoginFormError { username, password })),
        }
    }
}

/// The submitted form that sets an account's password.
#[derive(Debug, Default)]
pub struct EditPasswordManagerForm {
    pub password: String,
    pub password_confirm: String,
    pub csrf_token: String,
}

/// A password form whose fields passed their rules.
#[derive(Debug)]
pub struct EditPasswordManagerValidated {
    pub password: Password,
    pub password_confirm: Password,
}

/// A password form with a field that failed its rules.
#[derive(Debug)]
pub struct EditPasswordManagerError {
    pub password: Result<Password, PasswordError>,
    pub password_confirm: Result<Password, PasswordError>,
}

/// The outcome of checking an [`EditPasswordManagerForm`].
#[derive(Debug)]
pub struct EditPasswordManagerResult(pub Result<EditPasswordManagerValidated, EditPasswordManagerError>);

/// The translated messages of each field of the password form.
#[derive(Debug, Default)]
pub struct EditPasswordManagerMessage {
    pub password: Vec<String>,
    pub password_confirm: Vec<String>,
}

/// The outcome of the new-password rules on a password form (both trimmed).
pub open spec fn edit_password_check(f: EditPasswordManagerForm, meets_entropy: bool) -> (
    Result<Seq<char>, Seq<MessageView>>,
    Result<Seq<char>, Seq<MessageView>>,
) {
    password_add_check(Some(trim_spec(f.password@)), trim_spec(f.password_confirm@), meets_entropy)
}

impl EditPasswordManagerForm {
    /// Checks the new password and its confirmation (after trimming white
    /// space); `meets_entropy` tells whether paspio scores the trimmed password
    /// at least the minimum.
    pub fn as_validated(&self, meets_entropy: bool) -> (r: EditPasswordManagerResult)
        ensures
            r.0 is Ok <==> (edit_password_check(*self, meets_entropy).0 is Ok && edit_password_check(*self, meets_entropy).1 is Ok),
            r.0 matches Ok(v) ==> edit_password_check(*self, meets_entropy).0 == Ok::<Seq<char>, Seq<MessageView>>(v.password.value@)
                && edit_password_check(*self, meets_entropy).1 == Ok::<Seq<char>, Seq<MessageView>>(v.password_confirm.value@),
            r.0 matches Err(e) ==> outcome_matches(edit_password_check(*self, meets_entropy).0, password_accepted(e.password), password_messages(e.password))
                && outcome_matches(edit_password_check(*self, meets_entropy).1, password_accepted(e.password_confirm), password_messages(e.password_confirm)),
    {
        let (password, password_confirm) = Password::parse_password_add(
            Some(trim(self.password.as_str())),
            trim(self.password_confirm.as_str()),
            meets_entropy,
        );
        match (password, password_confirm) {
            (Ok(password), Ok(password_confirm)) => EditPasswordManagerResult(Ok(EditPasswordManagerValidated { password, password_confirm })),
            (password, password_confirm) => EditPasswordManagerResult(Err(EditPasswordManagerError { password, password_confirm })),
        }
    }
}

impl EditPasswordManagerError {
    /// The messages of each field, translated.
    pub fn as_message(&self, locale: &Locale) -> (r: EditPasswordManagerMessage)
        ensures
            strings_view(r.password@) == translated(locale.entries@, password_messages(self.password)),
            strings_view(r.password_confirm@) == translated(locale.entries@, password_messages(self.password_confirm)),
    {
        let password = password_error_messages(locale, &self.password);
        let password_confirm = password_error_messages(locale, &self.password_confirm);
        EditPasswordManagerMessage { password, password_confirm }
    }
}

/// The translated messages of a password outcome (none when it was accepted).
pub fn password_error_messages(locale: &Locale, r: &Result<Password, PasswordError>) -> (v: Vec<String>)
    ensures
        strings_view(v@) == translated(locale.entries@, password_messages(*r)),
{
    let v = match r {
        Ok(_) => Vec::new(),
        Err(e) => locale.translate_messages(&e.0),
    };
    assert(strings_view(v@) =~= translated(locale.entries@, password_messages(*r)));
    v
}

/// The translated messages of a username outcome (none when it was accepted).
pub fn username_error_messages(locale: &Locale, r: &Result<Username, UsernameError>) -> (v: Vec<String>)
    ensures
        strings_view(v@) == translated(locale.entries@, username_messages(*r)),
{
    let v = match r {
        Ok(_) => Vec::new(),
        Err(e) => locale.translate_messages(&e.0),
    };
    assert(strings_view(v@) =~= translated(locale.entries@, username_messages(*r)));
    v
}

/// The submitted form that creates an account.
#[derive(Debug, Default)]
pub struct AddUserForm {
    pub username: String,
    pub password: String,
    pub password_confirm: String,
    pub role: Role,
    pub csrf_token: String,
}

/// An account form whose fields passed their rules.
#[derive(Debug)]
pub struct AddUserValidated {
    pub username: Username,
    pub password: Password,
    pub password_confirm: Password,
    pub role: Role,
}

/// An account form with a field that failed its rules.
#[derive(Debug)]
pub struct AddUserError {
    pub username: Result<Username, UsernameError>,
    pub password: Result<Password, PasswordError>,
    pub password_confirm: Result<Password, PasswordError>,
    pub role: Role,
}

/// The outcome of checking an [`AddUserForm`].
#[derive(Debug)]
pub struct AddUserResult(pub Result<AddUserValidated, AddUserError>);

/// The translated messages of each field of the account form.
#[derive(Debug, Default)]
pub struct AddUserMessage {
    pub username: Vec<String>,
    pub password: Vec<String>,
    pub password_confirm: Vec<String>,
}

pub open spec fn add_user_username_check(f: AddUserForm, username_taken: bool) -> Result<Seq<char>, Seq<MessageView>> {
    user_add_check(Some(trim_spec(f.username@)), username_taken, None)
}

pub open spec fn add_user_password_check(f: AddUserForm, meets_entropy: bool) -> (
    Result<Seq<char>, Seq<MessageView>>,
    Result<Seq<char>, Seq<MessageView>>,
) {
    password_add_check(Some(trim_spec(f.password@)), trim_spec(f.password_confirm@), meets_entropy)
}

impl AddUserForm {
    /// Checks the username, the password and its confirmation (after trimming
    /// white space). `username_taken` tells whether an account already has the
    /// trimmed username; `meets_entropy` whether paspio scores the trimmed
    /// password at least the minimum. The chosen role is kept as submitted.
    pub fn as_validated(&self, username_taken: bool, meets_entropy: bool) -> (r: AddUserResult)
        ensures
            r.0 is Ok <==> (add_user_username_check(*self, username_taken) is Ok
                && add_user_password_check(*self, meets_entropy).0 is Ok
                && add_user_password_check(*self, meets_entropy).1 is Ok),
            r.0 matches Ok(v) ==> add_user_username_check(*self, username_taken) == Ok::<Seq<char>, Seq<MessageView>>(v.username.value@)
                && add_user_password_check(*self, meets_entropy).0 == Ok::<Seq<char>, Seq<MessageView>>(v.password.value@)
                && add_user_password_check(*self, meets_entropy).1 == Ok::<Seq<char>, Seq<MessageView>>(v.password_confirm.value@)
                && v.role == self.role,
            r.0 matches Err(e) ==> outcome_matches(add_user_username_check(*self, username_taken), username_accepted(e.username), username_messages(e.username))
                && outcome_matches(add_user_password_check(*self, meets_entropy).0, password_accepted(e.password), password_messages(e.password))
                && outcome_matches(add_user_password_check(*self, meets_entropy).1, password_accepted(e.password_confirm), password_messages(e.password_confirm))
                && e.role == self.role,
    {
        let username = Username::parse_user_add(Some(trim(self.username.as_str())), username_taken, None);
        let (password, password_confirm) = Password::parse_password_add(
            Some(trim(self.password.as_str())),
            trim(self.password_confirm.as_str()),
            meets_entropy,
        );
        match (username, password, password_confirm) {
            (Ok(username), Ok(password), Ok(password_confirm)) => AddUserResult(Ok(AddUserValidated {
                username,
                password,
                password_confirm,
                role: self.role,
            })),
            (username, password, password_confirm) => AddUserResult(Err(AddUserError {
                username,
                password,
                password_confirm,
                role: self.role,
            })),
        }
    }
}

impl AddUserError {
    /// The messages of each field, translated.
    pub fn as_message(&self, locale: &Locale) -> (r: AddUserMessage)
        ensures
            strings_view(r.username@) == translated(locale.entries@, username_messages(self.username)),
            strings_view(r.password@) == translated(locale.entries@, password_messages(self.password)),
            strings_view(r.password_confirm@) == translated(locale.entries@, password_messages(self.password_confirm)),
    {
        AddUserMessage {
            username: username_error_messages(locale, &self.username),
            password: password_error_messages(locale, &self.password),
            password_confirm: password_error_messages(locale, &self.password_confirm),
        }
    }
}

/// The submitted form that renames an account or changes its role.
#[derive(Debug, Default)]
pub struct EditUserForm {
    pub username: String,
    pub role: Role,
    pub csrf_token: String,
}

/// An edit form whose username passed its rules.
#[derive(Debug)]
pub struct EditUserValidated {
    pub username: Username,
    pub role: Role,
}

/// An edit form whose username failed its rules.
#[derive(Debug)]
pub struct EditUserError {
    pub username: Result<Username, UsernameError>,
    pub role: Role,
}

/// The outcome of checking an [`EditUserForm`].
#[derive(Debug)]
pub struct EditUserResult(pub Result<EditUserValidated, EditUserError>);

/// The translated messages of the edit form.
#[derive(Debug, Default)]
pub struct EditUserMessage {
    pub username: Vec<String>,
}

pub open spec fn edit_user_username_check(f: EditUserForm, username_taken: bool, current_user_name: Seq<char>) -> Result<Seq<char>, Seq<MessageView>> {
    user_add_check(Some(trim_spec(f.username@)), username_taken, Some(current_user_name))
}

impl EditUserForm {
    /// Checks the username (after trimming white space); the account's
    /// current name is accepted as is. `username_taken` tells whether an
    /// account already has the trimmed username.
    pub fn as_validated(&self, username_taken: bool, current_user_name: &str) -> (r: EditUserResult)
        ensures
            r.0 is Ok <==> edit_user_username_check(*self, username_taken, current_user_name@) is Ok,
            r.0 matches Ok(v) ==> edit_user_username_check(*self, username_taken, current_user_name@)
                == Ok::<Seq<char>, Seq<MessageView>>(v.username.value@) && v.role == self.role,
            r.0 matches Err(e) ==> outcome_matches(edit_user_username_check(*self, username_taken, current_user_name@),
                username_accepted(e.username), username_messages(e.username)) && e.role == self.role,
    {
        let username = Username::parse_user_add(Some(trim(self.username.as_str())), username_taken, Some(current_user_name));
        match username {
            Ok(username) => EditUserResult(Ok(EditUserValidated { username, role: self.role })),
            Err(e) => EditUserResult(Err(EditUserError { username: Err(e), role: self.role })),
        }
    }
}

impl EditUserError {
    /// The messages of the username, translated.
    pub fn as_message(&self, locale: &Locale) -> (r: EditUserMessage)
        ensures
            strings_view(r.username@) == translated(locale.entries@, username_messages(self.username)),
    {
        EditUserMessage { username: username_error_messages(locale, &self.username) }
    }
}

} // verus!
