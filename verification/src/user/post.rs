use vstd::prelude::*;
use crate::failure::{answered_status, Failure, STATUS_FORBIDDEN, STATUS_INTERNAL_SERVER_ERROR, STATUS_UNPROCESSABLE_ENTITY};
use crate::html::context::Flash;
use crate::locale::{text_or, translated, Locale};
use crate::text::{str_eq, trim, trim_spec};
use crate::user::form::{
    login_password_check, login_username_check, UserLoginForm,
    add_user_password_check, add_user_username_check, edit_password_check, edit_user_username_check, strings_view,
    AddUserForm, AddUserMessage, AddUserValidated, EditPasswordManagerForm, EditPasswordManagerMessage, EditUserForm,
    EditUserMessage,
};
use crate::user::model::{FetchUser, IdPassword};
use crate::user::repository::{UserManagerRepositoryError, UserRepositoryError};
use crate::user::route::{
    is_login_cookie, login_cookie, login_post_outcome, password_edited_flash, translated_or, user_added_flash,
    user_edited_flash, user_list_location, LoginCookie, LoginOutcome,
};
use crate::user::rule::{msg_password_entropy, msg_username_taken, reserved_username, user_add_check};
use crate::user::service::{
    taken_or_free, AddUserRecord, AddUserService, AddUserServiceError, EditPasswordRecord, EditPasswordService,
    EditPasswordServiceError,
    EditUserRecord, EditUserService, EditUserServiceError, LoginStep, PasswordHashFailure, UserLoginService,
    is_uuid_v4_text,
};
use crate::text::signed_decimal;
use crate::validation::{
    default_password_rules, default_username_rules, grapheme_count, password_rule_check, string_rule_check, MessageView,
    Password, Username,
};

verus! {

/// The text a check accepted, or nothing.
pub open spec fn accepted_text(c: Result<Seq<char>, Seq<MessageView>>) -> Seq<char> {
    match c {
        Ok(t) => t,
        Err(_) => Seq::empty(),
    }
}

/// The messages a check reported, or none.
pub open spec fn reported_messages(c: Result<Seq<char>, Seq<MessageView>>) -> Seq<MessageView> {
    match c {
        Ok(_) => Seq::empty(),
        Err(m) => m,
    }
}

/// Whether checking a submitted username needs to know if the name is taken:
/// only a name that passes the username rules, differs from the account's
/// current name and is not the reserved name.
pub open spec fn taken_lookup_needed(username: Seq<char>, current: Seq<char>) -> bool {
    let t = trim_spec(username);
    string_rule_check(Some(t), default_username_rules(), grapheme_count(t)) is Ok
        && t != current && t != reserved_username()
}

/// When the lookup is not needed, whether the name is taken does not change
/// the outcome of the account-manager username rules.
pub proof fn lemma_taken_unused_when_not_needed(input: Seq<char>, current: Option<Seq<char>>)
    requires
        !(match current {
            Some(c) => taken_lookup_needed(input, c),
            None => {
                let t = trim_spec(input);
                string_rule_check(Some(t), default_username_rules(), grapheme_count(t)) is Ok && t != reserved_username()
            },
        }),
    ensures
        user_add_check(Some(trim_spec(input)), true, current) == user_add_check(Some(trim_spec(input)), false, current),
{
}

/// Where a submission of the edit form of an account stands; from the owner
/// lookup on it carries the account's current name.
#[derive(Debug)]
pub enum EditUserPostState {
    Start,
    AwaitUser,
    AwaitCsrf(String),
    AwaitTaken(String),
    AwaitSave,
    Done,
}

/// What the outside world answered to the last action.
#[derive(Debug)]
pub enum EditUserPostEvent {
    Begin,
    /// The account, through `EditUserService::fetch_user`.
    User(Result<FetchUser, Failure<EditUserServiceError>>),
    /// Whether the form's CSRF token matches the session's.
    Csrf(bool),
    /// Whether an account already has the submitted name.
    Taken(Result<bool, Failure<UserManagerRepositoryError>>),
    /// The outcome of storing the new name and role.
    Saved(Result<(), Failure<UserManagerRepositoryError>>),
}

/// What to do next with a submission of the edit form of an account.
#[derive(Debug)]
pub enum EditUserPostAction {
    FetchUser(i64),
    VerifyCsrf,
    /// Look up whether an account already has this name.
    LookupTaken(String),
    Save(EditUserRecord),
    /// Show the form again, with this status and its messages.
    ShowInvalid { status: u16, messages: EditUserMessage },
    Redirect { flash: Flash, location: String },
    Respond(u16),
}

/// The outcome of the edit form's rules, answered as the next step: the
/// record to store, or the form again with its messages.
pub open spec fn edit_user_checked(
    user_id: i64,
    form: EditUserForm,
    entries: Seq<(String, String)>,
    taken: bool,
    current: Seq<char>,
    r: (EditUserPostState, EditUserPostAction),
) -> bool {
    let c = edit_user_username_check(form, taken, current);
    if c is Ok {
        r.0 is AwaitSave && (r.1 matches EditUserPostAction::Save(rec) && rec.id == user_id
            && rec.username@ == accepted_text(c) && rec.role == form.role)
    } else {
        r.0 is Done && (r.1 matches EditUserPostAction::ShowInvalid { status, messages }
            && status == STATUS_UNPROCESSABLE_ENTITY
            && strings_view(messages.username@) == translated(entries, reported_messages(c)))
    }
}

/// The step of a submission of the edit form of account `user_id`: the
/// account is looked up first, then the CSRF token checked, then (only when
/// the name needs it) whether the name is taken, then the form's rules, then
/// the change stored. `edited_text` is the translation of
/// `user-route-flash-edit-success` for that id, when the caller found one.
pub open spec fn edit_user_post_next(
    user_id: i64,
    form: EditUserForm,
    entries: Seq<(String, String)>,
    edited_text: Option<String>,
    state: EditUserPostState,
    event: EditUserPostEvent,
    r: (EditUserPostState, EditUserPostAction),
) -> bool {
    match (state, event) {
        (EditUserPostState::Start, EditUserPostEvent::Begin) =>
            r.0 is AwaitUser && r.1 == EditUserPostAction::FetchUser(user_id),
        (EditUserPostState::AwaitUser, EditUserPostEvent::User(Err(f))) =>
            r.0 is Done && r.1 == EditUserPostAction::Respond(answered_status(f)),
        (EditUserPostState::AwaitUser, EditUserPostEvent::User(Ok(u))) =>
            (r.0 matches EditUserPostState::AwaitCsrf(c) && c@ == u.username@) && r.1 is VerifyCsrf,
        (EditUserPostState::AwaitCsrf(current), EditUserPostEvent::Csrf(ok)) =>
            if !ok {
                r.0 is Done && r.1 == EditUserPostAction::Respond(STATUS_FORBIDDEN)
            } else if taken_lookup_needed(form.username@, current@) {
                (r.0 matches EditUserPostState::AwaitTaken(c) && c@ == current@)
                    && (r.1 matches EditUserPostAction::LookupTaken(n) && n@ == trim_spec(form.username@))
            } else {
                edit_user_checked(user_id, form, entries, false, current@, r)
            },
        (EditUserPostState::AwaitTaken(current), EditUserPostEvent::Taken(t)) =>
            edit_user_checked(user_id, form, entries, taken_or_free(t), current@, r),
        (EditUserPostState::AwaitSave, EditUserPostEvent::Saved(Ok(_))) =>
            r.0 is Done && (r.1 matches EditUserPostAction::Redirect { flash, location }
                && location@ == "/user/"@
                && (flash matches Flash::Success { msg }
                    && msg@ == translated_or(edited_text, "Successfully edited user id: "@ + signed_decimal(user_id as int)))),
        (EditUserPostState::AwaitSave, EditUserPostEvent::Saved(Err(f))) =>
            r.0 is Done && r.1 == EditUserPostAction::Respond(answered_status(f)),
        _ => r.0 is Done && r.1 == EditUserPostAction::Respond(STATUS_INTERNAL_SERVER_ERROR),
    }
}

/// Checks the edit form once whether the name is taken is known.
fn edit_user_check(
    user_id: i64,
    form: &EditUserForm,
    l: &Locale,
    taken: bool,
    current: &str,
) -> (r: (EditUserPostState, EditUserPostAction))
    ensures
        edit_user_checked(user_id, *form, l.entries@, taken, current@, r),
{
    match form.as_validated(taken, current).0 {
        Ok(v) => (EditUserPostState::AwaitSave, EditUserPostAction::Save(EditUserService::new().edit_user_record(user_id, &v))),
        Err(e) => {
            let messages = e.as_message(l);
            (EditUserPostState::Done, EditUserPostAction::ShowInvalid { status: STATUS_UNPROCESSABLE_ENTITY, messages })
        },
    }
}

/// Decides the next step of a submission of the edit form of account
/// `user_id`. A CSRF token that does not match is refused with 403; an event
/// that does not fit the state is answered with 500.
pub fn edit_user_post_step(
    user_id: i64,
    form: &EditUserForm,
    l: &Locale,
    edited_text: Option<String>,
    state: EditUserPostState,
    event: EditUserPostEvent,
) -> (r: (EditUserPostState, EditUserPostAction))
    ensures
        edit_user_post_next(user_id, *form, l.entries@, edited_text, state, event, r),
{
    match (state, event) {
        (EditUserPostState::Start, EditUserPostEvent::Begin) =>
            (EditUserPostState::AwaitUser, EditUserPostAction::FetchUser(user_id)),
        (EditUserPostState::AwaitUser, EditUserPostEvent::User(Err(f))) =>
            (EditUserPostState::Done, EditUserPostAction::Respond(f.response_status())),
        (EditUserPostState::AwaitUser, EditUserPostEvent::User(Ok(u))) =>
            (EditUserPostState::AwaitCsrf(u.username), EditUserPostAction::VerifyCsrf),
        (EditUserPostState::AwaitCsrf(current), EditUserPostEvent::Csrf(ok)) => {
            if !ok {
                return (EditUserPostState::Done, EditUserPostAction::Respond(STATUS_FORBIDDEN));
            }
            let name = trim(form.username.as_str());
            let needed = match Username::parse(Some(name)) {
                Ok(_) => !str_eq(name, current.as_str()) && !str_eq(name, "visitor"),
                Err(_) => false,
            };
            if needed {
                (EditUserPostState::AwaitTaken(current), EditUserPostAction::LookupTaken(name.to_string()))
            } else {
                edit_user_check(user_id, form, l, false, current.as_str())
            }
        },
        (EditUserPostState::AwaitTaken(current), EditUserPostEvent::Taken(t)) => {
            let taken = match t {
                Ok(b) => b,
                Err(_) => false,
            };
            edit_user_check(user_id, form, l, taken, current.as_str())
        },
        (EditUserPostState::AwaitSave, EditUserPostEvent::Saved(Ok(()))) => (
            EditUserPostState::Done,
            EditUserPostAction::Redirect { flash: user_edited_flash(edited_text, user_id), location: user_list_location() },
        ),
        (EditUserPostState::AwaitSave, EditUserPostEvent::Saved(Err(f))) =>
            (EditUserPostState::Done, EditUserPostAction::Respond(f.response_status())),
        _ => (EditUserPostState::Done, EditUserPostAction::Respond(STATUS_INTERNAL_SERVER_ERROR)),
    }
}

/// Whether checking a submitted password needs its entropy score: only a
/// password that passes the password rules.
pub open spec fn entropy_needed(password: Seq<char>) -> bool {
    let t = trim_spec(password);
    password_rule_check(Some(t), default_password_rules(), grapheme_count(t)) is Ok
}

/// Whether a submitted (trimmed) password passes the password rules.
fn passes_password_rules(password: &str) -> (r: bool)
    ensures
        r == entropy_needed(password@),
{
    match Password::parse(Some(trim(password))) {
        Ok(_) => true,
        Err(_) => false,
    }
}

/// Where a submission of the password form of an account stands.
#[derive(Debug)]
pub enum EditPasswordPostState {
    Start,
    AwaitUser,
    AwaitCsrf,
    AwaitEntropy,
    AwaitHash,
    AwaitSave,
    Done,
}

/// What the outside world answered to the last action.
#[derive(Debug)]
pub enum EditPasswordPostEvent {
    Begin,
    /// The account, through `EditPasswordService::fetch_user`.
    User(Result<FetchUser, Failure<EditPasswordServiceError>>),
    Csrf(bool),
    /// Whether paspio scores the trimmed password at least the minimum.
    Entropy(bool),
    /// The stored form of the new password's hash, or how hashing failed.
    Hashed(Result<Vec<u8>, PasswordHashFailure>),
    Saved(Result<(), Failure<UserManagerRepositoryError>>),
}

/// What to do next with a submission of the password form of an account.
#[derive(Debug)]
pub enum EditPasswordPostAction {
    FetchUser(i64),
    VerifyCsrf,
    /// Score this (trimmed) password.
    ScorePassword(String),
    /// Hash this password.
    Hash(String),
    /// Store this hash as the password of the account with this id.
    Save(EditPasswordRecord),
    ShowInvalid { status: u16, messages: EditPasswordManagerMessage },
    Redirect { flash: Flash, location: String },
    Respond(u16),
}

/// The outcome of the password form's rules, answered as the next step.
pub open spec fn edit_password_checked(
    form: EditPasswordManagerForm,
    entries: Seq<(String, String)>,
    meets_entropy: bool,
    r: (EditPasswordPostState, EditPasswordPostAction),
) -> bool {
    let c = edit_password_check(form, meets_entropy);
    if c.0 is Ok && c.1 is Ok {
        r.0 is AwaitHash && (r.1 matches EditPasswordPostAction::Hash(p) && p@ == accepted_text(c.0))
    } else {
        r.0 is Done && (r.1 matches EditPasswordPostAction::ShowInvalid { status, messages }
            && status == STATUS_UNPROCESSABLE_ENTITY
            && strings_view(messages.password@) == translated(entries, reported_messages(c.0))
            && strings_view(messages.password_confirm@) == translated(entries, reported_messages(c.1)))
    }
}

/// The step of a submission of the password form of account `user_id`: the
/// account is looked up first, then the CSRF token checked, then (only for a
/// password that passes the password rules) its entropy scored, then the
/// form's rules, then the password hashed and the hash stored.
/// `edited_text` is the translation of `user-route-flash-password-success`
/// for that id, when the caller found one.
pub open spec fn edit_password_post_next(
    user_id: i64,
    form: EditPasswordManagerForm,
    entries: Seq<(String, String)>,
    edited_text: Option<String>,
    state: EditPasswordPostState,
    event: EditPasswordPostEvent,
    r: (EditPasswordPostState, EditPasswordPostAction),
) -> bool {
    match (state, event) {
        (EditPasswordPostState::Start, EditPasswordPostEvent::Begin) =>
            r.0 is AwaitUser && r.1 == EditPasswordPostAction::FetchUser(user_id),
        (EditPasswordPostState::AwaitUser, EditPasswordPostEvent::User(Err(f))) =>
            r.0 is Done && r.1 == EditPasswordPostAction::Respond(answered_status(f)),
        (EditPasswordPostState::AwaitUser, EditPasswordPostEvent::User(Ok(_))) =>
            r.0 is AwaitCsrf && r.1 is VerifyCsrf,
        (EditPasswordPostState::AwaitCsrf, EditPasswordPostEvent::Csrf(ok)) =>
            if !ok {
                r.0 is Done && r.1 == EditPasswordPostAction::Respond(STATUS_FORBIDDEN)
            } else if entropy_needed(form.password@) {
                r.0 is AwaitEntropy
                    && (r.1 matches EditPasswordPostAction::ScorePassword(p) && p@ == trim_spec(form.password@))
            } else {
                edit_password_checked(form, entries, false, r)
            },
        (EditPasswordPostState::AwaitEntropy, EditPasswordPostEvent::Entropy(meets)) =>
            edit_password_checked(form, entries, meets, r),
        (EditPasswordPostState::AwaitHash, EditPasswordPostEvent::Hashed(Ok(h))) =>
            r.0 is AwaitSave && (r.1 matches EditPasswordPostAction::Save(rec) && rec.id == user_id && rec.password == h),
        (EditPasswordPostState::AwaitHash, EditPasswordPostEvent::Hashed(Err(_))) =>
            r.0 is Done && r.1 == EditPasswordPostAction::Respond(STATUS_INTERNAL_SERVER_ERROR),
        (EditPasswordPostState::AwaitSave, EditPasswordPostEvent::Saved(Ok(_))) =>
            r.0 is Done && (r.1 matches EditPasswordPostAction::Redirect { flash, location }
                && location@ == "/user/"@
                && (flash matches Flash::Success { msg } && msg@ == translated_or(
                    edited_text,
                    "Successfully edited password for user id: "@ + signed_decimal(user_id as int),
                ))),
        (EditPasswordPostState::AwaitSave, EditPasswordPostEvent::Saved(Err(f))) =>
            r.0 is Done && r.1 == EditPasswordPostAction::Respond(answered_status(f)),
        _ => r.0 is Done && r.1 == EditPasswordPostAction::Respond(STATUS_INTERNAL_SERVER_ERROR),
    }
}

/// Checks the password form once its entropy verdict is known.
fn edit_password_check_step(
    form: &EditPasswordManagerForm,
    l: &Locale,
    meets_entropy: bool,
) -> (r: (EditPasswordPostState, EditPasswordPostAction))
    ensures
        edit_password_checked(*form, l.entries@, meets_entropy, r),
{
    match form.as_validated(meets_entropy).0 {
        Ok(v) => (EditPasswordPostState::AwaitHash, EditPasswordPostAction::Hash(v.password.value)),
        Err(e) => {
            let messages = e.as_message(l);
            (EditPasswordPostState::Done, EditPasswordPostAction::ShowInvalid { status: STATUS_UNPROCESSABLE_ENTITY, messages })
        },
    }
}

/// Decides the next step of a submission of the password form of account
/// `user_id`. A CSRF token that does not match is refused with 403, a
/// failed hash with 500; an event that does not fit the state is answered
/// with 500.
pub fn edit_password_post_step(
    user_id: i64,
    form: &EditPasswordManagerForm,
    l: &Locale,
    edited_text: Option<String>,
    state: EditPasswordPostState,
    event: EditPasswordPostEvent,
) -> (r: (EditPasswordPostState, EditPasswordPostAction))
    ensures
        edit_password_post_next(user_id, *form, l.entries@, edited_text, state, event, r),
{
    match (state, event) {
        (EditPasswordPostState::Start, EditPasswordPostEvent::Begin) =>
            (EditPasswordPostState::AwaitUser, EditPasswordPostAction::FetchUser(user_id)),
        (EditPasswordPostState::AwaitUser, EditPasswordPostEvent::User(Err(f))) =>
            (EditPasswordPostState::Done, EditPasswordPostAction::Respond(f.response_status())),
        (EditPasswordPostState::AwaitUser, EditPasswordPostEvent::User(Ok(_))) =>
            (EditPasswordPostState::AwaitCsrf, EditPasswordPostAction::VerifyCsrf),
        (EditPasswordPostState::AwaitCsrf, EditPasswordPostEvent::Csrf(ok)) => {
            if !ok {
                return (EditPasswordPostState::Done, EditPasswordPostAction::Respond(STATUS_FORBIDDEN));
            }
            if passes_password_rules(form.password.as_str()) {
                (EditPasswordPostState::AwaitEntropy, EditPasswordPostAction::ScorePassword(trim(form.password.as_str()).to_string()))
            } else {
                edit_password_check_step(form, l, false)
            }
        },
        (EditPasswordPostState::AwaitEntropy, EditPasswordPostEvent::Entropy(meets)) =>
            edit_password_check_step(form, l, meets),
        (EditPasswordPostState::AwaitHash, EditPasswordPostEvent::Hashed(hashed)) =>
            match EditPasswordService::new().edit_password_record(user_id, hashed) {
                Ok(rec) => (EditPasswordPostState::AwaitSave, EditPasswordPostAction::Save(rec)),
                Err(f) => (EditPasswordPostState::Done, EditPasswordPostAction::Respond(f.response_status())),
            },
        (EditPasswordPostState::AwaitSave, EditPasswordPostEvent::Saved(Ok(()))) => (
            EditPasswordPostState::Done,
            EditPasswordPostAction::Redirect { flash: password_edited_flash(edited_text, user_id), location: user_list_location() },
        ),
        (EditPasswordPostState::AwaitSave, EditPasswordPostEvent::Saved(Err(f))) =>
            (EditPasswordPostState::Done, EditPasswordPostAction::Respond(f.response_status())),
        _ => (EditPasswordPostState::Done, EditPasswordPostAction::Respond(STATUS_INTERNAL_SERVER_ERROR)),
    }
}

/// Whether checking the username of a new account needs to know if the name
/// is taken: only a name that passes the username rules and is not the
/// reserved name.
pub open spec fn new_name_lookup_needed(username: Seq<char>) -> bool {
    let t = trim_spec(username);
    string_rule_check(Some(t), default_username_rules(), grapheme_count(t)) is Ok && t != reserved_username()
}

/// Where a submission of the form that creates an account stands.
#[derive(Debug)]
pub enum AddUserPostState {
    Start,
    AwaitCsrf,
    AwaitTaken,
    /// Waiting for the entropy verdict; carries whether the name is taken.
    AwaitEntropy(bool),
    /// Waiting for the hash of the accepted form's password.
    AwaitHash(AddUserValidated),
    /// Waiting for the outcome of storing the account with this name.
    AwaitSave(String),
    Done,
}

/// What the outside world answered to the last action.
#[derive(Debug)]
pub enum AddUserPostEvent {
    Begin,
    Csrf(bool),
    Taken(Result<bool, Failure<UserManagerRepositoryError>>),
    Entropy(bool),
    Hashed(Result<Vec<u8>, PasswordHashFailure>),
    Saved(Result<(), Failure<UserManagerRepositoryError>>),
}

/// What to do next with a submission of the form that creates an account.
#[derive(Debug)]
pub enum AddUserPostAction {
    VerifyCsrf,
    LookupTaken(String),
    ScorePassword(String),
    Hash(String),
    Save(AddUserRecord),
    ShowInvalid { status: u16, messages: AddUserMessage },
    Redirect { flash: Flash, location: String },
    Respond(u16),
}

/// The outcome of the account form's rules, answered as the next step.
pub open spec fn add_user_checked(
    form: AddUserForm,
    entries: Seq<(String, String)>,
    taken: bool,
    meets_entropy: bool,
    r: (AddUserPostState, AddUserPostAction),
) -> bool {
    let cu = add_user_username_check(form, taken);
    let cp = add_user_password_check(form, meets_entropy);
    if cu is Ok && cp.0 is Ok && cp.1 is Ok {
        (r.0 matches AddUserPostState::AwaitHash(v) && v.username.value@ == accepted_text(cu)
            && v.password.value@ == accepted_text(cp.0) && v.role == form.role)
            && (r.1 matches AddUserPostAction::Hash(p) && p@ == accepted_text(cp.0))
    } else {
        r.0 is Done && (r.1 matches AddUserPostAction::ShowInvalid { status, messages }
            && status == STATUS_UNPROCESSABLE_ENTITY
            && strings_view(messages.username@) == translated(entries, reported_messages(cu))
            && strings_view(messages.password@) == translated(entries, reported_messages(cp.0))
            && strings_view(messages.password_confirm@) == translated(entries, reported_messages(cp.1)))
    }
}

/// The steps once whether the name is taken is known: the entropy score when
/// the password needs it, else the form's rules.
pub open spec fn add_user_after_taken(
    form: AddUserForm,
    entries: Seq<(String, String)>,
    taken: bool,
    r: (AddUserPostState, AddUserPostAction),
) -> bool {
    if entropy_needed(form.password@) {
        (r.0 matches AddUserPostState::AwaitEntropy(t) && t == taken)
            && (r.1 matches AddUserPostAction::ScorePassword(p) && p@ == trim_spec(form.password@))
    } else {
        add_user_checked(form, entries, taken, false, r)
    }
}

/// The step of a submission of the form that creates an account: the CSRF
/// token is checked first, then (only when the name needs it) whether the
/// name is taken, then (only for a password that passes the password rules)
/// its entropy scored, then the form's rules, then the password hashed and
/// the account stored. `added_text` is the translation of
/// `user-route-flash-add-success` for the trimmed submitted name, when the
/// caller found one.
pub open spec fn add_user_post_next(
    form: AddUserForm,
    entries: Seq<(String, String)>,
    added_text: Option<String>,
    state: AddUserPostState,
    event: AddUserPostEvent,
    r: (AddUserPostState, AddUserPostAction),
) -> bool {
    match (state, event) {
        (AddUserPostState::Start, AddUserPostEvent::Begin) => r.0 is AwaitCsrf && r.1 is VerifyCsrf,
        (AddUserPostState::AwaitCsrf, AddUserPostEvent::Csrf(ok)) =>
            if !ok {
                r.0 is Done && r.1 == AddUserPostAction::Respond(STATUS_FORBIDDEN)
            } else if new_name_lookup_needed(form.username@) {
                r.0 is AwaitTaken && (r.1 matches AddUserPostAction::LookupTaken(n) && n@ == trim_spec(form.username@))
            } else {
                add_user_after_taken(form, entries, false, r)
            },
        (AddUserPostState::AwaitTaken, AddUserPostEvent::Taken(t)) =>
            add_user_after_taken(form, entries, taken_or_free(t), r),
        (AddUserPostState::AwaitEntropy(taken), AddUserPostEvent::Entropy(meets)) =>
            add_user_checked(form, entries, taken, meets, r),
        (AddUserPostState::AwaitHash(v), AddUserPostEvent::Hashed(Ok(h))) =>
            (r.0 matches AddUserPostState::AwaitSave(n) && n@ == v.username.value@)
                && (r.1 matches AddUserPostAction::Save(rec) && rec.username@ == v.username.value@
                    && rec.password == h && rec.role == v.role),
        (AddUserPostState::AwaitHash(_), AddUserPostEvent::Hashed(Err(_))) =>
            r.0 is Done && r.1 == AddUserPostAction::Respond(STATUS_INTERNAL_SERVER_ERROR),
        (AddUserPostState::AwaitSave(name), AddUserPostEvent::Saved(Ok(_))) =>
            r.0 is Done && (r.1 matches AddUserPostAction::Redirect { flash, location }
                && location@ == "/user/"@
                && (flash matches Flash::Success { msg }
                    && msg@ == translated_or(added_text, "Successfully created user: "@ + name@))),
        (AddUserPostState::AwaitSave(_), AddUserPostEvent::Saved(Err(f))) =>
            r.0 is Done && r.1 == AddUserPostAction::Respond(answered_status(f)),
        _ => r.0 is Done && r.1 == AddUserPostAction::Respond(STATUS_INTERNAL_SERVER_ERROR),
    }
}

/// Checks the account form once both verdicts are known.
fn add_user_check_step(
    form: &AddUserForm,
    l: &Locale,
    taken: bool,
    meets_entropy: bool,
) -> (r: (AddUserPostState, AddUserPostAction))
    ensures
        add_user_checked(*form, l.entries@, taken, meets_entropy, r),
{
    match form.as_validated(taken, meets_entropy).0 {
        Ok(v) => {
            let p = v.password.value.clone();
            (AddUserPostState::AwaitHash(v), AddUserPostAction::Hash(p))
        },
        Err(e) => {
            let messages = e.as_message(l);
            (AddUserPostState::Done, AddUserPostAction::ShowInvalid { status: STATUS_UNPROCESSABLE_ENTITY, messages })
        },
    }
}

/// The steps once whether the name is taken is known.
fn add_user_after_taken_step(
    form: &AddUserForm,
    l: &Locale,
    taken: bool,
) -> (r: (AddUserPostState, AddUserPostAction))
    ensures
        add_user_after_taken(*form, l.entries@, taken, r),
{
    if passes_password_rules(form.password.as_str()) {
        (AddUserPostState::AwaitEntropy(taken), AddUserPostAction::ScorePassword(trim(form.password.as_str()).to_string()))
    } else {
        add_user_check_step(form, l, taken, false)
    }
}

/// Decides the next step of a submission of the form that creates an
/// account. A CSRF token that does not match is refused with 403, a failed
/// hash with 500; an event that does not fit the state is answered with 500.
pub fn add_user_post_step(
    form: &AddUserForm,
    l: &Locale,
    added_text: Option<String>,
    state: AddUserPostState,
    event: AddUserPostEvent,
) -> (r: (AddUserPostState, AddUserPostAction))
    ensures
        add_user_post_next(*form, l.entries@, added_text, state, event, r),
{
    match (state, event) {
        (AddUserPostState::Start, AddUserPostEvent::Begin) => (AddUserPostState::AwaitCsrf, AddUserPostAction::VerifyCsrf),
        (AddUserPostState::AwaitCsrf, AddUserPostEvent::Csrf(ok)) => {
            if !ok {
                return (AddUserPostState::Done, AddUserPostAction::Respond(STATUS_FORBIDDEN));
            }
            let name = trim(form.username.as_str());
            let needed = match Username::parse(Some(name)) {
                Ok(_) => !str_eq(name, "visitor"),
                Err(_) => false,
            };
            if needed {
                (AddUserPostState::AwaitTaken, AddUserPostAction::LookupTaken(name.to_string()))
            } else {
                add_user_after_taken_step(form, l, false)
            }
        },
        (AddUserPostState::AwaitTaken, AddUserPostEvent::Taken(t)) => {
            let taken = match t {
                Ok(b) => b,
                Err(_) => false,
            };
            add_user_after_taken_step(form, l, taken)
        },
        (AddUserPostState::AwaitEntropy(taken), AddUserPostEvent::Entropy(meets)) =>
            add_user_check_step(form, l, taken, meets),
        (AddUserPostState::AwaitHash(v), AddUserPostEvent::Hashed(hashed)) =>
            match AddUserService::new().add_user_record(&v, hashed) {
                Ok(rec) => (AddUserPostState::AwaitSave(v.username.value), AddUserPostAction::Save(rec)),
                Err(f) => (AddUserPostState::Done, AddUserPostAction::Respond(f.response_status())),
            },
        (AddUserPostState::AwaitSave(name), AddUserPostEvent::Saved(Ok(()))) => (
            AddUserPostState::Done,
            AddUserPostAction::Redirect { flash: user_added_flash(added_text, name.as_str()), location: user_list_location() },
        ),
        (AddUserPostState::AwaitSave(_), AddUserPostEvent::Saved(Err(f))) =>
            (AddUserPostState::Done, AddUserPostAction::Respond(f.response_status())),
        _ => (AddUserPostState::Done, AddUserPostAction::Respond(STATUS_INTERNAL_SERVER_ERROR)),
    }
}

/// Where a submission of the login form stands.
#[derive(Debug)]
pub enum LoginPostState {
    Start,
    AwaitCsrf,
    /// Waiting for the stored hash of the submitted name; carries the
    /// submitted password.
    AwaitPassword(String),
    /// Waiting for the verdict on the password of this account.
    AwaitVerify(i64),
    /// Waiting for the outcome of storing this session token.
    AwaitStore(String),
    Done,
}

/// What the outside world answered to the last action.
#[derive(Debug)]
pub enum LoginPostEvent {
    Begin,
    Csrf(bool),
    /// The account and stored hash of the submitted name.
    Found(Result<IdPassword, Failure<UserRepositoryError>>),
    /// Whether the submitted password matches the stored hash.
    Verified(bool),
    /// The outcome of storing the session token.
    Stored(Result<(), Failure<UserRepositoryError>>),
}

/// What to do next with a submission of the login form.
#[derive(Debug)]
pub enum LoginPostAction {
    VerifyCsrf,
    /// Look up the account and stored hash of this name.
    LookupPassword(String),
    /// Check this password against this stored hash.
    VerifyPassword { password_hash: Vec<u8>, password: String },
    /// Store this session token for this account.
    StoreToken { token: String, user_id: i64 },
    /// Answer the login: flash, redirect, and the session cookie to set, if any.
    Finish { outcome: LoginOutcome, cookie: Option<LoginCookie> },
    Respond(u16),
}

/// The login ends: with `token` stored, the user goes home with a success
/// message and the session cookie of that token; without, back to the login
/// page with a failure message and no cookie.
pub open spec fn login_finished(
    entries: Seq<(String, String)>,
    token: Option<Seq<char>>,
    r: (LoginPostState, LoginPostAction),
) -> bool {
    r.0 is Done && (r.1 matches LoginPostAction::Finish { outcome, cookie } && match token {
        Some(t) => (outcome.token matches Some(x) && x@ == t)
            && (outcome.flash matches Flash::Success { msg }
                && msg@ == text_or(entries, "login-post-flash-success"@, "Login success"@))
            && outcome.location@ == "/"@
            && (cookie matches Some(c) && is_login_cookie(c, t)),
        None => outcome.token is None
            && (outcome.flash matches Flash::Error { msg }
                && msg@ == text_or(entries, "login-post-flash-failed"@, "Login failed"@))
            && outcome.location@ == "/user-login/"@
            && cookie is None,
    })
}

/// The step of a submission of the login form: the CSRF token is checked
/// first, then the form's rules; only a form that passes them has its name
/// looked up, then its password verified, then a fresh session token stored.
pub open spec fn login_post_next(
    form: UserLoginForm,
    entries: Seq<(String, String)>,
    state: LoginPostState,
    event: LoginPostEvent,
    r: (LoginPostState, LoginPostAction),
) -> bool {
    match (state, event) {
        (LoginPostState::Start, LoginPostEvent::Begin) => r.0 is AwaitCsrf && r.1 is VerifyCsrf,
        (LoginPostState::AwaitCsrf, LoginPostEvent::Csrf(ok)) =>
            if !ok {
                r.0 is Done && r.1 == LoginPostAction::Respond(STATUS_FORBIDDEN)
            } else if login_username_check(form) is Ok && login_password_check(form) is Ok {
                (r.0 matches LoginPostState::AwaitPassword(p) && p@ == accepted_text(login_password_check(form)))
                    && (r.1 matches LoginPostAction::LookupPassword(n) && n@ == accepted_text(login_username_check(form)))
            } else {
                login_finished(entries, None, r)
            },
        (LoginPostState::AwaitPassword(_), LoginPostEvent::Found(Err(_))) => login_finished(entries, None, r),
        (LoginPostState::AwaitPassword(p), LoginPostEvent::Found(Ok(ip))) =>
            (r.0 matches LoginPostState::AwaitVerify(id) && id == ip.id)
                && (r.1 matches LoginPostAction::VerifyPassword { password_hash, password }
                    && password_hash == ip.password && password@ == p@),
        (LoginPostState::AwaitVerify(id), LoginPostEvent::Verified(valid)) =>
            if valid {
                (r.0 matches LoginPostState::AwaitStore(t)
                    && (r.1 matches LoginPostAction::StoreToken { token, user_id }
                        && user_id == id && token@ == t@ && is_uuid_v4_text(token@)))
            } else {
                login_finished(entries, None, r)
            },
        (LoginPostState::AwaitStore(t), LoginPostEvent::Stored(stored)) =>
            login_finished(entries, if stored is Ok { Some(t@) } else { None }, r),
        _ => r.0 is Done && r.1 == LoginPostAction::Respond(STATUS_INTERNAL_SERVER_ERROR),
    }
}

/// Ends a login, with the stored token if there is one.
fn login_finish(l: &Locale, token: Option<String>) -> (r: (LoginPostState, LoginPostAction))
    ensures
        login_finished(l.entries@, match token { Some(t) => Some(t@), None => None }, r),
{
    match token {
        Some(t) => {
            let cookie = login_cookie(t.clone());
            let outcome = login_post_outcome(l, Some(t));
            (LoginPostState::Done, LoginPostAction::Finish { outcome, cookie: Some(cookie) })
        },
        None => (LoginPostState::Done, LoginPostAction::Finish { outcome: login_post_outcome(l, None), cookie: None }),
    }
}

/// Decides the next step of a submission of the login form. A CSRF token
/// that does not match is refused with 403; an event that does not fit the
/// state is answered with 500.
pub fn login_post_step(
    form: &UserLoginForm,
    l: &Locale,
    state: LoginPostState,
    event: LoginPostEvent,
) -> (r: (LoginPostState, LoginPostAction))
    ensures
        login_post_next(*form, l.entries@, state, event, r),
{
    let service = UserLoginService::new(None);
    match (state, event) {
        (LoginPostState::Start, LoginPostEvent::Begin) => (LoginPostState::AwaitCsrf, LoginPostAction::VerifyCsrf),
        (LoginPostState::AwaitCsrf, LoginPostEvent::Csrf(ok)) => {
            if !ok {
                return (LoginPostState::Done, LoginPostAction::Respond(STATUS_FORBIDDEN));
            }
            match form.as_validated().0 {
                Ok(v) => (
                    LoginPostState::AwaitPassword(v.password.value),
                    LoginPostAction::LookupPassword(v.username.value),
                ),
                Err(_) => login_finish(l, None),
            }
        },
        (LoginPostState::AwaitPassword(p), LoginPostEvent::Found(found)) => match service.validate_login(found) {
            LoginStep::VerifyPassword { user_id, password_hash } =>
                (LoginPostState::AwaitVerify(user_id), LoginPostAction::VerifyPassword { password_hash, password: p }),
            _ => login_finish(l, None),
        },
        (LoginPostState::AwaitVerify(id), LoginPostEvent::Verified(valid)) => match service.password_verified(id, valid) {
            LoginStep::StoreToken { token, user_id } => {
                let kept = token.clone();
                (LoginPostState::AwaitStore(kept), LoginPostAction::StoreToken { token, user_id })
            },
            _ => login_finish(l, None),
        },
        (LoginPostState::AwaitStore(t), LoginPostEvent::Stored(stored)) => {
            let token = service.token_stored(t, stored);
            login_finish(l, token)
        },
        _ => (LoginPostState::Done, LoginPostAction::Respond(STATUS_INTERNAL_SERVER_ERROR)),
    }
}

/// The trimmed submitted name passes the username rules (mandatory, 5 to 30
/// characters) and is not the name reserved for the visitor.
pub open spec fn plain_new_name(form_username: Seq<char>) -> bool {
    let n = trim_spec(form_username);
    string_rule_check(Some(n), default_username_rules(), grapheme_count(n)) is Ok && n != "visitor"@
}

/// The trimmed submitted password passes the password rules.
pub open spec fn password_meets_rules(form_password: Seq<char>) -> bool {
    let p = trim_spec(form_password);
    password_rule_check(Some(p), default_password_rules(), grapheme_count(p)) is Ok
}

/// Creating an account, once the name lookup answered: nothing is hashed or
/// stored yet; the verdict carried on to the entropy step is exactly whether
/// the lookup said the name is in use; and a valid name that is in use, when
/// the form is answered at once, is shown again with "Already taken".
pub proof fn lemma_add_user_keeps_taken_verdict(
    form: AddUserForm,
    entries: Seq<(String, String)>,
    added_text: Option<String>,
    t: Result<bool, Failure<UserManagerRepositoryError>>,
    r: (AddUserPostState, AddUserPostAction),
)
    requires
        add_user_post_next(form, entries, added_text, AddUserPostState::AwaitTaken, AddUserPostEvent::Taken(t), r),
    ensures
        !(r.1 is Hash) && !(r.1 is Save),
        r.0 matches AddUserPostState::AwaitEntropy(k) ==> (k <==> (t matches Ok(b) && b)),
        (t matches Ok(b) && b) && plain_new_name(form.username@) && r.0 is Done ==>
            (r.1 matches AddUserPostAction::ShowInvalid { status, messages } && status == 422u16
                && strings_view(messages.username@) == translated(entries, seq![msg_username_taken()])),
{
}

/// Creating an account, once the password is scored: the password is hashed
/// only for a name not in use, a password that meets the entropy minimum and
/// a confirmation that repeats it, and then with the trimmed submitted name,
/// password and role. A valid name in use is refused with 422 and "Already
/// taken"; a password under the entropy minimum is refused with 422 and the
/// entropy message.
pub proof fn lemma_add_user_hashes_only_accepted_forms(
    form: AddUserForm,
    entries: Seq<(String, String)>,
    added_text: Option<String>,
    taken: bool,
    meets: bool,
    r: (AddUserPostState, AddUserPostAction),
)
    requires
        add_user_post_next(form, entries, added_text, AddUserPostState::AwaitEntropy(taken), AddUserPostEvent::Entropy(meets), r),
    ensures
        r.1 is Hash ==> !taken && meets && trim_spec(form.password_confirm@) == trim_spec(form.password@)
            && (r.1 matches AddUserPostAction::Hash(p) && p@ == trim_spec(form.password@))
            && (r.0 matches AddUserPostState::AwaitHash(v) && v.username.value@ == trim_spec(form.username@)
                && v.password.value@ == trim_spec(form.password@) && v.role == form.role),
        taken && plain_new_name(form.username@) ==> r.0 is Done
            && (r.1 matches AddUserPostAction::ShowInvalid { status, messages } && status == 422u16
                && strings_view(messages.username@) == translated(entries, seq![msg_username_taken()])),
        !meets ==> r.0 is Done
            && (r.1 matches AddUserPostAction::ShowInvalid { status, messages } && status == 422u16
                && (password_meets_rules(form.password@) ==>
                    strings_view(messages.password@) == translated(entries, seq![msg_password_entropy()]))),
{
}

/// Changing a password, once it is scored: it is hashed only when it meets
/// the entropy minimum and the confirmation repeats it, and then it is the
/// trimmed submitted password; a password under the minimum is refused with
/// 422 and the entropy message; one that passes every rule is hashed.
pub proof fn lemma_edit_password_hashes_only_strong_passwords(
    user_id: i64,
    form: EditPasswordManagerForm,
    entries: Seq<(String, String)>,
    edited_text: Option<String>,
    meets: bool,
    r: (EditPasswordPostState, EditPasswordPostAction),
)
    requires
        edit_password_post_next(user_id, form, entries, edited_text, EditPasswordPostState::AwaitEntropy,
            EditPasswordPostEvent::Entropy(meets), r),
    ensures
        r.1 is Hash ==> meets && trim_spec(form.password_confirm@) == trim_spec(form.password@)
            && (r.1 matches EditPasswordPostAction::Hash(p) && p@ == trim_spec(form.password@)),
        !meets ==> r.0 is Done
            && (r.1 matches EditPasswordPostAction::ShowInvalid { status, messages } && status == 422u16
                && (password_meets_rules(form.password@) ==>
                    strings_view(messages.password@) == translated(entries, seq![msg_password_entropy()]))),
        meets && password_meets_rules(form.password@) && trim_spec(form.password_confirm@) == trim_spec(form.password@)
            ==> r.0 is AwaitHash && (r.1 matches EditPasswordPostAction::Hash(p) && p@ == trim_spec(form.password@)),
{
}

/// Changing a password, at the CSRF check: nothing is hashed or stored before
/// the password has been scored.
pub proof fn lemma_edit_password_scores_before_hashing(
    user_id: i64,
    form: EditPasswordManagerForm,
    entries: Seq<(String, String)>,
    edited_text: Option<String>,
    ok: bool,
    r: (EditPasswordPostState, EditPasswordPostAction),
)
    requires
        edit_password_post_next(user_id, form, entries, edited_text, EditPasswordPostState::AwaitCsrf,
            EditPasswordPostEvent::Csrf(ok), r),
    ensures
        !(r.1 is Hash) && !(r.1 is Save),
{
}

/// Editing an account, once the name lookup answered: what is stored is the
/// trimmed submitted name and the submitted role, for the account in the
/// path, whatever the account's current name; a valid free name is stored,
/// and a valid name in use by another account is refused with 422 and
/// "Already taken".
pub proof fn lemma_edit_user_stores_submitted_name(
    user_id: i64,
    form: EditUserForm,
    entries: Seq<(String, String)>,
    edited_text: Option<String>,
    current: String,
    t: Result<bool, Failure<UserManagerRepositoryError>>,
    r: (EditUserPostState, EditUserPostAction),
)
    requires
        edit_user_post_next(user_id, form, entries, edited_text, EditUserPostState::AwaitTaken(current),
            EditUserPostEvent::Taken(t), r),
    ensures
        r.1 matches EditUserPostAction::Save(rec) ==> rec.id == user_id && rec.username@ == trim_spec(form.username@)
            && rec.role == form.role,
        plain_new_name(form.username@) && (t matches Ok(b) && !b) ==> r.0 is AwaitSave && r.1 is Save,
        plain_new_name(form.username@) && trim_spec(form.username@) != current@ && (t matches Ok(b) && b) ==>
            r.0 is Done && (r.1 matches EditUserPostAction::ShowInvalid { status, messages } && status == 422u16
                && strings_view(messages.username@) == translated(entries, seq![msg_username_taken()])),
{
}

/// Editing an account, at the CSRF check: a stored change always holds the
/// trimmed submitted name and the submitted role, for the account in the
/// path; keeping the current name (valid by the rules) stores it with no
/// lookup.
pub proof fn lemma_edit_user_csrf_step_stores_submitted_name(
    user_id: i64,
    form: EditUserForm,
    entries: Seq<(String, String)>,
    edited_text: Option<String>,
    current: String,
    r: (EditUserPostState, EditUserPostAction),
)
    requires
        edit_user_post_next(user_id, form, entries, edited_text, EditUserPostState::AwaitCsrf(current),
            EditUserPostEvent::Csrf(true), r),
    ensures
        r.1 matches EditUserPostAction::Save(rec) ==> rec.id == user_id && rec.username@ == trim_spec(form.username@)
            && rec.role == form.role,
        ({
            let n = trim_spec(form.username@);
            string_rule_check(Some(n), default_username_rules(), grapheme_count(n)) is Ok && n == current@
        }) ==> r.0 is AwaitSave && r.1 is Save,
{
}

} // verus!
