use rusty_shorty::failure::Failure;
use rusty_shorty::html::context::Flash;
use rusty_shorty::locale::Locale;
use rusty_shorty::role::Role;
use rusty_shorty::user::form::{AddUserForm, EditPasswordManagerForm, EditUserForm};
use rusty_shorty::user::model::FetchUser;
use rusty_shorty::user::post::{
    add_user_post_step, edit_password_post_step, edit_user_post_step, AddUserPostAction, AddUserPostEvent,
    AddUserPostState, EditPasswordPostAction, EditPasswordPostEvent, EditPasswordPostState, EditUserPostAction,
    EditUserPostEvent, EditUserPostState,
};
use rusty_shorty::user::service::{EditUserServiceError, PasswordHashFailure};

fn english() -> Locale {
    Locale { entries: Vec::new() }
}

#[test]
fn edit_user_skips_the_lookup_for_an_unchanged_name() {
    let l = english();
    let mut form = EditUserForm::default();
    form.username = " alice ".to_string();
    form.role = Role::Root;
    let (state, action) = edit_user_post_step(4, &form, &l, None, EditUserPostState::Start, EditUserPostEvent::Begin);
    assert!(matches!(action, EditUserPostAction::FetchUser(4)));
    let user = Ok(FetchUser { username: "alice".to_string(), role: Role::User });
    let (state, action) = edit_user_post_step(4, &form, &l, None, state, EditUserPostEvent::User(user));
    assert!(matches!(action, EditUserPostAction::VerifyCsrf));
    let (state, action) = edit_user_post_step(4, &form, &l, None, state, EditUserPostEvent::Csrf(true));
    match action {
        EditUserPostAction::Save(record) => {
            assert_eq!(record.id, 4);
            assert_eq!(record.username, "alice");
            assert_eq!(record.role, Role::Root);
        }
        other => panic!("unexpected {other:?}"),
    }
    let (_, action) = edit_user_post_step(4, &form, &l, None, state, EditUserPostEvent::Saved(Ok(())));
    match action {
        EditUserPostAction::Redirect { flash, location } => {
            assert_eq!(location, "/user/");
            assert_eq!(flash, Flash::Success { msg: "Successfully edited user id: 4".to_string() });
        }
        other => panic!("unexpected {other:?}"),
    }
}

#[test]
fn edit_user_refuses_a_taken_name() {
    let l = english();
    let mut form = EditUserForm::default();
    form.username = "bobby".to_string();
    let state = EditUserPostState::AwaitCsrf("alice".to_string());
    let (state, action) = edit_user_post_step(4, &form, &l, None, state, EditUserPostEvent::Csrf(true));
    match &action {
        EditUserPostAction::LookupTaken(name) => assert_eq!(name, "bobby"),
        other => panic!("unexpected {other:?}"),
    }
    let (state, action) = edit_user_post_step(4, &form, &l, None, state, EditUserPostEvent::Taken(Ok(true)));
    assert!(matches!(state, EditUserPostState::Done));
    match action {
        EditUserPostAction::ShowInvalid { status, messages } => {
            assert_eq!(status, 422);
            assert_eq!(messages.username, vec!["Already taken".to_string()]);
        }
        other => panic!("unexpected {other:?}"),
    }
    let missing = Err(Failure::with_status(EditUserServiceError::UserNotFound, 404));
    let (_, action) = edit_user_post_step(4, &form, &l, None, EditUserPostState::AwaitUser, EditUserPostEvent::User(missing));
    assert!(matches!(action, EditUserPostAction::Respond(404)));
}

#[test]
fn add_user_runs_every_step() {
    let l = english();
    let mut form = AddUserForm::default();
    form.username = "alice".to_string();
    form.password = "Strong@password1".to_string();
    form.password_confirm = "Strong@password1".to_string();
    let (state, action) = add_user_post_step(&form, &l, None, AddUserPostState::Start, AddUserPostEvent::Begin);
    assert!(matches!(action, AddUserPostAction::VerifyCsrf));
    let (state, action) = add_user_post_step(&form, &l, None, state, AddUserPostEvent::Csrf(true));
    assert!(matches!(action, AddUserPostAction::LookupTaken(ref n) if n == "alice"));
    let (state, action) = add_user_post_step(&form, &l, None, state, AddUserPostEvent::Taken(Ok(false)));
    assert!(matches!(action, AddUserPostAction::ScorePassword(ref p) if p == "Strong@password1"));
    let (state, action) = add_user_post_step(&form, &l, None, state, AddUserPostEvent::Entropy(true));
    assert!(matches!(action, AddUserPostAction::Hash(ref p) if p == "Strong@password1"));
    let (state, action) = add_user_post_step(&form, &l, None, state, AddUserPostEvent::Hashed(Ok(vec![1, 2, 3])));
    match &action {
        AddUserPostAction::Save(record) => {
            assert_eq!(record.username, "alice");
            assert_eq!(record.password, vec![1, 2, 3]);
            assert_eq!(record.role, Role::User);
        }
        other => panic!("unexpected {other:?}"),
    }
    let (_, action) = add_user_post_step(&form, &l, None, state, AddUserPostEvent::Saved(Ok(())));
    match action {
        AddUserPostAction::Redirect { flash, location } => {
            assert_eq!(location, "/user/");
            assert_eq!(flash, Flash::Success { msg: "Successfully created user: alice".to_string() });
        }
        other => panic!("unexpected {other:?}"),
    }
}

#[test]
fn add_user_skips_lookups_for_a_broken_form() {
    let l = english();
    let mut form = AddUserForm::default();
    form.username = "visitor".to_string();
    form.password = "weak".to_string();
    let (_, action) = add_user_post_step(&form, &l, None, AddUserPostState::AwaitCsrf, AddUserPostEvent::Csrf(true));
    match action {
        AddUserPostAction::ShowInvalid { status, messages } => {
            assert_eq!(status, 422);
            assert_eq!(messages.username, vec!["Username is reserved".to_string()]);
            assert_eq!(messages.password.len(), 4);
            assert!(messages.password_confirm.is_empty());
        }
        other => panic!("unexpected {other:?}"),
    }
}

#[test]
fn set_password_fails_when_hashing_fails() {
    let l = english();
    let mut form = EditPasswordManagerForm::default();
    form.password = "Strong@password1".to_string();
    form.password_confirm = "Strong@password2".to_string();
    let (state, action) = edit_password_post_step(4, &form, &l, None, EditPasswordPostState::AwaitCsrf, EditPasswordPostEvent::Csrf(true));
    assert!(matches!(action, EditPasswordPostAction::ScorePassword(_)));
    let (_, action) = edit_password_post_step(4, &form, &l, None, state, EditPasswordPostEvent::Entropy(true));
    match action {
        EditPasswordPostAction::ShowInvalid { messages, .. } => {
            assert!(messages.password.is_empty());
            assert_eq!(messages.password_confirm, vec!["Password does not match".to_string()]);
        }
        other => panic!("unexpected {other:?}"),
    }
    let (_, action) = edit_password_post_step(4, &form, &l, None, EditPasswordPostState::AwaitHash,
        EditPasswordPostEvent::Hashed(Err(PasswordHashFailure::Serialize)));
    assert!(matches!(action, EditPasswordPostAction::Respond(500)));
    let (_, action) = edit_password_post_step(4, &form, &l, None, EditPasswordPostState::AwaitHash,
        EditPasswordPostEvent::Hashed(Ok(vec![9])));
    match action {
        EditPasswordPostAction::Save(record) => {
            assert_eq!(record.id, 4);
            assert_eq!(record.password, vec![9u8]);
        }
        other => panic!("unexpected {other:?}"),
    }
}

use rusty_shorty::user::form::UserLoginForm;
use rusty_shorty::user::model::IdPassword;
use rusty_shorty::user::post::{login_post_step, LoginPostAction, LoginPostEvent, LoginPostState};
use rusty_shorty::user::repository::UserRepositoryError;
use rusty_shorty::user::route::login_cookie;

fn login_form(username: &str, password: &str) -> UserLoginForm {
    UserLoginForm { username: username.to_string(), password: password.to_string(), csrf_token: String::new() }
}

#[test]
fn login_cookie_policy() {
    let cookie = login_cookie("abc".to_string());
    assert_eq!(cookie.name, "login-token");
    assert_eq!(cookie.value, "abc");
    assert_eq!(cookie.path, "/");
    assert_eq!(cookie.lifetime_days, 30);
    assert!(cookie.secure);
    assert!(cookie.http_only);
}

#[test]
fn login_succeeds_through_every_step() {
    let l = english();
    let form = login_form(" hello ", "password");
    let (state, action) = login_post_step(&form, &l, LoginPostState::Start, LoginPostEvent::Begin);
    assert!(matches!(action, LoginPostAction::VerifyCsrf));
    let (state, action) = login_post_step(&form, &l, state, LoginPostEvent::Csrf(true));
    assert!(matches!(action, LoginPostAction::LookupPassword(ref n) if n == "hello"));
    let found = Ok(IdPassword { id: 1, password: vec![7] });
    let (state, action) = login_post_step(&form, &l, state, LoginPostEvent::Found(found));
    match &action {
        LoginPostAction::VerifyPassword { password_hash, password } => {
            assert_eq!(password_hash, &vec![7u8]);
            assert_eq!(password, "password");
        }
        other => panic!("unexpected {other:?}"),
    }
    let (state, action) = login_post_step(&form, &l, state, LoginPostEvent::Verified(true));
    let token = match action {
        LoginPostAction::StoreToken { token, user_id } => {
            assert_eq!(user_id, 1);
            assert_eq!(token.len(), 36);
            token
        }
        other => panic!("unexpected {other:?}"),
    };
    let (state, action) = login_post_step(&form, &l, state, LoginPostEvent::Stored(Ok(())));
    assert!(matches!(state, LoginPostState::Done));
    match action {
        LoginPostAction::Finish { outcome, cookie } => {
            assert_eq!(outcome.location, "/");
            assert_eq!(outcome.flash, Flash::Success { msg: "Login success".to_string() });
            assert_eq!(outcome.token.as_deref(), Some(token.as_str()));
            let cookie = cookie.unwrap();
            assert_eq!(cookie.value, token);
            assert_eq!(cookie.name, "login-token");
        }
        other => panic!("unexpected {other:?}"),
    }
}

#[test]
fn login_fails_without_lookups_for_an_empty_form() {
    let l = english();
    let form = login_form("", "password");
    let (_, action) = login_post_step(&form, &l, LoginPostState::AwaitCsrf, LoginPostEvent::Csrf(false));
    assert!(matches!(action, LoginPostAction::Respond(403)));
    let (state, action) = login_post_step(&form, &l, LoginPostState::AwaitCsrf, LoginPostEvent::Csrf(true));
    assert!(matches!(state, LoginPostState::Done));
    match action {
        LoginPostAction::Finish { outcome, cookie } => {
            assert!(cookie.is_none());
            assert_eq!(outcome.location, "/user-login/");
            assert_eq!(outcome.flash, Flash::Error { msg: "Login failed".to_string() });
        }
        other => panic!("unexpected {other:?}"),
    }
    let (_, action) = login_post_step(&form, &l, LoginPostState::AwaitPassword("pw".to_string()),
        LoginPostEvent::Found(Err(Failure::new(UserRepositoryError::NotFoundError))));
    assert!(matches!(action, LoginPostAction::Finish { cookie: None, .. }));
    let (_, action) = login_post_step(&form, &l, LoginPostState::AwaitStore("t".to_string()),
        LoginPostEvent::Stored(Err(Failure::new(UserRepositoryError::QueryError))));
    assert!(matches!(action, LoginPostAction::Finish { cookie: None, .. }));
}
