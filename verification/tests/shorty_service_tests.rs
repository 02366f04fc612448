use rusty_shorty::failure::{Failure, STATUS_NOT_FOUND};
use rusty_shorty::shorty::form::{AddEditUrlForm, AddEditUrlValidated};
use rusty_shorty::shorty::model::{GetUrlRedirectModel, GetUserIdByUrlIdModel};
use rusty_shorty::shorty::repository::ShortyRepositoryError;
use rusty_shorty::shorty::rule::must_be_kebab_case;
use rusty_shorty::shorty::service::{AddUrlService, DeleteUrlService, EditUrlService, EditUrlServiceError};
use rusty_shorty::shorty::route::{url_post_step, UrlPostAction, UrlPostEvent, UrlPostState};
use rusty_shorty::html::context::Flash;
use rusty_shorty::locale::Locale;
use rusty_shorty::role::Role;
use rusty_shorty::user::model::UserIdContext;

fn hello_form() -> AddEditUrlValidated {
    let mut add_edit_url_form = AddEditUrlForm::default();
    add_edit_url_form.url_path = "hello".to_string();
    add_edit_url_form.url_redirect = "http://hello.com".to_string();
    add_edit_url_form.as_validated().0.unwrap()
}

#[test]
fn test_must_be_kebab_case() {
    let url_path = "test-url-path";
    let result = must_be_kebab_case(url_path);
    assert!(result.is_ok());

    let url_path = "test-url-path_1";
    let result = must_be_kebab_case(url_path);
    assert!(result.is_err());
}

#[test]
fn test_add_url_submit_success() {
    let add_url_service = AddUrlService::new();
    let validated = hello_form();

    let record = add_url_service.add_url_record(&validated, 1);
    assert_eq!(record.url_path, "hello");
    assert_eq!(record.url_redirect, "http://hello.com");
    assert_eq!(record.user_id, 1);

    let result = add_url_service.add_url_submit(Ok(()));
    assert!(result.is_ok());
}

#[test]
fn test_add_url_submit_db_error() {
    let add_url_service = AddUrlService::new();
    let validated = hello_form();

    let record = add_url_service.add_url_record(&validated, 1);
    assert_eq!(record.url_path, "hello");
    assert_eq!(record.url_redirect, "http://hello.com");

    let result = add_url_service.add_url_submit(Err(Failure::new(ShortyRepositoryError::QueryError)));
    assert!(result.is_err());
}

#[test]
fn test_delete_url_success() {
    let delete_url_service = DeleteUrlService::new();
    let result = delete_url_service.delete_url(Ok(()));
    assert!(result.is_ok());
}

#[test]
fn test_delete_url_db_error() {
    let delete_url_service = DeleteUrlService::new();
    let result = delete_url_service.delete_url(Err(Failure::new(ShortyRepositoryError::QueryError)));
    assert!(result.is_err());
}

#[test]
fn delete_url_service_test_fetch_user_id_from_url_id_success() {
    let delete_url_service = DeleteUrlService::new();
    let user_id = delete_url_service
        .fetch_user_id_from_url_id(Ok(Some(GetUserIdByUrlIdModel { created_by_user_id: 1 })))
        .unwrap();
    assert_eq!(user_id.created_by_user_id, 1);
}

#[test]
fn delete_url_service_test_fetch_user_id_from_url_id_not_found() {
    let delete_url_service = DeleteUrlService::new();
    let user_id = delete_url_service.fetch_user_id_from_url_id(Ok(None));
    assert!(user_id.is_err());
    let error = user_id.as_ref().err().unwrap();
    assert_eq!(error.status, Some(STATUS_NOT_FOUND));
}

#[test]
fn test_fetch_user_id_from_url_id_db_error() {
    let delete_url_service = DeleteUrlService::new();
    let user_id = delete_url_service
        .fetch_user_id_from_url_id(Err(Failure::new(ShortyRepositoryError::QueryError)));
    assert!(user_id.is_err());
}

#[test]
fn test_get_url_redirect_success() {
    let edit_url_service = EditUrlService::new();
    let url_redirect = edit_url_service
        .get_url_redirect(Ok(Some(GetUrlRedirectModel {
            url_path: "hello".to_string(),
            url_redirect: "hi".to_string(),
        })))
        .unwrap();
    assert_eq!(url_redirect.url_path, "hello");
    assert_eq!(url_redirect.url_redirect, "hi");
}

#[test]
fn test_get_url_redirect_not_found() {
    let edit_url_service = EditUrlService::new();
    let url_redirect = edit_url_service.get_url_redirect(Ok(None));
    assert!(url_redirect.is_err());
    let error = url_redirect.as_ref().err().unwrap();
    assert_eq!(error.status, Some(STATUS_NOT_FOUND));
}

#[test]
fn test_edit_url_submit_success() {
    let edit_url_service = EditUrlService::new();
    let validate = hello_form();

    let record = edit_url_service.edit_url_record(&validate, 1);
    assert_eq!(record.id, 1);
    assert_eq!(record.url_path, "hello");
    assert_eq!(record.url_redirect, "http://hello.com");

    let result = edit_url_service.edit_url_submit(Ok(()));
    assert!(result.is_ok());
}

#[test]
fn test_edit_url_submit_db_error() {
    let edit_url_service = EditUrlService::new();
    let validate = hello_form();

    let record = edit_url_service.edit_url_record(&validate, 1);
    assert_eq!(record.id, 1);

    let result = edit_url_service.edit_url_submit(Err(Failure::new(ShortyRepositoryError::QueryError)));
    assert!(result.is_err());
}

#[test]
fn edit_url_service_test_fetch_user_id_from_url_id_success() {
    let edit_url_service = EditUrlService::new();
    let user_id = edit_url_service
        .fetch_user_id_from_url_id(Ok(Some(GetUserIdByUrlIdModel { created_by_user_id: 1 })))
        .unwrap();
    assert_eq!(user_id.created_by_user_id, 1);
}

#[test]
fn edit_url_service_test_fetch_user_id_from_url_id_not_found() {
    let edit_url_service = EditUrlService::new();
    let user_id = edit_url_service.fetch_user_id_from_url_id(Ok(None));
    assert!(user_id.is_err());
    let error = user_id.as_ref().err().unwrap();
    assert_eq!(error.status, Some(STATUS_NOT_FOUND));
}

fn form_with(path: &str, redirect: &str) -> AddEditUrlForm {
    let mut form = AddEditUrlForm::default();
    form.url_path = path.to_string();
    form.url_redirect = redirect.to_string();
    form
}

#[test]
fn url_post_refuses_a_foreign_url_before_the_csrf_check() {
    let viewer = UserIdContext { id: 2, username: "bob".to_string(), role: Role::User };
    let l = Locale { entries: Vec::new() };
    let form = form_with("hello", "http://hello.com");
    let (state, action) = url_post_step(Some(7), &viewer, &form, &l, UrlPostState::Start, UrlPostEvent::Begin);
    assert_eq!(state, UrlPostState::AwaitOwner);
    assert!(matches!(action, UrlPostAction::FetchOwner(7)));
    let owner = Ok(GetUserIdByUrlIdModel { created_by_user_id: 3 });
    let (state, action) = url_post_step(Some(7), &viewer, &form, &l, state, UrlPostEvent::Owner(owner));
    assert_eq!(state, UrlPostState::Done);
    assert!(matches!(action, UrlPostAction::Respond(403)));
    let missing = Err(Failure::with_status(EditUrlServiceError::DbError, 404));
    let (_, action) = url_post_step(Some(7), &viewer, &form, &l, UrlPostState::AwaitOwner, UrlPostEvent::Owner(missing));
    assert!(matches!(action, UrlPostAction::Respond(404)));
}

#[test]
fn url_post_adds_a_valid_form_and_redirects() {
    let viewer = UserIdContext { id: 2, username: "bob".to_string(), role: Role::User };
    let l = Locale { entries: Vec::new() };
    let form = form_with(" hello ", "http://hello.com");
    let (state, action) = url_post_step(None, &viewer, &form, &l, UrlPostState::Start, UrlPostEvent::Begin);
    assert!(matches!(action, UrlPostAction::VerifyCsrf));
    let (state, action) = url_post_step(None, &viewer, &form, &l, state, UrlPostEvent::Csrf(true));
    assert_eq!(state, UrlPostState::AwaitSave);
    match action {
        UrlPostAction::SaveAdd(record) => {
            assert_eq!(record.url_path, "hello");
            assert_eq!(record.url_redirect, "http://hello.com");
            assert_eq!(record.user_id, 2);
        }
        other => panic!("unexpected {other:?}"),
    }
    let (state, action) = url_post_step(None, &viewer, &form, &l, state, UrlPostEvent::Saved(Ok(())));
    assert_eq!(state, UrlPostState::Done);
    match action {
        UrlPostAction::Redirect { flash, location } => {
            assert_eq!(location, "/shorty/");
            assert_eq!(flash, Flash::Success { msg: "Successfully added URL".to_string() });
        }
        other => panic!("unexpected {other:?}"),
    }
    let (_, action) = url_post_step(None, &viewer, &form, &l, UrlPostState::AwaitSave,
        UrlPostEvent::Saved(Err(Failure::new(ShortyRepositoryError::QueryError))));
    assert!(matches!(action, UrlPostAction::Respond(500)));
}

#[test]
fn url_post_shows_an_invalid_form_again() {
    let root = UserIdContext { id: 1, username: "root".to_string(), role: Role::Root };
    let l = Locale { entries: Vec::new() };
    let form = form_with("Bad Path", "");
    let (_, action) = url_post_step(Some(7), &root, &form, &l, UrlPostState::AwaitCsrf, UrlPostEvent::Csrf(false));
    assert!(matches!(action, UrlPostAction::Respond(403)));
    let (state, action) = url_post_step(Some(7), &root, &form, &l, UrlPostState::AwaitCsrf, UrlPostEvent::Csrf(true));
    assert_eq!(state, UrlPostState::Done);
    match action {
        UrlPostAction::ShowInvalid { status, messages } => {
            assert_eq!(status, 422);
            assert_eq!(messages.url_path, vec!["Must be kebab case".to_string()]);
            assert_eq!(messages.url_redirect, vec!["Cannot be empty".to_string()]);
        }
        other => panic!("unexpected {other:?}"),
    }
    let (_, action) = url_post_step(Some(7), &root, &form, &l, UrlPostState::Done, UrlPostEvent::Begin);
    assert!(matches!(action, UrlPostAction::Respond(500)));
}
