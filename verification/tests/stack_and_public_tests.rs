use rusty_shorty::failure::{Failure, STATUS_NOT_FOUND};
use rusty_shorty::public::shorty::{FetchUrlService, FetchUrlServiceError, ShortyRepositoryError, UrlRedirect};
use rusty_shorty::stack::model::{StackModel, StackRepositoryError};
use rusty_shorty::stack::service::{StackService, StackServiceError};

#[test]
fn test_stack_service_clear_success() {
    let stack_service = StackService::new();
    let result = stack_service.clear(Ok(()));
    assert!(result.is_ok());
}

#[test]
fn test_stack_service_clear_failure() {
    let stack_service = StackService::new();
    let result = stack_service.clear(Err(Failure::new(StackRepositoryError::QueryError)));
    assert!(result.is_err());
}

#[test]
fn test_stack_service_fetch_error_stack_success() {
    let stack_service = StackService::new();
    let result = stack_service.fetch_error_stack(Ok(Some(StackModel {
        id: 1,
        error_name: "1".to_string(),
        error_summary: "1".to_string(),
        error_stack: "1".to_string(),
        reported_at: Default::default(),
    })));
    assert!(result.is_ok());
}

#[test]
fn test_stack_service_fetch_error_stack_error() {
    let stack_service = StackService::new();
    let result = stack_service.fetch_error_stack(Err(Failure::new(StackRepositoryError::QueryError)));
    assert!(result.is_err());
}

#[test]
fn test_stack_service_fetch_error_stack_not_found() {
    let stack_service = StackService::new();
    let result = stack_service.fetch_error_stack(Ok(None));
    assert!(result.is_err());
    let result = result.err().unwrap();
    assert_eq!(result.status, Some(STATUS_NOT_FOUND));
    assert_eq!(result.error, StackServiceError::NotFound);
}

#[test]
fn stack_service_keeps_the_status_of_a_failed_lookup() {
    let stack_service = StackService::new();
    let mut failure = Failure::with_status(StackRepositoryError::RowValueError, 500);
    failure.note = Some("disk full".to_string());
    let result = stack_service.fetch_error_stack(Err(failure));
    let error = result.err().unwrap();
    assert_eq!(error.error, StackServiceError::DbError);
    assert_eq!(error.status, Some(500));
    assert_eq!(error.note.as_deref(), Some("disk full"));
}

#[test]
fn stack_service_lists_nothing_when_the_listing_fails() {
    let stack_service = StackService::new();
    let listed = stack_service.list_error_stack(Err(Failure::new(StackRepositoryError::QueryError)));
    assert!(listed.is_empty());
}

#[test]
fn test_fetch_url_success() {
    let fetch_url_service = FetchUrlService::new();
    let url_redirect = fetch_url_service
        .fetch_url("hello", Ok(Some(UrlRedirect { url_redirect: "hi".to_string() })))
        .unwrap();
    assert_eq!(url_redirect.url_redirect, "hi");
}

#[test]
fn test_fetch_url_not_found() {
    let fetch_url_service = FetchUrlService::new();
    let url_redirect = fetch_url_service.fetch_url("hello", Ok(None));
    assert!(url_redirect.is_err());
    let error = url_redirect.as_ref().err().unwrap();
    assert_eq!(error.status, Some(STATUS_NOT_FOUND));
    assert_eq!(error.error, FetchUrlServiceError::NotFound);
    assert_eq!(error.note.as_deref(), Some("Path: hello"));
}

#[test]
fn test_fetch_url_db_error() {
    let fetch_url_service = FetchUrlService::new();
    let url_redirect = fetch_url_service.fetch_url("hello", Err(Failure::new(ShortyRepositoryError::RowValueError)));
    assert!(url_redirect.is_err());
    assert_eq!(url_redirect.err().unwrap().error, FetchUrlServiceError::DbError);
}
