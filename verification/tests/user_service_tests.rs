use rusty_shorty::failure::{Failure, STATUS_INTERNAL_SERVER_ERROR, STATUS_NOT_FOUND};
use rusty_shorty::role::Role;
use rusty_shorty::user::form::{AddUserValidated, EditPasswordManagerValidated, EditUserValidated};
use rusty_shorty::user::model::{FetchUser, IdPassword};
use rusty_shorty::user::repository::{UserManagerRepositoryError, UserRepositoryError};
use rusty_shorty::user::service::{
    AddUserService, EditPasswordService, EditUserService, LoginStep, PasswordHashFailure,
    UserLoginService,
};
use rusty_shorty::validation::{Password, Username};

const TEST_PASSWORD: &str = "aVHTsh_SEGW5[g_c`/uh>~0!YI0'~fJw";

fn add_user_test_data() -> AddUserValidated {
    AddUserValidated {
        username: Username::parse(Some("username")).expect("test username"),
        password: Password::parse(Some(TEST_PASSWORD)).expect("test password"),
        password_confirm: Password::parse(Some(TEST_PASSWORD)).expect("test password confirm"),
        role: Default::default(),
    }
}

fn edit_password_test_data() -> EditPasswordManagerValidated {
    EditPasswordManagerValidated {
        password: Password::parse(Some(TEST_PASSWORD)).expect("test password"),
        password_confirm: Password::parse(Some(TEST_PASSWORD)).expect("test password confirm"),
    }
}

fn edit_user_test_data() -> EditUserValidated {
    EditUserValidated {
        username: Username::parse(Some("username")).expect("test username"),
        role: Default::default(),
    }
}

/// Runs a login the way the request handler does, with the outcomes of the
/// password lookup, the verification and the token insert given.
fn run_login(
    service: &UserLoginService,
    found: Result<IdPassword, Failure<UserRepositoryError>>,
    valid: bool,
    stored: Result<(), Failure<UserRepositoryError>>,
) -> Option<String> {
    let mut step = service.validate_login(found);
    let mut stored = Some(stored);
    loop {
        step = match step {
            LoginStep::VerifyPassword { user_id, .. } => service.password_verified(user_id, valid),
            LoginStep::StoreToken { token, user_id } => {
                assert_eq!(user_id, 1);
                service.token_stored(token, stored.take().unwrap())
                    .map_or(LoginStep::Done(None), |t| LoginStep::Done(Some(t)))
            }
            LoginStep::Done(result) => return result,
        };
    }
}

#[test]
fn test_validate_login_success() {
    let service = UserLoginService::new(None);
    let str = run_login(&service, Ok(IdPassword { id: 1, password: Default::default() }), true, Ok(()));
    assert!(str.is_some());
}

#[test]
fn test_validate_login_username_error() {
    let service = UserLoginService::new(None);
    let str = run_login(&service, Err(Failure::new(UserRepositoryError::QueryError)), true, Ok(()));
    assert!(str.is_none());
}

#[test]
fn test_validate_login_password_verify_fail() {
    let service = UserLoginService::new(None);
    let str = run_login(&service, Ok(IdPassword { id: 1, password: Default::default() }), false, Ok(()));
    assert!(str.is_none());
}

#[test]
fn test_validate_login_add_token_fail() {
    let service = UserLoginService::new(None);
    let str = run_login(
        &service,
        Ok(IdPassword { id: 1, password: Default::default() }),
        true,
        Err(Failure::new(UserRepositoryError::QueryError)),
    );
    assert!(str.is_none());
}

#[test]
fn login_tokens_are_fresh_hyphenated_uuids() {
    let service = UserLoginService::new(None);
    let first = run_login(&service, Ok(IdPassword { id: 1, password: Default::default() }), true, Ok(()));
    let second = run_login(&service, Ok(IdPassword { id: 1, password: Default::default() }), true, Ok(()));
    let first = first.unwrap();
    let second = second.unwrap();
    for token in [&first, &second] {
        assert_eq!(token.len(), 36);
        for (i, c) in token.chars().enumerate() {
            if [8, 13, 18, 23].contains(&i) {
                assert_eq!(c, '-');
            } else {
                assert!(c.is_ascii_digit() || ('a'..='f').contains(&c), "{token}");
            }
        }
        assert_eq!(token.as_bytes()[14], b'4');
        assert!(b"89ab".contains(&token.as_bytes()[19]));
    }
    assert_ne!(first, second);
}

#[test]
fn test_logout_success() {
    let service = UserLoginService::new(Some("hello".to_string()));
    assert_eq!(service.logout_token(), Some("hello".to_string()));
    let result = service.logout(Some(Ok(())));
    assert_eq!(result, true);
}

#[test]
fn test_logout_fail() {
    let service = UserLoginService::new(Some("hello".to_string()));
    assert_eq!(service.logout_token(), Some("hello".to_string()));
    let result = service.logout(Some(Err(Failure::new(UserRepositoryError::QueryError))));
    assert_eq!(result, false);
}

#[test]
fn logout_without_a_token_fails() {
    let service = UserLoginService::new(None);
    assert_eq!(service.logout_token(), None);
    assert_eq!(service.logout(None), false);
}

#[test]
fn test_add_user_success() {
    let add_user_validated = add_user_test_data();
    let service = AddUserService::new();

    let hashed = TEST_PASSWORD.as_bytes().to_vec();
    let record = service.add_user_record(&add_user_validated, Ok(hashed.clone())).unwrap();
    assert_eq!(record.username, "username");
    assert_eq!(record.password, hashed);
    assert_eq!(record.role, Role::User);

    let result = service.add_user_submit(Ok(()));
    assert!(result.is_ok());
}

#[test]
fn test_add_user_hash_fail() {
    let add_user_validated = add_user_test_data();
    let service = AddUserService::new();

    let result = service.add_user_record(&add_user_validated, Err(PasswordHashFailure::Hash));
    assert!(result.is_err());
    assert_eq!(result.err().unwrap().status, Some(STATUS_INTERNAL_SERVER_ERROR));
}

#[test]
fn test_add_user_db_fail() {
    let add_user_validated = add_user_test_data();
    let service = AddUserService::new();

    let record = service.add_user_record(&add_user_validated, Ok(TEST_PASSWORD.as_bytes().to_vec()));
    assert!(record.is_ok());

    let result = service.add_user_submit(Err(Failure::new(UserManagerRepositoryError::QueryError)));
    assert!(result.is_err());
}

#[test]
fn edit_password_service_test_submit_success() {
    let password = edit_password_test_data();
    let service = EditPasswordService::new();

    let hash = password.password.as_str().as_bytes().to_vec();
    let record = service.edit_password_record(1, Ok(hash.clone())).unwrap();
    assert_eq!(record.id, 1);
    assert_eq!(record.password, hash);

    let result = service.edit_password_submit(Ok(()));
    assert!(result.is_ok());
}

#[test]
fn test_password_hash_fail() {
    let _password = edit_password_test_data();
    let service = EditPasswordService::new();

    let result = service.edit_password_record(1, Err(PasswordHashFailure::Hash));
    assert!(result.is_err());
    assert_eq!(result.err().unwrap().status, Some(STATUS_INTERNAL_SERVER_ERROR));
}

#[test]
fn edit_password_service_test_submit_fail() {
    let password = edit_password_test_data();
    let service = EditPasswordService::new();

    let record = service.edit_password_record(1, Ok(password.password.as_str().as_bytes().to_vec())).unwrap();
    assert_eq!(record.id, 1);

    let result = service.edit_password_submit(Err(Failure::new(UserManagerRepositoryError::QueryError)));
    assert!(result.is_err());
}

#[test]
fn edit_password_service_test_fetch_user_success() {
    let service = EditPasswordService::new();
    let result = service.fetch_user(Ok(Some(FetchUser {
        username: "username".to_string(),
        role: Default::default(),
    })));
    assert!(result.is_ok());
}

#[test]
fn edit_password_service_test_fetch_user_not_found() {
    let service = EditPasswordService::new();
    let result = service.fetch_user(Ok(None));
    assert!(result.is_err());
    let result = result.err().unwrap();
    assert_eq!(result.status, Some(STATUS_NOT_FOUND));
}

#[test]
fn edit_password_service_test_fetch_user_error() {
    let service = EditPasswordService::new();
    let result = service.fetch_user(Err(Failure::new(UserManagerRepositoryError::QueryError)));
    assert!(result.is_err());
}

#[test]
fn edit_service_test_submit_success() {
    let edit_user_validated = edit_user_test_data();
    let service = EditUserService::new();

    let record = service.edit_user_record(1, &edit_user_validated);
    assert_eq!(record.id, 1);
    assert_eq!(record.username, "username");
    assert_eq!(record.role, Role::User);

    let result = service.edit_user_submit(Ok(()));
    assert!(result.is_ok());
}

#[test]
fn edit_service_test_submit_fail() {
    let edit_user_validated = edit_user_test_data();
    let service = EditUserService::new();

    let record = service.edit_user_record(1, &edit_user_validated);
    assert_eq!(record.username, "username");

    let result = service.edit_user_submit(Err(Failure::new(UserManagerRepositoryError::QueryError)));
    assert!(result.is_err());
}

#[test]
fn edit_service_test_fetch_user_success() {
    let service = EditUserService::new();
    let result = service.fetch_user(Ok(Some(FetchUser {
        username: "username".to_string(),
        role: Default::default(),
    })));
    assert!(result.is_ok());
}

#[test]
fn edit_service_test_fetch_user_not_found() {
    let service = EditUserService::new();
    let result = service.fetch_user(Ok(None));
    assert!(result.is_err());
    let result = result.err().unwrap();
    assert_eq!(result.status, Some(STATUS_NOT_FOUND));
}

#[test]
fn edit_service_test_fetch_user_error() {
    let service = EditUserService::new();
    let result = service.fetch_user(Err(Failure::new(UserManagerRepositoryError::QueryError)));
    assert!(result.is_err());
}

#[test]
fn a_failed_name_lookup_counts_as_free() {
    let service = AddUserService::new();
    assert!(service.is_username_taken(Ok(true)));
    assert!(!service.is_username_taken(Ok(false)));
    assert!(!service.is_username_taken(Err(Failure::new(UserManagerRepositoryError::QueryError))));
}
