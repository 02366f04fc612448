use vstd::prelude::*;
use crate::failure::{Failure, STATUS_NOT_FOUND};

verus! {

/// What can go wrong when the token and password tables are read or written.
#[derive(Debug, Clone, Copy, PartialEq, Eq, Structural)]
pub enum UserRepositoryError {
    QueryError,
    RowValueError,
    BorrowConnError,
    NotFoundError,
}

/// What can go wrong when the account table is read or written.
#[derive(Debug, Clone, Copy, PartialEq, Eq, Structural)]
pub enum UserManagerRepositoryError {
    QueryError,
    RowValueError,
    BorrowConnError,
}

/// The row a token or a username lookup found, or the not-found failure (404)
/// when there was none.
pub fn require_row<T>(row: Option<T>) -> (r: Result<T, Failure<UserRepositoryError>>)
    ensures
        match row {
            Some(t) => r == Ok::<T, Failure<UserRepositoryError>>(t),
            None => r == Err::<T, Failure<UserRepositoryError>>(
                Failure { error: UserRepositoryError::NotFoundError, status: Some(STATUS_NOT_FOUND), note: None }),
        },
{
    match row {
        Some(t) => Ok(t),
        None => Err(Failure::with_status(UserRepositoryError::NotFoundError, STATUS_NOT_FOUND)),
    }
}

/// Whether a name is taken, from the lookup's row: no row means it is free.
pub fn taken_from_row(row: Option<bool>) -> (r: bool)
    ensures
        r == (row == Some(true)),
{
    match row {
        Some(b) => b,
        None => false,
    }
}

} // verus!
