use vstd::prelude::*;
use crate::failure::{wraps, Failure, STATUS_NOT_FOUND};
use crate::stack::model::{ListStackModel, StackModel, StackRepositoryError};

verus! {

/// The database failed, or the recorded error does not exist.
#[derive(Debug, Clone, Copy, PartialEq, Eq, Structural)]
pub enum StackServiceError {
    DbError,
    NotFound,
}

/// Reads and clears the recorded errors.
pub struct StackService {}

impl StackService {
    pub fn new() -> (r: StackService) {
        StackService {}
    }

    /// The outcome of clearing old records, given the outcome of the delete.
    pub fn clear(&self, cleared: Result<(), Failure<StackRepositoryError>>) -> (r: Result<(), Failure<StackServiceError>>)
        ensures
            cleared is Ok <==> r is Ok,
            cleared matches Err(f) ==> (r matches Err(g) && wraps(f, g, StackServiceError::DbError)),
    {
        match cleared {
            Ok(()) => Ok(()),
            Err(f) => Err(Failure { error: StackServiceError::DbError, status: f.status, note: f.note }),
        }
    }

    /// A recorded error, given what the lookup by id found.
    pub fn fetch_error_stack(
        &self,
        found: Result<Option<StackModel>, Failure<StackRepositoryError>>,
    ) -> (r: Result<StackModel, Failure<StackServiceError>>)
        ensures
            match found {
                Ok(Some(m)) => r == Ok::<StackModel, Failure<StackServiceError>>(m),
                Ok(None) => r == Err::<StackModel, Failure<StackServiceError>>(
                    Failure { error: StackServiceError::NotFound, status: Some(STATUS_NOT_FOUND), note: None }),
                Err(f) => r matches Err(g) && wraps(f, g, StackServiceError::DbError),
            },
    {
        match found {
            Ok(Some(m)) => Ok(m),
            Ok(None) => Err(Failure::with_status(StackServiceError::NotFound, STATUS_NOT_FOUND)),
            Err(f) => Err(Failure { error: StackServiceError::DbError, status: f.status, note: f.note }),
        }
    }

    /// The recorded errors to show: those listed, or none when the listing failed.
    pub fn list_error_stack(&self, listed: Result<Vec<ListStackModel>, Failure<StackRepositoryError>>) -> (r: Vec<ListStackModel>)
        ensures
            match listed {
                Ok(v) => r == v,
                Err(_) => r@.len() == 0,
            },
    {
        match listed {
            Ok(v) => v,
            Err(_) => Vec::new(),
        }
    }
}

} // verus!
