use vstd::prelude::*;
use crate::timestamp::Timestamp;

verus! {

/// A recorded error with its full stack.
#[derive(Debug)]
pub struct StackModel {
    pub id: i64,
    pub error_name: String,
    pub error_summary: String,
    pub error_stack: String,
    /// When it was reported.
    pub reported_at: Timestamp,
}

/// A recorded error in the list of errors.
#[derive(Debug)]
pub struct ListStackModel {
    pub id: i64,
    pub error_name: String,
    pub error_summary: String,
    /// When it was reported.
    pub reported_at: Timestamp,
}

/// What can go wrong when the error table is read or written.
#[derive(Debug, Clone, Copy, PartialEq, Eq, Structural)]
pub enum StackRepositoryError {
    QueryError,
    RowValueError,
    BorrowConnError,
}

} // verus!
