use vstd::prelude::*;

verus! {

/// What can go wrong when the short URL table is read or written.
#[derive(Debug, Clone, Copy, PartialEq, Eq, Structural)]
pub enum ShortyRepositoryError {
    QueryError,
    RowValueError,
    BorrowConnError,
}

} // verus!

verus! {

/// The row to insert for a new short URL.
#[derive(Debug)]
pub struct AddUrlRedirect {
    pub url_path: String,
    pub url_redirect: String,
    pub user_id: i64,
}

/// The new path and target of an existing short URL.
#[derive(Debug)]
pub struct EditUrlRedirect {
    pub id: i64,
    pub url_path: String,
    pub url_redirect: String,
}

} // verus!
