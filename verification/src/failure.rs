use vstd::prelude::*;

verus! {

/// The HTTP status of a request that is not allowed for the signed-in user.
pub const STATUS_UNAUTHORIZED: u16 = 401;

/// The HTTP status of a request for a resource the user may not touch.
pub const STATUS_FORBIDDEN: u16 = 403;

/// The HTTP status of a request for a record that does not exist.
pub const STATUS_NOT_FOUND: u16 = 404;

/// The HTTP status of a form that failed its rules.
pub const STATUS_UNPROCESSABLE_ENTITY: u16 = 422;

/// The HTTP status of a failure of the server itself.
pub const STATUS_INTERNAL_SERVER_ERROR: u16 = 500;

/// A failed operation: what went wrong, the HTTP status the response should
/// carry when one was decided, and a text attached for the log, if any.
#[derive(Debug)]
pub struct Failure<E> {
    pub error: E,
    pub status: Option<u16>,
    pub note: Option<String>,
}

/// A repository failure carried on under a service's error: the service's
/// error replaces the repository's; the HTTP status already decided and the
/// attached text are kept.
pub open spec fn wraps<E, F>(inner: Failure<E>, outer: Failure<F>, error: F) -> bool {
    outer.error == error && outer.status == inner.status && outer.note == inner.note
}

/// The HTTP status a failed request is answered with: the one decided, else 500.
pub open spec fn answered_status<E>(f: Failure<E>) -> u16 {
    match f.status {
        Some(s) => s,
        None => STATUS_INTERNAL_SERVER_ERROR,
    }
}

impl<E> Failure<E> {
    /// A failure with no HTTP status decided yet.
    pub fn new(error: E) -> (r: Failure<E>)
        ensures
            r.error == error,
            r.status is None,
            r.note is None,
    {
        Failure { error, status: None, note: None }
    }

    /// A failure with the given HTTP status.
    pub fn with_status(error: E, status: u16) -> (r: Failure<E>)
        ensures
            r.error == error,
            r.status == Some(status),
            r.note is None,
    {
        Failure { error, status: Some(status), note: None }
    }

    /// The HTTP status the failed request is answered with: the one decided,
    /// else 500.
    pub fn response_status(&self) -> (r: u16)
        ensures
            r == answered_status(*self),
    {
        match self.status {
            Some(s) => s,
            None => STATUS_INTERNAL_SERVER_ERROR,
        }
    }
}

} // verus!
