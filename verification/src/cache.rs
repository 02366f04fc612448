use vstd::prelude::*;
use crate::user::pointer::UserPointer;

verus! {

/// What one request of the back office remembers while it is served.
#[derive(Debug)]
pub struct BackofficeRequestCache {
    pub user_pointer: Option<UserPointer>,
}

impl Default for BackofficeRequestCache {
    fn default() -> (r: BackofficeRequestCache)
        ensures
            r.user_pointer is None,
    {
        BackofficeRequestCache { user_pointer: None }
    }
}

} // verus!
