use vstd::prelude::*;
use std::sync::Arc;
use crate::user::model::UserIdContext;

verus! {

/// A shared handle on the requester's identity, computed once per request.
#[derive(Debug)]
pub struct UserPointer(pub Arc<UserIdContext>);

impl UserPointer {
    /// Wraps an identity.
    pub fn new(context: UserIdContext) -> (r: UserPointer)
        ensures
            *r.0 == context,
    {
        UserPointer(Arc::new(context))
    }

    /// The identity this handle points at.
    pub fn get(&self) -> (r: &UserIdContext)
        ensures
            *r == *self.0,
    {
        &self.0
    }
}

impl Clone for UserPointer {
    fn clone(&self) -> (r: UserPointer)
        ensures
            *r.0 == *self.0,
    {
        UserPointer(Arc::clone(&self.0))
    }
}

} // verus!
