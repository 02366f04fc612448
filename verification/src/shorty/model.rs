use vstd::prelude::*;
use crate::timestamp::Timestamp;

verus! {

/// One short URL in the list, with who created it and when.
#[derive(Debug)]
pub struct ListUrlRedirectModel {
    pub id: i64,
    pub url_path: String,
    pub url_redirect: String,
    /// When it was created.
    pub created_at: Timestamp,
    pub created_by_user_id: i64,
    pub username: String,
}

/// A short URL's path and target.
#[derive(Debug, Default)]
pub struct GetUrlRedirectModel {
    pub url_path: String,
    pub url_redirect: String,
}

/// The owner of a short URL.
#[derive(Debug, Default, Clone, Copy)]
pub struct GetUserIdByUrlIdModel {
    pub created_by_user_id: i64,
}

} // verus!
