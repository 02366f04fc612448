use vstd::prelude::*;
use crate::failure::{wraps, Failure, STATUS_NOT_FOUND};
use crate::shorty::form::AddEditUrlValidated;
use crate::shorty::model::{GetUrlRedirectModel, GetUserIdByUrlIdModel, ListUrlRedirectModel};
use crate::shorty::repository::{AddUrlRedirect, EditUrlRedirect, ShortyRepositoryError};

verus! {

/// The database failed while adding a short URL.
#[derive(Debug, Clone, Copy, PartialEq, Eq, Structural)]
pub enum AddUrlServiceError {
    DbError,
}

/// The database failed while deleting a short URL, or the URL does not exist.
#[derive(Debug, Clone, Copy, PartialEq, Eq, Structural)]
pub enum DeleteUrlServiceError {
    DbError,
}

/// The database failed while editing a short URL, or the URL does not exist.
#[derive(Debug, Clone, Copy, PartialEq, Eq, Structural)]
pub enum EditUrlServiceError {
    DbError,
}

/// Adds short URLs.
pub struct AddUrlService {}

impl AddUrlService {
    pub fn new() -> (r: AddUrlService) {
        AddUrlService {}
    }

    /// The row to store for a validated form, owned by `user_id`.
    pub fn add_url_record(&self, form: &AddEditUrlValidated, user_id: i64) -> (r: AddUrlRedirect)
        ensures
            r.url_path@ == form.url_path.value@,
            r.url_redirect@ == form.url_redirect.value@,
            r.user_id == user_id,
    {
        AddUrlRedirect {
            url_path: form.url_path.value.clone(),
            url_redirect: form.url_redirect.value.clone(),
            user_id,
        }
    }

    /// The outcome of adding, given the outcome of storing the row.
    pub fn add_url_submit(&self, stored: Result<(), Failure<ShortyRepositoryError>>) -> (r: Result<(), Failure<AddUrlServiceError>>)
        ensures
            stored is Ok <==> r is Ok,
            stored matches Err(f) ==> (r matches Err(g) && wraps(f, g, AddUrlServiceError::DbError)),
    {
        match stored {
            Ok(()) => Ok(()),
            Err(f) => Err(Failure { error: AddUrlServiceError::DbError, status: f.status, note: f.note }),
        }
    }
}

/// The owner of a short URL, or a not-found failure when there is no such URL.
pub open spec fn owner_outcome<E>(
    found: Result<Option<GetUserIdByUrlIdModel>, Failure<ShortyRepositoryError>>,
    r: Result<GetUserIdByUrlIdModel, Failure<E>>,
    db_error: E,
) -> bool {
    match found {
        Ok(Some(m)) => r == Ok::<GetUserIdByUrlIdModel, Failure<E>>(m),
        Ok(None) => r == Err::<GetUserIdByUrlIdModel, Failure<E>>(Failure { error: db_error, status: Some(STATUS_NOT_FOUND), note: None }),
        Err(f) => r matches Err(g) && wraps(f, g, db_error),
    }
}

/// Deletes short URLs.
pub struct DeleteUrlService {}

impl DeleteUrlService {
    pub fn new() -> (r: DeleteUrlService) {
        DeleteUrlService {}
    }

    /// The outcome of deleting, given the outcome of deleting the row.
    pub fn delete_url(&self, deleted: Result<(), Failure<ShortyRepositoryError>>) -> (r: Result<(), Failure<DeleteUrlServiceError>>)
        ensures
            deleted is Ok <==> r is Ok,
            deleted matches Err(f) ==> (r matches Err(g) && wraps(f, g, DeleteUrlServiceError::DbError)),
    {
        match deleted {
            Ok(()) => Ok(()),
            Err(f) => Err(Failure { error: DeleteUrlServiceError::DbError, status: f.status, note: f.note }),
        }
    }

    /// The owner of a short URL, given what the lookup by id found.
    pub fn fetch_user_id_from_url_id(
        &self,
        found: Result<Option<GetUserIdByUrlIdModel>, Failure<ShortyRepositoryError>>,
    ) -> (r: Result<GetUserIdByUrlIdModel, Failure<DeleteUrlServiceError>>)
        ensures
            owner_outcome(found, r, DeleteUrlServiceError::DbError),
    {
        match found {
            Ok(Some(m)) => Ok(m),
            Ok(None) => Err(Failure::with_status(DeleteUrlServiceError::DbError, STATUS_NOT_FOUND)),
            Err(f) => Err(Failure { error: DeleteUrlServiceError::DbError, status: f.status, note: f.note }),
        }
    }
}

/// Edits short URLs.
pub struct EditUrlService {}

impl EditUrlService {
    pub fn new() -> (r: EditUrlService) {
        EditUrlService {}
    }

    /// A short URL's path and target, given what the lookup by id found.
    pub fn get_url_redirect(
        &self,
        found: Result<Option<GetUrlRedirectModel>, Failure<ShortyRepositoryError>>,
    ) -> (r: Result<GetUrlRedirectModel, Failure<EditUrlServiceError>>)
        ensures
            match found {
                Ok(Some(m)) => r == Ok::<GetUrlRedirectModel, Failure<EditUrlServiceError>>(m),
                Ok(None) => r == Err::<GetUrlRedirectModel, Failure<EditUrlServiceError>>(
                    Failure { error: EditUrlServiceError::DbError, status: Some(STATUS_NOT_FOUND), note: None }),
                Err(f) => r matches Err(g) && wraps(f, g, EditUrlServiceError::DbError),
            },
    {
        match found {
            Ok(Some(m)) => Ok(m),
            Ok(None) => Err(Failure::with_status(EditUrlServiceError::DbError, STATUS_NOT_FOUND)),
            Err(f) => Err(Failure { error: EditUrlServiceError::DbError, status: f.status, note: f.note }),
        }
    }

    /// The new values to store for short URL `id` from a validated form.
    pub fn edit_url_record(&self, form: &AddEditUrlValidated, id: i64) -> (r: EditUrlRedirect)
        ensures
            r.id == id,
            r.url_path@ == form.url_path.value@,
            r.url_redirect@ == form.url_redirect.value@,
    {
        EditUrlRedirect {
            id,
            url_path: form.url_path.value.clone(),
            url_redirect: form.url_redirect.value.clone(),
        }
    }

    /// The outcome of editing, given the outcome of updating the row.
    pub fn edit_url_submit(&self, updated: Result<(), Failure<ShortyRepositoryError>>) -> (r: Result<(), Failure<EditUrlServiceError>>)
        ensures
            updated is Ok <==> r is Ok,
            updated matches Err(f) ==> (r matches Err(g) && wraps(f, g, EditUrlServiceError::DbError)),
    {
        match updated {
            Ok(()) => Ok(()),
            Err(f) => Err(Failure { error: EditUrlServiceError::DbError, status: f.status, note: f.note }),
        }
    }

    /// The owner of a short URL, given what the lookup by id found.
    pub fn fetch_user_id_from_url_id(
        &self,
        found: Result<Option<GetUserIdByUrlIdModel>, Failure<ShortyRepositoryError>>,
    ) -> (r: Result<GetUserIdByUrlIdModel, Failure<EditUrlServiceError>>)
        ensures
            owner_outcome(found, r, EditUrlServiceError::DbError),
    {
        match found {
            Ok(Some(m)) => Ok(m),
            Ok(None) => Err(Failure::with_status(EditUrlServiceError::DbError, STATUS_NOT_FOUND)),
            Err(f) => Err(Failure { error: EditUrlServiceError::DbError, status: f.status, note: f.note }),
        }
    }
}

/// Lists short URLs.
pub struct ListUrlService {}

impl ListUrlService {
    pub fn new() -> (r: ListUrlService) {
        ListUrlService {}
    }

    /// The short URLs to show: those listed, or none when the listing failed.
    pub fn list_urls(&self, listed: Result<Vec<ListUrlRedirectModel>, Failure<ShortyRepositoryError>>) -> (r: Vec<ListUrlRedirectModel>)
        ensures
            match listed {
                Ok(v) => r == v,
                Err(_) => r@.len() == 0,
            },
    {
        match listed {
            Ok(v) => v,
            Err(_) => Vec::new(),
        }
    }
}

} // verus!
