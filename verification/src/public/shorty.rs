use vstd::prelude::*;
use crate::failure::{wraps, Failure, STATUS_NOT_FOUND};
use crate::text::join2;
use crate::validation::{
    field_accepted, field_messages, grapheme_count, opt_text, opt_view, outcome_matches,
    string_rule_check, Field, FieldError, StringRules,
};

verus! {

/// What can go wrong when the public site reads the short URL table.
#[derive(Debug, Clone, Copy, PartialEq, Eq, Structural)]
pub enum ShortyRepositoryError {
    QueryError,
    RowValueError,
    LockError,
}

/// Where a short URL sends its visitors.
#[derive(Debug)]
pub struct UrlRedirect {
    pub url_redirect: String,
}

/// The database failed, or no short URL has the path.
#[derive(Debug, Clone, Copy, PartialEq, Eq, Structural)]
pub enum FetchUrlServiceError {
    DbError,
    NotFound,
}

/// Resolves short URLs for visitors.
#[derive(Debug)]
pub struct FetchUrlService {}

impl FetchUrlService {
    pub fn new() -> (r: FetchUrlService) {
        FetchUrlService {}
    }

    /// Where `path` sends its visitor, given the lookup of that path: no short
    /// URL with that path is a 404 that notes the path.
    pub fn fetch_url(
        &self,
        path: &str,
        found: Result<Option<UrlRedirect>, Failure<ShortyRepositoryError>>,
    ) -> (r: Result<UrlRedirect, Failure<FetchUrlServiceError>>)
        ensures
            match found {
                Ok(Some(u)) => r == Ok::<UrlRedirect, Failure<FetchUrlServiceError>>(u),
                Ok(None) => r matches Err(g) && g.error == FetchUrlServiceError::NotFound
                    && g.status == Some(STATUS_NOT_FOUND)
                    && (g.note matches Some(n) && n@ == "Path: "@ + path@),
                Err(f) => r matches Err(g) && wraps(f, g, FetchUrlServiceError::DbError),
            },
    {
        match found {
            Ok(Some(u)) => Ok(u),
            Ok(None) => Err(Failure {
                error: FetchUrlServiceError::NotFound,
                status: Some(STATUS_NOT_FOUND),
                note: Some(join2("Path: ", path)),
            }),
            Err(f) => Err(Failure { error: FetchUrlServiceError::DbError, status: f.status, note: f.note }),
        }
    }
}

/// The rules of a requested path: mandatory, at most 100 characters.
pub open spec fn shorty_path_rules() -> StringRules {
    StringRules { is_mandatory: true, min_length: None, max_length: Some(100) }
}

pub fn shorty_path_rule() -> (r: StringRules)
    ensures
        r == shorty_path_rules(),
{
    StringRules { is_mandatory: true, min_length: None, max_length: Some(100) }
}

/// The rule of requested paths, as a parser on `Field`.
pub trait ShortyPathRuleExt: Sized {
    fn parse_shorty_path(shorty_path: Option<&str>) -> (r: Result<Field, FieldError>)
        ensures
            outcome_matches(
                string_rule_check(opt_view(shorty_path), shorty_path_rules(), grapheme_count(opt_text(opt_view(shorty_path)))),
                field_accepted(r),
                field_messages(r),
            ),
    ;
}

impl ShortyPathRuleExt for Field {
    fn parse_shorty_path(shorty_path: Option<&str>) -> (r: Result<Field, FieldError>) {
        Field::parse_custom(shorty_path, shorty_path_rule())
    }
}

} // verus!
