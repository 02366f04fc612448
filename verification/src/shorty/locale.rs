use vstd::prelude::*;
use crate::locale::{text_or, Locale};
use crate::text::{i64_to_string, join3, signed_decimal};

verus! {

/// The texts of the add/edit short URL form.
#[derive(Debug)]
pub struct ShortyFormLocale {
    pub title_edit: String,
    pub title_add: String,
    pub url_path: String,
    pub url_path_placeholder: String,
    pub url_redirect: String,
    pub url_redirect_placeholder: String,
    pub submit_button: String,
}

impl ShortyFormLocale {
    pub fn new(l: &Locale) -> (r: ShortyFormLocale)
        ensures
            r.title_edit@ == text_or(l.entries@, "shorty-form-title-edit"@, "Edit Url"@),
            r.title_add@ == text_or(l.entries@, "shorty-form-title-add"@, "Add Url"@),
            r.url_path@ == text_or(l.entries@, "shorty-form-url-path"@, "Path:"@),
            r.url_path_placeholder@ == text_or(l.entries@, "shorty-form-url-path-placeholder"@, "Path"@),
            r.url_redirect@ == text_or(l.entries@, "shorty-form-url-redirect"@, "Redirect To:"@),
            r.url_redirect_placeholder@ == text_or(l.entries@, "shorty-form-url-redirect-placeholder"@, "Redirect To"@),
            r.submit_button@ == text_or(l.entries@, "shorty-form-submit-button"@, "Save"@),
    {
        ShortyFormLocale {
            title_edit: l.text_with_default("shorty-form-title-edit", "Edit Url"),
            title_add: l.text_with_default("shorty-form-title-add", "Add Url"),
            url_path: l.text_with_default("shorty-form-url-path", "Path:"),
            url_path_placeholder: l.text_with_default("shorty-form-url-path-placeholder", "Path"),
            url_redirect: l.text_with_default("shorty-form-url-redirect", "Redirect To:"),
            url_redirect_placeholder: l.text_with_default("shorty-form-url-redirect-placeholder", "Redirect To"),
            submit_button: l.text_with_default("shorty-form-submit-button", "Save"),
        }
    }
}

/// The texts of the list of short URLs.
#[derive(Debug)]
pub struct ShortyRouteLocale {
    pub title: String,
    pub head_id: String,
    pub head_path: String,
    pub head_redirect_url: String,
    pub head_created_at: String,
    pub head_created_by: String,
    pub head_action: String,
    pub action_edit: String,
    pub action_delete: String,
    pub action_add: String,
}

impl ShortyRouteLocale {
    pub fn new(l: &Locale) -> (r: ShortyRouteLocale)
        ensures
            r.title@ == text_or(l.entries@, "shorty-route-title"@, "Shorty"@),
            r.head_id@ == text_or(l.entries@, "shorty-route-head-id"@, "ID"@),
            r.head_path@ == text_or(l.entries@, "shorty-route-head-path"@, "Path"@),
            r.head_redirect_url@ == text_or(l.entries@, "shorty-route-head-redirect-url"@, "Redirect URL"@),
            r.head_created_at@ == text_or(l.entries@, "shorty-route-head-created-at"@, "Created At"@),
            r.head_created_by@ == text_or(l.entries@, "shorty-route-head-created-by"@, "Created By"@),
            r.head_action@ == text_or(l.entries@, "shorty-route-head-action"@, "Action"@),
            r.action_edit@ == text_or(l.entries@, "shorty-route-action-edit"@, "Edit Url"@),
            r.action_delete@ == text_or(l.entries@, "shorty-route-action-delete"@, "Delete Url"@),
            r.action_add@ == text_or(l.entries@, "shorty-route-action-add"@, "Add Url"@),
    {
        ShortyRouteLocale {
            title: l.text_with_default("shorty-route-title", "Shorty"),
            head_id: l.text_with_default("shorty-route-head-id", "ID"),
            head_path: l.text_with_default("shorty-route-head-path", "Path"),
            head_redirect_url: l.text_with_default("shorty-route-head-redirect-url", "Redirect URL"),
            head_created_at: l.text_with_default("shorty-route-head-created-at", "Created At"),
            head_created_by: l.text_with_default("shorty-route-head-created-by", "Created By"),
            head_action: l.text_with_default("shorty-route-head-action", "Action"),
            action_edit: l.text_with_default("shorty-route-action-edit", "Edit Url"),
            action_delete: l.text_with_default("shorty-route-action-delete", "Delete Url"),
            action_add: l.text_with_default("shorty-route-action-add", "Add Url"),
        }
    }
}

/// The question asked before short URL `id` is deleted: the translation of
/// `shorty-route-confirm-message` for that id when the caller found one, else
/// the English text.
pub fn short_route_confirm_message(translated: Option<String>, id: i64) -> (r: String)
    ensures
        match translated {
            Some(t) => r@ == t@,
            None => r@ == "Are you sure you want to delete '"@ + signed_decimal(id as int) + "'?"@,
        },
{
    match translated {
        Some(t) => t,
        None => {
            let n = i64_to_string(id);
            join3("Are you sure you want to delete '", n.as_str(), "'?")
        },
    }
}

} // verus!
