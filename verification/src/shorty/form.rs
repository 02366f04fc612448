use vstd::prelude::*;
use crate::locale::{text_or, Locale};
use crate::shorty::rule::{url_path_check, UrlPathRulesExt, UrlRedirectRulesExt};
use crate::text::{trim, trim_spec};
use crate::validation::{
    field_accepted, field_messages, outcome_matches, url_accepted, url_accepts, url_messages,
    url_rule_check, Field, FieldError, Url, UrlError,
};

verus! {

/// The submitted form that adds or edits a short URL.
#[derive(Debug, Default)]
pub struct AddEditUrlForm {
    pub url_path: String,
    pub url_redirect: String,
    pub csrf_token: String,
}

/// A form whose fields all passed their rules.
#[derive(Debug)]
pub struct AddEditUrlValidated {
    pub url_path: Field,
    pub url_redirect: Url,
}

/// A form with at least one field that failed its rules, with each field's outcome.
#[derive(Debug)]
pub struct AddEditUrlError {
    pub url_path: Result<Field, FieldError>,
    pub url_redirect: Result<Url, UrlError>,
}

/// The outcome of checking an [`AddEditUrlForm`].
#[derive(Debug)]
pub struct AddEditUrlResult(pub Result<AddEditUrlValidated, AddEditUrlError>);

/// The translated messages of each field of the form.
#[derive(Debug, Default)]
pub struct AddEditUrlMessage {
    pub url_path: Vec<String>,
    pub url_redirect: Vec<String>,
}

/// The outcome of the path rules on the submitted path (trimmed).
pub open spec fn form_path_check(form: AddEditUrlForm) -> Result<Seq<char>, Seq<crate::validation::MessageView>> {
    url_path_check(Some(trim_spec(form.url_path@)))
}

/// The outcome of the redirect rule on the submitted address (trimmed).
pub open spec fn form_redirect_check(form: AddEditUrlForm) -> Result<Seq<char>, Seq<crate::validation::MessageView>> {
    url_rule_check(Some(trim_spec(form.url_redirect@)), true, url_accepts(trim_spec(form.url_redirect@)))
}

impl AddEditUrlForm {
    /// Checks each field (after trimming white space); the form is accepted
    /// only when every field is.
    pub fn as_validated(&self) -> (r: AddEditUrlResult)
        ensures
            r.0 is Ok <==> (form_path_check(*self) is Ok && form_redirect_check(*self) is Ok),
            r.0 matches Ok(v) ==> form_path_check(*self) == Ok::<Seq<char>, Seq<crate::validation::MessageView>>(v.url_path.value@)
                && form_redirect_check(*self) == Ok::<Seq<char>, Seq<crate::validation::MessageView>>(v.url_redirect.value@),
            r.0 matches Err(e) ==> outcome_matches(form_path_check(*self), field_accepted(e.url_path), field_messages(e.url_path))
                && outcome_matches(form_redirect_check(*self), url_accepted(e.url_redirect), url_messages(e.url_redirect)),
    {
        let url_path = Field::parse_url_path(Some(trim(self.url_path.as_str())));
        let url_redirect = Url::parse_url_redirect(Some(trim(self.url_redirect.as_str())));
        let flagged = url_path.is_err() || url_redirect.is_err();
        if flagged {
            return AddEditUrlResult(Err(AddEditUrlError { url_path, url_redirect }));
        }
        match (url_path, url_redirect) {
            (Ok(url_path), Ok(url_redirect)) => AddEditUrlResult(Ok(AddEditUrlValidated { url_path, url_redirect })),
            (url_path, url_redirect) => AddEditUrlResult(Err(AddEditUrlError { url_path, url_redirect })),
        }
    }
}

impl AddEditUrlError {
    /// The messages of each field, translated.
    pub fn as_message(&self, locale: &Locale) -> (r: AddEditUrlMessage)
        ensures
            r.url_path@.map_values(|s: String| s@) == crate::locale::translated(locale.entries@, field_messages(self.url_path)),
            r.url_redirect@.map_values(|s: String| s@) == crate::locale::translated(locale.entries@, url_messages(self.url_redirect)),
    {
        let url_path = match &self.url_path {
            Ok(_) => Vec::new(),
            Err(e) => locale.translate_messages(&e.0),
        };
        let url_redirect = match &self.url_redirect {
            Ok(_) => Vec::new(),
            Err(e) => locale.translate_messages(&e.0),
        };
        proof {
            assert(url_path@.map_values(|s: String| s@) =~= crate::locale::translated(locale.entries@, field_messages(self.url_path)));
            assert(url_redirect@.map_values(|s: String| s@) =~= crate::locale::translated(locale.entries@, url_messages(self.url_redirect)));
        }
        AddEditUrlMessage { url_path, url_redirect }
    }
}

} // verus!
