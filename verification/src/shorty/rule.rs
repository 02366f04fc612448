use vstd::prelude::*;
use crate::text::owned;
use crate::validation::{
    field_accepted, field_messages, grapheme_count, messages_view, opt_text, opt_view, outcome_matches,
    string_rule_check, url_accepted, url_accepts, url_messages, url_rule_check, Field, FieldError,
    MessageView, StringRules, Url, UrlError, ValidationMessage,
};

verus! {

/// A character that may stand in a kebab-case path.
pub open spec fn is_kebab_char(c: char) -> bool {
    ('a' <= c && c <= 'z') || ('0' <= c && c <= '9') || c == '-'
}

/// Kebab case: lowercase ASCII letters and digits in words joined by single
/// hyphens, with no hyphen at either end.
pub open spec fn is_kebab_case(s: Seq<char>) -> bool {
    &&& s.len() > 0
    &&& forall|i: int| 0 <= i < s.len() ==> is_kebab_char(#[trigger] s[i])
    &&& s[0] != '-'
    &&& s.last() != '-'
    &&& forall|i: int| 0 <= i < s.len() - 1 ==> !(#[trigger] s[i] == '-' && s[i + 1] == '-')
}

/// The regular expression that recognises kebab case.
pub open spec fn kebab_case_pattern() -> Seq<char> {
    "^([a-z0-9]+(-[a-z0-9]+)*)+$"@
}

/// Whether the regex crate's engine finds a match of `pattern` in `haystack`.
pub uninterp spec fn regex_finds(pattern: Seq<char>, haystack: Seq<char>) -> bool;

/// regex's `Regex::new` followed by `Regex::is_match`: `None` when the pattern
/// does not compile, otherwise whether it matches somewhere in the haystack.
/// Claimed, from the regex crate's syntax documentation (`^` and `$` anchor at
/// the ends of the haystack, `[a-z0-9]` is the ASCII ranges), that the kebab-case
/// pattern compiles and matches exactly the strings `is_kebab_case` describes.
#[verifier::external_body]
fn regex_is_match(pattern: &str, haystack: &str) -> (r: Option<bool>)
    ensures
        r matches Some(b) ==> b == regex_finds(pattern@, haystack@),
        pattern@ == kebab_case_pattern() ==> r == Some(is_kebab_case(haystack@)),
{
    match regex::Regex::new(pattern) {
        Ok(re) => Some(re.is_match(haystack)),
        Err(_) => None,
    }
}

/// The message of a path that is not in kebab case.
pub open spec fn msg_kebab_case() -> MessageView {
    MessageView { text: "Must be kebab case"@, key: "validate-must-be-kebab-case"@ }
}

/// Checks that a path is in kebab case.
pub fn must_be_kebab_case(url_path: &str) -> (r: Result<(), FieldError>)
    ensures
        r is Ok <==> is_kebab_case(url_path@),
        r matches Err(e) ==> e@ == seq![msg_kebab_case()],
{
    let pattern = "^([a-z0-9]+(-[a-z0-9]+)*)+$";
    let found = regex_is_match(pattern, url_path);
    match found {
        Some(true) => Ok(()),
        _ => {
            let v = vec![ValidationMessage {
                text: owned("Must be kebab case"),
                key: owned("validate-must-be-kebab-case"),
            }];
            assert(messages_view(v@) =~= seq![msg_kebab_case()]);
            Err(FieldError(v))
        },
    }
}

/// The rules of a short URL's path: mandatory, 1 to 100 characters.
pub open spec fn url_path_rules() -> StringRules {
    StringRules { is_mandatory: true, min_length: Some(1), max_length: Some(100) }
}

pub fn url_path_rule() -> (r: StringRules)
    ensures
        r == url_path_rules(),
{
    StringRules { is_mandatory: true, min_length: Some(1), max_length: Some(100) }
}

/// The outcome of the path rules on an input: the field rules first, then kebab case.
pub open spec fn url_path_check(input: Option<Seq<char>>) -> Result<Seq<char>, Seq<MessageView>> {
    match string_rule_check(input, url_path_rules(), grapheme_count(opt_text(input))) {
        Err(m) => Err(m),
        Ok(t) => if is_kebab_case(t) {
            Ok(t)
        } else {
            Err(seq![msg_kebab_case()])
        },
    }
}

/// The path rule of short URLs, as a parser on `Field`.
pub trait UrlPathRulesExt: Sized {
    /// Checks the path of a short URL.
    fn parse_url_path(url_path: Option<&str>) -> (r: Result<Field, FieldError>)
        ensures
            outcome_matches(url_path_check(opt_view(url_path)), field_accepted(r), field_messages(r)),
    ;
}

impl UrlPathRulesExt for Field {
    fn parse_url_path(url_path: Option<&str>) -> (r: Result<Field, FieldError>) {
        let parsed = Field::parse_custom(url_path, url_path_rule());
        match parsed {
            Ok(field) => {
                match must_be_kebab_case(field.as_str()) {
                    Ok(()) => Ok(field),
                    Err(e) => Err(e),
                }
            },
            Err(e) => Err(e),
        }
    }
}

/// The rule of the address a short URL redirects to.
pub trait UrlRedirectRulesExt: Sized {
    /// Checks the address a short URL redirects to: a mandatory, valid URL.
    fn parse_url_redirect(url_redirect: Option<&str>) -> (r: Result<Url, UrlError>)
        ensures
            outcome_matches(
                url_rule_check(opt_view(url_redirect), true, url_accepts(opt_text(opt_view(url_redirect)))),
                url_accepted(r),
                url_messages(r),
            ),
    ;
}

impl UrlRedirectRulesExt for Url {
    fn parse_url_redirect(url_redirect: Option<&str>) -> (r: Result<Url, UrlError>) {
        Url::parse_custom(url_redirect, url_redirect_rule())
    }
}

/// The URL rule of redirect addresses: mandatory.
pub fn url_redirect_rule() -> (r: bool)
    ensures
        r,
{
    true
}

/// A path accepted by the path rules is in kebab case and has 1 to 100
/// user-perceived characters.
pub proof fn lemma_accepted_path_is_kebab(input: Option<Seq<char>>)
    requires
        url_path_check(input) is Ok,
    ensures
        is_kebab_case(url_path_check(input)->Ok_0),
        url_path_check(input)->Ok_0 == opt_text(input),
        1 <= grapheme_count(opt_text(input)) <= 100,
{
}

/// Every path made of lowercase letters and digits in words joined by single
/// hyphens, with 1 to 100 user-perceived characters, is accepted as it is;
/// digits are as welcome as letters.
pub proof fn lemma_kebab_paths_accepted(t: Seq<char>)
    requires
        t.len() > 0,
        forall|i: int| 0 <= i < t.len() ==>
            ('a' <= #[trigger] t[i] && t[i] <= 'z') || ('0' <= t[i] && t[i] <= '9') || t[i] == '-',
        t[0] != '-',
        t[t.len() - 1] != '-',
        forall|i: int| 0 <= i < t.len() - 1 ==> !(#[trigger] t[i] == '-' && t[i + 1] == '-'),
        1 <= grapheme_count(t) <= 100,
    ensures
        url_path_check(Some(t)) == Ok::<Seq<char>, Seq<MessageView>>(t),
{
    assert(is_kebab_case(t));
}

/// A path with a character other than a lowercase letter, a digit or a
/// hyphen is refused.
pub proof fn lemma_foreign_chars_refused(t: Seq<char>, i: int)
    requires
        0 <= i < t.len(),
        !(('a' <= t[i] && t[i] <= 'z') || ('0' <= t[i] && t[i] <= '9') || t[i] == '-'),
    ensures
        url_path_check(Some(t)) is Err,
{
    if url_path_check(Some(t)) is Ok {
        assert(is_kebab_char(t[i]));
    }
}

} // verus!
