use vstd::prelude::*;
use crate::text::{decimal, owned, str_eq};

verus! {

/// One validation failure: the English text and the key that translates it.
#[derive(Debug, Clone)]
pub struct ValidationMessage {
    pub text: String,
    pub key: String,
}

/// The mathematical content of a [`ValidationMessage`].
pub struct MessageView {
    pub text: Seq<char>,
    pub key: Seq<char>,
}

impl View for ValidationMessage {
    type V = MessageView;

    open spec fn view(&self) -> MessageView {
        MessageView { text: self.text@, key: self.key@ }
    }
}

/// The content of a list of messages.
pub open spec fn messages_view(v: Seq<ValidationMessage>) -> Seq<MessageView> {
    v.map_values(|m: ValidationMessage| m@)
}

/// The content of an optional string slice.
pub open spec fn opt_view(s: Option<&str>) -> Option<Seq<char>> {
    match s {
        Some(x) => Some(x@),
        None => None,
    }
}

/// The text that an absent input stands for.
pub open spec fn opt_text(s: Option<Seq<char>>) -> Seq<char> {
    match s {
        Some(x) => x,
        None => Seq::empty(),
    }
}

/// The number of extended grapheme clusters (user-perceived characters) in `s`,
/// as cjtoolkit-structured-validator counts them with unicode-segmentation when
/// it checks a length rule.
pub uninterp spec fn grapheme_count(s: Seq<char>) -> nat;

/// Whether the `url` crate parses `s` as an absolute URL (WHATWG URL standard),
/// which is the test cjtoolkit-structured-validator's `Url` applies after its
/// mandatory rule.
pub uninterp spec fn url_accepts(s: Seq<char>) -> bool;

pub open spec fn msg_cannot_be_empty() -> MessageView {
    MessageView { text: "Cannot be empty"@, key: "validate-cannot-be-empty"@ }
}

pub open spec fn msg_min_length(n: nat) -> MessageView {
    MessageView {
        text: "Must be at least "@ + decimal(n) + " characters"@,
        key: "validate-min-length"@,
    }
}

pub open spec fn msg_max_length(n: nat) -> MessageView {
    MessageView {
        text: "Must be at most "@ + decimal(n) + " characters"@,
        key: "validate-max-length"@,
    }
}

pub open spec fn msg_special_chars() -> MessageView {
    MessageView {
        text: "Must contain at least one special character"@,
        key: "validate-must-have-special-chars"@,
    }
}

pub open spec fn msg_upper_and_lower() -> MessageView {
    MessageView {
        text: "Must contain at least one uppercase and lowercase letter"@,
        key: "validate-must-have-uppercase-and-lowercase"@,
    }
}

pub open spec fn msg_upper() -> MessageView {
    MessageView {
        text: "Must contain at least one uppercase letter"@,
        key: "validate-must-have-uppercase"@,
    }
}

pub open spec fn msg_lower() -> MessageView {
    MessageView {
        text: "Must contain at least one lowercase letter"@,
        key: "validate-must-have-lowercase"@,
    }
}

pub open spec fn msg_digit() -> MessageView {
    MessageView { text: "Must contain at least one digit"@, key: "validate-must-have-digit"@ }
}

pub open spec fn msg_invalid_url() -> MessageView {
    MessageView { text: "Invalid URL"@, key: "validate-invalid-url"@ }
}

pub open spec fn msg_password_mismatch() -> MessageView {
    MessageView {
        text: "Password does not match"@,
        key: "validate-password-does-not-match"@,
    }
}

/// The rules of a plain text field (a name, a path, a username).
#[derive(Debug, Clone, Copy)]
pub struct StringRules {
    pub is_mandatory: bool,
    pub min_length: Option<usize>,
    pub max_length: Option<usize>,
}

/// The rules of a password field.
#[derive(Debug, Clone, Copy)]
pub struct PasswordRules {
    pub is_mandatory: bool,
    pub must_have_uppercase: bool,
    pub must_have_lowercase: bool,
    pub must_have_special_chars: bool,
    pub must_have_digit: bool,
    pub min_length: Option<usize>,
    pub max_length: Option<usize>,
}

/// The messages of the length rule, for a text of `g` user-perceived characters.
pub open spec fn length_messages(g: nat, min: Option<usize>, max: Option<usize>) -> Seq<MessageView> {
    (match min {
        Some(m) => if g < m { seq![msg_min_length(m as nat)] } else { Seq::empty() },
        None => Seq::empty(),
    }) + (match max {
        Some(m) => if g > m { seq![msg_max_length(m as nat)] } else { Seq::empty() },
        None => Seq::empty(),
    })
}

/// The result of the rules of a plain text field on an (optional) input: the
/// accepted text, or the messages of the broken rules in the order they are
/// checked, for a text of `graphemes` user-perceived characters. An absent optional input is accepted as the empty text; the length
/// rule is only checked once the mandatory rule holds.
pub open spec fn string_rule_check(input: Option<Seq<char>>, rules: StringRules, graphemes: nat) -> Result<Seq<char>, Seq<MessageView>> {
    let t = opt_text(input);
    if !rules.is_mandatory && input is None {
        Ok(t)
    } else if rules.is_mandatory && t.len() == 0 {
        Err(seq![msg_cannot_be_empty()])
    } else {
        let m = length_messages(graphemes, rules.min_length, rules.max_length);
        if m.len() == 0 {
            Ok(t)
        } else {
            Err(m)
        }
    }
}

/// The characters that count as special in a password.
pub open spec fn is_special_char(c: char) -> bool {
    c == '!' || c == '@' || c == '#' || c == '$' || c == '%' || c == '^' || c == '&' || c == '*'
        || c == '(' || c == ')' || c == '-' || c == '_' || c == '=' || c == '+' || c == '['
        || c == ']' || c == '{' || c == '}' || c == '\\' || c == '|' || c == ';' || c == ':'
        || c == '\'' || c == '"' || c == ',' || c == '.' || c == '<' || c == '>' || c == '/'
        || c == '?'
}

pub open spec fn has_special(t: Seq<char>) -> bool {
    exists|i: int| 0 <= i < t.len() && is_special_char(#[trigger] t[i])
}

pub open spec fn has_upper(t: Seq<char>) -> bool {
    exists|i: int| 0 <= i < t.len() && 'A' <= #[trigger] t[i] <= 'Z'
}

pub open spec fn has_lower(t: Seq<char>) -> bool {
    exists|i: int| 0 <= i < t.len() && 'a' <= #[trigger] t[i] <= 'z'
}

pub open spec fn has_digit(t: Seq<char>) -> bool {
    exists|i: int| 0 <= i < t.len() && '0' <= #[trigger] t[i] <= '9'
}

/// The messages of the character-class rules of a password.
pub open spec fn special_messages(t: Seq<char>, rules: PasswordRules) -> Seq<MessageView> {
    (if rules.must_have_special_chars && !has_special(t) {
        seq![msg_special_chars()]
    } else {
        Seq::empty()
    }) + (if rules.must_have_uppercase && rules.must_have_lowercase {
        if !(has_upper(t) && has_lower(t)) {
            seq![msg_upper_and_lower()]
        } else {
            Seq::empty()
        }
    } else {
        (if rules.must_have_uppercase && !has_upper(t) {
            seq![msg_upper()]
        } else {
            Seq::empty()
        }) + (if rules.must_have_lowercase && !has_lower(t) {
            seq![msg_lower()]
        } else {
            Seq::empty()
        })
    }) + (if rules.must_have_digit && !has_digit(t) {
        seq![msg_digit()]
    } else {
        Seq::empty()
    })
}

/// The result of the rules of a password field on an (optional) input.
pub open spec fn password_rule_check(input: Option<Seq<char>>, rules: PasswordRules, graphemes: nat) -> Result<Seq<char>, Seq<MessageView>> {
    let t = opt_text(input);
    if !rules.is_mandatory && input is None {
        Ok(t)
    } else if rules.is_mandatory && t.len() == 0 {
        Err(seq![msg_cannot_be_empty()])
    } else {
        let m = length_messages(graphemes, rules.min_length, rules.max_length)
            + special_messages(t, rules);
        if m.len() == 0 {
            Ok(t)
        } else {
            Err(m)
        }
    }
}

/// The result of the URL rule (mandatory or not) on an (optional) input.
pub open spec fn url_rule_check(input: Option<Seq<char>>, is_mandatory: bool, parses: bool) -> Result<Seq<char>, Seq<MessageView>> {
    let t = opt_text(input);
    if is_mandatory && t.len() == 0 {
        Err(seq![msg_cannot_be_empty()])
    } else if parses {
        Ok(t)
    } else {
        Err(seq![msg_invalid_url()])
    }
}

/// How a rule's outcome on an input is told by an accepted value or its messages.
pub open spec fn outcome_matches(
    check: Result<Seq<char>, Seq<MessageView>>,
    accepted: Option<Seq<char>>,
    messages: Seq<MessageView>,
) -> bool {
    match accepted {
        Some(v) => check == Ok::<Seq<char>, Seq<MessageView>>(v),
        None => check == Err::<Seq<char>, Seq<MessageView>>(messages),
    }
}

/// A text field that passed its rules.
#[derive(Debug, Clone)]
pub struct Field {
    pub value: String,
    pub is_none: bool,
}

/// The messages of a text field that failed its rules.
#[derive(Debug, Clone)]
pub struct FieldError(pub Vec<ValidationMessage>);

/// A URL that passed its rules.
#[derive(Debug, Clone)]
pub struct Url {
    pub value: String,
    pub is_none: bool,
}

/// The messages of a URL that failed its rules.
#[derive(Debug, Clone)]
pub struct UrlError(pub Vec<ValidationMessage>);

/// A username that passed its rules.
#[derive(Debug, Clone)]
pub struct Username {
    pub value: String,
    pub is_none: bool,
}

/// The messages of a username that failed its rules.
#[derive(Debug, Clone)]
pub struct UsernameError(pub Vec<ValidationMessage>);

/// A password that passed its rules.
#[derive(Debug, Clone)]
pub struct Password {
    pub value: String,
    pub is_none: bool,
}

/// The messages of a password that failed its rules.
#[derive(Debug, Clone)]
pub struct PasswordError(pub Vec<ValidationMessage>);

impl View for FieldError {
    type V = Seq<MessageView>;

    open spec fn view(&self) -> Seq<MessageView> {
        messages_view(self.0@)
    }
}

impl View for UrlError {
    type V = Seq<MessageView>;

    open spec fn view(&self) -> Seq<MessageView> {
        messages_view(self.0@)
    }
}

impl View for UsernameError {
    type V = Seq<MessageView>;

    open spec fn view(&self) -> Seq<MessageView> {
        messages_view(self.0@)
    }
}

impl View for PasswordError {
    type V = Seq<MessageView>;

    open spec fn view(&self) -> Seq<MessageView> {
        messages_view(self.0@)
    }
}

/// The accepted text of a field result, if any.
pub open spec fn field_accepted(r: Result<Field, FieldError>) -> Option<Seq<char>> {
    match r {
        Ok(f) => Some(f.value@),
        Err(_) => None,
    }
}

pub open spec fn field_messages(r: Result<Field, FieldError>) -> Seq<MessageView> {
    match r {
        Ok(_) => Seq::empty(),
        Err(e) => e@,
    }
}

pub open spec fn url_accepted(r: Result<Url, UrlError>) -> Option<Seq<char>> {
    match r {
        Ok(f) => Some(f.value@),
        Err(_) => None,
    }
}

pub open spec fn url_messages(r: Result<Url, UrlError>) -> Seq<MessageView> {
    match r {
        Ok(_) => Seq::empty(),
        Err(e) => e@,
    }
}

pub open spec fn username_accepted(r: Result<Username, UsernameError>) -> Option<Seq<char>> {
    match r {
        Ok(f) => Some(f.value@),
        Err(_) => None,
    }
}

pub open spec fn username_messages(r: Result<Username, UsernameError>) -> Seq<MessageView> {
    match r {
        Ok(_) => Seq::empty(),
        Err(e) => e@,
    }
}

pub open spec fn password_accepted(r: Result<Password, PasswordError>) -> Option<Seq<char>> {
    match r {
        Ok(f) => Some(f.value@),
        Err(_) => None,
    }
}

pub open spec fn password_messages(r: Result<Password, PasswordError>) -> Seq<MessageView> {
    match r {
        Ok(_) => Seq::empty(),
        Err(e) => e@,
    }
}

/// cjtoolkit-structured-validator's `Name::parse_custom` (the `Field` alias):
/// claimed to accept the input text, or to report the broken rules, exactly as
/// `string_rule_check` describes, with lengths counted in grapheme clusters.
#[verifier::external_body]
fn name_parse_custom(s: Option<&str>, rules: StringRules) -> (r: Result<Field, FieldError>)
    ensures
        outcome_matches(
            string_rule_check(opt_view(s), rules, grapheme_count(opt_text(opt_view(s)))),
            field_accepted(r),
            field_messages(r),
        ),
        r matches Ok(f) ==> f.is_none == (s is None),
{
    let rules = cjtoolkit_structured_validator::types::name::NameRules { is_mandatory: rules.is_mandatory, min_length: rules.min_length, max_length: rules.max_length };
    match cjtoolkit_structured_validator::types::name::Name::parse_custom(s, rules) {
        Ok(n) => Ok(Field { value: n.as_str().to_string(), is_none: n.into_option().is_none() }),
        Err(e) => Err(FieldError(e.0.0.iter().map(|m| ValidationMessage { text: m.0.clone(), key: m.1.get_locale_data().name.clone() }).collect())),
    }
}

/// cjtoolkit-structured-validator's `Username::parse_custom`: claimed to accept
/// the input text, or to report the broken rules, exactly as `string_rule_check`
/// describes, with lengths counted in grapheme clusters.
#[verifier::external_body]
fn username_parse_custom(s: Option<&str>, rules: StringRules) -> (r: Result<Username, UsernameError>)
    ensures
        outcome_matches(
            string_rule_check(opt_view(s), rules, grapheme_count(opt_text(opt_view(s)))),
            username_accepted(r),
            username_messages(r),
        ),
        r matches Ok(f) ==> f.is_none == (s is None),
{
    let rules = cjtoolkit_structured_validator::types::username::UsernameRules {
        is_mandatory: rules.is_mandatory, min_length: rules.min_length, max_length: rules.max_length };
    match cjtoolkit_structured_validator::types::username::Username::parse_custom(s, rules) {
        Ok(n) => Ok(Username { value: n.as_str().to_string(), is_none: n.into_option().is_none() }),
        Err(e) => Err(UsernameError(e.0.0.iter().map(|m| ValidationMessage { text: m.0.clone(), key: m.1.get_locale_data().name.clone() }).collect())),
    }
}

/// cjtoolkit-structured-validator's `Password::parse_custom`: claimed to accept
/// the input text, or to report the broken rules, exactly as
/// `password_rule_check` describes, with lengths counted in grapheme clusters.
#[verifier::external_body]
fn password_parse_custom(s: Option<&str>, rules: PasswordRules) -> (r: Result<Password, PasswordError>)
    ensures
        outcome_matches(
            password_rule_check(opt_view(s), rules, grapheme_count(opt_text(opt_view(s)))),
            password_accepted(r),
            password_messages(r),
        ),
        r matches Ok(f) ==> f.is_none == (s is None),
{
    let rules = cjtoolkit_structured_validator::types::password::PasswordRules {
        is_mandatory: rules.is_mandatory, must_have_uppercase: rules.must_have_uppercase,
        must_have_lowercase: rules.must_have_lowercase, must_have_special_chars: rules.must_have_special_chars,
        must_have_digit: rules.must_have_digit, min_length: rules.min_length, max_length: rules.max_length };
    match cjtoolkit_structured_validator::types::password::Password::parse_custom(s, rules) {
        Ok(n) => Ok(Password { value: n.as_str().to_string(), is_none: n.into_option().is_none() }),
        Err(e) => Err(PasswordError(e.0.0.iter().map(|m| ValidationMessage { text: m.0.clone(), key: m.1.get_locale_data().name.clone() }).collect())),
    }
}

/// cjtoolkit-structured-validator's `Url::parse_custom`: claimed to report an
/// empty mandatory input, and otherwise to accept the input text exactly when
/// the `url` crate parses it, as `url_rule_check` describes.
#[verifier::external_body]
fn url_parse_custom(s: Option<&str>, is_mandatory: bool) -> (r: Result<Url, UrlError>)
    ensures
        outcome_matches(
            url_rule_check(opt_view(s), is_mandatory, url_accepts(opt_text(opt_view(s)))),
            url_accepted(r),
            url_messages(r),
        ),
        r matches Ok(f) ==> f.is_none == (s is None),
{
    let rules = cjtoolkit_structured_validator::types::url::UrlRules { is_mandatory };
    match cjtoolkit_structured_validator::types::url::Url::parse_custom(s, rules) {
        Ok(n) => Ok(Url { value: n.as_str().to_string(), is_none: n.into_option().is_none() }),
        Err(e) => Err(UrlError(e.0.0.iter().map(|m| ValidationMessage { text: m.0.clone(), key: m.1.get_locale_data().name.clone() }).collect())),
    }
}

impl Field {
    /// Checks an optional input against the rules of a text field.
    pub fn parse_custom(s: Option<&str>, rules: StringRules) -> (r: Result<Field, FieldError>)
        ensures
            outcome_matches(
                string_rule_check(opt_view(s), rules, grapheme_count(opt_text(opt_view(s)))),
                field_accepted(r),
                field_messages(r),
            ),
    {
        name_parse_custom(s, rules)
    }

    pub fn as_str(&self) -> (r: &str)
        ensures
            r@ == self.value@,
    {
        self.value.as_str()
    }
}

impl Url {
    /// Checks an optional input against the URL rule.
    pub fn parse_custom(s: Option<&str>, is_mandatory: bool) -> (r: Result<Url, UrlError>)
        ensures
            outcome_matches(
                url_rule_check(opt_view(s), is_mandatory, url_accepts(opt_text(opt_view(s)))),
                url_accepted(r),
                url_messages(r),
            ),
    {
        url_parse_custom(s, is_mandatory)
    }

    pub fn as_str(&self) -> (r: &str)
        ensures
            r@ == self.value@,
    {
        self.value.as_str()
    }
}

/// The default rules of a username.
pub open spec fn default_username_rules() -> StringRules {
    StringRules { is_mandatory: true, min_length: Some(5), max_length: Some(30) }
}

/// The default rules of a password.
pub open spec fn default_password_rules() -> PasswordRules {
    PasswordRules {
        is_mandatory: true,
        must_have_uppercase: true,
        must_have_lowercase: true,
        must_have_special_chars: true,
        must_have_digit: true,
        min_length: Some(8),
        max_length: Some(64),
    }
}

impl Username {
    /// Checks an optional input against the rules of a username.
    pub fn parse_custom(s: Option<&str>, rules: StringRules) -> (r: Result<Username, UsernameError>)
        ensures
            outcome_matches(
                string_rule_check(opt_view(s), rules, grapheme_count(opt_text(opt_view(s)))),
                username_accepted(r),
                username_messages(r),
            ),
    {
        username_parse_custom(s, rules)
    }

    /// Checks an optional input against the default username rules (mandatory,
    /// 5 to 30 characters).
    pub fn parse(s: Option<&str>) -> (r: Result<Username, UsernameError>)
        ensures
            outcome_matches(
                string_rule_check(opt_view(s), default_username_rules(), grapheme_count(opt_text(opt_view(s)))),
                username_accepted(r),
                username_messages(r),
            ),
    {
        username_parse_custom(s, StringRules { is_mandatory: true, min_length: Some(5), max_length: Some(30) })
    }

    pub fn as_str(&self) -> (r: &str)
        ensures
            r@ == self.value@,
    {
        self.value.as_str()
    }
}

impl Password {
    /// Checks an optional input against the rules of a password.
    pub fn parse_custom(s: Option<&str>, rules: PasswordRules) -> (r: Result<Password, PasswordError>)
        ensures
            outcome_matches(
                password_rule_check(opt_view(s), rules, grapheme_count(opt_text(opt_view(s)))),
                password_accepted(r),
                password_messages(r),
            ),
    {
        password_parse_custom(s, rules)
    }

    /// Checks an optional input against the default password rules (mandatory,
    /// 8 to 64 characters, with an uppercase and a lowercase letter, a digit and
    /// a special character).
    pub fn parse(s: Option<&str>) -> (r: Result<Password, PasswordError>)
        ensures
            outcome_matches(
                password_rule_check(opt_view(s), default_password_rules(), grapheme_count(opt_text(opt_view(s)))),
                password_accepted(r),
                password_messages(r),
            ),
    {
        password_parse_custom(s, PasswordRules {
            is_mandatory: true,
            must_have_uppercase: true,
            must_have_lowercase: true,
            must_have_special_chars: true,
            must_have_digit: true,
            min_length: Some(8),
            max_length: Some(64),
        })
    }

    /// Checks that the confirmation repeats this password.
    pub fn parse_confirm(&self, password_confirm: &str) -> (r: Result<Password, PasswordError>)
        ensures
            password_confirm@ == self.value@ ==> (r matches Ok(p) && p.value@ == self.value@),
            password_confirm@ != self.value@ ==> (r matches Err(e) && e@ == seq![msg_password_mismatch()]),
    {
        if str_eq(password_confirm, self.value.as_str()) {
            Ok(Password { value: self.value.clone(), is_none: self.is_none })
        } else {
            let m = ValidationMessage {
                text: owned("Password does not match"),
                key: owned("validate-password-does-not-match"),
            };
            let v = vec![m];
            assert(messages_view(v@) =~= seq![msg_password_mismatch()]);
            Err(PasswordError(v))
        }
    }

    pub fn as_str(&self) -> (r: &str)
        ensures
            r@ == self.value@,
    {
        self.value.as_str()
    }
}

} // verus!
