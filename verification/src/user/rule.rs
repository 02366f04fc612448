use vstd::prelude::*;
use crate::text::{owned, str_eq};
use crate::validation::{
    default_password_rules, default_username_rules, grapheme_count, messages_view, msg_password_mismatch,
    opt_text, opt_view, outcome_matches, password_accepted, password_messages, password_rule_check,
    string_rule_check, username_accepted, username_messages, MessageView, Password, PasswordError,
    PasswordRules, StringRules, Username, UsernameError, ValidationMessage,
};

verus! {

/// The username rule of the login form: mandatory, any length.
pub open spec fn login_username_rules() -> StringRules {
    StringRules { is_mandatory: true, min_length: None, max_length: None }
}

/// The password rule of the login form: mandatory, at most 64 characters.
pub open spec fn login_password_rules() -> PasswordRules {
    PasswordRules {
        is_mandatory: true,
        must_have_uppercase: false,
        must_have_lowercase: false,
        must_have_special_chars: false,
        must_have_digit: false,
        min_length: None,
        max_length: Some(64),
    }
}

pub fn username_rules_for_login() -> (r: StringRules)
    ensures
        r == login_username_rules(),
{
    StringRules { is_mandatory: true, min_length: None, max_length: None }
}

pub fn password_rules_for_login() -> (r: PasswordRules)
    ensures
        r == login_password_rules(),
{
    PasswordRules {
        is_mandatory: true,
        must_have_uppercase: false,
        must_have_lowercase: false,
        must_have_special_chars: false,
        must_have_digit: false,
        min_length: None,
        max_length: Some(64),
    }
}

/// The username rule of the login form, as a parser on `Username`.
pub trait UsernameRulesForLoginExt: Sized {
    fn parse_user_login(s: Option<&str>) -> (r: Result<Username, UsernameError>)
        ensures
            outcome_matches(
                string_rule_check(opt_view(s), login_username_rules(), grapheme_count(opt_text(opt_view(s)))),
                username_accepted(r),
                username_messages(r),
            ),
    ;
}

impl UsernameRulesForLoginExt for Username {
    fn parse_user_login(s: Option<&str>) -> (r: Result<Username, UsernameError>) {
        Username::parse_custom(s, username_rules_for_login())
    }
}

/// The password rule of the login form, as a parser on `Password`.
pub trait PasswordRulesForLoginExt: Sized {
    fn parse_user_login(s: Option<&str>) -> (r: Result<Password, PasswordError>)
        ensures
            outcome_matches(
                password_rule_check(opt_view(s), login_password_rules(), grapheme_count(opt_text(opt_view(s)))),
                password_accepted(r),
                password_messages(r),
            ),
    ;
}

impl PasswordRulesForLoginExt for Password {
    fn parse_user_login(s: Option<&str>) -> (r: Result<Password, PasswordError>) {
        Password::parse_custom(s, password_rules_for_login())
    }
}

/// The name reserved for the anonymous visitor.
pub open spec fn reserved_username() -> Seq<char> {
    "visitor"@
}

pub open spec fn msg_username_reserved() -> MessageView {
    MessageView { text: "Username is reserved"@, key: "validate-username-reserved"@ }
}

pub open spec fn msg_username_taken() -> MessageView {
    MessageView { text: "Already taken"@, key: "validate-username-taken"@ }
}

/// Refuses the name reserved for the anonymous visitor.
pub fn check_username_is_reserved(username: &str) -> (r: Result<(), UsernameError>)
    ensures
        r is Err <==> username@ == reserved_username(),
        r matches Err(e) ==> e@ == seq![msg_username_reserved()],
{
    if str_eq(username, "visitor") {
        let v = vec![ValidationMessage { text: owned("Username is reserved"), key: owned("validate-username-reserved") }];
        assert(messages_view(v@) =~= seq![msg_username_reserved()]);
        Err(UsernameError(v))
    } else {
        Ok(())
    }
}

/// The outcome of the account-manager username rules: the default username
/// rules; then an unchanged name (the account's current name) is accepted as
/// is; otherwise the reserved name is refused, then a name already in use.
pub open spec fn user_add_check(
    input: Option<Seq<char>>,
    username_taken: bool,
    current_user_name: Option<Seq<char>>,
) -> Result<Seq<char>, Seq<MessageView>> {
    match string_rule_check(input, default_username_rules(), grapheme_count(opt_text(input))) {
        Err(m) => Err(m),
        Ok(t) => if current_user_name == Some(t) {
            Ok(t)
        } else if t == reserved_username() {
            Err(seq![msg_username_reserved()])
        } else if username_taken {
            Err(seq![msg_username_taken()])
        } else {
            Ok(t)
        },
    }
}

/// The account-manager username rules, as a parser on `Username`.
pub trait UsernameUserManagerRulesExt: Sized {
    /// Checks a username for a new or edited account; `username_taken` tells
    /// whether an account already has that name, and is only consulted when
    /// the name passed the other rules and differs from `current_user_name`.
    fn parse_user_add(
        username: Option<&str>,
        username_taken: bool,
        current_user_name: Option<&str>,
    ) -> (r: Result<Username, UsernameError>)
        ensures
            outcome_matches(
                user_add_check(opt_view(username), username_taken, opt_view(current_user_name)),
                username_accepted(r),
                username_messages(r),
            ),
    ;
}

impl UsernameUserManagerRulesExt for Username {
    fn parse_user_add(
        username: Option<&str>,
        username_taken: bool,
        current_user_name: Option<&str>,
    ) -> (r: Result<Username, UsernameError>) {
        let parsed = Username::parse(username);
        match parsed {
            Err(e) => Err(e),
            Ok(name) => {
                if let Some(current) = current_user_name {
                    if str_eq(current, name.as_str()) {
                        return Ok(name);
                    }
                }
                match check_username_is_reserved(name.as_str()) {
                    Err(e) => Err(e),
                    Ok(()) => {
                        if username_taken {
                            let v = vec![ValidationMessage { text: owned("Already taken"), key: owned("validate-username-taken") }];
                            assert(messages_view(v@) =~= seq![msg_username_taken()]);
                            Err(UsernameError(v))
                        } else {
                            Ok(name)
                        }
                    },
                }
            },
        }
    }
}

/// The minimum entropy score (paspio) of a new password.
pub const PASSWORD_ENTROPY_MIN: u32 = 60;

pub open spec fn msg_password_entropy() -> MessageView {
    MessageView {
        text: "Password entropy score must be over 60"@,
        key: "validate-password-entropy"@,
    }
}

/// The outcome of a new password and its confirmation: the default password
/// rules; then the entropy rule; then the confirmation must repeat it. When
/// the password fails, the confirmation fails too, with no message.
pub open spec fn password_add_check(
    input: Option<Seq<char>>,
    password_confirm: Seq<char>,
    meets_entropy: bool,
) -> (Result<Seq<char>, Seq<MessageView>>, Result<Seq<char>, Seq<MessageView>>) {
    match password_rule_check(input, default_password_rules(), grapheme_count(opt_text(input))) {
        Err(m) => (Err(m), Err(Seq::empty())),
        Ok(t) => if !meets_entropy {
            (Err(seq![msg_password_entropy()]), Err(Seq::empty()))
        } else if password_confirm == t {
            (Ok(t), Ok(t))
        } else {
            (Ok(t), Err(seq![msg_password_mismatch()]))
        },
    }
}

/// A new password and its confirmation, each checked.
pub type PasswordTuple = (Result<Password, PasswordError>, Result<Password, PasswordError>);

/// The outcome of checking a password that passed the default rules.
pub enum PasswordStatus {
    ConfirmError(PasswordError),
    ConfirmOk(Password),
    EntropyError(PasswordError),
}

impl PasswordStatus {
    /// Checks the entropy of a password (`meets_entropy` tells whether paspio
    /// scores it at least `PASSWORD_ENTROPY_MIN`), then its confirmation.
    pub fn check(password: &Password, password_confirm: &str, meets_entropy: bool) -> (r: PasswordStatus)
        ensures
            !meets_entropy ==> (r matches PasswordStatus::EntropyError(e) && e@ == seq![msg_password_entropy()]),
            meets_entropy && password_confirm@ == password.value@ ==> (r matches PasswordStatus::ConfirmOk(p) && p.value@ == password.value@),
            meets_entropy && password_confirm@ != password.value@ ==> (r matches PasswordStatus::ConfirmError(e) && e@ == seq![msg_password_mismatch()]),
    {
        if let Err(err) = Self::check_password_entropy(meets_entropy) {
            return PasswordStatus::EntropyError(err);
        }
        match password.parse_confirm(password_confirm) {
            Ok(ok) => PasswordStatus::ConfirmOk(ok),
            Err(err) => PasswordStatus::ConfirmError(err),
        }
    }

    /// The entropy rule, given whether the password meets the minimum.
    pub fn check_password_entropy(meets_entropy: bool) -> (r: Result<(), PasswordError>)
        ensures
            r is Ok <==> meets_entropy,
            r matches Err(e) ==> e@ == seq![msg_password_entropy()],
    {
        if meets_entropy {
            Ok(())
        } else {
            let v = vec![ValidationMessage {
                text: owned("Password entropy score must be over 60"),
                key: owned("validate-password-entropy"),
            }];
            assert(messages_view(v@) =~= seq![msg_password_entropy()]);
            Err(PasswordError(v))
        }
    }
}

/// The account-manager password rules, as a parser on `Password`.
pub trait PasswordUserManagerRulesExt: Sized {
    /// Checks a new password and its confirmation; `meets_entropy` tells
    /// whether paspio scores the password at least `PASSWORD_ENTROPY_MIN`.
    fn parse_password_add(password: Option<&str>, password_confirm: &str, meets_entropy: bool) -> (r: PasswordTuple)
        ensures
            outcome_matches(
                password_add_check(opt_view(password), password_confirm@, meets_entropy).0,
                password_accepted(r.0),
                password_messages(r.0),
            ),
            outcome_matches(
                password_add_check(opt_view(password), password_confirm@, meets_entropy).1,
                password_accepted(r.1),
                password_messages(r.1),
            ),
    ;
}

impl PasswordUserManagerRulesExt for Password {
    fn parse_password_add(password: Option<&str>, password_confirm: &str, meets_entropy: bool) -> (r: PasswordTuple) {
        let parsed = Password::parse(password);
        match parsed {
            Ok(p) => {
                match PasswordStatus::check(&p, password_confirm, meets_entropy) {
                    PasswordStatus::ConfirmError(err) => (Ok(p), Err(err)),
                    PasswordStatus::ConfirmOk(ok) => (Ok(p), Ok(ok)),
                    PasswordStatus::EntropyError(err) => {
                        let empty = PasswordError(Vec::new());
                        assert(empty@ =~= Seq::<MessageView>::empty());
                        (Err(err), Err(empty))
                    },
                }
            },
            Err(e) => {
                let empty = PasswordError(Vec::new());
                assert(empty@ =~= Seq::<MessageView>::empty());
                (Err(e), Err(empty))
            },
        }
    }
}

/// An accepted new password has an accepted confirmation exactly when the
/// confirmation repeats it, and the accepted confirmation is the password.
pub proof fn lemma_confirmed_password_repeats(input: Option<Seq<char>>, confirm: Seq<char>, meets_entropy: bool)
    requires
        password_add_check(input, confirm, meets_entropy).0 is Ok,
    ensures
        password_add_check(input, confirm, meets_entropy).1 is Ok <==> confirm == opt_text(input),
        password_add_check(input, confirm, meets_entropy).1 is Ok ==>
            password_add_check(input, confirm, meets_entropy).1 == password_add_check(input, confirm, meets_entropy).0,
        meets_entropy,
{
}

/// The reserved name is refused for every account except one that already
/// bears it, and an account's own current name is never refused as taken.
pub proof fn lemma_user_add_reserved_and_current(
    input: Option<Seq<char>>,
    username_taken: bool,
    current: Option<Seq<char>>,
)
    ensures
        (opt_text(input) == reserved_username() && current != Some(reserved_username())) ==>
            user_add_check(input, username_taken, current) is Err,
        (string_rule_check(input, default_username_rules(), grapheme_count(opt_text(input))) is Ok
            && current == Some(opt_text(input))) ==>
            user_add_check(input, username_taken, current) == Ok::<Seq<char>, Seq<MessageView>>(opt_text(input)),
{
}

} // verus!
