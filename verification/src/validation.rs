//! The format rules for what callers submit.
use crate::text::ends_with;
use vstd::prelude::*;
use vstd::string::*;

verus! {

/// Whether validator's `ValidateEmail::validate_email` accepts `text` as an
/// email address (the HTML5 rule, with internationalised domains).
pub uninterp spec fn email_shape_ok(text: Seq<char>) -> bool;

/// `ValidateEmail::validate_email` on a `&str`. The answer depends on the
/// text alone, so it is the named value.
#[verifier::external_body]
pub(crate) fn email_ok(text: &str) -> (ok: bool)
    ensures
        ok == email_shape_ok(text@),
{
    validator::ValidateEmail::validate_email(&text)
}

/// Whether validator's `ValidateUrl::validate_url` accepts `text` as a URL.
pub uninterp spec fn url_shape_ok(text: Seq<char>) -> bool;

/// `ValidateUrl::validate_url` on a `&str`. The answer depends on the text
/// alone, so it is the named value.
#[verifier::external_body]
pub(crate) fn url_ok(text: &str) -> (ok: bool)
    ensures
        ok == url_shape_ok(text@),
{
    validator::ValidateUrl::validate_url(&text)
}

/// One broken format rule.
#[derive(Debug, Clone, Copy, PartialEq, Eq, Structural)]
pub enum Violation {
    /// `email` is no email address (said of a user or a stored code).
    InvalidEmail,
    /// `email` is no email address (said of a submitted form).
    InvalidEmailAddress,
    /// `password` has fewer than 8 characters.
    PasswordTooShort,
    /// `username` (or `user`, at login) has fewer than 4 characters.
    UsernameTooShort,
    /// `otp` does not have exactly 6 characters.
    OtpLength,
    /// The `text` of a comment has more than 500 characters.
    CommentTooLong,
    /// The `text` of a post has more than 1000 characters.
    PostTooLong,
    /// `profile_url` is no URL.
    InvalidUrl,
}

/// The field a violation is about.
pub open spec fn field_text(v: Violation) -> Seq<char> {
    match v {
        Violation::InvalidEmail | Violation::InvalidEmailAddress => "email"@,
        Violation::PasswordTooShort => "password"@,
        Violation::UsernameTooShort => "username"@,
        Violation::OtpLength => "otp"@,
        Violation::CommentTooLong | Violation::PostTooLong => "text"@,
        Violation::InvalidUrl => "profile_url"@,
    }
}

/// The rule that was broken, as validation reports name it.
pub open spec fn code_text(v: Violation) -> Seq<char> {
    match v {
        Violation::InvalidEmail | Violation::InvalidEmailAddress => "email"@,
        Violation::InvalidUrl => "url"@,
        _ => "length"@,
    }
}

/// The message that goes with a violation; empty where the rule has none.
pub open spec fn message_text(v: Violation) -> Seq<char> {
    match v {
        Violation::InvalidEmail => "Invalid email"@,
        Violation::InvalidEmailAddress => "Invalid email address"@,
        Violation::PasswordTooShort => "Password must be at least 8 characters long"@,
        Violation::UsernameTooShort => "Username must be at least 4 characters long"@,
        Violation::OtpLength => "OTP must be 6 characters long"@,
        Violation::CommentTooLong | Violation::PostTooLong => ""@,
        Violation::InvalidUrl => "Invalid URL"@,
    }
}

impl Violation {
    /// The field the rule is about.
    pub fn field(&self) -> (text: String)
        ensures
            text@ == field_text(*self),
    {
        match self {
            Violation::InvalidEmail | Violation::InvalidEmailAddress => "email".to_string(),
            Violation::PasswordTooShort => "password".to_string(),
            Violation::UsernameTooShort => "username".to_string(),
            Violation::OtpLength => "otp".to_string(),
            Violation::CommentTooLong | Violation::PostTooLong => "text".to_string(),
            Violation::InvalidUrl => "profile_url".to_string(),
        }
    }

    /// The rule that was broken: `email`, `length` or `url`.
    pub fn code(&self) -> (text: String)
        ensures
            text@ == code_text(*self),
    {
        match self {
            Violation::InvalidEmail | Violation::InvalidEmailAddress => "email".to_string(),
            Violation::InvalidUrl => "url".to_string(),
            _ => "length".to_string(),
        }
    }

    /// The message for the caller.
    pub fn message(&self) -> (text: String)
        ensures
            text@ == message_text(*self),
    {
        match self {
            Violation::InvalidEmail => "Invalid email".to_string(),
            Violation::InvalidEmailAddress => "Invalid email address".to_string(),
            Violation::PasswordTooShort => "Password must be at least 8 characters long".to_string(),
            Violation::UsernameTooShort => "Username must be at least 4 characters long".to_string(),
            Violation::OtpLength => "OTP must be 6 characters long".to_string(),
            Violation::CommentTooLong | Violation::PostTooLong => "".to_string(),
            Violation::InvalidUrl => "Invalid URL".to_string(),
        }
    }
}

/// `v` if `broken`, nothing otherwise.
pub open spec fn broken_rule(broken: bool, v: Violation) -> Seq<Violation> {
    if broken {
        seq![v]
    } else {
        seq![]
    }
}

/// What every account's email must end with: the at sign and the campus
/// domain.
pub open spec fn campus_suffix() -> Seq<char> {
    "@dcrustm.org"@
}

/// Whether `email` is an address of the campus domain: its domain part is
/// the campus domain itself, not a name that merely ends like it.
pub open spec fn is_campus_address(email: Seq<char>) -> bool {
    crate::text::is_suffix(email, campus_suffix())
}

/// Whether `email` is an address of the campus domain.
pub fn is_campus_email(email: &str) -> (yes: bool)
    ensures
        yes == is_campus_address(email@),
{
    ends_with(email, "@dcrustm.org")
}

/// In an address of the campus domain, the campus domain stands right after
/// an at sign: `bob@notdcrustm.org` is none.
pub proof fn lemma_campus_address_ends_at_the_domain(email: Seq<char>)
    requires
        is_campus_address(email),
    ensures
        email.len() >= 12,
        email[email.len() - 12] == '@',
        email.subrange(email.len() - 11, email.len() as int) == "dcrustm.org"@,
{
    reveal_strlit("@dcrustm.org");
    reveal_strlit("dcrustm.org");
    let tail = email.subrange(email.len() - 12, email.len() as int);
    assert(tail[0] == '@');
    assert(email.subrange(email.len() - 11, email.len() as int) =~= tail.subrange(1, 12));
    assert(tail.subrange(1, 12) =~= "dcrustm.org"@);
}

/// Whether a username holds a character that no username may hold: a space,
/// `@` or `/`.
pub open spec fn has_forbidden_character(username: Seq<char>) -> bool {
    username.contains(' ') || username.contains('@') || username.contains('/')
}

/// Whether `username` holds a space, `@` or `/`.
pub fn username_has_forbidden_character(username: &str) -> (yes: bool)
    ensures
        yes == has_forbidden_character(username@),
{
    crate::text::contains_char(username, ' ') || crate::text::contains_char(username, '@')
        || crate::text::contains_char(username, '/')
}

/// Appends `v` to `found` if `broken`.
pub(crate) fn note(found: &mut Vec<Violation>, broken: bool, v: Violation)
    ensures
        final(found)@ == old(found)@ + broken_rule(broken, v),
{
    if broken {
        found.push(v);
    }
}

} // verus!
