//! The account flows: registration, one-time codes, login, refresh, logout.
//!
//! Each flow is a function from the caller's input, the flow's progress and
//! the database's last answer to the next progress and the next step. The
//! functions whose names end in `_at` take what the outside world decided
//! (the time, a random draw, a verifier's answer) as arguments; the others
//! obtain those themselves and hand them on.
use crate::auth::token::{
    claims_of, claims_view, is_reading, pair_at, refresh_kind, validity, Claims, ClaimsView,
    DecodedClaims, TokenError, TokenPair, JWT,
};
use crate::clock::unix_now;
use crate::db::{ask, column_text, text_at, Query, Reply, ReplyView, Request};
use crate::email::{is_otp_code, otp_mail, Email};
use crate::flow::{
    carry, deny, end, go, Progress, ProgressView, PublicUser, PublicUserView, Rejection,
    Response, ResponseView, Stage, Step, StepView,
};
use crate::models::otp::{otp_accepts, otp_of_row, Otp};
use crate::ident::{new_user_id, random_seed, user_id};
use crate::models::user::{insert_request, registration_violations, InsertUser, InsertUserView};
use crate::password::{bcrypt_verdict, hash_password, verify_password};
use crate::text::option_view;
use crate::validation::{
    broken_rule, email_ok, email_shape_ok, has_forbidden_character, is_campus_address,
    is_campus_email, note, username_has_forbidden_character, Violation,
};
use vstd::prelude::*;
use vstd::string::*;

pub mod token;

verus! {

/// The body of a request to verify a one-time code.
#[derive(Debug, Clone, PartialEq, Eq)]
pub struct OTPVerificationForm {
    pub otp: String,
    pub email: String,
}

/// The mathematical value of an [`OTPVerificationForm`].
pub struct OTPVerificationFormView {
    pub otp: Seq<char>,
    pub email: Seq<char>,
}

impl View for OTPVerificationForm {
    type V = OTPVerificationFormView;

    open spec fn view(&self) -> OTPVerificationFormView {
        OTPVerificationFormView { otp: self.otp@, email: self.email@ }
    }
}

/// The format rules a verification form breaks.
pub open spec fn otp_form_violations(form: OTPVerificationFormView) -> Seq<Violation> {
    broken_rule(form.otp.len() != 6, Violation::OtpLength) + broken_rule(
        !email_shape_ok(form.email),
        Violation::InvalidEmailAddress,
    )
}

impl OTPVerificationForm {
    /// The format rules this form breaks: the code must have exactly 6
    /// characters, the email must be an email address.
    pub fn validate(&self) -> (found: Vec<Violation>)
        ensures
            found@ == otp_form_violations(self@),
    {
        let mut found: Vec<Violation> = Vec::new();
        note(&mut found, self.otp.as_str().unicode_len() != 6, Violation::OtpLength);
        note(&mut found, !email_ok(self.email.as_str()), Violation::InvalidEmailAddress);
        found
    }
}

/// One step of verifying a one-time code at the time `now`.
///
/// The form is validated, the stored code is asked for, and the submission
/// is admitted exactly when the stored code admits it. An admitted caller's
/// account is marked active, its id is looked up, and a fresh token pair for
/// that id is the response. A wrong code, an expired code, an email without a
/// stored code and an email without an account are all turned down with the
/// same `InvalidOtp`.
pub open spec fn verify_otp_step(
    form: OTPVerificationFormView,
    at: ProgressView,
    reply: ReplyView,
    jwt: &JWT,
    now: i64,
) -> (ProgressView, StepView) {
    match at.stage {
        Stage::Start => if otp_form_violations(form).len() > 0 {
            end(ResponseView::Invalid(otp_form_violations(form)))
        } else {
            go(Stage::Challenge, ask(Query::OtpByEmail, seq![form.email]))
        },
        Stage::Challenge => match reply {
            ReplyView::Failed => deny(Rejection::UpstreamGateway),
            ReplyView::Row(None) => deny(Rejection::InvalidOtp),
            ReplyView::Row(Some(row)) => match otp_of_row(row) {
                Err(_) => deny(Rejection::Upstream),
                Ok(stored) => if otp_accepts(stored, form.email, form.otp, now) {
                    go(Stage::Activation, ask(Query::ActivateUser, seq![form.email]))
                } else {
                    deny(Rejection::InvalidOtp)
                },
            },
            _ => deny(Rejection::Upstream),
        },
        Stage::Activation => match reply {
            ReplyView::Done => go(Stage::Identity, ask(Query::UserIdByEmail, seq![form.email])),
            _ => deny(Rejection::Upstream),
        },
        Stage::Identity => match reply {
            ReplyView::Row(None) => deny(Rejection::InvalidOtp),
            ReplyView::Row(Some(row)) => match text_at(row, 0) {
                None => deny(Rejection::Upstream),
                Some(id) => match pair_at(id, jwt, now) {
                    Ok(pair) => end(ResponseView::Tokens(pair)),
                    Err(_) => deny(Rejection::Upstream),
                },
            },
            _ => deny(Rejection::Upstream),
        },
        _ => deny(Rejection::Upstream),
    }
}

/// One step of verifying a one-time code, at the time `now`.
pub fn verify_otp_at(
    form: &OTPVerificationForm,
    at: &Progress,
    reply: &Reply,
    jwt: &JWT,
    now: i64,
) -> (next: (Progress, Step))
    ensures
        (next.0@, next.1@) == verify_otp_step(form@, at@, reply@, jwt, now),
{
    match at.stage {
        Stage::Start => {
            let found = form.validate();
            if found.len() > 0 {
                Progress::end(Response::Invalid(found))
            } else {
                Progress::go(Stage::Challenge, Request::one(Query::OtpByEmail, &form.email))
            }
        },
        Stage::Challenge => match reply {
            Reply::Failed => Progress::deny(Rejection::UpstreamGateway),
            Reply::Row(None) => Progress::deny(Rejection::InvalidOtp),
            Reply::Row(Some(row)) => match Otp::try_from(row) {
                Err(_) => Progress::deny(Rejection::Upstream),
                Ok(stored) => {
                    if stored.accepts(form.email.as_str(), form.otp.as_str(), now) {
                        Progress::go(
                            Stage::Activation,
                            Request::one(Query::ActivateUser, &form.email),
                        )
                    } else {
                        Progress::deny(Rejection::InvalidOtp)
                    }
                },
            },
            _ => Progress::deny(Rejection::Upstream),
        },
        Stage::Activation => match reply {
            Reply::Done => Progress::go(
                Stage::Identity,
                Request::one(Query::UserIdByEmail, &form.email),
            ),
            _ => Progress::deny(Rejection::Upstream),
        },
        Stage::Identity => match reply {
            Reply::Row(None) => Progress::deny(Rejection::InvalidOtp),
            Reply::Row(Some(row)) => match column_text(row, 0) {
                None => Progress::deny(Rejection::Upstream),
                Some(id) => match TokenPair::issue_at(&id, jwt, now) {
                    Ok(pair) => Progress::end(Response::Tokens(pair)),
                    Err(_) => Progress::deny(Rejection::Upstream),
                },
            },
            _ => Progress::deny(Rejection::Upstream),
        },
        _ => Progress::deny(Rejection::Upstream),
    }
}

/// One step of verifying a one-time code, at the time the clock shows.
pub fn verify_otp(form: &OTPVerificationForm, at: &Progress, reply: &Reply, jwt: &JWT) -> (next: (
    Progress,
    Step,
))
    ensures
        exists|now: i64|
            0 <= now && (next.0@, next.1@) == #[trigger] verify_otp_step(
                form@,
                at@,
                reply@,
                jwt,
                now,
            ),
{
    let now = unix_now();
    verify_otp_at(form, at, reply, jwt, now)
}

// ---------------------------------------------------------------- register

/// What a newly registered user is told: the submitted fields and the new
/// id, without the password.
pub open spec fn public_user(form: InsertUserView, id: Seq<char>) -> PublicUserView {
    PublicUserView {
        id,
        email: form.email,
        username: form.username,
        first_name: form.first_name,
        last_name: form.last_name,
        roll: form.roll,
        dob: form.dob,
    }
}

/// One step of registration, with the random clock sequence `seed` for the
/// new id and `hashed`, the salted hash of the password (`None` where
/// hashing failed or was not asked for).
///
/// The form is validated; the username must hold no space, `@` or `/`, and
/// the email must belong to the campus domain. An email that is taken is a
/// conflict. Otherwise the user is stored under a new id with the hash in
/// place of the password, and the response shows the account without it.
pub open spec fn register_step(
    form: InsertUserView,
    at: ProgressView,
    reply: ReplyView,
    seed: u16,
    hashed: Option<Seq<char>>,
) -> (ProgressView, StepView) {
    match at.stage {
        Stage::Start => if registration_violations(form).len() > 0 {
            end(ResponseView::Invalid(registration_violations(form)))
        } else if has_forbidden_character(form.username) {
            deny(Rejection::UsernameCharacters)
        } else if !is_campus_address(form.email) {
            deny(Rejection::ForeignEmail)
        } else {
            go(Stage::Lookup, ask(Query::UserByEmail, seq![form.email]))
        },
        Stage::Lookup => match reply {
            ReplyView::Row(Some(_)) => deny(Rejection::EmailTaken),
            ReplyView::Row(None) | ReplyView::Broken => match hashed {
                None => deny(Rejection::RegistrationFailed),
                Some(hash) => carry(
                    Stage::Insert,
                    user_id(seed),
                    insert_request(form, user_id(seed), hash),
                ),
            },
            _ => deny(Rejection::RegistrationFailed),
        },
        Stage::Insert => match (reply, at.note) {
            (ReplyView::Done, Some(id)) => end(ResponseView::Registered(public_user(form, id))),
            _ => deny(Rejection::RegistrationFailed),
        },
        _ => deny(Rejection::Upstream),
    }
}

/// Whether the next step of registration stores the user, and so needs the
/// password hashed.
pub open spec fn registration_hashes(at: ProgressView, reply: ReplyView) -> bool {
    at.stage == Stage::Lookup && (reply == ReplyView::Row(None) || reply == ReplyView::Broken)
}

/// Whether the next step of registration needs the password hashed.
pub fn register_needs_hash(at: &Progress, reply: &Reply) -> (yes: bool)
    ensures
        yes == registration_hashes(at@, reply@),
{
    match at.stage {
        Stage::Lookup => match reply {
            Reply::Row(None) | Reply::Broken => true,
            _ => false,
        },
        _ => false,
    }
}

fn public_of(form: &InsertUser, id: &String) -> (user: PublicUser)
    ensures
        user@ == public_user(form@, id@),
{
    PublicUser {
        id: id.clone(),
        email: form.email.clone(),
        username: form.username.clone(),
        first_name: form.first_name.clone(),
        last_name: form.last_name.clone(),
        roll: form.roll.clone(),
        dob: form.dob.clone(),
    }
}

/// One step of registration, with the random draw and the hash given.
pub fn register_user_at(
    form: &InsertUser,
    at: &Progress,
    reply: &Reply,
    seed: u16,
    hashed: &Option<String>,
) -> (next: (Progress, Step))
    ensures
        (next.0@, next.1@) == register_step(form@, at@, reply@, seed, option_view(*hashed)),
{
    match at.stage {
        Stage::Start => {
            let found = form.validate();
            if found.len() > 0 {
                Progress::end(Response::Invalid(found))
            } else if username_has_forbidden_character(form.username.as_str()) {
                Progress::deny(Rejection::UsernameCharacters)
            } else if !is_campus_email(form.email.as_str()) {
                Progress::deny(Rejection::ForeignEmail)
            } else {
                Progress::go(Stage::Lookup, Request::one(Query::UserByEmail, &form.email))
            }
        },
        Stage::Lookup => match reply {
            Reply::Row(Some(_)) => Progress::deny(Rejection::EmailTaken),
            Reply::Row(None) | Reply::Broken => match hashed {
                None => Progress::deny(Rejection::RegistrationFailed),
                Some(hash) => {
                    let id = new_user_id(seed);
                    let request = form.insert_with(&id, hash);
                    Progress::carry(Stage::Insert, id, request)
                },
            },
            _ => Progress::deny(Rejection::RegistrationFailed),
        },
        Stage::Insert => match (reply, &at.note) {
            (Reply::Done, Some(id)) => Progress::end(Response::Registered(public_of(form, id))),
            _ => Progress::deny(Rejection::RegistrationFailed),
        },
        _ => Progress::deny(Rejection::Upstream),
    }
}

/// One step of registration. The id's clock sequence is drawn at random and
/// the password is hashed with a random salt; whatever comes of either, the
/// step is the one [`register_step`] describes for them, and a hash that goes
/// into the request is a hash of the submitted password.
pub fn register_user(form: &InsertUser, at: &Progress, reply: &Reply) -> (next: (Progress, Step))
    ensures
        exists|seed: u16, hashed: Option<Seq<char>>|
            (hashed matches Some(h) ==> bcrypt_verdict(form.password@, h) == Some(true)) && (
            next.0@,
            next.1@,
        ) == #[trigger] register_step(form@, at@, reply@, seed, hashed),
{
    let seed = random_seed();
    let hashed = if register_needs_hash(at, reply) {
        hash_password(form.password.as_str())
    } else {
        None
    };
    register_user_at(form, at, reply, seed, &hashed)
}

// ---------------------------------------------------------------- send-otp

/// The body of a request to send a one-time code.
#[derive(Debug, Clone, PartialEq, Eq)]
pub struct EmailVerificationForm {
    pub email: String,
}

/// The mathematical value of an [`EmailVerificationForm`].
pub struct EmailVerificationFormView {
    pub email: Seq<char>,
}

impl View for EmailVerificationForm {
    type V = EmailVerificationFormView;

    open spec fn view(&self) -> EmailVerificationFormView {
        EmailVerificationFormView { email: self.email@ }
    }
}

/// The format rules an email form breaks.
pub open spec fn email_form_violations(form: EmailVerificationFormView) -> Seq<Violation> {
    broken_rule(!email_shape_ok(form.email), Violation::InvalidEmailAddress)
}

impl EmailVerificationForm {
    /// The format rules this form breaks: the email must be an email address.
    pub fn validate(&self) -> (found: Vec<Violation>)
        ensures
            found@ == email_form_violations(self@),
    {
        let mut found: Vec<Violation> = Vec::new();
        note(&mut found, !email_ok(self.email.as_str()), Violation::InvalidEmailAddress);
        found
    }
}

/// One step of sending a one-time code, where `code` is the code drawn for
/// this request.
///
/// The email must be an email address of the campus domain. The code is
/// stored for the email, replacing any earlier one, and once it is stored the
/// response is a success that carries the mail to send: the stored code is
/// the signal of success, not the delivery of the mail.
pub open spec fn send_otp_step(
    form: EmailVerificationFormView,
    at: ProgressView,
    reply: ReplyView,
    code: Seq<char>,
) -> (ProgressView, StepView) {
    match at.stage {
        Stage::Start => if email_form_violations(form).len() > 0 {
            end(ResponseView::Invalid(email_form_violations(form)))
        } else if !is_campus_address(form.email) {
            deny(Rejection::ForeignEmail)
        } else {
            carry(Stage::Upsert, code, ask(Query::UpsertOtp, seq![form.email, code]))
        },
        Stage::Upsert => match (reply, at.note) {
            (ReplyView::Done, Some(stored)) => end(
                ResponseView::OtpSent(otp_mail(form.email, stored)),
            ),
            _ => deny(Rejection::OtpFailed),
        },
        _ => deny(Rejection::Upstream),
    }
}

/// One step of sending a one-time code, with the drawn code given.
pub fn send_otp_at(form: &EmailVerificationForm, at: &Progress, reply: &Reply, code: String) -> (next:
    (Progress, Step))
    ensures
        (next.0@, next.1@) == send_otp_step(form@, at@, reply@, code@),
{
    match at.stage {
        Stage::Start => {
            let found = form.validate();
            if found.len() > 0 {
                Progress::end(Response::Invalid(found))
            } else if !is_campus_email(form.email.as_str()) {
                Progress::deny(Rejection::ForeignEmail)
            } else {
                let request = Request::two(Query::UpsertOtp, &form.email, &code);
                Progress::carry(Stage::Upsert, code, request)
            }
        },
        Stage::Upsert => match (reply, &at.note) {
            (Reply::Done, Some(stored)) => Progress::end(
                Response::OtpSent(Email::new(form.email.clone(), stored.as_str())),
            ),
            _ => Progress::deny(Rejection::OtpFailed),
        },
        _ => Progress::deny(Rejection::Upstream),
    }
}

/// One step of sending a one-time code. The code is drawn at random;
/// whichever it is, it is six ASCII letters and digits.
pub fn send_otp(form: &EmailVerificationForm, at: &Progress, reply: &Reply) -> (next: (
    Progress,
    Step,
))
    ensures
        exists|code: Seq<char>|
            is_otp_code(code) && (next.0@, next.1@) == #[trigger] send_otp_step(
                form@,
                at@,
                reply@,
                code,
            ),
{
    let code = Email::generate_otp();
    send_otp_at(form, at, reply, code)
}

// ------------------------------------------------------------------- login

/// The body of a login request.
#[derive(Debug, Clone, PartialEq, Eq)]
pub struct Credentials {
    pub user: String,
    pub password: String,
}

/// The mathematical value of a [`Credentials`].
pub struct CredentialsView {
    pub user: Seq<char>,
    pub password: Seq<char>,
}

impl View for Credentials {
    type V = CredentialsView;

    open spec fn view(&self) -> CredentialsView {
        CredentialsView { user: self.user@, password: self.password@ }
    }
}

/// The format rules a login breaks.
pub open spec fn credentials_violations(form: CredentialsView) -> Seq<Violation> {
    broken_rule(form.user.len() < 4, Violation::UsernameTooShort)
}

impl Credentials {
    /// The format rules this login breaks: the username must have at least
    /// 4 characters.
    pub fn validate(&self) -> (found: Vec<Violation>)
        ensures
            found@ == credentials_violations(self@),
    {
        let mut found: Vec<Violation> = Vec::new();
        note(&mut found, self.user.as_str().unicode_len() < 4, Violation::UsernameTooShort);
        found
    }
}

/// One step of a login at the time `now`.
///
/// The stored id and password hash of the username are asked for. An unknown
/// username and a password that does not match the hash are turned down, each
/// with its own text; a match is answered with a fresh token pair for the
/// stored id. The flow asks the database to change nothing.
pub open spec fn login_step(
    form: CredentialsView,
    at: ProgressView,
    reply: ReplyView,
    jwt: &JWT,
    now: i64,
) -> (ProgressView, StepView) {
    match at.stage {
        Stage::Start => if credentials_violations(form).len() > 0 {
            end(ResponseView::Invalid(credentials_violations(form)))
        } else {
            go(Stage::Credentials, ask(Query::CredentialsByUsername, seq![form.user]))
        },
        Stage::Credentials => match reply {
            ReplyView::Failed => deny(Rejection::LoginFailed),
            ReplyView::Row(None) | ReplyView::Broken => deny(Rejection::UserNotFound),
            ReplyView::Row(Some(row)) => match text_at(row, 1) {
                None => deny(Rejection::Upstream),
                Some(hash) => match bcrypt_verdict(form.password, hash) {
                    None => deny(Rejection::Upstream),
                    Some(false) => deny(Rejection::InvalidCredentials),
                    Some(true) => match text_at(row, 0) {
                        None => deny(Rejection::Upstream),
                        Some(id) => match pair_at(id, jwt, now) {
                            Ok(pair) => end(ResponseView::Tokens(pair)),
                            Err(_) => deny(Rejection::Upstream),
                        },
                    },
                },
            },
            _ => deny(Rejection::Upstream),
        },
        _ => deny(Rejection::Upstream),
    }
}

/// One step of a login, at the time `now`.
pub fn login_at(form: &Credentials, at: &Progress, reply: &Reply, jwt: &JWT, now: i64) -> (next: (
    Progress,
    Step,
))
    ensures
        (next.0@, next.1@) == login_step(form@, at@, reply@, jwt, now),
{
    match at.stage {
        Stage::Start => {
            let found = form.validate();
            if found.len() > 0 {
                Progress::end(Response::Invalid(found))
            } else {
                Progress::go(
                    Stage::Credentials,
                    Request::one(Query::CredentialsByUsername, &form.user),
                )
            }
        },
        Stage::Credentials => match reply {
            Reply::Failed => Progress::deny(Rejection::LoginFailed),
            Reply::Row(None) | Reply::Broken => Progress::deny(Rejection::UserNotFound),
            Reply::Row(Some(row)) => match column_text(row, 1) {
                None => Progress::deny(Rejection::Upstream),
                Some(hash) => match verify_password(form.password.as_str(), hash.as_str()) {
                    None => Progress::deny(Rejection::Upstream),
                    Some(false) => Progress::deny(Rejection::InvalidCredentials),
                    Some(true) => match column_text(row, 0) {
                        None => Progress::deny(Rejection::Upstream),
                        Some(id) => match TokenPair::issue_at(&id, jwt, now) {
                            Ok(pair) => Progress::end(Response::Tokens(pair)),
                            Err(_) => Progress::deny(Rejection::Upstream),
                        },
                    },
                },
            },
            _ => Progress::deny(Rejection::Upstream),
        },
        _ => Progress::deny(Rejection::Upstream),
    }
}

/// One step of a login, at the time the clock shows.
pub fn login(form: &Credentials, at: &Progress, reply: &Reply, jwt: &JWT) -> (next: (
    Progress,
    Step,
))
    ensures
        exists|now: i64|
            0 <= now && (next.0@, next.1@) == #[trigger] login_step(form@, at@, reply@, jwt, now),
{
    let now = unix_now();
    login_at(form, at, reply, jwt, now)
}

// ------------------------------------------------------- refresh and logout

/// The body of a refresh or logout request: the refresh token.
#[derive(Debug, Clone, PartialEq, Eq)]
pub struct RefreshToken {
    pub token: String,
}

/// What the refresh token in a request body must be before anything is asked
/// of the database: a token that verifies, of the refresh kind. `None` where
/// it is.
pub open spec fn refresh_token_fault(decoded: Result<ClaimsView, TokenError>) -> Option<Rejection> {
    match decoded {
        Err(_) => Some(Rejection::InvalidBodyToken),
        Ok(claims) => if claims.token != refresh_kind() {
            Some(Rejection::UseRefreshToken)
        } else {
            None
        },
    }
}

/// One step of a refresh at the time `now`, where `decoded` is the verifier's
/// reading of `token` at this step.
///
/// A token that does not verify or is no refresh token is turned down before
/// the database is asked anything. A token that is revoked, or whose expiry
/// has passed, is turned down as blacklisted. Otherwise the token is revoked,
/// so that it cannot be used again, and after that a fresh pair for the same
/// subject is the response. No access token is revoked by a refresh.
pub open spec fn refresh_step(
    token: Seq<char>,
    at: ProgressView,
    reply: ReplyView,
    decoded: Result<ClaimsView, TokenError>,
    jwt: &JWT,
    now: i64,
) -> (ProgressView, StepView) {
    match at.stage {
        Stage::Start => match refresh_token_fault(decoded) {
            Some(why) => deny(why),
            None => carry(Stage::Revocation, decoded->Ok_0.sub, ask(Query::RevokedToken, seq![token])),
        },
        Stage::Revocation => match (validity(reply, decoded, now), at.note) {
            (Ok(true), Some(sub)) => carry(
                Stage::RevokeRefresh,
                sub,
                ask(Query::RevokeToken, seq![token]),
            ),
            (Ok(false), _) => deny(Rejection::TokenBlacklisted),
            _ => deny(Rejection::Upstream),
        },
        Stage::RevokeRefresh => match (reply, at.note) {
            (ReplyView::Done, Some(sub)) => match pair_at(sub, jwt, now) {
                Ok(pair) => end(ResponseView::Tokens(pair)),
                Err(_) => deny(Rejection::Upstream),
            },
            _ => deny(Rejection::Upstream),
        },
        _ => deny(Rejection::Upstream),
    }
}

fn check_refresh_token(decoded: &Result<Claims, TokenError>) -> (fault: Option<Rejection>)
    ensures
        fault == refresh_token_fault(claims_view(*decoded)),
{
    match decoded {
        Err(_) => Some(Rejection::InvalidBodyToken),
        Ok(claims) => {
            if !claims.is_refresh() {
                Some(Rejection::UseRefreshToken)
            } else {
                None
            }
        },
    }
}

/// One step of a refresh, with the verifier's reading and the time given.
pub fn refresh_tokens_at(
    form: &RefreshToken,
    at: &Progress,
    reply: &Reply,
    decoded: &Result<Claims, TokenError>,
    jwt: &JWT,
    now: i64,
) -> (next: (Progress, Step))
    ensures
        (next.0@, next.1@) == refresh_step(
            form.token@,
            at@,
            reply@,
            claims_view(*decoded),
            jwt,
            now,
        ),
{
    match at.stage {
        Stage::Start => match check_refresh_token(decoded) {
            Some(why) => Progress::deny(why),
            None => match decoded {
                Ok(claims) => Progress::carry(
                    Stage::Revocation,
                    claims.sub.clone(),
                    Claims::revoked(&form.token),
                ),
                Err(_) => Progress::deny(Rejection::InvalidBodyToken),
            },
        },
        Stage::Revocation => match (Claims::is_valid_at(reply, decoded, now), &at.note) {
            (Ok(true), Some(sub)) => Progress::carry(
                Stage::RevokeRefresh,
                sub.clone(),
                Claims::blacklist(&form.token),
            ),
            (Ok(false), _) => Progress::deny(Rejection::TokenBlacklisted),
            _ => Progress::deny(Rejection::Upstream),
        },
        Stage::RevokeRefresh => match (reply, &at.note) {
            (Reply::Done, Some(sub)) => match TokenPair::issue_at(sub, jwt, now) {
                Ok(pair) => Progress::end(Response::Tokens(pair)),
                Err(_) => Progress::deny(Rejection::Upstream),
            },
            _ => Progress::deny(Rejection::Upstream),
        },
        _ => Progress::deny(Rejection::Upstream),
    }
}

/// One step of a refresh. The token is verified and the clock read at every
/// step; whatever they say, the step is the one [`refresh_step`] describes
/// for them, and what the verifier hands on is the reading of this token.
pub fn refresh_tokens(form: &RefreshToken, at: &Progress, reply: &Reply, jwt: &JWT) -> (next: (
    Progress,
    Step,
))
    ensures
        exists|decoded: Option<DecodedClaims>, now: i64|
            is_reading(form.token@, jwt, decoded) && 0 <= now && (
            next.0@,
            next.1@,
        ) == #[trigger] refresh_step(form.token@, at@, reply@, claims_of(decoded), jwt, now),
{
    let decoded = Claims::decode(form.token.as_str(), jwt);
    let ghost answer = choose|answer: Option<DecodedClaims>|
        is_reading(form.token@, jwt, answer) && claims_view(decoded) == #[trigger] claims_of(
            answer,
        );
    let now = unix_now();
    let next = refresh_tokens_at(form, at, reply, &decoded, jwt, now);
    assert(is_reading(form.token@, jwt, answer) && 0 <= now && (next.0@, next.1@) == refresh_step(
        form.token@,
        at@,
        reply@,
        claims_of(answer),
        jwt,
        now,
    ));
    next
}

/// One step of a logout at the time `now`, where `access` is the access token
/// that the request was admitted with and `decoded` is the verifier's reading
/// of the refresh token at this step.
///
/// The refresh token is held to the same tests as in a refresh. If it passes,
/// first the refresh token and then the access token is revoked, and only
/// then the caller is told that they are logged out.
pub open spec fn logout_step(
    access: Option<Seq<char>>,
    token: Seq<char>,
    at: ProgressView,
    reply: ReplyView,
    decoded: Result<ClaimsView, TokenError>,
    now: i64,
) -> (ProgressView, StepView) {
    match access {
        None => deny(Rejection::TokenMissing),
        Some(access_token) => match at.stage {
            Stage::Start => match refresh_token_fault(decoded) {
                Some(why) => deny(why),
                None => go(Stage::Revocation, ask(Query::RevokedToken, seq![token])),
            },
            Stage::Revocation => match validity(reply, decoded, now) {
                Ok(true) => go(Stage::RevokeRefresh, ask(Query::RevokeToken, seq![token])),
                Ok(false) => deny(Rejection::TokenBlacklisted),
                Err(_) => deny(Rejection::Upstream),
            },
            Stage::RevokeRefresh => match reply {
                ReplyView::Done => go(
                    Stage::RevokeAccess,
                    ask(Query::RevokeToken, seq![access_token]),
                ),
                _ => deny(Rejection::Upstream),
            },
            Stage::RevokeAccess => match reply {
                ReplyView::Done => end(ResponseView::LoggedOut),
                _ => deny(Rejection::Upstream),
            },
            _ => deny(Rejection::Upstream),
        },
    }
}

/// One step of a logout, with the verifier's reading and the time given.
pub fn logout_at(
    access: &Option<String>,
    form: &RefreshToken,
    at: &Progress,
    reply: &Reply,
    decoded: &Result<Claims, TokenError>,
    now: i64,
) -> (next: (Progress, Step))
    ensures
        (next.0@, next.1@) == logout_step(
            option_view(*access),
            form.token@,
            at@,
            reply@,
            claims_view(*decoded),
            now,
        ),
{
    let access_token = match access {
        None => {
            return Progress::deny(Rejection::TokenMissing);
        },
        Some(t) => t,
    };
    match at.stage {
        Stage::Start => match check_refresh_token(decoded) {
            Some(why) => Progress::deny(why),
            None => Progress::go(Stage::Revocation, Claims::revoked(&form.token)),
        },
        Stage::Revocation => match Claims::is_valid_at(reply, decoded, now) {
            Ok(true) => Progress::go(Stage::RevokeRefresh, Claims::blacklist(&form.token)),
            Ok(false) => Progress::deny(Rejection::TokenBlacklisted),
            Err(_) => Progress::deny(Rejection::Upstream),
        },
        Stage::RevokeRefresh => match reply {
            Reply::Done => Progress::go(Stage::RevokeAccess, Claims::blacklist(access_token)),
            _ => Progress::deny(Rejection::Upstream),
        },
        Stage::RevokeAccess => match reply {
            Reply::Done => Progress::end(Response::LoggedOut),
            _ => Progress::deny(Rejection::Upstream),
        },
        _ => Progress::deny(Rejection::Upstream),
    }
}

/// One step of a logout. The refresh token is verified and the clock read at
/// every step; whatever they say, the step is the one [`logout_step`]
/// describes for them, and what the verifier hands on is the reading of this
/// refresh token.
pub fn logout(
    access: &Option<String>,
    form: &RefreshToken,
    at: &Progress,
    reply: &Reply,
    jwt: &JWT,
) -> (next: (Progress, Step))
    ensures
        exists|decoded: Option<DecodedClaims>, now: i64|
            is_reading(form.token@, jwt, decoded) && 0 <= now && (
            next.0@,
            next.1@,
        ) == #[trigger] logout_step(
                option_view(*access),
                form.token@,
                at@,
                reply@,
                claims_of(decoded),
                now,
            ),
{
    let decoded = Claims::decode(form.token.as_str(), jwt);
    let ghost answer = choose|answer: Option<DecodedClaims>|
        is_reading(form.token@, jwt, answer) && claims_view(decoded) == #[trigger] claims_of(
            answer,
        );
    let now = unix_now();
    let next = logout_at(access, form, at, reply, &decoded, now);
    assert(is_reading(form.token@, jwt, answer) && 0 <= now && (next.0@, next.1@) == logout_step(
        option_view(*access),
        form.token@,
        at@,
        reply@,
        claims_of(answer),
        now,
    ));
    next
}

} // verus!
