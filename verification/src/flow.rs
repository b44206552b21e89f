//! The vocabulary of the account flows. A flow never touches the database
//! itself: it is handed the answer to its last request and says what to do
//! next, which is either another request or the response to the caller.
use crate::auth::token::{TokenPair, TokenPairView};
use crate::db::{Request, RequestView};
use crate::email::{Email, EmailView};
use crate::validation::Violation;
use vstd::prelude::*;

verus! {

/// The classes of failure.
#[derive(Debug, Clone, Copy, PartialEq, Eq, Structural)]
pub enum ErrorKind {
    /// Malformed input; the caller can mend it.
    Validation,
    /// The email or username is taken.
    Conflict,
    /// Bad credentials, or a bad, expired, wrong-kind or revoked token.
    Authentication,
    /// The database or the signer failed.
    Upstream,
}

/// The reasons a flow turns a caller down, each with a fixed text.
#[derive(Debug, Clone, Copy, PartialEq, Eq, Structural)]
pub enum Rejection {
    /// The username holds a space, `@` or `/`.
    UsernameCharacters,
    /// The email does not belong to the campus domain.
    ForeignEmail,
    /// A user with this email exists.
    EmailTaken,
    /// The one-time code is wrong, expired or unknown.
    InvalidOtp,
    /// No user has this username.
    UserNotFound,
    /// The password does not match.
    InvalidCredentials,
    /// The request carries no token.
    TokenMissing,
    /// The bearer token does not verify.
    InvalidToken,
    /// The token in the request body does not verify.
    InvalidBodyToken,
    /// A refresh token is needed here.
    UseRefreshToken,
    /// An access token is needed here.
    UseAccessToken,
    /// The token is revoked or has run out.
    TokenBlacklisted,
    /// Registration failed upstream.
    RegistrationFailed,
    /// Storing the one-time code failed upstream.
    OtpFailed,
    /// Login failed upstream.
    LoginFailed,
    /// Something failed upstream.
    Upstream,
    /// The database could not be reached.
    UpstreamGateway,
}

/// The class of each rejection.
pub open spec fn rejection_kind(r: Rejection) -> ErrorKind {
    match r {
        Rejection::UsernameCharacters | Rejection::ForeignEmail | Rejection::InvalidOtp =>
            ErrorKind::Validation,
        Rejection::EmailTaken => ErrorKind::Conflict,
        Rejection::UserNotFound
        | Rejection::InvalidCredentials
        | Rejection::TokenMissing
        | Rejection::InvalidToken
        | Rejection::InvalidBodyToken
        | Rejection::UseRefreshToken
        | Rejection::UseAccessToken
        | Rejection::TokenBlacklisted => ErrorKind::Authentication,
        Rejection::RegistrationFailed
        | Rejection::OtpFailed
        | Rejection::LoginFailed
        | Rejection::Upstream
        | Rejection::UpstreamGateway => ErrorKind::Upstream,
    }
}

/// The HTTP status of each rejection.
pub open spec fn rejection_status(r: Rejection) -> u16 {
    match rejection_kind(r) {
        ErrorKind::Validation | ErrorKind::Conflict => 400,
        ErrorKind::Authentication => 401,
        ErrorKind::Upstream => if r == Rejection::UpstreamGateway {
            502
        } else {
            500
        },
    }
}

/// The text of each rejection.
pub open spec fn rejection_text(r: Rejection) -> Seq<char> {
    match r {
        Rejection::UsernameCharacters => "Username cannot contain spaces or @"@,
        Rejection::ForeignEmail => "Only DCRUSTM email addresses are allowed"@,
        Rejection::EmailTaken => "User with this email already exists"@,
        Rejection::InvalidOtp => "Invalid OTP"@,
        Rejection::UserNotFound => "User not found"@,
        Rejection::InvalidCredentials => "Invalid credentials"@,
        Rejection::TokenMissing => "Token not found"@,
        Rejection::InvalidToken => "Invalid Token"@,
        Rejection::InvalidBodyToken => "Invalid Token in body"@,
        Rejection::UseRefreshToken => "Use Refresh token"@,
        Rejection::UseAccessToken => "Use Access token"@,
        Rejection::TokenBlacklisted => "Token is blacklisted"@,
        Rejection::RegistrationFailed => "Failed to register user. Please try again."@,
        Rejection::OtpFailed => "Failed to send OTP. Please try again."@,
        Rejection::LoginFailed => "Failed to login user. Please try again."@,
        Rejection::Upstream | Rejection::UpstreamGateway => "Something went wrong"@,
    }
}

impl Rejection {
    /// The class this rejection belongs to.
    pub fn kind(&self) -> (kind: ErrorKind)
        ensures
            kind == rejection_kind(*self),
    {
        match self {
            Rejection::UsernameCharacters | Rejection::ForeignEmail | Rejection::InvalidOtp =>
                ErrorKind::Validation,
            Rejection::EmailTaken => ErrorKind::Conflict,
            Rejection::UserNotFound
            | Rejection::InvalidCredentials
            | Rejection::TokenMissing
            | Rejection::InvalidToken
            | Rejection::InvalidBodyToken
            | Rejection::UseRefreshToken
            | Rejection::UseAccessToken
            | Rejection::TokenBlacklisted => ErrorKind::Authentication,
            Rejection::RegistrationFailed
            | Rejection::OtpFailed
            | Rejection::LoginFailed
            | Rejection::Upstream
            | Rejection::UpstreamGateway => ErrorKind::Upstream,
        }
    }

    /// The HTTP status to answer with.
    pub fn status(&self) -> (status: u16)
        ensures
            status == rejection_status(*self),
    {
        match self.kind() {
            ErrorKind::Validation | ErrorKind::Conflict => 400,
            ErrorKind::Authentication => 401,
            ErrorKind::Upstream => match self {
                Rejection::UpstreamGateway => 502,
                _ => 500,
            },
        }
    }

    /// The text to answer with.
    pub fn message(&self) -> (text: String)
        ensures
            text@ == rejection_text(*self),
    {
        match self {
            Rejection::UsernameCharacters => "Username cannot contain spaces or @".to_string(),
            Rejection::ForeignEmail => "Only DCRUSTM email addresses are allowed".to_string(),
            Rejection::EmailTaken => "User with this email already exists".to_string(),
            Rejection::InvalidOtp => "Invalid OTP".to_string(),
            Rejection::UserNotFound => "User not found".to_string(),
            Rejection::InvalidCredentials => "Invalid credentials".to_string(),
            Rejection::TokenMissing => "Token not found".to_string(),
            Rejection::InvalidToken => "Invalid Token".to_string(),
            Rejection::InvalidBodyToken => "Invalid Token in body".to_string(),
            Rejection::UseRefreshToken => "Use Refresh token".to_string(),
            Rejection::UseAccessToken => "Use Access token".to_string(),
            Rejection::TokenBlacklisted => "Token is blacklisted".to_string(),
            Rejection::RegistrationFailed => "Failed to register user. Please try again.".to_string(),
            Rejection::OtpFailed => "Failed to send OTP. Please try again.".to_string(),
            Rejection::LoginFailed => "Failed to login user. Please try again.".to_string(),
            Rejection::Upstream | Rejection::UpstreamGateway => "Something went wrong".to_string(),
        }
    }
}

/// What a registered user is told about their account. The password hash is
/// no part of it.
#[derive(Debug, Clone, PartialEq, Eq)]
pub struct PublicUser {
    pub id: String,
    pub email: String,
    pub username: String,
    pub first_name: String,
    pub last_name: String,
    pub roll: String,
    pub dob: String,
}

/// The mathematical value of a [`PublicUser`].
pub struct PublicUserView {
    pub id: Seq<char>,
    pub email: Seq<char>,
    pub username: Seq<char>,
    pub first_name: Seq<char>,
    pub last_name: Seq<char>,
    pub roll: Seq<char>,
    pub dob: Seq<char>,
}

impl View for PublicUser {
    type V = PublicUserView;

    open spec fn view(&self) -> PublicUserView {
        PublicUserView {
            id: self.id@,
            email: self.email@,
            username: self.username@,
            first_name: self.first_name@,
            last_name: self.last_name@,
            roll: self.roll@,
            dob: self.dob@,
        }
    }
}

/// What a flow answers the caller.
#[derive(Debug, Clone, PartialEq, Eq)]
pub enum Response {
    /// 201: the account was created, inactive.
    Registered(PublicUser),
    /// 200: the code is stored; the mail is to be sent in the background,
    /// and whether it arrives does not change the response.
    OtpSent(Email),
    /// 200: a fresh token pair.
    Tokens(TokenPair),
    /// 200: both tokens of the session are revoked.
    LoggedOut,
    /// 400: the format rules that the input breaks.
    Invalid(Vec<Violation>),
    /// The caller is turned down.
    Rejected(Rejection),
}

/// The mathematical value of a [`Response`].
pub enum ResponseView {
    Registered(PublicUserView),
    OtpSent(EmailView),
    Tokens(TokenPairView),
    LoggedOut,
    Invalid(Seq<Violation>),
    Rejected(Rejection),
}

impl View for Response {
    type V = ResponseView;

    open spec fn view(&self) -> ResponseView {
        match self {
            Response::Registered(u) => ResponseView::Registered(u@),
            Response::OtpSent(m) => ResponseView::OtpSent(m@),
            Response::Tokens(p) => ResponseView::Tokens(p@),
            Response::LoggedOut => ResponseView::LoggedOut,
            Response::Invalid(v) => ResponseView::Invalid(v@),
            Response::Rejected(r) => ResponseView::Rejected(*r),
        }
    }
}

/// The HTTP status of each response.
pub open spec fn response_status(r: ResponseView) -> u16 {
    match r {
        ResponseView::Registered(_) => 201,
        ResponseView::OtpSent(_) | ResponseView::Tokens(_) | ResponseView::LoggedOut => 200,
        ResponseView::Invalid(_) => 400,
        ResponseView::Rejected(why) => rejection_status(why),
    }
}

impl Response {
    /// The HTTP status to answer with.
    pub fn status(&self) -> (status: u16)
        ensures
            status == response_status(self@),
    {
        match self {
            Response::Registered(_) => 201,
            Response::OtpSent(_) | Response::Tokens(_) | Response::LoggedOut => 200,
            Response::Invalid(_) => 400,
            Response::Rejected(why) => why.status(),
        }
    }

    /// Whether the caller got what they asked for.
    pub fn is_success(&self) -> (yes: bool)
        ensures
            yes == (response_status(self@) < 300),
    {
        match self {
            Response::Invalid(_) => false,
            Response::Rejected(_) => false,
            _ => true,
        }
    }
}

/// Where a flow stands between two answers of the database.
#[derive(Debug, Clone, Copy, PartialEq, Eq, Structural)]
pub enum Stage {
    /// Nothing was asked yet.
    Start,
    /// Registration asked whether the email is taken.
    Lookup,
    /// Registration asked to store the user.
    Insert,
    /// Sending a code asked to store it.
    Upsert,
    /// Verification asked for the stored code.
    Challenge,
    /// Verification asked to mark the user active.
    Activation,
    /// Verification asked for the user's id.
    Identity,
    /// Login asked for the stored credentials.
    Credentials,
    /// A token flow asked whether the token is revoked.
    Revocation,
    /// A token flow asked to revoke the refresh token.
    RevokeRefresh,
    /// Logout asked to revoke the access token.
    RevokeAccess,
    /// The response was given.
    Finished,
}

/// The state of a flow: its stage, and the one text it carries from one
/// stage to the next (the new id, the code, the subject).
#[derive(Debug, Clone, PartialEq, Eq)]
pub struct Progress {
    pub stage: Stage,
    pub note: Option<String>,
}

/// The mathematical value of a [`Progress`].
pub struct ProgressView {
    pub stage: Stage,
    pub note: Option<Seq<char>>,
}

impl View for Progress {
    type V = ProgressView;

    open spec fn view(&self) -> ProgressView {
        ProgressView {
            stage: self.stage,
            note: crate::text::option_view(self.note),
        }
    }
}

/// What a flow wants next.
#[derive(Debug, Clone, PartialEq, Eq)]
pub enum Step {
    /// Run this request and come back with the database's answer.
    Ask(Request),
    /// Answer the caller; the flow is over.
    Reply(Response),
}

/// The mathematical value of a [`Step`].
pub enum StepView {
    Ask(RequestView),
    Reply(ResponseView),
}

impl View for Step {
    type V = StepView;

    open spec fn view(&self) -> StepView {
        match self {
            Step::Ask(r) => StepView::Ask(r@),
            Step::Reply(r) => StepView::Reply(r@),
        }
    }
}

/// The state of a flow that has not begun.
pub open spec fn begin() -> ProgressView {
    ProgressView { stage: Stage::Start, note: None }
}

/// The flow moves to `stage` and asks `request`.
pub open spec fn go(stage: Stage, request: RequestView) -> (ProgressView, StepView) {
    (ProgressView { stage, note: None }, StepView::Ask(request))
}

/// The flow moves to `stage`, carrying `note`, and asks `request`.
pub open spec fn carry(stage: Stage, note: Seq<char>, request: RequestView) -> (
    ProgressView,
    StepView,
) {
    (ProgressView { stage, note: Some(note) }, StepView::Ask(request))
}

/// The flow ends with `response`.
pub open spec fn end(response: ResponseView) -> (ProgressView, StepView) {
    (ProgressView { stage: Stage::Finished, note: None }, StepView::Reply(response))
}

/// The flow ends by turning the caller down.
pub open spec fn deny(why: Rejection) -> (ProgressView, StepView) {
    end(ResponseView::Rejected(why))
}

impl Progress {
    /// The state of a flow that has not begun.
    pub fn start() -> (progress: Progress)
        ensures
            progress@ == begin(),
    {
        Progress { stage: Stage::Start, note: None }
    }

    /// Whether the flow has given its response.
    pub fn is_finished(&self) -> (yes: bool)
        ensures
            yes == (self@.stage == Stage::Finished),
    {
        match self.stage {
            Stage::Finished => true,
            _ => false,
        }
    }

    pub(crate) fn go(stage: Stage, request: Request) -> (next: (Progress, Step))
        ensures
            (next.0@, next.1@) == go(stage, request@),
    {
        (Progress { stage, note: None }, Step::Ask(request))
    }

    pub(crate) fn carry(stage: Stage, note: String, request: Request) -> (next: (Progress, Step))
        ensures
            (next.0@, next.1@) == carry(stage, note@, request@),
    {
        (Progress { stage, note: Some(note) }, Step::Ask(request))
    }

    pub(crate) fn end(response: Response) -> (next: (Progress, Step))
        ensures
            (next.0@, next.1@) == end(response@),
    {
        (Progress { stage: Stage::Finished, note: None }, Step::Reply(response))
    }

    pub(crate) fn deny(why: Rejection) -> (next: (Progress, Step))
        ensures
            (next.0@, next.1@) == deny(why),
    {
        Self::end(Response::Rejected(why))
    }
}

} // verus!
