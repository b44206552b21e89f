//! The pending one-time code of an email address.
use crate::clock::{naive_datetime_seconds, parse_datetime};
use crate::db::{column_text, text_at, values_view, Value, ValueView};
use crate::text::str_eq;
use crate::validation::{broken_rule, email_ok, email_shape_ok, note, Violation};
use vstd::prelude::*;
use vstd::string::*;

verus! {

/// Seconds a one-time code stays valid after it was stored (5 minutes).
pub const OTP_WINDOW: i64 = 300;

/// How the database writes the time a code was stored.
pub open spec fn stamp_format() -> Seq<char> {
    "%Y-%m-%d %H:%M:%S"@
}

/// The pending code of one email address, and when it was stored (seconds
/// since the epoch, UTC).
#[derive(Debug, Clone, PartialEq, Eq)]
pub struct Otp {
    pub email: String,
    pub otp: String,
    pub created_at: i64,
}

/// The mathematical value of an [`Otp`].
pub struct OtpView {
    pub email: Seq<char>,
    pub otp: Seq<char>,
    pub created_at: i64,
}

impl View for Otp {
    type V = OtpView;

    open spec fn view(&self) -> OtpView {
        OtpView { email: self.email@, otp: self.otp@, created_at: self.created_at }
    }
}

/// Why a row is no stored code.
#[derive(Debug, Clone, Copy, PartialEq, Eq, Structural)]
pub enum RowError {
    /// The email column is missing or holds no text.
    Email,
    /// The code column is missing or holds no text.
    Code,
    /// The time column is missing or holds no text.
    Time,
    /// The time column does not read as `YYYY-MM-DD HH:MM:SS`.
    TimeFormat,
}

/// The stored code that a row of the code table holds: email, code and time,
/// in that order.
pub open spec fn otp_of_row(row: Seq<ValueView>) -> Result<OtpView, RowError> {
    match text_at(row, 0) {
        None => Err(RowError::Email),
        Some(email) => match text_at(row, 1) {
            None => Err(RowError::Code),
            Some(otp) => match text_at(row, 2) {
                None => Err(RowError::Time),
                Some(stamp) => match naive_datetime_seconds(stamp, stamp_format()) {
                    None => Err(RowError::TimeFormat),
                    Some(created_at) => Ok(OtpView { email, otp, created_at }),
                },
            },
        },
    }
}

/// The view of a row's reading.
pub open spec fn otp_result_view(r: Result<Otp, RowError>) -> Result<OtpView, RowError> {
    match r {
        Ok(o) => Ok(o@),
        Err(e) => Err(e),
    }
}

/// Whether the stored code admits a submission of `email` and `code` at
/// `now`: the code and the email are the stored ones, and fewer than five
/// minutes have passed since the code was stored.
pub open spec fn otp_accepts(stored: OtpView, email: Seq<char>, code: Seq<char>, now: i64) -> bool {
    stored.otp == code && stored.email == email && stored.created_at + OTP_WINDOW > now
}

/// The format rules a stored code breaks.
pub open spec fn otp_violations(stored: OtpView) -> Seq<Violation> {
    broken_rule(!email_shape_ok(stored.email), Violation::InvalidEmail) + broken_rule(
        stored.otp.len() != 6,
        Violation::OtpLength,
    )
}

impl Otp {
    /// The format rules this stored code breaks: the email must be an email
    /// address, the code must have exactly 6 characters.
    pub fn validate(&self) -> (found: Vec<Violation>)
        ensures
            found@ == otp_violations(self@),
    {
        let mut found: Vec<Violation> = Vec::new();
        note(&mut found, !email_ok(self.email.as_str()), Violation::InvalidEmail);
        note(&mut found, self.otp.as_str().unicode_len() != 6, Violation::OtpLength);
        found
    }

    /// Reads a row of the code table.
    pub fn try_from(row: &Vec<Value>) -> (stored: Result<Otp, RowError>)
        ensures
            otp_result_view(stored) == otp_of_row(values_view(row@)),
    {
        let email = match column_text(row, 0) {
            Some(t) => t,
            None => {
                return Err(RowError::Email);
            },
        };
        let otp = match column_text(row, 1) {
            Some(t) => t,
            None => {
                return Err(RowError::Code);
            },
        };
        let stamp = match column_text(row, 2) {
            Some(t) => t,
            None => {
                return Err(RowError::Time);
            },
        };
        match parse_datetime(stamp.as_str(), "%Y-%m-%d %H:%M:%S") {
            None => Err(RowError::TimeFormat),
            Some(created_at) => Ok(Otp { email, otp, created_at }),
        }
    }

    /// Whether this stored code admits a submission of `email` and `code`
    /// at `now`.
    pub fn accepts(&self, email: &str, code: &str, now: i64) -> (yes: bool)
        ensures
            yes == otp_accepts(self@, email@, code@, now),
    {
        str_eq(self.otp.as_str(), code) && str_eq(self.email.as_str(), email) && (
        self.created_at as i128) + (OTP_WINDOW as i128) > (now as i128)
    }
}

/// A submission is admitted exactly when the code matches, the email matches
/// and the code is less than five minutes old. A wrong code and an expired
/// code are turned down alike: in both cases the answer is plainly `false`.
pub proof fn lemma_otp_admitted_iff(stored: OtpView, email: Seq<char>, code: Seq<char>, now: i64)
    ensures
        otp_accepts(stored, email, code, now) <==> (code == stored.otp && email == stored.email
            && now - stored.created_at < 300),
        code != stored.otp ==> !otp_accepts(stored, email, code, now),
        now - stored.created_at >= 300 ==> !otp_accepts(stored, email, code, now),
{
}

} // verus!
