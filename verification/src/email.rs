//! The mail that carries a one-time code, and the code itself.
use crate::text::push_char;
use vstd::prelude::*;
use vstd::string::*;

verus! {

/// How many characters a one-time code has.
pub const OTP_LENGTH: usize = 6;

/// Whether `b` is an ASCII letter or digit.
pub open spec fn is_alphanumeric(b: u8) -> bool {
    (0x30 <= b <= 0x39) || (0x41 <= b <= 0x5a) || (0x61 <= b <= 0x7a)
}

/// Whether `code` is made of `OTP_LENGTH` ASCII letters and digits.
pub open spec fn is_otp_code(code: Seq<char>) -> bool {
    &&& code.len() == OTP_LENGTH
    &&& forall|i: int| 0 <= i < code.len() ==> is_alphanumeric(#[trigger] code[i] as u8)
    &&& forall|i: int| 0 <= i < code.len() ==> (#[trigger] code[i] as u32) < 128
}

/// One sample of rand's `Alphanumeric` from the thread's generator. The
/// value is random; whatever it is, it is one of `a-z`, `A-Z`, `0-9`.
#[verifier::external_body]
fn random_alphanumeric() -> (b: u8)
    ensures
        is_alphanumeric(b),
{
    rand::Rng::sample(&mut rand::thread_rng(), rand::distributions::Alphanumeric)
}

/// A mail to send: the recipient, the subject line and the text.
#[derive(Debug, Clone, PartialEq, Eq)]
pub struct Email {
    pub to: String,
    pub subject: String,
    pub body: String,
}

/// The mathematical value of an [`Email`].
pub struct EmailView {
    pub to: Seq<char>,
    pub subject: Seq<char>,
    pub body: Seq<char>,
}

impl View for Email {
    type V = EmailView;

    open spec fn view(&self) -> EmailView {
        EmailView { to: self.to@, subject: self.subject@, body: self.body@ }
    }
}

/// The mail that tells `to` their one-time code.
pub open spec fn otp_mail(to: Seq<char>, otp: Seq<char>) -> EmailView {
    EmailView {
        to,
        subject: "OnCampus Email Verification"@,
        body: "The otp for OnCampus is "@ + otp,
    }
}

impl Email {
    /// A fresh one-time code: six random ASCII letters and digits.
    pub fn generate_otp() -> (code: String)
        ensures
            is_otp_code(code@),
    {
        let mut code = String::new();
        let mut i: usize = 0;
        while i < OTP_LENGTH
            invariant
                i <= OTP_LENGTH,
                code@.len() == i,
                forall|k: int| 0 <= k < code@.len() ==> is_alphanumeric(#[trigger] code@[k] as u8),
                forall|k: int| 0 <= k < code@.len() ==> (#[trigger] code@[k] as u32) < 128,
            decreases OTP_LENGTH - i,
        {
            let b = random_alphanumeric();
            push_char(&mut code, b as char);
            i = i + 1;
        }
        code
    }

    /// The mail that tells `to` the code `otp`.
    pub fn new(to: String, otp: &str) -> (mail: Email)
        ensures
            mail@ == otp_mail(to@, otp@),
    {
        let mut body = "The otp for OnCampus is ".to_string();
        body.append(otp);
        Email { to, subject: "OnCampus Email Verification".to_string(), body }
    }
}

} // verus!
