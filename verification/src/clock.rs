//! Time as whole seconds since the Unix epoch.
use vstd::prelude::*;

verus! {

/// What `chrono::NaiveDateTime::parse_from_str` makes of `text` under
/// `format`, read as UTC and given in seconds since the epoch; `None` where
/// the text does not parse.
pub uninterp spec fn naive_datetime_seconds(text: Seq<char>, format: Seq<char>) -> Option<i64>;

/// `chrono::Utc::now`, as seconds since the epoch. The value is whatever the
/// machine's clock says; `Utc::now` computes it as the time that has passed
/// since the epoch, so it is not negative.
#[verifier::external_body]
pub(crate) fn unix_now() -> (now: i64)
    ensures
        0 <= now,
{
    chrono::Utc::now().timestamp()
}

/// `chrono::NaiveDateTime::parse_from_str`, followed by `and_utc` and
/// `timestamp`. The parse depends on the two texts alone, so the result is
/// the named value.
#[verifier::external_body]
pub(crate) fn parse_datetime(text: &str, format: &str) -> (seconds: Option<i64>)
    ensures
        seconds == naive_datetime_seconds(text@, format@),
{
    match chrono::NaiveDateTime::parse_from_str(text, format) {
        Ok(t) => Some(t.and_utc().timestamp()),
        Err(_) => None,
    }
}

} // verus!
