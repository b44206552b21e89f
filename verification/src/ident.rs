//! Fresh ids for the rows this library creates.
use vstd::prelude::*;

verus! {

/// The text of the version 6 UUID that uuid's `Uuid::new_v6` makes from the
/// node id `node` and the timestamp that `Timestamp::from_unix` makes from
/// `seconds`, `nanos` and a fresh `ContextV1::new(seed)`.
pub uninterp spec fn uuid_v6_text(seed: u16, seconds: u64, nanos: u32, node: Seq<u8>) -> Seq<char>;

/// `Uuid::new_v6` on `Timestamp::from_unix` with a fresh `ContextV1::new`,
/// written out in hyphenated form. A fresh context counts from `seed`, so the
/// id depends on the four arguments alone: it is the named value.
#[verifier::external_body]
fn uuid_v6(seed: u16, seconds: u64, nanos: u32, node: &[u8; 6]) -> (id: String)
    ensures
        id@ == uuid_v6_text(seed, seconds, nanos, node@),
{
    let context = uuid::ContextV1::new(seed);
    let stamp = uuid::Timestamp::from_unix(&context, seconds, nanos);
    uuid::Uuid::new_v6(stamp, node).to_string()
}

/// `rand::random` for a `u16`. Nothing is claimed of the value.
#[verifier::external_body]
pub(crate) fn random_seed() -> u16 {
    rand::random()
}

/// The id of a new user whose clock sequence starts at `seed`.
pub open spec fn user_id(seed: u16) -> Seq<char> {
    uuid_v6_text(seed, 1497624119, 1234, seq![1u8, 2u8, 3u8, 4u8, 5u8, 6u8])
}

/// The id of a new user whose clock sequence starts at `seed`.
pub fn new_user_id(seed: u16) -> (id: String)
    ensures
        id@ == user_id(seed),
{
    let node: [u8; 6] = [1, 2, 3, 4, 5, 6];
    uuid_v6(seed, 1497624119, 1234, &node)
}

/// `Uuid::new_v4`, written out in hyphenated form. The id is random; nothing
/// is claimed of it.
#[verifier::external_body]
pub(crate) fn random_id() -> String {
    uuid::Uuid::new_v4().to_string()
}

} // verus!
