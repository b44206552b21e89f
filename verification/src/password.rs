//! Password hashing. Only hashes are ever stored or compared.
use vstd::prelude::*;

verus! {

/// What `bcrypt::verify` says of `password` against `hash`: whether they
/// match, or `None` where `hash` is no bcrypt hash.
pub uninterp spec fn bcrypt_verdict(password: Seq<char>, hash: Seq<char>) -> Option<bool>;

/// `bcrypt::hash` at bcrypt's default cost. The salt is random, so the hash
/// differs from call to call; whatever it is, `bcrypt::verify` accepts the
/// same password against it, since it reads cost and salt back from the hash
/// and repeats the computation. `None` where the machine gives no randomness.
#[verifier::external_body]
pub(crate) fn hash_password(password: &str) -> (hash: Option<String>)
    ensures
        hash matches Some(h) ==> bcrypt_verdict(password@, h@) == Some(true),
{
    bcrypt::hash(password, bcrypt::DEFAULT_COST).ok()
}

/// `bcrypt::verify`. The answer depends on the two texts alone, so it is the
/// named value.
#[verifier::external_body]
pub(crate) fn verify_password(password: &str, hash: &str) -> (verdict: Option<bool>)
    ensures
        verdict == bcrypt_verdict(password@, hash@),
{
    bcrypt::verify(password, hash).ok()
}

} // verus!
