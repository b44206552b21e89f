//! The guard before protected routes: a request passes only with an access
//! token that verifies and is not revoked.
use crate::auth::token::{
    access_kind, claims_of, claims_view, is_reading, validity, Claims, ClaimsView,
    DecodedClaims, TokenError, JWT,
};
use crate::clock::unix_now;
use crate::db::{ask, Query, Reply, ReplyView, Request, RequestView};
use crate::flow::{Progress, ProgressView, Rejection, Stage};
use crate::text::{
    chars_of, matches_at, option_view, string_of, trim_bounds, trimmed, without_prefix,
};
use vstd::prelude::*;

verus! {

/// What comes before the token in an `Authorization` header.
pub open spec fn bearer_prefix() -> Seq<char> {
    "Bearer "@
}

/// The token in an `Authorization` header: the header without the spaces
/// around it, without `Bearer ` in front, and without the spaces around what
/// is left.
pub open spec fn bearer_token_of(header: Seq<char>) -> Seq<char> {
    trimmed(without_prefix(trimmed(header), bearer_prefix()))
}

/// The token in an `Authorization` header.
pub fn bearer_token(header: &str) -> (token: String)
    ensures
        token@ == bearer_token_of(header@),
{
    let v = chars_of(header);
    let prefix = chars_of("Bearer ");
    assert(v@.subrange(0, v.len() as int) =~= v@);
    let (a, b) = trim_bounds(&v, 0, v.len());
    let mut from = a;
    if prefix.len() <= b - a {
        let hit = matches_at(&v, a, &prefix);
        assert(v@.skip(a as int).subrange(0, prefix.len() as int) =~= v@.subrange(
            a as int,
            b as int,
        ).subrange(0, prefix.len() as int));
        if hit {
            from = a + prefix.len();
            assert(v@.subrange(a as int, b as int).skip(prefix.len() as int) =~= v@.subrange(
                from as int,
                b as int,
            ));
        }
    }
    let (c, d) = trim_bounds(&v, from, b);
    string_of(&v, c, d)
}

/// What the guard wants next.
#[derive(Debug, Clone, PartialEq, Eq)]
pub enum Verdict {
    /// Run this request and come back with the database's answer.
    Ask(Request),
    /// Turn the request down.
    Deny(Rejection),
    /// Let the request pass, with the claims and the token for the handlers
    /// behind.
    Admit(Claims, String),
}

/// The mathematical value of a [`Verdict`].
pub enum VerdictView {
    Ask(RequestView),
    Deny(Rejection),
    Admit(ClaimsView, Seq<char>),
}

impl View for Verdict {
    type V = VerdictView;

    open spec fn view(&self) -> VerdictView {
        match self {
            Verdict::Ask(r) => VerdictView::Ask(r@),
            Verdict::Deny(why) => VerdictView::Deny(*why),
            Verdict::Admit(claims, token) => VerdictView::Admit(claims@, token@),
        }
    }
}

/// The guard is done, with `verdict`.
pub open spec fn settled(verdict: VerdictView) -> (ProgressView, VerdictView) {
    (ProgressView { stage: Stage::Finished, note: None }, verdict)
}

/// One step of the guard at the time `now`, where `header` is the request's
/// `Authorization` header and `decoded` is the verifier's reading of the
/// token in it at this step.
///
/// Without a header the request is turned down. With a token that does not
/// verify, or that is no access token, it is turned down before the database
/// is asked anything. A token that is revoked, or whose expiry has passed, is
/// turned down as blacklisted. Only a request whose token verifies, is an
/// access token and is not revoked passes, and its claims go with it.
pub open spec fn jwt_step(
    header: Option<Seq<char>>,
    at: ProgressView,
    reply: ReplyView,
    decoded: Result<ClaimsView, TokenError>,
    now: i64,
) -> (ProgressView, VerdictView) {
    match header {
        None => settled(VerdictView::Deny(Rejection::TokenMissing)),
        Some(h) => match at.stage {
            Stage::Start => match decoded {
                Err(_) => settled(VerdictView::Deny(Rejection::InvalidToken)),
                Ok(claims) => if claims.token != access_kind() {
                    settled(VerdictView::Deny(Rejection::UseAccessToken))
                } else {
                    (
                        ProgressView { stage: Stage::Revocation, note: None },
                        VerdictView::Ask(ask(Query::RevokedToken, seq![bearer_token_of(h)])),
                    )
                },
            },
            Stage::Revocation => match (validity(reply, decoded, now), decoded) {
                (Ok(true), Ok(claims)) => settled(VerdictView::Admit(claims, bearer_token_of(h))),
                (Ok(false), _) => settled(VerdictView::Deny(Rejection::TokenBlacklisted)),
                _ => settled(VerdictView::Deny(Rejection::Upstream)),
            },
            _ => settled(VerdictView::Deny(Rejection::Upstream)),
        },
    }
}

fn settle(verdict: Verdict) -> (next: (Progress, Verdict))
    ensures
        (next.0@, next.1@) == settled(verdict@),
{
    (Progress { stage: Stage::Finished, note: None }, verdict)
}

/// One step of the guard, with the verifier's reading of the header's token
/// and the time given.
pub fn jwt_at(
    header: &Option<String>,
    at: &Progress,
    reply: &Reply,
    decoded: Result<Claims, TokenError>,
    now: i64,
) -> (next: (Progress, Verdict))
    ensures
        (next.0@, next.1@) == jwt_step(
            option_view(*header),
            at@,
            reply@,
            claims_view(decoded),
            now,
        ),
{
    let token = match header {
        None => {
            return settle(Verdict::Deny(Rejection::TokenMissing));
        },
        Some(h) => bearer_token(h.as_str()),
    };
    match at.stage {
        Stage::Start => match decoded {
            Err(_) => settle(Verdict::Deny(Rejection::InvalidToken)),
            Ok(claims) => {
                if !claims.is_access() {
                    settle(Verdict::Deny(Rejection::UseAccessToken))
                } else {
                    (
                        Progress { stage: Stage::Revocation, note: None },
                        Verdict::Ask(Claims::revoked(&token)),
                    )
                }
            },
        },
        Stage::Revocation => match (Claims::is_valid_at(reply, &decoded, now), decoded) {
            (Ok(true), Ok(claims)) => settle(Verdict::Admit(claims, token)),
            (Ok(false), _) => settle(Verdict::Deny(Rejection::TokenBlacklisted)),
            _ => settle(Verdict::Deny(Rejection::Upstream)),
        },
        _ => settle(Verdict::Deny(Rejection::Upstream)),
    }
}

/// One step of the guard. The token is taken from the header, verified, and
/// the clock read at every step; whatever verifier and clock say, the step
/// is the one [`jwt_step`] describes for them, and what the verifier hands on
/// is the reading of the token in the header, not of anything else.
pub fn jwt(header: &Option<String>, at: &Progress, reply: &Reply, keys: &JWT) -> (next: (
    Progress,
    Verdict,
))
    ensures
        exists|decoded: Option<DecodedClaims>, now: i64|
            (header matches Some(h) ==> is_reading(bearer_token_of(h@), keys, decoded)) && 0 <= now
                && (next.0@, next.1@) == #[trigger] jwt_step(
                option_view(*header),
                at@,
                reply@,
                claims_of(decoded),
                now,
            ),
{
    let now = unix_now();
    match header {
        None => {
            let next = jwt_at(header, at, reply, Err(TokenError::Invalid), now);
            assert(0 <= now && (next.0@, next.1@) == jwt_step(
                option_view(*header),
                at@,
                reply@,
                claims_of(None),
                now,
            ));
            next
        },
        Some(h) => {
            let token = bearer_token(h.as_str());
            let decoded = Claims::decode(token.as_str(), keys);
            let ghost answer = choose|answer: Option<DecodedClaims>|
                is_reading(token@, keys, answer) && claims_view(decoded) == #[trigger] claims_of(
                    answer,
                );
            let next = jwt_at(header, at, reply, decoded, now);
            assert(is_reading(bearer_token_of(h@), keys, answer) && 0 <= now && (
                next.0@,
                next.1@,
            ) == jwt_step(option_view(*header), at@, reply@, claims_of(answer), now));
            next
        },
    }
}

} // verus!
