//! Signed session claims: issuing access and refresh tokens and reading them
//! back.
use crate::clock::unix_now;
use crate::db::{ask, Query, Reply, ReplyView, Request};
use crate::text::{option_view, str_eq};
use vstd::prelude::*;
use vstd::string::*;

verus! {

/// Seconds an access token stays valid after it is issued (24 hours).
pub const ACCESS_TTL: i64 = 86_400;

/// Seconds a refresh token stays valid after it is issued (7 days).
pub const REFRESH_TTL: i64 = 604_800;

/// The kind tag of an access token.
pub open spec fn access_kind() -> Seq<char> {
    "access"@
}

/// The kind tag of a refresh token.
pub open spec fn refresh_kind() -> Seq<char> {
    "refresh"@
}

/// Whether `EncodingKey::from_rsa_pem` of jsonwebtoken accepts `pem`: a PEM
/// text that holds an RSA key. The call does not tell a private key from a
/// public one; a text that holds the wrong half is found out when it is used.
pub uninterp spec fn rsa_signing_pem_ok(pem: Seq<u8>) -> bool;

/// Whether `DecodingKey::from_rsa_pem` of jsonwebtoken accepts `pem`: a PEM
/// text that holds an RSA key, of either half.
pub uninterp spec fn rsa_verifying_pem_ok(pem: Seq<u8>) -> bool;

/// The token that `jsonwebtoken::encode` gives for the claims
/// `{sub, token: kind, exp}` under an RS256 header and the RSA private key in
/// `pem`; `None` where the key is refused or signing fails.
pub uninterp spec fn rs256_token(sub: Seq<char>, kind: Seq<char>, exp: usize, pem: Seq<u8>) -> Option<
    Seq<char>,
>;

/// The three claims `sub`, `token` and `exp` that `jsonwebtoken::decode`
/// hands out for `token` when it accepts it under RS256 and the key in `pem`,
/// each `None` where it is missing or of another JSON type. Whether a token is
/// accepted depends on the clock; what is read from an accepted token depends
/// on the token and the key alone.
pub uninterp spec fn rs256_reading(token: Seq<char>, pem: Seq<u8>) -> Option<
    (Option<Seq<char>>, Option<Seq<char>>, Option<u64>),
>;

/// `EncodingKey::from_rsa_pem`: only whether the key was accepted.
#[verifier::external_body]
fn signing_pem_ok(pem: &[u8]) -> (ok: bool)
    ensures
        ok == rsa_signing_pem_ok(pem@),
{
    jsonwebtoken::EncodingKey::from_rsa_pem(pem).is_ok()
}

/// `DecodingKey::from_rsa_pem`: only whether the key was accepted.
#[verifier::external_body]
fn verifying_pem_ok(pem: &[u8]) -> (ok: bool)
    ensures
        ok == rsa_verifying_pem_ok(pem@),
{
    jsonwebtoken::DecodingKey::from_rsa_pem(pem).is_ok()
}

/// `jsonwebtoken::encode` with an RS256 header, on a JSON object that holds
/// the three claims, under the key that `EncodingKey::from_rsa_pem` reads
/// from `pem`. RS256 pads deterministically, so the token depends on the
/// claims and the key alone: it is the named value.
#[verifier::external_body]
fn sign_rs256(sub: &str, kind: &str, exp: usize, pem: &[u8]) -> (token: Option<String>)
    ensures
        match token {
            Some(t) => rs256_token(sub@, kind@, exp, pem@) == Some(t@),
            None => rs256_token(sub@, kind@, exp, pem@) is None,
        },
{
    let key = jsonwebtoken::EncodingKey::from_rsa_pem(pem).ok()?;
    let mut claims = serde_json::Map::new();
    claims.insert("sub".to_string(), serde_json::Value::from(sub));
    claims.insert("token".to_string(), serde_json::Value::from(kind));
    claims.insert("exp".to_string(), serde_json::Value::from(exp));
    let header = jsonwebtoken::Header::new(jsonwebtoken::Algorithm::RS256);
    jsonwebtoken::encode(&header, &claims, &key).ok()
}

/// `jsonwebtoken::decode` under `Validation::new(Algorithm::RS256)` and the
/// key that `DecodingKey::from_rsa_pem` reads from `pem`. `None` where the key
/// or the token is refused (bad signature, wrong algorithm, expired by the
/// machine's clock, not a JSON object with `exp`). Of an accepted token the
/// three claims are handed out, each `None` where it is missing or of another
/// JSON type. Whether the token is accepted depends on the clock, so no
/// acceptance is promised; what an accepted token reads as is the named
/// value.
#[verifier::external_body]
fn verify_rs256(token: &str, pem: &[u8]) -> (claims: Option<DecodedClaims>)
    ensures
        claims matches Some(c) ==> rs256_reading(token@, pem@) == Some(decoded_view(c)),
{
    let key = jsonwebtoken::DecodingKey::from_rsa_pem(pem).ok()?;
    let rules = jsonwebtoken::Validation::new(jsonwebtoken::Algorithm::RS256);
    let data = jsonwebtoken::decode::<serde_json::Value>(token, &key, &rules).ok()?;
    Some(
        DecodedClaims {
            sub: data.claims["sub"].as_str().map(str::to_owned),
            kind: data.claims["token"].as_str().map(str::to_owned),
            exp: data.claims["exp"].as_u64(),
        },
    )
}

/// Why a token could not be issued or read.
#[derive(Debug, Clone, Copy, PartialEq, Eq, Structural)]
pub enum TokenError {
    /// The expiry does not fit the claims' `exp` field.
    Expiry,
    /// The signing key refused to sign.
    Signing,
    /// The token did not verify: bad signature, wrong algorithm, expired or
    /// malformed.
    Invalid,
    /// The token verified, but a claim is missing or has the wrong type.
    Claims,
}

/// Why it could not be told whether a token is still good.
#[derive(Debug, Clone, Copy, PartialEq, Eq, Structural)]
pub enum ValidityError {
    /// The database did not say whether the token is revoked.
    Store,
    /// The token no longer verifies.
    Token(TokenError),
}

/// Why key material was refused.
#[derive(Debug, Clone, Copy, PartialEq, Eq, Structural)]
pub enum KeyError {
    /// The text for the private half is no PEM text with an RSA key.
    Private,
    /// The text for the public half is no PEM text with an RSA key.
    Public,
}

/// The claims of a verified token as they came out of its JSON payload.
#[derive(Debug, Clone, PartialEq, Eq)]
pub struct DecodedClaims {
    pub sub: Option<String>,
    pub kind: Option<String>,
    pub exp: Option<u64>,
}

/// The three claims of a reading, as texts and a number.
pub open spec fn decoded_view(d: DecodedClaims) -> (
    Option<Seq<char>>,
    Option<Seq<char>>,
    Option<u64>,
) {
    (option_view(d.sub), option_view(d.kind), d.exp)
}

/// The key pair that signs and verifies tokens, each half in PEM form.
pub struct JWT {
    private: Vec<u8>,
    public: Vec<u8>,
}

impl JWT {
    /// The private half, as PEM bytes.
    pub closed spec fn private_pem(&self) -> Seq<u8> {
        self.private@
    }

    /// The public half, as PEM bytes.
    pub closed spec fn public_pem(&self) -> Seq<u8> {
        self.public@
    }

    /// Takes the two PEM texts, and refuses them unless each is a PEM text
    /// that holds an RSA key. The text for the private half is looked at
    /// first. Which half a text holds is not looked at here: with a public
    /// key in place of the private one the pair is accepted, and signing
    /// fails later.
    pub fn init(private: Vec<u8>, public: Vec<u8>) -> (keys: Result<JWT, KeyError>)
        ensures
            !rsa_signing_pem_ok(private@) ==> keys == Err::<JWT, KeyError>(KeyError::Private),
            rsa_signing_pem_ok(private@) && !rsa_verifying_pem_ok(public@) ==> keys == Err::<
                JWT,
                KeyError,
            >(KeyError::Public),
            rsa_signing_pem_ok(private@) && rsa_verifying_pem_ok(public@) ==> keys is Ok
                && keys->Ok_0.private_pem() == private@ && keys->Ok_0.public_pem() == public@,
    {
        if !signing_pem_ok(private.as_slice()) {
            return Err(KeyError::Private);
        }
        if !verifying_pem_ok(public.as_slice()) {
            return Err(KeyError::Public);
        }
        Ok(JWT { private, public })
    }
}

/// The payload of a token: whom it speaks for, which kind it is, and when it
/// expires (seconds since the epoch).
#[derive(Debug, Clone, PartialEq, Eq)]
pub struct Claims {
    pub sub: String,
    pub token: String,
    pub exp: usize,
}

/// The mathematical value of a [`Claims`].
pub struct ClaimsView {
    pub sub: Seq<char>,
    pub token: Seq<char>,
    pub exp: usize,
}

impl View for Claims {
    type V = ClaimsView;

    open spec fn view(&self) -> ClaimsView {
        ClaimsView { sub: self.sub@, token: self.token@, exp: self.exp }
    }
}

/// The expiry of a token issued at `now` that lives `ttl` seconds; `None`
/// where `now` lies before the epoch or the sum does not fit `usize`.
pub open spec fn expiry_after(now: i64, ttl: i64) -> Option<usize> {
    if 0 <= now && 0 <= now + ttl <= usize::MAX {
        Some((now + ttl) as usize)
    } else {
        None
    }
}

/// The access claims for `sub` issued at `now`.
pub open spec fn access_claims(sub: Seq<char>, now: i64) -> Option<ClaimsView> {
    match expiry_after(now, ACCESS_TTL) {
        Some(exp) => Some(ClaimsView { sub, token: access_kind(), exp }),
        None => None,
    }
}

/// The refresh claims for `sub` issued at `now`.
pub open spec fn refresh_claims(sub: Seq<char>, now: i64) -> Option<ClaimsView> {
    match expiry_after(now, REFRESH_TTL) {
        Some(exp) => Some(ClaimsView { sub, token: refresh_kind(), exp }),
        None => None,
    }
}

/// The token that signing `claims` with the private key of `jwt` gives.
pub open spec fn signed(claims: ClaimsView, jwt: &JWT) -> Option<Seq<char>> {
    rs256_token(claims.sub, claims.token, claims.exp, jwt.private_pem())
}

/// What stamping a kind and a lifetime on claims and signing them yields: the
/// claims afterwards, and the token or the reason there is none. Claims whose
/// expiry cannot be represented are left as they were.
pub open spec fn stamped(
    before: ClaimsView,
    kind: Seq<char>,
    ttl: i64,
    jwt: &JWT,
    now: i64,
) -> (ClaimsView, Result<Seq<char>, TokenError>) {
    match expiry_after(now, ttl) {
        None => (before, Err(TokenError::Expiry)),
        Some(exp) => {
            let after = ClaimsView { sub: before.sub, token: kind, exp };
            match signed(after, jwt) {
                Some(t) => (after, Ok(t)),
                None => (after, Err(TokenError::Signing)),
            }
        },
    }
}

/// The view of a token result.
pub open spec fn token_view(r: Result<String, TokenError>) -> Result<Seq<char>, TokenError> {
    match r {
        Ok(t) => Ok(t@),
        Err(e) => Err(e),
    }
}

/// What the claims of a verified token amount to.
pub open spec fn claims_of(decoded: Option<DecodedClaims>) -> Result<ClaimsView, TokenError> {
    match decoded {
        None => Err(TokenError::Invalid),
        Some(d) => match (d.sub, d.kind, d.exp) {
            (Some(sub), Some(kind), Some(exp)) => if exp <= usize::MAX {
                Ok(ClaimsView { sub: sub@, token: kind@, exp: exp as usize })
            } else {
                Err(TokenError::Claims)
            },
            _ => Err(TokenError::Claims),
        },
    }
}

/// Whether `decoded` is what the verifier answers for `token` under the
/// public key of `jwt`: either a refusal, or the reading of this very token.
pub open spec fn is_reading(token: Seq<char>, jwt: &JWT, decoded: Option<DecodedClaims>) -> bool {
    decoded matches Some(d) ==> rs256_reading(token, jwt.public_pem()) == Some(decoded_view(d))
}

/// The view of a claims result.
pub open spec fn claims_view(r: Result<Claims, TokenError>) -> Result<ClaimsView, TokenError> {
    match r {
        Ok(c) => Ok(c@),
        Err(e) => Err(e),
    }
}

/// Whether a token is still good at `now`, given the database's answer to
/// the question whether it is revoked and the verifier's reading of it: a
/// revoked token is not; an unrevoked one is, unless its expiry lies before
/// `now`.
pub open spec fn validity(
    reply: ReplyView,
    decoded: Result<ClaimsView, TokenError>,
    now: i64,
) -> Result<bool, ValidityError> {
    match reply {
        ReplyView::Row(Some(_)) => Ok(false),
        ReplyView::Row(None) => match decoded {
            Err(e) => Err(ValidityError::Token(e)),
            Ok(claims) => Ok(!(claims.exp < now)),
        },
        _ => Err(ValidityError::Store),
    }
}

fn expiry(now: i64, ttl: i64) -> (exp: Option<usize>)
    requires
        0 <= ttl,
    ensures
        exp == expiry_after(now, ttl),
{
    if now < 0 {
        return None;
    }
    let at: u64 = now as u64 + ttl as u64;
    if at <= usize::MAX as u64 {
        Some(at as usize)
    } else {
        None
    }
}

impl Claims {
    /// Fresh claims for the subject `uid`: a refresh kind and no expiry yet.
    pub fn new(uid: String) -> (claims: Self)
        ensures
            claims.sub == uid,
            claims.token@ == refresh_kind(),
            claims.exp == 0,
    {
        Self { sub: uid, token: "refresh".to_string(), exp: 0 }
    }

    /// Whether these are the claims of an access token.
    pub fn is_access(&self) -> (yes: bool)
        ensures
            yes == (self.token@ == access_kind()),
    {
        str_eq(self.token.as_str(), "access")
    }

    /// Whether these are the claims of a refresh token.
    pub fn is_refresh(&self) -> (yes: bool)
        ensures
            yes == (self.token@ == refresh_kind()),
    {
        str_eq(self.token.as_str(), "refresh")
    }

    fn stamp(&mut self, kind: &str, ttl: i64, jwt: &JWT, now: i64) -> (token: Result<
        String,
        TokenError,
    >)
        requires
            0 <= ttl,
        ensures
            (final(self)@, token_view(token)) == stamped(old(self)@, kind@, ttl, jwt, now),
    {
        match expiry(now, ttl) {
            None => Err(TokenError::Expiry),
            Some(exp) => {
                self.exp = exp;
                self.token = kind.to_string();
                match sign_rs256(self.sub.as_str(), kind, exp, jwt.private.as_slice()) {
                    Some(t) => Ok(t),
                    None => Err(TokenError::Signing),
                }
            },
        }
    }

    /// Turns the claims into access claims that expire 24 hours after `now`,
    /// and signs them.
    pub fn get_access_at(&mut self, jwt: &JWT, now: i64) -> (token: Result<String, TokenError>)
        ensures
            (final(self)@, token_view(token)) == stamped(
                old(self)@,
                access_kind(),
                ACCESS_TTL,
                jwt,
                now,
            ),
    {
        self.stamp("access", ACCESS_TTL, jwt, now)
    }

    /// Turns the claims into refresh claims that expire 7 days after `now`,
    /// and signs them.
    pub fn get_refresh_at(&mut self, jwt: &JWT, now: i64) -> (token: Result<String, TokenError>)
        ensures
            (final(self)@, token_view(token)) == stamped(
                old(self)@,
                refresh_kind(),
                REFRESH_TTL,
                jwt,
                now,
            ),
    {
        self.stamp("refresh", REFRESH_TTL, jwt, now)
    }

    /// [`Claims::get_access_at`] at the time the clock shows.
    pub fn get_access(&mut self, jwt: &JWT) -> (token: Result<String, TokenError>)
        ensures
            exists|now: i64|
                0 <= now && (final(self)@, token_view(token)) == #[trigger] stamped(
                    old(self)@,
                    access_kind(),
                    ACCESS_TTL,
                    jwt,
                    now,
                ),
    {
        let now = unix_now();
        self.get_access_at(jwt, now)
    }

    /// [`Claims::get_refresh_at`] at the time the clock shows.
    pub fn get_refresh(&mut self, jwt: &JWT) -> (token: Result<String, TokenError>)
        ensures
            exists|now: i64|
                0 <= now && (final(self)@, token_view(token)) == #[trigger] stamped(
                    old(self)@,
                    refresh_kind(),
                    REFRESH_TTL,
                    jwt,
                    now,
                ),
    {
        let now = unix_now();
        self.get_refresh_at(jwt, now)
    }

    /// The claims that a verified token carried, or why there are none:
    /// `Invalid` where the token did not verify, `Claims` where one of the
    /// three claims is missing, of the wrong type or too large.
    pub fn from_decoded(decoded: Option<DecodedClaims>) -> (claims: Result<Self, TokenError>)
        ensures
            claims_view(claims) == claims_of(decoded),
    {
        match decoded {
            None => Err(TokenError::Invalid),
            Some(d) => match (d.sub, d.kind, d.exp) {
                (Some(sub), Some(kind), Some(exp)) => {
                    if exp <= usize::MAX as u64 {
                        Ok(Claims { sub, token: kind, exp: exp as usize })
                    } else {
                        Err(TokenError::Claims)
                    }
                },
                _ => Err(TokenError::Claims),
            },
        }
    }

    /// Verifies `token` under the public key and the clock, and reads its
    /// claims. Whether a token verifies depends on the clock, so the result
    /// is whatever [`Claims::from_decoded`] makes of the verifier's answer;
    /// an answer that is no refusal is the reading of this token.
    pub fn decode(token: &str, jwt: &JWT) -> (claims: Result<Self, TokenError>)
        ensures
            exists|decoded: Option<DecodedClaims>|
                is_reading(token@, jwt, decoded) && claims_view(claims) == #[trigger] claims_of(
                    decoded,
                ),
    {
        let decoded = verify_rs256(token, jwt.public.as_slice());
        let ghost answer = decoded;
        let claims = Self::from_decoded(decoded);
        assert(is_reading(token@, jwt, answer) && claims_view(claims) == claims_of(answer));
        claims
    }

    /// The greeting for the subject of these claims.
    pub fn greeting(&self) -> (text: String)
        ensures
            text@ == "Welcome "@ + self.sub@,
    {
        let mut text = "Welcome ".to_string();
        text.append(self.sub.as_str());
        text
    }

    /// The request that revokes `token` for good.
    pub fn blacklist(token: &String) -> (request: Request)
        ensures
            request@ == ask(Query::RevokeToken, seq![token@]),
    {
        Request::one(Query::RevokeToken, token)
    }

    /// The request that asks whether `token` is revoked.
    pub fn revoked(token: &String) -> (request: Request)
        ensures
            request@ == ask(Query::RevokedToken, seq![token@]),
    {
        Request::one(Query::RevokedToken, token)
    }

    /// Whether a token is still good at `now`, given the answer to
    /// [`Claims::revoked`] and the verifier's reading of the token.
    pub fn is_valid_at(reply: &Reply, decoded: &Result<Claims, TokenError>, now: i64) -> (good:
        Result<bool, ValidityError>)
        ensures
            good == validity(reply@, claims_view(*decoded), now),
    {
        match reply {
            Reply::Row(Some(_)) => Ok(false),
            Reply::Row(None) => match decoded {
                Err(e) => Err(ValidityError::Token(*e)),
                Ok(claims) => Ok(!claims.is_expired_at(now)),
            },
            _ => Err(ValidityError::Store),
        }
    }

    /// Whether `token` is still good, given the answer to
    /// [`Claims::revoked`]: the token is verified and its expiry held against
    /// the clock.
    pub fn is_valid(token: &str, reply: &Reply, jwt: &JWT) -> (good: Result<bool, ValidityError>)
        ensures
            exists|decoded: Option<DecodedClaims>, now: i64|
                is_reading(token@, jwt, decoded) && 0 <= now && good == #[trigger] validity(
                    reply@,
                    claims_of(decoded),
                    now,
                ),
    {
        let decoded = Self::decode(token, jwt);
        let ghost answer = choose|answer: Option<DecodedClaims>|
            is_reading(token@, jwt, answer) && claims_view(decoded) == #[trigger] claims_of(answer);
        let now = unix_now();
        let good = Self::is_valid_at(reply, &decoded, now);
        assert(is_reading(token@, jwt, answer) && 0 <= now && good == validity(
            reply@,
            claims_of(answer),
            now,
        ));
        good
    }

    /// Whether the expiry lies before `now`.
    pub open spec fn expired_at(&self, now: i64) -> bool {
        self.exp < now
    }

    /// Whether the expiry lies before `now`.
    pub fn is_expired_at(&self, now: i64) -> (expired: bool)
        ensures
            expired == self.expired_at(now),
    {
        now >= 0 && (self.exp as u64) < (now as u64)
    }

    /// Whether the expiry lies before the time the clock shows.
    pub fn is_expired(&self) -> (expired: bool)
        ensures
            exists|now: i64| 0 <= now && expired == #[trigger] self.expired_at(now),
    {
        let now = unix_now();
        self.is_expired_at(now)
    }
}

/// An access token and the refresh token issued with it.
#[derive(Debug, Clone, PartialEq, Eq)]
pub struct TokenPair {
    pub access_token: String,
    pub refresh_token: String,
}

/// The mathematical value of a [`TokenPair`].
pub struct TokenPairView {
    pub access_token: Seq<char>,
    pub refresh_token: Seq<char>,
}

impl View for TokenPair {
    type V = TokenPairView;

    open spec fn view(&self) -> TokenPairView {
        TokenPairView { access_token: self.access_token@, refresh_token: self.refresh_token@ }
    }
}

/// The pair issued for `sub` at `now`: the signed access claims and the
/// signed refresh claims, or the first thing that went wrong, the access
/// token coming first.
pub open spec fn pair_at(sub: Seq<char>, jwt: &JWT, now: i64) -> Result<TokenPairView, TokenError> {
    match access_claims(sub, now) {
        None => Err(TokenError::Expiry),
        Some(ac) => match signed(ac, jwt) {
            None => Err(TokenError::Signing),
            Some(access_token) => match refresh_claims(sub, now) {
                None => Err(TokenError::Expiry),
                Some(rc) => match signed(rc, jwt) {
                    None => Err(TokenError::Signing),
                    Some(refresh_token) => Ok(TokenPairView { access_token, refresh_token }),
                },
            },
        },
    }
}

/// The view of a pair result.
pub open spec fn pair_view(r: Result<TokenPair, TokenError>) -> Result<TokenPairView, TokenError> {
    match r {
        Ok(p) => Ok(p@),
        Err(e) => Err(e),
    }
}

impl TokenPair {
    /// Issues a fresh access and refresh token for the subject `sub`, both
    /// counted from `now`.
    pub fn issue_at(sub: &String, jwt: &JWT, now: i64) -> (pair: Result<TokenPair, TokenError>)
        ensures
            pair_view(pair) == pair_at(sub@, jwt, now),
    {
        let mut claims = Claims::new(sub.clone());
        let access_token = match claims.get_access_at(jwt, now) {
            Ok(t) => t,
            Err(e) => {
                return Err(e);
            },
        };
        let refresh_token = match claims.get_refresh_at(jwt, now) {
            Ok(t) => t,
            Err(e) => {
                return Err(e);
            },
        };
        Ok(TokenPair { access_token, refresh_token })
    }

    /// [`TokenPair::issue_at`] at the time the clock shows.
    pub fn issue(sub: &String, jwt: &JWT) -> (pair: Result<TokenPair, TokenError>)
        ensures
            exists|now: i64| 0 <= now && pair_view(pair) == #[trigger] pair_at(sub@, jwt, now),
    {
        let now = unix_now();
        Self::issue_at(sub, jwt, now)
    }
}

/// The two tokens of one pair differ in kind and in expiry: the access token
/// expires 24 hours after it was issued, the refresh token 7 days after, and
/// both speak for the same subject.
pub proof fn lemma_pair_kinds_and_expiries_differ(sub: Seq<char>, now: i64)
    requires
        access_claims(sub, now) is Some,
        refresh_claims(sub, now) is Some,
    ensures
        access_claims(sub, now)->0.token != refresh_claims(sub, now)->0.token,
        access_claims(sub, now)->0.token == access_kind(),
        refresh_claims(sub, now)->0.token == refresh_kind(),
        access_claims(sub, now)->0.exp == now + 86_400,
        refresh_claims(sub, now)->0.exp == now + 604_800,
        access_claims(sub, now)->0.exp < refresh_claims(sub, now)->0.exp,
        access_claims(sub, now)->0.sub == sub,
        refresh_claims(sub, now)->0.sub == sub,
{
    reveal_strlit("access");
    reveal_strlit("refresh");
    assert(access_kind().len() == 6);
}

/// The tokens of an issued pair are the signed access claims and the signed
/// refresh claims of the same subject and the same moment.
pub proof fn lemma_pair_signs_both_claims(sub: Seq<char>, jwt: &JWT, now: i64)
    requires
        pair_at(sub, jwt, now) is Ok,
    ensures
        access_claims(sub, now) is Some,
        refresh_claims(sub, now) is Some,
        signed(access_claims(sub, now)->0, jwt) == Some(pair_at(sub, jwt, now)->Ok_0.access_token),
        signed(refresh_claims(sub, now)->0, jwt) == Some(
            pair_at(sub, jwt, now)->Ok_0.refresh_token,
        ),
{
}

} // verus!
