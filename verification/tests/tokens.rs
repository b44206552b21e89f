use oncampus::auth::token::{Claims, DecodedClaims, KeyError, TokenError, TokenPair, JWT};


fn pems(bits: u32) -> (Vec<u8>, Vec<u8>) {
    let pair = openssl::rsa::Rsa::generate(bits).expect("a key pair");
    (
        pair.private_key_to_pem().expect("the private half"),
        pair.public_key_to_pem().expect("the public half"),
    )
}

fn keys() -> JWT {
    let (private, public) = pems(2048);
    JWT::init(private, public).ok().expect("the key pair is accepted")
}

fn now() -> i64 {
    chrono::Utc::now().timestamp()
}

#[test]
fn init_refuses_a_bad_private_key() {
    let (_, public) = pems(2048);
    let keys = JWT::init(b"no key".to_vec(), public);
    assert!(matches!(keys, Err(KeyError::Private)));
}

#[test]
fn init_refuses_a_bad_public_key() {
    let (private, _) = pems(2048);
    let keys = JWT::init(private, b"no key".to_vec());
    assert!(matches!(keys, Err(KeyError::Public)));
}

#[test]
fn init_looks_at_the_private_key_first() {
    let keys = JWT::init(b"no key".to_vec(), b"no key either".to_vec());
    assert!(matches!(keys, Err(KeyError::Private)));
}

#[test]
fn new_claims_are_refresh_claims_without_expiry() {
    let claims = Claims::new("user-1".to_string());
    assert_eq!(claims.sub, "user-1");
    assert_eq!(claims.token, "refresh");
    assert_eq!(claims.exp, 0);
    assert!(claims.is_refresh());
    assert!(!claims.is_access());
}

#[test]
fn access_token_expires_a_day_after_issue() {
    let keys = keys();
    let mut claims = Claims::new("user-1".to_string());
    let token = claims.get_access_at(&keys, 1_700_000_000).ok().expect("signed");
    assert_eq!(claims.token, "access");
    assert_eq!(claims.exp, 1_700_086_400);
    assert_eq!(claims.sub, "user-1");
    assert_eq!(token.split('.').count(), 3);
}

#[test]
fn refresh_token_expires_a_week_after_issue() {
    let keys = keys();
    let mut claims = Claims::new("user-1".to_string());
    let token = claims.get_refresh_at(&keys, 1_700_000_000).ok().expect("signed");
    assert_eq!(claims.token, "refresh");
    assert_eq!(claims.exp, 1_700_604_800);
    assert_eq!(token.split('.').count(), 3);
}

#[test]
fn a_time_before_the_epoch_gives_no_token() {
    let keys = keys();
    let mut claims = Claims::new("user-1".to_string());
    let token = claims.get_access_at(&keys, -1);
    assert!(matches!(token, Err(TokenError::Expiry)));
    assert_eq!(claims.token, "refresh");
    assert_eq!(claims.exp, 0);
}

#[test]
fn signing_is_a_function_of_claims_and_key() {
    let keys = keys();
    let mut one = Claims::new("user-1".to_string());
    let mut two = Claims::new("user-1".to_string());
    let a = one.get_access_at(&keys, 1_700_000_000).ok().expect("signed");
    let b = two.get_access_at(&keys, 1_700_000_000).ok().expect("signed");
    assert_eq!(a, b);
    let c = two.get_access_at(&keys, 1_700_000_001).ok().expect("signed");
    assert_ne!(a, c);
}

#[test]
fn a_token_reads_back_as_its_claims() {
    let keys = keys();
    let at = now();
    let mut claims = Claims::new("user-7".to_string());
    let token = claims.get_access_at(&keys, at).ok().expect("signed");
    let read = Claims::decode(&token, &keys).ok().expect("verifies");
    assert_eq!(read.sub, "user-7");
    assert_eq!(read.token, "access");
    assert_eq!(read.exp as i64, at + 86_400);
    assert!(read.is_access());
}

#[test]
fn the_clock_driven_issuers_agree_with_the_clock() {
    let keys = keys();
    let before = now();
    let mut claims = Claims::new("user-7".to_string());
    let access = claims.get_access(&keys).ok().expect("signed");
    let access_exp = claims.exp as i64;
    let refresh = claims.get_refresh(&keys).ok().expect("signed");
    let refresh_exp = claims.exp as i64;
    let after = now();
    assert!(before + 86_400 <= access_exp && access_exp <= after + 86_400);
    assert!(before + 604_800 <= refresh_exp && refresh_exp <= after + 604_800);
    assert!(Claims::decode(&access, &keys).ok().expect("verifies").is_access());
    assert!(Claims::decode(&refresh, &keys).ok().expect("verifies").is_refresh());
}

#[test]
fn an_expired_token_does_not_verify() {
    let keys = keys();
    let mut claims = Claims::new("user-7".to_string());
    let token = claims.get_access_at(&keys, now() - 86_400 - 3_600).ok().expect("signed");
    assert!(matches!(Claims::decode(&token, &keys), Err(TokenError::Invalid)));
}

#[test]
fn a_token_does_not_verify_under_another_key() {
    let (private, public) = pems(2048);
    let (_, other_public) = pems(2048);
    let keys = JWT::init(private.clone(), public).ok().expect("accepted");
    let other = JWT::init(private, other_public).ok().expect("accepted");
    let mut claims = Claims::new("user-7".to_string());
    let token = claims.get_access_at(&keys, now()).ok().expect("signed");
    assert!(matches!(Claims::decode(&token, &other), Err(TokenError::Invalid)));
}

#[test]
fn a_tampered_token_does_not_verify() {
    let keys = keys();
    let mut claims = Claims::new("user-7".to_string());
    let token = claims.get_access_at(&keys, now()).ok().expect("signed");
    let mut parts: Vec<String> = token.split('.').map(|p| p.to_string()).collect();
    parts[1] = parts[1].replacen(|c: char| c != 'A', "A", 1);
    let forged = parts.join(".");
    assert_ne!(forged, token);
    assert!(matches!(Claims::decode(&forged, &keys), Err(TokenError::Invalid)));
    assert!(matches!(Claims::decode("not.a.token", &keys), Err(TokenError::Invalid)));
    assert!(matches!(Claims::decode("", &keys), Err(TokenError::Invalid)));
}

#[test]
fn decoded_claims_need_all_three_fields() {
    let full = DecodedClaims {
        sub: Some("u".to_string()),
        kind: Some("access".to_string()),
        exp: Some(10),
    };
    let claims = Claims::from_decoded(Some(full)).ok().expect("complete");
    assert_eq!((claims.sub.as_str(), claims.token.as_str(), claims.exp), ("u", "access", 10));
    let no_sub = DecodedClaims { sub: None, kind: Some("access".to_string()), exp: Some(10) };
    assert!(matches!(Claims::from_decoded(Some(no_sub)), Err(TokenError::Claims)));
    let no_kind = DecodedClaims { sub: Some("u".to_string()), kind: None, exp: Some(10) };
    assert!(matches!(Claims::from_decoded(Some(no_kind)), Err(TokenError::Claims)));
    let no_exp = DecodedClaims { sub: Some("u".to_string()), kind: Some("x".to_string()), exp: None };
    assert!(matches!(Claims::from_decoded(Some(no_exp)), Err(TokenError::Claims)));
    assert!(matches!(Claims::from_decoded(None), Err(TokenError::Invalid)));
}

#[test]
fn expiry_is_held_against_the_given_time() {
    let mut claims = Claims::new("u".to_string());
    claims.exp = 100;
    assert!(!claims.is_expired_at(100));
    assert!(!claims.is_expired_at(99));
    assert!(claims.is_expired_at(101));
    assert!(!claims.is_expired_at(-5));
    assert!(claims.is_expired());
    claims.exp = (now() + 1_000) as usize;
    assert!(!claims.is_expired());
}

#[test]
fn a_pair_holds_an_access_and_a_refresh_token_for_one_subject() {
    let keys = keys();
    let at = now();
    let pair = TokenPair::issue_at(&"user-9".to_string(), &keys, at).ok().expect("issued");
    let access = Claims::decode(&pair.access_token, &keys).ok().expect("verifies");
    let refresh = Claims::decode(&pair.refresh_token, &keys).ok().expect("verifies");
    assert_eq!(access.token, "access");
    assert_eq!(refresh.token, "refresh");
    assert_ne!(access.token, refresh.token);
    assert_eq!(access.exp as i64, at + 24 * 3600);
    assert_eq!(refresh.exp as i64, at + 7 * 24 * 3600);
    assert_eq!(access.sub, "user-9");
    assert_eq!(refresh.sub, "user-9");
    assert_ne!(pair.access_token, pair.refresh_token);
}

#[test]
fn a_pair_from_the_clock_expires_in_a_day_and_in_a_week() {
    let keys = keys();
    let before = now();
    let pair = TokenPair::issue(&"user-9".to_string(), &keys).ok().expect("issued");
    let after = now();
    let access = Claims::decode(&pair.access_token, &keys).ok().expect("verifies");
    let refresh = Claims::decode(&pair.refresh_token, &keys).ok().expect("verifies");
    assert!(before + 86_400 <= access.exp as i64 && access.exp as i64 <= after + 86_400);
    assert!(before + 604_800 <= refresh.exp as i64 && refresh.exp as i64 <= after + 604_800);
}

#[test]
fn a_pair_is_not_issued_before_the_epoch() {
    let keys = keys();
    let pair = TokenPair::issue_at(&"user-9".to_string(), &keys, -10);
    assert!(matches!(pair, Err(TokenError::Expiry)));
}

#[test]
fn a_key_too_short_to_sign_gives_a_signing_error() {
    let (private, public) = pems(1024);
    let small = JWT::init(private, public).ok().expect("the PEM texts hold RSA keys");
    let mut claims = Claims::new("user-1".to_string());
    assert!(matches!(claims.get_access_at(&small, 1_700_000_000), Err(TokenError::Signing)));
    assert_eq!(claims.token, "access");
    assert_eq!(claims.exp, 1_700_086_400);
    assert!(matches!(
        TokenPair::issue_at(&"user-1".to_string(), &small, 1_700_000_000),
        Err(TokenError::Signing)
    ));
}

#[test]
fn init_does_not_tell_the_halves_apart() {
    let (_, public) = pems(2048);
    let swapped = JWT::init(public.clone(), public).ok().expect("two PEM texts with RSA keys");
    let mut claims = Claims::new("user-1".to_string());
    assert!(matches!(claims.get_access_at(&swapped, 1_700_000_000), Err(TokenError::Signing)));
}

#[test]
fn a_reading_is_the_reading_of_the_token_that_was_read() {
    let keys = keys();
    let at = now();
    let one = TokenPair::issue_at(&"user-1".to_string(), &keys, at).ok().expect("issued");
    let two = TokenPair::issue_at(&"user-2".to_string(), &keys, at).ok().expect("issued");
    assert_eq!(Claims::decode(&one.access_token, &keys).ok().expect("verifies").sub, "user-1");
    assert_eq!(Claims::decode(&two.access_token, &keys).ok().expect("verifies").sub, "user-2");
    let again = Claims::decode(&one.access_token, &keys).ok().expect("verifies");
    assert_eq!(again, Claims::decode(&one.access_token, &keys).ok().expect("verifies"));
}
