use oncampus::auth::token::{Claims, TokenPair, JWT};
use oncampus::auth::{
    login, login_at, logout, refresh_tokens, refresh_tokens_at, register_needs_hash,
    register_user, register_user_at, send_otp, send_otp_at, verify_otp, verify_otp_at,
    Credentials, EmailVerificationForm, OTPVerificationForm, RefreshToken,
};
use oncampus::db::memory::MemoryDb;
use oncampus::db::{column_text, Query, Reply, Request, Value};
use oncampus::flow::{ErrorKind, Progress, Rejection, Response, Stage, Step};
use oncampus::middleware::{jwt, Verdict};
use oncampus::models::user::InsertUser;
use oncampus::session;
use oncampus::validation::Violation;


const NOON: &str = "2025-01-01 12:00:00";
const NOON_SECONDS: i64 = 1_735_732_800;

fn pems(bits: u32) -> (Vec<u8>, Vec<u8>) {
    let pair = openssl::rsa::Rsa::generate(bits).expect("a key pair");
    (
        pair.private_key_to_pem().expect("the private half"),
        pair.public_key_to_pem().expect("the public half"),
    )
}

fn keys() -> JWT {
    let (private, public) = pems(2048);
    JWT::init(private, public).ok().expect("the key pair is accepted")
}

fn run<F: FnMut(&Progress, &Reply) -> (Progress, Step)>(
    db: &mut MemoryDb,
    stamp: &str,
    mut flow: F,
) -> Response {
    let mut at = Progress::start();
    let mut reply = Reply::Nothing;
    for _ in 0..10 {
        let (next, step) = flow(&at, &reply);
        match step {
            Step::Reply(response) => {
                assert!(next.is_finished());
                return response;
            }
            Step::Ask(request) => {
                reply = db.perform(&request, stamp);
                at = next;
            }
        }
    }
    panic!("the flow does not end");
}

fn guard(db: &mut MemoryDb, header: Option<&str>, keys: &JWT) -> Verdict {
    let header = header.map(|h| h.to_string());
    let mut at = Progress::start();
    let mut reply = Reply::Nothing;
    for _ in 0..5 {
        let (next, verdict) = jwt(&header, &at, &reply, keys);
        match verdict {
            Verdict::Ask(request) => {
                reply = db.perform(&request, NOON);
                at = next;
            }
            settled => return settled,
        }
    }
    panic!("the guard does not settle");
}

fn alice() -> InsertUser {
    InsertUser {
        email: "alice@dcrustm.org".to_string(),
        password: "password123".to_string(),
        username: "user_alice".to_string(),
        first_name: "Alice".to_string(),
        last_name: "Liddell".to_string(),
        roll: "21001".to_string(),
        dob: "2003-05-04".to_string(),
    }
}

fn register(db: &mut MemoryDb, form: &InsertUser) -> Response {
    run(db, NOON, |at, reply| register_user(form, at, reply))
}

fn stored_code(db: &mut MemoryDb, email: &str) -> Option<(String, String)> {
    match db.perform(&Request::one(Query::OtpByEmail, &email.to_string()), NOON) {
        Reply::Row(Some(row)) => Some((column_text(&row, 1).unwrap(), column_text(&row, 2).unwrap())),
        Reply::Row(None) => None,
        _ => panic!("the lookup failed"),
    }
}

fn stored_hash(db: &mut MemoryDb, username: &str) -> String {
    match db.perform(&Request::one(Query::CredentialsByUsername, &username.to_string()), NOON) {
        Reply::Row(Some(row)) => column_text(&row, 1).unwrap(),
        _ => panic!("no such user"),
    }
}

fn email_form(email: &str) -> EmailVerificationForm {
    EmailVerificationForm { email: email.to_string() }
}

fn otp_form(email: &str, otp: &str) -> OTPVerificationForm {
    OTPVerificationForm { otp: otp.to_string(), email: email.to_string() }
}

fn credentials(user: &str, password: &str) -> Credentials {
    Credentials { user: user.to_string(), password: password.to_string() }
}

fn rejection(response: &Response) -> Option<Rejection> {
    match response {
        Response::Rejected(why) => Some(*why),
        _ => None,
    }
}

#[test]
fn registration_creates_an_inactive_account_without_showing_the_password() {
    let mut db = MemoryDb::new();
    let form = alice();
    let response = register(&mut db, &form);
    assert_eq!(response.status(), 201);
    match response {
        Response::Registered(user) => {
            assert_eq!(user.email, "alice@dcrustm.org");
            assert_eq!(user.username, "user_alice");
            assert_eq!(user.first_name, "Alice");
            assert_eq!(user.last_name, "Liddell");
            assert_eq!(user.roll, "21001");
            assert_eq!(user.dob, "2003-05-04");
            assert_eq!(user.id.len(), 36);
        }
        _ => panic!("not registered"),
    }
    assert_eq!(db.user_count(), 1);
    assert_eq!(db.is_active("alice@dcrustm.org"), Some(false));
    let hash = stored_hash(&mut db, "user_alice");
    assert_ne!(hash, "password123");
    assert!(!hash.contains("password123"));
    assert!(hash.starts_with("$2b$12$"));
    assert!(bcrypt::verify("password123", &hash).unwrap());
    assert!(!bcrypt::verify("password124", &hash).unwrap());
}

#[test]
fn registration_hashes_only_when_it_stores() {
    let start = Progress::start();
    assert!(!register_needs_hash(&start, &Reply::Nothing));
    let lookup = Progress { stage: Stage::Lookup, note: None };
    assert!(register_needs_hash(&lookup, &Reply::Row(None)));
    assert!(register_needs_hash(&lookup, &Reply::Broken));
    assert!(!register_needs_hash(&lookup, &Reply::Row(Some(vec![]))));
    assert!(!register_needs_hash(&lookup, &Reply::Failed));
}

#[test]
fn registration_with_a_given_draw_stores_the_given_hash_under_the_drawn_id() {
    let form = alice();
    let lookup = Progress { stage: Stage::Lookup, note: None };
    let hashed = Some("the-hash".to_string());
    let (next, step) = register_user_at(&form, &lookup, &Reply::Row(None), 42, &hashed);
    assert_eq!(next.stage, Stage::Insert);
    assert_eq!(next.note.as_deref(), Some("1e752a1f-3b49-658c-802a-010203040506"));
    match step {
        Step::Ask(request) => {
            assert_eq!(request.query, Query::InsertUser);
            let texts: Vec<String> = (0..8).map(|i| column_text(&request.args, i).unwrap()).collect();
            assert_eq!(
                texts,
                vec![
                    "1e752a1f-3b49-658c-802a-010203040506",
                    "alice@dcrustm.org",
                    "the-hash",
                    "user_alice",
                    "Alice",
                    "Liddell",
                    "21001",
                    "2003-05-04"
                ]
            );
        }
        _ => panic!("nothing asked"),
    }
    let (_, failed) = register_user_at(&form, &lookup, &Reply::Row(None), 42, &None);
    assert!(matches!(failed, Step::Reply(Response::Rejected(Rejection::RegistrationFailed))));
}

#[test]
fn registration_reports_every_broken_format_rule() {
    let mut db = MemoryDb::new();
    let mut form = alice();
    form.email = "not an email".to_string();
    form.password = "short".to_string();
    form.username = "abc".to_string();
    let response = register(&mut db, &form);
    assert_eq!(response.status(), 400);
    match response {
        Response::Invalid(found) => assert_eq!(
            found,
            vec![Violation::InvalidEmail, Violation::PasswordTooShort, Violation::UsernameTooShort]
        ),
        _ => panic!("accepted"),
    }
    assert_eq!(db.user_count(), 0);
}

#[test]
fn registration_refuses_forbidden_username_characters() {
    for name in ["user alice", "user@alice", "user/alice"] {
        let mut db = MemoryDb::new();
        let mut form = alice();
        form.username = name.to_string();
        let response = register(&mut db, &form);
        assert_eq!(rejection(&response), Some(Rejection::UsernameCharacters));
        assert_eq!(response.status(), 400);
        assert_eq!(db.user_count(), 0);
    }
}

#[test]
fn registration_refuses_a_foreign_email() {
    for email in ["alice@example.com", "bob@gmail.com", "bob@notdcrustm.org", "bob@x.dcrustm.org"] {
        let mut db = MemoryDb::new();
        let mut form = alice();
        form.email = email.to_string();
        let response = register(&mut db, &form);
        assert_eq!(rejection(&response), Some(Rejection::ForeignEmail), "{}", email);
        assert_eq!(response.status(), 400);
        assert_eq!(Rejection::ForeignEmail.message(), "Only DCRUSTM email addresses are allowed");
        assert_eq!(db.user_count(), 0);
    }
}

#[test]
fn registration_refuses_a_taken_email() {
    let mut db = MemoryDb::new();
    assert!(register(&mut db, &alice()).is_success());
    let mut again = alice();
    again.username = "other_alice".to_string();
    again.roll = "21002".to_string();
    let response = register(&mut db, &again);
    assert_eq!(rejection(&response), Some(Rejection::EmailTaken));
    assert_eq!(Rejection::EmailTaken.kind(), ErrorKind::Conflict);
    assert_eq!(response.status(), 400);
    assert_eq!(db.user_count(), 1);
}

#[test]
fn registration_fails_upstream_when_the_store_refuses_the_row() {
    let mut db = MemoryDb::new();
    assert!(register(&mut db, &alice()).is_success());
    let mut twin = alice();
    twin.email = "twin@dcrustm.org".to_string();
    let response = register(&mut db, &twin);
    assert_eq!(rejection(&response), Some(Rejection::RegistrationFailed));
    assert_eq!(response.status(), 500);
    assert_eq!(db.user_count(), 1);
}

#[test]
fn sending_a_code_stores_it_and_hands_out_the_mail() {
    let mut db = MemoryDb::new();
    let form = email_form("alice@dcrustm.org");
    let response = run(&mut db, NOON, |at, reply| send_otp(&form, at, reply));
    assert_eq!(response.status(), 200);
    let (code, stamp) = stored_code(&mut db, "alice@dcrustm.org").expect("a code is stored");
    assert_eq!(code.len(), 6);
    assert!(code.bytes().all(|b| b.is_ascii_alphanumeric()));
    assert_eq!(stamp, NOON);
    match response {
        Response::OtpSent(mail) => {
            assert_eq!(mail.to, "alice@dcrustm.org");
            assert_eq!(mail.subject, "OnCampus Email Verification");
            assert_eq!(mail.body, format!("The otp for OnCampus is {}", code));
        }
        _ => panic!("not sent"),
    }
}

#[test]
fn sending_a_code_twice_leaves_one_row_with_the_later_code() {
    let mut db = MemoryDb::new();
    let form = email_form("alice@dcrustm.org");
    let other = email_form("bob@dcrustm.org");
    let first = run(&mut db, NOON, |at, r| send_otp_at(&form, at, r, "AAAAAA".to_string()));
    assert!(first.is_success());
    assert!(run(&mut db, NOON, |at, r| send_otp_at(&other, at, r, "CCCCCC".to_string())).is_success());
    assert_eq!(db.pending_codes(), 2);
    let later = "2025-01-01 12:03:00";
    let second = run(&mut db, later, |at, r| send_otp_at(&form, at, r, "BBBBBB".to_string()));
    assert!(second.is_success());
    assert_eq!(db.pending_codes(), 2);
    assert_eq!(
        stored_code(&mut db, "alice@dcrustm.org"),
        Some(("BBBBBB".to_string(), later.to_string()))
    );
    assert_eq!(
        stored_code(&mut db, "bob@dcrustm.org"),
        Some(("CCCCCC".to_string(), NOON.to_string()))
    );
}

#[test]
fn sending_a_code_refuses_bad_and_foreign_emails() {
    let mut db = MemoryDb::new();
    let bad = email_form("nobody");
    let response = run(&mut db, NOON, |at, reply| send_otp(&bad, at, reply));
    assert!(matches!(&response, Response::Invalid(found) if found == &vec![Violation::InvalidEmailAddress]));
    for email in ["alice@example.com", "bob@notdcrustm.org"] {
        let foreign = email_form(email);
        let response = run(&mut db, NOON, |at, reply| send_otp(&foreign, at, reply));
        assert_eq!(rejection(&response), Some(Rejection::ForeignEmail), "{}", email);
    }
    assert_eq!(db.pending_codes(), 0);
}

#[test]
fn sending_a_code_fails_upstream_when_the_store_fails() {
    let form = email_form("alice@dcrustm.org");
    let upsert = Progress { stage: Stage::Upsert, note: Some("AAAAAA".to_string()) };
    let (_, step) = send_otp_at(&form, &upsert, &Reply::Failed, "ZZZZZZ".to_string());
    assert!(matches!(step, Step::Reply(Response::Rejected(Rejection::OtpFailed))));
    assert_eq!(Rejection::OtpFailed.status(), 500);
}

#[test]
fn register_send_verify_then_verify_again_too_late() {
    let keys = keys();
    let mut db = MemoryDb::new();
    assert!(register(&mut db, &alice()).is_success());
    assert_eq!(db.is_active("alice@dcrustm.org"), Some(false));

    let form = email_form("alice@dcrustm.org");
    assert!(run(&mut db, NOON, |at, reply| send_otp(&form, at, reply)).is_success());
    let (code, _) = stored_code(&mut db, "alice@dcrustm.org").expect("a code is stored");

    let submission = otp_form("alice@dcrustm.org", &code);
    let in_time = NOON_SECONDS + 4 * 60 + 59;
    let response = run(&mut db, NOON, |at, r| verify_otp_at(&submission, at, r, &keys, in_time));
    assert_eq!(response.status(), 200);
    assert_eq!(db.is_active("alice@dcrustm.org"), Some(true));
    match response {
        Response::Tokens(pair) => {
            assert_eq!(pair.access_token.split('.').count(), 3);
            assert_eq!(pair.refresh_token.split('.').count(), 3);
            assert_ne!(pair.access_token, pair.refresh_token);
        }
        _ => panic!("no tokens"),
    }

    let too_late = NOON_SECONDS + 6 * 60;
    let again = run(&mut db, NOON, |at, r| verify_otp_at(&submission, at, r, &keys, too_late));
    assert_eq!(rejection(&again), Some(Rejection::InvalidOtp));
    assert_eq!(again.status(), 400);
}

#[test]
fn verification_succeeds_only_with_the_code_the_email_and_the_window() {
    let keys = keys();
    let mut db = MemoryDb::new();
    assert!(register(&mut db, &alice()).is_success());
    let form = email_form("alice@dcrustm.org");
    assert!(run(&mut db, NOON, |at, r| send_otp_at(&form, at, r, "Ab3dE9".to_string())).is_success());

    let wrong = otp_form("alice@dcrustm.org", "Ab3dE8");
    let response = run(&mut db, NOON, |at, r| verify_otp_at(&wrong, at, r, &keys, NOON_SECONDS));
    assert_eq!(rejection(&response), Some(Rejection::InvalidOtp));

    let right = otp_form("alice@dcrustm.org", "Ab3dE9");
    let at_the_edge = NOON_SECONDS + 300;
    let response = run(&mut db, NOON, |at, r| verify_otp_at(&right, at, r, &keys, at_the_edge));
    assert_eq!(rejection(&response), Some(Rejection::InvalidOtp));
    assert_eq!(db.is_active("alice@dcrustm.org"), Some(false));

    let unknown = otp_form("carol@dcrustm.org", "Ab3dE9");
    let response = run(&mut db, NOON, |at, r| verify_otp_at(&unknown, at, r, &keys, NOON_SECONDS));
    assert_eq!(rejection(&response), Some(Rejection::InvalidOtp));

    let just_inside = NOON_SECONDS + 299;
    let response = run(&mut db, NOON, |at, r| verify_otp_at(&right, at, r, &keys, just_inside));
    assert!(matches!(response, Response::Tokens(_)));
    assert_eq!(db.is_active("alice@dcrustm.org"), Some(true));
}

#[test]
fn verification_tokens_speak_for_the_verified_user() {
    let keys = keys();
    let mut db = MemoryDb::new();
    let id = match register(&mut db, &alice()) {
        Response::Registered(user) => user.id,
        _ => panic!("not registered"),
    };
    let form = email_form("alice@dcrustm.org");
    assert!(run(&mut db, NOON, |at, r| send_otp_at(&form, at, r, "Ab3dE9".to_string())).is_success());
    let right = otp_form("alice@dcrustm.org", "Ab3dE9");
    let now = chrono::Utc::now().timestamp();
    let stamp = chrono::DateTime::from_timestamp(now - 10, 0)
        .unwrap()
        .format("%Y-%m-%d %H:%M:%S")
        .to_string();
    assert!(run(&mut db, &stamp, |at, r| send_otp_at(&form, at, r, "Ab3dE9".to_string())).is_success());
    let response = run(&mut db, NOON, |at, r| verify_otp(&right, at, r, &keys));
    match response {
        Response::Tokens(pair) => {
            let access = Claims::decode(&pair.access_token, &keys).ok().expect("verifies");
            let refresh = Claims::decode(&pair.refresh_token, &keys).ok().expect("verifies");
            assert_eq!(access.sub, id);
            assert_eq!(refresh.sub, id);
            assert_eq!(access.token, "access");
            assert_eq!(refresh.token, "refresh");
            assert!((access.exp as i64 - (now + 86_400)).abs() <= 5);
            assert!((refresh.exp as i64 - (now + 604_800)).abs() <= 5);
        }
        _ => panic!("no tokens"),
    }
}

#[test]
fn verification_needs_a_well_formed_form() {
    let keys = keys();
    let mut db = MemoryDb::new();
    let bad = otp_form("nobody", "12345");
    let response = run(&mut db, NOON, |at, r| verify_otp_at(&bad, at, r, &keys, NOON_SECONDS));
    assert!(matches!(
        &response,
        Response::Invalid(found) if found == &vec![Violation::OtpLength, Violation::InvalidEmailAddress]
    ));
}

#[test]
fn verification_for_an_email_without_account_is_turned_down() {
    let keys = keys();
    let mut db = MemoryDb::new();
    let form = email_form("ghost@dcrustm.org");
    assert!(run(&mut db, NOON, |at, r| send_otp_at(&form, at, r, "Ab3dE9".to_string())).is_success());
    let right = otp_form("ghost@dcrustm.org", "Ab3dE9");
    let response = run(&mut db, NOON, |at, r| verify_otp_at(&right, at, r, &keys, NOON_SECONDS));
    assert_eq!(rejection(&response), Some(Rejection::InvalidOtp));
}

#[test]
fn verification_maps_store_failures_to_upstream_errors() {
    let keys = keys();
    let form = otp_form("alice@dcrustm.org", "Ab3dE9");
    let challenge = Progress { stage: Stage::Challenge, note: None };
    let (_, step) = verify_otp_at(&form, &challenge, &Reply::Failed, &keys, NOON_SECONDS);
    assert!(matches!(step, Step::Reply(Response::Rejected(Rejection::UpstreamGateway))));
    assert_eq!(Rejection::UpstreamGateway.status(), 502);
    let (_, step) = verify_otp_at(&form, &challenge, &Reply::Broken, &keys, NOON_SECONDS);
    assert!(matches!(step, Step::Reply(Response::Rejected(Rejection::Upstream))));
    let garbled = vec![
        Value::Text("alice@dcrustm.org".to_string()),
        Value::Text("Ab3dE9".to_string()),
        Value::Text("yesterday".to_string()),
    ];
    let (_, step) = verify_otp_at(&form, &challenge, &Reply::Row(Some(garbled)), &keys, NOON_SECONDS);
    assert!(matches!(step, Step::Reply(Response::Rejected(Rejection::Upstream))));
    let activation = Progress { stage: Stage::Activation, note: None };
    let (_, step) = verify_otp_at(&form, &activation, &Reply::Failed, &keys, NOON_SECONDS);
    assert!(matches!(step, Step::Reply(Response::Rejected(Rejection::Upstream))));
    assert_eq!(Rejection::Upstream.status(), 500);
    assert_eq!(Rejection::Upstream.message(), "Something went wrong");
}

#[test]
fn login_with_the_right_password_issues_tokens() {
    let keys = keys();
    let mut db = MemoryDb::new();
    let id = match register(&mut db, &alice()) {
        Response::Registered(user) => user.id,
        _ => panic!("not registered"),
    };
    let form = credentials("user_alice", "password123");
    let response = run(&mut db, NOON, |at, reply| login(&form, at, reply, &keys));
    match response {
        Response::Tokens(pair) => {
            let access = Claims::decode(&pair.access_token, &keys).ok().expect("verifies");
            assert_eq!(access.sub, id);
            assert!(access.is_access());
            assert!(Claims::decode(&pair.refresh_token, &keys).ok().expect("verifies").is_refresh());
        }
        _ => panic!("no tokens"),
    }
}

#[test]
fn login_with_a_wrong_password_is_turned_down_and_changes_nothing() {
    let keys = keys();
    let mut db = MemoryDb::new();
    assert!(register(&mut db, &alice()).is_success());
    let hash = stored_hash(&mut db, "user_alice");
    let form = credentials("user_alice", "password124");
    let response = run(&mut db, NOON, |at, r| login_at(&form, at, r, &keys, NOON_SECONDS));
    assert_eq!(rejection(&response), Some(Rejection::InvalidCredentials));
    assert_eq!(response.status(), 401);
    assert_eq!(Rejection::InvalidCredentials.message(), "Invalid credentials");
    assert!(!response.is_success());
    assert_eq!(db.user_count(), 1);
    assert_eq!(db.revoked_count(), 0);
    assert_eq!(db.pending_codes(), 0);
    assert_eq!(db.is_active("alice@dcrustm.org"), Some(false));
    assert_eq!(stored_hash(&mut db, "user_alice"), hash);
}

#[test]
fn login_of_an_unknown_user_is_turned_down() {
    let keys = keys();
    let mut db = MemoryDb::new();
    let form = credentials("nobody_here", "password123");
    let response = run(&mut db, NOON, |at, r| login_at(&form, at, r, &keys, NOON_SECONDS));
    assert_eq!(rejection(&response), Some(Rejection::UserNotFound));
    assert_eq!(Rejection::UserNotFound.message(), "User not found");
    let short = credentials("abc", "password123");
    let response = run(&mut db, NOON, |at, r| login_at(&short, at, r, &keys, NOON_SECONDS));
    assert!(matches!(&response, Response::Invalid(found) if found == &vec![Violation::UsernameTooShort]));
}

#[test]
fn login_against_a_garbled_hash_fails_upstream() {
    let keys = keys();
    let form = credentials("user_alice", "password123");
    let stage = Progress { stage: Stage::Credentials, note: None };
    let row = vec![Value::Text("id-1".to_string()), Value::Text("no hash".to_string())];
    let (_, step) = login_at(&form, &stage, &Reply::Row(Some(row)), &keys, NOON_SECONDS);
    assert!(matches!(step, Step::Reply(Response::Rejected(Rejection::Upstream))));
    let (_, step) = login_at(&form, &stage, &Reply::Failed, &keys, NOON_SECONDS);
    assert!(matches!(step, Step::Reply(Response::Rejected(Rejection::LoginFailed))));
}

#[test]
fn refresh_rotates_and_the_used_token_works_only_once() {
    let keys = keys();
    let mut db = MemoryDb::new();
    let pair = TokenPair::issue(&"user-1".to_string(), &keys).ok().expect("issued");
    let form = RefreshToken { token: pair.refresh_token.clone() };
    let response = run(&mut db, NOON, |at, reply| refresh_tokens(&form, at, reply, &keys));
    let fresh = match response {
        Response::Tokens(fresh) => fresh,
        _ => panic!("no tokens"),
    };
    assert!(db.is_revoked(&pair.refresh_token));
    assert!(!db.is_revoked(&pair.access_token));
    assert_eq!(db.revoked_count(), 1);
    let access = Claims::decode(&fresh.access_token, &keys).ok().expect("verifies");
    let refresh = Claims::decode(&fresh.refresh_token, &keys).ok().expect("verifies");
    assert_eq!(access.sub, "user-1");
    assert_eq!(refresh.sub, "user-1");
    assert!(access.is_access() && refresh.is_refresh());

    let again = run(&mut db, NOON, |at, reply| refresh_tokens(&form, at, reply, &keys));
    assert_eq!(rejection(&again), Some(Rejection::TokenBlacklisted));
    assert_eq!(again.status(), 401);
    assert_eq!(db.revoked_count(), 1);

    assert!(matches!(guard(&mut db, Some(&format!("Bearer {}", pair.access_token)), &keys), Verdict::Admit(_, _)));
}

#[test]
fn refresh_refuses_what_is_no_refresh_token() {
    let keys = keys();
    let mut db = MemoryDb::new();
    let pair = TokenPair::issue(&"user-1".to_string(), &keys).ok().expect("issued");
    let with_access = RefreshToken { token: pair.access_token.clone() };
    let response = run(&mut db, NOON, |at, reply| refresh_tokens(&with_access, at, reply, &keys));
    assert_eq!(rejection(&response), Some(Rejection::UseRefreshToken));
    assert_eq!(Rejection::UseRefreshToken.message(), "Use Refresh token");
    let garbage = RefreshToken { token: "garbage".to_string() };
    let response = run(&mut db, NOON, |at, reply| refresh_tokens(&garbage, at, reply, &keys));
    assert_eq!(rejection(&response), Some(Rejection::InvalidBodyToken));
    assert_eq!(Rejection::InvalidBodyToken.message(), "Invalid Token in body");
    assert_eq!(db.revoked_count(), 0);
}

#[test]
fn refresh_refuses_a_token_that_has_run_out() {
    let keys = keys();
    let mut db = MemoryDb::new();
    let mut claims = Claims::new("user-1".to_string());
    let token = claims.get_refresh_at(&keys, 1_000).ok().expect("signed");
    let form = RefreshToken { token };
    let read = Ok(claims);
    let late = 1_000 + 604_800 + 1;
    let response = run(&mut db, NOON, |at, r| refresh_tokens_at(&form, at, r, &read, &keys, late));
    assert_eq!(rejection(&response), Some(Rejection::TokenBlacklisted));
    assert_eq!(db.revoked_count(), 0);
    let in_time = 1_000 + 604_800;
    let response = run(&mut db, NOON, |at, r| refresh_tokens_at(&form, at, r, &read, &keys, in_time));
    assert!(matches!(response, Response::Tokens(_)));
    assert_eq!(db.revoked_count(), 1);
}

#[test]
fn logout_revokes_both_tokens_and_the_guard_turns_the_access_token_down() {
    let keys = keys();
    let mut db = MemoryDb::new();
    let pair = TokenPair::issue(&"user-1".to_string(), &keys).ok().expect("issued");
    let header = format!("Bearer {}", pair.access_token);
    let admitted = match guard(&mut db, Some(&header), &keys) {
        Verdict::Admit(claims, token) => {
            assert_eq!(claims.sub, "user-1");
            assert_eq!(token, pair.access_token);
            token
        }
        _ => panic!("not admitted"),
    };
    let form = RefreshToken { token: pair.refresh_token.clone() };
    let access = Some(admitted);
    let response = run(&mut db, NOON, |at, reply| logout(&access, &form, at, reply, &keys));
    assert!(matches!(response, Response::LoggedOut));
    assert_eq!(response.status(), 200);
    assert!(db.is_revoked(&pair.access_token));
    assert!(db.is_revoked(&pair.refresh_token));
    assert_eq!(db.revoked_count(), 2);

    match guard(&mut db, Some(&header), &keys) {
        Verdict::Deny(why) => {
            assert_eq!(why, Rejection::TokenBlacklisted);
            assert_eq!(why.status(), 401);
            assert_eq!(why.kind(), ErrorKind::Authentication);
        }
        _ => panic!("admitted after logout"),
    }
    let refresh = run(&mut db, NOON, |at, reply| refresh_tokens(&form, at, reply, &keys));
    assert_eq!(rejection(&refresh), Some(Rejection::TokenBlacklisted));
    let again = run(&mut db, NOON, |at, reply| logout(&access, &form, at, reply, &keys));
    assert_eq!(rejection(&again), Some(Rejection::TokenBlacklisted));
}

#[test]
fn logout_needs_the_access_token_of_the_request() {
    let keys = keys();
    let mut db = MemoryDb::new();
    let pair = TokenPair::issue(&"user-1".to_string(), &keys).ok().expect("issued");
    let form = RefreshToken { token: pair.refresh_token.clone() };
    let response = run(&mut db, NOON, |at, reply| logout(&None, &form, at, reply, &keys));
    assert_eq!(rejection(&response), Some(Rejection::TokenMissing));
    let with_access = RefreshToken { token: pair.access_token.clone() };
    let access = Some(pair.access_token.clone());
    let response = run(&mut db, NOON, |at, reply| logout(&access, &with_access, at, reply, &keys));
    assert_eq!(rejection(&response), Some(Rejection::UseRefreshToken));
    assert_eq!(db.revoked_count(), 0);
}

#[test]
fn a_revoked_token_stays_revoked_whatever_happens_later() {
    let keys = keys();
    let mut db = MemoryDb::new();
    let pair = TokenPair::issue(&"user-1".to_string(), &keys).ok().expect("issued");
    assert!(matches!(db.perform(&Claims::blacklist(&pair.access_token), NOON), Reply::Done));
    assert!(register(&mut db, &alice()).is_success());
    let form = email_form("alice@dcrustm.org");
    assert!(run(&mut db, NOON, |at, reply| send_otp(&form, at, reply)).is_success());
    let other = TokenPair::issue(&"user-2".to_string(), &keys).ok().expect("issued");
    let refresh = RefreshToken { token: other.refresh_token.clone() };
    assert!(run(&mut db, NOON, |at, reply| refresh_tokens(&refresh, at, reply, &keys)).is_success());
    assert!(db.is_revoked(&pair.access_token));
    let header = format!("Bearer {}", pair.access_token);
    assert!(matches!(guard(&mut db, Some(&header), &keys), Verdict::Deny(Rejection::TokenBlacklisted)));
}

#[test]
fn the_runners_carry_a_session_from_registration_to_logout() {
    let keys = keys();
    let mut db = MemoryDb::new();
    let form = alice();
    let hash = bcrypt::hash("password123", 4).unwrap();
    let response = session::register(&mut db, &form, 42, &hash, NOON, 3).expect("an answer");
    let id = match response {
        Response::Registered(user) => user.id,
        _ => panic!("not registered"),
    };
    assert_eq!(id, "1e752a1f-3b49-658c-802a-010203040506");
    assert_eq!(stored_hash(&mut db, "user_alice"), hash);
    assert!(session::register(&mut db, &form, 43, &hash, NOON, 1).is_none());
    assert_eq!(db.user_count(), 1);

    let email = email_form("alice@dcrustm.org");
    let sent = session::send_code(&mut db, &email, &"Ab3dE9".to_string(), NOON, 2).expect("an answer");
    assert!(matches!(sent, Response::OtpSent(_)));
    let right = otp_form("alice@dcrustm.org", "Ab3dE9");
    let verified =
        session::verify_code(&mut db, &right, &keys, NOON_SECONDS + 60, NOON, 4).expect("an answer");
    assert!(matches!(verified, Response::Tokens(_)));
    assert_eq!(db.is_active("alice@dcrustm.org"), Some(true));

    let now = chrono::Utc::now().timestamp();
    let wrong = credentials("user_alice", "password124");
    let refused = session::sign_in(&mut db, &wrong, &keys, now, NOON, 2).expect("an answer");
    assert_eq!(rejection(&refused), Some(Rejection::InvalidCredentials));
    let form = credentials("user_alice", "password123");
    let pair = match session::sign_in(&mut db, &form, &keys, now, NOON, 2).expect("an answer") {
        Response::Tokens(pair) => pair,
        _ => panic!("no tokens"),
    };

    let header = Some(format!("Bearer {}", pair.access_token));
    let read = Claims::decode(&pair.access_token, &keys);
    assert_eq!(read.as_ref().ok().map(|c| c.sub.clone()), Some(id.clone()));
    assert!(matches!(session::guard_request(&mut db, &header, &read, now, NOON), Verdict::Admit(_, _)));

    let refresh = RefreshToken { token: pair.refresh_token.clone() };
    let read_refresh = Claims::decode(&pair.refresh_token, &keys);
    let rotated =
        session::refresh(&mut db, &refresh, &read_refresh, &keys, now + 1, NOON, 4).expect("an answer");
    let fresh = match rotated {
        Response::Tokens(fresh) => fresh,
        _ => panic!("no tokens"),
    };
    let again =
        session::refresh(&mut db, &refresh, &read_refresh, &keys, now + 2, NOON, 4).expect("an answer");
    assert_eq!(rejection(&again), Some(Rejection::TokenBlacklisted));
    assert!(matches!(session::guard_request(&mut db, &header, &read, now, NOON), Verdict::Admit(_, _)));

    let fresh_form = RefreshToken { token: fresh.refresh_token.clone() };
    let fresh_read = Claims::decode(&fresh.refresh_token, &keys);
    let out = session::sign_out(&mut db, &pair.access_token, &fresh_form, &fresh_read, now, NOON, 5)
        .expect("an answer");
    assert!(matches!(out, Response::LoggedOut));
    assert!(matches!(
        session::guard_request(&mut db, &header, &read, now, NOON),
        Verdict::Deny(Rejection::TokenBlacklisted)
    ));
    assert_eq!(db.revoked_count(), 3);
}

#[test]
fn a_pair_issued_in_the_same_second_for_the_same_subject_is_the_same_pair() {
    let keys = keys();
    let one = TokenPair::issue_at(&"user-1".to_string(), &keys, 1_700_000_000).ok().expect("issued");
    let two = TokenPair::issue_at(&"user-1".to_string(), &keys, 1_700_000_000).ok().expect("issued");
    let later = TokenPair::issue_at(&"user-1".to_string(), &keys, 1_700_000_001).ok().expect("issued");
    assert_eq!(one, two);
    assert_ne!(one.refresh_token, later.refresh_token);
    assert_ne!(one.access_token, later.access_token);
}

#[test]
fn revoking_a_revoked_token_is_safe() {
    let keys = keys();
    let mut db = MemoryDb::new();
    let pair = TokenPair::issue(&"user-1".to_string(), &keys).ok().expect("issued");
    assert!(matches!(db.perform(&Claims::blacklist(&pair.access_token), NOON), Reply::Done));
    assert!(matches!(db.perform(&Claims::blacklist(&pair.access_token), NOON), Reply::Done));
    assert_eq!(db.revoked_count(), 1);

    let form = RefreshToken { token: pair.refresh_token.clone() };
    let access = Some(pair.access_token.clone());
    let response = run(&mut db, NOON, |at, reply| logout(&access, &form, at, reply, &keys));
    assert!(matches!(response, Response::LoggedOut));
    assert_eq!(db.revoked_count(), 2);
    assert!(db.is_revoked(&pair.access_token));
    assert!(db.is_revoked(&pair.refresh_token));
}
