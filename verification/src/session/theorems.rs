//! What holds of whole runs: revocation is for good, a refresh token works
//! once, a login only reads, one code per email, and how a session begins and
//! ends.
use crate::auth::token::{access_kind, refresh_kind, ClaimsView, TokenError, JWT};
use crate::auth::{
    credentials_violations, email_form_violations, otp_form_violations, public_user,
    refresh_token_fault, CredentialsView, EmailVerificationFormView, OTPVerificationFormView,
};
use crate::clock::naive_datetime_seconds;
use crate::db::memory::{
    activate, collides, emails, lemma_perform_keeps_wf, lemma_position_none,
    lemma_upsert_keeps_one_row, new_user,
    otp_emails, perform, position, tables_wf, texts_of, upsert, usernames, StoredOtpView, Tables,
};
use crate::db::{ask, text_params, Query, ReplyView, RequestView};
use crate::email::otp_mail;
use crate::flow::{begin, ProgressView, Rejection, ResponseView, StepView};
use crate::ident::user_id;
use crate::middleware::{bearer_token_of, VerdictView};
use crate::models::otp::{otp_accepts, stamp_format, OtpView};
use crate::models::user::{registration_violations, InsertUserView};
use crate::password::bcrypt_verdict;
use crate::session::{
    guard, issued, login_flow, logout_flow, perform_all, refresh_flow, register_flow,
    registration_params, run, send_otp_flow, verify_otp_flow, with_token,
};
use crate::validation::{has_forbidden_character, is_campus_address};
use vstd::prelude::*;

verus! {

proof fn lemma_one_text(t: Seq<char>)
    ensures
        texts_of(text_params(seq![t])) == Some(seq![t]),
{
    assert(texts_of(text_params(seq![t]))->0 =~= seq![t]);
}

proof fn lemma_two_texts(t: Seq<char>, u: Seq<char>)
    ensures
        texts_of(text_params(seq![t, u])) == Some(seq![t, u]),
{
    assert(texts_of(text_params(seq![t, u]))->0 =~= seq![t, u]);
}

/// Asking whether a token is revoked changes nothing, and finds a row exactly
/// when the token is revoked.
pub proof fn lemma_revoked_lookup(db: Tables, token: Seq<char>, stamp: Seq<char>)
    ensures
        perform(db, ask(Query::RevokedToken, seq![token]), stamp).0 == db,
        db.tokens.contains(token) ==> perform(
            db,
            ask(Query::RevokedToken, seq![token]),
            stamp,
        ).1 matches ReplyView::Row(Some(_)),
        !db.tokens.contains(token) ==> perform(
            db,
            ask(Query::RevokedToken, seq![token]),
            stamp,
        ).1 == ReplyView::Row(None),
{
    lemma_one_text(token);
    lemma_position_none(db.tokens, token);
}

/// Revoking a token always succeeds. Afterwards the token is revoked; a
/// token that was revoked already leaves the tables as they were, one that
/// was not is added, and nothing else changes.
pub proof fn lemma_revoke(db: Tables, token: Seq<char>, stamp: Seq<char>)
    ensures
        perform(db, ask(Query::RevokeToken, seq![token]), stamp) == (
            with_token(db, token),
            ReplyView::Done,
        ),
        with_token(db, token).tokens.contains(token),
        db.tokens.contains(token) ==> with_token(db, token) == db,
        !db.tokens.contains(token) ==> with_token(db, token).tokens == db.tokens.push(token),
        tables_wf(db) ==> tables_wf(with_token(db, token)),
{
    lemma_one_text(token);
    if !db.tokens.contains(token) {
        assert(with_token(db, token).tokens[db.tokens.len() as int] == token);
    }
    if tables_wf(db) {
        lemma_perform_keeps_wf(db, ask(Query::RevokeToken, seq![token]), stamp);
    }
}

/// Revoking is idempotent: revoking a token twice leaves the tables as
/// revoking it once, and both requests succeed.
pub proof fn lemma_revoke_twice(db: Tables, token: Seq<char>, stamp: Seq<char>, later: Seq<char>)
    ensures
        perform(
            perform(db, ask(Query::RevokeToken, seq![token]), stamp).0,
            ask(Query::RevokeToken, seq![token]),
            later,
        ) == (with_token(db, token), ReplyView::Done),
{
    lemma_revoke(db, token, stamp);
    lemma_revoke(with_token(db, token), token, later);
}

/// Revocation is for good: whatever is asked of the tables afterwards, a
/// revoked token stays revoked.
pub proof fn lemma_revocation_is_permanent(
    db: Tables,
    token: Seq<char>,
    request: RequestView,
    stamp: Seq<char>,
)
    requires
        db.tokens.contains(token),
    ensures
        perform(db, request, stamp).0.tokens.contains(token),
{
    let after = perform(db, request, stamp).0;
    let i = choose|i: int| 0 <= i < db.tokens.len() && db.tokens[i] == token;
    if after.tokens != db.tokens {
        assert(after.tokens == db.tokens.push(texts_of(request.args)->0[0]));
        assert(after.tokens[i] == token);
    }
}

/// A request that carries a revoked token never passes the guard, whatever
/// the verifier and the clock say of the token.
pub proof fn lemma_guard_turns_revoked_down(
    db: Tables,
    header: Seq<char>,
    decoded: Result<ClaimsView, TokenError>,
    now: i64,
    stamp: Seq<char>,
)
    requires
        db.tokens.contains(bearer_token_of(header)),
    ensures
        guard(db, Some(header), decoded, now, stamp) is Deny,
        decoded matches Ok(claims) && claims.token == access_kind() ==> guard(
            db,
            Some(header),
            decoded,
            now,
            stamp,
        ) == VerdictView::Deny(Rejection::TokenBlacklisted),
{
    lemma_revoked_lookup(db, bearer_token_of(header), stamp);
}

/// A refresh with a revoked token is turned down and changes nothing,
/// whatever the verifier and the clock say of the token.
pub proof fn lemma_refresh_turns_revoked_down(
    db: Tables,
    token: Seq<char>,
    decoded: Result<ClaimsView, TokenError>,
    jwt: &JWT,
    now: i64,
    stamp: Seq<char>,
)
    requires
        db.tokens.contains(token),
    ensures
        run(refresh_flow(token, decoded, jwt, now), db, stamp, begin(), ReplyView::Nothing, 4).0
            == db,
        run(
            refresh_flow(token, decoded, jwt, now),
            db,
            stamp,
            begin(),
            ReplyView::Nothing,
            4,
        ).1 matches Some(ResponseView::Rejected(_)),
        refresh_token_fault(decoded) is None ==> run(
            refresh_flow(token, decoded, jwt, now),
            db,
            stamp,
            begin(),
            ReplyView::Nothing,
            4,
        ).1 == Some(ResponseView::Rejected(Rejection::TokenBlacklisted)),
{
    reveal_with_fuel(run, 5);
    lemma_revoked_lookup(db, token, stamp);
}

/// A logout with a revoked refresh token is turned down and changes nothing,
/// whatever the verifier and the clock say of the token; where the token
/// reads as a refresh token, it is turned down as blacklisted.
pub proof fn lemma_logout_turns_revoked_down(
    db: Tables,
    access: Seq<char>,
    token: Seq<char>,
    decoded: Result<ClaimsView, TokenError>,
    now: i64,
    stamp: Seq<char>,
)
    requires
        db.tokens.contains(token),
    ensures
        run(logout_flow(access, token, decoded, now), db, stamp, begin(), ReplyView::Nothing, 5).0
            == db,
        run(
            logout_flow(access, token, decoded, now),
            db,
            stamp,
            begin(),
            ReplyView::Nothing,
            5,
        ).1 matches Some(ResponseView::Rejected(_)),
        refresh_token_fault(decoded) is None ==> run(
            logout_flow(access, token, decoded, now),
            db,
            stamp,
            begin(),
            ReplyView::Nothing,
            5,
        ).1 == Some(ResponseView::Rejected(Rejection::TokenBlacklisted)),
{
    reveal_with_fuel(run, 6);
    lemma_revoked_lookup(db, token, stamp);
}

/// Refresh rotates: with a refresh token that verifies, has not run out and
/// is not revoked, the run revokes exactly that token and answers with the
/// fresh pair for its subject.
pub proof fn lemma_refresh_rotates(
    db: Tables,
    token: Seq<char>,
    claims: ClaimsView,
    jwt: &JWT,
    now: i64,
    stamp: Seq<char>,
)
    requires
        !db.tokens.contains(token),
        claims.token == refresh_kind(),
        !(claims.exp < now),
    ensures
        run(refresh_flow(token, Ok(claims), jwt, now), db, stamp, begin(), ReplyView::Nothing, 4)
            == (with_token(db, token), Some(issued(claims.sub, jwt, now))),
{
    reveal_with_fuel(run, 5);
    lemma_revoked_lookup(db, token, stamp);
    lemma_revoke(db, token, stamp);
}

/// A refresh token works once: after a refresh that answered with a pair, a
/// second refresh with the same token is turned down, whatever the verifier
/// and the clock say then, and revokes nothing more.
pub proof fn lemma_refresh_token_works_once(
    db: Tables,
    token: Seq<char>,
    claims: ClaimsView,
    jwt: &JWT,
    now: i64,
    stamp: Seq<char>,
    later_decoded: Result<ClaimsView, TokenError>,
    later: i64,
    later_stamp: Seq<char>,
)
    requires
        !db.tokens.contains(token),
        claims.token == refresh_kind(),
        !(claims.exp < now),
    ensures
        ({
            let first = run(
                refresh_flow(token, Ok(claims), jwt, now),
                db,
                stamp,
                begin(),
                ReplyView::Nothing,
                4,
            );
            let second = run(
                refresh_flow(token, later_decoded, jwt, later),
                first.0,
                later_stamp,
                begin(),
                ReplyView::Nothing,
                4,
            );
            &&& first.1 == Some(issued(claims.sub, jwt, now))
            &&& first.0 == with_token(db, token)
            &&& second.1 matches Some(ResponseView::Rejected(_))
            &&& second.0 == first.0
        }),
{
    lemma_refresh_rotates(db, token, claims, jwt, now, stamp);
    lemma_revoke(db, token, stamp);
    lemma_refresh_turns_revoked_down(
        with_token(db, token),
        token,
        later_decoded,
        jwt,
        later,
        later_stamp,
    );
}

/// A refresh revokes the refresh token it was given and no other token: an
/// access token of the old session stays usable until a logout.
pub proof fn lemma_refresh_spares_other_tokens(
    db: Tables,
    token: Seq<char>,
    other: Seq<char>,
    decoded: Result<ClaimsView, TokenError>,
    jwt: &JWT,
    now: i64,
    stamp: Seq<char>,
)
    requires
        other != token,
        !db.tokens.contains(other),
    ensures
        !run(
            refresh_flow(token, decoded, jwt, now),
            db,
            stamp,
            begin(),
            ReplyView::Nothing,
            4,
        ).0.tokens.contains(other),
{
    reveal_with_fuel(run, 5);
    lemma_revoked_lookup(db, token, stamp);
    lemma_one_text(token);
    let after = run(
        refresh_flow(token, decoded, jwt, now),
        db,
        stamp,
        begin(),
        ReplyView::Nothing,
        4,
    ).0;
    if after != db {
        assert(after.tokens == db.tokens.push(token));
        if after.tokens.contains(other) {
            let i = choose|i: int| 0 <= i < after.tokens.len() && after.tokens[i] == other;
            assert(db.tokens[i] == other);
        }
    }
}

/// Logout ends the session: with a refresh token that verifies, has not run
/// out and is not revoked, the run revokes it and the access token of the
/// request and says so, whether or not the access token was revoked before;
/// afterwards a request with that access token does not pass the guard,
/// whatever the verifier and the clock say then.
pub proof fn lemma_logout_revokes_both(
    db: Tables,
    access_header: Seq<char>,
    token: Seq<char>,
    claims: ClaimsView,
    now: i64,
    stamp: Seq<char>,
    later_decoded: Result<ClaimsView, TokenError>,
    later: i64,
    later_stamp: Seq<char>,
)
    requires
        !db.tokens.contains(token),
        claims.token == refresh_kind(),
        !(claims.exp < now),
    ensures
        ({
            let access = bearer_token_of(access_header);
            let out = run(
                logout_flow(access, token, Ok(claims), now),
                db,
                stamp,
                begin(),
                ReplyView::Nothing,
                5,
            );
            &&& out.1 == Some(ResponseView::LoggedOut)
            &&& out.0 == with_token(with_token(db, token), access)
            &&& out.0.tokens.contains(token)
            &&& out.0.tokens.contains(access)
            &&& guard(out.0, Some(access_header), later_decoded, later, later_stamp) is Deny
        }),
{
    reveal_with_fuel(run, 6);
    let access = bearer_token_of(access_header);
    lemma_revoked_lookup(db, token, stamp);
    lemma_revoke(db, token, stamp);
    let mid = with_token(db, token);
    lemma_revoke(mid, access, stamp);
    lemma_revocation_is_permanent(mid, token, ask(Query::RevokeToken, seq![access]), stamp);
    lemma_guard_turns_revoked_down(
        with_token(mid, access),
        access_header,
        later_decoded,
        later,
        later_stamp,
    );
}

/// A login changes nothing in the tables, however it ends: it only reads.
pub proof fn lemma_login_changes_nothing(
    form: CredentialsView,
    jwt: &JWT,
    now: i64,
    db: Tables,
    stamp: Seq<char>,
    at: ProgressView,
    reply: ReplyView,
    steps: nat,
)
    ensures
        run(login_flow(form, jwt, now), db, stamp, at, reply, steps).0 == db,
    decreases steps,
{
    if steps > 0 {
        let next = login_flow(form, jwt, now)(at, reply);
        match next.1 {
            StepView::Reply(_) => {},
            StepView::Ask(request) => {
                assert(request == ask(Query::CredentialsByUsername, seq![form.user]));
                lemma_one_text(form.user);
                let answered = perform(db, request, stamp);
                assert(answered.0 == db);
                lemma_login_changes_nothing(
                    form,
                    jwt,
                    now,
                    db,
                    stamp,
                    next.0,
                    answered.1,
                    (steps - 1) as nat,
                );
            },
        }
    }
}

/// Sending a code stores it: for a well-formed campus email the run stores
/// `code` at the database time `stamp`, and answers with the mail to send.
pub proof fn lemma_send_otp_stores_code(
    form: EmailVerificationFormView,
    code: Seq<char>,
    db: Tables,
    stamp: Seq<char>,
)
    requires
        email_form_violations(form).len() == 0,
        is_campus_address(form.email),
    ensures
        run(send_otp_flow(form, code), db, stamp, begin(), ReplyView::Nothing, 2) == (
            Tables { otps: upsert(db.otps, form.email, code, stamp), ..db },
            Some(ResponseView::OtpSent(otp_mail(form.email, code))),
        ),
{
    reveal_with_fuel(run, 3);
    lemma_two_texts(form.email, code);
}

/// Sending a code twice for one email leaves exactly one row for that email,
/// and the later code and time win.
pub proof fn lemma_second_code_replaces_first(
    otps: Seq<StoredOtpView>,
    email: Seq<char>,
    first_code: Seq<char>,
    first_stamp: Seq<char>,
    second_code: Seq<char>,
    second_stamp: Seq<char>,
)
    requires
        otp_emails(otps).no_duplicates(),
    ensures
        ({
            let once = upsert(otps, email, first_code, first_stamp);
            let twice = upsert(once, email, second_code, second_stamp);
            &&& twice.len() == once.len()
            &&& otp_emails(twice).no_duplicates()
            &&& position(otp_emails(twice), email) matches Some(i) && twice[i] == (StoredOtpView {
                email,
                otp: second_code,
                created_at: second_stamp,
            }) && (forall|j: int| 0 <= j < twice.len() && twice[j].email == email ==> j == i)
        }),
{
    let once = upsert(otps, email, first_code, first_stamp);
    lemma_upsert_keeps_one_row(otps, email, first_code, first_stamp);
    lemma_upsert_keeps_one_row(once, email, second_code, second_stamp);
    let i = position(otp_emails(once), email)->0;
    assert(otp_emails(once)[i] == email);
}

/// Registration creates an inactive account: for a registration that meets
/// the rules and collides with no stored user, the run stores the user under
/// the new id, inactive and with the hash where the password would be, and
/// answers with the account's public fields.
pub proof fn lemma_register_stores_inactive_user(
    form: InsertUserView,
    seed: u16,
    hash: Seq<char>,
    db: Tables,
    stamp: Seq<char>,
)
    requires
        registration_violations(form).len() == 0,
        !has_forbidden_character(form.username),
        is_campus_address(form.email),
        !collides(db.users, new_user(registration_params(form, user_id(seed), hash))),
    ensures
        ({
            let user = new_user(registration_params(form, user_id(seed), hash));
            &&& run(register_flow(form, seed, hash), db, stamp, begin(), ReplyView::Nothing, 3) == (
                Tables { users: db.users.push(user), ..db },
                Some(ResponseView::Registered(public_user(form, user_id(seed)))),
            )
            &&& !user.is_active
            &&& user.password == hash
            &&& user.email == form.email
        }),
{
    reveal_with_fuel(run, 4);
    let params = registration_params(form, user_id(seed), hash);
    assert(texts_of(text_params(params))->0 =~= params);
    lemma_one_text(form.email);
    lemma_position_none(emails(db.users), form.email);
}

/// Registration refuses an email that is taken, and stores nothing.
pub proof fn lemma_register_refuses_taken_email(
    form: InsertUserView,
    seed: u16,
    hash: Seq<char>,
    db: Tables,
    stamp: Seq<char>,
)
    requires
        registration_violations(form).len() == 0,
        !has_forbidden_character(form.username),
        is_campus_address(form.email),
        emails(db.users).contains(form.email),
    ensures
        run(register_flow(form, seed, hash), db, stamp, begin(), ReplyView::Nothing, 3) == (
            db,
            Some(ResponseView::Rejected(Rejection::EmailTaken)),
        ),
{
    reveal_with_fuel(run, 4);
    lemma_one_text(form.email);
    lemma_position_none(emails(db.users), form.email);
}

/// Verification within the window activates the account: where the stored
/// code of the email admits the submission at `now` and the email has an
/// account, the run marks that account active and answers with a fresh token
/// pair for its id.
pub proof fn lemma_verify_otp_activates(
    form: OTPVerificationFormView,
    jwt: &JWT,
    now: i64,
    db: Tables,
    stamp: Seq<char>,
    created_at: i64,
)
    requires
        otp_form_violations(form).len() == 0,
        position(otp_emails(db.otps), form.email) matches Some(i) && naive_datetime_seconds(
            db.otps[i].created_at,
            stamp_format(),
        ) == Some(created_at) && otp_accepts(
            OtpView { email: db.otps[i].email, otp: db.otps[i].otp, created_at },
            form.email,
            form.otp,
            now,
        ),
        position(emails(db.users), form.email) is Some,
    ensures
        ({
            let u = position(emails(db.users), form.email)->0;
            let after = run(
                verify_otp_flow(form, jwt, now),
                db,
                stamp,
                begin(),
                ReplyView::Nothing,
                4,
            );
            &&& after.0 == (Tables { users: activate(db.users, form.email), ..db })
            &&& after.0.users[u].is_active
            &&& after.1 == Some(issued(db.users[u].id, jwt, now))
        }),
{
    reveal_with_fuel(run, 5);
    lemma_one_text(form.email);
    lemma_position_none(emails(db.users), form.email);
    lemma_position_none(otp_emails(db.otps), form.email);
    let u = position(emails(db.users), form.email)->0;
    let active = activate(db.users, form.email);
    assert(emails(active) =~= emails(db.users));
    assert(emails(db.users)[u] == form.email);
}

/// Verification outside the window is turned down: where the stored code of
/// the email is five minutes old or older, or is not the submitted code, the
/// run answers `InvalidOtp` in either case and changes nothing. So does a
/// submission for an email that has no stored code.
pub proof fn lemma_verify_otp_turns_down(
    form: OTPVerificationFormView,
    jwt: &JWT,
    now: i64,
    db: Tables,
    stamp: Seq<char>,
)
    requires
        otp_form_violations(form).len() == 0,
        match position(otp_emails(db.otps), form.email) {
            None => true,
            Some(i) => match naive_datetime_seconds(db.otps[i].created_at, stamp_format()) {
                None => false,
                Some(created_at) => now - created_at >= 300 || db.otps[i].otp != form.otp,
            },
        },
    ensures
        run(verify_otp_flow(form, jwt, now), db, stamp, begin(), ReplyView::Nothing, 4) == (
            db,
            Some(ResponseView::Rejected(Rejection::InvalidOtp)),
        ),
{
    reveal_with_fuel(run, 5);
    lemma_one_text(form.email);
    lemma_position_none(otp_emails(db.otps), form.email);
}

/// A revoked token stays revoked forever: after any list of requests it is
/// still in the table, so the guard and the refresh and logout flows still
/// turn it down.
pub proof fn lemma_revoked_forever(
    db: Tables,
    token: Seq<char>,
    requests: Seq<(RequestView, Seq<char>)>,
)
    requires
        db.tokens.contains(token),
    ensures
        perform_all(db, requests).tokens.contains(token),
    decreases requests.len(),
{
    if requests.len() > 0 {
        lemma_revoked_forever(db, token, requests.drop_last());
        lemma_revocation_is_permanent(
            perform_all(db, requests.drop_last()),
            token,
            requests.last().0,
            requests.last().1,
        );
    }
}

/// A login with a password that does not match the stored hash is turned
/// down as `InvalidCredentials`: no token is issued and the tables are as
/// they were.
pub proof fn lemma_wrong_password_is_turned_down(
    form: CredentialsView,
    jwt: &JWT,
    now: i64,
    db: Tables,
    stamp: Seq<char>,
)
    requires
        credentials_violations(form).len() == 0,
        position(usernames(db.users), form.user) matches Some(u) && bcrypt_verdict(
            form.password,
            db.users[u].password,
        ) == Some(false),
    ensures
        run(login_flow(form, jwt, now), db, stamp, begin(), ReplyView::Nothing, 2) == (
            db,
            Some(ResponseView::Rejected(Rejection::InvalidCredentials)),
        ),
{
    reveal_with_fuel(run, 3);
    lemma_one_text(form.user);
}

/// A login with the password that matches the stored hash is answered with
/// a fresh pair for the stored id, and changes nothing in the tables.
pub proof fn lemma_right_password_issues_tokens(
    form: CredentialsView,
    jwt: &JWT,
    now: i64,
    db: Tables,
    stamp: Seq<char>,
)
    requires
        credentials_violations(form).len() == 0,
        position(usernames(db.users), form.user) matches Some(u) && bcrypt_verdict(
            form.password,
            db.users[u].password,
        ) == Some(true),
    ensures
        run(login_flow(form, jwt, now), db, stamp, begin(), ReplyView::Nothing, 2) == (
            db,
            Some(issued(db.users[position(usernames(db.users), form.user)->0].id, jwt, now)),
        ),
{
    reveal_with_fuel(run, 3);
    lemma_one_text(form.user);
}

/// Sending a code twice for one email leaves exactly one row for that email
/// in the tables, with the code and the time of the second sending; both
/// sendings answer with a success.
pub proof fn lemma_sending_twice_keeps_one_code(
    form: EmailVerificationFormView,
    db: Tables,
    first_code: Seq<char>,
    first_stamp: Seq<char>,
    second_code: Seq<char>,
    second_stamp: Seq<char>,
)
    requires
        tables_wf(db),
        email_form_violations(form).len() == 0,
        is_campus_address(form.email),
    ensures
        ({
            let first = run(
                send_otp_flow(form, first_code),
                db,
                first_stamp,
                begin(),
                ReplyView::Nothing,
                2,
            );
            let second = run(
                send_otp_flow(form, second_code),
                first.0,
                second_stamp,
                begin(),
                ReplyView::Nothing,
                2,
            );
            &&& first.1 matches Some(ResponseView::OtpSent(_))
            &&& second.1 matches Some(ResponseView::OtpSent(_))
            &&& second.0.otps.len() == first.0.otps.len()
            &&& tables_wf(second.0)
            &&& position(otp_emails(second.0.otps), form.email) matches Some(i) && second.0.otps[i]
                == (StoredOtpView { email: form.email, otp: second_code, created_at: second_stamp })
                && (forall|j: int|
                0 <= j < second.0.otps.len() && second.0.otps[j].email == form.email ==> j == i)
        }),
{
    lemma_send_otp_stores_code(form, first_code, db, first_stamp);
    let once = Tables { otps: upsert(db.otps, form.email, first_code, first_stamp), ..db };
    lemma_send_otp_stores_code(form, second_code, once, second_stamp);
    lemma_second_code_replaces_first(
        db.otps,
        form.email,
        first_code,
        first_stamp,
        second_code,
        second_stamp,
    );
}

/// A login for a username that no user has is turned down as
/// `UserNotFound`, and changes nothing.
pub proof fn lemma_unknown_user_is_turned_down(
    form: CredentialsView,
    jwt: &JWT,
    now: i64,
    db: Tables,
    stamp: Seq<char>,
)
    requires
        credentials_violations(form).len() == 0,
        !usernames(db.users).contains(form.user),
    ensures
        run(login_flow(form, jwt, now), db, stamp, begin(), ReplyView::Nothing, 2) == (
            db,
            Some(ResponseView::Rejected(Rejection::UserNotFound)),
        ),
{
    reveal_with_fuel(run, 3);
    lemma_one_text(form.user);
    lemma_position_none(usernames(db.users), form.user);
}

/// A verification that is turned down changes nothing: whenever the run
/// answers `InvalidOtp`, or with the format rules that the form breaks, the
/// tables are as they were, whatever they hold and whatever the time.
pub proof fn lemma_verify_otp_rejection_changes_nothing(
    form: OTPVerificationFormView,
    jwt: &JWT,
    now: i64,
    db: Tables,
    stamp: Seq<char>,
)
    ensures
        ({
            let out = run(
                verify_otp_flow(form, jwt, now),
                db,
                stamp,
                begin(),
                ReplyView::Nothing,
                4,
            );
            (out.1 == Some(ResponseView::Rejected(Rejection::InvalidOtp)) || out.1 matches Some(
                ResponseView::Invalid(_),
            )) ==> out.0 == db
        }),
{
    reveal_with_fuel(run, 5);
    lemma_one_text(form.email);
    let active = activate(db.users, form.email);
    assert(emails(active) =~= emails(db.users));
    lemma_position_none(emails(db.users), form.email);
    if position(emails(db.users), form.email) is None {
        assert forall|i: int| 0 <= i < db.users.len() implies active[i] == db.users[i] by {
            assert(emails(db.users)[i] == db.users[i].email);
            assert(emails(db.users).contains(db.users[i].email));
        }
        assert(active =~= db.users);
    }
}

} // verus!
