//! Whole flows run against the tables held in memory: what a run is, and the
//! functions that run each flow.
use crate::auth::token::{claims_view, pair_at, Claims, ClaimsView, TokenError, JWT};
use crate::auth::{
    login_at, login_step, logout_at, logout_step, refresh_step, refresh_tokens_at,
    register_step, register_user_at, send_otp_at, send_otp_step, verify_otp_at, verify_otp_step,
    Credentials, CredentialsView, EmailVerificationForm, EmailVerificationFormView,
    OTPVerificationForm, OTPVerificationFormView, RefreshToken,
};
use crate::db::memory::{perform, revoke, MemoryDb, Tables};
use crate::db::{Reply, ReplyView, RequestView};
use crate::flow::{begin, Progress, ProgressView, Rejection, Response, ResponseView, Step, StepView};
use crate::middleware::{bearer_token_of, jwt_at, jwt_step, Verdict, VerdictView};
use crate::models::user::{InsertUser, InsertUserView};
use crate::session::theorems::{lemma_login_changes_nothing, lemma_revoked_lookup};
use crate::text::option_view;
use vstd::prelude::*;

pub mod theorems;

verus! {

/// A flow, once its inputs are fixed: from progress and the database's last
/// answer to the next progress and step.
pub type Flow = spec_fn(ProgressView, ReplyView) -> (ProgressView, StepView);

/// Runs `flow` against the tables for at most `steps` steps, every request at
/// the database time `stamp`: the tables afterwards, and the response if the
/// flow got that far.
pub open spec fn run(
    flow: Flow,
    db: Tables,
    stamp: Seq<char>,
    at: ProgressView,
    reply: ReplyView,
    steps: nat,
) -> (Tables, Option<ResponseView>)
    decreases steps,
{
    if steps == 0 {
        (db, None)
    } else {
        let next = flow(at, reply);
        match next.1 {
            StepView::Reply(response) => (db, Some(response)),
            StepView::Ask(request) => {
                let answered = perform(db, request, stamp);
                run(flow, answered.0, stamp, next.0, answered.1, (steps - 1) as nat)
            },
        }
    }
}

/// The flow that sends the code `code` to the email in `form`.
pub open spec fn send_otp_flow(form: EmailVerificationFormView, code: Seq<char>) -> Flow {
    |at: ProgressView, reply: ReplyView| send_otp_step(form, at, reply, code)
}

/// The login flow for `form` at `now`.
pub open spec fn login_flow(form: CredentialsView, jwt: &JWT, now: i64) -> Flow {
    |at: ProgressView, reply: ReplyView| login_step(form, at, reply, jwt, now)
}

/// The refresh flow for `token`, read as `decoded`, at `now`.
pub open spec fn refresh_flow(
    token: Seq<char>,
    decoded: Result<ClaimsView, TokenError>,
    jwt: &JWT,
    now: i64,
) -> Flow {
    |at: ProgressView, reply: ReplyView| refresh_step(token, at, reply, decoded, jwt, now)
}

/// The logout flow for the access token `access` and the refresh token
/// `token`, read as `decoded`, at `now`.
pub open spec fn logout_flow(
    access: Seq<char>,
    token: Seq<char>,
    decoded: Result<ClaimsView, TokenError>,
    now: i64,
) -> Flow {
    |at: ProgressView, reply: ReplyView| logout_step(Some(access), token, at, reply, decoded, now)
}

/// What the guard says to a request with the header `header`, whose token is
/// read as `decoded`, at `now`: it asks the tables at most once.
pub open spec fn guard(
    db: Tables,
    header: Option<Seq<char>>,
    decoded: Result<ClaimsView, TokenError>,
    now: i64,
    stamp: Seq<char>,
) -> VerdictView {
    let first = jwt_step(header, begin(), ReplyView::Nothing, decoded, now);
    match first.1 {
        VerdictView::Ask(request) => jwt_step(
            header,
            first.0,
            perform(db, request, stamp).1,
            decoded,
            now,
        ).1,
        verdict => verdict,
    }
}

/// The response that ends a flow which issues a pair for `sub` at `now`: the
/// pair, or an upstream failure where the signer gives none.
pub open spec fn issued(sub: Seq<char>, jwt: &JWT, now: i64) -> ResponseView {
    match pair_at(sub, jwt, now) {
        Ok(pair) => ResponseView::Tokens(pair),
        Err(_) => ResponseView::Rejected(Rejection::Upstream),
    }
}

/// The tables after `token` was revoked.
pub open spec fn with_token(db: Tables, token: Seq<char>) -> Tables {
    Tables { tokens: revoke(db.tokens, token), ..db }
}

/// The registration flow for `form`, with the random clock sequence `seed`
/// and the password hash `hash`.
pub open spec fn register_flow(form: InsertUserView, seed: u16, hash: Seq<char>) -> Flow {
    |at: ProgressView, reply: ReplyView| register_step(form, at, reply, seed, Some(hash))
}

/// The flow that verifies the code in `form` at `now`.
pub open spec fn verify_otp_flow(form: OTPVerificationFormView, jwt: &JWT, now: i64) -> Flow {
    |at: ProgressView, reply: ReplyView| verify_otp_step(form, at, reply, jwt, now)
}

/// The eight parameters of the request that stores a registration.
pub open spec fn registration_params(form: InsertUserView, id: Seq<char>, hash: Seq<char>) -> Seq<
    Seq<char>,
> {
    seq![
        id,
        form.email,
        hash,
        form.username,
        form.first_name,
        form.last_name,
        form.roll,
        form.dob,
    ]
}

/// The tables after a list of requests, each run at its own database time.
pub open spec fn perform_all(db: Tables, requests: Seq<(RequestView, Seq<char>)>) -> Tables
    decreases requests.len(),
{
    if requests.len() == 0 {
        db
    } else {
        perform(perform_all(db, requests.drop_last()), requests.last().0, requests.last().1).0
    }
}

/// The view of a response that may not have come.
pub open spec fn response_view(response: Option<Response>) -> Option<ResponseView> {
    match response {
        Some(r) => Some(r@),
        None => None,
    }
}

/// Runs a registration against the tables, with the random draw and the hash
/// given, for at most `steps` steps.
pub fn register(
    db: &mut MemoryDb,
    form: &InsertUser,
    seed: u16,
    hash: &String,
    stamp: &str,
    steps: usize,
) -> (response: Option<Response>)
    ensures
        (final(db)@, response_view(response)) == run(
            register_flow(form@, seed, hash@),
            old(db)@,
            stamp@,
            begin(),
            ReplyView::Nothing,
            steps as nat,
        ),
{
    let ghost flow = register_flow(form@, seed, hash@);
    let ghost goal = run(flow, db@, stamp@, begin(), ReplyView::Nothing, steps as nat);
    let hashed = Some(hash.clone());
    let mut at = Progress::start();
    let mut reply = Reply::Nothing;
    let mut left = steps;
    while left > 0
        invariant
            flow == register_flow(form@, seed, hash@),
            option_view(hashed) == Some(hash@),
            goal == run(flow, old(db)@, stamp@, begin(), ReplyView::Nothing, steps as nat),
            goal == run(flow, db@, stamp@, at@, reply@, left as nat),
        decreases left,
    {
        let (next, step) = register_user_at(form, &at, &reply, seed, &hashed);
        match step {
            Step::Reply(response) => {
                return Some(response);
            },
            Step::Ask(request) => {
                reply = db.perform(&request, stamp);
                at = next;
            },
        }
        left = left - 1;
    }
    None
}

/// Runs the sending of the code `code` against the tables, for at most
/// `steps` steps.
pub fn send_code(
    db: &mut MemoryDb,
    form: &EmailVerificationForm,
    code: &String,
    stamp: &str,
    steps: usize,
) -> (response: Option<Response>)
    ensures
        (final(db)@, response_view(response)) == run(
            send_otp_flow(form@, code@),
            old(db)@,
            stamp@,
            begin(),
            ReplyView::Nothing,
            steps as nat,
        ),
{
    let ghost flow = send_otp_flow(form@, code@);
    let ghost goal = run(flow, db@, stamp@, begin(), ReplyView::Nothing, steps as nat);
    let mut at = Progress::start();
    let mut reply = Reply::Nothing;
    let mut left = steps;
    while left > 0
        invariant
            flow == send_otp_flow(form@, code@),
            goal == run(flow, old(db)@, stamp@, begin(), ReplyView::Nothing, steps as nat),
            goal == run(flow, db@, stamp@, at@, reply@, left as nat),
        decreases left,
    {
        let (next, step) = send_otp_at(form, &at, &reply, code.clone());
        match step {
            Step::Reply(response) => {
                return Some(response);
            },
            Step::Ask(request) => {
                reply = db.perform(&request, stamp);
                at = next;
            },
        }
        left = left - 1;
    }
    None
}

/// Runs the verification of a code at `now` against the tables, for at most
/// `steps` steps.
pub fn verify_code(
    db: &mut MemoryDb,
    form: &OTPVerificationForm,
    jwt: &JWT,
    now: i64,
    stamp: &str,
    steps: usize,
) -> (response: Option<Response>)
    ensures
        (final(db)@, response_view(response)) == run(
            verify_otp_flow(form@, jwt, now),
            old(db)@,
            stamp@,
            begin(),
            ReplyView::Nothing,
            steps as nat,
        ),
{
    let ghost flow = verify_otp_flow(form@, jwt, now);
    let ghost goal = run(flow, db@, stamp@, begin(), ReplyView::Nothing, steps as nat);
    let mut at = Progress::start();
    let mut reply = Reply::Nothing;
    let mut left = steps;
    while left > 0
        invariant
            flow == verify_otp_flow(form@, jwt, now),
            goal == run(flow, old(db)@, stamp@, begin(), ReplyView::Nothing, steps as nat),
            goal == run(flow, db@, stamp@, at@, reply@, left as nat),
        decreases left,
    {
        let (next, step) = verify_otp_at(form, &at, &reply, jwt, now);
        match step {
            Step::Reply(response) => {
                return Some(response);
            },
            Step::Ask(request) => {
                reply = db.perform(&request, stamp);
                at = next;
            },
        }
        left = left - 1;
    }
    None
}

/// Runs a login at `now` against the tables, for at most `steps` steps.
pub fn sign_in(
    db: &mut MemoryDb,
    form: &Credentials,
    jwt: &JWT,
    now: i64,
    stamp: &str,
    steps: usize,
) -> (response: Option<Response>)
    ensures
        (final(db)@, response_view(response)) == run(
            login_flow(form@, jwt, now),
            old(db)@,
            stamp@,
            begin(),
            ReplyView::Nothing,
            steps as nat,
        ),
        final(db)@ == old(db)@,
{
    let ghost flow = login_flow(form@, jwt, now);
    let ghost goal = run(flow, db@, stamp@, begin(), ReplyView::Nothing, steps as nat);
    proof {
        lemma_login_changes_nothing(
            form@,
            jwt,
            now,
            db@,
            stamp@,
            begin(),
            ReplyView::Nothing,
            steps as nat,
        );
    }
    let mut at = Progress::start();
    let mut reply = Reply::Nothing;
    let mut left = steps;
    while left > 0
        invariant
            flow == login_flow(form@, jwt, now),
            goal.0 == old(db)@,
            goal == run(flow, old(db)@, stamp@, begin(), ReplyView::Nothing, steps as nat),
            goal == run(flow, db@, stamp@, at@, reply@, left as nat),
        decreases left,
    {
        let (next, step) = login_at(form, &at, &reply, jwt, now);
        match step {
            Step::Reply(response) => {
                return Some(response);
            },
            Step::Ask(request) => {
                reply = db.perform(&request, stamp);
                at = next;
            },
        }
        left = left - 1;
    }
    None
}

/// Runs a refresh at `now` against the tables, with the verifier's reading
/// of the token given, for at most `steps` steps.
pub fn refresh(
    db: &mut MemoryDb,
    form: &RefreshToken,
    decoded: &Result<Claims, TokenError>,
    jwt: &JWT,
    now: i64,
    stamp: &str,
    steps: usize,
) -> (response: Option<Response>)
    ensures
        (final(db)@, response_view(response)) == run(
            refresh_flow(form.token@, claims_view(*decoded), jwt, now),
            old(db)@,
            stamp@,
            begin(),
            ReplyView::Nothing,
            steps as nat,
        ),
{
    let ghost flow = refresh_flow(form.token@, claims_view(*decoded), jwt, now);
    let ghost goal = run(flow, db@, stamp@, begin(), ReplyView::Nothing, steps as nat);
    let mut at = Progress::start();
    let mut reply = Reply::Nothing;
    let mut left = steps;
    while left > 0
        invariant
            flow == refresh_flow(form.token@, claims_view(*decoded), jwt, now),
            goal == run(flow, old(db)@, stamp@, begin(), ReplyView::Nothing, steps as nat),
            goal == run(flow, db@, stamp@, at@, reply@, left as nat),
        decreases left,
    {
        let (next, step) = refresh_tokens_at(form, &at, &reply, decoded, jwt, now);
        match step {
            Step::Reply(response) => {
                return Some(response);
            },
            Step::Ask(request) => {
                reply = db.perform(&request, stamp);
                at = next;
            },
        }
        left = left - 1;
    }
    None
}

/// Runs a logout at `now` against the tables, with the access token of the
/// request and the verifier's reading of the refresh token given, for at
/// most `steps` steps.
pub fn sign_out(
    db: &mut MemoryDb,
    access: &String,
    form: &RefreshToken,
    decoded: &Result<Claims, TokenError>,
    now: i64,
    stamp: &str,
    steps: usize,
) -> (response: Option<Response>)
    ensures
        (final(db)@, response_view(response)) == run(
            logout_flow(access@, form.token@, claims_view(*decoded), now),
            old(db)@,
            stamp@,
            begin(),
            ReplyView::Nothing,
            steps as nat,
        ),
{
    let ghost flow = logout_flow(access@, form.token@, claims_view(*decoded), now);
    let ghost goal = run(flow, db@, stamp@, begin(), ReplyView::Nothing, steps as nat);
    let held = Some(access.clone());
    let mut at = Progress::start();
    let mut reply = Reply::Nothing;
    let mut left = steps;
    while left > 0
        invariant
            flow == logout_flow(access@, form.token@, claims_view(*decoded), now),
            option_view(held) == Some(access@),
            goal == run(flow, old(db)@, stamp@, begin(), ReplyView::Nothing, steps as nat),
            goal == run(flow, db@, stamp@, at@, reply@, left as nat),
        decreases left,
    {
        let (next, step) = logout_at(&held, form, &at, &reply, decoded, now);
        match step {
            Step::Reply(response) => {
                return Some(response);
            },
            Step::Ask(request) => {
                reply = db.perform(&request, stamp);
                at = next;
            },
        }
        left = left - 1;
    }
    None
}

/// Puts a request with the header `header` before the guard, at `now` and
/// with the verifier's reading of the header's token given. The tables are
/// asked at most once, and only read.
pub fn guard_request(
    db: &mut MemoryDb,
    header: &Option<String>,
    decoded: &Result<Claims, TokenError>,
    now: i64,
    stamp: &str,
) -> (verdict: Verdict)
    ensures
        verdict@ == guard(old(db)@, option_view(*header), claims_view(*decoded), now, stamp@),
        final(db)@ == old(db)@,
{
    let first = jwt_at(header, &Progress::start(), &Reply::Nothing, copy_of(decoded), now);
    match first.1 {
        Verdict::Ask(request) => {
            proof {
                lemma_revoked_lookup(db@, bearer_token_of(header->0@), stamp@);
            }
            let reply = db.perform(&request, stamp);
            jwt_at(header, &first.0, &reply, copy_of(decoded), now).1
        },
        verdict => verdict,
    }
}

fn copy_of(decoded: &Result<Claims, TokenError>) -> (copy: Result<Claims, TokenError>)
    ensures
        claims_view(copy) == claims_view(*decoded),
{
    match decoded {
        Ok(claims) => Ok(
            Claims { sub: claims.sub.clone(), token: claims.token.clone(), exp: claims.exp },
        ),
        Err(e) => Err(*e),
    }
}

} // verus!
