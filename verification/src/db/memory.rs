//! The three tables of the account flows, held in memory. The tables answer
//! each request as the database does: one user per id, email, username and
//! roll, one pending code per email, one entry per revoked token, and nothing
//! is ever deleted.
use crate::db::{arity, values_view, Query, Reply, ReplyView, Request, RequestView, Value, ValueView};
use crate::models::user::{User, UserView};
use crate::text::{str_eq, texts_view};
use vstd::prelude::*;

verus! {

/// A row of the code table: the time is the text the database wrote.
#[derive(Debug, Clone, PartialEq, Eq)]
pub struct StoredOtp {
    pub email: String,
    pub otp: String,
    pub created_at: String,
}

/// The mathematical value of a [`StoredOtp`].
pub struct StoredOtpView {
    pub email: Seq<char>,
    pub otp: Seq<char>,
    pub created_at: Seq<char>,
}

impl View for StoredOtp {
    type V = StoredOtpView;

    open spec fn view(&self) -> StoredOtpView {
        StoredOtpView { email: self.email@, otp: self.otp@, created_at: self.created_at@ }
    }
}

/// The contents of the three tables, row by row in the order of insertion.
pub struct Tables {
    pub users: Seq<UserView>,
    pub otps: Seq<StoredOtpView>,
    pub tokens: Seq<Seq<char>>,
}

/// The tables in memory.
pub struct MemoryDb {
    users: Vec<User>,
    otps: Vec<StoredOtp>,
    tokens: Vec<String>,
}

/// The views of the rows of the user table.
pub open spec fn users_view(rows: Seq<User>) -> Seq<UserView> {
    Seq::new(rows.len(), |i: int| rows[i]@)
}

/// The views of the rows of the code table.
pub open spec fn otps_view(rows: Seq<StoredOtp>) -> Seq<StoredOtpView> {
    Seq::new(rows.len(), |i: int| rows[i]@)
}

impl View for MemoryDb {
    type V = Tables;

    closed spec fn view(&self) -> Tables {
        Tables {
            users: users_view(self.users@),
            otps: otps_view(self.otps@),
            tokens: texts_view(self.tokens@),
        }
    }
}

/// The ids of the users, row by row.
pub open spec fn ids(users: Seq<UserView>) -> Seq<Seq<char>> {
    Seq::new(users.len(), |i: int| users[i].id)
}

/// The emails of the users, row by row.
pub open spec fn emails(users: Seq<UserView>) -> Seq<Seq<char>> {
    Seq::new(users.len(), |i: int| users[i].email)
}

/// The usernames of the users, row by row.
pub open spec fn usernames(users: Seq<UserView>) -> Seq<Seq<char>> {
    Seq::new(users.len(), |i: int| users[i].username)
}

/// The rolls of the users, row by row.
pub open spec fn rolls(users: Seq<UserView>) -> Seq<Seq<char>> {
    Seq::new(users.len(), |i: int| users[i].roll)
}

/// The emails of the pending codes, row by row.
pub open spec fn otp_emails(otps: Seq<StoredOtpView>) -> Seq<Seq<char>> {
    Seq::new(otps.len(), |i: int| otps[i].email)
}

/// The uniqueness that the tables keep: no two users share an id, an email,
/// a username or a roll; no email has two pending codes; no token is revoked
/// twice.
pub open spec fn tables_wf(db: Tables) -> bool {
    &&& ids(db.users).no_duplicates()
    &&& emails(db.users).no_duplicates()
    &&& usernames(db.users).no_duplicates()
    &&& rolls(db.users).no_duplicates()
    &&& otp_emails(db.otps).no_duplicates()
    &&& db.tokens.no_duplicates()
}

/// `i` is the first place where `key` stands in `keys`.
pub open spec fn is_first(keys: Seq<Seq<char>>, key: Seq<char>, i: int) -> bool {
    &&& 0 <= i < keys.len()
    &&& keys[i] == key
    &&& forall|j: int| 0 <= j < i ==> keys[j] != key
}

/// The first place where `key` stands in `keys`.
pub open spec fn position(keys: Seq<Seq<char>>, key: Seq<char>) -> Option<int> {
    if exists|i: int| is_first(keys, key, i) {
        Some(choose|i: int| is_first(keys, key, i))
    } else {
        None
    }
}

/// The first place of a key is the place `position` gives.
pub proof fn lemma_position_found(keys: Seq<Seq<char>>, key: Seq<char>, i: int)
    requires
        is_first(keys, key, i),
    ensures
        position(keys, key) == Some(i),
{
    let j = choose|j: int| is_first(keys, key, j);
    assert(is_first(keys, key, j));
    if j < i {
        assert(keys[j] != key);
    } else if i < j {
        assert(keys[i] != key);
    }
}

/// A key that stands nowhere has no position, and the other way round.
pub proof fn lemma_position_none(keys: Seq<Seq<char>>, key: Seq<char>)
    ensures
        position(keys, key) is None <==> !keys.contains(key),
        position(keys, key) matches Some(i) ==> is_first(keys, key, i),
{
    if keys.contains(key) {
        let k = choose|k: int| 0 <= k < keys.len() && keys[k] == key;
        lemma_least(keys, key, k);
    } else {
        if exists|i: int| is_first(keys, key, i) {
            let i = choose|i: int| is_first(keys, key, i);
            assert(keys[i] == key);
        }
    }
}

proof fn lemma_least(keys: Seq<Seq<char>>, key: Seq<char>, k: int)
    requires
        0 <= k < keys.len(),
        keys[k] == key,
    ensures
        exists|i: int| is_first(keys, key, i),
    decreases k,
{
    if exists|j: int| 0 <= j < k && keys[j] == key {
        let j = choose|j: int| 0 <= j < k && keys[j] == key;
        lemma_least(keys, key, j);
    } else {
        assert(is_first(keys, key, k));
    }
}

/// The texts of a parameter list, if all its parameters are texts.
pub open spec fn texts_of(args: Seq<ValueView>) -> Option<Seq<Seq<char>>> {
    if forall|i: int| 0 <= i < args.len() ==> (#[trigger] args[i]) is Text {
        Some(Seq::new(args.len(), |i: int| args[i]->Text_0))
    } else {
        None
    }
}

/// A row of texts.
pub open spec fn text_row(texts: Seq<Seq<char>>) -> Seq<ValueView> {
    Seq::new(texts.len(), |i: int| ValueView::Text(texts[i]))
}

/// A flag as the database stores it.
pub open spec fn flag(b: bool) -> ValueView {
    ValueView::Integer(
        if b {
            1
        } else {
            0
        },
    )
}

/// A user as a row: id, roll, username, password hash, first and last name,
/// the three counters, email, date of birth, the two flags and the profile
/// link.
pub open spec fn user_row(u: UserView) -> Seq<ValueView> {
    seq![
        ValueView::Text(u.id),
        ValueView::Text(u.roll),
        ValueView::Text(u.username),
        ValueView::Text(u.password),
        ValueView::Text(u.first_name),
        ValueView::Text(u.last_name),
        ValueView::Integer(u.posts as i64),
        ValueView::Integer(u.followers as i64),
        ValueView::Integer(u.following as i64),
        ValueView::Text(u.email),
        ValueView::Text(u.dob),
        flag(u.is_active),
        flag(u.is_superuser),
        match u.profile_url {
            Some(link) => ValueView::Text(link),
            None => ValueView::Null,
        },
    ]
}

/// The user that a registration's eight parameters describe: inactive, no
/// superuser, with empty counters and no profile link.
pub open spec fn new_user(a: Seq<Seq<char>>) -> UserView {
    UserView {
        id: a[0],
        email: a[1],
        password: a[2],
        username: a[3],
        first_name: a[4],
        last_name: a[5],
        roll: a[6],
        posts: 0,
        followers: 0,
        following: 0,
        dob: a[7],
        is_active: false,
        is_superuser: false,
        profile_url: None,
    }
}

/// Whether a new user collides with a stored one.
pub open spec fn collides(users: Seq<UserView>, u: UserView) -> bool {
    ids(users).contains(u.id) || emails(users).contains(u.email) || usernames(users).contains(
        u.username,
    ) || rolls(users).contains(u.roll)
}

/// `u`, active.
pub open spec fn activated(u: UserView) -> UserView {
    UserView { is_active: true, ..u }
}

/// The users after every user with `email` was marked active.
pub open spec fn activate(users: Seq<UserView>, email: Seq<char>) -> Seq<UserView> {
    Seq::new(
        users.len(),
        |i: int|
            if users[i].email == email {
                activated(users[i])
            } else {
                users[i]
            },
    )
}

/// The code table after `code` was stored for `email` at `stamp`: the row of
/// that email is overwritten if there is one, else a row is added.
pub open spec fn upsert(
    otps: Seq<StoredOtpView>,
    email: Seq<char>,
    code: Seq<char>,
    stamp: Seq<char>,
) -> Seq<StoredOtpView> {
    let row = StoredOtpView { email, otp: code, created_at: stamp };
    match position(otp_emails(otps), email) {
        Some(i) => otps.update(i, row),
        None => otps.push(row),
    }
}

/// The token table after `token` was revoked: the table is a set, so a token
/// that is in it already is not added again.
pub open spec fn revoke(tokens: Seq<Seq<char>>, token: Seq<char>) -> Seq<Seq<char>> {
    if tokens.contains(token) {
        tokens
    } else {
        tokens.push(token)
    }
}

/// What a query that reads finds: the row at `at`, if there is one.
pub open spec fn found(at: Option<int>, row: spec_fn(int) -> Seq<ValueView>) -> ReplyView {
    match at {
        Some(i) => ReplyView::Row(Some(row(i))),
        None => ReplyView::Row(None),
    }
}

/// What the tables answer to `request` at the database time `stamp`, and what
/// they hold afterwards. A request whose parameters are not texts, or not as
/// many as its query takes, fails and changes nothing; so does a registration
/// that collides with a stored user. Revoking a revoked token succeeds and
/// changes nothing.
pub open spec fn perform(db: Tables, request: RequestView, stamp: Seq<char>) -> (Tables, ReplyView) {
    match texts_of(request.args) {
        None => (db, ReplyView::Failed),
        Some(a) => if a.len() != arity(request.query) {
            (db, ReplyView::Failed)
        } else {
            match request.query {
                Query::UserByEmail => (
                    db,
                    found(position(emails(db.users), a[0]), |i: int| user_row(db.users[i])),
                ),
                Query::InsertUser => if collides(db.users, new_user(a)) {
                    (db, ReplyView::Failed)
                } else {
                    (Tables { users: db.users.push(new_user(a)), ..db }, ReplyView::Done)
                },
                Query::UpsertOtp => (
                    Tables { otps: upsert(db.otps, a[0], a[1], stamp), ..db },
                    ReplyView::Done,
                ),
                Query::OtpByEmail => (
                    db,
                    found(
                        position(otp_emails(db.otps), a[0]),
                        |i: int|
                            text_row(seq![db.otps[i].email, db.otps[i].otp, db.otps[i].created_at]),
                    ),
                ),
                Query::ActivateUser => (
                    Tables { users: activate(db.users, a[0]), ..db },
                    ReplyView::Done,
                ),
                Query::UserIdByEmail => (
                    db,
                    found(position(emails(db.users), a[0]), |i: int| text_row(seq![db.users[i].id])),
                ),
                Query::CredentialsByUsername => (
                    db,
                    found(
                        position(usernames(db.users), a[0]),
                        |i: int| text_row(seq![db.users[i].id, db.users[i].password]),
                    ),
                ),
                Query::RevokedToken => (
                    db,
                    found(position(db.tokens, a[0]), |i: int| text_row(seq![db.tokens[i]])),
                ),
                Query::RevokeToken => (
                    Tables { tokens: revoke(db.tokens, a[0]), ..db },
                    ReplyView::Done,
                ),
            }
        },
    }
}

/// One pending code per email: after a code was stored for an email, that
/// email has exactly one row, and it holds the code and time stored last.
/// The rows of other emails are as they were.
pub proof fn lemma_upsert_keeps_one_row(
    otps: Seq<StoredOtpView>,
    email: Seq<char>,
    code: Seq<char>,
    stamp: Seq<char>,
)
    requires
        otp_emails(otps).no_duplicates(),
    ensures
        ({
            let after = upsert(otps, email, code, stamp);
            &&& otp_emails(after).no_duplicates()
            &&& position(otp_emails(after), email) matches Some(i) && after[i] == (StoredOtpView {
                email,
                otp: code,
                created_at: stamp,
            }) && (forall|j: int| 0 <= j < after.len() && after[j].email == email ==> j == i)
            &&& otp_emails(otps).contains(email) ==> after.len() == otps.len()
            &&& !otp_emails(otps).contains(email) ==> after.len() == otps.len() + 1
            &&& forall|j: int| 0 <= j < otps.len() && otps[j].email != email ==> after[j] == otps[j]
        }),
{
    let keys = otp_emails(otps);
    let after = upsert(otps, email, code, stamp);
    lemma_position_none(keys, email);
    match position(keys, email) {
        Some(i) => {
            assert(keys[i] == email);
            assert forall|a: int, b: int|
                0 <= a < after.len() && 0 <= b < after.len() && a != b implies otp_emails(
                after,
            )[a] != otp_emails(after)[b] by {
                assert(otp_emails(after)[a] == keys[a]);
                assert(otp_emails(after)[b] == keys[b]);
            }
            assert(is_first(otp_emails(after), email, i)) by {
                assert forall|j: int| 0 <= j < i implies otp_emails(after)[j] != email by {
                    assert(otp_emails(after)[j] == keys[j]);
                }
            }
            lemma_position_found(otp_emails(after), email, i);
            assert forall|j: int| 0 <= j < after.len() && after[j].email == email implies j
                == i by {
                assert(otp_emails(after)[j] == email);
                assert(otp_emails(after)[i] == email);
            }
        },
        None => {
            let i = otps.len() as int;
            assert forall|a: int, b: int|
                0 <= a < after.len() && 0 <= b < after.len() && a != b implies otp_emails(
                after,
            )[a] != otp_emails(after)[b] by {
                if a < i {
                    assert(otp_emails(after)[a] == keys[a]);
                }
                if b < i {
                    assert(otp_emails(after)[b] == keys[b]);
                }
            }
            assert(is_first(otp_emails(after), email, i)) by {
                assert forall|j: int| 0 <= j < i implies otp_emails(after)[j] != email by {
                    assert(otp_emails(after)[j] == keys[j]);
                }
            }
            lemma_position_found(otp_emails(after), email, i);
            assert forall|j: int| 0 <= j < after.len() && after[j].email == email implies j
                == i by {
                if j < i {
                    assert(keys[j] == email);
                }
            }
        },
    }
}

proof fn lemma_push_keeps_distinct(keys: Seq<Seq<char>>, key: Seq<char>)
    requires
        keys.no_duplicates(),
        !keys.contains(key),
    ensures
        keys.push(key).no_duplicates(),
{
    let after = keys.push(key);
    assert forall|a: int, b: int| 0 <= a < after.len() && 0 <= b < after.len() && a != b implies after[a]
        != after[b] by {
        if a < keys.len() {
            assert(keys.contains(keys[a]));
        }
        if b < keys.len() {
            assert(keys.contains(keys[b]));
        }
    }
}

/// The tables keep their uniqueness, whatever is asked of them.
pub proof fn lemma_perform_keeps_wf(db: Tables, request: RequestView, stamp: Seq<char>)
    requires
        tables_wf(db),
    ensures
        tables_wf(perform(db, request, stamp).0),
{
    let after = perform(db, request, stamp).0;
    if after != db {
        let a = texts_of(request.args)->0;
        match request.query {
            Query::InsertUser => {
                let u = new_user(a);
                assert(ids(after.users) =~= ids(db.users).push(u.id));
                assert(emails(after.users) =~= emails(db.users).push(u.email));
                assert(usernames(after.users) =~= usernames(db.users).push(u.username));
                assert(rolls(after.users) =~= rolls(db.users).push(u.roll));
                lemma_push_keeps_distinct(ids(db.users), u.id);
                lemma_push_keeps_distinct(emails(db.users), u.email);
                lemma_push_keeps_distinct(usernames(db.users), u.username);
                lemma_push_keeps_distinct(rolls(db.users), u.roll);
            },
            Query::UpsertOtp => {
                lemma_upsert_keeps_one_row(db.otps, a[0], a[1], stamp);
            },
            Query::ActivateUser => {
                assert(ids(after.users) =~= ids(db.users));
                assert(emails(after.users) =~= emails(db.users));
                assert(usernames(after.users) =~= usernames(db.users));
                assert(rolls(after.users) =~= rolls(db.users));
            },
            Query::RevokeToken => {
                if !db.tokens.contains(a[0]) {
                    lemma_push_keeps_distinct(db.tokens, a[0]);
                }
            },
            _ => {},
        }
    }
}

fn all_texts(args: &Vec<Value>) -> (yes: bool)
    ensures
        yes == texts_of(values_view(args@)) is Some,
{
    let mut i: usize = 0;
    while i < args.len()
        invariant
            i <= args.len(),
            forall|k: int| 0 <= k < i ==> (#[trigger] values_view(args@)[k]) is Text,
        decreases args.len() - i,
    {
        match &args[i] {
            Value::Text(_) => {},
            _ => {
                assert(!(values_view(args@)[i as int] is Text));
                return false;
            },
        }
        i = i + 1;
    }
    true
}

fn text_arg(args: &Vec<Value>, i: usize) -> (text: &String)
    requires
        i < args.len(),
        texts_of(values_view(args@)) is Some,
    ensures
        text@ == texts_of(values_view(args@))->0[i as int],
{
    assert(values_view(args@)[i as int] is Text);
    match &args[i] {
        Value::Text(t) => t,
        _ => vstd::pervasive::unreached(),
    }
}

fn text(t: &String) -> (v: Value)
    ensures
        v@ == ValueView::Text(t@),
{
    Value::Text(t.clone())
}

fn flag_value(b: bool) -> (v: Value)
    ensures
        v@ == flag(b),
{
    Value::Integer(
        if b {
            1
        } else {
            0
        },
    )
}

fn row_of_user(u: &User) -> (row: Vec<Value>)
    ensures
        values_view(row@) == user_row(u@),
{
    let mut row: Vec<Value> = Vec::new();
    row.push(text(&u.id));
    row.push(text(&u.roll));
    row.push(text(&u.username));
    row.push(text(&u.password));
    row.push(text(&u.first_name));
    row.push(text(&u.last_name));
    row.push(Value::Integer(u.posts as i64));
    row.push(Value::Integer(u.followers as i64));
    row.push(Value::Integer(u.following as i64));
    row.push(text(&u.email));
    row.push(text(&u.dob));
    row.push(flag_value(u.is_active));
    row.push(flag_value(u.is_superuser));
    row.push(
        match &u.profile_url {
            Some(link) => text(link),
            None => Value::Null,
        },
    );
    assert(values_view(row@) =~= user_row(u@));
    row
}

fn row_of_one(a: &String) -> (row: Vec<Value>)
    ensures
        values_view(row@) == text_row(seq![a@]),
{
    let mut row: Vec<Value> = Vec::new();
    row.push(text(a));
    assert(values_view(row@) =~= text_row(seq![a@]));
    row
}

fn row_of_two(a: &String, b: &String) -> (row: Vec<Value>)
    ensures
        values_view(row@) == text_row(seq![a@, b@]),
{
    let mut row: Vec<Value> = Vec::new();
    row.push(text(a));
    row.push(text(b));
    assert(values_view(row@) =~= text_row(seq![a@, b@]));
    row
}

fn row_of_three(a: &String, b: &String, c: &String) -> (row: Vec<Value>)
    ensures
        values_view(row@) == text_row(seq![a@, b@, c@]),
{
    let mut row: Vec<Value> = Vec::new();
    row.push(text(a));
    row.push(text(b));
    row.push(text(c));
    assert(values_view(row@) =~= text_row(seq![a@, b@, c@]));
    row
}

/// Which column of the user table a search goes by.
#[derive(Debug, Clone, Copy, PartialEq, Eq, Structural)]
pub enum UserKey {
    Id,
    Email,
    Username,
    Roll,
}

/// The column of the user table that `by` names.
pub open spec fn user_keys(users: Seq<UserView>, by: UserKey) -> Seq<Seq<char>> {
    match by {
        UserKey::Id => ids(users),
        UserKey::Email => emails(users),
        UserKey::Username => usernames(users),
        UserKey::Roll => rolls(users),
    }
}

/// Whether an exec place is the place a spec position names.
pub open spec fn same_place(place: Option<usize>, at: Option<int>) -> bool {
    match place {
        Some(i) => at == Some(i as int),
        None => at is None,
    }
}

fn user_key(u: &User, by: UserKey) -> (key: &String)
    ensures
        key@ == user_keys(seq![u@], by)[0],
{
    match by {
        UserKey::Id => &u.id,
        UserKey::Email => &u.email,
        UserKey::Username => &u.username,
        UserKey::Roll => &u.roll,
    }
}

fn find_user(users: &Vec<User>, by: UserKey, key: &str) -> (place: Option<usize>)
    ensures
        same_place(place, position(user_keys(users_view(users@), by), key@)),
        place matches Some(i) ==> i < users.len(),
{
    let ghost keys = user_keys(users_view(users@), by);
    let mut i: usize = 0;
    while i < users.len()
        invariant
            i <= users.len(),
            keys == user_keys(users_view(users@), by),
            keys.len() == users.len(),
            forall|j: int| 0 <= j < i ==> keys[j] != key@,
        decreases users.len() - i,
    {
        let k = user_key(&users[i], by);
        assert(k@ == keys[i as int]);
        if str_eq(k.as_str(), key) {
            proof {
                lemma_position_found(keys, key@, i as int);
            }
            return Some(i);
        }
        i = i + 1;
    }
    proof {
        lemma_position_none(keys, key@);
    }
    None
}

fn find_otp(otps: &Vec<StoredOtp>, email: &str) -> (place: Option<usize>)
    ensures
        same_place(place, position(otp_emails(otps_view(otps@)), email@)),
        place matches Some(i) ==> i < otps.len(),
{
    let ghost keys = otp_emails(otps_view(otps@));
    let mut i: usize = 0;
    while i < otps.len()
        invariant
            i <= otps.len(),
            keys == otp_emails(otps_view(otps@)),
            forall|j: int| 0 <= j < i ==> keys[j] != email@,
        decreases otps.len() - i,
    {
        if str_eq(otps[i].email.as_str(), email) {
            proof {
                lemma_position_found(keys, email@, i as int);
            }
            return Some(i);
        }
        i = i + 1;
    }
    proof {
        lemma_position_none(keys, email@);
    }
    None
}

fn find_token(tokens: &Vec<String>, token: &str) -> (place: Option<usize>)
    ensures
        same_place(place, position(texts_view(tokens@), token@)),
        place matches Some(i) ==> i < tokens.len(),
        place is Some <==> texts_view(tokens@).contains(token@),
{
    let ghost keys = texts_view(tokens@);
    proof {
        lemma_position_none(keys, token@);
    }
    let mut i: usize = 0;
    while i < tokens.len()
        invariant
            i <= tokens.len(),
            keys == texts_view(tokens@),
            forall|j: int| 0 <= j < i ==> keys[j] != token@,
        decreases tokens.len() - i,
    {
        if str_eq(tokens[i].as_str(), token) {
            proof {
                lemma_position_found(keys, token@, i as int);
            }
            return Some(i);
        }
        i = i + 1;
    }
    None
}

fn user_of(a: &Vec<Value>) -> (u: User)
    requires
        a.len() == 8,
        texts_of(values_view(a@)) is Some,
    ensures
        u@ == new_user(texts_of(values_view(a@))->0),
{
    User {
        id: text_arg(a, 0).clone(),
        email: text_arg(a, 1).clone(),
        password: text_arg(a, 2).clone(),
        username: text_arg(a, 3).clone(),
        first_name: text_arg(a, 4).clone(),
        last_name: text_arg(a, 5).clone(),
        roll: text_arg(a, 6).clone(),
        posts: 0,
        followers: 0,
        following: 0,
        dob: text_arg(a, 7).clone(),
        is_active: false,
        is_superuser: false,
        profile_url: None,
    }
}

impl MemoryDb {
    /// Empty tables.
    pub fn new() -> (db: MemoryDb)
        ensures
            db@.users.len() == 0,
            db@.otps.len() == 0,
            db@.tokens.len() == 0,
            tables_wf(db@),
    {
        MemoryDb { users: Vec::new(), otps: Vec::new(), tokens: Vec::new() }
    }

    fn user_collides(&self, u: &User) -> (yes: bool)
        ensures
            yes == collides(self@.users, u@),
    {
        proof {
            lemma_position_none(ids(self@.users), u@.id);
            lemma_position_none(emails(self@.users), u@.email);
            lemma_position_none(usernames(self@.users), u@.username);
            lemma_position_none(rolls(self@.users), u@.roll);
        }
        find_user(&self.users, UserKey::Id, u.id.as_str()).is_some() || find_user(
            &self.users,
            UserKey::Email,
            u.email.as_str(),
        ).is_some() || find_user(&self.users, UserKey::Username, u.username.as_str()).is_some()
            || find_user(&self.users, UserKey::Roll, u.roll.as_str()).is_some()
    }

    fn activate_all(&mut self, email: &str)
        ensures
            final(self)@ == (Tables { users: activate(old(self)@.users, email@), ..old(self)@ }),
    {
        let mut i: usize = 0;
        while i < self.users.len()
            invariant
                i <= self.users.len(),
                self.users.len() == old(self).users.len(),
                self.otps == old(self).otps,
                self.tokens == old(self).tokens,
                forall|k: int|
                    0 <= k < i ==> (#[trigger] self.users@[k])@ == activate(
                        old(self)@.users,
                        email@,
                    )[k],
                forall|k: int| i <= k < self.users.len() ==> self.users@[k] == old(self).users@[k],
            decreases self.users.len() - i,
        {
            if str_eq(self.users[i].email.as_str(), email) {
                self.users[i].is_active = true;
            }
            i = i + 1;
        }
        assert(self@.users =~= activate(old(self)@.users, email@));
    }

    fn store_otp(&mut self, email: &String, code: &String, stamp: &str)
        ensures
            final(self)@ == (Tables {
                otps: upsert(old(self)@.otps, email@, code@, stamp@),
                ..old(self)@
            }),
    {
        let row = StoredOtp {
            email: email.clone(),
            otp: code.clone(),
            created_at: stamp.to_string(),
        };
        match find_otp(&self.otps, email.as_str()) {
            Some(i) => {
                self.otps[i] = row;
                assert(self@.otps =~= upsert(old(self)@.otps, email@, code@, stamp@));
            },
            None => {
                self.otps.push(row);
                assert(self@.otps =~= upsert(old(self)@.otps, email@, code@, stamp@));
            },
        }
    }

    /// Answers `request` at the database time `stamp`.
    pub fn perform(&mut self, request: &Request, stamp: &str) -> (reply: Reply)
        ensures
            (final(self)@, reply@) == perform(old(self)@, request@, stamp@),
            tables_wf(old(self)@) ==> tables_wf(final(self)@),
    {
        proof {
            if tables_wf(self@) {
                lemma_perform_keeps_wf(self@, request@, stamp@);
            }
        }
        let a = &request.args;
        if !all_texts(a) {
            return Reply::Failed;
        }
        let ghost texts = texts_of(values_view(a@))->0;
        match request.query {
            Query::InsertUser => {
                if a.len() != 8 {
                    return Reply::Failed;
                }
                let u = user_of(a);
                if self.user_collides(&u) {
                    return Reply::Failed;
                }
                self.users.push(u);
                assert(self@.users =~= old(self)@.users.push(new_user(texts)));
                Reply::Done
            },
            Query::UpsertOtp => {
                if a.len() != 2 {
                    return Reply::Failed;
                }
                self.store_otp(text_arg(a, 0), text_arg(a, 1), stamp);
                Reply::Done
            },
            _ => {
                if a.len() != 1 {
                    return Reply::Failed;
                }
                let key = text_arg(a, 0);
                match request.query {
                    Query::UserByEmail => match find_user(&self.users, UserKey::Email, key.as_str()) {
                        Some(i) => Reply::Row(Some(row_of_user(&self.users[i]))),
                        None => Reply::Row(None),
                    },
                    Query::OtpByEmail => match find_otp(&self.otps, key.as_str()) {
                        Some(i) => Reply::Row(
                            Some(
                                row_of_three(
                                    &self.otps[i].email,
                                    &self.otps[i].otp,
                                    &self.otps[i].created_at,
                                ),
                            ),
                        ),
                        None => Reply::Row(None),
                    },
                    Query::ActivateUser => {
                        self.activate_all(key.as_str());
                        Reply::Done
                    },
                    Query::UserIdByEmail => match find_user(
                        &self.users,
                        UserKey::Email,
                        key.as_str(),
                    ) {
                        Some(i) => Reply::Row(Some(row_of_one(&self.users[i].id))),
                        None => Reply::Row(None),
                    },
                    Query::CredentialsByUsername => match find_user(
                        &self.users,
                        UserKey::Username,
                        key.as_str(),
                    ) {
                        Some(i) => Reply::Row(
                            Some(row_of_two(&self.users[i].id, &self.users[i].password)),
                        ),
                        None => Reply::Row(None),
                    },
                    Query::RevokedToken => match find_token(&self.tokens, key.as_str()) {
                        Some(i) => Reply::Row(Some(row_of_one(&self.tokens[i]))),
                        None => Reply::Row(None),
                    },
                    Query::RevokeToken => {
                        if find_token(&self.tokens, key.as_str()).is_none() {
                            self.tokens.push(key.clone());
                            assert(self@.tokens =~= old(self)@.tokens.push(key@));
                        }
                        Reply::Done
                    },
                    _ => Reply::Failed,
                }
            },
        }
    }

    /// Whether the user with `email` is active; `None` where there is no
    /// such user.
    pub fn is_active(&self, email: &str) -> (active: Option<bool>)
        ensures
            active == match position(emails(self@.users), email@) {
                Some(i) => Some(self@.users[i].is_active),
                None => None,
            },
    {
        match find_user(&self.users, UserKey::Email, email) {
            Some(i) => Some(self.users[i].is_active),
            None => None,
        }
    }

    /// Whether `token` is revoked.
    pub fn is_revoked(&self, token: &str) -> (yes: bool)
        ensures
            yes == self@.tokens.contains(token@),
    {
        find_token(&self.tokens, token).is_some()
    }

    /// How many pending codes there are, over all emails.
    pub fn pending_codes(&self) -> (n: usize)
        ensures
            n == self@.otps.len(),
    {
        self.otps.len()
    }

    /// How many users are stored.
    pub fn user_count(&self) -> (n: usize)
        ensures
            n == self@.users.len(),
    {
        self.users.len()
    }

    /// How many tokens are revoked.
    pub fn revoked_count(&self) -> (n: usize)
        ensures
            n == self@.tokens.len(),
    {
        self.tokens.len()
    }
}

} // verus!
