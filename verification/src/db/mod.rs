//! What the account flows ask of the database, and what comes back.
use vstd::prelude::*;

pub mod memory;

verus! {

/// One column value, as far as this library reads it.
#[derive(Debug, Clone, PartialEq, Eq)]
pub enum Value {
    /// SQL `NULL`.
    Null,
    /// An integer; booleans are stored as 0 and 1.
    Integer(i64),
    /// A text.
    Text(String),
    /// A value of a type that nothing here reads (a real or a blob).
    Other,
}

/// The mathematical value of a [`Value`].
pub enum ValueView {
    Null,
    Integer(i64),
    Text(Seq<char>),
    Other,
}

impl View for Value {
    type V = ValueView;

    open spec fn view(&self) -> ValueView {
        match self {
            Value::Null => ValueView::Null,
            Value::Integer(i) => ValueView::Integer(*i),
            Value::Text(t) => ValueView::Text(t@),
            Value::Other => ValueView::Other,
        }
    }
}

/// The values of a row, or of a parameter list, in order.
pub open spec fn values_view(values: Seq<Value>) -> Seq<ValueView> {
    Seq::new(values.len(), |i: int| values[i]@)
}

/// A parameter list of texts.
pub open spec fn text_params(texts: Seq<Seq<char>>) -> Seq<ValueView> {
    Seq::new(texts.len(), |i: int| ValueView::Text(texts[i]))
}

/// The text in column `index` of a row, if the row has that column and it
/// holds a text.
pub open spec fn text_at(row: Seq<ValueView>, index: int) -> Option<Seq<char>> {
    if 0 <= index < row.len() {
        match row[index] {
            ValueView::Text(t) => Some(t),
            _ => None,
        }
    } else {
        None
    }
}

/// A copy of the text in column `index` of `row`.
pub fn column_text(row: &Vec<Value>, index: usize) -> (text: Option<String>)
    ensures
        match text {
            Some(t) => text_at(values_view(row@), index as int) == Some(t@),
            None => text_at(values_view(row@), index as int) is None,
        },
{
    if index < row.len() {
        match &row[index] {
            Value::Text(t) => Some(t.clone()),
            _ => None,
        }
    } else {
        None
    }
}

/// The statements that the account flows run.
#[derive(Debug, Clone, Copy, PartialEq, Eq, Structural)]
pub enum Query {
    /// The user with a given email: `[email]`.
    UserByEmail,
    /// A new user: `[id, email, password hash, username, first name, last
    /// name, roll, date of birth]`.
    InsertUser,
    /// Sets the one-time code of an email, stamped with the database's
    /// clock: `[email, code]`.
    UpsertOtp,
    /// The one-time code of an email: `[email]`.
    OtpByEmail,
    /// Marks the user with a given email active: `[email]`.
    ActivateUser,
    /// The id of the user with a given email: `[email]`.
    UserIdByEmail,
    /// Id and password hash of the user with a given username: `[username]`.
    CredentialsByUsername,
    /// The revocation entry of a token: `[token]`.
    RevokedToken,
    /// Revokes a token; a token that is revoked already stays so:
    /// `[token]`.
    RevokeToken,
}

/// The SQL text of each query.
pub open spec fn sql_text(query: Query) -> Seq<char> {
    match query {
        Query::UserByEmail => "SELECT * FROM users WHERE email = ?1"@,
        Query::InsertUser =>
            "INSERT INTO users (id, email, password, username, first_name, last_name, roll, dob) VALUES (?1, ?2, ?3, ?4, ?5, ?6, ?7, ?8)"@,
        Query::UpsertOtp =>
            "INSERT INTO otps (email, otp, created_at) VALUES (?1, ?2, CURRENT_TIMESTAMP) ON CONFLICT(email) DO UPDATE SET otp = ?2, created_at = CURRENT_TIMESTAMP"@,
        Query::OtpByEmail => "SELECT * FROM otps WHERE email = ?1"@,
        Query::ActivateUser => "UPDATE users SET is_active = true WHERE email = ?1"@,
        Query::UserIdByEmail => "SELECT id FROM users WHERE email = ?1"@,
        Query::CredentialsByUsername => "SELECT id, password FROM users WHERE username = ?1"@,
        Query::RevokedToken => "SELECT * FROM tokens WHERE token = ?1"@,
        Query::RevokeToken => "INSERT OR IGNORE INTO tokens (token) VALUES (?1)"@,
    }
}

/// How many parameters each query takes.
pub open spec fn arity(query: Query) -> nat {
    match query {
        Query::InsertUser => 8,
        Query::UpsertOtp => 2,
        _ => 1,
    }
}

/// Whether a query hands rows back, rather than changing the tables.
pub open spec fn reads(query: Query) -> bool {
    match query {
        Query::InsertUser | Query::UpsertOtp | Query::ActivateUser | Query::RevokeToken => false,
        _ => true,
    }
}

impl Query {
    /// The SQL text of the query.
    pub fn sql(&self) -> (text: String)
        ensures
            text@ == sql_text(*self),
    {
        match self {
            Query::UserByEmail => "SELECT * FROM users WHERE email = ?1".to_string(),
            Query::InsertUser =>
                "INSERT INTO users (id, email, password, username, first_name, last_name, roll, dob) VALUES (?1, ?2, ?3, ?4, ?5, ?6, ?7, ?8)".to_string(),
            Query::UpsertOtp =>
                "INSERT INTO otps (email, otp, created_at) VALUES (?1, ?2, CURRENT_TIMESTAMP) ON CONFLICT(email) DO UPDATE SET otp = ?2, created_at = CURRENT_TIMESTAMP".to_string(),
            Query::OtpByEmail => "SELECT * FROM otps WHERE email = ?1".to_string(),
            Query::ActivateUser => "UPDATE users SET is_active = true WHERE email = ?1".to_string(),
            Query::UserIdByEmail => "SELECT id FROM users WHERE email = ?1".to_string(),
            Query::CredentialsByUsername =>
                "SELECT id, password FROM users WHERE username = ?1".to_string(),
            Query::RevokedToken => "SELECT * FROM tokens WHERE token = ?1".to_string(),
            Query::RevokeToken => "INSERT OR IGNORE INTO tokens (token) VALUES (?1)".to_string(),
        }
    }

    /// Whether the query hands rows back.
    pub fn is_read(&self) -> (yes: bool)
        ensures
            yes == reads(*self),
    {
        match self {
            Query::InsertUser | Query::UpsertOtp | Query::ActivateUser | Query::RevokeToken => false,
            _ => true,
        }
    }
}

/// One statement for the database to run: a query and its parameters.
#[derive(Debug, Clone, PartialEq, Eq)]
pub struct Request {
    pub query: Query,
    pub args: Vec<Value>,
}

/// The mathematical value of a [`Request`].
pub struct RequestView {
    pub query: Query,
    pub args: Seq<ValueView>,
}

impl View for Request {
    type V = RequestView;

    open spec fn view(&self) -> RequestView {
        RequestView { query: self.query, args: values_view(self.args@) }
    }
}

/// The request for `query` with the text parameters `texts`.
pub open spec fn ask(query: Query, texts: Seq<Seq<char>>) -> RequestView {
    RequestView { query, args: text_params(texts) }
}

impl Request {
    /// A request with one text parameter.
    pub fn one(query: Query, text: &String) -> (request: Request)
        ensures
            request@ == ask(query, seq![text@]),
    {
        let mut args: Vec<Value> = Vec::new();
        args.push(Value::Text(text.clone()));
        let request = Request { query, args };
        assert(request@.args =~= text_params(seq![text@]));
        request
    }

    /// A request with two text parameters.
    pub fn two(query: Query, first: &String, second: &String) -> (request: Request)
        ensures
            request@ == ask(query, seq![first@, second@]),
    {
        let mut args: Vec<Value> = Vec::new();
        args.push(Value::Text(first.clone()));
        args.push(Value::Text(second.clone()));
        let request = Request { query, args };
        assert(request@.args =~= text_params(seq![first@, second@]));
        request
    }
}

/// What the database answered to the last request.
#[derive(Debug, Clone, PartialEq, Eq)]
pub enum Reply {
    /// Nothing was asked yet.
    Nothing,
    /// The statement could not be run.
    Failed,
    /// The statement ran, but its rows could not be fetched.
    Broken,
    /// A statement that changes the tables ran.
    Done,
    /// A query ran; its first row, if it has one.
    Row(Option<Vec<Value>>),
}

/// The mathematical value of a [`Reply`].
pub enum ReplyView {
    Nothing,
    Failed,
    Broken,
    Done,
    Row(Option<Seq<ValueView>>),
}

impl View for Reply {
    type V = ReplyView;

    open spec fn view(&self) -> ReplyView {
        match self {
            Reply::Nothing => ReplyView::Nothing,
            Reply::Failed => ReplyView::Failed,
            Reply::Broken => ReplyView::Broken,
            Reply::Done => ReplyView::Done,
            Reply::Row(None) => ReplyView::Row(None),
            Reply::Row(Some(row)) => ReplyView::Row(Some(values_view(row@))),
        }
    }
}

/// An SQL statement with its positional parameters.
#[derive(Debug, Clone, PartialEq, Eq)]
pub struct Statement {
    pub sql: String,
    pub params: Vec<Value>,
}

/// The mathematical value of a [`Statement`].
pub struct StatementView {
    pub sql: Seq<char>,
    pub params: Seq<ValueView>,
}

impl View for Statement {
    type V = StatementView;

    open spec fn view(&self) -> StatementView {
        StatementView { sql: self.sql@, params: values_view(self.params@) }
    }
}

/// The views of a list of statements.
pub open spec fn statements_view(list: Seq<Statement>) -> Seq<StatementView> {
    Seq::new(list.len(), |i: int| list[i]@)
}

/// The views of a list of rows.
pub open spec fn rows_view(rows: Seq<Vec<Value>>) -> Seq<Seq<ValueView>> {
    Seq::new(rows.len(), |i: int| values_view(rows[i]@))
}

impl Statement {
    /// The statement `sql`, without parameters yet.
    pub fn new(sql: &str) -> (statement: Statement)
        ensures
            statement@ == (StatementView { sql: sql@, params: seq![] }),
    {
        let statement = Statement { sql: sql.to_string(), params: Vec::new() };
        assert(statement@.params =~= seq![]);
        statement
    }

    /// The statement with one more parameter.
    pub fn bind(self, value: Value) -> (statement: Statement)
        ensures
            statement@ == (StatementView { sql: self@.sql, params: self@.params.push(value@) }),
    {
        let mut params = self.params;
        params.push(value);
        let statement = Statement { sql: self.sql, params };
        assert(statement@.params =~= self@.params.push(value@));
        statement
    }

    /// The statement with one more parameter, a text.
    pub fn bind_text(self, text: &String) -> (statement: Statement)
        ensures
            statement@ == (StatementView {
                sql: self@.sql,
                params: self@.params.push(ValueView::Text(text@)),
            }),
    {
        self.bind(Value::Text(text.clone()))
    }
}

impl Request {
    /// The statement to run for this request.
    pub fn statement(self) -> (statement: Statement)
        ensures
            statement@ == (StatementView { sql: sql_text(self@.query), params: self@.args }),
    {
        Statement { sql: self.query.sql(), params: self.args }
    }
}

/// The number in column `index` of a row, if the row has that column and it
/// holds an integer that fits 32 bits without a sign.
pub open spec fn u32_at(row: Seq<ValueView>, index: int) -> Option<u32> {
    if 0 <= index < row.len() {
        match row[index] {
            ValueView::Integer(i) => if 0 <= i <= u32::MAX {
                Some(i as u32)
            } else {
                None
            },
            _ => None,
        }
    } else {
        None
    }
}

/// The text in column `index` of a row that may be `NULL` there: `Some(None)`
/// for `NULL`, nothing where the column is missing or holds another type.
pub open spec fn optional_text_at(row: Seq<ValueView>, index: int) -> Option<Option<Seq<char>>> {
    if 0 <= index < row.len() {
        match row[index] {
            ValueView::Text(t) => Some(Some(t)),
            ValueView::Null => Some(None),
            _ => None,
        }
    } else {
        None
    }
}

/// The number in column `index` of `row`.
pub fn column_u32(row: &Vec<Value>, index: usize) -> (number: Option<u32>)
    ensures
        number == u32_at(values_view(row@), index as int),
{
    if index < row.len() {
        match &row[index] {
            Value::Integer(i) => {
                if 0 <= *i && *i <= 0xffff_ffff {
                    Some(*i as u32)
                } else {
                    None
                }
            },
            _ => None,
        }
    } else {
        None
    }
}

/// The view of an optional text that may be missing.
pub open spec fn optional_text_view(text: Option<Option<String>>) -> Option<Option<Seq<char>>> {
    match text {
        Some(Some(t)) => Some(Some(t@)),
        Some(None) => Some(None),
        None => None,
    }
}

/// A copy of the text in column `index` of `row`, where the column may be
/// `NULL`.
pub fn column_optional_text(row: &Vec<Value>, index: usize) -> (text: Option<Option<String>>)
    ensures
        optional_text_view(text) == optional_text_at(values_view(row@), index as int),
{
    if index < row.len() {
        match &row[index] {
            Value::Text(t) => Some(Some(t.clone())),
            Value::Null => Some(None),
            _ => None,
        }
    } else {
        None
    }
}

} // verus!
