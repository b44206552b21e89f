//! Users, as stored and as submitted for registration.
use crate::db::{ask, Query, Request, RequestView, Value};
use crate::password::{bcrypt_verdict, hash_password};
use crate::validation::{
    broken_rule, email_ok, email_shape_ok, note, url_ok, url_shape_ok, Violation,
};
use vstd::prelude::*;
use vstd::string::*;

verus! {

/// A stored user. `password` holds the hash, never the password itself.
#[derive(Debug, Clone, PartialEq, Eq)]
pub struct User {
    pub id: String,
    pub email: String,
    pub password: String,
    pub username: String,
    pub first_name: String,
    pub last_name: String,
    pub roll: String,
    pub posts: i32,
    pub followers: i32,
    pub following: i32,
    pub dob: String,
    pub is_active: bool,
    pub is_superuser: bool,
    pub profile_url: Option<String>,
}

/// The mathematical value of a [`User`].
pub struct UserView {
    pub id: Seq<char>,
    pub email: Seq<char>,
    pub password: Seq<char>,
    pub username: Seq<char>,
    pub first_name: Seq<char>,
    pub last_name: Seq<char>,
    pub roll: Seq<char>,
    pub posts: i32,
    pub followers: i32,
    pub following: i32,
    pub dob: Seq<char>,
    pub is_active: bool,
    pub is_superuser: bool,
    pub profile_url: Option<Seq<char>>,
}

impl View for User {
    type V = UserView;

    open spec fn view(&self) -> UserView {
        UserView {
            id: self.id@,
            email: self.email@,
            password: self.password@,
            username: self.username@,
            first_name: self.first_name@,
            last_name: self.last_name@,
            roll: self.roll@,
            posts: self.posts,
            followers: self.followers,
            following: self.following,
            dob: self.dob@,
            is_active: self.is_active,
            is_superuser: self.is_superuser,
            profile_url: crate::text::option_view(self.profile_url),
        }
    }
}

/// The format rules a stored user breaks, in the order of its fields.
pub open spec fn user_violations(user: UserView) -> Seq<Violation> {
    broken_rule(!email_shape_ok(user.email), Violation::InvalidEmail) + broken_rule(
        user.password.len() < 8,
        Violation::PasswordTooShort,
    ) + broken_rule(user.username.len() < 4, Violation::UsernameTooShort) + broken_rule(
        user.profile_url matches Some(link) && !url_shape_ok(link),
        Violation::InvalidUrl,
    )
}

impl User {
    /// The format rules this user breaks: the email must be an email
    /// address, the password at least 8 characters, the username at least 4,
    /// and the profile link, if there is one, a URL.
    pub fn validate(&self) -> (found: Vec<Violation>)
        ensures
            found@ == user_violations(self@),
    {
        let mut found: Vec<Violation> = Vec::new();
        note(&mut found, !email_ok(self.email.as_str()), Violation::InvalidEmail);
        note(&mut found, self.password.as_str().unicode_len() < 8, Violation::PasswordTooShort);
        note(&mut found, self.username.as_str().unicode_len() < 4, Violation::UsernameTooShort);
        let bad_link = match &self.profile_url {
            Some(link) => !url_ok(link.as_str()),
            None => false,
        };
        note(&mut found, bad_link, Violation::InvalidUrl);
        found
    }
}

/// What a caller submits to register.
#[derive(Debug, Clone, PartialEq, Eq)]
pub struct InsertUser {
    pub email: String,
    pub password: String,
    pub username: String,
    pub first_name: String,
    pub last_name: String,
    pub roll: String,
    pub dob: String,
}

/// The mathematical value of an [`InsertUser`].
pub struct InsertUserView {
    pub email: Seq<char>,
    pub password: Seq<char>,
    pub username: Seq<char>,
    pub first_name: Seq<char>,
    pub last_name: Seq<char>,
    pub roll: Seq<char>,
    pub dob: Seq<char>,
}

impl View for InsertUser {
    type V = InsertUserView;

    open spec fn view(&self) -> InsertUserView {
        InsertUserView {
            email: self.email@,
            password: self.password@,
            username: self.username@,
            first_name: self.first_name@,
            last_name: self.last_name@,
            roll: self.roll@,
            dob: self.dob@,
        }
    }
}

/// The format rules a registration breaks, in the order of its fields.
pub open spec fn registration_violations(form: InsertUserView) -> Seq<Violation> {
    broken_rule(!email_shape_ok(form.email), Violation::InvalidEmail) + broken_rule(
        form.password.len() < 8,
        Violation::PasswordTooShort,
    ) + broken_rule(form.username.len() < 4, Violation::UsernameTooShort)
}

/// The request that stores a registration under `id`, with `hash` in place
/// of the password.
pub open spec fn insert_request(form: InsertUserView, id: Seq<char>, hash: Seq<char>) -> RequestView {
    ask(
        Query::InsertUser,
        seq![
            id,
            form.email,
            hash,
            form.username,
            form.first_name,
            form.last_name,
            form.roll,
            form.dob,
        ],
    )
}

impl InsertUser {
    /// The request that stores this registration under `id`, with `hash` in
    /// place of the password.
    pub fn insert_with(&self, id: &String, hash: &String) -> (request: Request)
        ensures
            request@ == insert_request(self@, id@, hash@),
    {
        let mut args: Vec<Value> = Vec::new();
        args.push(Value::Text(id.clone()));
        args.push(Value::Text(self.email.clone()));
        args.push(Value::Text(hash.clone()));
        args.push(Value::Text(self.username.clone()));
        args.push(Value::Text(self.first_name.clone()));
        args.push(Value::Text(self.last_name.clone()));
        args.push(Value::Text(self.roll.clone()));
        args.push(Value::Text(self.dob.clone()));
        let request = Request { query: Query::InsertUser, args };
        assert(request@.args =~= insert_request(self@, id@, hash@).args);
        request
    }

    /// Hashes the password and gives the request that stores this
    /// registration under `id`. The hash is salted at random; whichever it
    /// is, it is a hash of this password, and it alone goes into the request.
    /// `None` where hashing failed.
    pub fn insert_into_db(&self, id: &String) -> (request: Option<Request>)
        ensures
            request matches Some(r) ==> exists|hash: Seq<char>|
                bcrypt_verdict(self.password@, hash) == Some(true) && r@ == #[trigger] insert_request(
                    self@,
                    id@,
                    hash,
                ),
    {
        match hash_password(self.password.as_str()) {
            None => None,
            Some(hash) => Some(self.insert_with(id, &hash)),
        }
    }

    /// The format rules this registration breaks: the email must be an email
    /// address, the password at least 8 characters, the username at least 4.
    pub fn validate(&self) -> (found: Vec<Violation>)
        ensures
            found@ == registration_violations(self@),
    {
        let mut found: Vec<Violation> = Vec::new();
        note(&mut found, !email_ok(self.email.as_str()), Violation::InvalidEmail);
        note(&mut found, self.password.as_str().unicode_len() < 8, Violation::PasswordTooShort);
        note(&mut found, self.username.as_str().unicode_len() < 4, Violation::UsernameTooShort);
        found
    }
}

} // verus!
