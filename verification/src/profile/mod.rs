//! What the profile routes decide: which statement to run for a request.
use crate::db::{text_params, Statement, StatementView};
use crate::models::profile::{
    search_pattern, search_sql, statement_view, update_statement, RetrieveProfile, UpdateProfile,
};
use crate::text::{lowercase_of, to_lowercase};
use vstd::prelude::*;

verus! {

/// The statement that changes the profile of `user` as `change` asks;
/// `None` where nothing is to change.
pub fn update(change: &UpdateProfile, user: &String) -> (statement: Option<Statement>)
    ensures
        statement_view(statement) == update_statement(change@, user@),
{
    change.update_into_db(user)
}

/// The statement that searches the active users for `text`, whatever the
/// case.
pub fn search(text: &String) -> (statement: Statement)
    ensures
        statement@ == (StatementView {
            sql: search_sql(),
            params: text_params(seq![search_pattern(lowercase_of(text@))]),
        }),
{
    let lower = to_lowercase(text.as_str());
    RetrieveProfile::get_from_db(&lower)
}

} // verus!
