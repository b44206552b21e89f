//! Profiles: changing one's own, searching the others.
use crate::db::{
    column_optional_text, column_text, column_u32, optional_text_at, rows_view, text_at,
    text_params, u32_at, values_view, Statement, StatementView, Value, ValueView,
};
use crate::text::{chars_of, lowercase_of, option_view, string_of, texts_view, to_lowercase};
use vstd::prelude::*;
use vstd::string::*;

verus! {

/// The fields of a profile that a user wants changed; `None` leaves a field
/// as it is.
#[derive(Debug, Clone, PartialEq, Eq)]
pub struct UpdateProfile {
    pub bio: Option<String>,
    pub first_name: Option<String>,
    pub last_name: Option<String>,
}

/// The mathematical value of an [`UpdateProfile`].
pub struct UpdateProfileView {
    pub bio: Option<Seq<char>>,
    pub first_name: Option<Seq<char>>,
    pub last_name: Option<Seq<char>>,
}

impl View for UpdateProfile {
    type V = UpdateProfileView;

    open spec fn view(&self) -> UpdateProfileView {
        UpdateProfileView {
            bio: option_view(self.bio),
            first_name: option_view(self.first_name),
            last_name: option_view(self.last_name),
        }
    }
}

/// `part` if the field is to change, nothing otherwise.
pub open spec fn part_if(field: Option<Seq<char>>, part: Seq<char>) -> Seq<char> {
    if field is Some {
        part
    } else {
        Seq::empty()
    }
}

/// The assignments of the fields that are to change, each followed by a
/// comma and a space.
pub open spec fn assignments(change: UpdateProfileView) -> Seq<char> {
    part_if(change.bio, "bio = ?1, "@) + part_if(change.first_name, "first_name = ?2, "@) + part_if(
        change.last_name,
        "last_name = ?3, "@,
    )
}

/// The new value of a field that is to change, as a parameter list of one;
/// empty otherwise.
pub open spec fn value_if(field: Option<Seq<char>>) -> Seq<Seq<char>> {
    match field {
        Some(t) => seq![t],
        None => Seq::empty(),
    }
}

/// The statement that changes the profile of `user`: the assignments without
/// the comma and space at their end, and as parameters the new values in the
/// order bio, first name, last name, then the user's id. `None` where nothing
/// is to change.
pub open spec fn update_statement(change: UpdateProfileView, user: Seq<char>) -> Option<
    StatementView,
> {
    if change.bio is None && change.first_name is None && change.last_name is None {
        None
    } else {
        let list = assignments(change);
        Some(
            StatementView {
                sql: "UPDATE users SET "@ + list.subrange(0, list.len() - 2) + " WHERE id = ?4"@,
                params: text_params(
                    value_if(change.bio) + value_if(change.first_name) + value_if(
                        change.last_name,
                    ) + seq![user],
                ),
            },
        )
    }
}

/// The view of an optional statement.
pub open spec fn statement_view(statement: Option<Statement>) -> Option<StatementView> {
    match statement {
        Some(s) => Some(s@),
        None => None,
    }
}

fn add_field(list: &mut String, values: &mut Vec<String>, field: &Option<String>, part: &str)
    ensures
        final(list)@ == old(list)@ + part_if(option_view(*field), part@),
        texts_view(final(values)@) == texts_view(
            old(values)@,
        ) + value_if(option_view(*field)),
{
    match field {
        Some(t) => {
            list.append(part);
            values.push(t.clone());
            assert(texts_view(values@) =~= texts_view(
                old(values)@,
            ) + value_if(option_view(*field)));
        },
        None => {
            assert(texts_view(values@) =~= texts_view(
                old(values)@,
            ) + value_if(option_view(*field)));
        },
    }
}

impl UpdateProfile {
    /// The statement that changes the profile of `user` as this asks.
    pub fn update_into_db(&self, user: &String) -> (statement: Option<Statement>)
        ensures
            statement_view(statement) == update_statement(self@, user@),
    {
        if self.bio.is_none() && self.first_name.is_none() && self.last_name.is_none() {
            return None;
        }
        let mut list = String::new();
        let mut values: Vec<String> = Vec::new();
        add_field(&mut list, &mut values, &self.bio, "bio = ?1, ");
        add_field(&mut list, &mut values, &self.first_name, "first_name = ?2, ");
        add_field(&mut list, &mut values, &self.last_name, "last_name = ?3, ");
        values.push(user.clone());
        proof {
            reveal_strlit("bio = ?1, ");
            reveal_strlit("first_name = ?2, ");
            reveal_strlit("last_name = ?3, ");
        }
        let chars = chars_of(list.as_str());
        let kept = string_of(&chars, 0, chars.len() - 2);
        let mut sql = "UPDATE users SET ".to_string();
        sql.append(kept.as_str());
        sql.append(" WHERE id = ?4");
        let mut statement = Statement::new(sql.as_str());
        let ghost texts = value_if(self@.bio) + value_if(self@.first_name) + value_if(
            self@.last_name,
        ) + seq![user@];
        let mut i: usize = 0;
        while i < values.len()
            invariant
                i <= values.len(),
                statement@.sql == sql@,
                texts_view(values@) == texts,
                statement@.params == text_params(texts.take(i as int)),
            decreases values.len() - i,
        {
            statement = statement.bind_text(&values[i]);
            i = i + 1;
        }
        assert(texts.take(values.len() as int) =~= texts);
        Some(statement)
    }
}

/// A profile as a search shows it.
#[derive(Debug, Clone, PartialEq, Eq)]
pub struct RetrieveProfile {
    pub id: String,
    pub first_name: String,
    pub last_name: String,
    pub bio: Option<String>,
    pub username: String,
    pub posts: u32,
}

/// The mathematical value of a [`RetrieveProfile`].
pub struct RetrieveProfileView {
    pub id: Seq<char>,
    pub first_name: Seq<char>,
    pub last_name: Seq<char>,
    pub bio: Option<Seq<char>>,
    pub username: Seq<char>,
    pub posts: u32,
}

impl View for RetrieveProfile {
    type V = RetrieveProfileView;

    open spec fn view(&self) -> RetrieveProfileView {
        RetrieveProfileView {
            id: self.id@,
            first_name: self.first_name@,
            last_name: self.last_name@,
            bio: option_view(self.bio),
            username: self.username@,
            posts: self.posts,
        }
    }
}

/// The statement that searches the active users by username.
pub open spec fn search_sql() -> Seq<char> {
    "SELECT id, first_name, last_name, bio, username, posts FROM users WHERE LOWER(username) LIKE ?1 AND is_active = TRUE;"@
}

/// The pattern that matches every username that holds `query`, whatever the
/// case of either.
pub open spec fn search_pattern(query: Seq<char>) -> Seq<char> {
    "%"@ + lowercase_of(query) + "%"@
}

/// The profile that a row holds. `None` where a column is missing or of
/// another type; the bio alone may be `NULL`.
pub open spec fn profile_of_row(row: Seq<ValueView>) -> Option<RetrieveProfileView> {
    match (
        text_at(row, 0),
        text_at(row, 1),
        text_at(row, 2),
        optional_text_at(row, 3),
        text_at(row, 4),
        u32_at(row, 5),
    ) {
        (Some(id), Some(first_name), Some(last_name), Some(bio), Some(username), Some(posts)) => Some(
            RetrieveProfileView { id, first_name, last_name, bio, username, posts },
        ),
        _ => None,
    }
}

/// The profiles that a list of rows holds, in the order of the rows. `None`
/// where one of the rows is no profile.
pub open spec fn profiles_of(rows: Seq<Seq<ValueView>>) -> Option<Seq<RetrieveProfileView>> {
    if forall|i: int| 0 <= i < rows.len() ==> profile_of_row(#[trigger] rows[i]) is Some {
        Some(Seq::new(rows.len(), |i: int| profile_of_row(rows[i])->0))
    } else {
        None
    }
}

/// The views of a list of profiles.
pub open spec fn profiles_view(list: Seq<RetrieveProfile>) -> Seq<RetrieveProfileView> {
    Seq::new(list.len(), |i: int| list[i]@)
}

impl RetrieveProfile {
    /// The statement that finds the active users whose username holds
    /// `query`, whatever the case.
    pub fn get_from_db(query: &String) -> (statement: Statement)
        ensures
            statement@ == (StatementView {
                sql: search_sql(),
                params: text_params(seq![search_pattern(query@)]),
            }),
    {
        let mut pattern = "%".to_string();
        pattern.append(to_lowercase(query.as_str()).as_str());
        pattern.append("%");
        let statement = Statement::new(
            "SELECT id, first_name, last_name, bio, username, posts FROM users WHERE LOWER(username) LIKE ?1 AND is_active = TRUE;",
        ).bind_text(&pattern);
        assert(statement@.params =~= text_params(seq![search_pattern(query@)]));
        statement
    }

    /// Reads one row of a search.
    pub fn from_row(row: &Vec<Value>) -> (profile: Option<RetrieveProfile>)
        ensures
            match profile {
                Some(p) => profile_of_row(values_view(row@)) == Some(p@),
                None => profile_of_row(values_view(row@)) is None,
            },
    {
        let id = column_text(row, 0)?;
        let first_name = column_text(row, 1)?;
        let last_name = column_text(row, 2)?;
        let bio = column_optional_text(row, 3)?;
        let username = column_text(row, 4)?;
        let posts = column_u32(row, 5)?;
        Some(RetrieveProfile { id, first_name, last_name, bio, username, posts })
    }

    /// Reads the rows of a search, in order.
    pub fn from_rows(rows: &Vec<Vec<Value>>) -> (list: Option<Vec<RetrieveProfile>>)
        ensures
            match list {
                Some(l) => profiles_of(rows_view(rows@)) == Some(profiles_view(l@)),
                None => profiles_of(rows_view(rows@)) is None,
            },
    {
        let mut list: Vec<RetrieveProfile> = Vec::new();
        let mut i: usize = 0;
        while i < rows.len()
            invariant
                i <= rows.len(),
                list.len() == i,
                forall|k: int|
                    0 <= k < i ==> profile_of_row(#[trigger] rows_view(rows@)[k]) == Some(
                        list@[k]@,
                    ),
            decreases rows.len() - i,
        {
            match Self::from_row(&rows[i]) {
                None => {
                    assert(profile_of_row(rows_view(rows@)[i as int]) is None);
                    return None;
                },
                Some(p) => {
                    list.push(p);
                },
            }
            i = i + 1;
        }
        Some(list)
    }
}

} // verus!
