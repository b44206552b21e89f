//! Comments on posts.
use crate::db::{
    column_text, rows_view, statements_view, text_at, text_params, values_view, Statement,
    StatementView, Value, ValueView,
};
use crate::ident::random_id;
use crate::validation::{broken_rule, note, Violation};
use vstd::prelude::*;
use vstd::string::*;

verus! {

/// The longest text a comment may have, in characters.
pub const COMMENT_LIMIT: usize = 500;

/// A comment to store.
#[derive(Debug, Clone, PartialEq, Eq)]
pub struct CreateComment {
    pub post: String,
    pub text: String,
}

/// The mathematical value of a [`CreateComment`].
pub struct CreateCommentView {
    pub post: Seq<char>,
    pub text: Seq<char>,
}

impl View for CreateComment {
    type V = CreateCommentView;

    open spec fn view(&self) -> CreateCommentView {
        CreateCommentView { post: self.post@, text: self.text@ }
    }
}

/// The statement that stores a comment.
pub open spec fn insert_comment_sql() -> Seq<char> {
    "INSERT INTO post_comments (id, user, post, text) VALUES (?1, ?2, ?3, ?4)"@
}

/// The statement that counts a comment on its post.
pub open spec fn count_comment_sql() -> Seq<char> {
    "UPDATE posts SET comments = comments + 1 WHERE id = ?1"@
}

/// The statements that store the comment of `user` under `id`, to be run in
/// one transaction: the comment itself, then the post's counter.
pub open spec fn comment_statements(
    comment: CreateCommentView,
    user: Seq<char>,
    id: Seq<char>,
) -> Seq<StatementView> {
    seq![
        StatementView {
            sql: insert_comment_sql(),
            params: text_params(seq![id, user, comment.post, comment.text]),
        },
        StatementView { sql: count_comment_sql(), params: text_params(seq![comment.post]) },
    ]
}

impl CreateComment {
    /// The format rules this comment breaks: at most 500 characters.
    pub fn validate(&self) -> (found: Vec<Violation>)
        ensures
            found@ == broken_rule(self@.text.len() > COMMENT_LIMIT, Violation::CommentTooLong),
    {
        let mut found: Vec<Violation> = Vec::new();
        note(
            &mut found,
            self.text.as_str().unicode_len() > COMMENT_LIMIT,
            Violation::CommentTooLong,
        );
        found
    }

    /// The statements that store this comment of `user` under `id`.
    pub fn insert_with(&self, user: &String, id: &String) -> (list: Vec<Statement>)
        ensures
            statements_view(list@) == comment_statements(self@, user@, id@),
    {
        let insert = Statement::new(
            "INSERT INTO post_comments (id, user, post, text) VALUES (?1, ?2, ?3, ?4)",
        ).bind_text(id).bind_text(user).bind_text(&self.post).bind_text(&self.text);
        assert(insert@.params =~= text_params(seq![id@, user@, self@.post, self@.text]));
        let count = Statement::new(
            "UPDATE posts SET comments = comments + 1 WHERE id = ?1",
        ).bind_text(&self.post);
        assert(count@.params =~= text_params(seq![self@.post]));
        let mut list: Vec<Statement> = Vec::new();
        list.push(insert);
        list.push(count);
        list
    }

    /// The statements that store this comment of `user` under a fresh random
    /// id.
    pub fn insert_into_db(&self, user: &String) -> (list: Vec<Statement>)
        ensures
            exists|id: Seq<char>| statements_view(list@) == #[trigger] comment_statements(self@, user@, id),
    {
        let id = random_id();
        self.insert_with(user, &id)
    }
}

/// A stored comment with its author's name.
#[derive(Debug, Clone, PartialEq, Eq)]
pub struct RetrieveComment {
    pub id: String,
    pub user: String,
    pub username: String,
    pub text: String,
    pub created_at: String,
}

/// The mathematical value of a [`RetrieveComment`].
pub struct RetrieveCommentView {
    pub id: Seq<char>,
    pub user: Seq<char>,
    pub username: Seq<char>,
    pub text: Seq<char>,
    pub created_at: Seq<char>,
}

impl View for RetrieveComment {
    type V = RetrieveCommentView;

    open spec fn view(&self) -> RetrieveCommentView {
        RetrieveCommentView {
            id: self.id@,
            user: self.user@,
            username: self.username@,
            text: self.text@,
            created_at: self.created_at@,
        }
    }
}

/// The statement that lists the comments of a post, newest first.
pub open spec fn list_comments_sql() -> Seq<char> {
    "SELECT post_comments.id, post_comments.user, users.username, post_comments.text, post_comments.created_at FROM users INNER JOIN post_comments ON users.id = post_comments.user WHERE post_comments.post = ?1 ORDER BY post_comments.created_at DESC"@
}

/// The comment that a row holds: five texts. `None` where a column is
/// missing or holds no text.
pub open spec fn comment_of_row(row: Seq<ValueView>) -> Option<RetrieveCommentView> {
    match (text_at(row, 0), text_at(row, 1), text_at(row, 2), text_at(row, 3), text_at(row, 4)) {
        (Some(id), Some(user), Some(username), Some(text), Some(created_at)) => Some(
            RetrieveCommentView { id, user, username, text, created_at },
        ),
        _ => None,
    }
}

/// The comments that a list of rows holds, in the order of the rows. `None`
/// where one of the rows is no comment.
pub open spec fn comments_of(rows: Seq<Seq<ValueView>>) -> Option<Seq<RetrieveCommentView>> {
    if forall|i: int| 0 <= i < rows.len() ==> comment_of_row(#[trigger] rows[i]) is Some {
        Some(Seq::new(rows.len(), |i: int| comment_of_row(rows[i])->0))
    } else {
        None
    }
}

/// The views of a list of comments.
pub open spec fn comments_view(list: Seq<RetrieveComment>) -> Seq<RetrieveCommentView> {
    Seq::new(list.len(), |i: int| list[i]@)
}

impl RetrieveComment {
    /// The statement that lists the comments of `post`, newest first.
    pub fn retrieve_from_db(post: &String) -> (statement: Statement)
        ensures
            statement@ == (StatementView {
                sql: list_comments_sql(),
                params: text_params(seq![post@]),
            }),
    {
        let statement = Statement::new(
            "SELECT post_comments.id, post_comments.user, users.username, post_comments.text, post_comments.created_at FROM users INNER JOIN post_comments ON users.id = post_comments.user WHERE post_comments.post = ?1 ORDER BY post_comments.created_at DESC",
        ).bind_text(post);
        assert(statement@.params =~= text_params(seq![post@]));
        statement
    }

    /// Reads one row of the listing.
    pub fn from_row(row: &Vec<Value>) -> (comment: Option<RetrieveComment>)
        ensures
            match comment {
                Some(c) => comment_of_row(values_view(row@)) == Some(c@),
                None => comment_of_row(values_view(row@)) is None,
            },
    {
        let id = column_text(row, 0)?;
        let user = column_text(row, 1)?;
        let username = column_text(row, 2)?;
        let text = column_text(row, 3)?;
        let created_at = column_text(row, 4)?;
        Some(RetrieveComment { id, user, username, text, created_at })
    }

    /// Reads the rows of the listing, in order.
    pub fn from_rows(rows: &Vec<Vec<Value>>) -> (list: Option<Vec<RetrieveComment>>)
        ensures
            match list {
                Some(l) => comments_of(rows_view(rows@)) == Some(comments_view(l@)),
                None => comments_of(rows_view(rows@)) is None,
            },
    {
        let mut list: Vec<RetrieveComment> = Vec::new();
        let mut i: usize = 0;
        while i < rows.len()
            invariant
                i <= rows.len(),
                list.len() == i,
                forall|k: int|
                    0 <= k < i ==> comment_of_row(#[trigger] rows_view(rows@)[k]) == Some(
                        list@[k]@,
                    ),
            decreases rows.len() - i,
        {
            match Self::from_row(&rows[i]) {
                None => {
                    assert(comment_of_row(rows_view(rows@)[i as int]) is None);
                    return None;
                },
                Some(c) => {
                    list.push(c);
                },
            }
            i = i + 1;
        }
        Some(list)
    }
}

} // verus!
