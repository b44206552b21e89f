//! Posts, their images and their likes.
use crate::db::{
    column_text, column_u32, rows_view, statements_view, text_at, text_params, u32_at,
    values_view, Statement, StatementView, Value, ValueView,
};
use crate::ident::random_id;
use crate::validation::{broken_rule, note, Violation};
use vstd::prelude::*;
use vstd::string::*;

verus! {

/// The longest text a post may have, in characters.
pub const POST_LIMIT: usize = 1000;

/// A post to store.
#[derive(Debug, Clone, PartialEq, Eq)]
pub struct CreatePost {
    pub text: String,
    pub public: bool,
}

/// The mathematical value of a [`CreatePost`].
pub struct CreatePostView {
    pub text: Seq<char>,
    pub public: bool,
}

impl View for CreatePost {
    type V = CreatePostView;

    open spec fn view(&self) -> CreatePostView {
        CreatePostView { text: self.text@, public: self.public }
    }
}

/// The statement that stores a post.
pub open spec fn insert_post_sql() -> Seq<char> {
    "INSERT INTO posts (id, user, text, public) VALUES (?1, ?2, ?3, ?4)"@
}

/// The statement that stores the post of `user` under `id`; the flag goes in
/// as 0 or 1.
pub open spec fn post_statement(post: CreatePostView, user: Seq<char>, id: Seq<char>) -> StatementView {
    StatementView {
        sql: insert_post_sql(),
        params: seq![
            ValueView::Text(id),
            ValueView::Text(user),
            ValueView::Text(post.text),
            ValueView::Integer(
                if post.public {
                    1
                } else {
                    0
                },
            ),
        ],
    }
}

impl CreatePost {
    /// The format rules this post breaks: at most 1000 characters.
    pub fn validate(&self) -> (found: Vec<Violation>)
        ensures
            found@ == broken_rule(self@.text.len() > POST_LIMIT, Violation::PostTooLong),
    {
        let mut found: Vec<Violation> = Vec::new();
        note(&mut found, self.text.as_str().unicode_len() > POST_LIMIT, Violation::PostTooLong);
        found
    }

    /// The statement that stores this post of `user` under `uuid`.
    pub fn insert_into_db(&self, user: &String, uuid: &String) -> (statement: Statement)
        ensures
            statement@ == post_statement(self@, user@, uuid@),
    {
        let flag: i64 = if self.public {
            1
        } else {
            0
        };
        let statement = Statement::new(
            "INSERT INTO posts (id, user, text, public) VALUES (?1, ?2, ?3, ?4)",
        ).bind_text(uuid).bind_text(user).bind_text(&self.text).bind(Value::Integer(flag));
        assert(statement@.params =~= post_statement(self@, user@, uuid@).params);
        statement
    }
}

/// The link of an image that belongs to a post.
#[derive(Debug, Clone, PartialEq, Eq)]
pub struct CreatePostImage {
    pub image: String,
}

/// The statement that stores an image.
pub open spec fn insert_image_sql() -> Seq<char> {
    "INSERT INTO post_images (id, post, image_url) VALUES (?1, ?2, ?3)"@
}

impl CreatePostImage {
    /// The statement that stores this image of `post` under `id`.
    pub fn insert_into_db(&self, id: &String, post: &String) -> (statement: Statement)
        ensures
            statement@ == (StatementView {
                sql: insert_image_sql(),
                params: text_params(seq![id@, post@, self.image@]),
            }),
    {
        let statement = Statement::new(
            "INSERT INTO post_images (id, post, image_url) VALUES (?1, ?2, ?3)",
        ).bind_text(id).bind_text(post).bind_text(&self.image);
        assert(statement@.params =~= text_params(seq![id@, post@, self.image@]));
        statement
    }
}

/// A stored public post with its author's name and its counters.
#[derive(Debug, Clone, PartialEq, Eq)]
pub struct RetrieveOtherPost {
    pub id: String,
    pub user: String,
    pub username: String,
    pub likes: u32,
    pub comments: u32,
    pub text: String,
    pub created_at: String,
}

/// The mathematical value of a [`RetrieveOtherPost`].
pub struct RetrieveOtherPostView {
    pub id: Seq<char>,
    pub user: Seq<char>,
    pub username: Seq<char>,
    pub likes: u32,
    pub comments: u32,
    pub text: Seq<char>,
    pub created_at: Seq<char>,
}

impl View for RetrieveOtherPost {
    type V = RetrieveOtherPostView;

    open spec fn view(&self) -> RetrieveOtherPostView {
        RetrieveOtherPostView {
            id: self.id@,
            user: self.user@,
            username: self.username@,
            likes: self.likes,
            comments: self.comments,
            text: self.text@,
            created_at: self.created_at@,
        }
    }
}

/// The statement that lists public posts, newest first.
pub open spec fn list_posts_sql() -> Seq<char> {
    "SELECT posts.id, posts.user, users.username, posts.likes, posts.comments, posts.text, posts.created_at FROM users INNER JOIN posts ON users.id = posts.user WHERE posts.public = true ORDER BY posts.created_at DESC LIMIT ?1"@
}

/// The post that a row holds: three texts, two counters, two texts. `None`
/// where a column is missing or of another type, or a counter does not fit.
pub open spec fn post_of_row(row: Seq<ValueView>) -> Option<RetrieveOtherPostView> {
    match (
        text_at(row, 0),
        text_at(row, 1),
        text_at(row, 2),
        u32_at(row, 3),
        u32_at(row, 4),
        text_at(row, 5),
        text_at(row, 6),
    ) {
        (
            Some(id),
            Some(user),
            Some(username),
            Some(likes),
            Some(comments),
            Some(text),
            Some(created_at),
        ) => Some(RetrieveOtherPostView { id, user, username, likes, comments, text, created_at }),
        _ => None,
    }
}

/// The posts that a list of rows holds, in the order of the rows. `None`
/// where one of the rows is no post.
pub open spec fn posts_of(rows: Seq<Seq<ValueView>>) -> Option<Seq<RetrieveOtherPostView>> {
    if forall|i: int| 0 <= i < rows.len() ==> post_of_row(#[trigger] rows[i]) is Some {
        Some(Seq::new(rows.len(), |i: int| post_of_row(rows[i])->0))
    } else {
        None
    }
}

/// The views of a list of posts.
pub open spec fn posts_view(list: Seq<RetrieveOtherPost>) -> Seq<RetrieveOtherPostView> {
    Seq::new(list.len(), |i: int| list[i]@)
}

impl RetrieveOtherPost {
    /// The statement that lists at most `limit` public posts, newest first.
    /// The listing is the same for every user.
    pub fn retrieve_from_db(user: &String, limit: u32) -> (statement: Statement)
        ensures
            statement@ == (StatementView {
                sql: list_posts_sql(),
                params: seq![ValueView::Integer(limit as i64)],
            }),
    {
        let statement = Statement::new(
            "SELECT posts.id, posts.user, users.username, posts.likes, posts.comments, posts.text, posts.created_at FROM users INNER JOIN posts ON users.id = posts.user WHERE posts.public = true ORDER BY posts.created_at DESC LIMIT ?1",
        ).bind(Value::Integer(limit as i64));
        statement
    }

    /// Reads one row of the listing.
    pub fn from_row(row: &Vec<Value>) -> (post: Option<RetrieveOtherPost>)
        ensures
            match post {
                Some(p) => post_of_row(values_view(row@)) == Some(p@),
                None => post_of_row(values_view(row@)) is None,
            },
    {
        let id = column_text(row, 0)?;
        let user = column_text(row, 1)?;
        let username = column_text(row, 2)?;
        let likes = column_u32(row, 3)?;
        let comments = column_u32(row, 4)?;
        let text = column_text(row, 5)?;
        let created_at = column_text(row, 6)?;
        Some(RetrieveOtherPost { id, user, username, likes, comments, text, created_at })
    }

    /// Reads the rows of the listing, in order.
    pub fn from_rows(rows: &Vec<Vec<Value>>) -> (list: Option<Vec<RetrieveOtherPost>>)
        ensures
            match list {
                Some(l) => posts_of(rows_view(rows@)) == Some(posts_view(l@)),
                None => posts_of(rows_view(rows@)) is None,
            },
    {
        let mut list: Vec<RetrieveOtherPost> = Vec::new();
        let mut i: usize = 0;
        while i < rows.len()
            invariant
                i <= rows.len(),
                list.len() == i,
                forall|k: int|
                    0 <= k < i ==> post_of_row(#[trigger] rows_view(rows@)[k]) == Some(list@[k]@),
            decreases rows.len() - i,
        {
            match Self::from_row(&rows[i]) {
                None => {
                    assert(post_of_row(rows_view(rows@)[i as int]) is None);
                    return None;
                },
                Some(p) => {
                    list.push(p);
                },
            }
            i = i + 1;
        }
        Some(list)
    }
}

/// A like of a post.
#[derive(Debug, Clone, PartialEq, Eq)]
pub struct LikePost;

/// The statement that stores a like.
pub open spec fn insert_like_sql() -> Seq<char> {
    "INSERT INTO post_likes (id, post, user) VALUES (?1, ?2, ?3)"@
}

/// The statement that counts a like on its post.
pub open spec fn count_like_sql() -> Seq<char> {
    "UPDATE posts SET likes = likes + 1 WHERE id = ?1"@
}

/// The statements that store the like of `user` for `post` under `id`, to be
/// run in one transaction: the like itself, then the post's counter.
pub open spec fn like_statements(user: Seq<char>, post: Seq<char>, id: Seq<char>) -> Seq<
    StatementView,
> {
    seq![
        StatementView { sql: insert_like_sql(), params: text_params(seq![id, post, user]) },
        StatementView { sql: count_like_sql(), params: text_params(seq![post]) },
    ]
}

impl LikePost {
    /// The statements that store the like of `user` for `post` under `id`.
    pub fn insert_with(user: &String, post: &String, id: &String) -> (list: Vec<Statement>)
        ensures
            statements_view(list@) == like_statements(user@, post@, id@),
    {
        let insert = Statement::new(
            "INSERT INTO post_likes (id, post, user) VALUES (?1, ?2, ?3)",
        ).bind_text(id).bind_text(post).bind_text(user);
        assert(insert@.params =~= text_params(seq![id@, post@, user@]));
        let count = Statement::new("UPDATE posts SET likes = likes + 1 WHERE id = ?1").bind_text(
            post,
        );
        assert(count@.params =~= text_params(seq![post@]));
        let mut list: Vec<Statement> = Vec::new();
        list.push(insert);
        list.push(count);
        list
    }

    /// The statements that store the like of `user` for `post` under a fresh
    /// random id.
    pub fn insert_into_db(user: &String, post: &String) -> (list: Vec<Statement>)
        ensures
            exists|id: Seq<char>|
                statements_view(list@) == #[trigger] like_statements(user@, post@, id),
    {
        let id = random_id();
        Self::insert_with(user, post, &id)
    }
}

} // verus!
