//! What the post routes decide: which statements to run for a request, or
//! which format rules it breaks.
use crate::db::{statements_view, text_params, Statement, StatementView, ValueView};
use crate::ident::{new_user_id, random_seed, user_id};
use crate::models::comment::{
    comment_statements, list_comments_sql, CreateComment, CreateCommentView, RetrieveComment,
    COMMENT_LIMIT,
};
use crate::models::post::{
    like_statements, list_posts_sql, post_statement, CreatePost, CreatePostView, LikePost,
    RetrieveOtherPost, POST_LIMIT,
};
use crate::validation::Violation;
use vstd::prelude::*;

verus! {

/// How many posts a listing shows where the request names no count.
pub const DEFAULT_COUNT: i32 = 10;

/// What creating a post comes to, under the id that the clock sequence `seed`
/// gives: the statement that stores it, or the format rules it breaks.
pub open spec fn create_plan(post: CreatePostView, user: Seq<char>, seed: u16) -> Result<
    StatementView,
    Seq<Violation>,
> {
    if post.text.len() > POST_LIMIT {
        Err(seq![Violation::PostTooLong])
    } else {
        Ok(post_statement(post, user, user_id(seed)))
    }
}

/// The view of a plan of one statement.
pub open spec fn plan_view(plan: Result<Statement, Vec<Violation>>) -> Result<
    StatementView,
    Seq<Violation>,
> {
    match plan {
        Ok(s) => Ok(s@),
        Err(found) => Err(found@),
    }
}

/// The view of a plan of several statements.
pub open spec fn plans_view(plan: Result<Vec<Statement>, Vec<Violation>>) -> Result<
    Seq<StatementView>,
    Seq<Violation>,
> {
    match plan {
        Ok(list) => Ok(statements_view(list@)),
        Err(found) => Err(found@),
    }
}

/// Creating a post for `user`, with the clock sequence for its id given.
pub fn create_with(post: &CreatePost, user: &String, seed: u16) -> (plan: Result<
    Statement,
    Vec<Violation>,
>)
    ensures
        plan_view(plan) == create_plan(post@, user@, seed),
{
    let found = post.validate();
    if found.len() > 0 {
        return Err(found);
    }
    let id = new_user_id(seed);
    Ok(post.insert_into_db(user, &id))
}

/// Creating a post for `user`. The clock sequence of its id is drawn at
/// random.
pub fn create(post: &CreatePost, user: &String) -> (plan: Result<Statement, Vec<Violation>>)
    ensures
        exists|seed: u16| plan_view(plan) == #[trigger] create_plan(post@, user@, seed),
{
    let seed = random_seed();
    create_with(post, user, seed)
}

/// The number of posts to list for a requested count: ten where none is
/// named; a negative count, read without its sign bit, is beyond any number
/// of posts.
pub open spec fn limit_of(count: Option<i32>) -> u32 {
    match count {
        None => 10,
        Some(c) => if c >= 0 {
            c as u32
        } else {
            (c + 0x1_0000_0000) as u32
        },
    }
}

fn limit(count: Option<i32>) -> (n: u32)
    ensures
        n == limit_of(count),
{
    match count {
        None => 10,
        Some(c) => {
            if c >= 0 {
                c as u32
            } else {
                (c as i64 + 0x1_0000_0000) as u32
            }
        },
    }
}

/// The statement that lists the posts for `user`.
pub fn list_other_posts(user: &String, count: Option<i32>) -> (statement: Statement)
    ensures
        statement@ == (StatementView {
            sql: list_posts_sql(),
            params: seq![ValueView::Integer(limit_of(count) as i64)],
        }),
{
    RetrieveOtherPost::retrieve_from_db(user, limit(count))
}

/// The statement that lists the posts of the friends of `user`: for now
/// the same posts as for everyone.
pub fn list_friends_posts(user: &String, count: Option<i32>) -> (statement: Statement)
    ensures
        statement@ == (StatementView {
            sql: list_posts_sql(),
            params: seq![ValueView::Integer(limit_of(count) as i64)],
        }),
{
    RetrieveOtherPost::retrieve_from_db(user, limit(count))
}

/// The statements that store a like of `user` for `post`, under a random id.
pub fn like(user: &String, post: &String) -> (list: Vec<Statement>)
    ensures
        exists|id: Seq<char>| statements_view(list@) == #[trigger] like_statements(user@, post@, id),
{
    LikePost::insert_into_db(user, post)
}

/// What commenting comes to, under the id `id`: the statements that store
/// the comment, or the format rules it breaks.
pub open spec fn comment_plan(comment: CreateCommentView, user: Seq<char>, id: Seq<char>) -> Result<
    Seq<StatementView>,
    Seq<Violation>,
> {
    if comment.text.len() > COMMENT_LIMIT {
        Err(seq![Violation::CommentTooLong])
    } else {
        Ok(comment_statements(comment, user, id))
    }
}

/// Commenting as `user`, under a random id.
pub fn comment(text: &CreateComment, user: &String) -> (plan: Result<
    Vec<Statement>,
    Vec<Violation>,
>)
    ensures
        exists|id: Seq<char>| plans_view(plan) == #[trigger] comment_plan(text@, user@, id),
{
    let found = text.validate();
    if found.len() > 0 {
        return Err(found);
    }
    let list = text.insert_into_db(user);
    let ghost id = choose|id: Seq<char>|
        statements_view(list@) == #[trigger] comment_statements(text@, user@, id);
    assert(plans_view(Ok(list)) == comment_plan(text@, user@, id));
    Ok(list)
}

/// The statement that lists the comments of `post`.
pub fn list_comments(post: &String) -> (statement: Statement)
    ensures
        statement@ == (StatementView {
            sql: list_comments_sql(),
            params: text_params(seq![post@]),
        }),
{
    RetrieveComment::retrieve_from_db(post)
}

} // verus!
