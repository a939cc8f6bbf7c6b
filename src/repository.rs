use crate::errors::{AppError, AppErrorType, creation_failed_message, opt_text, unknown_cause};
use crate::ids::{is_v4, random_uuid, uuid_text, uuid_text_of};
use vstd::prelude::*;

verus! {

/// Point lookup of a post.
pub const SELECT_POST_BY_ID: &'static str = "select * from posts where id = $1";

/// All posts.
pub const SELECT_POSTS: &'static str = "select * from posts";

/// The posts of one author.
pub const SELECT_POSTS_BY_AUTHOR: &'static str = "select * from posts where author_id = $1";

/// The posts of a batch of authors, in one query.
pub const SELECT_POSTS_BY_AUTHORS: &'static str = "select * from posts where author_id = ANY($1)";

/// Insert of a post, returning the stored row.
pub const INSERT_POST: &'static str = "insert into posts (author_id, slug, title, description, body) values ($1, $2, $3, $4, $5) returning *";

/// Point lookup of a user.
pub const SELECT_USER_BY_ID: &'static str = "select * from users where id = $1";

/// All users.
pub const SELECT_USERS: &'static str = "select * from users";

/// Insert of a user, returning the stored row.
pub const INSERT_USER: &'static str = "insert into users (username, email, password, bio, image) values ($1, $2, $3, $4, $5) returning *";

/// The result of a point lookup from the rows it returned: the last row, or
/// `NotFoundError` when there is none.
pub fn row_or_not_found<T>(rows: Vec<T>) -> (r: Result<T, AppError>)
    ensures
        rows@.len() == 0 <==> r is Err,
        r is Ok ==> r->Ok_0 == rows@.last(),
        r is Err ==> r->Err_0.error_type == AppErrorType::NotFoundError && r->Err_0.message is None
            && r->Err_0.cause is None,
{
    let mut rows = rows;
    match rows.pop() {
        Some(row) => Ok(row),
        None => Err(AppError::not_found()),
    }
}

/// The result of an insert from the rows it returned: the last row, or a
/// storage error naming `entity` when the insert returned nothing.
pub fn inserted_row<T>(rows: Vec<T>, entity: &str) -> (r: Result<T, AppError>)
    ensures
        rows@.len() == 0 <==> r is Err,
        r is Ok ==> r->Ok_0 == rows@.last(),
        r is Err ==> r->Err_0.error_type == AppErrorType::DbError && opt_text(r->Err_0.message)
            == Some(creation_failed_message(entity@)) && opt_text(r->Err_0.cause) == Some(
            unknown_cause(),
        ),
{
    let mut rows = rows;
    match rows.pop() {
        Some(row) => Ok(row),
        None => Err(AppError::creation_failed(entity)),
    }
}

/// The slug a new post is stored with, given the identifier drawn for it:
/// the requested slug verbatim, or else the text of `drawn`.
pub fn slug_for(requested: Option<String>, drawn: u128) -> (r: String)
    ensures
        requested is Some ==> r@ == requested->Some_0@,
        requested is None ==> r@ == uuid_text_of(drawn),
        requested is None ==> r@.len() == 36,
{
    match requested {
        Some(s) => s,
        None => uuid_text(drawn),
    }
}

/// The slug a new post is stored with: the requested one verbatim, or else
/// the text of a freshly drawn random identifier.
pub fn post_slug(requested: Option<String>) -> (r: String)
    ensures
        requested is Some ==> r@ == requested->Some_0@,
        requested is None ==> exists|id: u128| is_v4(id) && r@ == uuid_text_of(id),
        requested is None ==> r@.len() == 36,
{
    match requested {
        Some(s) => s,
        None => slug_for(None, random_uuid()),
    }
}

} // verus!
