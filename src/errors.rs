use crate::ids::{uuid_text, uuid_text_of};
use vstd::prelude::*;

verus! {

/// The closed set of domain error kinds.
#[derive(Clone, Copy, Debug, PartialEq, Eq, Structural)]
pub enum AppErrorType {
    /// Connection, query or decoding failure, or any unclassified storage failure.
    DbError,
    /// A point lookup found no row.
    NotFoundError,
    /// A write violated a constraint, or a user-supplied field was rejected.
    InvalidField,
}

/// A classified failure: an optional user-facing message, an internal cause
/// that is never shown to callers, and its kind.
#[derive(Clone, Debug)]
pub struct AppError {
    pub message: Option<String>,
    pub cause: Option<String>,
    pub error_type: AppErrorType,
}

pub open spec fn default_message(kind: AppErrorType) -> Seq<char> {
    match kind {
        AppErrorType::NotFoundError => "The requested item was not found"@,
        AppErrorType::InvalidField => "Invalid field value provided"@,
        AppErrorType::DbError => "An unexpected error has occurred"@,
    }
}

/// The user-facing text of an error: its explicit message if it has one,
/// otherwise the default text of its kind.
pub open spec fn message_of(e: AppError) -> Seq<char> {
    match e.message {
        Some(m) => m@,
        None => default_message(e.error_type),
    }
}

pub open spec fn opt_text(o: Option<String>) -> Option<Seq<char>> {
    match o {
        Some(s) => Some(s@),
        None => None,
    }
}

impl AppError {
    /// The user-facing message; the cause never appears in it.
    pub fn message(&self) -> (r: String)
        ensures
            r@ == message_of(*self),
    {
        match &self.message {
            Some(m) => m.clone(),
            None => match self.error_type {
                AppErrorType::NotFoundError => String::from_str("The requested item was not found"),
                AppErrorType::InvalidField => String::from_str("Invalid field value provided"),
                AppErrorType::DbError => String::from_str("An unexpected error has occurred"),
            },
        }
    }

    /// A copy of this error with the same message, cause and kind.
    pub fn duplicate(&self) -> (r: AppError)
        ensures
            r == *self,
    {
        let message = match &self.message {
            Some(m) => Some(m.clone()),
            None => None,
        };
        let cause = match &self.cause {
            Some(c) => Some(c.clone()),
            None => None,
        };
        AppError { message, cause, error_type: self.error_type }
    }
}

/// What a failed write reports about the constraint it broke.
#[derive(Clone, Copy, Debug, PartialEq, Eq, Structural)]
pub enum Violation {
    /// A uniqueness constraint.
    Unique,
    /// A foreign-key constraint.
    ForeignKey,
    /// No constraint, or one this library does not distinguish.
    Other,
}

pub open spec fn duplicate_slug_message(slug: Seq<char>) -> Seq<char> {
    "Slug "@ + slug + " already exists."@
}

pub open spec fn missing_author_message(author: Seq<char>) -> Seq<char> {
    "Author with id "@ + author + " doesn't exists."@
}

pub open spec fn duplicate_user_message() -> Seq<char> {
    "Username or email address already exists."@
}

pub open spec fn invalid_password_message() -> Seq<char> {
    "Invalid password provided"@
}

pub open spec fn creation_failed_message(entity: Seq<char>) -> Seq<char> {
    "Error creating "@ + entity + "."@
}

pub open spec fn unknown_cause() -> Seq<char> {
    "Unknown error."@
}

/// The kind a failed write is classified as: a unique violation is a field
/// error; a foreign-key violation is one where the write names the referenced
/// entity (`foreign_key_is_field_error`); anything else is a storage failure.
pub open spec fn write_error_kind(v: Violation, foreign_key_is_field_error: bool) -> AppErrorType {
    match v {
        Violation::Unique => AppErrorType::InvalidField,
        Violation::ForeignKey => if foreign_key_is_field_error {
            AppErrorType::InvalidField
        } else {
            AppErrorType::DbError
        },
        Violation::Other => AppErrorType::DbError,
    }
}

/// The message a failed post insert carries: the duplicated slug, or the
/// author that does not exist; none for an unclassified failure.
pub open spec fn post_write_message(v: Violation, slug: Seq<char>, author: Seq<char>) -> Option<
    Seq<char>,
> {
    match v {
        Violation::Unique => Some(duplicate_slug_message(slug)),
        Violation::ForeignKey => Some(missing_author_message(author)),
        Violation::Other => None,
    }
}

/// The message a failed user insert carries.
pub open spec fn user_write_message(v: Violation) -> Option<Seq<char>> {
    match v {
        Violation::Unique => Some(duplicate_user_message()),
        _ => None,
    }
}

impl AppError {
    /// The error of a point lookup that found no row.
    pub fn not_found() -> (r: AppError)
        ensures
            r.message is None,
            r.cause is None,
            r.error_type == AppErrorType::NotFoundError,
    {
        AppError { message: None, cause: None, error_type: AppErrorType::NotFoundError }
    }

    /// An unclassified storage failure (pool, connection, query or row decoding)
    /// whose description is kept as the internal cause.
    pub fn from_cause(cause: String) -> (r: AppError)
        ensures
            r.message is None,
            opt_text(r.cause) == Some(cause@),
            r.error_type == AppErrorType::DbError,
    {
        AppError { message: None, cause: Some(cause), error_type: AppErrorType::DbError }
    }

    /// A password that the hashing service rejected.
    pub fn invalid_password(cause: String) -> (r: AppError)
        ensures
            opt_text(r.message) == Some(invalid_password_message()),
            opt_text(r.cause) == Some(cause@),
            r.error_type == AppErrorType::InvalidField,
    {
        AppError {
            message: Some(String::from_str("Invalid password provided")),
            cause: Some(cause),
            error_type: AppErrorType::InvalidField,
        }
    }

    /// An insert that succeeded but returned no row.
    pub fn creation_failed(entity: &str) -> (r: AppError)
        ensures
            opt_text(r.message) == Some(creation_failed_message(entity@)),
            opt_text(r.cause) == Some(unknown_cause()),
            r.error_type == AppErrorType::DbError,
    {
        let message = String::from_str("Error creating ").concat(entity).concat(".");
        AppError {
            message: Some(message),
            cause: Some(String::from_str("Unknown error.")),
            error_type: AppErrorType::DbError,
        }
    }

    /// Classifies a failed post insert from its constraint signal: a unique
    /// violation names the slug, a foreign-key violation the author, anything
    /// else is a storage failure.
    pub fn post_write_error(violation: Violation, cause: String, slug: &str, author: &str) -> (r:
        AppError)
        ensures
            r.error_type == write_error_kind(violation, true),
            opt_text(r.message) == post_write_message(violation, slug@, author@),
            opt_text(r.cause) == Some(cause@),
    {
        match violation {
            Violation::Unique => AppError {
                message: Some(String::from_str("Slug ").concat(slug).concat(" already exists.")),
                cause: Some(cause),
                error_type: AppErrorType::InvalidField,
            },
            Violation::ForeignKey => AppError {
                message: Some(
                    String::from_str("Author with id ").concat(author).concat(" doesn't exists."),
                ),
                cause: Some(cause),
                error_type: AppErrorType::InvalidField,
            },
            Violation::Other => AppError::from_cause(cause),
        }
    }

    /// Classifies a failed user insert: only a unique violation (username or
    /// email taken) is a field error.
    pub fn user_write_error(violation: Violation, cause: String) -> (r: AppError)
        ensures
            r.error_type == write_error_kind(violation, false),
            opt_text(r.message) == user_write_message(violation),
            opt_text(r.cause) == Some(cause@),
    {
        match violation {
            Violation::Unique => AppError {
                message: Some(String::from_str("Username or email address already exists.")),
                cause: Some(cause),
                error_type: AppErrorType::InvalidField,
            },
            _ => AppError::from_cause(cause),
        }
    }

    /// An unclassified database failure.
    pub fn from_db(err: &tokio_postgres::Error) -> (r: AppError)
        ensures
            r.message is None,
            opt_text(r.cause) == Some(pg_error_text(*err)),
            r.error_type == AppErrorType::DbError,
    {
        AppError::from_cause(describe(err))
    }

    /// Classifies the failure of a post insert for `slug` by `author_id`.
    pub fn from_post_insert(err: &tokio_postgres::Error, slug: &str, author_id: u128) -> (r:
        AppError)
        ensures
            r.error_type == write_error_kind(pg_violation(*err), true),
            opt_text(r.message) == post_write_message(
                pg_violation(*err),
                slug@,
                uuid_text_of(author_id),
            ),
            opt_text(r.cause) == Some(pg_error_text(*err)),
    {
        let violation = violation_of(err);
        let author = uuid_text(author_id);
        AppError::post_write_error(violation, describe(err), slug, author.as_str())
    }

    /// Classifies the failure of a user insert.
    pub fn from_user_insert(err: &tokio_postgres::Error) -> (r: AppError)
        ensures
            r.error_type == write_error_kind(pg_violation(*err), false),
            opt_text(r.message) == user_write_message(pg_violation(*err)),
            opt_text(r.cause) == Some(pg_error_text(*err)),
    {
        let violation = violation_of(err);
        AppError::user_write_error(violation, describe(err))
    }
}

#[verifier::external_type_specification]
#[verifier::external_body]
pub struct ExPgError(tokio_postgres::Error);

/// The constraint signal of a database error, as its SQLSTATE code gives it.
pub uninterp spec fn pg_violation(err: tokio_postgres::Error) -> Violation;

/// The description of a database error, as its Display impl writes it.
pub uninterp spec fn pg_error_text(err: tokio_postgres::Error) -> Seq<char>;

/// Relies on tokio_postgres::Error::code and the SqlState constants
/// UNIQUE_VIOLATION and FOREIGN_KEY_VIOLATION to read the constraint signal;
/// the code depends on the error alone.
#[verifier::external_body]
fn violation_of(err: &tokio_postgres::Error) -> (r: Violation)
    ensures
        r == pg_violation(*err),
{
    match err.code() {
        Some(c) if *c == tokio_postgres::error::SqlState::UNIQUE_VIOLATION => Violation::Unique,
        Some(c) if *c == tokio_postgres::error::SqlState::FOREIGN_KEY_VIOLATION => {
            Violation::ForeignKey
        },
        _ => Violation::Other,
    }
}

/// Relies on the Display impl of tokio_postgres::Error for the internal cause
/// text, which depends on the error alone.
#[verifier::external_body]
fn describe(err: &tokio_postgres::Error) -> (r: String)
    ensures
        r@ == pg_error_text(*err),
{
    err.to_string()
}

} // verus!
