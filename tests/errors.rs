use blog_api::errors::{AppError, AppErrorType, Violation};

#[test]
fn test_default_db_error() {
    let db_error = AppError {
        message: None,
        cause: None,
        error_type: AppErrorType::DbError,
    };

    assert_eq!(
        db_error.message(),
        "An unexpected error has occurred".to_string(),
        "Default message should be shown"
    );
}

#[test]
fn test_default_not_found_error() {
    let db_error = AppError {
        message: None,
        cause: None,
        error_type: AppErrorType::NotFoundError,
    };

    assert_eq!(
        db_error.message(),
        "The requested item was not found".to_string(),
        "Default message should be shown"
    );
}

#[test]
fn test_user_db_error() {
    let user_message = "User-facing message".to_string();

    let db_error = AppError {
        message: Some(user_message.clone()),
        cause: None,
        error_type: AppErrorType::DbError,
    };

    assert_eq!(
        db_error.message(),
        user_message,
        "User-facing message should be shown"
    );
}

#[test]
fn default_invalid_field_message() {
    let e = AppError {
        message: None,
        cause: Some("internal".to_string()),
        error_type: AppErrorType::InvalidField,
    };
    assert_eq!(e.message(), "Invalid field value provided");
}

#[test]
fn cause_never_shown() {
    let e = AppError::from_cause("connection refused".to_string());
    assert_eq!(e.error_type, AppErrorType::DbError);
    assert_eq!(e.cause.as_deref(), Some("connection refused"));
    assert_eq!(e.message(), "An unexpected error has occurred");
}

#[test]
fn duplicate_slug_names_the_slug() {
    let e = AppError::post_write_error(Violation::Unique, "dup".to_string(), "my-post", "a-b");
    assert_eq!(e.error_type, AppErrorType::InvalidField);
    assert_eq!(e.message(), "Slug my-post already exists.");
    assert_eq!(e.cause.as_deref(), Some("dup"));
}

#[test]
fn missing_author_names_the_author() {
    let author = "67e55044-10b1-426f-9247-bb680e5fe0c8";
    let e = AppError::post_write_error(Violation::ForeignKey, "fk".to_string(), "my-post", author);
    assert_eq!(e.error_type, AppErrorType::InvalidField);
    assert_eq!(
        e.message(),
        "Author with id 67e55044-10b1-426f-9247-bb680e5fe0c8 doesn't exists."
    );
}

#[test]
fn other_post_write_failure_is_db_error() {
    let e = AppError::post_write_error(Violation::Other, "boom".to_string(), "s", "a");
    assert_eq!(e.error_type, AppErrorType::DbError);
    assert!(e.message.is_none());
    assert_eq!(e.message(), "An unexpected error has occurred");
}

#[test]
fn duplicate_user_is_invalid_field() {
    let e = AppError::user_write_error(Violation::Unique, "dup".to_string());
    assert_eq!(e.error_type, AppErrorType::InvalidField);
    assert_eq!(e.message(), "Username or email address already exists.");
}

#[test]
fn user_foreign_key_failure_is_db_error() {
    let e = AppError::user_write_error(Violation::ForeignKey, "fk".to_string());
    assert_eq!(e.error_type, AppErrorType::DbError);
    assert!(e.message.is_none());
}

#[test]
fn invalid_password_error() {
    let e = AppError::invalid_password("salt too short".to_string());
    assert_eq!(e.error_type, AppErrorType::InvalidField);
    assert_eq!(e.message(), "Invalid password provided");
    assert_eq!(e.cause.as_deref(), Some("salt too short"));
}

#[test]
fn creation_failed_error() {
    let e = AppError::creation_failed("Post");
    assert_eq!(e.error_type, AppErrorType::DbError);
    assert_eq!(e.message(), "Error creating Post.");
    assert_eq!(e.cause.as_deref(), Some("Unknown error."));
}

#[test]
fn duplicate_keeps_every_field() {
    let e = AppError::post_write_error(Violation::Unique, "c".to_string(), "s", "a");
    let d = e.duplicate();
    assert_eq!(d.message, e.message);
    assert_eq!(d.cause, e.cause);
    assert_eq!(d.error_type, e.error_type);
}
