use blog_api::errors::AppErrorType;
use blog_api::repository::{inserted_row, post_slug, row_or_not_found, slug_for};

#[test]
fn point_lookup_without_rows_is_not_found() {
    let r = row_or_not_found::<u32>(vec![]);
    let e = r.err().unwrap();
    assert_eq!(e.error_type, AppErrorType::NotFoundError);
    assert_eq!(e.message(), "The requested item was not found");
}

#[test]
fn point_lookup_returns_the_row() {
    assert_eq!(row_or_not_found(vec![7u32]).ok(), Some(7));
}

#[test]
fn insert_without_returned_row_is_db_error() {
    let e = inserted_row::<u32>(vec![], "User").err().unwrap();
    assert_eq!(e.error_type, AppErrorType::DbError);
    assert_eq!(e.message(), "Error creating User.");
}

#[test]
fn insert_returns_the_row() {
    assert_eq!(inserted_row(vec![3u32], "Post").ok(), Some(3));
}

#[test]
fn explicit_slug_is_kept_verbatim() {
    assert_eq!(post_slug(Some("Hello World!".to_string())), "Hello World!");
}

#[test]
fn missing_slug_is_generated() {
    let a = post_slug(None);
    let b = post_slug(None);
    assert_eq!(a.len(), 36);
    assert_eq!(a.matches('-').count(), 4);
    assert!(a.chars().all(|c| c == '-' || c.is_ascii_hexdigit()));
    assert_ne!(a, b);
}

#[test]
fn drawn_identifier_is_written_hyphenated() {
    let drawn: u128 = 0x67e5504410b1426f9247bb680e5fe0c8;
    assert_eq!(slug_for(None, drawn), "67e55044-10b1-426f-9247-bb680e5fe0c8");
    assert_eq!(slug_for(Some("kept".to_string()), drawn), "kept");
    assert_eq!(slug_for(None, 0), "00000000-0000-0000-0000-000000000000");
}

#[test]
fn generated_slug_is_version_four() {
    let s = post_slug(None);
    let bytes: Vec<char> = s.chars().collect();
    assert_eq!(bytes[14], '4');
    assert!(matches!(bytes[19], '8' | '9' | 'a' | 'b'));
}
