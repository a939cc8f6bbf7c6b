use blog_api::batcher::{batch_outcomes, group_posts_by_author, Outcome};
use blog_api::errors::{AppError, AppErrorType};
use blog_api::loader::{get_post_loader, LoadStep, PostLoader};
use blog_api::models::Post;

fn post(id: u128, author_id: u128, slug: &str) -> Post {
    Post {
        id,
        author_id,
        slug: slug.to_string(),
        title: format!("title {}", slug),
        description: String::new(),
        body: String::new(),
        created_at: 1_600_000_000_000_000,
        updated_at: 1_600_000_000_000_000,
    }
}

fn slugs(o: &Outcome) -> Vec<String> {
    o.as_ref().unwrap().iter().map(|p| p.slug.clone()).collect()
}

fn is_wait(s: &LoadStep) -> bool {
    matches!(s, LoadStep::Wait)
}

fn fetched_keys(s: LoadStep) -> Vec<u128> {
    match s {
        LoadStep::Fetch(keys) => keys,
        other => panic!("expected a fetch, got {:?}", other),
    }
}

fn ready(s: LoadStep) -> Outcome {
    match s {
        LoadStep::Ready(o) => o,
        other => panic!("expected an outcome, got {:?}", other),
    }
}

#[test]
fn default_loader_settings() {
    let l = get_post_loader();
    assert_eq!(l.yield_count(), 100);
    assert_eq!(l.max_batch_size(), 200);
    assert!(l.cached(1).is_none());
}

#[test]
fn distinct_keys_are_coalesced_into_one_fetch() {
    let mut l = get_post_loader();
    assert!(is_wait(&l.load(1)));
    assert!(is_wait(&l.load(2)));
    assert!(is_wait(&l.load(3)));
    assert_eq!(fetched_keys(l.resume(2)), vec![1, 2, 3]);
    assert!(is_wait(&l.resume(1)));
    assert!(is_wait(&l.resume(3)));
}

#[test]
fn same_key_is_fetched_once_and_shared() {
    let mut l = get_post_loader();
    for _ in 0..5 {
        assert!(is_wait(&l.load(9)));
    }
    let keys = fetched_keys(l.resume(9));
    assert_eq!(keys, vec![9]);
    let rows = vec![post(1, 9, "a"), post(2, 9, "b")];
    l.complete(batch_outcomes(&keys, Ok(rows)));
    for _ in 0..5 {
        assert_eq!(slugs(&ready(l.resume(9))), vec!["a", "b"]);
    }
}

#[test]
fn batch_is_total_over_its_keys() {
    let keys = vec![1u128, 2, 3];
    let rows = vec![post(10, 1, "x"), post(11, 3, "y"), post(12, 1, "z"), post(13, 4, "w")];
    let entries = batch_outcomes(&keys, Ok(rows));
    let got: Vec<u128> = entries.iter().map(|e| e.0).collect();
    assert_eq!(got, keys);
    assert_eq!(slugs(&entries[0].1), vec!["x", "z"]);
    assert!(entries[1].1.as_ref().unwrap().is_empty());
    assert_eq!(slugs(&entries[2].1), vec!["y"]);
}

#[test]
fn resolved_key_is_served_from_cache() {
    let mut l = PostLoader::new();
    assert!(is_wait(&l.load(4)));
    let keys = fetched_keys(l.resume(4));
    l.complete(batch_outcomes(&keys, Ok(vec![post(1, 4, "only")])));
    assert_eq!(slugs(&ready(l.load(4))), vec!["only"]);
    assert_eq!(slugs(&ready(l.load(4))), vec!["only"]);
    assert!(is_wait(&l.resume(5)));
}

#[test]
fn failed_fetch_fails_every_key() {
    let mut l = get_post_loader();
    for k in [1u128, 2, 3] {
        assert!(is_wait(&l.load(k)));
    }
    let keys = fetched_keys(l.resume(1));
    let err = AppError::from_cause("connection reset".to_string());
    l.complete(batch_outcomes(&keys, Err(err)));
    for k in [1u128, 2, 3] {
        let e = ready(l.load(k)).err().unwrap();
        assert_eq!(e.error_type, AppErrorType::DbError);
        assert_eq!(e.cause.as_deref(), Some("connection reset"));
        assert_eq!(e.message(), "An unexpected error has occurred");
    }
}

#[test]
fn full_window_dispatches_at_once() {
    let mut l = PostLoader::new().with_max_batch_size(2);
    assert!(is_wait(&l.load(1)));
    assert_eq!(fetched_keys(l.load(2)), vec![1, 2]);
    assert!(is_wait(&l.resume(1)));
}

#[test]
fn key_after_dispatch_starts_new_batch() {
    let mut l = get_post_loader();
    assert!(is_wait(&l.load(1)));
    assert_eq!(fetched_keys(l.resume(1)), vec![1]);
    assert!(is_wait(&l.load(1)));
    assert!(is_wait(&l.load(2)));
    assert_eq!(fetched_keys(l.resume(2)), vec![1, 2]);
}

#[test]
fn empty_window_never_fetches() {
    let mut l = get_post_loader();
    assert!(is_wait(&l.resume(1)));
}

#[test]
fn grouping_keeps_row_order() {
    let rows = vec![post(1, 7, "a"), post(2, 8, "b"), post(3, 7, "c")];
    let groups = group_posts_by_author(&rows);
    assert_eq!(groups.len(), 2);
    let seven: Vec<&str> = groups[&7].iter().map(|p| p.slug.as_str()).collect();
    assert_eq!(seven, vec!["a", "c"]);
    assert_eq!(groups[&8].len(), 1);
}
