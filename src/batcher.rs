use crate::errors::AppError;
use crate::models::{duplicate_posts, Post};
use std::collections::HashMap;
use vstd::prelude::*;

verus! {

broadcast use vstd::std_specs::hash::group_hash_axioms;

/// The resolved outcome of one key: the author's posts, or a classified error.
pub type Outcome = Result<Vec<Post>, AppError>;

/// An outcome as a mathematical value.
pub open spec fn outcome_view(o: Outcome) -> Result<Seq<Post>, AppError> {
    match o {
        Ok(v) => Ok(v@),
        Err(e) => Err(e),
    }
}

/// The rows written by `author`, in the order they came.
pub open spec fn posts_by(rows: Seq<Post>, author: u128) -> Seq<Post> {
    rows.filter(|p: Post| p.author_id == author)
}

/// The outcome of `key` in a batch whose single fetch returned `fetched`:
/// its own rows (possibly none), or the batch's error.
pub open spec fn batch_outcome(fetched: Result<Seq<Post>, AppError>, key: u128) -> Result<
    Seq<Post>,
    AppError,
> {
    match fetched {
        Ok(rows) => Ok(posts_by(rows, key)),
        Err(e) => Err(e),
    }
}

/// `groups` holds, for each author with at least one row, exactly that
/// author's rows, and nothing for the others.
pub open spec fn grouped(groups: Map<u128, Vec<Post>>, rows: Seq<Post>) -> bool {
    forall|k: u128|
        {
            &&& #[trigger] groups.contains_key(k) ==> groups[k]@ == posts_by(rows, k)
                && posts_by(rows, k).len() > 0
            &&& !groups.contains_key(k) ==> posts_by(rows, k).len() == 0
        }
}

/// Groups fetched rows by author, keeping their order within each group.
pub fn group_posts_by_author(rows: &Vec<Post>) -> (r: HashMap<u128, Vec<Post>>)
    ensures
        grouped(r@, rows@),
{
    let mut groups: HashMap<u128, Vec<Post>> = HashMap::new();
    let mut i: usize = 0;
    proof {
        assert forall|k: u128| posts_by(rows@.subrange(0, 0), k).len() == 0 by {
            reveal(Seq::filter);
        }
    }
    while i < rows.len()
        invariant
            i <= rows@.len(),
            grouped(groups@, rows@.subrange(0, i as int)),
        decreases rows@.len() - i,
    {
        let ghost before = groups@;
        let p = rows[i].duplicate();
        let author = p.author_id;
        let mut group = match groups.remove(&author) {
            Some(g) => g,
            None => Vec::new(),
        };
        proof {
            let prev = rows@.subrange(0, i as int);
            if !before.contains_key(author) {
                assert(group@ =~= posts_by(prev, author));
            }
        }
        group.push(p);
        groups.insert(author, group);
        proof {
            let prev = rows@.subrange(0, i as int);
            let next = rows@.subrange(0, i + 1);
            assert(next =~= prev.push(rows@[i as int]));
            assert forall|k: u128|
                {
                    &&& #[trigger] groups@.contains_key(k) ==> groups@[k]@ == posts_by(next, k)
                    &&& !groups@.contains_key(k) ==> posts_by(next, k).len() == 0
                } by {
                prev.lemma_filter_push(rows@[i as int], |p: Post| p.author_id == k);
            }
        }
        i = i + 1;
    }
    assert(rows@.subrange(0, rows@.len() as int) =~= rows@);
    groups
}

/// A copy of an outcome.
pub fn duplicate_outcome(o: &Outcome) -> (r: Outcome)
    ensures
        outcome_view(r) == outcome_view(*o),
{
    match o {
        Ok(posts) => Ok(duplicate_posts(posts)),
        Err(e) => Err(e.duplicate()),
    }
}

/// `entries` holds one entry per key, in the order of `keys`, each with the
/// outcome that the batch fetch `fetched` gives that key.
pub open spec fn demultiplexed(
    entries: Seq<(u128, Outcome)>,
    keys: Seq<u128>,
    fetched: Result<Seq<Post>, AppError>,
) -> bool {
    &&& entries.len() == keys.len()
    &&& forall|i: int|
        0 <= i < keys.len() ==> {
            &&& (#[trigger] entries[i]).0 == keys[i]
            &&& outcome_view(entries[i].1) == batch_outcome(fetched, keys[i])
        }
}

/// Turns the result of the one fetch issued for `keys` into an outcome for
/// every key: on success each key gets its own rows (none for a key without
/// rows); on failure every key gets the same error.
pub fn batch_outcomes(keys: &Vec<u128>, fetched: Result<Vec<Post>, AppError>) -> (r: Vec<
    (u128, Outcome),
>)
    ensures
        demultiplexed(r@, keys@, outcome_view(fetched)),
{
    let mut r: Vec<(u128, Outcome)> = Vec::new();
    match fetched {
        Ok(rows) => {
            let groups = group_posts_by_author(&rows);
            let mut i: usize = 0;
            while i < keys.len()
                invariant
                    i <= keys@.len(),
                    grouped(groups@, rows@),
                    demultiplexed(r@, keys@.subrange(0, i as int), Ok(rows@)),
                decreases keys@.len() - i,
            {
                let key = keys[i];
                let posts = match groups.get(&key) {
                    Some(g) => duplicate_posts(g),
                    None => Vec::new(),
                };
                proof {
                    if !groups@.contains_key(key) {
                        assert(posts@ =~= posts_by(rows@, key));
                    }
                }
                r.push((key, Ok(posts)));
                i = i + 1;
            }
        },
        Err(e) => {
            let mut i: usize = 0;
            while i < keys.len()
                invariant
                    i <= keys@.len(),
                    demultiplexed(r@, keys@.subrange(0, i as int), Err(e)),
                decreases keys@.len() - i,
            {
                r.push((keys[i], Err(e.duplicate())));
                i = i + 1;
            }
        },
    }
    assert(keys@.subrange(0, keys@.len() as int) =~= keys@);
    r
}

} // verus!
