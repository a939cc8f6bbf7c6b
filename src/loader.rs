use crate::batcher::{batch_outcome, demultiplexed, duplicate_outcome, outcome_view, posts_by, Outcome};
use crate::errors::AppError;
use crate::models::Post;
use std::collections::HashMap;
use vstd::prelude::*;

verus! {

broadcast use vstd::std_specs::hash::group_hash_axioms;

/// How many times a waiting caller yields to its siblings before it dispatches.
pub const DEFAULT_YIELD_COUNT: usize = 100;

/// The largest batch that is collected before it is dispatched at once.
pub const DEFAULT_MAX_BATCH_SIZE: usize = 200;

/// A loader as a mathematical value.
pub struct LoaderView {
    /// The resolved outcome of every key resolved so far.
    pub cache: Map<u128, Result<Seq<Post>, AppError>>,
    /// The keys of the current window, not yet dispatched, in request order.
    pub pending: Seq<u128>,
    pub yield_count: nat,
    pub max_batch_size: nat,
}

/// What a caller of `load` or `resume` does next.
#[derive(Debug)]
pub enum LoadStep {
    /// The key's outcome is known.
    Ready(Outcome),
    /// Yield (or, after `resume`, wait for the batch in flight), then `resume`.
    Wait,
    /// Fetch these keys with one batch query and hand the outcomes to `complete`.
    Fetch(Vec<u128>),
}

/// A step as a mathematical value.
pub enum StepView {
    Ready(Result<Seq<Post>, AppError>),
    Wait,
    Fetch(Seq<u128>),
}

pub open spec fn step_view(s: LoadStep) -> StepView {
    match s {
        LoadStep::Ready(o) => StepView::Ready(outcome_view(o)),
        LoadStep::Wait => StepView::Wait,
        LoadStep::Fetch(keys) => StepView::Fetch(keys@),
    }
}

/// `load(key)`: a resolved key is answered from the cache; a key already in
/// the window gets another waiter; a new key joins the window, and a window
/// that reaches the batch size is dispatched at once.
pub open spec fn load_transition(v: LoaderView, key: u128) -> (LoaderView, StepView) {
    if v.cache.contains_key(key) {
        (v, StepView::Ready(v.cache[key]))
    } else if v.pending.contains(key) {
        (v, StepView::Wait)
    } else if v.pending.len() + 1 >= v.max_batch_size {
        (LoaderView { pending: Seq::empty(), ..v }, StepView::Fetch(v.pending.push(key)))
    } else {
        (LoaderView { pending: v.pending.push(key), ..v }, StepView::Wait)
    }
}

/// `resume(key)`, after the caller has yielded: a resolved key is answered
/// from the cache; otherwise the whole window, if any, is dispatched.
pub open spec fn resume_transition(v: LoaderView, key: u128) -> (LoaderView, StepView) {
    if v.cache.contains_key(key) {
        (v, StepView::Ready(v.cache[key]))
    } else if v.pending.len() > 0 {
        (LoaderView { pending: Seq::empty(), ..v }, StepView::Fetch(v.pending))
    } else {
        (v, StepView::Wait)
    }
}

/// The cache after the entries of a resolved batch are written into it, in order.
pub open spec fn cache_with(
    cache: Map<u128, Result<Seq<Post>, AppError>>,
    entries: Seq<(u128, Outcome)>,
) -> Map<u128, Result<Seq<Post>, AppError>>
    decreases entries.len(),
{
    if entries.len() == 0 {
        cache
    } else {
        let last = entries.last();
        cache_with(cache, entries.drop_last()).insert(last.0, outcome_view(last.1))
    }
}

/// `complete(entries)`: the outcomes of a batch are written into the cache.
pub open spec fn complete_transition(v: LoaderView, entries: Seq<(u128, Outcome)>) -> LoaderView {
    LoaderView { cache: cache_with(v.cache, entries), ..v }
}

/// The state after `load` is called with each of `keys` in turn.
pub open spec fn loads(v: LoaderView, keys: Seq<u128>) -> LoaderView
    decreases keys.len(),
{
    if keys.len() == 0 {
        v
    } else {
        load_transition(loads(v, keys.drop_last()), keys.last()).0
    }
}

/// The per-request loader of each author's posts. It owns the cache of
/// resolved keys and the window of keys waiting for dispatch; the caller
/// performs the fetches it asks for.
pub struct PostLoader {
    cache: HashMap<u128, Outcome>,
    pending: Vec<u128>,
    yield_count: usize,
    max_batch_size: usize,
}

impl View for PostLoader {
    type V = LoaderView;

    closed spec fn view(&self) -> LoaderView {
        LoaderView {
            cache: self.cache@.map_values(|o: Outcome| outcome_view(o)),
            pending: self.pending@,
            yield_count: self.yield_count as nat,
            max_batch_size: self.max_batch_size as nat,
        }
    }
}

/// A loader for one request with the default yield budget and batch size.
pub fn get_post_loader() -> (r: PostLoader)
    ensures
        r.wf(),
        r@.cache.is_empty(),
        r@.pending.len() == 0,
        r@.yield_count == DEFAULT_YIELD_COUNT,
        r@.max_batch_size == DEFAULT_MAX_BATCH_SIZE,
{
    PostLoader::new().with_yield_count(DEFAULT_YIELD_COUNT)
}

impl PostLoader {
    /// A key occupies at most one slot of the window.
    pub open spec fn wf(&self) -> bool {
        self@.pending.no_duplicates()
    }

    pub fn new() -> (r: PostLoader)
        ensures
            r.wf(),
                r@.cache.is_empty(),
            r@.pending.len() == 0,
            r@.yield_count == 0,
            r@.max_batch_size == DEFAULT_MAX_BATCH_SIZE,
    {
        let r = PostLoader {
            cache: HashMap::new(),
            pending: Vec::new(),
            yield_count: 0,
            max_batch_size: DEFAULT_MAX_BATCH_SIZE,
        };
        assert(r@.cache =~= Map::empty());
        r
    }

    pub fn with_yield_count(self, yield_count: usize) -> (r: PostLoader)
        requires
            self.wf(),
        ensures
            r.wf(),
            r@ == (LoaderView { yield_count: yield_count as nat, ..self@ }),
    {
        PostLoader { yield_count, ..self }
    }

    pub fn with_max_batch_size(self, max_batch_size: usize) -> (r: PostLoader)
        requires
            self.wf(),
        ensures
            r.wf(),
            r@ == (LoaderView { max_batch_size: max_batch_size as nat, ..self@ }),
    {
        PostLoader { max_batch_size, ..self }
    }

    pub fn yield_count(&self) -> (r: usize)
        ensures
            r == self@.yield_count,
    {
        self.yield_count
    }

    pub fn max_batch_size(&self) -> (r: usize)
        ensures
            r == self@.max_batch_size,
    {
        self.max_batch_size
    }

    /// The resolved outcome of `key`, if it has one.
    pub fn cached(&self, key: u128) -> (r: Option<Outcome>)
        ensures
            r is Some <==> self@.cache.contains_key(key),
            r is Some ==> outcome_view(r->Some_0) == self@.cache[key],
    {
        match self.cache.get(&key) {
            Some(o) => Some(duplicate_outcome(o)),
            None => None,
        }
    }

    fn is_pending(&self, key: u128) -> (r: bool)
        ensures
            r == self@.pending.contains(key),
    {
        let mut i: usize = 0;
        while i < self.pending.len()
            invariant
                i <= self.pending@.len(),
                forall|j: int| 0 <= j < i ==> self.pending@[j] != key,
            decreases self.pending@.len() - i,
        {
            if self.pending[i] == key {
                return true;
            }
            i = i + 1;
        }
        false
    }

    fn take_pending(&mut self) -> (r: Vec<u128>)
        ensures
            r@ == old(self)@.pending,
            final(self)@ == (LoaderView { pending: Seq::empty(), ..old(self)@ }),
    {
        let mut keys: Vec<u128> = Vec::new();
        std::mem::swap(&mut keys, &mut self.pending);
        assert(self@.pending =~= Seq::<u128>::empty());
        keys
    }

    /// Requests `key`.
    pub fn load(&mut self, key: u128) -> (r: LoadStep)
        requires
            old(self).wf(),
        ensures
            final(self).wf(),
            (final(self)@, step_view(r)) == load_transition(old(self)@, key),
    {
        if let Some(o) = self.cached(key) {
            return LoadStep::Ready(o);
        }
        if self.is_pending(key) {
            return LoadStep::Wait;
        }
        self.pending.push(key);
        assert(self@.pending =~= old(self)@.pending.push(key));
        if self.pending.len() >= self.max_batch_size {
            LoadStep::Fetch(self.take_pending())
        } else {
            LoadStep::Wait
        }
    }

    /// Continues a request for `key` after its caller has yielded.
    pub fn resume(&mut self, key: u128) -> (r: LoadStep)
        requires
            old(self).wf(),
        ensures
            final(self).wf(),
            (final(self)@, step_view(r)) == resume_transition(old(self)@, key),
    {
        if let Some(o) = self.cached(key) {
            return LoadStep::Ready(o);
        }
        if self.pending.len() > 0 {
            LoadStep::Fetch(self.take_pending())
        } else {
            LoadStep::Wait
        }
    }

    /// Records the outcomes of a dispatched batch.
    pub fn complete(&mut self, entries: Vec<(u128, Outcome)>)
        requires
            old(self).wf(),
        ensures
            final(self).wf(),
            final(self)@ == complete_transition(old(self)@, entries@),
    {
        let mut i: usize = 0;
        while i < entries.len()
            invariant
                self.wf(),
                i <= entries@.len(),
                self@ == (LoaderView {
                    cache: cache_with(old(self)@.cache, entries@.subrange(0, i as int)),
                    ..old(self)@
                }),
            decreases entries@.len() - i,
        {
            let ghost before = self.cache@;
            let key = entries[i].0;
            let o = duplicate_outcome(&entries[i].1);
            self.cache.insert(key, o);
            proof {
                assert(entries@.subrange(0, i + 1).drop_last() =~= entries@.subrange(0, i as int));
                assert(self.cache@.map_values(|o: Outcome| outcome_view(o)) =~= before.map_values(
                    |o: Outcome| outcome_view(o),
                ).insert(key, outcome_view(o)));
            }
            i = i + 1;
        }
        assert(entries@.subrange(0, entries@.len() as int) =~= entries@);
    }
}

/// Writing a batch's entries into a cache resolves exactly the batch's keys,
/// each to the outcome the batch fetch gives it, and leaves every other key
/// as it was.
pub proof fn lemma_cache_with_batch(
    cache: Map<u128, Result<Seq<Post>, AppError>>,
    entries: Seq<(u128, Outcome)>,
    keys: Seq<u128>,
    fetched: Result<Seq<Post>, AppError>,
)
    requires
        demultiplexed(entries, keys, fetched),
    ensures
        forall|k: u128|
            #[trigger] cache_with(cache, entries).contains_key(k) <==> (cache.contains_key(k)
                || keys.contains(k)),
        forall|k: u128|
            keys.contains(k) ==> #[trigger] cache_with(cache, entries)[k] == batch_outcome(
                fetched,
                k,
            ),
        forall|k: u128|
            !keys.contains(k) ==> #[trigger] cache_with(cache, entries)[k] == cache[k],
    decreases entries.len(),
{
    if entries.len() > 0 {
        let n = (entries.len() - 1) as int;
        let front = keys.subrange(0, n);
        lemma_cache_with_batch(cache, entries.drop_last(), front, fetched);
        assert forall|k: u128| keys.contains(k) <==> (front.contains(k) || k == keys[n]) by {
            if keys.contains(k) {
                let j = choose|j: int| 0 <= j < keys.len() && keys[j] == k;
                if j < n {
                    assert(front[j] == k);
                }
            }
            if front.contains(k) {
                let j = choose|j: int| 0 <= j < front.len() && front[j] == k;
                assert(keys[j] == k);
            }
        }
    } else {
        assert forall|k: u128| !keys.contains(k) by {}
    }
}

/// Totality: the mapping a batch produces covers exactly the dispatched keys,
/// and on a successful fetch a key without rows maps to an empty sequence.
pub proof fn lemma_batch_totality(
    entries: Seq<(u128, Outcome)>,
    keys: Seq<u128>,
    rows: Seq<Post>,
)
    requires
        demultiplexed(entries, keys, Ok(rows)),
    ensures
        cache_with(Map::empty(), entries).dom() == keys.to_set(),
        forall|k: u128|
            keys.contains(k) ==> #[trigger] cache_with(Map::empty(), entries)[k] == Ok::<
                Seq<Post>,
                AppError,
            >(posts_by(rows, k)),
        forall|k: u128|
            keys.contains(k) && (forall|i: int| 0 <= i < rows.len() ==> rows[i].author_id != k)
                ==> #[trigger] cache_with(Map::empty(), entries)[k] == Ok::<Seq<Post>, AppError>(
                Seq::empty(),
            ),
{
    lemma_cache_with_batch(Map::empty(), entries, keys, Ok(rows));
    assert(cache_with(Map::empty(), entries).dom() =~= keys.to_set());
    assert forall|k: u128|
        keys.contains(k) && (forall|i: int| 0 <= i < rows.len() ==> rows[i].author_id != k)
            implies #[trigger] cache_with(Map::empty(), entries)[k] == Ok::<Seq<Post>, AppError>(
            Seq::empty(),
        ) by {
        let f = |p: Post| p.author_id == k;
        rows.lemma_filter_len(f);
        if rows.filter(f).len() > 0 {
            rows.lemma_filter_contains_rev(f, rows.filter(f)[0]);
            rows.filter(f).lemma_filter_pred(f, 0);
        }
        assert(posts_by(rows, k) =~= Seq::empty());
    }
}

/// Fan-out failure: when the one fetch of a batch fails, every key of the
/// batch resolves to that same error, through `load` and through `resume`.
pub proof fn lemma_fan_out_failure(
    v: LoaderView,
    entries: Seq<(u128, Outcome)>,
    keys: Seq<u128>,
    e: AppError,
)
    requires
        demultiplexed(entries, keys, Err(e)),
    ensures
        forall|k: u128|
            keys.contains(k) ==> {
                &&& #[trigger] load_transition(complete_transition(v, entries), k).1
                    == StepView::Ready(Err(e))
                &&& resume_transition(complete_transition(v, entries), k).1 == StepView::Ready(
                    Err(e),
                )
            },
{
    lemma_cache_with_batch(v.cache, entries, keys, Err(e));
}

/// Cache reuse: once a key is resolved, `load` and `resume` of it answer the
/// cached outcome and leave the loader unchanged, so no fetch is issued.
pub proof fn lemma_cache_reuse(v: LoaderView, key: u128)
    requires
        v.cache.contains_key(key),
    ensures
        load_transition(v, key) == (v, StepView::Ready(v.cache[key])),
        resume_transition(v, key) == (v, StepView::Ready(v.cache[key])),
{
}

/// Loading distinct unresolved keys that are not yet in the window, while the
/// window stays below the batch size, makes every call wait and appends
/// exactly those keys to the window.
proof fn lemma_window_fills(v: LoaderView, keys: Seq<u128>)
    requires
        keys.no_duplicates(),
        forall|i: int|
            0 <= i < keys.len() ==> !v.cache.contains_key(#[trigger] keys[i])
                && !v.pending.contains(keys[i]),
        v.pending.len() + keys.len() < v.max_batch_size,
    ensures
        loads(v, keys) == (LoaderView { pending: v.pending + keys, ..v }),
        forall|i: int|
            0 <= i < keys.len() ==> #[trigger] load_transition(
                loads(v, keys.subrange(0, i)),
                keys[i],
            ).1 == StepView::Wait,
    decreases keys.len(),
{
    if keys.len() > 0 {
        let n = keys.len() - 1;
        let front = keys.drop_last();
        lemma_window_fills(v, front);
        let last = keys[n as int];
        assert(keys.last() == last);
        assert(!(v.pending + front).contains(last)) by {
            if (v.pending + front).contains(last) {
                let j = choose|j: int|
                    0 <= j < (v.pending + front).len() && (v.pending + front)[j] == last;
                if j < v.pending.len() {
                    assert(v.pending[j] == last);
                } else {
                    assert(keys[j - v.pending.len()] == last);
                }
            }
        }
        assert((v.pending + front).push(last) =~= v.pending + keys);
        assert forall|i: int| 0 <= i < keys.len() implies #[trigger] load_transition(
            loads(v, keys.subrange(0, i)),
            keys[i],
        ).1 == StepView::Wait by {
            if i < n {
                assert(keys.subrange(0, i) =~= front.subrange(0, i));
                assert(front[i] == keys[i]);
            } else {
                assert(keys.subrange(0, i) =~= front);
            }
        }
    } else {
        assert(v.pending + keys =~= v.pending);
    }
}

/// Coalescing: loads of distinct unresolved keys, none already waiting,
/// issued before any dispatch and while the window stays below the batch
/// size (a full window is dispatched at once), all wait; the first caller to
/// resume dispatches one fetch of the window, which is exactly those keys when
/// the window started empty, after which no other caller's resume fetches.
pub proof fn lemma_coalescing(v: LoaderView, keys: Seq<u128>)
    requires
        keys.no_duplicates(),
        forall|i: int|
            0 <= i < keys.len() ==> !v.cache.contains_key(#[trigger] keys[i])
                && !v.pending.contains(keys[i]),
        0 < keys.len(),
        v.pending.len() + keys.len() < v.max_batch_size,
    ensures
        forall|i: int|
            0 <= i < keys.len() ==> #[trigger] load_transition(
                loads(v, keys.subrange(0, i)),
                keys[i],
            ).1 == StepView::Wait,
        forall|i: int|
            0 <= i < keys.len() ==> #[trigger] resume_transition(loads(v, keys), keys[i]).1
                == StepView::Fetch(v.pending + keys),
        v.pending.len() == 0 ==> v.pending + keys == keys,
        forall|i: int, j: int|
            0 <= i < keys.len() && 0 <= j < keys.len() ==> #[trigger] resume_transition(
                resume_transition(loads(v, keys), keys[i]).0,
                keys[j],
            ).1 == StepView::Wait,
{
    lemma_window_fills(v, keys);
    if v.pending.len() == 0 {
        assert(v.pending + keys =~= keys);
    }
}

/// The window after a key is added to it once.
pub open spec fn window_with(pending: Seq<u128>, key: u128) -> Seq<u128> {
    if pending.contains(key) {
        pending
    } else {
        pending.push(key)
    }
}

/// Deduplication: `m` loads of one unresolved key in one window occupy a
/// single slot of it, whether or not the key was already waiting, so the
/// dispatch fetches that key exactly once; after the batch is recorded a
/// resume of the key answers its outcome and changes nothing, so each of the
/// `m` callers receives the same outcome.
pub proof fn lemma_deduplication(
    v: LoaderView,
    key: u128,
    m: nat,
    entries: Seq<(u128, Outcome)>,
    fetched: Result<Seq<Post>, AppError>,
)
    requires
        v.pending.no_duplicates(),
        !v.cache.contains_key(key),
        v.pending.len() + 1 < v.max_batch_size,
        1 <= m,
        demultiplexed(entries, window_with(v.pending, key), fetched),
    ensures
        loads(v, Seq::new(m, |i: int| key)).pending == window_with(v.pending, key),
        window_with(v.pending, key).no_duplicates(),
        window_with(v.pending, key).contains(key),
        resume_transition(loads(v, Seq::new(m, |i: int| key)), key).1 == StepView::Fetch(
            window_with(v.pending, key),
        ),
        ({
            let w = complete_transition(
                resume_transition(loads(v, Seq::new(m, |i: int| key)), key).0,
                entries,
            );
            resume_transition(w, key) == (w, StepView::Ready(batch_outcome(fetched, key)))
        }),
{
    let w0 = window_with(v.pending, key);
    lemma_repeated_load(v, key, m);
    if !v.pending.contains(key) {
        assert(w0[w0.len() - 1] == key);
        assert forall|i: int, j: int| 0 <= i < w0.len() && 0 <= j < w0.len() && i != j implies w0[i]
            != w0[j] by {
            if i < v.pending.len() && j < v.pending.len() {
            } else if i < v.pending.len() {
                assert(v.pending.contains(w0[i]));
            } else {
                assert(v.pending.contains(w0[j]));
            }
        }
    }
    assert(w0.contains(key));
    lemma_cache_with_batch(
        resume_transition(loads(v, Seq::new(m, |i: int| key)), key).0.cache,
        entries,
        w0,
        fetched,
    );
}

/// Repeated loads of one unresolved key add it to the window once.
proof fn lemma_repeated_load(v: LoaderView, key: u128, m: nat)
    requires
        !v.cache.contains_key(key),
        v.pending.len() + 1 < v.max_batch_size,
        1 <= m,
    ensures
        loads(v, Seq::new(m, |i: int| key)) == (LoaderView {
            pending: window_with(v.pending, key),
            ..v
        }),
    decreases m,
{
    let keys = Seq::new(m, |i: int| key);
    let target = LoaderView { pending: window_with(v.pending, key), ..v };
    assert(keys.last() == key);
    assert(target.pending.contains(key)) by {
        if !v.pending.contains(key) {
            assert(target.pending[target.pending.len() - 1] == key);
        }
    }
    if m == 1 {
        assert(keys.drop_last() =~= Seq::empty());
        assert(loads(v, keys.drop_last()) == v);
        assert(loads(v, keys) == load_transition(v, key).0);
    } else {
        let shorter = Seq::new((m - 1) as nat, |i: int| key);
        lemma_repeated_load(v, key, (m - 1) as nat);
        assert(keys.drop_last() =~= shorter);
        assert(loads(v, keys.drop_last()) == target);
        assert(loads(v, keys) == load_transition(target, key).0);
    }
}

} // verus!
