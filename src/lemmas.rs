use crate::cache::{kind_of, reports, updated, Slot};
use crate::channel::Received;
use crate::fileloader::{resolves_to, FilePoll, LoadError};
use crate::identifier::IdView;
use crate::status::{LoadStatus, StatusKind};
use std::sync::Arc;
use vstd::prelude::*;

verus! {

/// A key that was never requested is not loading: an empty cache holds no
/// key, and neither the update step nor recording the load of another key
/// adds one.
pub proof fn lemma_never_requested<H, T, E, P: Fn(&H) -> Option<Result<Arc<T>, Arc<E>>>>(
    poll: P,
    before: Map<IdView, Slot<H, T, E>>,
    after: Map<IdView, Slot<H, T, E>>,
    other: IdView,
    s: Slot<H, T, E>,
    k: IdView,
)
    requires
        !before.contains_key(k),
        k != other,
        updated(poll, before, after) || after == before.insert(other, s),
    ensures
        kind_of(Map::<IdView, Slot<H, T, E>>::empty(), k) == StatusKind::NotLoading,
        kind_of(after, k) == StatusKind::NotLoading,
{
}

/// Loads are never duplicated: once a load is recorded for a key, the key
/// stays in the cache through every update step, so a second `load` of it
/// reports that no load is needed.
pub proof fn lemma_second_load_starts_nothing<H, T, E, P: Fn(&H) -> Option<Result<Arc<T>, Arc<E>>>>(
    poll: P,
    after_first: Map<IdView, Slot<H, T, E>>,
    before_second: Map<IdView, Slot<H, T, E>>,
    k: IdView,
)
    requires
        after_first.contains_key(k),
        updated(poll, after_first, before_second),
    ensures
        before_second.contains_key(k),
{
}

/// A loaded value is kept as it is: every later update step leaves it, and
/// every later `get` hands out that same value.
pub proof fn lemma_loaded_is_stable<H: Clone, T, E, P: Fn(&H) -> Option<Result<Arc<T>, Arc<E>>>>(
    poll: P,
    before: Map<IdView, Slot<H, T, E>>,
    after: Map<IdView, Slot<H, T, E>>,
    k: IdView,
    v: Arc<T>,
)
    requires
        before.contains_key(k),
        before[k] == Slot::<H, T, E>::Loaded(v),
        updated(poll, before, after),
    ensures
        after.contains_key(k),
        after[k] == Slot::<H, T, E>::Loaded(v),
        forall|s: LoadStatus<H, T, E>| reports(after, k, s) ==> s == LoadStatus::<H, T, E>::Loaded(v),
{
    assert(before.contains_key(k));
}

/// Observers of one load see one resolution: once the handle of a key
/// yields a value, this `get` and every later one hand out that same value.
pub proof fn lemma_one_resolution_for_all<H: Clone, T, E, P: Fn(&H) -> Option<Result<Arc<T>, Arc<E>>>>(
    poll: P,
    h: H,
    v: Arc<T>,
    before: Map<IdView, Slot<H, T, E>>,
    first: Map<IdView, Slot<H, T, E>>,
    second: Map<IdView, Slot<H, T, E>>,
    k: IdView,
)
    requires
        before.contains_key(k),
        before[k] == Slot::<H, T, E>::Loading(h),
        forall|o: Option<Result<Arc<T>, Arc<E>>>| #[trigger]
            poll.ensures((&h,), o) ==> o == Some(Ok::<Arc<T>, Arc<E>>(v)),
        updated(poll, before, first),
        updated(poll, first, second),
    ensures
        forall|s: LoadStatus<H, T, E>| reports(first, k, s) ==> s == LoadStatus::<H, T, E>::Loaded(v),
        forall|s: LoadStatus<H, T, E>| reports(second, k, s) ==> s == LoadStatus::<H, T, E>::Loaded(v),
{
    assert(before.contains_key(k));
    assert(first.contains_key(k));
}

/// Round trip: when the poll of a file load received the file's bytes and
/// the key's handle yields that load's result, the next `get` hands out the
/// value that the conversion made of those bytes.
pub proof fn lemma_round_trip<
    H: Clone,
    T,
    C,
    R,
    F: FnOnce(String, Vec<u8>) -> Result<T, C>,
    P: Fn(&H) -> Option<Result<Arc<T>, Arc<LoadError<R>>>>,
>(
    path: Seq<char>,
    bytes: Vec<u8>,
    convert: F,
    v: Arc<T>,
    poll: P,
    h: H,
    before: Map<IdView, Slot<H, T, LoadError<R>>>,
    after: Map<IdView, Slot<H, T, LoadError<R>>>,
)
    requires
        resolves_to(path, Received::Message(Ok(bytes)), convert, FilePoll::<T, R>::Ready(Ok(v))),
        before.contains_key(IdView::Path(path)),
        before[IdView::Path(path)] == Slot::<H, T, LoadError<R>>::Loading(h),
        forall|o: Option<Result<Arc<T>, Arc<LoadError<R>>>>| #[trigger]
            poll.ensures((&h,), o) ==> o == Some(Ok::<Arc<T>, Arc<LoadError<R>>>(v)),
        updated(poll, before, after),
    ensures
        exists|p: String, t: T| p@ == path && convert.ensures((p, bytes), Ok::<T, C>(t)) && *v == t,
        forall|s: LoadStatus<H, T, LoadError<R>>|
            reports(after, IdView::Path(path), s) ==> s == LoadStatus::<H, T, LoadError<R>>::Loaded(v),
{
    let k = IdView::Path(path);
    assert(before.contains_key(k));
    let (p, c) = choose|p: String, c: Result<T, C>|
        #![trigger convert.ensures((p, bytes), c)]
        p@ == path && convert.ensures((p, bytes), c) && crate::fileloader::converts(c, Ok::<Arc<T>, Arc<LoadError<R>>>(v));
    match c {
        Ok(t) => {
            assert(p@ == path && convert.ensures((p, bytes), Ok::<T, C>(t)) && *v == t);
        },
        Err(_) => {},
    }
}

/// A failed read is an error for good: the key reads `Error` with the read
/// error, every later update step keeps it so, and `get` never hands out a
/// loaded value for it.
pub proof fn lemma_read_failure_sticks<
    H: Clone,
    T,
    C,
    R,
    F: FnOnce(String, Vec<u8>) -> Result<T, C>,
    P: Fn(&H) -> Option<Result<Arc<T>, Arc<LoadError<R>>>>,
>(
    path: Seq<char>,
    e: R,
    convert: F,
    out: Result<Arc<T>, Arc<LoadError<R>>>,
    poll: P,
    h: H,
    before: Map<IdView, Slot<H, T, LoadError<R>>>,
    mid: Map<IdView, Slot<H, T, LoadError<R>>>,
    after: Map<IdView, Slot<H, T, LoadError<R>>>,
)
    requires
        resolves_to(path, Received::Message(Err(e)), convert, FilePoll::<T, R>::Ready(out)),
        before.contains_key(IdView::Path(path)),
        before[IdView::Path(path)] == Slot::<H, T, LoadError<R>>::Loading(h),
        forall|o: Option<Result<Arc<T>, Arc<LoadError<R>>>>| #[trigger]
            poll.ensures((&h,), o) ==> o == Some(out),
        updated(poll, before, mid),
        updated(poll, mid, after),
    ensures
        kind_of(mid, IdView::Path(path)) == StatusKind::Error,
        kind_of(after, IdView::Path(path)) == StatusKind::Error,
        forall|s: LoadStatus<H, T, LoadError<R>>|
            reports(after, IdView::Path(path), s) ==> match s {
                LoadStatus::Error(x) => *x == LoadError::Read(e),
                _ => false,
            },
{
    let k = IdView::Path(path);
    assert(before.contains_key(k));
    assert(mid.contains_key(k));
}

/// Whether polling the handle `h` never yields a value.
pub open spec fn never_yields_value<H, T, E, P: Fn(&H) -> Option<Result<Arc<T>, Arc<E>>>>(
    poll: P,
    h: H,
) -> bool {
    forall|o: Option<Result<Arc<T>, Arc<E>>>| #[trigger]
        poll.ensures((&h,), o) ==> !(o matches Some(Ok(_)))
}

/// Whether `k` is not loaded in `m` and cannot become so by the update
/// step: it holds nothing, a failure, or a load that never yields a value.
pub open spec fn stays_unloaded<H, T, E, P: Fn(&H) -> Option<Result<Arc<T>, Arc<E>>>>(
    poll: P,
    m: Map<IdView, Slot<H, T, E>>,
    k: IdView,
) -> bool {
    m.contains_key(k) ==> match m[k] {
        Slot::Loaded(_) => false,
        Slot::Loading(h) => never_yields_value(poll, h),
        Slot::Failed(_) => true,
    }
}

/// A key whose every load fails is never loaded, over any sequence of calls:
/// the state is kept by each step a call makes to the model (an update
/// step, recording a failing load of the key, recording a load of another
/// key, or an eviction), and in it the key never reads `Loaded`.
pub proof fn lemma_failing_key_never_loaded<H: Clone, T, E, P: Fn(&H) -> Option<Result<Arc<T>, Arc<E>>>>(
    poll: P,
    before: Map<IdView, Slot<H, T, E>>,
    after: Map<IdView, Slot<H, T, E>>,
    k: IdView,
    j: IdView,
    h: H,
    s: Slot<H, T, E>,
)
    requires
        stays_unloaded(poll, before, k),
        updated(poll, before, after) || (after == before.insert(k, Slot::Loading(h))
            && never_yields_value(poll, h)) || (j != k && after == before.insert(j, s))
            || after == before.remove(j),
    ensures
        stays_unloaded(poll, after, k),
        kind_of(after, k) != StatusKind::Loaded,
        forall|r: LoadStatus<H, T, E>| reports(after, k, r) ==> !(r is Loaded),
{
    if updated(poll, before, after) && before.contains_key(k) {
        assert(before.contains_key(k));
    }
}

} // verus!
