use crate::identifier::{IdView, Identifier};
use crate::status::{share, LoadStatus, StatusKind};
use std::sync::Arc;
use vstd::prelude::*;

verus! {

/// What one key holds in the cache.
pub enum Slot<H, T, E> {
    /// A load in flight, with the handle that observes it.
    Loading(H),
    /// The value a finished load produced.
    Loaded(Arc<T>),
    /// The failure a finished load recorded.
    Failed(Arc<E>),
}

/// The slot that a finished load leaves behind.
pub open spec fn settled_slot<H, T, E>(outcome: Result<Arc<T>, Arc<E>>) -> Slot<H, T, E> {
    match outcome {
        Ok(v) => Slot::Loaded(v),
        Err(e) => Slot::Failed(e),
    }
}

/// The phase of a key in a cache model.
pub open spec fn kind_of<H, T, E>(m: Map<IdView, Slot<H, T, E>>, k: IdView) -> StatusKind {
    if !m.contains_key(k) {
        StatusKind::NotLoading
    } else {
        match m[k] {
            Slot::Loading(_) => StatusKind::Loading,
            Slot::Loaded(_) => StatusKind::Loaded,
            Slot::Failed(_) => StatusKind::Error,
        }
    }
}

/// Whether `r` reports what the model holds at `k`: a load in flight is
/// handed out as a clone of its handle, a loaded value or a failure as it is
/// stored.
pub open spec fn reports<H: Clone, T, E>(
    m: Map<IdView, Slot<H, T, E>>,
    k: IdView,
    r: LoadStatus<H, T, E>,
) -> bool {
    if !m.contains_key(k) {
        r is NotLoading
    } else {
        match m[k] {
            Slot::Loading(h) => match r {
                LoadStatus::Loading(x) => cloned(h, x),
                _ => false,
            },
            Slot::Loaded(v) => r == LoadStatus::<H, T, E>::Loaded(v),
            Slot::Failed(e) => r == LoadStatus::<H, T, E>::Error(e),
        }
    }
}

/// One slot after a non-blocking poll: a slot in flight either stays in
/// flight, when the poll saw nothing yet, or takes the outcome that the poll
/// returned; any other slot is left as it is.
pub open spec fn advanced<H, T, E, P: Fn(&H) -> Option<Result<Arc<T>, Arc<E>>>>(
    poll: P,
    before: Slot<H, T, E>,
    after: Slot<H, T, E>,
) -> bool {
    match before {
        Slot::Loading(h) => exists|r: Option<Result<Arc<T>, Arc<E>>>|
            #![trigger poll.ensures((&h,), r)]
            poll.ensures((&h,), r) && match r {
                None => after == before,
                Some(o) => after == settled_slot::<H, T, E>(o),
            },
        _ => after == before,
    }
}

/// The update step, as a relation between the model before and after it:
/// the same keys, each slot advanced by one poll.
pub open spec fn updated<H, T, E, P: Fn(&H) -> Option<Result<Arc<T>, Arc<E>>>>(
    poll: P,
    before: Map<IdView, Slot<H, T, E>>,
    after: Map<IdView, Slot<H, T, E>>,
) -> bool {
    &&& after.dom() == before.dom()
    &&& forall|k: IdView| #[trigger]
        before.contains_key(k) ==> advanced(poll, before[k], after[k])
}

/// Eviction at `k`, as a relation between the model after the update step
/// (`mid`) and the model that is left: a loaded value or a recorded failure
/// leaves the cache, and a loaded value is handed back; a load in flight
/// cannot be cancelled and stays.
pub open spec fn evicted<H, T, E>(
    mid: Map<IdView, Slot<H, T, E>>,
    k: IdView,
    after: Map<IdView, Slot<H, T, E>>,
    r: Option<Arc<T>>,
) -> bool {
    if mid.contains_key(k) && !(mid[k] is Loading) {
        &&& after == mid.remove(k)
        &&& r == match mid[k] {
            Slot::Loaded(v) => Some(v),
            _ => None::<Arc<T>>,
        }
    } else {
        after == mid && r is None
    }
}

/// A keyed store of loads: each key holds one load in flight, one loaded
/// value or one recorded failure, and no two entries share a key.
pub struct ResourceCache<H, T, E> {
    keys: Vec<Identifier>,
    slots: Vec<Slot<H, T, E>>,
    model: Ghost<Map<IdView, Slot<H, T, E>>>,
}

impl<H, T, E> View for ResourceCache<H, T, E> {
    type V = Map<IdView, Slot<H, T, E>>;

    closed spec fn view(&self) -> Map<IdView, Slot<H, T, E>> {
        self.model@
    }
}

impl<H: Clone, T, E> ResourceCache<H, T, E> {
    /// The entries line up with the model, one entry per key.
    pub closed spec fn wf(&self) -> bool {
        &&& self.keys.len() == self.slots.len()
        &&& forall|i: int, j: int|
            0 <= i < j < self.keys.len() ==> #[trigger] self.keys[i]@ != #[trigger] self.keys[j]@
        &&& forall|i: int|
            0 <= i < self.keys.len() ==> self.model@.contains_key(#[trigger] self.keys[i]@)
                && self.model@[self.keys[i]@] == self.slots[i]
        &&& forall|k: IdView|
            #[trigger] self.model@.contains_key(k) ==> exists|i: int|
                0 <= i < self.keys.len() && #[trigger] self.keys[i]@ == k
    }

    /// An empty cache.
    pub fn new() -> (r: Self)
        ensures
            r.wf(),
            r@ == Map::<IdView, Slot<H, T, E>>::empty(),
    {
        ResourceCache { keys: Vec::new(), slots: Vec::new(), model: Ghost(Map::empty()) }
    }

    /// The position of `key` among the entries, if it has one.
    fn find(&self, key: &Identifier) -> (r: Option<usize>)
        requires
            self.wf(),
        ensures
            match r {
                Some(i) => i < self.keys.len() && self.keys[i as int]@ == key@,
                None => !self@.contains_key(key@),
            },
    {
        let mut i: usize = 0;
        while i < self.keys.len()
            invariant
                self.wf(),
                i <= self.keys.len(),
                forall|j: int| 0 <= j < i ==> self.keys[j]@ != key@,
            decreases self.keys.len() - i,
        {
            if self.keys[i].same(key) {
                return Some(i);
            }
            i = i + 1;
        }
        None
    }

    /// The update step: polls every load in flight once, without blocking,
    /// and records the outcome of each one that has finished.
    pub fn update<P: Fn(&H) -> Option<Result<Arc<T>, Arc<E>>>>(&mut self, poll: &P)
        requires
            old(self).wf(),
            forall|h: &H| #[trigger] poll.requires((h,)),
        ensures
            final(self).wf(),
            updated(*poll, old(self)@, final(self)@),
    {
        let ghost before = self@;
        let ghost start_slots = self.slots@;
        let mut i: usize = 0;
        while i < self.slots.len()
            invariant
                self.wf(),
                forall|h: &H| #[trigger] poll.requires((h,)),
                i <= self.slots.len(),
                self.slots.len() == start_slots.len(),
                self@.dom() == before.dom(),
                forall|j: int| 0 <= j < self.keys.len() ==> before[#[trigger] self.keys[j]@] == start_slots[j],
                forall|j: int| 0 <= j < i ==> advanced(*poll, start_slots[j], #[trigger] self.slots[j]),
                forall|j: int| i <= j < self.slots.len() ==> #[trigger] self.slots[j] == start_slots[j],
            decreases self.slots.len() - i,
        {
            let polled = match &self.slots[i] {
                Slot::Loading(h) => poll(h),
                _ => None,
            };
            match polled {
                Some(outcome) => {
                    let ghost k = self.keys[i as int]@;
                    let slot = match outcome {
                        Ok(v) => Slot::Loaded(v),
                        Err(e) => Slot::Failed(e),
                    };
                    self.slots.set(i, slot);
                    self.model = Ghost(self.model@.insert(k, self.slots[i as int]));
                    assert forall|j: int| 0 <= j < self.keys.len() implies self.model@.contains_key(#[trigger] self.keys[j]@)
                        && self.model@[self.keys[j]@] == self.slots[j] by {
                        if j != i {
                            assert(self.keys[j]@ != k);
                        }
                    }
                },
                None => {},
            }
            i = i + 1;
        }
        assert forall|k: IdView| #[trigger] before.contains_key(k) implies advanced(*poll, before[k], self@[k]) by {
            let j = choose|j: int| 0 <= j < self.keys.len() && #[trigger] self.keys[j]@ == k;
        }
    }

    /// Appends an entry for a key that has none.
    fn insert_new(&mut self, key: Identifier, slot: Slot<H, T, E>)
        requires
            old(self).wf(),
            !old(self)@.contains_key(key@),
        ensures
            final(self).wf(),
            final(self)@ == old(self)@.insert(key@, slot),
    {
        let ghost k = key@;
        let ghost before = self@;
        let ghost old_keys = self.keys@;
        self.keys.push(key);
        self.slots.push(slot);
        self.model = Ghost(self.model@.insert(k, slot));
        let ghost n = self.keys.len() as int;
        assert(self.keys[n - 1]@ == k);
        assert forall|i: int, j: int|
            0 <= i < j < self.keys.len() implies #[trigger] self.keys[i]@ != #[trigger] self.keys[j]@ by {
            if j == n - 1 {
                assert(before.contains_key(self.keys[i]@));
            }
        }
        assert forall|k2: IdView| #[trigger] self.model@.contains_key(k2) implies exists|i: int|
            0 <= i < self.keys.len() && #[trigger] self.keys[i]@ == k2 by {
            if k2 != k {
                assert(before.contains_key(k2));
                let i = choose|i: int| 0 <= i < old_keys.len() && #[trigger] old_keys[i]@ == k2;
                assert(self.keys[i]@ == k2);
            }
        }
    }

    /// Drops the entry at position `p`.
    fn remove_at(&mut self, p: usize)
        requires
            old(self).wf(),
            p < old(self).keys.len(),
        ensures
            final(self).wf(),
            final(self)@ == old(self)@.remove(old(self).keys[p as int]@),
    {
        let ghost k = self.keys[p as int]@;
        let ghost old_keys = self.keys@;
        self.keys.remove(p);
        self.slots.remove(p);
        self.model = Ghost(self.model@.remove(k));
        assert forall|i: int, j: int|
            0 <= i < j < self.keys.len() implies #[trigger] self.keys[i]@ != #[trigger] self.keys[j]@ by {
            let oi = if i < p { i } else { i + 1 };
            let oj = if j < p { j } else { j + 1 };
            assert(old_keys[oi]@ != old_keys[oj]@);
        }
        assert forall|i: int| 0 <= i < self.keys.len() implies self.model@.contains_key(
            #[trigger] self.keys[i]@,
        ) && self.model@[self.keys[i]@] == self.slots[i] by {
            let oi = if i < p { i } else { i + 1 };
            assert(old_keys[oi]@ != old_keys[p as int]@);
        }
        assert forall|k2: IdView| #[trigger] self.model@.contains_key(k2) implies exists|i: int|
            0 <= i < self.keys.len() && #[trigger] self.keys[i]@ == k2 by {
            let oi = choose|oi: int| 0 <= oi < old_keys.len() && #[trigger] old_keys[oi]@ == k2;
            let i = if oi < p { oi } else { oi - 1 };
            assert(self.keys[i]@ == k2);
        }
    }

    /// The status of `key` as the cache holds it now.
    fn lookup(&self, key: &Identifier) -> (r: LoadStatus<H, T, E>)
        requires
            self.wf(),
        ensures
            reports(self@, key@, r),
    {
        match self.find(key) {
            None => LoadStatus::NotLoading,
            Some(i) => match &self.slots[i] {
                Slot::Loading(h) => LoadStatus::Loading(h.clone()),
                Slot::Loaded(v) => LoadStatus::Loaded(share(v)),
                Slot::Failed(e) => LoadStatus::Error(share(e)),
            },
        }
    }

    /// Requests `key`: runs the update step and tells whether the key holds
    /// nothing, so that a fresh load is needed. A key that is in flight,
    /// loaded or failed needs none, so no load is ever started twice for one
    /// key; a failed key stays failed until it is removed. The caller makes
    /// the load (dispatching its work) only when told to, and records it with
    /// `begin`.
    pub fn load<P: Fn(&H) -> Option<Result<Arc<T>, Arc<E>>>>(&mut self, key: &Identifier, poll: &P) -> (needed:
        bool)
        requires
            old(self).wf(),
            forall|h: &H| #[trigger] poll.requires((h,)),
        ensures
            final(self).wf(),
            updated(*poll, old(self)@, final(self)@),
            needed == !old(self)@.contains_key(key@),
            needed == !final(self)@.contains_key(key@),
    {
        self.update(poll);
        self.find(key).is_none()
    }

    /// Records the fresh load `h` of a key that holds nothing.
    pub fn begin(&mut self, key: Identifier, h: H)
        requires
            old(self).wf(),
            !old(self)@.contains_key(key@),
        ensures
            final(self).wf(),
            final(self)@ == old(self)@.insert(key@, Slot::Loading(h)),
    {
        self.insert_new(key, Slot::Loading(h));
    }

    /// Runs the update step, then reports what `key` holds: nothing, a load
    /// in flight (with a clone of its handle), the loaded value, or the
    /// recorded failure.
    pub fn get<P: Fn(&H) -> Option<Result<Arc<T>, Arc<E>>>>(
        &mut self,
        key: &Identifier,
        poll: &P,
    ) -> (r: LoadStatus<H, T, E>)
        requires
            old(self).wf(),
            forall|h: &H| #[trigger] poll.requires((h,)),
        ensures
            final(self).wf(),
            updated(*poll, old(self)@, final(self)@),
            reports(final(self)@, key@, r),
    {
        self.update(poll);
        self.lookup(key)
    }

    /// Runs the update step, then classifies `key` without handing out its
    /// payload.
    pub fn status<P: Fn(&H) -> Option<Result<Arc<T>, Arc<E>>>>(
        &mut self,
        key: &Identifier,
        poll: &P,
    ) -> (r: StatusKind)
        requires
            old(self).wf(),
            forall|h: &H| #[trigger] poll.requires((h,)),
        ensures
            final(self).wf(),
            updated(*poll, old(self)@, final(self)@),
            r == kind_of(final(self)@, key@),
    {
        self.update(poll);
        match self.find(key) {
            None => StatusKind::NotLoading,
            Some(i) => match &self.slots[i] {
                Slot::Loading(_) => StatusKind::Loading,
                Slot::Loaded(_) => StatusKind::Loaded,
                Slot::Failed(_) => StatusKind::Error,
            },
        }
    }

    /// Runs the update step, then evicts `key` if its load has finished,
    /// handing back the loaded value; a load in flight is left to finish.
    pub fn remove<P: Fn(&H) -> Option<Result<Arc<T>, Arc<E>>>>(
        &mut self,
        key: &Identifier,
        poll: &P,
    ) -> (r: Option<Arc<T>>)
        requires
            old(self).wf(),
            forall|h: &H| #[trigger] poll.requires((h,)),
        ensures
            final(self).wf(),
            exists|mid: Map<IdView, Slot<H, T, E>>|
                #[trigger] updated(*poll, old(self)@, mid) && evicted(mid, key@, final(self)@, r),
    {
        self.update(poll);
        let ghost mid = self@;
        let r = match self.find(key) {
            None => None,
            Some(i) => {
                let taken = match &self.slots[i] {
                    Slot::Loading(_) => None,
                    Slot::Loaded(v) => Some(Some(share(v))),
                    Slot::Failed(_) => Some(None),
                };
                match taken {
                    None => None,
                    Some(v) => {
                        self.remove_at(i);
                        v
                    },
                }
            },
        };
        assert(updated(*poll, old(self)@, mid) && evicted(mid, key@, self@, r));
        r
    }
}

} // verus!
