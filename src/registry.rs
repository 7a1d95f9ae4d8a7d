use crate::cache::{reports, updated, ResourceCache, Slot};
use crate::identifier::{IdView, Identifier};
use crate::status::LoadStatus;
use std::any::TypeId;
use std::sync::Arc;
use vstd::prelude::*;

verus! {

#[verifier::external_type_specification]
#[verifier::external_body]
pub struct ExTypeId(std::any::TypeId);

#[verifier::external_type_specification]
#[verifier::external_body]
pub struct ExBindGroup(wgpu::BindGroup);

/// A resource kind that is read from a RON file.
pub trait Ron {
}

/// A resource kind that can bind itself for drawing.
pub trait Material {
    fn create_bind_group(&self, device: &wgpu::Device) -> wgpu::BindGroup;
}

/// Relies on `TypeId`'s `PartialEq`: two ids compare equal exactly when
/// they are the same id, that is, name the same type.
pub assume_specification[ <TypeId as PartialEq>::eq ](a: &TypeId, b: &TypeId) -> (r: bool)
    ensures
        r == (*a == *b),
;

/// Several caches behind one handle, one for each registered type, found by
/// the type's id.
pub struct TypeRegistry<H, T, E> {
    kinds: Vec<TypeId>,
    caches: Vec<ResourceCache<H, T, E>>,
    model: Ghost<Map<TypeId, Map<IdView, Slot<H, T, E>>>>,
}

impl<H, T, E> View for TypeRegistry<H, T, E> {
    type V = Map<TypeId, Map<IdView, Slot<H, T, E>>>;

    closed spec fn view(&self) -> Self::V {
        self.model@
    }
}

impl<H: Clone, T, E> TypeRegistry<H, T, E> {
    /// One well-formed cache for each type, in line with the model.
    pub closed spec fn wf(&self) -> bool {
        &&& self.kinds.len() == self.caches.len()
        &&& forall|i: int, j: int|
            0 <= i < j < self.kinds.len() ==> #[trigger] self.kinds[i] != #[trigger] self.kinds[j]
        &&& forall|i: int|
            0 <= i < self.kinds.len() ==> self.model@.contains_key(#[trigger] self.kinds[i])
                && self.model@[self.kinds[i]] == self.caches[i]@ && self.caches[i].wf()
        &&& forall|t: TypeId|
            #[trigger] self.model@.contains_key(t) ==> exists|i: int|
                0 <= i < self.kinds.len() && #[trigger] self.kinds[i] == t
    }

    /// A registry with no type in it.
    pub fn new() -> (r: Self)
        ensures
            r.wf(),
            r@ == Map::<TypeId, Map<IdView, Slot<H, T, E>>>::empty(),
    {
        TypeRegistry { kinds: Vec::new(), caches: Vec::new(), model: Ghost(Map::empty()) }
    }

    fn find(&self, kind: &TypeId) -> (r: Option<usize>)
        requires
            self.wf(),
        ensures
            match r {
                Some(i) => i < self.kinds.len() && self.kinds[i as int] == *kind,
                None => !self@.contains_key(*kind),
            },
    {
        let mut i: usize = 0;
        while i < self.kinds.len()
            invariant
                self.wf(),
                i <= self.kinds.len(),
                forall|j: int| 0 <= j < i ==> self.kinds[j] != *kind,
            decreases self.kinds.len() - i,
        {
            if self.kinds[i] == *kind {
                return Some(i);
            }
            i = i + 1;
        }
        None
    }

    /// Whether a cache is registered for `kind`.
    pub fn is_registered(&self, kind: &TypeId) -> (r: bool)
        requires
            self.wf(),
        ensures
            r == self@.contains_key(*kind),
    {
        self.find(kind).is_some()
    }

    /// Registers a fresh, empty cache for `kind`. Registering a type twice is
    /// a programming error.
    pub fn register(&mut self, kind: TypeId)
        requires
            old(self).wf(),
            !old(self)@.contains_key(kind),
        ensures
            final(self).wf(),
            final(self)@ == old(self)@.insert(kind, Map::<IdView, Slot<H, T, E>>::empty()),
    {
        let ghost before = self@;
        let ghost old_kinds = self.kinds@;
        let cache = ResourceCache::new();
        self.kinds.push(kind);
        self.caches.push(cache);
        self.model = Ghost(self.model@.insert(kind, Map::empty()));
        let ghost n = self.kinds.len() as int;
        assert forall|i: int, j: int|
            0 <= i < j < self.kinds.len() implies #[trigger] self.kinds[i] != #[trigger] self.kinds[j] by {
            if j == n - 1 {
                assert(before.contains_key(self.kinds[i]));
            }
        }
        assert forall|t: TypeId| #[trigger] self.model@.contains_key(t) implies exists|i: int|
            0 <= i < self.kinds.len() && #[trigger] self.kinds[i] == t by {
            if t != kind {
                assert(before.contains_key(t));
                let i = choose|i: int| 0 <= i < old_kinds.len() && #[trigger] old_kinds[i] == t;
                assert(self.kinds[i] == t);
            } else {
                assert(self.kinds[n - 1] == t);
            }
        }
    }

    /// Takes the cache at position `i` out, leaving an empty one there.
    fn take(&mut self, i: usize) -> (r: ResourceCache<H, T, E>)
        requires
            old(self).wf(),
            i < old(self).kinds.len(),
        ensures
            r.wf(),
            r@ == old(self)@[old(self).kinds[i as int]],
            final(self).kinds == old(self).kinds,
            final(self).model == old(self).model,
            final(self).caches@ == old(self).caches@.update(i as int, final(self).caches[i as int]),
            final(self).caches.len() == old(self).caches.len(),
    {
        assert(self.model@.contains_key(self.kinds[i as int]));
        let mut c = ResourceCache::new();
        self.caches.set_and_swap(i, &mut c);
        c
    }

    /// Puts cache `c` back at position `i`.
    fn put(&mut self, i: usize, c: ResourceCache<H, T, E>)
        requires
            i < old(self).kinds.len(),
            old(self).kinds.len() == old(self).caches.len(),
            c.wf(),
            forall|j: int, k: int|
                0 <= j < k < old(self).kinds.len() ==> #[trigger] old(self).kinds[j] != #[trigger] old(self).kinds[k],
            forall|j: int|
                0 <= j < old(self).kinds.len() && j != i ==> old(self).model@.contains_key(#[trigger] old(self).kinds[j])
                    && old(self).model@[old(self).kinds[j]] == old(self).caches[j]@ && old(self).caches[j].wf(),
            forall|t: TypeId|
                #[trigger] old(self).model@.contains_key(t) ==> exists|j: int|
                    0 <= j < old(self).kinds.len() && #[trigger] old(self).kinds[j] == t,
            old(self).model@.contains_key(old(self).kinds[i as int]),
        ensures
            final(self).wf(),
            final(self)@ == old(self)@.insert(old(self).kinds[i as int], c@),
    {
        let ghost k = self.kinds[i as int];
        let ghost cv = c@;
        let mut c = c;
        self.caches.set_and_swap(i, &mut c);
        self.model = Ghost(self.model@.insert(k, cv));
        assert forall|j: int| 0 <= j < self.kinds.len() implies self.model@.contains_key(#[trigger] self.kinds[j])
            && self.model@[self.kinds[j]] == self.caches[j]@ && self.caches[j].wf() by {
            if j != i {
                assert(self.kinds[j] != k);
            }
        }
    }

    /// Requests `key` from the cache of `kind`: tells whether a fresh load
    /// is needed; see `ResourceCache::load`. `kind` must be registered.
    pub fn load<P: Fn(&H) -> Option<Result<Arc<T>, Arc<E>>>>(&mut self, kind: &TypeId, key: &Identifier, poll: &P) -> (needed:
        bool)
        requires
            old(self).wf(),
            old(self)@.contains_key(*kind),
            forall|h: &H| #[trigger] poll.requires((h,)),
        ensures
            final(self).wf(),
            final(self)@.dom() == old(self)@.dom(),
            forall|t: TypeId| #[trigger] old(self)@.contains_key(t) && t != *kind ==> final(self)@[t] == old(self)@[t],
            updated(*poll, old(self)@[*kind], final(self)@[*kind]),
            needed == !old(self)@[*kind].contains_key(key@),
            needed == !final(self)@[*kind].contains_key(key@),
    {
        let i = self.find(kind).unwrap();
        let mut c = self.take(i);
        let needed = c.load(key, poll);
        self.put(i, c);
        needed
    }

    /// Records the fresh load `h` of `key`, which holds nothing, in the cache
    /// of `kind`. `kind` must be registered.
    pub fn begin(&mut self, kind: &TypeId, key: Identifier, h: H)
        requires
            old(self).wf(),
            old(self)@.contains_key(*kind),
            !old(self)@[*kind].contains_key(key@),
        ensures
            final(self).wf(),
            final(self)@ == old(self)@.insert(*kind, old(self)@[*kind].insert(key@, Slot::Loading(h))),
    {
        let i = self.find(kind).unwrap();
        let mut c = self.take(i);
        c.begin(key, h);
        self.put(i, c);
    }

    /// Reports what `key` holds in the cache of `kind`; see
    /// `ResourceCache::get`. `kind` must be registered.
    pub fn get<P: Fn(&H) -> Option<Result<Arc<T>, Arc<E>>>>(
        &mut self,
        kind: &TypeId,
        key: &Identifier,
        poll: &P,
    ) -> (r: LoadStatus<H, T, E>)
        requires
            old(self).wf(),
            old(self)@.contains_key(*kind),
            forall|h: &H| #[trigger] poll.requires((h,)),
        ensures
            final(self).wf(),
            final(self)@.dom() == old(self)@.dom(),
            forall|t: TypeId| #[trigger] old(self)@.contains_key(t) && t != *kind ==> final(self)@[t] == old(self)@[t],
            updated(*poll, old(self)@[*kind], final(self)@[*kind]),
            reports(final(self)@[*kind], key@, r),
    {
        let i = self.find(kind).unwrap();
        let mut c = self.take(i);
        let r = c.get(key, poll);
        self.put(i, c);
        r
    }
}

} // verus!
