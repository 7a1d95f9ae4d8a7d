use crate::cache::{evicted, kind_of, reports, updated, ResourceCache, Slot};
use crate::fileloader::LoadError;
use crate::identifier::{IdView, Identifier};
use crate::status::{LoadStatus, StatusKind};
use std::sync::Arc;
use vstd::prelude::*;

verus! {

/// A cache of files keyed by path: each path holds a load in flight, the
/// converted contents, or the failure of its load.
pub struct AsyncFileManager<H, T, R> {
    cache: ResourceCache<H, T, LoadError<R>>,
}

impl<H, T, R> View for AsyncFileManager<H, T, R> {
    type V = Map<IdView, Slot<H, T, LoadError<R>>>;

    closed spec fn view(&self) -> Self::V {
        self.cache@
    }
}

impl<H: Clone, T, R> AsyncFileManager<H, T, R> {
    pub closed spec fn wf(&self) -> bool {
        self.cache.wf()
    }

    /// An empty manager.
    pub fn new() -> (r: Self)
        ensures
            r.wf(),
            r@ == Map::<IdView, Slot<H, T, LoadError<R>>>::empty(),
    {
        AsyncFileManager { cache: ResourceCache::new() }
    }

    /// Requests the file at `path`: runs the update step and tells whether a fresh load
    /// is needed; see `ResourceCache::load`.
    pub fn load<P: Fn(&H) -> Option<Result<Arc<T>, Arc<LoadError<R>>>>>(&mut self, path: &str, poll: &P) -> (needed: bool)
        requires
            old(self).wf(),
            forall|h: &H| #[trigger] poll.requires((h,)),
        ensures
            final(self).wf(),
            updated(*poll, old(self)@, final(self)@),
            needed == !old(self)@.contains_key(IdView::Path(path@)),
            needed == !final(self)@.contains_key(IdView::Path(path@)),
    {
        self.cache.load(&Identifier::Path(path.to_owned()), poll)
    }

    /// Records the fresh load `h` of the file at `path`, which holds nothing.
    pub fn begin(&mut self, path: &str, h: H)
        requires
            old(self).wf(),
            !old(self)@.contains_key(IdView::Path(path@)),
        ensures
            final(self).wf(),
            final(self)@ == old(self)@.insert(IdView::Path(path@), Slot::<H, T, LoadError<R>>::Loading(h)),
    {
        self.cache.begin(Identifier::Path(path.to_owned()), h)
    }

    /// Reports what the file at `path` holds; see `ResourceCache::get`.
    pub fn get<P: Fn(&H) -> Option<Result<Arc<T>, Arc<LoadError<R>>>>>(&mut self, path: &str, poll: &P) -> (r:
        LoadStatus<H, T, LoadError<R>>)
        requires
            old(self).wf(),
            forall|h: &H| #[trigger] poll.requires((h,)),
        ensures
            final(self).wf(),
            updated(*poll, old(self)@, final(self)@),
            reports(final(self)@, IdView::Path(path@), r),
    {
        self.cache.get(&Identifier::Path(path.to_owned()), poll)
    }

    /// Classifies the file at `path`; see `ResourceCache::status`.
    pub fn status<P: Fn(&H) -> Option<Result<Arc<T>, Arc<LoadError<R>>>>>(&mut self, path: &str, poll: &P) -> (r:
        StatusKind)
        requires
            old(self).wf(),
            forall|h: &H| #[trigger] poll.requires((h,)),
        ensures
            final(self).wf(),
            updated(*poll, old(self)@, final(self)@),
            r == kind_of(final(self)@, IdView::Path(path@)),
    {
        self.cache.status(&Identifier::Path(path.to_owned()), poll)
    }

    /// Evicts the file at `path` once its load has finished; see
    /// `ResourceCache::remove`.
    pub fn remove<P: Fn(&H) -> Option<Result<Arc<T>, Arc<LoadError<R>>>>>(&mut self, path: &str, poll: &P) -> (r:
        Option<Arc<T>>)
        requires
            old(self).wf(),
            forall|h: &H| #[trigger] poll.requires((h,)),
        ensures
            final(self).wf(),
            exists|mid: Map<IdView, Slot<H, T, LoadError<R>>>|
                #[trigger] updated(*poll, old(self)@, mid) && evicted(mid, IdView::Path(path@), final(self)@, r),
    {
        let ghost before = self@;
        let r = self.cache.remove(&Identifier::Path(path.to_owned()), poll);
        proof {
            let mid = choose|mid: Map<IdView, _>| #[trigger] updated(*poll, before, mid) && evicted(mid, IdView::Path(path@), self@, r);
            assert(updated(*poll, before, mid) && evicted(mid, IdView::Path(path@), self@, r));
        }
        r
    }
}

} // verus!
