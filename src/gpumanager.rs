use crate::cache::{evicted, kind_of, reports, updated, ResourceCache, Slot};
use crate::fileloader::LoadError;
use crate::identifier::{IdView, Identifier};
use crate::status::{LoadStatus, StatusKind};
use std::sync::Arc;
use vstd::prelude::*;

verus! {

/// A cache of textures keyed by identifier: each key holds an upload in
/// flight, the uploaded texture, or the failure of its upload.
pub struct AsyncGpuManager<H, R> {
    cache: ResourceCache<H, wgpu::Texture, LoadError<R>>,
}

impl<H, R> View for AsyncGpuManager<H, R> {
    type V = Map<IdView, Slot<H, wgpu::Texture, LoadError<R>>>;

    closed spec fn view(&self) -> Self::V {
        self.cache@
    }
}

impl<H: Clone, R> AsyncGpuManager<H, R> {
    pub closed spec fn wf(&self) -> bool {
        self.cache.wf()
    }

    /// An empty manager.
    pub fn new() -> (r: Self)
        ensures
            r.wf(),
            r@ == Map::<IdView, Slot<H, wgpu::Texture, LoadError<R>>>::empty(),
    {
        AsyncGpuManager { cache: ResourceCache::new() }
    }

    /// Requests the texture of `id`: runs the update step and tells whether a fresh load
    /// is needed; see `ResourceCache::load`.
    pub fn load<P: Fn(&H) -> Option<Result<Arc<wgpu::Texture>, Arc<LoadError<R>>>>>(&mut self, id: &Identifier, poll: &P) -> (needed: bool)
        requires
            old(self).wf(),
            forall|h: &H| #[trigger] poll.requires((h,)),
        ensures
            final(self).wf(),
            updated(*poll, old(self)@, final(self)@),
            needed == !old(self)@.contains_key(id@),
            needed == !final(self)@.contains_key(id@),
    {
        self.cache.load(id, poll)
    }

    /// Records the fresh load `h` of the texture of `id`, which holds nothing.
    pub fn begin(&mut self, id: Identifier, h: H)
        requires
            old(self).wf(),
            !old(self)@.contains_key(id@),
        ensures
            final(self).wf(),
            final(self)@ == old(self)@.insert(id@, Slot::<H, wgpu::Texture, LoadError<R>>::Loading(h)),
    {
        self.cache.begin(id, h)
    }

    /// Reports what the texture of `id` holds; see `ResourceCache::get`.
    pub fn get<P: Fn(&H) -> Option<Result<Arc<wgpu::Texture>, Arc<LoadError<R>>>>>(&mut self, id: &Identifier, poll: &P) -> (r:
        LoadStatus<H, wgpu::Texture, LoadError<R>>)
        requires
            old(self).wf(),
            forall|h: &H| #[trigger] poll.requires((h,)),
        ensures
            final(self).wf(),
            updated(*poll, old(self)@, final(self)@),
            reports(final(self)@, id@, r),
    {
        self.cache.get(id, poll)
    }

    /// Classifies the texture of `id`; see `ResourceCache::status`.
    pub fn status<P: Fn(&H) -> Option<Result<Arc<wgpu::Texture>, Arc<LoadError<R>>>>>(&mut self, id: &Identifier, poll: &P) -> (r:
        StatusKind)
        requires
            old(self).wf(),
            forall|h: &H| #[trigger] poll.requires((h,)),
        ensures
            final(self).wf(),
            updated(*poll, old(self)@, final(self)@),
            r == kind_of(final(self)@, id@),
    {
        self.cache.status(id, poll)
    }

    /// Evicts the texture of `id` once its load has finished; see
    /// `ResourceCache::remove`.
    pub fn remove<P: Fn(&H) -> Option<Result<Arc<wgpu::Texture>, Arc<LoadError<R>>>>>(&mut self, id: &Identifier, poll: &P) -> (r:
        Option<Arc<wgpu::Texture>>)
        requires
            old(self).wf(),
            forall|h: &H| #[trigger] poll.requires((h,)),
        ensures
            final(self).wf(),
            exists|mid: Map<IdView, Slot<H, wgpu::Texture, LoadError<R>>>|
                #[trigger] updated(*poll, old(self)@, mid) && evicted(mid, id@, final(self)@, r),
    {
        let ghost before = self@;
        let r = self.cache.remove(id, poll);
        proof {
            let mid = choose|mid: Map<IdView, _>| #[trigger] updated(*poll, before, mid) && evicted(mid, id@, self@, r);
            assert(updated(*poll, before, mid) && evicted(mid, id@, self@, r));
        }
        r
    }
}

} // verus!
