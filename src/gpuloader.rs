use crate::channel::Received;
use crate::fileloader::LoadError;
use crate::imagedata::ImageData;
use crate::oneshot::{OneShot, ShotPoll, Stage};
use crossbeam_channel::Sender;
use std::sync::Arc;
use vstd::prelude::*;

verus! {

/// What one poll of an upload asks of its driver.
#[verifier::reject_recursive_types(R)]
pub enum GpuPoll<R> {
    /// Upload the image on a worker and send the texture through this half.
    Dispatch(Sender<Arc<wgpu::Texture>>),
    /// Nothing has arrived: register the current task to be woken.
    Pending,
    /// The upload is over, with this result.
    Ready(Result<Arc<wgpu::Texture>, Arc<LoadError<R>>>),
}

/// Whether `r` is what a poll makes of the receive `m`: nothing yet is
/// pending, a delivered texture is the result, and a worker that went away
/// without sending one is a broken pipe.
pub open spec fn gpu_resolves_to<R>(m: Received<Arc<wgpu::Texture>>, r: GpuPoll<R>) -> bool {
    match m {
        Received::Empty => r is Pending,
        Received::Message(t) => match r {
            GpuPoll::Ready(Ok(u)) => u == t,
            _ => false,
        },
        Received::Disconnected => match r {
            GpuPoll::Ready(Err(e)) => *e == LoadError::<R>::BrokenPipe,
            _ => false,
        },
    }
}

/// The upload of one decoded image into a texture, run on a worker and
/// reported back through a one-shot channel.
pub struct GpuLoadFuture {
    imgdata: Arc<ImageData>,
    device: Arc<wgpu::Device>,
    queue: Arc<wgpu::Queue>,
    shot: OneShot<Arc<wgpu::Texture>>,
}

impl GpuLoadFuture {
    pub closed spec fn stage(&self) -> Stage {
        self.shot.stage()
    }

    pub closed spec fn image_spec(&self) -> ImageData {
        *self.imgdata
    }

    pub closed spec fn device_spec(&self) -> Arc<wgpu::Device> {
        self.device
    }

    pub closed spec fn queue_spec(&self) -> Arc<wgpu::Queue> {
        self.queue
    }

    /// An upload of `imgdata` that has not started; the first poll starts it.
    pub fn new(imgdata: Arc<ImageData>, device: Arc<wgpu::Device>, queue: Arc<wgpu::Queue>) -> (r:
        Self)
        ensures
            r.stage() == Stage::NotStarted,
            r.image_spec() == *imgdata,
            r.device_spec() == device,
            r.queue_spec() == queue,
    {
        GpuLoadFuture { imgdata, device, queue, shot: OneShot::new() }
    }

    /// The image to upload.
    pub fn imgdata(&self) -> (r: &Arc<ImageData>)
        ensures
            **r == self.image_spec(),
    {
        &self.imgdata
    }

    /// The device the texture is created on.
    pub fn device(&self) -> (r: &Arc<wgpu::Device>)
        ensures
            *r == self.device_spec(),
    {
        &self.device
    }

    /// The queue the texels are written through.
    pub fn queue(&self) -> (r: &Arc<wgpu::Queue>)
        ensures
            *r == self.queue_spec(),
    {
        &self.queue
    }

    /// Whether the load is over, so that it must not be polled again.
    pub fn is_done(&self) -> (r: bool)
        ensures
            r == (self.stage() == Stage::Done),
    {
        self.shot.is_done()
    }

    /// What a poll makes of the receive `m`.
    pub fn resolve<R>(&self, m: Received<Arc<wgpu::Texture>>) -> (r: GpuPoll<R>)
        ensures
            gpu_resolves_to(m, r),
    {
        match m {
            Received::Empty => GpuPoll::Pending,
            Received::Message(t) => GpuPoll::Ready(Ok(t)),
            Received::Disconnected => GpuPoll::Ready(Err(Arc::new(LoadError::BrokenPipe))),
        }
    }

    /// Advances the upload by one poll: the first poll asks for dispatch;
    /// each later one looks for the texture without blocking. A finished
    /// upload must not be polled again.
    pub fn poll_step<R>(&mut self) -> (r: GpuPoll<R>)
        requires
            old(self).stage() != Stage::Done,
        ensures
            final(self).image_spec() == old(self).image_spec(),
            final(self).device_spec() == old(self).device_spec(),
            final(self).queue_spec() == old(self).queue_spec(),
            old(self).stage() == Stage::NotStarted ==> r is Dispatch && final(self).stage()
                == Stage::Dispatched,
            old(self).stage() == Stage::Dispatched ==> exists|m: Received<Arc<wgpu::Texture>>|
                #[trigger] gpu_resolves_to(m, r),
            r is Pending ==> final(self).stage() == Stage::Dispatched,
            r is Ready ==> final(self).stage() == Stage::Done,
    {
        match self.shot.poll_step() {
            ShotPoll::Dispatch(tx) => GpuPoll::Dispatch(tx),
            ShotPoll::Pending => {
                let r = GpuPoll::Pending;
                assert(gpu_resolves_to(Received::Empty, r));
                r
            },
            ShotPoll::Ready(m) => {
                let ghost gm = m;
                let r = self.resolve(m);
                assert(gpu_resolves_to(gm, r));
                r
            },
        }
    }
}

} // verus!
