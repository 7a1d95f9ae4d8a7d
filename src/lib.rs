//! An asynchronous resource-loading cache.
//!
//! The library holds the decisions of the loader: which key owns which slot,
//! when a fresh load is started, how a finished load is absorbed, and how the
//! one-shot load of a single resource moves through its phases. Running
//! futures, reading files and waking tasks is left to the host program.
pub mod cache;
pub mod channel;
pub mod fileloader;
pub mod filemanager;
pub mod gpu;
pub mod gpuloader;
pub mod gpumanager;
pub mod identifier;
pub mod imagedata;
pub mod lemmas;
pub mod oneshot;
pub mod registry;
pub mod status;

pub use cache::{ResourceCache, Slot};
pub use channel::Received;
pub use fileloader::{FileLoadFuture, FilePoll, LoadError};
pub use filemanager::AsyncFileManager;
pub use gpu::{Extent, GpuTexture, TextureFormat};
pub use gpuloader::{gpu_resolves_to, GpuLoadFuture, GpuPoll};
pub use gpumanager::AsyncGpuManager;
pub use identifier::{IdView, Identifier};
pub use imagedata::{DecodeError, ImageData, ImageFormat};
pub use oneshot::{OneShot, ShotPoll, Stage};
pub use registry::{Material, Ron, TypeRegistry};
pub use status::{LoadStatus, StatusKind};
