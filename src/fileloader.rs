use crate::channel::Received;
use crate::oneshot::{OneShot, ShotPoll, Stage};
use crossbeam_channel::Sender;
use std::io::ErrorKind;
use std::sync::Arc;
use vstd::prelude::*;

verus! {

#[verifier::external_type_specification]
pub struct ExErrorKind(std::io::ErrorKind);

/// Relies on `io::ErrorKind`'s `PartialEq`, which compares the variants:
/// two kinds compare equal exactly when they are the same kind.
pub assume_specification[ <ErrorKind as PartialEq>::eq ](a: &ErrorKind, b: &ErrorKind) -> (r: bool)
    ensures
        r == (*a == *b),
;

/// Why a load failed.
pub enum LoadError<R> {
    /// The raw read failed with this error.
    Read(R),
    /// The bytes were read but could not be converted.
    InvalidData,
    /// The worker went away without sending a result.
    BrokenPipe,
}

/// The I/O kind of a failure whose read error is recorded by its kind: the
/// read's own kind, `InvalidData` for a failed conversion, `BrokenPipe` for
/// a vanished worker.
pub open spec fn error_kind(e: LoadError<ErrorKind>) -> ErrorKind {
    match e {
        LoadError::Read(k) => k,
        LoadError::InvalidData => ErrorKind::InvalidData,
        LoadError::BrokenPipe => ErrorKind::BrokenPipe,
    }
}

impl LoadError<ErrorKind> {
    /// The I/O kind of this failure.
    pub fn kind(&self) -> (r: ErrorKind)
        ensures
            r == error_kind(*self),
    {
        match self {
            LoadError::Read(k) => *k,
            LoadError::InvalidData => ErrorKind::InvalidData,
            LoadError::BrokenPipe => ErrorKind::BrokenPipe,
        }
    }
}

/// What one poll of a file load asks of its driver.
#[verifier::reject_recursive_types(R)]
pub enum FilePoll<T, R> {
    /// Read the file on a worker and send the outcome through this half.
    Dispatch(Sender<Result<Vec<u8>, R>>),
    /// Nothing has arrived: register the current task to be woken.
    Pending,
    /// The load is over, with this result.
    Ready(Result<Arc<T>, Arc<LoadError<R>>>),
}

/// Whether `out` is what a conversion that returned `c` makes of it: the
/// converted value, or `InvalidData` when the conversion failed.
pub open spec fn converts<T, C, R>(c: Result<T, C>, out: Result<Arc<T>, Arc<LoadError<R>>>) -> bool {
    match c {
        Ok(t) => match out {
            Ok(v) => *v == t,
            Err(_) => false,
        },
        Err(_) => match out {
            Ok(_) => false,
            Err(x) => *x == LoadError::<R>::InvalidData,
        },
    }
}

/// Whether `r` is what a poll makes of the receive `m` for the file at
/// `path`: read bytes go through `convert` once, a read error is passed on,
/// and a vanished worker is a broken pipe.
pub open spec fn resolves_to<T, C, R, F: FnOnce(String, Vec<u8>) -> Result<T, C>>(
    path: Seq<char>,
    m: Received<Result<Vec<u8>, R>>,
    convert: F,
    r: FilePoll<T, R>,
) -> bool {
    match m {
        Received::Empty => r is Pending,
        Received::Message(Ok(bytes)) => match r {
            FilePoll::Ready(out) => exists|p: String, c: Result<T, C>|
                #![trigger convert.ensures((p, bytes), c)]
                p@ == path && convert.ensures((p, bytes), c) && converts(c, out),
            _ => false,
        },
        Received::Message(Err(e)) => match r {
            FilePoll::Ready(Err(x)) => *x == LoadError::Read(e),
            _ => false,
        },
        Received::Disconnected => match r {
            FilePoll::Ready(Err(x)) => *x == LoadError::<R>::BrokenPipe,
            _ => false,
        },
    }
}

/// The load of one file: its bytes are read on a worker, sent back through
/// a one-shot channel, and converted when they arrive.
#[verifier::reject_recursive_types(R)]
pub struct FileLoadFuture<R> {
    path: String,
    shot: OneShot<Result<Vec<u8>, R>>,
}

impl<R> FileLoadFuture<R> {
    pub closed spec fn path_spec(&self) -> Seq<char> {
        self.path@
    }

    pub closed spec fn stage(&self) -> Stage {
        self.shot.stage()
    }

    /// A load of `path` that has not started; the first poll starts it.
    pub fn new(path: String) -> (r: Self)
        ensures
            r.path_spec() == path@,
            r.stage() == Stage::NotStarted,
    {
        FileLoadFuture { path, shot: OneShot::new() }
    }

    /// The path this load reads.
    pub fn path(&self) -> (r: &String)
        ensures
            r@ == self.path_spec(),
    {
        &self.path
    }

    /// Whether the load is over, so that it must not be polled again.
    pub fn is_done(&self) -> (r: bool)
        ensures
            r == (self.stage() == Stage::Done),
    {
        self.shot.is_done()
    }

    /// What a poll makes of the receive `m`.
    pub fn resolve<T, C, F: FnOnce(String, Vec<u8>) -> Result<T, C>>(
        &self,
        m: Received<Result<Vec<u8>, R>>,
        convert: F,
    ) -> (r: FilePoll<T, R>)
        requires
            forall|p: String, b: Vec<u8>| #[trigger] convert.requires((p, b)),
        ensures
            resolves_to(self.path_spec(), m, convert, r),
    {
        match m {
            Received::Empty => FilePoll::Pending,
            Received::Message(Ok(bytes)) => {
                let p = self.path.clone();
                let c = convert(p, bytes);
                let out = match c {
                    Ok(t) => Ok(Arc::new(t)),
                    Err(_) => Err(Arc::new(LoadError::InvalidData)),
                };
                assert(converts(c, out));
                FilePoll::Ready(out)
            },
            Received::Message(Err(e)) => FilePoll::Ready(Err(Arc::new(LoadError::Read(e)))),
            Received::Disconnected => FilePoll::Ready(Err(Arc::new(LoadError::BrokenPipe))),
        }
    }

    /// Advances the load by one poll: the first poll asks for dispatch; each
    /// later one looks for the bytes without blocking and, once they are
    /// there, converts them. A finished load must not be polled again.
    pub fn poll_step<T, C, F: FnOnce(String, Vec<u8>) -> Result<T, C>>(&mut self, convert: F) -> (r:
        FilePoll<T, R>)
        requires
            old(self).stage() != Stage::Done,
            forall|p: String, b: Vec<u8>| #[trigger] convert.requires((p, b)),
        ensures
            final(self).path_spec() == old(self).path_spec(),
            old(self).stage() == Stage::NotStarted ==> r is Dispatch && final(self).stage()
                == Stage::Dispatched,
            old(self).stage() == Stage::Dispatched ==> exists|m: Received<Result<Vec<u8>, R>>|
                #[trigger] resolves_to(old(self).path_spec(), m, convert, r),
            r is Pending ==> final(self).stage() == Stage::Dispatched,
            r is Ready ==> final(self).stage() == Stage::Done,
    {
        let ghost p0 = self.path_spec();
        match self.shot.poll_step() {
            ShotPoll::Dispatch(tx) => FilePoll::Dispatch(tx),
            ShotPoll::Pending => {
                let r = FilePoll::Pending;
                assert(resolves_to(p0, Received::Empty, convert, r));
                r
            },
            ShotPoll::Ready(m) => {
                let ghost gm = m;
                let r = self.resolve(m, convert);
                assert(resolves_to(p0, gm, convert, r));
                r
            },
        }
    }
}

} // verus!
