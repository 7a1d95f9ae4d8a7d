use crate::fileloader::{error_kind, LoadError};
use std::io::ErrorKind;
use std::sync::Arc;
use vstd::prelude::*;

verus! {

/// Relies on `Arc::clone`: it hands out another pointer to the same
/// allocation, so the clone holds the same value.
#[verifier::external_body]
pub(crate) fn share<T>(a: &Arc<T>) -> (r: Arc<T>)
    ensures
        r == *a,
{
    Arc::clone(a)
}

/// The phase a key is in, without its payload.
#[derive(Debug, Clone, Copy, PartialEq, Eq, Structural)]
pub enum StatusKind {
    NotLoading,
    Loading,
    Loaded,
    Error,
}

/// What the cache knows of a key: nothing, a load in flight (with a handle
/// that a caller may await), a loaded value, or a recorded failure.
pub enum LoadStatus<H, T, E> {
    NotLoading,
    Loading(H),
    Loaded(Arc<T>),
    Error(Arc<E>),
}

impl<H, T, E> LoadStatus<H, T, E> {
    pub open spec fn kind_spec(&self) -> StatusKind {
        match self {
            LoadStatus::NotLoading => StatusKind::NotLoading,
            LoadStatus::Loading(_) => StatusKind::Loading,
            LoadStatus::Loaded(_) => StatusKind::Loaded,
            LoadStatus::Error(_) => StatusKind::Error,
        }
    }

    /// The phase of this status.
    pub fn kind(&self) -> (r: StatusKind)
        ensures
            r == self.kind_spec(),
    {
        match self {
            LoadStatus::NotLoading => StatusKind::NotLoading,
            LoadStatus::Loading(_) => StatusKind::Loading,
            LoadStatus::Loaded(_) => StatusKind::Loaded,
            LoadStatus::Error(_) => StatusKind::Error,
        }
    }
}

/// Two statuses are equal when they are in the same phase and, for two
/// failures, the failures are of the same I/O kind; handles and values are
/// not compared.
impl<H, T> PartialEq for LoadStatus<H, T, LoadError<ErrorKind>> {
    fn eq(&self, other: &Self) -> (r: bool) {
        match (self, other) {
            (LoadStatus::NotLoading, LoadStatus::NotLoading) => true,
            (LoadStatus::Loading(_), LoadStatus::Loading(_)) => true,
            (LoadStatus::Loaded(_), LoadStatus::Loaded(_)) => true,
            (LoadStatus::Error(e1), LoadStatus::Error(e2)) => {
                let k1 = e1.kind();
                let k2 = e2.kind();
                k1 == k2
            },
            _ => false,
        }
    }
}

impl<H, T> vstd::std_specs::cmp::PartialEqSpecImpl for LoadStatus<H, T, LoadError<ErrorKind>> {
    open spec fn obeys_eq_spec() -> bool {
        true
    }

    open spec fn eq_spec(&self, other: &Self) -> bool {
        match (self, other) {
            (LoadStatus::Error(e1), LoadStatus::Error(e2)) => error_kind(**e1) == error_kind(**e2),
            _ => self.kind_spec() == other.kind_spec(),
        }
    }
}

} // verus!
