use crate::channel::{bounded, try_receive, Received};
use crossbeam_channel::{Receiver, Sender};
use vstd::prelude::*;

verus! {

/// How far a one-shot load has come. It only ever moves forward.
#[derive(Debug, Clone, Copy, PartialEq, Eq, Structural)]
pub enum Stage {
    NotStarted,
    Dispatched,
    Done,
}

#[verifier::reject_recursive_types(M)]
enum Phase<M> {
    NotStarted,
    Dispatched(Receiver<M>),
    Done,
}

/// What one poll of a one-shot load asks of its driver.
#[verifier::reject_recursive_types(M)]
pub enum ShotPoll<M> {
    /// The first poll: hand this sending half to the worker, which sends the
    /// one result through it and wakes the task.
    Dispatch(Sender<M>),
    /// Nothing has arrived: register the current task to be woken.
    Pending,
    /// The load is over: the message that arrived, or `Disconnected` when
    /// the worker went away without sending one.
    Ready(Received<M>),
}

/// The phases of a single load whose work runs elsewhere and reports back
/// through a channel with room for one message.
#[verifier::reject_recursive_types(M)]
pub struct OneShot<M> {
    phase: Phase<M>,
}

impl<M> OneShot<M> {
    pub closed spec fn stage(&self) -> Stage {
        match self.phase {
            Phase::NotStarted => Stage::NotStarted,
            Phase::Dispatched(_) => Stage::Dispatched,
            Phase::Done => Stage::Done,
        }
    }

    /// A load that has not been dispatched.
    pub fn new() -> (r: Self)
        ensures
            r.stage() == Stage::NotStarted,
    {
        OneShot { phase: Phase::NotStarted }
    }

    /// Whether the load is over, so that it must not be polled again.
    pub fn is_done(&self) -> (r: bool)
        ensures
            r == (self.stage() == Stage::Done),
    {
        match self.phase {
            Phase::Done => true,
            _ => false,
        }
    }

    /// Advances the load by one poll. The first poll opens the channel and
    /// asks for dispatch, so work is dispatched exactly once; later polls
    /// look for the result without blocking. A finished load must not be
    /// polled again.
    pub fn poll_step(&mut self) -> (r: ShotPoll<M>)
        requires
            old(self).stage() != Stage::Done,
        ensures
            old(self).stage() == Stage::NotStarted ==> r is Dispatch && final(self).stage()
                == Stage::Dispatched,
            old(self).stage() == Stage::Dispatched ==> match r {
                ShotPoll::Pending => final(self).stage() == Stage::Dispatched,
                ShotPoll::Ready(Received::Message(_)) => final(self).stage() == Stage::Done,
                ShotPoll::Ready(Received::Disconnected) => final(self).stage() == Stage::Done,
                _ => false,
            },
    {
        match &self.phase {
            Phase::NotStarted => {
                let (tx, rx) = bounded(1);
                self.phase = Phase::Dispatched(rx);
                ShotPoll::Dispatch(tx)
            },
            Phase::Dispatched(rx) => {
                match try_receive(rx) {
                    Received::Empty => ShotPoll::Pending,
                    Received::Message(m) => {
                        self.phase = Phase::Done;
                        ShotPoll::Ready(Received::Message(m))
                    },
                    Received::Disconnected => {
                        self.phase = Phase::Done;
                        ShotPoll::Ready(Received::Disconnected)
                    },
                }
            },
            Phase::Done => ShotPoll::Pending,
        }
    }
}

} // verus!
