use vstd::prelude::*;

verus! {

#[verifier::external_type_specification]
#[verifier::external_body]
#[verifier::reject_recursive_types(T)]
pub struct ExSender<T>(crossbeam_channel::Sender<T>);

#[verifier::external_type_specification]
#[verifier::external_body]
#[verifier::reject_recursive_types(T)]
pub struct ExReceiver<T>(crossbeam_channel::Receiver<T>);

/// What one non-blocking receive saw.
pub enum Received<M> {
    /// No message yet; a sender is still alive.
    Empty,
    /// The message that was waiting.
    Message(M),
    /// No message, and every sender is gone.
    Disconnected,
}

/// Relies on `crossbeam_channel::bounded`: a channel that holds up to `cap`
/// messages, as a sending and a receiving half.
#[verifier::external_body]
pub(crate) fn bounded<M>(cap: usize) -> (r: (crossbeam_channel::Sender<M>, crossbeam_channel::Receiver<M>)) {
    crossbeam_channel::bounded(cap)
}

/// Relies on `crossbeam_channel::Receiver::try_recv`: takes a waiting message
/// without blocking, or tells an empty channel from one whose senders are all
/// gone. Which of the three comes depends on the other threads.
#[verifier::external_body]
pub(crate) fn try_receive<M>(rx: &crossbeam_channel::Receiver<M>) -> (r: Received<M>) {
    match rx.try_recv() {
        Ok(m) => Received::Message(m),
        Err(crossbeam_channel::TryRecvError::Empty) => Received::Empty,
        Err(crossbeam_channel::TryRecvError::Disconnected) => Received::Disconnected,
    }
}

} // verus!
