use vstd::prelude::*;
use std::sync::mpsc::{Receiver, Sender, TryRecvError};

verus! {

#[verifier::external_type_specification]
#[verifier::external_body]
#[verifier::reject_recursive_types(T)]
pub struct ExSender<T>(std::sync::mpsc::Sender<T>);

#[verifier::external_type_specification]
#[verifier::external_body]
#[verifier::reject_recursive_types(T)]
pub struct ExReceiver<T>(std::sync::mpsc::Receiver<T>);

/// What a reader finds when it looks at its stop channel.
#[derive(Debug, Clone, Copy, PartialEq, Eq)]
pub enum CancelPoll {
    /// Nothing was sent and the sender is alive.
    Pending,
    /// A stop signal was sent.
    Signalled,
    /// The sender is gone.
    Disconnected,
}

/// Whether a reader that found `poll` must stop: on a signal and when the
/// sender has been dropped alike.
pub open spec fn stops(poll: CancelPoll) -> bool {
    poll != CancelPoll::Pending
}

/// Relies on `std::sync::mpsc::channel`: a fresh stop channel.
#[verifier::external_body]
pub(crate) fn cancel_channel() -> (r: (Sender<usize>, Receiver<usize>)) {
    std::sync::mpsc::channel()
}

/// Relies on `std::sync::mpsc::Sender::send`: delivers a stop signal; fails
/// when the receiving reader is gone.
#[verifier::external_body]
pub(crate) fn send_stop(sender: &Sender<usize>) -> (r: Result<(), String>) {
    sender.send(1).map_err(|e| e.to_string())
}

/// Relies on `std::sync::mpsc::Receiver::try_recv`: looks at the channel
/// without waiting.
#[verifier::external_body]
pub(crate) fn poll_stop(receiver: &Receiver<usize>) -> (r: CancelPoll) {
    match receiver.try_recv() {
        Ok(_) => CancelPoll::Signalled,
        Err(TryRecvError::Empty) => CancelPoll::Pending,
        Err(TryRecvError::Disconnected) => CancelPoll::Disconnected,
    }
}

} // verus!
