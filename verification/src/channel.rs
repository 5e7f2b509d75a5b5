//! Trusted boundary to the `crossbeam_channel` queues.
//!
//! The event queues are the only synchronization point between the OS hook
//! callbacks (producers, running on foreign threads) and the polling core
//! (the single consumer). What a queue holds at any moment depends on those
//! other threads, so nothing is promised about the values moved through it:
//! every consumer of a received value is verified for all possible values.

use vstd::prelude::*;

verus! {

#[verifier::external_type_specification]
#[verifier::external_body]
#[verifier::reject_recursive_types(T)]
pub struct ExSender<T>(crossbeam_channel::Sender<T>);

#[verifier::external_type_specification]
#[verifier::external_body]
#[verifier::reject_recursive_types(T)]
pub struct ExReceiver<T>(crossbeam_channel::Receiver<T>);

/// Relies on crossbeam_channel::unbounded: creates a connected
/// multi-producer single-consumer queue of unbounded capacity.
#[verifier::external_body]
pub(crate) fn channel_unbounded<T>() -> (crossbeam_channel::Sender<T>, crossbeam_channel::Receiver<T>) {
    crossbeam_channel::unbounded()
}

/// Relies on crossbeam_channel::Receiver::try_recv: returns a queued message
/// immediately, or nothing when the queue is empty or disconnected; never
/// blocks. Which message (if any) arrives depends on the producer threads.
#[verifier::external_body]
pub(crate) fn channel_try_recv<T>(r: &crossbeam_channel::Receiver<T>) -> Option<T> {
    r.try_recv().ok()
}

/// Relies on crossbeam_channel::Sender::send: queues the message and reports
/// success, or reports failure when the consumer side is gone (the message is
/// then dropped, matching the fail-silently policy for orphaned producers).
#[verifier::external_body]
pub(crate) fn channel_send<T>(s: &crossbeam_channel::Sender<T>, msg: T) -> bool {
    s.send(msg).is_ok()
}

} // verus!
