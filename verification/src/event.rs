//! A small broadcast fan-out over the message queues: every subscriber gets
//! its own receiving end, and a broadcast clones the message to each of
//! them. A subscriber whose receiving end is gone is silently dropped at the
//! next broadcast, so hook-side producers may outlive any consumer.

use vstd::prelude::*;

verus! {

use crate::channel::{channel_send, channel_unbounded};

#[verifier::reject_recursive_types(T)]
pub struct Event<T> {
    pub senders: Vec<crossbeam_channel::Sender<T>>,
}

impl<T: Clone> Event<T> {
    pub fn new() -> (r: Event<T>)
        ensures
            r.senders@.len() == 0,
    {
        Event { senders: Vec::new() }
    }

    /// Adds a subscriber and hands back its receiving end.
    pub fn subscribe(&mut self) -> (r: crossbeam_channel::Receiver<T>)
        ensures
            final(self).senders@.len() == old(self).senders@.len() + 1,
    {
        let (sender, receiver) = channel_unbounded();
        self.senders.push(sender);
        receiver
    }

    /// Sends a clone of the message to every subscriber, keeping only the
    /// subscribers that could still be reached, in order.
    pub fn broadcast(&mut self, message: T)
        ensures
            final(self).senders@.len() <= old(self).senders@.len(),
    {
        let mut kept: Vec<crossbeam_channel::Sender<T>> = Vec::new();
        while self.senders.len() > 0
            invariant
                kept@.len() + self.senders@.len() <= old(self).senders@.len(),
            decreases self.senders@.len(),
        {
            let sender = self.senders.remove(0);
            if channel_send(&sender, message.clone()) {
                kept.push(sender);
            }
        }
        self.senders = kept;
    }
}

impl<T: Clone> Default for Event<T> {
    fn default() -> (r: Event<T>)
        ensures
            r.senders@.len() == 0,
    {
        Event { senders: Vec::new() }
    }
}

} // verus!
