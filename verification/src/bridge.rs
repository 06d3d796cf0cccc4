//! Event bridge: the queue contract through which background producers
//! hand values to the UI thread.
//!
//! The model is the queue half of a channel-plus-wake pair: `send` enqueues
//! at the back, `drain` pops everything currently queued in first-in
//! first-out order and never blocks — drained before any send, it returns
//! nothing. The host pairs a real multi-producer channel with a wake
//! primitive; this model is what the UI-side drain loop is held to.

use vstd::prelude::*;

verus! {

/// The queue of one bridge channel, holding the values sent and not yet
/// drained, oldest first.
pub struct EventBridge<T> {
    pub queue: Vec<T>,
}

impl<T> EventBridge<T> {
    /// A fresh bridge holds nothing.
    pub fn new() -> (r: EventBridge<T>)
        ensures
            r.queue@.len() == 0,
    {
        EventBridge { queue: Vec::new() }
    }

    /// Enqueue a value at the back; everything already queued stays, in
    /// order, ahead of it.
    pub fn send(&mut self, value: T)
        ensures
            final(self).queue@ == old(self).queue@.push(value),
    {
        self.queue.push(value);
    }

    /// Pop everything currently queued, in first-in first-out order,
    /// leaving the bridge empty; with nothing queued, nothing is returned.
    pub fn drain(&mut self) -> (r: Vec<T>)
        ensures
            r@ == old(self).queue@,
            final(self).queue@.len() == 0,
    {
        let mut drained: Vec<T> = Vec::new();
        core::mem::swap(&mut drained, &mut self.queue);
        drained
    }

    /// How many values are queued and not yet drained.
    pub fn len(&self) -> (r: usize)
        ensures
            r == self.queue@.len(),
    {
        self.queue.len()
    }
}

} // verus!
