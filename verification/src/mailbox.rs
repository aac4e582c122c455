//! The mailbox: a bounded FIFO queue of messages with a fixed capacity and a
//! close flag. Enqueue order equals dequeue order, the capacity is never
//! exceeded, and once the mailbox is closed no further message is admitted.

use vstd::prelude::*;

use crate::message::Message;

verus! {

/// Every mailbox is created with this capacity; it is never resized.
pub const MAILBOX_CAPACITY: usize = 100;

/// A bounded FIFO queue of messages of one concrete type.
pub struct Mailbox<M: Message> {
    queue: Vec<M>,
    closed: bool,
}

impl<M: Message> Mailbox<M> {
    /// The messages waiting to be dequeued, oldest first.
    pub closed spec fn pending(self) -> Seq<M> {
        self.queue@
    }

    /// Whether the mailbox has been closed: a closed mailbox admits nothing.
    pub closed spec fn is_closed(self) -> bool {
        self.closed
    }

    /// The capacity bound that every operation preserves.
    pub open spec fn wf(self) -> bool {
        self.pending().len() <= MAILBOX_CAPACITY
    }

    /// A fresh mailbox: open and empty.
    pub fn new() -> (m: Self)
        ensures
            m.wf(),
            m.pending() == Seq::<M>::empty(),
            !m.is_closed(),
    {
        Mailbox { queue: Vec::new(), closed: false }
    }

    /// How many messages are waiting.
    pub fn len(&self) -> (n: usize)
        ensures
            n == self.pending().len(),
    {
        self.queue.len()
    }

    /// Whether the queue holds no message.
    pub fn is_empty(&self) -> (b: bool)
        ensures
            b == (self.pending().len() == 0),
    {
        self.queue.len() == 0
    }

    /// Whether the queue is at capacity, so that admission must wait.
    pub fn is_full(&self) -> (b: bool)
        ensures
            b == (self.pending().len() == MAILBOX_CAPACITY),
    {
        self.queue.len() == MAILBOX_CAPACITY
    }

    /// Whether the mailbox has been closed.
    pub fn closed(&self) -> (b: bool)
        ensures
            b == self.is_closed(),
    {
        self.closed
    }

    /// Admit one message at the back of the queue.
    pub fn push_back(&mut self, msg: M)
        requires
            old(self).wf(),
            !old(self).is_closed(),
            old(self).pending().len() < MAILBOX_CAPACITY,
        ensures
            final(self).wf(),
            final(self).pending() == old(self).pending().push(msg),
            final(self).is_closed() == old(self).is_closed(),
    {
        self.queue.push(msg);
    }

    /// Dequeue the oldest message.
    pub fn pop_front(&mut self) -> (msg: M)
        requires
            old(self).wf(),
            old(self).pending().len() > 0,
        ensures
            final(self).wf(),
            msg == old(self).pending()[0],
            final(self).pending() == old(self).pending().skip(1),
            final(self).is_closed() == old(self).is_closed(),
    {
        let msg = self.queue.remove(0);
        proof {
            assert(self.pending() =~= old(self).pending().skip(1));
        }
        msg
    }

    /// Close the mailbox: pending messages stay, nothing more is admitted.
    pub fn close(&mut self)
        requires
            old(self).wf(),
        ensures
            final(self).wf(),
            final(self).pending() == old(self).pending(),
            final(self).is_closed(),
    {
        self.closed = true;
    }
}

} // verus!
