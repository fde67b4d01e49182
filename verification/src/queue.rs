//! An unbounded FIFO queue of text payloads, the shape of one bridge
//! direction: senders append at the back, a non-blocking poll takes the
//! front or reports emptiness.

use vstd::prelude::*;

verus! {

/// An unbounded first-in/first-out queue of text messages.
///
/// Its view is the sequence of queued messages, oldest first.
pub struct MessageQueue {
    items: Vec<String>,
}

impl View for MessageQueue {
    type V = Seq<String>;

    closed spec fn view(&self) -> Seq<String> {
        self.items@
    }
}

impl MessageQueue {
    /// Creates an empty queue.
    pub fn new() -> (q: MessageQueue)
        ensures
            q@ == Seq::<String>::empty(),
    {
        MessageQueue { items: Vec::new() }
    }

    /// Appends a message at the back of the queue.
    pub fn push(&mut self, message: String)
        ensures
            final(self)@ == old(self)@.push(message),
    {
        self.items.push(message);
    }

    /// Non-blocking poll: takes the oldest message, or returns `None` and
    /// leaves the queue unchanged when it is empty. Emptiness is a normal
    /// condition, not an error.
    pub fn try_pop(&mut self) -> (r: Option<String>)
        ensures
            old(self)@.len() == 0 ==> r is None && final(self)@ == old(self)@,
            old(self)@.len() > 0 ==> r == Some(old(self)@[0]) && final(self)@ == old(self)@.drop_first(),
    {
        if self.items.len() == 0 {
            None
        } else {
            let front = self.items.remove(0);
            proof {
                assert(self@ =~= old(self)@.drop_first());
            }
            Some(front)
        }
    }

    /// The number of queued messages.
    pub fn len(&self) -> (n: usize)
        ensures
            n == self@.len(),
    {
        self.items.len()
    }
}

} // verus!
