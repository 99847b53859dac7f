//! The outbound queue of one connection: a bounded first-in, first-out
//! buffer between whoever has something for the client and the one loop
//! that writes to the socket.
use vstd::prelude::*;
use crate::channel::{
    queue_bound,
    queue_inlet,
    queue_items,
    queue_open,
    queue_outlet,
    queue_try_recv,
    queue_try_send,
    TrySend,
};
use crate::message::{Message, MessageView};

verus! {

/// The number of messages that an outbound queue holds unless told
/// otherwise.
pub const DEFAULT_QUEUE_CAPACITY: usize = 32;

/// The largest capacity that a queue can be made with.
pub const MAX_QUEUE_CAPACITY: usize = usize::MAX / 8;

/// A bounded queue of messages for one client.
pub struct OutboundQueue {
    tx: tokio::sync::mpsc::Sender<Message>,
    rx: tokio::sync::mpsc::Receiver<Message>,
    capacity: usize,
    len: usize,
}

impl OutboundQueue {
    /// The invariant of a queue: its two ends belong together, its counters
    /// agree with what it holds, and it holds no more than its capacity.
    pub closed spec fn wf(&self) -> bool {
        &&& queue_inlet(self.tx) == queue_outlet(self.rx)
        &&& queue_bound(self.rx) == self.capacity
        &&& queue_items(self.rx).len() == self.len
        &&& self.len <= self.capacity
        &&& 0 < self.capacity <= MAX_QUEUE_CAPACITY
    }

    /// The messages that wait in the queue, oldest first.
    pub closed spec fn items(&self) -> Seq<MessageView> {
        queue_items(self.rx)
    }

    /// The most messages that the queue holds at once.
    pub closed spec fn spec_capacity(&self) -> nat {
        self.capacity as nat
    }

    /// An empty queue for up to `capacity` messages, or `None` where
    /// `capacity` is zero or above [`MAX_QUEUE_CAPACITY`].
    pub fn new(capacity: usize) -> (queue: Option<OutboundQueue>)
        ensures
            queue is Some <==> 0 < capacity <= MAX_QUEUE_CAPACITY,
            queue matches Some(q) ==> {
                &&& q.wf()
                &&& q.items() == Seq::<MessageView>::empty()
                &&& q.spec_capacity() == capacity
            },
    {
        if capacity == 0 || capacity > MAX_QUEUE_CAPACITY {
            return None;
        }
        let (tx, rx) = queue_open(capacity);
        Some(OutboundQueue { tx, rx, capacity, len: 0 })
    }

    /// An empty queue of the default capacity, [`DEFAULT_QUEUE_CAPACITY`].
    pub fn with_default_capacity() -> (queue: OutboundQueue)
        ensures
            queue.wf(),
            queue.items() == Seq::<MessageView>::empty(),
            queue.spec_capacity() == DEFAULT_QUEUE_CAPACITY,
    {
        let (tx, rx) = queue_open(DEFAULT_QUEUE_CAPACITY);
        OutboundQueue { tx, rx, capacity: DEFAULT_QUEUE_CAPACITY, len: 0 }
    }

    /// Appends `message` if there is room. A full queue takes nothing and
    /// hands the message back, so that the producer can wait or give up:
    /// nothing is ever dropped in silence.
    pub fn try_enqueue(&mut self, message: Message) -> (outcome: Result<(), Message>)
        requires
            old(self).wf(),
        ensures
            final(self).wf(),
            final(self).spec_capacity() == old(self).spec_capacity(),
            outcome is Ok <==> old(self).items().len() < old(self).spec_capacity(),
            outcome is Ok ==> final(self).items() == old(self).items().push(message@),
            outcome matches Err(back) ==> back@ == message@ && final(self).items() == old(self).items(),
    {
        match queue_try_send(&self.tx, &mut self.rx, message) {
            TrySend::Sent => {
                self.len = self.len + 1;
                Ok(())
            },
            TrySend::Full(back) => Err(back),
            TrySend::Closed(back) => Err(back),
        }
    }

    /// Removes the oldest message, or returns `None` where the queue is
    /// empty.
    pub fn dequeue(&mut self) -> (head: Option<Message>)
        requires
            old(self).wf(),
        ensures
            final(self).wf(),
            final(self).spec_capacity() == old(self).spec_capacity(),
            head is Some <==> old(self).items().len() > 0,
            head matches Some(message) ==> message@ == old(self).items()[0] && final(self).items() == old(self).items().drop_first(),
            head is None ==> final(self).items() == old(self).items(),
    {
        match queue_try_recv(&mut self.rx) {
            Some(message) => {
                self.len = self.len - 1;
                Some(message)
            },
            None => None,
        }
    }

    /// How many messages wait in the queue.
    pub fn len(&self) -> (len: usize)
        requires
            self.wf(),
        ensures
            len == self.items().len(),
    {
        self.len
    }

    /// Whether no message waits in the queue.
    pub fn is_empty(&self) -> (empty: bool)
        requires
            self.wf(),
        ensures
            empty == (self.items().len() == 0),
    {
        self.len == 0
    }

    /// Whether the queue is at its capacity.
    pub fn is_full(&self) -> (full: bool)
        requires
            self.wf(),
        ensures
            full == (self.items().len() == self.spec_capacity()),
    {
        self.len == self.capacity
    }

    /// The most messages that the queue holds at once.
    pub fn capacity(&self) -> (capacity: usize)
        ensures
            capacity == self.spec_capacity(),
    {
        self.capacity
    }
}

/// A queue never holds more messages than its capacity.
pub proof fn lemma_queue_is_bounded(queue: &OutboundQueue)
    requires
        queue.wf(),
    ensures
        queue.items().len() <= queue.spec_capacity(),
{
}

} // verus!
