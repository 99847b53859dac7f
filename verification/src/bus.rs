//! The bus: the one fan-out point that every connection shares.
//!
//! A [`Bus`] keeps a log of what was published. Each [`Subscription`] walks
//! that log with a cursor of its own, so every subscriber sees the same
//! messages in the same order. The bus retains its newest messages, as many
//! as its capacity says; a subscriber that falls further behind is told how
//! many it missed and goes on from the oldest message still kept.
use vstd::prelude::*;
use crate::channel::{
    broadcast_channel,
    broadcast_cursor,
    broadcast_log,
    broadcast_open,
    broadcast_receiver_count,
    broadcast_ring,
    broadcast_send,
    broadcast_source,
    broadcast_subscribe,
    broadcast_try_recv,
    ring_size,
};
use crate::message::{Message, MessageView};

verus! {

/// The number of pending messages that a bus holds unless told otherwise.
pub const DEFAULT_BUS_CAPACITY: usize = 32;

/// The most subscriptions that a bus has at once.
pub const MAX_SUBSCRIBERS: usize = usize::MAX / 4 - 1;

/// The number of subscriptions that is left of `subscribers` when one of
/// them is released.
pub open spec fn after_release(subscribers: nat) -> nat {
    if subscribers > 0 {
        (subscribers - 1) as nat
    } else {
        0
    }
}

/// How many subscriptions there are among `receivers` receivers of the
/// channel, one of which is the bus's own.
pub fn subscribers_among(receivers: usize) -> (n: usize)
    ensures
        n == if receivers == 0 {
            0
        } else {
            (receivers - 1) as usize
        },
{
    if receivers == 0 {
        0
    } else {
        receivers - 1
    }
}

/// What one read of a subscription yields.
#[derive(Clone, Debug, PartialEq, Eq)]
pub enum BusEvent {
    /// The next message, in publish order.
    Message(Message),
    /// The subscriber fell behind and this many messages were skipped.
    Lagged(u64),
    /// Nothing has been published that the subscriber has not seen.
    Idle,
    /// The bus is gone.
    Closed,
}

/// The mathematical value of a [`BusEvent`].
pub enum BusEventView {
    Message(MessageView),
    Lagged(nat),
    Idle,
    Closed,
}

impl View for BusEvent {
    type V = BusEventView;

    open spec fn view(&self) -> BusEventView {
        match self {
            BusEvent::Message(message) => BusEventView::Message(message@),
            BusEvent::Lagged(missed) => BusEventView::Lagged(*missed as nat),
            BusEvent::Idle => BusEventView::Idle,
            BusEvent::Closed => BusEventView::Closed,
        }
    }
}

/// What a subscriber whose cursor is at `cursor` reads next from a bus of
/// this `capacity` with this `log`.
///
/// The backlog of the subscriber is what lies between its cursor and the
/// end of the log. With no backlog there is nothing to read. A backlog
/// above the capacity is a lag by the surplus. Otherwise the message at the
/// cursor is read.
pub open spec fn next_event(log: Seq<MessageView>, capacity: nat, cursor: nat) -> BusEventView {
    if cursor >= log.len() {
        BusEventView::Idle
    } else if log.len() - cursor > capacity {
        BusEventView::Lagged((log.len() - cursor - capacity) as nat)
    } else {
        BusEventView::Message(log[cursor as int])
    }
}

/// Where the cursor of that subscriber stands after the read: after a lag,
/// at the oldest of the newest `capacity` messages.
pub open spec fn next_cursor(log: Seq<MessageView>, capacity: nat, cursor: nat) -> nat {
    if cursor >= log.len() {
        cursor
    } else if log.len() - cursor > capacity {
        (log.len() - capacity) as nat
    } else {
        cursor + 1
    }
}

/// The shared broadcast channel.
///
/// The bus keeps one receiver of its own, which it never reads. While that
/// receiver is alive the channel has a receiver, so it takes every message,
/// whether or not anybody is subscribed.
///
/// The bus counts its subscriptions: one more for each that it issues, one
/// less for each that is handed back to [`Bus::release`]. A subscription
/// that is dropped without being handed back stays counted.
pub struct Bus {
    tx: tokio::sync::broadcast::Sender<Message>,
    anchor: tokio::sync::broadcast::Receiver<Message>,
    capacity: usize,
    published: u64,
    subscribers: usize,
}

/// One subscriber's handle into a [`Bus`].
///
/// The subscription keeps count of its own cursor, so that it can tell its
/// backlog from what the bus has published.
pub struct Subscription {
    rx: tokio::sync::broadcast::Receiver<Message>,
    position: u64,
}

impl Bus {
    /// The invariant of a bus: its counters agree with the channel, and its
    /// own receiver belongs to the channel.
    pub closed spec fn wf(&self) -> bool {
        &&& 0 < self.capacity <= usize::MAX / 2
        &&& broadcast_source(self.anchor) == broadcast_channel(self.tx)
        &&& broadcast_ring(self.tx) == ring_size(self.capacity as nat)
        &&& broadcast_log(self.tx).len() == self.published
        &&& self.subscribers <= MAX_SUBSCRIBERS
    }

    /// Everything published so far, oldest first.
    pub closed spec fn log(&self) -> Seq<MessageView> {
        broadcast_log(self.tx)
    }

    /// The capacity that the bus was made with.
    pub closed spec fn spec_capacity(&self) -> nat {
        self.capacity as nat
    }

    /// How many subscriptions the bus has issued and not got back.
    pub closed spec fn spec_subscribers(&self) -> nat {
        self.subscribers as nat
    }

    /// Whether `next` is this bus at a later time: the same channel, with a
    /// log that only grew.
    pub closed spec fn grows_into(&self, next: &Bus) -> bool {
        &&& broadcast_channel(next.tx) == broadcast_channel(self.tx)
        &&& next.capacity == self.capacity
        &&& self.log().is_prefix_of(next.log())
    }

    /// A bus that holds `capacity` pending messages, or `None` where
    /// `capacity` is zero or above `usize::MAX / 2`.
    pub fn new(capacity: usize) -> (bus: Option<Bus>)
        ensures
            bus is Some <==> 0 < capacity <= usize::MAX / 2,
            bus matches Some(b) ==> {
                &&& b.wf()
                &&& b.log() == Seq::<MessageView>::empty()
                &&& b.spec_capacity() == capacity
                &&& b.spec_subscribers() == 0
            },
    {
        if capacity == 0 || capacity > usize::MAX / 2 {
            return None;
        }
        let tx = broadcast_open(capacity);
        let anchor = broadcast_subscribe(&tx);
        Some(Bus { tx, anchor, capacity, published: 0, subscribers: 0 })
    }

    /// A bus of the default capacity, [`DEFAULT_BUS_CAPACITY`].
    pub fn with_default_capacity() -> (bus: Bus)
        ensures
            bus.wf(),
            bus.log() == Seq::<MessageView>::empty(),
            bus.spec_capacity() == DEFAULT_BUS_CAPACITY,
            bus.spec_subscribers() == 0,
    {
        let tx = broadcast_open(DEFAULT_BUS_CAPACITY);
        let anchor = broadcast_subscribe(&tx);
        Bus { tx, anchor, capacity: DEFAULT_BUS_CAPACITY, published: 0, subscribers: 0 }
    }

    /// Publishes `message` to every current subscriber and returns how many
    /// subscriptions the bus counts.
    ///
    /// Publishing never blocks and never fails. The message goes to the
    /// tail of the log, ahead of the cursor of every subscription that
    /// exists: each of them will read it, or be told of a lag that covers
    /// it. With no subscriber at all the message reaches nobody, for a
    /// later subscription starts behind it. Only a log that holds
    /// `u64::MAX` messages takes no more; the result is then 0.
    pub fn publish(&mut self, message: Message) -> (reached: usize)
        requires
            old(self).wf(),
        ensures
            final(self).wf(),
            old(self).grows_into(final(self)),
            final(self).spec_capacity() == old(self).spec_capacity(),
            final(self).spec_subscribers() == old(self).spec_subscribers(),
            forall|other: Subscription| #[trigger]
                other.listens_to(final(self)) <== other.listens_to(old(self)),
            old(self).log().len() < u64::MAX ==> reached == old(self).spec_subscribers()
                && final(self).log() == old(self).log().push(message@),
            old(self).log().len() >= u64::MAX ==> reached == 0 && final(self).log() == old(self).log(),
    {
        if self.published == u64::MAX {
            return 0;
        }
        broadcast_send(&mut self.tx, &self.anchor, message);
        self.published = self.published + 1;
        self.subscribers
    }

    /// A new subscription, which sees what is published from now on and
    /// nothing from before. The bus counts one subscription more.
    ///
    /// A bus has at most [`MAX_SUBSCRIBERS`] subscriptions.
    pub fn subscribe(&mut self) -> (subscription: Subscription)
        requires
            old(self).wf(),
            old(self).spec_subscribers() < MAX_SUBSCRIBERS,
        ensures
            final(self).wf(),
            old(self).grows_into(final(self)),
            final(self).log() == old(self).log(),
            final(self).spec_capacity() == old(self).spec_capacity(),
            final(self).spec_subscribers() == old(self).spec_subscribers() + 1,
            forall|other: Subscription| #[trigger]
                other.listens_to(final(self)) <== other.listens_to(old(self)),
            subscription.listens_to(final(self)),
            subscription.cursor() == old(self).log().len(),
    {
        proof {
            lemma_grows_into_itself(self);
        }
        let subscription = Subscription {
            rx: broadcast_subscribe(&self.tx),
            position: self.published,
        };
        self.subscribers = self.subscribers + 1;
        subscription
    }

    /// Takes a subscription back and ends it. The bus counts one
    /// subscription less.
    pub fn release(&mut self, subscription: Subscription)
        requires
            old(self).wf(),
            subscription.listens_to(old(self)),
        ensures
            final(self).wf(),
            old(self).grows_into(final(self)),
            final(self).log() == old(self).log(),
            final(self).spec_capacity() == old(self).spec_capacity(),
            final(self).spec_subscribers() == after_release(old(self).spec_subscribers()),
            forall|other: Subscription| #[trigger]
                other.listens_to(final(self)) <== other.listens_to(old(self)),
    {
        proof {
            lemma_grows_into_itself(self);
        }
        if self.subscribers > 0 {
            self.subscribers = self.subscribers - 1;
        }
    }

    /// The capacity that the bus was made with.
    pub fn capacity(&self) -> (capacity: usize)
        ensures
            capacity == self.spec_capacity(),
    {
        self.capacity
    }

    /// How many messages were published so far.
    pub fn published(&self) -> (published: u64)
        requires
            self.wf(),
        ensures
            published == self.log().len(),
    {
        self.published
    }

    /// How many subscriptions the bus has issued and not got back.
    pub fn subscriber_count(&self) -> (subscribers: usize)
        ensures
            subscribers == self.spec_subscribers(),
    {
        self.subscribers
    }

    /// How many subscriptions the channel itself holds alive at this
    /// moment: its receivers, the bus's own not counted. It is the count of
    /// the bus less the subscriptions that were dropped without being
    /// handed back.
    pub fn live_receivers(&self) -> usize
        requires
            self.wf(),
    {
        subscribers_among(broadcast_receiver_count(&self.tx, &self.anchor))
    }
}

impl Subscription {
    /// The index in the bus's log of the message that this subscription
    /// reads next.
    pub closed spec fn cursor(&self) -> nat {
        broadcast_cursor(self.rx)
    }

    /// Whether this subscription was issued by `bus` and has not run past
    /// its log.
    pub closed spec fn listens_to(&self, bus: &Bus) -> bool {
        &&& broadcast_source(self.rx) == broadcast_channel(bus.tx)
        &&& broadcast_cursor(self.rx) <= broadcast_log(bus.tx).len()
        &&& broadcast_cursor(self.rx) == self.position
    }

    /// Reads the next event without waiting.
    ///
    /// A subscription whose backlog is above the capacity of the bus is
    /// told of a lag by the surplus, and goes on from the oldest of the
    /// newest `capacity` messages: the surplus is read from the channel and
    /// thrown away here, whatever the channel still held of it.
    pub fn poll(&mut self, bus: &Bus) -> (event: BusEvent)
        requires
            bus.wf(),
            old(self).listens_to(bus),
        ensures
            final(self).listens_to(bus),
            event@ == next_event(bus.log(), bus.spec_capacity(), old(self).cursor()),
            final(self).cursor() == next_cursor(
                bus.log(),
                bus.spec_capacity(),
                old(self).cursor(),
            ),
    {
        let backlog: u64 = bus.published - self.position;
        let capacity: u64 = bus.capacity as u64;
        if backlog <= capacity {
            let event = broadcast_try_recv(&mut self.rx, &bus.tx);
            proof {
                lemma_ring_size_bounds(bus.capacity as nat);
            }
            if backlog > 0 {
                self.position = self.position + 1;
            }
            return event;
        }
        let oldest: u64 = bus.published - capacity;
        while self.position < oldest
            invariant
                bus.wf(),
                self.listens_to(bus),
                self.position <= oldest,
                oldest == bus.published - bus.capacity,
            decreases oldest - self.position,
        {
            proof {
                lemma_ring_size_bounds(bus.capacity as nat);
            }
            match broadcast_try_recv(&mut self.rx, &bus.tx) {
                BusEvent::Message(_) => {
                    self.position = self.position + 1;
                },
                BusEvent::Lagged(missed) => {
                    self.position = self.position + missed;
                },
                // A channel with a backlog is neither idle nor closed.
                BusEvent::Idle | BusEvent::Closed => {},
            }
        }
        BusEvent::Lagged(backlog - capacity)
    }

    /// Publishes `message` on the bus that this subscription listens to.
    ///
    /// The publisher is a subscriber like any other: the message lies ahead
    /// of its own cursor, and it will read the message back like everyone
    /// else. Only a log that holds `u64::MAX` messages takes no more.
    pub fn publish(&self, bus: &mut Bus, message: Message) -> (reached: usize)
        requires
            old(bus).wf(),
            self.listens_to(old(bus)),
        ensures
            final(bus).wf(),
            old(bus).grows_into(final(bus)),
            self.listens_to(final(bus)),
            final(bus).spec_capacity() == old(bus).spec_capacity(),
            forall|other: Subscription| #[trigger]
                other.listens_to(final(bus)) <== other.listens_to(old(bus)),
            final(bus).spec_subscribers() == old(bus).spec_subscribers(),
            old(bus).log().len() < u64::MAX ==> reached == old(bus).spec_subscribers()
                && final(bus).log() == old(bus).log().push(message@) && self.cursor() <= old(bus).log().len(),
            old(bus).log().len() >= u64::MAX ==> reached == 0 && final(bus).log() == old(bus).log(),
    {
        bus.publish(message)
    }
}

/// The channel under a bus keeps at least as many messages as the capacity
/// of the bus, and fewer than twice as many: a subscription whose backlog is
/// within the capacity finds its next message still there.
pub proof fn lemma_ring_size_bounds(capacity: nat)
    requires
        capacity > 0,
    ensures
        capacity <= ring_size(capacity) < 2 * capacity,
    decreases capacity,
{
    if capacity > 1 {
        lemma_ring_size_bounds((capacity + 1) / 2);
    }
}

/// What a subscriber with a backlog above the capacity reads: a lag by the
/// backlog less the capacity, and after it the oldest of the newest
/// `capacity` messages. Nobody with a smaller backlog is told of a lag.
pub proof fn lemma_lag_is_backlog_less_capacity(log: Seq<MessageView>, capacity: nat, cursor: nat)
    requires
        capacity > 0,
        cursor <= log.len(),
    ensures
        next_event(log, capacity, cursor) is Lagged <==> log.len() - cursor > capacity,
        log.len() - cursor > capacity ==> {
            &&& next_event(log, capacity, cursor) == BusEventView::Lagged(
                (log.len() - cursor - capacity) as nat,
            )
            &&& next_cursor(log, capacity, cursor) == log.len() - capacity
            &&& next_event(log, capacity, next_cursor(log, capacity, cursor))
                == BusEventView::Message(log[log.len() - capacity])
        },
{
}

/// Releasing a subscription undoes subscribing: the count of the bus is
/// back where it was before the subscription was issued.
pub proof fn lemma_count_returns_to_baseline(baseline: nat)
    ensures
        after_release(baseline + 1) == baseline,
{
}

/// Growth goes on: what a bus grew into has grown from it.
pub proof fn lemma_growth_goes_on(first: &Bus, second: &Bus, third: &Bus)
    requires
        first.grows_into(second),
        second.grows_into(third),
    ensures
        first.grows_into(third),
{
}

/// A bus that stays as it is has grown into itself.
pub proof fn lemma_grows_into_itself(bus: &Bus)
    ensures
        bus.grows_into(bus),
{
    assert(bus.log().is_prefix_of(bus.log()));
}

/// A subscription never runs past the log of the bus that it listens to.
pub proof fn lemma_cursor_within_log(subscription: &Subscription, bus: &Bus)
    requires
        subscription.listens_to(bus),
    ensures
        subscription.cursor() <= bus.log().len(),
{
}

/// A subscription keeps listening while its bus grows.
pub proof fn lemma_listening_persists(subscription: &Subscription, before: &Bus, after: &Bus)
    requires
        subscription.listens_to(before),
        before.grows_into(after),
    ensures
        subscription.listens_to(after),
{
}

} // verus!
