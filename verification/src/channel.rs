//! tokio's two channels, as far as the relay leans on them.
//!
//! Nothing in this file is proved. Each item states what tokio's
//! documentation and source say of one type or one call, and the rest of the
//! crate is verified against these statements.
//!
//! The statements describe a channel that one owner drives: the handles stay
//! inside [`Bus`](crate::bus::Bus),
//! [`Subscription`](crate::bus::Subscription) and
//! [`OutboundQueue`](crate::queue::OutboundQueue), are never cloned, and every
//! call that changes what a channel holds takes the handle concerned by
//! `&mut`.
use vstd::prelude::*;
use crate::bus::BusEvent;
use crate::message::{Message, MessageView};

verus! {

/// `tokio::sync::broadcast::Sender`, the sending half of the broadcast
/// channel. Opaque.
#[verifier::external_type_specification]
#[verifier::external_body]
#[verifier::reject_recursive_types(T)]
pub struct ExBroadcastSender<T>(tokio::sync::broadcast::Sender<T>);

/// `tokio::sync::broadcast::Receiver`, one receiving handle of the broadcast
/// channel. Opaque.
#[verifier::external_type_specification]
#[verifier::external_body]
#[verifier::reject_recursive_types(T)]
pub struct ExBroadcastReceiver<T>(tokio::sync::broadcast::Receiver<T>);

/// `tokio::sync::mpsc::Sender`, the sending half of the bounded queue.
/// Opaque.
#[verifier::external_type_specification]
#[verifier::external_body]
#[verifier::reject_recursive_types(T)]
pub struct ExQueueSender<T>(tokio::sync::mpsc::Sender<T>);

/// `tokio::sync::mpsc::Receiver`, the receiving half of the bounded queue.
/// Opaque.
#[verifier::external_type_specification]
#[verifier::external_body]
#[verifier::reject_recursive_types(T)]
pub struct ExQueueReceiver<T>(tokio::sync::mpsc::Receiver<T>);

/// Every value that the broadcast channel behind `tx` has accepted since it
/// was made, oldest first. Values that the ring has since overwritten stay in
/// this log; the channel's tail position is the log's length.
pub uninterp spec fn broadcast_log(tx: tokio::sync::broadcast::Sender<Message>) -> Seq<MessageView>;

/// How many of its newest values the broadcast channel behind `tx` keeps: the
/// length of its ring buffer.
pub uninterp spec fn broadcast_ring(tx: tokio::sync::broadcast::Sender<Message>) -> nat;

/// Which broadcast channel `tx` sends into. Two handles name the same number
/// exactly when they share a channel.
pub uninterp spec fn broadcast_channel(tx: tokio::sync::broadcast::Sender<Message>) -> int;

/// Which broadcast channel `rx` receives from, in the numbering of
/// [`broadcast_channel`].
pub uninterp spec fn broadcast_source(rx: tokio::sync::broadcast::Receiver<Message>) -> int;

/// The index in the channel's log of the value that `rx` reads next: the
/// receiver's `next` position.
pub uninterp spec fn broadcast_cursor(rx: tokio::sync::broadcast::Receiver<Message>) -> nat;

/// The values that wait in the bounded queue that `rx` reads, oldest first.
pub uninterp spec fn queue_items(rx: tokio::sync::mpsc::Receiver<Message>) -> Seq<MessageView>;

/// The bound that the queue read by `rx` was made with.
pub uninterp spec fn queue_bound(rx: tokio::sync::mpsc::Receiver<Message>) -> nat;

/// Which bounded queue `rx` reads. Two handles name the same number exactly
/// when they are the two ends of one queue.
pub uninterp spec fn queue_outlet(rx: tokio::sync::mpsc::Receiver<Message>) -> int;

/// Which bounded queue `tx` fills, in the numbering of [`queue_outlet`].
pub uninterp spec fn queue_inlet(tx: tokio::sync::mpsc::Sender<Message>) -> int;

/// The smallest power of two that is at least `capacity`.
pub open spec fn ring_size(capacity: nat) -> nat
    decreases capacity,
{
    if capacity <= 1 {
        1
    } else {
        2 * ring_size((capacity + 1) / 2)
    }
}

/// What [`queue_try_send`] reports.
pub(crate) enum TrySend {
    /// The value is in the queue.
    Sent,
    /// The queue was full; the value comes back.
    Full(Message),
    /// The receiving half was closed; the value comes back.
    Closed(Message),
}

/// Calls `tokio::sync::broadcast::Sender::new`, which makes a channel with no
/// receiver yet.
///
/// tokio panics on a capacity of zero or above `usize::MAX / 2`. It rounds
/// the capacity up to the next power of two and keeps that many values. The
/// new channel has accepted nothing.
#[verifier::external_body]
pub(crate) fn broadcast_open(capacity: usize) -> (tx: tokio::sync::broadcast::Sender<Message>)
    requires
        0 < capacity <= usize::MAX / 2,
    ensures
        broadcast_log(tx) == Seq::<MessageView>::empty(),
        broadcast_ring(tx) == ring_size(capacity as nat),
{
    tokio::sync::broadcast::Sender::new(capacity)
}

/// Calls `tokio::sync::broadcast::Sender::send`.
///
/// tokio refuses a value only when the channel has no receiver. `listener`
/// is a receiver of the same channel: the call does not touch it, but while
/// it is alive the channel has a receiver, so the value is accepted and
/// goes to the tail of the log. tokio counts positions in 64 bits; the
/// `requires` keeps the log below that limit.
#[verifier::external_body]
pub(crate) fn broadcast_send(
    tx: &mut tokio::sync::broadcast::Sender<Message>,
    listener: &tokio::sync::broadcast::Receiver<Message>,
    message: Message,
)
    requires
        broadcast_log(*old(tx)).len() < u64::MAX,
        broadcast_source(*listener) == broadcast_channel(*old(tx)),
    ensures
        broadcast_channel(*final(tx)) == broadcast_channel(*old(tx)),
        broadcast_ring(*final(tx)) == broadcast_ring(*old(tx)),
        broadcast_log(*final(tx)) == broadcast_log(*old(tx)).push(message@),
{
    let _ = listener;
    let _ = tx.send(message);
}

/// Calls `tokio::sync::broadcast::Sender::subscribe`.
///
/// The new receiver belongs to the sender's channel and starts at the tail:
/// it sees only what is sent after this call. tokio panics at `usize::MAX /
/// 4` live receivers of one channel; no contract here observes how many
/// are alive, so the caller keeps count and stays below.
#[verifier::external_body]
pub(crate) fn broadcast_subscribe(tx: &tokio::sync::broadcast::Sender<Message>) -> (rx:
    tokio::sync::broadcast::Receiver<Message>)
    ensures
        broadcast_source(rx) == broadcast_channel(*tx),
        broadcast_cursor(rx) == broadcast_log(*tx).len(),
{
    tx.subscribe()
}

/// Calls `tokio::sync::broadcast::Receiver::try_recv`.
///
/// With `n` the log's length, `p` the receiver's cursor and `r` the ring's
/// length, tokio answers:
/// - nothing to read (`p == n`): `Empty`, here `Idle`; the cursor stays;
/// - the value at `p` was overwritten (`n - p > r`): `Lagged(n - r - p)`, the
///   number of values skipped; the cursor moves to `n - r`, the oldest value
///   still kept;
/// - otherwise a clone of the value at `p`; the cursor moves on by one.
///
/// It answers `Closed` only once every sender is gone. `tx` is a sender of
/// the receiver's channel: the call does not touch it, but it is alive, and
/// the contract speaks of its log.
#[verifier::external_body]
pub(crate) fn broadcast_try_recv(
    rx: &mut tokio::sync::broadcast::Receiver<Message>,
    tx: &tokio::sync::broadcast::Sender<Message>,
) -> (event: BusEvent)
    requires
        broadcast_source(*old(rx)) == broadcast_channel(*tx),
        broadcast_cursor(*old(rx)) <= broadcast_log(*tx).len(),
    ensures
        broadcast_source(*final(rx)) == broadcast_source(*old(rx)),
        match event {
            BusEvent::Idle => {
                &&& broadcast_cursor(*old(rx)) == broadcast_log(*tx).len()
                &&& broadcast_cursor(*final(rx)) == broadcast_cursor(*old(rx))
            },
            BusEvent::Lagged(missed) => {
                &&& broadcast_log(*tx).len() - broadcast_cursor(*old(rx)) > broadcast_ring(*tx)
                &&& missed == broadcast_log(*tx).len() - broadcast_ring(*tx) - broadcast_cursor(
                    *old(rx),
                )
                &&& broadcast_cursor(*final(rx)) == broadcast_log(*tx).len() - broadcast_ring(*tx)
            },
            BusEvent::Message(message) => {
                &&& broadcast_cursor(*old(rx)) < broadcast_log(*tx).len()
                &&& broadcast_log(*tx).len() - broadcast_cursor(*old(rx)) <= broadcast_ring(*tx)
                &&& message@ == broadcast_log(*tx)[broadcast_cursor(*old(rx)) as int]
                &&& broadcast_cursor(*final(rx)) == broadcast_cursor(*old(rx)) + 1
            },
            BusEvent::Closed => false,
        },
{
    let _ = tx;
    match rx.try_recv() {
        Ok(message) => BusEvent::Message(message),
        Err(tokio::sync::broadcast::error::TryRecvError::Lagged(missed)) => BusEvent::Lagged(missed),
        Err(tokio::sync::broadcast::error::TryRecvError::Empty) => BusEvent::Idle,
        Err(tokio::sync::broadcast::error::TryRecvError::Closed) => BusEvent::Closed,
    }
}

/// Calls `tokio::sync::broadcast::Sender::receiver_count`, the number of
/// receivers that are alive. `listener` is a receiver of the same channel:
/// the call does not touch it, but it is alive, so the number is at least
/// one. Receivers leave by being dropped, which no contract here observes,
/// so no more is stated of the number.
#[verifier::external_body]
pub(crate) fn broadcast_receiver_count(
    tx: &tokio::sync::broadcast::Sender<Message>,
    listener: &tokio::sync::broadcast::Receiver<Message>,
) -> (receivers: usize)
    requires
        broadcast_source(*listener) == broadcast_channel(*tx),
    ensures
        receivers >= 1,
{
    let _ = listener;
    tx.receiver_count()
}

/// Calls `tokio::sync::mpsc::channel`, which makes a bounded queue and hands
/// out its two ends.
///
/// tokio panics on a bound of zero or above `usize::MAX / 8`, the most
/// permits its semaphore holds. The new queue is empty.
#[verifier::external_body]
pub(crate) fn queue_open(bound: usize) -> (ends: (
    tokio::sync::mpsc::Sender<Message>,
    tokio::sync::mpsc::Receiver<Message>,
))
    requires
        0 < bound <= usize::MAX / 8,
    ensures
        queue_inlet(ends.0) == queue_outlet(ends.1),
        queue_items(ends.1) == Seq::<MessageView>::empty(),
        queue_bound(ends.1) == bound,
{
    tokio::sync::mpsc::channel(bound)
}

/// Calls `tokio::sync::mpsc::Sender::try_send`.
///
/// tokio appends the value when the queue holds fewer values than its bound,
/// and hands it back as `Full` when the bound is reached. It answers `Closed`
/// only after the receiving half was closed or dropped. `rx` is the
/// receiving half of the same queue: the call does not touch it, but it is
/// alive and open, and the contract speaks of what it will read.
#[verifier::external_body]
pub(crate) fn queue_try_send(
    tx: &tokio::sync::mpsc::Sender<Message>,
    rx: &mut tokio::sync::mpsc::Receiver<Message>,
    message: Message,
) -> (outcome: TrySend)
    requires
        queue_inlet(*tx) == queue_outlet(*old(rx)),
    ensures
        queue_outlet(*final(rx)) == queue_outlet(*old(rx)),
        queue_bound(*final(rx)) == queue_bound(*old(rx)),
        match outcome {
            TrySend::Sent => {
                &&& queue_items(*old(rx)).len() < queue_bound(*old(rx))
                &&& queue_items(*final(rx)) == queue_items(*old(rx)).push(message@)
            },
            TrySend::Full(back) => {
                &&& queue_items(*old(rx)).len() >= queue_bound(*old(rx))
                &&& back@ == message@
                &&& queue_items(*final(rx)) == queue_items(*old(rx))
            },
            TrySend::Closed(_) => false,
        },
{
    let _ = rx;
    match tx.try_send(message) {
        Ok(()) => TrySend::Sent,
        Err(tokio::sync::mpsc::error::TrySendError::Full(back)) => TrySend::Full(back),
        Err(tokio::sync::mpsc::error::TrySendError::Closed(back)) => TrySend::Closed(back),
    }
}

/// Calls `tokio::sync::mpsc::Receiver::try_recv`.
///
/// tokio hands out the oldest waiting value and removes it. It reports an
/// error, here `None`, only when no value waits, and never without cause.
#[verifier::external_body]
pub(crate) fn queue_try_recv(rx: &mut tokio::sync::mpsc::Receiver<Message>) -> (head: Option<
    Message,
>)
    ensures
        queue_outlet(*final(rx)) == queue_outlet(*old(rx)),
        queue_bound(*final(rx)) == queue_bound(*old(rx)),
        match head {
            Some(message) => {
                &&& queue_items(*old(rx)).len() > 0
                &&& message@ == queue_items(*old(rx))[0]
                &&& queue_items(*final(rx)) == queue_items(*old(rx)).drop_first()
            },
            None => {
                &&& queue_items(*old(rx)).len() == 0
                &&& queue_items(*final(rx)) == queue_items(*old(rx))
            },
        },
{
    rx.try_recv().ok()
}

} // verus!
