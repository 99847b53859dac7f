//! What holds of the relay whatever its clients and the application do.
//!
//! The laws speak of the same mathematical functions as the contracts of
//! [`Bus`](crate::bus::Bus), [`Subscription`](crate::bus::Subscription) and
//! [`Connection`](crate::connection::Connection), so each holds of the
//! executable relay as well.
use vstd::prelude::*;
use crate::bus::{next_cursor, next_event, BusEventView};
use crate::message::MessageView;
use crate::pipeline::{
    ack_view,
    welcome_text,
    ConnectionView,
    ListenerStepView,
    LoopKind,
    ReaderStep,
    SocketEventView,
    WriterStepView,
};

verus! {

/// Whether `logs` can be the bus's log at a run of successive moments: each
/// log continues the one before.
pub open spec fn grows(logs: Seq<Seq<MessageView>>) -> bool {
    forall|i: int, j: int|
        0 <= i <= j < logs.len() ==> (#[trigger] logs[i]).is_prefix_of(#[trigger] logs[j])
}

/// Where a subscription that starts at `start` stands after `polls` reads,
/// the `i`-th of them made when the bus's log was `logs[i]`.
pub open spec fn cursor_after(
    logs: Seq<Seq<MessageView>>,
    capacity: nat,
    start: nat,
    polls: nat,
) -> nat
    decreases polls,
{
    if polls == 0 || polls > logs.len() {
        start
    } else {
        next_cursor(
            logs[polls - 1],
            capacity,
            cursor_after(logs, capacity, start, (polls - 1) as nat),
        )
    }
}

/// What the `i`-th of those reads yields.
pub open spec fn event_at(
    logs: Seq<Seq<MessageView>>,
    capacity: nat,
    start: nat,
    i: nat,
) -> BusEventView {
    next_event(logs[i as int], capacity, cursor_after(logs, capacity, start, i))
}

/// One read never moves a cursor back, and never past the end of the log.
pub proof fn lemma_cursor_advances(log: Seq<MessageView>, capacity: nat, cursor: nat)
    requires
        cursor <= log.len(),
    ensures
        cursor <= next_cursor(log, capacity, cursor) <= log.len(),
        next_event(log, capacity, cursor) is Idle <==> cursor == log.len(),
        !(next_event(log, capacity, cursor) is Idle) ==> cursor < next_cursor(
            log,
            capacity,
            cursor,
        ),
        !(next_event(log, capacity, cursor) is Closed),
{
}

/// No message is lost in silence: whatever one read moves the cursor over
/// is either the one message that the read delivers, or is counted in the
/// lag that the read reports, and a lag is reported only when the backlog
/// is larger than the capacity of the bus.
pub proof fn lemma_no_silent_loss(log: Seq<MessageView>, capacity: nat, cursor: nat)
    requires
        cursor <= log.len(),
    ensures
        match next_event(log, capacity, cursor) {
            BusEventView::Message(message) => {
                &&& message == log[cursor as int]
                &&& next_cursor(log, capacity, cursor) == cursor + 1
            },
            BusEventView::Lagged(missed) => {
                &&& missed == next_cursor(log, capacity, cursor) - cursor
                &&& missed > 0
                &&& log.len() - cursor > capacity
            },
            BusEventView::Idle => next_cursor(log, capacity, cursor) == cursor,
            BusEventView::Closed => false,
        },
{
}

/// Through any run of reads the cursor only moves forward and stays within
/// the log of the moment.
pub proof fn lemma_cursor_is_monotonic(
    logs: Seq<Seq<MessageView>>,
    capacity: nat,
    start: nat,
    i: nat,
    j: nat,
)
    requires
        grows(logs),
        logs.len() > 0,
        start <= logs[0].len(),
        i <= j <= logs.len(),
    ensures
        start <= cursor_after(logs, capacity, start, i) <= cursor_after(logs, capacity, start, j),
        j < logs.len() ==> cursor_after(logs, capacity, start, j) <= logs[j as int].len(),
        j > 0 ==> cursor_after(logs, capacity, start, j) <= logs[j - 1].len(),
    decreases j,
{
    if j == 0 {
    } else {
        let before = cursor_after(logs, capacity, start, (j - 1) as nat);
        if i < j {
            lemma_cursor_is_monotonic(logs, capacity, start, i, (j - 1) as nat);
        } else {
            lemma_cursor_is_monotonic(logs, capacity, start, (j - 1) as nat, (j - 1) as nat);
        }
        assert(before <= logs[j - 1].len());
        lemma_cursor_advances(logs[j - 1], capacity, before);
        if j < logs.len() {
            assert(logs[j - 1].is_prefix_of(logs[j as int]));
        }
    }
}

/// Fan-out is complete. Take a message at `index` of the log and any
/// subscription that has not passed it, and let the subscription be read
/// again and again while the bus may go on growing. Then within `index -
/// start + 1` reads there is one that moves the cursor past `index`, and
/// that read either delivers the very message that was published or
/// reports a lag: the message is seen or its loss is announced.
pub proof fn lemma_fan_out_is_complete(
    logs: Seq<Seq<MessageView>>,
    capacity: nat,
    start: nat,
    index: nat,
) -> (poll: nat)
    requires
        grows(logs),
        logs.len() > 0,
        start <= index < logs[0].len(),
        logs.len() >= index - start + 1,
    ensures
        poll <= index - start,
        cursor_after(logs, capacity, start, poll) <= index < cursor_after(
            logs,
            capacity,
            start,
            poll + 1,
        ),
        event_at(logs, capacity, start, poll) == BusEventView::Message(logs[0][index as int])
            || event_at(logs, capacity, start, poll) is Lagged,
{
    lemma_covering_poll(logs, capacity, start, index, 0)
}

/// The induction behind [`lemma_fan_out_is_complete`]: the search for the
/// covering read, resumed at read number `from`.
proof fn lemma_covering_poll(
    logs: Seq<Seq<MessageView>>,
    capacity: nat,
    start: nat,
    index: nat,
    from: nat,
) -> (poll: nat)
    requires
        grows(logs),
        logs.len() > 0,
        start <= index < logs[0].len(),
        logs.len() >= index - start + 1,
        from <= index - start,
        start + from <= cursor_after(logs, capacity, start, from) <= index,
    ensures
        from <= poll <= index - start,
        cursor_after(logs, capacity, start, poll) <= index < cursor_after(
            logs,
            capacity,
            start,
            poll + 1,
        ),
        event_at(logs, capacity, start, poll) == BusEventView::Message(logs[0][index as int])
            || event_at(logs, capacity, start, poll) is Lagged,
    decreases index - start - from,
{
    let cursor = cursor_after(logs, capacity, start, from);
    let log = logs[from as int];
    assert(logs[0].is_prefix_of(log));
    assert(log[index as int] == logs[0][index as int]);
    lemma_no_silent_loss(log, capacity, cursor);
    lemma_cursor_advances(log, capacity, cursor);
    let moved = next_cursor(log, capacity, cursor);
    assert(cursor_after(logs, capacity, start, from + 1) == moved);
    if moved > index {
        from
    } else {
        lemma_covering_poll(logs, capacity, start, index, from + 1)
    }
}

/// Delivery preserves publish order. Of two reads of one subscription that
/// each deliver a message, the later one delivers a message that was
/// published later, and each delivers what stands at its place in the log.
pub proof fn lemma_delivery_keeps_publish_order(
    logs: Seq<Seq<MessageView>>,
    capacity: nat,
    start: nat,
    i: nat,
    j: nat,
)
    requires
        grows(logs),
        logs.len() > 0,
        start <= logs[0].len(),
        i < j < logs.len(),
        event_at(logs, capacity, start, i) is Message,
        event_at(logs, capacity, start, j) is Message,
    ensures
        cursor_after(logs, capacity, start, i) < cursor_after(logs, capacity, start, j),
        cursor_after(logs, capacity, start, j) < logs.last().len(),
        event_at(logs, capacity, start, i) == BusEventView::Message(
            logs.last()[cursor_after(logs, capacity, start, i) as int],
        ),
        event_at(logs, capacity, start, j) == BusEventView::Message(
            logs.last()[cursor_after(logs, capacity, start, j) as int],
        ),
{
    let last = logs.last();
    let at_i = cursor_after(logs, capacity, start, i);
    let at_j = cursor_after(logs, capacity, start, j);
    lemma_cursor_is_monotonic(logs, capacity, start, i, i);
    lemma_cursor_is_monotonic(logs, capacity, start, i + 1, j);
    lemma_no_silent_loss(logs[i as int], capacity, at_i);
    lemma_no_silent_loss(logs[j as int], capacity, at_j);
    assert(cursor_after(logs, capacity, start, i + 1) == at_i + 1);
    assert(logs[i as int].is_prefix_of(last));
    assert(logs[j as int].is_prefix_of(last));
}

/// The log, read after read, of a bus on which nothing is published through
/// `reads` reads.
pub open spec fn standing(log: Seq<MessageView>, reads: nat) -> Seq<Seq<MessageView>> {
    Seq::new(reads, |i: int| log)
}

/// A subscriber whose backlog is above the capacity is told of a lag by the
/// backlog less the capacity. While nothing more is published, it then
/// reads the newest `capacity` messages, oldest first, and after them finds
/// the bus idle: the read number `i` after the lag delivers the message
/// that stands `capacity - i + 1` from the end of the log.
pub proof fn lemma_lagging_reader_gets_the_newest(
    log: Seq<MessageView>,
    capacity: nat,
    start: nat,
    i: nat,
)
    requires
        capacity > 0,
        log.len() - start > capacity,
        1 <= i <= capacity + 1,
    ensures
        event_at(standing(log, capacity + 2), capacity, start, 0) == BusEventView::Lagged(
            (log.len() - start - capacity) as nat,
        ),
        cursor_after(standing(log, capacity + 2), capacity, start, i) == log.len() - capacity + i
            - 1,
        i <= capacity ==> event_at(standing(log, capacity + 2), capacity, start, i)
            == BusEventView::Message(log[log.len() - capacity + i - 1]),
        i == capacity + 1 ==> event_at(standing(log, capacity + 2), capacity, start, i) is Idle,
    decreases i,
{
    let logs = standing(log, capacity + 2);
    if i > 1 {
        lemma_lagging_reader_gets_the_newest(log, capacity, start, (i - 1) as nat);
    }
    assert(logs[0] == log);
    assert(logs[i - 1] == log);
    assert(logs[i as int] == log);
}

/// One thing that can happen to a connection.
pub enum Step {
    /// The greeting went out, or could not.
    GreetingSent { delivered: bool },
    /// The authentication hook answered, on a bus that had published this
    /// many messages.
    HandshakeCompleted { authenticated: bool, published: nat },
    /// The stream reader got this from the socket.
    Read { event: SocketEventView },
    /// The stream reader tried again to enqueue an acknowledgment.
    Settle,
    /// The bus listener took a step, on a bus with this log.
    Pump { log: Seq<MessageView>, bus_capacity: nat },
    /// The sink writer asked for the next message.
    NextOutbound,
    /// The sink writer wrote, or could not.
    Written { delivered: bool },
    /// Another producer offered a message.
    Offer { message: MessageView },
    /// A loop ended for a reason of its own.
    LoopExited { kind: LoopKind },
    /// Every loop was cancelled.
    ShutDown,
}

/// The state of a connection after `step`.
pub open spec fn apply(v: ConnectionView, step: Step) -> ConnectionView {
    match step {
        Step::GreetingSent { delivered } => v.greeting_sent(delivered).0,
        Step::HandshakeCompleted { authenticated, published } => v.handshake_completed(
            authenticated,
            published,
        ).0,
        Step::Read { event } => v.read(event).0,
        Step::Settle => v.settle().0,
        Step::Pump { log, bus_capacity } => v.pump(log, bus_capacity).0,
        Step::NextOutbound => v.next_outbound().0,
        Step::Written { delivered } => v.written(delivered).0,
        Step::Offer { message } => v.offer(message).0,
        Step::LoopExited { kind } => v.stop_loop(kind),
        Step::ShutDown => v.shut_down(),
    }
}

/// The state of a connection after `steps`, taken in order.
pub open spec fn run(v: ConnectionView, steps: Seq<Step>) -> ConnectionView
    decreases steps.len(),
{
    if steps.len() == 0 {
        v
    } else {
        run(apply(v, steps[0]), steps.drop_first())
    }
}

/// What `step` puts on the outbound queue: nothing, or one message.
pub open spec fn appended(v: ConnectionView, step: Step) -> Seq<MessageView> {
    match step {
        Step::HandshakeCompleted { .. } => if v.phase is Handshaking {
            seq![MessageView::Text(welcome_text(v.peer, v.server_name))]
        } else {
            seq![]
        },
        Step::Read { event } => if v.reads(event) && v.has_room() {
            seq![ack_view()]
        } else {
            seq![]
        },
        Step::Settle => if v.active(LoopKind::StreamReader) && v.acks_owed > 0 && v.has_room() {
            seq![ack_view()]
        } else {
            seq![]
        },
        Step::Pump { log, bus_capacity } => if v.active(LoopKind::BusListener) && v.cursor is Some
            && v.has_room() {
            if v.held is Some {
                seq![v.held->0]
            } else if next_event(log, bus_capacity, v.cursor->0) is Message {
                seq![next_event(log, bus_capacity, v.cursor->0)->Message_0]
            } else {
                seq![]
            }
        } else {
            seq![]
        },
        Step::Offer { message } => if v.phase is Relaying && v.has_room() {
            seq![message]
        } else {
            seq![]
        },
        _ => seq![],
    }
}

/// What `step` hands to the sink writer: nothing, or the head of the queue.
pub open spec fn taken(v: ConnectionView, step: Step) -> Seq<MessageView> {
    if step is NextOutbound && v.active(LoopKind::SinkWriter) && v.queue.len() > 0 {
        seq![v.queue[0]]
    } else {
        seq![]
    }
}

/// Everything that `steps` put on the outbound queue, in order.
pub open spec fn enqueued(v: ConnectionView, steps: Seq<Step>) -> Seq<MessageView>
    decreases steps.len(),
{
    if steps.len() == 0 {
        seq![]
    } else {
        appended(v, steps[0]) + enqueued(apply(v, steps[0]), steps.drop_first())
    }
}

/// Everything that `steps` handed to the sink writer, in order.
pub open spec fn written(v: ConnectionView, steps: Seq<Step>) -> Seq<MessageView>
    decreases steps.len(),
{
    if steps.len() == 0 {
        seq![]
    } else {
        taken(v, steps[0]) + written(apply(v, steps[0]), steps.drop_first())
    }
}

/// Whatever happens to a connection, its invariant holds afterwards, the
/// capacity of its outbound queue is what it was, and the queue holds no
/// more than that.
pub proof fn lemma_step_keeps_invariant(v: ConnectionView, step: Step)
    requires
        v.wf(),
    ensures
        apply(v, step).wf(),
        apply(v, step).capacity == v.capacity,
        apply(v, step).queue.len() <= v.capacity,
{
}

/// The outbound queue is bounded in every state that a connection can
/// reach: however long it runs, the queue never holds more messages than
/// its capacity.
pub proof fn lemma_queue_stays_bounded(v: ConnectionView, steps: Seq<Step>)
    requires
        v.wf(),
    ensures
        run(v, steps).wf(),
        run(v, steps).capacity == v.capacity,
        run(v, steps).queue.len() <= v.capacity,
    decreases steps.len(),
{
    if steps.len() > 0 {
        lemma_step_keeps_invariant(v, steps[0]);
        lemma_queue_stays_bounded(apply(v, steps[0]), steps.drop_first());
    }
}

/// One step either appends one message at the tail of the outbound queue,
/// or takes one from its head, or leaves the queue alone.
pub proof fn lemma_step_is_first_in_first_out(v: ConnectionView, step: Step)
    requires
        v.wf(),
    ensures
        v.queue + appended(v, step) == taken(v, step) + apply(v, step).queue,
{
    assert(v.queue + appended(v, step) =~= taken(v, step) + apply(v, step).queue);
}

/// The outbound queue is first in, first out, and loses nothing. Over any
/// run, what was in the queue followed by all that was put on it is what
/// the writer was handed followed by what is still in the queue: every
/// message leaves unchanged, once, and in the order in which it came.
pub proof fn lemma_queue_is_first_in_first_out(v: ConnectionView, steps: Seq<Step>)
    requires
        v.wf(),
    ensures
        v.queue + enqueued(v, steps) == written(v, steps) + run(v, steps).queue,
    decreases steps.len(),
{
    if steps.len() == 0 {
        assert(v.queue + enqueued(v, steps) =~= written(v, steps) + run(v, steps).queue);
    } else {
        let next = apply(v, steps[0]);
        let rest = steps.drop_first();
        lemma_step_keeps_invariant(v, steps[0]);
        lemma_step_is_first_in_first_out(v, steps[0]);
        lemma_queue_is_first_in_first_out(next, rest);
        assert(v.queue + enqueued(v, steps) =~= (v.queue + appended(v, steps[0])) + enqueued(
            next,
            rest,
        ));
        assert(written(v, steps) + run(v, steps).queue =~= taken(v, steps[0]) + (written(
            next,
            rest,
        ) + run(next, rest).queue));
        assert((taken(v, steps[0]) + next.queue) + enqueued(next, rest) =~= taken(v, steps[0])
            + (next.queue + enqueued(next, rest)));
    }
}

/// The listener follows its subscription. A listener that holds nothing
/// back reads its subscription exactly once per step: the cursor moves as
/// the read moves it, a lag is reported with the count that the read gave,
/// an idle bus is reported as idle, and a message that is delivered goes to
/// the tail of the outbound queue as it is, or is held back for a full
/// queue, or, under fail-fast, ends the connection.
pub proof fn lemma_listener_follows_its_subscription(
    v: ConnectionView,
    log: Seq<MessageView>,
    bus_capacity: nat,
)
    requires
        v.wf(),
        v.phase is Relaying,
        v.held is None,
        v.cursor->0 <= log.len(),
    ensures
        ({
            let cursor = v.cursor->0;
            let (after, step) = v.pump(log, bus_capacity);
            &&& after.phase is Relaying ==> after.cursor == Some(
                next_cursor(log, bus_capacity, cursor),
            )
            &&& match next_event(log, bus_capacity, cursor) {
                BusEventView::Message(message) => {
                    &&& message == log[cursor as int]
                    &&& v.has_room() ==> step == ListenerStepView::Relayed && after.queue
                        == v.queue.push(message) && after.held is None
                    &&& !v.has_room() && v.policy is Backpressure ==> step
                        == ListenerStepView::Blocked && after.queue == v.queue && after.held
                        == Some(message)
                    &&& !v.has_room() && v.policy is FailFast ==> step == ListenerStepView::Stop
                        && after.phase is Closing
                },
                BusEventView::Lagged(missed) => step == ListenerStepView::Lagged(missed)
                    && after.queue == v.queue,
                BusEventView::Idle => step == ListenerStepView::Idle && after == v,
                BusEventView::Closed => false,
            }
        }),
{
}

/// A lag is survived, and counted against the capacity of the bus. A
/// listener that holds nothing back and whose backlog is above the capacity
/// reports a lag by the backlog less the capacity. The connection goes on
/// relaying with its queue as it was, and the listener reads on from the
/// oldest of the newest `bus_capacity` messages.
pub proof fn lemma_listener_survives_a_lag(
    v: ConnectionView,
    log: Seq<MessageView>,
    bus_capacity: nat,
)
    requires
        v.wf(),
        v.phase is Relaying,
        v.held is None,
        bus_capacity > 0,
        log.len() - v.cursor->0 > bus_capacity,
    ensures
        ({
            let (after, step) = v.pump(log, bus_capacity);
            &&& step == ListenerStepView::Lagged((log.len() - v.cursor->0 - bus_capacity) as nat)
            &&& after.phase is Relaying
            &&& after.active(LoopKind::BusListener)
            &&& after.queue == v.queue
            &&& after.cursor == Some((log.len() - bus_capacity) as nat)
            &&& next_event(log, bus_capacity, after.cursor->0) == BusEventView::Message(
                log[log.len() - bus_capacity],
            )
        }),
{
}

/// What the listener held back goes first, and unchanged. A listener that
/// holds a message back does not read its subscription: it puts that
/// message on the outbound queue as soon as there is room, and until then
/// it stays as it is.
pub proof fn lemma_held_message_goes_first(
    v: ConnectionView,
    log: Seq<MessageView>,
    bus_capacity: nat,
)
    requires
        v.wf(),
        v.phase is Relaying,
        v.held is Some,
    ensures
        ({
            let (after, step) = v.pump(log, bus_capacity);
            &&& v.policy is Backpressure
            &&& after.cursor == v.cursor
            &&& v.has_room() ==> step == ListenerStepView::Relayed && after.queue == v.queue.push(
                v.held->0,
            ) && after.held is None
            &&& !v.has_room() ==> step == ListenerStepView::Blocked && after == v
        }),
{
    assert(!v.has_room() ==> v.pump(log, bus_capacity).0 =~= v);
}

/// The place in the bus's log of the message that `step` takes to the
/// outbound queue, if `step` is a step of the listener that takes one
/// there. A message that was held back stands just before the cursor.
pub open spec fn relayed_index(v: ConnectionView, step: Step) -> Option<nat> {
    if step is Pump && appended(v, step).len() > 0 {
        if v.held is Some {
            Some((v.cursor->0 - 1) as nat)
        } else {
            Some(v.cursor->0)
        }
    } else {
        None
    }
}

/// The places in the bus's log of all the messages that the listener takes
/// to the outbound queue in the course of `steps`, in the order in which
/// it takes them there.
pub open spec fn relayed_indices(v: ConnectionView, steps: Seq<Step>) -> Seq<nat>
    decreases steps.len(),
{
    if steps.len() == 0 {
        seq![]
    } else {
        (match relayed_index(v, steps[0]) {
            Some(index) => seq![index],
            None => seq![],
        }) + relayed_indices(apply(v, steps[0]), steps.drop_first())
    }
}

/// The messages that the listener takes to the outbound queue in the course
/// of `steps`, in order.
pub open spec fn relayed(v: ConnectionView, steps: Seq<Step>) -> Seq<MessageView>
    decreases steps.len(),
{
    if steps.len() == 0 {
        seq![]
    } else {
        (if steps[0] is Pump {
            appended(v, steps[0])
        } else {
            seq![]
        }) + relayed(apply(v, steps[0]), steps.drop_first())
    }
}

/// Whether the listener's steps among `steps` see a bus that only grows,
/// starting from `log`.
pub open spec fn bus_grows(steps: Seq<Step>, log: Seq<MessageView>) -> bool
    decreases steps.len(),
{
    if steps.len() == 0 {
        true
    } else {
        match steps[0] {
            Step::Pump { log: seen, .. } => log.is_prefix_of(seen) && bus_grows(
                steps.drop_first(),
                seen,
            ),
            _ => bus_grows(steps.drop_first(), log),
        }
    }
}

/// The log that the last step of the listener among `steps` sees; `log`
/// where there is none.
pub open spec fn last_seen(steps: Seq<Step>, log: Seq<MessageView>) -> Seq<MessageView>
    decreases steps.len(),
{
    if steps.len() == 0 {
        log
    } else {
        match steps[0] {
            Step::Pump { log: seen, .. } => last_seen(steps.drop_first(), seen),
            _ => last_seen(steps.drop_first(), log),
        }
    }
}

/// Whether the listener of `v` stands where a listener can stand on a bus
/// with this `log`: not past the end, and with the message it holds back,
/// if any, being the one just before its cursor.
pub open spec fn in_step(v: ConnectionView, log: Seq<MessageView>) -> bool {
    v.cursor matches Some(cursor) ==> {
        &&& cursor <= log.len()
        &&& v.held matches Some(message) ==> cursor >= 1 && log[cursor - 1] == message
    }
}

/// The first place in the log that the listener of `v` can still take to
/// the outbound queue.
pub open spec fn next_to_relay(v: ConnectionView) -> nat {
    match v.cursor {
        Some(cursor) => if v.held is Some {
            (cursor - 1) as nat
        } else {
            cursor
        },
        None => 0,
    }
}

/// The induction behind [`lemma_relay_keeps_publish_order`].
proof fn lemma_relay_order(v: ConnectionView, steps: Seq<Step>, log: Seq<MessageView>)
    requires
        v.wf(),
        !(v.phase is Handshaking),
        in_step(v, log),
        bus_grows(steps, log),
    ensures
        log.is_prefix_of(last_seen(steps, log)),
        relayed(v, steps).len() == relayed_indices(v, steps).len(),
        forall|k: int|
            0 <= k < relayed_indices(v, steps).len() ==> {
                &&& next_to_relay(v) <= #[trigger] relayed_indices(v, steps)[k] < last_seen(
                    steps,
                    log,
                ).len()
                &&& relayed(v, steps)[k] == last_seen(steps, log)[relayed_indices(
                    v,
                    steps,
                )[k] as int]
            },
        forall|j: int, k: int|
            0 <= j < k < relayed_indices(v, steps).len() ==> relayed_indices(v, steps)[j]
                < relayed_indices(v, steps)[k],
    decreases steps.len(),
{
    if steps.len() == 0 {
        assert(log.is_prefix_of(log));
    } else {
        let step = steps[0];
        let rest = steps.drop_first();
        let next = apply(v, step);
        let seen = match step {
            Step::Pump { log: seen, .. } => seen,
            _ => log,
        };
        lemma_step_keeps_invariant(v, step);
        assert(log.is_prefix_of(seen));
        assert(in_step(next, seen) && next_to_relay(v) <= next_to_relay(next) || next.cursor
            is None);
        assert(!(next.phase is Handshaking));
        lemma_relay_order(next, rest, seen);
        let last = last_seen(rest, seen);
        assert(last == last_seen(steps, log));
        let tail = relayed_indices(next, rest);
        let indices = relayed_indices(v, steps);
        let messages = relayed(v, steps);
        if next.cursor is None {
            lemma_nothing_relayed_without_subscription(next, rest);
        }
        match relayed_index(v, step) {
            Some(index) => {
                assert(indices =~= seq![index] + tail);
                assert(messages =~= appended(v, step) + relayed(next, rest));
                assert(appended(v, step).len() == 1);
                assert(index < seen.len());
                assert(appended(v, step)[0] == seen[index as int]);
                assert(seen[index as int] == last[index as int]);
                assert(tail.len() > 0 ==> index < next_to_relay(next));
                assert forall|k: int| 0 <= k < indices.len() implies {
                    &&& next_to_relay(v) <= #[trigger] indices[k] < last.len()
                    &&& messages[k] == last[indices[k] as int]
                } by {
                    if k > 0 {
                        assert(indices[k] == tail[k - 1]);
                        assert(messages[k] == relayed(next, rest)[k - 1]);
                    }
                }
                assert forall|j: int, k: int| 0 <= j < k < indices.len() implies indices[j]
                    < indices[k] by {
                    assert(indices[k] == tail[k - 1]);
                    if j > 0 {
                        assert(indices[j] == tail[j - 1]);
                    }
                }
            },
            None => {
                assert(indices =~= tail);
                assert(messages =~= relayed(next, rest));
            },
        }
    }
}

/// A connection that holds no subscription relays nothing, whatever
/// happens to it.
proof fn lemma_nothing_relayed_without_subscription(v: ConnectionView, steps: Seq<Step>)
    requires
        v.wf(),
        !(v.phase is Handshaking),
        v.cursor is None,
    ensures
        relayed_indices(v, steps).len() == 0,
        relayed(v, steps).len() == 0,
    decreases steps.len(),
{
    if steps.len() > 0 {
        lemma_step_keeps_invariant(v, steps[0]);
        lemma_nothing_relayed_without_subscription(apply(v, steps[0]), steps.drop_first());
    }
}

/// The listener preserves publish order, and relays what was published as
/// it was. Let a relaying connection run through any steps whatever, with
/// its listener seeing a bus that only grows. Then the messages that the
/// listener takes to the outbound queue are messages of the bus's log,
/// each unchanged, and they are taken there in the order in which they
/// were published. As the queue is first in, first out, this is the order
/// in which the client is sent them.
pub proof fn lemma_relay_keeps_publish_order(
    v: ConnectionView,
    steps: Seq<Step>,
    log: Seq<MessageView>,
)
    requires
        v.wf(),
        v.phase is Relaying,
        v.held is None,
        v.cursor->0 <= log.len(),
        bus_grows(steps, log),
    ensures
        relayed(v, steps).len() == relayed_indices(v, steps).len(),
        forall|k: int|
            0 <= k < relayed_indices(v, steps).len() ==> {
                &&& v.cursor->0 <= #[trigger] relayed_indices(v, steps)[k] < last_seen(
                    steps,
                    log,
                ).len()
                &&& relayed(v, steps)[k] == last_seen(steps, log)[relayed_indices(
                    v,
                    steps,
                )[k] as int]
            },
        forall|j: int, k: int|
            0 <= j < k < relayed_indices(v, steps).len() ==> relayed_indices(v, steps)[j]
                < relayed_indices(v, steps)[k],
{
    lemma_relay_order(v, steps, log);
}

/// The first loop to end wins. When any loop of a relaying connection
/// ends, the subscription is released at once and the connection is
/// `Closing`; each of the other two loops is told to stop at its very next
/// step, whatever that step is; neither touches the outbound queue; and
/// when both have taken that one step the connection is `Closed`.
pub proof fn lemma_first_exit_wins(
    v: ConnectionView,
    first: LoopKind,
    event: SocketEventView,
    log: Seq<MessageView>,
    bus_capacity: nat,
    delivered: bool,
)
    requires
        v.wf(),
        v.phase is Relaying,
    ensures
        ({
            let closing = v.stop_loop(first);
            &&& closing.phase is Closing
            &&& closing.cursor is None
            &&& !closing.runs(first)
            &&& closing.queue == v.queue
            &&& closing.read(event).1 == ReaderStep::Stop
            &&& closing.settle().1 == ReaderStep::Stop
            &&& closing.pump(log, bus_capacity).1 == ListenerStepView::Stop
            &&& closing.next_outbound().1 == WriterStepView::Stop
            &&& closing.written(delivered).1 == false
            &&& closing.read(event).0.pump(log, bus_capacity).0.next_outbound().0.phase is Closed
            &&& closing.next_outbound().0.pump(log, bus_capacity).0.read(event).0.phase is Closed
            &&& closing.pump(log, bus_capacity).0.read(event).0.next_outbound().0.phase is Closed
            &&& closing.read(event).0.pump(log, bus_capacity).0.next_outbound().0.queue == v.queue
        }),
{
}

/// Shutdown propagates from the socket. When the client's stream ends or a
/// read of it fails, the stream reader stops, the subscription is released,
/// and two more steps, one of the bus listener and one of the sink writer
/// in either order, end those loops too and leave the connection `Closed`.
pub proof fn lemma_socket_close_propagates(
    v: ConnectionView,
    event: SocketEventView,
    log: Seq<MessageView>,
    bus_capacity: nat,
)
    requires
        v.wf(),
        v.phase is Relaying,
        event is Failed || event is EndOfStream,
    ensures
        v.read(event).1 == ReaderStep::Stop,
        v.read(event).0.phase is Closing,
        v.read(event).0.cursor is None,
        !v.read(event).0.reader_running,
        v.read(event).0.pump(log, bus_capacity).1 == ListenerStepView::Stop,
        v.read(event).0.next_outbound().1 == WriterStepView::Stop,
        v.read(event).0.pump(log, bus_capacity).0.next_outbound().0.phase is Closed,
        v.read(event).0.next_outbound().0.pump(log, bus_capacity).0.phase is Closed,
        v.read(event).0.pump(log, bus_capacity).0.next_outbound().0.cursor is None,
{
    lemma_first_exit_wins(v, LoopKind::StreamReader, event, log, bus_capacity, true);
}

/// The reader outlives what is not text. A frame that is not a text
/// message changes nothing: the connection relays on as it was, nothing is
/// published for the frame and nothing is put on the outbound queue.
pub proof fn lemma_reader_passes_over_other_frames(
    v: ConnectionView,
    message: MessageView,
    log: Seq<MessageView>,
)
    requires
        v.wf(),
        v.phase is Relaying,
        !(message is Text),
    ensures
        v.read(SocketEventView::Frame(message)) == (v, ReaderStep::Continue),
        v.log_after_read(SocketEventView::Frame(message), log) == log,
{
}

/// The reader takes every text up. On a relaying connection a text message
/// is published unchanged at the tail of the log, which takes it while it
/// holds fewer than `u64::MAX` messages, and exactly one acknowledgment is
/// owed for it: it is on the outbound queue, or, with the queue full, it is
/// counted as owed under backpressure, or ends the connection under
/// fail-fast. A count of owed acknowledgments that cannot grow ends the
/// connection too, after the message was published.
pub proof fn lemma_reader_takes_text_up(v: ConnectionView, text: Seq<char>, log: Seq<MessageView>)
    requires
        v.wf(),
        v.phase is Relaying,
        log.len() < u64::MAX,
    ensures
        ({
            let event = SocketEventView::Frame(MessageView::Text(text));
            let (after, step) = v.read(event);
            &&& v.log_after_read(event, log) == log.push(MessageView::Text(text))
            &&& v.has_room() ==> after.queue == v.queue.push(ack_view()) && after.acks_owed
                == v.acks_owed && after.phase is Relaying
            &&& v.has_room() && v.acks_owed == 0 ==> step == ReaderStep::Continue
            &&& !v.has_room() && v.policy is Backpressure && v.acks_owed < usize::MAX
                ==> after.queue == v.queue && after.acks_owed == v.acks_owed + 1 && step
                == ReaderStep::Blocked
            &&& !v.has_room() && (v.policy is FailFast || v.acks_owed >= usize::MAX) ==> step
                == ReaderStep::Stop && after.phase is Closing
        }),
{
}

/// A connection that was shut down holds no subscription and runs no loop,
/// whatever state it was in.
pub proof fn lemma_shut_down_releases(v: ConnectionView)
    requires
        v.wf(),
    ensures
        v.shut_down().wf(),
        v.shut_down().phase is Closed,
        v.shut_down().cursor is None,
        !v.shut_down().any_running(),
{
}

/// The sender is not left out. A text message that a relaying connection
/// takes from its client goes to the tail of the bus's log, ahead of that
/// connection's own cursor and unchanged. So the sender's own subscription,
/// read again and again on the bus as it then stands, comes to a read that
/// moves its cursor past the message; that read delivers the message or
/// reports a lag.
pub proof fn lemma_sender_hears_itself(
    v: ConnectionView,
    text: Seq<char>,
    log: Seq<MessageView>,
    bus_capacity: nat,
) -> (poll: nat)
    requires
        v.wf(),
        v.phase is Relaying,
        v.cursor->0 <= log.len(),
        log.len() < u64::MAX,
    ensures
        ({
            let event = SocketEventView::Frame(MessageView::Text(text));
            let published = v.log_after_read(event, log);
            let cursor = v.cursor->0;
            let logs = Seq::new((log.len() - cursor + 1) as nat, |i: int| published);
            &&& published == log.push(MessageView::Text(text))
            &&& v.read(event).0.phase is Relaying ==> v.read(event).0.cursor == Some(cursor)
            &&& poll <= log.len() - cursor
            &&& cursor_after(logs, bus_capacity, cursor, poll) <= log.len() < cursor_after(
                logs,
                bus_capacity,
                cursor,
                poll + 1,
            )
            &&& (event_at(logs, bus_capacity, cursor, poll) == BusEventView::Message(
                MessageView::Text(text),
            ) || event_at(logs, bus_capacity, cursor, poll) is Lagged)
        }),
{
    let event = SocketEventView::Frame(MessageView::Text(text));
    let published = v.log_after_read(event, log);
    let cursor = v.cursor->0;
    let logs = Seq::new((log.len() - cursor + 1) as nat, |i: int| published);
    assert(grows(logs)) by {
        assert forall|i: int, j: int| 0 <= i <= j < logs.len() implies (#[trigger] logs[i]).is_prefix_of(
            #[trigger] logs[j],
        ) by {
            assert(published.is_prefix_of(published));
        }
    }
    lemma_fan_out_is_complete(logs, bus_capacity, cursor, log.len())
}

} // verus!
