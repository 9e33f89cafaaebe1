//! What the acceptor guarantees, proved of its model.

use crate::config_channel::ConfigId;
use crate::delivery_queue::{Offer, QueueView};
use crate::tls_acceptor::{
    in_flight, position, starts_at, AcceptAction, AcceptEvent, AcceptStep, AcceptorView, ConnId,
    Delivery, Event, Handshake, HandshakeAction, HandshakeEvent, Pull,
};
use vstd::prelude::*;

verus! {

impl<T> QueueView<T> {
    /// A hand-off to an open queue appends the item to what is pending,
    /// whether a slot was free or not: a full queue holds the item back and
    /// does not drop it.
    pub proof fn offer_appends(self, item: T)
        requires
            self.wf(),
            self.open,
        ensures
            self.after_offer(item).wf(),
            self.after_offer(item).open,
            self.after_offer(item).pending() == self.pending().push(item),
            self.ready.len() == self.capacity ==> self.offer_outcome() == Offer::Held
                && self.after_offer(item).ready == self.ready && self.after_offer(item).waiting
                == self.waiting.push(item),
    {
        assert(self.after_offer(item).pending() =~= self.pending().push(item));
    }

    /// The consumer takes what has been pending longest, and the rest stays
    /// pending in its order.
    pub proof fn take_removes_oldest(self)
        requires
            self.wf(),
        ensures
            self.after_take().wf(),
            self.after_take().open == self.open,
            self.pending().len() == 0 ==> self.head() is None && self.after_take() == self,
            self.pending().len() > 0 ==> self.head() == Some(self.pending()[0])
                && self.after_take().pending() == self.pending().skip(1),
    {
        if self.pending().len() > 0 {
            assert(self.after_take().pending() =~= self.pending().skip(1));
        }
    }

    /// After a hand-off to a full queue, one read by the consumer is enough
    /// for the item that was held back longest to take a slot.
    pub proof fn one_take_releases_oldest_held(self)
        requires
            self.wf(),
            self.waiting.len() > 0,
        ensures
            self.after_take().ready.len() == self.capacity,
            self.after_take().ready.last() == self.waiting[0],
            self.after_take().waiting == self.waiting.skip(1),
    {
    }
}

/// Whether `event` publishes a configuration, as opposed to none.
pub open spec fn loads_config(event: Event) -> bool {
    event matches Event::Publish(Some(_))
}

/// Whether `event` is the end of the handshake of `conn`.
pub open spec fn ends_handshake_of(event: Event, conn: ConnId) -> bool {
    event matches Event::Handshake(ended, _) && ended == conn
}

/// A trace of `n` reads by the consumer and nothing else.
pub open spec fn pulls(n: nat) -> Seq<Event> {
    Seq::new(n, |i: int| Event::Pull)
}

/// The first handshake of a connection stands at one index only.
pub proof fn position_is_unique(tasks: Seq<Handshake>, conn: ConnId, i: int)
    requires
        starts_at(tasks, conn, i),
    ensures
        in_flight(tasks, conn),
        position(tasks, conn) == i,
{
    let p = position(tasks, conn);
    assert(starts_at(tasks, conn, p));
    if p < i {
        assert(tasks[p].conn != conn);
    }
    if i < p {
        assert(tasks[i].conn != conn);
    }
}

/// A connection that is accepted while none of its handshakes is in flight
/// is found again behind all the others.
pub proof fn accepted_task_is_found(tasks: Seq<Handshake>, task: Handshake)
    requires
        !in_flight(tasks, task.conn),
    ensures
        in_flight(tasks.push(task), task.conn),
        position(tasks.push(task), task.conn) == tasks.len(),
        tasks.push(task).remove(tasks.len() as int) == tasks,
{
    let grown = tasks.push(task);
    assert forall|j: int| 0 <= j < tasks.len() implies grown[j].conn != task.conn by {
        if tasks[j].conn == task.conn {
            first_match_exists(tasks, task.conn, j);
        }
    }
    assert(starts_at(grown, task.conn, tasks.len() as int));
    position_is_unique(grown, task.conn, tasks.len() as int);
    assert(grown.remove(tasks.len() as int) =~= tasks);
}

/// Where some handshake of a connection is among the tasks, a first one is.
proof fn first_match_exists(tasks: Seq<Handshake>, conn: ConnId, k: int)
    requires
        0 <= k < tasks.len(),
        tasks[k].conn == conn,
    ensures
        in_flight(tasks, conn),
    decreases k,
{
    if forall|j: int| 0 <= j < k ==> tasks[j].conn != conn {
        assert(starts_at(tasks, conn, k));
    } else {
        let j = choose|j: int| 0 <= j < k && tasks[j].conn == conn;
        first_match_exists(tasks, conn, j);
    }
}

/// A connection that is accepted leaves the handshakes that were in flight
/// before it where they were.
pub proof fn earlier_handshake_stays_first(tasks: Seq<Handshake>, conn: ConnId, task: Handshake)
    requires
        in_flight(tasks, conn),
    ensures
        in_flight(tasks.push(task), conn),
        position(tasks.push(task), conn) == position(tasks, conn),
{
    let p = position(tasks, conn);
    assert(starts_at(tasks, conn, p));
    assert(starts_at(tasks.push(task), conn, p));
    position_is_unique(tasks.push(task), conn, p);
}

/// The end of one handshake leaves the handshake of another connection in
/// flight, with the snapshot it had.
pub proof fn other_handshake_survives(tasks: Seq<Handshake>, ended: ConnId, other: ConnId)
    requires
        ended != other,
        in_flight(tasks, ended),
        in_flight(tasks, other),
    ensures
        in_flight(tasks.remove(position(tasks, ended)), other),
        tasks.remove(position(tasks, ended))[position(
            tasks.remove(position(tasks, ended)),
            other,
        )] == tasks[position(tasks, other)],
{
    let pe = position(tasks, ended);
    let po = position(tasks, other);
    assert(starts_at(tasks, ended, pe));
    assert(starts_at(tasks, other, po));
    let rest = tasks.remove(pe);
    if po < pe {
        assert(starts_at(rest, other, po));
        position_is_unique(rest, other, po);
    } else {
        assert forall|j: int| 0 <= j < po - 1 implies rest[j].conn != other by {
            if j < pe {
                assert(rest[j] == tasks[j]);
            } else {
                assert(rest[j] == tasks[j + 1]);
            }
        }
        assert(rest[po - 1] == tasks[po]);
        assert(starts_at(rest, other, po - 1));
        position_is_unique(rest, other, po - 1);
    }
}

impl AcceptorView {
    /// Every event keeps the acceptor's invariant, and the number of slots.
    pub proof fn step_keeps_invariant(self, event: Event)
        requires
            self.wf(),
        ensures
            self.step(event).wf(),
            self.step(event).queue.capacity == self.queue.capacity,
    {
        match event {
            Event::Handshake(conn, HandshakeEvent::Secured) => {
                if in_flight(self.in_flight, conn) && self.queue.open {
                    self.queue.offer_appends(self.delivery_of(conn));
                }
            },
            Event::Pull => {
                self.queue.take_removes_oldest();
            },
            _ => {},
        }
    }

    /// Whatever happens, the queue never holds more ready connections than
    /// it has slots, and a connection only waits while every slot is taken.
    pub proof fn run_keeps_invariant(self, trace: Seq<Event>)
        requires
            self.wf(),
        ensures
            self.run(trace).wf(),
            self.run(trace).queue.capacity == self.queue.capacity,
            self.run(trace).queue.ready.len() <= self.queue.capacity,
        decreases trace.len(),
    {
        if trace.len() > 0 {
            self.run_keeps_invariant(trace.drop_last());
            self.run(trace.drop_last()).step_keeps_invariant(trace.last());
        }
    }

    /// While the configuration channel holds nothing, an accepted connection
    /// is dropped: no handshake starts, nothing reaches the queue, and the
    /// accept loop goes on.
    pub proof fn unconfigured_connection_is_dropped(self, conn: ConnId)
        requires
            self.listening,
            self.slot is None,
        ensures
            self.accept_action(AcceptEvent::Connection(conn)) == AcceptAction::DropUnconfigured(
                conn,
            ),
            self.after_accept(AcceptEvent::Connection(conn)) == self,
    {
    }

    /// An acceptor that starts with nothing loaded, nothing in flight and
    /// nothing pending stays that way through any events among which no
    /// configuration is published: however often the consumer asks, it gets
    /// no item. Unless the socket closes, the accept loop keeps running.
    pub proof fn unconfigured_acceptor_delivers_nothing(self, trace: Seq<Event>)
        requires
            self.wf(),
            self.slot is None,
            self.in_flight.len() == 0,
            self.pending().len() == 0,
            forall|i: int| 0 <= i < trace.len() ==> !loads_config(#[trigger] trace[i]),
        ensures
            self.run(trace).wf(),
            self.run(trace).slot is None,
            self.run(trace).in_flight.len() == 0,
            self.run(trace).pending().len() == 0,
            self.taken(trace).len() == 0,
            !(self.run(trace).pull_result() is Item),
            (forall|i: int| 0 <= i < trace.len() ==> trace[i] != Event::Accept(AcceptEvent::Closed))
                ==> self.run(trace).listening == self.listening,
        decreases trace.len(),
    {
        if trace.len() > 0 {
            let before = trace.drop_last();
            self.unconfigured_acceptor_delivers_nothing(before);
            let s = self.run(before);
            let event = trace.last();
            s.step_keeps_invariant(event);
            match event {
                Event::Handshake(conn, ended) => {
                    assert forall|i: int| !starts_at(s.in_flight, conn, i) by {}
                },
                _ => {},
            }
        }
    }

    /// Once a configuration is published, the next accepted connection
    /// starts its handshake under it.
    pub proof fn connection_after_publish_uses_new_config(self, config: ConfigId, conn: ConnId)
        requires
            self.listening,
        ensures
            self.after_publish(Some(config)).accept_action(AcceptEvent::Connection(conn))
                == (AcceptAction::Negotiate { client: conn, config }),
            self.after_publish(Some(config)).after_accept(
                AcceptEvent::Connection(conn),
            ).in_flight == self.in_flight.push(Handshake { conn, config }),
    {
    }

    /// A publish leaves the handshakes in flight as they are, snapshots
    /// included, and a handshake ends the same way whether a publish came
    /// before its end or after: same action, same item handed over.
    pub proof fn publish_spares_handshakes_in_flight(
        self,
        value: Option<ConfigId>,
        conn: ConnId,
        ended: HandshakeEvent,
    )
        ensures
            self.after_publish(value).in_flight == self.in_flight,
            self.after_publish(value).queue == self.queue,
            self.after_publish(value).handshake_action(conn, ended) == self.handshake_action(
                conn,
                ended,
            ),
            self.after_publish(value).after_handshake(conn, ended) == self.after_handshake(
                conn,
                ended,
            ).after_publish(value),
            self.after_publish(value).delivery_of(conn) == self.delivery_of(conn),
    {
    }

    /// A handshake in flight keeps the snapshot it started with until it
    /// ends, whatever happens meanwhile: configurations are published,
    /// connections are accepted, other handshakes end, the consumer reads
    /// or goes away. The item it would hand over stays the same.
    pub proof fn handshake_keeps_its_snapshot(self, conn: ConnId, trace: Seq<Event>)
        requires
            in_flight(self.in_flight, conn),
            forall|i: int| 0 <= i < trace.len() ==> !ends_handshake_of(#[trigger] trace[i], conn),
        ensures
            in_flight(self.run(trace).in_flight, conn),
            self.run(trace).delivery_of(conn) == self.delivery_of(conn),
        decreases trace.len(),
    {
        if trace.len() > 0 {
            let before = trace.drop_last();
            self.handshake_keeps_its_snapshot(conn, before);
            let s = self.run(before);
            let event = trace.last();
            match event {
                Event::Accept(AcceptEvent::Connection(accepted)) => {
                    if s.listening && s.slot is Some {
                        earlier_handshake_stays_first(
                            s.in_flight,
                            conn,
                            Handshake { conn: accepted, config: s.slot->0 },
                        );
                    }
                },
                Event::Handshake(other, ended) => {
                    if in_flight(s.in_flight, other) {
                        other_handshake_survives(s.in_flight, other, conn);
                    }
                },
                _ => {},
            }
            assert(s.delivery_of(conn) == self.delivery_of(conn));
        }
    }

    /// A handshake that fails, at whatever stage, or runs out of time is
    /// reported and leaves the delivery queue as it was: nothing of it is
    /// ever pending, and so nothing of it reaches the consumer.
    pub proof fn failed_handshake_delivers_nothing(self, conn: ConnId, ended: HandshakeEvent)
        requires
            ended != HandshakeEvent::Secured,
        ensures
            self.after_handshake(conn, ended).queue == self.queue,
            self.after_handshake(conn, ended).pending() == self.pending(),
            self.handed_by(Event::Handshake(conn, ended)).len() == 0,
            !(self.handshake_action(conn, ended) is Handed),
            in_flight(self.in_flight, conn) ==> self.handshake_action(conn, ended) == (
            if ended == HandshakeEvent::DeadlineExpired {
                HandshakeAction::ReportDeadline
            } else {
                HandshakeAction::ReportNegotiationFailure
            }),
    {
    }

    /// Whatever the consumer is given stems from a handshake that ended
    /// with a secured connection, or was pending before: an event hands an
    /// item to the queue only if it is such an end, and the item is then the
    /// one that names that connection and its snapshot.
    pub proof fn only_secured_connections_are_handed_over(self, event: Event)
        ensures
            self.handed_by(event).len() <= 1,
            self.handed_by(event).len() == 1 ==> exists|conn: ConnId|
                event == Event::Handshake(conn, HandshakeEvent::Secured) && in_flight(
                    self.in_flight,
                    conn,
                ) && #[trigger] self.delivery_of(conn) == self.handed_by(event)[0],
    {
        match event {
            Event::Handshake(conn, HandshakeEvent::Secured) => {
                if self.handed_by(event).len() == 1 {
                    assert(self.delivery_of(conn) == self.handed_by(event)[0]);
                }
            },
            _ => {},
        }
    }

    /// A handshake that ends with a secured connection hands over an item
    /// that names the snapshot taken when its connection was accepted, and
    /// the item is appended to what is pending: held back if the queue is
    /// full, never dropped.
    pub proof fn secured_connection_is_appended(self, conn: ConnId)
        requires
            self.wf(),
            self.queue.open,
            in_flight(self.in_flight, conn),
        ensures
            self.after_handshake(conn, HandshakeEvent::Secured).wf(),
            self.after_handshake(conn, HandshakeEvent::Secured).pending()
                == self.pending().push(self.delivery_of(conn)),
            self.handshake_action(conn, HandshakeEvent::Secured) is Handed,
            self.handshake_action(conn, HandshakeEvent::Secured) != HandshakeAction::Handed(
                Offer::Rejected,
            ),
    {
        self.queue.offer_appends(self.delivery_of(conn));
    }

    /// Of two connections in flight, the one whose handshake finishes first
    /// is delivered first, in whatever order the two were accepted.
    pub proof fn delivery_follows_completion(
        self,
        first: ConnId,
        second: ConnId,
    )
        requires
            self.wf(),
            self.queue.open,
            first != second,
            in_flight(self.in_flight, first),
            in_flight(self.in_flight, second),
        ensures
            self.after_handshake(first, HandshakeEvent::Secured).after_handshake(
                second,
                HandshakeEvent::Secured,
            ).pending() == self.pending().push(self.delivery_of(first)).push(
                self.delivery_of(second),
            ),
    {
        let mid = self.after_handshake(first, HandshakeEvent::Secured);
        self.secured_connection_is_appended(first);
        other_handshake_survives(self.in_flight, first, second);
        mid.secured_connection_is_appended(second);
    }

    /// The consumer gets what has been pending longest; the rest stays
    /// pending in its order.
    pub proof fn pull_takes_oldest(self)
        requires
            self.wf(),
            self.pending().len() > 0,
        ensures
            self.pull_result() == Pull::Item(self.pending()[0]),
            self.after_pull().pending() == self.pending().skip(1),
            self.after_pull().wf(),
    {
        self.queue.take_removes_oldest();
    }

    /// With every slot of the queue taken, a secured connection is held
    /// back: the ready items stay as they are and the connection waits
    /// behind them. One read by the consumer then frees a slot for the one
    /// that has waited longest.
    pub proof fn full_queue_holds_back(self, conn: ConnId)
        requires
            self.wf(),
            self.queue.open,
            self.queue.ready.len() == self.queue.capacity,
            in_flight(self.in_flight, conn),
        ensures
            self.handshake_action(conn, HandshakeEvent::Secured)
                == HandshakeAction::Handed(Offer::Held),
            self.after_handshake(conn, HandshakeEvent::Secured).queue.ready
                == self.queue.ready,
            self.after_handshake(conn, HandshakeEvent::Secured).queue.waiting
                == self.queue.waiting.push(self.delivery_of(conn)),
            self.after_handshake(conn, HandshakeEvent::Secured).pull_result()
                == Pull::Item(self.queue.ready[0]),
            self.queue.waiting.len() == 0 ==> self.after_handshake(
                conn,
                HandshakeEvent::Secured,
            ).after_pull().queue.ready == self.queue.ready.skip(1).push(
                self.delivery_of(conn),
            ),
    {
        let item = self.delivery_of(conn);
        self.queue.offer_appends(item);
    }

    /// An acceptor that is started without a configuration drops the first
    /// connection and gives the consumer nothing, but does not end. Once a
    /// configuration is published, the next connection is negotiated under
    /// it, and when it is secured the consumer gets it, that connection
    /// under that configuration, and nothing else. A connection whose
    /// handshake fails after that is dropped: the consumer gets nothing of
    /// it, and the accept loop goes on.
    pub proof fn started_without_configuration(
        capacity: nat,
        first: ConnId,
        config: ConfigId,
        second: ConnId,
        third: ConnId,
        failure: HandshakeEvent,
    )
        requires
            capacity > 0,
            failure != HandshakeEvent::Secured,
        ensures
            ({
                let started = AcceptorView::fresh(capacity, None);
                let dropped = started.after_accept(AcceptEvent::Connection(first));
                let loaded = dropped.after_publish(Some(config));
                let secured = loaded.after_accept(AcceptEvent::Connection(second)).after_handshake(
                    second,
                    HandshakeEvent::Secured,
                );
                let failed = secured.after_pull().after_accept(
                    AcceptEvent::Connection(third),
                ).after_handshake(third, failure);
                &&& started.accept_action(AcceptEvent::Connection(first))
                    == AcceptAction::DropUnconfigured(first)
                &&& dropped == started
                &&& dropped.pull_result() == Pull::Pending
                &&& loaded.accept_action(AcceptEvent::Connection(second))
                    == (AcceptAction::Negotiate { client: second, config })
                &&& secured.pending() == seq![Delivery { conn: second, config }]
                &&& secured.pull_result() == Pull::Item(Delivery { conn: second, config })
                &&& secured.after_pull().pull_result() == Pull::Pending
                &&& failed.pending().len() == 0
                &&& failed.in_flight.len() == 0
                &&& failed.pull_result() == Pull::Pending
                &&& failed.listening
            }),
    {
        let started = AcceptorView::fresh(capacity, None);
        let loaded = started.after_publish(Some(config));
        assert forall|i: int| !starts_at(loaded.in_flight, second, i) by {}
        accepted_task_is_found(loaded.in_flight, Handshake { conn: second, config });
        let accepted = loaded.after_accept(AcceptEvent::Connection(second));
        assert(accepted.in_flight =~= seq![Handshake { conn: second, config }]);
        let secured = accepted.after_handshake(second, HandshakeEvent::Secured);
        assert(secured.in_flight =~= Seq::<Handshake>::empty());
        assert(secured.pending() =~= seq![Delivery { conn: second, config }]);
        let pulled = secured.after_pull();
        assert(pulled.queue.ready =~= Seq::<Delivery>::empty());
        assert forall|i: int| !starts_at(pulled.in_flight, third, i) by {}
        accepted_task_is_found(pulled.in_flight, Handshake { conn: third, config });
        let failed = pulled.after_accept(AcceptEvent::Connection(third)).after_handshake(
            third,
            failure,
        );
        assert(failed.in_flight =~= Seq::<Handshake>::empty());
    }

    /// A transient accept error changes nothing: the accept loop goes on,
    /// and the connection that comes next is dealt with as if the error had
    /// not happened.
    pub proof fn transient_error_changes_nothing(self, next: AcceptEvent)
        requires
            self.listening,
        ensures
            self.accept_action(AcceptEvent::TransientError) == AcceptAction::ReportAcceptError(()),
            self.after_accept(AcceptEvent::TransientError) == self,
            self.after_accept(AcceptEvent::TransientError).accept_action(next)
                == self.accept_action(next),
    {
    }

    /// After a transient accept error, a new connection that is accepted
    /// under a loaded configuration and completes its handshake is
    /// delivered.
    pub proof fn connection_after_transient_error_is_delivered(
        self,
        conn: ConnId,
        config: ConfigId,
    )
        requires
            self.wf(),
            self.listening,
            self.queue.open,
            self.slot == Some(config),
            !in_flight(self.in_flight, conn),
        ensures
            self.after_accept(AcceptEvent::TransientError).after_accept(
                AcceptEvent::Connection(conn),
            ).after_handshake(conn, HandshakeEvent::Secured).pending()
                == self.pending().push(Delivery { conn, config }),
            self.after_accept(AcceptEvent::TransientError).after_accept(
                AcceptEvent::Connection(conn),
            ).after_handshake(conn, HandshakeEvent::Secured).listening,
    {
        let task = Handshake { conn, config };
        accepted_task_is_found(self.in_flight, task);
        let accepted = self.after_accept(AcceptEvent::TransientError).after_accept(
            AcceptEvent::Connection(conn),
        );
        assert(accepted.in_flight == self.in_flight.push(task));
        accepted.secured_connection_is_appended(conn);
    }

    /// The items that `event` hands to an open queue.
    pub open spec fn handed_by(self, event: Event) -> Seq<Delivery> {
        match event {
            Event::Handshake(conn, HandshakeEvent::Secured) => if self.queue.open
                && in_flight(self.in_flight, conn) {
                seq![self.delivery_of(conn)]
            } else {
                Seq::empty()
            },
            _ => Seq::empty(),
        }
    }

    /// The items that the consumer gets on `event`.
    pub open spec fn taken_by(self, event: Event) -> Seq<Delivery> {
        match event {
            Event::Pull => match self.queue.head() {
                Some(item) => seq![item],
                None => Seq::empty(),
            },
            _ => Seq::empty(),
        }
    }

    /// The secured connections that the handshakes hand to the queue in the
    /// course of `trace`, in the order in which they finish.
    pub open spec fn handed(self, trace: Seq<Event>) -> Seq<Delivery>
        decreases trace.len(),
    {
        if trace.len() == 0 {
            Seq::empty()
        } else {
            self.handed(trace.drop_last()) + self.run(trace.drop_last()).handed_by(trace.last())
        }
    }

    /// The items that the consumer gets in the course of `trace`, in order.
    pub open spec fn taken(self, trace: Seq<Event>) -> Seq<Delivery>
        decreases trace.len(),
    {
        if trace.len() == 0 {
            Seq::empty()
        } else {
            self.taken(trace.drop_last()) + self.run(trace.drop_last()).taken_by(trace.last())
        }
    }

    /// By reading, the consumer gets what is pending, oldest first: after
    /// `n` reads it has taken the `n` connections that have been pending
    /// longest, and the others are still pending. So one that a full
    /// queue holds back reaches the consumer once it has read those before
    /// it.
    pub proof fn consumer_drains_in_order(self, n: nat)
        requires
            self.wf(),
            n <= self.pending().len(),
        ensures
            self.taken(pulls(n)) == self.pending().take(n as int),
            self.run(pulls(n)).pending() == self.pending().skip(n as int),
        decreases n,
    {
        if n > 0 {
            let before = pulls((n - 1) as nat);
            assert(pulls(n).drop_last() =~= before);
            self.consumer_drains_in_order((n - 1) as nat);
            self.run_keeps_invariant(before);
            self.run(before).pull_takes_oldest();
            assert(self.taken(pulls(n)) =~= self.pending().take(n as int));
            assert(self.run(pulls(n)).pending() =~= self.pending().skip(n as int));
        } else {
            assert(self.pending().take(0) =~= Seq::<Delivery>::empty());
            assert(self.pending().skip(0) =~= self.pending());
        }
    }

    /// As long as the consumer stays, nothing that a handshake hands over is
    /// lost or reordered: what was pending at the start, followed by what
    /// the handshakes handed over, is what the consumer has taken, followed
    /// by what is pending at the end.
    pub proof fn nothing_handed_over_is_lost(self, trace: Seq<Event>)
        requires
            self.wf(),
            self.queue.open,
            forall|i: int| 0 <= i < trace.len() ==> trace[i] != Event::ConsumerGone,
        ensures
            self.run(trace).wf(),
            self.run(trace).queue.open,
            self.pending() + self.handed(trace) == self.taken(trace) + self.run(trace).pending(),
        decreases trace.len(),
    {
        if trace.len() > 0 {
            let before = trace.drop_last();
            let event = trace.last();
            self.nothing_handed_over_is_lost(before);
            let s = self.run(before);
            s.step_keeps_invariant(event);
            match event {
                Event::Handshake(conn, HandshakeEvent::Secured) => {
                    if in_flight(s.in_flight, conn) {
                        s.secured_connection_is_appended(conn);
                    }
                },
                Event::Pull => {
                    s.queue.take_removes_oldest();
                },
                _ => {},
            }
            assert(self.pending() + self.handed(trace) =~= self.taken(trace) + self.run(
                trace,
            ).pending()) by {
                assert(self.pending() + self.handed(before) == self.taken(before) + s.pending());
                assert(self.handed(trace) == self.handed(before) + s.handed_by(event));
                assert(self.taken(trace) == self.taken(before) + s.taken_by(event));
                assert(self.pending() + (self.handed(before) + s.handed_by(event)) =~= (
                self.pending() + self.handed(before)) + s.handed_by(event));
                assert((self.taken(before) + s.taken_by(event)) + self.run(trace).pending() =~= (
                self.taken(before) + s.pending()) + s.handed_by(event));
            }
        }
    }
}

} // verus!
