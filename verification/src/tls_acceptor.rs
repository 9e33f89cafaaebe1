//! The acceptor as a state machine. Connections come in from the accept
//! loop, each one that finds a configuration goes through a handshake of its
//! own under the snapshot taken when it was accepted, and the results reach
//! the consumer through the delivery queue in the order in which the
//! handshakes finish. The functions here decide; the caller performs the
//! I/O and reports what happened.

use crate::config_channel::{read_latest, ConfigId, ConfigSlot};
use crate::delivery_queue::{DeliveryQueue, Offer, QueueView, DELIVERY_CAPACITY};
use std::sync::Arc;
use vstd::prelude::*;

verus! {

/// What the accept loop does after one round of accepting. `C` is a
/// connection, `K` a configuration, `E` an accept error.
#[derive(Clone, Copy, Debug, PartialEq, Eq)]
pub enum AcceptStep<C, K, E> {
    /// Start a handshake task for the connection, under this configuration,
    /// and keep accepting.
    Negotiate { client: C, config: K },
    /// Drop the connection with a warning, since no configuration is
    /// loaded, and keep accepting.
    DropUnconfigured(C),
    /// Log the error and keep accepting.
    ReportAcceptError(E),
    /// Leave the loop: the socket is closed for good.
    Stop,
}

/// What the accept loop does with what the socket reported, given the
/// configuration snapshot of that moment.
pub open spec fn accept_step_of<C, K, E>(
    accepted: Option<Result<C, E>>,
    snapshot: Option<K>,
) -> AcceptStep<C, K, E> {
    match accepted {
        Some(Ok(client)) => match snapshot {
            Some(config) => AcceptStep::Negotiate { client, config },
            None => AcceptStep::DropUnconfigured(client),
        },
        Some(Err(error)) => AcceptStep::ReportAcceptError(error),
        None => AcceptStep::Stop,
    }
}

/// Decides what the accept loop does with what the socket reported, given
/// the configuration snapshot of that moment.
pub fn decide_accept<C, K, E>(accepted: Option<Result<C, E>>, snapshot: Option<K>) -> (step:
    AcceptStep<C, K, E>)
    ensures
        step == accept_step_of(accepted, snapshot),
{
    match accepted {
        Some(Ok(client)) => match snapshot {
            Some(config) => AcceptStep::Negotiate { client, config },
            None => AcceptStep::DropUnconfigured(client),
        },
        Some(Err(error)) => AcceptStep::ReportAcceptError(error),
        None => AcceptStep::Stop,
    }
}

/// Decides what the accept loop does with what the socket reported. For a
/// connection it takes a snapshot of the configuration channel: the
/// connection is dropped where the channel holds nothing, and goes on to a
/// handshake under the snapshot otherwise. An error is reported; a closed
/// socket ends the loop.
pub fn accept_step<C, E>(
    accepted: Option<Result<C, E>>,
    channel: &tokio::sync::watch::Receiver<Option<Arc<rustls::ServerConfig>>>,
) -> (step: AcceptStep<C, Arc<rustls::ServerConfig>, E>)
    ensures
        match accepted {
            Some(Ok(client)) => step == AcceptStep::<C, Arc<rustls::ServerConfig>, E>::DropUnconfigured(
                client,
            ) || (step matches AcceptStep::Negotiate { client: admitted, .. } && admitted
                == client),
            Some(Err(error)) => step == AcceptStep::<
                C,
                Arc<rustls::ServerConfig>,
                E,
            >::ReportAcceptError(error),
            None => step == AcceptStep::<C, Arc<rustls::ServerConfig>, E>::Stop,
        },
{
    match accepted {
        Some(Ok(client)) => decide_accept(Some(Ok(client)), read_latest(channel)),
        other => decide_accept(other, None),
    }
}

/// The seconds that one handshake may take unless the caller sets another
/// bound: a peer that connects and stays silent gives its task up after it.
pub const HANDSHAKE_DEADLINE_SECS: u64 = 10;

/// What a handshake task does as it ends. `S` is a secured connection, `E`
/// an error of the negotiation.
#[derive(Clone, Copy, Debug, PartialEq, Eq)]
pub enum HandshakeStep<S, E> {
    /// Hand the secured connection to the delivery queue.
    HandOver(S),
    /// Log the failed negotiation and drop the connection.
    ReportNegotiationFailure(E),
    /// Log the expired deadline and drop the connection.
    ReportDeadline,
}

/// What a handshake task does with what came of its handshake: nothing
/// within the deadline, a failure before the peer's hello was complete, a
/// failure behind it, or a secured connection. Only a secured connection is
/// handed on; a failure at either stage is reported and goes no further.
pub open spec fn handshake_step_of<S, E>(finished: Option<Result<Result<S, E>, E>>) -> HandshakeStep<
    S,
    E,
> {
    match finished {
        Some(Ok(Ok(secured))) => HandshakeStep::HandOver(secured),
        Some(Ok(Err(error))) => HandshakeStep::ReportNegotiationFailure(error),
        Some(Err(error)) => HandshakeStep::ReportNegotiationFailure(error),
        None => HandshakeStep::ReportDeadline,
    }
}

/// Decides what a handshake task does with what came of its handshake.
pub fn decide_handshake<S, E>(finished: Option<Result<Result<S, E>, E>>) -> (step: HandshakeStep<
    S,
    E,
>)
    ensures
        step == handshake_step_of(finished),
{
    match finished {
        Some(Ok(Ok(secured))) => HandshakeStep::HandOver(secured),
        Some(Ok(Err(error))) => HandshakeStep::ReportNegotiationFailure(error),
        Some(Err(error)) => HandshakeStep::ReportNegotiationFailure(error),
        None => HandshakeStep::ReportDeadline,
    }
}

/// Identifies one accepted connection, remote address included.
pub type ConnId = u64;

/// One connection in the middle of its handshake, with the configuration
/// snapshot that its handshake uses from start to end.
#[derive(Clone, Copy, Debug, PartialEq, Eq, Structural)]
pub struct Handshake {
    pub conn: ConnId,
    pub config: ConfigId,
}

/// One item of the produced sequence: a connection that was upgraded to a
/// secure one, with the configuration it was negotiated under. A handshake
/// that failed has no such item.
#[derive(Clone, Copy, Debug, PartialEq, Eq, Structural)]
pub struct Delivery {
    pub conn: ConnId,
    pub config: ConfigId,
}

/// What the listening socket reported.
#[derive(Clone, Copy, Debug, PartialEq, Eq, Structural)]
pub enum AcceptEvent {
    /// A connection was accepted.
    Connection(ConnId),
    /// Accepting one connection failed; the socket is still good.
    TransientError,
    /// The socket is closed for good.
    Closed,
}

impl AcceptEvent {
    /// The event as the socket reports it: a connection, an error, or
    /// nothing more.
    pub open spec fn accepted(self) -> Option<Result<ConnId, ()>> {
        match self {
            AcceptEvent::Connection(conn) => Some(Ok(conn)),
            AcceptEvent::TransientError => Some(Err(())),
            AcceptEvent::Closed => None,
        }
    }
}

/// What the accept loop does next, with connections and configurations
/// named by their identifiers.
pub type AcceptAction = AcceptStep<ConnId, ConfigId, ()>;

/// How a handshake task ended.
#[derive(Clone, Copy, Debug, PartialEq, Eq, Structural)]
pub enum HandshakeEvent {
    /// The connection was upgraded to a secure one.
    Secured,
    /// The negotiation failed before the peer's hello was complete.
    HelloFailed,
    /// The negotiation failed behind the peer's hello.
    UpgradeFailed,
    /// The handshake did not end within its deadline.
    DeadlineExpired,
}

impl HandshakeEvent {
    /// The event as the task sees it: nothing within the deadline, a
    /// failure at the one stage or the other, or a secured connection.
    pub open spec fn finished(self) -> Option<Result<Result<(), ()>, ()>> {
        match self {
            HandshakeEvent::Secured => Some(Ok(Ok(()))),
            HandshakeEvent::HelloFailed => Some(Err(())),
            HandshakeEvent::UpgradeFailed => Some(Ok(Err(()))),
            HandshakeEvent::DeadlineExpired => None,
        }
    }
}

/// What a handshake task does as it ends.
#[derive(Clone, Copy, Debug, PartialEq, Eq, Structural)]
pub enum HandshakeAction {
    /// No handshake of that connection is in flight: nothing to do.
    Unknown,
    /// Log the failed negotiation and drop the connection.
    ReportNegotiationFailure,
    /// Log the expired deadline and drop the connection.
    ReportDeadline,
    /// The secured connection was handed to the delivery queue, which took
    /// it in this way.
    Handed(Offer),
}

/// What the consumer gets when it asks for the next item.
#[derive(Clone, Copy, Debug, PartialEq, Eq, Structural)]
pub enum Pull {
    /// The next item of the sequence.
    Item(Delivery),
    /// Nothing is ready yet, but more may come.
    Pending,
    /// The sequence has ended.
    Ended,
}

/// Anything that can happen to the acceptor.
#[derive(Clone, Copy, Debug, PartialEq, Eq, Structural)]
pub enum Event {
    /// The configuration loader published a value.
    Publish(Option<ConfigId>),
    /// The listening socket reported something.
    Accept(AcceptEvent),
    /// The handshake task of a connection ended.
    Handshake(ConnId, HandshakeEvent),
    /// The consumer asked for the next item.
    Pull,
    /// The consumer went away.
    ConsumerGone,
}

/// What the acceptor did about an event.
#[derive(Clone, Copy, Debug, PartialEq, Eq)]
pub enum Reaction {
    /// The published value is now the current configuration.
    Published,
    /// What the accept loop does next.
    Accept(AcceptAction),
    /// What the handshake task does as it ends.
    Handshake(HandshakeAction),
    /// What the consumer gets.
    Pull(Pull),
    /// The consumer is gone; so many held connections were refused.
    ConsumerGone(usize),
}

/// Whether the first handshake of `conn` among `tasks` stands at index `i`.
pub open spec fn starts_at(tasks: Seq<Handshake>, conn: ConnId, i: int) -> bool {
    &&& 0 <= i < tasks.len()
    &&& tasks[i].conn == conn
    &&& forall|j: int| 0 <= j < i ==> tasks[j].conn != conn
}

/// Whether a handshake of `conn` is among `tasks`.
pub open spec fn in_flight(tasks: Seq<Handshake>, conn: ConnId) -> bool {
    exists|i: int| starts_at(tasks, conn, i)
}

/// The index of the first handshake of `conn` among `tasks`.
pub open spec fn position(tasks: Seq<Handshake>, conn: ConnId) -> int {
    choose|i: int| starts_at(tasks, conn, i)
}

/// The mathematical model of the acceptor.
pub struct AcceptorView {
    /// What the configuration channel holds.
    pub slot: Option<ConfigId>,
    /// Whether the accept loop still runs.
    pub listening: bool,
    /// The handshakes that have not ended, in the order of acceptance.
    pub in_flight: Seq<Handshake>,
    /// The delivery queue.
    pub queue: QueueView<Delivery>,
}

impl AcceptorView {
    /// The acceptor's invariant is that of its queue.
    pub open spec fn wf(self) -> bool {
        self.queue.wf()
    }

    /// A listening acceptor with nothing in flight and an empty queue.
    pub open spec fn fresh(capacity: nat, initial: Option<ConfigId>) -> Self {
        AcceptorView {
            slot: initial,
            listening: true,
            in_flight: Seq::empty(),
            queue: QueueView::fresh(capacity),
        }
    }

    /// The secured connections that the consumer has not taken yet, in the
    /// order in which it will see them.
    pub open spec fn pending(self) -> Seq<Delivery> {
        self.queue.pending()
    }

    /// The acceptor after a publish: only the slot changes.
    pub open spec fn after_publish(self, value: Option<ConfigId>) -> Self {
        AcceptorView {
            slot: value,
            listening: self.listening,
            in_flight: self.in_flight,
            queue: self.queue,
        }
    }

    /// What the accept loop does on `event`.
    pub open spec fn accept_action(self, event: AcceptEvent) -> AcceptAction {
        if !self.listening {
            AcceptStep::Stop
        } else {
            accept_step_of(event.accepted(), self.slot)
        }
    }

    /// The acceptor after the accept loop has dealt with `event`.
    pub open spec fn after_accept(self, event: AcceptEvent) -> Self {
        match self.accept_action(event) {
            AcceptStep::Negotiate { client, config } => AcceptorView {
                slot: self.slot,
                listening: self.listening,
                in_flight: self.in_flight.push(Handshake { conn: client, config }),
                queue: self.queue,
            },
            AcceptStep::Stop => AcceptorView {
                slot: self.slot,
                listening: false,
                in_flight: self.in_flight,
                queue: self.queue,
            },
            _ => self,
        }
    }

    /// The item that the handshake of `conn` hands over when it ends with a
    /// secured connection: it carries the snapshot taken at acceptance.
    pub open spec fn delivery_of(self, conn: ConnId) -> Delivery {
        Delivery { conn, config: self.in_flight[position(self.in_flight, conn)].config }
    }

    /// What the handshake task of `conn` does as it ends with `event`.
    pub open spec fn handshake_action(self, conn: ConnId, event: HandshakeEvent) -> HandshakeAction {
        if !in_flight(self.in_flight, conn) {
            HandshakeAction::Unknown
        } else {
            match handshake_step_of(event.finished()) {
                HandshakeStep::HandOver(_) => HandshakeAction::Handed(self.queue.offer_outcome()),
                HandshakeStep::ReportNegotiationFailure(_) => {
                    HandshakeAction::ReportNegotiationFailure
                },
                HandshakeStep::ReportDeadline => HandshakeAction::ReportDeadline,
            }
        }
    }

    /// The acceptor after the handshake task of `conn` has ended with
    /// `event`: the task is no longer in flight, and a secured connection
    /// has been handed to the queue. Any other end leaves the queue as it
    /// was.
    pub open spec fn after_handshake(self, conn: ConnId, event: HandshakeEvent) -> Self {
        if !in_flight(self.in_flight, conn) {
            self
        } else {
            AcceptorView {
                slot: self.slot,
                listening: self.listening,
                in_flight: self.in_flight.remove(position(self.in_flight, conn)),
                queue: match event {
                    HandshakeEvent::Secured => self.queue.after_offer(self.delivery_of(conn)),
                    _ => self.queue,
                },
            }
        }
    }

    /// Whether nothing more can reach the queue: the accept loop has ended
    /// and every handshake with it.
    pub open spec fn drained(self) -> bool {
        !self.listening && self.in_flight.len() == 0
    }

    /// What the consumer gets when it asks for the next item.
    pub open spec fn pull_result(self) -> Pull {
        match self.queue.head() {
            Some(item) => Pull::Item(item),
            None => if !self.queue.open || self.drained() {
                Pull::Ended
            } else {
                Pull::Pending
            },
        }
    }

    /// The acceptor after the consumer has asked for the next item.
    pub open spec fn after_pull(self) -> Self {
        AcceptorView {
            slot: self.slot,
            listening: self.listening,
            in_flight: self.in_flight,
            queue: self.queue.after_take(),
        }
    }

    /// The acceptor after the consumer has gone away.
    pub open spec fn after_consumer_gone(self) -> Self {
        AcceptorView {
            slot: self.slot,
            listening: self.listening,
            in_flight: self.in_flight,
            queue: self.queue.after_close(),
        }
    }

    /// The acceptor after `event`.
    pub open spec fn step(self, event: Event) -> Self {
        match event {
            Event::Publish(value) => self.after_publish(value),
            Event::Accept(accepted) => self.after_accept(accepted),
            Event::Handshake(conn, ended) => self.after_handshake(conn, ended),
            Event::Pull => self.after_pull(),
            Event::ConsumerGone => self.after_consumer_gone(),
        }
    }

    /// What the acceptor does about `event`.
    pub open spec fn reaction(self, event: Event) -> Reaction {
        match event {
            Event::Publish(_) => Reaction::Published,
            Event::Accept(accepted) => Reaction::Accept(self.accept_action(accepted)),
            Event::Handshake(conn, ended) => Reaction::Handshake(
                self.handshake_action(conn, ended),
            ),
            Event::Pull => Reaction::Pull(self.pull_result()),
            Event::ConsumerGone => Reaction::ConsumerGone(self.queue.waiting.len() as usize),
        }
    }

    /// The acceptor after the events of `trace`, first to last.
    pub open spec fn run(self, trace: Seq<Event>) -> Self
        decreases trace.len(),
    {
        if trace.len() == 0 {
            self
        } else {
            self.run(trace.drop_last()).step(trace.last())
        }
    }
}

/// The acceptor before it runs: it holds the configuration channel that
/// its accept loop will read.
pub struct TlsIncoming {
    tls_config: ConfigSlot,
}

impl TlsIncoming {
    /// What the configuration channel holds.
    pub closed spec fn channel(&self) -> Option<ConfigId> {
        self.tls_config@
    }

    /// An acceptor that will read `tls_config`.
    pub fn new(tls_config: ConfigSlot) -> (incoming: Self)
        ensures
            incoming.channel() == tls_config@,
    {
        TlsIncoming { tls_config }
    }

    /// Starts the acceptor: the accept loop runs, no handshake is in flight
    /// yet, and the delivery queue of `DELIVERY_CAPACITY` slots is open and
    /// holds nothing. What the consumer pulls from it is the produced
    /// sequence.
    pub fn start(self) -> (acceptor: Acceptor)
        ensures
            acceptor.wf(),
            acceptor@ == AcceptorView::fresh(DELIVERY_CAPACITY as nat, self.channel()),
    {
        Acceptor {
            slot: self.tls_config,
            listening: true,
            in_flight: Vec::new(),
            queue: DeliveryQueue::new(DELIVERY_CAPACITY),
        }
    }
}

/// The acceptor: configuration slot, accept loop, handshakes in flight and
/// delivery queue.
pub struct Acceptor {
    slot: ConfigSlot,
    listening: bool,
    in_flight: Vec<Handshake>,
    queue: DeliveryQueue<Delivery>,
}

impl View for Acceptor {
    type V = AcceptorView;

    closed spec fn view(&self) -> AcceptorView {
        AcceptorView {
            slot: self.slot@,
            listening: self.listening,
            in_flight: self.in_flight@,
            queue: self.queue@,
        }
    }
}

impl Acceptor {
    /// The invariant that every acceptor built here keeps.
    pub open spec fn wf(&self) -> bool {
        self@.wf()
    }

    /// A listening acceptor whose queue has `DELIVERY_CAPACITY` slots and
    /// whose configuration slot starts out holding `initial`.
    pub fn new(initial: Option<ConfigId>) -> (acceptor: Self)
        ensures
            acceptor.wf(),
            acceptor@ == AcceptorView::fresh(DELIVERY_CAPACITY as nat, initial),
    {
        Acceptor::with_capacity(DELIVERY_CAPACITY, initial)
    }

    /// A listening acceptor whose queue has `capacity` slots and whose
    /// configuration slot starts out holding `initial`.
    pub fn with_capacity(capacity: usize, initial: Option<ConfigId>) -> (acceptor: Self)
        requires
            capacity > 0,
        ensures
            acceptor.wf(),
            acceptor@ == AcceptorView::fresh(capacity as nat, initial),
    {
        let mut slot = ConfigSlot::empty();
        slot.publish(initial);
        Acceptor { slot, listening: true, in_flight: Vec::new(), queue: DeliveryQueue::new(capacity) }
    }

    /// Publishes `value` on the configuration channel. Handshakes in flight
    /// keep the snapshot they started with.
    pub fn publish(&mut self, value: Option<ConfigId>)
        ensures
            final(self)@ == old(self)@.after_publish(value),
    {
        self.slot.publish(value);
    }

    /// The configuration that a connection accepted now would use.
    pub fn snapshot(&self) -> (latest: Option<ConfigId>)
        ensures
            latest == self@.slot,
    {
        self.slot.snapshot()
    }

    /// Whether the accept loop still runs.
    pub fn is_listening(&self) -> (listening: bool)
        ensures
            listening == self@.listening,
    {
        self.listening
    }

    /// The number of handshakes in flight.
    pub fn handshakes(&self) -> (count: usize)
        ensures
            count == self@.in_flight.len(),
    {
        self.in_flight.len()
    }

    /// The number of secured connections that are ready for the consumer.
    pub fn ready(&self) -> (count: usize)
        ensures
            count == self@.queue.ready.len(),
    {
        self.queue.len()
    }

    /// The number of secured connections that are held back by a full queue.
    pub fn held(&self) -> (count: usize)
        ensures
            count == self@.queue.waiting.len(),
    {
        self.queue.held()
    }

    /// Deals with what the listening socket reported. A connection starts a
    /// handshake under the current configuration, or is dropped if there is
    /// none; a transient error changes nothing; a closed socket ends the
    /// accept loop, after which every event is answered with `Stop`.
    pub fn on_accept(&mut self, event: AcceptEvent) -> (action: AcceptAction)
        ensures
            action == old(self)@.accept_action(event),
            final(self)@ == old(self)@.after_accept(event),
    {
        if !self.listening {
            return AcceptStep::Stop;
        }
        let accepted: Option<Result<ConnId, ()>> = match event {
            AcceptEvent::Connection(conn) => Some(Ok(conn)),
            AcceptEvent::TransientError => Some(Err(())),
            AcceptEvent::Closed => None,
        };
        let action = decide_accept(accepted, self.slot.snapshot());
        match action {
            AcceptStep::Negotiate { client, config } => {
                self.in_flight.push(Handshake { conn: client, config });
            },
            AcceptStep::Stop => {
                self.listening = false;
            },
            _ => {},
        }
        action
    }

    /// The index of the first handshake of `conn` that is in flight.
    fn locate(&self, conn: ConnId) -> (found: Option<usize>)
        ensures
            found is Some <==> in_flight(self@.in_flight, conn),
            found matches Some(i) ==> i == position(self@.in_flight, conn) && starts_at(
                self@.in_flight,
                conn,
                i as int,
            ),
    {
        let mut i: usize = 0;
        while i < self.in_flight.len()
            invariant
                i <= self.in_flight.len(),
                forall|j: int| 0 <= j < i ==> self.in_flight@[j].conn != conn,
            decreases self.in_flight.len() - i,
        {
            if self.in_flight[i].conn == conn {
                assert(starts_at(self@.in_flight, conn, i as int));
                return Some(i);
            }
            i = i + 1;
        }
        assert forall|k: int| !starts_at(self@.in_flight, conn, k) by {}
        None
    }

    /// Deals with the end of the handshake task of `conn`. A secured
    /// connection is handed to the delivery queue, under the snapshot taken
    /// when the connection was accepted. A negotiation that failed, at
    /// whatever stage, and a handshake that ran out of time are reported,
    /// and the connection is dropped: nothing of them reaches the queue.
    /// Either way the task is no longer in flight.
    pub fn on_handshake(&mut self, conn: ConnId, event: HandshakeEvent) -> (action: HandshakeAction)
        requires
            old(self).wf(),
        ensures
            final(self).wf(),
            action == old(self)@.handshake_action(conn, event),
            final(self)@ == old(self)@.after_handshake(conn, event),
    {
        match self.locate(conn) {
            None => HandshakeAction::Unknown,
            Some(i) => {
                let task = self.in_flight.remove(i);
                let finished: Option<Result<Result<(), ()>, ()>> = match event {
                    HandshakeEvent::Secured => Some(Ok(Ok(()))),
                    HandshakeEvent::HelloFailed => Some(Err(())),
                    HandshakeEvent::UpgradeFailed => Some(Ok(Err(()))),
                    HandshakeEvent::DeadlineExpired => None,
                };
                match decide_handshake(finished) {
                    HandshakeStep::HandOver(_) => {
                        let item = Delivery { conn: task.conn, config: task.config };
                        HandshakeAction::Handed(self.queue.offer(item))
                    },
                    HandshakeStep::ReportNegotiationFailure(_) => {
                        HandshakeAction::ReportNegotiationFailure
                    },
                    HandshakeStep::ReportDeadline => HandshakeAction::ReportDeadline,
                }
            },
        }
    }

    /// Gives the consumer its next item, if one is ready, and lets the
    /// handshake that has waited longest take the slot that came free. With
    /// nothing ready the sequence has ended once the accept loop and every
    /// handshake have ended, or once the consumer has gone away; until then
    /// it is pending.
    pub fn pull(&mut self) -> (next: Pull)
        requires
            old(self).wf(),
        ensures
            final(self).wf(),
            next == old(self)@.pull_result(),
            final(self)@ == old(self)@.after_pull(),
    {
        match self.queue.take() {
            Some(item) => Pull::Item(item),
            None => if !self.queue.is_open() || (!self.listening && self.in_flight.len() == 0) {
                Pull::Ended
            } else {
                Pull::Pending
            },
        }
    }

    /// Deals with `event`, whatever it is.
    pub fn apply(&mut self, event: Event) -> (reaction: Reaction)
        requires
            old(self).wf(),
        ensures
            final(self).wf(),
            reaction == old(self)@.reaction(event),
            final(self)@ == old(self)@.step(event),
    {
        match event {
            Event::Publish(value) => {
                self.publish(value);
                Reaction::Published
            },
            Event::Accept(accepted) => Reaction::Accept(self.on_accept(accepted)),
            Event::Handshake(conn, ended) => Reaction::Handshake(self.on_handshake(conn, ended)),
            Event::Pull => Reaction::Pull(self.pull()),
            Event::ConsumerGone => Reaction::ConsumerGone(self.consumer_gone()),
        }
    }

    /// Records that the consumer has gone away. The result counts the
    /// secured connections that were held back: each of their tasks now
    /// reports that its hand-off failed. Connections that are secured later
    /// are refused.
    pub fn consumer_gone(&mut self) -> (refused: usize)
        requires
            old(self).wf(),
        ensures
            final(self).wf(),
            refused == old(self)@.queue.waiting.len(),
            final(self)@ == old(self)@.after_consumer_gone(),
    {
        self.queue.close()
    }
}

} // verus!
