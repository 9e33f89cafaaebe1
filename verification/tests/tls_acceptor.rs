use axum_util::delivery_queue::{Offer, DELIVERY_CAPACITY};
use axum_util::tls_acceptor::{
    AcceptAction, AcceptEvent, Acceptor, Delivery, Event, Handshake, HandshakeAction,
    HandshakeEvent, Pull, Reaction, TlsIncoming,
};
use axum_util::config_channel::ConfigSlot;

fn negotiate(conn: u64, config: u64) -> AcceptAction {
    AcceptAction::Negotiate { client: conn, config }
}

fn secured(conn: u64, config: u64) -> Delivery {
    Delivery { conn, config }
}

#[test]
fn new_acceptor_listens_with_nothing_in_flight() {
    let mut acceptor = Acceptor::new(None);
    assert!(acceptor.is_listening());
    assert_eq!(acceptor.snapshot(), None);
    assert_eq!(acceptor.handshakes(), 0);
    assert_eq!(acceptor.ready(), 0);
    assert_eq!(acceptor.held(), 0);
    assert_eq!(acceptor.pull(), Pull::Pending);
}

#[test]
fn acceptor_can_start_with_a_configuration() {
    let mut acceptor = Acceptor::new(Some(5));
    assert_eq!(acceptor.snapshot(), Some(5));
    assert_eq!(
        acceptor.on_accept(AcceptEvent::Connection(1)),
        negotiate(1, 5)
    );
}

#[test]
fn without_configuration_every_connection_is_dropped() {
    let mut acceptor = Acceptor::new(None);
    for conn in 0..25 {
        assert_eq!(
            acceptor.on_accept(AcceptEvent::Connection(conn)),
            AcceptAction::DropUnconfigured(conn)
        );
        assert_eq!(acceptor.handshakes(), 0);
        assert_eq!(acceptor.pull(), Pull::Pending);
    }
    assert!(acceptor.is_listening());
    assert_eq!(acceptor.ready(), 0);

    acceptor.publish(Some(1));
    assert_eq!(
        acceptor.on_accept(AcceptEvent::Connection(25)),
        negotiate(25, 1)
    );
    assert_eq!(
        acceptor.on_handshake(25, HandshakeEvent::Secured),
        HandshakeAction::Handed(Offer::Delivered)
    );
    assert_eq!(acceptor.pull(), Pull::Item(secured(25, 1)));
}

#[test]
fn rotation_does_not_touch_handshakes_in_flight() {
    let mut acceptor = Acceptor::new(Some(1));
    for conn in 0..4 {
        acceptor.on_accept(AcceptEvent::Connection(conn));
    }
    acceptor.publish(Some(2));
    assert_eq!(acceptor.handshakes(), 4);
    assert_eq!(
        acceptor.on_accept(AcceptEvent::Connection(4)),
        negotiate(4, 2)
    );
    acceptor.publish(None);
    for conn in 0..5 {
        assert_eq!(
            acceptor.on_handshake(conn, HandshakeEvent::Secured),
            HandshakeAction::Handed(Offer::Delivered)
        );
    }
    for conn in 0..4 {
        assert_eq!(acceptor.pull(), Pull::Item(secured(conn, 1)));
    }
    assert_eq!(acceptor.pull(), Pull::Item(secured(4, 2)));
    assert_eq!(acceptor.pull(), Pull::Pending);
}

#[test]
fn second_connection_finishing_first_is_delivered_first() {
    let mut acceptor = Acceptor::new(Some(1));
    acceptor.on_accept(AcceptEvent::Connection(100));
    acceptor.on_accept(AcceptEvent::Connection(200));
    acceptor.on_handshake(200, HandshakeEvent::Secured);
    acceptor.on_handshake(100, HandshakeEvent::Secured);
    assert_eq!(acceptor.pull(), Pull::Item(secured(200, 1)));
    assert_eq!(acceptor.pull(), Pull::Item(secured(100, 1)));
    assert_eq!(acceptor.pull(), Pull::Pending);
}

#[test]
fn saturated_queue_holds_the_next_result_back() {
    let mut acceptor = Acceptor::new(Some(1));
    let capacity = DELIVERY_CAPACITY as u64;
    for conn in 0..=capacity {
        acceptor.on_accept(AcceptEvent::Connection(conn));
    }
    for conn in 0..capacity {
        assert_eq!(
            acceptor.on_handshake(conn, HandshakeEvent::Secured),
            HandshakeAction::Handed(Offer::Delivered)
        );
    }
    assert_eq!(
        acceptor.on_handshake(capacity, HandshakeEvent::Secured),
        HandshakeAction::Handed(Offer::Held)
    );
    assert_eq!(acceptor.ready(), DELIVERY_CAPACITY);
    assert_eq!(acceptor.held(), 1);

    assert_eq!(acceptor.pull(), Pull::Item(secured(0, 1)));
    assert_eq!(acceptor.ready(), DELIVERY_CAPACITY);
    assert_eq!(acceptor.held(), 0);
    for conn in 1..=capacity {
        assert_eq!(acceptor.pull(), Pull::Item(secured(conn, 1)));
    }
    assert_eq!(acceptor.pull(), Pull::Pending);
}

#[test]
fn small_queue_with_capacity_two() {
    let mut acceptor = Acceptor::with_capacity(2, Some(3));
    for conn in [7, 8, 9] {
        acceptor.on_accept(AcceptEvent::Connection(conn));
    }
    assert_eq!(
        acceptor.on_handshake(9, HandshakeEvent::Secured),
        HandshakeAction::Handed(Offer::Delivered)
    );
    assert_eq!(
        acceptor.on_handshake(7, HandshakeEvent::Secured),
        HandshakeAction::Handed(Offer::Delivered)
    );
    assert_eq!(
        acceptor.on_handshake(8, HandshakeEvent::Secured),
        HandshakeAction::Handed(Offer::Held)
    );
    assert_eq!(acceptor.pull(), Pull::Item(secured(9, 3)));
    assert_eq!(acceptor.pull(), Pull::Item(secured(7, 3)));
    assert_eq!(acceptor.pull(), Pull::Item(secured(8, 3)));
}

#[test]
fn transient_accept_error_does_not_end_the_sequence() {
    let mut acceptor = Acceptor::new(Some(1));
    assert_eq!(acceptor.on_accept(AcceptEvent::TransientError), AcceptAction::ReportAcceptError(()));
    assert!(acceptor.is_listening());
    assert_eq!(acceptor.pull(), Pull::Pending);
    assert_eq!(
        acceptor.on_accept(AcceptEvent::Connection(1)),
        negotiate(1, 1)
    );
    acceptor.on_handshake(1, HandshakeEvent::Secured);
    assert_eq!(acceptor.pull(), Pull::Item(secured(1, 1)));
}

#[test]
fn end_to_end_scenario() {
    let mut acceptor = Acceptor::new(None);

    assert_eq!(acceptor.on_accept(AcceptEvent::Connection(1)), AcceptAction::DropUnconfigured(1));
    assert_eq!(acceptor.pull(), Pull::Pending);

    acceptor.publish(Some(77));

    assert_eq!(
        acceptor.on_accept(AcceptEvent::Connection(2)),
        negotiate(2, 77)
    );
    assert_eq!(
        acceptor.on_handshake(2, HandshakeEvent::Secured),
        HandshakeAction::Handed(Offer::Delivered)
    );
    assert_eq!(acceptor.pull(), Pull::Item(secured(2, 77)));

    assert_eq!(
        acceptor.on_accept(AcceptEvent::Connection(3)),
        negotiate(3, 77)
    );
    assert_eq!(
        acceptor.on_handshake(3, HandshakeEvent::HelloFailed),
        HandshakeAction::ReportNegotiationFailure
    );
    assert_eq!(acceptor.handshakes(), 0);
    assert_eq!(acceptor.ready(), 0);
    assert_eq!(acceptor.pull(), Pull::Pending);
    assert!(acceptor.is_listening());
}

#[test]
fn handshake_failing_at_any_stage_delivers_nothing() {
    let mut acceptor = Acceptor::new(Some(1));
    for conn in 1..=4 {
        acceptor.on_accept(AcceptEvent::Connection(conn));
    }
    assert_eq!(
        acceptor.on_handshake(1, HandshakeEvent::HelloFailed),
        HandshakeAction::ReportNegotiationFailure
    );
    assert_eq!(acceptor.pull(), Pull::Pending);
    assert_eq!(
        acceptor.on_handshake(2, HandshakeEvent::UpgradeFailed),
        HandshakeAction::ReportNegotiationFailure
    );
    assert_eq!(acceptor.ready(), 0);
    assert_eq!(acceptor.held(), 0);
    assert_eq!(acceptor.pull(), Pull::Pending);
    assert_eq!(
        acceptor.on_handshake(3, HandshakeEvent::DeadlineExpired),
        HandshakeAction::ReportDeadline
    );
    assert_eq!(acceptor.pull(), Pull::Pending);
    assert!(acceptor.is_listening());
    assert_eq!(acceptor.handshakes(), 1);
    assert_eq!(
        acceptor.on_handshake(4, HandshakeEvent::Secured),
        HandshakeAction::Handed(Offer::Delivered)
    );
    assert_eq!(acceptor.pull(), Pull::Item(secured(4, 1)));
    assert_eq!(acceptor.pull(), Pull::Pending);
}

#[test]
fn failed_handshake_takes_no_slot_of_a_full_queue() {
    let mut acceptor = Acceptor::with_capacity(1, Some(1));
    for conn in 1..=3 {
        acceptor.on_accept(AcceptEvent::Connection(conn));
    }
    acceptor.on_handshake(1, HandshakeEvent::Secured);
    assert_eq!(
        acceptor.on_handshake(2, HandshakeEvent::UpgradeFailed),
        HandshakeAction::ReportNegotiationFailure
    );
    assert_eq!(acceptor.ready(), 1);
    assert_eq!(acceptor.held(), 0);
    assert_eq!(acceptor.on_handshake(3, HandshakeEvent::Secured), HandshakeAction::Handed(Offer::Held));
    assert_eq!(acceptor.pull(), Pull::Item(secured(1, 1)));
    assert_eq!(acceptor.pull(), Pull::Item(secured(3, 1)));
    assert_eq!(acceptor.pull(), Pull::Pending);
}

#[test]
fn started_acceptor_listens_on_its_channel() {
    let mut acceptor = TlsIncoming::new(ConfigSlot::empty()).start();
    assert!(acceptor.is_listening());
    assert_eq!(acceptor.snapshot(), None);
    assert_eq!(acceptor.handshakes(), 0);
    assert_eq!(acceptor.pull(), Pull::Pending);
    assert_eq!(acceptor.on_accept(AcceptEvent::Connection(1)), AcceptAction::DropUnconfigured(1));

    let mut configured = TlsIncoming::new(ConfigSlot::holding(8)).start();
    assert_eq!(configured.snapshot(), Some(8));
    for conn in 0..11 {
        assert_eq!(configured.on_accept(AcceptEvent::Connection(conn)), negotiate(conn, 8));
        configured.on_handshake(conn, HandshakeEvent::Secured);
    }
    assert_eq!(configured.ready(), 10);
    assert_eq!(configured.held(), 1);
}

#[test]
fn failed_negotiation_and_expired_deadline_deliver_nothing() {
    let mut acceptor = Acceptor::new(Some(1));
    acceptor.on_accept(AcceptEvent::Connection(1));
    acceptor.on_accept(AcceptEvent::Connection(2));
    assert_eq!(
        acceptor.on_handshake(1, HandshakeEvent::HelloFailed),
        HandshakeAction::ReportNegotiationFailure
    );
    assert_eq!(
        acceptor.on_handshake(2, HandshakeEvent::DeadlineExpired),
        HandshakeAction::ReportDeadline
    );
    assert_eq!(acceptor.handshakes(), 0);
    assert_eq!(acceptor.ready(), 0);
    assert_eq!(acceptor.pull(), Pull::Pending);
}

#[test]
fn handshake_of_an_unknown_connection_changes_nothing() {
    let mut acceptor = Acceptor::new(Some(1));
    acceptor.on_accept(AcceptEvent::Connection(1));
    assert_eq!(
        acceptor.on_handshake(2, HandshakeEvent::Secured),
        HandshakeAction::Unknown
    );
    assert_eq!(acceptor.handshakes(), 1);
    assert_eq!(acceptor.ready(), 0);
    acceptor.on_handshake(1, HandshakeEvent::Secured);
    assert_eq!(
        acceptor.on_handshake(1, HandshakeEvent::Secured),
        HandshakeAction::Unknown
    );
    assert_eq!(acceptor.ready(), 1);
}

#[test]
fn sequence_ends_when_the_socket_closes_and_all_is_delivered() {
    let mut acceptor = Acceptor::new(Some(1));
    acceptor.on_accept(AcceptEvent::Connection(1));
    assert_eq!(acceptor.on_accept(AcceptEvent::Closed), AcceptAction::Stop);
    assert!(!acceptor.is_listening());
    assert_eq!(acceptor.on_accept(AcceptEvent::Connection(2)), AcceptAction::Stop);
    assert_eq!(acceptor.on_accept(AcceptEvent::TransientError), AcceptAction::Stop);
    assert_eq!(acceptor.handshakes(), 1);
    assert_eq!(acceptor.pull(), Pull::Pending);
    acceptor.on_handshake(1, HandshakeEvent::Secured);
    assert_eq!(acceptor.pull(), Pull::Item(secured(1, 1)));
    assert_eq!(acceptor.pull(), Pull::Ended);
    assert_eq!(acceptor.pull(), Pull::Ended);
}

#[test]
fn results_are_refused_once_the_consumer_is_gone() {
    let mut acceptor = Acceptor::with_capacity(1, Some(1));
    for conn in 1..=4 {
        acceptor.on_accept(AcceptEvent::Connection(conn));
    }
    acceptor.on_handshake(1, HandshakeEvent::Secured);
    acceptor.on_handshake(2, HandshakeEvent::Secured);
    acceptor.on_handshake(3, HandshakeEvent::Secured);
    assert_eq!(acceptor.consumer_gone(), 2);
    assert_eq!(acceptor.ready(), 0);
    assert_eq!(acceptor.held(), 0);
    assert_eq!(
        acceptor.on_handshake(4, HandshakeEvent::Secured),
        HandshakeAction::Handed(Offer::Rejected)
    );
    assert!(acceptor.is_listening());
    assert_eq!(acceptor.pull(), Pull::Ended);
}

#[test]
fn apply_answers_each_event_as_its_own_function_does() {
    let mut acceptor = Acceptor::with_capacity(1, None);
    let trace = [
        (Event::Pull, Reaction::Pull(Pull::Pending)),
        (
            Event::Accept(AcceptEvent::Connection(1)),
            Reaction::Accept(AcceptAction::DropUnconfigured(1)),
        ),
        (Event::Publish(Some(6)), Reaction::Published),
        (
            Event::Accept(AcceptEvent::Connection(2)),
            Reaction::Accept(negotiate(2, 6)),
        ),
        (Event::Accept(AcceptEvent::TransientError), Reaction::Accept(AcceptAction::ReportAcceptError(()))),
        (
            Event::Accept(AcceptEvent::Connection(3)),
            Reaction::Accept(negotiate(3, 6)),
        ),
        (
            Event::Handshake(3, HandshakeEvent::Secured),
            Reaction::Handshake(HandshakeAction::Handed(Offer::Delivered)),
        ),
        (
            Event::Accept(AcceptEvent::Connection(4)),
            Reaction::Accept(negotiate(4, 6)),
        ),
        (
            Event::Handshake(2, HandshakeEvent::Secured),
            Reaction::Handshake(HandshakeAction::Handed(Offer::Held)),
        ),
        (
            Event::Handshake(4, HandshakeEvent::UpgradeFailed),
            Reaction::Handshake(HandshakeAction::ReportNegotiationFailure),
        ),
        (Event::Pull, Reaction::Pull(Pull::Item(secured(3, 6)))),
        (Event::Accept(AcceptEvent::Closed), Reaction::Accept(AcceptAction::Stop)),
        (Event::Pull, Reaction::Pull(Pull::Item(secured(2, 6)))),
        (Event::Pull, Reaction::Pull(Pull::Ended)),
        (Event::ConsumerGone, Reaction::ConsumerGone(0)),
    ];
    for (event, expected) in trace {
        assert_eq!(acceptor.apply(event), expected);
    }
}

#[test]
fn same_connection_accepted_twice_ends_oldest_first() {
    let mut acceptor = Acceptor::new(Some(1));
    acceptor.on_accept(AcceptEvent::Connection(5));
    acceptor.publish(Some(2));
    acceptor.on_accept(AcceptEvent::Connection(5));
    acceptor.on_handshake(5, HandshakeEvent::Secured);
    acceptor.on_handshake(5, HandshakeEvent::Secured);
    assert_eq!(acceptor.pull(), Pull::Item(secured(5, 1)));
    assert_eq!(acceptor.pull(), Pull::Item(secured(5, 2)));
}

#[test]
fn long_trace_loses_and_reorders_nothing() {
    let mut acceptor = Acceptor::with_capacity(3, Some(0));
    let mut seed: u64 = 0x2545_F491_4F6C_DD1D;
    let mut config = Some(0u64);
    let mut next_conn = 0u64;
    let mut in_flight: Vec<Handshake> = Vec::new();
    let mut handed: Vec<Delivery> = Vec::new();
    let mut taken: Vec<Delivery> = Vec::new();
    for _ in 0..12000 {
        seed = seed.wrapping_mul(6364136223846793005).wrapping_add(1442695040888963407);
        let choice = (seed >> 33) % 6;
        let detail = seed >> 40;
        match choice {
            0 => {
                config = if detail % 4 == 0 { None } else { Some(detail % 100) };
                acceptor.publish(config);
            }
            1 => {
                let conn = next_conn;
                next_conn += 1;
                let action = acceptor.on_accept(AcceptEvent::Connection(conn));
                match config {
                    Some(config) => {
                        let task = Handshake { conn, config };
                        assert_eq!(action, negotiate(task.conn, task.config));
                        in_flight.push(task);
                    }
                    None => assert_eq!(action, AcceptAction::DropUnconfigured(conn)),
                }
            }
            2 | 3 => {
                if !in_flight.is_empty() {
                    let task = in_flight.remove(detail as usize % in_flight.len());
                    if detail % 7 == 0 {
                        assert_eq!(
                            acceptor.on_handshake(task.conn, HandshakeEvent::HelloFailed),
                            HandshakeAction::ReportNegotiationFailure
                        );
                    } else if detail % 5 == 0 {
                        assert_eq!(
                            acceptor.on_handshake(task.conn, HandshakeEvent::UpgradeFailed),
                            HandshakeAction::ReportNegotiationFailure
                        );
                    } else if detail % 11 == 0 {
                        assert_eq!(
                            acceptor.on_handshake(task.conn, HandshakeEvent::DeadlineExpired),
                            HandshakeAction::ReportDeadline
                        );
                    } else {
                        let full = acceptor.ready() == 3;
                        assert_eq!(
                            acceptor.on_handshake(task.conn, HandshakeEvent::Secured),
                            HandshakeAction::Handed(if full { Offer::Held } else { Offer::Delivered })
                        );
                        handed.push(Delivery { conn: task.conn, config: task.config });
                    }
                }
            }
            4 => {
                if let Pull::Item(item) = acceptor.pull() {
                    taken.push(item);
                }
            }
            _ => {
                assert_eq!(
                    acceptor.on_accept(AcceptEvent::TransientError),
                    AcceptAction::ReportAcceptError(())
                );
            }
        }
        assert!(acceptor.ready() <= 3);
        assert!(acceptor.held() == 0 || acceptor.ready() == 3);
        assert_eq!(acceptor.handshakes(), in_flight.len());
        assert_eq!(taken.len() + acceptor.ready() + acceptor.held(), handed.len());
        assert_eq!(taken[..], handed[..taken.len()]);
    }
    assert!(handed.len() > 500);
    while let Pull::Item(item) = acceptor.pull() {
        taken.push(item);
    }
    assert_eq!(taken, handed);
    assert!(acceptor.is_listening());
}
