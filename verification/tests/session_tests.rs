use clr_profiler::ControlRequests;
use clr_profiler::FinishReason;
use clr_profiler::NotificationEvent;
use clr_profiler::OutboundMessage;
use clr_profiler::Session;
use clr_profiler::SessionAction;
use clr_profiler::SessionState;
use clr_profiler::message_of;

fn fresh_session() -> Session {
    Session::new(321, String::from("engine --run"), String::from("/usr/bin/engine"))
}

fn event_a() -> NotificationEvent {
    NotificationEvent::ClassLoadFinished { time: 7, name: String::from("Alpha") }
}

/// Drives the session to Running, asserting the start-up protocol on the
/// way, and returns it.
fn running_session(mut s: Session) -> Session {
    assert!(matches!(s.step(), SessionAction::Connect));
    s.connect_result(true);
    match s.step() {
        SessionAction::Send(OutboundMessage::SessionStart { pid, cmd, path }) => {
            assert_eq!(pid, 321);
            assert_eq!(cmd, "engine --run");
            assert_eq!(path, "/usr/bin/engine");
        }
        other => panic!("expected the handshake, got {:?}", other),
    }
    s.handshake_result(Some(true));
    assert_eq!(s.current_state(), SessionState::Running);
    s
}

#[test]
fn queued_event_delivered_first_after_start() {
    let mut s = fresh_session();
    s.push_event(event_a());
    let mut s = running_session(s);
    match s.step() {
        SessionAction::Send(OutboundMessage::TimestampEvent { pid, time, payload }) => {
            assert_eq!(pid, 321);
            assert_eq!(time, 7);
            assert_eq!(payload, "Alpha");
        }
        other => panic!("expected the queued event first, got {:?}", other),
    }
    assert!(matches!(s.step(), SessionAction::Idle));
}

#[test]
fn connect_failure_retries() {
    let mut s = fresh_session();
    assert!(matches!(s.step(), SessionAction::Connect));
    s.connect_result(false);
    assert!(matches!(s.step(), SessionAction::Connect));
    assert_eq!(s.current_state(), SessionState::Pending);
}

#[test]
fn handshake_refusal_stops_without_draining() {
    let mut s = fresh_session();
    s.push_event(event_a());
    s.push_event(NotificationEvent::ThreadCreated { time: 8, os_id: 4 });
    assert!(matches!(s.step(), SessionAction::Connect));
    s.connect_result(true);
    assert!(matches!(
        s.step(),
        SessionAction::Send(OutboundMessage::SessionStart { .. })
    ));
    s.handshake_result(Some(false));
    assert_eq!(s.current_state(), SessionState::Stopped);
    assert_eq!(s.queued_events(), 2);
    assert!(matches!(s.step(), SessionAction::Halt));
    assert_eq!(s.queued_events(), 2);
}

#[test]
fn handshake_transport_failure_stops() {
    let mut s = fresh_session();
    assert!(matches!(s.step(), SessionAction::Connect));
    s.connect_result(true);
    assert!(matches!(
        s.step(),
        SessionAction::Send(OutboundMessage::SessionStart { .. })
    ));
    s.handshake_result(None);
    assert_eq!(s.current_state(), SessionState::Stopped);
    assert!(matches!(s.step(), SessionAction::Halt));
}

#[test]
fn shutdown_signal_twice_sends_one_finish() {
    let s = fresh_session();
    let mut s = running_session(s);
    s.signal_control(ControlRequests::Shutdown);
    match s.step() {
        SessionAction::Send(OutboundMessage::SessionFinish { pid, reason }) => {
            assert_eq!(pid, 321);
            assert_eq!(reason, FinishReason::LocalRequest);
        }
        other => panic!("expected the finish message, got {:?}", other),
    }
    assert_eq!(s.current_state(), SessionState::Stopped);
    assert!(matches!(s.step(), SessionAction::Halt));
    s.signal_control(ControlRequests::Shutdown);
    assert!(matches!(s.step(), SessionAction::Halt));
    assert!(matches!(s.step(), SessionAction::Halt));
}

#[test]
fn shutdown_without_transport_sends_nothing() {
    let mut s = fresh_session();
    s.signal_control(ControlRequests::Shutdown);
    assert!(matches!(s.step(), SessionAction::Halt));
    assert_eq!(s.current_state(), SessionState::Stopped);
}

#[test]
fn shutdown_outranks_queued_events() {
    let s = fresh_session();
    let mut s = running_session(s);
    s.push_event(event_a());
    s.signal_control(ControlRequests::Shutdown);
    assert!(matches!(
        s.step(),
        SessionAction::Send(OutboundMessage::SessionFinish { .. })
    ));
    assert!(matches!(s.step(), SessionAction::Halt));
}

#[test]
fn producer_lost_drains_all_then_finishes() {
    let mut s = fresh_session();
    s.push_event(NotificationEvent::ClassLoadFinished { time: 1, name: String::from("One") });
    s.push_event(NotificationEvent::ThreadCreated { time: 2, os_id: 11 });
    s.push_event(NotificationEvent::ExceptionThrown { time: 3, name: String::from("Three") });
    let mut s = running_session(s);
    s.drop_producer();
    match s.step() {
        SessionAction::Send(OutboundMessage::TimestampEvent { time, payload, .. }) => {
            assert_eq!(time, 1);
            assert_eq!(payload, "One");
        }
        other => panic!("expected the first event, got {:?}", other),
    }
    match s.step() {
        SessionAction::Send(OutboundMessage::TimestampIdEvent { time, id, .. }) => {
            assert_eq!(time, 2);
            assert_eq!(id, 11);
        }
        other => panic!("expected the second event, got {:?}", other),
    }
    match s.step() {
        SessionAction::Send(OutboundMessage::TimestampEvent { time, payload, .. }) => {
            assert_eq!(time, 3);
            assert_eq!(payload, "Three");
        }
        other => panic!("expected the third event, got {:?}", other),
    }
    match s.step() {
        SessionAction::Send(OutboundMessage::SessionFinish { reason, .. }) => {
            assert_eq!(reason, FinishReason::ProducerLost);
        }
        other => panic!("expected the finish message, got {:?}", other),
    }
    assert_eq!(s.current_state(), SessionState::Stopped);
    assert!(matches!(s.step(), SessionAction::Halt));
}

#[test]
fn message_mapping_is_exact() {
    let m = message_of(5, NotificationEvent::JitFinished { time: 9, name: String::from("M") });
    assert!(matches!(
        m,
        OutboundMessage::TimestampEvent { pid: 5, time: 9, .. }
    ));
    let m2 = message_of(5, NotificationEvent::ThreadDestroyed { time: 4, os_id: 77 });
    assert!(matches!(
        m2,
        OutboundMessage::TimestampIdEvent { pid: 5, time: 4, id: 77 }
    ));
    let m3 = message_of(
        6,
        NotificationEvent::ObjectAllocated {
            time: 1,
            object_id: 2,
            size: 3,
            class_name: String::from("C"),
            generation: Some(0),
        },
    );
    match m3 {
        OutboundMessage::ObjectAllocated { pid, time, object_id, size, class_name, generation } => {
            assert_eq!((pid, time, object_id, size), (6, 1, 2, 3));
            assert_eq!(class_name, "C");
            assert_eq!(generation, Some(0));
        }
        other => panic!("unexpected message: {:?}", other),
    }
    let m4 = message_of(
        6,
        NotificationEvent::GenerationsUpdate { time: 2, objects: vec![(1, None), (2, Some(1))] },
    );
    match m4 {
        OutboundMessage::GenerationsUpdate { pid, time, objects } => {
            assert_eq!((pid, time), (6, 2));
            assert_eq!(objects, vec![(1, None), (2, Some(1))]);
        }
        other => panic!("unexpected message: {:?}", other),
    }
}
