use relay_core::addr::{IpAddress, SocketAddress};
use relay_core::config::{Protocol, Route};
use relay_core::error::RelayError;
use relay_core::idle::ProbeOutcome;
use relay_core::pipe::{PumpAction, PumpEvent, ReadOutcome, WriteOutcome};
use relay_core::tcp::{
    establish, stream_handler, Direction, SessionAction, SessionEvent, TcpSession,
    TcpWriterGeneric,
};
use std::io::{Error, ErrorKind};
use std::pin::Pin;

fn read(direction: Direction, bytes: &[u8]) -> SessionEvent {
    SessionEvent::Pump(direction, PumpEvent::Read(ReadOutcome::Data(bytes.to_vec())))
}

fn wrote(direction: Direction, n: usize) -> SessionEvent {
    SessionEvent::Pump(direction, PumpEvent::Write(WriteOutcome::Accepted(n)))
}

#[test]
fn ping_is_echoed_and_silence_closes_the_session() {
    let route = Route {
        protocol: Protocol::Tcp,
        listen: SocketAddress::new(IpAddress::V4(0), 9000),
        target: SocketAddress::new(IpAddress::V4(0x7f00_0001), 9100),
        idle_timeout: 5,
        buffer_size: 8192,
        coalescing: false,
        probe_liveness: false,
        mailbox_capacity: 0,
    };
    let mut session = route.session(Ok(()), 0).unwrap();
    assert_eq!(session.wake_at(), 5000);

    // The client sends "PING"; the target receives it.
    let action = stream_handler(&mut session, read(Direction::Outbound, b"PING"), 10).unwrap();
    assert!(matches!(action, SessionAction::Continue));
    assert!(matches!(
        session.demand(Direction::Outbound),
        Some(PumpAction::Write { len: 4 })
    ));
    assert_eq!(session.pending(Direction::Outbound), b"PING");
    stream_handler(&mut session, wrote(Direction::Outbound, 4), 11).unwrap();

    // The target echoes "PING"; the client receives it.
    stream_handler(&mut session, read(Direction::Inbound, b"PING"), 20).unwrap();
    assert_eq!(session.pending(Direction::Inbound), b"PING");
    assert!(session.pending(Direction::Outbound).is_empty());
    stream_handler(&mut session, wrote(Direction::Inbound, 4), 21).unwrap();
    assert!(session.pending(Direction::Inbound).is_empty());

    // The client goes silent for five seconds.
    assert_eq!(session.wake_at(), 5020);
    let action = stream_handler(&mut session, SessionEvent::Timer, 5019).unwrap();
    assert!(matches!(action, SessionAction::Continue));
    assert!(!session.is_closed());
    let action = stream_handler(&mut session, SessionEvent::Timer, 5020).unwrap();
    assert!(matches!(action, SessionAction::Close(RelayError::Timeout)));
    assert!(session.is_closed());

    // Nothing follows the one terminating error.
    assert!(stream_handler(&mut session, SessionEvent::Timer, 6000).is_err());
    assert!(stream_handler(&mut session, read(Direction::Outbound, b"late"), 6001).is_err());
    assert!(session.demand(Direction::Outbound).is_none());
    assert!(session.demand(Direction::Inbound).is_none());
}

#[test]
fn session_without_traffic_times_out_once() {
    let mut session = TcpSession::new(3000, 64, true, false, 500);
    assert!(matches!(
        stream_handler(&mut session, SessionEvent::Timer, 3499).unwrap(),
        SessionAction::Continue
    ));
    assert!(matches!(
        stream_handler(&mut session, SessionEvent::Timer, 3500).unwrap(),
        SessionAction::Close(RelayError::Timeout)
    ));
    let refused = stream_handler(&mut session, SessionEvent::Timer, 3501).unwrap_err();
    assert!(matches!(refused, SessionEvent::Timer));
    let refused =
        stream_handler(&mut session, SessionEvent::Probe(ProbeOutcome::Peeked(0)), 3502)
            .unwrap_err();
    assert!(matches!(refused, SessionEvent::Probe(ProbeOutcome::Peeked(0))));
}

#[test]
fn failed_connect_ends_the_session_before_it_starts() {
    let failure = Error::new(ErrorKind::ConnectionRefused, "refused");
    match establish(Err(failure), 5000, 8192, false, false, 0) {
        Err(RelayError::Connect(e)) => assert_eq!(e.kind(), ErrorKind::ConnectionRefused),
        Err(other) => panic!("unexpected error: {:?}", other),
        Ok(_) => panic!("a session began without a connection"),
    }
}

#[test]
fn established_session_starts_both_pumps_reading() {
    let session = establish(Ok(()), 5000, 100, true, true, 7).unwrap();
    assert!(!session.is_closed());
    assert!(matches!(
        session.demand(Direction::Outbound),
        Some(PumpAction::Read { limit: 100, wait: true })
    ));
    assert!(matches!(
        session.demand(Direction::Inbound),
        Some(PumpAction::Read { limit: 100, wait: true })
    ));
    // A probing session wakes after a tenth of the timeout.
    assert_eq!(session.wake_at(), 507);
}

#[test]
fn the_two_directions_do_not_mix() {
    let mut session = TcpSession::new(5000, 16, true, false, 0);
    stream_handler(&mut session, read(Direction::Outbound, b"to target"), 1).unwrap();
    stream_handler(&mut session, read(Direction::Inbound, b"to client"), 2).unwrap();
    assert_eq!(session.pending(Direction::Outbound), b"to target");
    assert_eq!(session.pending(Direction::Inbound), b"to client");
    stream_handler(
        &mut session,
        SessionEvent::Pump(Direction::Inbound, PumpEvent::Read(ReadOutcome::NotReady)),
        3,
    )
    .unwrap();
    stream_handler(&mut session, wrote(Direction::Inbound, 9), 4).unwrap();
    assert_eq!(session.pending(Direction::Outbound), b"to target");
    assert!(session.pending(Direction::Inbound).is_empty());
    assert!(matches!(
        session.demand(Direction::Outbound),
        Some(PumpAction::Read { limit: 7, wait: false })
    ));
}

#[test]
fn end_of_stream_in_one_direction_ends_the_whole_session() {
    let mut session = TcpSession::new(5000, 16, false, false, 0);
    stream_handler(&mut session, read(Direction::Inbound, b"reply"), 1).unwrap();
    let action = stream_handler(&mut session, read(Direction::Outbound, b""), 2).unwrap();
    assert!(matches!(action, SessionAction::Close(RelayError::PipeClosed)));
    assert!(session.is_closed());
    assert!(stream_handler(&mut session, wrote(Direction::Inbound, 5), 3).is_err());
}

#[test]
fn write_failure_ends_the_session_with_that_failure() {
    let mut session = TcpSession::new(5000, 16, false, false, 0);
    stream_handler(&mut session, read(Direction::Outbound, b"abc"), 1).unwrap();
    let failure = Error::new(ErrorKind::BrokenPipe, "broken");
    let event =
        SessionEvent::Pump(Direction::Outbound, PumpEvent::Write(WriteOutcome::Failed(failure)));
    match stream_handler(&mut session, event, 2).unwrap() {
        SessionAction::Close(RelayError::Write(e)) => assert_eq!(e.kind(), ErrorKind::BrokenPipe),
        other => panic!("unexpected action: {:?}", other),
    }
}

#[test]
fn reads_with_bytes_restart_the_idle_countdown() {
    let mut session = TcpSession::new(5000, 16, false, false, 0);
    stream_handler(&mut session, read(Direction::Inbound, b"x"), 4000).unwrap();
    assert_eq!(session.wake_at(), 9000);
    // A write is no activity.
    stream_handler(&mut session, wrote(Direction::Inbound, 1), 4500).unwrap();
    assert_eq!(session.wake_at(), 9000);
    assert!(matches!(
        stream_handler(&mut session, SessionEvent::Timer, 8999).unwrap(),
        SessionAction::Continue
    ));
    assert!(matches!(
        stream_handler(&mut session, SessionEvent::Timer, 9000).unwrap(),
        SessionAction::Close(RelayError::Timeout)
    ));
}

#[test]
fn event_for_a_pump_that_waits_for_something_else_is_refused() {
    let mut session = TcpSession::new(5000, 4, false, false, 0);
    assert!(!session.expects(&wrote(Direction::Outbound, 1)));
    let refused = stream_handler(&mut session, wrote(Direction::Outbound, 1), 1).unwrap_err();
    assert!(matches!(
        refused,
        SessionEvent::Pump(Direction::Outbound, PumpEvent::Write(WriteOutcome::Accepted(1)))
    ));
    assert!(!session.is_closed());
    assert!(session.expects(&read(Direction::Outbound, b"1234")));
    assert!(!session.expects(&read(Direction::Outbound, b"12345")));
    assert!(session.expects(&SessionEvent::Timer));
}

#[test]
fn probing_session_asks_for_a_probe_and_aborts_on_a_closed_peer() {
    let mut session = TcpSession::new(5000, 16, false, true, 0);
    assert_eq!(session.wake_at(), 500);
    assert!(matches!(
        stream_handler(&mut session, SessionEvent::Timer, 500).unwrap(),
        SessionAction::Probe
    ));
    assert!(matches!(
        stream_handler(&mut session, SessionEvent::Probe(ProbeOutcome::Quiet), 501).unwrap(),
        SessionAction::Continue
    ));
    assert_eq!(session.wake_at(), 1001);
    assert!(matches!(
        stream_handler(&mut session, SessionEvent::Timer, 1001).unwrap(),
        SessionAction::Probe
    ));
    let action =
        stream_handler(&mut session, SessionEvent::Probe(ProbeOutcome::Peeked(0)), 1002).unwrap();
    assert!(matches!(action, SessionAction::Close(RelayError::ConnectionAborted)));
    assert!(session.is_closed());
}

#[test]
fn writer_handle_gives_back_what_it_wraps() {
    let mut sink: Vec<u8> = vec![1, 2, 3];
    let writer = TcpWriterGeneric::new(Pin::new(&mut sink));
    assert_eq!(writer.hr.len(), 3);
    let mut inner = writer.into_inner();
    inner.push(4);
    assert_eq!(sink, vec![1, 2, 3, 4]);
}
