use relay_core::error::RelayError;
use relay_core::idle::{ticks, IdleMonitor, MonitorAction, ProbeOutcome, TICKS_PER_SECOND};
use std::io::{Error, ErrorKind};

#[test]
fn seconds_are_a_thousand_ticks_each() {
    assert_eq!(TICKS_PER_SECOND, 1000);
    assert_eq!(ticks(0), 0);
    assert_eq!(ticks(5), 5000);
    assert_eq!(ticks(u64::MAX / 1000), 18_446_744_073_709_551_000);
    assert_eq!(ticks(u64::MAX / 1000 + 1), u64::MAX);
    assert_eq!(ticks(u64::MAX), u64::MAX);
}

#[test]
fn new_monitor_counts_from_its_start() {
    let monitor = IdleMonitor::new(5000, false, 100);
    assert!(!monitor.is_expired());
    assert_eq!(monitor.deadline(), 5100);
    assert_eq!(monitor.wake_at(), 5100);
}

#[test]
fn monitor_expires_at_the_deadline_and_not_before() {
    let mut monitor = IdleMonitor::new(5000, false, 100);
    assert!(matches!(monitor.on_timer(100), MonitorAction::Wait));
    assert!(matches!(monitor.on_timer(5099), MonitorAction::Wait));
    assert!(!monitor.is_expired());
    assert!(matches!(monitor.on_timer(5100), MonitorAction::Expired(RelayError::Timeout)));
    assert!(monitor.is_expired());
}

#[test]
fn expired_monitor_reports_nothing_more() {
    let mut monitor = IdleMonitor::new(10, true, 0);
    assert!(matches!(monitor.on_timer(10), MonitorAction::Expired(RelayError::Timeout)));
    assert!(matches!(monitor.on_timer(11), MonitorAction::Over));
    assert!(matches!(monitor.on_timer(u64::MAX), MonitorAction::Over));
    assert!(matches!(monitor.on_probe(ProbeOutcome::Peeked(0), 12), MonitorAction::Over));
    assert!(matches!(monitor.on_probe(ProbeOutcome::Quiet, 12), MonitorAction::Over));
    monitor.on_activity(13);
    assert!(monitor.is_expired());
    assert_eq!(monitor.deadline(), 10);
}

#[test]
fn activity_restarts_the_countdown() {
    let mut monitor = IdleMonitor::new(5000, false, 0);
    monitor.on_activity(4000);
    assert_eq!(monitor.deadline(), 9000);
    assert!(matches!(monitor.on_timer(5000), MonitorAction::Wait));
    assert!(matches!(monitor.on_timer(8999), MonitorAction::Wait));
    monitor.on_activity(8999);
    assert_eq!(monitor.deadline(), 13_999);
    assert!(matches!(monitor.on_timer(13_999), MonitorAction::Expired(RelayError::Timeout)));
}

#[test]
fn steady_traffic_outlives_the_nominal_timeout() {
    let mut monitor = IdleMonitor::new(5000, true, 0);
    let mut now = 0;
    while now < 60_000 {
        now += 400;
        monitor.on_activity(now);
        assert!(matches!(monitor.on_timer(now + 399), MonitorAction::Wait));
    }
    assert!(!monitor.is_expired());
    assert_eq!(monitor.deadline(), now + 5000);
}

#[test]
fn deadline_stops_at_the_largest_time() {
    let mut monitor = IdleMonitor::new(u64::MAX, false, 7);
    assert_eq!(monitor.deadline(), u64::MAX);
    assert!(matches!(monitor.on_timer(u64::MAX - 1), MonitorAction::Wait));
    assert!(matches!(monitor.on_timer(u64::MAX), MonitorAction::Expired(RelayError::Timeout)));
}

#[test]
fn zero_timeout_expires_at_once() {
    let mut monitor = IdleMonitor::new(0, false, 42);
    assert_eq!(monitor.deadline(), 42);
    assert!(matches!(monitor.on_timer(42), MonitorAction::Expired(RelayError::Timeout)));
}

#[test]
fn probing_monitor_wakes_after_a_tenth_of_the_timeout() {
    let mut monitor = IdleMonitor::new(5000, true, 1000);
    assert_eq!(monitor.wake_at(), 1500);
    assert!(matches!(monitor.on_timer(1499), MonitorAction::Wait));
    assert!(matches!(monitor.on_timer(1500), MonitorAction::Probe));
    assert!(!monitor.is_expired());
}

#[test]
fn monitor_that_does_not_probe_never_asks_for_a_probe() {
    let mut monitor = IdleMonitor::new(5000, false, 0);
    assert!(matches!(monitor.on_timer(500), MonitorAction::Wait));
    assert!(matches!(monitor.on_timer(4999), MonitorAction::Wait));
}

#[test]
fn timeout_shorter_than_ten_ticks_has_no_windows() {
    let mut monitor = IdleMonitor::new(9, true, 0);
    assert_eq!(monitor.wake_at(), 9);
    assert!(matches!(monitor.on_timer(0), MonitorAction::Wait));
    assert!(matches!(monitor.on_timer(8), MonitorAction::Wait));
    assert!(matches!(monitor.on_timer(9), MonitorAction::Expired(RelayError::Timeout)));
}

#[test]
fn closed_peer_ends_the_session_in_the_middle_of_the_timeout() {
    let mut monitor = IdleMonitor::new(5000, true, 0);
    assert!(matches!(monitor.on_timer(500), MonitorAction::Probe));
    let action = monitor.on_probe(ProbeOutcome::Peeked(0), 500);
    assert!(matches!(action, MonitorAction::Expired(RelayError::ConnectionAborted)));
    assert!(monitor.is_expired());
}

#[test]
fn quiet_peer_starts_the_next_window_but_keeps_the_deadline() {
    let mut monitor = IdleMonitor::new(5000, true, 0);
    let mut now = 0;
    for window in 1..10 {
        now = window * 500;
        assert_eq!(monitor.wake_at(), now);
        assert!(matches!(monitor.on_timer(now), MonitorAction::Probe));
        assert!(matches!(monitor.on_probe(ProbeOutcome::Quiet, now), MonitorAction::Wait));
        assert_eq!(monitor.deadline(), 5000);
    }
    assert_eq!(now, 4500);
    assert_eq!(monitor.wake_at(), 5000);
    assert!(matches!(monitor.on_timer(5000), MonitorAction::Expired(RelayError::Timeout)));
}

#[test]
fn quiet_probe_reported_after_the_deadline_times_out() {
    let mut monitor = IdleMonitor::new(5000, true, 0);
    let action = monitor.on_probe(ProbeOutcome::Quiet, 5000);
    assert!(matches!(action, MonitorAction::Expired(RelayError::Timeout)));
    assert!(monitor.is_expired());
}

#[test]
fn peer_with_data_waiting_counts_as_activity() {
    let mut monitor = IdleMonitor::new(5000, true, 0);
    assert!(matches!(monitor.on_timer(4500), MonitorAction::Probe));
    assert!(matches!(monitor.on_probe(ProbeOutcome::Peeked(1), 4500), MonitorAction::Wait));
    assert_eq!(monitor.deadline(), 9500);
    assert_eq!(monitor.wake_at(), 5000);
    assert!(matches!(monitor.on_timer(5000), MonitorAction::Probe));
    assert!(matches!(monitor.on_timer(9499), MonitorAction::Probe));
    assert!(matches!(monitor.on_timer(9500), MonitorAction::Expired(RelayError::Timeout)));
}

#[test]
fn failed_probe_ends_the_session_with_the_failure() {
    let mut monitor = IdleMonitor::new(5000, true, 0);
    let failure = Error::new(ErrorKind::ConnectionReset, "reset");
    match monitor.on_probe(ProbeOutcome::Failed(failure), 700) {
        MonitorAction::Expired(RelayError::Read(e)) => {
            assert_eq!(e.kind(), ErrorKind::ConnectionReset)
        }
        other => panic!("unexpected answer: {:?}", other),
    }
    assert!(monitor.is_expired());
}
