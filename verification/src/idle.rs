//! The idle timeout monitor.
//!
//! A monitor is either active or expired, and expired is final. It is told
//! the time with every call, as a count of ticks from an origin that the
//! caller chooses; it never reads a clock. While active it counts down
//! `timeout` ticks from the last sign of activity and expires when they have
//! passed.
//!
//! A monitor that probes also splits the timeout into ten equal windows. At
//! the end of a window it asks for a liveness probe, a look at the client
//! socket that consumes nothing. A peer that has closed ends the session at
//! once. A peer that is merely quiet starts the next window and leaves the
//! deadline where it was. A peer with data waiting has shown that it is alive,
//! which counts as activity.

use crate::error::RelayError;
use vstd::prelude::*;

verus! {

/// How many ticks make a second: the monitor counts in milliseconds.
pub const TICKS_PER_SECOND: u64 = 1000;

/// `seconds` in ticks; the largest number of ticks there is where the
/// product is beyond it.
pub open spec fn spec_ticks(seconds: u64) -> u64 {
    if seconds * TICKS_PER_SECOND > u64::MAX {
        u64::MAX
    } else {
        (seconds * TICKS_PER_SECOND) as u64
    }
}

/// Converts a timeout in seconds, as the settings give it, to ticks.
#[verifier::when_used_as_spec(spec_ticks)]
pub fn ticks(seconds: u64) -> (ticks: u64)
    ensures
        ticks == spec_ticks(seconds),
{
    match seconds.checked_mul(TICKS_PER_SECOND) {
        Some(product) => product,
        None => u64::MAX,
    }
}

/// The state of an idle timeout monitor. All times are in ticks.
pub struct IdleMonitor {
    /// How long the session may stay without activity.
    pub timeout: u64,
    /// Whether liveness probes were asked for.
    pub probing: bool,
    /// When the countdown was last started: at creation, or at the last
    /// activity.
    pub idle_since: u64,
    /// When the current window began: at the last activity or the last probe.
    pub quiet_since: u64,
    /// Whether the monitor has expired.
    pub expired: bool,
}

/// What a liveness probe saw on the client socket.
#[derive(Debug)]
pub enum ProbeOutcome {
    /// This many bytes are waiting to be read. None means that the peer has
    /// closed the connection.
    Peeked(usize),
    /// Nothing is waiting, and the connection is open as far as can be told.
    Quiet,
    /// The probe itself failed.
    Failed(std::io::Error),
}

/// What the monitor asks of the session.
#[derive(Debug)]
pub enum MonitorAction {
    /// Nothing is due. Come back at [`IdleMonitor::wake_at`].
    Wait,
    /// A window has passed without activity: probe the client socket and
    /// report with [`IdleMonitor::on_probe`].
    Probe,
    /// The monitor has just expired, for this reason. End the session.
    Expired(RelayError),
    /// The monitor had expired before: there is nothing more to report.
    Over,
}

impl IdleMonitor {
    /// The monitor as it is created at time `now`.
    pub open spec fn started(timeout: u64, probing: bool, now: u64) -> IdleMonitor {
        IdleMonitor { timeout, probing, idle_since: now, quiet_since: now, expired: false }
    }

    /// The length of one probing window: a tenth of the timeout.
    pub open spec fn window(self) -> u64 {
        self.timeout / 10
    }

    /// Whether the monitor asks for probes. A timeout of fewer than ten ticks
    /// has no windows, so there is nothing to probe between.
    pub open spec fn probes(self) -> bool {
        self.probing && self.timeout >= 10
    }

    pub open spec fn spec_deadline(&self) -> u64 {
        self.idle_since.saturating_add(self.timeout)
    }

    /// When the current window ends.
    pub open spec fn next_probe(self) -> u64 {
        self.quiet_since.saturating_add(self.window())
    }

    pub open spec fn spec_wake_at(&self) -> u64 {
        if self.probes() && self.next_probe() < self.deadline() {
            self.next_probe()
        } else {
            self.deadline()
        }
    }

    /// The monitor after activity was seen at `now`: the countdown starts
    /// again. An expired monitor stays as it is.
    pub open spec fn after_activity(self, now: u64) -> IdleMonitor {
        if self.expired {
            self
        } else {
            IdleMonitor { idle_since: now, quiet_since: now, ..self }
        }
    }

    /// What the monitor says when asked at time `now`.
    pub open spec fn timer_reply(self, now: u64) -> MonitorAction {
        if self.expired {
            MonitorAction::Over
        } else if now >= self.deadline() {
            MonitorAction::Expired(RelayError::Timeout)
        } else if self.probes() && now >= self.next_probe() {
            MonitorAction::Probe
        } else {
            MonitorAction::Wait
        }
    }

    /// The monitor after it was asked at time `now`.
    pub open spec fn after_timer(self, now: u64) -> IdleMonitor {
        if !self.expired && now >= self.deadline() {
            IdleMonitor { expired: true, ..self }
        } else {
            self
        }
    }

    /// What the monitor says to the outcome of a probe, reported at `now`.
    pub open spec fn probe_reply(self, outcome: ProbeOutcome, now: u64) -> MonitorAction {
        if self.expired {
            MonitorAction::Over
        } else {
            match outcome {
                ProbeOutcome::Peeked(n) => if n == 0 {
                    MonitorAction::Expired(RelayError::ConnectionAborted)
                } else {
                    MonitorAction::Wait
                },
                ProbeOutcome::Quiet => if now >= self.deadline() {
                    MonitorAction::Expired(RelayError::Timeout)
                } else {
                    MonitorAction::Wait
                },
                ProbeOutcome::Failed(e) => MonitorAction::Expired(RelayError::Read(e)),
            }
        }
    }

    /// The monitor after the outcome of a probe was reported at `now`.
    pub open spec fn after_probe(self, outcome: ProbeOutcome, now: u64) -> IdleMonitor {
        if self.expired {
            self
        } else {
            match outcome {
                ProbeOutcome::Peeked(n) => if n == 0 {
                    IdleMonitor { expired: true, ..self }
                } else {
                    self.after_activity(now)
                },
                ProbeOutcome::Quiet => if now >= self.deadline() {
                    IdleMonitor { expired: true, ..self }
                } else {
                    IdleMonitor { quiet_since: now, ..self }
                },
                ProbeOutcome::Failed(_) => IdleMonitor { expired: true, ..self },
            }
        }
    }

    /// Starts a monitor at time `now`: active, with `timeout` ticks to go.
    pub fn new(timeout: u64, probing: bool, now: u64) -> (monitor: IdleMonitor)
        ensures
            monitor == Self::started(timeout, probing, now),
    {
        IdleMonitor { timeout, probing, idle_since: now, quiet_since: now, expired: false }
    }

    /// Whether the monitor has expired.
    pub fn is_expired(&self) -> (expired: bool)
        ensures
            expired == self.expired,
    {
        self.expired
    }

    /// The time at which the monitor expires if nothing happens before: the
    /// start of the countdown plus the timeout, or the largest time there is
    /// where that sum is beyond it.
    #[verifier::when_used_as_spec(spec_deadline)]
    pub fn deadline(&self) -> (at: u64)
        ensures
            at == self.spec_deadline(),
    {
        self.idle_since.saturating_add(self.timeout)
    }

    /// The time at which to ask the monitor next: the end of the current
    /// window if the monitor probes and the window ends before the deadline,
    /// else the deadline.
    #[verifier::when_used_as_spec(spec_wake_at)]
    pub fn wake_at(&self) -> (at: u64)
        ensures
            at == self.spec_wake_at(),
            at <= self.deadline(),
    {
        let deadline = self.deadline();
        let window: u64 = self.timeout / 10;
        let next_probe = self.quiet_since.saturating_add(window);
        if self.probing && self.timeout >= 10 && next_probe < deadline {
            next_probe
        } else {
            deadline
        }
    }

    /// Records activity seen at `now`: the countdown starts again.
    pub fn on_activity(&mut self, now: u64)
        ensures
            *final(self) == old(self).after_activity(now),
    {
        if !self.expired {
            self.idle_since = now;
            self.quiet_since = now;
        }
    }

    /// Asks the monitor at time `now`. It expires, with
    /// [`RelayError::Timeout`], exactly when it is active and the deadline is
    /// reached.
    pub fn on_timer(&mut self, now: u64) -> (action: MonitorAction)
        ensures
            action == old(self).timer_reply(now),
            *final(self) == old(self).after_timer(now),
    {
        if self.expired {
            MonitorAction::Over
        } else if now >= self.deadline() {
            self.expired = true;
            MonitorAction::Expired(RelayError::Timeout)
        } else if self.probing && self.timeout >= 10 && now >= self.quiet_since.saturating_add(
            self.timeout / 10,
        ) {
            MonitorAction::Probe
        } else {
            MonitorAction::Wait
        }
    }

    /// Reports at `now` what a liveness probe saw.
    pub fn on_probe(&mut self, outcome: ProbeOutcome, now: u64) -> (action: MonitorAction)
        ensures
            action == old(self).probe_reply(outcome, now),
            *final(self) == old(self).after_probe(outcome, now),
    {
        if self.expired {
            return MonitorAction::Over;
        }
        match outcome {
            ProbeOutcome::Peeked(n) => {
                if n == 0 {
                    self.expired = true;
                    MonitorAction::Expired(RelayError::ConnectionAborted)
                } else {
                    self.on_activity(now);
                    MonitorAction::Wait
                }
            },
            ProbeOutcome::Quiet => {
                if now >= self.deadline() {
                    self.expired = true;
                    MonitorAction::Expired(RelayError::Timeout)
                } else {
                    self.quiet_since = now;
                    MonitorAction::Wait
                }
            },
            ProbeOutcome::Failed(e) => {
                self.expired = true;
                MonitorAction::Expired(RelayError::Read(e))
            },
        }
    }
}

/// Expired is final: an expired monitor does not change, and reports no
/// second error.
pub proof fn lemma_expired_is_final(monitor: IdleMonitor, outcome: ProbeOutcome, now: u64)
    requires
        monitor.expired,
    ensures
        monitor.after_activity(now) == monitor,
        monitor.after_timer(now) == monitor,
        monitor.after_probe(outcome, now) == monitor,
        monitor.timer_reply(now) == MonitorAction::Over,
        monitor.probe_reply(outcome, now) == MonitorAction::Over,
{
}

/// An expired monitor stays expired, and a monitor expires only in a step
/// that answers [`MonitorAction::Expired`].
pub proof fn lemma_expires_once(monitor: IdleMonitor, outcome: ProbeOutcome, now: u64)
    ensures
        monitor.after_activity(now).expired == monitor.expired,
        monitor.after_timer(now).expired == (monitor.expired || monitor.timer_reply(now)
            is Expired),
        monitor.after_probe(outcome, now).expired == (monitor.expired || monitor.probe_reply(
            outcome,
            now,
        ) is Expired),
{
}

/// Idle teardown: a monitor that sees no activity for the whole timeout
/// expires with [`RelayError::Timeout`] when asked at the deadline or later,
/// and not before. The deadline is the start plus the timeout, or the largest
/// time there is where that sum is beyond it. The caller is never told to
/// sleep past the deadline.
pub proof fn lemma_idle_teardown(timeout: u64, probing: bool, start: u64, now: u64)
    ensures
        ({
            let monitor = IdleMonitor::started(timeout, probing, start);
            &&& monitor.deadline() == start.saturating_add(timeout)
            &&& start + timeout <= u64::MAX ==> monitor.deadline() == start + timeout
            &&& monitor.wake_at() <= monitor.deadline()
            &&& now >= monitor.deadline() ==> monitor.timer_reply(now) == MonitorAction::Expired(
                RelayError::Timeout,
            )
            &&& now < monitor.deadline() ==> !(monitor.timer_reply(now) is Expired)
        }),
{
}

/// A quiet peer does not buy time: a probe that finds the connection open
/// but silent leaves the deadline where it was, and starts the next window.
pub proof fn lemma_quiet_probe_keeps_deadline(monitor: IdleMonitor, now: u64)
    requires
        !monitor.expired,
        now < monitor.deadline(),
    ensures
        monitor.after_probe(ProbeOutcome::Quiet, now).deadline() == monitor.deadline(),
        monitor.after_probe(ProbeOutcome::Quiet, now).quiet_since == now,
        !monitor.after_probe(ProbeOutcome::Quiet, now).expired,
{
}

/// Traffic keeps a session alive, however long it has run: after activity at
/// `seen`, or after a probe at `seen` that found data waiting, the deadline
/// is one timeout after `seen`, and the monitor does not expire when asked
/// before it.
pub proof fn lemma_traffic_extends(monitor: IdleMonitor, seen: u64, waiting: usize, now: u64)
    requires
        !monitor.expired,
        waiting > 0,
    ensures
        monitor.after_activity(seen).deadline() == seen.saturating_add(monitor.timeout),
        monitor.after_probe(ProbeOutcome::Peeked(waiting), seen) == monitor.after_activity(seen),
        monitor.probe_reply(ProbeOutcome::Peeked(waiting), seen) == MonitorAction::Wait,
        now < seen.saturating_add(monitor.timeout) ==> {
            &&& !(monitor.after_activity(seen).timer_reply(now) is Expired)
            &&& !(monitor.after_activity(seen).timer_reply(now) is Over)
        },
{
}

/// A peer that has gone is noticed within one window: a probing monitor asks
/// for a probe as soon as a window has passed, a window is a tenth of the
/// timeout, and a probe that finds the connection closed expires the monitor
/// at once, whatever the time.
pub proof fn lemma_closed_peer_aborts(monitor: IdleMonitor, now: u64)
    requires
        !monitor.expired,
    ensures
        monitor.probe_reply(ProbeOutcome::Peeked(0), now) == MonitorAction::Expired(
            RelayError::ConnectionAborted,
        ),
        monitor.after_probe(ProbeOutcome::Peeked(0), now).expired,
        monitor.probes() && monitor.next_probe() <= now < monitor.deadline()
            ==> monitor.timer_reply(now) == MonitorAction::Probe,
        monitor.next_probe() == monitor.quiet_since.saturating_add(monitor.timeout / 10),
{
}

} // verus!
