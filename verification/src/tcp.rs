//! The relay engine of one TCP session.
//!
//! A session joins a client connection to a target connection. It runs two
//! pumps, one for each direction, and an idle timeout monitor that both
//! directions feed. Whatever ends first ends the session: a pump that stops,
//! or the monitor that expires. The session then reports its one terminating
//! error, and the caller shuts both connections down.

use crate::error::RelayError;
use crate::idle::{IdleMonitor, ProbeOutcome, MonitorAction};
use crate::pipe::{copy, Pump, PumpAction, PumpEvent, PumpMode, PumpState, Stage};
use std::pin::Pin;
use vstd::prelude::*;

verus! {

/// `std::pin::Pin`, which [`TcpWriterGeneric`] holds and never looks into.
#[verifier::external_type_specification]
#[verifier::external_body]
#[verifier::reject_recursive_types(Ptr)]
pub struct ExPin<Ptr>(std::pin::Pin<Ptr>);

/// The exclusive handle of a session on the write half of a stream. Only
/// the pump that writes to the stream holds one.
#[verifier::reject_recursive_types(W)]
pub struct TcpWriterGeneric<'a, W> {
    pub hr: Pin<&'a mut W>,
}

impl<'a, W> TcpWriterGeneric<'a, W> {
    /// Wraps the pinned write half `hr`.
    pub fn new(hr: Pin<&'a mut W>) -> (writer: Self)
        ensures
            writer.hr == hr,
    {
        TcpWriterGeneric { hr }
    }

    /// Gives the write half back.
    pub fn into_inner(self) -> (hr: Pin<&'a mut W>)
        ensures
            hr == self.hr,
    {
        self.hr
    }
}

/// One of the two directions of a session.
#[derive(Clone, Copy, Debug, PartialEq, Eq, Structural)]
pub enum Direction {
    /// From the client to the target.
    Outbound,
    /// From the target back to the client.
    Inbound,
}

/// What happened in a session.
#[derive(Debug)]
pub enum SessionEvent {
    /// The action that the pump of one direction asked for is done.
    Pump(Direction, PumpEvent),
    /// The time to ask the monitor has come.
    Timer,
    /// The liveness probe that the session asked for is done.
    Probe(ProbeOutcome),
}

/// What a session needs done next.
#[derive(Debug)]
pub enum SessionAction {
    /// Carry on: do what the two pumps wait for, and come back with
    /// [`SessionEvent::Timer`] at [`TcpSession::wake_at`].
    Continue,
    /// Look at the client socket without consuming anything, and come back
    /// with [`SessionEvent::Probe`].
    Probe,
    /// The session has ended, with this error. Shut both connections down,
    /// for reading and for writing.
    Close(RelayError),
}

/// A session as the contracts see it.
pub struct SessionState {
    /// The pump from the client to the target.
    pub outbound: PumpState,
    /// The pump from the target to the client.
    pub inbound: PumpState,
    pub monitor: IdleMonitor,
    pub closed: bool,
}

impl SessionState {
    /// A session that has just begun, at time `now`.
    pub open spec fn fresh(
        idle_timeout: u64,
        buffer_size: nat,
        mode: PumpMode,
        probing: bool,
        now: u64,
    ) -> SessionState {
        SessionState {
            outbound: PumpState::fresh(mode, buffer_size),
            inbound: PumpState::fresh(mode, buffer_size),
            monitor: IdleMonitor::started(idle_timeout, probing, now),
            closed: false,
        }
    }

    /// The pump of `direction`.
    pub open spec fn pump(self, direction: Direction) -> PumpState {
        match direction {
            Direction::Outbound => self.outbound,
            Direction::Inbound => self.inbound,
        }
    }

    /// What holds of every session: both pumps are consistent, and while the
    /// session is open neither has stopped and the monitor has not expired.
    pub open spec fn consistent(self) -> bool {
        &&& self.outbound.consistent()
        &&& self.inbound.consistent()
        &&& !self.closed ==> {
            &&& !self.monitor.expired
            &&& !(self.outbound.stage is Stopped)
            &&& !(self.inbound.stage is Stopped)
        }
    }

    /// Whether the session takes `event`: it is open, and an event of a pump
    /// answers what that pump waits for.
    pub open spec fn expects(self, event: SessionEvent) -> bool {
        !self.closed && (event matches SessionEvent::Pump(direction, step) ==> self.pump(
            direction,
        ).expects(step))
    }

    /// Why the session ends on an event that it takes, if it does.
    pub open spec fn ends_with(self, event: SessionEvent, now: u64) -> Option<RelayError> {
        match event {
            SessionEvent::Pump(direction, step) => self.pump(direction).stops_with(step),
            SessionEvent::Timer => match self.monitor.timer_reply(now) {
                MonitorAction::Expired(reason) => Some(reason),
                _ => None,
            },
            SessionEvent::Probe(outcome) => match self.monitor.probe_reply(outcome, now) {
                MonitorAction::Expired(reason) => Some(reason),
                _ => None,
            },
        }
    }

    /// The session after an event that it takes, at time `now`.
    pub open spec fn next(self, event: SessionEvent, now: u64) -> SessionState {
        let moved = match event {
            SessionEvent::Pump(direction, step) => {
                let monitor = if step.is_activity() {
                    self.monitor.after_activity(now)
                } else {
                    self.monitor
                };
                match direction {
                    Direction::Outbound => SessionState {
                        outbound: self.outbound.next(step),
                        monitor,
                        ..self
                    },
                    Direction::Inbound => SessionState {
                        inbound: self.inbound.next(step),
                        monitor,
                        ..self
                    },
                }
            },
            SessionEvent::Timer => SessionState { monitor: self.monitor.after_timer(now), ..self },
            SessionEvent::Probe(outcome) => SessionState {
                monitor: self.monitor.after_probe(outcome, now),
                ..self
            },
        };
        SessionState { closed: self.ends_with(event, now) is Some, ..moved }
    }

    /// What the session answers to an event that it takes.
    pub open spec fn reply(self, event: SessionEvent, now: u64) -> SessionAction {
        match self.ends_with(event, now) {
            Some(reason) => SessionAction::Close(reason),
            None => if event is Timer && self.monitor.timer_reply(now) is Probe {
                SessionAction::Probe
            } else {
                SessionAction::Continue
            },
        }
    }

    /// The session after `event` at time `now`, whether it takes the event
    /// or not: an event that it does not take leaves it as it is.
    pub open spec fn advance(self, event: SessionEvent, now: u64) -> SessionState {
        if self.expects(event) {
            self.next(event, now)
        } else {
            self
        }
    }

    /// The session after `events`, each with its time, one after the other.
    pub open spec fn after(self, events: Seq<(SessionEvent, u64)>) -> SessionState
        decreases events.len(),
    {
        if events.len() == 0 {
            self
        } else {
            self.after(events.drop_last()).advance(events.last().0, events.last().1)
        }
    }

    /// How many of `events` the session answers with
    /// [`SessionAction::Close`].
    pub open spec fn closings(self, events: Seq<(SessionEvent, u64)>) -> nat
        decreases events.len(),
    {
        if events.len() == 0 {
            0
        } else {
            let before = self.after(events.drop_last());
            let last = events.last();
            let closing: nat = if before.expects(last.0) && before.reply(last.0, last.1)
                is Close {
                1
            } else {
                0
            };
            self.closings(events.drop_last()) + closing
        }
    }
}

/// A step keeps a session consistent, and an event of one direction leaves
/// the pump of the other direction as it was: the two byte streams never mix.
pub proof fn lemma_session_step(state: SessionState, event: SessionEvent, now: u64)
    requires
        state.consistent(),
        state.expects(event),
    ensures
        state.next(event, now).consistent(),
        event matches SessionEvent::Pump(Direction::Outbound, _) ==> state.next(event, now).inbound
            == state.inbound,
        event matches SessionEvent::Pump(Direction::Inbound, _) ==> state.next(event, now).outbound
            == state.outbound,
        !(event is Pump) ==> state.next(event, now).inbound == state.inbound && state.next(
            event,
            now,
        ).outbound == state.outbound,
{
    match event {
        SessionEvent::Pump(direction, step) => {
            crate::pipe::lemma_step(state.pump(direction), step);
        },
        _ => {},
    }
}

/// Byte fidelity of a session: in each direction, the bytes that the far
/// side has accepted, followed by the bytes that the pump still holds, are
/// exactly the bytes that were read from the near side, in order.
pub proof fn lemma_session_fidelity(state: SessionState)
    requires
        state.consistent(),
    ensures
        state.outbound.sunk + state.outbound.held == state.outbound.taken,
        state.inbound.sunk + state.inbound.held == state.inbound.taken,
{
}

/// A session ends once: the step that ends it is the one that answers
/// [`SessionAction::Close`], and a closed session takes no event, so it
/// reports no second error.
pub proof fn lemma_closes_once(state: SessionState, event: SessionEvent, now: u64)
    ensures
        state.closed ==> !state.expects(event),
        state.expects(event) ==> (state.next(event, now).closed <==> state.reply(event, now)
            is Close),
{
}

/// Whatever events an open session is given, in whatever order, it stays
/// consistent, so bytes are relayed faithfully in both directions; and it
/// reports exactly one terminating error if it has ended, and none if it has
/// not.
pub proof fn lemma_session_run(start: SessionState, events: Seq<(SessionEvent, u64)>)
    requires
        start.consistent(),
        !start.closed,
    ensures
        start.after(events).consistent(),
        start.closings(events) == (if start.after(events).closed {
            1nat
        } else {
            0nat
        }),
    decreases events.len(),
{
    if events.len() > 0 {
        lemma_session_run(start, events.drop_last());
        let before = start.after(events.drop_last());
        let last = events.last();
        if before.expects(last.0) {
            lemma_session_step(before, last.0, last.1);
        }
    }
}

/// Whether `event` shows no sign of life: it is neither a read that produced
/// bytes nor a probe that found bytes waiting.
pub open spec fn is_silent(event: SessionEvent) -> bool {
    match event {
        SessionEvent::Pump(_, step) => !step.is_activity(),
        SessionEvent::Probe(ProbeOutcome::Peeked(n)) => n == 0,
        _ => true,
    }
}

/// Silence does not move the deadline: whatever happens in a session, as
/// long as no read produces bytes and no probe finds bytes waiting, the idle
/// deadline stays where it was, and the timer closes the session with
/// [`RelayError::Timeout`] once that deadline has come, unless something
/// else has closed it before.
pub proof fn lemma_silence_times_out(
    start: SessionState,
    events: Seq<(SessionEvent, u64)>,
    now: u64,
)
    requires
        start.consistent(),
        !start.closed,
        forall|i: int| 0 <= i < events.len() ==> is_silent(#[trigger] events[i].0),
    ensures
        start.after(events).monitor.deadline() == start.monitor.deadline(),
        !start.after(events).closed && now >= start.monitor.deadline() ==> start.after(
            events,
        ).reply(SessionEvent::Timer, now) == SessionAction::Close(RelayError::Timeout),
    decreases events.len(),
{
    if events.len() > 0 {
        let earlier = events.drop_last();
        assert forall|i: int| 0 <= i < earlier.len() implies is_silent(
            #[trigger] earlier[i].0,
        ) by {
            assert(earlier[i] == events[i]);
        }
        lemma_silence_times_out(start, earlier, now);
        lemma_session_run(start, earlier);
    }
    lemma_session_run(start, events);
}

/// Idle teardown: an open session whose idle deadline has come is closed by
/// the timer with [`RelayError::Timeout`], and activity in either direction
/// moves the deadline to one timeout after that activity.
pub proof fn lemma_session_idle_teardown(state: SessionState, event: SessionEvent, now: u64)
    requires
        state.consistent(),
        !state.closed,
    ensures
        now >= state.monitor.deadline() ==> state.reply(SessionEvent::Timer, now)
            == SessionAction::Close(RelayError::Timeout),
        now < state.monitor.deadline() ==> !(state.reply(SessionEvent::Timer, now) is Close),
        event matches SessionEvent::Pump(_, step) ==> (state.expects(event) && step.is_activity()
            ==> state.next(event, now).monitor.deadline() == now.saturating_add(
            state.monitor.timeout,
        )),
{
}

/// The relay engine of one session: two pumps and a monitor.
pub struct TcpSession {
    outbound: Pump,
    inbound: Pump,
    monitor: IdleMonitor,
    closed: bool,
}

impl View for TcpSession {
    type V = SessionState;

    closed spec fn view(&self) -> SessionState {
        SessionState {
            outbound: self.outbound@,
            inbound: self.inbound@,
            monitor: self.monitor,
            closed: self.closed,
        }
    }
}

impl TcpSession {
    /// Both pumps are well formed and the session is consistent.
    pub closed spec fn wf(&self) -> bool {
        &&& self.outbound.wf()
        &&& self.inbound.wf()
        &&& self@.consistent()
    }

    /// Every well-formed session is consistent.
    pub proof fn lemma_consistent(&self)
        requires
            self.wf(),
        ensures
            self@.consistent(),
    {
    }

    /// Begins a session at time `now`, once the connection to the target
    /// stands: two pumps with a buffer of `buffer_size` bytes each, and a
    /// monitor with `idle_timeout` ticks to go.
    pub fn new(
        idle_timeout: u64,
        buffer_size: usize,
        coalescing: bool,
        probe_liveness: bool,
        now: u64,
    ) -> (session: TcpSession)
        ensures
            session.wf(),
            session@ == SessionState::fresh(
                idle_timeout,
                buffer_size as nat,
                if coalescing {
                    PumpMode::Coalescing
                } else {
                    PumpMode::Eager
                },
                probe_liveness,
                now,
            ),
    {
        let mode = if coalescing {
            PumpMode::Coalescing
        } else {
            PumpMode::Eager
        };
        TcpSession {
            outbound: Pump::new(buffer_size, mode),
            inbound: Pump::new(buffer_size, mode),
            monitor: IdleMonitor::new(idle_timeout, probe_liveness, now),
            closed: false,
        }
    }

    /// Whether the session has ended.
    pub fn is_closed(&self) -> (closed: bool)
        ensures
            closed == self@.closed,
    {
        self.closed
    }

    /// When to come back with [`SessionEvent::Timer`].
    pub fn wake_at(&self) -> (at: u64)
        ensures
            at == self@.monitor.wake_at(),
            at <= self@.monitor.deadline(),
    {
        self.monitor.wake_at()
    }

    /// What the pump of `direction` waits for; nothing once the session has
    /// ended.
    pub fn demand(&self, direction: Direction) -> (action: Option<PumpAction>)
        requires
            self.wf(),
        ensures
            action == (if self@.closed {
                None
            } else {
                self@.pump(direction).demand()
            }),
    {
        if self.closed {
            None
        } else {
            match direction {
                Direction::Outbound => self.outbound.demand(),
                Direction::Inbound => self.inbound.demand(),
            }
        }
    }

    /// The bytes that the pump of `direction` offers to its sink.
    pub fn pending(&self, direction: Direction) -> (bytes: &[u8])
        requires
            self.wf(),
        ensures
            bytes@ == self@.pump(direction).held,
    {
        match direction {
            Direction::Outbound => self.outbound.pending(),
            Direction::Inbound => self.inbound.pending(),
        }
    }

    /// Whether the session takes `event`.
    pub fn expects(&self, event: &SessionEvent) -> (expected: bool)
        requires
            self.wf(),
        ensures
            expected == self@.expects(*event),
    {
        if self.closed {
            false
        } else {
            match event {
                SessionEvent::Pump(Direction::Outbound, step) => self.outbound.expects(step),
                SessionEvent::Pump(Direction::Inbound, step) => self.inbound.expects(step),
                _ => true,
            }
        }
    }
}

/// What a session begins with: the connection to the target stands, or the
/// attempt failed. A failed attempt ends the session before any pump starts,
/// with [`RelayError::Connect`].
pub fn establish(
    connected: Result<(), std::io::Error>,
    idle_timeout: u64,
    buffer_size: usize,
    coalescing: bool,
    probe_liveness: bool,
    now: u64,
) -> (begun: Result<TcpSession, RelayError>)
    ensures
        match connected {
            Ok(_) => begun matches Ok(session) && session.wf() && session@ == SessionState::fresh(
                idle_timeout,
                buffer_size as nat,
                if coalescing {
                    PumpMode::Coalescing
                } else {
                    PumpMode::Eager
                },
                probe_liveness,
                now,
            ),
            Err(e) => begun matches Err(reason) && reason == RelayError::Connect(e),
        },
{
    match connected {
        Ok(_) => Ok(TcpSession::new(idle_timeout, buffer_size, coalescing, probe_liveness, now)),
        Err(e) => Err(RelayError::Connect(e)),
    }
}

/// Moves a session one step at time `now`.
///
/// An event of a pump goes to that pump; a read that produced bytes is
/// activity, and restarts the idle countdown. The timer and the outcome of a
/// probe go to the monitor. The first pump to stop, or the monitor when it
/// expires, ends the session: the answer is then [`SessionAction::Close`]
/// with the reason, once.
///
/// An event that the session does not take comes back as it is, and the
/// session does not change: any event once the session has ended, and an
/// event of a pump that does not answer what the pump waits for.
pub fn stream_handler(session: &mut TcpSession, event: SessionEvent, now: u64) -> (result: Result<
    SessionAction,
    SessionEvent,
>)
    requires
        old(session).wf(),
    ensures
        final(session).wf(),
        result is Ok <==> old(session)@.expects(event),
        result matches Ok(action) ==> final(session)@ == old(session)@.next(event, now) && action
            == old(session)@.reply(event, now),
        result matches Err(refused) ==> refused == event && final(session)@ == old(session)@,
{
    if !session.expects(&event) {
        return Err(event);
    }
    proof {
        lemma_session_step(session@, event, now);
    }
    let action = match event {
        SessionEvent::Pump(direction, step) => {
            let active = step.is_activity();
            let moved = match direction {
                Direction::Outbound => copy(&mut session.outbound, step),
                Direction::Inbound => copy(&mut session.inbound, step),
            };
            if active {
                session.monitor.on_activity(now);
            }
            match moved {
                Ok(PumpAction::Stop(reason)) => SessionAction::Close(reason),
                _ => SessionAction::Continue,
            }
        },
        SessionEvent::Timer => match session.monitor.on_timer(now) {
            MonitorAction::Expired(reason) => SessionAction::Close(reason),
            MonitorAction::Probe => SessionAction::Probe,
            _ => SessionAction::Continue,
        },
        SessionEvent::Probe(outcome) => match session.monitor.on_probe(outcome, now) {
            MonitorAction::Expired(reason) => SessionAction::Close(reason),
            _ => SessionAction::Continue,
        },
    };
    if let SessionAction::Close(_) = &action {
        session.closed = true;
    }
    Ok(action)
}

} // verus!
