//! The buffered pump: one direction of byte copying.
//!
//! A pump takes bytes from a source into a buffer of fixed size and hands
//! them to a sink, again and again, until the source ends or a read or a
//! write fails. It does neither the reading nor the writing: it says what it
//! needs next ([`PumpAction`]), and is told how that went ([`PumpEvent`]).
//!
//! An eager pump writes after every read that produced bytes. A coalescing
//! pump goes on reading, without waiting, while the source has bytes at hand
//! and the buffer has room, and then writes the whole batch at once.

use crate::error::RelayError;
use vstd::prelude::*;
use vstd::slice::slice_subrange;

verus! {

/// The two ways a pump gathers bytes before it writes them out.
#[derive(Clone, Copy, Debug, PartialEq, Eq, Structural)]
pub enum PumpMode {
    /// Write as soon as one read has produced bytes.
    Eager,
    /// Gather what is immediately available, up to the buffer's size, into
    /// one write.
    Coalescing,
}

/// What a pump is doing.
#[derive(Clone, Copy, Debug, PartialEq, Eq, Structural)]
pub enum Stage {
    /// Gathering bytes from the source.
    Filling,
    /// Handing the gathered bytes to the sink.
    Flushing,
    /// Ended; a stopped pump takes no more events.
    Stopped,
}

/// How a read went.
#[derive(Debug)]
pub enum ReadOutcome {
    /// The bytes that were read. None means that the source is at its end.
    Data(Vec<u8>),
    /// The source has nothing at hand right now.
    NotReady,
    /// The read failed.
    Failed(std::io::Error),
}

/// How a write went.
#[derive(Debug)]
pub enum WriteOutcome {
    /// The sink took this many of the bytes it was offered, from the front.
    Accepted(usize),
    /// The write failed.
    Failed(std::io::Error),
}

/// What happened to the action that a pump asked for.
#[derive(Debug)]
pub enum PumpEvent {
    Read(ReadOutcome),
    Write(WriteOutcome),
}

/// What a pump needs done next.
#[derive(Debug)]
pub enum PumpAction {
    /// Read at most `limit` bytes from the source. With `wait`, suspend until
    /// the source has bytes or ends; without, take only what is at hand and
    /// report [`ReadOutcome::NotReady`] if that is nothing.
    Read { limit: usize, wait: bool },
    /// Offer the `len` bytes of [`Pump::pending`] to the sink.
    Write { len: usize },
    /// The pump has ended, for this reason.
    Stop(RelayError),
}

/// A pump as the contracts see it.
pub struct PumpState {
    pub mode: PumpMode,
    /// The size of the buffer.
    pub capacity: nat,
    pub stage: Stage,
    /// The bytes in the buffer that the sink has not taken yet.
    pub held: Seq<u8>,
    /// A read error that waits for the bytes read before it to be written.
    pub deferred: Option<RelayError>,
    /// Every byte taken from the source so far, in order.
    pub taken: Seq<u8>,
    /// Every byte the sink has accepted so far, in order.
    pub sunk: Seq<u8>,
}

impl PumpEvent {
    /// Whether the event is a sign of activity: a read that produced bytes.
    pub open spec fn spec_is_activity(&self) -> bool {
        self matches PumpEvent::Read(ReadOutcome::Data(chunk)) && chunk@.len() > 0
    }

    /// Whether the event is a sign of activity, which restarts the idle
    /// countdown: a read that produced bytes.
    #[verifier::when_used_as_spec(spec_is_activity)]
    pub fn is_activity(&self) -> (active: bool)
        ensures
            active == self.spec_is_activity(),
    {
        match self {
            PumpEvent::Read(ReadOutcome::Data(chunk)) => chunk.len() > 0,
            _ => false,
        }
    }
}

impl PumpState {
    /// A pump that has done nothing yet.
    pub open spec fn fresh(mode: PumpMode, capacity: nat) -> PumpState {
        PumpState {
            mode,
            capacity,
            stage: Stage::Filling,
            held: Seq::empty(),
            deferred: None,
            taken: Seq::empty(),
            sunk: Seq::empty(),
        }
    }

    /// How many more bytes the buffer can take.
    pub open spec fn room(self) -> nat {
        (self.capacity - self.held.len()) as nat
    }

    /// What holds of every pump: the bytes that the sink accepted, followed
    /// by the bytes still held, are the bytes taken from the source; the
    /// buffer is within its size; and the stage fits what is held.
    pub open spec fn consistent(self) -> bool {
        &&& self.sunk + self.held == self.taken
        &&& self.held.len() <= self.capacity
        &&& self.stage is Filling ==> {
            &&& self.deferred is None
            &&& self.held.len() < self.capacity || self.capacity == 0
            &&& self.mode is Eager ==> self.held.len() == 0
        }
        &&& self.stage is Flushing ==> self.held.len() > 0
        &&& self.stage is Stopped ==> self.deferred is None
    }

    /// What the pump waits for; nothing once it has stopped.
    pub open spec fn demand(self) -> Option<PumpAction> {
        match self.stage {
            Stage::Filling => Some(
                PumpAction::Read { limit: self.room() as usize, wait: self.held.len() == 0 },
            ),
            Stage::Flushing => Some(PumpAction::Write { len: self.held.len() as usize }),
            Stage::Stopped => None,
        }
    }

    /// Whether `event` answers what the pump waits for: a read while it
    /// fills, of no more bytes than there is room for; a write while it
    /// flushes, of no more bytes than it holds.
    pub open spec fn expects(self, event: PumpEvent) -> bool {
        match event {
            PumpEvent::Read(outcome) => self.stage is Filling && (outcome matches ReadOutcome::Data(
                chunk,
            ) ==> chunk@.len() <= self.room()),
            PumpEvent::Write(outcome) => self.stage is Flushing && (
            outcome matches WriteOutcome::Accepted(n) ==> n <= self.held.len()),
        }
    }

    /// The pump as it goes from filling to flushing.
    pub open spec fn flushing(self) -> PumpState {
        PumpState { stage: Stage::Flushing, ..self }
    }

    /// The pump as it stops.
    pub open spec fn stopped(self) -> PumpState {
        PumpState { stage: Stage::Stopped, deferred: None, ..self }
    }

    /// The pump after a read that it expected.
    pub open spec fn after_read(self, outcome: ReadOutcome) -> PumpState {
        match outcome {
            ReadOutcome::Data(chunk) => {
                if chunk@.len() == 0 {
                    if self.held.len() == 0 {
                        self.stopped()
                    } else {
                        self.flushing()
                    }
                } else {
                    let gathered = PumpState {
                        held: self.held + chunk@,
                        taken: self.taken + chunk@,
                        ..self
                    };
                    if self.mode is Eager || gathered.held.len() == self.capacity {
                        gathered.flushing()
                    } else {
                        gathered
                    }
                }
            },
            ReadOutcome::NotReady => {
                if self.held.len() == 0 {
                    self
                } else {
                    self.flushing()
                }
            },
            ReadOutcome::Failed(e) => {
                if self.held.len() == 0 {
                    self.stopped()
                } else {
                    PumpState { deferred: Some(RelayError::Read(e)), ..self.flushing() }
                }
            },
        }
    }

    /// The pump after a write that it expected.
    pub open spec fn after_write(self, outcome: WriteOutcome) -> PumpState {
        match outcome {
            WriteOutcome::Accepted(n) => {
                if n == 0 {
                    self.stopped()
                } else {
                    let drained = PumpState {
                        held: self.held.skip(n as int),
                        sunk: self.sunk + self.held.take(n as int),
                        ..self
                    };
                    if n < self.held.len() {
                        drained
                    } else if self.deferred is Some {
                        drained.stopped()
                    } else {
                        PumpState { stage: Stage::Filling, ..drained }
                    }
                }
            },
            WriteOutcome::Failed(_) => self.stopped(),
        }
    }

    /// The pump after an event that it expected.
    pub open spec fn next(self, event: PumpEvent) -> PumpState {
        match event {
            PumpEvent::Read(outcome) => self.after_read(outcome),
            PumpEvent::Write(outcome) => self.after_write(outcome),
        }
    }

    /// Why the pump stops on an event that it expected, if it does.
    pub open spec fn stops_with(self, event: PumpEvent) -> Option<RelayError> {
        match event {
            PumpEvent::Read(ReadOutcome::Data(chunk)) => if chunk@.len() == 0 && self.held.len()
                == 0 {
                Some(RelayError::PipeClosed)
            } else {
                None
            },
            PumpEvent::Read(ReadOutcome::NotReady) => None,
            PumpEvent::Read(ReadOutcome::Failed(e)) => if self.held.len() == 0 {
                Some(RelayError::Read(e))
            } else {
                None
            },
            PumpEvent::Write(WriteOutcome::Accepted(n)) => if n == 0 {
                Some(RelayError::WriteZero)
            } else if n == self.held.len() {
                self.deferred
            } else {
                None
            },
            PumpEvent::Write(WriteOutcome::Failed(e)) => Some(RelayError::Write(e)),
        }
    }

    /// What the pump answers to an event that it expected: the reason it
    /// stops, or else what it waits for next.
    pub open spec fn reply(self, event: PumpEvent) -> PumpAction {
        match self.stops_with(event) {
            Some(reason) => PumpAction::Stop(reason),
            None => self.next(event).demand().unwrap(),
        }
    }

    /// The pump after `event`, whether it expected the event or not: an
    /// event that it did not expect leaves it as it is.
    pub open spec fn advance(self, event: PumpEvent) -> PumpState {
        if self.expects(event) {
            self.next(event)
        } else {
            self
        }
    }

    /// The pump after `events`, one after the other.
    pub open spec fn after(self, events: Seq<PumpEvent>) -> PumpState
        decreases events.len(),
    {
        if events.len() == 0 {
            self
        } else {
            self.after(events.drop_last()).advance(events.last())
        }
    }
}

/// One step keeps a pump consistent, takes from the source exactly the bytes
/// of the read it was given, and gives the sink exactly the front of what it
/// held.
pub proof fn lemma_step(state: PumpState, event: PumpEvent)
    requires
        state.consistent(),
        state.expects(event),
    ensures
        state.next(event).consistent(),
        state.next(event).mode == state.mode,
        state.next(event).capacity == state.capacity,
        state.next(event).stage is Stopped <==> state.stops_with(event) is Some,
        event matches PumpEvent::Read(ReadOutcome::Data(chunk)) ==> state.next(event).taken
            == state.taken + chunk@ && state.next(event).sunk == state.sunk,
        event matches PumpEvent::Write(WriteOutcome::Accepted(n)) ==> state.next(event).sunk
            == state.sunk + state.held.take(n as int) && state.next(event).taken == state.taken,
        !(event matches PumpEvent::Read(ReadOutcome::Data(_))) && !(
        event matches PumpEvent::Write(WriteOutcome::Accepted(_))) ==> state.next(event).taken
            == state.taken && state.next(event).sunk == state.sunk,
{
    match event {
        PumpEvent::Read(ReadOutcome::Data(chunk)) => {
            if chunk@.len() == 0 {
            } else {
                assert(state.sunk + (state.held + chunk@) =~= (state.sunk + state.held) + chunk@);
            }
        },
        PumpEvent::Write(WriteOutcome::Accepted(n)) => {
            if n == 0 {
            } else {
                assert((state.sunk + state.held.take(n as int)) + state.held.skip(n as int)
                    =~= state.sunk + state.held);
            }
        },
        _ => {},
    }
}

/// Byte fidelity: whatever events a new pump is given, in whatever order,
/// the bytes that the sink has accepted, followed by the bytes that the pump
/// still holds, are exactly the bytes that were taken from the source, in the
/// order in which they were taken. Between two batches, when the pump holds
/// nothing, the sink has received every byte that was read.
pub proof fn lemma_byte_fidelity(mode: PumpMode, capacity: nat, events: Seq<PumpEvent>)
    ensures
        PumpState::fresh(mode, capacity).after(events).consistent(),
        ({
            let state = PumpState::fresh(mode, capacity).after(events);
            &&& state.sunk + state.held == state.taken
            &&& state.held.len() == 0 ==> state.sunk == state.taken
        }),
    decreases events.len(),
{
    if events.len() > 0 {
        lemma_byte_fidelity(mode, capacity, events.drop_last());
        let before = PumpState::fresh(mode, capacity).after(events.drop_last());
        if before.expects(events.last()) {
            lemma_step(before, events.last());
        }
    }
}

/// A pump: its buffer and where it stands.
pub struct Pump {
    mode: PumpMode,
    capacity: usize,
    stage: Stage,
    buffer: Vec<u8>,
    flushed: usize,
    deferred: Option<RelayError>,
    taken: Ghost<Seq<u8>>,
    sunk: Ghost<Seq<u8>>,
}

impl View for Pump {
    type V = PumpState;

    closed spec fn view(&self) -> PumpState {
        PumpState {
            mode: self.mode,
            capacity: self.capacity as nat,
            stage: self.stage,
            held: self.buffer@.skip(self.flushed as int),
            deferred: self.deferred,
            taken: self.taken@,
            sunk: self.sunk@,
        }
    }
}

impl Pump {
    /// The pump is consistent, and its buffer is laid out as it should be.
    pub closed spec fn wf(&self) -> bool {
        &&& self@.consistent()
        &&& self.flushed <= self.buffer@.len() <= self.capacity
        &&& self.stage is Filling ==> self.flushed == 0
    }

    /// Every well-formed pump is consistent: in particular what the sink
    /// accepted and what is still held make up what was taken from the source.
    pub proof fn lemma_consistent(&self)
        requires
            self.wf(),
        ensures
            self@.consistent(),
            self@.capacity <= usize::MAX,
    {
    }

    /// A pump whose buffer holds at most `buffer_size` bytes, about to read.
    pub fn new(buffer_size: usize, mode: PumpMode) -> (pump: Pump)
        ensures
            pump.wf(),
            pump@ == PumpState::fresh(mode, buffer_size as nat),
    {
        let pump = Pump {
            mode,
            capacity: buffer_size,
            stage: Stage::Filling,
            buffer: Vec::new(),
            flushed: 0,
            deferred: None,
            taken: Ghost(Seq::empty()),
            sunk: Ghost(Seq::empty()),
        };
        assert(pump@.sunk + pump@.held =~= pump@.taken);
        pump
    }

    /// The pump's mode.
    pub fn mode(&self) -> (mode: PumpMode)
        ensures
            mode == self@.mode,
    {
        self.mode
    }

    /// The size of the pump's buffer.
    pub fn capacity(&self) -> (capacity: usize)
        ensures
            capacity == self@.capacity,
    {
        self.capacity
    }

    /// What the pump is doing.
    pub fn stage(&self) -> (stage: Stage)
        ensures
            stage == self@.stage,
    {
        self.stage
    }

    /// The bytes to offer to the sink: those that the pump holds and the
    /// sink has not accepted yet.
    pub fn pending(&self) -> (bytes: &[u8])
        requires
            self.wf(),
        ensures
            bytes@ == self@.held,
    {
        let bytes = slice_subrange(self.buffer.as_slice(), self.flushed, self.buffer.len());
        bytes
    }

    /// What the pump waits for: a read while it fills, a write while it
    /// flushes, nothing once it has stopped.
    pub fn demand(&self) -> (action: Option<PumpAction>)
        requires
            self.wf(),
        ensures
            action == self@.demand(),
    {
        match self.stage {
            Stage::Filling => Some(
                PumpAction::Read {
                    limit: self.capacity - self.buffer.len(),
                    wait: self.buffer.len() == 0,
                },
            ),
            Stage::Flushing => Some(PumpAction::Write { len: self.buffer.len() - self.flushed }),
            Stage::Stopped => None,
        }
    }

    /// Whether `event` answers what the pump waits for.
    pub fn expects(&self, event: &PumpEvent) -> (expected: bool)
        requires
            self.wf(),
        ensures
            expected == self@.expects(*event),
    {
        match event {
            PumpEvent::Read(outcome) => match self.stage {
                Stage::Filling => match outcome {
                    ReadOutcome::Data(chunk) => chunk.len() <= self.capacity - self.buffer.len(),
                    _ => true,
                },
                _ => false,
            },
            PumpEvent::Write(outcome) => match self.stage {
                Stage::Flushing => match outcome {
                    WriteOutcome::Accepted(n) => *n <= self.buffer.len() - self.flushed,
                    _ => true,
                },
                _ => false,
            },
        }
    }

    /// Stops the pump and reports why.
    fn stop(&mut self, reason: RelayError) -> (action: PumpAction)
        ensures
            *final(self) == (Pump { stage: Stage::Stopped, deferred: None, ..*old(self) }),
            action == PumpAction::Stop(reason),
    {
        self.stage = Stage::Stopped;
        self.deferred = None;
        PumpAction::Stop(reason)
    }

    /// Goes from filling to flushing.
    fn flush(&mut self) -> (action: PumpAction)
        requires
            old(self).flushed == 0,
        ensures
            *final(self) == (Pump { stage: Stage::Flushing, ..*old(self) }),
            action == (PumpAction::Write { len: old(self).buffer@.len() as usize }),
    {
        self.stage = Stage::Flushing;
        PumpAction::Write { len: self.buffer.len() }
    }

    /// Takes in the outcome of a read that the pump expected.
    fn on_read(&mut self, outcome: ReadOutcome) -> (action: PumpAction)
        requires
            old(self).wf(),
            old(self)@.expects(PumpEvent::Read(outcome)),
        ensures
            final(self).wf(),
            final(self)@ == old(self)@.after_read(outcome),
            action == old(self)@.reply(PumpEvent::Read(outcome)),
    {
        proof {
            lemma_step(self@, PumpEvent::Read(outcome));
        }
        let held = self.buffer.len();
        match outcome {
            ReadOutcome::Data(mut chunk) => {
                if chunk.len() == 0 {
                    if held == 0 {
                        self.stop(RelayError::PipeClosed)
                    } else {
                        self.flush()
                    }
                } else {
                    proof {
                        self.taken = Ghost(self.taken@ + chunk@);
                    }
                    self.buffer.append(&mut chunk);
                    assert(self.buffer@.skip(0) =~= old(self).buffer@.skip(0) + outcome->Data_0@);
                    match self.mode {
                        PumpMode::Eager => self.flush(),
                        PumpMode::Coalescing => {
                            if self.buffer.len() == self.capacity {
                                self.flush()
                            } else {
                                PumpAction::Read {
                                    limit: self.capacity - self.buffer.len(),
                                    wait: false,
                                }
                            }
                        },
                    }
                }
            },
            ReadOutcome::NotReady => {
                if held == 0 {
                    PumpAction::Read { limit: self.capacity, wait: true }
                } else {
                    self.flush()
                }
            },
            ReadOutcome::Failed(e) => {
                if held == 0 {
                    self.stop(RelayError::Read(e))
                } else {
                    let action = self.flush();
                    self.deferred = Some(RelayError::Read(e));
                    action
                }
            },
        }
    }

    /// Takes in the outcome of a write that the pump expected.
    fn on_write(&mut self, outcome: WriteOutcome) -> (action: PumpAction)
        requires
            old(self).wf(),
            old(self)@.expects(PumpEvent::Write(outcome)),
        ensures
            final(self).wf(),
            final(self)@ == old(self)@.after_write(outcome),
            action == old(self)@.reply(PumpEvent::Write(outcome)),
    {
        proof {
            lemma_step(self@, PumpEvent::Write(outcome));
        }
        match outcome {
            WriteOutcome::Accepted(n) => {
                if n == 0 {
                    self.stop(RelayError::WriteZero)
                } else {
                    proof {
                        self.sunk = Ghost(self.sunk@ + self@.held.take(n as int));
                    }
                    if n < self.buffer.len() - self.flushed {
                        self.flushed = self.flushed + n;
                        assert(self@.held =~= old(self)@.held.skip(n as int));
                        PumpAction::Write { len: self.buffer.len() - self.flushed }
                    } else {
                        self.buffer.clear();
                        self.flushed = 0;
                        assert(self@.held =~= old(self)@.held.skip(n as int));
                        match self.deferred.take() {
                            Some(reason) => self.stop(reason),
                            None => {
                                self.stage = Stage::Filling;
                                PumpAction::Read { limit: self.capacity, wait: true }
                            },
                        }
                    }
                }
            },
            WriteOutcome::Failed(e) => self.stop(RelayError::Write(e)),
        }
    }
}

/// Moves a pump one step: takes in what happened to the action the pump
/// asked for, and says what it needs next.
///
/// While it fills, the pump takes the bytes of a read into its buffer. An
/// eager pump then writes. A coalescing pump reads on, without waiting,
/// until the buffer is full or the source has nothing at hand, and then
/// writes. A read of no bytes with nothing gathered is the end of the
/// stream; with something gathered it only ends the batch. While it flushes,
/// the pump offers what the sink has not taken until all of it is taken,
/// then empties the buffer and reads again.
///
/// An event that does not answer what the pump waits for comes back as it
/// is, and the pump does not change.
pub fn copy(pump: &mut Pump, event: PumpEvent) -> (result: Result<PumpAction, PumpEvent>)
    requires
        old(pump).wf(),
    ensures
        final(pump).wf(),
        result is Ok <==> old(pump)@.expects(event),
        result matches Ok(action) ==> final(pump)@ == old(pump)@.next(event) && action == old(
            pump,
        )@.reply(event),
        result matches Err(refused) ==> refused == event && final(pump)@ == old(pump)@,
{
    if !pump.expects(&event) {
        return Err(event);
    }
    match event {
        PumpEvent::Read(outcome) => Ok(pump.on_read(outcome)),
        PumpEvent::Write(outcome) => Ok(pump.on_write(outcome)),
    }
}

} // verus!
