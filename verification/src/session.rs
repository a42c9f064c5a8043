//! The dispatch loop of one viewing session, as a state machine.
//!
//! The driver owns the connection, the subscription queue and the timer. It
//! hands the session each event and performs the action that comes back:
//!
//! * while the session awaits an event, the driver waits for the next
//!   segment, the end of the queue, or the time of the next ping;
//! * for a segment, the session asks how many rows the recording has, then
//!   for the fragment built from the one row, then hands out the message to
//!   write;
//! * the driver reports how each request went. A failure closes the session,
//!   and so does the end of the queue. A closed session answers every event
//!   with `Stop`, and the driver then drops its subscription.
//!
//! An event that the session is not waiting for changes nothing.

use crate::admission::Admission;
use crate::error::ErrorKind;
use crate::fragment::{build_fragment_message, fragment_message};
use crate::keepalive::Keepalive;
use crate::model::{LiveSegment, RecordingRow, SegmentNotice};
use vstd::prelude::*;

verus! {

/// Why a session failed.
#[derive(Clone, Copy, Debug, PartialEq, Eq, Structural)]
pub enum Failure {
    /// The queue delivered a segment whose range is empty or inverted.
    Range,
    /// The engine reported no row, or more than one, for a segment that it
    /// had announced.
    RowCount,
    /// The engine failed to answer the query for the rows.
    Query,
    /// The fragment could not be built or serialized.
    Build,
    /// A message could not be written to the connection.
    Write,
}

impl Failure {
    /// The kind of error that the session itself raises: a segment without
    /// a range and a wrong row count are internal contradictions. The other
    /// failures carry the error of the party that failed.
    pub open spec fn spec_kind(self) -> Option<ErrorKind> {
        match self {
            Failure::Range => Some(ErrorKind::Internal),
            Failure::RowCount => Some(ErrorKind::Internal),
            _ => None,
        }
    }

    /// The kind of error that the session itself raises, if it is the one
    /// that raised it.
    #[verifier::when_used_as_spec(spec_kind)]
    pub fn kind(self) -> (k: Option<ErrorKind>)
        ensures
            k == self.spec_kind(),
    {
        match self {
            Failure::Range => Some(ErrorKind::Internal),
            Failure::RowCount => Some(ErrorKind::Internal),
            _ => None,
        }
    }
}

/// How a session ended.
#[derive(Clone, Copy, Debug, PartialEq, Eq, Structural)]
pub enum Outcome {
    /// The subscription queue was closed: there is nothing more to send.
    Normal,
    /// The session gave up.
    Failed(Failure),
}

/// What a session that is sending waits for.
#[derive(Clone, Copy, Debug, PartialEq, Eq)]
pub enum Stage {
    /// The number of rows of the segment's recording.
    Query(LiveSegment),
    /// The fragment built from the segment and its row.
    Build(LiveSegment),
    /// The end of the write of a fragment message.
    WriteFragment,
    /// The end of the write of a ping.
    WritePing,
}

/// Where a session stands.
#[derive(Clone, Copy, Debug, PartialEq, Eq)]
pub enum Phase {
    AwaitingEvent,
    Sending(Stage),
    Closed(Outcome),
}

/// What happened, as the driver reports it.
#[derive(Clone, Debug, PartialEq, Eq)]
pub enum Event {
    /// The subscription queue delivered a segment.
    Segment(SegmentNotice),
    /// The keepalive timer fired at the given time.
    Tick(u64),
    /// The subscription queue was closed.
    QueueClosed,
    /// The engine answered the query with this many rows.
    Rows(usize),
    /// The engine failed to answer the query.
    QueryFailed,
    /// The fragment was built from the one row and serialized.
    Built { row: RecordingRow, content_type: Vec<u8>, body: Vec<u8> },
    /// The fragment could not be built or serialized.
    BuildFailed,
    /// The message was written.
    Written,
    /// The message could not be written.
    WriteFailed,
}

/// An event, with sequences for its buffers.
pub ghost enum EventView {
    Segment(SegmentNotice),
    Tick(u64),
    QueueClosed,
    Rows(usize),
    QueryFailed,
    Built { row: RecordingRow, content_type: Seq<u8>, body: Seq<u8> },
    BuildFailed,
    Written,
    WriteFailed,
}

impl View for Event {
    type V = EventView;

    open spec fn view(&self) -> EventView {
        match *self {
            Event::Segment(notice) => EventView::Segment(notice),
            Event::Tick(now) => EventView::Tick(now),
            Event::QueueClosed => EventView::QueueClosed,
            Event::Rows(count) => EventView::Rows(count),
            Event::QueryFailed => EventView::QueryFailed,
            Event::Built { row, content_type, body } => EventView::Built {
                row,
                content_type: content_type@,
                body: body@,
            },
            Event::BuildFailed => EventView::BuildFailed,
            Event::Written => EventView::Written,
            Event::WriteFailed => EventView::WriteFailed,
        }
    }
}

/// What the driver is to do next.
#[derive(Clone, Debug, PartialEq, Eq)]
pub enum Action {
    /// Nothing: go on waiting for what the session awaits.
    Wait,
    /// Ask the engine for the rows of this recording of this stream, and
    /// report how many there are. The stream is the one that the session
    /// was admitted to.
    Query { stream_id: i32, recording_id: i32 },
    /// Append the one row and the segment's range to a new container
    /// builder, from the key frame on where `start_at_key` is set, then
    /// build and serialize the fragment and report the row, the content type
    /// and the bytes.
    Build { segment: LiveSegment, start_at_key: bool },
    /// Write these bytes to the connection as one binary message.
    SendFragment(Vec<u8>),
    /// Write a ping with an empty payload to the connection.
    SendPing,
    /// Drop the subscription and end the session's task.
    Stop(Outcome),
}

/// An action, with a sequence for its buffer.
pub ghost enum ActionView {
    Wait,
    Query { stream_id: i32, recording_id: i32 },
    Build { segment: LiveSegment, start_at_key: bool },
    SendFragment(Seq<u8>),
    SendPing,
    Stop(Outcome),
}

impl View for Action {
    type V = ActionView;

    open spec fn view(&self) -> ActionView {
        match *self {
            Action::Wait => ActionView::Wait,
            Action::Query { stream_id, recording_id } => ActionView::Query {
                stream_id,
                recording_id,
            },
            Action::Build { segment, start_at_key } => ActionView::Build { segment, start_at_key },
            Action::SendFragment(message) => ActionView::SendFragment(message@),
            Action::SendPing => ActionView::SendPing,
            Action::Stop(outcome) => ActionView::Stop(outcome),
        }
    }
}

/// All that a session is.
#[derive(Clone, Copy, Debug, PartialEq, Eq)]
pub struct SessionState {
    /// The stream whose segments the session carries.
    pub stream_id: i32,
    /// The engine's write generation when the session was admitted.
    pub open_id: u32,
    /// Whether the next fragment has to start at a key frame: set until the
    /// first fragment has been written.
    pub start_at_key: bool,
    pub keepalive: Keepalive,
    pub phase: Phase,
}

impl SessionState {
    /// The state of a session that was just admitted.
    pub open spec fn fresh(stream_id: i32, open_id: u32) -> SessionState {
        SessionState {
            stream_id,
            open_id,
            start_at_key: true,
            keepalive: Keepalive { last_ping: None },
            phase: Phase::AwaitingEvent,
        }
    }

    /// The same session in another phase.
    pub open spec fn with_phase(self, phase: Phase) -> SessionState {
        SessionState { phase, ..self }
    }

    /// The session closed with `outcome`, and the action that tells the
    /// driver so.
    pub open spec fn close(self, outcome: Outcome) -> (SessionState, ActionView) {
        (self.with_phase(Phase::Closed(outcome)), ActionView::Stop(outcome))
    }

    /// What an event does to a session that awaits one.
    pub open spec fn on_awaited(self, event: EventView) -> (SessionState, ActionView) {
        match event {
            EventView::Segment(notice) => if notice.start < notice.end {
                (
                    self.with_phase(
                        Phase::Sending(
                            Stage::Query(LiveSegment::spec_of_notice(self.stream_id, notice)),
                        ),
                    ),
                    ActionView::Query {
                        stream_id: self.stream_id,
                        recording_id: notice.recording_id,
                    },
                )
            } else {
                self.close(Outcome::Failed(Failure::Range))
            },
            EventView::Tick(now) => if self.keepalive.spec_due(now) {
                (
                    SessionState {
                        keepalive: self.keepalive.after_tick(now),
                        phase: Phase::Sending(Stage::WritePing),
                        ..self
                    },
                    ActionView::SendPing,
                )
            } else {
                (self, ActionView::Wait)
            },
            EventView::QueueClosed => self.close(Outcome::Normal),
            _ => (self, ActionView::Wait),
        }
    }

    /// What an event does to a session that is sending.
    pub open spec fn on_sending(self, stage: Stage, event: EventView) -> (
        SessionState,
        ActionView,
    ) {
        match stage {
            Stage::Query(segment) => match event {
                EventView::Rows(count) => if count == 1 {
                    (
                        self.with_phase(Phase::Sending(Stage::Build(segment))),
                        ActionView::Build { segment, start_at_key: self.start_at_key },
                    )
                } else {
                    self.close(Outcome::Failed(Failure::RowCount))
                },
                EventView::QueryFailed => self.close(Outcome::Failed(Failure::Query)),
                _ => (self, ActionView::Wait),
            },
            Stage::Build(segment) => match event {
                EventView::Built { row, content_type, body } => (
                    self.with_phase(Phase::Sending(Stage::WriteFragment)),
                    ActionView::SendFragment(
                        fragment_message(content_type, self.open_id, segment, row, body),
                    ),
                ),
                EventView::BuildFailed => self.close(Outcome::Failed(Failure::Build)),
                _ => (self, ActionView::Wait),
            },
            Stage::WriteFragment => match event {
                EventView::Written => (
                    SessionState { start_at_key: false, phase: Phase::AwaitingEvent, ..self },
                    ActionView::Wait,
                ),
                EventView::WriteFailed => self.close(Outcome::Failed(Failure::Write)),
                _ => (self, ActionView::Wait),
            },
            Stage::WritePing => match event {
                EventView::Written => (self.with_phase(Phase::AwaitingEvent), ActionView::Wait),
                EventView::WriteFailed => self.close(Outcome::Failed(Failure::Write)),
                _ => (self, ActionView::Wait),
            },
        }
    }

    /// The session after an event, and the action that the event calls for.
    pub open spec fn step(self, event: EventView) -> (SessionState, ActionView) {
        match self.phase {
            Phase::AwaitingEvent => self.on_awaited(event),
            Phase::Sending(stage) => self.on_sending(stage, event),
            Phase::Closed(outcome) => (self, ActionView::Stop(outcome)),
        }
    }
}

/// One viewing session.
#[derive(Debug)]
pub struct Session {
    state: SessionState,
}

impl View for Session {
    type V = SessionState;

    closed spec fn view(&self) -> SessionState {
        self.state
    }
}

impl Session {
    /// The session of a request that was just admitted: it awaits an event,
    /// has sent nothing, and owes its first fragment a key frame.
    pub fn new(admission: Admission) -> (session: Session)
        ensures
            session@ == SessionState::fresh(admission.stream_id, admission.open_id),
    {
        Session {
            state: SessionState {
                stream_id: admission.stream_id,
                open_id: admission.open_id,
                start_at_key: true,
                keepalive: Keepalive::new(),
                phase: Phase::AwaitingEvent,
            },
        }
    }

    /// All of the session's state.
    pub fn state(&self) -> (state: SessionState)
        ensures
            state == self@,
    {
        self.state
    }

    /// Where the session stands.
    pub fn phase(&self) -> (phase: Phase)
        ensures
            phase == self@.phase,
    {
        self.state.phase
    }

    /// Whether the next fragment has to start at a key frame.
    pub fn start_at_key(&self) -> (flag: bool)
        ensures
            flag == self@.start_at_key,
    {
        self.state.start_at_key
    }

    /// How the session ended, once it has.
    pub fn outcome(&self) -> (outcome: Option<Outcome>)
        ensures
            outcome == (match self@.phase {
                Phase::Closed(o) => Some(o),
                _ => None,
            }),
    {
        match self.state.phase {
            Phase::Closed(o) => Some(o),
            _ => None,
        }
    }

    /// The earliest time at which the timer should fire next; `None` where
    /// the session will not ping again.
    pub fn next_ping_due(&self) -> (t: Option<u64>)
        ensures
            t == (match self@.phase {
                Phase::Closed(_) => None,
                _ => self@.keepalive.spec_next_due(),
            }),
    {
        match self.state.phase {
            Phase::Closed(_) => None,
            _ => self.state.keepalive.next_due(),
        }
    }

    /// Takes an event and says what to do next.
    pub fn step(&mut self, event: Event) -> (action: Action)
        ensures
            final(self)@ == old(self)@.step(event@).0,
            action@ == old(self)@.step(event@).1,
    {
        match self.state.phase {
            Phase::Closed(outcome) => Action::Stop(outcome),
            Phase::AwaitingEvent => match event {
                Event::Segment(notice) => {
                    match LiveSegment::of_notice(self.state.stream_id, notice) {
                        Some(segment) => {
                            self.state.phase = Phase::Sending(Stage::Query(segment));
                            Action::Query {
                                stream_id: self.state.stream_id,
                                recording_id: notice.recording_id,
                            }
                        },
                        None => self.close(Outcome::Failed(Failure::Range)),
                    }
                },
                Event::Tick(now) => {
                    if self.state.keepalive.tick(now) {
                        self.state.phase = Phase::Sending(Stage::WritePing);
                        Action::SendPing
                    } else {
                        Action::Wait
                    }
                },
                Event::QueueClosed => self.close(Outcome::Normal),
                _ => Action::Wait,
            },
            Phase::Sending(Stage::Query(segment)) => match event {
                Event::Rows(count) => {
                    if count == 1 {
                        self.state.phase = Phase::Sending(Stage::Build(segment));
                        Action::Build { segment, start_at_key: self.state.start_at_key }
                    } else {
                        self.close(Outcome::Failed(Failure::RowCount))
                    }
                },
                Event::QueryFailed => self.close(Outcome::Failed(Failure::Query)),
                _ => Action::Wait,
            },
            Phase::Sending(Stage::Build(segment)) => match event {
                Event::Built { row, content_type, body } => {
                    let message = build_fragment_message(
                        content_type.as_slice(),
                        self.state.open_id,
                        &segment,
                        &row,
                        body.as_slice(),
                    );
                    self.state.phase = Phase::Sending(Stage::WriteFragment);
                    Action::SendFragment(message)
                },
                Event::BuildFailed => self.close(Outcome::Failed(Failure::Build)),
                _ => Action::Wait,
            },
            Phase::Sending(Stage::WriteFragment) => match event {
                Event::Written => {
                    self.state.start_at_key = false;
                    self.state.phase = Phase::AwaitingEvent;
                    Action::Wait
                },
                Event::WriteFailed => self.close(Outcome::Failed(Failure::Write)),
                _ => Action::Wait,
            },
            Phase::Sending(Stage::WritePing) => match event {
                Event::Written => {
                    self.state.phase = Phase::AwaitingEvent;
                    Action::Wait
                },
                Event::WriteFailed => self.close(Outcome::Failed(Failure::Write)),
                _ => Action::Wait,
            },
        }
    }

    /// Closes the session.
    fn close(&mut self, outcome: Outcome) -> (action: Action)
        ensures
            final(self)@ == old(self)@.close(outcome).0,
            action@ == old(self)@.close(outcome).1,
    {
        self.state.phase = Phase::Closed(outcome);
        Action::Stop(outcome)
    }
}

} // verus!
