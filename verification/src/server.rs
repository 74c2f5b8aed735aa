//! The server side of one connection: what a handler does between accepting
//! a connection and closing it, as a state machine that is told the outcome
//! of each piece of outside work and answers with the next one.

use vstd::prelude::*;
use crate::clock::{read_clock, ClockError, ClockReading};
use crate::text::utf8_lossy;
use crate::wire::{classify_request, request_of, Request, Snapshot, POLL_INTERVAL_SECS};

verus! {

/// What every handler of one server process shares: when the process
/// started and which process it is. It never changes after creation.
#[derive(Clone, Copy, Debug, PartialEq, Eq, Structural)]
pub struct ServerState {
    start_time: u128,
    pid: u32,
}

impl ServerState {
    /// Milliseconds since the Unix epoch at which the server started.
    pub closed spec fn start_time(self) -> u128 {
        self.start_time
    }

    /// The identifier of the server process.
    pub closed spec fn pid(self) -> u32 {
        self.pid
    }

    /// The state of a server that started at `start_time`.
    pub fn started_at(start_time: u128, pid: u32) -> (r: ServerState)
        ensures
            r.start_time() == start_time,
            r.pid() == pid,
    {
        ServerState { start_time, pid }
    }

    /// The state of a server that starts now. The start time is whatever the
    /// clock shows; the call fails exactly when the clock cannot be read.
    pub fn new(pid: u32) -> (r: Result<ServerState, ClockError>)
        ensures
            match r {
                Ok(state) => state.pid() == pid,
                Err(e) => e == ClockError::BeforeEpoch || e == ClockError::OutOfRange,
            },
    {
        match read_clock() {
            Ok(reading) => Ok(ServerState::started_at(reading.millis, pid)),
            Err(e) => Err(e),
        }
    }

    /// When the server started.
    pub fn started(&self) -> (r: u128)
        ensures
            r == self.start_time(),
    {
        self.start_time
    }

    /// Which process the server is.
    pub fn process_id(&self) -> (r: u32)
        ensures
            r == self.pid(),
    {
        self.pid
    }

    /// Milliseconds the server has been up at the instant `now`.
    pub fn uptime_ms(&self, now: u128) -> (r: u128)
        requires
            now >= self.start_time(),
        ensures
            r == now - self.start_time(),
    {
        now - self.start_time
    }

    /// The snapshot that the process server reports at a given reading of
    /// the clock.
    pub open spec fn snapshot_at(self, reading: ClockReading) -> Snapshot {
        Snapshot::Process {
            pid: self.pid(),
            uptime_ms: (reading.millis - self.start_time()) as u128,
            timestamp: reading.timestamp,
        }
    }

    /// The snapshot for a reading of the clock, where there is one: a
    /// reading from before the start is refused.
    pub open spec fn sample_of(self, reading: Result<ClockReading, ClockError>) -> Result<
        Snapshot,
        ClockError,
    > {
        match reading {
            Ok(reading) => if reading.millis >= self.start_time() {
                Ok(self.snapshot_at(reading))
            } else {
                Err(ClockError::WentBackwards)
            },
            Err(e) => Err(e),
        }
    }

    /// Builds the snapshot for a reading of the clock.
    pub fn sample_at(&self, reading: Result<ClockReading, ClockError>) -> (r: Result<
        Snapshot,
        ClockError,
    >)
        ensures
            r == self.sample_of(reading),
    {
        match reading {
            Ok(reading) => if reading.millis >= self.start_time {
                Ok(
                    Snapshot::Process {
                        pid: self.pid,
                        uptime_ms: self.uptime_ms(reading.millis),
                        timestamp: reading.timestamp,
                    },
                )
            } else {
                Err(ClockError::WentBackwards)
            },
            Err(e) => Err(e),
        }
    }

    /// Reads the clock and builds the snapshot to report now. Whatever the
    /// clock shows, the outcome is `sample_of` that reading.
    pub fn sample(&self) -> (r: Result<Snapshot, ClockError>)
        ensures
            exists|reading: Result<ClockReading, ClockError>| r == self.sample_of(reading),
    {
        self.sample_at(read_clock())
    }
}

/// The snapshot that the mouse server reports for what it measured, given a
/// reading of the clock.
pub open spec fn mouse_sample_of(
    mouse_buttons: i32,
    has_scroll_wheel: bool,
    reading: Result<ClockReading, ClockError>,
) -> Result<Snapshot, ClockError> {
    match reading {
        Ok(reading) => Ok(
            Snapshot::Mouse { mouse_buttons, has_scroll_wheel, timestamp: reading.timestamp },
        ),
        Err(e) => Err(e),
    }
}

/// Builds the mouse snapshot for a reading of the clock.
pub fn mouse_sample_at(
    mouse_buttons: i32,
    has_scroll_wheel: bool,
    reading: Result<ClockReading, ClockError>,
) -> (r: Result<Snapshot, ClockError>)
    ensures
        r == mouse_sample_of(mouse_buttons, has_scroll_wheel, reading),
{
    match reading {
        Ok(reading) => Ok(
            Snapshot::Mouse { mouse_buttons, has_scroll_wheel, timestamp: reading.timestamp },
        ),
        Err(e) => Err(e),
    }
}

/// Reads the clock and builds the mouse snapshot to report now.
pub fn mouse_sample(mouse_buttons: i32, has_scroll_wheel: bool) -> (r: Result<Snapshot, ClockError>)
    ensures
        exists|reading: Result<ClockReading, ClockError>|
            r == mouse_sample_of(mouse_buttons, has_scroll_wheel, reading),
{
    mouse_sample_at(mouse_buttons, has_scroll_wheel, read_clock())
}

/// Where a handler stands in the life of its connection.
#[derive(Clone, Copy, Debug, PartialEq, Eq, Structural)]
pub enum HandlerState {
    /// The connection was accepted; nothing has been read yet.
    Connected,
    /// A blocking read is under way.
    AwaitingRequest,
    /// A request arrived; the snapshot is being taken.
    Computing,
    /// The response is being written and flushed.
    Responding,
    /// The response went out; the handler holds for the poll interval.
    Holding,
    /// The connection is over. Nothing follows.
    Closed,
}

/// The outcome of the outside work that a handler asked for.
#[derive(Clone, Debug)]
pub enum HandlerEvent {
    /// A worker took the connection.
    Started,
    /// The read returned these bytes; none means that the peer closed.
    ReadDone(Vec<u8>),
    /// The read failed.
    ReadFailed,
    /// The snapshot was taken.
    Sampled(Snapshot),
    /// The response was written and flushed.
    Sent,
    /// Writing the response failed.
    WriteFailed,
    /// Flushing the response failed.
    FlushFailed,
    /// The poll interval has passed.
    HoldElapsed,
}

/// The outside work that a handler asks for next.
#[derive(Clone, Copy, Debug, PartialEq, Eq, Structural)]
pub enum HandlerAction {
    /// Read one request into the buffer.
    Read,
    /// Take the snapshot to report.
    Sample,
    /// Write this snapshot as JSON and flush.
    Send(Snapshot),
    /// Sleep for so many seconds.
    Hold(u64),
    /// Shut the socket down in both directions, then give up the
    /// connection and the worker slot.
    Shutdown,
    /// Give up the connection and the worker slot.
    Release,
}

/// A line for the log that goes with a transition.
#[derive(Clone, Copy, Debug, PartialEq, Eq, Structural)]
pub enum HandlerLog {
    /// A client connected.
    ClientConnected,
    /// The client asked to disconnect.
    ClientDisconnected,
    /// The client closed its end.
    ConnectionClosed,
    /// A request could not be read.
    ReadFailed,
    /// A response went out.
    ResponseSent,
    /// A response could not be written.
    WriteFailed,
    /// A response could not be flushed.
    FlushFailed,
}

/// What one event leads to.
#[derive(Clone, Copy, Debug, PartialEq, Eq, Structural)]
pub struct HandlerStep {
    /// The state after the event.
    pub next: HandlerState,
    /// The outside work to do now.
    pub action: HandlerAction,
    /// The line to log, if any.
    pub log: Option<HandlerLog>,
}

/// Whether a state awaits an event of this kind.
pub open spec fn handler_awaits(state: HandlerState, event: HandlerEvent) -> bool {
    match (state, event) {
        (HandlerState::Connected, HandlerEvent::Started) => true,
        (HandlerState::AwaitingRequest, HandlerEvent::ReadDone(_)) => true,
        (HandlerState::AwaitingRequest, HandlerEvent::ReadFailed) => true,
        (HandlerState::Computing, HandlerEvent::Sampled(_)) => true,
        (HandlerState::Responding, HandlerEvent::Sent) => true,
        (HandlerState::Responding, HandlerEvent::WriteFailed) => true,
        (HandlerState::Responding, HandlerEvent::FlushFailed) => true,
        (HandlerState::Holding, HandlerEvent::HoldElapsed) => true,
        _ => false,
    }
}

/// The transition relation of a handler. An event that the state does not
/// await closes the connection; in `Closed` nothing happens any more.
pub open spec fn handler_transition(state: HandlerState, event: HandlerEvent) -> HandlerStep {
    match (state, event) {
        (HandlerState::Closed, _) => HandlerStep {
            next: HandlerState::Closed,
            action: HandlerAction::Release,
            log: None,
        },
        (HandlerState::Connected, HandlerEvent::Started) => HandlerStep {
            next: HandlerState::AwaitingRequest,
            action: HandlerAction::Read,
            log: Some(HandlerLog::ClientConnected),
        },
        (HandlerState::AwaitingRequest, HandlerEvent::ReadDone(bytes)) => if bytes@.len() == 0 {
            HandlerStep {
                next: HandlerState::Closed,
                action: HandlerAction::Release,
                log: Some(HandlerLog::ConnectionClosed),
            }
        } else if request_of(utf8_lossy(bytes@)) == Request::Disconnect {
            HandlerStep {
                next: HandlerState::Closed,
                action: HandlerAction::Shutdown,
                log: Some(HandlerLog::ClientDisconnected),
            }
        } else {
            HandlerStep {
                next: HandlerState::Computing,
                action: HandlerAction::Sample,
                log: None,
            }
        },
        (HandlerState::AwaitingRequest, HandlerEvent::ReadFailed) => HandlerStep {
            next: HandlerState::Closed,
            action: HandlerAction::Shutdown,
            log: Some(HandlerLog::ReadFailed),
        },
        (HandlerState::Computing, HandlerEvent::Sampled(snapshot)) => HandlerStep {
            next: HandlerState::Responding,
            action: HandlerAction::Send(snapshot),
            log: None,
        },
        (HandlerState::Responding, HandlerEvent::Sent) => HandlerStep {
            next: HandlerState::Holding,
            action: HandlerAction::Hold(POLL_INTERVAL_SECS),
            log: Some(HandlerLog::ResponseSent),
        },
        (HandlerState::Responding, HandlerEvent::WriteFailed) => HandlerStep {
            next: HandlerState::Closed,
            action: HandlerAction::Release,
            log: Some(HandlerLog::WriteFailed),
        },
        (HandlerState::Responding, HandlerEvent::FlushFailed) => HandlerStep {
            next: HandlerState::Closed,
            action: HandlerAction::Release,
            log: Some(HandlerLog::FlushFailed),
        },
        (HandlerState::Holding, HandlerEvent::HoldElapsed) => HandlerStep {
            next: HandlerState::AwaitingRequest,
            action: HandlerAction::Read,
            log: None,
        },
        _ => HandlerStep {
            next: HandlerState::Closed,
            action: HandlerAction::Shutdown,
            log: None,
        },
    }
}

/// The handler of one connection.
#[derive(Clone, Copy, Debug)]
pub struct ConnectionHandler {
    state: HandlerState,
}

impl ConnectionHandler {
    /// Where the handler stands.
    pub closed spec fn view(self) -> HandlerState {
        self.state
    }

    /// The handler of a connection that was just accepted.
    pub fn new() -> (r: ConnectionHandler)
        ensures
            r@ == HandlerState::Connected,
    {
        ConnectionHandler { state: HandlerState::Connected }
    }

    /// Where the handler stands.
    pub fn state(&self) -> (r: HandlerState)
        ensures
            r == self@,
    {
        self.state
    }

    /// Whether the connection is over.
    pub fn is_closed(&self) -> (r: bool)
        ensures
            r == (self@ == HandlerState::Closed),
    {
        self.state == HandlerState::Closed
    }

    /// Takes the outcome of the outside work and says what to do next.
    pub fn step(&mut self, event: HandlerEvent) -> (r: HandlerStep)
        ensures
            r == handler_transition(old(self)@, event),
            final(self)@ == r.next,
    {
        let step = match self.state {
            HandlerState::Closed => HandlerStep {
                next: HandlerState::Closed,
                action: HandlerAction::Release,
                log: None,
            },
            HandlerState::Connected => match event {
                HandlerEvent::Started => HandlerStep {
                    next: HandlerState::AwaitingRequest,
                    action: HandlerAction::Read,
                    log: Some(HandlerLog::ClientConnected),
                },
                _ => fault(),
            },
            HandlerState::AwaitingRequest => match event {
                HandlerEvent::ReadDone(bytes) => {
                    if bytes.len() == 0 {
                        HandlerStep {
                            next: HandlerState::Closed,
                            action: HandlerAction::Release,
                            log: Some(HandlerLog::ConnectionClosed),
                        }
                    } else if classify_request(bytes.as_slice()) == Request::Disconnect {
                        HandlerStep {
                            next: HandlerState::Closed,
                            action: HandlerAction::Shutdown,
                            log: Some(HandlerLog::ClientDisconnected),
                        }
                    } else {
                        HandlerStep {
                            next: HandlerState::Computing,
                            action: HandlerAction::Sample,
                            log: None,
                        }
                    }
                },
                HandlerEvent::ReadFailed => HandlerStep {
                    next: HandlerState::Closed,
                    action: HandlerAction::Shutdown,
                    log: Some(HandlerLog::ReadFailed),
                },
                _ => fault(),
            },
            HandlerState::Computing => match event {
                HandlerEvent::Sampled(snapshot) => HandlerStep {
                    next: HandlerState::Responding,
                    action: HandlerAction::Send(snapshot),
                    log: None,
                },
                _ => fault(),
            },
            HandlerState::Responding => match event {
                HandlerEvent::Sent => HandlerStep {
                    next: HandlerState::Holding,
                    action: HandlerAction::Hold(POLL_INTERVAL_SECS),
                    log: Some(HandlerLog::ResponseSent),
                },
                HandlerEvent::WriteFailed => HandlerStep {
                    next: HandlerState::Closed,
                    action: HandlerAction::Release,
                    log: Some(HandlerLog::WriteFailed),
                },
                HandlerEvent::FlushFailed => HandlerStep {
                    next: HandlerState::Closed,
                    action: HandlerAction::Release,
                    log: Some(HandlerLog::FlushFailed),
                },
                _ => fault(),
            },
            HandlerState::Holding => match event {
                HandlerEvent::HoldElapsed => HandlerStep {
                    next: HandlerState::AwaitingRequest,
                    action: HandlerAction::Read,
                    log: None,
                },
                _ => fault(),
            },
        };
        self.state = step.next;
        step
    }
}

/// The step taken on an event that the state does not await.
fn fault() -> (r: HandlerStep)
    ensures
        r == (HandlerStep {
            next: HandlerState::Closed,
            action: HandlerAction::Shutdown,
            log: None,
        }),
{
    HandlerStep { next: HandlerState::Closed, action: HandlerAction::Shutdown, log: None }
}

/// The state after a run of events.
pub open spec fn handler_run(state: HandlerState, events: Seq<HandlerEvent>) -> HandlerState
    decreases events.len(),
{
    if events.len() == 0 {
        state
    } else {
        handler_run(handler_transition(state, events[0]).next, events.drop_first())
    }
}

/// How many responses a run of events sends.
pub open spec fn responses_sent(state: HandlerState, events: Seq<HandlerEvent>) -> nat
    decreases events.len(),
{
    if events.len() == 0 {
        0
    } else {
        let step = handler_transition(state, events[0]);
        let here: nat = if step.action is Send {
            1
        } else {
            0
        };
        here + responses_sent(step.next, events.drop_first())
    }
}

/// `Closed` is final: whatever happens after, the handler stays closed,
/// asks only to be released, shuts nothing down again and logs nothing.
pub proof fn lemma_closed_is_final(event: HandlerEvent)
    ensures
        handler_transition(HandlerState::Closed, event) == (HandlerStep {
            next: HandlerState::Closed,
            action: HandlerAction::Release,
            log: None,
        }),
{
}

/// After the connection is closed no response is sent any more, whatever
/// events follow.
pub proof fn lemma_no_response_after_close(events: Seq<HandlerEvent>)
    ensures
        handler_run(HandlerState::Closed, events) == HandlerState::Closed,
        responses_sent(HandlerState::Closed, events) == 0,
    decreases events.len(),
{
    if events.len() > 0 {
        lemma_no_response_after_close(events.drop_first());
    }
}

/// A disconnect request closes the connection with an active shutdown, and
/// nothing is sent after it.
pub proof fn lemma_disconnect_ends_the_session(bytes: Vec<u8>, later: Seq<HandlerEvent>)
    requires
        bytes@.len() > 0,
        request_of(utf8_lossy(bytes@)) == Request::Disconnect,
    ensures
        handler_transition(HandlerState::AwaitingRequest, HandlerEvent::ReadDone(bytes)) == (
        HandlerStep {
            next: HandlerState::Closed,
            action: HandlerAction::Shutdown,
            log: Some(HandlerLog::ClientDisconnected),
        }),
        responses_sent(HandlerState::AwaitingRequest, seq![HandlerEvent::ReadDone(bytes)] + later)
            == 0,
{
    let events = seq![HandlerEvent::ReadDone(bytes)] + later;
    assert(events[0] == HandlerEvent::ReadDone(bytes));
    assert(events.drop_first() =~= later);
    lemma_no_response_after_close(later);
}

/// A response is sent only for a snapshot taken in answer to a request: the
/// handler was computing, and what it sends is the snapshot it was given.
pub proof fn lemma_response_answers_a_request(state: HandlerState, event: HandlerEvent)
    ensures
        handler_transition(state, event).action matches HandlerAction::Send(snapshot) ==> state
            == HandlerState::Computing && event == HandlerEvent::Sampled(snapshot),
        handler_transition(state, event).next == HandlerState::Computing ==> state
            == HandlerState::AwaitingRequest && (event matches HandlerEvent::ReadDone(bytes)
            && bytes@.len() > 0 && request_of(utf8_lossy(bytes@)) == Request::Snapshot),
{
}

/// Responses are paced: after one went out the handler holds for the poll
/// interval, and it reads the next request only when a hold has elapsed or
/// the connection has just been taken up.
pub proof fn lemma_responses_are_paced(state: HandlerState, event: HandlerEvent)
    ensures
        state == HandlerState::Responding && event == HandlerEvent::Sent ==> handler_transition(
            state,
            event,
        ).action == HandlerAction::Hold(POLL_INTERVAL_SECS),
        handler_transition(state, event).action == HandlerAction::Read ==> (state
            == HandlerState::Holding && event == HandlerEvent::HoldElapsed) || (state
            == HandlerState::Connected && event == HandlerEvent::Started),
{
}

/// Any failed read, write or flush closes the connection, and so does the
/// peer's closing its end; a failed write is not tried again.
pub proof fn lemma_io_failure_closes(state: HandlerState, event: HandlerEvent)
    requires
        handler_awaits(state, event),
        event == HandlerEvent::ReadFailed || event == HandlerEvent::WriteFailed || event
            == HandlerEvent::FlushFailed || (event matches HandlerEvent::ReadDone(bytes)
            && bytes@.len() == 0),
    ensures
        handler_transition(state, event).next == HandlerState::Closed,
        !(handler_transition(state, event).action is Send),
{
}

} // verus!
