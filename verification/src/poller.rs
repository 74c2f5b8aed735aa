//! The client side of one session: connect, then poll until told to stop.
//! The poller is a state machine that is told the outcome of each piece of
//! outside work, publishes what it learns to the session's store and
//! answers with the work to do next.

use vstd::prelude::*;
use crate::status::{format_response, parse_failure_text, status_text};
use crate::store::{SharedStateStore, StoreView};
use crate::text::{from_utf8_lossy, occurs_in, str_contains, utf8_lossy};
use crate::wire::{Schema, POLL_INTERVAL_SECS};

verus! {

/// Shown when the target cannot be reached.
pub const CONNECT_FAILED_STATUS: &'static str = "Ошибка подключения";

/// Shown when a read returns nothing.
pub const PEER_CLOSED_STATUS: &'static str = "Соединение закрыто сервером";

/// What a failed read is shown with, before the error itself.
pub const READ_FAILED_PREFIX: &'static str = "Ошибка чтения: ";

/// The word by which a published status counts as a failure.
pub const FAILURE_MARK: &'static str = "Ошибка";

/// Where a polling session stands within one round of its loop.
#[derive(Clone, Copy, Debug, PartialEq, Eq, Structural)]
pub enum PollPhase {
    /// At the top of the loop: the cancellation signal is looked at.
    Checking,
    /// The request is being written.
    Sending,
    /// The response is being read.
    Receiving,
    /// The round is over; the poll interval is being slept.
    Waiting,
}

/// Where a session stands.
#[derive(Clone, Copy, Debug, PartialEq, Eq, Structural)]
pub enum PollerState {
    /// The connection is being opened.
    Connecting,
    /// The connection is open and the loop runs.
    Polling(PollPhase),
    /// The signal was seen; the socket is being shut down.
    Cancelling,
    /// The session is over. Nothing follows.
    Stopped,
}

/// The outcome of the outside work that a poller asked for.
#[derive(Clone, Debug)]
pub enum PollerEvent {
    /// The connection is open.
    Connected,
    /// The target could not be reached.
    ConnectFailed,
    /// The cancellation signal was looked at; `true` means it was up.
    CancelChecked(bool),
    /// The request was written.
    Sent,
    /// Writing the request failed.
    SendFailed,
    /// The read returned these bytes; none means that the peer closed.
    ReadDone(Vec<u8>),
    /// The read failed, with this description.
    ReadFailed(String),
    /// The poll interval has passed.
    WaitElapsed,
    /// The socket was shut down, or the attempt failed.
    ShutdownDone,
}

/// The outside work that a poller asks for next.
#[derive(Clone, Copy, Debug, PartialEq, Eq, Structural)]
pub enum PollerAction {
    /// Open a connection to the target.
    Connect,
    /// Look at the cancellation signal, without blocking.
    CheckCancel,
    /// Write the request token.
    SendRequest,
    /// Read one response into the buffer.
    Read,
    /// Sleep for so many seconds.
    Wait(u64),
    /// Shut the socket down in both directions, ignoring errors.
    Shutdown,
    /// Release the socket and the signal; the session is over.
    Finish,
}

/// A line for the log that goes with a transition.
#[derive(Clone, Copy, Debug, PartialEq, Eq, Structural)]
pub enum PollerLog {
    /// The target could not be reached.
    ConnectFailed,
    /// The request could not be written.
    SendFailed,
    /// A response arrived.
    Received,
    /// The response could not be read.
    ReadFailed,
}

/// How the last round of a session went, as shown in the status line.
#[derive(Clone, Copy, Debug, PartialEq, Eq, Structural)]
pub enum LastAction {
    /// The published status does not carry the failure mark.
    Success,
    /// The published status carries the failure mark.
    Failure,
}

/// What one event leads to.
#[derive(Clone, Copy, Debug, PartialEq, Eq, Structural)]
pub struct PollerStep {
    /// The state after the event.
    pub next: PollerState,
    /// The outside work to do now.
    pub action: PollerAction,
    /// The line to log, if any.
    pub log: Option<PollerLog>,
    /// How the round went, if the event ended one.
    pub summary: Option<LastAction>,
}

/// Whether a state awaits an event of this kind.
pub open spec fn poller_awaits(state: PollerState, event: PollerEvent) -> bool {
    match (state, event) {
        (PollerState::Connecting, PollerEvent::Connected) => true,
        (PollerState::Connecting, PollerEvent::ConnectFailed) => true,
        (PollerState::Polling(PollPhase::Checking), PollerEvent::CancelChecked(_)) => true,
        (PollerState::Polling(PollPhase::Sending), PollerEvent::Sent) => true,
        (PollerState::Polling(PollPhase::Sending), PollerEvent::SendFailed) => true,
        (PollerState::Polling(PollPhase::Receiving), PollerEvent::ReadDone(_)) => true,
        (PollerState::Polling(PollPhase::Receiving), PollerEvent::ReadFailed(_)) => true,
        (PollerState::Polling(PollPhase::Waiting), PollerEvent::WaitElapsed) => true,
        (PollerState::Cancelling, PollerEvent::ShutdownDone) => true,
        _ => false,
    }
}

/// The state that an event leads to. An event that a polling session does
/// not await makes it cancel; a failed connect stops the session at once;
/// in `Stopped` nothing happens any more.
pub open spec fn poller_next(state: PollerState, event: PollerEvent) -> PollerState {
    match (state, event) {
        (PollerState::Stopped, _) => PollerState::Stopped,
        (PollerState::Cancelling, _) => PollerState::Stopped,
        (PollerState::Connecting, PollerEvent::Connected) => PollerState::Polling(
            PollPhase::Checking,
        ),
        (PollerState::Connecting, _) => PollerState::Stopped,
        (PollerState::Polling(PollPhase::Checking), PollerEvent::CancelChecked(up)) => if up {
            PollerState::Cancelling
        } else {
            PollerState::Polling(PollPhase::Sending)
        },
        (PollerState::Polling(PollPhase::Sending), PollerEvent::Sent) => PollerState::Polling(
            PollPhase::Receiving,
        ),
        (PollerState::Polling(PollPhase::Sending), PollerEvent::SendFailed) => PollerState::Polling(
            PollPhase::Checking,
        ),
        (PollerState::Polling(PollPhase::Receiving), PollerEvent::ReadDone(_)) => PollerState::Polling(
            PollPhase::Waiting,
        ),
        (PollerState::Polling(PollPhase::Receiving), PollerEvent::ReadFailed(_)) => PollerState::Polling(
            PollPhase::Waiting,
        ),
        (PollerState::Polling(PollPhase::Waiting), PollerEvent::WaitElapsed) => PollerState::Polling(
            PollPhase::Checking,
        ),
        (PollerState::Polling(_), _) => PollerState::Cancelling,
    }
}

/// The outside work that a state waits on.
pub open spec fn action_of(state: PollerState) -> PollerAction {
    match state {
        PollerState::Connecting => PollerAction::Connect,
        PollerState::Polling(PollPhase::Checking) => PollerAction::CheckCancel,
        PollerState::Polling(PollPhase::Sending) => PollerAction::SendRequest,
        PollerState::Polling(PollPhase::Receiving) => PollerAction::Read,
        PollerState::Polling(PollPhase::Waiting) => PollerAction::Wait(POLL_INTERVAL_SECS),
        PollerState::Cancelling => PollerAction::Shutdown,
        PollerState::Stopped => PollerAction::Finish,
    }
}

/// What the store holds after an event.
pub open spec fn store_after(
    schema: Schema,
    state: PollerState,
    event: PollerEvent,
    store: StoreView,
) -> StoreView {
    match (state, event) {
        (PollerState::Connecting, PollerEvent::Connected) => store.flagged(false),
        (PollerState::Connecting, PollerEvent::ConnectFailed) => store.published(
            CONNECT_FAILED_STATUS@,
            true,
        ).noted(),
        (PollerState::Polling(PollPhase::Sending), PollerEvent::SendFailed) => store.flagged(
            true,
        ).noted(),
        (PollerState::Polling(PollPhase::Receiving), PollerEvent::ReadDone(bytes)) => if bytes@.len()
            == 0 {
            store.published(PEER_CLOSED_STATUS@, true)
        } else {
            store.published(status_text(schema, utf8_lossy(bytes@)), false)
        },
        (PollerState::Polling(PollPhase::Receiving), PollerEvent::ReadFailed(error)) => store.published(
            READ_FAILED_PREFIX@ + error@,
            true,
        ).noted(),
        _ => store,
    }
}

/// Whether an event reports a failure that is logged once.
pub open spec fn is_logged_failure(state: PollerState, event: PollerEvent) -> bool {
    match (state, event) {
        (PollerState::Connecting, PollerEvent::ConnectFailed) => true,
        (PollerState::Polling(PollPhase::Sending), PollerEvent::SendFailed) => true,
        (PollerState::Polling(PollPhase::Receiving), PollerEvent::ReadFailed(_)) => true,
        _ => false,
    }
}

/// The line of a failure.
pub open spec fn failure_line(event: PollerEvent) -> PollerLog {
    match event {
        PollerEvent::ConnectFailed => PollerLog::ConnectFailed,
        PollerEvent::SendFailed => PollerLog::SendFailed,
        _ => PollerLog::ReadFailed,
    }
}

/// The line that an event puts into the log, given the store before it.
pub open spec fn log_of(state: PollerState, event: PollerEvent, store: StoreView) -> Option<
    PollerLog,
> {
    if store.error_logged {
        None
    } else if is_logged_failure(state, event) {
        Some(failure_line(event))
    } else {
        match (state, event) {
            (PollerState::Polling(PollPhase::Receiving), PollerEvent::ReadDone(bytes)) => if bytes@.len()
                > 0 {
                Some(PollerLog::Received)
            } else {
                None
            },
            _ => None,
        }
    }
}

/// How a status counts for the status line.
pub open spec fn summary_of_status(status: Seq<char>) -> LastAction {
    if occurs_in(FAILURE_MARK@, status) {
        LastAction::Failure
    } else {
        LastAction::Success
    }
}

/// How the round went, where the event ended one.
pub open spec fn summary_of(schema: Schema, state: PollerState, event: PollerEvent) -> Option<
    LastAction,
> {
    match (state, event) {
        (PollerState::Polling(PollPhase::Receiving), PollerEvent::ReadDone(bytes)) => if bytes@.len()
            == 0 {
            Some(summary_of_status(PEER_CLOSED_STATUS@))
        } else {
            Some(summary_of_status(status_text(schema, utf8_lossy(bytes@))))
        },
        (PollerState::Polling(PollPhase::Receiving), PollerEvent::ReadFailed(error)) => Some(
            summary_of_status(READ_FAILED_PREFIX@ + error@),
        ),
        _ => None,
    }
}

/// The whole step that an event leads to.
pub open spec fn poller_transition(
    schema: Schema,
    state: PollerState,
    event: PollerEvent,
    store: StoreView,
) -> PollerStep {
    PollerStep {
        next: poller_next(state, event),
        action: action_of(poller_next(state, event)),
        log: log_of(state, event, store),
        summary: summary_of(schema, state, event),
    }
}

/// The outside work that a state waits on.
pub fn pending_action(state: PollerState) -> (r: PollerAction)
    ensures
        r == action_of(state),
{
    match state {
        PollerState::Connecting => PollerAction::Connect,
        PollerState::Polling(PollPhase::Checking) => PollerAction::CheckCancel,
        PollerState::Polling(PollPhase::Sending) => PollerAction::SendRequest,
        PollerState::Polling(PollPhase::Receiving) => PollerAction::Read,
        PollerState::Polling(PollPhase::Waiting) => PollerAction::Wait(POLL_INTERVAL_SECS),
        PollerState::Cancelling => PollerAction::Shutdown,
        PollerState::Stopped => PollerAction::Finish,
    }
}

/// Classifies a status for the status line.
pub fn summarize(status: &str) -> (r: LastAction)
    ensures
        r == summary_of_status(status@),
{
    if str_contains(status, FAILURE_MARK) {
        LastAction::Failure
    } else {
        LastAction::Success
    }
}

/// Notes a failure in the store and says which line, if any, is due.
fn log_once(store: &mut SharedStateStore, line: PollerLog) -> (r: Option<PollerLog>)
    ensures
        final(store)@ == old(store)@.noted(),
        r == if old(store)@.error_logged {
            None
        } else {
            Some(line)
        },
{
    if store.note_failure() {
        Some(line)
    } else {
        None
    }
}

/// The poller of one session.
#[derive(Clone, Copy, Debug)]
pub struct ClientPoller {
    state: PollerState,
    schema: Schema,
}

impl ClientPoller {
    /// Where the session stands.
    pub closed spec fn view(self) -> PollerState {
        self.state
    }

    /// The layout in which the session reads responses.
    pub closed spec fn schema(self) -> Schema {
        self.schema
    }

    /// The poller of a session that is about to connect.
    pub fn new(schema: Schema) -> (r: ClientPoller)
        ensures
            r@ == PollerState::Connecting,
            r.schema() == schema,
    {
        ClientPoller { state: PollerState::Connecting, schema }
    }

    /// Where the session stands.
    pub fn state(&self) -> (r: PollerState)
        ensures
            r == self@,
    {
        self.state
    }

    /// Whether the session is over.
    pub fn is_stopped(&self) -> (r: bool)
        ensures
            r == (self@ == PollerState::Stopped),
    {
        self.state == PollerState::Stopped
    }

    /// The outside work that the session waits on.
    pub fn pending(&self) -> (r: PollerAction)
        ensures
            r == action_of(self@),
    {
        pending_action(self.state)
    }

    /// Takes the outcome of the outside work, publishes what follows from it
    /// and says what to do next.
    pub fn step(&mut self, store: &mut SharedStateStore, event: PollerEvent) -> (r: PollerStep)
        ensures
            r == poller_transition(old(self).schema(), old(self)@, event, old(store)@),
            final(self)@ == r.next,
            final(self).schema() == old(self).schema(),
            final(store)@ == store_after(old(self).schema(), old(self)@, event, old(store)@),
    {
        let mut log: Option<PollerLog> = None;
        let mut summary: Option<LastAction> = None;
        let next = match self.state {
            PollerState::Stopped => PollerState::Stopped,
            PollerState::Cancelling => PollerState::Stopped,
            PollerState::Connecting => match event {
                PollerEvent::Connected => {
                    store.set_error(false);
                    PollerState::Polling(PollPhase::Checking)
                },
                PollerEvent::ConnectFailed => {
                    store.publish(String::from_str(CONNECT_FAILED_STATUS), true);
                    log = log_once(store, PollerLog::ConnectFailed);
                    PollerState::Stopped
                },
                _ => PollerState::Stopped,
            },
            PollerState::Polling(PollPhase::Checking) => match event {
                PollerEvent::CancelChecked(up) => if up {
                    PollerState::Cancelling
                } else {
                    PollerState::Polling(PollPhase::Sending)
                },
                _ => PollerState::Cancelling,
            },
            PollerState::Polling(PollPhase::Sending) => match event {
                PollerEvent::Sent => PollerState::Polling(PollPhase::Receiving),
                PollerEvent::SendFailed => {
                    store.set_error(true);
                    log = log_once(store, PollerLog::SendFailed);
                    PollerState::Polling(PollPhase::Checking)
                },
                _ => PollerState::Cancelling,
            },
            PollerState::Polling(PollPhase::Receiving) => match event {
                PollerEvent::ReadDone(bytes) => {
                    if bytes.len() == 0 {
                        summary = Some(summarize(PEER_CLOSED_STATUS));
                        store.publish(String::from_str(PEER_CLOSED_STATUS), true);
                    } else {
                        let payload = from_utf8_lossy(bytes.as_slice());
                        let status = format_response(self.schema, payload.as_str());
                        summary = Some(summarize(status.as_str()));
                        if !store.error_logged() {
                            log = Some(PollerLog::Received);
                        }
                        store.publish(status, false);
                    }
                    PollerState::Polling(PollPhase::Waiting)
                },
                PollerEvent::ReadFailed(error) => {
                    let mut status = String::from_str(READ_FAILED_PREFIX);
                    status.append(error.as_str());
                    summary = Some(summarize(status.as_str()));
                    store.publish(status, true);
                    log = log_once(store, PollerLog::ReadFailed);
                    PollerState::Polling(PollPhase::Waiting)
                },
                _ => PollerState::Cancelling,
            },
            PollerState::Polling(PollPhase::Waiting) => match event {
                PollerEvent::WaitElapsed => PollerState::Polling(PollPhase::Checking),
                _ => PollerState::Cancelling,
            },
        };
        self.state = next;
        PollerStep { next, action: pending_action(next), log, summary }
    }
}

/// The state after a run of events.
pub open spec fn poller_run(state: PollerState, events: Seq<PollerEvent>) -> PollerState
    decreases events.len(),
{
    if events.len() == 0 {
        state
    } else {
        poller_run(poller_next(state, events[0]), events.drop_first())
    }
}

/// Whether an event can happen while the cancellation signal is up: it
/// answers the work that was asked for, and a look at the signal finds it.
pub open spec fn answers_under_cancel(state: PollerState, event: PollerEvent) -> bool {
    poller_awaits(state, event) && event != PollerEvent::CancelChecked(false)
}

/// Whether a run of events can happen while the cancellation signal is up.
pub open spec fn cancelled_run(state: PollerState, events: Seq<PollerEvent>) -> bool
    decreases events.len(),
{
    events.len() > 0 ==> answers_under_cancel(state, events[0]) && cancelled_run(
        poller_next(state, events[0]),
        events.drop_first(),
    )
}

/// How many sleeps of the poll interval end within a run.
pub open spec fn waits_in(events: Seq<PollerEvent>) -> nat
    decreases events.len(),
{
    if events.len() == 0 {
        0
    } else {
        let here: nat = if events[0] is WaitElapsed {
            1
        } else {
            0
        };
        here + waits_in(events.drop_first())
    }
}

/// How many writes of a request end within a run.
pub open spec fn writes_in(events: Seq<PollerEvent>) -> nat
    decreases events.len(),
{
    if events.len() == 0 {
        0
    } else {
        let here: nat = if events[0] is Sent || events[0] is SendFailed {
            1
        } else {
            0
        };
        here + writes_in(events.drop_first())
    }
}

/// How many reads of a response end within a run.
pub open spec fn reads_in(events: Seq<PollerEvent>) -> nat
    decreases events.len(),
{
    if events.len() == 0 {
        0
    } else {
        let here: nat = if events[0] is ReadDone || events[0] is ReadFailed {
            1
        } else {
            0
        };
        here + reads_in(events.drop_first())
    }
}

/// The most events that can still happen in a state while the signal is up.
pub open spec fn steps_left(state: PollerState) -> nat {
    match state {
        PollerState::Stopped => 0,
        PollerState::Cancelling => 1,
        PollerState::Polling(PollPhase::Checking) => 2,
        PollerState::Polling(PollPhase::Waiting) => 3,
        PollerState::Polling(PollPhase::Receiving) => 4,
        PollerState::Polling(PollPhase::Sending) => 5,
        PollerState::Connecting => 3,
    }
}

/// Whether the round under way in a state still has its sleep before it.
pub open spec fn wait_ahead(state: PollerState) -> bool {
    state matches PollerState::Polling(phase) && phase != PollPhase::Checking
}

/// Whether the round under way in a state still has its read before it.
pub open spec fn read_ahead(state: PollerState) -> bool {
    state == PollerState::Polling(PollPhase::Sending) || state == PollerState::Polling(
        PollPhase::Receiving,
    )
}

/// Whether the round under way in a state still has its write before it.
pub open spec fn write_ahead(state: PollerState) -> bool {
    state == PollerState::Polling(PollPhase::Sending)
}

/// `Stopped` is final: whatever is reported to a stopped session, a
/// cancellation included, it stays stopped, asks for no shutdown, logs
/// nothing and leaves the store alone.
pub proof fn lemma_stopped_is_final(schema: Schema, event: PollerEvent, store: StoreView)
    ensures
        poller_transition(schema, PollerState::Stopped, event, store) == (PollerStep {
            next: PollerState::Stopped,
            action: PollerAction::Finish,
            log: None,
            summary: None,
        }),
        store_after(schema, PollerState::Stopped, event, store) == store,
{
}

/// A failed connect is not tried again: the session stops at once, with the
/// error flag up and the status that says so.
pub proof fn lemma_failed_connect_stops(schema: Schema, store: StoreView)
    ensures
        poller_next(PollerState::Connecting, PollerEvent::ConnectFailed) == PollerState::Stopped,
        store_after(schema, PollerState::Connecting, PollerEvent::ConnectFailed, store).is_error,
        store_after(schema, PollerState::Connecting, PollerEvent::ConnectFailed, store).status
            == CONNECT_FAILED_STATUS@,
        log_of(PollerState::Connecting, PollerEvent::ConnectFailed, store) == if store.error_logged {
            None
        } else {
            Some(PollerLog::ConnectFailed)
        },
{
}

/// A session that is not stopped always waits on some outside work, and
/// there is an outcome that answers it while the signal is up.
pub proof fn lemma_never_stuck(state: PollerState) -> (event: PollerEvent)
    requires
        state != PollerState::Stopped,
    ensures
        answers_under_cancel(state, event),
{
    match state {
        PollerState::Connecting => PollerEvent::Connected,
        PollerState::Polling(PollPhase::Checking) => PollerEvent::CancelChecked(true),
        PollerState::Polling(PollPhase::Sending) => PollerEvent::Sent,
        PollerState::Polling(PollPhase::Receiving) => PollerEvent::ReadDone(arbitrary()),
        PollerState::Polling(PollPhase::Waiting) => PollerEvent::WaitElapsed,
        _ => PollerEvent::ShutdownDone,
    }
}

/// Cancellation is honoured within one round. Once the signal is up, no run
/// of events has more than five of them, and none holds more than one sleep
/// of the poll interval, one write and one read.
pub proof fn lemma_cancellation_within_one_round(state: PollerState, events: Seq<PollerEvent>)
    requires
        cancelled_run(state, events),
    ensures
        events.len() <= steps_left(state) <= 5,
        waits_in(events) <= 1,
        writes_in(events) <= 1,
        reads_in(events) <= 1,
        waits_in(events) == 1 ==> wait_ahead(state),
        writes_in(events) == 1 ==> write_ahead(state),
        reads_in(events) == 1 ==> read_ahead(state),
        events.len() == steps_left(state) ==> poller_run(state, events) == PollerState::Stopped,
    decreases events.len(),
{
    if events.len() > 0 {
        lemma_cancellation_within_one_round(poller_next(state, events[0]), events.drop_first());
    }
}

/// The time that a run of events takes at most, where a sleep takes the
/// poll interval and no write or read takes longer than the bounds given:
/// the work on the signal and on the socket's shutdown does not block.
pub open spec fn time_spent(events: Seq<PollerEvent>, interval: nat, write: nat, read: nat) -> nat {
    waits_in(events) * interval + writes_in(events) * write + reads_in(events) * read
}

/// Cancellation latency is bounded: once the signal is up, the session
/// stops within the poll interval and one round trip, the time of one write
/// and one read; and at once where no round is under way.
pub proof fn lemma_cancellation_latency(
    state: PollerState,
    events: Seq<PollerEvent>,
    interval: nat,
    write: nat,
    read: nat,
)
    requires
        cancelled_run(state, events),
    ensures
        time_spent(events, interval, write, read) <= interval + write + read,
        !wait_ahead(state) ==> time_spent(events, interval, write, read) == 0,
{
    lemma_cancellation_within_one_round(state, events);
    assert(waits_in(events) * interval <= interval) by (nonlinear_arith)
        requires
            waits_in(events) <= 1,
    ;
    assert(writes_in(events) * write <= write) by (nonlinear_arith)
        requires
            writes_in(events) <= 1,
    ;
    assert(reads_in(events) * read <= read) by (nonlinear_arith)
        requires
            reads_in(events) <= 1,
    ;
    if !wait_ahead(state) {
        assert(waits_in(events) == 0 && writes_in(events) == 0 && reads_in(events) == 0);
        assert(time_spent(events, interval, write, read) == 0) by (nonlinear_arith)
            requires
                waits_in(events) == 0 && writes_in(events) == 0 && reads_in(events) == 0,
                time_spent(events, interval, write, read) == waits_in(events) * interval
                    + writes_in(events) * write + reads_in(events) * read,
        ;
    }
}

/// While the signal is up, a session that has not stopped can always go on:
/// so a run that cannot be continued has ended in `Stopped`.
pub proof fn lemma_cancelled_run_goes_on(state: PollerState, events: Seq<PollerEvent>) -> (event:
    PollerEvent)
    requires
        cancelled_run(state, events),
        poller_run(state, events) != PollerState::Stopped,
    ensures
        cancelled_run(state, events.push(event)),
    decreases events.len(),
{
    if events.len() == 0 {
        let event = lemma_never_stuck(state);
        let longer = events.push(event);
        assert(longer[0] == event);
        assert(longer.drop_first() =~= events);
        assert(cancelled_run(poller_next(state, event), longer.drop_first()));
        event
    } else {
        let event = lemma_cancelled_run_goes_on(
            poller_next(state, events[0]),
            events.drop_first(),
        );
        let longer = events.push(event);
        assert(longer[0] == events[0]);
        assert(longer.drop_first() =~= events.drop_first().push(event));
        event
    }
}

/// How many of the events of a run report a failure that is logged once.
pub open spec fn failures_in(state: PollerState, events: Seq<PollerEvent>) -> nat
    decreases events.len(),
{
    if events.len() == 0 {
        0
    } else {
        let here: nat = if is_logged_failure(state, events[0]) {
            1
        } else {
            0
        };
        here + failures_in(poller_next(state, events[0]), events.drop_first())
    }
}

/// How many lines a run puts into the log for failures.
pub open spec fn failure_lines(
    schema: Schema,
    state: PollerState,
    store: StoreView,
    events: Seq<PollerEvent>,
) -> nat
    decreases events.len(),
{
    if events.len() == 0 {
        0
    } else {
        let here: nat = if is_logged_failure(state, events[0]) && log_of(state, events[0], store)
            is Some {
            1
        } else {
            0
        };
        here + failure_lines(
            schema,
            poller_next(state, events[0]),
            store_after(schema, state, events[0], store),
            events.drop_first(),
        )
    }
}

/// The store after a run of events.
pub open spec fn store_after_run(
    schema: Schema,
    state: PollerState,
    store: StoreView,
    events: Seq<PollerEvent>,
) -> StoreView
    decreases events.len(),
{
    if events.len() == 0 {
        store
    } else {
        store_after_run(
            schema,
            poller_next(state, events[0]),
            store_after(schema, state, events[0], store),
            events.drop_first(),
        )
    }
}

/// Failures are logged once. However many failures a run of events reports,
/// it puts one line into the log for them if none was logged before, and
/// none otherwise; and no event of a poller lowers the flag that says so.
pub proof fn lemma_failures_are_logged_once(
    schema: Schema,
    state: PollerState,
    store: StoreView,
    events: Seq<PollerEvent>,
)
    ensures
        failure_lines(schema, state, store, events) == if !store.error_logged && failures_in(
            state,
            events,
        ) > 0 {
            1nat
        } else {
            0nat
        },
        store_after_run(schema, state, store, events).error_logged == (store.error_logged
            || failures_in(state, events) > 0),
    decreases events.len(),
{
    if events.len() > 0 {
        lemma_failures_are_logged_once(
            schema,
            poller_next(state, events[0]),
            store_after(schema, state, events[0], store),
            events.drop_first(),
        );
    }
}

/// A payload that arrives is no loss of the connection: whatever it holds,
/// well-formed or not, the error flag is cleared and the status is what the
/// formatter makes of it. A read that returns nothing raises the flag, and
/// the session goes on polling all the same.
pub proof fn lemma_read_outcomes(schema: Schema, bytes: Vec<u8>, store: StoreView)
    ensures
        poller_next(PollerState::Polling(PollPhase::Receiving), PollerEvent::ReadDone(bytes))
            == PollerState::Polling(PollPhase::Waiting),
        bytes@.len() > 0 ==> store_after(
            schema,
            PollerState::Polling(PollPhase::Receiving),
            PollerEvent::ReadDone(bytes),
            store,
        ) == store.published(status_text(schema, utf8_lossy(bytes@)), false),
        bytes@.len() == 0 ==> store_after(
            schema,
            PollerState::Polling(PollPhase::Receiving),
            PollerEvent::ReadDone(bytes),
            store,
        ) == store.published(PEER_CLOSED_STATUS@, true),
{
}

/// What the status line counts as a failure: a read that failed and a
/// payload that is not JSON carry the mark, whatever else they hold; the
/// note that the peer closed its end does not.
pub proof fn lemma_failures_are_marked(error: Seq<char>, raw: Seq<char>)
    ensures
        summary_of_status(READ_FAILED_PREFIX@ + error) == LastAction::Failure,
        summary_of_status(parse_failure_text(error, raw)) == LastAction::Failure,
        summary_of_status(PEER_CLOSED_STATUS@) == LastAction::Success,
{
    reveal_strlit("Ошибка");
    reveal_strlit("Ошибка чтения: ");
    reveal_strlit("Ошибка парсинга данных: ");
    reveal_strlit("Соединение закрыто сервером");
    let mark = FAILURE_MARK@;
    let read_failed = READ_FAILED_PREFIX@ + error;
    assert(read_failed.subrange(0, 0 + mark.len() as int) =~= mark);
    let fallback = parse_failure_text(error, raw);
    assert(fallback.subrange(0, 0 + mark.len() as int) =~= mark);
    let closed = PEER_CLOSED_STATUS@;
    assert forall|i: int| 0 <= i && i + mark.len() <= closed.len() implies #[trigger] closed.subrange(
        i,
        i + mark.len() as int,
    ) != mark by {
        assert(closed.subrange(i, i + mark.len() as int)[0] == closed[i]);
        assert(mark[0] == 'О');
        assert(closed[i] != 'О');
    }
}

} // verus!
