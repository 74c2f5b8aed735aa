//! The client's orchestration: two sessions, one per server, each started
//! and stopped on its own, and what is shown for them.

use vstd::prelude::*;
use crate::poller::{
    poller_transition, store_after, ClientPoller, LastAction, PollerEvent, PollerStep,
};
use crate::wire::Schema;
use crate::store::{SharedStateStore, StatusSnapshot, StoreView};

verus! {

/// Shown for a session that has published nothing yet.
pub const NO_DATA_STATUS: &'static str = "Нет данных";

/// Shown in place of the status while the error flag is up.
pub const UNAVAILABLE_STATUS: &'static str = "Сервер отключен или недоступен";

/// The status message of a client that has done nothing yet.
pub const READY_MESSAGE: &'static str = "Готов";

/// The status message after the first session was stopped.
pub const DISCONNECTED_1_MESSAGE: &'static str = "Отключено от сервера 1";

/// The status message after the second session was stopped.
pub const DISCONNECTED_2_MESSAGE: &'static str = "Отключено от сервера 2";

/// The status message after a round that succeeded.
pub const SUCCESS_MESSAGE: &'static str = "Последнее действие: Успех";

/// The status message after a round that failed.
pub const FAILURE_MESSAGE: &'static str = "Последнее действие: Ошибка";

/// What the status line starts with.
pub const STATUS_LINE_PREFIX: &'static str = "Статус: ";

/// Where the first session connects unless told otherwise.
pub const DEFAULT_TARGET_1: &'static str = "127.0.0.1:7878";

/// Where the second session connects unless told otherwise.
pub const DEFAULT_TARGET_2: &'static str = "127.0.0.1:7879";

/// One of the two sessions of a client.
pub struct Session {
    target: String,
    connected: bool,
    store: SharedStateStore,
}

/// A session, as mathematics sees it.
pub struct SessionView {
    /// The address the session connects to.
    pub target: Seq<char>,
    /// Whether the session was started and not stopped since.
    pub connected: bool,
    /// The session's cell.
    pub store: StoreView,
}

impl View for Session {
    type V = SessionView;

    closed spec fn view(&self) -> SessionView {
        SessionView { target: self.target@, connected: self.connected, store: self.store@ }
    }
}

impl SessionView {
    /// A session that was never started.
    pub open spec fn idle(target: Seq<char>) -> SessionView {
        SessionView { target, connected: false, store: StoreView::fresh(NO_DATA_STATUS@) }
    }

    /// The session once it is started.
    pub open spec fn started(self) -> SessionView {
        SessionView { target: self.target, connected: true, store: self.store }
    }

    /// The session once it is stopped: as if it had never run.
    pub open spec fn stopped(self) -> SessionView {
        SessionView::idle(self.target)
    }

    /// The session with another cell.
    pub open spec fn with_store(self, store: StoreView) -> SessionView {
        SessionView { target: self.target, connected: self.connected, store }
    }

    /// The session with another target.
    pub open spec fn with_target(self, target: Seq<char>) -> SessionView {
        SessionView { target, connected: self.connected, store: self.store }
    }

    /// What is shown for the session: the status, or the note that stands
    /// for it while the error flag is up.
    pub open spec fn shown(self) -> Seq<char> {
        if self.store.is_error {
            UNAVAILABLE_STATUS@
        } else {
            self.store.status
        }
    }
}

/// The client: its two sessions, its status message and its identifier.
pub struct ClientApp {
    server1: Session,
    server2: Session,
    status_message: String,
    client_id: u128,
}

/// A client, as mathematics sees it.
pub struct ClientView {
    /// The session with the mouse server.
    pub server1: SessionView,
    /// The session with the process server.
    pub server2: SessionView,
    /// What the status line says after its prefix.
    pub status_message: Seq<char>,
    /// The identifier under which the client logs.
    pub client_id: u128,
}

impl View for ClientApp {
    type V = ClientView;

    closed spec fn view(&self) -> ClientView {
        ClientView {
            server1: self.server1@,
            server2: self.server2@,
            status_message: self.status_message@,
            client_id: self.client_id,
        }
    }
}

/// What the orchestrator needs to start a session.
#[derive(Clone, Debug, PartialEq, Eq)]
pub struct Launch {
    /// The address to connect to.
    pub target: String,
    /// The layout in which the server answers.
    pub schema: Schema,
}

/// Whether a number names one of the two sessions.
pub open spec fn names_session(server_number: u8) -> bool {
    server_number == 1 || server_number == 2
}

/// The layout in which a server answers.
pub open spec fn schema_of(server_number: u8) -> Schema {
    if server_number == 1 {
        Schema::Mouse
    } else {
        Schema::Process
    }
}

/// The status message after a session was stopped.
pub open spec fn disconnected_message(server_number: u8) -> Seq<char> {
    if server_number == 1 {
        DISCONNECTED_1_MESSAGE@
    } else {
        DISCONNECTED_2_MESSAGE@
    }
}

/// The status message after a round.
pub open spec fn round_message(summary: LastAction) -> Seq<char> {
    match summary {
        LastAction::Success => SUCCESS_MESSAGE@,
        LastAction::Failure => FAILURE_MESSAGE@,
    }
}

impl ClientView {
    /// A client that has done nothing yet.
    pub open spec fn initial(client_id: u128) -> ClientView {
        ClientView {
            server1: SessionView::idle(DEFAULT_TARGET_1@),
            server2: SessionView::idle(DEFAULT_TARGET_2@),
            status_message: READY_MESSAGE@,
            client_id,
        }
    }

    /// The session that a number names; the second for any number but 1.
    pub open spec fn session(self, server_number: u8) -> SessionView {
        if server_number == 1 {
            self.server1
        } else {
            self.server2
        }
    }

    /// The client with one session replaced.
    pub open spec fn with_session(self, server_number: u8, session: SessionView) -> ClientView {
        if server_number == 1 {
            ClientView {
                server1: session,
                server2: self.server2,
                status_message: self.status_message,
                client_id: self.client_id,
            }
        } else {
            ClientView {
                server1: self.server1,
                server2: session,
                status_message: self.status_message,
                client_id: self.client_id,
            }
        }
    }

    /// The client with another status message.
    pub open spec fn with_message(self, status_message: Seq<char>) -> ClientView {
        ClientView {
            server1: self.server1,
            server2: self.server2,
            status_message,
            client_id: self.client_id,
        }
    }

    /// Whether a request to connect starts a session.
    pub open spec fn launches(self, server_number: u8) -> bool {
        names_session(server_number) && !self.session(server_number).connected
    }

    /// The client after a request to connect.
    pub open spec fn after_connect(self, server_number: u8) -> ClientView {
        if self.launches(server_number) {
            self.with_session(server_number, self.session(server_number).started())
        } else {
            self
        }
    }

    /// Whether a request to disconnect stops a session.
    pub open spec fn tears_down(self, server_number: u8) -> bool {
        names_session(server_number) && self.session(server_number).connected
    }

    /// The client after a request to disconnect.
    pub open spec fn after_disconnect(self, server_number: u8) -> ClientView {
        if self.tears_down(server_number) {
            self.with_session(server_number, self.session(server_number).stopped()).with_message(
                disconnected_message(server_number),
            )
        } else {
            self
        }
    }

    /// The client after a poller of one session took an event.
    pub open spec fn after_event(
        self,
        server_number: u8,
        poller: ClientPoller,
        event: PollerEvent,
    ) -> ClientView {
        if names_session(server_number) {
            let session = self.session(server_number);
            let step = poller_transition(poller.schema(), poller@, event, session.store);
            let store = store_after(poller.schema(), poller@, event, session.store);
            let updated = self.with_session(server_number, session.with_store(store));
            match step.summary {
                Some(summary) => updated.with_message(round_message(summary)),
                None => updated,
            }
        } else {
            self
        }
    }
}

impl Session {
    fn idle(target: &str) -> (r: Session)
        ensures
            r@ == SessionView::idle(target@),
    {
        Session {
            target: String::from_str(target),
            connected: false,
            store: SharedStateStore::new(NO_DATA_STATUS),
        }
    }

    fn start(&mut self) -> (r: String)
        ensures
            final(self)@ == old(self)@.started(),
            r@ == old(self)@.target,
    {
        self.connected = true;
        self.target.clone()
    }

    fn stop(&mut self)
        ensures
            final(self)@ == old(self)@.stopped(),
    {
        self.connected = false;
        self.store.restart(NO_DATA_STATUS);
    }

    fn shown(&self) -> (r: String)
        ensures
            r@ == self@.shown(),
    {
        if self.store.is_error() {
            String::from_str(UNAVAILABLE_STATUS)
        } else {
            self.store.snapshot().status
        }
    }
}

impl ClientApp {
    /// A client that has done nothing yet.
    pub fn new(client_id: u128) -> (r: ClientApp)
        ensures
            r@ == ClientView::initial(client_id),
    {
        ClientApp {
            server1: Session::idle(DEFAULT_TARGET_1),
            server2: Session::idle(DEFAULT_TARGET_2),
            status_message: String::from_str(READY_MESSAGE),
            client_id,
        }
    }

    /// The identifier of this client.
    pub fn client_id(&self) -> (r: u128)
        ensures
            r == self@.client_id,
    {
        self.client_id
    }

    /// Whether a session was started and not stopped since. A number that
    /// names no session is never connected.
    pub fn is_connected(&self, server_number: u8) -> (r: bool)
        ensures
            r == (names_session(server_number) && self@.session(server_number).connected),
    {
        if server_number == 1 {
            self.server1.connected
        } else if server_number == 2 {
            self.server2.connected
        } else {
            false
        }
    }

    /// Points a session at another address. A number that names no session
    /// changes nothing.
    pub fn set_target(&mut self, server_number: u8, target: &str)
        ensures
            final(self)@ == if names_session(server_number) {
                old(self)@.with_session(
                    server_number,
                    old(self)@.session(server_number).with_target(target@),
                )
            } else {
                old(self)@
            },
    {
        if server_number == 1 {
            self.server1.target = String::from_str(target);
        } else if server_number == 2 {
            self.server2.target = String::from_str(target);
        }
    }

    /// Asks for a session to be started. Where the number names a session
    /// that is not connected, the session counts as connected from now on
    /// and the caller is told where to connect and which layout to expect;
    /// otherwise nothing changes.
    pub fn connect_to_server(&mut self, server_number: u8) -> (r: Option<Launch>)
        ensures
            final(self)@ == old(self)@.after_connect(server_number),
            r is Some == old(self)@.launches(server_number),
            r matches Some(launch) ==> launch.target@ == old(self)@.session(server_number).target
                && launch.schema == schema_of(server_number),
    {
        if server_number == 1 && !self.server1.connected {
            let target = self.server1.start();
            Some(Launch { target, schema: Schema::Mouse })
        } else if server_number == 2 && !self.server2.connected {
            let target = self.server2.start();
            Some(Launch { target, schema: Schema::Process })
        } else {
            None
        }
    }

    /// Asks for a session to be stopped. Where the number names a connected
    /// session, its cell is restarted, the status message says so, and the
    /// answer is `true`: the caller raises the session's cancellation signal
    /// and logs the disconnect. Otherwise nothing changes and the answer is
    /// `false`.
    pub fn disconnect_from_server(&mut self, server_number: u8) -> (r: bool)
        ensures
            final(self)@ == old(self)@.after_disconnect(server_number),
            r == old(self)@.tears_down(server_number),
    {
        if server_number == 1 && self.server1.connected {
            self.server1.stop();
            self.status_message = String::from_str(DISCONNECTED_1_MESSAGE);
            true
        } else if server_number == 2 && self.server2.connected {
            self.server2.stop();
            self.status_message = String::from_str(DISCONNECTED_2_MESSAGE);
            true
        } else {
            false
        }
    }

    /// Hands an event to the poller of one session, with that session's
    /// cell to publish to, and sets the status message where the event ended
    /// a round. A number that names no session changes nothing.
    pub fn deliver(&mut self, server_number: u8, poller: &mut ClientPoller, event: PollerEvent) -> (r:
        Option<PollerStep>)
        ensures
            final(self)@ == old(self)@.after_event(server_number, *old(poller), event),
            r is Some == names_session(server_number),
            r matches Some(step) ==> step == poller_transition(
                old(poller).schema(),
                old(poller)@,
                event,
                old(self)@.session(server_number).store,
            ) && final(poller)@ == step.next && final(poller).schema() == old(poller).schema(),
            r is None ==> *final(poller) == *old(poller),
    {
        if server_number == 1 {
            let step = poller.step(&mut self.server1.store, event);
            self.note_round(step.summary);
            Some(step)
        } else if server_number == 2 {
            let step = poller.step(&mut self.server2.store, event);
            self.note_round(step.summary);
            Some(step)
        } else {
            None
        }
    }

    fn note_round(&mut self, summary: Option<LastAction>)
        ensures
            final(self)@ == match summary {
                Some(summary) => old(self)@.with_message(round_message(summary)),
                None => old(self)@,
            },
    {
        match summary {
            Some(LastAction::Success) => {
                self.status_message = String::from_str(SUCCESS_MESSAGE);
            },
            Some(LastAction::Failure) => {
                self.status_message = String::from_str(FAILURE_MESSAGE);
            },
            None => {},
        }
    }

    /// What is shown for a session: its status, or the note that stands for
    /// it while the error flag is up. Nothing is shown for a number that
    /// names no session.
    pub fn shown_status(&self, server_number: u8) -> (r: Option<String>)
        ensures
            r is Some == names_session(server_number),
            r matches Some(text) ==> text@ == self@.session(server_number).shown(),
    {
        if server_number == 1 {
            Some(self.server1.shown())
        } else if server_number == 2 {
            Some(self.server2.shown())
        } else {
            None
        }
    }

    /// The latest status and error flag of a session, as published.
    pub fn snapshot(&self, server_number: u8) -> (r: Option<StatusSnapshot>)
        ensures
            r is Some == names_session(server_number),
            r matches Some(snapshot) ==> snapshot.status@ == self@.session(
                server_number,
            ).store.status && snapshot.is_error == self@.session(server_number).store.is_error,
    {
        if server_number == 1 {
            Some(self.server1.store.snapshot())
        } else if server_number == 2 {
            Some(self.server2.store.snapshot())
        } else {
            None
        }
    }

    /// The status line.
    pub fn status_line(&self) -> (r: String)
        ensures
            r@ == STATUS_LINE_PREFIX@ + self@.status_message,
    {
        let mut line = String::from_str(STATUS_LINE_PREFIX);
        line.append(self.status_message.as_str());
        line
    }
}

/// Disconnecting is idempotent: a second request to stop a session tears
/// nothing down and changes nothing.
pub proof fn lemma_disconnect_is_idempotent(client: ClientView, server_number: u8)
    ensures
        !client.after_disconnect(server_number).tears_down(server_number),
        client.after_disconnect(server_number).after_disconnect(server_number)
            == client.after_disconnect(server_number),
{
}

/// Connecting is idempotent too: a session that counts as connected is not
/// started a second time.
pub proof fn lemma_connect_is_idempotent(client: ClientView, server_number: u8)
    ensures
        !client.after_connect(server_number).launches(server_number),
        client.after_connect(server_number).after_connect(server_number) == client.after_connect(
            server_number,
        ),
{
}

/// Stopping a session restarts its cell: both flags are down and nothing is
/// shown, so the next failure of a fresh session is logged again.
pub proof fn lemma_disconnect_restarts_the_cell(client: ClientView, server_number: u8)
    requires
        client.tears_down(server_number),
    ensures
        client.after_disconnect(server_number).session(server_number).store == StoreView::fresh(
            NO_DATA_STATUS@,
        ),
        !client.after_disconnect(server_number).session(server_number).connected,
        client.after_disconnect(server_number).session(server_number).target == client.session(
            server_number,
        ).target,
{
}

/// The sessions are isolated: whatever one of them is asked or told, the
/// other keeps its target, its state and its cell.
pub proof fn lemma_sessions_are_isolated(
    client: ClientView,
    server_number: u8,
    other: u8,
    poller: ClientPoller,
    event: PollerEvent,
)
    requires
        names_session(server_number),
        names_session(other),
        server_number != other,
    ensures
        client.after_event(server_number, poller, event).session(other) == client.session(other),
        client.after_connect(server_number).session(other) == client.session(other),
        client.after_disconnect(server_number).session(other) == client.session(other),
{
}

/// No event of a poller lowers the flag that says a failure was logged: it
/// goes down only when the session is stopped by the orchestrator.
pub proof fn lemma_only_a_restart_clears_the_log_flag(
    client: ClientView,
    server_number: u8,
    poller: ClientPoller,
    event: PollerEvent,
)
    requires
        names_session(server_number),
        client.session(server_number).store.error_logged,
    ensures
        client.after_event(server_number, poller, event).session(
            server_number,
        ).store.error_logged,
{
}

} // verus!
