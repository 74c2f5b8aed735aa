//! The cell through which a network worker hands the latest status of one
//! session to whoever presents it. The last write wins; nothing queues.

use vstd::prelude::*;

verus! {

/// What the cell of one session holds.
pub struct SharedStateStore {
    status: String,
    is_error: bool,
    error_logged: bool,
}

/// The contents of a store, as mathematics sees them.
pub struct StoreView {
    /// The latest published status.
    pub status: Seq<char>,
    /// Whether the session counts as unavailable.
    pub is_error: bool,
    /// Whether a failure of the session has already been logged.
    pub error_logged: bool,
}

/// What a presenter reads: the latest status and the error flag.
#[derive(Clone, Debug, PartialEq, Eq)]
pub struct StatusSnapshot {
    /// The latest published status.
    pub status: String,
    /// Whether the session counts as unavailable.
    pub is_error: bool,
}

impl StoreView {
    /// The store after a status and an error flag were published.
    pub open spec fn published(self, status: Seq<char>, is_error: bool) -> StoreView {
        StoreView { status, is_error, error_logged: self.error_logged }
    }

    /// The store after the error flag alone was set or cleared.
    pub open spec fn flagged(self, is_error: bool) -> StoreView {
        StoreView { status: self.status, is_error, error_logged: self.error_logged }
    }

    /// The store after a failure was noted for the log.
    pub open spec fn noted(self) -> StoreView {
        StoreView { status: self.status, is_error: self.is_error, error_logged: true }
    }

    /// A fresh store that shows `status`.
    pub open spec fn fresh(status: Seq<char>) -> StoreView {
        StoreView { status, is_error: false, error_logged: false }
    }
}

impl View for SharedStateStore {
    type V = StoreView;

    closed spec fn view(&self) -> StoreView {
        StoreView {
            status: self.status@,
            is_error: self.is_error,
            error_logged: self.error_logged,
        }
    }
}

impl SharedStateStore {
    /// A store that shows `status`, with both flags clear.
    pub fn new(status: &str) -> (r: SharedStateStore)
        ensures
            r@ == StoreView::fresh(status@),
    {
        SharedStateStore { status: String::from_str(status), is_error: false, error_logged: false }
    }

    /// Overwrites the status and the error flag.
    pub fn publish(&mut self, status: String, is_error: bool)
        ensures
            final(self)@ == old(self)@.published(status@, is_error),
    {
        self.status = status;
        self.is_error = is_error;
    }

    /// Sets or clears the error flag and keeps the status.
    pub fn set_error(&mut self, is_error: bool)
        ensures
            final(self)@ == old(self)@.flagged(is_error),
    {
        self.is_error = is_error;
    }

    /// The latest published status and error flag.
    pub fn snapshot(&self) -> (r: StatusSnapshot)
        ensures
            r.status@ == self@.status,
            r.is_error == self@.is_error,
    {
        StatusSnapshot { status: self.status.clone(), is_error: self.is_error }
    }

    /// Whether the session counts as unavailable.
    pub fn is_error(&self) -> (r: bool)
        ensures
            r == self@.is_error,
    {
        self.is_error
    }

    /// Whether a failure of the session has already been logged.
    pub fn error_logged(&self) -> (r: bool)
        ensures
            r == self@.error_logged,
    {
        self.error_logged
    }

    /// Notes a failure for the log: says whether a line is due, which it is
    /// only for the first failure since the last restart.
    pub fn note_failure(&mut self) -> (due: bool)
        ensures
            due == !old(self)@.error_logged,
            final(self)@ == old(self)@.noted(),
    {
        let due = !self.error_logged;
        self.error_logged = true;
        due
    }

    /// Restarts the session's cell: shows `status` and clears both flags.
    pub fn restart(&mut self, status: &str)
        ensures
            final(self)@ == StoreView::fresh(status@),
    {
        self.status = String::from_str(status);
        self.is_error = false;
        self.error_logged = false;
    }
}

/// Last write wins: after two publications the store shows the second, as
/// if the first had never been made.
pub proof fn lemma_last_write_wins(
    store: StoreView,
    first: Seq<char>,
    first_error: bool,
    second: Seq<char>,
    second_error: bool,
)
    ensures
        store.published(first, first_error).published(second, second_error) == store.published(
            second,
            second_error,
        ),
{
}

} // verus!
