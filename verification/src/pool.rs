//! The bounded pool behind a listener: every accepted connection is taken
//! in, at most `capacity` of them are handled at a time, and the others wait
//! their turn in the order in which they came.

use vstd::prelude::*;

verus! {

/// The number of worker slots of a server.
pub const POOL_CAPACITY: usize = 5;

/// A pool, as mathematics sees it: the connections it tracks, oldest first.
/// The first `capacity` of them hold a worker; the others wait.
pub struct PoolView {
    /// The number of workers.
    pub capacity: nat,
    /// The tracked connections in their order of arrival.
    pub queue: Seq<u64>,
}

/// What became of a connection that was handed to the pool.
#[derive(Clone, Copy, Debug, PartialEq, Eq, Structural)]
pub enum Admission {
    /// A worker is free: handle the connection now.
    Started,
    /// All workers are busy: the connection waits for one.
    Queued,
    /// The pool tracks this connection already; nothing changed.
    AlreadyTracked,
}

impl PoolView {
    /// Validity: there is a worker, and no connection is tracked twice.
    pub open spec fn wf(self) -> bool {
        self.capacity > 0 && self.queue.no_duplicates()
    }

    /// How many connections hold a worker.
    pub open spec fn active_count(self) -> nat {
        if self.queue.len() <= self.capacity {
            self.queue.len()
        } else {
            self.capacity
        }
    }

    /// The connections that hold a worker.
    pub open spec fn active(self) -> Seq<u64> {
        self.queue.take(self.active_count() as int)
    }

    /// The connections that wait for a worker, next in line first.
    pub open spec fn waiting(self) -> Seq<u64> {
        self.queue.skip(self.active_count() as int)
    }

    /// Whether the pool tracks a connection.
    pub open spec fn tracks(self, conn: u64) -> bool {
        self.queue.contains(conn)
    }

    /// Whether a connection holds a worker.
    pub open spec fn is_active(self, conn: u64) -> bool {
        self.active().contains(conn)
    }

    /// Whether a connection waits for a worker.
    pub open spec fn is_waiting(self, conn: u64) -> bool {
        self.waiting().contains(conn)
    }

    /// What becomes of a connection that is handed in.
    pub open spec fn admission(self, conn: u64) -> Admission {
        if self.tracks(conn) {
            Admission::AlreadyTracked
        } else if self.queue.len() < self.capacity {
            Admission::Started
        } else {
            Admission::Queued
        }
    }

    /// The pool after a connection was handed in.
    pub open spec fn submitted(self, conn: u64) -> PoolView {
        if self.tracks(conn) {
            self
        } else {
            PoolView { capacity: self.capacity, queue: self.queue.push(conn) }
        }
    }

    /// The connection that takes over the worker which `conn` gives up.
    pub open spec fn promoted(self, conn: u64) -> Option<u64> {
        if self.is_active(conn) && self.queue.len() > self.capacity {
            Some(self.queue[self.capacity as int])
        } else {
            None
        }
    }

    /// The pool after `conn` gave up its worker. Only a connection that
    /// holds a worker can give one up.
    pub open spec fn released(self, conn: u64) -> PoolView {
        if self.is_active(conn) {
            PoolView {
                capacity: self.capacity,
                queue: self.queue.remove(self.queue.index_of(conn)),
            }
        } else {
            self
        }
    }
}

/// In a sequence without duplicates an element sits at one index only.
pub proof fn lemma_index_is_unique(queue: Seq<u64>, i: int)
    requires
        queue.no_duplicates(),
        0 <= i < queue.len(),
    ensures
        queue.index_of(queue[i]) == i,
{
    let j = queue.index_of(queue[i]);
    assert(0 <= j < queue.len() && queue[j] == queue[i]);
}

/// The pool of one server.
pub struct WorkerPool {
    capacity: usize,
    queue: Vec<u64>,
}

impl View for WorkerPool {
    type V = PoolView;

    closed spec fn view(&self) -> PoolView {
        PoolView { capacity: self.capacity as nat, queue: self.queue@ }
    }
}

impl WorkerPool {
    #[verifier::type_invariant]
    spec fn valid(self) -> bool {
        self.capacity > 0 && self.queue@.no_duplicates()
    }

    /// An empty pool with `capacity` workers; none without a worker.
    pub fn new(capacity: usize) -> (r: Option<WorkerPool>)
        ensures
            r is Some == (capacity > 0),
            r matches Some(pool) ==> pool@.capacity == capacity && pool@.queue == Seq::<u64>::empty()
                && pool@.wf(),
    {
        if capacity == 0 {
            None
        } else {
            Some(WorkerPool { capacity, queue: Vec::new() })
        }
    }

    /// The number of workers.
    pub fn capacity(&self) -> (r: usize)
        ensures
            r == self@.capacity,
            self@.wf(),
    {
        proof {
            use_type_invariant(self);
        }
        self.capacity
    }

    /// How many connections hold a worker.
    pub fn active_len(&self) -> (r: usize)
        ensures
            r == self@.active_count(),
            r <= self@.capacity,
    {
        if self.queue.len() <= self.capacity {
            self.queue.len()
        } else {
            self.capacity
        }
    }

    /// How many connections wait for a worker.
    pub fn waiting_len(&self) -> (r: usize)
        ensures
            r == self@.waiting().len(),
    {
        if self.queue.len() <= self.capacity {
            0
        } else {
            self.queue.len() - self.capacity
        }
    }

    /// Where in the queue a connection stands.
    fn position(&self, conn: u64) -> (r: Option<usize>)
        ensures
            match r {
                Some(i) => i < self@.queue.len() && self@.queue[i as int] == conn
                    && self@.queue.index_of(conn) == i,
                None => !self@.tracks(conn),
            },
    {
        proof {
            use_type_invariant(self);
        }
        let mut i: usize = 0;
        while i < self.queue.len()
            invariant
                i <= self.queue.len(),
                self.queue@.no_duplicates(),
                forall|j: int| 0 <= j < i ==> self.queue@[j] != conn,
            decreases self.queue.len() - i,
        {
            if self.queue[i] == conn {
                proof {
                    lemma_index_is_unique(self.queue@, i as int);
                }
                return Some(i);
            }
            i += 1;
        }
        None
    }

    /// Whether a connection holds a worker.
    pub fn is_active(&self, conn: u64) -> (r: bool)
        ensures
            r == self@.is_active(conn),
    {
        match self.position(conn) {
            Some(i) => {
                proof {
                    use_type_invariant(self);
                    let view = self@;
                    if i < self.capacity {
                        assert(view.active()[i as int] == conn);
                    } else {
                        assert forall|j: int| 0 <= j < view.active().len() implies view.active()[j]
                            != conn by {
                            assert(view.active()[j] == view.queue[j]);
                        }
                    }
                }
                i < self.capacity
            },
            None => false,
        }
    }

    /// Whether a connection waits for a worker.
    pub fn is_waiting(&self, conn: u64) -> (r: bool)
        ensures
            r == self@.is_waiting(conn),
    {
        match self.position(conn) {
            Some(i) => {
                proof {
                    use_type_invariant(self);
                    let view = self@;
                    if i >= self.capacity {
                        assert(view.waiting()[i - self.capacity] == conn);
                    } else {
                        assert forall|j: int| 0 <= j < view.waiting().len() implies view.waiting()[j]
                            != conn by {
                            assert(view.waiting()[j] == view.queue[j + view.active_count()]);
                        }
                    }
                }
                i >= self.capacity
            },
            None => {
                proof {
                    let view = self@;
                    assert forall|j: int| 0 <= j < view.waiting().len() implies view.waiting()[j]
                        != conn by {
                        assert(view.waiting()[j] == view.queue[j + view.active_count()]);
                    }
                }
                false
            },
        }
    }

    /// Takes a connection in. It is never turned away: it is started where a
    /// worker is free, and queued behind the others where none is.
    pub fn submit(&mut self, conn: u64) -> (r: Admission)
        ensures
            old(self)@.wf(),
            r == old(self)@.admission(conn),
            final(self)@ == old(self)@.submitted(conn),
    {
        proof {
            use_type_invariant(&*self);
        }
        match self.position(conn) {
            Some(_) => Admission::AlreadyTracked,
            None => {
                let started = self.queue.len() < self.capacity;
                proof {
                    lemma_push_keeps_distinct(self.queue@, conn);
                }
                // The queue is taken out, extended and put back: the pool is
                // valid before, between and after.
                let mut queue: Vec<u64> = Vec::new();
                core::mem::swap(&mut self.queue, &mut queue);
                queue.push(conn);
                core::mem::swap(&mut self.queue, &mut queue);
                if started {
                    Admission::Started
                } else {
                    Admission::Queued
                }
            },
        }
    }

    /// Gives up the worker that a connection holds. Where others wait, the
    /// one next in line takes the worker over and is handed back, to be
    /// started now. A connection that holds no worker changes nothing.
    pub fn release(&mut self, conn: u64) -> (r: Option<u64>)
        ensures
            old(self)@.wf(),
            r == old(self)@.promoted(conn),
            final(self)@ == old(self)@.released(conn),
    {
        proof {
            use_type_invariant(&*self);
        }
        if !self.is_active(conn) {
            return None;
        }
        match self.position(conn) {
            Some(i) => {
                let next = if self.queue.len() > self.capacity {
                    Some(self.queue[self.capacity])
                } else {
                    None
                };
                proof {
                    lemma_remove_keeps_distinct(self.queue@, i as int);
                }
                // Taken out, shortened and put back, as in `submit`.
                let mut queue: Vec<u64> = Vec::new();
                core::mem::swap(&mut self.queue, &mut queue);
                queue.remove(i);
                core::mem::swap(&mut self.queue, &mut queue);
                next
            },
            None => None,
        }
    }
}

/// What happened at the listener.
#[derive(Clone, Copy, Debug, PartialEq, Eq, Structural)]
pub enum ListenerEvent {
    /// A connection arrived and was given this identifier.
    Accepted(u64),
    /// An attempt to accept failed.
    AcceptFailed,
    /// The handler of this connection closed it.
    HandlerDone(u64),
}

/// What the listener does about it. Whatever it is, the listener then goes
/// on accepting.
#[derive(Clone, Copy, Debug, PartialEq, Eq, Structural)]
pub enum ListenerAction {
    /// Hand this connection to a worker.
    Start(u64),
    /// Keep the accepted connection until a worker is free.
    Hold,
    /// Log the failed accept.
    LogFailure,
    /// Nothing to do.
    Idle,
}

impl PoolView {
    /// What the listener does about an event.
    pub open spec fn action_for(self, event: ListenerEvent) -> ListenerAction {
        match event {
            ListenerEvent::Accepted(conn) => match self.admission(conn) {
                Admission::Started => ListenerAction::Start(conn),
                Admission::Queued => ListenerAction::Hold,
                Admission::AlreadyTracked => ListenerAction::Idle,
            },
            ListenerEvent::AcceptFailed => ListenerAction::LogFailure,
            ListenerEvent::HandlerDone(conn) => match self.promoted(conn) {
                Some(next) => ListenerAction::Start(next),
                None => ListenerAction::Idle,
            },
        }
    }

    /// The pool after an event at the listener.
    pub open spec fn after(self, event: ListenerEvent) -> PoolView {
        match event {
            ListenerEvent::Accepted(conn) => self.submitted(conn),
            ListenerEvent::AcceptFailed => self,
            ListenerEvent::HandlerDone(conn) => self.released(conn),
        }
    }

    /// An empty pool.
    pub open spec fn empty(capacity: nat) -> PoolView {
        PoolView { capacity, queue: Seq::empty() }
    }

    /// The pool after a run of connections was handed in, one by one.
    pub open spec fn after_submits(self, conns: Seq<u64>) -> PoolView
        decreases conns.len(),
    {
        if conns.len() == 0 {
            self
        } else {
            self.after_submits(conns.drop_last()).submitted(conns.last())
        }
    }

    /// Whether each connection of a run holds a worker when its turn to
    /// give it up comes.
    pub open spec fn releases_held(self, done: Seq<u64>) -> bool
        decreases done.len(),
    {
        done.len() > 0 ==> self.is_active(done[0]) && self.released(done[0]).releases_held(
            done.drop_first(),
        )
    }

    /// The pool after a run of connections gave up their workers, one by
    /// one.
    pub open spec fn after_releases(self, done: Seq<u64>) -> PoolView
        decreases done.len(),
    {
        if done.len() == 0 {
            self
        } else {
            self.released(done[0]).after_releases(done.drop_first())
        }
    }
}

impl WorkerPool {
    /// Decides what the listener does about an event. A failed accept is
    /// logged and changes nothing: the listener goes on.
    pub fn dispatch(&mut self, event: ListenerEvent) -> (r: ListenerAction)
        ensures
            old(self)@.wf(),
            r == old(self)@.action_for(event),
            final(self)@ == old(self)@.after(event),
    {
        proof {
            use_type_invariant(&*self);
        }
        match event {
            ListenerEvent::Accepted(conn) => match self.submit(conn) {
                Admission::Started => ListenerAction::Start(conn),
                Admission::Queued => ListenerAction::Hold,
                Admission::AlreadyTracked => ListenerAction::Idle,
            },
            ListenerEvent::AcceptFailed => ListenerAction::LogFailure,
            ListenerEvent::HandlerDone(conn) => match self.release(conn) {
                Some(next) => ListenerAction::Start(next),
                None => ListenerAction::Idle,
            },
        }
    }
}

/// Appending an element that is not there keeps a sequence free of
/// duplicates.
pub proof fn lemma_push_keeps_distinct(queue: Seq<u64>, conn: u64)
    requires
        queue.no_duplicates(),
        !queue.contains(conn),
    ensures
        queue.push(conn).no_duplicates(),
{
    let pushed = queue.push(conn);
    assert forall|i: int, j: int| 0 <= i < pushed.len() && 0 <= j < pushed.len() && i != j implies pushed[i]
        != pushed[j] by {
        if i < queue.len() && j < queue.len() {
        } else if i < queue.len() {
            assert(queue.contains(queue[i]));
        } else {
            assert(queue.contains(queue[j]));
        }
    }
}

/// Removing an element keeps a sequence free of duplicates.
pub proof fn lemma_remove_keeps_distinct(queue: Seq<u64>, i: int)
    requires
        queue.no_duplicates(),
        0 <= i < queue.len(),
    ensures
        queue.remove(i).no_duplicates(),
        !queue.remove(i).contains(queue[i]),
        forall|c: u64| c != queue[i] ==> (queue.contains(c) <==> queue.remove(i).contains(c)),
{
    let removed = queue.remove(i);
    assert forall|a: int| 0 <= a < removed.len() implies removed[a] == queue[if a < i {
        a
    } else {
        a + 1
    }] by {}
    assert forall|c: u64| c != queue[i] && queue.contains(c) implies removed.contains(c) by {
        let j = choose|j: int| 0 <= j < queue.len() && queue[j] == c;
        if j < i {
            assert(removed[j] == c);
        } else {
            assert(removed[j - 1] == c);
        }
    }
}

/// Never more connections hold a worker than there are workers, and every
/// tracked connection either holds one or waits for one, never both.
pub proof fn lemma_pool_is_bounded(pool: PoolView)
    requires
        pool.wf(),
    ensures
        pool.active().len() <= pool.capacity,
        pool.active() + pool.waiting() == pool.queue,
        forall|conn: u64| pool.tracks(conn) <==> (pool.is_active(conn) || pool.is_waiting(conn)),
        forall|conn: u64| !(pool.is_active(conn) && pool.is_waiting(conn)),
{
    let n = pool.active_count() as int;
    assert(pool.active() + pool.waiting() =~= pool.queue);
    assert forall|conn: u64| pool.tracks(conn) implies (pool.is_active(conn) || pool.is_waiting(
        conn,
    )) by {
        let j = choose|j: int| 0 <= j < pool.queue.len() && pool.queue[j] == conn;
        if j < n {
            assert(pool.active()[j] == conn);
        } else {
            assert(pool.waiting()[j - n] == conn);
        }
    }
    assert forall|conn: u64| (pool.is_active(conn) || pool.is_waiting(conn)) implies pool.tracks(
        conn,
    ) by {
        if pool.is_active(conn) {
            let j = choose|j: int| 0 <= j < pool.active().len() && pool.active()[j] == conn;
            assert(pool.queue[j] == conn);
        } else {
            let j = choose|j: int| 0 <= j < pool.waiting().len() && pool.waiting()[j] == conn;
            assert(pool.queue[j + n] == conn);
        }
    }
    assert forall|conn: u64| !(pool.is_active(conn) && pool.is_waiting(conn)) by {
        if pool.is_active(conn) && pool.is_waiting(conn) {
            let a = choose|j: int| 0 <= j < pool.active().len() && pool.active()[j] == conn;
            let w = choose|j: int| 0 <= j < pool.waiting().len() && pool.waiting()[j] == conn;
            assert(pool.queue[a] == conn);
            assert(pool.queue[w + n] == conn);
        }
    }
}

/// No connection is dropped when another is taken in: the newcomer is
/// tracked from then on, whoever was tracked stays tracked, and whoever
/// held a worker keeps it.
pub proof fn lemma_submit_drops_nothing(pool: PoolView, conn: u64)
    requires
        pool.wf(),
    ensures
        pool.submitted(conn).wf(),
        pool.submitted(conn).tracks(conn),
        pool.admission(conn) == Admission::Started ==> pool.submitted(conn).is_active(conn),
        pool.admission(conn) == Admission::Queued ==> pool.submitted(conn).is_waiting(conn),
        forall|other: u64| pool.tracks(other) ==> pool.submitted(conn).tracks(other),
        forall|other: u64| pool.is_active(other) ==> pool.submitted(conn).is_active(other),
{
    let after = pool.submitted(conn);
    if pool.tracks(conn) {
    } else {
        lemma_push_keeps_distinct(pool.queue, conn);
        let last = pool.queue.len() as int;
        assert(after.queue[last] == conn);
        if pool.queue.len() < pool.capacity {
            assert(after.active()[last] == conn);
        } else {
            assert(after.waiting()[last - pool.capacity] == conn);
        }
        assert forall|other: u64| pool.tracks(other) implies after.tracks(other) by {
            let j = choose|j: int| 0 <= j < pool.queue.len() && pool.queue[j] == other;
            assert(after.queue[j] == other);
        }
        assert forall|other: u64| pool.is_active(other) implies after.is_active(other) by {
            let j = choose|j: int| 0 <= j < pool.active().len() && pool.active()[j] == other;
            assert(after.active()[j] == other);
        }
    }
}

/// A connection that gives up its worker is the only one to leave the pool:
/// every other one stays tracked, and whoever held a worker keeps it.
pub proof fn lemma_release_drops_only_the_released(pool: PoolView, conn: u64)
    requires
        pool.wf(),
        pool.is_active(conn),
    ensures
        pool.released(conn).wf(),
        !pool.released(conn).tracks(conn),
        forall|other: u64|
            other != conn ==> (pool.tracks(other) <==> pool.released(conn).tracks(other)),
        forall|other: u64|
            other != conn && pool.is_active(other) ==> pool.released(conn).is_active(other),
{
    let after = pool.released(conn);
    let a = choose|j: int| 0 <= j < pool.active().len() && pool.active()[j] == conn;
    assert(pool.queue[a] == conn);
    lemma_index_is_unique(pool.queue, a);
    lemma_remove_keeps_distinct(pool.queue, a);
    assert forall|other: u64| other != conn && pool.is_active(other) implies after.is_active(
        other,
    ) by {
        let j = choose|j: int| 0 <= j < pool.active().len() && pool.active()[j] == other;
        assert(pool.queue[j] == other);
        if j < a {
            assert(after.queue[j] == other);
            assert(after.active()[j] == other);
        } else {
            assert(after.queue[j - 1] == other);
            assert(after.active()[j - 1] == other);
        }
    }
}

/// Each worker that is given up moves the line by one: the connection next
/// in line takes the worker over, and every other waiting connection comes
/// one place nearer to its turn.
pub proof fn lemma_release_moves_the_line(pool: PoolView, done: u64, place: int)
    requires
        pool.wf(),
        pool.is_active(done),
        0 <= place < pool.waiting().len(),
    ensures
        place == 0 ==> pool.promoted(done) == Some(pool.waiting()[0]) && pool.released(
            done,
        ).is_active(pool.waiting()[0]),
        place > 0 ==> place - 1 < pool.released(done).waiting().len() && pool.released(
            done,
        ).waiting()[place - 1] == pool.waiting()[place],
{
    let after = pool.released(done);
    let n = pool.capacity as int;
    let a = choose|j: int| 0 <= j < pool.active().len() && pool.active()[j] == done;
    assert(pool.queue[a] == done);
    lemma_index_is_unique(pool.queue, a);
    assert(after.queue =~= pool.queue.remove(a));
    assert(pool.waiting()[place] == pool.queue[n + place]);
    assert(after.queue[n + place - 1] == pool.queue[n + place]);
    if place == 0 {
        assert(after.active()[n - 1] == pool.waiting()[0]);
    } else {
        assert(after.waiting()[place - 1] == after.queue[n + place - 1]);
    }
}

/// A burst of distinct connections into an empty pool is tracked as it
/// came: the first `capacity` of them hold a worker and the others wait in
/// their order of arrival.
pub proof fn lemma_burst_keeps_arrival_order(capacity: nat, conns: Seq<u64>)
    requires
        capacity > 0,
        conns.no_duplicates(),
    ensures
        PoolView::empty(capacity).after_submits(conns).wf(),
        PoolView::empty(capacity).after_submits(conns).queue == conns,
        PoolView::empty(capacity).after_submits(conns).capacity == capacity,
    decreases conns.len(),
{
    let start = PoolView::empty(capacity);
    if conns.len() == 0 {
        assert(start.after_submits(conns).queue =~= conns);
    } else {
        let earlier = conns.drop_last();
        assert forall|i: int, j: int|
            0 <= i < earlier.len() && 0 <= j < earlier.len() && i != j implies earlier[i]
            != earlier[j] by {
            assert(earlier[i] == conns[i] && earlier[j] == conns[j]);
        }
        lemma_burst_keeps_arrival_order(capacity, earlier);
        let before = start.after_submits(earlier);
        assert(!before.tracks(conns.last())) by {
            if before.tracks(conns.last()) {
                let j = choose|j: int| 0 <= j < earlier.len() && earlier[j] == conns.last();
                assert(conns[j] == conns[conns.len() - 1]);
            }
        }
        lemma_push_keeps_distinct(before.queue, conns.last());
        assert(before.submitted(conns.last()).queue =~= conns);
    }
}

/// With one connection more than there are workers, all but the last hold a
/// worker, the last waits, and it is started as soon as any of the others
/// gives its worker up.
pub proof fn lemma_one_more_than_capacity(capacity: nat, conns: Seq<u64>, done: u64)
    requires
        capacity > 0,
        conns.no_duplicates(),
        conns.len() == capacity + 1,
        PoolView::empty(capacity).after_submits(conns).is_active(done),
    ensures
        PoolView::empty(capacity).after_submits(conns).active() == conns.take(capacity as int),
        PoolView::empty(capacity).after_submits(conns).waiting() == seq![conns.last()],
        PoolView::empty(capacity).after_submits(conns).promoted(done) == Some(conns.last()),
        PoolView::empty(capacity).after_submits(conns).released(done).is_active(conns.last()),
        PoolView::empty(capacity).after_submits(conns).released(done).waiting().len() == 0,
{
    lemma_burst_keeps_arrival_order(capacity, conns);
    let pool = PoolView::empty(capacity).after_submits(conns);
    assert(pool.waiting() =~= seq![conns.last()]);
    lemma_release_moves_the_line(pool, done, 0);
    let a = choose|j: int| 0 <= j < pool.active().len() && pool.active()[j] == done;
    assert(pool.queue[a] == done);
    lemma_index_is_unique(pool.queue, a);
}

/// Every waiting connection is served in its turn: the one at place `place`
/// of the line holds a worker after `place + 1` workers were given up, or
/// has by then held one and given it up itself.
pub proof fn lemma_served_in_turn(pool: PoolView, place: int, done: Seq<u64>)
    requires
        pool.wf(),
        0 <= place < pool.waiting().len(),
        done.len() == place + 1,
        pool.releases_held(done),
    ensures
        pool.after_releases(done).is_active(pool.waiting()[place]) || done.contains(
            pool.waiting()[place],
        ),
    decreases place,
{
    let conn = pool.waiting()[place];
    let first = done[0];
    let rest = done.drop_first();
    let next = pool.released(first);
    lemma_release_drops_only_the_released(pool, first);
    lemma_release_moves_the_line(pool, first, place);
    if place == 0 {
        assert(rest.len() == 0);
        assert(pool.after_releases(done) == next.after_releases(rest));
        assert(next.after_releases(rest) == next);
    } else {
        lemma_served_in_turn(next, place - 1, rest);
        if rest.contains(conn) {
            let j = choose|j: int| 0 <= j < rest.len() && rest[j] == conn;
            assert(done[j + 1] == conn);
        }
    }
}

} // verus!
