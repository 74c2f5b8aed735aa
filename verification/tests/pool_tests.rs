use status_poll::pool::{Admission, ListenerAction, ListenerEvent, WorkerPool, POOL_CAPACITY};
use status_poll::poller::{ClientPoller, PollerAction, PollerEvent};
use status_poll::server::{ConnectionHandler, HandlerAction, HandlerEvent, ServerState};
use status_poll::wire::Schema;
use status_poll::store::SharedStateStore;

#[test]
fn pool_without_workers_is_refused() {
    assert!(WorkerPool::new(0).is_none());
    assert!(WorkerPool::new(1).is_some());
}

#[test]
fn default_capacity_is_five() {
    assert_eq!(POOL_CAPACITY, 5);
    let pool = WorkerPool::new(POOL_CAPACITY).expect("pool");
    assert_eq!(pool.capacity(), 5);
    assert_eq!(pool.active_len(), 0);
    assert_eq!(pool.waiting_len(), 0);
}

#[test]
fn one_more_than_capacity_waits_and_is_served_next() {
    let mut pool = WorkerPool::new(5).expect("pool");
    for conn in 1..=5u64 {
        assert_eq!(pool.submit(conn), Admission::Started);
    }
    assert_eq!(pool.submit(6), Admission::Queued);
    assert_eq!(pool.active_len(), 5);
    assert_eq!(pool.waiting_len(), 1);
    assert!(pool.is_waiting(6));
    assert!(!pool.is_active(6));

    assert_eq!(pool.release(3), Some(6));
    assert!(pool.is_active(6));
    assert!(!pool.is_active(3));
    assert_eq!(pool.active_len(), 5);
    assert_eq!(pool.waiting_len(), 0);
}

#[test]
fn waiting_connections_are_served_in_arrival_order() {
    let mut pool = WorkerPool::new(2).expect("pool");
    assert_eq!(pool.submit(10), Admission::Started);
    assert_eq!(pool.submit(20), Admission::Started);
    assert_eq!(pool.submit(30), Admission::Queued);
    assert_eq!(pool.submit(40), Admission::Queued);
    assert_eq!(pool.submit(50), Admission::Queued);

    assert_eq!(pool.release(20), Some(30));
    assert_eq!(pool.release(10), Some(40));
    assert_eq!(pool.release(30), Some(50));
    assert_eq!(pool.release(40), None);
    assert_eq!(pool.release(50), None);
    assert_eq!(pool.active_len(), 0);
}

#[test]
fn connection_is_not_taken_in_twice() {
    let mut pool = WorkerPool::new(1).expect("pool");
    assert_eq!(pool.submit(7), Admission::Started);
    assert_eq!(pool.submit(7), Admission::AlreadyTracked);
    assert_eq!(pool.submit(8), Admission::Queued);
    assert_eq!(pool.submit(8), Admission::AlreadyTracked);
    assert_eq!(pool.active_len(), 1);
    assert_eq!(pool.waiting_len(), 1);
}

#[test]
fn only_a_held_worker_can_be_given_up() {
    let mut pool = WorkerPool::new(1).expect("pool");
    pool.submit(1);
    pool.submit(2);
    // 2 waits, 99 is unknown: neither holds a worker.
    assert_eq!(pool.release(2), None);
    assert_eq!(pool.release(99), None);
    assert!(pool.is_active(1));
    assert!(pool.is_waiting(2));
    assert_eq!(pool.release(1), Some(2));
    assert_eq!(pool.release(1), None);
}

#[test]
fn failed_accept_is_logged_and_changes_nothing() {
    let mut pool = WorkerPool::new(2).expect("pool");
    assert_eq!(pool.dispatch(ListenerEvent::Accepted(1)), ListenerAction::Start(1));
    assert_eq!(pool.dispatch(ListenerEvent::AcceptFailed), ListenerAction::LogFailure);
    assert_eq!(pool.dispatch(ListenerEvent::AcceptFailed), ListenerAction::LogFailure);
    assert_eq!(pool.active_len(), 1);
    assert_eq!(pool.waiting_len(), 0);
    // The listener goes on accepting after the failures.
    assert_eq!(pool.dispatch(ListenerEvent::Accepted(2)), ListenerAction::Start(2));
    assert_eq!(pool.dispatch(ListenerEvent::Accepted(3)), ListenerAction::Hold);
    assert_eq!(pool.dispatch(ListenerEvent::Accepted(3)), ListenerAction::Idle);
    assert_eq!(pool.dispatch(ListenerEvent::HandlerDone(1)), ListenerAction::Start(3));
    assert_eq!(pool.dispatch(ListenerEvent::HandlerDone(2)), ListenerAction::Idle);
}

struct Peer {
    conn: u64,
    handler: ConnectionHandler,
    poller: ClientPoller,
    store: SharedStateStore,
    server: ServerState,
    served: bool,
}

/// Runs one request/response cycle between the poller and the handler of a
/// peer, then lets the client hang up.
fn serve(peer: &mut Peer) {
    assert_eq!(peer.handler.step(HandlerEvent::Started).action, HandlerAction::Read);
    assert_eq!(peer.poller.pending(), PollerAction::Connect);
    peer.poller.step(&mut peer.store, PollerEvent::Connected);
    peer.poller.step(&mut peer.store, PollerEvent::CancelChecked(false));
    assert_eq!(peer.poller.pending(), PollerAction::SendRequest);
    peer.poller.step(&mut peer.store, PollerEvent::Sent);

    let step = peer.handler.step(HandlerEvent::ReadDone(b"request".to_vec()));
    assert_eq!(step.action, HandlerAction::Sample);
    let snapshot = peer
        .server
        .sample_at(Ok(status_poll::clock::ClockReading { millis: 20_000, timestamp: 86_400 }))
        .expect("sample");
    let step = peer.handler.step(HandlerEvent::Sampled(snapshot));
    let response = match step.action {
        HandlerAction::Send(snapshot) => snapshot.to_json(),
        other => panic!("no response: {:?}", other),
    };
    peer.handler.step(HandlerEvent::Sent);

    assert_eq!(peer.poller.pending(), PollerAction::Read);
    peer.poller.step(&mut peer.store, PollerEvent::ReadDone(response.into_bytes()));
    peer.poller.step(&mut peer.store, PollerEvent::WaitElapsed);
    peer.poller.step(&mut peer.store, PollerEvent::CancelChecked(true));
    peer.poller.step(&mut peer.store, PollerEvent::ShutdownDone);
    assert!(peer.poller.is_stopped());

    peer.handler.step(HandlerEvent::HoldElapsed);
    let step = peer.handler.step(HandlerEvent::ReadDone(Vec::new()));
    assert_eq!(step.action, HandlerAction::Release);
    assert!(peer.handler.is_closed());
    peer.served = true;
}

#[test]
fn burst_of_ten_sessions_against_five_workers_serves_all_without_bleed() {
    let mut pool = WorkerPool::new(5).expect("pool");
    let mut peers: Vec<Peer> = (0..10u64)
        .map(|conn| Peer {
            conn,
            handler: ConnectionHandler::new(),
            poller: ClientPoller::new(Schema::Process),
            store: SharedStateStore::new("Нет данных"),
            // Each server process has its own pid, so that every session
            // can tell its own data from that of the others.
            server: ServerState::started_at(1_000 * conn as u128, 100 + conn as u32),
            served: false,
        })
        .collect();

    let mut ready: Vec<u64> = Vec::new();
    for peer in &peers {
        match pool.dispatch(ListenerEvent::Accepted(peer.conn)) {
            ListenerAction::Start(conn) => ready.push(conn),
            ListenerAction::Hold => {}
            other => panic!("unexpected {:?}", other),
        }
        assert!(pool.active_len() <= 5);
    }
    assert_eq!(ready, vec![0, 1, 2, 3, 4]);
    assert_eq!(pool.waiting_len(), 5);

    let mut order: Vec<u64> = Vec::new();
    while let Some(conn) = ready.pop() {
        assert!(pool.is_active(conn));
        serve(&mut peers[conn as usize]);
        order.push(conn);
        if let ListenerAction::Start(next) = pool.dispatch(ListenerEvent::HandlerDone(conn)) {
            ready.push(next);
        }
        assert!(pool.active_len() <= 5);
    }

    assert_eq!(order.len(), 10);
    assert_eq!(pool.active_len(), 0);
    assert_eq!(pool.waiting_len(), 0);
    for peer in &peers {
        assert!(peer.served, "connection {} was dropped", peer.conn);
        let shown = peer.store.snapshot();
        assert!(!shown.is_error);
        let uptime_secs = (20_000 - 1_000 * peer.conn as u128) / 1000;
        assert_eq!(
            shown.status,
            format!(
                "ID процесса сервера: {}\nВремя работы сервера: 0 ч 0 мин {} сек\nВремя получения данных: 1970-01-02 00:00:00",
                100 + peer.conn,
                uptime_secs
            )
        );
    }
}
