use status_poll::clock::{make_reading, read_clock, ClockError, ClockReading};
use status_poll::server::{
    mouse_sample, mouse_sample_at, ConnectionHandler, HandlerAction, HandlerEvent, HandlerLog,
    HandlerState, HandlerStep, ServerState,
};
use status_poll::wire::Snapshot;

fn reading(millis: u128, timestamp: i64) -> Result<ClockReading, ClockError> {
    Ok(ClockReading { millis, timestamp })
}

fn awaiting_request() -> ConnectionHandler {
    let mut handler = ConnectionHandler::new();
    handler.step(HandlerEvent::Started);
    handler
}

fn responding() -> ConnectionHandler {
    let mut handler = awaiting_request();
    handler.step(HandlerEvent::ReadDone(b"request".to_vec()));
    handler.step(HandlerEvent::Sampled(Snapshot::Process { pid: 1, uptime_ms: 2, timestamp: 3 }));
    handler
}

#[test]
fn clock_before_the_epoch_is_an_error() {
    assert_eq!(make_reading(None), Err(ClockError::BeforeEpoch));
}

#[test]
fn clock_beyond_the_timestamp_range_is_an_error() {
    assert_eq!(make_reading(Some((5, i64::MAX as u64 + 1))), Err(ClockError::OutOfRange));
    assert_eq!(
        make_reading(Some((5, i64::MAX as u64))),
        Ok(ClockReading { millis: 5, timestamp: i64::MAX })
    );
}

#[test]
fn reading_keeps_what_was_measured() {
    assert_eq!(
        make_reading(Some((1_700_000_000_123, 1_700_000_000))),
        Ok(ClockReading { millis: 1_700_000_000_123, timestamp: 1_700_000_000 })
    );
}

#[test]
fn clock_reads_a_plausible_time() {
    let reading = read_clock().expect("clock");
    // Later than 2020-01-01 and consistent between the two units.
    assert!(reading.timestamp > 1_577_836_800);
    assert_eq!(reading.millis / 1000, reading.timestamp as u128);
}

#[test]
fn server_state_keeps_start_and_pid() {
    let state = ServerState::started_at(1_000, 42);
    assert_eq!(state.started(), 1_000);
    assert_eq!(state.process_id(), 42);
}

#[test]
fn uptime_is_now_minus_start() {
    let state = ServerState::started_at(1_000, 42);
    assert_eq!(state.uptime_ms(1_000), 0);
    assert_eq!(state.uptime_ms(4_500), 3_500);
    assert_eq!(state.uptime_ms(u128::MAX), u128::MAX - 1_000);
}

#[test]
fn process_sample_reports_pid_uptime_and_timestamp() {
    let state = ServerState::started_at(10_000, 4242);
    assert_eq!(
        state.sample_at(reading(13_500, 13)),
        Ok(Snapshot::Process { pid: 4242, uptime_ms: 3_500, timestamp: 13 })
    );
}

#[test]
fn clock_that_went_backwards_gives_no_sample() {
    let state = ServerState::started_at(10_000, 4242);
    assert_eq!(state.sample_at(reading(9_999, 9)), Err(ClockError::WentBackwards));
    assert_eq!(state.sample_at(Err(ClockError::BeforeEpoch)), Err(ClockError::BeforeEpoch));
    assert_eq!(state.sample_at(Err(ClockError::OutOfRange)), Err(ClockError::OutOfRange));
}

#[test]
fn request_right_after_start_reports_an_uptime_near_zero() {
    let state = ServerState::new(4242).expect("clock");
    let mut handler = awaiting_request();
    let step = handler.step(HandlerEvent::ReadDone(b"request".to_vec()));
    assert_eq!(step.action, HandlerAction::Sample);
    let snapshot = state.sample().expect("clock");
    match snapshot {
        Snapshot::Process { pid, uptime_ms, timestamp } => {
            assert_eq!(pid, 4242);
            assert!(uptime_ms < 2_000, "uptime {} ms", uptime_ms);
            assert!(timestamp > 1_577_836_800);
        }
        other => panic!("not a process snapshot: {:?}", other),
    }
    let step = handler.step(HandlerEvent::Sampled(snapshot));
    assert_eq!(step.action, HandlerAction::Send(snapshot));
}

#[test]
fn mouse_sample_reports_what_was_measured() {
    assert_eq!(
        mouse_sample_at(5, true, reading(1, 1_700_000_000)),
        Ok(Snapshot::Mouse { mouse_buttons: 5, has_scroll_wheel: true, timestamp: 1_700_000_000 })
    );
    assert_eq!(mouse_sample_at(5, true, Err(ClockError::BeforeEpoch)), Err(ClockError::BeforeEpoch));
    match mouse_sample(3, false).expect("clock") {
        Snapshot::Mouse { mouse_buttons, has_scroll_wheel, timestamp } => {
            assert_eq!(mouse_buttons, 3);
            assert!(!has_scroll_wheel);
            assert!(timestamp > 1_577_836_800);
        }
        other => panic!("not a mouse snapshot: {:?}", other),
    }
}

#[test]
fn handler_starts_connected_and_reads_first() {
    let mut handler = ConnectionHandler::new();
    assert_eq!(handler.state(), HandlerState::Connected);
    assert!(!handler.is_closed());
    let step = handler.step(HandlerEvent::Started);
    assert_eq!(
        step,
        HandlerStep {
            next: HandlerState::AwaitingRequest,
            action: HandlerAction::Read,
            log: Some(HandlerLog::ClientConnected),
        }
    );
    assert_eq!(handler.state(), HandlerState::AwaitingRequest);
}

#[test]
fn one_round_reads_samples_sends_and_holds() {
    let mut handler = awaiting_request();
    let snapshot = Snapshot::Mouse { mouse_buttons: 5, has_scroll_wheel: true, timestamp: 9 };

    let step = handler.step(HandlerEvent::ReadDone(b"request".to_vec()));
    assert_eq!(
        step,
        HandlerStep { next: HandlerState::Computing, action: HandlerAction::Sample, log: None }
    );
    let step = handler.step(HandlerEvent::Sampled(snapshot));
    assert_eq!(
        step,
        HandlerStep {
            next: HandlerState::Responding,
            action: HandlerAction::Send(snapshot),
            log: None
        }
    );
    let step = handler.step(HandlerEvent::Sent);
    assert_eq!(
        step,
        HandlerStep {
            next: HandlerState::Holding,
            action: HandlerAction::Hold(10),
            log: Some(HandlerLog::ResponseSent),
        }
    );
    let step = handler.step(HandlerEvent::HoldElapsed);
    assert_eq!(
        step,
        HandlerStep { next: HandlerState::AwaitingRequest, action: HandlerAction::Read, log: None }
    );
}

#[test]
fn any_payload_but_the_disconnect_token_is_answered() {
    for payload in [&b"request"[..], b"hello", b"disconnected", &[0xFF, 0x00]] {
        let mut handler = awaiting_request();
        let step = handler.step(HandlerEvent::ReadDone(payload.to_vec()));
        assert_eq!(step.next, HandlerState::Computing);
        assert_eq!(step.action, HandlerAction::Sample);
    }
}

#[test]
fn disconnect_mid_session_closes_and_nothing_more_is_sent() {
    let mut handler = awaiting_request();
    // One full round first.
    handler.step(HandlerEvent::ReadDone(b"request".to_vec()));
    handler.step(HandlerEvent::Sampled(Snapshot::Mouse {
        mouse_buttons: 2,
        has_scroll_wheel: false,
        timestamp: 1,
    }));
    handler.step(HandlerEvent::Sent);
    handler.step(HandlerEvent::HoldElapsed);

    let step = handler.step(HandlerEvent::ReadDone(b" disconnect\r\n".to_vec()));
    assert_eq!(
        step,
        HandlerStep {
            next: HandlerState::Closed,
            action: HandlerAction::Shutdown,
            log: Some(HandlerLog::ClientDisconnected),
        }
    );
    assert!(handler.is_closed());

    let later = [
        HandlerEvent::ReadDone(b"request".to_vec()),
        HandlerEvent::Sampled(Snapshot::Process { pid: 1, uptime_ms: 1, timestamp: 1 }),
        HandlerEvent::Sent,
        HandlerEvent::HoldElapsed,
        HandlerEvent::Started,
        HandlerEvent::ReadFailed,
        HandlerEvent::WriteFailed,
        HandlerEvent::FlushFailed,
    ];
    for event in later {
        let step = handler.step(event);
        assert_eq!(
            step,
            HandlerStep { next: HandlerState::Closed, action: HandlerAction::Release, log: None }
        );
        assert!(handler.is_closed());
    }
}

#[test]
fn read_of_nothing_means_the_peer_closed() {
    let mut handler = awaiting_request();
    let step = handler.step(HandlerEvent::ReadDone(Vec::new()));
    assert_eq!(
        step,
        HandlerStep {
            next: HandlerState::Closed,
            action: HandlerAction::Release,
            log: Some(HandlerLog::ConnectionClosed),
        }
    );
}

#[test]
fn failed_read_shuts_the_socket_down() {
    let mut handler = awaiting_request();
    let step = handler.step(HandlerEvent::ReadFailed);
    assert_eq!(
        step,
        HandlerStep {
            next: HandlerState::Closed,
            action: HandlerAction::Shutdown,
            log: Some(HandlerLog::ReadFailed),
        }
    );
}

#[test]
fn failed_write_closes_without_a_retry() {
    let mut handler = responding();
    let step = handler.step(HandlerEvent::WriteFailed);
    assert_eq!(
        step,
        HandlerStep {
            next: HandlerState::Closed,
            action: HandlerAction::Release,
            log: Some(HandlerLog::WriteFailed),
        }
    );
}

#[test]
fn failed_flush_closes_without_a_retry() {
    let mut handler = responding();
    let step = handler.step(HandlerEvent::FlushFailed);
    assert_eq!(
        step,
        HandlerStep {
            next: HandlerState::Closed,
            action: HandlerAction::Release,
            log: Some(HandlerLog::FlushFailed),
        }
    );
}

#[test]
fn event_that_is_not_awaited_closes_the_connection() {
    let mut handler = ConnectionHandler::new();
    let step = handler.step(HandlerEvent::Sent);
    assert_eq!(
        step,
        HandlerStep { next: HandlerState::Closed, action: HandlerAction::Shutdown, log: None }
    );
    let mut handler = awaiting_request();
    assert_eq!(handler.step(HandlerEvent::HoldElapsed).next, HandlerState::Closed);
    let mut handler = responding();
    assert_eq!(handler.step(HandlerEvent::ReadFailed).action, HandlerAction::Shutdown);
}
