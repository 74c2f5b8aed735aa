use status_poll::decimal::{signed_text, unsigned_text};
use status_poll::poller::{summarize, LastAction};
use status_poll::text::{trimmed_eq, white_space};
use status_poll::wire::{
    classify_request, classify_text, default_port, Request, Schema, Snapshot, DISCONNECT_TOKEN,
    POLL_INTERVAL_SECS, REQUEST_BUFFER_LEN, REQUEST_TOKEN, RESPONSE_BUFFER_LEN,
};

#[test]
fn unsigned_text_of_zero_is_one_digit() {
    assert_eq!(unsigned_text(0), "0");
}

#[test]
fn unsigned_text_matches_std_on_samples() {
    for n in [1u128, 9, 10, 99, 100, 12345, u64::MAX as u128, u128::MAX] {
        assert_eq!(unsigned_text(n), n.to_string());
    }
}

#[test]
fn signed_text_matches_std_on_samples() {
    for n in [0i64, -1, 1, -10, 42, i64::MIN, i64::MAX, -1234567890] {
        assert_eq!(signed_text(n), n.to_string());
    }
}

#[test]
fn white_space_agrees_with_std_on_every_char() {
    let mut code = 0u32;
    while code <= 0x10FFFF {
        if let Some(c) = char::from_u32(code) {
            assert_eq!(white_space(c), c.is_whitespace(), "U+{:04X}", code);
        }
        code += 1;
    }
}

#[test]
fn trimmed_eq_agrees_with_std_trim() {
    let samples = [
        "disconnect",
        "  disconnect\r\n",
        "\u{00A0}disconnect\u{3000}",
        "dis connect",
        "disconnect!",
        "",
        "   ",
        "request",
        " disconnec",
    ];
    for s in samples {
        assert_eq!(trimmed_eq(s, "disconnect"), s.trim() == "disconnect", "{:?}", s);
    }
    assert!(trimmed_eq("   ", ""));
}

#[test]
fn failure_mark_is_found_wherever_it_stands() {
    assert_eq!(summarize("Ошибка"), LastAction::Failure);
    assert_eq!(summarize("до Ошибка после"), LastAction::Failure);
    assert_eq!(summarize("в конце: Ошибка"), LastAction::Failure);
    assert_eq!(summarize("Ошибк"), LastAction::Success);
    assert_eq!(summarize("Ошиб ка"), LastAction::Success);
}

#[test]
fn malformed_bytes_around_the_token_are_no_white_space() {
    // The bytes decode to U+FFFD, which trimming leaves in place.
    assert_eq!(classify_request(&[0xFF, b'd', b'i', b's', b'c', b'o', b'n', b'n', b'e', b'c', b't']), Request::Snapshot);
    // U+00A0 and U+3000 in UTF-8 are white space and are trimmed away.
    let mut padded = vec![0xC2, 0xA0];
    padded.extend_from_slice(b"disconnect");
    padded.extend_from_slice(&[0xE3, 0x80, 0x80]);
    assert_eq!(classify_request(&padded), Request::Disconnect);
}

#[test]
fn disconnect_token_is_recognised_after_trimming() {
    assert_eq!(classify_request(b"disconnect"), Request::Disconnect);
    assert_eq!(classify_request(b"  disconnect\n"), Request::Disconnect);
    assert_eq!(classify_text("\tdisconnect "), Request::Disconnect);
}

#[test]
fn any_other_payload_asks_for_a_snapshot() {
    assert_eq!(classify_request(b"request"), Request::Snapshot);
    assert_eq!(classify_request(b"disconnect now"), Request::Snapshot);
    assert_eq!(classify_request(b"DISCONNECT"), Request::Snapshot);
    assert_eq!(classify_request(&[0xFF, 0xFE]), Request::Snapshot);
}

#[test]
fn mouse_snapshot_has_the_wire_layout() {
    let s = Snapshot::Mouse { mouse_buttons: 5, has_scroll_wheel: true, timestamp: 1700000000 };
    assert_eq!(
        s.to_json(),
        "{\"mouse_buttons\": 5, \"has_scroll_wheel\": 1, \"timestamp\": 1700000000}"
    );
    let s = Snapshot::Mouse { mouse_buttons: 0, has_scroll_wheel: false, timestamp: -1 };
    assert_eq!(s.to_json(), "{\"mouse_buttons\": 0, \"has_scroll_wheel\": 0, \"timestamp\": -1}");
}

#[test]
fn process_snapshot_has_the_wire_layout() {
    let s = Snapshot::Process { pid: 4242, uptime_ms: 3_723_456, timestamp: 1700000000 };
    assert_eq!(s.to_json(), "{\"pid\": 4242, \"uptime_ms\": 3723456, \"timestamp\": 1700000000}");
}

#[test]
fn each_schema_has_its_port() {
    assert_eq!(default_port(Schema::Mouse), 7878);
    assert_eq!(default_port(Schema::Process), 7879);
}

#[test]
fn snapshot_knows_its_schema() {
    let mouse = Snapshot::Mouse { mouse_buttons: 1, has_scroll_wheel: false, timestamp: 0 };
    let process = Snapshot::Process { pid: 1, uptime_ms: 0, timestamp: 0 };
    assert_eq!(mouse.schema(), Schema::Mouse);
    assert_eq!(process.schema(), Schema::Process);
}

#[test]
fn snapshots_fit_one_read_of_the_client() {
    let longest_mouse =
        Snapshot::Mouse { mouse_buttons: i32::MIN, has_scroll_wheel: true, timestamp: i64::MIN };
    let longest_process =
        Snapshot::Process { pid: u32::MAX, uptime_ms: u128::MAX, timestamp: i64::MIN };
    for snapshot in [longest_mouse, longest_process] {
        let text = snapshot.to_json();
        assert!(text.is_ascii());
        assert!(text.len() <= 128);
        assert!(text.len() <= RESPONSE_BUFFER_LEN);
    }
    assert_eq!(
        longest_process.to_json(),
        "{\"pid\": 4294967295, \"uptime_ms\": 340282366920938463463374607431768211455, \"timestamp\": -9223372036854775808}"
    );
}

#[test]
fn tokens_are_what_the_protocol_says() {
    assert_eq!(REQUEST_TOKEN, "request");
    assert_eq!(DISCONNECT_TOKEN, "disconnect");
    assert_eq!(POLL_INTERVAL_SECS, 10);
    assert_eq!(REQUEST_BUFFER_LEN, 512);
    assert_eq!(RESPONSE_BUFFER_LEN, 1024);
    assert_eq!(classify_text(REQUEST_TOKEN), Request::Snapshot);
    assert_eq!(classify_text(DISCONNECT_TOKEN), Request::Disconnect);
}
