//! The wire protocol: plain-text requests from a client, one JSON object per
//! response from a server, one message per read.

use vstd::prelude::*;
use crate::decimal::{
    decimal, decimal_digits, lemma_decimal_is_ascii, lemma_decimal_lengths, lemma_digit_count,
    pow10, push_signed, push_unsigned,
};
use crate::text::{from_utf8_lossy, trimmed, trimmed_eq, utf8_lossy};

verus! {

/// What a client sends to ask for the next snapshot.
pub const REQUEST_TOKEN: &'static str = "request";

/// What a client may send to end the session.
pub const DISCONNECT_TOKEN: &'static str = "disconnect";

/// Seconds between two request/response cycles of one session.
pub const POLL_INTERVAL_SECS: u64 = 10;

/// Size of the buffer a server reads one request into.
pub const REQUEST_BUFFER_LEN: usize = 512;

/// Size of the buffer a client reads one response into.
pub const RESPONSE_BUFFER_LEN: usize = 1024;

/// The port on which the mouse server listens.
pub const MOUSE_SERVER_PORT: u16 = 7878;

/// The port on which the process server listens.
pub const PROCESS_SERVER_PORT: u16 = 7879;

/// Which of the two response layouts a server speaks and a session expects.
#[derive(Clone, Copy, Debug, PartialEq, Eq, Structural)]
pub enum Schema {
    /// `mouse_buttons`, `has_scroll_wheel`, `timestamp`.
    Mouse,
    /// `pid`, `uptime_ms`, `timestamp`.
    Process,
}

/// The port on which the server of a schema listens.
pub open spec fn port_of(schema: Schema) -> u16 {
    match schema {
        Schema::Mouse => MOUSE_SERVER_PORT,
        Schema::Process => PROCESS_SERVER_PORT,
    }
}

/// The port on which the server of a schema listens.
pub fn default_port(schema: Schema) -> (r: u16)
    ensures
        r == port_of(schema),
{
    match schema {
        Schema::Mouse => MOUSE_SERVER_PORT,
        Schema::Process => PROCESS_SERVER_PORT,
    }
}

/// What a non-empty payload from a client asks of the server.
#[derive(Clone, Copy, Debug, PartialEq, Eq, Structural)]
pub enum Request {
    /// Anything but the disconnect token: answer with a snapshot.
    Snapshot,
    /// The disconnect token, possibly surrounded by white space.
    Disconnect,
}

/// The request that a decoded payload stands for.
pub open spec fn request_of(payload: Seq<char>) -> Request {
    if trimmed(payload) == DISCONNECT_TOKEN@ {
        Request::Disconnect
    } else {
        Request::Snapshot
    }
}

/// Classifies a decoded payload.
pub fn classify_text(payload: &str) -> (r: Request)
    ensures
        r == request_of(payload@),
{
    if trimmed_eq(payload, DISCONNECT_TOKEN) {
        Request::Disconnect
    } else {
        Request::Snapshot
    }
}

/// Classifies the bytes of one read.
pub fn classify_request(payload: &[u8]) -> (r: Request)
    ensures
        r == request_of(utf8_lossy(payload@)),
{
    let text = from_utf8_lossy(payload);
    classify_text(text.as_str())
}

/// The status that a server reports in one response.
#[derive(Clone, Copy, Debug, PartialEq, Eq, Structural)]
pub enum Snapshot {
    /// Pointer capabilities of the server's machine.
    Mouse { mouse_buttons: i32, has_scroll_wheel: bool, timestamp: i64 },
    /// Identity and age of the server process.
    Process { pid: u32, uptime_ms: u128, timestamp: i64 },
}

/// `1` for a set flag and `0` for a clear one.
pub open spec fn flag_text(flag: bool) -> Seq<char> {
    if flag {
        "1"@
    } else {
        "0"@
    }
}

impl Snapshot {
    /// The layout in which this snapshot goes over the wire.
    pub open spec fn layout(self) -> Schema {
        match self {
            Snapshot::Mouse { .. } => Schema::Mouse,
            Snapshot::Process { .. } => Schema::Process,
        }
    }

    /// The layout in which this snapshot goes over the wire.
    pub fn schema(&self) -> (r: Schema)
        ensures
            r == self.layout(),
    {
        match self {
            Snapshot::Mouse { .. } => Schema::Mouse,
            Snapshot::Process { .. } => Schema::Process,
        }
    }

    /// The JSON object that carries this snapshot.
    pub open spec fn wire_text(self) -> Seq<char> {
        match self {
            Snapshot::Mouse { mouse_buttons, has_scroll_wheel, timestamp } => {
                "{\"mouse_buttons\": "@ + decimal(mouse_buttons as int)
                    + ", \"has_scroll_wheel\": "@ + flag_text(has_scroll_wheel)
                    + ", \"timestamp\": "@ + decimal(timestamp as int) + "}"@
            },
            Snapshot::Process { pid, uptime_ms, timestamp } => {
                "{\"pid\": "@ + decimal_digits(pid as nat) + ", \"uptime_ms\": "@
                    + decimal_digits(uptime_ms as nat) + ", \"timestamp\": "@ + decimal(
                    timestamp as int,
                ) + "}"@
            },
        }
    }

    /// Renders the snapshot as the text of one response.
    pub fn to_json(&self) -> (r: String)
        ensures
            r@ == self.wire_text(),
    {
        match self {
            Snapshot::Mouse { mouse_buttons, has_scroll_wheel, timestamp } => {
                let mut out = String::from_str("{\"mouse_buttons\": ");
                push_signed(&mut out, *mouse_buttons as i64);
                out.append(", \"has_scroll_wheel\": ");
                if *has_scroll_wheel {
                    out.append("1");
                } else {
                    out.append("0");
                }
                out.append(", \"timestamp\": ");
                push_signed(&mut out, *timestamp);
                out.append("}");
                out
            },
            Snapshot::Process { pid, uptime_ms, timestamp } => {
                let mut out = String::from_str("{\"pid\": ");
                push_unsigned(&mut out, *pid as u128);
                out.append(", \"uptime_ms\": ");
                push_unsigned(&mut out, *uptime_ms);
                out.append(", \"timestamp\": ");
                push_signed(&mut out, *timestamp);
                out.append("}");
                out
            },
        }
    }
}

/// Every response fits one read of the client: its text is plain ASCII, so
/// that it takes one byte for each character, and it is far shorter than
/// the client's buffer.
pub proof fn lemma_snapshot_fits_the_buffer(snapshot: Snapshot)
    ensures
        vstd::utf8::is_ascii_chars(snapshot.wire_text()),
        vstd::utf8::encode_utf8(snapshot.wire_text()).len() == snapshot.wire_text().len(),
        snapshot.wire_text().len() <= 128,
        128 <= RESPONSE_BUFFER_LEN,
{
    reveal_strlit("{\"mouse_buttons\": ");
    reveal_strlit(", \"has_scroll_wheel\": ");
    reveal_strlit(", \"timestamp\": ");
    reveal_strlit("}");
    reveal_strlit("{\"pid\": ");
    reveal_strlit(", \"uptime_ms\": ");
    reveal_strlit("1");
    reveal_strlit("0");
    match snapshot {
        Snapshot::Mouse { mouse_buttons, has_scroll_wheel, timestamp } => {
            lemma_decimal_is_ascii(mouse_buttons as int);
            lemma_decimal_is_ascii(timestamp as int);
            lemma_decimal_lengths(0, mouse_buttons as i64);
            lemma_decimal_lengths(0, timestamp);
        },
        Snapshot::Process { pid, uptime_ms, timestamp } => {
            lemma_decimal_is_ascii(pid as int);
            lemma_decimal_is_ascii(uptime_ms as int);
            lemma_decimal_is_ascii(timestamp as int);
            assert(pid < pow10(10)) by {
                reveal_with_fuel(pow10, 11);
            }
            lemma_digit_count(pid as nat, 10);
            lemma_decimal_lengths(uptime_ms, timestamp);
        },
    }
    vstd::utf8::is_ascii_chars_encode_utf8(snapshot.wire_text());
}

/// Both tokens of a client fit one read of the server.
pub proof fn lemma_tokens_fit_the_buffer()
    ensures
        REQUEST_TOKEN@.len() <= REQUEST_BUFFER_LEN,
        DISCONNECT_TOKEN@.len() <= REQUEST_BUFFER_LEN,
        request_of(REQUEST_TOKEN@) == Request::Snapshot,
        request_of(DISCONNECT_TOKEN@) == Request::Disconnect,
{
    reveal_strlit("request");
    reveal_strlit("disconnect");
    crate::text::lemma_trim_is_identity_without_margins(REQUEST_TOKEN@);
    crate::text::lemma_trim_is_identity_without_margins(DISCONNECT_TOKEN@);
    assert(REQUEST_TOKEN@.len() != DISCONNECT_TOKEN@.len());
}

} // verus!
