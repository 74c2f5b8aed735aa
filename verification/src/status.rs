//! What a client shows for one response: the payload is read as JSON, its
//! members are laid out as a few lines of text, and a payload that is not
//! JSON is shown raw beside the parser's complaint.

use vstd::prelude::*;
use crate::decimal::{decimal, decimal_digits, push_signed, push_unsigned};
use crate::text::occurs_in;
use crate::wire::Schema;

verus! {

/// The layout of the reception time in a rendered status.
pub const DATE_PATTERN: &'static str = "%Y-%m-%d %H:%M:%S";

/// The complaint of `serde_json::from_str` about a text that is not one JSON
/// value, as the error displays itself; `None` for a text that parses.
pub uninterp spec fn json_error(text: Seq<char>) -> Option<Seq<char>>;

/// What `serde_json::Value::as_i64` reads from the member `key` of the
/// document that `text` parses to; `None` where the text does not parse.
pub uninterp spec fn json_i64(text: Seq<char>, key: Seq<char>) -> Option<i64>;

/// What `serde_json::Value::as_u64` reads from the member `key` of the
/// document that `text` parses to; `None` where the text does not parse.
pub uninterp spec fn json_u64(text: Seq<char>, key: Seq<char>) -> Option<u64>;

/// The UTC date and time that `chrono` prints, in the layout `pattern`, for
/// the instant `secs` seconds after the Unix epoch; `None` where
/// `chrono::DateTime::from_timestamp` finds the instant out of its range.
pub uninterp spec fn utc_text(secs: i64, pattern: Seq<char>) -> Option<Seq<char>>;

/// The characters of an optional string.
pub open spec fn text_of(o: Option<String>) -> Option<Seq<char>> {
    match o {
        Some(s) => Some(s@),
        None => None,
    }
}

/// Parses `text` with `serde_json::from_str::<serde_json::Value>` and hands
/// back the displayed error, if there is one. Parsing is a function of the
/// text alone; the contract names its complaint `json_error` and claims
/// nothing else.
#[verifier::external_body]
fn json_failure(text: &str) -> (r: Option<String>)
    ensures
        text_of(r) == json_error(text@),
{
    match serde_json::from_str::<serde_json::Value>(text) {
        Ok(_) => None,
        Err(e) => Some(e.to_string()),
    }
}

/// Parses `text` with `serde_json::from_str::<serde_json::Value>`, indexes
/// the document by `key` and calls `Value::as_i64` on what is there. The
/// contract names the outcome `json_i64` and claims nothing else.
#[verifier::external_body]
fn json_member_i64(text: &str, key: &str) -> (r: Option<i64>)
    ensures
        r == json_i64(text@, key@),
{
    match serde_json::from_str::<serde_json::Value>(text) {
        Ok(document) => document[key].as_i64(),
        Err(_) => None,
    }
}

/// Parses `text` with `serde_json::from_str::<serde_json::Value>`, indexes
/// the document by `key` and calls `Value::as_u64` on what is there. The
/// contract names the outcome `json_u64` and claims nothing else.
#[verifier::external_body]
fn json_member_u64(text: &str, key: &str) -> (r: Option<u64>)
    ensures
        r == json_u64(text@, key@),
{
    match serde_json::from_str::<serde_json::Value>(text) {
        Ok(document) => document[key].as_u64(),
        Err(_) => None,
    }
}

/// Builds the instant with `chrono::DateTime::from_timestamp(secs, 0)` and
/// prints it with `DateTime::format`. Printing fails on a malformed layout,
/// so only `DATE_PATTERN` is admitted. The contract names the outcome
/// `utc_text` and claims nothing else.
#[verifier::external_body]
fn utc_date_time(secs: i64, pattern: &str) -> (r: Option<String>)
    requires
        pattern@ == DATE_PATTERN@,
    ensures
        text_of(r) == utc_text(secs, pattern@),
{
    match chrono::DateTime::from_timestamp(secs, 0) {
        Some(instant) => Some(instant.format(pattern).to_string()),
        None => None,
    }
}

/// `yes` or `no`, as shown for the scroll wheel.
pub open spec fn wheel_text(has_wheel: bool) -> Seq<char> {
    if has_wheel {
        "да"@
    } else {
        "нет"@
    }
}

/// The reception time as shown: the printed instant, or a note that it is
/// unknown.
pub open spec fn received_text(received: Option<Seq<char>>) -> Seq<char> {
    match received {
        Some(t) => t,
        None => "неизвестно"@,
    }
}

/// The three lines shown for a mouse snapshot.
pub open spec fn mouse_status_text(buttons: int, has_wheel: bool, received: Option<Seq<char>>) -> Seq<
    char,
> {
    "Количество кнопок мыши: "@ + decimal(buttons) + "\nНаличие колесика мыши: "@ + wheel_text(
        has_wheel,
    ) + "\nВремя получения данных: "@ + received_text(received)
}

/// Whole hours in an uptime given in milliseconds.
pub open spec fn uptime_hours(uptime_ms: int) -> int {
    uptime_ms / 1000 / 3600
}

/// Whole minutes beyond the hours.
pub open spec fn uptime_minutes(uptime_ms: int) -> int {
    (uptime_ms / 1000 % 3600) / 60
}

/// Whole seconds beyond the minutes.
pub open spec fn uptime_seconds(uptime_ms: int) -> int {
    uptime_ms / 1000 % 60
}

/// The three lines shown for a process snapshot.
pub open spec fn process_status_text(pid: int, uptime_ms: int, received: Option<Seq<char>>) -> Seq<
    char,
> {
    "ID процесса сервера: "@ + decimal_digits(pid as nat) + "\nВремя работы сервера: "@
        + decimal_digits(uptime_hours(uptime_ms) as nat) + " ч "@ + decimal_digits(
        uptime_minutes(uptime_ms) as nat,
    ) + " мин "@ + decimal_digits(uptime_seconds(uptime_ms) as nat) + " сек\nВремя получения данных: "@
        + received_text(received)
}

/// What is shown for a payload that is not JSON: the parser's complaint,
/// then the payload as it came.
pub open spec fn parse_failure_text(error: Seq<char>, raw: Seq<char>) -> Seq<char> {
    "Ошибка парсинга данных: "@ + error + "\nСырой ответ:\n"@ + raw
}

/// Appends the reception time, or the note that stands for an unknown one.
fn push_received(out: &mut String, received: &Option<String>)
    ensures
        final(out)@ == old(out)@ + received_text(text_of(*received)),
{
    match received {
        Some(t) => out.append(t.as_str()),
        None => out.append("неизвестно"),
    }
}

/// Lays out the members of a mouse snapshot.
pub fn render_mouse_status(buttons: i64, has_wheel: bool, received: &Option<String>) -> (r: String)
    ensures
        r@ == mouse_status_text(buttons as int, has_wheel, text_of(*received)),
{
    let mut out = String::from_str("Количество кнопок мыши: ");
    push_signed(&mut out, buttons);
    out.append("\nНаличие колесика мыши: ");
    if has_wheel {
        out.append("да");
    } else {
        out.append("нет");
    }
    out.append("\nВремя получения данных: ");
    push_received(&mut out, received);
    out
}

/// Lays out the members of a process snapshot, the uptime broken into
/// hours, minutes and seconds.
pub fn render_process_status(pid: u64, uptime_ms: u64, received: &Option<String>) -> (r: String)
    ensures
        r@ == process_status_text(pid as int, uptime_ms as int, text_of(*received)),
{
    let uptime_secs = uptime_ms / 1000;
    let hours = uptime_secs / 3600;
    let minutes = (uptime_secs % 3600) / 60;
    let seconds = uptime_secs % 60;
    let mut out = String::from_str("ID процесса сервера: ");
    push_unsigned(&mut out, pid as u128);
    out.append("\nВремя работы сервера: ");
    push_unsigned(&mut out, hours as u128);
    out.append(" ч ");
    push_unsigned(&mut out, minutes as u128);
    out.append(" мин ");
    push_unsigned(&mut out, seconds as u128);
    out.append(" сек\nВремя получения данных: ");
    push_received(&mut out, received);
    out
}

/// Lays out a payload that could not be parsed.
pub fn render_parse_failure(error: &str, raw: &str) -> (r: String)
    ensures
        r@ == parse_failure_text(error@, raw@),
{
    let mut out = String::from_str("Ошибка парсинга данных: ");
    out.append(error);
    out.append("\nСырой ответ:\n");
    out.append(raw);
    out
}

/// The value of an optional reading, zero where it is missing.
pub open spec fn i64_or_zero(o: Option<i64>) -> i64 {
    match o {
        Some(v) => v,
        None => 0,
    }
}

/// The value of an optional reading, zero where it is missing.
pub open spec fn u64_or_zero(o: Option<u64>) -> u64 {
    match o {
        Some(v) => v,
        None => 0,
    }
}

/// The status shown for a payload from the mouse server.
pub open spec fn server1_status_text(payload: Seq<char>) -> Seq<char> {
    match json_error(payload) {
        Some(error) => parse_failure_text(error, payload),
        None => mouse_status_text(
            i64_or_zero(json_i64(payload, "mouse_buttons"@)) as int,
            i64_or_zero(json_i64(payload, "has_scroll_wheel"@)) != 0,
            utc_text(i64_or_zero(json_i64(payload, "timestamp"@)), DATE_PATTERN@),
        ),
    }
}

/// The status shown for a payload from the process server.
pub open spec fn server2_status_text(payload: Seq<char>) -> Seq<char> {
    match json_error(payload) {
        Some(error) => parse_failure_text(error, payload),
        None => process_status_text(
            u64_or_zero(json_u64(payload, "pid"@)) as int,
            u64_or_zero(json_u64(payload, "uptime_ms"@)) as int,
            utc_text(i64_or_zero(json_i64(payload, "timestamp"@)), DATE_PATTERN@),
        ),
    }
}

/// The status shown for a payload under a given schema.
pub open spec fn status_text(schema: Schema, payload: Seq<char>) -> Seq<char> {
    match schema {
        Schema::Mouse => server1_status_text(payload),
        Schema::Process => server2_status_text(payload),
    }
}

fn read_i64(payload: &str, key: &str) -> (r: i64)
    ensures
        r == i64_or_zero(json_i64(payload@, key@)),
{
    match json_member_i64(payload, key) {
        Some(v) => v,
        None => 0,
    }
}

fn read_u64(payload: &str, key: &str) -> (r: u64)
    ensures
        r == u64_or_zero(json_u64(payload@, key@)),
{
    match json_member_u64(payload, key) {
        Some(v) => v,
        None => 0,
    }
}

/// Formats one response of the mouse server. A member that is missing or is
/// no integer reads as zero; a payload that is not JSON is shown raw.
pub fn format_server1_response(json_str: &str) -> (r: String)
    ensures
        r@ == server1_status_text(json_str@),
{
    match json_failure(json_str) {
        Some(error) => render_parse_failure(error.as_str(), json_str),
        None => {
            let buttons = read_i64(json_str, "mouse_buttons");
            let has_wheel = read_i64(json_str, "has_scroll_wheel") != 0;
            let timestamp = read_i64(json_str, "timestamp");
            let received = utc_date_time(timestamp, DATE_PATTERN);
            render_mouse_status(buttons, has_wheel, &received)
        },
    }
}

/// Formats one response of the process server. A member that is missing or
/// is no integer of the expected sign reads as zero; a payload that is not
/// JSON is shown raw.
pub fn format_server2_response(json_str: &str) -> (r: String)
    ensures
        r@ == server2_status_text(json_str@),
{
    match json_failure(json_str) {
        Some(error) => render_parse_failure(error.as_str(), json_str),
        None => {
            let pid = read_u64(json_str, "pid");
            let uptime_ms = read_u64(json_str, "uptime_ms");
            let timestamp = read_i64(json_str, "timestamp");
            let received = utc_date_time(timestamp, DATE_PATTERN);
            render_process_status(pid, uptime_ms, &received)
        },
    }
}

/// Formats one response under the schema of its session.
pub fn format_response(schema: Schema, payload: &str) -> (r: String)
    ensures
        r@ == status_text(schema, payload@),
{
    match schema {
        Schema::Mouse => format_server1_response(payload),
        Schema::Process => format_server2_response(payload),
    }
}

/// Formatting is a function of the payload alone: payloads that agree
/// character for character are shown alike, under either schema.
pub proof fn lemma_formatting_is_deterministic(schema: Schema, first: Seq<char>, second: Seq<char>)
    requires
        first.len() == second.len(),
        forall|i: int| 0 <= i < first.len() ==> first[i] == second[i],
    ensures
        status_text(schema, first) == status_text(schema, second),
{
    assert(first =~= second);
}

/// A payload that parses is shown through the layout of its schema, its
/// members read as integers and the reception time printed in UTC.
pub proof fn lemma_well_formed_payload_is_laid_out(payload: Seq<char>)
    requires
        json_error(payload) is None,
    ensures
        status_text(Schema::Mouse, payload) == mouse_status_text(
            i64_or_zero(json_i64(payload, "mouse_buttons"@)) as int,
            i64_or_zero(json_i64(payload, "has_scroll_wheel"@)) != 0,
            utc_text(i64_or_zero(json_i64(payload, "timestamp"@)), DATE_PATTERN@),
        ),
        status_text(Schema::Process, payload) == process_status_text(
            u64_or_zero(json_u64(payload, "pid"@)) as int,
            u64_or_zero(json_u64(payload, "uptime_ms"@)) as int,
            utc_text(i64_or_zero(json_i64(payload, "timestamp"@)), DATE_PATTERN@),
        ),
{
}

/// The fallback holds both the parser's complaint and the payload as it
/// came.
pub proof fn lemma_fallback_holds_both(error: Seq<char>, raw: Seq<char>)
    ensures
        occurs_in(error, parse_failure_text(error, raw)),
        occurs_in(raw, parse_failure_text(error, raw)),
{
    let text = parse_failure_text(error, raw);
    let head = "Ошибка парсинга данных: "@;
    let middle = "\nСырой ответ:\n"@;
    let at_error = head.len() as int;
    let at_raw = (head.len() + error.len() + middle.len()) as int;
    assert(text.subrange(at_error, at_error + error.len()) =~= error);
    assert(text.subrange(at_raw, at_raw + raw.len()) =~= raw);
}

/// A payload that is not JSON is shown as the fallback, under either
/// schema: the parser's complaint and the raw payload are both in it.
pub proof fn lemma_malformed_payload_is_shown_raw(schema: Schema, payload: Seq<char>)
    requires
        json_error(payload) is Some,
    ensures
        status_text(schema, payload) == parse_failure_text(json_error(payload)->0, payload),
        occurs_in(json_error(payload)->0, status_text(schema, payload)),
        occurs_in(payload, status_text(schema, payload)),
{
    lemma_fallback_holds_both(json_error(payload)->0, payload);
}

/// The uptime is split without loss: hours, minutes and seconds add up to
/// the whole seconds of the uptime, minutes and seconds staying below 60.
pub proof fn lemma_uptime_split(uptime_ms: int)
    requires
        uptime_ms >= 0,
    ensures
        0 <= uptime_minutes(uptime_ms) < 60,
        0 <= uptime_seconds(uptime_ms) < 60,
        0 <= uptime_hours(uptime_ms),
        uptime_hours(uptime_ms) * 3600 + uptime_minutes(uptime_ms) * 60 + uptime_seconds(uptime_ms)
            == uptime_ms / 1000,
{
}

} // verus!
