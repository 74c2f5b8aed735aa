use status_poll::status::{
    format_response, format_server1_response, format_server2_response, render_mouse_status,
    render_parse_failure, render_process_status,
};
use status_poll::wire::{Schema, Snapshot};

#[test]
fn mouse_payload_is_laid_out_in_three_lines() {
    let shown = format_server1_response(
        "{\"mouse_buttons\": 5, \"has_scroll_wheel\": 1, \"timestamp\": 1700000000}",
    );
    assert_eq!(
        shown,
        "Количество кнопок мыши: 5\nНаличие колесика мыши: да\nВремя получения данных: 2023-11-14 22:13:20"
    );
}

#[test]
fn mouse_payload_without_wheel_says_no() {
    let shown =
        format_server1_response("{\"mouse_buttons\": 3, \"has_scroll_wheel\": 0, \"timestamp\": 0}");
    assert_eq!(
        shown,
        "Количество кнопок мыши: 3\nНаличие колесика мыши: нет\nВремя получения данных: 1970-01-01 00:00:00"
    );
}

#[test]
fn process_payload_splits_the_uptime() {
    // 3 723 456 ms are 1 h 2 min 3 s and a rest below one second.
    let shown = format_server2_response(
        "{\"pid\": 4242, \"uptime_ms\": 3723456, \"timestamp\": 1700000000}",
    );
    assert_eq!(
        shown,
        "ID процесса сервера: 4242\nВремя работы сервера: 1 ч 2 мин 3 сек\nВремя получения данных: 2023-11-14 22:13:20"
    );
}

#[test]
fn uptime_below_one_second_shows_zeros() {
    let shown = format_server2_response("{\"pid\": 1, \"uptime_ms\": 999, \"timestamp\": 60}");
    assert_eq!(
        shown,
        "ID процесса сервера: 1\nВремя работы сервера: 0 ч 0 мин 0 сек\nВремя получения данных: 1970-01-01 00:01:00"
    );
}

#[test]
fn uptime_of_many_hours_is_not_wrapped_into_days() {
    // 100 h 59 min 59 s.
    let shown = render_process_status(7, (100 * 3600 + 59 * 60 + 59) * 1000 + 1, &None);
    assert_eq!(
        shown,
        "ID процесса сервера: 7\nВремя работы сервера: 100 ч 59 мин 59 сек\nВремя получения данных: неизвестно"
    );
}

#[test]
fn missing_members_read_as_zero() {
    assert_eq!(
        format_server1_response("{}"),
        "Количество кнопок мыши: 0\nНаличие колесика мыши: нет\nВремя получения данных: 1970-01-01 00:00:00"
    );
    assert_eq!(
        format_server2_response("{}"),
        "ID процесса сервера: 0\nВремя работы сервера: 0 ч 0 мин 0 сек\nВремя получения данных: 1970-01-01 00:00:00"
    );
}

#[test]
fn members_of_another_kind_read_as_zero() {
    assert_eq!(
        format_server1_response(
            "{\"mouse_buttons\": \"five\", \"has_scroll_wheel\": 1.5, \"timestamp\": null}"
        ),
        "Количество кнопок мыши: 0\nНаличие колесика мыши: нет\nВремя получения данных: 1970-01-01 00:00:00"
    );
}

#[test]
fn json_that_is_no_object_reads_as_zeros() {
    assert_eq!(
        format_server1_response("[1, 2, 3]"),
        "Количество кнопок мыши: 0\nНаличие колесика мыши: нет\nВремя получения данных: 1970-01-01 00:00:00"
    );
}

#[test]
fn negative_pid_is_no_unsigned_reading() {
    let shown =
        format_server2_response("{\"pid\": -5, \"uptime_ms\": -1000, \"timestamp\": -1}");
    assert_eq!(
        shown,
        "ID процесса сервера: 0\nВремя работы сервера: 0 ч 0 мин 0 сек\nВремя получения данных: 1969-12-31 23:59:59"
    );
}

#[test]
fn negative_button_count_keeps_its_sign() {
    let shown =
        format_server1_response("{\"mouse_buttons\": -2, \"has_scroll_wheel\": -1, \"timestamp\": 1}");
    assert_eq!(
        shown,
        "Количество кнопок мыши: -2\nНаличие колесика мыши: да\nВремя получения данных: 1970-01-01 00:00:01"
    );
}

#[test]
fn timestamp_out_of_the_calendar_is_unknown() {
    let shown = format_server1_response(
        "{\"mouse_buttons\": 2, \"has_scroll_wheel\": 1, \"timestamp\": 9223372036854775807}",
    );
    assert_eq!(
        shown,
        "Количество кнопок мыши: 2\nНаличие колесика мыши: да\nВремя получения данных: неизвестно"
    );
}

#[test]
fn unsigned_reading_beyond_i64_is_kept_for_the_process_schema() {
    let shown = format_server2_response(
        "{\"pid\": 18446744073709551615, \"uptime_ms\": 18446744073709551615, \"timestamp\": 0}",
    );
    assert_eq!(
        shown,
        "ID процесса сервера: 18446744073709551615\nВремя работы сервера: 5124095576030 ч 25 мин 51 сек\nВремя получения данных: 1970-01-01 00:00:00"
    );
}

#[test]
fn malformed_payload_is_shown_raw_with_the_complaint() {
    let shown = format_server1_response("not json");
    assert_eq!(
        shown,
        "Ошибка парсинга данных: expected ident at line 1 column 2\nСырой ответ:\nnot json"
    );
    assert!(shown.contains("not json"));
    assert!(shown.contains("expected ident"));
}

#[test]
fn empty_payload_is_malformed() {
    assert_eq!(
        format_server2_response(""),
        "Ошибка парсинга данных: EOF while parsing a value at line 1 column 0\nСырой ответ:\n"
    );
}

#[test]
fn truncated_object_is_malformed_under_both_schemas() {
    let raw = "{\"pid\": 1, \"uptime_ms\"";
    let expected =
        format!("Ошибка парсинга данных: EOF while parsing an object at line 1 column {}\nСырой ответ:\n{}", raw.len(), raw);
    assert_eq!(format_server1_response(raw), expected);
    assert_eq!(format_server2_response(raw), expected);
}

#[test]
fn trailing_text_after_the_object_is_malformed() {
    let shown = format_response(Schema::Process, "{\"pid\": 1} tail");
    assert_eq!(
        shown,
        "Ошибка парсинга данных: trailing characters at line 1 column 12\nСырой ответ:\n{\"pid\": 1} tail"
    );
}

#[test]
fn formatting_twice_gives_the_same_text() {
    let payloads = [
        "{\"mouse_buttons\": 5, \"has_scroll_wheel\": 1, \"timestamp\": 1700000000}",
        "{\"pid\": 4242, \"uptime_ms\": 3723456, \"timestamp\": 1700000000}",
        "garbage {",
        "",
    ];
    for payload in payloads {
        let copy = payload.to_string();
        assert_eq!(format_server1_response(payload), format_server1_response(&copy));
        assert_eq!(format_server2_response(payload), format_server2_response(&copy));
    }
}

#[test]
fn format_response_follows_the_schema() {
    let payload = "{\"pid\": 9, \"mouse_buttons\": 4, \"timestamp\": 86400}";
    assert_eq!(format_response(Schema::Mouse, payload), format_server1_response(payload));
    assert_eq!(format_response(Schema::Process, payload), format_server2_response(payload));
    assert_ne!(format_response(Schema::Mouse, payload), format_response(Schema::Process, payload));
}

#[test]
fn renderers_take_the_readings_as_given() {
    assert_eq!(
        render_mouse_status(8, true, &Some("2001-02-03 04:05:06".to_string())),
        "Количество кнопок мыши: 8\nНаличие колесика мыши: да\nВремя получения данных: 2001-02-03 04:05:06"
    );
    assert_eq!(
        render_mouse_status(i64::MIN, false, &None),
        "Количество кнопок мыши: -9223372036854775808\nНаличие колесика мыши: нет\nВремя получения данных: неизвестно"
    );
    assert_eq!(
        render_process_status(12, 61_000, &Some("now".to_string())),
        "ID процесса сервера: 12\nВремя работы сервера: 0 ч 1 мин 1 сек\nВремя получения данных: now"
    );
    assert_eq!(
        render_parse_failure("oops", "<raw>"),
        "Ошибка парсинга данных: oops\nСырой ответ:\n<raw>"
    );
}

#[test]
fn what_a_server_sends_is_what_a_client_shows() {
    let mouse = Snapshot::Mouse { mouse_buttons: 16, has_scroll_wheel: true, timestamp: 951782400 };
    assert_eq!(
        format_server1_response(&mouse.to_json()),
        "Количество кнопок мыши: 16\nНаличие колесика мыши: да\nВремя получения данных: 2000-02-29 00:00:00"
    );
    let process = Snapshot::Process { pid: 77, uptime_ms: 7_200_000, timestamp: 951782400 };
    assert_eq!(
        format_server2_response(&process.to_json()),
        "ID процесса сервера: 77\nВремя работы сервера: 2 ч 0 мин 0 сек\nВремя получения данных: 2000-02-29 00:00:00"
    );
}
