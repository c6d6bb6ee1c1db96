use knob::api::status_accepted;
use knob::api::toggl_api_time_entries;
use knob::entry::EntryError;
use knob::entry::EntryOptions;
use knob::entry::TimeEntry;
use knob::entry::TimeEntryRequest;
use knob::entry::Timestamp;
use knob::entry::opt_to_time_entry;
use knob::json::time_entry_request_json;
use knob::token::trim_token;

fn options(description: &str, start: i64, stop: i64) -> EntryOptions {
    EntryOptions {
        description: description.to_string(),
        workspace: 1856420,
        project: 123,
        start: Timestamp {
            seconds: start,
            text: "2020-01-01T10:00:00+01:00".to_string(),
        },
        stop: Timestamp {
            seconds: stop,
            text: "2020-01-01T11:00:00+01:00".to_string(),
        },
    }
}

#[test]
fn duration_is_whole_seconds() {
    let req = opt_to_time_entry(options("work", 1577869200, 1577872800)).unwrap();
    assert_eq!(req.time_entry.duration, 3600);
}

#[test]
fn duration_zero_for_equal_times() {
    let req = opt_to_time_entry(options("work", 1577869200, 1577869200)).unwrap();
    assert_eq!(req.time_entry.duration, 0);
}

#[test]
fn stop_before_start_is_rejected() {
    let r = opt_to_time_entry(options("work", 1577872800, 1577869200));
    assert!(matches!(r, Err(EntryError::StopBeforeStart)));
}

#[test]
fn rejection_message_names_the_ordering() {
    let r = opt_to_time_entry(options("work", 10, 9));
    let e = r.err().unwrap();
    assert_eq!(e.message(), "The stop time must be _after_ the start time!");
}

#[test]
fn fields_are_carried_over() {
    let req = opt_to_time_entry(options("write tests", 0, 60)).unwrap();
    assert_eq!(req.time_entry.description, "write tests");
    assert_eq!(req.time_entry.created_with, "Knob");
    assert_eq!(req.time_entry.start, "2020-01-01T10:00:00+01:00");
    assert_eq!(req.time_entry.wid, 1856420);
    assert_eq!(req.time_entry.pid, 123);
}

#[test]
fn duration_is_exact_past_32_bits() {
    let req = opt_to_time_entry(options("long", 0, 4294967295)).unwrap();
    assert_eq!(req.time_entry.duration, 4294967295);
    let req = opt_to_time_entry(options("longer", 0, 4294967296)).unwrap();
    assert_eq!(req.time_entry.duration, 4294967296);
}

#[test]
fn duration_spans_the_whole_timestamp_range() {
    let req = opt_to_time_entry(options("all of time", i64::MIN, i64::MAX)).unwrap();
    assert_eq!(req.time_entry.duration, u64::MAX);
}

#[test]
fn serialized_body_is_the_fixed_document() {
    let req = opt_to_time_entry(options("hello", 1577869200, 1577872800)).unwrap();
    let body = time_entry_request_json(&req);
    assert_eq!(
        body,
        "{\"time_entry\":{\"description\":\"hello\",\"created_with\":\"Knob\",\
         \"start\":\"2020-01-01T10:00:00+01:00\",\"duration\":3600,\
         \"wid\":1856420,\"pid\":123}}"
    );
}

#[test]
fn description_is_escaped() {
    let req = TimeEntryRequest {
        time_entry: TimeEntry {
            description: "a\"b\\c\nd\te\u{1}".to_string(),
            created_with: "Knob".to_string(),
            start: "2020-01-01T10:00:00+01:00".to_string(),
            duration: 1,
            wid: 2,
            pid: 3,
        },
    };
    let body = time_entry_request_json(&req);
    assert_eq!(
        body,
        "{\"time_entry\":{\"description\":\"a\\\"b\\\\c\\nd\\te\\u0001\",\
         \"created_with\":\"Knob\",\"start\":\"2020-01-01T10:00:00+01:00\",\
         \"duration\":1,\"wid\":2,\"pid\":3}}"
    );
}

#[test]
fn control_characters_get_their_short_escapes() {
    let req = TimeEntryRequest {
        time_entry: TimeEntry {
            description: "\u{8}\u{c}\r\u{1f}".to_string(),
            created_with: String::new(),
            start: String::new(),
            duration: 0,
            wid: 0,
            pid: 0,
        },
    };
    let body = time_entry_request_json(&req);
    assert_eq!(
        body,
        "{\"time_entry\":{\"description\":\"\\b\\f\\r\\u001f\",\
         \"created_with\":\"\",\"start\":\"\",\"duration\":0,\"wid\":0,\"pid\":0}}"
    );
}

#[test]
fn numbers_print_in_plain_decimal() {
    let req = TimeEntryRequest {
        time_entry: TimeEntry {
            description: String::new(),
            created_with: String::new(),
            start: String::new(),
            duration: u64::MAX,
            wid: 0,
            pid: 1000000,
        },
    };
    let body = time_entry_request_json(&req);
    assert_eq!(
        body,
        "{\"time_entry\":{\"description\":\"\",\"created_with\":\"\",\"start\":\"\",\
         \"duration\":18446744073709551615,\"wid\":0,\"pid\":1000000}}"
    );
}

#[test]
fn only_status_200_is_accepted() {
    assert!(status_accepted(200));
    assert!(!status_accepted(201));
    assert!(!status_accepted(404));
    assert!(!status_accepted(500));
}

#[test]
fn time_entries_endpoint_is_fixed() {
    assert_eq!(
        toggl_api_time_entries(),
        "https://www.toggl.com/api/v8/time_entries"
    );
}

#[test]
fn token_is_trimmed() {
    assert_eq!(trim_token("  abc123\n"), "abc123");
    assert_eq!(trim_token("abc123"), "abc123");
    assert_eq!(trim_token(" \t\r\n "), "");
    assert_eq!(trim_token("\u{a0}tok en\u{2028}"), "tok en");
}
