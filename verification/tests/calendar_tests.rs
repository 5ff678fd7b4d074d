use zocli::calendar::{
    check_delete_status, check_response_status, find_calendar_info,
    next_chunk_end, non_empty, parse_event_window, parse_rfc3339_or_date,
    to_zoho_datetime_from_input, truncate_body, sort_and_limit_events, CalendarEvent, CalendarInfo,
    list_calendars_rest, ZohoCalendar, prepare_event, CreateEventRequest,
};
use zocli::error::ZocliError;

#[test]
fn parse_event_window_accepts_date_and_rfc3339_inputs() {
    let window =
        parse_event_window(Some("2026-03-12"), Some("2026-03-13T12:00:00Z"), 20).expect("window");
    assert_eq!(window.from, "2026-03-12T00:00:00Z");
    assert_eq!(window.to, "2026-03-13T12:00:00Z");
    assert_eq!(window.limit, 20);
}

#[test]
fn parse_event_window_rejects_zero_limit() {
    let err = parse_event_window(Some("2026-03-12"), Some("2026-03-13"), 0).unwrap_err();
    assert!(err.message().contains("greater than zero"));
}

#[test]
fn parse_event_window_rejects_over_100_limit() {
    let err = parse_event_window(Some("2026-03-12"), Some("2026-03-13"), 101).unwrap_err();
    assert!(err.message().contains("greater than 100"));
}

#[test]
fn parse_event_window_rejects_reversed_range() {
    let err = parse_event_window(Some("2026-03-13"), Some("2026-03-12"), 10).unwrap_err();
    assert!(err.message().contains("must be after"));
}

#[test]
fn to_zoho_datetime_from_input_handles_rfc3339() {
    let result = to_zoho_datetime_from_input("2026-03-12T09:00:00Z", "test").unwrap();
    assert_eq!(result, "20260312T090000Z");
}

#[test]
fn to_zoho_datetime_from_input_handles_date() {
    let result = to_zoho_datetime_from_input("2026-03-12", "test").unwrap();
    assert_eq!(result, "20260312T000000Z");
}

#[test]
fn parse_rfc3339_or_date_reads_dates_and_timestamps() {
    let dt1 = parse_rfc3339_or_date("2026-03-12", "test").unwrap();
    let dt2 = parse_rfc3339_or_date("2026-03-12T09:30:00Z", "test").unwrap();
    assert_eq!(dt2.0 - dt1.0, 9 * 3600 + 30 * 60);
    assert_eq!(dt1.1, 0);
}

#[test]
fn parse_rfc3339_or_date_rejects_garbage() {
    let err = parse_rfc3339_or_date("not-a-date", "test").unwrap_err();
    assert!(err.message().contains("must use YYYY-MM-DD or RFC3339"));
}

#[test]
fn truncate_body_truncates_long_strings() {
    let short = "hello";
    assert_eq!(truncate_body(short), "hello");
    let long = "a".repeat(300);
    let truncated = truncate_body(&long);
    assert!(truncated.ends_with("..."));
    assert!(truncated.len() < 300);
}

#[test]
fn truncate_body_keeps_exactly_240_characters() {
    let long = "é".repeat(241);
    let truncated = truncate_body(&long);
    assert_eq!(truncated.chars().count(), 243);
    assert_eq!(truncate_body(&"b".repeat(240)), "b".repeat(240));
}

#[test]
fn non_empty_filters_blank_strings() {
    assert_eq!(non_empty(Some("hello".to_string())), Some("hello".to_string()));
    assert_eq!(non_empty(Some("".to_string())), None);
    assert_eq!(non_empty(Some("   ".to_string())), None);
    assert_eq!(non_empty(None), None);
}

fn cal(uid: &str, name: &str, default: bool) -> CalendarInfo {
    CalendarInfo { uid: uid.to_string(), name: name.to_string(), color: String::new(), is_default: default }
}

#[test]
fn find_calendar_info_selects_default_uid_and_name() {
    let cals = vec![cal("u1", "Work", false), cal("u2", "Home", true), cal("u3", "Home", true)];
    assert_eq!(find_calendar_info(&cals, "default").unwrap().uid, "u2");
    assert_eq!(find_calendar_info(&cals, "u3").unwrap().uid, "u3");
    assert_eq!(find_calendar_info(&cals, "Home").unwrap().uid, "u2");
    let err = find_calendar_info(&cals, "nope").unwrap_err();
    assert!(matches!(err, ZocliError::Validation(ref m) if m.contains("calendar `nope` not found")));
    let none: Vec<CalendarInfo> = vec![];
    let err = find_calendar_info(&none, "default").unwrap_err();
    assert!(matches!(err, ZocliError::Validation(ref m) if m == "no calendars found"));
    let plain = vec![cal("a", "A", false), cal("b", "B", false)];
    assert_eq!(find_calendar_info(&plain, "default").unwrap().uid, "a");
}

#[test]
fn calendars_are_sorted_by_name_stably() {
    let raw = vec![
        ZohoCalendar { uid: "1".into(), name: "b".into(), color: "red".into(), isdefault: false },
        ZohoCalendar { uid: "2".into(), name: "a".into(), color: "blue".into(), isdefault: true },
        ZohoCalendar { uid: "3".into(), name: "b".into(), color: "green".into(), isdefault: false },
    ];
    let sorted = list_calendars_rest(raw);
    let uids: Vec<&str> = sorted.iter().map(|c| c.uid.as_str()).collect();
    assert_eq!(uids, vec!["2", "1", "3"]);
    assert!(sorted[0].is_default);
}

fn ev(uid: &str, title: &str, start: &str) -> CalendarEvent {
    CalendarEvent {
        uid: uid.into(),
        title: title.into(),
        start: start.into(),
        end: String::new(),
        location: None,
        description: None,
        etag: None,
    }
}

#[test]
fn events_sort_by_start_title_uid_and_truncate() {
    let events = vec![ev("c", "x", "2"), ev("b", "a", "2"), ev("a", "z", "1"), ev("d", "a", "2")];
    let sorted = sort_and_limit_events(events, 3);
    let uids: Vec<&str> = sorted.iter().map(|e| e.uid.as_str()).collect();
    assert_eq!(uids, vec!["a", "b", "d"]);
}

#[test]
fn response_status_errors_are_classified() {
    assert!(check_response_status(204, "list events").is_ok());
    match check_response_status(401, "list events").unwrap_err() {
        ZocliError::Auth(m) => assert_eq!(m, "list events failed with status 401. Check the Zoho access token."),
        other => panic!("unexpected {:?}", other),
    }
    match check_response_status(429, "list events").unwrap_err() {
        ZocliError::Api(m) => assert_eq!(m, "list events rate limited (429). Try again later."),
        other => panic!("unexpected {:?}", other),
    }
    match check_response_status(500, "create event").unwrap_err() {
        ZocliError::Api(m) => assert_eq!(m, "create event failed with status 500"),
        other => panic!("unexpected {:?}", other),
    }
    match check_delete_status(404, "gone").unwrap_err() {
        ZocliError::Api(m) => assert_eq!(m, "delete event failed with status 404: gone"),
        other => panic!("unexpected {:?}", other),
    }
    assert!(check_delete_status(204, "").is_ok());
}

#[test]
fn chunks_span_at_most_31_days() {
    assert_eq!(next_chunk_end((0, 5), (10_000_000, 0)), (2_678_400, 5));
    assert_eq!(next_chunk_end((0, 0), (1_000, 0)), (1_000, 0));
}

#[test]
fn prepare_event_validates_title_and_times() {
    let req = CreateEventRequest {
        title: "  Meeting ".into(),
        start: "2026-03-12".into(),
        end: "2026-03-12T10:00:00Z".into(),
        description: Some("  ".into()),
        location: Some(" Room 1 ".into()),
    };
    let p = prepare_event(&req).unwrap();
    assert_eq!(p.title, "Meeting");
    assert_eq!(p.start, "20260312T000000Z");
    assert_eq!(p.end, "20260312T100000Z");
    assert_eq!(p.description, None);
    assert_eq!(p.location.as_deref(), Some("Room 1"));
    let blank = CreateEventRequest { title: " ".into(), ..req };
    assert!(matches!(prepare_event(&blank).unwrap_err(), ZocliError::Validation(m) if m == "create_event title must not be empty"));
}

#[test]
fn parse_rfc3339_or_date_accepts_both_formats() {
    let dt1 = parse_rfc3339_or_date("2026-03-12", "test").unwrap();
    assert_eq!(
        chrono::DateTime::from_timestamp(dt1.0, dt1.1)
            .unwrap()
            .to_rfc3339_opts(chrono::SecondsFormat::Secs, true),
        "2026-03-12T00:00:00Z"
    );

    let dt2 = parse_rfc3339_or_date("2026-03-12T09:30:00Z", "test").unwrap();
    assert_eq!(
        chrono::DateTime::from_timestamp(dt2.0, dt2.1)
            .unwrap()
            .to_rfc3339_opts(chrono::SecondsFormat::Secs, true),
        "2026-03-12T09:30:00Z"
    );
}

#[test]
fn event_ranges_are_cut_into_31_day_chunks() {
    let day: i64 = 86_400;
    let from = (1_773_273_600i64, 0u32);
    let to = (from.0 + 70 * day, 0u32);
    let chunks = zocli::calendar::event_chunk_bounds(from, to);
    assert_eq!(
        chunks,
        vec![
            (from, (from.0 + 31 * day, 0)),
            ((from.0 + 31 * day, 0), (from.0 + 62 * day, 0)),
            ((from.0 + 62 * day, 0), to),
        ]
    );
    assert!(zocli::calendar::event_chunk_bounds(to, from).is_empty());
    assert_eq!(
        zocli::calendar::event_range_query(from, (from.0 + 3600, 0)).unwrap(),
        "{\"start\":\"20260312T000000Z\",\"end\":\"20260312T010000Z\"}"
    );
}

#[test]
fn events_to_delete_are_found_by_uid() {
    let event = |uid: &str| CalendarEvent {
        uid: uid.to_string(),
        title: "t".to_string(),
        start: "s".to_string(),
        end: "e".to_string(),
        location: None,
        description: None,
        etag: None,
    };
    let found =
        zocli::calendar::find_event_by_uid(vec![event("a"), event("b")], "b", "default").unwrap();
    assert_eq!(found.uid, "b");
    match zocli::calendar::find_event_by_uid(vec![event("a")], "zz", "work") {
        Err(ZocliError::Validation(m)) => {
            assert_eq!(m, "calendar event with uid `zz` not found in calendar `work`")
        }
        other => panic!("unexpected {other:?}"),
    }
}

#[test]
fn event_range_queries_cut_a_listing_into_month_pieces() {
    let queries = zocli::calendar::event_range_queries("2026-01-01", "2026-03-01").unwrap();
    assert_eq!(
        queries,
        vec![
            r#"{"start":"20260101T000000Z","end":"20260201T000000Z"}"#.to_string(),
            r#"{"start":"20260201T000000Z","end":"20260301T000000Z"}"#.to_string(),
        ]
    );
    let one = zocli::calendar::event_range_queries("2026-01-01T10:00:00Z", "2026-01-01T11:30:00Z").unwrap();
    assert_eq!(one, vec![r#"{"start":"20260101T100000Z","end":"20260101T113000Z"}"#.to_string()]);
}

#[test]
fn event_range_queries_refuse_bad_or_reversed_bounds() {
    let err = zocli::calendar::event_range_queries("yesterday", "2026-01-02").unwrap_err();
    assert!(matches!(err, ZocliError::Validation(ref m)
        if m == "list_events <from> must use YYYY-MM-DD or RFC3339, got `yesterday`"));
    let err = zocli::calendar::event_range_queries("2026-01-02", "soon").unwrap_err();
    assert!(matches!(err, ZocliError::Validation(ref m)
        if m == "list_events <to> must use YYYY-MM-DD or RFC3339, got `soon`"));
    let err = zocli::calendar::event_range_queries("2026-01-02", "2026-01-02").unwrap_err();
    assert!(matches!(err, ZocliError::Validation(ref m) if m == "list_events <to> must be after <from>"));
}
