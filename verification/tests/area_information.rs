use esp_scheduler::area_information::{AreaInformation, Event, EventFault, ParseError};
use esp_scheduler::json::{Json, Member};

const NEW_YEAR_2030: i64 = 1_893_456_000;

fn error_of(payload: &str) -> ParseError {
    match AreaInformation::new(payload) {
        Ok(area) => panic!("the payload was read as {:?}", area),
        Err(e) => e,
    }
}

#[test]
fn reads_one_event() {
    let payload = "{\"events\":[{\"start\":\"2030-01-01T00:05:00+00:00\",\"note\":\"outage A\"}]}";
    let area = AreaInformation::new(payload).unwrap();
    assert_eq!(area.events.len(), 1);
    assert_eq!(area.events[0].start.secs, NEW_YEAR_2030 + 300);
    assert_eq!(area.events[0].start.nanos, 0);
    assert_eq!(area.events[0].start.offset, 0);
    assert_eq!(area.events[0].note, "outage A");
}

#[test]
fn reads_the_empty_schedule() {
    let area = AreaInformation::new("{\"events\" : []}").unwrap();
    assert!(area.events.is_empty());
}

#[test]
fn keeps_events_in_the_order_received() {
    let payload = "{\"events\":[\
        {\"start\":\"2030-01-01T01:00:00Z\",\"note\":\"later\"},\
        {\"start\":\"2030-01-01T00:05:00Z\",\"note\":\"sooner\"},\
        {\"start\":\"2029-12-31T23:00:00Z\",\"note\":\"\"}]}";
    let area = AreaInformation::new(payload).unwrap();
    assert_eq!(area.events.len(), 3);
    assert_eq!(area.events[0].note, "later");
    assert_eq!(area.events[0].start.secs, NEW_YEAR_2030 + 3_600);
    assert_eq!(area.events[1].note, "sooner");
    assert_eq!(area.events[1].start.secs, NEW_YEAR_2030 + 300);
    assert_eq!(area.events[2].note, "");
    assert_eq!(area.events[2].start.secs, NEW_YEAR_2030 - 3_600);
}

#[test]
fn reads_the_offset_and_the_fraction() {
    let payload = "{\"events\":[{\"start\":\"2030-01-01T02:00:00.25+02:00\",\"note\":\"x\"},\
        {\"start\":\"2029-12-31T19:30:00-04:30\",\"note\":\"y\"}]}";
    let area = AreaInformation::new(payload).unwrap();
    assert_eq!(area.events[0].start.secs, NEW_YEAR_2030);
    assert_eq!(area.events[0].start.nanos, 250_000_000);
    assert_eq!(area.events[0].start.offset, 7_200);
    assert_eq!(area.events[1].start.secs, NEW_YEAR_2030);
    assert_eq!(area.events[1].start.nanos, 0);
    assert_eq!(area.events[1].start.offset, -16_200);
}

#[test]
fn agrees_with_chrono_on_the_instant() {
    let texts = ["1996-12-19T16:39:57-08:00", "2030-06-15t12:00:00.123456789z", "0001-01-01 00:00:00+23:59"];
    for start in texts {
        let payload = format!("{{\"events\":[{{\"start\":\"{}\",\"note\":\"n\"}}]}}", start);
        let area = AreaInformation::new(&payload).unwrap();
        let expected = chrono::DateTime::parse_from_rfc3339(start).unwrap();
        assert_eq!(area.events[0].start.secs, expected.timestamp());
        assert_eq!(area.events[0].start.nanos, expected.timestamp_subsec_nanos());
        assert_eq!(area.events[0].start.offset, expected.offset().local_minus_utc());
    }
}

#[test]
fn ignores_end_and_other_members() {
    let payload = "{\"name\":\"area 7\",\"events\":[{\"end\":\"2030-01-01T02:30:00+00:00\",\
        \"note\":\"stage 2\",\"start\":\"2030-01-01T00:05:00+00:00\",\"extra\":[1,2,{\"a\":null}]}],\
        \"schedule\":{\"days\":[]}}";
    let area = AreaInformation::new(payload).unwrap();
    assert_eq!(area.events.len(), 1);
    assert_eq!(area.events[0].note, "stage 2");
    assert_eq!(area.events[0].start.secs, NEW_YEAR_2030 + 300);
}

#[test]
fn reads_escapes_in_the_note() {
    let payload = "{\"events\":[{\"start\":\"2030-01-01T00:05:00Z\",\"note\":\"a\\\"b\\u00e9\\n\"}]}";
    let area = AreaInformation::new(payload).unwrap();
    assert_eq!(area.events[0].note, "a\"b\u{e9}\n");
}

#[test]
fn malformed_json_is_an_error() {
    assert_eq!(error_of(""), ParseError::Malformed);
    assert_eq!(error_of("{"), ParseError::Malformed);
    assert_eq!(error_of("{\"events\": [}"), ParseError::Malformed);
    assert_eq!(error_of("{\"events\": []} trailing"), ParseError::Malformed);
    assert_eq!(error_of("not json"), ParseError::Malformed);
}

#[test]
fn a_document_without_an_events_array_is_an_error() {
    assert_eq!(error_of("{}"), ParseError::MissingEvents);
    assert_eq!(error_of("{\"Events\": []}"), ParseError::MissingEvents);
    assert_eq!(error_of("{\"events\": {}}"), ParseError::MissingEvents);
    assert_eq!(error_of("{\"events\": null}"), ParseError::MissingEvents);
    assert_eq!(error_of("{\"events\": \"none\"}"), ParseError::MissingEvents);
    assert_eq!(error_of("[]"), ParseError::MissingEvents);
    assert_eq!(error_of("null"), ParseError::MissingEvents);
    assert_eq!(error_of("3"), ParseError::MissingEvents);
}

#[test]
fn an_entry_without_start_or_note_is_an_error() {
    let good = "{\"start\":\"2030-01-01T00:05:00Z\",\"note\":\"ok\"}";
    let cases = [
        "{\"note\":\"no start\"}",
        "{\"start\":\"2030-01-01T00:05:00Z\"}",
        "{\"start\":1893456300,\"note\":\"number\"}",
        "{\"start\":\"2030-01-01T00:05:00Z\",\"note\":null}",
        "{\"start\":\"2030-01-01T00:05:00Z\",\"note\":7}",
        "[\"2030-01-01T00:05:00Z\",\"in an array\"]",
        "\"2030-01-01T00:05:00Z\"",
        "null",
    ];
    for case in cases {
        let payload = format!("{{\"events\":[{},{}]}}", good, case);
        assert_eq!(error_of(&payload), ParseError::InvalidEvent { index: 1 });
    }
}

#[test]
fn a_malformed_timestamp_is_an_error() {
    let cases = [
        "",
        "tomorrow",
        "2030-01-01",
        "2030-01-01T00:05:00",
        "2030-13-01T00:05:00Z",
        "2030-02-30T00:05:00Z",
        "2030-01-01T24:00:00Z",
        "2030-01-01T00:05:00+00:00 ",
        "01-01-2030 00:05:00",
    ];
    for case in cases {
        let payload = format!("{{\"events\":[{{\"start\":\"{}\",\"note\":\"n\"}}]}}", case);
        assert_eq!(error_of(&payload), ParseError::InvalidTimestamp { index: 0 });
    }
}

#[test]
fn the_first_bad_entry_is_reported() {
    let payload = "{\"events\":[{\"start\":\"2030-01-01T00:05:00Z\",\"note\":\"ok\"},\
        {\"start\":\"soon\",\"note\":\"bad time\"},{\"note\":\"no start\"}]}";
    assert_eq!(error_of(payload), ParseError::InvalidTimestamp { index: 1 });
    let payload = "{\"events\":[{\"note\":\"no start\"},{\"start\":\"soon\",\"note\":\"bad time\"}]}";
    assert_eq!(error_of(payload), ParseError::InvalidEvent { index: 0 });
}

#[test]
fn a_bad_timestamp_is_reported_before_a_missing_note() {
    let payload = "{\"events\":[{\"start\":\"soon\"}]}";
    assert_eq!(error_of(payload), ParseError::InvalidTimestamp { index: 0 });
}

#[test]
fn one_bad_entry_fails_the_whole_payload() {
    let payload = "{\"events\":[{\"start\":\"2030-01-01T00:05:00Z\",\"note\":\"ok\"},{}]}";
    assert!(AreaInformation::new(payload).is_err());
}

#[test]
fn a_leap_second_is_read() {
    let payload = "{\"events\":[{\"start\":\"2016-12-31T23:59:60Z\",\"note\":\"leap\"}]}";
    let area = AreaInformation::new(payload).unwrap();
    assert_eq!(area.events[0].start.secs, 1_483_228_799);
    assert_eq!(area.events[0].start.nanos, 1_000_000_000);
}

fn text(s: &str) -> Json {
    Json::Text(s.to_string())
}

fn object(members: Vec<(&str, Json)>) -> Json {
    Json::Object(members.into_iter().map(|(key, value)| Member { key: key.to_string(), value }).collect())
}

#[test]
fn from_document_reads_a_value() {
    let entry = object(vec![("start", text("2030-01-01T00:05:00Z")), ("note", text("a"))]);
    let doc = object(vec![("name", Json::Null), ("events", Json::Array(vec![entry]))]);
    let area = AreaInformation::from_document(&doc).unwrap();
    assert_eq!(area.events.len(), 1);
    assert_eq!(area.events[0].note, "a");
    assert_eq!(area.events[0].start.secs, NEW_YEAR_2030 + 300);
    let doc = object(vec![("other", Json::Array(Vec::new()))]);
    assert_eq!(AreaInformation::from_document(&doc).unwrap_err(), ParseError::MissingEvents);
    let doc = object(vec![("events", Json::Bool(true))]);
    assert_eq!(AreaInformation::from_document(&doc).unwrap_err(), ParseError::MissingEvents);
    let doc = Json::Array(Vec::new());
    assert_eq!(AreaInformation::from_document(&doc).unwrap_err(), ParseError::MissingEvents);
    let doc = object(vec![("events", Json::Array(Vec::new()))]);
    assert!(AreaInformation::from_document(&doc).unwrap().events.is_empty());
}

#[test]
fn from_entries_reads_each_entry() {
    let items = vec![
        object(vec![("start", text("2030-01-01T00:05:00Z")), ("note", text("a"))]),
        object(vec![("start", text("x")), ("note", text("b"))]),
        object(vec![("start", Json::Number("1893456300".to_string())), ("note", text("c"))]),
    ];
    assert_eq!(
        AreaInformation::from_entries(&items).unwrap_err(),
        ParseError::InvalidTimestamp { index: 1 }
    );
    let event = Event::from_entry(&items[0]).unwrap();
    assert_eq!(event.note, "a");
    assert_eq!(event.start.secs, NEW_YEAR_2030 + 300);
    assert_eq!(Event::from_entry(&items[1]).unwrap_err(), EventFault::Timestamp);
    assert_eq!(Event::from_entry(&items[2]).unwrap_err(), EventFault::Shape);
    assert_eq!(Event::from_entry(&Json::Null).unwrap_err(), EventFault::Shape);
    assert_eq!(Event::from_entry(&text("2030-01-01T00:05:00Z")).unwrap_err(), EventFault::Shape);
}

#[test]
fn the_first_member_with_a_key_counts() {
    let entry = object(vec![
        ("note", text("first")),
        ("start", text("2030-01-01T00:05:00Z")),
        ("note", text("second")),
        ("start", text("never")),
    ]);
    let event = Event::from_entry(&entry).unwrap();
    assert_eq!(event.note, "first");
    assert_eq!(event.start.secs, NEW_YEAR_2030 + 300);
}

#[test]
fn locate_names_the_entry() {
    assert_eq!(EventFault::Shape.locate(3), ParseError::InvalidEvent { index: 3 });
    assert_eq!(EventFault::Timestamp.locate(0), ParseError::InvalidTimestamp { index: 0 });
}
