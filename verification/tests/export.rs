use chrono::{TimeZone, Utc};
use garoon_sync::models::event::{Attendee, Event, Title};
use garoon_sync::services::export_events_service::{
    to_csv, to_csv_with_offsets, ExportError, ExportedEvent,
};
use garoon_sync::utils::calendar::UtcOffset;
use garoon_sync::utils::date_time_range::DateTimeRange;
use garoon_sync::utils::instant::{Instant, MAX_SECONDS};

fn ymd_hms(year: i32, month: u32, day: u32, hour: u32, min: u32, sec: u32) -> Instant {
    let at = Utc.with_ymd_and_hms(year, month, day, hour, min, sec).unwrap();
    Instant::new(at.timestamp(), at.timestamp_subsec_nanos()).unwrap()
}

fn offset(east: i32) -> UtcOffset {
    UtcOffset::new(east).unwrap()
}

fn two_events() -> Vec<Event> {
    vec![
        Event::new(
            Title::new("会議".to_string()),
            DateTimeRange::new(ymd_hms(2021, 1, 1, 0, 0, 0), ymd_hms(2021, 1, 1, 1, 0, 0))
                .unwrap(),
            vec![Attendee::new("user1".to_string())],
        ),
        Event::new(
            Title::new("打ち合わせ".to_string()),
            DateTimeRange::new(ymd_hms(2021, 1, 2, 15, 0, 0), ymd_hms(2021, 1, 2, 16, 0, 0))
                .unwrap(),
            vec![Attendee::new("user2".to_string())],
        ),
    ]
}

#[test]
fn test_to_csv() {
    let events = two_events();
    let tokyo = (offset(9 * 3600), offset(9 * 3600));

    let csv = to_csv_with_offsets(&events, &vec![tokyo, tokyo]).unwrap();

    assert_eq!(
        csv,
        "Subject,Start Date,Start Time,End Date,End Time\n\
            会議,2021-01-01,09:00:00,2021-01-01,10:00:00\n\
            打ち合わせ,2021-01-03,00:00:00,2021-01-03,01:00:00\n"
    );
}

#[test]
fn csv_of_no_events_is_the_header() {
    let csv = to_csv_with_offsets(&vec![], &vec![]).unwrap();
    assert_eq!(csv, "Subject,Start Date,Start Time,End Date,End Time\n");
    assert_eq!(to_csv(&vec![]).unwrap(), "Subject,Start Date,Start Time,End Date,End Time\n");
}

#[test]
fn csv_keeps_the_order_of_the_events() {
    let mut events = two_events();
    events.reverse();
    let utc = (offset(0), offset(0));
    let csv = to_csv_with_offsets(&events, &vec![utc, utc]).unwrap();
    assert_eq!(
        csv,
        "Subject,Start Date,Start Time,End Date,End Time\n\
            打ち合わせ,2021-01-02,15:00:00,2021-01-02,16:00:00\n\
            会議,2021-01-01,00:00:00,2021-01-01,01:00:00\n"
    );
}

#[test]
fn csv_shows_each_end_at_its_own_offset() {
    let events = two_events();
    let offsets = vec![(offset(-3600), offset(3600)), (offset(0), offset(32_400))];
    let csv = to_csv_with_offsets(&events, &offsets).unwrap();
    assert_eq!(
        csv,
        "Subject,Start Date,Start Time,End Date,End Time\n\
            会議,2020-12-31,23:00:00,2021-01-01,02:00:00\n\
            打ち合わせ,2021-01-02,15:00:00,2021-01-03,01:00:00\n"
    );
}

#[test]
fn csv_does_not_quote_the_subject() {
    let events = vec![Event::new(
        Title::new("a,\"b\"\nc".to_string()),
        DateTimeRange::new(ymd_hms(2021, 1, 1, 0, 0, 0), ymd_hms(2021, 1, 1, 1, 0, 0)).unwrap(),
        vec![],
    )];
    let csv = to_csv_with_offsets(&events, &vec![(offset(0), offset(0))]).unwrap();
    assert_eq!(
        csv,
        "Subject,Start Date,Start Time,End Date,End Time\n\
            a,\"b\"\nc,2021-01-01,00:00:00,2021-01-01,01:00:00\n"
    );
}

#[test]
fn csv_drops_fractions_of_a_second() {
    let start = Instant::new(1_609_459_200, 500_000_000).unwrap();
    let end = Instant::new(1_609_459_201, 999_999_999).unwrap();
    let events = vec![Event::new(
        Title::new("t".to_string()),
        DateTimeRange::new(start, end).unwrap(),
        vec![],
    )];
    let csv = to_csv_with_offsets(&events, &vec![(offset(0), offset(0))]).unwrap();
    assert_eq!(
        csv,
        "Subject,Start Date,Start Time,End Date,End Time\n\
            t,2021-01-01,00:00:00,2021-01-01,00:00:01\n"
    );
}

#[test]
fn csv_needs_one_pair_of_offsets_for_each_event() {
    let events = two_events();
    let utc = (offset(0), offset(0));
    assert_eq!(to_csv_with_offsets(&events, &vec![utc]), Err(ExportError::OffsetCountMismatch));
    assert_eq!(
        to_csv_with_offsets(&events, &vec![utc, utc, utc]),
        Err(ExportError::OffsetCountMismatch)
    );
}

#[test]
fn csv_names_the_first_row_outside_the_calendar() {
    let last = Instant::new(MAX_SECONDS, 0).unwrap();
    let mut events = two_events();
    events.push(Event::new(
        Title::new("end of time".to_string()),
        DateTimeRange::new(last, last).unwrap(),
        vec![],
    ));
    events.push(Event::new(
        Title::new("again".to_string()),
        DateTimeRange::new(last, last).unwrap(),
        vec![],
    ));
    let utc = (offset(0), offset(0));
    let east = (offset(0), offset(1));
    assert!(to_csv_with_offsets(&events, &vec![utc, utc, utc, utc]).is_ok());
    assert_eq!(
        to_csv_with_offsets(&events, &vec![utc, utc, east, east]),
        Err(ExportError::LocalTimeOutOfRange { row: 2 })
    );
}

#[test]
fn csv_in_the_local_zone_has_one_line_for_each_event() {
    let events = two_events();
    let csv = to_csv(&events).unwrap();
    let lines: Vec<&str> = csv.lines().collect();
    assert_eq!(lines.len(), 3);
    assert_eq!(lines[0], "Subject,Start Date,Start Time,End Date,End Time");
    assert!(lines[1].starts_with("会議,20"));
    assert!(lines[2].starts_with("打ち合わせ,2021-01-0"));
    assert!(csv.ends_with('\n'));
}

#[test]
fn exported_event_is_one_line() {
    let event = &two_events()[0];
    let row = ExportedEvent::at_offsets(event, &offset(32_400), &offset(32_400)).unwrap();
    assert_eq!(row.subject, "会議");
    assert_eq!(row.start_date, "2021-01-01");
    assert_eq!(row.start_time, "09:00:00");
    assert_eq!(row.end_date, "2021-01-01");
    assert_eq!(row.end_time, "10:00:00");
    assert_eq!(row.to_line(), "会議,2021-01-01,09:00:00,2021-01-01,10:00:00\n");
}

#[test]
fn exported_event_outside_the_calendar() {
    let last = Instant::new(MAX_SECONDS, 0).unwrap();
    let event =
        Event::new(Title::new("t".to_string()), DateTimeRange::new(last, last).unwrap(), vec![]);
    assert_eq!(ExportedEvent::at_offsets(&event, &offset(1), &offset(0)), None);
    assert_eq!(ExportedEvent::at_offsets(&event, &offset(0), &offset(1)), None);
    assert!(ExportedEvent::at_offsets(&event, &offset(0), &offset(-1)).is_some());
}
