use chrono::{TimeZone, Utc};
use garoon_sync::apis::garoon::{GaroonAttendee, GaroonDateTime, GaroonEvent};
use garoon_sync::models::event::{Attendee, ConversionError, Event, Title};
use garoon_sync::utils::date_time_range::DateTimeRange;
use garoon_sync::utils::instant::Instant;

fn ymd_hms(year: i32, month: u32, day: u32, hour: u32, min: u32, sec: u32) -> Instant {
    let at = Utc.with_ymd_and_hms(year, month, day, hour, min, sec).unwrap();
    Instant::new(at.timestamp(), at.timestamp_subsec_nanos()).unwrap()
}

fn raw(subject: &str, names: &[&str], start: &str, end: &str) -> GaroonEvent {
    GaroonEvent {
        subject: subject.to_string(),
        attendees: names.iter().map(|name| GaroonAttendee { name: name.to_string() }).collect(),
        start: GaroonDateTime { dateTime: start.to_string(), timeZone: "Asia/Tokyo".to_string() },
        end: GaroonDateTime { dateTime: end.to_string(), timeZone: "Asia/Tokyo".to_string() },
    }
}

#[test]
fn test_from_garoon_event() {
    let garoon_event = GaroonEvent {
        subject: "会議".to_string(),
        attendees: vec![GaroonAttendee { name: "user1".to_string() }],
        start: GaroonDateTime {
            dateTime: "2021-01-01T09:00:00+09:00".to_string(),
            timeZone: "Asia/Tokyo".to_string(),
        },
        end: GaroonDateTime {
            dateTime: "2021-01-01T10:00:00+09:00".to_string(),
            timeZone: "Asia/Tokyo".to_string(),
        },
    };
    let event = Event::from(garoon_event).unwrap();
    assert_eq!(event.title, Title::new("会議".to_string()));
    assert_eq!(event.attendees[0].display_name, "user1".to_string());
    assert_eq!(event.duration.start(), ymd_hms(2021, 1, 1, 0, 0, 0));
    assert_eq!(event.duration.end(), ymd_hms(2021, 1, 1, 1, 0, 0));
}

#[test]
fn title_is_kept_as_given() {
    let title = Title::new("  a, \"b\"\n ".to_string());
    assert_eq!(title.as_str(), "  a, \"b\"\n ");
    assert_eq!(Title::new(String::new()).as_str(), "");
}

#[test]
fn attendee_keeps_its_name() {
    assert_eq!(Attendee::new("user1".to_string()).display_name, "user1");
}

#[test]
fn event_new_keeps_its_parts() {
    let duration =
        DateTimeRange::new(ymd_hms(2021, 1, 1, 0, 0, 0), ymd_hms(2021, 1, 1, 1, 0, 0)).unwrap();
    let attendees = vec![Attendee::new("a".to_string()), Attendee::new("b".to_string())];
    let event = Event::new(Title::new("t".to_string()), duration, attendees.clone());
    assert_eq!(event.title.as_str(), "t");
    assert_eq!(event.duration, duration);
    assert_eq!(event.attendees, attendees);
}

#[test]
fn conversion_keeps_attendees_in_order() {
    let event = Event::from(raw(
        "s",
        &["c", "a", "b", "a"],
        "2021-01-01T09:00:00Z",
        "2021-01-01T09:00:00Z",
    ))
    .unwrap();
    let names: Vec<&str> = event.attendees.iter().map(|a| a.display_name.as_str()).collect();
    assert_eq!(names, vec!["c", "a", "b", "a"]);
}

#[test]
fn conversion_without_attendees() {
    let event =
        Event::from(raw("s", &[], "2021-01-01T09:00:00Z", "2021-01-01T10:00:00Z")).unwrap();
    assert!(event.attendees.is_empty());
}

#[test]
fn conversion_compares_instants_not_texts() {
    let event = Event::from(raw(
        "s",
        &[],
        "2021-01-01T09:00:00+09:00",
        "2021-01-01T00:30:00Z",
    ))
    .unwrap();
    assert_eq!(event.duration.start(), ymd_hms(2021, 1, 1, 0, 0, 0));
    assert_eq!(event.duration.end(), ymd_hms(2021, 1, 1, 0, 30, 0));
}

#[test]
fn conversion_refuses_unreadable_start() {
    let outcome = Event::from(raw("s", &[], "yesterday", "2021-01-01T10:00:00Z"));
    assert_eq!(outcome, Err(ConversionError::StartTimestamp));
}

#[test]
fn conversion_refuses_unreadable_end() {
    let outcome = Event::from(raw("s", &[], "2021-01-01T10:00:00Z", "2021-01-01 10"));
    assert_eq!(outcome, Err(ConversionError::EndTimestamp));
}

#[test]
fn conversion_reports_the_start_first() {
    let outcome = Event::from(raw("s", &[], "", ""));
    assert_eq!(outcome, Err(ConversionError::StartTimestamp));
}

#[test]
fn conversion_refuses_start_after_end() {
    let outcome = Event::from(raw("s", &[], "2021-01-01T10:00:01Z", "2021-01-01T10:00:00Z"));
    assert_eq!(outcome, Err(ConversionError::StartAfterEnd));
}

#[test]
fn from_parsed_decides_on_the_instants_given() {
    let early = ymd_hms(2021, 1, 1, 0, 0, 0);
    let late = ymd_hms(2021, 1, 1, 1, 0, 0);
    let value = raw("s", &["a"], "ignored", "ignored");
    assert_eq!(
        Event::from_parsed(value.clone(), None, Some(late)),
        Err(ConversionError::StartTimestamp)
    );
    assert_eq!(
        Event::from_parsed(value.clone(), Some(early), None),
        Err(ConversionError::EndTimestamp)
    );
    assert_eq!(
        Event::from_parsed(value.clone(), Some(late), Some(early)),
        Err(ConversionError::StartAfterEnd)
    );
    let event = Event::from_parsed(value, Some(early), Some(late)).unwrap();
    assert_eq!(event.title.as_str(), "s");
    assert_eq!(event.duration.start(), early);
    assert_eq!(event.duration.end(), late);
    assert_eq!(event.attendees, vec![Attendee::new("a".to_string())]);
}

#[test]
fn title_from_a_string() {
    assert_eq!(Title::from("会議".to_string()), Title::new("会議".to_string()));
    let title: Title = "x".to_string().into();
    assert_eq!(title.as_str(), "x");
}
