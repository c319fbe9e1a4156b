//! Events in the form that exporters consume.

use vstd::prelude::*;
use crate::apis::garoon::{GaroonAttendee, GaroonEvent};
use crate::utils::date_time_range::DateTimeRange;
use crate::utils::instant::Instant;
use crate::utils::rfc3339::{denoted, parse_rfc3339};

verus! {

/// The title of an event, kept exactly as given.
#[derive(Clone, Debug, PartialEq, Eq)]
pub struct Title(String);

impl View for Title {
    type V = Seq<char>;

    closed spec fn view(&self) -> Seq<char> {
        self.0@
    }
}

impl Title {
    pub fn new(title: String) -> (r: Title)
        ensures
            r@ == title@,
    {
        Title(title)
    }

    /// A copy of the title's text.
    pub fn as_str(&self) -> (r: String)
        ensures
            r@ == self@,
    {
        self.0.clone()
    }
}

impl From<String> for Title {
    fn from(value: String) -> (r: Title)
        ensures
            r@ == value@,
    {
        Title(value)
    }
}

impl vstd::std_specs::convert::FromSpecImpl<String> for Title {
    open spec fn obeys_from_spec() -> bool {
        true
    }

    closed spec fn from_spec(value: String) -> Title {
        Title(value)
    }
}

/// Someone taking part in an event.
#[derive(Clone, Debug, PartialEq, Eq)]
pub struct Attendee {
    pub display_name: String,
}

impl Attendee {
    pub fn new(display_name: String) -> (r: Attendee)
        ensures
            r.display_name == display_name,
    {
        Attendee { display_name }
    }
}

/// A schedule event: what it is called, when it takes place, who attends.
#[derive(Clone, Debug, PartialEq, Eq)]
pub struct Event {
    pub title: Title,
    pub duration: DateTimeRange,
    pub attendees: Vec<Attendee>,
}

/// Why an event of the remote service could not be taken over.
#[derive(Clone, Copy, Debug, PartialEq, Eq, Structural)]
pub enum ConversionError {
    /// The start is not an RFC 3339 date-time.
    StartTimestamp,
    /// The end is not an RFC 3339 date-time.
    EndTimestamp,
    /// The event starts after it ends.
    StartAfterEnd,
}

/// The attendees carry the names of `raw`, one for one and in the same
/// order.
pub open spec fn same_names(attendees: Seq<Attendee>, raw: Seq<GaroonAttendee>) -> bool {
    &&& attendees.len() == raw.len()
    &&& forall|i: int|
        0 <= i < raw.len() ==> (#[trigger] attendees[i]).display_name@ == raw[i].name@
}

/// What taking over `value` must give once its start and its end have been
/// read as `start` and `end`: the first of the three errors that applies,
/// else the event with the subject as title, the two instants as duration
/// and the attendees' names.
pub open spec fn conversion(
    value: GaroonEvent,
    start: Option<Instant>,
    end: Option<Instant>,
    outcome: Result<Event, ConversionError>,
) -> bool {
    match (start, end) {
        (None, _) => outcome == Err::<Event, ConversionError>(ConversionError::StartTimestamp),
        (Some(_), None) => outcome == Err::<Event, ConversionError>(ConversionError::EndTimestamp),
        (Some(first), Some(last)) => if first.at_or_before(last) {
            &&& outcome matches Ok(event)
            &&& event.title@ == value.subject@
            &&& event.duration.start_point() == first
            &&& event.duration.end_point() == last
            &&& same_names(event.attendees@, value.attendees@)
        } else {
            outcome == Err::<Event, ConversionError>(ConversionError::StartAfterEnd)
        },
    }
}

impl Event {
    pub fn new(title: Title, duration: DateTimeRange, attendees: Vec<Attendee>) -> (r: Event)
        ensures
            r.title == title,
            r.duration == duration,
            r.attendees == attendees,
    {
        Event { title, duration, attendees }
    }

    /// Takes over an event of the remote service, reading its start and its
    /// end as RFC 3339 and bringing them to UTC.
    pub fn from(value: GaroonEvent) -> (r: Result<Event, ConversionError>)
        ensures
            conversion(value, denoted(value.start.dateTime@), denoted(value.end.dateTime@), r),
    {
        let start = parse_rfc3339(value.start.dateTime.as_str());
        let end = parse_rfc3339(value.end.dateTime.as_str());
        Event::from_parsed(value, start, end)
    }

    /// Takes over an event of the remote service whose start and end have
    /// been read already; `None` stands for text that could not be read.
    pub fn from_parsed(value: GaroonEvent, start: Option<Instant>, end: Option<Instant>) -> (r:
        Result<Event, ConversionError>)
        ensures
            conversion(value, start, end, r),
    {
        let first = match start {
            Some(instant) => instant,
            None => { return Err(ConversionError::StartTimestamp); },
        };
        let last = match end {
            Some(instant) => instant,
            None => { return Err(ConversionError::EndTimestamp); },
        };
        let duration = match DateTimeRange::new(first, last) {
            Ok(range) => range,
            Err(_) => { return Err(ConversionError::StartAfterEnd); },
        };
        let mut attendees: Vec<Attendee> = Vec::new();
        let mut i: usize = 0;
        while i < value.attendees.len()
            invariant
                i <= value.attendees.len(),
                attendees.len() == i,
                forall|j: int|
                    0 <= j < i ==> (#[trigger] attendees@[j]).display_name@
                        == value.attendees@[j].name@,
            decreases value.attendees.len() - i,
        {
            attendees.push(Attendee::new(value.attendees[i].name.clone()));
            i += 1;
        }
        Ok(Event::new(Title::new(value.subject), duration, attendees))
    }
}

} // verus!
