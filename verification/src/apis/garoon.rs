//! Events as the remote service reports them, and the interface through
//! which they are fetched.

use vstd::prelude::*;
use crate::utils::date_time_range::DateTimeRange;

verus! {

/// A point in time as the service writes it.
#[allow(non_snake_case)]
#[derive(Clone, Debug, PartialEq, Eq)]
pub struct GaroonDateTime {
    /// RFC 3339 text carrying its own offset from UTC.
    pub dateTime: String,
    /// Name of the time zone; informational only.
    pub timeZone: String,
}

/// A participant as the service reports it.
#[derive(Clone, Debug, PartialEq, Eq)]
pub struct GaroonAttendee {
    pub name: String,
}

/// A schedule event as the service reports it.
#[derive(Clone, Debug, PartialEq, Eq)]
pub struct GaroonEvent {
    pub subject: String,
    pub attendees: Vec<GaroonAttendee>,
    pub start: GaroonDateTime,
    pub end: GaroonDateTime,
}

/// What to fetch: the events whose schedule meets `period`.
#[derive(Clone, Debug, PartialEq, Eq)]
pub struct GaroonGetEventsRequest {
    pub period: DateTimeRange,
}

/// Why a fetch failed.
#[derive(Clone, Debug, PartialEq, Eq)]
pub enum FetchError {
    /// The request never got an answer; the text is the transport's own.
    Transport(String),
    /// The service answered with a status outside 200 to 299.
    HttpStatus(u16),
    /// The answer was a success but its body had another shape.
    ResponseFormat,
}

impl FetchError {
    /// The HTTP status that the service answered with, if it answered.
    pub fn status(&self) -> (r: Option<u16>)
        ensures
            r == match *self {
                FetchError::HttpStatus(code) => Some(code),
                _ => None,
            },
    {
        match self {
            FetchError::HttpStatus(code) => Some(*code),
            _ => None,
        }
    }
}

/// A source of events. One call returns everything the service holds for
/// the requested period.
pub trait GaroonGetEventsClient {
    fn get(&self, request: GaroonGetEventsRequest) -> Result<Vec<GaroonEvent>, FetchError>;
}

} // verus!
