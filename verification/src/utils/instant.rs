//! Points on the UTC time line.

use vstd::prelude::*;

verus! {

/// Earliest representable second: midnight starting the year -262143.
pub const MIN_SECONDS: i64 = -8_334_601_228_800;

/// Latest representable second: the last second of the year 262142.
pub const MAX_SECONDS: i64 = 8_210_266_876_799;

/// Seconds in one civil day.
pub const SECONDS_PER_DAY: i64 = 86_400;

/// Nanoseconds in one second.
pub const NANOS_PER_SECOND: u32 = 1_000_000_000;

/// Whether `secs` whole seconds since 1970-01-01T00:00:00Z plus `nanos`
/// nanoseconds name a representable instant.
///
/// A nanosecond count of one second or more stands for a leap second, which
/// can only follow the 59th second of a minute.
pub open spec fn representable(secs: int, nanos: int) -> bool {
    &&& MIN_SECONDS <= secs <= MAX_SECONDS
    &&& 0 <= nanos < 2 * NANOS_PER_SECOND
    &&& (nanos >= NANOS_PER_SECOND ==> secs % 60 == 59)
}

/// The second within its minute, counted from the start of the minute.
fn second_of_minute(secs: i64) -> (r: i64)
    ensures
        r == secs as int % 60,
{
    let r: i64 = secs % 60;
    if r < 0 {
        r + 60
    } else {
        r
    }
}

/// Calls chrono's `Utc::now` and reads `timestamp` and
/// `timestamp_subsec_nanos`. The result is whatever the system clock says,
/// so nothing is claimed of it but that it is an instant chrono can hold.
/// Where the system clock is set before 1970, chrono stops the program
/// instead of answering.
#[verifier::external_body]
fn chrono_utc_now() -> (r: (i64, u32))
    ensures
        representable(r.0 as int, r.1 as int),
{
    let now = chrono::Utc::now();
    (now.timestamp(), now.timestamp_subsec_nanos())
}

/// An instant in UTC, kept as whole seconds since the Unix epoch and the
/// nanoseconds past that second.
#[derive(Clone, Copy, Debug, PartialEq, Eq, Structural)]
pub struct Instant {
    secs: i64,
    nanos: u32,
}

impl Instant {
    #[verifier::type_invariant]
    spec fn is_representable(self) -> bool {
        representable(self.secs as int, self.nanos as int)
    }

    /// Whole seconds since the Unix epoch.
    pub closed spec fn seconds(self) -> int {
        self.secs as int
    }

    /// Nanoseconds past the whole second.
    pub closed spec fn subsec_nanos(self) -> int {
        self.nanos as int
    }

    /// The instant `secs` seconds and `nanos` nanoseconds after the epoch.
    /// Meaningful only for a representable pair.
    pub closed spec fn at(secs: int, nanos: int) -> Instant {
        Instant { secs: secs as i64, nanos: nanos as u32 }
    }

    /// A representable pair is read back from the instant it names.
    pub proof fn lemma_at(secs: int, nanos: int)
        requires
            representable(secs, nanos),
        ensures
            Instant::at(secs, nanos).seconds() == secs,
            Instant::at(secs, nanos).subsec_nanos() == nanos,
    {
    }

    /// An instant is named by its seconds and nanoseconds.
    pub proof fn lemma_named(self)
        ensures
            self == Instant::at(self.seconds(), self.subsec_nanos()),
    {
    }

    /// Strictly earlier than `other`.
    pub open spec fn precedes(self, other: Instant) -> bool {
        self.seconds() < other.seconds() || (self.seconds() == other.seconds()
            && self.subsec_nanos() < other.subsec_nanos())
    }

    /// Not later than `other`.
    pub open spec fn at_or_before(self, other: Instant) -> bool {
        !other.precedes(self)
    }

    /// The instant `secs` seconds and `nanos` nanoseconds after the epoch,
    /// or `None` where that pair is not representable.
    pub fn new(secs: i64, nanos: u32) -> (r: Option<Instant>)
        ensures
            representable(secs as int, nanos as int) ==> r == Some(
                Instant::at(secs as int, nanos as int),
            ),
            !representable(secs as int, nanos as int) ==> r is None,
    {
        if secs < MIN_SECONDS || secs > MAX_SECONDS || nanos >= 2 * NANOS_PER_SECOND {
            return None;
        }
        if nanos >= NANOS_PER_SECOND && second_of_minute(secs) != 59 {
            return None;
        }
        Some(Instant { secs, nanos })
    }

    /// The current instant by the system clock. Which instant that is
    /// cannot be said in advance.
    pub fn now() -> (r: Instant)
        ensures
            representable(r.seconds(), r.subsec_nanos()),
    {
        let (secs, nanos) = chrono_utc_now();
        Instant { secs, nanos }
    }

    /// Whole seconds since the Unix epoch.
    pub fn timestamp(&self) -> (r: i64)
        ensures
            r == self.seconds(),
            representable(self.seconds(), self.subsec_nanos()),
    {
        proof {
            use_type_invariant(self);
        }
        self.secs
    }

    /// Nanoseconds past the whole second.
    pub fn timestamp_subsec_nanos(&self) -> (r: u32)
        ensures
            r == self.subsec_nanos(),
            representable(self.seconds(), self.subsec_nanos()),
    {
        proof {
            use_type_invariant(self);
        }
        self.nanos
    }

    /// Whether this instant is strictly earlier than `other`.
    pub fn is_before(&self, other: &Instant) -> (r: bool)
        ensures
            r == self.precedes(*other),
    {
        self.secs < other.secs || (self.secs == other.secs && self.nanos < other.nanos)
    }

    /// Whether this instant is not later than `other`.
    pub fn is_at_or_before(&self, other: &Instant) -> (r: bool)
        ensures
            r == self.at_or_before(*other),
    {
        !other.is_before(self)
    }
}

} // verus!
