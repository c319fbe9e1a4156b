//! Wall-clock renderings of instants at an offset from UTC.

use vstd::prelude::*;
use vstd::string::*;
use crate::utils::instant::{
    representable, Instant, MAX_SECONDS, MIN_SECONDS, NANOS_PER_SECOND, SECONDS_PER_DAY,
};

verus! {

/// A fixed difference between local time and UTC, strictly less than one day
/// either way.
#[derive(Clone, Copy, Debug, PartialEq, Eq, Structural)]
pub struct UtcOffset {
    east: i32,
}

impl UtcOffset {
    #[verifier::type_invariant]
    spec fn within_a_day(self) -> bool {
        -SECONDS_PER_DAY < self.east < SECONDS_PER_DAY
    }

    /// Seconds to add to UTC to get local time.
    pub closed spec fn seconds(self) -> int {
        self.east as int
    }

    /// The offset of `east` seconds east of Greenwich, or `None` where that
    /// is a whole day or more.
    pub fn new(east: i32) -> (r: Option<UtcOffset>)
        ensures
            -SECONDS_PER_DAY < east < SECONDS_PER_DAY ==> r is Some && r.unwrap().seconds() == east,
            !(-SECONDS_PER_DAY < east < SECONDS_PER_DAY) ==> r is None,
    {
        if -86_400 < east && east < 86_400 {
            Some(UtcOffset { east })
        } else {
            None
        }
    }

    /// Seconds to add to UTC to get local time.
    pub fn local_minus_utc(&self) -> (r: i32)
        ensures
            r == self.seconds(),
            -SECONDS_PER_DAY < r < SECONDS_PER_DAY,
    {
        proof {
            use_type_invariant(self);
        }
        self.east
    }
}

/// The character for the decimal digit `d`.
pub open spec fn digit_char(d: int) -> char {
    (48 + d) as char
}

/// `n` written with two decimal digits, padded with a zero.
pub open spec fn two_digits(n: int) -> Seq<char> {
    seq![digit_char(n / 10), digit_char(n % 10)]
}

/// The second of the local day that holds second `secs` of the time line at
/// an offset of `offset` seconds.
pub open spec fn second_of_day(secs: int, offset: int) -> int {
    (secs + offset) % (SECONDS_PER_DAY as int)
}

/// The local time of day as `HH:MM:SS` on the 24-hour clock. A leap second
/// shows as second 60.
pub open spec fn clock_text(secs: int, nanos: int, offset: int) -> Seq<char> {
    let in_day = second_of_day(secs, offset);
    let leap: int = if nanos >= NANOS_PER_SECOND { 1 } else { 0 };
    two_digits(in_day / 3600) + ":"@ + two_digits(in_day % 3600 / 60) + ":"@ + two_digits(
        in_day % 60 + leap,
    )
}

fn digit_text(d: u8) -> (r: &'static str)
    requires
        d < 10,
    ensures
        r@ == seq![digit_char(d as int)],
{
    proof {
        reveal_strlit("0");
        reveal_strlit("1");
        reveal_strlit("2");
        reveal_strlit("3");
        reveal_strlit("4");
        reveal_strlit("5");
        reveal_strlit("6");
        reveal_strlit("7");
        reveal_strlit("8");
        reveal_strlit("9");
    }
    let r = match d {
        0 => "0",
        1 => "1",
        2 => "2",
        3 => "3",
        4 => "4",
        5 => "5",
        6 => "6",
        7 => "7",
        8 => "8",
        _ => "9",
    };
    assert(r@ =~= seq![digit_char(d as int)]);
    r
}

fn two_digit_text(n: u8) -> (r: String)
    requires
        n < 100,
    ensures
        r@ == two_digits(n as int),
{
    let mut text = String::from_str(digit_text(n / 10));
    text.append(digit_text(n % 10));
    assert(text@ =~= two_digits(n as int));
    text
}

/// The time of day that `instant` falls on at `offset`, as `HH:MM:SS`.
pub fn local_clock_text(instant: &Instant, offset: &UtcOffset) -> (r: String)
    ensures
        r@ == clock_text(instant.seconds(), instant.subsec_nanos(), offset.seconds()),
{
    let secs = instant.timestamp();
    let nanos = instant.timestamp_subsec_nanos();
    let shifted: i64 = secs + offset.local_minus_utc() as i64;
    let rem: i64 = shifted % 86_400;
    let in_day: i64 = if rem < 0 {
        rem + 86_400
    } else {
        rem
    };
    assert(in_day == second_of_day(secs as int, offset.seconds()));
    let leap: i64 = if nanos >= NANOS_PER_SECOND {
        1
    } else {
        0
    };
    let mut text = two_digit_text((in_day / 3600) as u8);
    text.append(":");
    text.append(two_digit_text((in_day % 3600 / 60) as u8).as_str());
    text.append(":");
    text.append(two_digit_text((in_day % 60 + leap) as u8).as_str());
    text
}

/// Whether the instant at second `secs`, moved by `offset` seconds, still
/// falls on a representable calendar day.
pub open spec fn local_day_representable(secs: int, offset: int) -> bool {
    MIN_SECONDS <= secs + offset <= MAX_SECONDS
}

/// The calendar date, as `YYYY-MM-DD`, of the local day on which the instant
/// (`secs`, `nanos`) falls at an offset of `offset` seconds from UTC. Years
/// outside 0 to 9999 carry a sign and at least five digits.
pub uninterp spec fn civil_date_text(secs: int, nanos: int, offset: int) -> Seq<char>;

/// Calls chrono: builds the UTC date-time from the timestamp with
/// `DateTime::from_timestamp`, moves it to the fixed offset with
/// `with_timezone`, takes `date_naive` and renders it with `to_string`.
/// Claims only that the text is a function of the three numbers. The
/// preconditions keep chrono from failing: the instant and the offset must
/// exist for it, and the local date must not leave its range of dates.
#[verifier::external_body]
fn chrono_date_text(secs: i64, nanos: u32, offset: i32) -> (r: String)
    requires
        representable(secs as int, nanos as int),
        -SECONDS_PER_DAY < offset < SECONDS_PER_DAY,
        local_day_representable(secs as int, offset as int),
    ensures
        r@ == civil_date_text(secs as int, nanos as int, offset as int),
{
    let zone = chrono::FixedOffset::east_opt(offset).unwrap();
    let utc = chrono::DateTime::from_timestamp(secs, nanos).unwrap();
    utc.with_timezone(&zone).date_naive().to_string()
}

/// Calls chrono: the offset that `with_timezone(&Local)` gives the instant,
/// read with `offset().local_minus_utc()`. The answer depends on the time
/// zone configured on the machine, so nothing is claimed beyond the bound
/// that every chrono offset obeys. Where the machine's zone data names an
/// offset of a day or more, chrono stops the program instead of answering.
#[verifier::external_body]
fn chrono_local_offset(secs: i64, nanos: u32) -> (r: i32)
    requires
        representable(secs as int, nanos as int),
    ensures
        -SECONDS_PER_DAY < r < SECONDS_PER_DAY,
{
    let utc = chrono::DateTime::from_timestamp(secs, nanos).unwrap();
    utc.with_timezone(&chrono::Local).offset().local_minus_utc()
}

/// The offset that the machine's time zone has from UTC at `instant`.
/// Which offset that is depends on the machine.
pub fn local_offset_at(instant: &Instant) -> (r: UtcOffset)
    ensures
        -SECONDS_PER_DAY < r.seconds() < SECONDS_PER_DAY,
{
    let east = chrono_local_offset(instant.timestamp(), instant.timestamp_subsec_nanos());
    UtcOffset { east }
}

/// The calendar date that `instant` falls on at `offset`, as `YYYY-MM-DD`;
/// `None` where the local day lies outside the representable dates.
pub fn local_date_text(instant: &Instant, offset: &UtcOffset) -> (r: Option<String>)
    ensures
        local_day_representable(instant.seconds(), offset.seconds()) ==> r is Some && r.unwrap()@
            == civil_date_text(instant.seconds(), instant.subsec_nanos(), offset.seconds()),
        !local_day_representable(instant.seconds(), offset.seconds()) ==> r is None,
{
    let secs = instant.timestamp();
    let nanos = instant.timestamp_subsec_nanos();
    let east = offset.local_minus_utc();
    let shifted: i64 = secs + east as i64;
    if shifted < MIN_SECONDS || shifted > MAX_SECONDS {
        None
    } else {
        Some(chrono_date_text(secs, nanos, east))
    }
}

} // verus!
