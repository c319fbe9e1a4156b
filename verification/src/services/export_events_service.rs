//! Rendering events as CSV text.

use vstd::prelude::*;
use vstd::string::*;
use crate::models::event::Event;
use crate::utils::calendar::{
    civil_date_text, clock_text, local_clock_text, local_date_text, local_day_representable,
    local_offset_at, UtcOffset,
};
use crate::utils::instant::Instant;

verus! {

/// One event as it appears in the export: its subject and the local date and
/// time of its start and of its end.
#[derive(Clone, Debug, PartialEq, Eq)]
pub struct ExportedEvent {
    pub subject: String,
    pub start_date: String,
    pub start_time: String,
    pub end_date: String,
    pub end_time: String,
}

/// The first line of every export.
pub open spec fn header_text() -> Seq<char> {
    "Subject,Start Date,Start Time,End Date,End Time\n"@
}

/// Five fields joined by commas and closed by a line feed. Nothing in a
/// field is quoted or escaped.
pub open spec fn line_text(
    subject: Seq<char>,
    start_date: Seq<char>,
    start_time: Seq<char>,
    end_date: Seq<char>,
    end_time: Seq<char>,
) -> Seq<char> {
    subject + ","@ + start_date + ","@ + start_time + ","@ + end_date + ","@ + end_time + "\n"@
}

/// Whether `instant` can be shown as a local date at `offset`.
pub open spec fn showable(instant: Instant, offset: UtcOffset) -> bool {
    local_day_representable(instant.seconds(), offset.seconds())
}

/// The local date of `instant` at `offset`.
pub open spec fn date_shown(instant: Instant, offset: UtcOffset) -> Seq<char> {
    civil_date_text(instant.seconds(), instant.subsec_nanos(), offset.seconds())
}

/// The local time of day of `instant` at `offset`.
pub open spec fn time_shown(instant: Instant, offset: UtcOffset) -> Seq<char> {
    clock_text(instant.seconds(), instant.subsec_nanos(), offset.seconds())
}

/// Whether both ends of `event` can be shown at the given offsets.
pub open spec fn row_showable(event: Event, offsets: (UtcOffset, UtcOffset)) -> bool {
    showable(event.duration.start_point(), offsets.0) && showable(
        event.duration.end_point(),
        offsets.1,
    )
}

/// The line for `event`, its start shown at the first offset and its end at
/// the second.
pub open spec fn row_text(event: Event, offsets: (UtcOffset, UtcOffset)) -> Seq<char> {
    line_text(
        event.title@,
        date_shown(event.duration.start_point(), offsets.0),
        time_shown(event.duration.start_point(), offsets.0),
        date_shown(event.duration.end_point(), offsets.1),
        time_shown(event.duration.end_point(), offsets.1),
    )
}

/// The lines of the first `count` events, in order.
pub open spec fn rows_text(
    events: Seq<Event>,
    offsets: Seq<(UtcOffset, UtcOffset)>,
    count: nat,
) -> Seq<char>
    decreases count,
{
    if count == 0 {
        Seq::empty()
    } else {
        rows_text(events, offsets, (count - 1) as nat) + row_text(
            events[count - 1],
            offsets[count - 1],
        )
    }
}

/// The whole export: the header, then one line per event in the order given.
pub open spec fn csv_text(events: Seq<Event>, offsets: Seq<(UtcOffset, UtcOffset)>) -> Seq<char> {
    header_text() + rows_text(events, offsets, events.len())
}

/// The first `count` lines do not depend on what follows them.
proof fn lemma_rows_of_prefix(
    events: Seq<Event>,
    offsets: Seq<(UtcOffset, UtcOffset)>,
    event: Event,
    pair: (UtcOffset, UtcOffset),
    count: nat,
)
    requires
        count <= events.len(),
        offsets.len() == events.len(),
    ensures
        rows_text(events.push(event), offsets.push(pair), count) == rows_text(
            events,
            offsets,
            count,
        ),
    decreases count,
{
    if count > 0 {
        lemma_rows_of_prefix(events, offsets, event, pair, (count - 1) as nat);
    }
}

/// One more event at the end adds its line at the end and changes nothing
/// before it.
pub proof fn lemma_csv_grows_by_one_line(
    events: Seq<Event>,
    offsets: Seq<(UtcOffset, UtcOffset)>,
    event: Event,
    pair: (UtcOffset, UtcOffset),
)
    requires
        offsets.len() == events.len(),
    ensures
        csv_text(events.push(event), offsets.push(pair)) == csv_text(events, offsets) + row_text(
            event,
            pair,
        ),
{
    lemma_rows_of_prefix(events, offsets, event, pair, events.len());
    assert(csv_text(events.push(event), offsets.push(pair)) =~= csv_text(events, offsets)
        + row_text(event, pair));
}

/// Why an export could not be rendered.
#[derive(Clone, Copy, Debug, PartialEq, Eq, Structural)]
pub enum ExportError {
    /// There is not exactly one pair of offsets for each event.
    OffsetCountMismatch,
    /// The start or the end of the event in this row has no representable
    /// local date.
    LocalTimeOutOfRange { row: usize },
}

/// What rendering `events` at `offsets` must give: the text when every row
/// can be shown, else the first row that cannot.
pub open spec fn rendering(
    events: Seq<Event>,
    offsets: Seq<(UtcOffset, UtcOffset)>,
    outcome: Result<String, ExportError>,
) -> bool {
    match outcome {
        Ok(csv) => {
            &&& offsets.len() == events.len()
            &&& forall|i: int| 0 <= i < events.len() ==> row_showable(#[trigger] events[i], offsets[i])
            &&& csv@ == csv_text(events, offsets)
        },
        Err(ExportError::OffsetCountMismatch) => offsets.len() != events.len(),
        Err(ExportError::LocalTimeOutOfRange { row }) => {
            &&& offsets.len() == events.len()
            &&& row < events.len()
            &&& !row_showable(events[row as int], offsets[row as int])
            &&& forall|i: int| 0 <= i < row ==> row_showable(#[trigger] events[i], offsets[i])
        },
    }
}

/// Renders `events` as CSV, showing the start and the end of the i-th event
/// at the i-th pair of offsets.
pub fn to_csv_with_offsets(events: &Vec<Event>, offsets: &Vec<(UtcOffset, UtcOffset)>) -> (r:
    Result<String, ExportError>)
    ensures
        rendering(events@, offsets@, r),
{
    if offsets.len() != events.len() {
        return Err(ExportError::OffsetCountMismatch);
    }
    let mut csv = String::from_str("Subject,Start Date,Start Time,End Date,End Time\n");
    let mut i: usize = 0;
    while i < events.len()
        invariant
            i <= events.len(),
            offsets.len() == events.len(),
            csv@ == header_text() + rows_text(events@, offsets@, i as nat),
            forall|j: int| 0 <= j < i ==> row_showable(#[trigger] events@[j], offsets@[j]),
        decreases events.len() - i,
    {
        let pair = offsets[i];
        match ExportedEvent::at_offsets(&events[i], &pair.0, &pair.1) {
            None => {
                return Err(ExportError::LocalTimeOutOfRange { row: i });
            },
            Some(row) => {
                let line = row.to_line();
                csv.append(line.as_str());
            },
        }
        i += 1;
    }
    Ok(csv)
}

/// Renders `events` as CSV in the machine's local time zone.
///
/// Each start and each end is shown at the offset that the local zone has
/// at that instant, so the text is that of `to_csv_with_offsets` for some
/// offsets, one pair for each event.
pub fn to_csv(events: &Vec<Event>) -> (r: Result<String, ExportError>)
    ensures
        exists|offsets: Seq<(UtcOffset, UtcOffset)>|
            offsets.len() == events@.len() && #[trigger] rendering(events@, offsets, r),
        r != Err::<String, ExportError>(ExportError::OffsetCountMismatch),
{
    let mut offsets: Vec<(UtcOffset, UtcOffset)> = Vec::new();
    let mut i: usize = 0;
    while i < events.len()
        invariant
            i <= events.len(),
            offsets.len() == i,
        decreases events.len() - i,
    {
        let start = events[i].duration.start();
        let end = events[i].duration.end();
        offsets.push((local_offset_at(&start), local_offset_at(&end)));
        i += 1;
    }
    to_csv_with_offsets(events, &offsets)
}

impl ExportedEvent {
    /// The row for `event`, or `None` where its start or its end has no
    /// representable local date at the offset given for it.
    pub fn at_offsets(event: &Event, start_offset: &UtcOffset, end_offset: &UtcOffset) -> (r:
        Option<ExportedEvent>)
        ensures
            row_showable(*event, (*start_offset, *end_offset)) ==> r is Some && r.unwrap().shows(
                *event,
                (*start_offset, *end_offset),
            ),
            !row_showable(*event, (*start_offset, *end_offset)) ==> r is None,
    {
        let start = event.duration.start();
        let end = event.duration.end();
        let start_date = match local_date_text(&start, start_offset) {
            Some(text) => text,
            None => { return None; },
        };
        let end_date = match local_date_text(&end, end_offset) {
            Some(text) => text,
            None => { return None; },
        };
        Some(
            ExportedEvent {
                subject: event.title.as_str(),
                start_date,
                start_time: local_clock_text(&start, start_offset),
                end_date,
                end_time: local_clock_text(&end, end_offset),
            },
        )
    }

    /// The fields are those of `event` at the given offsets: its title, then
    /// the local date and time of its start and of its end.
    pub open spec fn shows(self, event: Event, offsets: (UtcOffset, UtcOffset)) -> bool {
        &&& self.subject@ == event.title@
        &&& self.start_date@ == date_shown(event.duration.start_point(), offsets.0)
        &&& self.start_time@ == time_shown(event.duration.start_point(), offsets.0)
        &&& self.end_date@ == date_shown(event.duration.end_point(), offsets.1)
        &&& self.end_time@ == time_shown(event.duration.end_point(), offsets.1)
    }

    /// The line that `to_line` writes.
    pub open spec fn text(self) -> Seq<char> {
        line_text(
            self.subject@,
            self.start_date@,
            self.start_time@,
            self.end_date@,
            self.end_time@,
        )
    }

    /// The row as one line of CSV.
    pub fn to_line(&self) -> (r: String)
        ensures
            r@ == self.text(),
    {
        let mut line = self.subject.clone();
        line.append(",");
        line.append(self.start_date.as_str());
        line.append(",");
        line.append(self.start_time.as_str());
        line.append(",");
        line.append(self.end_date.as_str());
        line.append(",");
        line.append(self.end_time.as_str());
        line.append("\n");
        line
    }
}

} // verus!
