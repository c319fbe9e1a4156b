//! Fetching the coming week's events and taking them over into the event
//! model.

use vstd::prelude::*;
use crate::apis::garoon::{FetchError, GaroonEvent, GaroonGetEventsClient, GaroonGetEventsRequest};
use crate::models::event::{conversion, ConversionError, Event};
use crate::utils::date_time_range::DateTimeRange;
use crate::utils::instant::{Instant, MAX_SECONDS, NANOS_PER_SECOND};
use crate::utils::rfc3339::denoted;

verus! {

/// Length of the default fetch window: seven days.
pub const WINDOW_SECONDS: i64 = 604_800;

/// The instant seven days after `now`, as seconds and nanoseconds. A leap
/// second maps to the ordinary second a week on.
pub open spec fn week_after(now: Instant) -> (int, int) {
    (now.seconds() + WINDOW_SECONDS, now.subsec_nanos() % (NANOS_PER_SECOND as int))
}

/// The default window at `now`: from `now` to seven days later, or nothing
/// where that end is past the last representable instant.
pub open spec fn window_at(now: Instant, window: Option<DateTimeRange>) -> bool {
    if week_after(now).0 <= MAX_SECONDS {
        &&& window matches Some(range)
        &&& range.start_point() == now
        &&& range.end_point() == Instant::at(week_after(now).0, week_after(now).1)
    } else {
        window is None
    }
}

/// The window to fetch when the clock shows `now`.
pub fn default_fetch_window(now: Instant) -> (r: Option<DateTimeRange>)
    ensures
        window_at(now, r),
{
    let secs = now.timestamp();
    let nanos = now.timestamp_subsec_nanos();
    if secs > MAX_SECONDS - WINDOW_SECONDS {
        return None;
    }
    let end = match Instant::new(secs + WINDOW_SECONDS, nanos % NANOS_PER_SECOND) {
        Some(instant) => instant,
        None => { return None; },
    };
    proof {
        Instant::lemma_at(week_after(now).0, week_after(now).1);
    }
    match DateTimeRange::new(now, end) {
        Ok(range) => Some(range),
        Err(_) => None,
    }
}

/// What to do with a fetched event that cannot be taken over.
#[derive(Clone, Copy, Debug, PartialEq, Eq, Structural)]
pub enum InvalidEventPolicy {
    /// Give up on the whole batch.
    FailBatch,
    /// Leave the event out and go on.
    Skip,
}

/// Why no events were returned.
#[derive(Clone, Debug, PartialEq, Eq)]
pub enum SyncError {
    /// The window to fetch ends past the last representable instant.
    WindowOutOfRange,
    /// Fetching failed.
    Fetch(FetchError),
    /// The fetched event at `index` could not be taken over.
    Conversion { index: usize, reason: ConversionError },
}

/// Whether `raw` can be taken over.
pub open spec fn acceptable(raw: GaroonEvent) -> bool {
    &&& denoted(raw.start.dateTime@) matches Some(first)
    &&& denoted(raw.end.dateTime@) matches Some(last)
    &&& first.at_or_before(last)
}

/// `event` is `raw` taken over.
pub open spec fn taken_over(raw: GaroonEvent, event: Event) -> bool {
    conversion(
        raw,
        denoted(raw.start.dateTime@),
        denoted(raw.end.dateTime@),
        Ok::<Event, ConversionError>(event),
    )
}

/// `reason` is why `raw` cannot be taken over.
pub open spec fn refused(raw: GaroonEvent, reason: ConversionError) -> bool {
    conversion(
        raw,
        denoted(raw.start.dateTime@),
        denoted(raw.end.dateTime@),
        Err::<Event, ConversionError>(reason),
    )
}

/// Those of the first `count` events of `raw` that can be taken over, in
/// their order.
pub open spec fn kept(raw: Seq<GaroonEvent>, count: nat) -> Seq<GaroonEvent>
    decreases count,
{
    if count == 0 {
        Seq::empty()
    } else if acceptable(raw[count - 1]) {
        kept(raw, (count - 1) as nat).push(raw[count - 1])
    } else {
        kept(raw, (count - 1) as nat)
    }
}

/// `events` are `raw` taken over, one for one and in the same order.
pub open spec fn all_taken_over(raw: Seq<GaroonEvent>, events: Seq<Event>) -> bool {
    &&& events.len() == raw.len()
    &&& forall|i: int| 0 <= i < raw.len() ==> taken_over(raw[i], #[trigger] events[i])
}

/// What taking over a batch must give under `policy`.
///
/// Under `FailBatch`: every event taken over, or the first that cannot be,
/// with the reason. Under `Skip`: those that can be taken over, in order.
pub open spec fn batch_outcome(
    raw: Seq<GaroonEvent>,
    policy: InvalidEventPolicy,
    outcome: Result<Vec<Event>, SyncError>,
) -> bool {
    match policy {
        InvalidEventPolicy::FailBatch => match outcome {
            Ok(events) => all_taken_over(raw, events@),
            Err(SyncError::Conversion { index, reason }) => {
                &&& index < raw.len()
                &&& refused(raw[index as int], reason)
                &&& forall|i: int| 0 <= i < index ==> acceptable(#[trigger] raw[i])
            },
            Err(_) => false,
        },
        InvalidEventPolicy::Skip => {
            &&& outcome matches Ok(events)
            &&& all_taken_over(kept(raw, raw.len()), events@)
        },
    }
}

/// Takes over a batch of fetched events under `policy`.
pub fn convert_events(raw: Vec<GaroonEvent>, policy: InvalidEventPolicy) -> (r: Result<
    Vec<Event>,
    SyncError,
>)
    ensures
        batch_outcome(raw@, policy, r),
{
    let ghost all = raw@;
    let total = raw.len();
    let mut events: Vec<Event> = Vec::new();
    let mut index: usize = 0;
    for item in it: raw.into_iter()
        invariant
            it.seq() == all,
            index == it.index(),
            all.len() == total,
            policy == InvalidEventPolicy::FailBatch ==> all_taken_over(
                all.take(index as int),
                events@,
            ),
            policy == InvalidEventPolicy::Skip ==> all_taken_over(
                kept(all, index as nat),
                events@,
            ),
    {
        match Event::from(item) {
            Ok(event) => {
                events.push(event);
            },
            Err(reason) => {
                match policy {
                    InvalidEventPolicy::FailBatch => {
                        assert forall|i: int| 0 <= i < index implies acceptable(
                            #[trigger] all[i],
                        ) by {
                            assert(taken_over(all.take(index as int)[i], events@[i]));
                        }
                        return Err(SyncError::Conversion { index, reason });
                    },
                    InvalidEventPolicy::Skip => {},
                }
            },
        }
        index += 1;
    }
    assert(all.take(index as int) == all);
    Ok(events)
}

/// Each outcome is that of taking over the event in the same place.
pub open spec fn each_outcome(
    raw: Seq<GaroonEvent>,
    outcomes: Seq<Result<Event, ConversionError>>,
) -> bool {
    &&& outcomes.len() == raw.len()
    &&& forall|i: int|
        0 <= i < raw.len() ==> conversion(
            raw[i],
            denoted(raw[i].start.dateTime@),
            denoted(raw[i].end.dateTime@),
            #[trigger] outcomes[i],
        )
}

/// Takes over each fetched event by itself and reports, in the order of the
/// batch, the event or the reason it was refused. This is what to call to
/// learn which events `Skip` leaves out.
pub fn convert_each(raw: Vec<GaroonEvent>) -> (r: Vec<Result<Event, ConversionError>>)
    ensures
        each_outcome(raw@, r@),
{
    let ghost all = raw@;
    let mut outcomes: Vec<Result<Event, ConversionError>> = Vec::new();
    for item in it: raw.into_iter()
        invariant
            it.seq() == all,
            each_outcome(all.take(it.index() as int), outcomes@),
    {
        outcomes.push(Event::from(item));
    }
    assert(all.take(all.len() as int) == all);
    outcomes
}

/// What a sync returns for each result of the fetch: the failure of a
/// failed fetch, else the fetched batch taken over under `policy`.
pub open spec fn sync_outcome(
    fetched: Result<Vec<GaroonEvent>, FetchError>,
    policy: InvalidEventPolicy,
    outcome: Result<Vec<Event>, SyncError>,
) -> bool {
    match fetched {
        Err(failure) => outcome == Err::<Vec<Event>, SyncError>(SyncError::Fetch(failure)),
        Ok(raw) => batch_outcome(raw@, policy, outcome),
    }
}

/// Turns the result of a fetch into events.
pub fn events_from_fetch(
    fetched: Result<Vec<GaroonEvent>, FetchError>,
    policy: InvalidEventPolicy,
) -> (r: Result<Vec<Event>, SyncError>)
    ensures
        sync_outcome(fetched, policy, r),
{
    match fetched {
        Err(failure) => Err(SyncError::Fetch(failure)),
        Ok(raw) => convert_events(raw, policy),
    }
}

/// Fetches events through a client and takes them over.
pub struct CalendarSyncService<G: GaroonGetEventsClient> {
    client: G,
    policy: InvalidEventPolicy,
}

impl<G: GaroonGetEventsClient> CalendarSyncService<G> {
    /// What the service does with an event that cannot be taken over.
    pub closed spec fn policy(self) -> InvalidEventPolicy {
        self.policy
    }

    /// The client that the service fetches through.
    pub closed spec fn client(self) -> G {
        self.client
    }

    /// A service that gives up on a batch holding an event that cannot be
    /// taken over.
    pub fn new(client: G) -> (r: Self)
        ensures
            r.client() == client,
            r.policy() == InvalidEventPolicy::FailBatch,
    {
        CalendarSyncService { client, policy: InvalidEventPolicy::FailBatch }
    }

    /// A service that treats events that cannot be taken over as `policy`
    /// says.
    pub fn with_policy(client: G, policy: InvalidEventPolicy) -> (r: Self)
        ensures
            r.client() == client,
            r.policy() == policy,
    {
        CalendarSyncService { client, policy }
    }

    /// The window to fetch now: the default window at the instant the system
    /// clock shows.
    pub fn fetch_range(&self) -> (r: Option<DateTimeRange>)
        ensures
            exists|now: Instant| #[trigger] window_at(now, r),
    {
        let now = Instant::now();
        let window = default_fetch_window(now);
        assert(window_at(now, window));
        window
    }

    /// Fetches the events of the coming week and takes them over.
    ///
    /// Whatever the clock shows and the client returns, the result is
    /// `WindowOutOfRange` or what `events_from_fetch` gives for some result
    /// of the fetch.
    pub fn get_garoon_events(&self) -> (r: Result<Vec<Event>, SyncError>)
        ensures
            r == Err::<Vec<Event>, SyncError>(SyncError::WindowOutOfRange) || exists|
                fetched: Result<Vec<GaroonEvent>, FetchError>,
            | #[trigger] sync_outcome(fetched, self.policy(), r),
    {
        let period = match self.fetch_range() {
            Some(range) => range,
            None => { return Err(SyncError::WindowOutOfRange); },
        };
        let fetched = self.client.get(GaroonGetEventsRequest { period });
        let ghost seen = fetched;
        let events = events_from_fetch(fetched, self.policy);
        assert(sync_outcome(seen, self.policy(), events));
        events
    }
}

} // verus!
