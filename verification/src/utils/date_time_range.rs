//! Intervals on the UTC time line.

use vstd::prelude::*;
use crate::utils::instant::Instant;

verus! {

/// Why a range could not be built.
#[derive(Clone, Copy, Debug, PartialEq, Eq, Structural)]
pub enum RangeError {
    /// The start lies after the end.
    StartAfterEnd,
}

/// A span of time from `start` to `end`, with `start` never after `end`.
#[derive(Clone, Copy, Debug, PartialEq, Eq, Structural)]
pub struct DateTimeRange {
    start: Instant,
    end: Instant,
}

impl DateTimeRange {
    #[verifier::type_invariant]
    spec fn is_ordered(self) -> bool {
        self.start.at_or_before(self.end)
    }

    /// The first instant of the range.
    pub closed spec fn start_point(self) -> Instant {
        self.start
    }

    /// The instant at which the range ends.
    pub closed spec fn end_point(self) -> Instant {
        self.end
    }

    /// The range starts no later than it ends.
    pub open spec fn well_formed(self) -> bool {
        self.start_point().at_or_before(self.end_point())
    }

    /// `other` lies wholly inside this range.
    pub open spec fn covers(self, other: DateTimeRange) -> bool {
        self.start_point().at_or_before(other.start_point()) && other.end_point().at_or_before(
            self.end_point(),
        )
    }

    /// The two ranges share more than a single boundary instant.
    pub open spec fn intersects(self, other: DateTimeRange) -> bool {
        self.start_point().precedes(other.end_point()) && other.start_point().precedes(
            self.end_point(),
        )
    }

    /// Two ranges that meet in a single instant, one ending where the other
    /// starts, do not overlap.
    pub proof fn lemma_touching_ranges_do_not_overlap(self, other: DateTimeRange)
        requires
            self.end_point() == other.start_point(),
        ensures
            !self.intersects(other),
            !other.intersects(self),
    {
    }

    /// Overlapping does not depend on which range is asked.
    pub proof fn lemma_overlap_is_symmetric(self, other: DateTimeRange)
        ensures
            self.intersects(other) == other.intersects(self),
    {
    }

    /// A range contains itself; it overlaps itself unless it is a single
    /// instant.
    pub proof fn lemma_range_against_itself(self)
        requires
            self.well_formed(),
        ensures
            self.covers(self),
            self.intersects(self) == (self.start_point() != self.end_point()),
    {
        self.start_point().lemma_named();
        self.end_point().lemma_named();
    }

    /// The range from `start` to `end`; rejected when `start` is after `end`.
    pub fn new(start: Instant, end: Instant) -> (r: Result<DateTimeRange, RangeError>)
        ensures
            start.at_or_before(end) ==> r is Ok && r.unwrap().start_point() == start
                && r.unwrap().end_point() == end,
            !start.at_or_before(end) ==> r == Err::<DateTimeRange, RangeError>(
                RangeError::StartAfterEnd,
            ),
    {
        if start.is_at_or_before(&end) {
            Ok(DateTimeRange { start, end })
        } else {
            Err(RangeError::StartAfterEnd)
        }
    }

    /// The first instant of the range.
    pub fn start(&self) -> (r: Instant)
        ensures
            r == self.start_point(),
            self.well_formed(),
    {
        proof {
            use_type_invariant(self);
        }
        self.start
    }

    /// The instant at which the range ends.
    pub fn end(&self) -> (r: Instant)
        ensures
            r == self.end_point(),
            self.well_formed(),
    {
        proof {
            use_type_invariant(self);
        }
        self.end
    }

    /// Whether `other` lies wholly inside this range.
    pub fn contains(&self, other: &DateTimeRange) -> (r: bool)
        ensures
            r == self.covers(*other),
    {
        self.start.is_at_or_before(&other.start) && other.end.is_at_or_before(&self.end)
    }

    /// Whether the two ranges share more than a single boundary instant.
    pub fn overlaps(&self, other: &DateTimeRange) -> (r: bool)
        ensures
            r == self.intersects(*other),
    {
        self.start.is_before(&other.end) && other.start.is_before(&self.end)
    }
}

} // verus!
