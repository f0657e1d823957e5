//! Finding the leap month of a thirteen-month lunar year.
//!
//! Starting from a month 11, the months that follow are walked one by one. The
//! leap month is the first whose new moon falls in the same solar segment as
//! the new moon before it.

use vstd::prelude::*;
use crate::ephemeris::{new_moon_day, solar_segment, Inquiry, Query, Rounding, Step, Zone};
use crate::month_index::{
    lemma_month_index_bounded, month_index_of, JulianMonthIndex, MAX_MONTHS_FROM_EPOCH,
};

verus! {

/// The offset reported when none of the thirteen months repeats a segment.
pub const NO_LEAP_MONTH: i32 = 14;

/// The solar segment of the new moon that begins month `index + i`.
pub open spec fn segment_after(sky: spec_fn(Query) -> i32, index: int, i: int) -> int {
    solar_segment(sky, new_moon_day(sky, index + i, Zone::Local), Rounding::Floor)
}

/// The walk over the months `index + i`, ..., `index + 13`, where `last` is the
/// segment met just before: the number of the month before the first one that
/// repeats its predecessor's segment, or 14.
pub open spec fn leap_scan(sky: spec_fn(Query) -> i32, index: int, i: int, last: int) -> int
    decreases 14 - i,
{
    if i >= 14 {
        NO_LEAP_MONTH as int
    } else if segment_after(sky, index, i) == last {
        i - 1
    } else {
        leap_scan(sky, index, i + 1, segment_after(sky, index, i))
    }
}

/// The leap-month offset after the month 11 that begins on Julian day `a11`.
/// The walk starts with segment 0 as the one met before.
pub open spec fn leap_month_offset(sky: spec_fn(Query) -> i32, a11: int) -> int {
    leap_scan(sky, month_index_of(a11), 1, 0)
}

/// The segment that month `index + i` is compared with: that of the month
/// before it, and 0 for the first month.
pub open spec fn segment_before(sky: spec_fn(Query) -> i32, index: int, i: int) -> int {
    if i <= 1 {
        0
    } else {
        segment_after(sky, index, i - 1)
    }
}

/// Whether month `index + i` stands in the segment it is compared with.
pub open spec fn repeats_segment(sky: spec_fn(Query) -> i32, index: int, i: int) -> bool {
    segment_after(sky, index, i) == segment_before(sky, index, i)
}

proof fn lemma_leap_scan_first_repeat(sky: spec_fn(Query) -> i32, index: int, i: int)
    requires
        1 <= i <= 14,
    ensures
        i - 1 <= leap_scan(sky, index, i, segment_before(sky, index, i)) <= 14,
        forall|j: int|
            i <= j <= leap_scan(sky, index, i, segment_before(sky, index, i)) && j <= 13
                ==> !#[trigger] repeats_segment(sky, index, j),
        leap_scan(sky, index, i, segment_before(sky, index, i)) <= 12 ==> repeats_segment(
            sky,
            index,
            leap_scan(sky, index, i, segment_before(sky, index, i)) + 1,
        ),
        leap_scan(sky, index, i, segment_before(sky, index, i)) != 13,
    decreases 14 - i,
{
    if i < 14 && segment_after(sky, index, i) != segment_before(sky, index, i) {
        lemma_leap_scan_first_repeat(sky, index, i + 1);
    }
}

/// The leap-month offset is the number of months that follow month 11 before
/// the first month that repeats a segment, and 14 where none of the thirteen
/// months does.
pub proof fn lemma_leap_month_offset_is_first_repeat(sky: spec_fn(Query) -> i32, a11: int)
    ensures
        0 <= leap_month_offset(sky, a11) <= 12 || leap_month_offset(sky, a11) == 14,
        forall|j: int|
            1 <= j <= leap_month_offset(sky, a11) && j <= 13 ==> !#[trigger] repeats_segment(
                sky,
                month_index_of(a11),
                j,
            ),
        leap_month_offset(sky, a11) <= 12 ==> repeats_segment(
            sky,
            month_index_of(a11),
            leap_month_offset(sky, a11) + 1,
        ),
{
    lemma_leap_scan_first_repeat(sky, month_index_of(a11), 1);
}

/// A walk over the months after a month 11 that waits for the answer to its
/// query.
#[derive(Clone, Copy, Debug)]
pub struct LeapSearch {
    index: JulianMonthIndex,
    month: i32,
    last: i32,
    day: Option<i32>,
}

impl LeapSearch {
    #[verifier::type_invariant]
    spec fn valid(self) -> bool {
        &&& -MAX_MONTHS_FROM_EPOCH <= self.index.0 <= MAX_MONTHS_FROM_EPOCH
        &&& 1 <= self.month <= 13
    }

    /// Begins the search for the leap month after the month 11 that starts on
    /// Julian day `first_month_11`.
    pub fn start(first_month_11: i32) -> (r: LeapSearch)
        ensures
            r.pending() == (Query::NewMoonDay {
                index: JulianMonthIndex((month_index_of(first_month_11 as int) + 1) as i32),
                zone: Zone::Local,
            }),
            forall|sky: spec_fn(Query) -> i32| #[trigger]
                r.outcome(sky) == leap_month_offset(sky, first_month_11 as int),
            r.remaining() <= 26,
    {
        proof {
            lemma_month_index_bounded(first_month_11 as int);
        }
        LeapSearch {
            index: JulianMonthIndex::from_julian_day(first_month_11),
            month: 1,
            last: 0,
            day: None,
        }
    }
}

/// The search comes to the leap-month offset.
impl Inquiry for LeapSearch {
    type Found = i32;

    type Outcome = int;

    closed spec fn pending(self) -> Query {
        match self.day {
            None => Query::NewMoonDay {
                index: JulianMonthIndex((self.index.0 + self.month) as i32),
                zone: Zone::Local,
            },
            Some(day) => Query::SolarSegment { day, rounding: Rounding::Floor },
        }
    }

    closed spec fn outcome(self, sky: spec_fn(Query) -> i32) -> int {
        match self.day {
            None => leap_scan(sky, self.index.0 as int, self.month as int, self.last as int),
            Some(day) => {
                let segment = solar_segment(sky, day as int, Rounding::Floor);
                if segment == self.last {
                    self.month - 1
                } else {
                    leap_scan(sky, self.index.0 as int, self.month + 1, segment)
                }
            },
        }
    }

    closed spec fn remaining(self) -> nat {
        (2 * (14 - self.month) - (if self.day.is_some() {
            1int
        } else {
            0int
        })) as nat
    }

    open spec fn found_view(found: i32) -> int {
        found as int
    }

    fn query(&self) -> (r: Query) {
        proof {
            use_type_invariant(self);
        }
        match self.day {
            None => Query::NewMoonDay {
                index: self.index + JulianMonthIndex::new(self.month),
                zone: Zone::Local,
            },
            Some(day) => Query::SolarSegment { day, rounding: Rounding::Floor },
        }
    }

    fn advance(self, answer: i32) -> (r: Step<LeapSearch, i32>) {
        proof {
            use_type_invariant(&self);
        }
        match self.day {
            None => Step::Ask(
                LeapSearch { index: self.index, month: self.month, last: self.last, day: Some(answer) },
            ),
            Some(_) => {
                if answer == self.last {
                    Step::Done(self.month - 1)
                } else if self.month == 13 {
                    Step::Done(NO_LEAP_MONTH)
                } else {
                    Step::Ask(
                        LeapSearch {
                            index: self.index,
                            month: self.month + 1,
                            last: answer,
                            day: None,
                        },
                    )
                }
            },
        }
    }
}

} // verus!
