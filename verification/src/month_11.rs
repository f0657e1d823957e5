//! Locating month 11, the lunar month that holds the winter solstice.

use vstd::prelude::*;
use crate::ephemeris::{new_moon_day, solar_segment, Inquiry, Query, Rounding, Step, Zone};
use crate::gregorian::{julian_day, last_day_of_year, InvalidDate, MAX_YEAR, MIN_YEAR};
use crate::month_index::{
    lemma_month_index_bounded, month_index_of, JulianMonthIndex, MAX_MONTHS_FROM_EPOCH,
};

verus! {

/// From this solar segment on, a new moon is too late to begin month 11.
pub const SOLAR_LONGITUDE_THRESHOLD: i32 = 9;

/// The Julian day on which month 11 of Gregorian year `year` begins: the new
/// moon of the month that holds 31 December, or the one before it where the
/// Sun has by then reached segment 9.
pub open spec fn month_11_start(sky: spec_fn(Query) -> i32, year: int) -> int {
    let index = month_index_of(julian_day(year, 12, 31));
    let day = new_moon_day(sky, index, Zone::Local);
    if solar_segment(sky, day, Rounding::TowardZero) >= SOLAR_LONGITUDE_THRESHOLD {
        new_moon_day(sky, index - 1, Zone::Local)
    } else {
        day
    }
}

#[derive(Clone, Copy, Debug)]
enum Month11Phase {
    Candidate,
    Segment { day: i32 },
    Previous,
}

/// A search for the start of month 11 that waits for the answer to its query.
#[derive(Clone, Copy, Debug)]
pub struct Month11Search {
    index: JulianMonthIndex,
    phase: Month11Phase,
}

impl Month11Search {
    #[verifier::type_invariant]
    spec fn valid(self) -> bool {
        -MAX_MONTHS_FROM_EPOCH <= self.index.0 <= MAX_MONTHS_FROM_EPOCH
    }

    /// Begins the search for month 11 of Gregorian year `year`. There is none
    /// to search for where 31 December of that year is outside the calendar.
    pub fn start(year: i32) -> (r: Result<Month11Search, InvalidDate>)
        ensures
            r.is_ok() <==> MIN_YEAR <= year <= MAX_YEAR,
            r matches Ok(search) ==> search.pending() == (Query::NewMoonDay {
                index: JulianMonthIndex(month_index_of(julian_day(year as int, 12, 31)) as i32),
                zone: Zone::Local,
            }),
            r matches Ok(search) ==> search.remaining() <= 3,
            r matches Ok(search) ==> forall|sky: spec_fn(Query) -> i32| #[trigger]
                search.outcome(sky) == month_11_start(sky, year as int),
    {
        match last_day_of_year(year) {
            Ok(day) => {
                proof {
                    lemma_month_index_bounded(day as int);
                    crate::gregorian::lemma_julian_day_range(year as int, 12, 31);
                }
                Ok(
                    Month11Search {
                        index: JulianMonthIndex::from_julian_day(day),
                        phase: Month11Phase::Candidate,
                    },
                )
            },
            Err(e) => Err(e),
        }
    }
}

/// The search comes to the Julian day on which month 11 begins.
impl Inquiry for Month11Search {
    type Found = i32;

    type Outcome = int;

    closed spec fn pending(self) -> Query {
        match self.phase {
            Month11Phase::Candidate => Query::NewMoonDay { index: self.index, zone: Zone::Local },
            Month11Phase::Segment { day } => Query::SolarSegment {
                day,
                rounding: Rounding::TowardZero,
            },
            Month11Phase::Previous => Query::NewMoonDay {
                index: JulianMonthIndex((self.index.0 - 1) as i32),
                zone: Zone::Local,
            },
        }
    }

    closed spec fn outcome(self, sky: spec_fn(Query) -> i32) -> int {
        let index = self.index.0 as int;
        match self.phase {
            Month11Phase::Candidate => {
                let day = new_moon_day(sky, index, Zone::Local);
                if solar_segment(sky, day, Rounding::TowardZero) >= SOLAR_LONGITUDE_THRESHOLD {
                    new_moon_day(sky, index - 1, Zone::Local)
                } else {
                    day
                }
            },
            Month11Phase::Segment { day } => {
                if solar_segment(sky, day as int, Rounding::TowardZero)
                    >= SOLAR_LONGITUDE_THRESHOLD {
                    new_moon_day(sky, index - 1, Zone::Local)
                } else {
                    day as int
                }
            },
            Month11Phase::Previous => new_moon_day(sky, index - 1, Zone::Local),
        }
    }

    closed spec fn remaining(self) -> nat {
        match self.phase {
            Month11Phase::Candidate => 3,
            Month11Phase::Segment { .. } => 2,
            Month11Phase::Previous => 1,
        }
    }

    open spec fn found_view(found: i32) -> int {
        found as int
    }

    fn query(&self) -> (r: Query) {
        proof {
            use_type_invariant(self);
        }
        match self.phase {
            Month11Phase::Candidate => Query::NewMoonDay { index: self.index, zone: Zone::Local },
            Month11Phase::Segment { day } => Query::SolarSegment {
                day,
                rounding: Rounding::TowardZero,
            },
            Month11Phase::Previous => Query::NewMoonDay {
                index: self.index - JulianMonthIndex::new(1),
                zone: Zone::Local,
            },
        }
    }

    fn advance(self, answer: i32) -> (r: Step<Month11Search, i32>) {
        proof {
            use_type_invariant(&self);
        }
        match self.phase {
            Month11Phase::Candidate => Step::Ask(
                Month11Search { index: self.index, phase: Month11Phase::Segment { day: answer } },
            ),
            Month11Phase::Segment { day } => {
                if answer >= SOLAR_LONGITUDE_THRESHOLD {
                    Step::Ask(Month11Search { index: self.index, phase: Month11Phase::Previous })
                } else {
                    Step::Done(day)
                }
            },
            Month11Phase::Previous => Step::Done(answer),
        }
    }
}

} // verus!
