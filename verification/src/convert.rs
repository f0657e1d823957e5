//! From a Gregorian date to a day of the lunisolar calendar.

use vstd::prelude::*;
use crate::ephemeris::{new_moon_day, Inquiry, Query, Step, Zone};
use crate::gregorian::{GregorianDate, InvalidDate, MAX_YEAR, MIN_YEAR};
use crate::leap_month::{leap_month_offset, LeapSearch};
use crate::month_11::{month_11_start, Month11Search};
use crate::month_index::{
    lemma_month_index_bounded, month_index_of, trunc_div, JulianMonthIndex,
};
use crate::ngay_ta::{LunarDate, NgayTa};

verus! {

/// The nearest 32-bit number to `x`.
pub open spec fn saturate(x: int) -> int {
    if x < i32::MIN {
        i32::MIN as int
    } else if x > i32::MAX {
        i32::MAX as int
    } else {
        x
    }
}

/// A lunar year has thirteen months where its two months 11 begin more than
/// 365 days apart.
pub open spec fn is_thirteen_month_year(first_month_11: int, last_month_11: int) -> bool {
    last_month_11 - first_month_11 > 365
}

/// The number of whole 29-day spans from `first_month_11` to `month_start`,
/// rounded toward zero.
pub open spec fn months_between(month_start: int, first_month_11: int) -> int {
    trunc_div(month_start - first_month_11, 29)
}

/// The lunar date of Julian day `jdn` in Gregorian year `year`, where the
/// lunar month of that day begins on `month_start`, the month 11 before it on
/// `first_month_11`, and `leap_offset` is the leap-month offset of a
/// thirteen-month year and `None` in a twelve-month year.
pub open spec fn resolve(
    jdn: int,
    year: int,
    month_start: int,
    first_month_11: int,
    leap_offset: Option<int>,
) -> LunarDate {
    let difference = months_between(month_start, first_month_11);
    let numbered = if leap_offset matches Some(offset) && difference >= offset {
        difference + 10
    } else {
        difference + 11
    };
    let month = if numbered > 12 {
        numbered - 12
    } else {
        numbered
    };
    LunarDate {
        day: saturate(jdn - month_start + 1),
        month,
        year: if month >= 11 && difference < 4 {
            year - 1
        } else {
            year
        },
        is_leap_month: leap_offset == Some(difference),
    }
}

/// The lunar day is in 1..=30 exactly where the day lies within 30 days from
/// the start of its lunar month. The lunar month is in 1..=12 exactly where
/// the month begins between 10 spans of 29 days before and 13 such spans after
/// the month 11 it is counted from; from the leap month on, between 9 before
/// and 14 after.
pub proof fn lemma_resolve_day_and_month_in_range(
    jdn: int,
    year: int,
    month_start: int,
    first_month_11: int,
    leap_offset: Option<int>,
)
    ensures
        1 <= resolve(jdn, year, month_start, first_month_11, leap_offset).day <= 30
            <==> month_start <= jdn < month_start + 30,
        1 <= resolve(jdn, year, month_start, first_month_11, leap_offset).month <= 12 <==> (
        if leap_offset matches Some(offset) && months_between(month_start, first_month_11)
            >= offset {
            -9 <= months_between(month_start, first_month_11) <= 14
        } else {
            -10 <= months_between(month_start, first_month_11) <= 13
        }),
{
}

/// A leap month is reported only in a thirteen-month year.
pub proof fn lemma_leap_month_needs_thirteen_months(
    sky: spec_fn(Query) -> i32,
    jdn: int,
    year: int,
    month_start: int,
    first_month_11: int,
    last_month_11: int,
)
    requires
        convert_between(
            sky,
            jdn,
            year,
            month_start,
            first_month_11,
            last_month_11,
        ).is_leap_month,
    ensures
        last_month_11 - first_month_11 > 365,
{
}

/// In a thirteen-month year the leap month bears the number of the month
/// before it, and only the leap month is flagged.
pub proof fn lemma_leap_month_repeats_number(
    jdn: int,
    year: int,
    month_start: int,
    leap_start: int,
    first_month_11: int,
    offset: int,
)
    requires
        1 <= offset <= 13,
        months_between(month_start, first_month_11) == offset - 1,
        months_between(leap_start, first_month_11) == offset,
    ensures
        resolve(jdn, year, leap_start, first_month_11, Some(offset)).month == resolve(
            jdn,
            year,
            month_start,
            first_month_11,
            Some(offset),
        ).month,
        resolve(jdn, year, leap_start, first_month_11, Some(offset)).is_leap_month,
        !resolve(jdn, year, month_start, first_month_11, Some(offset)).is_leap_month,
{
}

/// Whether the lunar year between two month-11 starts has thirteen months.
pub fn has_thirteen_months(first_month_11: i32, last_month_11: i32) -> (r: bool)
    ensures
        r == is_thirteen_month_year(first_month_11 as int, last_month_11 as int),
{
    last_month_11 as i64 - first_month_11 as i64 > 365
}

/// Numbers the day, month and year of Julian day `jdn`; see [`resolve`].
pub fn resolve_date(
    jdn: i32,
    year: i32,
    month_start: i32,
    first_month_11: i32,
    leap_offset: Option<i32>,
) -> (r: NgayTa)
    requires
        i32::MIN < year,
    ensures
        r@ == resolve(
            jdn as int,
            year as int,
            month_start as int,
            first_month_11 as int,
            match leap_offset {
                Some(offset) => Some(offset as int),
                None => None,
            },
        ),
{
    let elapsed: i64 = jdn as i64 - month_start as i64 + 1;
    let day: i32 = if elapsed < -2_147_483_648 {
        -2_147_483_648
    } else if elapsed > 2_147_483_647 {
        2_147_483_647
    } else {
        elapsed as i32
    };
    let span: i64 = month_start as i64 - first_month_11 as i64;
    let difference: i32 = if span >= 0 {
        (span / 29) as i32
    } else {
        -((-span) / 29) as i32
    };
    let mut month: i32 = difference + 11;
    let mut is_leap_month = false;
    if let Some(offset) = leap_offset {
        if difference >= offset {
            month = difference + 10;
            if difference == offset {
                is_leap_month = true;
            }
        }
    }
    if month > 12 {
        month -= 12;
    }
    let mut lunar_year: i32 = year;
    if month >= 11 && difference < 4 {
        lunar_year -= 1;
    }
    NgayTa::new(day, month, lunar_year, is_leap_month)
}

/// The Julian day on which the lunar month of day `jdn` begins: the new moon
/// of the month after the one that holds `jdn` where that is not later than
/// `jdn`, and otherwise the new moon of the month that holds `jdn`, taken at
/// UTC+7.
pub open spec fn month_start(sky: spec_fn(Query) -> i32, jdn: int) -> int {
    let index = month_index_of(jdn);
    let next = new_moon_day(sky, index + 1, Zone::Local);
    if next > jdn {
        new_moon_day(sky, index, Zone::Indochina)
    } else {
        next
    }
}

/// The lunar date of `jdn`, given the start of its month and the two starts
/// of month 11 that enclose it.
pub open spec fn convert_between(
    sky: spec_fn(Query) -> i32,
    jdn: int,
    year: int,
    month_start: int,
    first_month_11: int,
    last_month_11: int,
) -> LunarDate {
    resolve(
        jdn,
        year,
        month_start,
        first_month_11,
        if is_thirteen_month_year(first_month_11, last_month_11) {
            Some(leap_month_offset(sky, first_month_11))
        } else {
            None
        },
    )
}

/// The lunar date of `jdn`, given the start of its month and the start
/// `this_month_11` of month 11 of its Gregorian year. The other month 11 is
/// that of the year before where the month begins no later than
/// `this_month_11`, and that of the year after otherwise; the conversion fails
/// where that year is outside the calendar.
pub open spec fn convert_from_month_11(
    sky: spec_fn(Query) -> i32,
    jdn: int,
    year: int,
    month_start: int,
    this_month_11: int,
) -> Result<LunarDate, InvalidDate> {
    if this_month_11 >= month_start {
        if year - 1 < MIN_YEAR {
            Err(InvalidDate)
        } else {
            Ok(
                convert_between(
                    sky,
                    jdn,
                    year,
                    month_start,
                    month_11_start(sky, year - 1),
                    this_month_11,
                ),
            )
        }
    } else {
        if year + 1 > MAX_YEAR {
            Err(InvalidDate)
        } else {
            Ok(
                convert_between(
                    sky,
                    jdn,
                    year,
                    month_start,
                    this_month_11,
                    month_11_start(sky, year + 1),
                ),
            )
        }
    }
}

/// The lunar date of Julian day `jdn` in Gregorian year `year`, by the
/// ephemeris `sky`.
pub open spec fn convert(sky: spec_fn(Query) -> i32, jdn: int, year: int) -> Result<
    LunarDate,
    InvalidDate,
> {
    convert_from_month_11(sky, jdn, year, month_start(sky, jdn), month_11_start(sky, year))
}

/// Where a conversion succeeds, its lunar day is in 1..=30 exactly where the
/// ephemeris puts the start of the lunar month on the day itself or within
/// the 29 days before it.
pub proof fn lemma_convert_day_in_range(sky: spec_fn(Query) -> i32, jdn: int, year: int)
    requires
        convert(sky, jdn, year) is Ok,
    ensures
        1 <= convert(sky, jdn, year)->Ok_0.day <= 30 <==> month_start(sky, jdn) <= jdn
            < month_start(sky, jdn) + 30,
{
}

#[derive(Clone, Copy, Debug)]
enum Phase {
    NextMoon,
    Fallback,
    ThisYear { month_start: i32, search: Month11Search },
    OtherYear { month_start: i32, this_month_11: i32, search: Month11Search },
    Leap { month_start: i32, first_month_11: i32, scan: LeapSearch },
}

/// A conversion that waits for the answer to its query.
#[derive(Clone, Copy, Debug)]
pub struct Conversion {
    jdn: i32,
    year: i32,
    phase: Phase,
}

impl Conversion {
    #[verifier::type_invariant]
    spec fn valid(self) -> bool {
        MIN_YEAR <= self.year <= MAX_YEAR
    }

    spec fn awaited(self) -> Query {
        match self.phase {
            Phase::NextMoon => Query::NewMoonDay {
                index: JulianMonthIndex((month_index_of(self.jdn as int) + 1) as i32),
                zone: Zone::Local,
            },
            Phase::Fallback => Query::NewMoonDay {
                index: JulianMonthIndex(month_index_of(self.jdn as int) as i32),
                zone: Zone::Indochina,
            },
            Phase::ThisYear { search, .. } => search.pending(),
            Phase::OtherYear { search, .. } => search.pending(),
            Phase::Leap { scan, .. } => scan.pending(),
        }
    }

    spec fn comes_to(self, sky: spec_fn(Query) -> i32) -> Result<LunarDate, InvalidDate> {
        let jdn = self.jdn as int;
        let year = self.year as int;
        match self.phase {
            Phase::NextMoon => convert(sky, jdn, year),
            Phase::Fallback => convert_from_month_11(
                sky,
                jdn,
                year,
                new_moon_day(sky, month_index_of(jdn), Zone::Indochina),
                month_11_start(sky, year),
            ),
            Phase::ThisYear { month_start, search } => convert_from_month_11(
                sky,
                jdn,
                year,
                month_start as int,
                search.outcome(sky),
            ),
            Phase::OtherYear { month_start, this_month_11, search } => Ok(
                if this_month_11 >= month_start {
                    convert_between(
                        sky,
                        jdn,
                        year,
                        month_start as int,
                        search.outcome(sky),
                        this_month_11 as int,
                    )
                } else {
                    convert_between(
                        sky,
                        jdn,
                        year,
                        month_start as int,
                        this_month_11 as int,
                        search.outcome(sky),
                    )
                },
            ),
            Phase::Leap { month_start, first_month_11, scan } => Ok(
                resolve(
                    jdn,
                    year,
                    month_start as int,
                    first_month_11 as int,
                    Some(scan.outcome(sky)),
                ),
            ),
        }
    }

    spec fn answers_left(self) -> nat {
        match self.phase {
            Phase::NextMoon => 34,
            Phase::Fallback => 33,
            Phase::ThisYear { search, .. } => 29 + search.remaining(),
            Phase::OtherYear { search, .. } => 26 + search.remaining(),
            Phase::Leap { scan, .. } => scan.remaining(),
        }
    }

    spec fn step_comes_to(
        step: Step<Conversion, Result<NgayTa, InvalidDate>>,
        sky: spec_fn(Query) -> i32,
    ) -> Result<LunarDate, InvalidDate> {
        match step {
            Step::Ask(conversion) => conversion.comes_to(sky),
            Step::Done(Ok(date)) => Ok(date@),
            Step::Done(Err(e)) => Err(e),
        }
    }

    spec fn step_answers_left(step: Step<Conversion, Result<NgayTa, InvalidDate>>) -> nat {
        match step {
            Step::Ask(conversion) => conversion.answers_left(),
            Step::Done(_) => 0,
        }
    }

    fn search_this_year(self, month_start: i32) -> (r: Step<Conversion, Result<NgayTa, InvalidDate>>)
        ensures
            forall|sky: spec_fn(Query) -> i32|
                Self::step_comes_to(r, sky) == #[trigger] convert_from_month_11(
                    sky,
                    self.jdn as int,
                    self.year as int,
                    month_start as int,
                    month_11_start(sky, self.year as int),
                ),
            Self::step_answers_left(r) <= 32,
    {
        proof {
            use_type_invariant(&self);
        }
        match Month11Search::start(self.year) {
            Ok(search) => Step::Ask(
                Conversion {
                    jdn: self.jdn,
                    year: self.year,
                    phase: Phase::ThisYear { month_start, search },
                },
            ),
            Err(e) => Step::Done(Err(e)),
        }
    }

    fn search_other_year(self, month_start: i32, this_month_11: i32) -> (r: Step<
        Conversion,
        Result<NgayTa, InvalidDate>,
    >)
        ensures
            forall|sky: spec_fn(Query) -> i32|
                Self::step_comes_to(r, sky) == #[trigger] convert_from_month_11(
                    sky,
                    self.jdn as int,
                    self.year as int,
                    month_start as int,
                    this_month_11 as int,
                ),
            Self::step_answers_left(r) <= 29,
    {
        proof {
            use_type_invariant(&self);
        }
        let other_year = if this_month_11 >= month_start {
            self.year - 1
        } else {
            self.year + 1
        };
        match Month11Search::start(other_year) {
            Ok(search) => Step::Ask(
                Conversion {
                    jdn: self.jdn,
                    year: self.year,
                    phase: Phase::OtherYear { month_start, this_month_11, search },
                },
            ),
            Err(e) => Step::Done(Err(e)),
        }
    }

    fn search_leap_month(self, month_start: i32, first_month_11: i32, last_month_11: i32) -> (r:
        Step<Conversion, Result<NgayTa, InvalidDate>>)
        ensures
            forall|sky: spec_fn(Query) -> i32|
                Self::step_comes_to(r, sky) == Ok::<LunarDate, InvalidDate>(
                    #[trigger] convert_between(
                        sky,
                        self.jdn as int,
                        self.year as int,
                        month_start as int,
                        first_month_11 as int,
                        last_month_11 as int,
                    ),
                ),
            Self::step_answers_left(r) <= 26,
    {
        proof {
            use_type_invariant(&self);
        }
        if has_thirteen_months(first_month_11, last_month_11) {
            Step::Ask(
                Conversion {
                    jdn: self.jdn,
                    year: self.year,
                    phase: Phase::Leap {
                        month_start,
                        first_month_11,
                        scan: LeapSearch::start(first_month_11),
                    },
                },
            )
        } else {
            Step::Done(Ok(resolve_date(self.jdn, self.year, month_start, first_month_11, None)))
        }
    }
}

/// The conversion comes to a lunar date, or fails for a date at the edge of
/// the calendar.
impl Inquiry for Conversion {
    type Found = Result<NgayTa, InvalidDate>;

    type Outcome = Result<LunarDate, InvalidDate>;

    closed spec fn pending(self) -> Query {
        self.awaited()
    }

    closed spec fn outcome(self, sky: spec_fn(Query) -> i32) -> Result<LunarDate, InvalidDate> {
        self.comes_to(sky)
    }

    closed spec fn remaining(self) -> nat {
        self.answers_left()
    }

    open spec fn found_view(found: Result<NgayTa, InvalidDate>) -> Result<LunarDate, InvalidDate> {
        match found {
            Ok(date) => Ok(date@),
            Err(e) => Err(e),
        }
    }

    fn query(&self) -> (r: Query) {
        proof {
            lemma_month_index_bounded(self.jdn as int);
        }
        match &self.phase {
            Phase::NextMoon => Query::NewMoonDay {
                index: JulianMonthIndex::from_julian_day(self.jdn) + JulianMonthIndex::new(1),
                zone: Zone::Local,
            },
            Phase::Fallback => Query::NewMoonDay {
                index: JulianMonthIndex::from_julian_day(self.jdn),
                zone: Zone::Indochina,
            },
            Phase::ThisYear { search, .. } => search.query(),
            Phase::OtherYear { search, .. } => search.query(),
            Phase::Leap { scan, .. } => scan.query(),
        }
    }

    fn advance(self, answer: i32) -> (r: Step<Conversion, Result<NgayTa, InvalidDate>>) {
        proof {
            use_type_invariant(&self);
        }
        match self.phase {
            Phase::NextMoon => {
                if answer > self.jdn {
                    Step::Ask(Conversion { jdn: self.jdn, year: self.year, phase: Phase::Fallback })
                } else {
                    self.search_this_year(answer)
                }
            },
            Phase::Fallback => self.search_this_year(answer),
            Phase::ThisYear { month_start, search } => match search.advance(answer) {
                Step::Ask(search) => Step::Ask(
                    Conversion {
                        jdn: self.jdn,
                        year: self.year,
                        phase: Phase::ThisYear { month_start, search },
                    },
                ),
                Step::Done(this_month_11) => self.search_other_year(month_start, this_month_11),
            },
            Phase::OtherYear { month_start, this_month_11, search } => match search.advance(answer) {
                Step::Ask(search) => Step::Ask(
                    Conversion {
                        jdn: self.jdn,
                        year: self.year,
                        phase: Phase::OtherYear { month_start, this_month_11, search },
                    },
                ),
                Step::Done(other) => {
                    if this_month_11 >= month_start {
                        self.search_leap_month(month_start, other, this_month_11)
                    } else {
                        self.search_leap_month(month_start, this_month_11, other)
                    }
                },
            },
            Phase::Leap { month_start, first_month_11, scan } => match scan.advance(answer) {
                Step::Ask(scan) => Step::Ask(
                    Conversion {
                        jdn: self.jdn,
                        year: self.year,
                        phase: Phase::Leap { month_start, first_month_11, scan },
                    },
                ),
                Step::Done(offset) => Step::Done(
                    Ok(resolve_date(self.jdn, self.year, month_start, first_month_11, Some(offset))),
                ),
            },
        }
    }
}

/// Begins the conversion of `date`. The lunar date is reached by answering
/// the conversion's queries, at most 34 of them.
pub fn convert_date_to_lichta(date: GregorianDate) -> (r: Conversion)
    ensures
        r.pending() == (Query::NewMoonDay {
            index: JulianMonthIndex(
                (month_index_of(crate::gregorian::julian_day(date@.year, date@.month, date@.day))
                    + 1) as i32,
            ),
            zone: Zone::Local,
        }),
        forall|sky: spec_fn(Query) -> i32| #[trigger]
            r.outcome(sky) == convert(
                sky,
                crate::gregorian::julian_day(date@.year, date@.month, date@.day),
                date@.year,
            ),
        r.remaining() <= 34,
{
    Conversion { jdn: date.to_julian_day(), year: date.year(), phase: Phase::NextMoon }
}

} // verus!
