//! Gregorian calendar dates and their Julian day numbers.

use vstd::prelude::*;

verus! {

/// The first year of the supported calendar range.
pub const MIN_YEAR: i32 = -9999;

/// The last year of the supported calendar range.
pub const MAX_YEAR: i32 = 9999;

/// A year, month and day as mathematical integers.
pub struct CalendarDate {
    pub year: int,
    pub month: int,
    pub day: int,
}

/// Whether `year` is a leap year of the proleptic Gregorian calendar.
pub open spec fn is_leap_year(year: int) -> bool {
    year % 4 == 0 && (year % 100 != 0 || year % 400 == 0)
}

/// The number of days of month `month` (1 to 12) in `year`.
pub open spec fn days_in_month(year: int, month: int) -> int {
    if month == 2 {
        if is_leap_year(year) {
            29
        } else {
            28
        }
    } else if month == 4 || month == 6 || month == 9 || month == 11 {
        30
    } else {
        31
    }
}

/// Whether the three numbers name a day of the supported calendar range.
pub open spec fn is_calendar_date(year: int, month: int, day: int) -> bool {
    &&& MIN_YEAR <= year <= MAX_YEAR
    &&& 1 <= month <= 12
    &&& 1 <= day <= days_in_month(year, month)
}

/// The number of days of `year` that lie before its month `month`.
pub open spec fn days_before_month(year: int, month: int) -> int
    decreases month,
{
    if month <= 1 {
        0
    } else {
        days_before_month(year, month - 1) + days_in_month(year, month - 1)
    }
}

/// The Julian day number of a day of the proleptic Gregorian calendar.
pub open spec fn julian_day(year: int, month: int, day: int) -> int {
    let shifted = year + 999_999;
    (1461 * shifted) / 4 - shifted / 100 + shifted / 400 + days_before_month(year, month) + day
        - 363_521_075
}

/// The date is not a day of the supported calendar range.
#[derive(Clone, Copy, Debug, PartialEq, Eq, Structural)]
pub struct InvalidDate;

/// The Julian day number of a calendar date, as the `time` crate computes it.
///
/// Not verified: the body converts the month number with
/// `time::Month::try_from`, builds the date with
/// `time::Date::from_calendar_date` and reads `time::Date::to_julian_day`.
/// The contract claims that a date is built exactly for the days of the
/// proleptic Gregorian calendar in the years -9999 to 9999 (the range of the
/// crate without its `large-dates` feature), and that its Julian
/// day is the count of days before its year, by the 4, 100 and 400 year rules,
/// plus its day of the year, shifted so that 24 November -4713 is day 0.
#[verifier::external_body]
fn julian_day_number(year: i32, month: u8, day: u8) -> (r: Option<i32>)
    ensures
        is_calendar_date(year as int, month as int, day as int) ==> r == Some(
            julian_day(year as int, month as int, day as int) as i32,
        ),
        !is_calendar_date(year as int, month as int, day as int) ==> r.is_none(),
{
    let month = time::Month::try_from(month).ok()?;
    let date = time::Date::from_calendar_date(year, month, day).ok()?;
    Some(date.to_julian_day())
}

/// Every day of the supported range has a Julian day number between
/// -1 930 999 (1 January -9999) and 5 373 484 (31 December 9999).
pub proof fn lemma_julian_day_range(year: int, month: int, day: int)
    requires
        is_calendar_date(year, month, day),
    ensures
        -1_930_999 <= julian_day(year, month, day) <= 5_373_484,
{
    reveal_with_fuel(days_before_month, 13);
}

/// A validated date of the proleptic Gregorian calendar.
#[derive(Clone, Copy, Debug)]
pub struct GregorianDate {
    year: i32,
    month: u8,
    day: u8,
    julian_day: i32,
}

impl View for GregorianDate {
    type V = CalendarDate;

    closed spec fn view(&self) -> CalendarDate {
        CalendarDate { year: self.year as int, month: self.month as int, day: self.day as int }
    }
}

impl GregorianDate {
    #[verifier::type_invariant]
    spec fn valid(self) -> bool {
        &&& is_calendar_date(self.year as int, self.month as int, self.day as int)
        &&& self.julian_day == julian_day(self.year as int, self.month as int, self.day as int)
    }

    /// The date with the given year, month (1 to 12) and day of the month, if
    /// there is such a day.
    pub fn new(year: i32, month: u8, day: u8) -> (r: Result<GregorianDate, InvalidDate>)
        ensures
            r.is_ok() <==> is_calendar_date(year as int, month as int, day as int),
            r matches Ok(date) ==> date@ == (CalendarDate {
                year: year as int,
                month: month as int,
                day: day as int,
            }),
    {
        match julian_day_number(year, month, day) {
            Some(julian_day) => {
                proof {
                    lemma_julian_day_range(year as int, month as int, day as int);
                }
                Ok(GregorianDate { year, month, day, julian_day })
            },
            None => Err(InvalidDate),
        }
    }

    pub fn year(&self) -> (r: i32)
        ensures
            r == self@.year,
            is_calendar_date(self@.year, self@.month, self@.day),
    {
        proof {
            use_type_invariant(self);
        }
        self.year
    }

    pub fn month(&self) -> (r: u8)
        ensures
            r == self@.month,
    {
        self.month
    }

    pub fn day(&self) -> (r: u8)
        ensures
            r == self@.day,
    {
        self.day
    }

    /// The Julian day number of the date.
    pub fn to_julian_day(&self) -> (r: i32)
        ensures
            r == julian_day(self@.year, self@.month, self@.day),
            is_calendar_date(self@.year, self@.month, self@.day),
    {
        proof {
            use_type_invariant(self);
        }
        self.julian_day
    }
}

/// The Julian day number of 31 December of `year`, if the year is in range.
pub fn last_day_of_year(year: i32) -> (r: Result<i32, InvalidDate>)
    ensures
        MIN_YEAR <= year <= MAX_YEAR ==> r == Ok::<i32, InvalidDate>(
            julian_day(year as int, 12, 31) as i32,
        ),
        !(MIN_YEAR <= year <= MAX_YEAR) ==> r == Err::<i32, InvalidDate>(InvalidDate),
{
    match julian_day_number(year, 12, 31) {
        Some(julian_day) => Ok(julian_day),
        None => Err(InvalidDate),
    }
}

} // verus!
