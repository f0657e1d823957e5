//! The [`JulianMonthIndex`]: a count of synodic months since the 1900 epoch.

use vstd::prelude::*;

verus! {

/// The epoch, Julian day 2415021.076998695, in billionths of a day.
pub const EPOCH_NANODAYS: i64 = 2_415_021_076_998_695;

/// The length of a synodic month, 29.530588853 days, in billionths of a day.
pub const MOON_CYCLE_NANODAYS: i64 = 29_530_588_853;

/// Billionths of a day in one day.
pub const NANODAYS_PER_DAY: i64 = 1_000_000_000;

/// The quotient of `a` by a positive `b`, rounded toward zero.
pub open spec fn trunc_div(a: int, b: int) -> int
    recommends
        b > 0,
{
    if a >= 0 {
        a / b
    } else {
        -((-a) / b)
    }
}

/// The number of whole synodic months between the epoch and the start of
/// Julian day `jdn`: `(jdn - 2415021.076998695) / 29.530588853`, rounded
/// toward zero.
pub open spec fn month_index_of(jdn: int) -> int {
    trunc_div(jdn * NANODAYS_PER_DAY - EPOCH_NANODAYS, MOON_CYCLE_NANODAYS as int)
}

/// The largest distance from the epoch, in months, of any 32-bit day number.
pub const MAX_MONTHS_FROM_EPOCH: i32 = 72_802_432;

/// The month index of a 32-bit Julian day number lies within
/// [`MAX_MONTHS_FROM_EPOCH`] of the epoch.
pub proof fn lemma_month_index_bounded(jdn: int)
    requires
        i32::MIN <= jdn <= i32::MAX,
    ensures
        -MAX_MONTHS_FROM_EPOCH <= month_index_of(jdn) <= MAX_MONTHS_FROM_EPOCH,
{
}

/// A later day never has a smaller month index.
pub proof fn lemma_month_index_monotonic(a: int, b: int)
    requires
        a <= b,
    ensures
        month_index_of(a) <= month_index_of(b),
{
}

/// A month count that does not fit the 32-bit index.
#[derive(Clone, Copy, Debug, PartialEq, Eq, Structural)]
pub struct Overflow;

/// Number of synodic months since mid-day 1 January 1900.
#[derive(Clone, Copy, Debug, PartialEq, Eq, Structural)]
pub struct JulianMonthIndex(pub i32);

impl JulianMonthIndex {
    pub fn new(value: i32) -> (r: JulianMonthIndex)
        ensures
            r == JulianMonthIndex(value),
    {
        JulianMonthIndex(value)
    }

    /// The index of the synodic month that holds the start of Julian day `jdn`.
    pub fn from_julian_day(jdn: i32) -> (r: JulianMonthIndex)
        ensures
            r.0 == month_index_of(jdn as int),
    {
        let offset: i64 = (jdn as i64) * NANODAYS_PER_DAY - EPOCH_NANODAYS;
        let months: i64 = if offset >= 0 {
            offset / MOON_CYCLE_NANODAYS
        } else {
            -((-offset) / MOON_CYCLE_NANODAYS)
        };
        JulianMonthIndex(months as i32)
    }

    /// The month count itself.
    pub fn value(&self) -> (r: i32)
        ensures
            r == self.0,
    {
        self.0
    }

    /// The index for a whole number of months, if it fits 32 bits.
    pub fn checked_from(months: i64) -> (r: Result<JulianMonthIndex, Overflow>)
        ensures
            i32::MIN <= months <= i32::MAX ==> r == Ok::<JulianMonthIndex, Overflow>(
                JulianMonthIndex(months as i32),
            ),
            !(i32::MIN <= months <= i32::MAX) ==> r == Err::<JulianMonthIndex, Overflow>(Overflow),
    {
        if months < -2_147_483_648 || months > 2_147_483_647 {
            Err(Overflow)
        } else {
            Ok(JulianMonthIndex(months as i32))
        }
    }
}

impl vstd::std_specs::ops::AddSpecImpl for JulianMonthIndex {
    open spec fn obeys_add_spec() -> bool {
        true
    }

    open spec fn add_req(self, rhs: JulianMonthIndex) -> bool {
        i32::MIN <= self.0 + rhs.0 <= i32::MAX
    }

    open spec fn add_spec(self, rhs: JulianMonthIndex) -> JulianMonthIndex {
        JulianMonthIndex((self.0 + rhs.0) as i32)
    }
}

/// Adding two indices adds their month counts; the sum must fit 32 bits.
impl core::ops::Add for JulianMonthIndex {
    type Output = JulianMonthIndex;

    fn add(self, rhs: JulianMonthIndex) -> (r: JulianMonthIndex) {
        JulianMonthIndex(self.0 + rhs.0)
    }
}

impl vstd::std_specs::ops::SubSpecImpl for JulianMonthIndex {
    open spec fn obeys_sub_spec() -> bool {
        true
    }

    open spec fn sub_req(self, rhs: JulianMonthIndex) -> bool {
        i32::MIN <= self.0 - rhs.0 <= i32::MAX
    }

    open spec fn sub_spec(self, rhs: JulianMonthIndex) -> JulianMonthIndex {
        JulianMonthIndex((self.0 - rhs.0) as i32)
    }
}

/// Subtracting two indices subtracts their month counts; the difference must
/// fit 32 bits.
impl core::ops::Sub for JulianMonthIndex {
    type Output = JulianMonthIndex;

    fn sub(self, rhs: JulianMonthIndex) -> (r: JulianMonthIndex) {
        JulianMonthIndex(self.0 - rhs.0)
    }
}

impl From<i32> for JulianMonthIndex {
    fn from(value: i32) -> (r: JulianMonthIndex) {
        JulianMonthIndex(value)
    }
}

impl vstd::std_specs::convert::FromSpecImpl<i32> for JulianMonthIndex {
    open spec fn obeys_from_spec() -> bool {
        true
    }

    open spec fn from_spec(value: i32) -> JulianMonthIndex {
        JulianMonthIndex(value)
    }
}

} // verus!
