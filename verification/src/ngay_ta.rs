//! The [`NgayTa`] value: one day of the lunisolar calendar.

use vstd::prelude::*;

verus! {

/// The mathematical content of a lunisolar date.
pub struct LunarDate {
    pub day: int,
    pub month: int,
    pub year: int,
    pub is_leap_month: bool,
}

/// A day in the lunisolar calendar.
#[derive(Clone, Copy, Debug)]
pub struct NgayTa {
    day: i32,
    month: i32,
    year: i32,
    is_leap_month: bool,
}

impl View for NgayTa {
    type V = LunarDate;

    closed spec fn view(&self) -> LunarDate {
        LunarDate {
            day: self.day as int,
            month: self.month as int,
            year: self.year as int,
            is_leap_month: self.is_leap_month,
        }
    }
}

impl NgayTa {
    pub fn new(day: i32, month: i32, year: i32, is_leap_month: bool) -> (r: Self)
        ensures
            r@ == (LunarDate { day: day as int, month: month as int, year: year as int, is_leap_month }),
    {
        Self { day, month, year, is_leap_month }
    }

    pub fn day(&self) -> (r: i32)
        ensures
            r == self@.day,
    {
        self.day
    }

    pub fn month(&self) -> (r: i32)
        ensures
            r == self@.month,
    {
        self.month
    }

    pub fn year(&self) -> (r: i32)
        ensures
            r == self@.year,
    {
        self.year
    }

    pub fn is_leap_month(&self) -> (r: bool)
        ensures
            r == self@.is_leap_month,
    {
        self.is_leap_month
    }
}

} // verus!
