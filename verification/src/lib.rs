//! Tools for the Lịch Ta lunisolar calendar: the calendar arithmetic that turns
//! a Gregorian date, together with the new-moon days and solar segments of an
//! ephemeris, into a lunar day, month, year and leap-month flag.
//!
//! The arithmetic works on whole numbers only. Where it needs the day of a new
//! moon or the Sun's segment on a day, it stops and asks: a computation is an
//! [`ephemeris::Inquiry`], a state that holds a [`ephemeris::Query`]. The
//! caller answers the query and hands the answer to `advance`, which gives the
//! next state or the result. Every `advance` keeps what the computation comes
//! to under any ephemeris that gave the answer, so a caller that answers from
//! one ephemeris `sky` ends with [`convert::convert`] of `sky`.
//!
//! The modules are listed from the leaves up.

pub mod month_index;
pub mod ngay_ta;
pub mod gregorian;
pub mod ephemeris;
pub mod month_11;
pub mod leap_month;
pub mod convert;

pub use ngay_ta::NgayTa;
