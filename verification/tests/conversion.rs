//! Conversions driven end to end, with an ephemeris in double precision that
//! answers the library's queries.

use lichta::convert::convert_date_to_lichta;
use lichta::ephemeris::{Inquiry, Query, Rounding, Step, Zone};
use lichta::gregorian::{GregorianDate, InvalidDate};
use lichta::leap_month::LeapSearch;
use lichta::month_11::Month11Search;
use lichta::month_index::JulianMonthIndex;

fn sun_longitude_aa98(jdn: f64) -> f64 {
    let t = (jdn - 2451545.0) / 36525.0;
    let t_2 = t * t;
    let mean_anomaly = 357.52910 + (35999.05030 * t) - (0.0001559 * t_2) - (0.00000048 * t * t_2);
    let mean_longitude = 280.46645 + (36000.76983 * t) + (0.0003032 * t_2);
    let equation_of_the_center = (1.914600 - (0.004817 * t) - (0.000014 * t_2))
        * f64::sin(mean_anomaly.to_radians())
        + (0.019993 - 0.000101 * t) * f64::sin(2.0 * mean_anomaly.to_radians())
        + 0.000290 * f64::sin(3.0 * mean_anomaly.to_radians());
    (mean_longitude + equation_of_the_center) % 360.0
}

fn get_sun_longitude(jdn: f64, timezone: f64) -> f64 {
    sun_longitude_aa98(jdn - 0.5 - timezone / 24.0)
}

fn new_moon_aa98(index: JulianMonthIndex) -> f64 {
    let k: f64 = index.value().into();
    let t = k / 1236.85;
    let t_2 = t * t;
    let t_3 = t_2 * t;
    let mean_new_moon = 2415020.75933 + 29.53058868 * k + 0.0001178 * t_2 - 0.000000155 * t_3
        + 0.00033 * f64::sin((166.56 + 132.87 * t - 0.009173 * t_2).to_radians());
    let sun = 359.2242 + 29.10535608 * k - 0.0000333 * t_2 - 0.00000347 * t_3;
    let moon = 306.0253 + 385.81691806 * k + 0.0107306 * t_2 + 0.00001236 * t_3;
    let latitude = 21.2964 + 390.67050646 * k - 0.0016528 * t_2 - 0.00000239 * t_3;
    let mut correction = (0.1734 - 0.000393 * t) * f64::sin(sun.to_radians())
        + 0.0021 * f64::sin(2.0 * sun.to_radians());
    correction -=
        0.4068 * f64::sin(moon.to_radians()) + 0.0161 * f64::sin(2.0 * moon.to_radians());
    correction -= 0.0004 * f64::sin(3.0 * moon.to_radians());
    correction += 0.0104 * f64::sin(2.0 * latitude.to_radians())
        - 0.0051 * f64::sin((sun + moon).to_radians());
    correction -= 0.0074 * f64::sin((sun - moon).to_radians())
        + 0.0004 * f64::sin((2.0 * latitude + sun).to_radians());
    correction -= 0.0004 * f64::sin((2.0 * latitude - sun).to_radians())
        - 0.0006 * f64::sin((2.0 * latitude + moon).to_radians());
    correction += 0.0010 * f64::sin((2.0 * latitude - moon).to_radians())
        + 0.0005 * f64::sin((2.0 * moon + sun).to_radians());
    let delta_t = if t < -11.0 {
        0.001 + 0.000839 * t + 0.0002261 * t_2 - 0.00000845 * t_3 - 0.000000081 * t * t_3
    } else {
        -0.000278 + 0.000265 * t + 0.000262 * t_2
    };
    mean_new_moon + correction - delta_t
}

fn get_new_moon_day(index: JulianMonthIndex, timezone: f64) -> f64 {
    (new_moon_aa98(index) + 0.5 + timezone / 24.0).floor()
}

fn answer(query: Query, timezone: f64) -> i32 {
    match query {
        Query::NewMoonDay { index, zone: Zone::Local } => get_new_moon_day(index, timezone) as i32,
        Query::NewMoonDay { index, zone: Zone::Indochina } => get_new_moon_day(index, 7.0) as i32,
        Query::SolarSegment { day, rounding: Rounding::TowardZero } => {
            (get_sun_longitude(day.into(), timezone) / 30.0).trunc() as i32
        }
        Query::SolarSegment { day, rounding: Rounding::Floor } => {
            (get_sun_longitude(day.into(), timezone) / 30.0).floor() as i32
        }
    }
}

fn run<S: Inquiry>(state: S, timezone: f64) -> (S::Found, usize) {
    let mut step = Step::Ask(state);
    let mut answers = 0;
    loop {
        match step {
            Step::Ask(state) => {
                let query = state.query();
                step = state.advance(answer(query, timezone));
                answers += 1;
            }
            Step::Done(found) => return (found, answers),
        }
    }
}

fn get_lunar_month_11(year: i32, timezone: f64) -> i32 {
    run(Month11Search::start(year).expect("Invalid date for year"), timezone).0
}

fn get_leap_month_offset(first_month_11: i32, timezone: f64) -> i32 {
    run(LeapSearch::start(first_month_11), timezone).0
}

fn convert(year: i32, month: u8, day: u8, timezone: f64) -> (i32, i32, i32, i32) {
    let date = GregorianDate::new(year, month, day).unwrap();
    let lichta = run(convert_date_to_lichta(date), timezone).0.unwrap();
    (lichta.day(), lichta.month(), lichta.year(), lichta.is_leap_month() as i32)
}

#[test]
fn test_get_sun_longitude() {
    let jdn = 2451520_f64;
    assert_eq!(get_sun_longitude(jdn, 7.0), 254.13250183229925);
}

#[test]
fn test_new_moon_aa98() {
    let k = JulianMonthIndex::new(1533);
    assert_eq!(new_moon_aa98(k), 2_460_291.49468915);
}

#[test]
fn test_get_lunar_month_11() {
    assert_eq!(get_lunar_month_11(2024, 7.0), 2_460_646);
}

#[test]
fn test_get_leap_month_offset() {
    let a11 = get_lunar_month_11(2022, 7.0);
    assert_eq!(get_leap_month_offset(a11, 7.0), 3);
}

#[test]
fn test_convert_to_lich_ta() {
    let lichta = convert(2024, 5, 24, 7.0);
    assert_eq!(lichta, (17, 4, 2024, 0));

    let lichta = convert(2022, 5, 24, 7.0);
    assert_eq!(lichta, (24, 4, 2022, 0));
}

#[test]
fn new_moons_strictly_advance() {
    for k in -1300..3000 {
        for timezone in [-12.0, 0.0, 5.5, 7.0, 14.0] {
            let this = get_new_moon_day(JulianMonthIndex::new(k), timezone);
            let next = get_new_moon_day(JulianMonthIndex::new(k + 1), timezone);
            assert!(next > this, "k = {}", k);
        }
    }
}

fn month_11_span(year: i32) -> i32 {
    get_lunar_month_11(year, 7.0) - get_lunar_month_11(year - 1, 7.0)
}

#[test]
fn thirteen_month_years_span_more_than_365_days() {
    // The lunar years that end in the month 11 of 2020 and of 2023 hold a leap
    // month (the fourth of 2020, the second of 2023).
    for year in [2017, 2020, 2023, 2025] {
        assert!(month_11_span(year) > 365, "year {}", year);
        assert!(lichta::convert::has_thirteen_months(
            get_lunar_month_11(year - 1, 7.0),
            get_lunar_month_11(year, 7.0)
        ));
    }
    for year in [2018, 2019, 2021, 2022, 2024] {
        assert!(month_11_span(year) <= 365, "year {}", year);
        assert!(!lichta::convert::has_thirteen_months(
            get_lunar_month_11(year - 1, 7.0),
            get_lunar_month_11(year, 7.0)
        ));
    }
}

#[test]
fn leap_month_is_flagged_from_its_first_day_to_its_last() {
    // With this ephemeris the thirteen-month year that ends in 2020 repeats
    // month 5, and the one that ends in 2023 repeats month 1.
    assert_eq!(convert(2020, 6, 20, 7.0), (30, 5, 2020, 0));
    assert_eq!(convert(2020, 6, 21, 7.0), (1, 5, 2020, 1));
    assert_eq!(convert(2020, 7, 20, 7.0), (30, 5, 2020, 1));
    assert_eq!(convert(2020, 7, 21, 7.0), (1, 6, 2020, 0));
    assert_eq!(convert(2023, 2, 20, 7.0), (1, 1, 2023, 1));
    assert_eq!(convert(2023, 3, 21, 7.0), (1, 2, 2023, 0));
    assert_eq!(convert(2023, 4, 20, 7.0), (1, 3, 2023, 0));
}

#[test]
fn lunar_year_around_month_11() {
    assert_eq!(convert(2024, 1, 1, 7.0), (20, 11, 2023, 0));
    assert_eq!(convert(2024, 2, 9, 7.0), (30, 12, 2023, 0));
    assert_eq!(convert(2024, 2, 10, 7.0), (1, 1, 2024, 0));
    assert_eq!(convert(2024, 11, 30, 7.0), (30, 10, 2024, 0));
    assert_eq!(convert(2024, 12, 1, 7.0), (1, 11, 2024, 0));
    assert_eq!(convert(2024, 12, 30, 7.0), (30, 11, 2024, 0));
    // From the month that holds 31 December on, the months 11 and 12 are
    // counted from the month 11 of the same Gregorian year, whose first four
    // months take the year before.
    assert_eq!(convert(2024, 12, 31, 7.0), (1, 12, 2023, 0));
    assert_eq!(convert(2025, 1, 28, 7.0), (29, 12, 2024, 0));
    assert_eq!(convert(2025, 1, 29, 7.0), (1, 1, 2025, 0));
}

#[test]
fn conversion_depends_on_the_offset() {
    assert_eq!(convert(2024, 5, 24, 0.0), (17, 4, 2024, 0));
    assert_eq!(convert(2024, 5, 8, 7.0), (1, 4, 2024, 0));
    assert_eq!(convert(2024, 5, 8, -8.0), (2, 4, 2024, 0));
}

#[test]
fn day_zero_where_the_fallback_new_moon_is_late() {
    // The month index of these two days is that of the month before, and the
    // new moon asked for at UTC+7 falls on the day after.
    assert_eq!(convert(2054, 5, 6, 7.0), (29, 3, 2054, 0));
    assert_eq!(convert(2054, 5, 7, 7.0), (0, 4, 2054, 0));
    assert_eq!(convert(2054, 5, 8, 7.0), (1, 4, 2054, 0));
    assert_eq!(convert(2062, 4, 9, 7.0), (0, 3, 2062, 0));
}

#[test]
fn days_and_months_from_1900_to_2100() {
    for year in 1900..=2100 {
        for month in 1..=12u8 {
            for day in 1..=31u8 {
                let Ok(date) = GregorianDate::new(year, month, day) else {
                    continue;
                };
                let (result, answers) = run(convert_date_to_lichta(date), 7.0);
                let lichta = result.unwrap();
                assert!(answers <= 34);
                let day_zero = (year, month, day) == (2054, 5, 7)
                    || (year, month, day) == (2062, 4, 9);
                assert!(
                    if day_zero { lichta.day() == 0 } else { 1 <= lichta.day() && lichta.day() <= 30 },
                    "{}-{}-{}: day {}",
                    year,
                    month,
                    day,
                    lichta.day()
                );
                assert!(
                    1 <= lichta.month() && lichta.month() <= 12,
                    "{}-{}-{}: month {}",
                    year,
                    month,
                    day,
                    lichta.month()
                );
            }
        }
    }
}

#[test]
fn conversion_fails_where_the_other_year_is_outside_the_calendar() {
    let first = GregorianDate::new(-9999, 1, 1).unwrap();
    assert!(matches!(run(convert_date_to_lichta(first), 7.0).0, Err(InvalidDate)));
    let last = GregorianDate::new(9999, 12, 31).unwrap();
    assert!(matches!(run(convert_date_to_lichta(last), 7.0).0, Err(InvalidDate)));
    let inside = GregorianDate::new(9999, 1, 1).unwrap();
    assert!(run(convert_date_to_lichta(inside), 7.0).0.is_ok());
}

#[test]
fn first_query_asks_for_the_next_new_moon() {
    let date = GregorianDate::new(2024, 5, 24).unwrap();
    let conversion = convert_date_to_lichta(date);
    let index = JulianMonthIndex::from_julian_day(date.to_julian_day());
    assert_eq!(
        conversion.query(),
        Query::NewMoonDay { index: index + JulianMonthIndex::new(1), zone: Zone::Local }
    );
    // A new moon after the day sends the conversion back one month, at UTC+7.
    let Step::Ask(fallback) = conversion.advance(date.to_julian_day() + 1) else {
        panic!("the conversion cannot be done after one answer");
    };
    assert_eq!(fallback.query(), Query::NewMoonDay { index, zone: Zone::Indochina });
}

#[test]
fn leap_search_compares_the_first_segment_with_zero() {
    let search = LeapSearch::start(2_460_646);
    let index = JulianMonthIndex::from_julian_day(2_460_646);
    assert_eq!(
        search.query(),
        Query::NewMoonDay { index: index + JulianMonthIndex::new(1), zone: Zone::Local }
    );
    let Step::Ask(search) = search.advance(2_460_676) else {
        panic!("a new moon day does not end the search");
    };
    assert_eq!(search.query(), Query::SolarSegment { day: 2_460_676, rounding: Rounding::Floor });
    assert!(matches!(search.advance(0), Step::Done(0)));
}

#[test]
fn leap_search_without_a_repeat_gives_fourteen() {
    let mut step = Step::Ask(LeapSearch::start(2_460_646));
    let mut segment = 0;
    let mut answers = 0;
    loop {
        match step {
            Step::Ask(search) => {
                step = match search.query() {
                    Query::NewMoonDay { .. } => search.advance(2_460_000 + answers),
                    Query::SolarSegment { .. } => {
                        segment += 1;
                        search.advance(segment)
                    }
                };
                answers += 1;
            }
            Step::Done(offset) => {
                assert_eq!(offset, 14);
                assert_eq!(answers, 26);
                return;
            }
        }
    }
}

#[test]
fn month_11_search_steps_back_from_segment_nine() {
    let search = Month11Search::start(2024).unwrap();
    let index = JulianMonthIndex::from_julian_day(2_460_676);
    assert_eq!(search.query(), Query::NewMoonDay { index, zone: Zone::Local });
    let Step::Ask(search) = search.advance(2_460_676) else {
        panic!("a new moon day does not end the search");
    };
    assert_eq!(
        search.query(),
        Query::SolarSegment { day: 2_460_676, rounding: Rounding::TowardZero }
    );
    assert!(matches!(search.advance(8), Step::Done(2_460_676)));
    let Step::Ask(previous) = search.advance(9) else {
        panic!("segment 9 asks for the month before");
    };
    assert_eq!(
        previous.query(),
        Query::NewMoonDay { index: index - JulianMonthIndex::new(1), zone: Zone::Local }
    );
    assert!(matches!(previous.advance(2_460_646), Step::Done(2_460_646)));
}

#[test]
fn month_11_search_needs_a_year_of_the_calendar() {
    assert!(Month11Search::start(10_000).is_err());
    assert!(Month11Search::start(-10_000).is_err());
    assert!(Month11Search::start(9999).is_ok());
    assert!(Month11Search::start(-9999).is_ok());
}
