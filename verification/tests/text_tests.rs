//! Tests of the decimal-rendering utilities and the wall-clock datetime
//! model.

use glean_core::text::{four_digits, two_digits, u64_to_decimal};
use glean_core::time::Datetime;

#[test]
fn decimal_rendering_is_exact() {
    assert_eq!("0", u64_to_decimal(0));
    assert_eq!("7", u64_to_decimal(7));
    assert_eq!("10", u64_to_decimal(10));
    assert_eq!("1234567890", u64_to_decimal(1234567890));
    assert_eq!("18446744073709551615", u64_to_decimal(u64::MAX));
}

#[test]
fn padded_rendering_is_exact() {
    assert_eq!("04", two_digits(4));
    assert_eq!("59", two_digits(59));
    assert_eq!("0987", four_digits(987));
    assert_eq!("2018", four_digits(2018));
}

#[test]
fn datetime_rejects_impossible_instants() {
    assert!(Datetime::new(2021, 2, 29, 0, 0, 0).is_none());
    assert!(Datetime::new(2020, 2, 29, 0, 0, 0).is_some());
    assert!(Datetime::new(2021, 13, 1, 0, 0, 0).is_none());
    assert!(Datetime::new(2021, 4, 31, 0, 0, 0).is_none());
    assert!(Datetime::new(2021, 4, 30, 24, 0, 0).is_none());
    assert!(Datetime::new(2021, 4, 30, 23, 60, 0).is_none());
    assert!(Datetime::new(-1, 4, 30, 23, 0, 0).is_none());
}

#[test]
fn weekday_matches_known_dates() {
    // 2018-02-25 was a Sunday, 1970-01-01 a Thursday, 2000-03-01 a Wednesday.
    assert_eq!(0, Datetime::new(2018, 2, 25, 0, 0, 0).unwrap().weekday());
    assert_eq!(4, Datetime::new(1970, 1, 1, 0, 0, 0).unwrap().weekday());
    assert_eq!(3, Datetime::new(2000, 3, 1, 0, 0, 0).unwrap().weekday());
}

#[test]
fn same_date_ignores_the_time_of_day() {
    let morning = Datetime::new(2021, 4, 30, 3, 0, 0).unwrap();
    let evening = Datetime::new(2021, 4, 30, 23, 59, 59).unwrap();
    let next_day = Datetime::new(2021, 5, 1, 3, 0, 0).unwrap();
    assert!(morning.same_date_as(&evening));
    assert!(!morning.same_date_as(&next_day));
}
