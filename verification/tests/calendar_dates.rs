use chrono::{Datelike, NaiveDate};
use suntimes::calendar::{is_leap_year, month_length, CalendarDate};

#[test]
fn leap_years_follow_the_gregorian_rule() {
    assert!(is_leap_year(2024));
    assert!(is_leap_year(2000));
    assert!(is_leap_year(1600));
    assert!(!is_leap_year(2023));
    assert!(!is_leap_year(1900));
    assert!(!is_leap_year(2100));
    assert!(is_leap_year(0));
    assert!(is_leap_year(-4));
    assert!(!is_leap_year(-1));
    assert!(!is_leap_year(-100));
    assert!(is_leap_year(-400));
}

#[test]
fn month_lengths() {
    let common: Vec<u32> = (1..=12).map(|m| month_length(false, m)).collect();
    assert_eq!(common, vec![31, 28, 31, 30, 31, 30, 31, 31, 30, 31, 30, 31]);
    let leap: Vec<u32> = (1..=12).map(|m| month_length(true, m)).collect();
    assert_eq!(leap, vec![31, 29, 31, 30, 31, 30, 31, 31, 30, 31, 30, 31]);
}

#[test]
fn new_keeps_the_fields_of_a_day_that_exists() {
    let date = CalendarDate::new(2024, 6, 21).unwrap();
    assert_eq!(date.year(), 2024);
    assert_eq!(date.month(), 6);
    assert_eq!(date.day(), 21);
    assert!(date.is_leap_year());
    let date = CalendarDate::new(-44, 3, 15).unwrap();
    assert_eq!((date.year(), date.month(), date.day()), (-44, 3, 15));
    assert!(date.is_leap_year());
    assert!(!CalendarDate::new(1900, 2, 28).unwrap().is_leap_year());
}

#[test]
fn new_refuses_days_that_do_not_exist() {
    assert_eq!(CalendarDate::new(2024, 13, 40), None);
    assert_eq!(CalendarDate::new(2024, 0, 1), None);
    assert_eq!(CalendarDate::new(2024, 13, 1), None);
    assert_eq!(CalendarDate::new(2024, 1, 0), None);
    assert_eq!(CalendarDate::new(2024, 1, 32), None);
    assert_eq!(CalendarDate::new(2024, 4, 31), None);
    assert_eq!(CalendarDate::new(2024, 2, 30), None);
    assert_eq!(CalendarDate::new(2023, 2, 29), None);
    assert_eq!(CalendarDate::new(1900, 2, 29), None);
    assert!(CalendarDate::new(2024, 2, 29).is_some());
    assert!(CalendarDate::new(2000, 2, 29).is_some());
    assert!(CalendarDate::new(2024, 12, 31).is_some());
    assert_eq!(CalendarDate::new(2024, u32::MAX, u32::MAX), None);
    assert!(CalendarDate::new(i32::MAX, 1, 1).is_some());
    assert!(CalendarDate::new(i32::MIN, 12, 31).is_some());
}

#[test]
fn ordinal0_counts_from_zero() {
    assert_eq!(CalendarDate::new(2024, 1, 1).unwrap().ordinal0(), 0);
    assert_eq!(CalendarDate::new(2024, 1, 31).unwrap().ordinal0(), 30);
    assert_eq!(CalendarDate::new(2024, 2, 1).unwrap().ordinal0(), 31);
    assert_eq!(CalendarDate::new(2024, 2, 29).unwrap().ordinal0(), 59);
    assert_eq!(CalendarDate::new(2024, 3, 1).unwrap().ordinal0(), 60);
    assert_eq!(CalendarDate::new(2023, 3, 1).unwrap().ordinal0(), 59);
    assert_eq!(CalendarDate::new(2024, 6, 21).unwrap().ordinal0(), 172);
    assert_eq!(CalendarDate::new(2023, 6, 21).unwrap().ordinal0(), 171);
    assert_eq!(CalendarDate::new(2024, 12, 31).unwrap().ordinal0(), 365);
    assert_eq!(CalendarDate::new(2023, 12, 31).unwrap().ordinal0(), 364);
}

#[test]
fn ordinal0_lies_within_the_year_and_grows_by_one_each_day() {
    for year in [1900, 2000, 2023, 2024, -4, -1] {
        let leap = is_leap_year(year);
        let mut expected = 0;
        for month in 1..=12 {
            for day in 1..=month_length(leap, month) {
                let date = CalendarDate::new(year, month, day).unwrap();
                assert_eq!(date.ordinal0(), expected);
                expected += 1;
            }
        }
        assert_eq!(expected, if leap { 366 } else { 365 });
    }
}

#[test]
fn dates_agree_with_chrono_on_every_day_of_four_centuries() {
    for year in 1800..2200 {
        for month in 1..=12u32 {
            for day in 1..=31u32 {
                let ours = CalendarDate::new(year, month, day);
                let theirs = NaiveDate::from_ymd_opt(year, month, day);
                assert_eq!(ours.is_some(), theirs.is_some(), "{year}-{month}-{day}");
                if let (Some(ours), Some(theirs)) = (ours, theirs) {
                    assert_eq!(ours.ordinal0(), theirs.ordinal0(), "{year}-{month}-{day}");
                    assert_eq!(ours.is_leap_year(), theirs.leap_year());
                }
            }
        }
    }
}

#[test]
fn equal_fields_make_equal_dates() {
    let a = CalendarDate::new(2024, 6, 21).unwrap();
    let b = CalendarDate::new(2024, 6, 21).unwrap();
    let c = CalendarDate::new(2024, 6, 22).unwrap();
    assert_eq!(a, b);
    assert_ne!(a, c);
    assert_eq!(a.clone(), a);
}
