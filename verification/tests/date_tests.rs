use sitesearch::datefmt::{civil_from_days, date_label, leap_year, month_days, weekday, year_days};

#[test]
fn epoch_day_is_thursday_first_of_january() {
    assert_eq!(date_label(0), Some(String::from("Thu 1 Jan")));
}

#[test]
fn a_wednesday_in_may() {
    // 2023-05-10T00:00:00Z
    assert_eq!(date_label(1683676800), Some(String::from("Wed 10 May")));
}

#[test]
fn time_of_day_is_discarded() {
    // 2023-05-10T17:33:20Z falls on the same label
    assert_eq!(date_label(1683740000), Some(String::from("Wed 10 May")));
}

#[test]
fn leap_day_of_2000() {
    // 2000-02-29T00:00:00Z
    assert_eq!(date_label(951782400), Some(String::from("Tue 29 Feb")));
}

#[test]
fn seconds_before_the_epoch_render_back_to_1600() {
    // 1969-12-31 was a Wednesday
    assert_eq!(date_label(-1), Some(String::from("Wed 31 Dec")));
    assert_eq!(date_label(-86400), Some(String::from("Wed 31 Dec")));
    // 1776-07-04 was a Thursday
    assert_eq!(date_label(-6106060800), Some(String::from("Thu 4 Jul")));
    // day zero, 1600-01-01, was a Saturday; one second earlier is out of range
    assert_eq!(date_label(-11676096000), Some(String::from("Sat 1 Jan")));
    assert_eq!(date_label(-11676096001), None);
    assert_eq!(date_label(i64::MIN), None);
}

#[test]
fn the_last_rendered_day() {
    // 9999-12-31
    assert_eq!(date_label(2932896 * 86400), Some(String::from("Fri 31 Dec")));
    // the first day of year 10000 is out of range
    assert_eq!(date_label(2932897 * 86400), None);
    assert_eq!(date_label(i64::MAX), None);
}

#[test]
fn civil_dates_of_known_day_counts() {
    // day counts run from 1600-01-01; the epoch is day 135140
    assert_eq!(civil_from_days(0), Some((1600, 1, 1)));
    assert_eq!(civil_from_days(59), Some((1600, 2, 29)));
    assert_eq!(civil_from_days(135140), Some((1970, 1, 1)));
    assert_eq!(civil_from_days(135140 + 19487), Some((2023, 5, 10)));
    assert_eq!(civil_from_days(135140 + 2932896), Some((9999, 12, 31)));
    assert_eq!(civil_from_days(135140 + 2932897), None);
}

#[test]
fn day_counts_round_trip_through_the_civil_date() {
    // recompute the day count independently and compare
    let mut total: u64 = 0;
    for days in [0u64, 58, 59, 60, 364, 366, 731, 135139, 135140, 154627, 3068036] {
        let (y, m, d) = civil_from_days(days).unwrap();
        let mut acc: u64 = 0;
        for year in 1600..y {
            acc += if leap(year) { 366 } else { 365 };
        }
        for month in 1..m {
            acc += month_len(y, month);
        }
        acc += d - 1;
        assert_eq!(acc, days);
        total += 1;
    }
    assert_eq!(total, 11);
}

fn leap(y: u64) -> bool {
    y % 4 == 0 && (y % 100 != 0 || y % 400 == 0)
}

fn month_len(y: u64, m: u64) -> u64 {
    match m {
        2 => {
            if leap(y) {
                29
            } else {
                28
            }
        }
        4 | 6 | 9 | 11 => 30,
        _ => 31,
    }
}

#[test]
fn year_and_month_lengths() {
    assert!(leap_year(2000));
    assert!(!leap_year(1900));
    assert!(leap_year(1996));
    assert!(!leap_year(1997));
    assert_eq!(year_days(2000), 366);
    assert_eq!(year_days(1900), 365);
    assert_eq!(month_days(2023, 2), 28);
    assert_eq!(month_days(2024, 2), 29);
    assert_eq!(month_days(2023, 12), 31);
}

#[test]
fn weekdays_cycle_from_saturday() {
    // day zero, 1600-01-01, was a Saturday; the epoch day was a Thursday
    assert_eq!(weekday(0), 6);
    assert_eq!(weekday(1), 0);
    assert_eq!(weekday(135140), 4);
    assert_eq!(weekday(135140 + 19487), 3);
}
