use dateselect::date::CalendarDate;
use dateselect::month::{get_month, Month};

fn ymd(year: i32, month: u8, day: u8) -> CalendarDate {
    CalendarDate::from_calendar_date(year, get_month(month), day).unwrap()
}

fn floor_div(a: i64, b: i64) -> i64 {
    a.div_euclid(b)
}

fn is_leap_year(year: i64) -> bool {
    year.rem_euclid(4) == 0 && (year.rem_euclid(100) != 0 || year.rem_euclid(400) == 0)
}

fn days_in_month(year: i64, month: i64) -> i64 {
    if month == 2 {
        if is_leap_year(year) {
            29
        } else {
            28
        }
    } else if month == 4 || month == 6 || month == 9 || month == 11 {
        30
    } else {
        31
    }
}

fn days_before_month(year: i64, month: i64) -> i64 {
    (1..month).map(|m| days_in_month(year, m)).sum()
}

fn days_before_year(year: i64) -> i64 {
    365 * (year - 1) + floor_div(year - 1, 4) - floor_div(year - 1, 100)
        + floor_div(year - 1, 400)
}

fn julian_day(year: i64, month: i64, day: i64) -> i64 {
    days_before_year(year) + days_before_month(year, month) + day + 1_721_425
}

fn julian_day_of(date: CalendarDate) -> i64 {
    julian_day(
        i64::from(date.year()),
        i64::from(date.month().to_number()),
        i64::from(date.day()),
    )
}

fn time_date(year: i32, month: u8, day: u8) -> time::Date {
    time::Date::from_calendar_date(year, time::Month::try_from(month).unwrap(), day).unwrap()
}

#[test]
fn month_lengths_are_those_of_the_time_crate() {
    for year in -9999..=9999 {
        for month in 1..=12u8 {
            let length = time::util::days_in_month(time::Month::try_from(month).unwrap(), year);
            assert_eq!(
                i64::from(length),
                days_in_month(i64::from(year), i64::from(month))
            );
            assert!(CalendarDate::from_calendar_date(year, get_month(month), length).is_ok());
            assert!(CalendarDate::from_calendar_date(year, get_month(month), length + 1).is_err());
        }
    }
}

#[test]
fn day_numbers_are_the_julian_days_of_the_time_crate() {
    assert_eq!(julian_day(2000, 1, 1), 2_451_545);
    assert_eq!(julian_day(-4713, 11, 24), 0);
    assert_eq!(julian_day(2019, 12, 31), 2_458_849);
    for year in -9999..=9999 {
        for (month, day) in [(1u8, 1u8), (2, 28), (3, 1), (12, 31)] {
            assert_eq!(
                i64::from(time_date(year, month, day).to_julian_day()),
                julian_day(i64::from(year), i64::from(month), i64::from(day))
            );
        }
    }
    for year in [-9999, -400, -1, 0, 1, 1900, 2000, 2020, 2021, 9999] {
        for month in 1..=12u8 {
            for day in 1..=time::util::days_in_month(time::Month::try_from(month).unwrap(), year) {
                assert_eq!(
                    i64::from(time_date(year, month, day).to_julian_day()),
                    julian_day(i64::from(year), i64::from(month), i64::from(day))
                );
            }
        }
    }
}

#[test]
fn the_range_of_day_numbers_is_that_of_the_time_crate() {
    assert_eq!(time::Date::MIN, time_date(-9999, 1, 1));
    assert_eq!(time::Date::MAX, time_date(9999, 12, 31));
    assert_eq!(
        i64::from(time::Date::MIN.to_julian_day()),
        julian_day(-9999, 1, 1)
    );
    assert_eq!(
        i64::from(time::Date::MAX.to_julian_day()),
        julian_day(9999, 12, 31)
    );
}

#[test]
fn add_days_adds_to_the_day_number() {
    let starts = [
        ymd(-9999, 1, 1),
        ymd(-1, 12, 31),
        ymd(0, 2, 29),
        ymd(1900, 2, 28),
        ymd(2000, 2, 29),
        ymd(2021, 8, 1),
        ymd(2021, 12, 31),
        ymd(9999, 12, 31),
    ];
    let counts = [
        i32::MIN, -8_000_000, -7_304_483, -3_652_059, -366, -365, -31, -7, -1, 0, 1, 7, 28, 29,
        30, 31, 365, 366, 36_524, 146_097, 3_652_059, 7_304_483, 8_000_000, i32::MAX,
    ];
    let first = julian_day(-9999, 1, 1);
    let last = julian_day(9999, 12, 31);
    for start in starts {
        for days in counts {
            let target = julian_day_of(start) + i64::from(days);
            match start.checked_add_days(days) {
                Some(sum) => {
                    assert!(first <= target && target <= last);
                    assert_eq!(julian_day_of(sum), target);
                }
                None => assert!(target < first || last < target),
            }
        }
    }
}

#[test]
fn the_order_of_dates_is_the_order_of_day_numbers() {
    let dates = [
        ymd(-9999, 1, 1),
        ymd(-1, 12, 31),
        ymd(0, 1, 1),
        ymd(2020, 2, 29),
        ymd(2020, 3, 1),
        ymd(2020, 12, 31),
        ymd(2021, 1, 1),
        ymd(2021, 1, 31),
        ymd(2021, 2, 1),
        ymd(9999, 12, 31),
    ];
    for a in dates {
        for b in dates {
            assert_eq!(a < b, julian_day_of(a) < julian_day_of(b));
            assert_eq!(a == b, julian_day_of(a) == julian_day_of(b));
            assert_eq!(a.cmp(&b), julian_day_of(a).cmp(&julian_day_of(b)));
            assert_eq!(
                a.cmp(&b),
                time_date(a.year(), a.month().to_number(), a.day()).cmp(&time_date(
                    b.year(),
                    b.month().to_number(),
                    b.day()
                ))
            );
        }
    }
}

#[test]
fn months_are_numbered_as_in_the_time_crate() {
    for n in 1..=12u8 {
        let month: Month = get_month(n);
        let theirs = time::Month::try_from(n).unwrap();
        assert_eq!(month.to_number(), u8::from(theirs));
        assert_eq!(format!("{:?}", month), format!("{:?}", theirs));
    }
}
