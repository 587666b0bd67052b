use dateselect::date::CalendarDate;
use dateselect::error::DateParseError;
use dateselect::month::get_month;
use dateselect::text::parse;
use time::format_description::BorrowedFormatItem;

fn pattern() -> Vec<BorrowedFormatItem<'static>> {
    time::format_description::parse_borrowed::<2>("[day]/[month]/[year]").unwrap()
}

fn theirs(date: CalendarDate) -> time::Date {
    time::Date::from_calendar_date(
        date.year(),
        time::Month::try_from(date.month().to_number()).unwrap(),
        date.day(),
    )
    .unwrap()
}

fn ours(date: time::Date) -> CalendarDate {
    CalendarDate::from_calendar_date(date.year(), get_month(u8::from(date.month())), date.day())
        .unwrap()
}

fn sweep() -> Vec<CalendarDate> {
    let mut dates = Vec::new();
    for year in [-9999, -1000, -1, 0, 1, 99, 100, 999, 1000, 1582, 1900, 2000, 2020, 2021, 9999] {
        for month in 1..=12u8 {
            for day in [1u8, 9, 10, 28, 29, 30, 31] {
                if let Ok(date) = CalendarDate::from_calendar_date(year, get_month(month), day) {
                    dates.push(date);
                }
            }
        }
    }
    dates
}

#[test]
fn format_writes_what_the_time_crate_writes_for_the_pattern() {
    let pattern = pattern();
    for date in sweep() {
        assert_eq!(
            dateselect::text::format(date),
            theirs(date).format(&pattern).unwrap()
        );
    }
}

#[test]
fn parse_reads_what_the_time_crate_writes_from_year_zero_on() {
    let pattern = pattern();
    for date in sweep() {
        let text = theirs(date).format(&pattern).unwrap();
        if date.year() >= 0 {
            assert_eq!(parse(&text), Ok(date));
        } else {
            assert_eq!(parse(&text), Err(DateParseError::PatternMismatch));
        }
    }
}

#[test]
fn the_time_crate_reads_what_format_writes() {
    let pattern = pattern();
    for date in sweep() {
        let text = dateselect::text::format(date);
        assert_eq!(time::Date::parse(&text, &pattern).map(ours), Ok(date));
    }
}

#[test]
fn parse_agrees_with_the_time_crate_on_unsigned_texts() {
    let pattern = pattern();
    let texts = [
        "01/08/2021",
        "29/02/2020",
        "29/02/2021",
        "29/02/1900",
        "29/02/2000",
        "31/04/2021",
        "31/12/9999",
        "01/01/0000",
        "00/01/2021",
        "32/01/2021",
        "01/00/2021",
        "01/13/2021",
        "99/99/9999",
        "1/8/2021",
        "01/8/2021",
        "01/08/21",
        "01/08/202",
        "01/08/20211",
        "01-08-2021",
        "01/08/2021 ",
        " 01/08/2021",
        "2021/08/01",
        "aa/bb/cccc",
        "0a/08/2021",
        "01/08/2o21",
        "",
        "//",
        "01/08/",
    ];
    for text in texts {
        let expected = time::Date::parse(text, &pattern).ok().map(ours);
        assert_eq!(parse(text).ok(), expected, "on {:?}", text);
    }
}

#[test]
fn parse_takes_no_sign_before_the_year() {
    let pattern = pattern();
    for text in ["01/08/+2021", "01/08/-2021", "01/01/-0001"] {
        assert!(time::Date::parse(text, &pattern).is_ok());
        assert_eq!(parse(text), Err(DateParseError::PatternMismatch));
    }
}
