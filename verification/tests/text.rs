use dateselect::date::CalendarDate;
use dateselect::error::DateParseError;
use dateselect::month::Month;
use dateselect::text::parse;

fn ymd(year: i32, month: Month, day: u8) -> CalendarDate {
    CalendarDate::from_calendar_date(year, month, day).unwrap()
}

const MONTHS: [Month; 12] = [
    Month::January,
    Month::February,
    Month::March,
    Month::April,
    Month::May,
    Month::June,
    Month::July,
    Month::August,
    Month::September,
    Month::October,
    Month::November,
    Month::December,
];

#[test]
fn parse_reads_day_month_year() {
    assert_eq!(parse("01/08/2021"), Ok(ymd(2021, Month::August, 1)));
    assert_eq!(parse("31/12/9999"), Ok(ymd(9999, Month::December, 31)));
    assert_eq!(parse("01/01/0000"), Ok(ymd(0, Month::January, 1)));
    assert_eq!(parse("29/02/2020"), Ok(ymd(2020, Month::February, 29)));
    assert_eq!(parse("29/02/0000"), Ok(ymd(0, Month::February, 29)));
    assert_eq!(parse("15/10/1582"), Ok(ymd(1582, Month::October, 15)));
    assert_eq!(parse("09/09/0909"), Ok(ymd(909, Month::September, 9)));
}

#[test]
fn parse_rejects_a_wrong_separator() {
    assert_eq!(parse("01-08-2021"), Err(DateParseError::PatternMismatch));
    assert_eq!(parse("01/08-2021"), Err(DateParseError::PatternMismatch));
    assert_eq!(parse("01.08.2021"), Err(DateParseError::PatternMismatch));
    assert_eq!(parse("01 08 2021"), Err(DateParseError::PatternMismatch));
    assert_eq!(parse("0108/20211"), Err(DateParseError::PatternMismatch));
}

#[test]
fn parse_rejects_what_is_not_a_digit() {
    assert_eq!(parse("aa/08/2021"), Err(DateParseError::PatternMismatch));
    assert_eq!(parse("01/0x/2021"), Err(DateParseError::PatternMismatch));
    assert_eq!(parse("01/08/20a1"), Err(DateParseError::PatternMismatch));
    assert_eq!(parse("01/08/-021"), Err(DateParseError::PatternMismatch));
    assert_eq!(parse("01/08/+021"), Err(DateParseError::PatternMismatch));
    assert_eq!(parse(" 1/08/2021"), Err(DateParseError::PatternMismatch));
    assert_eq!(parse("01/08/202:"), Err(DateParseError::PatternMismatch));
    assert_eq!(parse("0//08/2021"), Err(DateParseError::PatternMismatch));
    assert_eq!(parse("٠١/08/20"), Err(DateParseError::PatternMismatch));
    assert_eq!(parse("01/08/202１"), Err(DateParseError::PatternMismatch));
    assert_eq!(parse("é1/08/202"), Err(DateParseError::PatternMismatch));
}

#[test]
fn parse_rejects_a_wrong_count_of_fields_or_digits() {
    assert_eq!(parse(""), Err(DateParseError::PatternMismatch));
    assert_eq!(parse("1/8/2021"), Err(DateParseError::PatternMismatch));
    assert_eq!(parse("01/08/21"), Err(DateParseError::PatternMismatch));
    assert_eq!(parse("01/08/02021"), Err(DateParseError::PatternMismatch));
    assert_eq!(parse("01/08/2021 "), Err(DateParseError::PatternMismatch));
    assert_eq!(parse("01/08/2021/"), Err(DateParseError::PatternMismatch));
    assert_eq!(parse("01/08"), Err(DateParseError::PatternMismatch));
    assert_eq!(parse("2021/08/01"), Err(DateParseError::PatternMismatch));
    assert_eq!(parse("01/08/-0001"), Err(DateParseError::PatternMismatch));
}

#[test]
fn parse_rejects_months_and_days_out_of_range() {
    assert_eq!(parse("01/00/2021"), Err(DateParseError::MonthOutOfRange));
    assert_eq!(parse("01/13/2021"), Err(DateParseError::MonthOutOfRange));
    assert_eq!(parse("99/99/2021"), Err(DateParseError::MonthOutOfRange));
    assert_eq!(parse("00/01/2021"), Err(DateParseError::DayOutOfRange));
    assert_eq!(parse("32/01/2021"), Err(DateParseError::DayOutOfRange));
    assert_eq!(parse("31/04/2021"), Err(DateParseError::DayOutOfRange));
    assert_eq!(parse("29/02/2021"), Err(DateParseError::DayOutOfRange));
    assert_eq!(parse("29/02/1900"), Err(DateParseError::DayOutOfRange));
    assert_eq!(parse("30/02/2020"), Err(DateParseError::DayOutOfRange));
    assert_eq!(parse("99/12/2021"), Err(DateParseError::DayOutOfRange));
}

#[test]
fn format_pads_with_zeros() {
    assert_eq!(dateselect::text::format(ymd(2021, Month::August, 1)), "01/08/2021");
    assert_eq!(dateselect::text::format(ymd(2021, Month::December, 31)), "31/12/2021");
    assert_eq!(dateselect::text::format(ymd(7, Month::March, 9)), "09/03/0007");
    assert_eq!(dateselect::text::format(ymd(0, Month::January, 1)), "01/01/0000");
    assert_eq!(dateselect::text::format(ymd(9999, Month::December, 31)), "31/12/9999");
    assert_eq!(dateselect::text::format(ymd(1905, Month::October, 10)), "10/10/1905");
}

#[test]
fn format_writes_a_sign_before_years_below_zero() {
    let date = ymd(-1, Month::January, 1);
    let text = dateselect::text::format(date);
    assert_eq!(text, "01/01/-0001");
    assert_eq!(parse(&text), Err(DateParseError::PatternMismatch));
    assert_eq!(dateselect::text::format(ymd(-9999, Month::December, 31)), "31/12/-9999");
}

#[test]
fn parse_undoes_format() {
    for year in [0, 1, 9, 10, 99, 100, 999, 1000, 1900, 2000, 2020, 2021, 9999] {
        for month in MONTHS {
            for day in 1..=31u8 {
                if let Ok(date) = CalendarDate::from_calendar_date(year, month, day) {
                    let text = dateselect::text::format(date);
                    assert_eq!(text.len(), 10);
                    assert_eq!(parse(&text), Ok(date));
                }
            }
        }
    }
}

#[test]
fn format_undoes_parse() {
    for text in ["01/08/2021", "29/02/2020", "31/12/9999", "01/01/0000", "10/10/1010"] {
        assert_eq!(dateselect::text::format(parse(text).unwrap()), text);
    }
}
