use swarmy_core::dates::{date_or_epoch, resolve_date, CalendarDate};

fn ymd(year: i32, month: u32, day: u32) -> CalendarDate {
    CalendarDate { year, month, day }
}

#[test]
fn well_formed_date_is_read() {
    assert_eq!(date_or_epoch("2024-01-02"), ymd(2024, 1, 2));
    assert_eq!(date_or_epoch("1999-12-31"), ymd(1999, 12, 31));
}

#[test]
fn leap_day_is_read() {
    assert_eq!(date_or_epoch("2024-02-29"), ymd(2024, 2, 29));
}

#[test]
fn malformed_date_becomes_epoch() {
    assert_eq!(date_or_epoch("not a date"), ymd(1970, 1, 1));
    assert_eq!(date_or_epoch(""), ymd(1970, 1, 1));
    assert_eq!(date_or_epoch("2024-13-01"), ymd(1970, 1, 1));
    assert_eq!(date_or_epoch("2023-02-29"), ymd(1970, 1, 1));
    assert_eq!(date_or_epoch("2024-01-02 trailing"), ymd(1970, 1, 1));
}

#[test]
fn epoch_is_first_day_of_1970() {
    assert_eq!(CalendarDate::epoch(), ymd(1970, 1, 1));
}

#[test]
fn resolve_date_substitutes_epoch() {
    assert_eq!(resolve_date(None), ymd(1970, 1, 1));
    assert_eq!(resolve_date(Some(ymd(2020, 5, 6))), ymd(2020, 5, 6));
}

#[test]
fn calendar_order_by_year_month_day() {
    assert!(ymd(2023, 12, 31).is_not_after(&ymd(2024, 1, 1)));
    assert!(!ymd(2024, 1, 1).is_not_after(&ymd(2023, 12, 31)));
    assert!(ymd(2024, 1, 31).is_not_after(&ymd(2024, 2, 1)));
    assert!(!ymd(2024, 2, 1).is_not_after(&ymd(2024, 1, 31)));
    assert!(ymd(2024, 2, 1).is_not_after(&ymd(2024, 2, 2)));
    assert!(!ymd(2024, 2, 2).is_not_after(&ymd(2024, 2, 1)));
    assert!(ymd(2024, 2, 2).is_not_after(&ymd(2024, 2, 2)));
}

#[test]
fn earlier_and_later_of_two_dates() {
    let a = ymd(2024, 1, 1);
    let b = ymd(2024, 1, 3);
    assert_eq!(a.earlier_of(b), a);
    assert_eq!(b.earlier_of(a), a);
    assert_eq!(a.later_of(b), b);
    assert_eq!(b.later_of(a), b);
    assert_eq!(a.earlier_of(a), a);
    assert_eq!(a.later_of(a), a);
}

#[test]
fn iso_text_of_common_dates() {
    assert_eq!(ymd(2024, 1, 3).to_iso_string(), "2024-01-03");
    assert_eq!(ymd(1970, 1, 1).to_iso_string(), "1970-01-01");
    assert_eq!(ymd(987, 11, 30).to_iso_string(), "0987-11-30");
    assert_eq!(ymd(0, 1, 1).to_iso_string(), "0000-01-01");
}

#[test]
fn iso_text_of_far_years_has_a_sign() {
    assert_eq!(ymd(10000, 1, 1).to_iso_string(), "+10000-01-01");
    assert_eq!(ymd(-1, 12, 31).to_iso_string(), "-0001-12-31");
    assert_eq!(ymd(-12345, 6, 7).to_iso_string(), "-12345-06-07");
    assert_eq!(ymd(i32::MIN, 1, 1).to_iso_string(), "-2147483648-01-01");
}

#[test]
fn iso_text_reads_back() {
    let date = ymd(2031, 7, 9);
    assert_eq!(date_or_epoch(&date.to_iso_string()), date);
}
