use mailbridge::date::{has_calendar_form, parse_imap_date, DateError};

fn ok(date: &str) -> String {
    parse_imap_date(date).unwrap()
}

#[test]
fn documented_date() {
    assert_eq!(ok("2026-01-15"), "15-Jan-2026");
}

#[test]
fn every_month_has_its_name() {
    let names = [
        "Jan", "Feb", "Mar", "Apr", "May", "Jun", "Jul", "Aug", "Sep", "Oct", "Nov", "Dec",
    ];
    for (i, name) in names.iter().enumerate() {
        assert_eq!(ok(&format!("2026-{:02}-28", i + 1)), format!("28-{}-2026", name));
        assert_eq!(ok(&format!("2026-{}-28", i + 1)), format!("28-{}-2026", name));
    }
}

#[test]
fn day_loses_leading_zeros_and_white_space() {
    assert_eq!(ok("2026-03-05"), "5-Mar-2026");
    assert_eq!(ok("2026-03-0005"), "5-Mar-2026");
    assert_eq!(ok("2026-03-30"), "30-Mar-2026");
    assert_eq!(ok("2026-03-00"), "-Mar-2026");
    assert_eq!(ok("2026-03-0 7 "), "7-Mar-2026");
    assert_eq!(ok("2026-03- 07\u{a0}"), "07-Mar-2026");
}

#[test]
fn year_and_day_are_taken_as_they_stand() {
    assert_eq!(ok("-+12-x"), "x-Dec-");
    assert_eq!(ok("année-007-jour"), "jour-Jul-année");
}

#[test]
fn dates_of_other_than_three_parts_are_invalid() {
    for date in ["", "2026", "2026-01", "2026-01-15-", "2026-01-15-01", "15/01/2026"] {
        assert_eq!(parse_imap_date(date), Err(DateError::InvalidDate));
    }
    assert_eq!(DateError::InvalidDate.message(), "invalid date");
}

#[test]
fn month_must_be_a_number() {
    for date in ["2026--15", "2026-Jan-15", "2026- 1-15", "2026-99999999999999999999-15"] {
        assert_eq!(parse_imap_date(date), Err(DateError::InvalidMonth));
    }
    assert_eq!(DateError::InvalidMonth.message(), "invalid month");
}

#[test]
fn month_must_be_in_range() {
    for date in ["2026-00-15", "2026-13-15", "2026-4294967295-15"] {
        assert_eq!(parse_imap_date(date), Err(DateError::MonthOutOfRange));
    }
    assert_eq!(DateError::MonthOutOfRange.message(), "month out of range");
}

#[test]
fn calendar_form_is_digits_and_hyphens() {
    for date in ["2026-01-15", "0000-00-00", "9999-99-99"] {
        assert!(has_calendar_form(date));
    }
    for date in ["", "abcd-01-15", "2026-1-15", "2026/01/15", "2026-01-15x", "20260-1-15"] {
        assert!(!has_calendar_form(date));
    }
}
