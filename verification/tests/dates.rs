use publication_api::date::{Date, DateParts};
use publication_api::text::decimal_string;

fn parts(year: u16, month: u8, day: u8, hour: u8, minute: u8, second: u8) -> DateParts {
    DateParts { year, month, day, hour, minute, second }
}

#[test]
fn parse_dot_date() {
    let d = Date::parse("01.04.2024").unwrap();
    assert_eq!(d.parts(), parts(2024, 4, 1, 0, 0, 0));
    let d = Date::parse("13.12.2024").unwrap();
    assert_eq!(d.parts(), parts(2024, 12, 13, 0, 0, 0));
}

#[test]
fn parse_iso_date_time() {
    let d = Date::parse("2024-06-22T00:00:00").unwrap();
    assert_eq!(d.parts(), parts(2024, 6, 22, 0, 0, 0));
    let d = Date::parse("2023-12-31T23:59:58").unwrap();
    assert_eq!(d.parts(), parts(2023, 12, 31, 23, 59, 58));
}

#[test]
fn parse_rejects_other_text() {
    assert!(Date::parse("").is_none());
    assert!(Date::parse("2024-06-22").is_none());
    assert!(Date::parse("1.04.2024").is_none());
    assert!(Date::parse("01-04-2024").is_none());
    assert!(Date::parse("0a.04.2024").is_none());
    assert!(Date::parse("2024-06-22 00:00:00").is_none());
    assert!(Date::parse("01.04.2024 ").is_none());
}

#[test]
fn parse_rejects_days_that_do_not_exist() {
    assert!(Date::parse("31.02.2024").is_none());
    assert!(Date::parse("29.02.2023").is_none());
    assert!(Date::parse("29.02.2024").is_some());
    assert!(Date::parse("29.02.1900").is_none());
    assert!(Date::parse("29.02.2000").is_some());
    assert!(Date::parse("31.04.2024").is_none());
    assert!(Date::parse("00.01.2024").is_none());
    assert!(Date::parse("01.13.2024").is_none());
    assert!(Date::parse("2024-01-01T24:00:00").is_none());
    assert!(Date::parse("2024-01-01T23:60:00").is_none());
    assert!(Date::parse("2024-01-01T23:00:60").is_none());
}

#[test]
fn format_dot_date_pads_with_zeros() {
    let d = Date::parse("2024-06-02T10:11:12").unwrap();
    assert_eq!(d.format_dot_date(), "02.06.2024");
    let d = Date::parse("05.07.0987").unwrap();
    assert_eq!(d.format_dot_date(), "05.07.0987");
}

#[test]
fn dot_date_round_trip() {
    for s in ["01.01.2024", "31.12.1999", "29.02.2024", "15.08.0001"] {
        let d = Date::parse(s).unwrap();
        assert_eq!(d.format_dot_date(), s);
        assert_eq!(Date::parse(&d.format_dot_date()).unwrap(), d);
    }
    let d = Date::parse("2024-06-22T13:14:15").unwrap();
    let back = Date::parse(&d.format_dot_date()).unwrap();
    assert_eq!(back.parts(), parts(2024, 6, 22, 0, 0, 0));
}

#[test]
fn decimal_strings() {
    assert_eq!(decimal_string(0), "0");
    assert_eq!(decimal_string(7), "7");
    assert_eq!(decimal_string(10), "10");
    assert_eq!(decimal_string(169841), "169841");
    assert_eq!(decimal_string(u32::MAX), "4294967295");
}
