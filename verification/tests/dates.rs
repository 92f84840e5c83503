use expense_tracker::date::Date;
use expense_tracker::date::MAX_YEAR;
use expense_tracker::date::MIN_YEAR;
use expense_tracker::error::LedgerError;

#[test]
fn from_ymd_keeps_the_fields() {
    let date = Date::from_ymd(2025, 1, 10).unwrap();
    assert_eq!(date.year(), 2025);
    assert_eq!(date.month(), 1);
    assert_eq!(date.day(), 10);
}

#[test]
fn from_ymd_knows_the_length_of_each_month() {
    let lengths = [31, 28, 31, 30, 31, 30, 31, 31, 30, 31, 30, 31];
    for (index, length) in lengths.iter().enumerate() {
        let month = index as u32 + 1;
        assert!(Date::from_ymd(2023, month, *length).is_some());
        assert!(Date::from_ymd(2023, month, *length + 1).is_none());
    }
}

#[test]
fn from_ymd_follows_the_leap_year_rule() {
    assert!(Date::from_ymd(2024, 2, 29).is_some());
    assert!(Date::from_ymd(2023, 2, 29).is_none());
    assert!(Date::from_ymd(2000, 2, 29).is_some());
    assert!(Date::from_ymd(1900, 2, 29).is_none());
    assert!(Date::from_ymd(0, 2, 29).is_some());
    assert!(Date::from_ymd(-4, 2, 29).is_some());
    assert!(Date::from_ymd(-1, 2, 29).is_none());
    assert!(Date::from_ymd(-100, 2, 29).is_none());
    assert!(Date::from_ymd(-400, 2, 29).is_some());
}

#[test]
fn from_ymd_refuses_month_and_day_out_of_range() {
    assert!(Date::from_ymd(2025, 0, 1).is_none());
    assert!(Date::from_ymd(2025, 13, 1).is_none());
    assert!(Date::from_ymd(2025, 1, 0).is_none());
    assert!(Date::from_ymd(2025, 1, 32).is_none());
    assert!(Date::from_ymd(2025, u32::MAX, 1).is_none());
    assert!(Date::from_ymd(2025, 1, u32::MAX).is_none());
}

#[test]
fn from_ymd_stops_at_the_ends_of_the_calendar() {
    assert!(Date::from_ymd(MIN_YEAR, 1, 1).is_some());
    assert!(Date::from_ymd(MAX_YEAR, 12, 31).is_some());
    assert!(Date::from_ymd(MIN_YEAR - 1, 12, 31).is_none());
    assert!(Date::from_ymd(MAX_YEAR + 1, 1, 1).is_none());
    assert!(Date::from_ymd(i32::MIN, 1, 1).is_none());
    assert!(Date::from_ymd(i32::MAX, 1, 1).is_none());
}

#[test]
fn parse_reads_year_month_and_day() {
    let date = Date::parse("2025-01-10").unwrap();
    assert_eq!(date.year(), 2025);
    assert_eq!(date.month(), 1);
    assert_eq!(date.day(), 10);
    assert_eq!(Date::parse("2025-12-31"), Ok(Date::from_ymd(2025, 12, 31).unwrap()));
    assert_eq!(Date::parse("2024-02-29"), Ok(Date::from_ymd(2024, 2, 29).unwrap()));
}

#[test]
fn parse_refuses_what_is_no_date() {
    assert_eq!(Date::parse(""), Err(LedgerError::InvalidArgument));
    assert_eq!(Date::parse("yesterday"), Err(LedgerError::InvalidArgument));
    assert_eq!(Date::parse("2025-13-01"), Err(LedgerError::InvalidArgument));
    assert_eq!(Date::parse("2025-02-30"), Err(LedgerError::InvalidArgument));
    assert_eq!(Date::parse("2023-02-29"), Err(LedgerError::InvalidArgument));
    assert_eq!(Date::parse("2025/01/10"), Err(LedgerError::InvalidArgument));
    assert_eq!(Date::parse("2025-01"), Err(LedgerError::InvalidArgument));
    assert_eq!(Date::parse("2025-01-10 and more"), Err(LedgerError::InvalidArgument));
}

#[test]
fn dates_compare_by_their_fields() {
    let day = Date::from_ymd(2025, 1, 10).unwrap();
    assert_eq!(day, Date::from_ymd(2025, 1, 10).unwrap());
    assert_ne!(day, Date::from_ymd(2025, 1, 11).unwrap());
    assert_ne!(day, Date::from_ymd(2025, 2, 10).unwrap());
    assert_ne!(day, Date::from_ymd(2024, 1, 10).unwrap());
    let copy = day;
    assert_eq!(copy, day);
}
