use flatfile_pipeline::date::leap_year;
use flatfile_pipeline::date::month_length;
use flatfile_pipeline::date::DateKey;

#[test]
fn new_accepts_the_days_of_the_calendar() {
    let date = DateKey::new(2024, 3, 1).unwrap();
    assert_eq!((date.year(), date.month(), date.day()), (2024, 3, 1));
    assert!(DateKey::new(2024, 2, 29).is_some());
    assert!(DateKey::new(2024, 12, 31).is_some());
    assert!(DateKey::new(-1, 1, 1).is_some());
    assert!(DateKey::new(i32::MAX, 12, 31).is_some());
    assert!(DateKey::new(i32::MIN, 1, 1).is_some());
}

#[test]
fn new_refuses_what_is_no_day() {
    assert_eq!(DateKey::new(2023, 2, 29), None);
    assert_eq!(DateKey::new(2024, 2, 30), None);
    assert_eq!(DateKey::new(2024, 4, 31), None);
    assert_eq!(DateKey::new(2024, 0, 1), None);
    assert_eq!(DateKey::new(2024, 13, 1), None);
    assert_eq!(DateKey::new(2024, 1, 0), None);
    assert_eq!(DateKey::new(2024, 1, 32), None);
    assert_eq!(DateKey::new(1900, 2, 29), None);
}

#[test]
fn leap_years_follow_the_gregorian_rule() {
    assert!(leap_year(2024));
    assert!(leap_year(2000));
    assert!(leap_year(0));
    assert!(leap_year(-4));
    assert!(!leap_year(1900));
    assert!(!leap_year(2023));
    assert!(!leap_year(-1));
    assert!(!leap_year(-100));
    assert!(leap_year(-400));
}

#[test]
fn month_lengths() {
    assert_eq!(month_length(2024, 1), 31);
    assert_eq!(month_length(2024, 2), 29);
    assert_eq!(month_length(2023, 2), 28);
    assert_eq!(month_length(2024, 4), 30);
    assert_eq!(month_length(2024, 6), 30);
    assert_eq!(month_length(2024, 9), 30);
    assert_eq!(month_length(2024, 11), 30);
    assert_eq!(month_length(2024, 12), 31);
}

#[test]
fn parse_reads_year_month_and_day() {
    assert_eq!(DateKey::parse("2024-03-01"), DateKey::new(2024, 3, 1));
    assert_eq!(DateKey::parse("1999-12-31"), DateKey::new(1999, 12, 31));
    assert_eq!(DateKey::parse("2024-02-29"), DateKey::new(2024, 2, 29));
}

#[test]
fn parse_refuses_what_spells_no_date() {
    assert_eq!(DateKey::parse("not-a-date"), None);
    assert_eq!(DateKey::parse(""), None);
    assert_eq!(DateKey::parse("2024-03"), None);
    assert_eq!(DateKey::parse("2024-02-30"), None);
    assert_eq!(DateKey::parse("2024-13-01"), None);
    assert_eq!(DateKey::parse("2024-03-01x"), None);
    assert_eq!(DateKey::parse("2024/03/01"), None);
}

#[test]
fn code_tells_dates_apart() {
    let a = DateKey::new(2024, 3, 1).unwrap();
    let b = DateKey::new(2024, 3, 2).unwrap();
    let c = DateKey::new(2024, 1, 31).unwrap();
    let d = DateKey::new(-2024, 3, 1).unwrap();
    assert_eq!(a.code(), 20240301);
    assert_eq!(b.code(), 20240302);
    assert_eq!(c.code(), 20240131);
    assert_eq!(d.code(), -20239699);
    assert_ne!(a.code(), b.code());
}
