use tasks_mine::date::{parse_calendar_date, parse_moment, CalendarDate, Moment, Timestamp};

fn ymd(year: i32, month: u32, day: u32) -> CalendarDate {
    CalendarDate { year, month, day }
}

#[test]
fn a_date_alone_is_read() {
    assert_eq!(parse_calendar_date("2026-01-21"), Some(ymd(2026, 1, 21)));
    assert_eq!(parse_calendar_date("2024-02-29"), Some(ymd(2024, 2, 29)));
}

#[test]
fn a_date_with_a_time_is_read() {
    assert_eq!(parse_calendar_date("2026-01-21 10:00:00"), Some(ymd(2026, 1, 21)));
    assert_eq!(parse_calendar_date("2026-12-31 23:59:59"), Some(ymd(2026, 12, 31)));
}

#[test]
fn an_rfc_3339_timestamp_is_read() {
    assert_eq!(parse_calendar_date("2026-01-21T10:00:00Z"), Some(ymd(2026, 1, 21)));
    assert_eq!(parse_calendar_date("2026-01-21T10:00:00.123456+00:00"), Some(ymd(2026, 1, 21)));
}

#[test]
fn an_rfc_3339_timestamp_counts_by_its_day_in_utc() {
    assert_eq!(parse_calendar_date("2026-01-21T23:30:00-02:00"), Some(ymd(2026, 1, 22)));
    assert_eq!(parse_calendar_date("2026-01-21T00:30:00+08:00"), Some(ymd(2026, 1, 20)));
    assert_eq!(parse_calendar_date("2026-01-01T00:00:00+01:00"), Some(ymd(2025, 12, 31)));
}

#[test]
fn what_is_no_date_names_no_day() {
    assert_eq!(parse_calendar_date(""), None);
    assert_eq!(parse_calendar_date("not a date"), None);
    assert_eq!(parse_calendar_date("2026-02-30"), None);
    assert_eq!(parse_calendar_date("2026-13-01"), None);
    assert_eq!(parse_calendar_date("2025-02-29"), None);
    assert_eq!(parse_calendar_date("2026-01-21 25:00:00"), None);
    assert_eq!(parse_calendar_date("2026/01/21"), None);
    assert_eq!(parse_calendar_date("2026-01-21 trailing"), None);
}

fn at(year: i32, month: u32, day: u32, second: u32) -> Moment {
    Moment { date: ymd(year, month, day), second }
}

#[test]
fn a_moment_is_the_day_and_the_second_of_the_day() {
    assert_eq!(parse_moment("2026-01-21 10:00:00"), Some(at(2026, 1, 21, 36000)));
    assert_eq!(parse_moment("2026-01-21 00:00:00"), Some(at(2026, 1, 21, 0)));
    assert_eq!(parse_moment("2026-01-21 23:59:59"), Some(at(2026, 1, 21, 86399)));
    assert_eq!(parse_moment("2026-01-21 01:02:03"), Some(at(2026, 1, 21, 3723)));
    assert_eq!(parse_moment("2026-01-21T10:00:00Z"), Some(at(2026, 1, 21, 36000)));
    assert_eq!(parse_moment("2026-01-21T10:00:00.75Z"), Some(at(2026, 1, 21, 36000)));
}

#[test]
fn a_date_alone_is_its_midnight() {
    assert_eq!(parse_moment("2026-01-21"), Some(at(2026, 1, 21, 0)));
    assert_eq!(parse_moment("2026-01-21"), parse_moment("2026-01-21 00:00:00"));
}

#[test]
fn an_offset_is_taken_into_the_instant() {
    assert_eq!(parse_moment("2026-01-21T23:30:00-02:00"), Some(at(2026, 1, 22, 5400)));
    assert_eq!(parse_moment("2026-01-21T00:30:00+08:00"), Some(at(2026, 1, 20, 59400)));
    assert_eq!(parse_moment("2026-01-21T10:00:00+00:00"), Some(at(2026, 1, 21, 36000)));
    assert_eq!(parse_moment("2024-03-01T00:00:00+01:00"), Some(at(2024, 2, 29, 82800)));
}

#[test]
fn what_is_no_timestamp_names_no_moment() {
    for text in ["", "soon", "2026-02-30", "2026-01-21 24:00:00", "2026-01-21T10:00:00", "21.01.2026"] {
        assert_eq!(parse_moment(text), None);
    }
}

#[test]
fn two_spellings_of_one_instant_have_one_normal_form() {
    let spellings = [
        "2026-01-21T10:00:00Z",
        "2026-01-21 10:00:00",
        "2026-01-21T10:00:00+00:00",
        "2026-01-21t10:00:00z",
        "2026-01-21T12:00:00+02:00",
        "2026-01-21T04:30:00-05:30",
        "2026-01-21 10:00:00Z",
        "2026-01-21T10:00:00.000Z",
    ];
    for text in spellings {
        let normal = Timestamp::normalize(text);
        assert_eq!(normal.moment(), Some(at(2026, 1, 21, 36000)));
        assert_eq!(normal.date(), Some(ymd(2026, 1, 21)));
        assert_eq!(normal.unreadable(), None);
    }
}

#[test]
fn a_timestamp_that_names_no_instant_keeps_its_text() {
    let unreadable = Timestamp::normalize("soon");
    assert_eq!(unreadable.moment(), None);
    assert_eq!(unreadable.date(), None);
    assert_eq!(unreadable.unreadable(), Some("soon"));
    let empty = Timestamp::normalize("");
    assert_eq!(empty.moment(), None);
    assert_eq!(empty.unreadable(), Some(""));
    let copy = unreadable.clone();
    assert_eq!(copy.moment(), None);
    assert_eq!(copy.unreadable(), Some("soon"));
}

#[test]
fn a_timestamp_of_a_moment_holds_it() {
    let stamp = Timestamp::at(at(2026, 1, 21, 36000));
    assert_eq!(stamp.moment(), Some(at(2026, 1, 21, 36000)));
    assert_eq!(stamp.date(), Some(ymd(2026, 1, 21)));
    assert_eq!(stamp.unreadable(), None);
    let copy = stamp.clone();
    assert_eq!(copy.moment(), Some(at(2026, 1, 21, 36000)));
    assert_eq!(Timestamp::normalize("2026-01-21 10:00:00").moment(), stamp.moment());
}

#[test]
fn days_are_ordered_by_year_then_month_then_day() {
    let d = ymd(2026, 6, 15);
    assert!(d.is_not_after(&d));
    assert!(d.is_not_after(&ymd(2026, 6, 16)));
    assert!(!d.is_not_after(&ymd(2026, 6, 14)));
    assert!(d.is_not_after(&ymd(2026, 7, 1)));
    assert!(!d.is_not_after(&ymd(2026, 5, 31)));
    assert!(d.is_not_after(&ymd(2027, 1, 1)));
    assert!(!d.is_not_after(&ymd(2025, 12, 31)));
    assert!(ymd(-1, 12, 31).is_not_after(&ymd(0, 1, 1)));
}

#[test]
fn within_includes_both_ends() {
    let start = ymd(2026, 1, 20);
    let end = ymd(2026, 1, 25);
    assert!(ymd(2026, 1, 20).is_within(&start, &end));
    assert!(ymd(2026, 1, 25).is_within(&start, &end));
    assert!(ymd(2026, 1, 22).is_within(&start, &end));
    assert!(!ymd(2026, 1, 19).is_within(&start, &end));
    assert!(!ymd(2026, 1, 26).is_within(&start, &end));
    assert!(!ymd(2026, 1, 22).is_within(&end, &start));
}
