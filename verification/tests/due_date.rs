use doist::api::rest::task::{
    CalendarDate, DueDate, DueDateFormatter, DueLayout, DueTone, UtcDateTime,
};
use doist::paint::{paint, Paint};

fn due(date: &str, timezone: Option<&str>, recurring: bool) -> DueDate {
    DueDate {
        string: "tomorrow".to_string(),
        date: date.to_string(),
        is_recurring: recurring,
        timezone: timezone.map(|t| t.to_string()),
        lang: None,
    }
}

fn day(year: i32, month: u32, day: u32) -> CalendarDate {
    CalendarDate { year, month, day }
}

#[test]
fn naive_date_reads_date_only_values() {
    assert_eq!(due("2022-08-27", None, false).naive_date(), Some(day(2022, 8, 27)));
}

#[test]
fn naive_date_reads_floating_date_times() {
    assert_eq!(
        due("2022-08-27T12:30:00.000000", None, false).naive_date(),
        Some(day(2022, 8, 27))
    );
}

#[test]
fn naive_date_reads_fixed_zone_date_times() {
    assert_eq!(due("2022-08-27T12:30:00Z", None, false).naive_date(), Some(day(2022, 8, 27)));
}

#[test]
fn naive_date_rejects_invalid_dates() {
    assert_eq!(due("2022-13-27", None, false).naive_date(), None);
    assert_eq!(due("2022-02-30", None, false).naive_date(), None);
    assert_eq!(due("not a date", None, false).naive_date(), None);
}

#[test]
fn naive_date_rejects_short_strings() {
    assert_eq!(due("2022-08", None, false).naive_date(), None);
    assert_eq!(due("", None, false).naive_date(), None);
}

#[test]
fn naive_date_rejects_a_cut_inside_a_character() {
    // The tenth and eleventh bytes belong to one two-byte character.
    assert_eq!(due("2022-08-2\u{e9}", None, false).naive_date(), None);
    // A multi-byte character after the tenth byte does not matter.
    assert_eq!(due("2022-08-27\u{e9}", None, false).naive_date(), Some(day(2022, 8, 27)));
}

#[test]
fn display_date_with_timezone() {
    assert_eq!(
        due("2022-08-27", Some("Europe/Athens"), false).display_date(),
        "2022-08-27 Europe/Athens"
    );
}

#[test]
fn display_date_without_timezone() {
    assert_eq!(due("2022-08-27", None, false).display_date(), "2022-08-27");
}

#[test]
fn calendar_dates_compare_chronologically() {
    assert!(day(2022, 8, 27).is_on_or_after(&day(2022, 8, 27)));
    assert!(day(2022, 8, 28).is_on_or_after(&day(2022, 8, 27)));
    assert!(day(2023, 1, 1).is_on_or_after(&day(2022, 12, 31)));
    assert!(!day(2022, 7, 31).is_on_or_after(&day(2022, 8, 1)));
    assert!(!day(-1, 12, 31).is_on_or_after(&day(0, 1, 1)));
}

#[test]
fn layout_of_loose_due_date_uses_human_string() {
    let d = due("2022-08-27", None, false);
    let l = DueLayout::decide(&d, d.naive_date(), Some(day(2022, 8, 27)));
    assert_eq!(
        l,
        DueLayout { repeat: false, text: "tomorrow".to_string(), tone: DueTone::Upcoming }
    );
    let l = DueLayout::decide(&d, d.naive_date(), Some(day(2022, 8, 28)));
    assert_eq!(l.tone, DueTone::Overdue);
}

#[test]
fn layout_of_exact_due_date_uses_date_and_timezone() {
    let d = due("2022-08-27T10:00:00", Some("UTC"), true);
    let l = DueLayout::decide(&d, d.naive_date(), Some(day(2022, 8, 1)));
    assert_eq!(
        l,
        DueLayout {
            repeat: true,
            text: "2022-08-27T10:00:00 UTC".to_string(),
            tone: DueTone::Upcoming
        }
    );
}

#[test]
fn layout_of_unreadable_date_is_plain() {
    let d = due("someday", None, false);
    let l = DueLayout::decide(&d, d.naive_date(), Some(day(2022, 8, 1)));
    assert_eq!(l.tone, DueTone::Plain);
    assert_eq!(l.text, "tomorrow");
}

#[test]
fn formatter_paints_overdue_dates_red() {
    let d = DueDate {
        string: "yesterday".to_string(),
        date: "2024-05-09".to_string(),
        is_recurring: false,
        timezone: None,
        lang: None,
    };
    let now = UtcDateTime { seconds: 1715299200, nanoseconds: 0 }; // 2024-05-10 00:00 UTC
    let f = DueDateFormatter(&d, &now);
    assert_eq!(f.display_string(true), "\x1b[91myesterday\x1b[39m");
    assert_eq!(f.display_string(false), "yesterday");
}

#[test]
fn formatter_paints_dates_due_today_green() {
    let d = DueDate {
        string: "today".to_string(),
        date: "2024-05-10".to_string(),
        is_recurring: false,
        timezone: None,
        lang: None,
    };
    let now = UtcDateTime { seconds: 1715365800, nanoseconds: 0 }; // 2024-05-10 18:30 UTC
    assert_eq!(DueDateFormatter(&d, &now).display_string(true), "\x1b[92mtoday\x1b[39m");
    assert_eq!(paint("today", Paint::BrightGreen), "\x1b[92mtoday\x1b[39m");
}

#[test]
fn formatter_marks_recurring_dates() {
    let d = DueDate {
        string: "every day".to_string(),
        date: "2024-05-12".to_string(),
        is_recurring: true,
        timezone: None,
        lang: Some("en".to_string()),
    };
    let now = UtcDateTime { seconds: 1715342400, nanoseconds: 0 }; // 2024-05-10 12:00 UTC
    let f = DueDateFormatter(&d, &now);
    assert_eq!(f.display_string(false), "[REPEAT] every day");
    assert_eq!(f.display_string(true), "\u{1f501} \x1b[92mevery day\x1b[39m");
}

#[test]
fn formatter_shows_exact_time_with_timezone() {
    let d = DueDate {
        string: "tomorrow at 9am".to_string(),
        date: "2024-05-11T09:00:00".to_string(),
        is_recurring: false,
        timezone: Some("Europe/Athens".to_string()),
        lang: None,
    };
    let now = UtcDateTime { seconds: 1715342400, nanoseconds: 0 }; // 2024-05-10 12:00 UTC
    let f = DueDateFormatter(&d, &now);
    assert_eq!(f.display_string(false), "2024-05-11T09:00:00 Europe/Athens");
    assert_eq!(f.display_string(true), "\x1b[92m2024-05-11T09:00:00 Europe/Athens\x1b[39m");
}

#[test]
fn formatter_leaves_unreadable_dates_plain() {
    let d = due("garbage", None, true);
    let now = UtcDateTime { seconds: 1661990400, nanoseconds: 0 }; // 2022-09-01 00:00 UTC
    assert_eq!(DueDateFormatter(&d, &now).display_string(true), "\u{1f501} tomorrow");
}

#[test]
fn utc_dates_of_instants() {
    assert_eq!(UtcDateTime { seconds: 0, nanoseconds: 0 }.utc_date(), Some(day(1970, 1, 1)));
    assert_eq!(
        UtcDateTime { seconds: 1715365800, nanoseconds: 0 }.utc_date(),
        Some(day(2024, 5, 10))
    );
    assert_eq!(UtcDateTime { seconds: -1, nanoseconds: 0 }.utc_date(), Some(day(1969, 12, 31)));
    assert_eq!(UtcDateTime { seconds: 0, nanoseconds: 2_000_000_000 }.utc_date(), None);
    assert_eq!(UtcDateTime { seconds: i64::MAX, nanoseconds: 0 }.utc_date(), None);
}

#[test]
fn unknown_today_leaves_the_date_plain() {
    let d = due("2022-08-27", None, false);
    let now = UtcDateTime { seconds: i64::MAX, nanoseconds: 0 };
    let f = DueDateFormatter(&d, &now);
    assert_eq!(f.layout().tone, DueTone::Plain);
    assert_eq!(f.display_string(true), "tomorrow");
}

#[test]
fn due_today_turns_red_the_next_day() {
    let d = due("2024-05-10", None, false);
    let late_today = UtcDateTime { seconds: 1715385599, nanoseconds: 0 }; // 23:59:59
    let next_day = UtcDateTime { seconds: 1715385600, nanoseconds: 0 };
    assert_eq!(DueDateFormatter(&d, &late_today).layout().tone, DueTone::Upcoming);
    assert_eq!(DueDateFormatter(&d, &next_day).layout().tone, DueTone::Overdue);
}
