use doist::api::rest::project::Project;
use doist::api::rest::task::Priority;
use doist::paint::{paint, paint_when, stdout_supports_colors, Paint};

#[test]
fn paint_wraps_text_in_ansi_codes() {
    assert_eq!(paint("x", Paint::Red), "\x1b[31mx\x1b[39m");
    assert_eq!(paint("x", Paint::Yellow), "\x1b[33mx\x1b[39m");
    assert_eq!(paint("x", Paint::Blue), "\x1b[34mx\x1b[39m");
    assert_eq!(paint("x", Paint::BrightRed), "\x1b[91mx\x1b[39m");
    assert_eq!(paint("x", Paint::BrightGreen), "\x1b[92mx\x1b[39m");
    assert_eq!(paint("x", Paint::BrightYellow), "\x1b[93mx\x1b[39m");
}

#[test]
fn paint_when_follows_colour_support() {
    assert_eq!(paint_when("text", Paint::Blue, true), "\x1b[34mtext\x1b[39m");
    assert_eq!(paint_when("text", Paint::Blue, false), "text");
}

#[test]
fn colour_support_query_answers() {
    let first = stdout_supports_colors();
    assert_eq!(first, stdout_supports_colors());
}

#[test]
fn priority_labels_without_colours() {
    assert_eq!(Priority::Urgent.display_string(false), "p1");
    assert_eq!(Priority::VeryHigh.display_string(false), "p2");
    assert_eq!(Priority::High.display_string(false), "p3");
    assert_eq!(Priority::Normal.display_string(false), "p4");
}

#[test]
fn priority_labels_with_colours() {
    assert_eq!(Priority::Urgent.display_string(true), "\x1b[31mp1\x1b[39m");
    assert_eq!(Priority::VeryHigh.display_string(true), "\x1b[33mp2\x1b[39m");
    assert_eq!(Priority::High.display_string(true), "\x1b[34mp3\x1b[39m");
    assert_eq!(Priority::Normal.display_string(true), "p4");
}

#[test]
fn priority_values_round_trip() {
    for p in [Priority::Normal, Priority::High, Priority::VeryHigh, Priority::Urgent] {
        assert_eq!(Priority::from_value(p.value()), Some(p));
    }
    assert_eq!(Priority::from_value(0), None);
    assert_eq!(Priority::from_value(5), None);
    assert_eq!(Priority::default(), Priority::Normal);
}

#[test]
fn project_display_shows_id_and_name() {
    let p = Project::new("123", "Inbox");
    assert_eq!(p.display_string(false), "123 Inbox");
    assert_eq!(p.display_string(true), "\x1b[93m123\x1b[39m Inbox");
}
