use doist::text::{eq_ignore_ascii_case, str_eq};

#[test]
fn ascii_case_is_ignored() {
    assert!(eq_ignore_ascii_case("Done", "done"));
    assert!(eq_ignore_ascii_case("DONE", "dOnE"));
    assert!(eq_ignore_ascii_case("", ""));
    assert!(!eq_ignore_ascii_case("Done", "Don"));
    assert!(!eq_ignore_ascii_case("Done", "Dome"));
    assert!(!eq_ignore_ascii_case("[", "{"));
}

#[test]
fn other_characters_must_match_exactly() {
    assert!(!eq_ignore_ascii_case("\u{c9}t\u{e9}", "\u{e9}t\u{e9}"));
    assert!(eq_ignore_ascii_case("\u{e9}T\u{e9}", "\u{e9}t\u{e9}"));
    for (a, b) in [("Ä", "ä"), ("abc", "ABC"), ("a-b", "A_B"), ("ß", "SS")] {
        assert_eq!(eq_ignore_ascii_case(a, b), a.eq_ignore_ascii_case(b), "{a} {b}");
    }
}

#[test]
fn strings_are_equal_exactly() {
    assert!(str_eq("abc", "abc"));
    assert!(!str_eq("abc", "abd"));
    assert!(!str_eq("abc", "ab"));
}
