use jobcan::scan::{capture_between, contains_sub, find_sub, str_eq};

#[test]
fn find_sub_returns_the_leftmost_occurrence() {
    assert_eq!(find_sub("abcabc", "ca"), Some(2));
    assert_eq!(find_sub("abcabc", "abc"), Some(0));
    assert_eq!(find_sub("abcabc", "zz"), None);
}

#[test]
fn contains_sub_finds_multibyte_needles() {
    assert!(contains_sub("<p>(勤務中)</p>", "(勤務中)"));
    assert!(!contains_sub("<p>(退勤)</p>", "(勤務中)"));
}

#[test]
fn capture_between_takes_the_nearest_close() {
    let text = r#"var current_status = "working"; var x = "other";"#;
    let cap = capture_between(text, "var current_status = \"", "\";");
    assert_eq!(cap.as_deref(), Some("working"));
}

#[test]
fn capture_between_is_empty_for_adjacent_close() {
    let cap = capture_between("key = ;", "key = ", ";");
    assert_eq!(cap.as_deref(), Some(""));
}

#[test]
fn capture_between_does_not_cross_newlines() {
    let text = "var current_status = \"work\ning\";";
    assert_eq!(capture_between(text, "var current_status = \"", "\";"), None);
}

#[test]
fn capture_between_skips_prefixes_without_a_close() {
    let text = "key = no close here\nkey = value;";
    let cap = capture_between(text, "key = ", ";");
    assert_eq!(cap.as_deref(), Some("value"));
}

#[test]
fn str_eq_compares_by_characters() {
    assert!(str_eq("abc", "abc"));
    assert!(!str_eq("abc", "abd"));
    assert!(!str_eq("abc", "ab"));
}
