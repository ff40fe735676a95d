use zksync_telemetry::text::{chars_of, contains, is_blank, join, matches_at, same_text, starts_with};

#[test]
fn chars_are_handed_out_in_order() {
    assert_eq!(chars_of("héllo"), vec!['h', 'é', 'l', 'l', 'o']);
    assert_eq!(chars_of(""), Vec::<char>::new());
}

#[test]
fn prefix_is_found_at_the_start_only() {
    assert!(starts_with("phc_abc", "phc_"));
    assert!(starts_with("phc_", "phc_"));
    assert!(starts_with("anything", ""));
    assert!(starts_with("", ""));
    assert!(!starts_with("xphc_", "phc_"));
    assert!(!starts_with("ph", "phc_"));
    assert!(!starts_with("", "p"));
    assert!(starts_with("épée", "ép"));
    assert!(!starts_with("epée", "ép"));
}

#[test]
fn infix_is_found_anywhere() {
    assert!(contains("https://x@sentry.io/1", "@sentry.io"));
    assert!(contains("@sentry.io", "@sentry.io"));
    assert!(contains("x@sentry.io", "@sentry.io"));
    assert!(contains("abc", ""));
    assert!(contains("", ""));
    assert!(!contains("", "a"));
    assert!(!contains("https://x@sentry.i", "@sentry.io"));
    assert!(!contains("@sentry", "@sentry.io"));
    assert!(contains("aab", "ab"));
    assert!(contains("naïve café", "ï"));
    assert!(!contains("naive", "ï"));
}

#[test]
fn pattern_is_matched_at_a_position() {
    let text = chars_of("abcabc");
    let pattern = chars_of("bc");
    assert!(!matches_at(&text, &pattern, 0));
    assert!(matches_at(&text, &pattern, 1));
    assert!(matches_at(&text, &pattern, 4));
    assert!(!matches_at(&text, &pattern, 5));
    assert!(!matches_at(&text, &pattern, 6));
    assert!(!matches_at(&text, &pattern, usize::MAX));
    assert!(matches_at(&text, &Vec::new(), 6));
    assert!(!matches_at(&text, &Vec::new(), 7));
}

#[test]
fn texts_are_compared_by_their_characters() {
    assert!(same_text("CI", "CI"));
    assert!(same_text("", ""));
    assert!(!same_text("CI", "ci"));
    assert!(!same_text("CI", "CI "));
    assert!(!same_text("CIX", "CI"));
    assert!(!same_text("", "a"));
}

#[test]
fn blank_means_white_space_only() {
    assert!(is_blank(""));
    assert!(is_blank(" "));
    assert!(is_blank(" \t\r\n"));
    assert!(is_blank("\u{a0}\u{2003}"));
    assert!(!is_blank("a"));
    assert!(!is_blank("  a  "));
    assert!(!is_blank("\u{200b}"));
    assert!(!is_blank("_"));
}

#[test]
fn joining_appends() {
    assert_eq!(join("Configuration error: ", "bad"), "Configuration error: bad");
    assert_eq!(join("", ""), "");
    assert_eq!(join("a", ""), "a");
    assert_eq!(join("", "b"), "b");
}
