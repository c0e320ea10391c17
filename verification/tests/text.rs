use og_connector_higress::safe_truncate;
use og_connector_higress::text::{is_success_status, strip_scheme};
use og_connector_higress::{default_timeout, default_true};

#[test]
fn safe_truncate_keeps_a_short_text() {
    assert_eq!(safe_truncate("hello", 5), "hello");
    assert_eq!(safe_truncate("hello", 200), "hello");
    assert_eq!(safe_truncate("", 0), "");
}

#[test]
fn safe_truncate_cuts_a_long_text_and_marks_it() {
    assert_eq!(safe_truncate("hello world", 5), "hello...");
    assert_eq!(safe_truncate("hello", 4), "hell...");
    assert_eq!(safe_truncate("x", 0), "...");
}

#[test]
fn safe_truncate_counts_characters_not_bytes() {
    assert_eq!(safe_truncate("h\u{e9}llo w\u{f6}rld", 2), "h\u{e9}...");
    assert_eq!(safe_truncate("\u{4f60}\u{597d}\u{4e16}\u{754c}", 3), "\u{4f60}\u{597d}\u{4e16}...");
    assert_eq!(safe_truncate("\u{4f60}\u{597d}", 2), "\u{4f60}\u{597d}");
    assert_eq!(safe_truncate("\u{1f600}\u{1f600}", 1), "\u{1f600}...");
}

#[test]
fn strip_scheme_drops_the_scheme() {
    assert_eq!(strip_scheme("http://og.local:5002"), "og.local:5002");
    assert_eq!(strip_scheme("https://og.example.com"), "og.example.com");
    assert_eq!(strip_scheme("og.example.com"), "og.example.com");
    assert_eq!(strip_scheme(""), "");
}

#[test]
fn strip_scheme_drops_repeated_schemes_in_that_order() {
    assert_eq!(strip_scheme("http://http://a"), "a");
    assert_eq!(strip_scheme("http://https://https://a"), "a");
    assert_eq!(strip_scheme("https://http://a"), "http://a");
    assert_eq!(strip_scheme("a/http://b"), "a/http://b");
    assert_eq!(strip_scheme("HTTP://a"), "HTTP://a");
}

#[test]
fn success_is_a_status_of_the_two_hundreds() {
    assert!(is_success_status("200"));
    assert!(is_success_status("204"));
    assert!(is_success_status("299"));
    assert!(!is_success_status("199"));
    assert!(!is_success_status("300"));
    assert!(!is_success_status("404"));
    assert!(!is_success_status("503"));
    assert!(!is_success_status(""));
    assert!(!is_success_status("20"));
    assert!(!is_success_status("2000"));
    assert!(!is_success_status("2xx"));
    assert!(!is_success_status("20\u{663}"));
    assert!(!is_success_status(" 200"));
}

#[test]
fn defaults_of_the_configuration() {
    assert_eq!(default_timeout(), 5000);
    assert!(default_true());
}
