use notion_api_client::text::eq_ignore_ascii_case;
use notion_api_client::text::json_escape;
use notion_api_client::text::millis_to_string;
use notion_api_client::text::u64_to_string;

#[test]
fn renders_decimals() {
    assert_eq!(u64_to_string(0), "0");
    assert_eq!(u64_to_string(7), "7");
    assert_eq!(u64_to_string(100), "100");
    assert_eq!(u64_to_string(u64::MAX), "18446744073709551615");
}

#[test]
fn renders_durations() {
    assert_eq!(millis_to_string(0), "0ns");
    assert_eq!(millis_to_string(1), "1ms");
    assert_eq!(millis_to_string(230), "230ms");
    assert_eq!(millis_to_string(999), "999ms");
    assert_eq!(millis_to_string(1000), "1s");
    assert_eq!(millis_to_string(1500), "1.5s");
    assert_eq!(millis_to_string(1050), "1.05s");
    assert_eq!(millis_to_string(1005), "1.005s");
    assert_eq!(millis_to_string(61000), "61s");
}

#[test]
fn escapes_json_string_characters() {
    assert_eq!(json_escape("plain"), "plain");
    assert_eq!(json_escape("a\"b"), "a\\\"b");
    assert_eq!(json_escape("a\\b"), "a\\\\b");
    assert_eq!(json_escape("a\nb\tc\rd"), "a\\nb\\tc\\rd");
    assert_eq!(json_escape("\u{8}\u{c}"), "\\b\\f");
    assert_eq!(json_escape("\u{1}\u{1f}"), "\\u0001\\u001f");
    assert_eq!(json_escape("héllo"), "héllo");
}

#[test]
fn compares_ignoring_ascii_case() {
    assert!(eq_ignore_ascii_case("Retry-After", "retry-after"));
    assert!(eq_ignore_ascii_case("RETRY-AFTER", "retry-after"));
    assert!(!eq_ignore_ascii_case("Retry-After", "retry-afte"));
    assert!(!eq_ignore_ascii_case("a", "b"));
    assert!(eq_ignore_ascii_case("", ""));
}
