use mxfuse::error::{c_array_to_string, text_contains};
use mxfuse::text::push_decimal;
use mxfuse::Error;

#[test]
fn shim_message_stops_at_the_terminator() {
    let mut buffer = [0u8; 32];
    buffer[..4].copy_from_slice(b"boom");
    buffer[5] = b'x';
    assert_eq!(Error::from_shim(&buffer).message(), "boom");
}

#[test]
fn empty_shim_message_gets_the_fallback() {
    assert_eq!(Error::from_shim(&[0u8; 8]).message(), "bmx operation failed");
    assert_eq!(Error::from_shim(&[]).message(), "bmx operation failed");
}

#[test]
fn unterminated_shim_message_is_kept_whole() {
    assert_eq!(Error::from_shim(b"abc").message(), "abc");
}

#[test]
fn invalid_utf8_is_replaced() {
    assert_eq!(Error::from_shim(&[0x66, 0xff, 0x67, 0]).message(), "f\u{fffd}g");
}

#[test]
fn c_strings_read_as_optional_text() {
    assert_eq!(c_array_to_string(b"en\0zz"), Some("en".to_string()));
    assert_eq!(c_array_to_string(b"\0abc"), None);
    assert_eq!(c_array_to_string(b""), None);
    assert_eq!(c_array_to_string(b"text/xml"), Some("text/xml".to_string()));
}

#[test]
fn errors_keep_their_message() {
    assert_eq!(Error::new("x".to_string()).message(), "x");
    assert_eq!(Error::from_str("writer is closed").message(), "writer is closed");
}

#[test]
fn decimal_notation() {
    for (value, text) in [(0u64, "0"), (7, "7"), (10, "10"), (255, "255"), (u64::MAX, "18446744073709551615")] {
        let mut out = String::from("n=");
        push_decimal(&mut out, value);
        assert_eq!(out, format!("n={text}"));
    }
}

#[test]
fn failure_reports_are_recognised() {
    assert!(Error::from_str("bmx operation failed").is_failure_report());
    assert!(Error::from_shim(b"open failed: no such file\0junk").is_failure_report());
    assert!(!Error::from_str("clip is closed").is_failure_report());
    assert!(!Error::from_str("faile").is_failure_report());
    assert!(!Error::from_str("").is_failure_report());
}

#[test]
fn text_search_finds_words_anywhere() {
    assert!(text_contains("", ""));
    assert!(text_contains("abc", ""));
    assert!(text_contains("abc", "abc"));
    assert!(text_contains("xxabc", "abc"));
    assert!(text_contains("ééfailed", "failed"));
    assert!(!text_contains("ab", "abc"));
    assert!(!text_contains("abxc", "abc"));
}

#[test]
fn io_errors_keep_their_text() {
    let error = Error::from(std::io::Error::other("disk gone"));
    assert_eq!(error.message(), "disk gone");
}
