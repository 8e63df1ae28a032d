use lich::text::{format_output, remove_trailing_whitespaces, rfind_char, trim_str, u16_to_decimal};

#[test]
fn trims_leading_and_trailing_whitespace() {
    assert_eq!(trim_str("  a  "), "a");
    assert_eq!(trim_str(""), "");
    assert_eq!(trim_str(" \t\n "), "");
    assert_eq!(trim_str("abc"), "abc");
}

#[test]
fn removes_trailing_whitespace_per_line() {
    assert_eq!(remove_trailing_whitespaces("a  \nb\t\nc"), "a\nb\nc");
    assert_eq!(remove_trailing_whitespaces("plain"), "plain");
    assert_eq!(remove_trailing_whitespaces(""), "");
}

#[test]
fn normalizes_crlf_line_endings() {
    assert_eq!(remove_trailing_whitespaces("a\r\nb"), "a\nb");
    assert_eq!(remove_trailing_whitespaces("a\r\nb\r\n"), "a\nb");
}

#[test]
fn keeps_interior_blank_lines() {
    assert_eq!(remove_trailing_whitespaces("a\n\nb"), "a\n\nb");
}

#[test]
fn format_output_trims_whole_blob() {
    assert_eq!(format_output(b"  hello \n"), Some("hello".to_string()));
    assert_eq!(format_output(b"\n\nx\n\n"), Some("x".to_string()));
    assert_eq!(format_output(b""), Some(String::new()));
}

#[test]
fn format_output_rejects_invalid_utf8() {
    assert_eq!(format_output(&[0xff, 0xfe]), None);
    assert_eq!(format_output(&[b'a', 0x80]), None);
}

#[test]
fn format_output_formats_multiline_tool_output() {
    let captured = b" line one  \nline two\t\n\nlast \n";
    assert_eq!(
        format_output(captured),
        Some("line one\nline two\n\nlast".to_string())
    );
}

#[test]
fn decimal_notation_of_u16() {
    assert_eq!(u16_to_decimal(0), "0");
    assert_eq!(u16_to_decimal(5), "5");
    assert_eq!(u16_to_decimal(10), "10");
    assert_eq!(u16_to_decimal(124), "124");
    assert_eq!(u16_to_decimal(65535), "65535");
}

#[test]
fn finds_last_occurrence() {
    assert_eq!(rfind_char("a/b/c", '/'), Some(3));
    assert_eq!(rfind_char("abc", '/'), None);
    assert_eq!(rfind_char("/", '/'), Some(0));
}
