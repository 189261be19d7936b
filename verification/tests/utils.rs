use janus_plugin::utils::{
    c_string_bytes, c_string_length, decimal_string, foreign_text, push_address, push_decimal,
    same_text, starts_with, utf8_text, Deallocator, GLibString, LibcString,
};

#[test]
fn decimal_strings_are_what_display_prints() {
    for n in [0, 1, 9, 10, 99, 100, 111, 12345, i32::MAX, -1, -10, -999, i32::MIN] {
        assert_eq!(decimal_string(n), n.to_string());
    }
    assert_eq!(decimal_string(-2147483648), "-2147483648");
}

#[test]
fn push_decimal_appends_the_digits() {
    let mut out = String::from("pt=");
    push_decimal(&mut out, 4294967295);
    assert_eq!(out, "pt=4294967295");
    push_decimal(&mut out, 0);
    assert_eq!(out, "pt=42949672950");
}

#[test]
fn addresses_are_printed_as_pointers_are() {
    for address in [0usize, 1, 15, 16, 255, 0x7ffd_1234_abcd, usize::MAX] {
        let mut out = String::new();
        push_address(&mut out, address);
        assert_eq!(out, format!("{:#x}", address));
    }
    let mut out = String::from("at ");
    push_address(&mut out, 0xdeadbeef);
    assert_eq!(out, "at 0xdeadbeef");
}

#[test]
fn starts_with_agrees_with_the_standard_library() {
    let cases = [("111 opus", "111"), ("111 opus", "11"), ("11", "111"), ("", ""), ("a", ""), ("", "a"), ("héllo", "hé"), ("héllo", "he")];
    for (text, prefix) in cases {
        assert_eq!(starts_with(text, prefix), text.starts_with(prefix));
    }
}

#[test]
fn same_text_tells_equal_strings() {
    assert!(same_text("rtpmap", "rtpmap"));
    assert!(!same_text("rtpmap", "rtpma"));
    assert!(!same_text("rtpma", "rtpmap"));
    assert!(same_text("", ""));
}

#[test]
fn the_text_of_a_buffer_ends_before_its_terminator() {
    assert_eq!(c_string_length(b"abc\0def\0"), 3);
    assert_eq!(c_string_length(b"\0abc"), 0);
    assert_eq!(c_string_length(b""), 0);
    assert_eq!(c_string_length(b"abc"), 3);
    assert_eq!(c_string_bytes(b"abc\0def\0"), b"abc".to_vec());
    assert_eq!(c_string_bytes(b"abc"), b"abc".to_vec());
}

#[test]
fn utf8_text_decodes_what_is_well_formed() {
    assert_eq!(utf8_text("héllo ✓".as_bytes()), Some("héllo ✓".to_string()));
    assert_eq!(utf8_text(b""), Some(String::new()));
    assert_eq!(utf8_text(&[0x68, 0xc3]), None);
    assert_eq!(utf8_text(&[0xed, 0xa0, 0x80]), None);
    assert_eq!(utf8_text(&[0xc0, 0x80]), None);
}

#[test]
fn foreign_text_is_the_text_before_the_terminator() {
    assert_eq!(foreign_text(b"v=0\0\xff\xff"), Some("v=0".to_string()));
    assert_eq!(foreign_text(b"\xff\0abc"), None);
    assert_eq!(foreign_text("grüß\0".as_bytes()), Some("grüß".to_string()));
}

#[test]
fn there_is_no_string_at_the_null_address() {
    assert!(GLibString::from_chars(0, b"abc\0").is_none());
    assert!(LibcString::from_chars(0, b"abc\0").is_none());
}

#[test]
fn a_foreign_string_shows_its_bytes_and_is_freed_by_its_own_allocator() {
    let glib = GLibString::from_chars(0x1000, b"v=0\r\n\0junk").unwrap();
    assert_eq!(glib.to_bytes(), b"v=0\r\n");
    assert_eq!(glib.to_str(), Some("v=0\r\n".to_string()));
    assert_eq!(glib.into_free(), (Deallocator::GLib, 0x1000));

    let libc = LibcString::from_chars(0x2000, b"{\"a\": 1}\0").unwrap();
    assert_eq!(libc.to_bytes(), b"{\"a\": 1}");
    assert_eq!(libc.to_str(), Some("{\"a\": 1}".to_string()));
    assert_eq!(libc.into_free(), (Deallocator::Libc, 0x2000));
}

#[test]
fn a_foreign_string_that_is_not_text_has_bytes_only() {
    let string = LibcString::from_chars(0x2000, b"\xfe\xff\0").unwrap();
    assert_eq!(string.to_bytes(), b"\xfe\xff");
    assert_eq!(string.to_str(), None);
}
