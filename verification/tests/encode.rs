use nfd::encode::{encode_option, encode_request};
use nfd::{NFDError, NativeBuffer};

/// Reads a buffer as the native side does: up to the first terminator byte.
fn read_back(buffer: &[u8]) -> String {
    let end = buffer.iter().position(|byte| *byte == 0).expect("no terminator");
    String::from_utf8(buffer[..end].to_vec()).expect("not UTF-8")
}

#[test]
fn plain_text_gets_one_terminator() {
    let buffer = NativeBuffer::new("jpg,png;pdf").unwrap();
    assert_eq!(buffer.as_bytes_with_nul(), b"jpg,png;pdf\0");
}

#[test]
fn empty_text_is_a_lone_terminator() {
    let buffer = NativeBuffer::new("").unwrap();
    assert_eq!(buffer.as_bytes_with_nul(), &[0u8]);
}

#[test]
fn non_ascii_text_is_encoded_as_utf8() {
    let buffer = NativeBuffer::new("caf\u{e9}").unwrap();
    assert_eq!(buffer.as_bytes_with_nul(), &[0x63u8, 0x61, 0x66, 0xC3, 0xA9, 0x00]);
}

#[test]
fn encoded_text_reads_back_unchanged() {
    let texts = ["", "a", "png,jpg;pdf", "/home/user/My Documents", "caf\u{e9}/\u{65e5}\u{672c}"];
    for text in texts {
        let buffer = NativeBuffer::new(text).unwrap();
        let bytes = buffer.as_bytes_with_nul();
        assert_eq!(bytes.len(), text.len() + 1);
        assert_eq!(bytes[bytes.len() - 1], 0);
        assert_eq!(read_back(bytes), text);
    }
}

#[test]
fn embedded_terminator_is_refused_with_its_position() {
    assert_eq!(NativeBuffer::new("ab\0cd").err(), Some(NFDError::NulError(2)));
}

#[test]
fn leading_terminator_is_refused_at_position_zero() {
    assert_eq!(NativeBuffer::new("\0").err(), Some(NFDError::NulError(0)));
}

#[test]
fn trailing_terminator_is_refused() {
    assert_eq!(NativeBuffer::new("abc\0").err(), Some(NFDError::NulError(3)));
}

#[test]
fn first_of_several_terminators_is_reported() {
    assert_eq!(NativeBuffer::new("a\0b\0c").err(), Some(NFDError::NulError(1)));
}

#[test]
fn terminator_position_counts_bytes_not_characters() {
    assert_eq!(NativeBuffer::new("\u{e9}\0").err(), Some(NFDError::NulError(2)));
}

#[test]
fn absent_text_stays_absent() {
    assert!(matches!(encode_option(None), Ok(None)));
}

#[test]
fn present_text_becomes_a_buffer() {
    let buffer = encode_option(Some("txt")).unwrap().unwrap();
    assert_eq!(buffer.as_bytes_with_nul(), b"txt\0");
}

#[test]
fn request_with_nothing_set_has_two_null_arguments() {
    let request = encode_request(None, None).unwrap();
    assert!(request.filter_list.is_none());
    assert!(request.default_path.is_none());
}

#[test]
fn request_keeps_each_string_in_its_place() {
    let request = encode_request(Some("png"), Some("/tmp")).unwrap();
    assert_eq!(request.filter_list.unwrap().as_bytes_with_nul(), b"png\0");
    assert_eq!(request.default_path.unwrap().as_bytes_with_nul(), b"/tmp\0");
}

#[test]
fn request_with_only_a_default_path() {
    let request = encode_request(None, Some("/tmp")).unwrap();
    assert!(request.filter_list.is_none());
    assert_eq!(request.default_path.unwrap().as_bytes_with_nul(), b"/tmp\0");
}

#[test]
fn request_pairs_read_back_unchanged() {
    let pairs = [(Some("png,jpg"), Some("/home")), (None, Some("C:\\Users")), (Some(""), None)];
    for (filter, path) in pairs {
        let request = encode_request(filter, path).unwrap();
        let read_filter = request.filter_list.as_ref().map(|b| read_back(b.as_bytes_with_nul()));
        let read_path = request.default_path.as_ref().map(|b| read_back(b.as_bytes_with_nul()));
        assert_eq!(read_filter.as_deref(), filter);
        assert_eq!(read_path.as_deref(), path);
    }
}

#[test]
fn request_fails_on_a_terminator_in_the_filter() {
    assert_eq!(encode_request(Some("p\0ng"), Some("/tmp")).err(), Some(NFDError::NulError(1)));
}

#[test]
fn request_fails_on_a_terminator_in_the_default_path() {
    assert_eq!(encode_request(Some("png"), Some("/tmp\0")).err(), Some(NFDError::NulError(4)));
}

#[test]
fn request_reports_the_filter_when_both_strings_fail() {
    assert_eq!(encode_request(Some("ab\0"), Some("\0")).err(), Some(NFDError::NulError(2)));
}

#[test]
fn native_failure_message_is_the_native_text() {
    assert_eq!(NFDError::Error("GTK failed to start".to_string()).message(), "GTK failed to start");
}

#[test]
fn native_failure_message_may_be_empty() {
    assert_eq!(NFDError::Error(String::new()).message(), "");
}

#[test]
fn encoding_failure_message_ends_in_the_position() {
    assert_eq!(
        NFDError::NulError(2).message(),
        "nul byte found in provided data at position: 2"
    );
}

#[test]
fn encoding_failure_message_at_position_zero() {
    assert_eq!(
        NFDError::NulError(0).message(),
        "nul byte found in provided data at position: 0"
    );
}

#[test]
fn encoding_failure_message_with_many_digits() {
    assert_eq!(
        NFDError::NulError(1234567890).message(),
        "nul byte found in provided data at position: 1234567890"
    );
    assert_eq!(
        NFDError::NulError(10).message(),
        "nul byte found in provided data at position: 10"
    );
    assert_eq!(
        NFDError::NulError(usize::MAX).message(),
        format!("nul byte found in provided data at position: {}", usize::MAX)
    );
}
