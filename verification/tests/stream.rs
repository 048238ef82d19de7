use rust_format::IoStream;

fn text(stream: &IoStream) -> Option<&str> {
    match stream {
        IoStream::InvalidUtf8 => None,
        IoStream::Text(text) => Some(text.as_str()),
    }
}

#[test]
fn from_bytes_reads_ascii_text() {
    let stream = IoStream::from_bytes(b"error: syntax".to_vec());
    assert_eq!(text(&stream), Some("error: syntax"));
}

#[test]
fn from_bytes_reads_empty_stream_as_empty_text() {
    let stream = IoStream::from_bytes(Vec::new());
    assert_eq!(text(&stream), Some(""));
}

#[test]
fn from_bytes_decodes_multibyte_text() {
    // "é" is two bytes, "✓" three, "𝄞" four.
    let bytes = vec![
        0x68, 0xc3, 0xa9, 0x20, 0xe2, 0x9c, 0x93, 0x20, 0xf0, 0x9d, 0x84, 0x9e, 0x0a,
    ];
    let stream = IoStream::from_bytes(bytes);
    assert_eq!(text(&stream), Some("h\u{e9} \u{2713} \u{1d11e}\n"));
}

#[test]
fn from_bytes_keeps_every_byte_of_long_text() {
    let mut bytes = Vec::new();
    for _ in 0..1000 {
        bytes.extend_from_slice(b"line\n");
    }
    let stream = IoStream::from_bytes(bytes);
    assert_eq!(text(&stream).map(|t| t.len()), Some(5000));
}

#[test]
fn from_bytes_marks_stray_byte() {
    let stream = IoStream::from_bytes(vec![0xff]);
    assert!(matches!(stream, IoStream::InvalidUtf8));
}

#[test]
fn from_bytes_marks_invalid_tail_after_valid_text() {
    let mut bytes = b"warning: ".to_vec();
    bytes.push(0x80);
    let stream = IoStream::from_bytes(bytes);
    assert!(matches!(stream, IoStream::InvalidUtf8));
}

#[test]
fn from_bytes_marks_truncated_sequence() {
    let stream = IoStream::from_bytes(vec![0x61, 0xe2, 0x9c]);
    assert!(matches!(stream, IoStream::InvalidUtf8));
}

#[test]
fn from_bytes_marks_overlong_encoding() {
    let stream = IoStream::from_bytes(vec![0xc0, 0xaf]);
    assert!(matches!(stream, IoStream::InvalidUtf8));
}

#[test]
fn from_bytes_marks_encoded_surrogate() {
    let stream = IoStream::from_bytes(vec![0xed, 0xa0, 0x80]);
    assert!(matches!(stream, IoStream::InvalidUtf8));
}

#[test]
fn from_decoding_result_keeps_text() {
    let stream = IoStream::from(String::from_utf8(b"fn main() {}".to_vec()));
    assert_eq!(text(&stream), Some("fn main() {}"));
}

#[test]
fn from_decoding_result_marks_failure() {
    let stream = IoStream::from(String::from_utf8(vec![0x66, 0xfe]));
    assert!(matches!(stream, IoStream::InvalidUtf8));
}

#[test]
fn into_stream_from_decoding_result() {
    let stream: IoStream = String::from_utf8(b"ok".to_vec()).into();
    assert_eq!(text(&stream), Some("ok"));
}

#[test]
fn to_string_shows_text_as_it_is() {
    let stream = IoStream::Text(String::from("error: syntax"));
    assert_eq!(stream.to_string(), "error: syntax");
}

#[test]
fn to_string_shows_note_for_invalid_stream() {
    assert_eq!(IoStream::InvalidUtf8.to_string(), "(Invalid UTF-8)");
}

#[test]
fn to_string_of_decoded_bytes() {
    assert_eq!(IoStream::from_bytes(b"a\nb".to_vec()).to_string(), "a\nb");
    assert_eq!(IoStream::from_bytes(vec![0xf8]).to_string(), "(Invalid UTF-8)");
}
