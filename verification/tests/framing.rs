use mcp_core::bytes::{eq_ignore_case, find, parse_usize, trim, write_decimal};
use mcp_core::frame::{
    classify_line, decode_frame, line_length, write_frame, Frame, FramingError, HeaderBlock,
    HeaderStep, Line,
};

fn message(frame: Frame) -> (Vec<u8>, usize) {
    match frame {
        Frame::Message { body, consumed } => (body, consumed),
        Frame::EndOfStream => panic!("a frame was expected, the stream ended"),
        Frame::Failed(e) => panic!("a frame was expected, got {:?}", e),
    }
}

#[test]
fn written_frame_has_the_byte_length_in_its_header() {
    let frame = write_frame("{\"a\":1}".as_bytes());
    assert_eq!(frame, b"Content-Length: 7\r\n\r\n{\"a\":1}".to_vec());
}

#[test]
fn written_length_counts_bytes_not_characters() {
    let body = "\"h\u{e9}llo \u{4e16}\u{754c}\"";
    assert_eq!(body.chars().count(), 10);
    assert_eq!(body.len(), 15);
    let frame = write_frame(body.as_bytes());
    assert!(frame.starts_with(b"Content-Length: 15\r\n\r\n"));
    assert_eq!(&frame[22..], body.as_bytes());
}

#[test]
fn empty_body_is_written_with_length_zero() {
    assert_eq!(write_frame(b""), b"Content-Length: 0\r\n\r\n".to_vec());
}

#[test]
fn reading_gives_back_what_was_written() {
    let body = "{\"text\":\"h\u{e9}llo \u{4e16}\u{754c}\"}".as_bytes();
    let mut stream = write_frame(body);
    let frame_len = stream.len();
    stream.extend_from_slice(b"Content-Length: 0\r\n\r\n");
    let (read, consumed) = message(decode_frame(&stream));
    assert_eq!(read, body.to_vec());
    assert_eq!(consumed, frame_len);
    let (next, rest) = message(decode_frame(&stream[consumed..]));
    assert_eq!(next, Vec::<u8>::new());
    assert_eq!(consumed + rest, stream.len());
}

#[test]
fn empty_input_is_the_end_of_the_stream() {
    assert!(matches!(decode_frame(b""), Frame::EndOfStream));
}

#[test]
fn missing_length_is_a_framing_error() {
    assert!(matches!(
        decode_frame(b"Content-Type: text\r\n\r\n{}"),
        Frame::Failed(FramingError::MissingLength)
    ));
    assert!(matches!(decode_frame(b"\r\n{}"), Frame::Failed(FramingError::MissingLength)));
}

#[test]
fn unparsable_length_is_a_framing_error() {
    for header in ["Content-Length: abc", "Content-Length: -1", "Content-Length:", "Content-Length: 1 2",
        "Content-Length: 99999999999999999999999999", "Content-Length: +"]
    {
        let input = format!("{}\r\n\r\n{{}}", header);
        assert!(
            matches!(decode_frame(input.as_bytes()), Frame::Failed(FramingError::InvalidLength)),
            "{}",
            header
        );
    }
}

#[test]
fn truncated_body_is_a_framing_error() {
    assert!(matches!(
        decode_frame(b"Content-Length: 5\r\n\r\n{}"),
        Frame::Failed(FramingError::Truncated)
    ));
}

#[test]
fn partial_header_is_a_framing_error() {
    assert!(matches!(
        decode_frame(b"Content-Length: 2\r\n"),
        Frame::Failed(FramingError::Truncated)
    ));
    assert!(matches!(decode_frame(b"Content-Le"), Frame::Failed(FramingError::Truncated)));
}

#[test]
fn length_key_is_matched_in_any_case_and_spacing() {
    let (body, consumed) = message(decode_frame(b"  CONTENT-length  :  3  \r\n\r\nabcdef"));
    assert_eq!(body, b"abc".to_vec());
    assert_eq!(consumed, 31);
    let (body, _) = message(decode_frame(b"content-length:+2\n\nxyz"));
    assert_eq!(body, b"xy".to_vec());
}

#[test]
fn other_header_lines_are_passed_over_and_the_last_length_counts() {
    let input = b"X-Trace: 1\r\nno colon here\r\nContent-Length: 9\r\nContent-Type: json\r\nContent-Length: 2\r\n\r\n{}tail";
    let (body, consumed) = message(decode_frame(input));
    assert_eq!(body, b"{}".to_vec());
    assert_eq!(consumed, input.len() - 4);
}

#[test]
fn header_block_is_fed_line_by_line() {
    let mut block = HeaderBlock::new();
    assert_eq!(block.feed(b"Content-Type: x\r\n"), HeaderStep::More);
    assert_eq!(block.feed(b"Content-Length: 12\r\n"), HeaderStep::More);
    assert_eq!(block.feed(b"\r\n"), HeaderStep::Body(12));
}

#[test]
fn end_of_stream_is_clean_only_before_the_first_line() {
    let mut fresh = HeaderBlock::new();
    assert_eq!(fresh.feed(b""), HeaderStep::EndOfStream);
    let mut begun = HeaderBlock::new();
    assert_eq!(begun.feed(b"Content-Length: 1\r\n"), HeaderStep::More);
    assert_eq!(begun.feed(b""), HeaderStep::Failed(FramingError::Truncated));
}

#[test]
fn blank_line_without_length_fails() {
    let mut block = HeaderBlock::new();
    assert_eq!(block.feed(b"\n"), HeaderStep::Failed(FramingError::MissingLength));
    let mut block = HeaderBlock::new();
    assert_eq!(block.feed(b"Content-Length: x\r\n"), HeaderStep::More);
    assert_eq!(block.feed(b"\r\n"), HeaderStep::Failed(FramingError::InvalidLength));
}

#[test]
fn lines_are_classified() {
    assert!(matches!(classify_line(b" \t\r\n"), Line::Blank));
    assert!(matches!(classify_line(b"Host: x\r\n"), Line::Other));
    assert!(matches!(classify_line(b"Content-Length\r\n"), Line::Other));
    match classify_line(b"content-LENGTH: 42 \r\n") {
        Line::Length(v) => assert_eq!(v, b"42".to_vec()),
        _ => panic!("the length field was expected"),
    }
    match classify_line(b"Content-Length: a:b\r\n") {
        Line::Length(v) => assert_eq!(v, b"a:b".to_vec()),
        _ => panic!("the length field was expected"),
    }
}

#[test]
fn line_length_includes_the_line_feed() {
    assert_eq!(line_length(b"ab\ncd\n"), 3);
    assert_eq!(line_length(b"abcd"), 4);
    assert_eq!(line_length(b""), 0);
    assert_eq!(line_length(b"\n"), 1);
}

#[test]
fn trim_drops_white_space_at_both_ends() {
    assert_eq!(trim(b"  a b \r\n"), b"a b");
    assert_eq!(trim(b"\t\x0b\x0c x"), b"x");
    assert_eq!(trim(b" \r\n"), b"");
    assert_eq!(trim(b""), b"");
    assert_eq!(trim(b"x"), b"x");
}

#[test]
fn find_gives_the_first_index_or_the_length() {
    assert_eq!(find(b"a:b:c", b':'), 1);
    assert_eq!(find(b"abc", b':'), 3);
    assert_eq!(find(b"", b':'), 0);
}

#[test]
fn case_is_ignored_for_ascii_letters_only() {
    assert!(eq_ignore_case(b"Content-Length", b"content-length"));
    assert!(!eq_ignore_case(b"Content-Length", b"content_length"));
    assert!(!eq_ignore_case(b"abc", b"abcd"));
    assert!(!eq_ignore_case(b"@", b"`"));
    assert!(!eq_ignore_case(b"[", b"{"));
}

#[test]
fn decimal_numbers_are_read() {
    assert_eq!(parse_usize(b"0"), Some(0));
    assert_eq!(parse_usize(b"007"), Some(7));
    assert_eq!(parse_usize(b"+15"), Some(15));
    assert_eq!(parse_usize(b"18446744073709551615"), Some(usize::MAX));
    assert_eq!(parse_usize(b"18446744073709551616"), None);
    assert_eq!(parse_usize(b""), None);
    assert_eq!(parse_usize(b"+"), None);
    assert_eq!(parse_usize(b"-3"), None);
    assert_eq!(parse_usize(b"1a"), None);
    assert_eq!(parse_usize(b"++1"), None);
}

#[test]
fn decimal_numbers_are_written() {
    let mut out = b"n=".to_vec();
    write_decimal(0, &mut out);
    assert_eq!(out, b"n=0".to_vec());
    let mut out = Vec::new();
    write_decimal(1234567890, &mut out);
    assert_eq!(out, b"1234567890".to_vec());
    let mut out = Vec::new();
    write_decimal(usize::MAX, &mut out);
    assert_eq!(out, usize::MAX.to_string().into_bytes());
}
