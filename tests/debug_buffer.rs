use drink::debug::decode_debug_buffer;

#[test]
fn empty_buffer_is_one_empty_line() {
    assert_eq!(decode_debug_buffer(&[]), vec![String::new()]);
}

#[test]
fn splits_at_line_feed() {
    assert_eq!(decode_debug_buffer(b"a\nb"), vec!["a".to_string(), "b".to_string()]);
}

#[test]
fn trailing_line_feed_gives_trailing_empty_line() {
    assert_eq!(decode_debug_buffer(b"a\n"), vec!["a".to_string(), String::new()]);
}

#[test]
fn line_count_is_line_feeds_plus_one() {
    let buffer = b"\n\nfirst\n\nsecond line\n";
    let feeds = buffer.iter().filter(|b| **b == b'\n').count();
    assert_eq!(feeds, 5);
    assert_eq!(decode_debug_buffer(buffer).len(), feeds + 1);
}

#[test]
fn empty_segments_are_kept_in_order() {
    assert_eq!(
        decode_debug_buffer(b"\nx\n\ny"),
        vec![String::new(), "x".to_string(), String::new(), "y".to_string()]
    );
}

#[test]
fn each_byte_is_one_code_point() {
    assert_eq!(decode_debug_buffer(&[0x68, 0xE9, 0x0A, 0xFF]), vec!["h\u{e9}".to_string(), "\u{ff}".to_string()]);
}

#[test]
fn joining_lines_restores_buffer() {
    let buffer: &[u8] = b"one\n\ntwo\n";
    let joined = decode_debug_buffer(buffer).join("\n");
    assert_eq!(joined.as_bytes(), buffer);
}
