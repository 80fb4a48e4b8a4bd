use microcomputer::serial::SerialBuffer;

fn chars(line: &str) -> Vec<char> {
    line.chars().collect()
}

#[test]
fn serial_buffer_starts_empty() {
    let mut buffer = SerialBuffer::new();
    assert!(buffer.is_empty());
    assert_eq!(buffer.take(), None);
    assert!(buffer.is_empty());
}

#[test]
fn serial_buffer_hands_out_a_line_in_order() {
    let mut buffer = SerialBuffer::new();
    buffer.refill(&chars("abc\n"));
    assert!(!buffer.is_empty());
    assert_eq!(buffer.take(), Some(b'a'));
    assert_eq!(buffer.take(), Some(b'b'));
    assert_eq!(buffer.take(), Some(b'c'));
    assert_eq!(buffer.take(), None);
    assert!(buffer.is_empty());
}

#[test]
fn serial_buffer_drops_line_ends_wherever_they_stand() {
    let mut buffer = SerialBuffer::new();
    buffer.refill(&chars("\rx\r\ny\n\n"));
    assert_eq!(buffer.take(), Some(b'x'));
    assert_eq!(buffer.take(), Some(b'y'));
    assert_eq!(buffer.take(), None);
}

#[test]
fn serial_buffer_of_a_bare_line_end_is_empty() {
    let mut buffer = SerialBuffer::new();
    buffer.refill(&chars("\r\n"));
    assert!(buffer.is_empty());
    buffer.refill(&chars(""));
    assert!(buffer.is_empty());
}

#[test]
fn serial_buffer_keeps_the_low_eight_bits_of_a_character() {
    let mut buffer = SerialBuffer::new();
    // U+0141 and U+010A are cut to 0x41 and 0x0A; the latter is no line feed before the cut.
    buffer.refill(&chars("\u{141}\u{10A}\u{FF} "));
    assert_eq!(buffer.take(), Some(0x41));
    assert_eq!(buffer.take(), Some(0x0A));
    assert_eq!(buffer.take(), Some(0xFF));
    assert_eq!(buffer.take(), Some(0x20));
    assert_eq!(buffer.take(), None);
}

#[test]
fn serial_buffer_refill_replaces_what_waits() {
    let mut buffer = SerialBuffer::new();
    buffer.refill(&chars("old"));
    assert_eq!(buffer.take(), Some(b'o'));
    buffer.refill(&chars("new"));
    assert_eq!(buffer.take(), Some(b'n'));
    assert_eq!(buffer.take(), Some(b'e'));
    assert_eq!(buffer.take(), Some(b'w'));
    assert_eq!(buffer.take(), None);
}
