use serial_tui::serial::writer::frame_message;

#[test]
fn test_write_builder() {
    let buf = frame_message(b"AT", b"\r\n");
    assert_eq!(buf, b"AT\r\n");

    let buf2 = frame_message(b"Hello", b"");
    assert_eq!(buf2, b"Hello");
}

#[test]
fn frame_of_empty_message_is_line_ending() {
    assert_eq!(frame_message(b"", b"\n"), b"\n");
}
