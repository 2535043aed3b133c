use serial_tui::linebuf::{concat_bytes, split_lines};

#[test]
fn split_drops_line_ends_and_empty_lines() {
    let (lines, rest) = split_lines(b"a\r\n\nb\n\r\ncd");
    assert_eq!(lines, vec![b"a".to_vec(), b"b".to_vec()]);
    assert_eq!(rest, b"cd");
}

#[test]
fn split_keeps_lone_carriage_return_inside() {
    let (lines, rest) = split_lines(b"x\ry\n\r");
    assert_eq!(lines, vec![b"x\ry".to_vec()]);
    assert_eq!(rest, b"\r");
}

#[test]
fn split_without_newline_keeps_everything() {
    let (lines, rest) = split_lines(b"abc");
    assert!(lines.is_empty());
    assert_eq!(rest, b"abc");
    let (none, empty) = split_lines(b"");
    assert!(none.is_empty());
    assert!(empty.is_empty());
}

#[test]
fn split_chunking_law_example() {
    let x = b"ab\ncd";
    let y = b"e\nf";
    let (whole, whole_rest) = split_lines(&concat_bytes(x, y));
    let (first, first_rest) = split_lines(x);
    let (second, second_rest) = split_lines(&concat_bytes(&first_rest, y));
    let mut joined = first.clone();
    joined.extend(second);
    assert_eq!(whole, joined);
    assert_eq!(whole_rest, second_rest);
}
