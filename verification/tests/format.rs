use serial_tui::config::DisplayFormat;
use serial_tui::protocol::format::format_bytes;

#[test]
fn test_hex_format() {
    assert_eq!(format_bytes(b"Hello", DisplayFormat::Hex), "48 65 6C 6C 6F");
}

#[test]
fn test_hex_format_empty() {
    assert_eq!(format_bytes(b"", DisplayFormat::Hex), "");
}

#[test]
fn test_ascii_format() {
    let result = format_bytes(b"Hello\x00World", DisplayFormat::Ascii);
    assert!(result.contains("Hello"));
    assert!(result.contains('.'));
    assert!(result.contains("World"));
}

#[test]
fn test_raw_format() {
    assert_eq!(
        format_bytes(b"Hello World", DisplayFormat::Raw),
        "Hello World"
    );
}

#[test]
fn test_single_byte_hex() {
    assert_eq!(format_bytes(&[0xFF], DisplayFormat::Hex), "FF");
    assert_eq!(format_bytes(&[0x0A], DisplayFormat::Hex), "0A");
}

#[test]
fn ascii_format_exact() {
    assert_eq!(format_bytes(b"Hello\x00World", DisplayFormat::Ascii), "Hello.World");
    assert_eq!(format_bytes(&[0x1F, 0x20, 0x7E, 0x7F, 0xFF], DisplayFormat::Ascii), ". ~..");
}

#[test]
fn hex_length_is_three_per_byte_less_one() {
    let data: Vec<u8> = (0u8..=255).collect();
    let s = format_bytes(&data, DisplayFormat::Hex);
    assert_eq!(s.len(), 3 * 256 - 1);
    assert!(s.starts_with("00 01 02"));
    assert!(s.ends_with("FE FF"));
}

#[test]
fn raw_format_replaces_invalid_utf8() {
    let s = format_bytes(&[0x41, 0xFF, 0x42], DisplayFormat::Raw);
    assert_eq!(s, "A\u{FFFD}B");
    assert_eq!(format_bytes("你好".as_bytes(), DisplayFormat::Raw), "你好");
}
