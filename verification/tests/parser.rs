use serial_tui::protocol::parser::{
    JsonProtocol, LineProtocol, ModbusRtuProtocol, ParserRegistry, ProtocolParser,
};

#[test]
fn test_line_protocol() {
    let p = LineProtocol;
    let result = p.try_parse(b"Hello World").unwrap();
    assert_eq!(result, "Hello World");
    assert!(p.try_parse(b"  ").is_none());
}

#[test]
fn test_json_protocol() {
    let p = JsonProtocol;
    let result = p.try_parse(b"{\"key\":\"value\"}").unwrap();
    assert!(result.contains("key"));
    assert!(result.contains("value"));
    assert!(p.try_parse(b"not json").is_none());
}

#[test]
fn test_modbus_rtu_protocol() {
    let p = ModbusRtuProtocol;
    assert!(p.try_parse(&[0x01, 0x03]).is_none());
    let result = p.try_parse(&[0x01, 0x03, 0x00, 0x01]).unwrap();
    assert!(result.contains("\u{8bfb}\u{53d6}\u{4fdd}\u{6301}\u{5bc4}\u{5b58}\u{5668}"));
}

#[test]
fn test_parser_registry() {
    let mut registry = ParserRegistry::default_parsers();
    assert_eq!(registry.active_name(), "Line");
    registry.next();
    assert_eq!(registry.active_name(), "JSON");
    registry.next();
    assert_eq!(registry.active_name(), "ModbusRTU");
    registry.next();
    assert_eq!(registry.active_name(), "Line");
    assert_eq!(registry.names().len(), 3);
}

#[test]
fn parser_names() {
    assert_eq!(LineProtocol.name(), "Line");
    assert_eq!(JsonProtocol.name(), "JSON");
    assert_eq!(ModbusRtuProtocol.name(), "ModbusRTU");
    let registry = ParserRegistry::default_parsers();
    assert_eq!(registry.names(), vec!["Line".to_string(), "JSON".to_string(), "ModbusRTU".to_string()]);
}

#[test]
fn line_protocol_treats_unicode_spaces_as_blank() {
    let p = LineProtocol;
    assert!(p.try_parse("\t\r\n \u{3000}".as_bytes()).is_none());
    assert!(p.try_parse(b"").is_none());
    assert_eq!(p.try_parse(b"  x ").unwrap(), "  x ");
}

#[test]
fn json_protocol_pretty_prints() {
    let p = JsonProtocol;
    let result = p.try_parse(b"  {\"key\":\"value\"}\r\n").unwrap();
    assert_eq!(result, "{\n  \"key\": \"value\"\n}");
    assert_eq!(p.try_parse(b"[1,2]").unwrap(), "[\n  1,\n  2\n]");
    assert!(p.try_parse(b"42").is_none());
    assert!(p.try_parse(b"{broken").is_none());
    assert!(p.try_parse(b"").is_none());
}

#[test]
fn modbus_rtu_exact_text() {
    let p = ModbusRtuProtocol;
    assert_eq!(
        p.try_parse(&[0x01, 0x03, 0x00, 0x01]).unwrap(),
        "ModbusRTU | \u{5730}\u{5740}:1 | \u{529f}\u{80fd}\u{7801}:0x03(\u{8bfb}\u{53d6}\u{4fdd}\u{6301}\u{5bc4}\u{5b58}\u{5668}) | \u{6570}\u{636e}:00 01"
    );
    assert_eq!(
        p.try_parse(&[0xFF, 0x10, 0xAB]).unwrap(),
        "ModbusRTU | \u{5730}\u{5740}:255 | \u{529f}\u{80fd}\u{7801}:0x10(\u{5199}\u{591a}\u{4e2a}\u{5bc4}\u{5b58}\u{5668}) | \u{6570}\u{636e}:AB"
    );
    assert!(p.try_parse(&[0x02, 0x06, 0x00]).unwrap().contains("\u{5199}\u{5355}\u{4e2a}\u{5bc4}\u{5b58}\u{5668}"));
    assert!(p.try_parse(&[0x02, 0x07, 0x00]).unwrap().contains("\u{672a}\u{77e5}\u{529f}\u{80fd}\u{7801}"));
    assert!(p.try_parse(&[]).is_none());
}

#[test]
fn registry_parse_uses_active_parser() {
    let mut registry = ParserRegistry::default_parsers();
    assert_eq!(registry.parse(b"hi").unwrap(), "hi");
    registry.next();
    assert!(registry.parse(b"hi").is_none());
    registry.next();
    assert!(registry.parse(b"hi\x00").unwrap().starts_with("ModbusRTU"));
    registry.active_index = 7;
    assert_eq!(registry.active_name(), "\u{65e0}");
    assert!(registry.parse(b"hi").is_none());
}

#[test]
fn registry_next_cycles_back_after_all_parsers() {
    let mut registry = ParserRegistry::default_parsers();
    registry.active_index = 1;
    for _ in 0..3 {
        registry.next();
    }
    assert_eq!(registry.active_index, 1);
}
