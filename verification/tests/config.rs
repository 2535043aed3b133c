use serial_tui::config::{
    default_line_ending, home_directory, join_path, AppConfig, DisplayFormat, LineEnding,
    SerialSettings,
};

#[test]
fn test_line_ending_bytes() {
    assert_eq!(LineEnding::NoEnding.as_bytes(), b"");
    assert_eq!(LineEnding::LF.as_bytes(), b"\n");
    assert_eq!(LineEnding::CR.as_bytes(), b"\r");
    assert_eq!(LineEnding::CRLF.as_bytes(), b"\r\n");
}

#[test]
fn test_default_config() {
    let config = AppConfig::default();
    assert_eq!(config.serial.baud_rate, 115200);
    assert_eq!(config.serial.data_bits, 8);
    assert_eq!(config.serial.parity, "none");
}

#[test]
fn default_config_other_fields() {
    let config = AppConfig::default();
    assert_eq!(config.serial.port, "");
    assert_eq!(config.serial.stop_bits, 1);
    assert_eq!(config.serial.flow_control, "none");
    assert_eq!(config.line_ending, LineEnding::NoEnding);
    assert_eq!(config.display_format, DisplayFormat::Ascii);
    assert_eq!(DisplayFormat::default(), DisplayFormat::Ascii);
    assert_eq!(default_line_ending(), LineEnding::NoEnding);
}

#[test]
fn duplicate_copies_every_field() {
    let s = SerialSettings {
        port: "/dev/ttyUSB0".into(),
        baud_rate: 9600,
        data_bits: 7,
        parity: "odd".into(),
        stop_bits: 2,
        flow_control: "hardware".into(),
    };
    let d = s.duplicate();
    assert_eq!(d.port, "/dev/ttyUSB0");
    assert_eq!(d.baud_rate, 9600);
    assert_eq!(d.data_bits, 7);
    assert_eq!(d.parity, "odd");
    assert_eq!(d.stop_bits, 2);
    assert_eq!(d.flow_control, "hardware");
}

#[test]
fn config_path_joins_components() {
    assert_eq!(AppConfig::config_path("/home/u"), "/home/u/.config/serial/config.toml");
    assert_eq!(AppConfig::config_dir("/home/u/"), "/home/u/.config/serial");
    assert_eq!(AppConfig::config_dir(""), ".config/serial");
    assert_eq!(join_path("a", "b"), "a/b");
    assert_eq!(join_path("a/", "b"), "a/b");
}

#[test]
fn home_directory_prefers_home() {
    assert_eq!(home_directory(Some("/h".into()), Some("C:\\u".into())), "/h");
    assert_eq!(home_directory(None, Some("C:\\u".into())), "C:\\u");
    assert_eq!(home_directory(None, None), ".");
}
