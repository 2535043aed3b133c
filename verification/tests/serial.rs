use serial_tui::serial::reader::{after_poll, after_read, ReadOutcome, ReaderFault, ReaderStep};
use serial_tui::serial::{ConnectionState, DataBits, FlowControl, Parity, SerialManager, StopBits};

#[test]
fn new_manager_is_disconnected() {
    let m = SerialManager::new();
    assert_eq!(m.state, ConnectionState::Disconnected);
    assert_eq!(m.last_baud_rate, 115200);
    assert!(m.last_port_name.is_none());
    assert!(!m.is_connected());
    assert!(!m.should_reconnect());
    assert!(!m.has_port());
}

#[test]
fn reconnection_is_bounded() {
    let mut m = SerialManager::new();
    m.mark_open("/dev/ttyUSB0", 9600);
    assert!(m.is_connected());
    assert!(m.has_port());
    for i in 1..=10 {
        m.enter_reconnect();
        assert_eq!(m.reconnect_count, i);
        assert!(m.should_reconnect());
        assert!(!m.has_port());
    }
    m.enter_reconnect();
    assert!(!m.should_reconnect());
    m.mark_open("/dev/ttyUSB0", 9600);
    assert_eq!(m.reconnect_count, 0);
}

#[test]
fn user_disconnect_stops_reconnection() {
    let mut m = SerialManager::new();
    m.mark_open("COM1", 115200);
    m.disconnect_by_user();
    assert_eq!(m.state, ConnectionState::Disconnected);
    m.enter_reconnect();
    assert_eq!(m.state, ConnectionState::Disconnected);
    assert_eq!(m.reconnect_count, 0);
    assert!(!m.should_reconnect());
    m.close();
    assert!(!m.is_connected());
}

#[test]
fn port_config_maps_settings() {
    let c = SerialManager::port_config("COM1", 9600, 7, "odd", 2, "hardware");
    assert_eq!(c.port_name, "COM1");
    assert_eq!(c.baud_rate, 9600);
    assert_eq!(c.data_bits, DataBits::Seven);
    assert_eq!(c.parity, Parity::Odd);
    assert_eq!(c.stop_bits, StopBits::Two);
    assert_eq!(c.flow_control, FlowControl::Hardware);
    let d = SerialManager::port_config("x", 1, 9, "weird", 3, "software");
    assert_eq!(d.data_bits, DataBits::Eight);
    assert_eq!(d.parity, Parity::Off);
    assert_eq!(d.stop_bits, StopBits::One);
    assert_eq!(d.flow_control, FlowControl::Software);
    let e = SerialManager::port_config("x", 1, 5, "even", 1, "none");
    assert_eq!(e.data_bits, DataBits::Five);
    assert_eq!(e.parity, Parity::Even);
    assert_eq!(e.flow_control, FlowControl::Off);
}

#[test]
fn reader_decisions() {
    assert_eq!(after_poll(false, Some(5)), ReaderStep::Stop);
    assert_eq!(after_poll(true, Some(0)), ReaderStep::Wait);
    assert_eq!(after_poll(true, Some(3)), ReaderStep::Read);
    assert_eq!(after_poll(true, None), ReaderStep::Fail(ReaderFault::PollFailed));
    assert_eq!(after_read(ReadOutcome::Bytes(4)), ReaderStep::Forward(4));
    assert_eq!(after_read(ReadOutcome::Bytes(0)), ReaderStep::Wait);
    assert_eq!(after_read(ReadOutcome::TimedOut), ReaderStep::Retry);
    assert_eq!(after_read(ReadOutcome::Failed), ReaderStep::Fail(ReaderFault::ReadFailed));
    assert_eq!(ReaderFault::PollFailed.message(), "\u{4e32}\u{53e3}\u{8bfb}\u{53d6}\u{9519}\u{8bef}");
    assert_eq!(ReaderFault::ReadFailed.message(), "\u{4e32}\u{53e3}\u{8bfb}\u{53d6}\u{65ad}\u{5f00}");
}
