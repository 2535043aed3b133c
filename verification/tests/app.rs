use serial_tui::app::{
    App, Effect, Event, ExportDialogState, ExportField, ExportFormat, FocusArea, Key, KeyCode,
    QuickSendMode, MODIFIER_CONTROL, MODIFIER_NONE,
};
use serial_tui::export::DataRecord;
use serial_tui::command::CommandList;
use serial_tui::config::{AppConfig, DisplayFormat, LineEnding};
use serial_tui::serial::ConnectionState;

fn fresh_app() -> App {
    App::new(AppConfig::default(), CommandList::default(), Vec::new())
}

fn key(code: KeyCode) -> Event {
    Event::Key(Key::new(code, MODIFIER_NONE))
}

fn ctrl(c: char) -> Event {
    Event::Key(Key::new(KeyCode::Char(c), MODIFIER_CONTROL))
}

#[test]
fn test_initial_tab_hint_ticks_is_zero() {
    let app = fresh_app();
    assert_eq!(app.tab_hint_ticks, 0);
}

#[test]
fn test_initial_export_dialog_is_hidden() {
    let app = fresh_app();
    assert!(matches!(app.export_dialog, ExportDialogState::Hidden));
}

#[test]
fn test_tab_sets_hint_ticks() {
    let mut app = fresh_app();
    assert_eq!(app.focus, FocusArea::Terminal);
    app.tab_hint_ticks = 0;
    app.handle_event(Event::Key(Key::new(KeyCode::Tab, MODIFIER_NONE)));
    assert_eq!(app.tab_hint_ticks, 20);
    assert_eq!(app.focus, FocusArea::SendInput);
}

#[test]
fn test_tick_decrements_hint_ticks() {
    let mut app = fresh_app();
    app.tab_hint_ticks = 5;
    app.handle_event(Event::Tick);
    assert_eq!(app.tab_hint_ticks, 4);
}

#[test]
fn test_tick_does_not_underflow() {
    let mut app = fresh_app();
    app.tab_hint_ticks = 0;
    app.handle_event(Event::Tick);
    assert_eq!(app.tab_hint_ticks, 0);
}

#[test]
fn initial_state() {
    let app = App::new(AppConfig::default(), CommandList::default(), vec!["/dev/ttyS0".into()]);
    assert!(app.running);
    assert_eq!(app.baud_rate_selected, 8);
    assert_eq!(app.current_baud_rate(), 115200);
    assert_eq!(app.baud_rates().len(), 12);
    assert_eq!(app.data_bits_options[app.data_bits_selected], 8);
    assert_eq!(app.parser_registry.active_name(), "Line");
    assert_eq!(app.serial_manager.state, ConnectionState::Disconnected);
    assert_eq!(app.available_ports, vec!["/dev/ttyS0".to_string()]);
}

#[test]
fn tab_cycles_through_four_panels() {
    let mut app = fresh_app();
    let start = app.focus;
    for _ in 0..4 {
        app.handle_event(key(KeyCode::Tab));
    }
    assert_eq!(app.focus, start);
}

#[test]
fn ctrl_d_cycles_display_format() {
    let mut app = fresh_app();
    assert_eq!(app.display_format, DisplayFormat::Ascii);
    app.handle_event(ctrl('d'));
    assert_eq!(app.display_format, DisplayFormat::Raw);
    app.handle_event(ctrl('d'));
    assert_eq!(app.display_format, DisplayFormat::Hex);
    app.handle_event(ctrl('d'));
    assert_eq!(app.display_format, DisplayFormat::Ascii);
}

#[test]
fn received_lines_are_split_and_recorded() {
    let mut app = fresh_app();
    app.handle_event(Event::RxData(b"hello\r\nwor".to_vec()));
    assert_eq!(app.terminal_lines.len(), 1);
    assert_eq!(app.terminal_lines[0].raw_data, b"hello");
    assert!(app.terminal_lines[0].is_rx);
    assert_eq!(app.data_records[0].dir, "RX");
    assert_eq!(app.data_records[0].data, "hello");
    assert_eq!(app.data_records[0].time, app.terminal_lines[0].timestamp);
    assert_eq!(app.rx_buffer, b"wor");
    app.handle_event(Event::RxData(b"ld\n\n\r\n".to_vec()));
    assert_eq!(app.terminal_lines.len(), 2);
    assert_eq!(app.terminal_lines[1].raw_data, b"world");
    assert!(app.rx_buffer.is_empty());
    assert_eq!(app.rx_bytes, 16);
}

#[test]
fn chunked_and_whole_input_give_same_lines() {
    let mut a = fresh_app();
    let mut b = fresh_app();
    a.handle_event(Event::RxData(b"ab\ncd\r\nef".to_vec()));
    for chunk in [&b"a"[..], b"b\nc", b"d\r", b"\nef"] {
        b.handle_event(Event::RxData(chunk.to_vec()));
    }
    let la: Vec<Vec<u8>> = a.terminal_lines.iter().map(|l| l.raw_data.clone()).collect();
    let lb: Vec<Vec<u8>> = b.terminal_lines.iter().map(|l| l.raw_data.clone()).collect();
    assert_eq!(la, lb);
    assert_eq!(a.rx_buffer, b.rx_buffer);
}

#[test]
fn long_unterminated_data_is_flushed() {
    let mut app = fresh_app();
    app.scroll_offset = 3;
    app.handle_event(Event::RxData(vec![b'x'; 4097]));
    assert_eq!(app.terminal_lines.len(), 1);
    assert_eq!(app.terminal_lines[0].raw_data.len(), 4097);
    assert!(app.rx_buffer.is_empty());
    assert_eq!(app.scroll_offset, 0);
    app.handle_event(Event::RxData(vec![b'y'; 4096]));
    assert_eq!(app.terminal_lines.len(), 1);
    assert_eq!(app.rx_buffer.len(), 4096);
}

#[test]
fn display_uses_active_parser_then_format() {
    let mut app = fresh_app();
    app.handle_event(ctrl('p'));
    assert_eq!(app.parser_registry.active_name(), "JSON");
    app.display_format = DisplayFormat::Hex;
    app.handle_event(Event::RxData(b"AB\n".to_vec()));
    assert_eq!(app.data_records[0].data, "41 42");
}

#[test]
fn send_input_queues_framed_message() {
    let mut app = fresh_app();
    app.set_write_tx();
    app.focus = FocusArea::SendInput;
    app.handle_event(key(KeyCode::Char('l')));
    assert_eq!(app.line_ending, LineEnding::LF);
    app.handle_event(key(KeyCode::Char('A')));
    app.handle_event(key(KeyCode::Char('T')));
    app.handle_event(key(KeyCode::Char('X')));
    app.handle_event(key(KeyCode::Backspace));
    assert_eq!(app.send_input, "AT");
    app.handle_event(key(KeyCode::Enter));
    assert_eq!(app.send_input, "");
    assert_eq!(app.take_outgoing(), vec![b"AT\n".to_vec()]);
    assert!(app.take_outgoing().is_empty());
    assert_eq!(app.tx_bytes, 2);
    assert_eq!(app.terminal_lines.len(), 1);
    assert!(!app.terminal_lines[0].is_rx);
    assert_eq!(app.data_records[0].dir, "TX");
}

#[test]
fn sending_without_writer_does_nothing() {
    let mut app = fresh_app();
    app.send_data(b"AT".to_vec());
    assert!(app.terminal_lines.is_empty());
    assert_eq!(app.tx_bytes, 0);
    assert!(!app.has_writer());
}

#[test]
fn quick_send_add_send_delete() {
    let mut app = fresh_app();
    app.set_write_tx();
    app.focus = FocusArea::QuickSend;
    assert_eq!(app.handle_event(key(KeyCode::Char('a'))), Effect::Nothing);
    assert_eq!(app.quick_send_mode, QuickSendMode::Adding);
    for c in "AT+GMR".chars() {
        app.handle_event(key(KeyCode::Char(c)));
    }
    assert_eq!(app.handle_event(key(KeyCode::Enter)), Effect::SaveCommands);
    assert_eq!(app.quick_send_mode, QuickSendMode::Normal);
    assert_eq!(app.command_list.commands[0].name, "AT+GMR");
    assert_eq!(app.command_list.commands[0].data, "AT+GMR");
    app.handle_event(key(KeyCode::Enter));
    assert_eq!(app.take_outgoing(), vec![b"AT+GMR".to_vec()]);
    assert_eq!(app.handle_event(key(KeyCode::Char('d'))), Effect::SaveCommands);
    assert!(app.command_list.is_empty());
    assert_eq!(app.handle_event(key(KeyCode::Char('d'))), Effect::Nothing);
}

#[test]
fn quick_send_long_name_is_cut_to_twenty_bytes() {
    let mut app = fresh_app();
    app.focus = FocusArea::QuickSend;
    app.handle_event(key(KeyCode::Char('a')));
    for c in "ABCDEFGHIJKLMNOPQRSTUVWXYZ".chars() {
        app.handle_event(key(KeyCode::Char(c)));
    }
    app.handle_event(key(KeyCode::Enter));
    assert_eq!(app.command_list.commands[0].name, "ABCDEFGHIJKLMNOPQRST");
    assert_eq!(app.command_list.commands[0].data, "ABCDEFGHIJKLMNOPQRSTUVWXYZ");
}

#[test]
fn quick_send_escape_abandons_adding() {
    let mut app = fresh_app();
    app.focus = FocusArea::QuickSend;
    app.handle_event(key(KeyCode::Char('a')));
    app.handle_event(key(KeyCode::Char('x')));
    app.handle_event(key(KeyCode::Esc));
    assert_eq!(app.quick_send_mode, QuickSendMode::Normal);
    assert_eq!(app.send_input, "");
    assert!(app.command_list.is_empty());
}

#[test]
fn quick_send_selection_moves_within_list() {
    let mut list = CommandList::default();
    list.add("A".into(), "a".into());
    list.add("B".into(), "b".into());
    let mut app = App::new(AppConfig::default(), list, Vec::new());
    app.focus = FocusArea::QuickSend;
    app.handle_event(key(KeyCode::Up));
    assert_eq!(app.quick_send_selected, 0);
    app.handle_event(key(KeyCode::Down));
    app.handle_event(key(KeyCode::Down));
    assert_eq!(app.quick_send_selected, 1);
    app.handle_event(key(KeyCode::Char('d')));
    assert_eq!(app.quick_send_selected, 0);
    assert_eq!(app.command_list.commands[0].name, "A");
}

#[test]
fn terminal_scrolling() {
    let mut app = fresh_app();
    app.handle_event(key(KeyCode::Up));
    app.handle_event(key(KeyCode::PageUp));
    assert_eq!(app.scroll_offset, 11);
    app.handle_event(key(KeyCode::Down));
    assert_eq!(app.scroll_offset, 10);
    app.handle_event(key(KeyCode::PageDown));
    app.handle_event(key(KeyCode::PageDown));
    app.handle_event(key(KeyCode::Down));
    assert_eq!(app.scroll_offset, 0);
}

#[test]
fn ctrl_l_clears_traffic() {
    let mut app = fresh_app();
    app.handle_event(Event::RxData(b"x\n".to_vec()));
    app.scroll_offset = 2;
    app.handle_event(ctrl('l'));
    assert!(app.terminal_lines.is_empty());
    assert!(app.data_records.is_empty());
    assert_eq!(app.scroll_offset, 0);
}

#[test]
fn ctrl_e_without_data_reports() {
    let mut app = fresh_app();
    assert_eq!(app.handle_event(ctrl('e')), Effect::Nothing);
    assert_eq!(app.status_message, "\u{65e0}\u{6570}\u{636e}\u{53ef}\u{5bfc}\u{51fa}");
    app.handle_event(Event::RxData(b"x\n".to_vec()));
    assert_eq!(app.handle_event(ctrl('e')), Effect::Nothing);
    assert!(matches!(app.export_dialog, ExportDialogState::Open { .. }));
    app.export_finished("f.csv", Ok(()));
    assert_eq!(app.status_message, "\u{5df2}\u{5bfc}\u{51fa}: f.csv");
    app.export_finished("f.csv", Err("disk full".into()));
    assert_eq!(app.status_message, "\u{5bfc}\u{51fa}\u{5931}\u{8d25}: disk full");
}

#[test]
fn ctrl_r_and_ports_changed_ask_for_ports() {
    let mut app = fresh_app();
    assert_eq!(app.handle_event(ctrl('r')), Effect::RefreshPorts);
    assert_eq!(app.handle_event(Event::PortsChanged), Effect::RefreshPorts);
    app.set_available_ports(vec!["COM3".into()]);
    assert_eq!(app.available_ports, vec!["COM3".to_string()]);
}

#[test]
fn quit_saves_settings() {
    let mut app = fresh_app();
    app.line_ending = LineEnding::CRLF;
    app.display_format = DisplayFormat::Hex;
    app.serial_settings.baud_rate = 9600;
    assert_eq!(app.handle_event(ctrl('q')), Effect::Quit);
    assert!(!app.running);
    assert_eq!(app.config.line_ending, LineEnding::CRLF);
    assert_eq!(app.config.display_format, DisplayFormat::Hex);
    assert_eq!(app.config.serial.baud_rate, 9600);
    let mut other = fresh_app();
    assert_eq!(other.handle_event(Event::Quit), Effect::Quit);
    assert!(!other.running);
}

#[test]
fn settings_bar_changes_and_connects() {
    let mut app = App::new(
        AppConfig::default(),
        CommandList::default(),
        vec!["/dev/ttyS0".into(), "/dev/ttyS1".into()],
    );
    app.focus = FocusArea::Settings;
    app.handle_event(key(KeyCode::Down));
    assert_eq!(app.port_selected, 1);
    assert_eq!(app.serial_settings.port, "/dev/ttyS1");
    app.handle_event(key(KeyCode::Char('b')));
    assert_eq!(app.settings_sub_index, 1);
    app.handle_event(key(KeyCode::Up));
    assert_eq!(app.serial_settings.baud_rate, 230400);
    app.handle_event(key(KeyCode::Char('y')));
    app.handle_event(key(KeyCode::Up));
    assert_eq!(app.serial_settings.parity, "odd");
    app.handle_event(key(KeyCode::Char('f')));
    app.handle_event(key(KeyCode::Up));
    app.handle_event(key(KeyCode::Up));
    app.handle_event(key(KeyCode::Up));
    assert_eq!(app.serial_settings.flow_control, "software");
    assert_eq!(app.handle_event(key(KeyCode::Char('c'))), Effect::Connect);
    let req = app.port_request();
    assert_eq!(req.port_name, "/dev/ttyS1");
    assert_eq!(req.baud_rate, 230400);
    app.connection_opened(&req.port_name, req.baud_rate);
    assert!(app.serial_manager.is_connected());
    assert_eq!(app.status_message, "\u{5df2}\u{8fde}\u{63a5} /dev/ttyS1");
    assert_eq!(app.handle_event(key(KeyCode::Char('c'))), Effect::Nothing);
    assert_eq!(app.serial_manager.state, ConnectionState::Disconnected);
    assert!(app.serial_manager.user_disconnect);
}

#[test]
fn connect_without_port_does_nothing() {
    let mut app = fresh_app();
    assert_eq!(app.toggle_connection(), Effect::Nothing);
    app.connection_failed("busy");
    assert_eq!(app.status_message, "\u{8fde}\u{63a5}\u{5931}\u{8d25}: busy");
}

#[test]
fn serial_error_starts_reconnecting() {
    let mut app = fresh_app();
    app.connection_opened("/dev/ttyS0", 9600);
    app.handle_event(Event::SerialError("gone".into()));
    assert_eq!(app.status_message, "\u{9519}\u{8bef}: gone");
    assert_eq!(app.serial_manager.state, ConnectionState::Reconnecting);
    let req = app.reconnect_request().unwrap();
    assert_eq!(req.port_name, "/dev/ttyS0");
    assert_eq!(req.baud_rate, 9600);
    app.handle_event(Event::Tick);
    assert_eq!(
        app.status_message,
        "\u{6b63}\u{5728}\u{91cd}\u{8fde} /dev/ttyS0  (\u{7b2c} 1 \u{6b21})..."
    );
}

fn open_dialog(dir: &str, field: ExportField) -> App {
    let mut app = fresh_app();
    app.export_dialog = ExportDialogState::Open {
        format: ExportFormat::Csv,
        dir: dir.to_string(),
        field,
    };
    app
}

fn dialog_parts(app: &App) -> Option<(ExportFormat, String, ExportField)> {
    match &app.export_dialog {
        ExportDialogState::Open { format, dir, field } => Some((*format, dir.clone(), *field)),
        ExportDialogState::Hidden => None,
    }
}

#[test]
fn test_ctrl_e_no_data_no_dialog() {
    let mut app = fresh_app();
    app.handle_event(ctrl('e'));
    assert!(matches!(app.export_dialog, ExportDialogState::Hidden));
    assert!(!app.status_message.is_empty());
}

#[test]
fn test_ctrl_e_with_data_opens_dialog() {
    let mut app = fresh_app();
    app.data_records.push(DataRecord {
        time: "12:00:00.000".into(),
        dir: "RX".into(),
        data: "test".into(),
    });
    assert_eq!(app.handle_event(ctrl('e')), Effect::Nothing);
    assert_eq!(
        dialog_parts(&app),
        Some((ExportFormat::Csv, "./".to_string(), ExportField::Format))
    );
}

#[test]
fn test_export_dialog_tab_switches_format() {
    let mut app = open_dialog("./", ExportField::Format);
    app.handle_event(Event::Key(Key::new(KeyCode::Tab, MODIFIER_NONE)));
    assert_eq!(
        dialog_parts(&app),
        Some((ExportFormat::Txt, "./".to_string(), ExportField::Format))
    );
    assert_eq!(app.focus, FocusArea::Terminal);
    assert_eq!(app.tab_hint_ticks, 0);
}

#[test]
fn test_export_dialog_esc_closes() {
    let mut app = open_dialog("./", ExportField::Format);
    assert_eq!(app.handle_event(key(KeyCode::Esc)), Effect::Nothing);
    assert!(matches!(app.export_dialog, ExportDialogState::Hidden));
}

#[test]
fn test_export_dialog_dir_input() {
    let mut app = open_dialog("~/", ExportField::Dir);
    app.handle_event(key(KeyCode::Char('x')));
    assert_eq!(
        dialog_parts(&app),
        Some((ExportFormat::Csv, "~/x".to_string(), ExportField::Dir))
    );
}

#[test]
fn export_dialog_arrows_and_backspace() {
    let mut app = open_dialog("ab", ExportField::Format);
    app.handle_event(key(KeyCode::Right));
    app.handle_event(key(KeyCode::Char('z')));
    app.handle_event(key(KeyCode::Backspace));
    assert_eq!(
        dialog_parts(&app),
        Some((ExportFormat::Txt, "ab".to_string(), ExportField::Format))
    );
    app.handle_event(key(KeyCode::Down));
    app.handle_event(key(KeyCode::Tab));
    app.handle_event(key(KeyCode::Backspace));
    assert_eq!(
        dialog_parts(&app),
        Some((ExportFormat::Txt, "a".to_string(), ExportField::Dir))
    );
    app.handle_event(key(KeyCode::Up));
    app.handle_event(key(KeyCode::Left));
    assert_eq!(
        dialog_parts(&app),
        Some((ExportFormat::Csv, "a".to_string(), ExportField::Format))
    );
}

#[test]
fn export_dialog_enter_asks_for_export() {
    let mut app = open_dialog("/tmp/out/", ExportField::Dir);
    app.handle_event(Event::Key(Key::new(KeyCode::Tab, MODIFIER_NONE)));
    assert_eq!(
        app.handle_event(key(KeyCode::Enter)),
        Effect::Export { format: ExportFormat::Csv, dir: "/tmp/out/".to_string() }
    );
    assert!(matches!(app.export_dialog, ExportDialogState::Hidden));
}

#[test]
fn export_dialog_takes_shortcuts_but_not_quit() {
    let mut app = open_dialog("d", ExportField::Dir);
    app.handle_event(ctrl('d'));
    assert_eq!(app.display_format, DisplayFormat::Ascii);
    assert_eq!(
        dialog_parts(&app),
        Some((ExportFormat::Csv, "dd".to_string(), ExportField::Dir))
    );
    assert_eq!(app.handle_event(ctrl('q')), Effect::Quit);
    assert!(!app.running);
}

#[test]
fn new_lines_carry_a_time_of_day() {
    let mut app = fresh_app();
    app.handle_event(Event::RxData(b"a\nb\n".to_vec()));
    assert_eq!(app.terminal_lines.len(), 2);
    for (line, record) in app.terminal_lines.iter().zip(app.data_records.iter()) {
        assert_eq!(line.timestamp, record.time);
        let chars: Vec<char> = line.timestamp.chars().collect();
        assert_eq!(chars.len(), 12);
        for (i, c) in chars.iter().enumerate() {
            match i {
                2 | 5 => assert_eq!(*c, ':'),
                8 => assert_eq!(*c, '.'),
                _ => assert!(c.is_ascii_digit()),
            }
        }
    }
}

#[test]
fn event_fits_tells_what_can_be_handled() {
    let mut app = fresh_app();
    assert!(app.event_fits(&Event::Tick));
    assert!(app.event_fits(&key(KeyCode::Up)));
    app.rx_bytes = u64::MAX;
    assert!(!app.event_fits(&Event::RxData(vec![1])));
    assert!(app.event_fits(&Event::RxData(Vec::new())));
    app.scroll_offset = usize::MAX;
    assert!(!app.event_fits(&key(KeyCode::Up)));
    assert!(app.event_fits(&key(KeyCode::Down)));
    app.focus = FocusArea::Settings;
    app.settings_sub_index = 2;
    app.data_bits_options.clear();
    assert!(!app.event_fits(&key(KeyCode::Up)));
    assert!(app.event_fits(&key(KeyCode::Char('c'))));
    app.focus = FocusArea::QuickSend;
    app.quick_send_mode = QuickSendMode::Adding;
    app.send_input = "\u{4e00}\u{4e00}\u{4e00}\u{4e00}\u{4e00}\u{4e00}\u{4e00}".to_string();
    assert!(!app.event_fits(&key(KeyCode::Enter)));
    assert!(app.event_fits(&ctrl('q')));
    app.send_input = "abcdefghijklmnopqrstuvwxyz".to_string();
    assert!(app.event_fits(&key(KeyCode::Enter)));
}
