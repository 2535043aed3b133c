//! The application's state and how it reacts to keys, received data and
//! timer ticks. Everything that touches the terminal, the port or the disk
//! is left to the caller, which performs the returned `Effect`.
use vstd::prelude::*;
use vstd::string::*;
use vstd::utf8::*;
use crate::command::CommandList;
use crate::config::{AppConfig, ConfigView, DisplayFormat, LineEnding, SerialSettings, SettingsView, line_ending_bytes};
use crate::export::DataRecord;
use crate::protocol::format::{format_bytes, formatted};
use crate::protocol::parser::{ParserKind, ParserRegistry, registry_parse, next_index};
use crate::serial::{ConnectionState, LinkView, PortConfig, SerialManager, lost_link, wants_reconnect, opened_link, user_closed_link};
use crate::serial::writer::frame_message;
use crate::text::{decimal, pop_char, push_char, push_decimal};
use crate::linebuf::{concat_bytes, received_lines, split_lines, unterminated_tail};

verus! {

/// The panel that receives keys.
#[derive(Debug, Clone, Copy, PartialEq, Eq, Structural)]
pub enum FocusArea {
    Settings,
    Terminal,
    SendInput,
    QuickSend,
}

/// Whether the quick-send panel is browsing or taking a new command.
#[derive(Debug, Clone, Copy, PartialEq, Eq, Structural)]
pub enum QuickSendMode {
    Normal,
    Adding,
}

/// The file format of an export.
#[derive(Debug, Clone, Copy, PartialEq, Eq, Structural)]
pub enum ExportFormat {
    Csv,
    Txt,
}

/// The field of the export dialog that has the focus.
#[derive(Debug, Clone, Copy, PartialEq, Eq, Structural)]
pub enum ExportField {
    Format,
    Dir,
}

/// The export dialog: hidden, or open with its current choices.
#[derive(Debug, Clone)]
pub enum ExportDialogState {
    Hidden,
    Open { format: ExportFormat, dir: String, field: ExportField },
}

/// One line of the traffic shown in the terminal panel.
#[derive(Debug, Clone)]
pub struct TerminalLine {
    pub timestamp: String,
    pub is_rx: bool,
    pub raw_data: Vec<u8>,
}

/// The key of a key press.
#[derive(Debug, Clone, Copy, PartialEq, Eq, Structural)]
pub enum KeyCode {
    Char(char),
    Tab,
    Up,
    Down,
    Left,
    Right,
    PageUp,
    PageDown,
    Enter,
    Backspace,
    Esc,
    Other,
}

/// No modifier held.
pub const MODIFIER_NONE: u8 = 0;

/// Shift held.
pub const MODIFIER_SHIFT: u8 = 1;

/// Control held.
pub const MODIFIER_CONTROL: u8 = 2;

/// Alt held.
pub const MODIFIER_ALT: u8 = 4;

/// A key press: the key and the set of held modifiers, one bit each.
#[derive(Debug, Clone, Copy, PartialEq, Eq, Structural)]
pub struct Key {
    pub code: KeyCode,
    pub modifiers: u8,
}

impl Key {
    pub fn new(code: KeyCode, modifiers: u8) -> (res: Key)
        ensures
            res.code == code,
            res.modifiers == modifiers,
    {
        Key { code, modifiers }
    }
}

/// What the application reacts to.
#[derive(Debug, Clone)]
pub enum Event {
    /// A key press.
    Key(Key),
    /// Bytes received from the port.
    RxData(Vec<u8>),
    /// The set of available ports may have changed.
    PortsChanged,
    /// The port failed or was lost.
    SerialError(String),
    /// The periodic timer.
    Tick,
    /// The application is asked to end.
    Quit,
}

/// What the caller has to do after an event.
#[derive(Debug, Clone, PartialEq, Eq)]
pub enum Effect {
    /// Nothing.
    Nothing,
    /// Save the configuration (`App::config`) and the commands, then end.
    Quit,
    /// Save the commands.
    SaveCommands,
    /// List the ports again and hand them to `set_available_ports`.
    RefreshPorts,
    /// Export the records in the format into the directory, under the name
    /// `export_file_name` gives, and report with `export_finished`.
    Export { format: ExportFormat, dir: String },
    /// Open the port `port_request` describes and report with
    /// `connection_opened` or `connection_failed`.
    Connect,
}

/// An effect as mathematical values.
pub enum EffectView {
    Nothing,
    Quit,
    SaveCommands,
    RefreshPorts,
    Export { format: ExportFormat, dir: Seq<char> },
    Connect,
}

impl View for Effect {
    type V = EffectView;

    open spec fn view(&self) -> EffectView {
        match *self {
            Effect::Nothing => EffectView::Nothing,
            Effect::Quit => EffectView::Quit,
            Effect::SaveCommands => EffectView::SaveCommands,
            Effect::RefreshPorts => EffectView::RefreshPorts,
            Effect::Export { format, dir } => EffectView::Export { format, dir: dir@ },
            Effect::Connect => EffectView::Connect,
        }
    }
}

/// The whole application state.
pub struct App {
    pub serial_manager: SerialManager,
    pub terminal_lines: Vec<TerminalLine>,
    pub data_records: Vec<DataRecord>,
    pub scroll_offset: usize,
    pub focus: FocusArea,
    /// Received bytes not yet ended by a line break.
    pub rx_buffer: Vec<u8>,
    pub serial_settings: SerialSettings,
    pub display_format: DisplayFormat,
    pub line_ending: LineEnding,
    pub send_input: String,
    pub command_list: CommandList,
    pub quick_send_selected: usize,
    pub quick_send_mode: QuickSendMode,
    pub available_ports: Vec<String>,
    pub port_selected: usize,
    pub baud_rate_selected: usize,
    /// The setting the arrow keys change: 0 port, 1 baud rate, 2 data bits,
    /// 3 parity, 4 stop bits, 5 flow control.
    pub settings_sub_index: usize,
    pub data_bits_options: Vec<u8>,
    pub data_bits_selected: usize,
    pub parity_options: Vec<&'static str>,
    pub parity_selected: usize,
    pub stop_bits_options: Vec<u8>,
    pub stop_bits_selected: usize,
    pub flow_control_options: Vec<&'static str>,
    pub flow_control_selected: usize,
    pub parser_registry: ParserRegistry,
    pub running: bool,
    pub config: AppConfig,
    pub rx_bytes: u64,
    pub tab_hint_ticks: u8,
    pub export_dialog: ExportDialogState,
    pub tx_bytes: u64,
    pub status_message: String,
    /// Whether outgoing messages have somewhere to go.
    pub writer_attached: bool,
    /// Framed messages waiting to be written to the port.
    pub outgoing: Vec<Vec<u8>>,
    pub baud_rates: Vec<u32>,
}

/// The export dialog as mathematical values.
pub enum ExportDialogView {
    Hidden,
    Open { format: ExportFormat, dir: Seq<char>, field: ExportField },
}

/// The application state as mathematical values. Timestamps are left out:
/// they come from the clock.
#[verifier::ext_equal]
pub struct AppView {
    pub serial: LinkView,
    /// Direction (`true` for received) and bytes of each terminal line.
    pub lines: Seq<(bool, Seq<u8>)>,
    /// Direction text and shown text of each record.
    pub records: Seq<(Seq<char>, Seq<char>)>,
    pub scroll_offset: int,
    pub focus: FocusArea,
    pub rx_buffer: Seq<u8>,
    pub settings: SettingsView,
    pub display_format: DisplayFormat,
    pub line_ending: LineEnding,
    pub send_input: Seq<char>,
    pub commands: Seq<(Seq<char>, Seq<char>)>,
    pub quick_send_selected: int,
    pub quick_send_mode: QuickSendMode,
    pub ports: Seq<Seq<char>>,
    pub port_selected: int,
    pub baud_rate_selected: int,
    pub settings_sub_index: int,
    pub data_bits_options: Seq<u8>,
    pub data_bits_selected: int,
    pub parity_options: Seq<Seq<char>>,
    pub parity_selected: int,
    pub stop_bits_options: Seq<u8>,
    pub stop_bits_selected: int,
    pub flow_control_options: Seq<Seq<char>>,
    pub flow_control_selected: int,
    pub parsers: Seq<ParserKind>,
    pub active_parser: int,
    pub running: bool,
    pub config: ConfigView,
    pub rx_bytes: int,
    pub tab_hint_ticks: int,
    pub export_dialog: ExportDialogView,
    pub tx_bytes: int,
    pub status: Seq<char>,
    /// Whether outgoing messages have somewhere to go.
    pub writer_attached: bool,
    /// Framed messages waiting to be written to the port.
    pub outgoing: Seq<Seq<u8>>,
    pub baud_rates: Seq<u32>,
}

impl View for App {
    type V = AppView;

    open spec fn view(&self) -> AppView {
        AppView {
            serial: self.serial_manager@,
            lines: self.terminal_lines@.map_values(|l: TerminalLine| (l.is_rx, l.raw_data@)),
            records: self.data_records@.map_values(|r: DataRecord| (r.dir@, r.data@)),
            scroll_offset: self.scroll_offset as int,
            focus: self.focus,
            rx_buffer: self.rx_buffer@,
            settings: self.serial_settings@,
            display_format: self.display_format,
            line_ending: self.line_ending,
            send_input: self.send_input@,
            commands: self.command_list@,
            quick_send_selected: self.quick_send_selected as int,
            quick_send_mode: self.quick_send_mode,
            ports: self.available_ports@.map_values(|s: String| s@),
            port_selected: self.port_selected as int,
            baud_rate_selected: self.baud_rate_selected as int,
            settings_sub_index: self.settings_sub_index as int,
            data_bits_options: self.data_bits_options@,
            data_bits_selected: self.data_bits_selected as int,
            parity_options: self.parity_options@.map_values(|s: &'static str| s@),
            parity_selected: self.parity_selected as int,
            stop_bits_options: self.stop_bits_options@,
            stop_bits_selected: self.stop_bits_selected as int,
            flow_control_options: self.flow_control_options@.map_values(|s: &'static str| s@),
            flow_control_selected: self.flow_control_selected as int,
            parsers: self.parser_registry.kinds(),
            active_parser: self.parser_registry.active_index as int,
            running: self.running,
            config: self.config@,
            rx_bytes: self.rx_bytes as int,
            tab_hint_ticks: self.tab_hint_ticks as int,
            export_dialog: match self.export_dialog {
                ExportDialogState::Hidden => ExportDialogView::Hidden,
                ExportDialogState::Open { format, dir, field } => ExportDialogView::Open {
                    format,
                    dir: dir@,
                    field,
                },
            },
            tx_bytes: self.tx_bytes as int,
            status: self.status_message@,
            writer_attached: self.writer_attached,
            outgoing: self.outgoing@.map_values(|m: Vec<u8>| m@),
            baud_rates: self.baud_rates@,
        }
    }
}

/// The baud rates offered, slowest first.
pub open spec fn offered_baud_rates() -> Seq<u32> {
    seq![300, 1200, 2400, 4800, 9600, 19200, 38400, 57600, 115200, 230400, 460800, 921600]
}

/// The state right after start-up, from the loaded configuration and
/// commands and the ports found.
pub open spec fn initial_view(
    config: ConfigView,
    commands: Seq<(Seq<char>, Seq<char>)>,
    ports: Seq<Seq<char>>,
) -> AppView {
    AppView {
        serial: crate::serial::initial_link(),
        lines: Seq::empty(),
        records: Seq::empty(),
        scroll_offset: 0,
        focus: FocusArea::Terminal,
        rx_buffer: Seq::empty(),
        settings: config.serial,
        display_format: config.display_format,
        line_ending: config.line_ending,
        send_input: Seq::empty(),
        commands,
        quick_send_selected: 0,
        quick_send_mode: QuickSendMode::Normal,
        ports,
        port_selected: 0,
        baud_rate_selected: 8,
        settings_sub_index: 0,
        data_bits_options: seq![5u8, 6u8, 7u8, 8u8],
        data_bits_selected: 3,
        parity_options: seq!["none"@, "odd"@, "even"@],
        parity_selected: 0,
        stop_bits_options: seq![1u8, 2u8],
        stop_bits_selected: 0,
        flow_control_options: seq!["none"@, "hardware"@, "software"@],
        flow_control_selected: 0,
        parsers: seq![ParserKind::Line, ParserKind::Json, ParserKind::ModbusRtu],
        active_parser: 0,
        running: true,
        config,
        rx_bytes: 0,
        tab_hint_ticks: 0,
        export_dialog: ExportDialogView::Hidden,
        tx_bytes: 0,
        status: Seq::empty(),
        writer_attached: false,
        outgoing: Seq::empty(),
        baud_rates: offered_baud_rates(),
    }
}

/// The text shown for a frame: the active parser's description, else the
/// bytes in the display format.
pub open spec fn shown_text(v: AppView, data: Seq<u8>) -> Seq<char> {
    match registry_parse(v.parsers, v.active_parser, data) {
        Some(s) => s,
        None => formatted(data, v.display_format),
    }
}

/// `RX` for received traffic, `TX` for sent.
pub open spec fn direction_text(is_rx: bool) -> Seq<char> {
    if is_rx { "RX"@ } else { "TX"@ }
}

/// The state with one more line of traffic and its record.
pub open spec fn with_traffic(v: AppView, is_rx: bool, data: Seq<u8>) -> AppView {
    AppView {
        lines: v.lines.push((is_rx, data)),
        records: v.records.push((direction_text(is_rx), shown_text(v, data))),
        ..v
    }
}

/// Whether a character is a decimal digit.
pub open spec fn is_digit(c: char) -> bool {
    '0' <= c <= '9'
}

/// Whether a text has the shape of a time of day `HH:MM:SS.mmm`: twelve
/// characters, `:` at positions 2 and 5, `.` at position 8, digits elsewhere.
#[verifier::opaque]
pub open spec fn clock_stamp(s: Seq<char>) -> bool {
    &&& s.len() == 12
    &&& forall|i: int|
        0 <= i < 12 ==> if i == 2 || i == 5 {
            #[trigger] s[i] == ':'
        } else if i == 8 {
            s[i] == '.'
        } else {
            is_digit(s[i])
        }
}

/// Every line the call added carries the timestamp of the record added
/// with it, a time of day of the shape `HH:MM:SS.mmm`, and the lines and
/// records that were there stay as they were.
pub open spec fn stamps_paired(old: &App, new: &App) -> bool {
    let ol = old.terminal_lines@.len();
    let orr = old.data_records@.len();
    &&& (new.terminal_lines@.len() >= ol && new.data_records@.len() >= orr) ==> {
        &&& new.data_records@.len() - orr == new.terminal_lines@.len() - ol
        &&& new.terminal_lines@.subrange(0, ol as int) == old.terminal_lines@
        &&& new.data_records@.subrange(0, orr as int) == old.data_records@
        &&& forall|j: int|
            0 <= j < new.terminal_lines@.len() - ol ==> {
                &&& (#[trigger] new.terminal_lines@[ol + j]).timestamp@ == new.data_records@[orr + j].time@
                &&& clock_stamp(new.terminal_lines@[ol + j].timestamp@)
            }
    }
}

/// The state after sending a message: where a writer is attached, the
/// framed message is queued, the sent-byte count grows, and a `TX` line is
/// added; otherwise nothing changes.
pub open spec fn sent(v: AppView, data: Seq<u8>) -> AppView {
    if v.writer_attached {
        with_traffic(
            AppView {
                outgoing: v.outgoing.push(data + line_ending_bytes(v.line_ending)),
                tx_bytes: v.tx_bytes + data.len(),
                ..v
            },
            false,
            data,
        )
    } else {
        v
    }
}

/// Whether sending `data` keeps the sent-byte count within `u64`.
pub open spec fn send_fits(v: AppView, data: Seq<u8>) -> bool {
    v.writer_attached ==> v.tx_bytes + data.len() <= u64::MAX
}

/// The selected baud rate, or 115200 where the selection is out of range.
pub open spec fn chosen_baud(v: AppView) -> u32 {
    if 0 <= v.baud_rate_selected < v.baud_rates.len() {
        v.baud_rates[v.baud_rate_selected]
    } else {
        115200
    }
}

/// Whether the data-bits, parity, stop-bits and flow-control selections
/// are within their option lists.
pub open spec fn selections_valid(v: AppView) -> bool {
    &&& 0 <= v.data_bits_selected < v.data_bits_options.len()
    &&& 0 <= v.parity_selected < v.parity_options.len()
    &&& 0 <= v.stop_bits_selected < v.stop_bits_options.len()
    &&& 0 <= v.flow_control_selected < v.flow_control_options.len()
}

/// The state with the serial settings taken from the selections.
pub open spec fn synced(v: AppView) -> AppView {
    AppView {
        settings: SettingsView {
            port: if 0 <= v.port_selected < v.ports.len() {
                v.ports[v.port_selected]
            } else {
                v.settings.port
            },
            baud_rate: chosen_baud(v),
            data_bits: v.data_bits_options[v.data_bits_selected],
            parity: v.parity_options[v.parity_selected],
            stop_bits: v.stop_bits_options[v.stop_bits_selected],
            flow_control: v.flow_control_options[v.flow_control_selected],
        },
        ..v
    }
}

/// The state with the configuration taken from the current settings.
pub open spec fn config_saved(v: AppView) -> AppView {
    AppView {
        config: ConfigView {
            serial: v.settings,
            line_ending: v.line_ending,
            display_format: v.display_format,
        },
        ..v
    }
}

/// Connecting or disconnecting: a connected port is closed at the user's
/// request; otherwise, where a port is selected, the settings take that
/// port and the selected baud rate and a connection is requested.
pub open spec fn toggled(v: AppView) -> (AppView, EffectView) {
    if v.serial.state == ConnectionState::Connected {
        (AppView { serial: user_closed_link(v.serial), ..v }, EffectView::Nothing)
    } else if 0 <= v.port_selected < v.ports.len() {
        (
            AppView {
                settings: SettingsView {
                    port: v.ports[v.port_selected],
                    baud_rate: chosen_baud(v),
                    ..v.settings
                },
                ..v
            },
            EffectView::Connect,
        )
    } else {
        (v, EffectView::Nothing)
    }
}

/// Whether the port parameters are those for reopening the last port: its
/// name and baud rate, and the other parameters from the settings.
pub open spec fn reopens(c: PortConfig, v: AppView) -> bool {
    &&& Some(c.port_name@) == v.serial.last_port_name
    &&& c.baud_rate == v.serial.last_baud_rate
    &&& c.data_bits == crate::serial::data_bits_for(v.settings.data_bits)
    &&& c.parity == crate::serial::parity_for(v.settings.parity)
    &&& c.stop_bits == crate::serial::stop_bits_for(v.settings.stop_bits)
    &&& c.flow_control == crate::serial::flow_control_for(v.settings.flow_control)
}

/// The state with one received line of traffic per line, in order.
pub open spec fn with_rx_lines(v: AppView, lines: Seq<Seq<u8>>) -> AppView
    decreases lines.len(),
{
    if lines.len() == 0 {
        v
    } else {
        with_traffic(with_rx_lines(v, lines.drop_last()), true, lines.last())
    }
}

/// The state after receiving `data`: the count of received bytes grows;
/// the pending bytes and `data` are split into lines, each non-empty line
/// is shown and recorded; what follows the last line break stays pending,
/// unless it is longer than 4096 bytes, in which case it is shown and
/// recorded as a line of its own; the view scrolls back to the end.
pub open spec fn received(v: AppView, data: Seq<u8>) -> AppView {
    let b = v.rx_buffer + data;
    let v1 = with_rx_lines(AppView { rx_bytes: v.rx_bytes + data.len(), ..v }, received_lines(b));
    let t = unterminated_tail(b);
    let v2 = if t.len() > 4096 {
        AppView { rx_buffer: Seq::empty(), ..with_traffic(v1, true, t) }
    } else {
        AppView { rx_buffer: t, ..v1 }
    };
    AppView { scroll_offset: 0, ..v2 }
}

/// The state with the status line replaced.
pub open spec fn with_status(v: AppView, status: Seq<char>) -> AppView {
    AppView { status, ..v }
}

/// Pairing of timestamps carries over from one change to the next.
pub proof fn lemma_stamps_chain(a: &App, b: &App, c: &App)
    requires
        stamps_paired(a, b),
        stamps_paired(b, c),
        b.terminal_lines@.len() >= a.terminal_lines@.len(),
        c.terminal_lines@.len() >= b.terminal_lines@.len(),
        b.data_records@.len() >= a.data_records@.len(),
        c.data_records@.len() >= b.data_records@.len(),
    ensures
        stamps_paired(a, c),
{
    let al = a.terminal_lines@.len() as int;
    let ar = a.data_records@.len() as int;
    let bl = b.terminal_lines@.len() as int;
    let br = b.data_records@.len() as int;
    assert(c.terminal_lines@.subrange(0, al) =~= a.terminal_lines@) by {
        assert forall|j: int| 0 <= j < al implies c.terminal_lines@[j] == a.terminal_lines@[j] by {
            assert(c.terminal_lines@[j] == c.terminal_lines@.subrange(0, bl)[j]);
            assert(b.terminal_lines@[j] == b.terminal_lines@.subrange(0, al)[j]);
        }
    }
    assert(c.data_records@.subrange(0, ar) =~= a.data_records@) by {
        assert forall|j: int| 0 <= j < ar implies c.data_records@[j] == a.data_records@[j] by {
            assert(c.data_records@[j] == c.data_records@.subrange(0, br)[j]);
            assert(b.data_records@[j] == b.data_records@.subrange(0, ar)[j]);
        }
    }
    assert forall|j: int| 0 <= j < c.terminal_lines@.len() - al implies {
        &&& (#[trigger] c.terminal_lines@[al + j]).timestamp@ == c.data_records@[ar + j].time@
        &&& clock_stamp(c.terminal_lines@[al + j].timestamp@)
    } by {
        if al + j < bl {
            assert(c.terminal_lines@[al + j] == c.terminal_lines@.subrange(0, bl)[al + j]);
            assert(c.data_records@[ar + j] == c.data_records@.subrange(0, br)[ar + j]);
            assert(b.terminal_lines@[al + j].timestamp@ == b.data_records@[ar + j].time@);
            assert(clock_stamp(b.terminal_lines@[al + j].timestamp@));
        } else {
            let k = al + j - bl;
            assert(c.terminal_lines@[bl + k].timestamp@ == c.data_records@[br + k].time@);
            assert(clock_stamp(c.terminal_lines@[bl + k].timestamp@));
        }
    }
}

/// Lines and records that stay as they were keep their pairing.
pub proof fn lemma_stamps_kept(a: &App, b: &App)
    requires
        b.terminal_lines@ == a.terminal_lines@,
        b.data_records@ == a.data_records@,
    ensures
        stamps_paired(a, b),
{
    assert(b.terminal_lines@.subrange(0, a.terminal_lines@.len() as int) =~= a.terminal_lines@);
    assert(b.data_records@.subrange(0, a.data_records@.len() as int) =~= a.data_records@);
}

/// The panel after `f` in Tab order.
pub open spec fn next_focus(f: FocusArea) -> FocusArea {
    match f {
        FocusArea::Settings => FocusArea::Terminal,
        FocusArea::Terminal => FocusArea::SendInput,
        FocusArea::SendInput => FocusArea::QuickSend,
        FocusArea::QuickSend => FocusArea::Settings,
    }
}

/// The display format after `f`: hex, ASCII, raw, and round again.
pub open spec fn next_format(f: DisplayFormat) -> DisplayFormat {
    match f {
        DisplayFormat::Hex => DisplayFormat::Ascii,
        DisplayFormat::Ascii => DisplayFormat::Raw,
        DisplayFormat::Raw => DisplayFormat::Hex,
    }
}

/// The line ending after `le`: none, LF, CR, CRLF, and round again.
pub open spec fn next_ending(le: LineEnding) -> LineEnding {
    match le {
        LineEnding::NoEnding => LineEnding::LF,
        LineEnding::LF => LineEnding::CR,
        LineEnding::CR => LineEnding::CRLF,
        LineEnding::CRLF => LineEnding::NoEnding,
    }
}

/// Whether the key is Control (and nothing else) with the character `c`.
pub open spec fn is_ctrl(key: Key, c: char) -> bool {
    key.modifiers == MODIFIER_CONTROL && key.code == KeyCode::Char(c)
}

/// The terminal panel: arrows scroll by one line, page keys by ten.
pub open spec fn terminal_stepped(v: AppView, key: Key) -> AppView {
    match key.code {
        KeyCode::Up => AppView { scroll_offset: v.scroll_offset + 1, ..v },
        KeyCode::Down => if v.scroll_offset > 0 {
            AppView { scroll_offset: v.scroll_offset - 1, ..v }
        } else {
            v
        },
        KeyCode::PageUp => AppView { scroll_offset: v.scroll_offset + 10, ..v },
        KeyCode::PageDown => AppView {
            scroll_offset: if v.scroll_offset >= 10 { v.scroll_offset - 10 } else { 0 },
            ..v
        },
        _ => v,
    }
}

/// Whether scrolling back stays within `usize`.
pub open spec fn terminal_fits(v: AppView, key: Key) -> bool {
    match key.code {
        KeyCode::Up => v.scroll_offset + 1 <= usize::MAX,
        KeyCode::PageUp => v.scroll_offset + 10 <= usize::MAX,
        _ => true,
    }
}

/// The send panel: a plain `l` cycles the line ending, other characters
/// are typed, Backspace deletes, Enter sends the typed text (as UTF-8) and
/// clears it.
pub open spec fn send_input_stepped(v: AppView, key: Key) -> AppView {
    match key.code {
        KeyCode::Char(c) => if c == 'l' && key.modifiers == MODIFIER_NONE {
            AppView { line_ending: next_ending(v.line_ending), ..v }
        } else {
            AppView { send_input: v.send_input.push(c), ..v }
        },
        KeyCode::Backspace => if v.send_input.len() > 0 {
            AppView { send_input: v.send_input.drop_last(), ..v }
        } else {
            v
        },
        KeyCode::Enter => {
            let cleared = AppView { send_input: Seq::empty(), ..v };
            if v.send_input.len() > 0 {
                sent(cleared, encode_utf8(v.send_input))
            } else {
                cleared
            }
        },
        _ => v,
    }
}

/// Whether sending from the send panel keeps the byte count in range.
pub open spec fn send_input_fits(v: AppView, key: Key) -> bool {
    key.code == KeyCode::Enter && v.send_input.len() > 0 ==> send_fits(
        AppView { send_input: Seq::empty(), ..v },
        encode_utf8(v.send_input),
    )
}

/// The name of a new command: its first 20 bytes where it is longer.
pub open spec fn command_name(input: Seq<char>) -> Seq<char> {
    if encode_utf8(input).len() > 20 {
        decode_utf8(encode_utf8(input).subrange(0, 20))
    } else {
        input
    }
}

/// The selection after deleting from `len` commands at `sel`.
pub open spec fn selection_after_delete(sel: int, len: int) -> int {
    if sel >= len && sel > 0 {
        sel - 1
    } else {
        sel
    }
}

/// The quick-send panel. While adding, characters are typed, Backspace
/// deletes, Enter saves the typed text as a command (named by its first 20
/// bytes) and Esc gives up. Otherwise the arrows move the selection, Enter
/// sends the selected command, `a` starts adding and `d` deletes the
/// selected command.
pub open spec fn quick_send_stepped(v: AppView, key: Key) -> (AppView, EffectView) {
    match v.quick_send_mode {
        QuickSendMode::Adding => match key.code {
            KeyCode::Char(c) => (AppView { send_input: v.send_input.push(c), ..v }, EffectView::Nothing),
            KeyCode::Backspace => if v.send_input.len() > 0 {
                (AppView { send_input: v.send_input.drop_last(), ..v }, EffectView::Nothing)
            } else {
                (v, EffectView::Nothing)
            },
            KeyCode::Enter => if v.send_input.len() > 0 {
                (
                    AppView {
                        send_input: Seq::empty(),
                        commands: v.commands.push((command_name(v.send_input), v.send_input)),
                        quick_send_mode: QuickSendMode::Normal,
                        ..v
                    },
                    EffectView::SaveCommands,
                )
            } else {
                (AppView { send_input: Seq::empty(), ..v }, EffectView::Nothing)
            },
            KeyCode::Esc => (
                AppView { send_input: Seq::empty(), quick_send_mode: QuickSendMode::Normal, ..v },
                EffectView::Nothing,
            ),
            _ => (v, EffectView::Nothing),
        },
        QuickSendMode::Normal => match key.code {
            KeyCode::Up => if v.quick_send_selected > 0 {
                (AppView { quick_send_selected: v.quick_send_selected - 1, ..v }, EffectView::Nothing)
            } else {
                (v, EffectView::Nothing)
            },
            KeyCode::Down => if v.quick_send_selected + 1 < v.commands.len() {
                (AppView { quick_send_selected: v.quick_send_selected + 1, ..v }, EffectView::Nothing)
            } else {
                (v, EffectView::Nothing)
            },
            KeyCode::Enter => if v.quick_send_selected < v.commands.len() {
                (sent(v, encode_utf8(v.commands[v.quick_send_selected].1)), EffectView::Nothing)
            } else {
                (v, EffectView::Nothing)
            },
            KeyCode::Char(c) => if c == 'a' {
                (
                    AppView { send_input: Seq::empty(), quick_send_mode: QuickSendMode::Adding, ..v },
                    EffectView::Nothing,
                )
            } else if c == 'd' && v.commands.len() > 0 {
                let commands = if v.quick_send_selected < v.commands.len() {
                    v.commands.remove(v.quick_send_selected)
                } else {
                    v.commands
                };
                (
                    AppView {
                        commands,
                        quick_send_selected: selection_after_delete(
                            v.quick_send_selected,
                            commands.len() as int,
                        ),
                        ..v
                    },
                    EffectView::SaveCommands,
                )
            } else {
                (v, EffectView::Nothing)
            },
            _ => (v, EffectView::Nothing),
        },
    }
}

/// Where the quick-send panel would fail: cutting a name inside a
/// character, or overflowing the sent-byte count.
pub open spec fn quick_send_fits(v: AppView, key: Key) -> bool {
    match v.quick_send_mode {
        QuickSendMode::Adding => key.code == KeyCode::Enter && encode_utf8(v.send_input).len() > 20
            ==> is_char_boundary(encode_utf8(v.send_input), 20),
        QuickSendMode::Normal => key.code == KeyCode::Enter && v.quick_send_selected
            < v.commands.len() ==> send_fits(v, encode_utf8(v.commands[v.quick_send_selected].1)),
    }
}

/// The arrow keys in the settings bar: Up moves the selected setting to
/// the next option (for the port, Down does), Down to the previous one,
/// without leaving the list.
pub open spec fn adjusted(v: AppView, code: KeyCode) -> AppView {
    let up = code == KeyCode::Up;
    let down = code == KeyCode::Down;
    if v.settings_sub_index == 0 {
        if up && v.port_selected > 0 {
            AppView { port_selected: v.port_selected - 1, ..v }
        } else if down && v.ports.len() > 0 && v.port_selected < v.ports.len() - 1 {
            AppView { port_selected: v.port_selected + 1, ..v }
        } else {
            v
        }
    } else if v.settings_sub_index == 1 {
        if up && v.baud_rate_selected < v.baud_rates.len() - 1 {
            AppView { baud_rate_selected: v.baud_rate_selected + 1, ..v }
        } else if down && v.baud_rate_selected > 0 {
            AppView { baud_rate_selected: v.baud_rate_selected - 1, ..v }
        } else {
            v
        }
    } else if v.settings_sub_index == 2 {
        if up && v.data_bits_selected < v.data_bits_options.len() - 1 {
            AppView { data_bits_selected: v.data_bits_selected + 1, ..v }
        } else if down && v.data_bits_selected > 0 {
            AppView { data_bits_selected: v.data_bits_selected - 1, ..v }
        } else {
            v
        }
    } else if v.settings_sub_index == 3 {
        if up && v.parity_selected < v.parity_options.len() - 1 {
            AppView { parity_selected: v.parity_selected + 1, ..v }
        } else if down && v.parity_selected > 0 {
            AppView { parity_selected: v.parity_selected - 1, ..v }
        } else {
            v
        }
    } else if v.settings_sub_index == 4 {
        if up && v.stop_bits_selected < v.stop_bits_options.len() - 1 {
            AppView { stop_bits_selected: v.stop_bits_selected + 1, ..v }
        } else if down && v.stop_bits_selected > 0 {
            AppView { stop_bits_selected: v.stop_bits_selected - 1, ..v }
        } else {
            v
        }
    } else if v.settings_sub_index == 5 {
        if up && v.flow_control_selected < v.flow_control_options.len() - 1 {
            AppView { flow_control_selected: v.flow_control_selected + 1, ..v }
        } else if down && v.flow_control_selected > 0 {
            AppView { flow_control_selected: v.flow_control_selected - 1, ..v }
        } else {
            v
        }
    } else {
        v
    }
}

/// The settings sub-item a letter selects, if any.
pub open spec fn setting_letter(c: char) -> Option<int> {
    if c == 'p' {
        Some(0)
    } else if c == 'b' {
        Some(1)
    } else if c == 'd' {
        Some(2)
    } else if c == 'y' {
        Some(3)
    } else if c == 's' {
        Some(4)
    } else if c == 'f' {
        Some(5)
    } else {
        None
    }
}

/// Whether the key is a letter the settings bar reacts to by itself.
pub open spec fn settings_letter_key(key: Key) -> bool {
    match key.code {
        KeyCode::Char(c) => c == 'c' || setting_letter(c) is Some,
        _ => false,
    }
}

/// The settings bar: `p b d y s f` pick the setting the arrows change,
/// `c` connects or disconnects; any other key adjusts the picked setting
/// and takes the selections into the serial settings.
pub open spec fn settings_stepped(v: AppView, key: Key) -> (AppView, EffectView) {
    match key.code {
        KeyCode::Char(c) => if c == 'c' {
            toggled(v)
        } else if setting_letter(c) is Some {
            (AppView { settings_sub_index: setting_letter(c)->0, ..v }, EffectView::Nothing)
        } else {
            (synced(adjusted(v, key.code)), EffectView::Nothing)
        },
        _ => (synced(adjusted(v, key.code)), EffectView::Nothing),
    }
}

/// Where the settings bar would fail: an option list to move up in that is
/// empty, or a selection outside its list.
pub open spec fn settings_fits(v: AppView, key: Key) -> bool {
    !settings_letter_key(key) ==> {
        &&& key.code == KeyCode::Up && v.settings_sub_index == 1 ==> v.baud_rates.len() > 0
        &&& key.code == KeyCode::Up && v.settings_sub_index == 2 ==> v.data_bits_options.len() > 0
        &&& key.code == KeyCode::Up && v.settings_sub_index == 3 ==> v.parity_options.len() > 0
        &&& key.code == KeyCode::Up && v.settings_sub_index == 4 ==> v.stop_bits_options.len() > 0
        &&& key.code == KeyCode::Up && v.settings_sub_index == 5 ==> v.flow_control_options.len() > 0
        &&& selections_valid(adjusted(v, key.code))
    }
}

/// The other export format: CSV and text swap.
pub open spec fn other_format(f: ExportFormat) -> ExportFormat {
    match f {
        ExportFormat::Csv => ExportFormat::Txt,
        ExportFormat::Txt => ExportFormat::Csv,
    }
}

/// The other field of the export dialog.
pub open spec fn other_field(f: ExportField) -> ExportField {
    match f {
        ExportField::Format => ExportField::Dir,
        ExportField::Dir => ExportField::Format,
    }
}

/// The export dialog as Control-E opens it: CSV, the directory `./`, and
/// the format field focused.
pub open spec fn opened_dialog() -> ExportDialogView {
    ExportDialogView::Open { format: ExportFormat::Csv, dir: "./"@, field: ExportField::Format }
}

/// The state with the export dialog replaced.
pub open spec fn with_dialog(v: AppView, d: ExportDialogView) -> AppView {
    AppView { export_dialog: d, ..v }
}

/// A key while the export dialog is open. Esc closes it; Enter closes it
/// and asks for an export in the chosen format into the chosen directory.
/// On the format field Tab, Left and Right swap CSV and text; Up and Down
/// move to the other field; on the directory field characters are typed
/// into the directory and Backspace deletes its last character. Other keys
/// change nothing.
pub open spec fn export_dialog_stepped(v: AppView, key: Key) -> (AppView, EffectView) {
    match v.export_dialog {
        ExportDialogView::Hidden => (v, EffectView::Nothing),
        ExportDialogView::Open { format, dir, field } => {
            let on_format = field == ExportField::Format;
            let on_dir = field == ExportField::Dir;
            let swapped = with_dialog(
                v,
                ExportDialogView::Open { format: other_format(format), dir, field },
            );
            let moved = with_dialog(v, ExportDialogView::Open { format, dir, field: other_field(field) });
            match key.code {
                KeyCode::Esc => (with_dialog(v, ExportDialogView::Hidden), EffectView::Nothing),
                KeyCode::Enter => (
                    with_dialog(v, ExportDialogView::Hidden),
                    EffectView::Export { format, dir },
                ),
                KeyCode::Tab => (if on_format { swapped } else { v }, EffectView::Nothing),
                KeyCode::Left => (if on_format { swapped } else { v }, EffectView::Nothing),
                KeyCode::Right => (if on_format { swapped } else { v }, EffectView::Nothing),
                KeyCode::Up => (moved, EffectView::Nothing),
                KeyCode::Down => (moved, EffectView::Nothing),
                KeyCode::Char(c) => (
                    if on_dir {
                        with_dialog(v, ExportDialogView::Open { format, dir: dir.push(c), field })
                    } else {
                        v
                    },
                    EffectView::Nothing,
                ),
                KeyCode::Backspace => (
                    if on_dir && dir.len() > 0 {
                        with_dialog(v, ExportDialogView::Open { format, dir: dir.drop_last(), field })
                    } else {
                        v
                    },
                    EffectView::Nothing,
                ),
                _ => (v, EffectView::Nothing),
            }
        },
    }
}

/// Whether the key is one of the global shortcuts.
pub open spec fn global_key(key: Key) -> bool {
    ||| is_ctrl(key, 'q')
    ||| is_ctrl(key, 'd')
    ||| is_ctrl(key, 'l')
    ||| is_ctrl(key, 'p')
    ||| is_ctrl(key, 'r')
    ||| is_ctrl(key, 'e')
    ||| key.code == KeyCode::Tab
}

/// A key press. Control with `q` quits after taking the settings into the
/// configuration, with `d` cycles the display format, with `l` clears the
/// traffic, with `p` activates the next parser, with `r` asks for the
/// ports again, with `e` opens the export dialog (or says there is nothing
/// to export); Tab moves the focus on and shows the focus hint for 20
/// ticks. Any other key goes to the focused panel. While the export dialog
/// is open it takes every key but Control-Q.
pub open spec fn key_stepped(v: AppView, key: Key) -> (AppView, EffectView) {
    if is_ctrl(key, 'q') {
        (AppView { running: false, ..config_saved(v) }, EffectView::Quit)
    } else if v.export_dialog is Open {
        export_dialog_stepped(v, key)
    } else if is_ctrl(key, 'd') {
        (AppView { display_format: next_format(v.display_format), ..v }, EffectView::Nothing)
    } else if is_ctrl(key, 'l') {
        (AppView { lines: Seq::empty(), records: Seq::empty(), scroll_offset: 0, ..v }, EffectView::Nothing)
    } else if is_ctrl(key, 'p') {
        (
            AppView { active_parser: next_index(v.active_parser, v.parsers.len() as int), ..v },
            EffectView::Nothing,
        )
    } else if is_ctrl(key, 'r') {
        (v, EffectView::RefreshPorts)
    } else if is_ctrl(key, 'e') {
        if v.records.len() == 0 {
            (
                with_status(v, "\u{65e0}\u{6570}\u{636e}\u{53ef}\u{5bfc}\u{51fa}"@),
                EffectView::Nothing,
            )
        } else {
            (with_dialog(v, opened_dialog()), EffectView::Nothing)
        }
    } else if key.code == KeyCode::Tab {
        (AppView { focus: next_focus(v.focus), tab_hint_ticks: 20, ..v }, EffectView::Nothing)
    } else {
        match v.focus {
            FocusArea::Settings => settings_stepped(v, key),
            FocusArea::Terminal => (terminal_stepped(v, key), EffectView::Nothing),
            FocusArea::SendInput => (send_input_stepped(v, key), EffectView::Nothing),
            FocusArea::QuickSend => quick_send_stepped(v, key),
        }
    }
}

/// Where a key press would fail: see the panels' conditions, and the
/// parser index must be able to move on.
pub open spec fn key_fits(v: AppView, key: Key) -> bool {
    if is_ctrl(key, 'q') || v.export_dialog is Open {
        true
    } else if is_ctrl(key, 'p') {
        v.parsers.len() > 0 ==> v.active_parser < usize::MAX
    } else if global_key(key) {
        true
    } else {
        match v.focus {
            FocusArea::Settings => settings_fits(v, key),
            FocusArea::Terminal => terminal_fits(v, key),
            FocusArea::SendInput => send_input_fits(v, key),
            FocusArea::QuickSend => quick_send_fits(v, key),
        }
    }
}

/// The status shown while reconnecting.
pub open spec fn reconnect_status(s: LinkView) -> Seq<char> {
    "\u{6b63}\u{5728}\u{91cd}\u{8fde} "@ + s.last_port_name->0 + "  (\u{7b2c} "@ + decimal(
        s.reconnect_count as nat,
    ) + " \u{6b21})..."@
}

/// A timer tick: the focus hint fades by one tick, and while a
/// reconnection is wanted the status says so.
pub open spec fn ticked(v: AppView) -> AppView {
    let v1 = AppView {
        tab_hint_ticks: if v.tab_hint_ticks > 0 { v.tab_hint_ticks - 1 } else { 0 },
        ..v
    };
    if wants_reconnect(v.serial) {
        with_status(v1, reconnect_status(v.serial))
    } else {
        v1
    }
}

/// How the application reacts to an event.
pub open spec fn event_stepped(v: AppView, e: Event) -> (AppView, EffectView) {
    match e {
        Event::Key(k) => key_stepped(v, k),
        Event::RxData(d) => (received(v, d@), EffectView::Nothing),
        Event::PortsChanged => (v, EffectView::RefreshPorts),
        Event::SerialError(msg) => (
            AppView {
                status: "\u{9519}\u{8bef}: "@ + msg@,
                serial: lost_link(v.serial),
                ..v
            },
            EffectView::Nothing,
        ),
        Event::Tick => (ticked(v), EffectView::Nothing),
        Event::Quit => (AppView { running: false, ..config_saved(v) }, EffectView::Quit),
    }
}

/// Where reacting to an event would fail: see `key_fits`; the counts of
/// received bytes and of reconnection rounds must stay within range.
pub open spec fn event_fits(v: AppView, e: Event) -> bool {
    match e {
        Event::Key(k) => key_fits(v, k),
        Event::RxData(d) => v.rx_bytes + d@.len() <= u64::MAX,
        Event::SerialError(_) => !v.serial.user_disconnect ==> v.serial.reconnect_count < u32::MAX,
        _ => true,
    }
}

/// A selection after an arrow key, as the settings bar moves it: Up to
/// the next option where there is one, Down to the previous one.
fn stepped_index(selected: usize, len: usize, up: bool, down: bool) -> (res: usize)
    requires
        up ==> len > 0,
    ensures
        res as int == if up && selected < len - 1 {
            selected + 1
        } else if down && selected > 0 {
            selected - 1
        } else {
            selected as int
        },
{
    if up && selected < len - 1 {
        selected + 1
    } else if down && selected > 0 {
        selected - 1
    } else {
        selected
    }
}

/// The local time of day, `HH:MM:SS.mmm` (chrono's
/// `Local::now().format("%H:%M:%S.%3f")`). Which time it is depends on the
/// clock and the time zone; claimed is only its shape, which holds of every
/// outcome: chrono writes hour, minute and second as two zero-padded digits
/// each and the milliseconds as three, so the text is twelve characters,
/// digits but for `:` after the hour and the minute and `.` after the second.
#[verifier::external_body]
fn line_timestamp() -> (res: String)
    ensures
        clock_stamp(res@),
{
    chrono::Local::now().format("%H:%M:%S.%3f").to_string()
}

impl App {
    /// The state right after start-up, from the loaded configuration and
    /// commands and the ports found.
    pub fn new(config: AppConfig, command_list: CommandList, available_ports: Vec<String>) -> (res: Self)
        ensures
            res@ == initial_view(config@, command_list@, available_ports@.map_values(|s: String| s@)),
    {
        let serial_settings = config.serial.duplicate();
        let display_format = config.display_format;
        let line_ending = config.line_ending;
        let res = App {
            serial_manager: SerialManager::new(),
            terminal_lines: Vec::new(),
            data_records: Vec::new(),
            scroll_offset: 0,
            focus: FocusArea::Terminal,
            rx_buffer: Vec::new(),
            serial_settings,
            display_format,
            line_ending,
            send_input: String::new(),
            command_list,
            quick_send_selected: 0,
            quick_send_mode: QuickSendMode::Normal,
            available_ports,
            port_selected: 0,
            baud_rate_selected: 8,
            settings_sub_index: 0,
            data_bits_options: vec![5u8, 6u8, 7u8, 8u8],
            data_bits_selected: 3,
            parity_options: vec!["none", "odd", "even"],
            parity_selected: 0,
            stop_bits_options: vec![1u8, 2u8],
            stop_bits_selected: 0,
            flow_control_options: vec!["none", "hardware", "software"],
            flow_control_selected: 0,
            parser_registry: ParserRegistry::default_parsers(),
            running: true,
            config,
            rx_bytes: 0,
            tab_hint_ticks: 0,
            export_dialog: ExportDialogState::Hidden,
            tx_bytes: 0,
            status_message: String::new(),
            writer_attached: false,
            outgoing: Vec::new(),
            baud_rates: vec![
                300u32, 1200, 2400, 4800, 9600, 19200, 38400, 57600, 115200, 230400, 460800, 921600,
            ],
        };
        assert(res@ =~= initial_view(config@, command_list@, available_ports@.map_values(|s: String| s@)));
        res
    }

    /// Adds a line of traffic and its record, stamped with the local time.
    fn record_traffic(&mut self, data: Vec<u8>, is_rx: bool)
        ensures
            final(self)@ == with_traffic(old(self)@, is_rx, data@),
            stamps_paired(old(self), final(self)),
            final(self).terminal_lines@.len() == old(self).terminal_lines@.len() + 1,
            final(self).data_records@.len() == old(self).data_records@.len() + 1,
    {
        let ghost old_app = *self;
        let stamp = line_timestamp();
        let shown = match self.parser_registry.parse(data.as_slice()) {
            Some(s) => s,
            None => format_bytes(data.as_slice(), self.display_format),
        };
        let dir = if is_rx {
            String::from_str("RX")
        } else {
            String::from_str("TX")
        };
        let time = stamp.clone();
        self.data_records.push(DataRecord { time, dir, data: shown });
        self.terminal_lines.push(TerminalLine { timestamp: stamp, is_rx, raw_data: data });
        proof {
            let ol = old_app.terminal_lines@.len();
            let orr = old_app.data_records@.len();
            assert(self.terminal_lines@.subrange(0, ol as int) =~= old_app.terminal_lines@);
            assert(self.data_records@.subrange(0, orr as int) =~= old_app.data_records@);
            assert(self.terminal_lines@[ol as int].timestamp@ == self.data_records@[orr as int].time@);
            assert(clock_stamp(self.terminal_lines@[ol as int].timestamp@));
            assert(self@ =~= with_traffic(old_app@, is_rx, data@));
        }
    }

    /// Sends a message: where a writer is attached, queues it with the line
    /// ending appended and adds a `TX` line.
    pub fn send_data(&mut self, data: Vec<u8>)
        requires
            send_fits(old(self)@, data@),
        ensures
            final(self)@ == sent(old(self)@, data@),
            stamps_paired(old(self), final(self)),
            final(self).terminal_lines@.len() >= old(self).terminal_lines@.len(),
            final(self).data_records@.len() >= old(self).data_records@.len(),
    {
        if self.writer_attached {
            let ghost old_app = *self;
            let buf = frame_message(data.as_slice(), self.line_ending.as_bytes());
            self.outgoing.push(buf);
            self.tx_bytes = self.tx_bytes + data.len() as u64;
            let ghost mid = *self;
            assert(mid@ =~= AppView {
                outgoing: old_app@.outgoing.push(data@ + line_ending_bytes(old_app@.line_ending)),
                tx_bytes: old_app@.tx_bytes + data@.len(),
                ..old_app@
            });
            self.record_traffic(data, false);
        } else {
            assert(self.terminal_lines@.subrange(0, self.terminal_lines@.len() as int) =~= self.terminal_lines@);
            assert(self.data_records@.subrange(0, self.data_records@.len() as int) =~= self.data_records@);
        }
    }

    /// Gives outgoing messages somewhere to go: from now on `send_data`
    /// queues them for `take_outgoing`.
    pub fn set_write_tx(&mut self)
        ensures
            final(self)@ == (AppView { writer_attached: true, ..old(self)@ }),
    {
        self.writer_attached = true;
        assert(self@ =~= (AppView { writer_attached: true, ..old(self)@ }));
    }

    /// Whether outgoing messages have somewhere to go.
    pub fn has_writer(&self) -> (res: bool)
        ensures
            res == self@.writer_attached,
    {
        self.writer_attached
    }

    /// Hands over the queued messages, oldest first, and empties the queue.
    pub fn take_outgoing(&mut self) -> (res: Vec<Vec<u8>>)
        ensures
            res@.map_values(|m: Vec<u8>| m@) == old(self)@.outgoing,
            final(self)@ == (AppView { outgoing: Seq::empty(), ..old(self)@ }),
    {
        let mut res: Vec<Vec<u8>> = Vec::new();
        std::mem::swap(&mut res, &mut self.outgoing);
        assert(self@ =~= (AppView { outgoing: Seq::empty(), ..old(self)@ }));
        res
    }

    /// Replaces the list of available ports.
    pub fn set_available_ports(&mut self, ports: Vec<String>)
        ensures
            final(self)@ == (AppView { ports: ports@.map_values(|s: String| s@), ..old(self)@ }),
    {
        self.available_ports = ports;
        assert(self@ =~= (AppView { ports: ports@.map_values(|s: String| s@), ..old(self)@ }));
    }

    /// The selected baud rate, or 115200 where the selection is out of range.
    pub fn current_baud_rate(&self) -> (res: u32)
        ensures
            res == chosen_baud(self@),
    {
        if self.baud_rate_selected < self.baud_rates.len() {
            self.baud_rates[self.baud_rate_selected]
        } else {
            115200
        }
    }

    /// The baud rates offered.
    pub fn baud_rates(&self) -> (res: &[u32])
        ensures
            res@ == self@.baud_rates,
    {
        self.baud_rates.as_slice()
    }

    /// Takes the current settings, line ending and display format into the
    /// configuration.
    fn save_config(&mut self)
        ensures
            final(self)@ == config_saved(old(self)@),
            final(self).terminal_lines == old(self).terminal_lines,
            final(self).data_records == old(self).data_records,
    {
        self.config.serial = self.serial_settings.duplicate();
        self.config.line_ending = self.line_ending;
        self.config.display_format = self.display_format;
        assert(self@ =~= config_saved(old(self)@));
    }

    /// Takes the selected options into the serial settings.
    fn sync_settings(&mut self)
        requires
            selections_valid(old(self)@),
        ensures
            final(self)@ == synced(old(self)@),
            final(self).terminal_lines == old(self).terminal_lines,
            final(self).data_records == old(self).data_records,
    {
        if self.port_selected < self.available_ports.len() {
            self.serial_settings.port = self.available_ports[self.port_selected].clone();
        }
        self.serial_settings.baud_rate = self.current_baud_rate();
        self.serial_settings.data_bits = self.data_bits_options[self.data_bits_selected];
        self.serial_settings.parity = String::from_str(self.parity_options[self.parity_selected]);
        self.serial_settings.stop_bits = self.stop_bits_options[self.stop_bits_selected];
        self.serial_settings.flow_control = String::from_str(
            self.flow_control_options[self.flow_control_selected],
        );
        assert(self@ =~= synced(old(self)@));
    }

    /// Disconnects a connected port at the user's request; otherwise takes
    /// the selected port and baud rate into the settings and asks for a
    /// connection (`Effect::Connect`), where a port is selected.
    pub fn toggle_connection(&mut self) -> (res: Effect)
        ensures
            (final(self)@, res@) == toggled(old(self)@),
            final(self).terminal_lines == old(self).terminal_lines,
            final(self).data_records == old(self).data_records,
    {
        if self.serial_manager.state == ConnectionState::Connected {
            self.serial_manager.disconnect_by_user();
            assert(self@ =~= toggled(old(self)@).0);
            Effect::Nothing
        } else if self.port_selected < self.available_ports.len() {
            let port_name = self.available_ports[self.port_selected].clone();
            let baud_rate = self.current_baud_rate();
            self.serial_settings.port = port_name;
            self.serial_settings.baud_rate = baud_rate;
            assert(self@ =~= toggled(old(self)@).0);
            Effect::Connect
        } else {
            Effect::Nothing
        }
    }

    /// The port to open for `Effect::Connect`: the one in the settings, with
    /// their parameters.
    pub fn port_request(&self) -> (res: PortConfig)
        ensures
            requested(res, self@),
            res.port_name@ == self@.settings.port,
            res.baud_rate == self@.settings.baud_rate,
            res.data_bits == crate::serial::data_bits_for(self@.settings.data_bits),
            res.parity == crate::serial::parity_for(self@.settings.parity),
            res.stop_bits == crate::serial::stop_bits_for(self@.settings.stop_bits),
            res.flow_control == crate::serial::flow_control_for(self@.settings.flow_control),
    {
        SerialManager::port_config(
            self.serial_settings.port.as_str(),
            self.serial_settings.baud_rate,
            self.serial_settings.data_bits,
            self.serial_settings.parity.as_str(),
            self.serial_settings.stop_bits,
            self.serial_settings.flow_control.as_str(),
        )
    }

    /// The port to reopen, where a reconnection is wanted: the last port
    /// at the last baud rate, with the other parameters from the settings.
    pub fn reconnect_request(&self) -> (res: Option<PortConfig>)
        ensures
            (res is Some) <==> wants_reconnect(self@.serial),
            match res {
                Some(c) => reopens(c, self@),
                None => true,
            },
    {
        if self.serial_manager.should_reconnect() {
            match &self.serial_manager.last_port_name {
                Some(name) => Some(
                    SerialManager::port_config(
                        name.as_str(),
                        self.serial_manager.last_baud_rate,
                        self.serial_settings.data_bits,
                        self.serial_settings.parity.as_str(),
                        self.serial_settings.stop_bits,
                        self.serial_settings.flow_control.as_str(),
                    ),
                ),
                None => None,
            }
        } else {
            None
        }
    }

    /// The requested port is open: records it and says so.
    pub fn connection_opened(&mut self, port_name: &str, baud_rate: u32)
        ensures
            final(self)@ == (AppView {
                serial: opened_link(old(self)@.serial, port_name@, baud_rate),
                status: "\u{5df2}\u{8fde}\u{63a5} "@ + port_name@,
                ..old(self)@
            }),
    {
        self.serial_manager.mark_open(port_name, baud_rate);
        let mut msg = String::from_str("\u{5df2}\u{8fde}\u{63a5} ");
        msg.append(port_name);
        self.status_message = msg;
        assert(self@ =~= (AppView {
            serial: opened_link(old(self)@.serial, port_name@, baud_rate),
            status: "\u{5df2}\u{8fde}\u{63a5} "@ + port_name@,
            ..old(self)@
        }));
    }

    /// The requested port could not be opened: says why.
    pub fn connection_failed(&mut self, reason: &str)
        ensures
            final(self)@ == with_status(old(self)@, "\u{8fde}\u{63a5}\u{5931}\u{8d25}: "@ + reason@),
    {
        let mut msg = String::from_str("\u{8fde}\u{63a5}\u{5931}\u{8d25}: ");
        msg.append(reason);
        self.status_message = msg;
        assert(self@ =~= with_status(old(self)@, "\u{8fde}\u{63a5}\u{5931}\u{8d25}: "@ + reason@));
    }

    /// The export to `file_name` finished: says where, or why it failed.
    pub fn export_finished(&mut self, file_name: &str, outcome: Result<(), String>)
        ensures
            final(self)@ == with_status(
                old(self)@,
                match outcome {
                    Ok(_) => "\u{5df2}\u{5bfc}\u{51fa}: "@ + file_name@,
                    Err(e) => "\u{5bfc}\u{51fa}\u{5931}\u{8d25}: "@ + e@,
                },
            ),
    {
        let msg = match outcome {
            Ok(_) => {
                let mut m = String::from_str("\u{5df2}\u{5bfc}\u{51fa}: ");
                m.append(file_name);
                m
            },
            Err(e) => {
                let mut m = String::from_str("\u{5bfc}\u{51fa}\u{5931}\u{8d25}: ");
                m.append(e.as_str());
                m
            },
        };
        self.status_message = msg;
        assert(self@ =~= with_status(
            old(self)@,
            match outcome {
                Ok(_) => "\u{5df2}\u{5bfc}\u{51fa}: "@ + file_name@,
                Err(e) => "\u{5bfc}\u{51fa}\u{5931}\u{8d25}: "@ + e@,
            },
        ));
    }

    /// Takes in received bytes: splits them into lines at `\n` (dropping a
    /// `\r` before it and skipping empty lines), shows and records each line,
    /// keeps the unterminated rest for later unless it exceeds 4096 bytes,
    /// and scrolls back to the end.
    #[verifier::rlimit(40)]
    pub fn handle_rx_data(&mut self, data: Vec<u8>)
        requires
            old(self).rx_bytes + data@.len() <= u64::MAX,
        ensures
            final(self)@ == received(old(self)@, data@),
            stamps_paired(old(self), final(self)),
    {
        let ghost old_app = *self;
        self.rx_bytes = self.rx_bytes + data.len() as u64;
        let ghost v1 = self@;
        assert(v1 =~= AppView { rx_bytes: old_app@.rx_bytes + data@.len(), ..old_app@ });
        let combined = concat_bytes(self.rx_buffer.as_slice(), data.as_slice());
        let (mut lines, rest) = split_lines(combined.as_slice());
        let ghost all = lines@.map_values(|l: Vec<u8>| l@);
        let total = lines.len();
        let mut i: usize = 0;
        proof {
            let ol = old_app.terminal_lines@.len() as int;
            let orr = old_app.data_records@.len() as int;
            assert(self.terminal_lines@.subrange(0, ol) =~= old_app.terminal_lines@);
            assert(self.data_records@.subrange(0, orr) =~= old_app.data_records@);
            assert(all.take(0) =~= Seq::<Seq<u8>>::empty());
            assert(lines@.map_values(|l: Vec<u8>| l@) =~= all.subrange(0, total as int));
        }
        while i < total
            invariant
                0 <= i <= total,
                total == all.len(),
                lines@.len() == total - i,
                lines@.map_values(|l: Vec<u8>| l@) == all.subrange(i as int, total as int),
                self@ == with_rx_lines(v1, all.take(i as int)),
                stamps_paired(&old_app, self),
                self.terminal_lines@.len() >= old_app.terminal_lines@.len(),
                self.data_records@.len() >= old_app.data_records@.len(),
            decreases total - i,
        {
            let ghost before = *self;
            let ghost remaining = lines@;
            let line = lines.remove(0);
            proof {
                assert(line@ == remaining.map_values(|l: Vec<u8>| l@)[0]);
                assert(line@ == all[i as int]);
                assert forall|k: int| 0 <= k < lines@.len() implies lines@[k]@ == all[i + 1 + k] by {
                    assert(lines@[k] == remaining[k + 1]);
                    assert(remaining.map_values(|l: Vec<u8>| l@)[k + 1] == all.subrange(
                        i as int,
                        total as int,
                    )[k + 1]);
                }
                assert(lines@.map_values(|l: Vec<u8>| l@) =~= all.subrange(i + 1, total as int));
            }
            self.record_traffic(line, true);
            proof {
                lemma_stamps_chain(&old_app, &before, self);
                assert(all.take(i + 1).drop_last() =~= all.take(i as int));
                assert(all.take(i + 1).last() == all[i as int]);
            }
            i = i + 1;
        }
        assert(all.take(total as int) =~= all);
        if rest.len() > 4096 {
            let ghost before = *self;
            self.record_traffic(rest, true);
            proof {
                lemma_stamps_chain(&old_app, &before, self);
            }
            self.rx_buffer = Vec::new();
        } else {
            self.rx_buffer = rest;
        }
        self.scroll_offset = 0;
        assert(self@ =~= received(old_app@, data@));
    }

    /// A key in the terminal panel: arrows scroll by one line, page keys by ten.
    fn handle_terminal_key(&mut self, key: Key)
        requires
            terminal_fits(old(self)@, key),
        ensures
            final(self)@ == terminal_stepped(old(self)@, key),
            final(self).terminal_lines == old(self).terminal_lines,
            final(self).data_records == old(self).data_records,
    {
        match key.code {
            KeyCode::Up => {
                self.scroll_offset = self.scroll_offset + 1;
            },
            KeyCode::Down => {
                if self.scroll_offset > 0 {
                    self.scroll_offset = self.scroll_offset - 1;
                }
            },
            KeyCode::PageUp => {
                self.scroll_offset = self.scroll_offset + 10;
            },
            KeyCode::PageDown => {
                if self.scroll_offset >= 10 {
                    self.scroll_offset = self.scroll_offset - 10;
                } else {
                    self.scroll_offset = 0;
                }
            },
            _ => {},
        }
        assert(self@ =~= terminal_stepped(old(self)@, key));
    }

    /// Takes the typed text, leaving the input empty.
    fn take_input(&mut self) -> (res: String)
        ensures
            res@ == old(self)@.send_input,
            final(self)@ == (AppView { send_input: Seq::empty(), ..old(self)@ }),
            final(self).terminal_lines == old(self).terminal_lines,
            final(self).data_records == old(self).data_records,
    {
        let mut input = String::new();
        std::mem::swap(&mut input, &mut self.send_input);
        assert(self@ =~= (AppView { send_input: Seq::empty(), ..old(self)@ }));
        input
    }

    /// Sends a text as UTF-8.
    fn send_text(&mut self, text: &str)
        requires
            send_fits(old(self)@, encode_utf8(text@)),
        ensures
            final(self)@ == sent(old(self)@, encode_utf8(text@)),
            stamps_paired(old(self), final(self)),
            final(self).terminal_lines@.len() >= old(self).terminal_lines@.len(),
            final(self).data_records@.len() >= old(self).data_records@.len(),
    {
        let bytes = vstd::slice::slice_to_vec(text.as_bytes());
        self.send_data(bytes);
    }

    /// A key in the send panel: a plain `l` cycles the line ending, other
    /// characters are typed, Backspace deletes, Enter sends and clears.
    fn handle_send_input_key(&mut self, key: Key)
        requires
            send_input_fits(old(self)@, key),
        ensures
            final(self)@ == send_input_stepped(old(self)@, key),
            stamps_paired(old(self), final(self)),
            final(self).terminal_lines@.len() >= old(self).terminal_lines@.len(),
            final(self).data_records@.len() >= old(self).data_records@.len(),
    {
        let ghost old_app = *self;
        match key.code {
            KeyCode::Char(c) => {
                if c == 'l' && key.modifiers == MODIFIER_NONE {
                    self.line_ending = match self.line_ending {
                        LineEnding::NoEnding => LineEnding::LF,
                        LineEnding::LF => LineEnding::CR,
                        LineEnding::CR => LineEnding::CRLF,
                        LineEnding::CRLF => LineEnding::NoEnding,
                    };
                } else {
                    crate::text::push_char(&mut self.send_input, c);
                }
            },
            KeyCode::Backspace => {
                pop_char(&mut self.send_input);
            },
            KeyCode::Enter => {
                let input = self.take_input();
                if !input.as_str().is_empty() {
                    let ghost before = *self;
                    self.send_text(input.as_str());
                    proof {
                        lemma_stamps_kept(&old_app, &before);
                        lemma_stamps_chain(&old_app, &before, self);
                    }
                }
            },
            _ => {},
        }
        proof {
            if !(key.code == KeyCode::Enter && old_app.send_input@.len() > 0) {
                lemma_stamps_kept(&old_app, self);
            }
        }
        assert(self@ =~= send_input_stepped(old_app@, key));
    }

    /// A key in the quick-send panel.
    #[verifier::rlimit(40)]
    fn handle_quick_send_key(&mut self, key: Key) -> (res: Effect)
        requires
            quick_send_fits(old(self)@, key),
        ensures
            final(self)@ == quick_send_stepped(old(self)@, key).0,
            res@ == quick_send_stepped(old(self)@, key).1,
            stamps_paired(old(self), final(self)),
            final(self).terminal_lines@.len() >= old(self).terminal_lines@.len(),
            final(self).data_records@.len() >= old(self).data_records@.len(),
    {
        let ghost old_app = *self;
        let mut effect = Effect::Nothing;
        match self.quick_send_mode {
            QuickSendMode::Adding => {
                match key.code {
                    KeyCode::Char(c) => {
                        crate::text::push_char(&mut self.send_input, c);
                    },
                    KeyCode::Backspace => {
                        pop_char(&mut self.send_input);
                    },
                    KeyCode::Enter => {
                        let input = self.take_input();
                        if !input.as_str().is_empty() {
                            let name = if input.as_str().as_bytes().len() > 20 {
                                let (head, _tail) = input.as_str().split_at(20);
                                proof {
                                    vstd::utf8::encode_utf8_decode_utf8(head@);
                                    assert(head.spec_bytes() =~= encode_utf8(input@).subrange(0, 20));
                                    assert(head@ == decode_utf8(encode_utf8(input@).subrange(0, 20)));
                                }
                                String::from_str(head)
                            } else {
                                input.clone()
                            };
                            assert(name@ == command_name(input@));
                            let ghost before = self.command_list;
                            self.command_list.add(name, input);
                            assert(self.command_list@ =~= before@.push((command_name(input@), input@)));
                            self.quick_send_mode = QuickSendMode::Normal;
                            effect = Effect::SaveCommands;
                        }
                    },
                    KeyCode::Esc => {
                        self.send_input = String::new();
                        self.quick_send_mode = QuickSendMode::Normal;
                    },
                    _ => {},
                }
            },
            QuickSendMode::Normal => {
                match key.code {
                    KeyCode::Up => {
                        if self.quick_send_selected > 0 {
                            self.quick_send_selected = self.quick_send_selected - 1;
                        }
                    },
                    KeyCode::Down => {
                        let len = self.command_list.len();
                        if len > 0 && self.quick_send_selected < len - 1 {
                            self.quick_send_selected = self.quick_send_selected + 1;
                        }
                    },
                    KeyCode::Enter => {
                        if self.quick_send_selected < self.command_list.commands.len() {
                            let data = self.command_list.commands[self.quick_send_selected].data.clone();
                            let ghost before = *self;
                            assert(data@ == old_app@.commands[old_app@.quick_send_selected].1);
                            self.send_text(data.as_str());
                            proof {
                                lemma_stamps_kept(&old_app, &before);
                                lemma_stamps_chain(&old_app, &before, self);
                            }
                        }
                    },
                    KeyCode::Char(c) => {
                        if c == 'a' {
                            self.send_input = String::new();
                            self.quick_send_mode = QuickSendMode::Adding;
                        } else if c == 'd' && !self.command_list.is_empty() {
                            let ghost before = self.command_list;
                            let _removed = self.command_list.remove(self.quick_send_selected);
                            proof {
                                if old_app.quick_send_selected < before.commands@.len() {
                                    assert(self.command_list@ =~= before@.remove(
                                        old_app.quick_send_selected as int,
                                    ));
                                }
                            }
                            if self.quick_send_selected >= self.command_list.len()
                                && self.quick_send_selected > 0 {
                                self.quick_send_selected = self.quick_send_selected - 1;
                            }
                            effect = Effect::SaveCommands;
                        }
                    },
                    _ => {},
                }
            },
        }
        proof {
            if !(old_app.quick_send_mode == QuickSendMode::Normal && key.code == KeyCode::Enter
                && old_app.quick_send_selected < old_app.command_list.commands@.len()) {
                lemma_stamps_kept(&old_app, self);
            }
        }
        assert(self@ =~= quick_send_stepped(old_app@, key).0);
        effect
    }

    /// Moves the picked setting's selection with the arrow keys.
    fn adjust_setting(&mut self, code: KeyCode)
        requires
            code == KeyCode::Up && old(self).settings_sub_index == 1 ==> old(self).baud_rates@.len() > 0,
            code == KeyCode::Up && old(self).settings_sub_index == 2 ==> old(self).data_bits_options@.len() > 0,
            code == KeyCode::Up && old(self).settings_sub_index == 3 ==> old(self).parity_options@.len() > 0,
            code == KeyCode::Up && old(self).settings_sub_index == 4 ==> old(self).stop_bits_options@.len() > 0,
            code == KeyCode::Up && old(self).settings_sub_index == 5 ==> old(self).flow_control_options@.len() > 0,
        ensures
            final(self)@ == adjusted(old(self)@, code),
            final(self).terminal_lines == old(self).terminal_lines,
            final(self).data_records == old(self).data_records,
    {
        let up = code == KeyCode::Up;
        let down = code == KeyCode::Down;
        let sub = self.settings_sub_index;
        if sub == 0 {
            if up && self.port_selected > 0 {
                self.port_selected = self.port_selected - 1;
            } else if down && self.available_ports.len() > 0 && self.port_selected
                < self.available_ports.len() - 1 {
                self.port_selected = self.port_selected + 1;
            }
        } else if sub == 1 {
            if up && self.baud_rate_selected < self.baud_rates.len() - 1 {
                self.baud_rate_selected = self.baud_rate_selected + 1;
            } else if down && self.baud_rate_selected > 0 {
                self.baud_rate_selected = self.baud_rate_selected - 1;
            }
        } else if sub == 2 {
            if up && self.data_bits_selected < self.data_bits_options.len() - 1 {
                self.data_bits_selected = self.data_bits_selected + 1;
            } else if down && self.data_bits_selected > 0 {
                self.data_bits_selected = self.data_bits_selected - 1;
            }
        } else if sub == 3 {
            if up && self.parity_selected < self.parity_options.len() - 1 {
                self.parity_selected = self.parity_selected + 1;
            } else if down && self.parity_selected > 0 {
                self.parity_selected = self.parity_selected - 1;
            }
        } else if sub == 4 {
            if up && self.stop_bits_selected < self.stop_bits_options.len() - 1 {
                self.stop_bits_selected = self.stop_bits_selected + 1;
            } else if down && self.stop_bits_selected > 0 {
                self.stop_bits_selected = self.stop_bits_selected - 1;
            }
        } else if sub == 5 {
            if up && self.flow_control_selected < self.flow_control_options.len() - 1 {
                self.flow_control_selected = self.flow_control_selected + 1;
            } else if down && self.flow_control_selected > 0 {
                self.flow_control_selected = self.flow_control_selected - 1;
            }
        }
        assert(self@ =~= adjusted(old(self)@, code));
    }

    /// A key in the settings bar.
    fn handle_settings_key(&mut self, key: Key) -> (res: Effect)
        requires
            settings_fits(old(self)@, key),
        ensures
            final(self)@ == settings_stepped(old(self)@, key).0,
            res@ == settings_stepped(old(self)@, key).1,
            final(self).terminal_lines == old(self).terminal_lines,
            final(self).data_records == old(self).data_records,
    {
        if let KeyCode::Char(c) = key.code {
            let pick: usize = if c == 'p' {
                0
            } else if c == 'b' {
                1
            } else if c == 'd' {
                2
            } else if c == 'y' {
                3
            } else if c == 's' {
                4
            } else if c == 'f' {
                5
            } else {
                6
            };
            if c == 'c' {
                return self.toggle_connection();
            }
            if pick < 6 {
                self.settings_sub_index = pick;
                assert(self@ =~= settings_stepped(old(self)@, key).0);
                return Effect::Nothing;
            }
        }
        self.adjust_setting(key.code);
        self.sync_settings();
        Effect::Nothing
    }

    /// A key while the export dialog is open.
    fn handle_export_dialog_key(&mut self, key: Key) -> (res: Effect)
        ensures
            final(self)@ == export_dialog_stepped(old(self)@, key).0,
            res@ == export_dialog_stepped(old(self)@, key).1,
            final(self).terminal_lines == old(self).terminal_lines,
            final(self).data_records == old(self).data_records,
    {
        let ghost old_app = *self;
        let mut dialog = ExportDialogState::Hidden;
        std::mem::swap(&mut dialog, &mut self.export_dialog);
        match dialog {
            ExportDialogState::Hidden => {
                assert(self@ =~= old_app@);
                Effect::Nothing
            },
            ExportDialogState::Open { format, mut dir, field } => {
                let on_format = field == ExportField::Format;
                let on_dir = field == ExportField::Dir;
                let other = match format {
                    ExportFormat::Csv => ExportFormat::Txt,
                    ExportFormat::Txt => ExportFormat::Csv,
                };
                let effect = match key.code {
                    KeyCode::Esc => Effect::Nothing,
                    KeyCode::Enter => {
                        assert(self@ =~= export_dialog_stepped(old_app@, key).0);
                        return Effect::Export { format, dir };
                    },
                    KeyCode::Tab | KeyCode::Left | KeyCode::Right => {
                        let f = if on_format { other } else { format };
                        self.export_dialog = ExportDialogState::Open { format: f, dir, field };
                        Effect::Nothing
                    },
                    KeyCode::Up | KeyCode::Down => {
                        let g = match field {
                            ExportField::Format => ExportField::Dir,
                            ExportField::Dir => ExportField::Format,
                        };
                        self.export_dialog = ExportDialogState::Open { format, dir, field: g };
                        Effect::Nothing
                    },
                    KeyCode::Char(c) => {
                        if on_dir {
                            push_char(&mut dir, c);
                        }
                        self.export_dialog = ExportDialogState::Open { format, dir, field };
                        Effect::Nothing
                    },
                    KeyCode::Backspace => {
                        if on_dir {
                            let _ = pop_char(&mut dir);
                        }
                        self.export_dialog = ExportDialogState::Open { format, dir, field };
                        Effect::Nothing
                    },
                    _ => {
                        self.export_dialog = ExportDialogState::Open { format, dir, field };
                        Effect::Nothing
                    },
                };
                assert(self@ =~= export_dialog_stepped(old_app@, key).0);
                effect
            },
        }
    }

    /// A key press: Control-Q first, then the export dialog where it is
    /// open, then the global shortcuts, then the focused panel.
    pub fn handle_key(&mut self, key: Key) -> (res: Effect)
        requires
            key_fits(old(self)@, key),
        ensures
            final(self)@ == key_stepped(old(self)@, key).0,
            res@ == key_stepped(old(self)@, key).1,
            stamps_paired(old(self), final(self)),
    {
        let ghost old_app = *self;
        let ctrl = key.modifiers == MODIFIER_CONTROL;
        if ctrl && key.code == KeyCode::Char('q') {
            self.save_config();
            self.running = false;
            proof { lemma_stamps_kept(&old_app, self); }
            assert(self@ =~= key_stepped(old_app@, key).0);
            return Effect::Quit;
        }
        let dialog_open = match &self.export_dialog {
            ExportDialogState::Open { .. } => true,
            ExportDialogState::Hidden => false,
        };
        if dialog_open {
            let e = self.handle_export_dialog_key(key);
            proof { lemma_stamps_kept(&old_app, self); }
            return e;
        }
        if ctrl && key.code == KeyCode::Char('d') {
            self.display_format = match self.display_format {
                DisplayFormat::Hex => DisplayFormat::Ascii,
                DisplayFormat::Ascii => DisplayFormat::Raw,
                DisplayFormat::Raw => DisplayFormat::Hex,
            };
            proof { lemma_stamps_kept(&old_app, self); }
            assert(self@ =~= key_stepped(old_app@, key).0);
            return Effect::Nothing;
        }
        if ctrl && key.code == KeyCode::Char('l') {
            self.terminal_lines.clear();
            self.data_records.clear();
            self.scroll_offset = 0;
            proof {
                if old_app.terminal_lines@.len() == 0 && old_app.data_records@.len() == 0 {
                    assert(self.terminal_lines@ =~= old_app.terminal_lines@);
                    assert(self.data_records@ =~= old_app.data_records@);
                    lemma_stamps_kept(&old_app, self);
                }
            }
            assert(self@ =~= key_stepped(old_app@, key).0);
            return Effect::Nothing;
        }
        if ctrl && key.code == KeyCode::Char('p') {
            self.parser_registry.next();
            proof { lemma_stamps_kept(&old_app, self); }
            assert(self@ =~= key_stepped(old_app@, key).0);
            return Effect::Nothing;
        }
        if ctrl && key.code == KeyCode::Char('r') {
            proof { lemma_stamps_kept(&old_app, self); }
            return Effect::RefreshPorts;
        }
        if ctrl && key.code == KeyCode::Char('e') {
            proof { lemma_stamps_kept(&old_app, self); }
            if self.data_records.len() == 0 {
                self.status_message = String::from_str(
                    "\u{65e0}\u{6570}\u{636e}\u{53ef}\u{5bfc}\u{51fa}",
                );
                assert(self@ =~= key_stepped(old_app@, key).0);
                return Effect::Nothing;
            }
            self.export_dialog = ExportDialogState::Open {
                format: ExportFormat::Csv,
                dir: String::from_str("./"),
                field: ExportField::Format,
            };
            proof { lemma_stamps_kept(&old_app, self); }
            assert(self@ =~= key_stepped(old_app@, key).0);
            return Effect::Nothing;
        }
        if key.code == KeyCode::Tab {
            self.focus = match self.focus {
                FocusArea::Settings => FocusArea::Terminal,
                FocusArea::Terminal => FocusArea::SendInput,
                FocusArea::SendInput => FocusArea::QuickSend,
                FocusArea::QuickSend => FocusArea::Settings,
            };
            self.tab_hint_ticks = 20;
            proof { lemma_stamps_kept(&old_app, self); }
            assert(self@ =~= key_stepped(old_app@, key).0);
            return Effect::Nothing;
        }
        match self.focus {
            FocusArea::Settings => {
                let e = self.handle_settings_key(key);
                proof { lemma_stamps_kept(&old_app, self); }
                e
            },
            FocusArea::Terminal => {
                self.handle_terminal_key(key);
                proof { lemma_stamps_kept(&old_app, self); }
                Effect::Nothing
            },
            FocusArea::SendInput => {
                self.handle_send_input_key(key);
                Effect::Nothing
            },
            FocusArea::QuickSend => self.handle_quick_send_key(key),
        }
    }

    /// Whether sending `len` bytes keeps the sent-byte count within `u64`.
    fn send_fits_now(&self, len: usize) -> (res: bool)
        ensures
            res == (self@.writer_attached ==> self@.tx_bytes + len <= u64::MAX),
    {
        !self.writer_attached || self.tx_bytes <= u64::MAX - len as u64
    }

    /// Whether a key in the settings bar can be handled.
    fn settings_key_fits(&self, key: Key) -> (res: bool)
        ensures
            res == settings_fits(self@, key),
    {
        let letter = match key.code {
            KeyCode::Char(c) => c == 'c' || c == 'p' || c == 'b' || c == 'd' || c == 'y' || c == 's'
                || c == 'f',
            _ => false,
        };
        if letter {
            return true;
        }
        let up = key.code == KeyCode::Up;
        let down = key.code == KeyCode::Down;
        let sub = self.settings_sub_index;
        if up && ((sub == 1 && self.baud_rates.len() == 0) || (sub == 2
            && self.data_bits_options.len() == 0) || (sub == 3 && self.parity_options.len() == 0)
            || (sub == 4 && self.stop_bits_options.len() == 0) || (sub == 5
            && self.flow_control_options.len() == 0)) {
            return false;
        }
        let data_bits = if sub == 2 {
            stepped_index(self.data_bits_selected, self.data_bits_options.len(), up, down)
        } else {
            self.data_bits_selected
        };
        let parity = if sub == 3 {
            stepped_index(self.parity_selected, self.parity_options.len(), up, down)
        } else {
            self.parity_selected
        };
        let stop_bits = if sub == 4 {
            stepped_index(self.stop_bits_selected, self.stop_bits_options.len(), up, down)
        } else {
            self.stop_bits_selected
        };
        let flow = if sub == 5 {
            stepped_index(self.flow_control_selected, self.flow_control_options.len(), up, down)
        } else {
            self.flow_control_selected
        };
        data_bits < self.data_bits_options.len() && parity < self.parity_options.len() && stop_bits
            < self.stop_bits_options.len() && flow < self.flow_control_options.len()
    }

    /// Whether a key press can be handled: `handle_key` may be called with
    /// it exactly when this holds.
    pub fn key_fits(&self, key: Key) -> (res: bool)
        ensures
            res == key_fits(self@, key),
    {
        let ctrl = key.modifiers == MODIFIER_CONTROL;
        let dialog_open = match &self.export_dialog {
            ExportDialogState::Open { .. } => true,
            ExportDialogState::Hidden => false,
        };
        let shortcut = (ctrl && (key.code == KeyCode::Char('d') || key.code == KeyCode::Char('l')
            || key.code == KeyCode::Char('r') || key.code == KeyCode::Char('e')))
            || key.code == KeyCode::Tab;
        if (ctrl && key.code == KeyCode::Char('q')) || dialog_open {
            true
        } else if ctrl && key.code == KeyCode::Char('p') {
            self.parser_registry.parsers.len() == 0 || self.parser_registry.active_index
                < usize::MAX
        } else if shortcut {
            true
        } else {
            match self.focus {
                FocusArea::Settings => self.settings_key_fits(key),
                FocusArea::Terminal => self.terminal_key_fits(key),
                FocusArea::SendInput => self.send_input_key_fits(key),
                FocusArea::QuickSend => self.quick_send_key_fits(key),
            }
        }
    }

    /// Whether a key in the terminal panel can be handled.
    fn terminal_key_fits(&self, key: Key) -> (res: bool)
        ensures
            res == terminal_fits(self@, key),
    {
        match key.code {
            KeyCode::Up => self.scroll_offset < usize::MAX,
            KeyCode::PageUp => self.scroll_offset <= usize::MAX - 10,
            _ => true,
        }
    }

    /// Whether a key in the send panel can be handled.
    fn send_input_key_fits(&self, key: Key) -> (res: bool)
        ensures
            res == send_input_fits(self@, key),
    {
        if key.code == KeyCode::Enter && !self.send_input.as_str().is_empty() {
            self.send_fits_now(self.send_input.as_str().as_bytes().len())
        } else {
            true
        }
    }

    /// Whether a key in the quick-send panel can be handled.
    fn quick_send_key_fits(&self, key: Key) -> (res: bool)
        ensures
            res == quick_send_fits(self@, key),
    {
        match self.quick_send_mode {
            QuickSendMode::Adding => {
                if key.code == KeyCode::Enter && self.send_input.as_str().as_bytes().len() > 20 {
                    self.send_input.as_str().is_char_boundary(20)
                } else {
                    true
                }
            },
            QuickSendMode::Normal => {
                if key.code == KeyCode::Enter && self.quick_send_selected
                    < self.command_list.commands.len() {
                    let data = self.command_list.commands[self.quick_send_selected].data.as_str();
                    self.send_fits_now(data.as_bytes().len())
                } else {
                    true
                }
            },
        }
    }

    /// Whether an event can be handled: `handle_event` may be called with
    /// it exactly when this holds.
    pub fn event_fits(&self, event: &Event) -> (res: bool)
        ensures
            res == event_fits(self@, *event),
    {
        match event {
            Event::Key(key) => self.key_fits(*key),
            Event::RxData(data) => self.rx_bytes <= u64::MAX - data.len() as u64,
            Event::SerialError(_) => self.serial_manager.user_disconnect
                || self.serial_manager.reconnect_count < u32::MAX,
            _ => true,
        }
    }

    /// Reacts to an event; the caller then performs the returned effect.
    #[verifier::rlimit(40)]
    pub fn handle_event(&mut self, event: Event) -> (res: Effect)
        requires
            event_fits(old(self)@, event),
        ensures
            final(self)@ == event_stepped(old(self)@, event).0,
            res@ == event_stepped(old(self)@, event).1,
            stamps_paired(old(self), final(self)),
    {
        let ghost old_app = *self;
        match event {
            Event::Key(key) => self.handle_key(key),
            Event::RxData(data) => {
                self.handle_rx_data(data);
                Effect::Nothing
            },
            Event::PortsChanged => {
                proof { lemma_stamps_kept(&old_app, self); }
                Effect::RefreshPorts
            },
            Event::SerialError(msg) => {
                let mut status = String::from_str("\u{9519}\u{8bef}: ");
                status.append(msg.as_str());
                self.status_message = status;
                self.serial_manager.enter_reconnect();
                proof { lemma_stamps_kept(&old_app, self); }
                assert(self@ =~= event_stepped(old_app@, event).0);
                Effect::Nothing
            },
            Event::Tick => {
                if self.tab_hint_ticks > 0 {
                    self.tab_hint_ticks = self.tab_hint_ticks - 1;
                }
                if self.serial_manager.should_reconnect() {
                    let mut status = String::from_str("\u{6b63}\u{5728}\u{91cd}\u{8fde} ");
                    match &self.serial_manager.last_port_name {
                        Some(name) => status.append(name.as_str()),
                        None => status.append("?"),
                    }
                    status.append("  (\u{7b2c} ");
                    push_decimal(&mut status, self.serial_manager.reconnect_count as u64);
                    status.append(" \u{6b21})...");
                    self.status_message = status;
                }
                proof { lemma_stamps_kept(&old_app, self); }
                assert(self@ =~= event_stepped(old_app@, event).0);
                Effect::Nothing
            },
            Event::Quit => {
                self.save_config();
                self.running = false;
                proof { lemma_stamps_kept(&old_app, self); }
                assert(self@ =~= event_stepped(old_app@, event).0);
                Effect::Quit
            },
        }
    }
}


/// Every terminal line has its record.
pub open spec fn traffic_aligned(v: AppView) -> bool {
    v.lines.len() == v.records.len()
}

/// Adding received lines adds as many terminal lines as records.
pub proof fn lemma_rx_lines_counts(v: AppView, ls: Seq<Seq<u8>>)
    ensures
        with_rx_lines(v, ls).lines.len() == v.lines.len() + ls.len(),
        with_rx_lines(v, ls).records.len() == v.records.len() + ls.len(),
        with_rx_lines(v, ls).parsers == v.parsers,
        with_rx_lines(v, ls).rx_buffer == v.rx_buffer,
    decreases ls.len(),
{
    if ls.len() > 0 {
        lemma_rx_lines_counts(v, ls.drop_last());
    }
}

/// Law: whatever the application reacts to, each line in the terminal
/// panel keeps a record beside it: where there were as many lines as
/// records, there still are.
pub proof fn law_events_keep_traffic_aligned(v: AppView, e: Event)
    requires
        traffic_aligned(v),
    ensures
        traffic_aligned(event_stepped(v, e).0),
{
    match e {
        Event::RxData(d) => {
            let b = v.rx_buffer + d@;
            let v0 = AppView { rx_bytes: v.rx_bytes + d@.len(), ..v };
            lemma_rx_lines_counts(v0, received_lines(b));
        },
        _ => {},
    }
}

/// The panel reached after `k` presses of Tab.
pub open spec fn focus_after(f: FocusArea, k: nat) -> FocusArea
    decreases k,
{
    if k == 0 {
        f
    } else {
        next_focus(focus_after(f, (k - 1) as nat))
    }
}

/// Law: Tab visits the four panels in turn and comes back after four
/// presses.
pub proof fn law_tab_cycles_panels(f: FocusArea)
    ensures
        focus_after(f, 4) == f,
        focus_after(f, 1) != f,
        focus_after(f, 2) != f,
        focus_after(f, 3) != f,
{
    assert(focus_after(f, 4) == next_focus(next_focus(next_focus(next_focus(f))))) by {
        reveal_with_fuel(focus_after, 5);
    }
    assert(focus_after(f, 3) == next_focus(next_focus(next_focus(f)))) by {
        reveal_with_fuel(focus_after, 4);
    }
    assert(focus_after(f, 2) == next_focus(next_focus(f))) by {
        reveal_with_fuel(focus_after, 3);
    }
}

/// Law: Control-D cycles hex, ASCII and raw, coming back after three
/// presses; `l` in the send panel cycles the four line endings, coming
/// back after four.
pub proof fn law_format_and_ending_cycles(f: DisplayFormat, le: LineEnding)
    ensures
        next_format(next_format(next_format(f))) == f,
        next_format(f) != f,
        next_ending(next_ending(next_ending(next_ending(le)))) == le,
        next_ending(le) != le,
        next_ending(next_ending(le)) != le,
{
}

/// Law: quitting, by event or by Control-Q, ends the application with the
/// configuration holding the current settings, line ending and display
/// format, and asks the caller to save.
pub proof fn law_quit_saves_settings(v: AppView)
    ensures
        ({
            let (w, eff) = event_stepped(v, Event::Quit);
            &&& !w.running
            &&& eff == EffectView::Quit
            &&& w.config.serial == v.settings
            &&& w.config.line_ending == v.line_ending
            &&& w.config.display_format == v.display_format
        }),
        ({
            let (w, eff) = key_stepped(v, Key { code: KeyCode::Char('q'), modifiers: MODIFIER_CONTROL });
            &&& !w.running
            &&& eff == EffectView::Quit
            &&& w.config.serial == v.settings
            &&& w.config.line_ending == v.line_ending
            &&& w.config.display_format == v.display_format
        }),
{
}

/// Law: a sent message is queued as its bytes followed by the line ending
/// and shown as one `TX` line, where a writer is attached; without one,
/// sending changes nothing.
pub proof fn law_send_frames_message(v: AppView, data: Seq<u8>)
    ensures
        v.writer_attached ==> {
            let w = sent(v, data);
            &&& w.outgoing == v.outgoing.push(data + line_ending_bytes(v.line_ending))
            &&& w.lines == v.lines.push((false, data))
            &&& w.records.last().0 == "TX"@
            &&& w.tx_bytes == v.tx_bytes + data.len()
        },
        !v.writer_attached ==> sent(v, data) == v,
{
}

/// Whether every selection in the settings bar is within its list; the
/// port selection is 0 where there are no ports.
pub open spec fn selections_in_range(v: AppView) -> bool {
    &&& 0 <= v.port_selected < if v.ports.len() > 0 { v.ports.len() as int } else { 1int }
    &&& 0 <= v.baud_rate_selected < v.baud_rates.len()
    &&& selections_valid(v)
}

/// How far a selection moved.
pub open spec fn moved_by(a: int, b: int) -> int {
    if a >= b { a - b } else { b - a }
}

/// Law: a key in the settings bar other than its letters keeps every
/// selection within its list, moves each by at most one place, and leaves
/// the serial settings holding the selected baud rate, data bits, parity,
/// stop bits and flow control.
pub proof fn law_settings_keep_selections(v: AppView, key: Key)
    requires
        selections_in_range(v),
        !settings_letter_key(key),
    ensures
        ({
            let w = settings_stepped(v, key).0;
            &&& selections_in_range(w)
            &&& moved_by(w.port_selected, v.port_selected) <= 1
            &&& moved_by(w.baud_rate_selected, v.baud_rate_selected) <= 1
            &&& moved_by(w.data_bits_selected, v.data_bits_selected) <= 1
            &&& moved_by(w.parity_selected, v.parity_selected) <= 1
            &&& moved_by(w.stop_bits_selected, v.stop_bits_selected) <= 1
            &&& moved_by(w.flow_control_selected, v.flow_control_selected) <= 1
            &&& w.settings.baud_rate == w.baud_rates[w.baud_rate_selected]
            &&& w.settings.data_bits == w.data_bits_options[w.data_bits_selected]
            &&& w.settings.parity == w.parity_options[w.parity_selected]
            &&& w.settings.stop_bits == w.stop_bits_options[w.stop_bits_selected]
            &&& w.settings.flow_control == w.flow_control_options[w.flow_control_selected]
        }),
{
}

/// Law: in the settings bar, a key that `handle_key` passes to it (no
/// global shortcut, the export dialog closed) and that is not one of its
/// letters keeps every selection within its list, moves each by at most
/// one place, and leaves the serial settings holding the selected options.
pub proof fn law_settings_bar_keeps_selections(v: AppView, key: Key)
    requires
        selections_in_range(v),
        v.focus == FocusArea::Settings,
        v.export_dialog is Hidden,
        !global_key(key),
        !settings_letter_key(key),
    ensures
        ({
            let w = key_stepped(v, key).0;
            &&& w == settings_stepped(v, key).0
            &&& selections_in_range(w)
            &&& moved_by(w.port_selected, v.port_selected) <= 1
            &&& moved_by(w.baud_rate_selected, v.baud_rate_selected) <= 1
            &&& moved_by(w.data_bits_selected, v.data_bits_selected) <= 1
            &&& moved_by(w.parity_selected, v.parity_selected) <= 1
            &&& moved_by(w.stop_bits_selected, v.stop_bits_selected) <= 1
            &&& moved_by(w.flow_control_selected, v.flow_control_selected) <= 1
            &&& w.settings.baud_rate == w.baud_rates[w.baud_rate_selected]
            &&& w.settings.data_bits == w.data_bits_options[w.data_bits_selected]
            &&& w.settings.parity == w.parity_options[w.parity_selected]
            &&& w.settings.stop_bits == w.stop_bits_options[w.stop_bits_selected]
            &&& w.settings.flow_control == w.flow_control_options[w.flow_control_selected]
        }),
{
    law_settings_keep_selections(v, key);
}

/// Law: while the export dialog is open, every key but Control-Q changes
/// the dialog alone; only Enter asks for an export, in the chosen format
/// into the chosen directory, and both Enter and Esc close the dialog.
pub proof fn law_dialog_takes_keys(v: AppView, key: Key)
    requires
        v.export_dialog is Open,
        !is_ctrl(key, 'q'),
    ensures
        ({
            let (w, e) = key_stepped(v, key);
            &&& with_dialog(w, v.export_dialog) == v
            &&& (e is Export) <==> key.code == KeyCode::Enter
            &&& key.code == KeyCode::Enter ==> e == EffectView::Export {
                format: v.export_dialog->format,
                dir: v.export_dialog->dir,
            }
            &&& (key.code == KeyCode::Enter || key.code == KeyCode::Esc) ==> w.export_dialog is Hidden
            &&& !(e is Export) ==> e is Nothing
        }),
{
    let (w, e) = key_stepped(v, key);
    assert(with_dialog(w, v.export_dialog) =~= v);
}

/// The selection of the settings-bar item `sub`: 0 port, 1 baud rate,
/// 2 data bits, 3 parity, 4 stop bits, 5 flow control.
pub open spec fn selection_at(v: AppView, sub: int) -> int {
    if sub == 0 {
        v.port_selected
    } else if sub == 1 {
        v.baud_rate_selected
    } else if sub == 2 {
        v.data_bits_selected
    } else if sub == 3 {
        v.parity_selected
    } else if sub == 4 {
        v.stop_bits_selected
    } else {
        v.flow_control_selected
    }
}

/// How many options the settings-bar item `sub` has.
pub open spec fn option_count(v: AppView, sub: int) -> int {
    if sub == 0 {
        v.ports.len() as int
    } else if sub == 1 {
        v.baud_rates.len() as int
    } else if sub == 2 {
        v.data_bits_options.len() as int
    } else if sub == 3 {
        v.parity_options.len() as int
    } else if sub == 4 {
        v.stop_bits_options.len() as int
    } else {
        v.flow_control_options.len() as int
    }
}

/// Law: in the settings bar, the arrows step the picked item through its
/// options one place at a time. For the baud rate, data bits, parity, stop
/// bits and flow control, Up moves to the next option where there is one
/// and Down to the previous one where there is one; for the port list it is
/// the other way round. Otherwise the selection stays, the other items'
/// selections never change, and the serial settings take the option now
/// selected.
pub proof fn law_settings_arrows_step(v: AppView, key: Key)
    requires
        v.focus == FocusArea::Settings,
        v.export_dialog is Hidden,
        !global_key(key),
        key.code == KeyCode::Up || key.code == KeyCode::Down,
        0 <= v.settings_sub_index <= 5,
        selections_in_range(v),
    ensures
        ({
            let w = key_stepped(v, key).0;
            let sub = v.settings_sub_index;
            let sel = selection_at(v, sub);
            let n = option_count(v, sub);
            let forward = if sub == 0 { key.code == KeyCode::Down } else { key.code == KeyCode::Up };
            &&& forward && sel + 1 < n ==> selection_at(w, sub) == sel + 1
            &&& !forward && sel > 0 ==> selection_at(w, sub) == sel - 1
            &&& (forward && sel + 1 >= n) || (!forward && sel == 0) ==> selection_at(w, sub) == sel
            &&& forall|k: int| 0 <= k <= 5 && k != sub ==> selection_at(w, k) == selection_at(v, k)
            &&& w.settings.baud_rate == w.baud_rates[w.baud_rate_selected]
            &&& w.settings.data_bits == w.data_bits_options[w.data_bits_selected]
            &&& w.settings.parity == w.parity_options[w.parity_selected]
            &&& w.settings.stop_bits == w.stop_bits_options[w.stop_bits_selected]
            &&& w.settings.flow_control == w.flow_control_options[w.flow_control_selected]
            &&& (v.ports.len() > 0 ==> w.settings.port == w.ports[w.port_selected])
        }),
{
    law_settings_keep_selections(v, key);
}

/// Law: in the quick-send panel, browsing the commands, Up moves the
/// selection to the previous command and Down to the next, one place at a
/// time, staying put at either end; the commands themselves do not change.
pub proof fn law_quick_send_arrows_step(v: AppView, key: Key)
    requires
        v.focus == FocusArea::QuickSend,
        v.export_dialog is Hidden,
        v.quick_send_mode == QuickSendMode::Normal,
        !global_key(key),
        key.code == KeyCode::Up || key.code == KeyCode::Down,
    ensures
        ({
            let (w, e) = key_stepped(v, key);
            let sel = v.quick_send_selected;
            &&& key.code == KeyCode::Up && sel > 0 ==> w.quick_send_selected == sel - 1
            &&& key.code == KeyCode::Up && sel <= 0 ==> w.quick_send_selected == sel
            &&& key.code == KeyCode::Down && sel + 1 < v.commands.len() ==> w.quick_send_selected
                == sel + 1
            &&& key.code == KeyCode::Down && sel + 1 >= v.commands.len() ==> w.quick_send_selected
                == sel
            &&& w.commands == v.commands
            &&& w.lines == v.lines
            &&& e == EffectView::Nothing
        }),
{
}

/// Law: in the terminal panel, Up scrolls one line back and Down one line
/// forward (not past the end); PageUp scrolls ten lines back and PageDown
/// ten forward, stopping at the end. A step back followed by the same step
/// forward returns to where the view was.
pub proof fn law_terminal_scrolling(v: AppView)
    requires
        v.focus == FocusArea::Terminal,
        v.export_dialog is Hidden,
        v.scroll_offset >= 0,
    ensures
        key_stepped(v, Key { code: KeyCode::Up, modifiers: MODIFIER_NONE }).0.scroll_offset
            == v.scroll_offset + 1,
        key_stepped(v, Key { code: KeyCode::PageUp, modifiers: MODIFIER_NONE }).0.scroll_offset
            == v.scroll_offset + 10,
        key_stepped(v, Key { code: KeyCode::Down, modifiers: MODIFIER_NONE }).0.scroll_offset == if v.scroll_offset
            > 0 {
            v.scroll_offset - 1
        } else {
            0
        },
        key_stepped(v, Key { code: KeyCode::PageDown, modifiers: MODIFIER_NONE }).0.scroll_offset == if v.scroll_offset
            >= 10 {
            v.scroll_offset - 10
        } else {
            0
        },
        key_stepped(
            key_stepped(v, Key { code: KeyCode::PageUp, modifiers: MODIFIER_NONE }).0,
            Key { code: KeyCode::PageDown, modifiers: MODIFIER_NONE },
        ).0.scroll_offset == v.scroll_offset,
        key_stepped(
            key_stepped(v, Key { code: KeyCode::Up, modifiers: MODIFIER_NONE }).0,
            Key { code: KeyCode::Down, modifiers: MODIFIER_NONE },
        ).0.scroll_offset == v.scroll_offset,
{
}

/// Whether port parameters are those `port_request` gives: the port and
/// baud rate of the settings and the frame they describe.
pub open spec fn requested(c: PortConfig, v: AppView) -> bool {
    let s = v.settings;
    &&& c.port_name@ == s.port
    &&& c.baud_rate == s.baud_rate
    &&& c.data_bits == crate::serial::data_bits_for(s.data_bits)
    &&& c.parity == crate::serial::parity_for(s.parity)
    &&& c.stop_bits == crate::serial::stop_bits_for(s.stop_bits)
    &&& c.flow_control == crate::serial::flow_control_for(s.flow_control)
}

/// Law: a reconnection reopens the last port at the last baud rate with the
/// very frame a connection would use now: the same data bits, parity, stop
/// bits and flow control as `port_request`, and, for a frame the settings
/// bar offers, exactly the data bits, parity, stop bits and flow control
/// the settings name.
pub proof fn law_reconnect_reopens_with_the_settings(c: PortConfig, d: PortConfig, v: AppView)
    requires
        reopens(c, v),
        requested(d, v),
    ensures
        Some(c.port_name@) == v.serial.last_port_name,
        c.baud_rate == v.serial.last_baud_rate,
        c.data_bits == d.data_bits,
        c.parity == d.parity,
        c.stop_bits == d.stop_bits,
        c.flow_control == d.flow_control,
        crate::serial::offered_frame(
            v.settings.data_bits,
            v.settings.parity,
            v.settings.stop_bits,
            v.settings.flow_control,
        ) ==> {
            &&& crate::serial::bit_count(c.data_bits) == v.settings.data_bits
            &&& crate::serial::parity_word(c.parity) == v.settings.parity
            &&& crate::serial::stop_count(c.stop_bits) == v.settings.stop_bits
            &&& crate::serial::flow_word(c.flow_control) == v.settings.flow_control
        },
{
    if crate::serial::offered_frame(
        v.settings.data_bits,
        v.settings.parity,
        v.settings.stop_bits,
        v.settings.flow_control,
    ) {
        crate::serial::law_port_parameters_keep_the_frame(
            v.settings.data_bits,
            v.settings.parity,
            v.settings.stop_bits,
            v.settings.flow_control,
        );
    }
}

} // verus!
