//! Serial settings, line endings, display formats and the application
//! configuration, with the location of the configuration file.
use vstd::prelude::*;
use vstd::string::*;

verus! {

/// Parameters of a serial connection.
#[derive(Debug, Clone)]
pub struct SerialSettings {
    pub port: String,
    pub baud_rate: u32,
    pub data_bits: u8,
    pub parity: String,
    pub stop_bits: u8,
    pub flow_control: String,
}

/// Serial settings as mathematical values.
pub struct SettingsView {
    pub port: Seq<char>,
    pub baud_rate: u32,
    pub data_bits: u8,
    pub parity: Seq<char>,
    pub stop_bits: u8,
    pub flow_control: Seq<char>,
}

impl View for SerialSettings {
    type V = SettingsView;

    open spec fn view(&self) -> SettingsView {
        SettingsView {
            port: self.port@,
            baud_rate: self.baud_rate,
            data_bits: self.data_bits,
            parity: self.parity@,
            stop_bits: self.stop_bits,
            flow_control: self.flow_control@,
        }
    }
}

impl SerialSettings {
    /// A field-by-field copy.
    pub fn duplicate(&self) -> (res: Self)
        ensures
            res@ == self@,
    {
        SerialSettings {
            port: self.port.clone(),
            baud_rate: self.baud_rate,
            data_bits: self.data_bits,
            parity: self.parity.clone(),
            stop_bits: self.stop_bits,
            flow_control: self.flow_control.clone(),
        }
    }
}

impl Default for SerialSettings {
    fn default() -> (res: Self)
        ensures
            res.port@ == Seq::<char>::empty(),
            res.baud_rate == 115200,
            res.data_bits == 8,
            res.parity@ == "none"@,
            res.stop_bits == 1,
            res.flow_control@ == "none"@,
    {
        SerialSettings {
            port: String::new(),
            baud_rate: 115200,
            data_bits: 8,
            parity: String::from_str("none"),
            stop_bits: 1,
            flow_control: String::from_str("none"),
        }
    }
}

/// What is appended to every outgoing message.
#[derive(Debug, Clone, Copy, PartialEq, Eq, Structural)]
pub enum LineEnding {
    NoEnding,
    LF,
    CR,
    CRLF,
}

/// The bytes a line ending stands for.
pub open spec fn line_ending_bytes(le: LineEnding) -> Seq<u8> {
    match le {
        LineEnding::NoEnding => Seq::empty(),
        LineEnding::LF => seq![10u8],
        LineEnding::CR => seq![13u8],
        LineEnding::CRLF => seq![13u8, 10u8],
    }
}

impl LineEnding {
    pub fn as_bytes(&self) -> (res: &'static [u8])
        ensures
            res@ == line_ending_bytes(*self),
    {
        match self {
            LineEnding::NoEnding => {
                let r: &'static [u8] = &[];
                assert(r@ =~= line_ending_bytes(*self));
                r
            },
            LineEnding::LF => {
                let r: &'static [u8] = &[10u8];
                assert(r@ =~= line_ending_bytes(*self));
                r
            },
            LineEnding::CR => {
                let r: &'static [u8] = &[13u8];
                assert(r@ =~= line_ending_bytes(*self));
                r
            },
            LineEnding::CRLF => {
                let r: &'static [u8] = &[13u8, 10u8];
                assert(r@ =~= line_ending_bytes(*self));
                r
            },
        }
    }
}

/// How received and sent bytes are shown.
#[derive(Debug, Clone, Copy, PartialEq, Eq, Structural)]
pub enum DisplayFormat {
    Hex,
    Ascii,
    Raw,
}

impl Default for DisplayFormat {
    fn default() -> (res: Self)
        ensures
            res == DisplayFormat::Ascii,
    {
        DisplayFormat::Ascii
    }
}

/// The persisted application configuration.
#[derive(Debug, Clone)]
pub struct AppConfig {
    pub serial: SerialSettings,
    pub line_ending: LineEnding,
    pub display_format: DisplayFormat,
}

/// The configuration as mathematical values.
pub struct ConfigView {
    pub serial: SettingsView,
    pub line_ending: LineEnding,
    pub display_format: DisplayFormat,
}

impl View for AppConfig {
    type V = ConfigView;

    open spec fn view(&self) -> ConfigView {
        ConfigView {
            serial: self.serial@,
            line_ending: self.line_ending,
            display_format: self.display_format,
        }
    }
}

/// The line ending a configuration without one gets.
pub fn default_line_ending() -> (res: LineEnding)
    ensures
        res == LineEnding::NoEnding,
{
    LineEnding::NoEnding
}

impl Default for AppConfig {
    fn default() -> (res: Self)
        ensures
            res.serial.port@ == Seq::<char>::empty(),
            res.serial.baud_rate == 115200,
            res.serial.data_bits == 8,
            res.serial.parity@ == "none"@,
            res.serial.stop_bits == 1,
            res.serial.flow_control@ == "none"@,
            res.line_ending == LineEnding::NoEnding,
            res.display_format == DisplayFormat::Ascii,
    {
        AppConfig {
            serial: SerialSettings::default(),
            line_ending: LineEnding::NoEnding,
            display_format: DisplayFormat::Ascii,
        }
    }
}

/// `base` with `component` appended as a further path component, the way
/// `PathBuf::push` joins a relative component on Unix.
pub open spec fn path_join(base: Seq<char>, component: Seq<char>) -> Seq<char> {
    if base.len() == 0 || base.last() == '/' {
        base + component
    } else {
        base + seq!['/'] + component
    }
}

/// The directory that holds the configuration and the saved commands.
pub open spec fn settings_dir(home: Seq<char>) -> Seq<char> {
    path_join(path_join(home, ".config"@), "serial"@)
}

/// The home directory: `HOME`, else `USERPROFILE`, else the current directory.
pub open spec fn chosen_home(home: Option<Seq<char>>, user_profile: Option<Seq<char>>) -> Seq<char> {
    match home {
        Some(h) => h,
        None => match user_profile {
            Some(u) => u,
            None => "."@,
        },
    }
}

/// Picks the home directory from the values of `HOME` and `USERPROFILE`
/// (`None` where the variable is unset or not Unicode).
pub fn home_directory(home: Option<String>, user_profile: Option<String>) -> (res: String)
    ensures
        res@ == chosen_home(
            match home { Some(h) => Some(h@), None => None },
            match user_profile { Some(u) => Some(u@), None => None },
        ),
{
    match home {
        Some(h) => h,
        None => match user_profile {
            Some(u) => u,
            None => String::from_str("."),
        },
    }
}

/// Joins a relative component onto a path, as `PathBuf::push` does on Unix.
pub fn join_path(base: &str, component: &str) -> (res: String)
    ensures
        res@ == path_join(base@, component@),
{
    let mut res = String::from_str(base);
    let n = base.unicode_len();
    if n > 0 && base.get_char(n - 1) != '/' {
        crate::text::push_char(&mut res, '/');
    }
    res.append(component);
    res
}

/// `<home>/.config/serial`.
pub fn settings_directory(home: &str) -> (res: String)
    ensures
        res@ == settings_dir(home@),
{
    let c = join_path(home, ".config");
    join_path(c.as_str(), "serial")
}

impl AppConfig {
    /// The configuration directory under the given home directory.
    pub fn config_dir(home: &str) -> (res: String)
        ensures
            res@ == settings_dir(home@),
    {
        settings_directory(home)
    }

    /// The configuration file under the given home directory.
    pub fn config_path(home: &str) -> (res: String)
        ensures
            res@ == path_join(settings_dir(home@), "config.toml"@),
    {
        let dir = Self::config_dir(home);
        join_path(dir.as_str(), "config.toml")
    }
}

} // verus!
