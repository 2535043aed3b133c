//! Connection bookkeeping for the serial port: state, reconnection policy,
//! and the port parameters derived from the user's settings.
pub mod reader;
pub mod writer;

use vstd::prelude::*;
use vstd::string::*;
use crate::text::same_text;

verus! {

/// Whether a port is open, closed, or lost and being reopened.
#[derive(Debug, Clone, Copy, PartialEq, Eq, Structural)]
pub enum ConnectionState {
    Disconnected,
    Connected,
    Reconnecting,
}

/// The connection's bookkeeping. The port handle itself is held by the
/// caller; `port_attached` says whether it should be holding one.
pub struct SerialManager {
    pub port_attached: bool,
    pub state: ConnectionState,
    pub reconnect_count: u32,
    pub last_port_name: Option<String>,
    pub last_baud_rate: u32,
    pub user_disconnect: bool,
}

/// The connection bookkeeping as mathematical values.
pub struct LinkView {
    pub attached: bool,
    pub state: ConnectionState,
    pub reconnect_count: int,
    pub last_port_name: Option<Seq<char>>,
    pub last_baud_rate: u32,
    pub user_disconnect: bool,
}

impl View for SerialManager {
    type V = LinkView;

    open spec fn view(&self) -> LinkView {
        LinkView {
            attached: self.port_attached,
            state: self.state,
            reconnect_count: self.reconnect_count as int,
            last_port_name: match self.last_port_name {
                Some(n) => Some(n@),
                None => None,
            },
            last_baud_rate: self.last_baud_rate,
            user_disconnect: self.user_disconnect,
        }
    }
}

/// A fresh manager: nothing open, nothing remembered, 115200 baud.
pub open spec fn initial_link() -> LinkView {
    LinkView {
        attached: false,
        state: ConnectionState::Disconnected,
        reconnect_count: 0,
        last_port_name: None,
        last_baud_rate: 115200,
        user_disconnect: false,
    }
}

/// After a port was opened successfully.
pub open spec fn opened_link(v: LinkView, name: Seq<char>, baud_rate: u32) -> LinkView {
    LinkView {
        attached: true,
        state: ConnectionState::Connected,
        reconnect_count: 0,
        last_port_name: Some(name),
        last_baud_rate: baud_rate,
        user_disconnect: false,
    }
}

/// After the port was closed.
pub open spec fn closed_link(v: LinkView) -> LinkView {
    LinkView { attached: false, state: ConnectionState::Disconnected, ..v }
}

/// After the user asked to disconnect.
pub open spec fn user_closed_link(v: LinkView) -> LinkView {
    closed_link(LinkView { user_disconnect: true, ..v })
}

/// After the port was lost: a reconnection round starts, unless the user
/// had disconnected.
pub open spec fn lost_link(v: LinkView) -> LinkView {
    if v.user_disconnect {
        v
    } else {
        LinkView {
            attached: false,
            state: ConnectionState::Reconnecting,
            reconnect_count: v.reconnect_count + 1,
            ..v
        }
    }
}

/// `k` losses in a row.
pub open spec fn lost_times(v: LinkView, k: nat) -> LinkView
    decreases k,
{
    if k == 0 {
        v
    } else {
        lost_link(lost_times(v, (k - 1) as nat))
    }
}

/// Whether the port should be reopened: a round is on, the user did not
/// disconnect, at most ten losses so far, and a port is remembered.
pub open spec fn wants_reconnect(v: LinkView) -> bool {
    &&& v.state == ConnectionState::Reconnecting
    &&& !v.user_disconnect
    &&& v.reconnect_count <= 10
    &&& v.last_port_name is Some
}

/// Number of data bits of a frame.
#[derive(Debug, Clone, Copy, PartialEq, Eq, Structural)]
pub enum DataBits {
    Five,
    Six,
    Seven,
    Eight,
}

/// Parity checking.
#[derive(Debug, Clone, Copy, PartialEq, Eq, Structural)]
pub enum Parity {
    Off,
    Odd,
    Even,
}

/// Number of stop bits.
#[derive(Debug, Clone, Copy, PartialEq, Eq, Structural)]
pub enum StopBits {
    One,
    Two,
}

/// Flow control.
#[derive(Debug, Clone, Copy, PartialEq, Eq, Structural)]
pub enum FlowControl {
    Off,
    Hardware,
    Software,
}

/// Everything needed to open a port.
pub struct PortConfig {
    pub port_name: String,
    pub baud_rate: u32,
    pub data_bits: DataBits,
    pub parity: Parity,
    pub stop_bits: StopBits,
    pub flow_control: FlowControl,
}

/// 5, 6 and 7 data bits as such; any other number as 8.
pub open spec fn data_bits_for(n: u8) -> DataBits {
    if n == 5 {
        DataBits::Five
    } else if n == 6 {
        DataBits::Six
    } else if n == 7 {
        DataBits::Seven
    } else {
        DataBits::Eight
    }
}

/// `odd` and `even` as such; anything else as no parity.
pub open spec fn parity_for(s: Seq<char>) -> Parity {
    if s == "odd"@ {
        Parity::Odd
    } else if s == "even"@ {
        Parity::Even
    } else {
        Parity::Off
    }
}

/// 2 stop bits as such; anything else as 1.
pub open spec fn stop_bits_for(n: u8) -> StopBits {
    if n == 2 {
        StopBits::Two
    } else {
        StopBits::One
    }
}

/// `hardware` and `software` as such; anything else as none.
pub open spec fn flow_control_for(s: Seq<char>) -> FlowControl {
    if s == "hardware"@ {
        FlowControl::Hardware
    } else if s == "software"@ {
        FlowControl::Software
    } else {
        FlowControl::Off
    }
}

impl SerialManager {
    /// Nothing open, nothing remembered, 115200 baud.
    pub fn new() -> (res: Self)
        ensures
            res@ == initial_link(),
    {
        SerialManager {
            port_attached: false,
            state: ConnectionState::Disconnected,
            reconnect_count: 0,
            last_port_name: None,
            last_baud_rate: 115200,
            user_disconnect: false,
        }
    }

    /// The parameters for opening `port_name` with the given settings.
    pub fn port_config(
        port_name: &str,
        baud_rate: u32,
        data_bits: u8,
        parity: &str,
        stop_bits: u8,
        flow_control: &str,
    ) -> (res: PortConfig)
        ensures
            res.port_name@ == port_name@,
            res.baud_rate == baud_rate,
            res.data_bits == data_bits_for(data_bits),
            res.parity == parity_for(parity@),
            res.stop_bits == stop_bits_for(stop_bits),
            res.flow_control == flow_control_for(flow_control@),
    {
        let data_bits = if data_bits == 5 {
            DataBits::Five
        } else if data_bits == 6 {
            DataBits::Six
        } else if data_bits == 7 {
            DataBits::Seven
        } else {
            DataBits::Eight
        };
        let parity = if same_text(parity, "odd") {
            Parity::Odd
        } else if same_text(parity, "even") {
            Parity::Even
        } else {
            Parity::Off
        };
        let stop_bits = if stop_bits == 2 {
            StopBits::Two
        } else {
            StopBits::One
        };
        let flow_control = if same_text(flow_control, "hardware") {
            FlowControl::Hardware
        } else if same_text(flow_control, "software") {
            FlowControl::Software
        } else {
            FlowControl::Off
        };
        PortConfig {
            port_name: String::from_str(port_name),
            baud_rate,
            data_bits,
            parity,
            stop_bits,
            flow_control,
        }
    }

    /// Records that `port_name` was opened at `baud_rate`.
    pub fn mark_open(&mut self, port_name: &str, baud_rate: u32)
        ensures
            final(self)@ == opened_link(old(self)@, port_name@, baud_rate),
    {
        self.port_attached = true;
        self.state = ConnectionState::Connected;
        self.last_port_name = Some(String::from_str(port_name));
        self.last_baud_rate = baud_rate;
        self.reconnect_count = 0;
        self.user_disconnect = false;
    }

    /// Closes the port.
    pub fn close(&mut self)
        ensures
            final(self)@ == closed_link(old(self)@),
    {
        self.port_attached = false;
        self.state = ConnectionState::Disconnected;
    }

    /// Closes the port at the user's request; no reconnection follows.
    pub fn disconnect_by_user(&mut self)
        ensures
            final(self)@ == user_closed_link(old(self)@),
    {
        self.user_disconnect = true;
        self.close();
    }

    /// The port was lost: starts a reconnection round unless the user had
    /// disconnected.
    pub fn enter_reconnect(&mut self)
        requires
            !old(self).user_disconnect ==> old(self).reconnect_count < u32::MAX,
        ensures
            final(self)@ == lost_link(old(self)@),
    {
        if !self.user_disconnect {
            self.port_attached = false;
            self.state = ConnectionState::Reconnecting;
            self.reconnect_count = self.reconnect_count + 1;
        }
    }

    /// Whether the port should be reopened now.
    pub fn should_reconnect(&self) -> (res: bool)
        ensures
            res == wants_reconnect(self@),
    {
        self.state == ConnectionState::Reconnecting && !self.user_disconnect
            && self.reconnect_count <= 10 && self.last_port_name.is_some()
    }

    /// Whether a port is open.
    pub fn is_connected(&self) -> (res: bool)
        ensures
            res == (self.state == ConnectionState::Connected),
    {
        self.state == ConnectionState::Connected
    }

    /// Whether the caller should be holding an open port handle.
    pub fn has_port(&self) -> (res: bool)
        ensures
            res == self.port_attached,
    {
        self.port_attached
    }
}

/// Law: once the user has disconnected, losing the port any number of
/// times changes nothing, and no reconnection is wanted.
pub proof fn law_user_disconnect_stops_reconnection(v: LinkView, k: nat)
    ensures
        lost_times(user_closed_link(v), k) == user_closed_link(v),
        !wants_reconnect(lost_times(user_closed_link(v), k)),
        lost_times(user_closed_link(v), k).state == ConnectionState::Disconnected,
    decreases k,
{
    if k > 0 {
        law_user_disconnect_stops_reconnection(v, (k - 1) as nat);
    }
}

/// After `k` losses since the last successful open, `k` is the count.
pub proof fn lemma_losses_count(v: LinkView, name: Seq<char>, baud: u32, k: nat)
    ensures
        lost_times(opened_link(v, name, baud), k).reconnect_count == k,
        k > 0 ==> lost_times(opened_link(v, name, baud), k).state == ConnectionState::Reconnecting,
        !lost_times(opened_link(v, name, baud), k).user_disconnect,
        lost_times(opened_link(v, name, baud), k).last_port_name == Some(name),
    decreases k,
{
    if k > 0 {
        lemma_losses_count(v, name, baud, (k - 1) as nat);
    }
}

/// Law: after a successful open, reconnection is wanted after the first
/// loss and for at most ten losses in a row; from the eleventh on it stops.
pub proof fn law_reconnection_is_bounded(v: LinkView, name: Seq<char>, baud: u32, k: nat)
    ensures
        !wants_reconnect(opened_link(v, name, baud)),
        wants_reconnect(lost_times(opened_link(v, name, baud), k)) <==> 1 <= k <= 10,
{
    lemma_losses_count(v, name, baud, k);
}

/// Law: a successful open always leaves the port connected, with the count
/// reset and the user's earlier disconnect forgotten.
pub proof fn law_open_resets(v: LinkView, name: Seq<char>, baud: u32)
    ensures
        opened_link(v, name, baud).state == ConnectionState::Connected,
        opened_link(v, name, baud).reconnect_count == 0,
        !opened_link(v, name, baud).user_disconnect,
        opened_link(v, name, baud).attached,
{
}

/// How many data bits a frame carries.
pub open spec fn bit_count(d: DataBits) -> int {
    match d {
        DataBits::Five => 5,
        DataBits::Six => 6,
        DataBits::Seven => 7,
        DataBits::Eight => 8,
    }
}

/// How many stop bits end a frame.
pub open spec fn stop_count(s: StopBits) -> int {
    match s {
        StopBits::One => 1,
        StopBits::Two => 2,
    }
}

/// The settings' word for a parity: `none`, `odd` or `even`.
pub open spec fn parity_word(p: Parity) -> Seq<char> {
    match p {
        Parity::Off => "none"@,
        Parity::Odd => "odd"@,
        Parity::Even => "even"@,
    }
}

/// The settings' word for a flow control: `none`, `hardware` or `software`.
pub open spec fn flow_word(f: FlowControl) -> Seq<char> {
    match f {
        FlowControl::Off => "none"@,
        FlowControl::Hardware => "hardware"@,
        FlowControl::Software => "software"@,
    }
}

/// Whether a frame setting is one the settings bar offers: 5 to 8 data
/// bits, parity `none`, `odd` or `even`, 1 or 2 stop bits, and flow
/// control `none`, `hardware` or `software`.
pub open spec fn offered_frame(data_bits: u8, parity: Seq<char>, stop_bits: u8, flow: Seq<char>) -> bool {
    &&& 5 <= data_bits <= 8
    &&& (parity == "none"@ || parity == "odd"@ || parity == "even"@)
    &&& (stop_bits == 1 || stop_bits == 2)
    &&& (flow == "none"@ || flow == "hardware"@ || flow == "software"@)
}

/// Law: a port is opened with exactly the frame the settings ask for.
/// For every offered setting, the port parameters carry that many data
/// bits and stop bits, and the parity and flow control they name; so
/// different settings give different parameters.
pub proof fn law_port_parameters_keep_the_frame(
    data_bits: u8,
    parity: Seq<char>,
    stop_bits: u8,
    flow: Seq<char>,
)
    requires
        offered_frame(data_bits, parity, stop_bits, flow),
    ensures
        bit_count(data_bits_for(data_bits)) == data_bits,
        parity_word(parity_for(parity)) == parity,
        stop_count(stop_bits_for(stop_bits)) == stop_bits,
        flow_word(flow_control_for(flow)) == flow,
{
    reveal_strlit("none");
    reveal_strlit("odd");
    reveal_strlit("even");
    reveal_strlit("hardware");
    reveal_strlit("software");
    assert("none"@.len() != "odd"@.len());
    assert("none"@[0] != "even"@[0]);
    assert("odd"@.len() != "even"@.len());
    assert("none"@.len() != "hardware"@.len());
    assert("none"@.len() != "software"@.len());
    assert("hardware"@[0] != "software"@[0]);
}

/// Law: two offered settings that differ in their number of data bits open
/// the port with different data bits.
pub proof fn law_data_bits_are_distinguished(a: u8, b: u8)
    requires
        5 <= a <= 8,
        5 <= b <= 8,
        a != b,
    ensures
        data_bits_for(a) != data_bits_for(b),
        bit_count(data_bits_for(a)) == a,
{
}

} // verus!
