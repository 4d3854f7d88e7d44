//! The session's dealings with the port: opening and closing it, what it
//! sends back, the ports the system offers, and the terminal's events.
use vstd::prelude::*;
use vstd::utf8::{decode_utf8, valid_utf8};

use crate::app::{App, AppState, AppView, ConnectionStatus};
use crate::cli::Args;
use crate::serial::{
    DataBits, FlowControl, Parity, PortInfo, PortType, SerialConfig, SerialEvent, StopBits,
};
use crate::text::str_chars;

verus! {

/// Outside work the session asks for; the caller performs it.
#[derive(Debug)]
pub enum Effect {
    /// Close the open port, if any, then open the one the configuration
    /// names, and report the outcome with `App::finish_connect`.
    Connect,
    /// Close the open port.
    CloseHandle,
    /// Write these bytes to the open port.
    Send(Vec<u8>),
}

/// What an effect asks for, in the model.
pub enum Action {
    Connect,
    CloseHandle,
    Send(Seq<u8>),
}

pub open spec fn action_of(e: Option<Effect>) -> Option<Action> {
    match e {
        Some(Effect::Connect) => Some(Action::Connect),
        Some(Effect::CloseHandle) => Some(Action::CloseHandle),
        Some(Effect::Send(bytes)) => Some(Action::Send(bytes@)),
        None => None,
    }
}

/// The text `String::from_utf8_lossy` makes of some bytes: named, as it
/// rests on std's decoder; valid UTF-8 decodes as such.
pub uninterp spec fn utf8_lossy(bytes: Seq<u8>) -> Seq<char>;

/// `String::from_utf8_lossy`, as characters. The contract states what its
/// documentation gives: valid UTF-8 comes out as the text it encodes. What
/// replaces invalid sequences is only named.
#[verifier::external_body]
fn decode_lossy(bytes: &Vec<u8>) -> (r: Vec<char>)
    ensures
        r@ == utf8_lossy(bytes@),
        valid_utf8(bytes@) ==> r@ == decode_utf8(bytes@),
{
    String::from_utf8_lossy(bytes).chars().collect()
}

pub open spec fn data_bits_from(n: u8) -> DataBits {
    if n == 5 {
        DataBits::Five
    } else if n == 6 {
        DataBits::Six
    } else if n == 7 {
        DataBits::Seven
    } else {
        DataBits::Eight
    }
}

pub open spec fn stop_bits_from(n: u8) -> StopBits {
    if n == 2 {
        StopBits::Two
    } else {
        StopBits::One
    }
}

pub open spec fn parity_from(s: Seq<char>) -> Parity {
    if s == "odd"@ {
        Parity::Odd
    } else if s == "even"@ {
        Parity::Even
    } else {
        Parity::NoParity
    }
}

pub open spec fn flow_control_from(s: Seq<char>) -> FlowControl {
    if s == "hardware"@ {
        FlowControl::Hardware
    } else if s == "software"@ {
        FlowControl::Software
    } else {
        FlowControl::NoFlow
    }
}

/// The configuration the command line asks for: unknown numbers and names
/// fall back to 8 data bits, 1 stop bit, no parity, no flow control; a port
/// named there replaces the configured one.
pub open spec fn config_from_args(args: Args, current: SerialConfig) -> SerialConfig {
    SerialConfig {
        port_info: match args.port {
            Some(name) => Some(PortInfo { port_name: name, port_type: PortType::Unknown }),
            None => current.port_info,
        },
        baud: args.baud,
        data_bits: data_bits_from(args.data_bits),
        parity: parity_from(args.parity@),
        stop_bits: stop_bits_from(args.stop_bits),
        flow_control: flow_control_from(args.flow_control@),
    }
}

/// The text a message from the worker adds to the output.
pub open spec fn event_text(e: SerialEvent) -> Seq<char> {
    match e {
        SerialEvent::Data(bytes) => utf8_lossy(bytes@),
        SerialEvent::Error(msg) => "[Error: "@ + msg@ + "]\n"@,
        SerialEvent::Disconnected => seq![],
    }
}

/// The session after the messages up to the first `Disconnected`, and
/// whether there was one.
pub open spec fn absorbed(v: AppView, events: Seq<SerialEvent>) -> (AppView, bool)
    decreases events.len(),
{
    if events.len() == 0 {
        (v, false)
    } else if events[0] is Disconnected {
        (v, true)
    } else {
        absorbed(v.appended(event_text(events[0])), events.skip(1))
    }
}

impl AppView {
    /// The port is being (re)opened: any open one is closed first.
    pub open spec fn connecting(self) -> (AppView, Option<Action>) {
        (AppView { handle_open: false, ..self }, Some(Action::Connect))
    }

    /// After an attempt to open the port: on success the session holds it
    /// and says so in the output; on failure it records the error.
    #[verifier::opaque]
    pub open spec fn connected(self, result: Result<(), String>) -> AppView {
        match result {
            Ok(()) => AppView {
                handle_open: true,
                connection_status: ConnectionStatus::Connected,
                port_error: None,
                ..self
            }.appended("[Connected]\n"@),
            Err(e) => AppView {
                connection_status: ConnectionStatus::Disconnected,
                port_error: Some(e),
                dirty: true,
                ..self
            },
        }
    }

    /// The open port, if any, is closed.
    pub open spec fn closing(self) -> (AppView, Option<Action>) {
        (
            AppView { handle_open: false, ..self },
            if self.handle_open {
                Some(Action::CloseHandle)
            } else {
                None
            },
        )
    }

    /// The user disconnects: the port is closed and the output says so.
    #[verifier::opaque]
    pub open spec fn disconnected(self) -> (AppView, Option<Action>) {
        let c = self.closing();
        (
            AppView { connection_status: ConnectionStatus::Disconnected, ..c.0 }.appended(
                "[Disconnected]\n"@,
            ),
            c.1,
        )
    }

    /// The user quits: the port is closed and the session ends.
    #[verifier::opaque]
    pub open spec fn exited(self) -> (AppView, Option<Action>) {
        let c = self.closing();
        (AppView { exit: true, ..c.0 }, c.1)
    }

    /// The session starts from its command line: with a port to open, it
    /// opens it; without one, it shows the menu.
    pub open spec fn started(self) -> (AppView, Option<Action>) {
        let config = config_from_args(self.args, self.serial_config);
        let v = AppView { serial_config: config, ..self };
        if config.port_info is Some {
            v.connecting()
        } else {
            (AppView { app_state: AppState::Options, ..v }, None)
        }
    }

    /// After the worker's messages are taken in: received text and errors go
    /// to the output; a `Disconnected` message, or a worker gone silent
    /// (`lost`), closes the session's side and says so; old lines beyond the
    /// limit are dropped.
    #[verifier::opaque]
    pub open spec fn drained(self, events: Seq<SerialEvent>, lost: bool) -> AppView {
        let a = absorbed(self, events);
        let b = if a.1 {
            AppView {
                handle_open: false,
                connection_status: ConnectionStatus::Disconnected,
                ..a.0
            }.appended("[Disconnected]\n"@)
        } else if lost {
            AppView {
                handle_open: false,
                connection_status: ConnectionStatus::Disconnected,
                ..a.0
            }.appended("[Connection lost]\n"@)
        } else {
            a.0
        };
        b.truncated()
    }

    /// After a scan of the system's ports: the list is replaced, and the
    /// screen redrawn when the names changed; a failed scan empties the list
    /// and records the error.
    pub open spec fn scanned(self, result: Result<Seq<PortInfo>, String>) -> AppView {
        match result {
            Ok(ports) => {
                let changed = ports.len() != self.available_ports.len() || exists|i: int|
                    0 <= i < ports.len() && i < self.available_ports.len() && #[trigger] ports[i].port_name@
                        != self.available_ports[i].port_name@;
                AppView { dirty: self.dirty || changed, available_ports: ports, ..self }
            },
            Err(e) => AppView {
                dirty: self.dirty || self.available_ports.len() > 0,
                available_ports: seq![],
                port_error: Some(e),
                ..self
            },
        }
    }
}

fn data_bits_arg(n: u8) -> (r: DataBits)
    ensures
        r == data_bits_from(n),
{
    if n == 5 {
        DataBits::Five
    } else if n == 6 {
        DataBits::Six
    } else if n == 7 {
        DataBits::Seven
    } else {
        DataBits::Eight
    }
}

fn stop_bits_arg(n: u8) -> (r: StopBits)
    ensures
        r == stop_bits_from(n),
{
    if n == 2 {
        StopBits::Two
    } else {
        StopBits::One
    }
}

fn parity_arg(s: &String) -> (r: Parity)
    ensures
        r == parity_from(s@),
{
    if *s == String::from_str("odd") {
        Parity::Odd
    } else if *s == String::from_str("even") {
        Parity::Even
    } else {
        Parity::NoParity
    }
}

fn flow_control_arg(s: &String) -> (r: FlowControl)
    ensures
        r == flow_control_from(s@),
{
    if *s == String::from_str("hardware") {
        FlowControl::Hardware
    } else if *s == String::from_str("software") {
        FlowControl::Software
    } else {
        FlowControl::NoFlow
    }
}

fn error_text(msg: &String) -> (r: Vec<char>)
    ensures
        r@ == "[Error: "@ + msg@ + "]\n"@,
{
    let mut text = str_chars("[Error: ");
    let m = str_chars(msg.as_str());
    crate::text::push_chars(&mut text, &m);
    crate::text::push_str(&mut text, "]\n");
    text
}

impl App {
    pub(crate) fn begin_connect(&mut self) -> (r: Effect)
        ensures
            final(self)@ == old(self)@.connecting().0,
            action_of(Some(r)) == old(self)@.connecting().1,
    {
        self.handle_open = false;
        Effect::Connect
    }

    /// Takes in the outcome of opening the port.
    pub fn finish_connect(&mut self, result: Result<(), String>)
        ensures
            final(self)@ == old(self)@.connected(result),
    {
        reveal(AppView::connected);
        reveal(AppView::appended);
        match result {
            Ok(()) => {
                self.handle_open = true;
                self.connection_status = ConnectionStatus::Connected;
                self.port_error = None;
                let msg = str_chars("[Connected]\n");
                self.append_output(&msg);
            },
            Err(e) => {
                self.connection_status = ConnectionStatus::Disconnected;
                self.port_error = Some(e);
            },
        }
        self.dirty = true;
    }

    fn close_handle(&mut self) -> (r: Option<Effect>)
        ensures
            final(self)@ == old(self)@.closing().0,
            action_of(r) == old(self)@.closing().1,
    {
        if self.handle_open {
            self.handle_open = false;
            Some(Effect::CloseHandle)
        } else {
            None
        }
    }

    pub(crate) fn disconnect(&mut self) -> (r: Option<Effect>)
        ensures
            final(self).last_output_area == old(self).last_output_area,
            final(self).menu_cursor == old(self).menu_cursor,
            final(self)@ == old(self)@.disconnected().0,
            action_of(r) == old(self)@.disconnected().1,
    {
        reveal(AppView::disconnected);
        reveal(AppView::appended);
        let r = self.close_handle();
        self.connection_status = ConnectionStatus::Disconnected;
        let msg = str_chars("[Disconnected]\n");
        self.append_output(&msg);
        self.dirty = true;
        r
    }

    pub(crate) fn exit(&mut self) -> (r: Option<Effect>)
        ensures
            final(self).last_output_area == old(self).last_output_area,
            final(self).menu_cursor == old(self).menu_cursor,
            final(self)@ == old(self)@.exited().0,
            action_of(r) == old(self)@.exited().1,
    {
        reveal(AppView::exited);
        let r = self.close_handle();
        self.exit = true;
        r
    }

    /// Applies the command line and decides how the session opens.
    pub fn start(&mut self) -> (r: Option<Effect>)
        ensures
            final(self)@ == old(self)@.started().0,
            action_of(r) == old(self)@.started().1,
    {
        let port_info = match &self.args.port {
            Some(port_name) => Some(
                PortInfo { port_name: port_name.clone(), port_type: PortType::Unknown },
            ),
            None => self.serial_config.port_info.clone(),
        };
        self.serial_config = SerialConfig {
            port_info,
            baud: self.args.baud,
            data_bits: data_bits_arg(self.args.data_bits),
            parity: parity_arg(&self.args.parity),
            stop_bits: stop_bits_arg(self.args.stop_bits),
            flow_control: flow_control_arg(&self.args.flow_control),
        };
        if self.serial_config.port_info.is_some() {
            Some(self.begin_connect())
        } else {
            self.app_state = AppState::Options;
            None
        }
    }

    fn absorb_events(&mut self, events: &Vec<SerialEvent>) -> (r: bool)
        ensures
            absorbed(old(self)@, events@) == (final(self)@, r),
    {
        let mut i: usize = 0;
        assert(events@.skip(0) =~= events@);
        if events.len() == 0 {
            assert(events@.skip(0) =~= seq![]);
        }
        while i < events.len()
            invariant_except_break
                i <= events.len(),
                i == events.len() ==> events@.skip(i as int) == Seq::<SerialEvent>::empty(),
                absorbed(self@, events@.skip(i as int)) == absorbed(old(self)@, events@),
            ensures
                absorbed(old(self)@, events@) == (self@, i < events.len()),
            decreases events.len() - i,
        {
            let ghost rest = events@.skip(i as int);
            assert(rest[0] == events@[i as int]);
            assert(rest.skip(1) =~= events@.skip(i + 1));
            match &events[i] {
                SerialEvent::Data(data) => {
                    let text = decode_lossy(data);
                    self.append_output(&text);
                },
                SerialEvent::Error(msg) => {
                    let text = error_text(msg);
                    self.append_output(&text);
                },
                SerialEvent::Disconnected => {
                    break;
                },
            }
            i = i + 1;
            if i == events.len() {
                assert(events@.skip(i as int) =~= seq![]);
            }
        }
        i < events.len()
    }

    /// Takes in the worker's messages, `lost` telling whether the worker has
    /// gone without a word.
    pub fn apply_serial_events(&mut self, events: Vec<SerialEvent>, lost: bool)
        ensures
            final(self)@ == old(self)@.drained(events@, lost),
    {
        reveal(AppView::drained);
        let disconnected_event = self.absorb_events(&events);
        if disconnected_event {
            self.handle_open = false;
            self.connection_status = ConnectionStatus::Disconnected;
            let msg = str_chars("[Disconnected]\n");
            self.append_output(&msg);
        } else if lost {
            self.handle_open = false;
            self.connection_status = ConnectionStatus::Disconnected;
            let msg = str_chars("[Connection lost]\n");
            self.append_output(&msg);
        }
        self.truncate_old_lines();
    }

    /// Takes in a scan of the system's serial ports.
    pub fn apply_port_scan(&mut self, result: Result<Vec<PortInfo>, String>)
        ensures
            final(self)@ == old(self)@.scanned(
                match result {
                    Ok(ports) => Ok(ports@),
                    Err(e) => Err(e),
                },
            ),
    {
        match result {
            Ok(ports) => {
                let mut changed = ports.len() != self.available_ports.len();
                let mut i: usize = 0;
                while i < ports.len() && i < self.available_ports.len()
                    invariant
                        i <= ports.len(),
                        changed == (ports@.len() != self.available_ports@.len() || exists|k: int|
                            0 <= k < i && #[trigger] ports@[k].port_name@
                                != self.available_ports@[k].port_name@),
                    decreases ports.len() - i,
                {
                    if ports[i].port_name != self.available_ports[i].port_name {
                        changed = true;
                    }
                    i = i + 1;
                }
                if changed {
                    self.dirty = true;
                }
                self.available_ports = ports;
            },
            Err(e) => {
                if self.available_ports.len() > 0 {
                    self.dirty = true;
                }
                self.available_ports = Vec::new();
                self.port_error = Some(e);
            },
        }
    }
}

} // verus!
