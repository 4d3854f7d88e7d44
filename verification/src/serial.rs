//! The serial line: its configuration, the messages exchanged with the
//! worker that owns the port, and the decisions that worker takes.
use vstd::prelude::*;

verus! {

/// Number of data bits per character.
#[derive(Debug, Clone, Copy, PartialEq, Eq, Structural)]
pub enum DataBits {
    Five,
    Six,
    Seven,
    Eight,
}

/// Parity checking mode.
#[derive(Debug, Clone, Copy, PartialEq, Eq, Structural)]
pub enum Parity {
    NoParity,
    Odd,
    Even,
}

/// Number of stop bits.
#[derive(Debug, Clone, Copy, PartialEq, Eq, Structural)]
pub enum StopBits {
    One,
    Two,
}

/// Flow control mode.
#[derive(Debug, Clone, Copy, PartialEq, Eq, Structural)]
pub enum FlowControl {
    NoFlow,
    Software,
    Hardware,
}

/// What a USB port tells of its device.
#[derive(Debug)]
pub struct UsbInfo {
    pub vid: u16,
    pub pid: u16,
    pub serial_number: Option<String>,
    pub manufacturer: Option<String>,
    pub product: Option<String>,
}

/// A copy of an optional text.
fn clone_text(t: &Option<String>) -> (r: Option<String>)
    ensures
        r == *t,
{
    match t {
        Some(s) => Some(s.clone()),
        None => None,
    }
}

impl Clone for UsbInfo {
    fn clone(&self) -> (r: Self)
        ensures
            r == *self,
    {
        UsbInfo {
            vid: self.vid,
            pid: self.pid,
            serial_number: clone_text(&self.serial_number),
            manufacturer: clone_text(&self.manufacturer),
            product: clone_text(&self.product),
        }
    }
}

/// The kind of device behind a serial port, with the details of a USB one.
#[derive(Debug)]
pub enum PortType {
    Usb(UsbInfo),
    Pci,
    Bluetooth,
    Unknown,
}

impl Clone for PortType {
    fn clone(&self) -> (r: Self)
        ensures
            r == *self,
    {
        match self {
            PortType::Usb(u) => PortType::Usb(u.clone()),
            PortType::Pci => PortType::Pci,
            PortType::Bluetooth => PortType::Bluetooth,
            PortType::Unknown => PortType::Unknown,
        }
    }
}

/// A serial port found on the system.
#[derive(Debug)]
pub struct PortInfo {
    pub port_name: String,
    pub port_type: PortType,
}

impl Clone for PortInfo {
    fn clone(&self) -> (r: Self)
        ensures
            r == *self,
    {
        PortInfo { port_name: self.port_name.clone(), port_type: self.port_type.clone() }
    }
}

/// Everything needed to open a port.
#[derive(Debug)]
pub struct SerialConfig {
    pub port_info: Option<PortInfo>,
    pub baud: u32,
    pub data_bits: DataBits,
    pub parity: Parity,
    pub stop_bits: StopBits,
    pub flow_control: FlowControl,
}

impl Clone for SerialConfig {
    fn clone(&self) -> (r: Self)
        ensures
            r == *self,
    {
        let port_info = match &self.port_info {
            Some(p) => Some(p.clone()),
            None => None,
        };
        SerialConfig {
            port_info,
            baud: self.baud,
            data_bits: self.data_bits,
            parity: self.parity,
            stop_bits: self.stop_bits,
            flow_control: self.flow_control,
        }
    }
}

/// The configuration a fresh session starts with: no port, 115200 baud, 8N1,
/// no flow control.
pub open spec fn default_config() -> SerialConfig {
    SerialConfig {
        port_info: None,
        baud: 115200,
        data_bits: DataBits::Eight,
        parity: Parity::NoParity,
        stop_bits: StopBits::One,
        flow_control: FlowControl::NoFlow,
    }
}

impl Default for SerialConfig {
    fn default() -> (r: Self)
        ensures
            r == default_config(),
    {
        SerialConfig {
            port_info: None,
            baud: 115200,
            data_bits: DataBits::Eight,
            parity: Parity::NoParity,
            stop_bits: StopBits::One,
            flow_control: FlowControl::NoFlow,
        }
    }
}

/// Two optional texts are the same when both are absent or both hold the
/// same characters.
pub open spec fn same_text(a: Option<String>, b: Option<String>) -> bool {
    match (a, b) {
        (Some(x), Some(y)) => x@ == y@,
        (None, None) => true,
        _ => false,
    }
}

/// Two port kinds are the same when they are the same kind and, for USB,
/// every detail of the device is the same.
pub open spec fn same_port_type(a: PortType, b: PortType) -> bool {
    match (a, b) {
        (PortType::Usb(x), PortType::Usb(y)) => {
            &&& x.vid == y.vid
            &&& x.pid == y.pid
            &&& same_text(x.serial_number, y.serial_number)
            &&& same_text(x.manufacturer, y.manufacturer)
            &&& same_text(x.product, y.product)
        },
        (PortType::Pci, PortType::Pci) => true,
        (PortType::Bluetooth, PortType::Bluetooth) => true,
        (PortType::Unknown, PortType::Unknown) => true,
        _ => false,
    }
}

/// Two configurations are the same when every setting is, the port compared
/// by name, kind and device details.
pub open spec fn same_port(a: Option<PortInfo>, b: Option<PortInfo>) -> bool {
    match (a, b) {
        (Some(x), Some(y)) => x.port_name@ == y.port_name@ && same_port_type(x.port_type, y.port_type),
        (None, None) => true,
        _ => false,
    }
}

fn texts_equal(a: &Option<String>, b: &Option<String>) -> (r: bool)
    ensures
        r == same_text(*a, *b),
{
    match (a, b) {
        (Some(x), Some(y)) => *x == *y,
        (None, None) => true,
        _ => false,
    }
}

fn port_types_equal(a: &PortType, b: &PortType) -> (r: bool)
    ensures
        r == same_port_type(*a, *b),
{
    match (a, b) {
        (PortType::Usb(x), PortType::Usb(y)) => x.vid == y.vid && x.pid == y.pid && texts_equal(
            &x.serial_number,
            &y.serial_number,
        ) && texts_equal(&x.manufacturer, &y.manufacturer) && texts_equal(&x.product, &y.product),
        (PortType::Pci, PortType::Pci) => true,
        (PortType::Bluetooth, PortType::Bluetooth) => true,
        (PortType::Unknown, PortType::Unknown) => true,
        _ => false,
    }
}

pub open spec fn same_config(a: SerialConfig, b: SerialConfig) -> bool {
    &&& same_port(a.port_info, b.port_info)
    &&& a.baud == b.baud
    &&& a.data_bits == b.data_bits
    &&& a.parity == b.parity
    &&& a.stop_bits == b.stop_bits
    &&& a.flow_control == b.flow_control
}

impl SerialConfig {
    /// Compares two configurations setting by setting.
    pub fn same_as(&self, other: &SerialConfig) -> (b: bool)
        ensures
            b == same_config(*self, *other),
    {
        let ports = match (&self.port_info, &other.port_info) {
            (Some(x), Some(y)) => x.port_name == y.port_name && port_types_equal(&x.port_type, &y.port_type),
            (None, None) => true,
            _ => false,
        };
        ports && self.baud == other.baud && self.data_bits == other.data_bits && self.parity
            == other.parity && self.stop_bits == other.stop_bits && self.flow_control
            == other.flow_control
    }
}

/// A message from the worker that owns the port.
#[derive(Debug)]
pub enum SerialEvent {
    /// Bytes read from the port.
    Data(Vec<u8>),
    /// A read or write failed.
    Error(String),
    /// The worker stopped.
    Disconnected,
}

/// A request to the worker that owns the port.
#[derive(Debug)]
pub enum SerialCommand {
    /// Write these bytes.
    Send(Vec<u8>),
    /// Stop.
    Disconnect,
}

/// The port to open for a configuration: its name, or the message shown
/// when no port is selected.
pub fn port_to_open(config: &SerialConfig) -> (r: Result<String, String>)
    ensures
        match config.port_info {
            Some(p) => r == Ok::<String, String>(p.port_name),
            None => r is Err && r->Err_0@ == "No port selected"@,
        },
{
    match &config.port_info {
        Some(p) => Ok(p.port_name.clone()),
        None => Err(String::from_str("No port selected")),
    }
}

/// What the worker found on its command channel.
#[derive(Debug)]
pub enum CommandPoll {
    Received(SerialCommand),
    /// Nothing waiting.
    Empty,
    /// The session has gone.
    Closed,
}

/// What the worker does next.
#[derive(Debug)]
pub enum WorkerStep {
    /// Write these bytes, then read.
    Write(Vec<u8>),
    /// Read.
    Read,
    /// Stop, after telling the session it stopped when `notify` holds.
    Stop { notify: bool },
}

/// A command is carried out: bytes are written, a disconnect request stops
/// the worker with a word to the session, a vanished session stops it
/// silently, and with nothing to do it reads.
pub fn worker_on_command(poll: CommandPoll) -> (r: WorkerStep)
    ensures
        match poll {
            CommandPoll::Received(SerialCommand::Send(data)) => r == WorkerStep::Write(data),
            CommandPoll::Received(SerialCommand::Disconnect) => r == WorkerStep::Stop { notify: true },
            CommandPoll::Empty => r == WorkerStep::Read,
            CommandPoll::Closed => r == WorkerStep::Stop { notify: false },
        },
{
    match poll {
        CommandPoll::Received(SerialCommand::Send(data)) => WorkerStep::Write(data),
        CommandPoll::Received(SerialCommand::Disconnect) => WorkerStep::Stop { notify: true },
        CommandPoll::Empty => WorkerStep::Read,
        CommandPoll::Closed => WorkerStep::Stop { notify: false },
    }
}

/// A failed write is reported to the session as an error.
pub fn worker_on_write(result: Result<(), String>) -> (r: Option<SerialEvent>)
    ensures
        match result {
            Ok(()) => r is None,
            Err(msg) => r == Some(SerialEvent::Error(msg)),
        },
{
    match result {
        Ok(()) => None,
        Err(msg) => Some(SerialEvent::Error(msg)),
    }
}

/// The kinds of read failure the worker tells apart.
#[derive(Debug, Clone, Copy, PartialEq, Eq, Structural)]
pub enum ReadErrorKind {
    TimedOut,
    BrokenPipe,
    PermissionDenied,
    Other,
}

/// What a read from the port gave.
#[derive(Debug)]
pub enum ReadOutcome {
    Bytes(Vec<u8>),
    Failed(ReadErrorKind, String),
}

/// What the worker does about a read.
#[derive(Debug)]
pub struct ReadReaction {
    /// Messages for the session, in order.
    pub events: Vec<SerialEvent>,
    /// Stop after sending them.
    pub stop: bool,
    /// Stop if the session cannot take them: it has gone.
    pub stop_if_undelivered: bool,
}

/// A read is reported: bytes as data, a timeout not at all, a broken pipe or
/// a refused permission as an error that ends the worker, any other failure
/// as an error.
pub fn worker_on_read(outcome: ReadOutcome) -> (r: ReadReaction)
    ensures
        match outcome {
            ReadOutcome::Bytes(data) => if data@.len() == 0 {
                r.events@.len() == 0 && !r.stop && !r.stop_if_undelivered
            } else {
                r.events@.len() == 1 && r.events@[0] == SerialEvent::Data(data) && !r.stop
                    && r.stop_if_undelivered
            },
            ReadOutcome::Failed(kind, msg) => if kind == ReadErrorKind::TimedOut {
                r.events@.len() == 0 && !r.stop && !r.stop_if_undelivered
            } else if kind == ReadErrorKind::BrokenPipe || kind == ReadErrorKind::PermissionDenied {
                r.events@.len() == 2 && r.events@[0] == SerialEvent::Error(msg) && r.events@[1]
                    is Disconnected && r.stop && !r.stop_if_undelivered
            } else {
                r.events@.len() == 1 && r.events@[0] == SerialEvent::Error(msg) && !r.stop
                    && !r.stop_if_undelivered
            },
        },
{
    let mut events: Vec<SerialEvent> = Vec::new();
    match outcome {
        ReadOutcome::Bytes(data) => {
            if data.len() == 0 {
                ReadReaction { events, stop: false, stop_if_undelivered: false }
            } else {
                events.push(SerialEvent::Data(data));
                ReadReaction { events, stop: false, stop_if_undelivered: true }
            }
        },
        ReadOutcome::Failed(kind, msg) => {
            if kind == ReadErrorKind::TimedOut {
                ReadReaction { events, stop: false, stop_if_undelivered: false }
            } else if kind == ReadErrorKind::BrokenPipe || kind == ReadErrorKind::PermissionDenied {
                events.push(SerialEvent::Error(msg));
                events.push(SerialEvent::Disconnected);
                ReadReaction { events, stop: true, stop_if_undelivered: false }
            } else {
                events.push(SerialEvent::Error(msg));
                ReadReaction { events, stop: false, stop_if_undelivered: false }
            }
        },
    }
}

/// Position reached from `current` by one step forward or backward in a ring
/// of `len` options.
pub open spec fn ring_step(current: int, len: int, forward: bool) -> int {
    if forward {
        (current + 1) % len
    } else {
        (current + len - 1) % len
    }
}

/// One step around a ring of `len` options.
pub fn next_position(current: usize, len: usize, forward: bool) -> (r: usize)
    requires
        current < len,
        len < 0x1_0000,
    ensures
        r == ring_step(current as int, len as int, forward),
        r < len,
{
    if forward {
        (current + 1) % len
    } else {
        (current + len - 1) % len
    }
}

impl DataBits {
    pub open spec fn ordinal(self) -> int {
        match self {
            DataBits::Five => 0,
            DataBits::Six => 1,
            DataBits::Seven => 2,
            DataBits::Eight => 3,
        }
    }

    pub open spec fn at(i: int) -> DataBits {
        if i == 0 {
            DataBits::Five
        } else if i == 1 {
            DataBits::Six
        } else if i == 2 {
            DataBits::Seven
        } else {
            DataBits::Eight
        }
    }

    /// The next or previous setting in the order 5, 6, 7, 8, wrapping around.
    pub open spec fn cycled(self, forward: bool) -> DataBits {
        DataBits::at(ring_step(self.ordinal(), 4, forward))
    }

    pub fn cycle(self, forward: bool) -> (r: DataBits)
        ensures
            r == self.cycled(forward),
    {
        let current: usize = match self {
            DataBits::Five => 0,
            DataBits::Six => 1,
            DataBits::Seven => 2,
            DataBits::Eight => 3,
        };
        let next = next_position(current, 4, forward);
        if next == 0 {
            DataBits::Five
        } else if next == 1 {
            DataBits::Six
        } else if next == 2 {
            DataBits::Seven
        } else {
            DataBits::Eight
        }
    }
}

impl Parity {
    pub open spec fn ordinal(self) -> int {
        match self {
            Parity::NoParity => 0,
            Parity::Odd => 1,
            Parity::Even => 2,
        }
    }

    pub open spec fn at(i: int) -> Parity {
        if i == 0 {
            Parity::NoParity
        } else if i == 1 {
            Parity::Odd
        } else {
            Parity::Even
        }
    }

    /// The next or previous setting in the order None, Odd, Even, wrapping
    /// around.
    pub open spec fn cycled(self, forward: bool) -> Parity {
        Parity::at(ring_step(self.ordinal(), 3, forward))
    }

    pub fn cycle(self, forward: bool) -> (r: Parity)
        ensures
            r == self.cycled(forward),
    {
        let current: usize = match self {
            Parity::NoParity => 0,
            Parity::Odd => 1,
            Parity::Even => 2,
        };
        let next = next_position(current, 3, forward);
        if next == 0 {
            Parity::NoParity
        } else if next == 1 {
            Parity::Odd
        } else {
            Parity::Even
        }
    }
}

impl StopBits {
    pub open spec fn ordinal(self) -> int {
        match self {
            StopBits::One => 0,
            StopBits::Two => 1,
        }
    }

    pub open spec fn at(i: int) -> StopBits {
        if i == 0 {
            StopBits::One
        } else {
            StopBits::Two
        }
    }

    /// The other setting: there are two.
    pub open spec fn cycled(self, forward: bool) -> StopBits {
        StopBits::at(ring_step(self.ordinal(), 2, forward))
    }

    pub fn cycle(self, forward: bool) -> (r: StopBits)
        ensures
            r == self.cycled(forward),
    {
        let current: usize = match self {
            StopBits::One => 0,
            StopBits::Two => 1,
        };
        let next = next_position(current, 2, forward);
        if next == 0 {
            StopBits::One
        } else {
            StopBits::Two
        }
    }
}

impl FlowControl {
    pub open spec fn ordinal(self) -> int {
        match self {
            FlowControl::NoFlow => 0,
            FlowControl::Hardware => 1,
            FlowControl::Software => 2,
        }
    }

    pub open spec fn at(i: int) -> FlowControl {
        if i == 0 {
            FlowControl::NoFlow
        } else if i == 1 {
            FlowControl::Hardware
        } else {
            FlowControl::Software
        }
    }

    /// The next or previous setting in the order None, Hardware, Software,
    /// wrapping around.
    pub open spec fn cycled(self, forward: bool) -> FlowControl {
        FlowControl::at(ring_step(self.ordinal(), 3, forward))
    }

    pub fn cycle(self, forward: bool) -> (r: FlowControl)
        ensures
            r == self.cycled(forward),
    {
        let current: usize = match self {
            FlowControl::NoFlow => 0,
            FlowControl::Hardware => 1,
            FlowControl::Software => 2,
        };
        let next = next_position(current, 3, forward);
        if next == 0 {
            FlowControl::NoFlow
        } else if next == 1 {
            FlowControl::Hardware
        } else {
            FlowControl::Software
        }
    }
}

} // verus!
