//! The session state, its abstract model, and the small types around it.
use vstd::prelude::*;

use crate::cli::Args;
use crate::serial::{default_config, PortInfo, SerialConfig};
use ratatui::widgets::{Paragraph, Wrap};
use std::time::{Duration, Instant};

verus! {

/// The output keeps at most this many complete lines.
pub const MAX_OUTPUT_LINES: usize = 5000;

/// Entries of the options menu, headers included.
pub const MENU_LEN: usize = 14;

/// Lines scrolled by one turn of the mouse wheel.
pub const WHEEL_STEP: u16 = 3;

/// Two clicks on one cell closer than this many milliseconds chain.
pub const DOUBLE_CLICK_MS: u128 = 500;

/// How often, in milliseconds, the list of serial ports is read again.
pub const PORT_SCAN_INTERVAL_MS: u128 = 2000;

/// Whether the ports are due to be scanned again, `elapsed_ms` after the
/// last scan.
pub fn port_scan_due(elapsed_ms: u128) -> (b: bool)
    ensures
        b == (elapsed_ms >= PORT_SCAN_INTERVAL_MS),
{
    elapsed_ms >= PORT_SCAN_INTERVAL_MS
}

/// The baud rates the menu cycles through.
pub open spec fn baud_rates() -> Seq<u32> {
    seq![300, 1200, 2400, 4800, 9600, 19200, 38400, 57600, 115200, 230400, 460800, 921600]
}

/// The `i`-th baud rate of the menu.
pub fn baud_rate_at(i: usize) -> (b: u32)
    requires
        i < 12,
    ensures
        b == baud_rates()[i as int],
{
    let rates: [u32; 12] = [
        300,
        1200,
        2400,
        4800,
        9600,
        19200,
        38400,
        57600,
        115200,
        230400,
        460800,
        921600,
    ];
    rates[i]
}

/// A rectangle of terminal cells.
#[derive(Debug, Clone, Copy, PartialEq, Eq, Structural)]
pub struct Area {
    pub x: u16,
    pub y: u16,
    pub width: u16,
    pub height: u16,
}

impl Area {
    /// The right and bottom edges stay within `u16`, as every rectangle a
    /// layout hands out does.
    pub open spec fn wf(self) -> bool {
        self.x + self.width <= u16::MAX && self.y + self.height <= u16::MAX
    }

    /// A rectangle whose width and height are cut so that its edges stay
    /// within `u16`.
    pub fn new(x: u16, y: u16, width: u16, height: u16) -> (r: Area)
        ensures
            r.wf(),
            r.x == x,
            r.y == y,
            r.width == (if x + width <= u16::MAX { width as int } else { u16::MAX - x }),
            r.height == (if y + height <= u16::MAX { height as int } else { u16::MAX - y }),
    {
        let w = x.saturating_add(width) - x;
        let h = y.saturating_add(height) - y;
        Area { x, y, width: w, height: h }
    }
}

/// What one line of output looks like in the model: its text, with escape
/// sequences removed, and the number of screen rows it takes.
pub struct LineView {
    pub text: Seq<char>,
    pub height: u16,
}

/// A complete line of output with its height at the current width.
#[derive(Debug)]
pub struct CachedLine {
    pub text: String,
    pub height: u16,
}

impl View for CachedLine {
    type V = LineView;

    open spec fn view(&self) -> LineView {
        LineView { text: self.text@, height: self.height }
    }
}

impl Clone for CachedLine {
    fn clone(&self) -> (r: Self)
        ensures
            r == *self,
    {
        CachedLine { text: self.text.clone(), height: self.height }
    }
}

/// How a selection grows from the cell it started on.
#[derive(Debug, Clone, Copy, PartialEq, Eq, Structural)]
pub enum SelectionMode {
    Char,
    Word,
    Line,
}

/// A selection in content coordinates `(column, visual line)`.
#[derive(Debug, Clone, Copy)]
pub struct Selection {
    pub anchor: (u16, u16),
    pub cursor: (u16, u16),
    pub mode: SelectionMode,
}

/// Which screen the session shows.
#[derive(Debug, Clone, Copy, PartialEq, Eq, Structural)]
pub enum AppState {
    Capturing,
    Options,
    PortList,
}

/// Whether a port is open.
#[derive(Debug, Clone, Copy, PartialEq, Eq, Structural)]
pub enum ConnectionStatus {
    Connected,
    Disconnected,
}

/// How typed input is read.
#[derive(Debug, Clone, Copy, PartialEq, Eq, Structural)]
pub enum InputMode {
    Ascii,
    Hex,
}

impl InputMode {
    /// The name the menu shows.
    pub open spec fn name(self) -> Seq<char> {
        match self {
            InputMode::Ascii => "ASCII"@,
            InputMode::Hex => "HEX"@,
        }
    }

    pub fn label(&self) -> (r: &str)
        ensures
            r@ == self.name(),
    {
        match self {
            InputMode::Ascii => "ASCII",
            InputMode::Hex => "HEX",
        }
    }
}

/// What is sent after each line typed in ASCII mode.
#[derive(Debug, Clone, Copy, PartialEq, Eq, Structural)]
pub enum LineEnding {
    CrLf,
    Cr,
    Lf,
    NoEnding,
}

impl LineEnding {
    /// The name the menu shows.
    pub open spec fn name(self) -> Seq<char> {
        match self {
            LineEnding::CrLf => "CR+LF"@,
            LineEnding::Cr => "CR"@,
            LineEnding::Lf => "LF"@,
            LineEnding::NoEnding => "None"@,
        }
    }

    pub fn label(&self) -> (r: &str)
        ensures
            r@ == self.name(),
    {
        match self {
            LineEnding::CrLf => "CR+LF",
            LineEnding::Cr => "CR",
            LineEnding::Lf => "LF",
            LineEnding::NoEnding => "None",
        }
    }

    pub open spec fn spec_bytes(self) -> Seq<u8> {
        match self {
            LineEnding::CrLf => seq![13u8, 10u8],
            LineEnding::Cr => seq![13u8],
            LineEnding::Lf => seq![10u8],
            LineEnding::NoEnding => seq![],
        }
    }

    /// The bytes sent after a line.
    pub fn bytes(&self) -> (r: &[u8])
        ensures
            r@ == self.spec_bytes(),
    {
        match self {
            LineEnding::CrLf => &[13u8, 10u8],
            LineEnding::Cr => &[13u8],
            LineEnding::Lf => &[10u8],
            LineEnding::NoEnding => &[],
        }
    }

    pub open spec fn ordinal(self) -> int {
        match self {
            LineEnding::CrLf => 0,
            LineEnding::Cr => 1,
            LineEnding::Lf => 2,
            LineEnding::NoEnding => 3,
        }
    }

    pub open spec fn at(i: int) -> LineEnding {
        if i == 0 {
            LineEnding::CrLf
        } else if i == 1 {
            LineEnding::Cr
        } else if i == 2 {
            LineEnding::Lf
        } else {
            LineEnding::NoEnding
        }
    }

    /// The next or previous ending in the order CR+LF, CR, LF, None, wrapping
    /// around.
    pub open spec fn cycled(self, forward: bool) -> LineEnding {
        LineEnding::at(crate::serial::ring_step(self.ordinal(), 4, forward))
    }

    pub fn cycle(self, forward: bool) -> (r: LineEnding)
        ensures
            r == self.cycled(forward),
    {
        let current: usize = match self {
            LineEnding::CrLf => 0,
            LineEnding::Cr => 1,
            LineEnding::Lf => 2,
            LineEnding::NoEnding => 3,
        };
        let next = crate::serial::next_position(current, 4, forward);
        if next == 0 {
            LineEnding::CrLf
        } else if next == 1 {
            LineEnding::Cr
        } else if next == 2 {
            LineEnding::Lf
        } else {
            LineEnding::NoEnding
        }
    }
}

/// What a menu entry does.
#[derive(Debug, Clone, Copy, PartialEq, Eq, Structural)]
pub enum MenuAction {
    SelectPort,
    Disconnect,
    CycleBaudRate,
    CycleDataBits,
    CycleParity,
    CycleStopBits,
    CycleFlowControl,
    CycleLocalEcho,
    CycleLineEnding,
    CycleInputMode,
    Exit,
}

/// One line of the options menu.
#[derive(Debug)]
pub enum MenuItem {
    SectionHeader(String),
    Action { label: String, action: MenuAction },
    Cycle { label: String, action: MenuAction, value: String },
}

/// A menu line in the model.
pub enum MenuItemView {
    SectionHeader(Seq<char>),
    Action { label: Seq<char>, action: MenuAction },
    Cycle { label: Seq<char>, action: MenuAction, value: Seq<char> },
}

impl View for MenuItem {
    type V = MenuItemView;

    open spec fn view(&self) -> MenuItemView {
        match self {
            MenuItem::SectionHeader(t) => MenuItemView::SectionHeader(t@),
            MenuItem::Action { label, action } => MenuItemView::Action {
                label: label@,
                action: *action,
            },
            MenuItem::Cycle { label, action, value } => MenuItemView::Cycle {
                label: label@,
                action: *action,
                value: value@,
            },
        }
    }
}

impl MenuItem {
    pub open spec fn selectable(self) -> bool {
        !(self is SectionHeader)
    }

    /// Headers cannot be selected; actions and settings can.
    pub fn is_selectable(&self) -> (b: bool)
        ensures
            b == self.selectable(),
    {
        match self {
            MenuItem::SectionHeader(_) => false,
            _ => true,
        }
    }
}


/// Rows that `text` takes in a paragraph of `width` columns that wraps
/// without trimming, as ratatui's layout counts them.
pub uninterp spec fn wrapped_line_count(text: Seq<char>, width: u16) -> usize;

/// ratatui's `Paragraph::line_count` on a paragraph made of `text` with
/// `Wrap { trim: false }` and no block. Its value is named, not stated: it
/// comes from ratatui's word wrapper.
#[verifier::external_body]
fn paragraph_line_count(text: &str, width: u16) -> (n: usize)
    ensures
        n == wrapped_line_count(text@, width),
{
    Paragraph::new(text).wrap(Wrap { trim: false }).line_count(width)
}

/// The rows a line of output takes: one at width 0, else the wrapped row
/// count kept between 1 and `u16::MAX`.
pub open spec fn line_height(text: Seq<char>, width: u16) -> u16 {
    if width == 0 {
        1
    } else {
        let n = wrapped_line_count(text, width);
        if n < 1 {
            1
        } else if n > u16::MAX {
            u16::MAX
        } else {
            n as u16
        }
    }
}

/// The number of screen rows `text` takes at `width` columns.
pub fn compute_line_height(text: &str, width: u16) -> (h: u16)
    ensures
        h == line_height(text@, width),
{
    if width == 0 {
        return 1;
    }
    let n = paragraph_line_count(text, width);
    if n < 1 {
        1
    } else if n > 65535 {
        65535
    } else {
        n as u16
    }
}

#[verifier::external_type_specification]
#[verifier::external_body]
pub struct ExInstant(Instant);

/// `Instant::now`: the present moment, of which nothing is stated.
#[verifier::external_body]
fn instant_now() -> Instant {
    Instant::now()
}

/// `Instant::duration_since`: the time from `earlier` to `now`, of which
/// nothing is stated; the clock decides it.
#[verifier::external_body]
fn duration_between(now: &Instant, earlier: &Instant) -> Duration {
    now.duration_since(*earlier)
}

/// `Duration::as_millis`: whole milliseconds of a duration, which is opaque
/// here, so nothing is stated of the count.
#[verifier::external_body]
fn whole_millis(d: &Duration) -> u128 {
    d.as_millis()
}

/// Counts consecutive clicks on one cell: 1, 2, 3, then 1 again.
#[derive(Debug)]
pub struct ClickTracker {
    pub last_time: Option<Instant>,
    pub last_pos: (u16, u16),
    pub count: u8,
}

impl ClickTracker {
    /// A click at `pos`, `elapsed` milliseconds after the previous one (none
    /// when there was none), chains onto it.
    pub open spec fn chains(self, pos: (u16, u16), elapsed: Option<u128>) -> bool {
        &&& elapsed is Some
        &&& elapsed.unwrap() < DOUBLE_CLICK_MS
        &&& pos == self.last_pos
    }

    /// The count after such a click.
    pub open spec fn next_count(self, pos: (u16, u16), elapsed: Option<u128>) -> u8 {
        if self.chains(pos, elapsed) {
            (self.count % 3 + 1) as u8
        } else {
            1
        }
    }

    pub fn new() -> (r: Self)
        ensures
            r.last_time is None,
            r.last_pos == (0u16, 0u16),
            r.count == 0,
    {
        ClickTracker { last_time: None, last_pos: (0, 0), count: 0 }
    }

    /// Registers a click at `pos` made at `now`, `elapsed_ms` milliseconds
    /// after the previous click, and returns the new count.
    pub fn register(&mut self, pos: (u16, u16), now: Instant, elapsed_ms: Option<u128>) -> (r: u8)
        ensures
            r == old(self).next_count(pos, elapsed_ms),
            *final(self) == (ClickTracker { last_time: Some(now), last_pos: pos, count: r }),
    {
        let recent = match elapsed_ms {
            Some(ms) => ms < DOUBLE_CLICK_MS && pos.0 == self.last_pos.0 && pos.1
                == self.last_pos.1,
            None => false,
        };
        self.count = if recent {
            (self.count % 3) + 1
        } else {
            1
        };
        self.last_time = Some(now);
        self.last_pos = pos;
        self.count
    }

    /// Records a click at `pos` now and returns how many clicks it chains:
    /// 1 for a lone click, 2 for a double, 3 for a triple, then 1 again. The
    /// clock decides whether it chains; a chained click was on the same cell
    /// as the previous one.
    pub fn record(&mut self, pos: (u16, u16)) -> (r: u8)
        ensures
            final(self).last_time is Some,
            final(self).last_pos == pos,
            final(self).count == r,
            r == 1 || (old(self).last_time is Some && pos == old(self).last_pos && r == old(
                self,
            ).count % 3 + 1),
    {
        let now = instant_now();
        let elapsed = match &self.last_time {
            Some(t) => Some(whole_millis(&duration_between(&now, t))),
            None => None,
        };
        self.register(pos, now, elapsed)
    }
}


/// The state of a session. Text is held as characters.
#[derive(Debug)]
pub struct App {
    pub args: Args,
    pub exit: bool,
    pub serial_config: SerialConfig,
    pub app_state: AppState,
    pub input_buffer: Vec<char>,
    pub output_lines: Vec<CachedLine>,
    /// Output received after the last line break.
    pub output_pending: Vec<char>,
    /// The width the line heights were computed for; 0 before the first draw.
    pub cached_width: u16,
    pub dirty: bool,
    pub available_ports: Vec<PortInfo>,
    pub port_error: Option<String>,
    pub port_list_index: usize,
    pub connection_status: ConnectionStatus,
    pub local_echo: bool,
    pub input_mode: InputMode,
    pub line_ending: LineEnding,
    pub menu_cursor: usize,
    pub auto_scroll: bool,
    pub scroll_top: u16,
    pub last_output_height: u16,
    pub last_total_visual_lines: u16,
    pub last_scroll: u16,
    pub last_output_area: Area,
    pub selection: Option<Selection>,
    pub click_tracker: ClickTracker,
    pub is_dragging: bool,
    pub copy_pending: bool,
    /// Whether the session holds an open port.
    pub handle_open: bool,
    /// The configuration when the menu was opened.
    pub config_snapshot: Option<SerialConfig>,
}

/// The model of a session: the state with its sequences seen as `Seq`s.
pub struct AppView {
    pub args: Args,
    pub exit: bool,
    pub serial_config: SerialConfig,
    pub app_state: AppState,
    pub input_buffer: Seq<char>,
    pub output_lines: Seq<LineView>,
    pub output_pending: Seq<char>,
    pub cached_width: u16,
    pub dirty: bool,
    pub available_ports: Seq<PortInfo>,
    pub port_error: Option<String>,
    pub port_list_index: usize,
    pub connection_status: ConnectionStatus,
    pub local_echo: bool,
    pub input_mode: InputMode,
    pub line_ending: LineEnding,
    pub menu_cursor: usize,
    pub auto_scroll: bool,
    pub scroll_top: u16,
    pub last_output_height: u16,
    pub last_total_visual_lines: u16,
    pub last_scroll: u16,
    pub last_output_area: Area,
    pub selection: Option<Selection>,
    pub click_tracker: ClickTracker,
    pub is_dragging: bool,
    pub copy_pending: bool,
    pub handle_open: bool,
    pub config_snapshot: Option<SerialConfig>,
}

pub open spec fn line_views(lines: Seq<CachedLine>) -> Seq<LineView> {
    lines.map_values(|l: CachedLine| l@)
}

impl View for App {
    type V = AppView;

    open spec fn view(&self) -> AppView {
        AppView {
            args: self.args,
            exit: self.exit,
            serial_config: self.serial_config,
            app_state: self.app_state,
            input_buffer: self.input_buffer@,
            output_lines: line_views(self.output_lines@),
            output_pending: self.output_pending@,
            cached_width: self.cached_width,
            dirty: self.dirty,
            available_ports: self.available_ports@,
            port_error: self.port_error,
            port_list_index: self.port_list_index,
            connection_status: self.connection_status,
            local_echo: self.local_echo,
            input_mode: self.input_mode,
            line_ending: self.line_ending,
            menu_cursor: self.menu_cursor,
            auto_scroll: self.auto_scroll,
            scroll_top: self.scroll_top,
            last_output_height: self.last_output_height,
            last_total_visual_lines: self.last_total_visual_lines,
            last_scroll: self.last_scroll,
            last_output_area: self.last_output_area,
            selection: self.selection,
            click_tracker: self.click_tracker,
            is_dragging: self.is_dragging,
            copy_pending: self.copy_pending,
            handle_open: self.handle_open,
            config_snapshot: self.config_snapshot,
        }
    }
}

impl App {
    /// The session's invariant: the output area's edges stay within `u16`,
    /// and the menu cursor is on an entry of the menu.
    pub open spec fn wf(&self) -> bool {
        self@.wf()
    }
}

impl AppView {
    pub open spec fn wf(self) -> bool {
        self.last_output_area.wf() && self.menu_cursor < MENU_LEN
    }
}

/// A fresh session: capturing, nothing received, ASCII input with CR+LF
/// endings and local echo, following the output, cursor on the first menu
/// entry, no port open.
pub open spec fn initial_view(args: Args, tracker: ClickTracker) -> AppView {
    AppView {
        args,
        exit: false,
        serial_config: default_config(),
        app_state: AppState::Capturing,
        input_buffer: seq![],
        output_lines: seq![],
        output_pending: seq![],
        cached_width: 0,
        dirty: true,
        available_ports: seq![],
        port_error: None,
        port_list_index: 0,
        connection_status: ConnectionStatus::Disconnected,
        local_echo: true,
        input_mode: InputMode::Ascii,
        line_ending: LineEnding::CrLf,
        menu_cursor: 1,
        auto_scroll: true,
        scroll_top: 0,
        last_output_height: 0,
        last_total_visual_lines: 0,
        last_scroll: 0,
        last_output_area: Area { x: 0, y: 0, width: 0, height: 0 },
        selection: None,
        click_tracker: tracker,
        is_dragging: false,
        copy_pending: false,
        handle_open: false,
        config_snapshot: None,
    }
}

impl App {
    pub fn new(args: Args) -> (r: Self)
        ensures
            r@ == initial_view(args, r.click_tracker),
            r.click_tracker.last_time is None,
            r.click_tracker.last_pos == (0u16, 0u16),
            r.click_tracker.count == 0,
            r.wf(),
    {
        let r = App {
            args,
            exit: false,
            serial_config: SerialConfig::default(),
            app_state: AppState::Capturing,
            input_buffer: Vec::new(),
            output_lines: Vec::new(),
            output_pending: Vec::new(),
            cached_width: 0,
            dirty: true,
            available_ports: Vec::new(),
            port_error: None,
            port_list_index: 0,
            connection_status: ConnectionStatus::Disconnected,
            local_echo: true,
            input_mode: InputMode::Ascii,
            line_ending: LineEnding::CrLf,
            menu_cursor: 1,
            auto_scroll: true,
            scroll_top: 0,
            last_output_height: 0,
            last_total_visual_lines: 0,
            last_scroll: 0,
            last_output_area: Area { x: 0, y: 0, width: 0, height: 0 },
            selection: None,
            click_tracker: ClickTracker::new(),
            is_dragging: false,
            copy_pending: false,
            handle_open: false,
            config_snapshot: None,
        };
        assert(line_views(r.output_lines@) =~= seq![]);
        r
    }
}

} // verus!
