//! What the keyboard and the mouse do to a session.
use vstd::prelude::*;
use vstd::utf8::encode_utf8;

use crate::app::{
    App, AppState, AppView, ClickTracker, ConnectionStatus, InputMode, Selection, SelectionMode,
    MENU_LEN, WHEEL_STEP,
};
use crate::menu::{entry_above, entry_below, menu_selectable};
use crate::serial::{same_config, SerialConfig};
use crate::session::{action_of, Action, Effect};
use crate::text::{ascii_upper, hex_byte, hex_value, is_hex_digit, str_chars};

verus! {

/// A key, as far as the session tells keys apart.
#[derive(Debug, Clone, Copy, PartialEq, Eq, Structural)]
pub enum KeyCode {
    Char(char),
    Backspace,
    Enter,
    Esc,
    Up,
    Down,
    Left,
    Right,
    Home,
    End,
    PageUp,
    PageDown,
    Other,
}

/// A key with whether Control was held.
#[derive(Debug, Clone, Copy)]
pub struct KeyEvent {
    pub code: KeyCode,
    pub ctrl: bool,
}

#[derive(Debug, Clone, Copy, PartialEq, Eq, Structural)]
pub enum MouseButton {
    Left,
    Right,
    Middle,
}

#[derive(Debug, Clone, Copy, PartialEq, Eq, Structural)]
pub enum MouseEventKind {
    Down(MouseButton),
    Up(MouseButton),
    Drag(MouseButton),
    Moved,
    ScrollDown,
    ScrollUp,
    ScrollLeft,
    ScrollRight,
}

/// A mouse event at a screen cell.
#[derive(Debug, Clone, Copy)]
pub struct MouseEvent {
    pub kind: MouseEventKind,
    pub column: u16,
    pub row: u16,
}

/// An event from the terminal.
#[derive(Debug, Clone, Copy)]
pub enum TermEvent {
    /// A key, pressed or released.
    Key { event: KeyEvent, press: bool },
    Mouse(MouseEvent),
    Resize,
    Other,
}

/// The hexadecimal digits of `s`, in order.
pub open spec fn hex_digits(s: Seq<char>) -> Seq<char>
    decreases s.len(),
{
    if s.len() == 0 {
        seq![]
    } else if is_hex_digit(s.last()) {
        hex_digits(s.drop_last()).push(s.last())
    } else {
        hex_digits(s.drop_last())
    }
}

/// The bytes that pairs of hexadecimal digits spell, high digit first.
pub open spec fn hex_pairs(h: Seq<char>) -> Seq<u8>
    decreases h.len(),
{
    if h.len() < 2 {
        seq![]
    } else {
        seq![(hex_value(h[0]) * 16 + hex_value(h[1])) as u8] + hex_pairs(h.skip(2))
    }
}

/// Bytes written as upper-case hexadecimal pairs separated by spaces.
pub open spec fn hex_listing(bytes: Seq<u8>) -> Seq<char>
    decreases bytes.len(),
{
    if bytes.len() == 0 {
        seq![]
    } else if bytes.len() == 1 {
        hex_byte(bytes[0])
    } else {
        hex_byte(bytes[0]) + seq![' '] + hex_listing(bytes.skip(1))
    }
}

/// A page: one row less than the output shows, at least one.
pub open spec fn page_rows(v: AppView) -> u16 {
    let p = v.last_output_height.saturating_sub(1);
    if p < 1 {
        1
    } else {
        p
    }
}

impl AppView {
    /// Scrolled up `lines` rows; following the output stops, starting from
    /// its bottom.
    pub open spec fn scrolled_up(self, lines: u16) -> AppView {
        let max_offset = self.last_total_visual_lines.saturating_sub(self.last_output_height);
        if self.auto_scroll {
            AppView { scroll_top: max_offset.saturating_sub(lines), auto_scroll: false, ..self }
        } else {
            AppView { scroll_top: self.scroll_top.saturating_sub(lines), ..self }
        }
    }

    /// Scrolled down `lines` rows; reaching the bottom follows the output
    /// again.
    pub open spec fn scrolled_down(self, lines: u16) -> AppView {
        if self.auto_scroll {
            self
        } else {
            let max_offset = self.last_total_visual_lines.saturating_sub(self.last_output_height);
            let top = self.scroll_top.saturating_add(lines);
            AppView { scroll_top: top, auto_scroll: top >= max_offset, ..self }
        }
    }

    /// The menu opens on its first entry, remembering the configuration.
    pub open spec fn menu_opened(self) -> AppView {
        AppView {
            config_snapshot: Some(self.serial_config),
            menu_cursor: 1,
            app_state: AppState::Options,
            ..self
        }
    }

    /// The menu closes; a connected session whose configuration changed
    /// while it was open reopens the port.
    #[verifier::opaque]
    pub open spec fn menu_closed(self) -> (AppView, Option<Action>) {
        let reconnect = self.connection_status == ConnectionStatus::Connected
            && self.config_snapshot is Some && !same_config(
            self.serial_config,
            self.config_snapshot.unwrap(),
        );
        let c = if reconnect {
            self.connecting()
        } else {
            (self, None)
        };
        (AppView { config_snapshot: None, app_state: AppState::Capturing, ..c.0 }, c.1)
    }

    /// Enter on the input line: what was typed is sent, if a port is open,
    /// echoed, if echo is on, and cleared. In ASCII mode the text goes as
    /// UTF-8 followed by the line ending; in HEX mode its digits go as bytes,
    /// and an odd count of digits is refused with a message and kept.
    #[verifier::opaque]
    pub open spec fn sent(self) -> (AppView, Option<Action>) {
        if self.input_buffer.len() == 0 {
            (self, None)
        } else {
            let v = AppView { auto_scroll: true, ..self };
            match self.input_mode {
                InputMode::Ascii => {
                    let action = if self.handle_open {
                        Some(Action::Send(encode_utf8(self.input_buffer) + self.line_ending.spec_bytes()))
                    } else {
                        None
                    };
                    let w = if self.local_echo {
                        v.appended(self.input_buffer.push('\n'))
                    } else {
                        v
                    };
                    (AppView { input_buffer: seq![], ..w }, action)
                },
                InputMode::Hex => {
                    let digits = hex_digits(self.input_buffer);
                    if digits.len() % 2 == 1 {
                        (v.appended("[Error: Odd number of hex digits]\n"@), None)
                    } else {
                        let bytes = hex_pairs(digits);
                        let action = if self.handle_open {
                            Some(Action::Send(bytes))
                        } else {
                            None
                        };
                        let w = if self.local_echo {
                            v.appended("[TX: "@ + hex_listing(bytes) + "]\n"@)
                        } else {
                            v
                        };
                        (AppView { input_buffer: seq![], ..w }, action)
                    }
                },
            }
        }
    }

    /// A key on the capture screen: paging and jumps move the view, other
    /// keys edit and send the input line. In HEX mode only hexadecimal
    /// digits are typed, in upper case.
    #[verifier::opaque]
    pub open spec fn capture_key(self, code: KeyCode) -> (AppView, Option<Action>) {
        match code {
            KeyCode::PageUp => (self.scrolled_up(page_rows(self)), None),
            KeyCode::PageDown => (self.scrolled_down(page_rows(self)), None),
            KeyCode::Home => (AppView { auto_scroll: false, scroll_top: 0, ..self }, None),
            KeyCode::End => (AppView { auto_scroll: true, ..self }, None),
            KeyCode::Char(c) => match self.input_mode {
                InputMode::Ascii => (AppView { input_buffer: self.input_buffer.push(c), ..self }, None),
                InputMode::Hex => if is_hex_digit(c) {
                    (AppView { input_buffer: self.input_buffer.push(ascii_upper(c)), ..self }, None)
                } else {
                    (self, None)
                },
            },
            KeyCode::Backspace => (
                AppView {
                    input_buffer: if self.input_buffer.len() > 0 {
                        self.input_buffer.drop_last()
                    } else {
                        self.input_buffer
                    },
                    ..self
                },
                None,
            ),
            KeyCode::Enter => self.sent(),
            _ => (self, None),
        }
    }

    /// A key on the menu: arrows or `hjkl` move and step, Enter takes the
    /// entry, Esc closes, `x` quits.
    #[verifier::opaque]
    pub open spec fn options_key(self, code: KeyCode) -> (AppView, Option<Action>) {
        if code == KeyCode::Esc {
            self.menu_closed()
        } else if code == KeyCode::Up || code == KeyCode::Char('k') {
            (self.moved_up(), None)
        } else if code == KeyCode::Down || code == KeyCode::Char('j') {
            (self.moved_down(), None)
        } else if code == KeyCode::Left || code == KeyCode::Char('h') {
            (self.cycled_current(false), None)
        } else if code == KeyCode::Right || code == KeyCode::Char('l') {
            (self.cycled_current(true), None)
        } else if code == KeyCode::Enter {
            self.executed_current()
        } else if code == KeyCode::Char('x') {
            self.exited()
        } else {
            (self, None)
        }
    }

    /// A key on the port list: up and down move within the list, Enter
    /// opens the port under the cursor and returns to the capture screen,
    /// Esc goes back to the menu.
    #[verifier::opaque]
    pub open spec fn port_list_key(self, code: KeyCode) -> (AppView, Option<Action>) {
        if code == KeyCode::Esc {
            (AppView { app_state: AppState::Options, ..self }, None)
        } else if code == KeyCode::Up || code == KeyCode::Char('k') {
            (AppView { port_list_index: self.port_list_index.saturating_sub(1), ..self }, None)
        } else if code == KeyCode::Down || code == KeyCode::Char('j') {
            (self.port_list_down(), None)
        } else if code == KeyCode::Enter {
            self.port_chosen()
        } else {
            (self, None)
        }
    }

    /// The port-list cursor one entry down, staying on the last.
    pub open spec fn port_list_down(self) -> AppView {
        if self.available_ports.len() > 0 {
            let last = self.available_ports.len() - 1;
            AppView {
                port_list_index: if self.port_list_index + 1 < last {
                    (self.port_list_index + 1) as usize
                } else {
                    last as usize
                },
                ..self
            }
        } else {
            self
        }
    }

    /// The port under the port-list cursor becomes the configured one and is
    /// opened; the session returns to capturing.
    #[verifier::opaque]
    pub open spec fn port_chosen(self) -> (AppView, Option<Action>) {
        if self.port_list_index < self.available_ports.len() {
            let w = AppView {
                serial_config: SerialConfig {
                    port_info: Some(self.available_ports[self.port_list_index as int]),
                    ..self.serial_config
                },
                ..self
            };
            let c = w.connecting();
            (AppView { config_snapshot: None, app_state: AppState::Capturing, ..c.0 }, c.1)
        } else {
            (self, None)
        }
    }

    /// A key on the menu or the port list.
    pub open spec fn menu_key(self, code: KeyCode) -> (AppView, Option<Action>) {
        match self.app_state {
            AppState::Options => self.options_key(code),
            AppState::PortList => self.port_list_key(code),
            AppState::Capturing => (self, None),
        }
    }

    /// A key press: any selection goes; Ctrl+A opens or closes the menu;
    /// other keys go to the screen shown.
    #[verifier::opaque]
    pub open spec fn key_step(self, key: KeyEvent) -> (AppView, Option<Action>) {
        let v = AppView { selection: None, ..self };
        if key.code == KeyCode::Char('a') && key.ctrl {
            if self.app_state == AppState::Capturing {
                (v.menu_opened(), None)
            } else {
                v.menu_closed()
            }
        } else if self.app_state == AppState::Capturing {
            v.capture_key(key.code)
        } else {
            v.menu_key(key.code)
        }
    }

    /// Whether a screen cell lies in the output area.
    pub open spec fn in_output_area(self, pos: (u16, u16)) -> bool {
        let r = self.last_output_area;
        &&& r.width != 0
        &&& r.height != 0
        &&& r.x <= pos.0 < r.x + r.width
        &&& r.y <= pos.1 < r.y + r.height
    }

    /// A screen cell in content coordinates: column from the area's left
    /// edge, visual line from the start of the output.
    pub open spec fn content_pos(self, pos: (u16, u16)) -> (u16, u16) {
        let r = self.last_output_area;
        (pos.0.saturating_sub(r.x), self.last_scroll.saturating_add(pos.1.saturating_sub(r.y)))
    }

    /// Whether a mouse event is a click that the click counter records.
    pub open spec fn click_registers(self, ev: MouseEvent) -> bool {
        &&& ev.kind == MouseEventKind::Down(MouseButton::Left)
        &&& self.app_state == AppState::Capturing
        &&& self.in_output_area((ev.column, ev.row))
    }

    /// A mouse event; `tracker` is the click counter after a recorded click.
    /// The wheel scrolls the capture screen; a left click in the output
    /// starts a selection that selects characters, words or lines for one,
    /// two or three chained clicks; dragging moves its end, kept inside the
    /// area; releasing asks for a copy.
    #[verifier::opaque]
    pub open spec fn mouse_step(self, ev: MouseEvent, tracker: ClickTracker) -> AppView {
        let pos = (ev.column, ev.row);
        let r = self.last_output_area;
        match ev.kind {
            MouseEventKind::ScrollUp => if self.app_state == AppState::Capturing {
                self.scrolled_up(WHEEL_STEP)
            } else {
                self
            },
            MouseEventKind::ScrollDown => if self.app_state == AppState::Capturing {
                self.scrolled_down(WHEEL_STEP)
            } else {
                self
            },
            MouseEventKind::Down(MouseButton::Left) => if self.app_state != AppState::Capturing {
                self
            } else {
                let v = AppView { copy_pending: false, ..self };
                if !self.in_output_area(pos) {
                    AppView { selection: None, is_dragging: false, ..v }
                } else {
                    let mode = if tracker.count == 2 {
                        SelectionMode::Word
                    } else if tracker.count == 3 {
                        SelectionMode::Line
                    } else {
                        SelectionMode::Char
                    };
                    let p = self.content_pos(pos);
                    AppView {
                        click_tracker: tracker,
                        selection: Some(Selection { anchor: p, cursor: p, mode }),
                        is_dragging: true,
                        ..v
                    }
                }
            },
            MouseEventKind::Drag(MouseButton::Left) => if !self.is_dragging || r.width == 0
                || r.height == 0 {
                self
            } else {
                let x = if pos.0 < r.x {
                    r.x
                } else if pos.0 > r.x + r.width - 1 {
                    (r.x + r.width - 1) as u16
                } else {
                    pos.0
                };
                let y = if pos.1 < r.y {
                    r.y
                } else if pos.1 > r.y + r.height - 1 {
                    (r.y + r.height - 1) as u16
                } else {
                    pos.1
                };
                match self.selection {
                    Some(sel) => AppView {
                        selection: Some(
                            Selection { anchor: sel.anchor, cursor: self.content_pos((x, y)), mode: sel.mode },
                        ),
                        ..self
                    },
                    None => self,
                }
            },
            MouseEventKind::Up(MouseButton::Left) => if self.is_dragging {
                AppView { is_dragging: false, copy_pending: true, ..self }
            } else {
                self
            },
            _ => self,
        }
    }

    /// An event from the terminal: key presses, mouse events and resizes
    /// call for a redraw; key releases and other events change nothing.
    #[verifier::opaque]
    pub open spec fn event_step(self, ev: TermEvent, tracker: ClickTracker) -> (AppView, Option<Action>) {
        match ev {
            TermEvent::Key { event, press } => if press {
                AppView { dirty: true, ..self }.key_step(event)
            } else {
                (self, None)
            },
            TermEvent::Mouse(m) => (AppView { dirty: true, ..self }.mouse_step(m, tracker), None),
            TermEvent::Resize => (AppView { dirty: true, ..self }, None),
            TermEvent::Other => (self, None),
        }
    }
}

pub(crate) proof fn lemma_entries_in_menu(p: int)
    ensures
        entry_above(p) matches Some(q) ==> 0 <= q < p && menu_selectable(q),
        entry_below(p) matches Some(q) ==> p < q < MENU_LEN && menu_selectable(q),
    decreases MENU_LEN - p + (if p > 0 { p } else { 0 }),
{
    if p > 0 {
        lemma_entries_in_menu_above(p);
    }
    if p + 1 < MENU_LEN {
        lemma_entries_in_menu_below(p);
    }
}

proof fn lemma_entries_in_menu_above(p: int)
    ensures
        entry_above(p) matches Some(q) ==> 0 <= q < p && menu_selectable(q),
    decreases p,
{
    if p > 0 && !menu_selectable(p - 1) {
        lemma_entries_in_menu_above(p - 1);
    }
}

proof fn lemma_entries_in_menu_below(p: int)
    ensures
        entry_below(p) matches Some(q) ==> p < q < MENU_LEN && menu_selectable(q),
    decreases MENU_LEN - p,
{
    if p + 1 < MENU_LEN && !menu_selectable(p + 1) {
        lemma_entries_in_menu_below(p + 1);
    }
}

fn keep_hex_digits(s: &Vec<char>) -> (r: Vec<char>)
    ensures
        r@ == hex_digits(s@),
{
    let mut r: Vec<char> = Vec::new();
    let mut i: usize = 0;
    assert(s@.take(0) =~= seq![]);
    while i < s.len()
        invariant
            i <= s.len(),
            r@ == hex_digits(s@.take(i as int)),
        decreases s.len() - i,
    {
        assert(s@.take(i + 1).drop_last() =~= s@.take(i as int));
        if crate::text::is_ascii_hexdigit(s[i]) {
            r.push(s[i]);
        }
        i = i + 1;
    }
    assert(s@.take(s.len() as int) =~= s@);
    r
}

fn parse_hex_pairs(h: &Vec<char>) -> (r: Vec<u8>)
    requires
        forall|i: int| 0 <= i < h@.len() ==> is_hex_digit(#[trigger] h@[i]),
    ensures
        r@ == hex_pairs(h@),
{
    let mut r: Vec<u8> = Vec::new();
    let mut i: usize = 0;
    assert(h@.skip(0) =~= h@);
    while h.len() - i >= 2
        invariant
            i <= h.len(),
            forall|k: int| 0 <= k < h@.len() ==> is_hex_digit(#[trigger] h@[k]),
            r@ + hex_pairs(h@.skip(i as int)) == hex_pairs(h@),
        decreases h.len() - i,
    {
        let hi = crate::text::hex_digit_value(h[i]);
        let lo = crate::text::hex_digit_value(h[i + 1]);
        let ghost before = r@;
        r.push(hi * 16 + lo);
        proof {
            let t = h@.skip(i as int);
            assert(t[0] == h@[i as int] && t[1] == h@[i + 1]);
            assert(t.skip(2) =~= h@.skip(i + 2));
            assert(r@ + hex_pairs(h@.skip(i + 2)) =~= before + hex_pairs(t));
        }
        i = i + 2;
    }
    assert(hex_pairs(h@.skip(i as int)) =~= seq![]);
    assert(r@ + seq![] =~= r@);
    r
}

fn hex_listing_of(bytes: &Vec<u8>) -> (r: Vec<char>)
    ensures
        r@ == hex_listing(bytes@),
{
    let mut r: Vec<char> = Vec::new();
    let n = bytes.len();
    if n == 0 {
        return r;
    }
    let mut i: usize = 0;
    assert(bytes@.skip(0) =~= bytes@);
    while i < n
        invariant
            n == bytes@.len(),
            i < n,
            r@ + hex_listing(bytes@.skip(i as int)) == hex_listing(bytes@),
        decreases n - i,
    {
        let ghost before = r@;
        let ghost t = bytes@.skip(i as int);
        assert(t[0] == bytes@[i as int]);
        assert(t.skip(1) =~= bytes@.skip(i + 1));
        crate::text::push_hex_byte(&mut r, bytes[i]);
        if i + 1 == n {
            assert(t.len() == 1);
            assert(r@ =~= before + hex_listing(t));
            assert(r@ == hex_listing(bytes@));
            return r;
        }
        r.push(' ');
        assert(r@ + hex_listing(bytes@.skip(i + 1)) =~= before + hex_listing(t));
        i = i + 1;
    }
    r
}

pub(crate) fn utf8_bytes(s: &Vec<char>) -> (r: Vec<u8>)
    ensures
        r@ == encode_utf8(s@),
{
    let text = crate::text::chars_to_string(s);
    text.as_str().as_bytes_vec()
}

impl App {
    pub(crate) fn scroll_up_by(&mut self, lines: u16)
        ensures
            final(self)@ == old(self)@.scrolled_up(lines),
    {
        let max_offset = self.last_total_visual_lines.saturating_sub(self.last_output_height);
        if self.auto_scroll {
            self.scroll_top = max_offset.saturating_sub(lines);
            self.auto_scroll = false;
        } else {
            self.scroll_top = self.scroll_top.saturating_sub(lines);
        }
    }

    pub(crate) fn scroll_down_by(&mut self, lines: u16)
        ensures
            final(self)@ == old(self)@.scrolled_down(lines),
    {
        if self.auto_scroll {
            return;
        }
        let max_offset = self.last_total_visual_lines.saturating_sub(self.last_output_height);
        self.scroll_top = self.scroll_top.saturating_add(lines);
        if self.scroll_top >= max_offset {
            self.auto_scroll = true;
        }
    }

    fn open_menu(&mut self)
        requires
            old(self).wf(),
        ensures
            final(self)@ == old(self)@.menu_opened(),
            final(self).wf(),
    {
        self.config_snapshot = Some(self.serial_config.clone());
        self.menu_cursor = 1;
        self.app_state = AppState::Options;
    }

    fn config_changed_since_open(&self) -> (b: bool)
        ensures
            b == (self.connection_status == ConnectionStatus::Connected
                && self.config_snapshot is Some && !same_config(
                self.serial_config,
                self.config_snapshot.unwrap(),
            )),
    {
        match &self.config_snapshot {
            Some(snapshot) => self.connection_status == ConnectionStatus::Connected
                && !self.serial_config.same_as(snapshot),
            None => false,
        }
    }

    fn close_menu(&mut self) -> (r: Option<Effect>)
        requires
            old(self).wf(),
        ensures
            final(self)@ == old(self)@.menu_closed().0,
            action_of(r) == old(self)@.menu_closed().1,
            final(self).wf(),
    {
        reveal(AppView::menu_closed);
        let reconnect = self.config_changed_since_open();
        let r = if reconnect {
            Some(self.begin_connect())
        } else {
            None
        };
        self.config_snapshot = None;
        self.app_state = AppState::Capturing;
        r
    }

    /// Sends what was typed.
    pub(crate) fn send_input(&mut self) -> (r: Option<Effect>)
        requires
            old(self).wf(),
        ensures
            final(self).wf(),
            final(self)@ == old(self)@.sent().0,
            action_of(r) == old(self)@.sent().1,
    {
        reveal(AppView::sent);
        if self.input_buffer.len() == 0 {
            return None;
        }
        self.auto_scroll = true;
        match self.input_mode {
            InputMode::Ascii => {
                let r = if self.handle_open {
                    let mut data = utf8_bytes(&self.input_buffer);
                    let ending = self.line_ending.bytes();
                    let ghost first = data@;
                    let mut k: usize = 0;
                    while k < ending.len()
                        invariant
                            k <= ending@.len(),
                            data@ == first + ending@.subrange(0, k as int),
                        decreases ending.len() - k,
                    {
                        data.push(ending[k]);
                        k = k + 1;
                        assert(data@ =~= first + ending@.subrange(0, k as int));
                    }
                    assert(ending@.subrange(0, ending@.len() as int) =~= ending@);
                    Some(Effect::Send(data))
                } else {
                    None
                };
                if self.local_echo {
                    let mut echo: Vec<char> = Vec::new();
                    crate::text::push_chars(&mut echo, &self.input_buffer);
                    echo.push('\n');
                    self.append_output(&echo);
                }
                self.input_buffer.clear();
                r
            },
            InputMode::Hex => {
                let digits = keep_hex_digits(&self.input_buffer);
                proof {
                    lemma_hex_digits_are_hex(self.input_buffer@);
                }
                if digits.len() % 2 == 1 {
                    let msg = str_chars("[Error: Odd number of hex digits]\n");
                    self.append_output(&msg);
                    return None;
                }
                let bytes = parse_hex_pairs(&digits);
                let echo_bytes = if self.local_echo {
                    Some(hex_listing_of(&bytes))
                } else {
                    None
                };
                let r = if self.handle_open {
                    Some(Effect::Send(bytes))
                } else {
                    None
                };
                if let Some(listing) = echo_bytes {
                    let mut echo = str_chars("[TX: ");
                    crate::text::push_chars(&mut echo, &listing);
                    crate::text::push_str(&mut echo, "]\n");
                    self.append_output(&echo);
                }
                self.input_buffer.clear();
                r
            },
        }
    }

    fn capture_key(&mut self, code: KeyCode) -> (r: Option<Effect>)
        requires
            old(self).wf(),
        ensures
            final(self).wf(),
            final(self)@ == old(self)@.capture_key(code).0,
            action_of(r) == old(self)@.capture_key(code).1,
    {
        reveal(AppView::capture_key);
        match code {
            KeyCode::PageUp => {
                let page = self.page();
                self.scroll_up_by(page);
                None
            },
            KeyCode::PageDown => {
                let page = self.page();
                self.scroll_down_by(page);
                None
            },
            KeyCode::Home => {
                self.auto_scroll = false;
                self.scroll_top = 0;
                None
            },
            KeyCode::End => {
                self.auto_scroll = true;
                None
            },
            KeyCode::Char(c) => {
                match self.input_mode {
                    InputMode::Ascii => {
                        self.input_buffer.push(c);
                    },
                    InputMode::Hex => {
                        if crate::text::is_ascii_hexdigit(c) {
                            self.input_buffer.push(crate::text::to_ascii_uppercase(c));
                        }
                    },
                }
                None
            },
            KeyCode::Backspace => {
                self.input_buffer.pop();
                None
            },
            KeyCode::Enter => self.send_input(),
            _ => None,
        }
    }

    fn page(&self) -> (r: u16)
        ensures
            r == page_rows(self@),
    {
        let p = self.last_output_height.saturating_sub(1);
        if p < 1 {
            1
        } else {
            p
        }
    }

    fn options_key(&mut self, code: KeyCode) -> (r: Option<Effect>)
        requires
            old(self).wf(),
        ensures
            final(self).wf(),
            final(self)@ == old(self)@.options_key(code).0,
            action_of(r) == old(self)@.options_key(code).1,
    {
        reveal(AppView::options_key);
        proof {
            lemma_entries_in_menu(old(self).menu_cursor as int);
        }
        if code == KeyCode::Esc {
            self.close_menu()
        } else if code == KeyCode::Up || code == KeyCode::Char('k') {
            self.move_cursor_up();
            None
        } else if code == KeyCode::Down || code == KeyCode::Char('j') {
            self.move_cursor_down();
            None
        } else if code == KeyCode::Left || code == KeyCode::Char('h') {
            self.cycle_current_item(false);
            None
        } else if code == KeyCode::Right || code == KeyCode::Char('l') {
            self.cycle_current_item(true);
            None
        } else if code == KeyCode::Enter {
            self.execute_current_item()
        } else if code == KeyCode::Char('x') {
            self.exit()
        } else {
            None
        }
    }

    fn port_list_key(&mut self, code: KeyCode) -> (r: Option<Effect>)
        requires
            old(self).wf(),
        ensures
            final(self).wf(),
            final(self)@ == old(self)@.port_list_key(code).0,
            action_of(r) == old(self)@.port_list_key(code).1,
    {
        reveal(AppView::port_list_key);
        if code == KeyCode::Esc {
            self.app_state = AppState::Options;
            None
        } else if code == KeyCode::Up || code == KeyCode::Char('k') {
            self.port_list_index = self.port_list_index.saturating_sub(1);
            None
        } else if code == KeyCode::Down || code == KeyCode::Char('j') {
            if self.available_ports.len() > 0 {
                let last = self.available_ports.len() - 1;
                let next = self.port_list_index.saturating_add(1);
                self.port_list_index = if next < last {
                    next
                } else {
                    last
                };
            }
            None
        } else if code == KeyCode::Enter {
            self.choose_port()
        } else {
            None
        }
    }

    fn choose_port(&mut self) -> (r: Option<Effect>)
        requires
            old(self).wf(),
        ensures
            final(self).wf(),
            final(self)@ == old(self)@.port_chosen().0,
            action_of(r) == old(self)@.port_chosen().1,
    {
        reveal(AppView::port_chosen);
        if self.port_list_index < self.available_ports.len() {
            let port = self.available_ports[self.port_list_index].clone();
            self.serial_config.port_info = Some(port);
            let r = self.begin_connect();
            self.config_snapshot = None;
            self.app_state = AppState::Capturing;
            Some(r)
        } else {
            None
        }
    }

    fn handle_menu_key(&mut self, code: KeyCode) -> (r: Option<Effect>)
        requires
            old(self).wf(),
        ensures
            final(self).wf(),
            final(self)@ == old(self)@.menu_key(code).0,
            action_of(r) == old(self)@.menu_key(code).1,
    {
        match self.app_state {
            AppState::Options => self.options_key(code),
            AppState::PortList => self.port_list_key(code),
            AppState::Capturing => None,
        }
    }

    /// A key press.
    pub fn handle_key_event(&mut self, key: KeyEvent) -> (r: Option<Effect>)
        requires
            old(self).wf(),
        ensures
            final(self)@ == old(self)@.key_step(key).0,
            action_of(r) == old(self)@.key_step(key).1,
            final(self).wf(),
    {
        reveal(AppView::key_step);
        proof {
            lemma_entries_in_menu(old(self).menu_cursor as int);
        }
        let state = self.app_state;
        self.selection = None;
        if key.code == KeyCode::Char('a') && key.ctrl {
            if state == AppState::Capturing {
                self.open_menu();
                return None;
            } else {
                return self.close_menu();
            }
        }
        if state == AppState::Capturing {
            self.capture_key(key.code)
        } else {
            self.handle_menu_key(key.code)
        }
    }

    pub(crate) fn point_in_output_area(&self, pos: (u16, u16)) -> (b: bool)
        ensures
            b == self@.in_output_area(pos),
    {
        let r = self.last_output_area;
        if r.width == 0 || r.height == 0 {
            return false;
        }
        pos.0 as u32 >= r.x as u32 && (pos.0 as u32) < r.x as u32 + r.width as u32 && pos.1 as u32
            >= r.y as u32 && (pos.1 as u32) < r.y as u32 + r.height as u32
    }

    /// A screen cell in content coordinates.
    pub(crate) fn screen_to_content(&self, pos: (u16, u16)) -> (r: (u16, u16))
        ensures
            r == self@.content_pos(pos),
    {
        let r = self.last_output_area;
        let col = pos.0.saturating_sub(r.x);
        let vline = self.last_scroll.saturating_add(pos.1.saturating_sub(r.y));
        (col, vline)
    }

    /// A mouse event. A recorded click chains onto the previous one only
    /// when it falls on the same cell; the clock decides the rest.
    pub fn handle_mouse_event(&mut self, ev: MouseEvent)
        requires
            old(self).wf(),
        ensures
            final(self)@ == old(self)@.mouse_step(ev, final(self).click_tracker),
            old(self)@.click_registers(ev) ==> {
                &&& final(self).click_tracker.last_time is Some
                &&& final(self).click_tracker.last_pos == (ev.column, ev.row)
                &&& final(self).click_tracker.count == 1 || (old(self).click_tracker.last_time is Some
                    && (ev.column, ev.row) == old(self).click_tracker.last_pos
                    && final(self).click_tracker.count == old(self).click_tracker.count % 3 + 1)
            },
            final(self).wf(),
    {
        reveal(AppView::mouse_step);
        let pos = (ev.column, ev.row);
        match ev.kind {
            MouseEventKind::ScrollUp => {
                if self.app_state == AppState::Capturing {
                    self.scroll_up_by(WHEEL_STEP);
                }
            },
            MouseEventKind::ScrollDown => {
                if self.app_state == AppState::Capturing {
                    self.scroll_down_by(WHEEL_STEP);
                }
            },
            MouseEventKind::Down(MouseButton::Left) => {
                if self.app_state != AppState::Capturing {
                    return;
                }
                self.copy_pending = false;
                if !self.point_in_output_area(pos) {
                    self.selection = None;
                    self.is_dragging = false;
                    return;
                }
                let count = self.click_tracker.record(pos);
                let mode = if count == 2 {
                    SelectionMode::Word
                } else if count == 3 {
                    SelectionMode::Line
                } else {
                    SelectionMode::Char
                };
                let content_pos = self.screen_to_content(pos);
                self.selection = Some(Selection { anchor: content_pos, cursor: content_pos, mode });
                self.is_dragging = true;
            },
            MouseEventKind::Drag(MouseButton::Left) => {
                if !self.is_dragging {
                    return;
                }
                let r = self.last_output_area;
                if r.width == 0 || r.height == 0 {
                    return;
                }
                let x = if pos.0 < r.x {
                    r.x
                } else if pos.0 > r.x + r.width - 1 {
                    r.x + r.width - 1
                } else {
                    pos.0
                };
                let y = if pos.1 < r.y {
                    r.y
                } else if pos.1 > r.y + r.height - 1 {
                    r.y + r.height - 1
                } else {
                    pos.1
                };
                let content_pos = self.screen_to_content((x, y));
                if let Some(sel) = self.selection {
                    self.selection = Some(
                        Selection { anchor: sel.anchor, cursor: content_pos, mode: sel.mode },
                    );
                }
            },
            MouseEventKind::Up(MouseButton::Left) => {
                if self.is_dragging {
                    self.is_dragging = false;
                    self.copy_pending = true;
                }
            },
            _ => {},
        }
    }

    /// An event from the terminal.
    pub fn handle_event(&mut self, ev: TermEvent) -> (r: Option<Effect>)
        requires
            old(self).wf(),
        ensures
            final(self)@ == old(self)@.event_step(ev, final(self).click_tracker).0,
            action_of(r) == old(self)@.event_step(ev, final(self).click_tracker).1,
            final(self).wf(),
    {
        reveal(AppView::event_step);
        match ev {
            TermEvent::Key { event, press } => {
                if press {
                    self.dirty = true;
                    self.handle_key_event(event)
                } else {
                    None
                }
            },
            TermEvent::Mouse(m) => {
                self.dirty = true;
                self.handle_mouse_event(m);
                None
            },
            TermEvent::Resize => {
                self.dirty = true;
                None
            },
            TermEvent::Other => None,
        }
    }
}

proof fn lemma_hex_digits_are_hex(s: Seq<char>)
    ensures
        forall|i: int| 0 <= i < hex_digits(s).len() ==> is_hex_digit(#[trigger] hex_digits(s)[i]),
    decreases s.len(),
{
    if s.len() > 0 {
        lemma_hex_digits_are_hex(s.drop_last());
        let prev = hex_digits(s.drop_last());
        if is_hex_digit(s.last()) {
            assert forall|i: int| 0 <= i < prev.push(s.last()).len() implies is_hex_digit(
                #[trigger] prev.push(s.last())[i],
            ) by {
                if i < prev.len() {
                    assert(prev.push(s.last())[i] == prev[i]);
                }
            }
        }
    }
}

} // verus!
