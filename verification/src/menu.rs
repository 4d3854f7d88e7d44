//! The options menu: its entries, moving through them, and what each does.
use vstd::prelude::*;

use crate::app::{
    baud_rate_at, baud_rates, App, AppState, AppView, InputMode, MenuAction, MenuItem,
    MenuItemView, MENU_LEN,
};
use crate::serial::{ring_step, DataBits, FlowControl, Parity, SerialConfig, StopBits};
use crate::session::Action;
use crate::text::{chars_to_string, decimal, u32_to_decimal};

verus! {

/// The menu's name for the configured port.
pub open spec fn port_label(c: SerialConfig) -> Seq<char> {
    match c.port_info {
        Some(p) => p.port_name@,
        None => "—"@,
    }
}

pub open spec fn data_bits_label(d: DataBits) -> Seq<char> {
    match d {
        DataBits::Five => "5"@,
        DataBits::Six => "6"@,
        DataBits::Seven => "7"@,
        DataBits::Eight => "8"@,
    }
}

pub open spec fn parity_label(p: Parity) -> Seq<char> {
    match p {
        Parity::NoParity => "None"@,
        Parity::Odd => "Odd"@,
        Parity::Even => "Even"@,
    }
}

pub open spec fn stop_bits_label(s: StopBits) -> Seq<char> {
    match s {
        StopBits::One => "1"@,
        StopBits::Two => "2"@,
    }
}

pub open spec fn flow_control_label(f: FlowControl) -> Seq<char> {
    match f {
        FlowControl::NoFlow => "None"@,
        FlowControl::Hardware => "Hardware"@,
        FlowControl::Software => "Software"@,
    }
}

pub open spec fn echo_label(on: bool) -> Seq<char> {
    if on {
        "ON"@
    } else {
        "OFF"@
    }
}

/// The menu, entry by entry: three sections (connection, serial settings,
/// display) and an exit.
pub open spec fn menu_items(v: AppView) -> Seq<MenuItemView> {
    seq![
        MenuItemView::SectionHeader("CONNECTION"@),
        MenuItemView::Action {
            label: "Select Port              "@ + port_label(v.serial_config),
            action: MenuAction::SelectPort,
        },
        MenuItemView::Action { label: "Disconnect"@, action: MenuAction::Disconnect },
        MenuItemView::SectionHeader("SERIAL CONFIG"@),
        MenuItemView::Cycle {
            label: "Baud Rate"@,
            action: MenuAction::CycleBaudRate,
            value: decimal(v.serial_config.baud as nat),
        },
        MenuItemView::Cycle {
            label: "Data Bits"@,
            action: MenuAction::CycleDataBits,
            value: data_bits_label(v.serial_config.data_bits),
        },
        MenuItemView::Cycle {
            label: "Parity"@,
            action: MenuAction::CycleParity,
            value: parity_label(v.serial_config.parity),
        },
        MenuItemView::Cycle {
            label: "Stop Bits"@,
            action: MenuAction::CycleStopBits,
            value: stop_bits_label(v.serial_config.stop_bits),
        },
        MenuItemView::Cycle {
            label: "Flow Control"@,
            action: MenuAction::CycleFlowControl,
            value: flow_control_label(v.serial_config.flow_control),
        },
        MenuItemView::SectionHeader("DISPLAY"@),
        MenuItemView::Cycle {
            label: "Local Echo"@,
            action: MenuAction::CycleLocalEcho,
            value: echo_label(v.local_echo),
        },
        MenuItemView::Cycle {
            label: "Line Ending"@,
            action: MenuAction::CycleLineEnding,
            value: v.line_ending.name(),
        },
        MenuItemView::Cycle {
            label: "Input Mode"@,
            action: MenuAction::CycleInputMode,
            value: v.input_mode.name(),
        },
        MenuItemView::Action { label: "Exit"@, action: MenuAction::Exit },
    ]
}

/// Entries the cursor can rest on: all but the section headers.
pub open spec fn menu_selectable(i: int) -> bool {
    0 <= i < MENU_LEN && i != 0 && i != 3 && i != 9
}

/// The nearest entry above `pos` that the cursor can rest on.
pub open spec fn entry_above(pos: int) -> Option<int>
    decreases pos,
{
    if pos <= 0 {
        None
    } else if menu_selectable(pos - 1) {
        Some(pos - 1)
    } else {
        entry_above(pos - 1)
    }
}

/// The nearest entry below `pos` that the cursor can rest on.
pub open spec fn entry_below(pos: int) -> Option<int>
    decreases MENU_LEN - pos,
{
    if pos + 1 >= MENU_LEN {
        None
    } else if menu_selectable(pos + 1) {
        Some(pos + 1)
    } else {
        entry_below(pos + 1)
    }
}

/// Where a baud rate stands in the menu's list; a rate not in the list
/// counts as 115200's place.
pub open spec fn baud_position_from(b: u32, i: int) -> int
    decreases 12 - i,
{
    if i >= 12 {
        8
    } else if baud_rates()[i] == b {
        i
    } else {
        baud_position_from(b, i + 1)
    }
}

pub open spec fn baud_position(b: u32) -> int {
    baud_position_from(b, 0)
}

/// The next or previous baud rate of the list, wrapping around.
pub open spec fn cycled_baud(b: u32, forward: bool) -> u32 {
    baud_rates()[ring_step(baud_position(b), 12, forward)]
}

/// A serial setting stepped forward or backward; other actions leave the
/// configuration as it is.
pub open spec fn config_cycled(c: SerialConfig, action: MenuAction, forward: bool) -> SerialConfig {
    match action {
        MenuAction::CycleBaudRate => SerialConfig { baud: cycled_baud(c.baud, forward), ..c },
        MenuAction::CycleDataBits => SerialConfig { data_bits: c.data_bits.cycled(forward), ..c },
        MenuAction::CycleParity => SerialConfig { parity: c.parity.cycled(forward), ..c },
        MenuAction::CycleStopBits => SerialConfig { stop_bits: c.stop_bits.cycled(forward), ..c },
        MenuAction::CycleFlowControl => SerialConfig {
            flow_control: c.flow_control.cycled(forward),
            ..c
        },
        _ => c,
    }
}

impl AppView {
    pub open spec fn moved_up(self) -> AppView {
        match entry_above(self.menu_cursor as int) {
            Some(p) => AppView { menu_cursor: p as usize, ..self },
            None => self,
        }
    }

    pub open spec fn moved_down(self) -> AppView {
        match entry_below(self.menu_cursor as int) {
            Some(p) => AppView { menu_cursor: p as usize, ..self },
            None => self,
        }
    }

    /// A setting stepped forward or backward; switching the input mode also
    /// clears what was typed.
    #[verifier::opaque]
    pub open spec fn cycled(self, action: MenuAction, forward: bool) -> AppView {
        match action {
            MenuAction::CycleLocalEcho => AppView { local_echo: !self.local_echo, ..self },
            MenuAction::CycleLineEnding => AppView {
                line_ending: self.line_ending.cycled(forward),
                ..self
            },
            MenuAction::CycleInputMode => AppView {
                input_mode: match self.input_mode {
                    InputMode::Ascii => InputMode::Hex,
                    InputMode::Hex => InputMode::Ascii,
                },
                input_buffer: seq![],
                ..self
            },
            _ => AppView { serial_config: config_cycled(self.serial_config, action, forward), ..self },
        }
    }

    /// The setting under the cursor stepped, if it is a setting.
    #[verifier::opaque]
    pub open spec fn cycled_current(self, forward: bool) -> AppView {
        match menu_items(self)[self.menu_cursor as int] {
            MenuItemView::Cycle { action, .. } => self.cycled(action, forward),
            _ => self,
        }
    }

    /// What an action entry does.
    #[verifier::opaque]
    pub open spec fn acted(self, action: MenuAction) -> (AppView, Option<Action>) {
        match action {
            MenuAction::SelectPort => (
                AppView { port_list_index: 0, app_state: AppState::PortList, ..self },
                None,
            ),
            MenuAction::Disconnect => {
                let d = self.disconnected();
                (AppView { config_snapshot: None, app_state: AppState::Capturing, ..d.0 }, d.1)
            },
            MenuAction::Exit => self.exited(),
            _ => (self, None),
        }
    }

    /// Enter on the entry under the cursor: an action is taken, a setting
    /// stepped forward.
    #[verifier::opaque]
    pub open spec fn executed_current(self) -> (AppView, Option<Action>) {
        match menu_items(self)[self.menu_cursor as int] {
            MenuItemView::Action { action, .. } => self.acted(action),
            MenuItemView::Cycle { action, .. } => (self.cycled(action, true), None),
            _ => (self, None),
        }
    }
}

fn data_bits_text(d: DataBits) -> (r: &'static str)
    ensures
        r@ == data_bits_label(d),
{
    match d {
        DataBits::Five => "5",
        DataBits::Six => "6",
        DataBits::Seven => "7",
        DataBits::Eight => "8",
    }
}

fn parity_text(p: Parity) -> (r: &'static str)
    ensures
        r@ == parity_label(p),
{
    match p {
        Parity::NoParity => "None",
        Parity::Odd => "Odd",
        Parity::Even => "Even",
    }
}

fn stop_bits_text(s: StopBits) -> (r: &'static str)
    ensures
        r@ == stop_bits_label(s),
{
    match s {
        StopBits::One => "1",
        StopBits::Two => "2",
    }
}

fn flow_control_text(f: FlowControl) -> (r: &'static str)
    ensures
        r@ == flow_control_label(f),
{
    match f {
        FlowControl::NoFlow => "None",
        FlowControl::Hardware => "Hardware",
        FlowControl::Software => "Software",
    }
}

fn cycle_item(label: &str, action: MenuAction, value: String) -> (r: MenuItem)
    ensures
        r@ == (MenuItemView::Cycle { label: label@, action, value: value@ }),
{
    MenuItem::Cycle { label: String::from_str(label), action, value }
}

fn action_item(label: String, action: MenuAction) -> (r: MenuItem)
    ensures
        r@ == (MenuItemView::Action { label: label@, action }),
{
    MenuItem::Action { label, action }
}

fn header_item(title: &str) -> (r: MenuItem)
    ensures
        r@ == MenuItemView::SectionHeader(title@),
{
    MenuItem::SectionHeader(String::from_str(title))
}

fn baud_position_of(b: u32) -> (r: usize)
    ensures
        r == baud_position(b),
        r < 12,
{
    let mut i: usize = 0;
    while i < 12
        invariant
            i <= 12,
            baud_position_from(b, i as int) == baud_position(b),
        decreases 12 - i,
    {
        if baud_rate_at(i) == b {
            return i;
        }
        i = i + 1;
    }
    8
}

fn cycle_config(c: &SerialConfig, action: MenuAction, forward: bool) -> (r: SerialConfig)
    ensures
        r == config_cycled(*c, action, forward),
{
    let mut r = c.clone();
    match action {
        MenuAction::CycleBaudRate => {
            let current = baud_position_of(c.baud);
            let next = crate::serial::next_position(current, 12, forward);
            r.baud = baud_rate_at(next);
        },
        MenuAction::CycleDataBits => {
            r.data_bits = c.data_bits.cycle(forward);
        },
        MenuAction::CycleParity => {
            r.parity = c.parity.cycle(forward);
        },
        MenuAction::CycleStopBits => {
            r.stop_bits = c.stop_bits.cycle(forward);
        },
        MenuAction::CycleFlowControl => {
            r.flow_control = c.flow_control.cycle(forward);
        },
        _ => {},
    }
    r
}

impl App {
    /// The menu's entries for the present session.
    pub fn build_menu_items(&self) -> (r: Vec<MenuItem>)
        ensures
            r@.len() == MENU_LEN,
            forall|i: int| 0 <= i < MENU_LEN ==> (#[trigger] r@[i])@ == menu_items(self@)[i],
    {
        let port_label = match &self.serial_config.port_info {
            Some(p) => p.port_name.clone(),
            None => String::from_str("—"),
        };
        let baud_val = chars_to_string(&u32_to_decimal(self.serial_config.baud));
        let echo_val = if self.local_echo {
            String::from_str("ON")
        } else {
            String::from_str("OFF")
        };
        let mut items: Vec<MenuItem> = Vec::new();
        items.push(header_item("CONNECTION"));
        items.push(
            action_item(
                String::from_str("Select Port              ").concat(port_label.as_str()),
                MenuAction::SelectPort,
            ),
        );
        items.push(action_item(String::from_str("Disconnect"), MenuAction::Disconnect));
        items.push(header_item("SERIAL CONFIG"));
        items.push(cycle_item("Baud Rate", MenuAction::CycleBaudRate, baud_val));
        items.push(
            cycle_item(
                "Data Bits",
                MenuAction::CycleDataBits,
                String::from_str(data_bits_text(self.serial_config.data_bits)),
            ),
        );
        items.push(
            cycle_item(
                "Parity",
                MenuAction::CycleParity,
                String::from_str(parity_text(self.serial_config.parity)),
            ),
        );
        items.push(
            cycle_item(
                "Stop Bits",
                MenuAction::CycleStopBits,
                String::from_str(stop_bits_text(self.serial_config.stop_bits)),
            ),
        );
        items.push(
            cycle_item(
                "Flow Control",
                MenuAction::CycleFlowControl,
                String::from_str(flow_control_text(self.serial_config.flow_control)),
            ),
        );
        items.push(header_item("DISPLAY"));
        items.push(cycle_item("Local Echo", MenuAction::CycleLocalEcho, echo_val));
        items.push(
            cycle_item(
                "Line Ending",
                MenuAction::CycleLineEnding,
                String::from_str(self.line_ending.label()),
            ),
        );
        items.push(
            cycle_item(
                "Input Mode",
                MenuAction::CycleInputMode,
                String::from_str(self.input_mode.label()),
            ),
        );
        items.push(action_item(String::from_str("Exit"), MenuAction::Exit));
        items
    }

    /// Moves the cursor to the nearest entry above that can be selected.
    pub(crate) fn move_cursor_up(&mut self)
        requires
            old(self).wf(),
        ensures
            final(self).wf(),
            final(self)@ == old(self)@.moved_up(),
    {
        proof {
            crate::events::lemma_entries_in_menu(old(self).menu_cursor as int);
        }
        let items = self.build_menu_items();
        let mut pos = self.menu_cursor;
        loop
            invariant
                pos <= old(self).menu_cursor < MENU_LEN,
                old(self).wf(),
                entry_above(old(self).menu_cursor as int) matches Some(q) ==> 0 <= q < MENU_LEN,
                items@.len() == MENU_LEN,
                forall|i: int| 0 <= i < MENU_LEN ==> (#[trigger] items@[i])@ == menu_items(self@)[i],
                self@ == old(self)@,
                entry_above(pos as int) == entry_above(old(self).menu_cursor as int),
            decreases pos,
        {
            if pos == 0 {
                return;
            }
            pos = pos - 1;
            assert(items@[pos as int]@ == menu_items(self@)[pos as int]);
            if items[pos].is_selectable() {
                self.menu_cursor = pos;
                return;
            }
        }
    }

    /// Moves the cursor to the nearest entry below that can be selected.
    pub(crate) fn move_cursor_down(&mut self)
        requires
            old(self).wf(),
        ensures
            final(self).wf(),
            final(self)@ == old(self)@.moved_down(),
    {
        proof {
            crate::events::lemma_entries_in_menu(old(self).menu_cursor as int);
        }
        let items = self.build_menu_items();
        let mut pos = self.menu_cursor;
        loop
            invariant
                old(self).menu_cursor <= pos < MENU_LEN,
                old(self).wf(),
                entry_below(old(self).menu_cursor as int) matches Some(q) ==> 0 <= q < MENU_LEN,
                items@.len() == MENU_LEN,
                forall|i: int| 0 <= i < MENU_LEN ==> (#[trigger] items@[i])@ == menu_items(self@)[i],
                self@ == old(self)@,
                entry_below(pos as int) == entry_below(old(self).menu_cursor as int),
            decreases MENU_LEN - pos,
        {
            pos = pos + 1;
            if pos >= items.len() {
                return;
            }
            assert(items@[pos as int]@ == menu_items(self@)[pos as int]);
            if items[pos].is_selectable() {
                self.menu_cursor = pos;
                return;
            }
        }
    }

    /// Steps a setting forward or backward.
    pub(crate) fn execute_cycle(&mut self, action: MenuAction, forward: bool)
        ensures
            final(self)@ == old(self)@.cycled(action, forward),
            final(self).last_output_area == old(self).last_output_area,
            final(self).menu_cursor == old(self).menu_cursor,
    {
        reveal(AppView::cycled);
        match action {
            MenuAction::CycleLocalEcho => {
                self.local_echo = !self.local_echo;
            },
            MenuAction::CycleLineEnding => {
                self.line_ending = self.line_ending.cycle(forward);
            },
            MenuAction::CycleInputMode => {
                self.input_mode = match self.input_mode {
                    InputMode::Ascii => InputMode::Hex,
                    InputMode::Hex => InputMode::Ascii,
                };
                self.input_buffer.clear();
            },
            _ => {
                self.serial_config = cycle_config(&self.serial_config, action, forward);
            },
        }
    }

    /// Steps the setting under the cursor.
    pub(crate) fn cycle_current_item(&mut self, forward: bool)
        requires
            old(self).wf(),
        ensures
            final(self).last_output_area == old(self).last_output_area,
            final(self).menu_cursor == old(self).menu_cursor,
            final(self)@ == old(self)@.cycled_current(forward),
    {
        reveal(AppView::cycled_current);
        let items = self.build_menu_items();
        let cursor = self.menu_cursor;
        assert(items@[cursor as int]@ == menu_items(self@)[cursor as int]);
        match &items[cursor] {
            MenuItem::Cycle { action, .. } => {
                self.execute_cycle(*action, forward);
            },
            _ => {},
        }
    }

    /// Takes an action entry.
    pub(crate) fn execute_action(&mut self, action: MenuAction) -> (r: Option<crate::session::Effect>)
        ensures
            final(self).last_output_area == old(self).last_output_area,
            final(self).menu_cursor == old(self).menu_cursor,
            final(self)@ == old(self)@.acted(action).0,
            crate::session::action_of(r) == old(self)@.acted(action).1,
    {
        reveal(AppView::acted);
        match action {
            MenuAction::SelectPort => {
                self.port_list_index = 0;
                self.app_state = AppState::PortList;
                None
            },
            MenuAction::Disconnect => {
                let r = self.disconnect();
                self.config_snapshot = None;
                self.app_state = AppState::Capturing;
                r
            },
            MenuAction::Exit => self.exit(),
            _ => None,
        }
    }

    /// Enter on the entry under the cursor.
    pub(crate) fn execute_current_item(&mut self) -> (r: Option<crate::session::Effect>)
        requires
            old(self).wf(),
        ensures
            final(self).last_output_area == old(self).last_output_area,
            final(self).menu_cursor == old(self).menu_cursor,
            final(self)@ == old(self)@.executed_current().0,
            crate::session::action_of(r) == old(self)@.executed_current().1,
    {
        reveal(AppView::executed_current);
        let items = self.build_menu_items();
        let cursor = self.menu_cursor;
        assert(items@[cursor as int]@ == menu_items(self@)[cursor as int]);
        match &items[cursor] {
            MenuItem::Action { action, .. } => self.execute_action(*action),
            MenuItem::Cycle { action, .. } => {
                self.execute_cycle(*action, true);
                None
            },
            _ => None,
        }
    }
}

} // verus!
