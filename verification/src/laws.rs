//! What holds of the session across its operations.
use vstd::prelude::*;

use crate::app::{
    baud_rates, AppState, AppView, ClickTracker, InputMode, LineEnding, MenuAction, SelectionMode,
    DOUBLE_CLICK_MS, MAX_OUTPUT_LINES, MENU_LEN,
};
use crate::events::{
    hex_digits, hex_listing, hex_pairs, KeyCode, KeyEvent, MouseButton, MouseEvent, MouseEventKind, TermEvent,
};
use crate::menu::{
    baud_position, baud_position_from, config_cycled, cycled_baud, entry_above, entry_below,
    menu_items, menu_selectable,
};
use crate::serial::{
    ring_step, same_config, DataBits, FlowControl, Parity, SerialConfig, SerialEvent, StopBits,
};
use crate::text::{ascii_upper, is_hex_digit};
use crate::output::{ansi_stripped, joined_lines, law_split_lines_reassemble, split_lines, sum_heights};
use crate::app::line_height;
use vstd::utf8::encode_utf8;
use crate::ui::{is_window, rows_before, rows_through, spaced_pairs, word_end, word_start, Grid};

verus! {

/// Dropping old lines keeps at most `MAX_OUTPUT_LINES` lines, and they are
/// the newest, in order.
pub proof fn law_truncation_keeps_newest(v: AppView)
    ensures
        v.truncated().output_lines.len() == if v.output_lines.len() > MAX_OUTPUT_LINES {
            MAX_OUTPUT_LINES as nat
        } else {
            v.output_lines.len()
        },
        v.truncated().output_lines == v.output_lines.skip(
            v.output_lines.len() - v.truncated().output_lines.len(),
        ),
{
    reveal(AppView::truncated);
    if v.output_lines.len() <= MAX_OUTPUT_LINES {
        assert(v.output_lines.skip(0) =~= v.output_lines);
    }
}

/// However much arrives, after the worker's messages are taken in the
/// output holds at most `MAX_OUTPUT_LINES` complete lines.
pub proof fn law_output_stays_bounded(v: AppView, events: Seq<SerialEvent>, lost: bool)
    ensures
        v.drained(events, lost).output_lines.len() <= MAX_OUTPUT_LINES,
{
    reveal(AppView::drained);
    reveal(AppView::truncated);
}


proof fn lemma_baud_positions(i: int)
    requires
        0 <= i < 12,
    ensures
        baud_position(baud_rates()[i]) == i,
{
    reveal_with_fuel(baud_position_from, 13);
    if i == 0 {
    } else if i == 1 {
    } else if i == 2 {
    } else if i == 3 {
    } else if i == 4 {
    } else if i == 5 {
    } else if i == 6 {
    } else if i == 7 {
    } else if i == 8 {
    } else if i == 9 {
    } else if i == 10 {
    } else {
    }
}

proof fn lemma_baud_round_trip(b: u32, forward: bool)
    requires
        baud_rates().contains(b),
    ensures
        cycled_baud(cycled_baud(b, forward), !forward) == b,
{
    let i = choose|i: int| 0 <= i < 12 && baud_rates()[i] == b;
    lemma_baud_positions(i);
    let j = ring_step(i, 12, forward);
    assert(0 <= j < 12);
    lemma_baud_positions(j);
    assert(ring_step(j, 12, !forward) == i);
}

proof fn lemma_config_round_trip(c: SerialConfig, action: MenuAction, forward: bool)
    requires
        action == MenuAction::CycleBaudRate ==> baud_rates().contains(c.baud),
    ensures
        config_cycled(config_cycled(c, action, forward), action, !forward) == c,
{
    if action == MenuAction::CycleBaudRate {
        lemma_baud_round_trip(c.baud, forward);
    } else if action == MenuAction::CycleDataBits {
        assert(c.data_bits.cycled(forward).cycled(!forward) == c.data_bits);
    } else if action == MenuAction::CycleParity {
        assert(c.parity.cycled(forward).cycled(!forward) == c.parity);
    } else if action == MenuAction::CycleStopBits {
        assert(c.stop_bits.cycled(forward).cycled(!forward) == c.stop_bits);
    } else if action == MenuAction::CycleFlowControl {
        assert(c.flow_control.cycled(forward).cycled(!forward) == c.flow_control);
    }
}

proof fn lemma_cycled_config(v: AppView, action: MenuAction, forward: bool)
    requires
        action != MenuAction::CycleLocalEcho,
        action != MenuAction::CycleLineEnding,
        action != MenuAction::CycleInputMode,
    ensures
        v.cycled(action, forward) == (AppView {
            serial_config: config_cycled(v.serial_config, action, forward),
            ..v
        }),
{
    reveal(AppView::cycled);
}

proof fn lemma_cycled_display(v: AppView, action: MenuAction, forward: bool)
    ensures
        action == MenuAction::CycleLocalEcho ==> v.cycled(action, forward) == (AppView {
            local_echo: !v.local_echo,
            ..v
        }),
        action == MenuAction::CycleLineEnding ==> v.cycled(action, forward) == (AppView {
            line_ending: v.line_ending.cycled(forward),
            ..v
        }),
        action == MenuAction::CycleInputMode ==> v.cycled(action, forward) == (AppView {
            input_mode: match v.input_mode {
                InputMode::Ascii => InputMode::Hex,
                InputMode::Hex => InputMode::Ascii,
            },
            input_buffer: seq![],
            ..v
        }),
{
    reveal(AppView::cycled);
}

proof fn lemma_config_setting_round_trip(v: AppView, action: MenuAction, forward: bool)
    requires
        action != MenuAction::CycleLocalEcho,
        action != MenuAction::CycleLineEnding,
        action != MenuAction::CycleInputMode,
        action == MenuAction::CycleBaudRate ==> baud_rates().contains(v.serial_config.baud),
    ensures
        v.cycled(action, forward).cycled(action, !forward) == v,
{
    let w = v.cycled(action, forward);
    lemma_cycled_config(v, action, forward);
    lemma_cycled_config(w, action, !forward);
    lemma_config_round_trip(v.serial_config, action, forward);
}

proof fn lemma_display_setting_round_trip(v: AppView, action: MenuAction, forward: bool)
    requires
        action == MenuAction::CycleLocalEcho || action == MenuAction::CycleLineEnding || action
            == MenuAction::CycleInputMode,
    ensures
        action != MenuAction::CycleInputMode ==> v.cycled(action, forward).cycled(action, !forward)
            == v,
        action == MenuAction::CycleInputMode ==> v.cycled(action, forward).cycled(action, !forward)
            == (AppView { input_buffer: seq![], ..v }),
{
    let w = v.cycled(action, forward);
    lemma_cycled_display(v, action, forward);
    lemma_cycled_display(w, action, !forward);
    assert(v.line_ending.cycled(forward).cycled(!forward) == v.line_ending);
}

/// Stepping a setting one way, then back the other way, restores it. For
/// the baud rate this holds of the rates the menu lists; switching the input
/// mode twice restores the mode, with the typed text cleared.
pub proof fn law_cycle_round_trip(v: AppView, action: MenuAction, forward: bool)
    requires
        action == MenuAction::CycleBaudRate ==> baud_rates().contains(v.serial_config.baud),
    ensures
        action != MenuAction::CycleInputMode ==> v.cycled(action, forward).cycled(action, !forward)
            == v,
        action == MenuAction::CycleInputMode ==> v.cycled(action, forward).cycled(action, !forward)
            == (AppView { input_buffer: seq![], ..v }),
{
    if action == MenuAction::CycleLocalEcho || action == MenuAction::CycleLineEnding || action
        == MenuAction::CycleInputMode {
        lemma_display_setting_round_trip(v, action, forward);
    } else {
        lemma_config_setting_round_trip(v, action, forward);
    }
}

/// The menu cursor rests on entries that can be selected: opening the menu
/// puts it on one, and moving up or down keeps it on one.
pub proof fn law_cursor_on_selectable(v: AppView)
    ensures
        menu_selectable(v.menu_opened().menu_cursor as int),
        menu_selectable(v.menu_cursor as int) ==> menu_selectable(v.moved_up().menu_cursor as int),
        menu_selectable(v.menu_cursor as int) ==> menu_selectable(
            v.moved_down().menu_cursor as int,
        ),
{
    crate::events::lemma_entries_in_menu(v.menu_cursor as int);
}

/// The lines a window holds are those with a row in view: every line that
/// reaches into the rows from `scroll` to `scroll + height` lies between its
/// first line and its end.
pub proof fn law_window_covers_view(h: Seq<u16>, scroll: u16, height: u16, w: crate::ui::Window, j: int)
    requires
        is_window(h, scroll, height, w),
        0 <= j < h.len(),
        rows_before(h, j) < scroll + height,
        rows_through(h, j) > scroll,
    ensures
        w.first is Some,
        w.first.unwrap() <= j < w.end,
{
    assert(rows_through(h, j) == rows_before(h, j + 1));
    match w.first {
        None => {
            assert(rows_through(h, j) <= scroll);
        },
        Some(s) => {
            if j < s {
                assert(rows_through(h, j) <= scroll);
            }
            if w.end <= j {
                crate::ui::lemma_rows_monotone(h, w.end as int, j);
            }
        },
    }
}

/// Opening the menu and closing it again changes no setting, so it asks for
/// no reconnection; the session is back to capturing.
pub proof fn law_menu_round_trip(v: AppView)
    ensures
        v.menu_opened().menu_closed().1 is None,
        v.menu_opened().menu_closed().0 == (AppView {
            config_snapshot: None,
            menu_cursor: 1,
            app_state: crate::app::AppState::Capturing,
            ..v
        }),
{
    reveal(AppView::menu_closed);
    assert(same_config(v.serial_config, v.serial_config));
}

/// A click count runs 1, 2, 3 and starts again at 1.
pub proof fn law_click_count_in_range(t: ClickTracker, pos: (u16, u16), elapsed: Option<u128>)
    ensures
        1 <= t.next_count(pos, elapsed) <= 3,
        t.chains(pos, elapsed) && t.count == 3 ==> t.next_count(pos, elapsed) == 1,
        t.chains(pos, elapsed) && 1 <= t.count < 3 ==> t.next_count(pos, elapsed) == t.count + 1,
        !t.chains(pos, elapsed) ==> t.next_count(pos, elapsed) == 1,
{
}

/// A character or line selection runs forward: its first cell comes no
/// later than its last in reading order.
pub proof fn law_selection_forward(sel: crate::app::Selection, area: crate::app::Area, scroll: u16, g: crate::ui::Grid)
    requires
        sel.mode != crate::app::SelectionMode::Word,
        crate::ui::selection_range(sel, area, scroll, g) is Some,
    ensures
        crate::ui::reads_before(
            crate::ui::selection_range(sel, area, scroll, g).unwrap().0,
            crate::ui::selection_range(sel, area, scroll, g).unwrap().1,
        ),
{
}

/// An upper-case hexadecimal digit: `0-9` or `A-F`.
pub open spec fn is_upper_hex(c: char) -> bool {
    is_hex_digit(c) && ascii_upper(c) == c
}

proof fn lemma_upper_of_hex(c: char)
    requires
        is_hex_digit(c),
    ensures
        is_upper_hex(ascii_upper(c)),
{
    if 'a' <= c && c <= 'z' {
        let u = (c as u32) - 32;
        assert(0x41 <= u <= 0x46);
        assert((u as char) as u32 == u);
    }
}

proof fn lemma_hex_digit_round_trip(c: char)
    requires
        is_upper_hex(c),
    ensures
        crate::text::hex_digit_char(crate::text::hex_value(c)) == c,
        crate::text::hex_value(c) < 16,
{
}

proof fn lemma_spaced_concat(x: Seq<char>, y: Seq<char>)
    requires
        x.len() > 0,
        x.len() % 2 == 0,
    ensures
        spaced_pairs(x + y) == spaced_pairs(x) + if y.len() > 0 {
            seq![' '] + spaced_pairs(y)
        } else {
            seq![]
        },
    decreases y.len(),
{
    if y.len() == 0 {
        assert(x + y =~= x);
        assert(spaced_pairs(x) + seq![] =~= spaced_pairs(x));
    } else {
        lemma_spaced_concat(x, y.drop_last());
        assert((x + y).drop_last() =~= x + y.drop_last());
        assert((x + y).last() == y.last());
        let i = y.len() - 1;
        if y.len() == 1 {
            assert(y.drop_last() =~= seq![]);
            assert(spaced_pairs(y.drop_last()) =~= seq![]);
            assert(spaced_pairs(y) =~= seq![y.last()]);
            assert(spaced_pairs(x + y) =~= spaced_pairs(x) + (seq![' '] + spaced_pairs(y)));
        } else {
            assert((x.len() + i) % 2 == i % 2);
            assert(spaced_pairs(x + y) =~= spaced_pairs(x) + (seq![' '] + spaced_pairs(y)));
        }
    }
}

/// What the TX echo shows of a line of hexadecimal input is that line as
/// the HEX prompt showed it: the bytes parsed from an even number of
/// upper-case digits, written back in pairs, give the digits spaced in
/// pairs.
pub proof fn law_tx_echo_matches_input(d: Seq<char>)
    requires
        d.len() % 2 == 0,
        forall|i: int| 0 <= i < d.len() ==> is_upper_hex(#[trigger] d[i]),
    ensures
        hex_listing(hex_pairs(d)) == spaced_pairs(d),
    decreases d.len(),
{
    if d.len() > 0 {
        let a = d[0];
        let b = d[1];
        let rest = d.skip(2);
        assert(is_upper_hex(a) && is_upper_hex(b));
        lemma_hex_digit_round_trip(a);
        lemma_hex_digit_round_trip(b);
        let byte = (crate::text::hex_value(a) * 16 + crate::text::hex_value(b)) as u8;
        assert(byte / 16 == crate::text::hex_value(a));
        assert(byte % 16 == crate::text::hex_value(b));
        assert(crate::text::hex_byte(byte) =~= seq![a, b]);
        assert forall|i: int| 0 <= i < rest.len() implies is_upper_hex(#[trigger] rest[i]) by {
            assert(rest[i] == d[i + 2]);
        }
        law_tx_echo_matches_input(rest);
        let pairs = hex_pairs(d);
        assert(pairs == seq![byte] + hex_pairs(rest));
        let x = seq![a, b];
        assert(d =~= x + rest);
        lemma_spaced_concat(x, rest);
        reveal_with_fuel(spaced_pairs, 3);
        assert(spaced_pairs(x) =~= seq![a, b]);
        lemma_hex_pairs_len(rest);
        assert(pairs.skip(1) =~= hex_pairs(rest));
        if rest.len() > 0 {
            assert(pairs.len() > 1);
            assert(hex_listing(pairs) =~= crate::text::hex_byte(byte) + seq![' '] + hex_listing(
                hex_pairs(rest),
            ));
            assert(spaced_pairs(d) =~= seq![a, b] + (seq![' '] + spaced_pairs(rest)));
        } else {
            assert(pairs.len() == 1);
            assert(spaced_pairs(d) =~= seq![a, b] + seq![]);
        }
    }
}

proof fn lemma_hex_pairs_len(h: Seq<char>)
    ensures
        hex_pairs(h).len() == h.len() / 2,
    decreases h.len(),
{
    if h.len() >= 2 {
        lemma_hex_pairs_len(h.skip(2));
    }
}

/// In HEX mode the input line holds upper-case hexadecimal digits only.
pub open spec fn hex_input_ok(v: AppView) -> bool {
    v.input_mode == InputMode::Hex ==> forall|i: int|
        0 <= i < v.input_buffer.len() ==> is_upper_hex(#[trigger] v.input_buffer[i])
}

/// `b` has the input line and mode of `a`.
pub open spec fn same_input(a: AppView, b: AppView) -> bool {
    b.input_mode == a.input_mode && b.input_buffer == a.input_buffer
}

/// `b` has the input mode of `a`, with its input line kept or cleared.
pub open spec fn input_kept_or_cleared(a: AppView, b: AppView) -> bool {
    b.input_mode == a.input_mode && (b.input_buffer == a.input_buffer || b.input_buffer.len() == 0)
}

proof fn lemma_appended_input(v: AppView, s: Seq<char>)
    ensures
        same_input(v, v.appended(s)),
{
    reveal(AppView::appended);
}

proof fn lemma_closing_input(v: AppView)
    ensures
        same_input(v, v.disconnected().0),
        same_input(v, v.exited().0),
        same_input(v, v.menu_closed().0),
{
    reveal(AppView::disconnected);
    reveal(AppView::exited);
    reveal(AppView::menu_closed);
    let c = v.closing();
    lemma_appended_input(AppView { connection_status: crate::app::ConnectionStatus::Disconnected, ..c.0 }, "[Disconnected]\n"@);
}

proof fn lemma_sent_input(v: AppView)
    ensures
        input_kept_or_cleared(v, v.sent().0),
{
    reveal(AppView::sent);
    let w = AppView { auto_scroll: true, ..v };
    lemma_appended_input(w, v.input_buffer.push('\n'));
    lemma_appended_input(w, "[Error: Odd number of hex digits]\n"@);
    lemma_appended_input(w, "[TX: "@ + hex_listing(hex_pairs(crate::events::hex_digits(v.input_buffer))) + "]\n"@);
}

proof fn lemma_cycled_input(v: AppView, action: MenuAction, forward: bool)
    ensures
        action != MenuAction::CycleInputMode ==> same_input(v, v.cycled(action, forward)),
        action == MenuAction::CycleInputMode ==> v.cycled(action, forward).input_buffer.len() == 0,
{
    reveal(AppView::cycled);
}

proof fn lemma_options_input(v: AppView, code: crate::events::KeyCode)
    ensures
        hex_input_ok(v) ==> hex_input_ok(v.options_key(code).0),
{
    reveal(AppView::options_key);
    reveal(AppView::cycled_current);
    reveal(AppView::executed_current);
    reveal(AppView::acted);
    lemma_closing_input(v);
    lemma_cycled_input(v, MenuAction::CycleBaudRate, true);
    match crate::menu::menu_items(v)[v.menu_cursor as int] {
        crate::app::MenuItemView::Cycle { action, .. } => {
            lemma_cycled_input(v, action, true);
            lemma_cycled_input(v, action, false);
        },
        _ => {},
    }
    let d = v.disconnected();
    assert(same_input(v, AppView { config_snapshot: None, app_state: crate::app::AppState::Capturing, ..d.0 }));
}

proof fn lemma_port_list_input(v: AppView, code: crate::events::KeyCode)
    ensures
        same_input(v, v.port_list_key(code).0),
{
    reveal(AppView::port_list_key);
    reveal(AppView::port_chosen);
}

proof fn lemma_capture_input(v: AppView, code: crate::events::KeyCode)
    requires
        hex_input_ok(v),
    ensures
        hex_input_ok(v.capture_key(code).0),
{
    reveal(AppView::capture_key);
    lemma_sent_input(v);
    match code {
        crate::events::KeyCode::Char(c) => {
            if v.input_mode == InputMode::Hex && is_hex_digit(c) {
                let b = v.input_buffer.push(ascii_upper(c));
                lemma_upper_of_hex(c);
                assert forall|i: int| 0 <= i < b.len() implies is_upper_hex(#[trigger] b[i]) by {
                    if i < v.input_buffer.len() {
                        assert(b[i] == v.input_buffer[i]);
                    } else {
                        assert(b[i] == ascii_upper(c));
                    }
                }
            }
        },
        crate::events::KeyCode::Backspace => {
            if v.input_mode == InputMode::Hex && v.input_buffer.len() > 0 {
                let b = v.input_buffer.drop_last();
                assert forall|i: int| 0 <= i < b.len() implies is_upper_hex(#[trigger] b[i]) by {
                    assert(b[i] == v.input_buffer[i]);
                }
            }
        },
        _ => {},
    }
}

/// Whatever the terminal sends, a session whose HEX input holds only
/// upper-case hexadecimal digits keeps it so.
pub proof fn law_hex_input_stays_hex(v: AppView, ev: TermEvent, tracker: ClickTracker)
    requires
        hex_input_ok(v),
    ensures
        hex_input_ok(v.event_step(ev, tracker).0),
{
    reveal(AppView::event_step);
    reveal(AppView::key_step);
    reveal(AppView::mouse_step);
    let d = AppView { dirty: true, ..v };
    let s = AppView { selection: None, ..d };
    lemma_closing_input(s);
    lemma_options_input(s, crate::events::KeyCode::Other);
    match ev {
        TermEvent::Key { event, press } => {
            lemma_capture_input(s, event.code);
            lemma_options_input(s, event.code);
            lemma_port_list_input(s, event.code);
        },
        _ => {},
    }
}

/// On the port list, Up and `k` move the cursor one entry up, stopping at the
/// first; Down and `j` move it one entry down, stopping at the last, and leave
/// it where it is when no port is listed. The key press asks for a redraw and
/// drops any selection; nothing else changes, the port list stays shown, no
/// effect is asked for, and a cursor inside the list stays inside it. (The
/// list's length fits in `usize`, as it does in the view of every `App`.)
pub proof fn law_port_list_cursor(v: AppView, event: KeyEvent, tracker: ClickTracker)
    requires
        v.app_state == AppState::PortList,
        v.available_ports.len() <= usize::MAX,
        event.code == KeyCode::Up || event.code == KeyCode::Char('k') || event.code
            == KeyCode::Down || event.code == KeyCode::Char('j'),
    ensures
        ({
            let r = v.event_step(TermEvent::Key { event, press: true }, tracker);
            let w = r.0;
            let n = v.available_ports.len();
            let idx = v.port_list_index;
            let up = event.code == KeyCode::Up || event.code == KeyCode::Char('k');
            &&& r.1 is None
            &&& w == AppView { dirty: true, selection: None, port_list_index: w.port_list_index, ..v }
            &&& w.app_state == AppState::PortList
            &&& up ==> w.port_list_index == idx.saturating_sub(1)
            &&& !up && n > 0 ==> w.port_list_index == if idx + 1 < n - 1 {
                idx + 1
            } else {
                n - 1
            }
            &&& !up && n == 0 ==> w.port_list_index == idx
            &&& idx < n ==> w.port_list_index < n
        }),
{
    reveal(AppView::event_step);
    reveal(AppView::key_step);
    reveal(AppView::port_list_key);
    let d = AppView { dirty: true, ..v };
    let s = AppView { selection: None, ..d };
    assert(v.event_step(TermEvent::Key { event, press: true }, tracker) == d.key_step(event));
    assert(event.code != KeyCode::Char('a'));
    assert(d.key_step(event) == s.menu_key(event.code));
    assert(s.menu_key(event.code) == s.port_list_key(event.code));
    if !(event.code == KeyCode::Up || event.code == KeyCode::Char('k')) {
        assert(s.port_list_key(event.code).0 == s.port_list_down());
    }
}

/// A left click on the output of the capture screen starts a selection at
/// the clicked cell, in content coordinates: the column from the area's left
/// edge, the visual line from the first line shown. How many chained clicks
/// the tracker counts decides what is selected: two select a word, three a
/// line, any other count characters. The click is remembered, a drag starts,
/// a pending copy is dropped and the screen is redrawn.
pub proof fn law_click_starts_selection(v: AppView, ev: MouseEvent, tracker: ClickTracker)
    requires
        v.app_state == AppState::Capturing,
        ev.kind == MouseEventKind::Down(MouseButton::Left),
        v.last_output_area.width > 0,
        v.last_output_area.height > 0,
        v.last_output_area.x <= ev.column < v.last_output_area.x + v.last_output_area.width,
        v.last_output_area.y <= ev.row < v.last_output_area.y + v.last_output_area.height,
    ensures
        ({
            let r = v.event_step(TermEvent::Mouse(ev), tracker);
            let w = r.0;
            let sel = w.selection.unwrap();
            let line = v.last_scroll + (ev.row - v.last_output_area.y);
            &&& r.1 is None
            &&& w.selection is Some
            &&& sel.anchor == sel.cursor
            &&& sel.anchor.0 == ev.column - v.last_output_area.x
            &&& sel.anchor.1 == if line <= u16::MAX {
                line
            } else {
                u16::MAX as int
            }
            &&& tracker.count == 2 ==> sel.mode == SelectionMode::Word
            &&& tracker.count == 3 ==> sel.mode == SelectionMode::Line
            &&& tracker.count != 2 && tracker.count != 3 ==> sel.mode == SelectionMode::Char
            &&& w.is_dragging
            &&& !w.copy_pending
            &&& w.dirty
            &&& w.click_tracker == tracker
        }),
{
    reveal(AppView::event_step);
    reveal(AppView::mouse_step);
}

/// A click chains onto the previous one when it falls on the same cell less
/// than `DOUBLE_CLICK_MS` after it: the count then goes 1, 2, 3 and back to
/// 1. Any other click counts 1.
pub proof fn law_click_chain(t: ClickTracker, pos: (u16, u16), elapsed: Option<u128>)
    ensures
        (elapsed is Some && elapsed.unwrap() < DOUBLE_CLICK_MS && pos == t.last_pos) ==> {
            &&& t.count == 1 ==> t.next_count(pos, elapsed) == 2
            &&& t.count == 2 ==> t.next_count(pos, elapsed) == 3
            &&& t.count == 3 ==> t.next_count(pos, elapsed) == 1
        },
        elapsed is None ==> t.next_count(pos, elapsed) == 1,
        (elapsed is Some && elapsed.unwrap() >= DOUBLE_CLICK_MS) ==> t.next_count(pos, elapsed) == 1,
        pos != t.last_pos ==> t.next_count(pos, elapsed) == 1,
{
}

/// Scrolling up while paused moves the view up from where it is, by `n` rows
/// or to the top; while following the output it pauses, `n` rows above the
/// bottom. Scrolling down while paused moves the view down by `n` rows and
/// follows the output again once it reaches the bottom; while following it
/// changes nothing. Nothing else changes.
pub proof fn law_scrolling(v: AppView, n: u16)
    ensures
        ({
            let up = v.scrolled_up(n);
            let bottom = if v.last_total_visual_lines > v.last_output_height {
                v.last_total_visual_lines - v.last_output_height
            } else {
                0
            };
            &&& !v.auto_scroll ==> up == AppView {
                scroll_top: if v.scroll_top >= n {
                    (v.scroll_top - n) as u16
                } else {
                    0
                },
                ..v
            }
            &&& v.auto_scroll ==> up == AppView {
                scroll_top: if bottom >= n {
                    (bottom - n) as u16
                } else {
                    0
                },
                auto_scroll: false,
                ..v
            }
        }),
        ({
            let down = v.scrolled_down(n);
            let bottom = if v.last_total_visual_lines > v.last_output_height {
                v.last_total_visual_lines - v.last_output_height
            } else {
                0
            };
            let top = if v.scroll_top + n <= u16::MAX {
                v.scroll_top + n
            } else {
                u16::MAX as int
            };
            &&& v.auto_scroll ==> down == v
            &&& !v.auto_scroll ==> down == AppView {
                scroll_top: top as u16,
                auto_scroll: top >= bottom,
                ..v
            }
        }),
{
}

/// The wheel on the capture screen scrolls three rows, up or down, as
/// `law_scrolling` says; the screen is redrawn.
pub proof fn law_wheel_scrolls(v: AppView, ev: MouseEvent, tracker: ClickTracker)
    requires
        v.app_state == AppState::Capturing,
        ev.kind == MouseEventKind::ScrollUp || ev.kind == MouseEventKind::ScrollDown,
    ensures
        ({
            let r = v.event_step(TermEvent::Mouse(ev), tracker);
            let d = AppView { dirty: true, ..v };
            &&& r.1 is None
            &&& ev.kind == MouseEventKind::ScrollUp ==> r.0 == d.scrolled_up(3)
            &&& ev.kind == MouseEventKind::ScrollDown ==> r.0 == d.scrolled_down(3)
        }),
{
    reveal(AppView::event_step);
    reveal(AppView::mouse_step);
}

/// Settling the scroll position for a viewport of `height` rows, with `total`
/// visual lines of output and `bottom` the last position that fills the
/// viewport (`total - height`, or 0): a session following the output is shown
/// at the bottom and keeps its paused position; a paused one stays where it
/// was, brought back to `bottom` only when it lies below it.
pub proof fn law_settled_scroll(v: AppView, height: u16)
    ensures
        ({
            let w = v.settled(height);
            let total = v.visual_lines();
            let bottom = if total > height {
                total - height
            } else {
                0
            };
            &&& w.last_total_visual_lines == total
            &&& v.auto_scroll ==> w.last_scroll == bottom && w.scroll_top == v.scroll_top
            &&& !v.auto_scroll ==> w.last_scroll == if v.scroll_top <= bottom {
                v.scroll_top as int
            } else {
                bottom
            }
            &&& !v.auto_scroll ==> w.scroll_top == w.last_scroll
            &&& !v.auto_scroll && v.scroll_top <= bottom ==> w.scroll_top == v.scroll_top
            &&& w == AppView {
                scroll_top: w.scroll_top,
                last_total_visual_lines: w.last_total_visual_lines,
                last_scroll: w.last_scroll,
                ..v
            }
        }),
{
}

/// Laying out the output for drawing in `area`, when no port error is shown:
/// the scroll position shown is the bottom when following the output, and
/// otherwise the paused position, brought back to the bottom only when it
/// lies below it; the area is remembered.
pub proof fn law_prepared_scroll(v: AppView, area: crate::app::Area)
    requires
        v.port_error is None,
    ensures
        ({
            let w = v.prepared(area);
            let total = w.last_total_visual_lines;
            let bottom = if total > area.height {
                total - area.height
            } else {
                0
            };
            &&& w.last_output_area == area
            &&& w.last_output_height == area.height
            &&& w.auto_scroll == v.auto_scroll
            &&& v.auto_scroll ==> w.last_scroll == bottom
            &&& !v.auto_scroll ==> w.last_scroll == if v.scroll_top <= bottom {
                v.scroll_top as int
            } else {
                bottom
            }
            &&& !v.auto_scroll ==> w.scroll_top == w.last_scroll
        }),
{
    reveal(AppView::prepared);
    reveal(AppView::rewrapped);
}

/// Stepping a setting on the menu goes through its options in their order,
/// wrapping around, and backward in reverse: data bits 5, 6, 7, 8; parity
/// none, odd, even; stop bits 1, 2; flow control none, hardware, software;
/// line ending CR LF, CR, LF, none. Echo and input mode toggle. Only the
/// stepped setting changes, except that a new input mode clears the input.
pub proof fn law_settings_cycle_in_order(v: AppView, forward: bool)
    ensures
        v.serial_config.data_bits == DataBits::Five ==> v.cycled(MenuAction::CycleDataBits, true).serial_config.data_bits == DataBits::Six
            && v.cycled(MenuAction::CycleDataBits, false).serial_config.data_bits == DataBits::Eight,
        v.serial_config.data_bits == DataBits::Six ==> v.cycled(MenuAction::CycleDataBits, true).serial_config.data_bits == DataBits::Seven
            && v.cycled(MenuAction::CycleDataBits, false).serial_config.data_bits == DataBits::Five,
        v.serial_config.data_bits == DataBits::Seven ==> v.cycled(MenuAction::CycleDataBits, true).serial_config.data_bits == DataBits::Eight
            && v.cycled(MenuAction::CycleDataBits, false).serial_config.data_bits == DataBits::Six,
        v.serial_config.data_bits == DataBits::Eight ==> v.cycled(MenuAction::CycleDataBits, true).serial_config.data_bits == DataBits::Five
            && v.cycled(MenuAction::CycleDataBits, false).serial_config.data_bits == DataBits::Seven,
        v.serial_config.parity == Parity::NoParity ==> v.cycled(MenuAction::CycleParity, true).serial_config.parity == Parity::Odd
            && v.cycled(MenuAction::CycleParity, false).serial_config.parity == Parity::Even,
        v.serial_config.parity == Parity::Odd ==> v.cycled(MenuAction::CycleParity, true).serial_config.parity == Parity::Even
            && v.cycled(MenuAction::CycleParity, false).serial_config.parity == Parity::NoParity,
        v.serial_config.parity == Parity::Even ==> v.cycled(MenuAction::CycleParity, true).serial_config.parity == Parity::NoParity
            && v.cycled(MenuAction::CycleParity, false).serial_config.parity == Parity::Odd,
        v.serial_config.stop_bits == StopBits::One ==> v.cycled(MenuAction::CycleStopBits, true).serial_config.stop_bits == StopBits::Two
            && v.cycled(MenuAction::CycleStopBits, false).serial_config.stop_bits == StopBits::Two,
        v.serial_config.stop_bits == StopBits::Two ==> v.cycled(MenuAction::CycleStopBits, true).serial_config.stop_bits == StopBits::One
            && v.cycled(MenuAction::CycleStopBits, false).serial_config.stop_bits == StopBits::One,
        v.serial_config.flow_control == FlowControl::NoFlow ==> v.cycled(MenuAction::CycleFlowControl, true).serial_config.flow_control == FlowControl::Hardware
            && v.cycled(MenuAction::CycleFlowControl, false).serial_config.flow_control == FlowControl::Software,
        v.serial_config.flow_control == FlowControl::Hardware ==> v.cycled(MenuAction::CycleFlowControl, true).serial_config.flow_control == FlowControl::Software
            && v.cycled(MenuAction::CycleFlowControl, false).serial_config.flow_control == FlowControl::NoFlow,
        v.serial_config.flow_control == FlowControl::Software ==> v.cycled(MenuAction::CycleFlowControl, true).serial_config.flow_control == FlowControl::NoFlow
            && v.cycled(MenuAction::CycleFlowControl, false).serial_config.flow_control == FlowControl::Hardware,
        v.line_ending == LineEnding::CrLf ==> v.cycled(MenuAction::CycleLineEnding, true).line_ending == LineEnding::Cr
            && v.cycled(MenuAction::CycleLineEnding, false).line_ending == LineEnding::NoEnding,
        v.line_ending == LineEnding::Cr ==> v.cycled(MenuAction::CycleLineEnding, true).line_ending == LineEnding::Lf
            && v.cycled(MenuAction::CycleLineEnding, false).line_ending == LineEnding::CrLf,
        v.line_ending == LineEnding::Lf ==> v.cycled(MenuAction::CycleLineEnding, true).line_ending == LineEnding::NoEnding
            && v.cycled(MenuAction::CycleLineEnding, false).line_ending == LineEnding::Cr,
        v.line_ending == LineEnding::NoEnding ==> v.cycled(MenuAction::CycleLineEnding, true).line_ending == LineEnding::CrLf
            && v.cycled(MenuAction::CycleLineEnding, false).line_ending == LineEnding::Lf,
        v.cycled(MenuAction::CycleLocalEcho, forward) == (AppView { local_echo: !v.local_echo, ..v }),
        v.cycled(MenuAction::CycleInputMode, forward).input_mode != v.input_mode,
        v.cycled(MenuAction::CycleInputMode, forward) == (AppView {
            input_mode: v.cycled(MenuAction::CycleInputMode, forward).input_mode,
            input_buffer: seq![],
            ..v
        }),
        v.cycled(MenuAction::CycleLineEnding, forward) == (AppView {
            line_ending: v.cycled(MenuAction::CycleLineEnding, forward).line_ending,
            ..v
        }),
        v.cycled(MenuAction::CycleDataBits, forward) == (AppView {
            serial_config: SerialConfig {
                data_bits: v.cycled(MenuAction::CycleDataBits, forward).serial_config.data_bits,
                ..v.serial_config
            },
            ..v
        }),
        v.cycled(MenuAction::CycleParity, forward) == (AppView {
            serial_config: SerialConfig {
                parity: v.cycled(MenuAction::CycleParity, forward).serial_config.parity,
                ..v.serial_config
            },
            ..v
        }),
        v.cycled(MenuAction::CycleStopBits, forward) == (AppView {
            serial_config: SerialConfig {
                stop_bits: v.cycled(MenuAction::CycleStopBits, forward).serial_config.stop_bits,
                ..v.serial_config
            },
            ..v
        }),
        v.cycled(MenuAction::CycleFlowControl, forward) == (AppView {
            serial_config: SerialConfig {
                flow_control: v.cycled(MenuAction::CycleFlowControl, forward).serial_config.flow_control,
                ..v.serial_config
            },
            ..v
        }),
{
    reveal(AppView::cycled);
}

/// The command line sets the configuration: the baud rate as given; 5, 6, 7
/// or 8 data bits as given and 8 for any other number; two stop bits for 2
/// and one otherwise; odd parity for "odd", even for "even" and none
/// otherwise; hardware flow control for "hardware", software for "software"
/// and none otherwise; and a port named there is the one to open.
pub proof fn law_command_line_settings(v: AppView)
    ensures
        ({
            let c = v.started().0.serial_config;
            let a = v.args;
            &&& c.baud == a.baud
            &&& (c.data_bits == DataBits::Five <==> a.data_bits == 5)
            &&& (c.data_bits == DataBits::Six <==> a.data_bits == 6)
            &&& (c.data_bits == DataBits::Seven <==> a.data_bits == 7)
            &&& (c.data_bits == DataBits::Eight <==> !(5 <= a.data_bits <= 7))
            &&& (c.stop_bits == StopBits::Two <==> a.stop_bits == 2)
            &&& (c.parity == Parity::Odd <==> a.parity@ == "odd"@)
            &&& (c.parity == Parity::Even <==> a.parity@ == "even"@)
            &&& (c.parity == Parity::NoParity <==> (a.parity@ != "odd"@ && a.parity@ != "even"@))
            &&& (c.flow_control == FlowControl::Hardware <==> a.flow_control@ == "hardware"@)
            &&& (c.flow_control == FlowControl::Software <==> a.flow_control@ == "software"@)
            &&& (c.flow_control == FlowControl::NoFlow <==> (a.flow_control@ != "hardware"@
                && a.flow_control@ != "software"@))
            &&& a.port is Some ==> c.port_info is Some && c.port_info.unwrap().port_name
                == a.port.unwrap()
        }),
{
    reveal_strlit("odd");
    reveal_strlit("even");
    reveal_strlit("hardware");
    reveal_strlit("software");
    assert("odd"@[0] != "even"@[0]);
    assert("hardware"@[0] != "software"@[0]);
}

proof fn lemma_nearest_below(p: int)
    requires
        0 <= p < MENU_LEN,
    ensures
        match entry_below(p) {
            Some(q) => p < q < MENU_LEN && menu_selectable(q) && forall|k: int|
                p < k < q ==> !#[trigger] menu_selectable(k),
            None => forall|k: int| p < k < MENU_LEN ==> !#[trigger] menu_selectable(k),
        },
    decreases MENU_LEN - p,
{
    if p + 1 < MENU_LEN && !menu_selectable(p + 1) {
        lemma_nearest_below(p + 1);
    }
}

proof fn lemma_nearest_above(p: int)
    requires
        0 <= p < MENU_LEN,
    ensures
        match entry_above(p) {
            Some(q) => 0 <= q < p && menu_selectable(q) && forall|k: int|
                q < k < p ==> !#[trigger] menu_selectable(k),
            None => forall|k: int| 0 <= k < p ==> !#[trigger] menu_selectable(k),
        },
    decreases p,
{
    if p > 0 && !menu_selectable(p - 1) {
        lemma_nearest_above(p - 1);
    }
}

/// Down on the menu moves the cursor to the nearest selectable entry below
/// it, and Up to the nearest above; with none there the cursor stays. The
/// selectable entries are those that are not section headings.
pub proof fn law_menu_cursor_steps(v: AppView)
    requires
        v.menu_cursor < MENU_LEN,
    ensures
        ({
            let c = v.menu_cursor as int;
            let d = v.moved_down().menu_cursor as int;
            &&& v.moved_down() == AppView { menu_cursor: d as usize, ..v }
            &&& d == c ==> forall|k: int| c < k < MENU_LEN ==> !#[trigger] menu_selectable(k)
            &&& d != c ==> c < d < MENU_LEN && menu_selectable(d)
            &&& forall|k: int| c < k < d ==> !#[trigger] menu_selectable(k)
        }),
        ({
            let c = v.menu_cursor as int;
            let u = v.moved_up().menu_cursor as int;
            &&& v.moved_up() == AppView { menu_cursor: u as usize, ..v }
            &&& u == c ==> forall|k: int| 0 <= k < c ==> !#[trigger] menu_selectable(k)
            &&& u != c ==> 0 <= u < c && menu_selectable(u)
            &&& forall|k: int| u < k < c ==> !#[trigger] menu_selectable(k)
        }),
        forall|i: int|
            0 <= i < MENU_LEN ==> (menu_selectable(i) <==> !(#[trigger] menu_items(v)[i] is SectionHeader)),
{
    lemma_nearest_below(v.menu_cursor as int);
    lemma_nearest_above(v.menu_cursor as int);
    assert(menu_items(v).len() == MENU_LEN);
}

/// Stepping the baud rate goes through 300, 1200, 2400, 4800, 9600, 19200,
/// 38400, 57600, 115200, 230400, 460800 and 921600 in that order, wrapping
/// around, and backward in reverse.
pub proof fn law_baud_order()
    ensures
        baud_rates() == seq![
            300u32,
            1200,
            2400,
            4800,
            9600,
            19200,
            38400,
            57600,
            115200,
            230400,
            460800,
            921600,
        ],
        forall|i: int|
            0 <= i < 12 ==> cycled_baud(#[trigger] baud_rates()[i], true) == baud_rates()[(i + 1)
                % 12] && cycled_baud(baud_rates()[i], false) == baud_rates()[(i + 11) % 12],
{
    assert forall|i: int| 0 <= i < 12 implies cycled_baud(#[trigger] baud_rates()[i], true)
        == baud_rates()[(i + 1) % 12] && cycled_baud(baud_rates()[i], false) == baud_rates()[(i
        + 11) % 12] by {
        lemma_baud_step(i);
    }
}

proof fn lemma_baud_step(i: int)
    requires
        0 <= i < 12,
    ensures
        cycled_baud(baud_rates()[i], true) == baud_rates()[(i + 1) % 12],
        cycled_baud(baud_rates()[i], false) == baud_rates()[(i + 11) % 12],
{
    lemma_baud_positions(i);
    assert(ring_step(i, 12, true) == (i + 1) % 12);
    assert(ring_step(i, 12, false) == (i + 11) % 12);
}

/// A baud rate not in the menu's list steps as 115200 does: forward to
/// 230400, backward to 57600.
pub proof fn law_baud_unlisted(b: u32)
    requires
        !baud_rates().contains(b),
    ensures
        cycled_baud(b, true) == 230400,
        cycled_baud(b, false) == 57600,
{
    lemma_baud_absent(b, 0);
    assert(ring_step(8, 12, true) == 9);
    assert(ring_step(8, 12, false) == 7);
}

proof fn lemma_baud_absent(b: u32, i: int)
    requires
        !baud_rates().contains(b),
        0 <= i <= 12,
    ensures
        baud_position_from(b, i) == 8,
    decreases 12 - i,
{
    if i < 12 {
        assert(baud_rates()[i] != b);
        lemma_baud_absent(b, i + 1);
    }
}

/// Keys on the capture screen: PageUp and PageDown scroll by a page, one row
/// less than the output shows and at least one; Home pauses at the top; End
/// follows the output again; a typed character is added to the input (in
/// HEX mode only hexadecimal digits, in upper case); Backspace removes the
/// last one. The screen is redrawn and any selection dropped.
pub proof fn law_capture_keys(v: AppView, event: KeyEvent, tracker: ClickTracker)
    requires
        v.app_state == AppState::Capturing,
        !(event.code == KeyCode::Char('a') && event.ctrl),
    ensures
        ({
            let r = v.event_step(TermEvent::Key { event, press: true }, tracker);
            let w = r.0;
            let s = AppView { dirty: true, selection: None, ..v };
            let page: u16 = if v.last_output_height >= 2 {
                (v.last_output_height - 1) as u16
            } else {
                1
            };
            &&& event.code == KeyCode::PageUp ==> w == s.scrolled_up(page) && r.1 is None
            &&& event.code == KeyCode::PageDown ==> w == s.scrolled_down(page) && r.1 is None
            &&& event.code == KeyCode::Home ==> w == (AppView {
                auto_scroll: false,
                scroll_top: 0,
                ..s
            }) && r.1 is None
            &&& event.code == KeyCode::End ==> w == (AppView { auto_scroll: true, ..s }) && r.1 is None
            &&& event.code == KeyCode::Backspace && v.input_buffer.len() > 0 ==> w == (AppView {
                input_buffer: v.input_buffer.drop_last(),
                ..s
            })
            &&& event.code matches KeyCode::Char(c) ==> {
                &&& v.input_mode == InputMode::Ascii ==> w == (AppView {
                    input_buffer: v.input_buffer.push(c),
                    ..s
                })
                &&& (v.input_mode == InputMode::Hex && (('0' <= c <= '9') || ('A' <= c <= 'F')))
                    ==> w == (AppView { input_buffer: v.input_buffer.push(c), ..s })
                &&& (v.input_mode == InputMode::Hex && 'a' <= c <= 'f') ==> w == (AppView {
                    input_buffer: v.input_buffer.push(((c as u32) - 32) as char),
                    ..s
                })
                &&& (v.input_mode == InputMode::Hex && !(('0' <= c <= '9') || ('A' <= c <= 'F')
                    || ('a' <= c <= 'f'))) ==> w == s
            }
        }),
{
    reveal(AppView::event_step);
    reveal(AppView::key_step);
    reveal(AppView::capture_key);
}

/// Dragging with the left button while a selection is being made moves its
/// end to the cell under the pointer, kept inside the output area, in
/// content coordinates; its start and what it selects stay. Releasing the
/// button ends the drag and asks for the selection to be copied.
pub proof fn law_drag_and_release(v: AppView, ev: MouseEvent, tracker: ClickTracker)
    requires
        v.is_dragging,
        v.selection is Some,
        v.last_output_area.width > 0,
        v.last_output_area.height > 0,
        v.last_output_area.x + v.last_output_area.width <= u16::MAX,
        v.last_output_area.y + v.last_output_area.height <= u16::MAX,
    ensures
        ({
            let w = v.event_step(TermEvent::Mouse(ev), tracker).0;
            let a = v.last_output_area;
            let x = if ev.column < a.x {
                a.x as int
            } else if ev.column >= a.x + a.width {
                a.x + a.width - 1
            } else {
                ev.column as int
            };
            let y = if ev.row < a.y {
                a.y as int
            } else if ev.row >= a.y + a.height {
                a.y + a.height - 1
            } else {
                ev.row as int
            };
            let line = v.last_scroll + (y - a.y);
            &&& ev.kind == MouseEventKind::Drag(MouseButton::Left) ==> {
                &&& w.selection is Some
                &&& w.selection.unwrap().anchor == v.selection.unwrap().anchor
                &&& w.selection.unwrap().mode == v.selection.unwrap().mode
                &&& w.selection.unwrap().cursor.0 == x - a.x
                &&& w.selection.unwrap().cursor.1 == if line <= u16::MAX {
                    line
                } else {
                    u16::MAX as int
                }
                &&& w.is_dragging
            }
            &&& ev.kind == MouseEventKind::Up(MouseButton::Left) ==> w == (AppView {
                is_dragging: false,
                copy_pending: true,
                dirty: true,
                ..v
            })
        }),
{
    reveal(AppView::event_step);
    reveal(AppView::mouse_step);
}

/// Enter on the capture screen with something typed: in ASCII mode the text
/// goes out as UTF-8 followed by the line ending (CR LF, CR, LF or nothing),
/// when a port is open; in HEX mode with an even count of digits, each pair
/// goes out as one byte. The input is then cleared and the view follows the
/// output again. Nothing typed sends nothing.
pub proof fn law_send_line(v: AppView)
    ensures
        v.input_buffer.len() == 0 ==> v.sent() == (v, None::<crate::session::Action>),
        ({
            let r = v.sent();
            let b = v.input_buffer;
            let t = encode_utf8(b);
            &&& (v.input_buffer.len() > 0 && v.input_mode == InputMode::Ascii) ==> {
                &&& r.0.input_buffer.len() == 0
                &&& r.0.auto_scroll
                &&& !v.handle_open ==> r.1 is None
                &&& (v.handle_open && v.line_ending == LineEnding::CrLf) ==> r.1 == Some(
                    crate::session::Action::Send(t + seq![13u8, 10u8]),
                )
                &&& (v.handle_open && v.line_ending == LineEnding::Cr) ==> r.1 == Some(
                    crate::session::Action::Send(t + seq![13u8]),
                )
                &&& (v.handle_open && v.line_ending == LineEnding::Lf) ==> r.1 == Some(
                    crate::session::Action::Send(t + seq![10u8]),
                )
                &&& (v.handle_open && v.line_ending == LineEnding::NoEnding) ==> r.1 == Some(
                    crate::session::Action::Send(t),
                )
            }
            &&& (v.input_buffer.len() > 0 && v.input_mode == InputMode::Hex && hex_digits(b).len()
                % 2 == 0) ==> {
                &&& r.0.input_buffer.len() == 0
                &&& r.0.auto_scroll
                &&& !v.handle_open ==> r.1 is None
                &&& v.handle_open ==> r.1 == Some(crate::session::Action::Send(hex_pairs(hex_digits(b))))
            }
            &&& (v.input_buffer.len() > 0 && v.input_mode == InputMode::Hex && hex_digits(b).len()
                % 2 == 1) ==> r.1 is None && r.0.input_buffer == b
        }),
{
    reveal(AppView::sent);
    assert(seq![13u8, 10u8] =~= LineEnding::CrLf.spec_bytes());
    assert(encode_utf8(v.input_buffer) + seq![] =~= encode_utf8(v.input_buffer));
    reveal(AppView::appended);
}

/// Pairs of hexadecimal digits spell bytes, high digit first: `0`-`9` count
/// 0 to 9 and `A`-`F` (or `a`-`f`) 10 to 15; a digit left over is dropped.
pub proof fn law_hex_pairs(h: Seq<char>)
    requires
        forall|i: int| 0 <= i < h.len() ==> is_hex_digit(#[trigger] h[i]),
    ensures
        hex_pairs(h).len() == h.len() / 2,
        forall|i: int|
            0 <= i < h.len() / 2 ==> #[trigger] hex_pairs(h)[i] == digit_worth(h[2 * i]) * 16
                + digit_worth(h[2 * i + 1]),
    decreases h.len(),
{
    if h.len() >= 2 {
        let t = h.skip(2);
        law_hex_pairs(t);
        lemma_digit_worth(h[0]);
        lemma_digit_worth(h[1]);
        assert forall|i: int| 0 <= i < h.len() / 2 implies #[trigger] hex_pairs(h)[i]
            == digit_worth(h[2 * i]) * 16 + digit_worth(h[2 * i + 1]) by {
            if i > 0 {
                assert(t[2 * (i - 1)] == h[2 * i]);
                assert(t[2 * (i - 1) + 1] == h[2 * i + 1]);
                assert(hex_pairs(h)[i] == hex_pairs(t)[i - 1]);
            }
        }
    }
}

/// What a hexadecimal digit is worth.
pub open spec fn digit_worth(c: char) -> int {
    if '0' <= c <= '9' {
        c as int - 48
    } else if 'A' <= c <= 'F' {
        c as int - 55
    } else {
        c as int - 87
    }
}

proof fn lemma_digit_worth(c: char)
    requires
        is_hex_digit(c),
    ensures
        crate::text::hex_value(c) == digit_worth(c),
        0 <= digit_worth(c) < 16,
{
}

/// The start of the word under column `col` of a row: no later than `col`,
/// every cell from it up to `col` holds a word character, and the cell
/// before it, if any, does not.
pub proof fn law_word_start(g: Grid, col: int, row: int)
    requires
        col >= 0,
    ensures
        0 <= word_start(g, col, row) <= col,
        forall|k: int| word_start(g, col, row) <= k < col ==> #[trigger] g.word_at(k, row),
        word_start(g, col, row) == 0 || !g.word_at(word_start(g, col, row) - 1, row),
    decreases col,
{
    if col > 0 && g.word_at(col - 1, row) {
        law_word_start(g, col - 1, row);
    }
}

/// The end of the word from column `col` of a row, looking no further than
/// `max_col`: no earlier than `col`, every cell after `col` up to it holds a
/// word character, and it is `max_col` or the cell after it does not.
pub proof fn law_word_end(g: Grid, col: int, row: int, max_col: int)
    requires
        col <= max_col,
    ensures
        col <= word_end(g, col, row, max_col) <= max_col,
        forall|k: int| col < k <= word_end(g, col, row, max_col) ==> #[trigger] g.word_at(k, row),
        word_end(g, col, row, max_col) == max_col || !g.word_at(
            word_end(g, col, row, max_col) + 1,
            row,
        ),
    decreases max_col - col,
{
    if col < max_col && g.word_at(col + 1, row) {
        law_word_end(g, col + 1, row, max_col);
    }
}

/// Appending text to the output loses none of it: the complete lines it
/// ends go to the stored lines, in order, each with its escape sequences
/// removed and its height at the cached width; what follows the last line
/// break is kept pending; those lines, each with its break, then what is
/// pending, are the old pending text followed by the new text. The screen is
/// redrawn; nothing else changes.
pub proof fn law_append_keeps_text(v: AppView, s: Seq<char>)
    ensures
        ({
            let w = v.appended(s);
            let raws = split_lines(v.output_pending + s).0;
            let n = v.output_lines.len();
            &&& joined_lines(raws) + w.output_pending == v.output_pending + s
            &&& !w.output_pending.contains('\n')
            &&& forall|k: int| 0 <= k < raws.len() ==> !(#[trigger] raws[k]).contains('\n')
            &&& w.output_lines.len() == n + raws.len()
            &&& w.output_lines.take(n as int) == v.output_lines
            &&& forall|k: int|
                0 <= k < raws.len() ==> (#[trigger] w.output_lines[n + k]).text == ansi_stripped(
                    raws[k],
                ) && w.output_lines[n + k].height == line_height(
                    ansi_stripped(raws[k]),
                    v.cached_width,
                )
            &&& w == AppView {
                output_lines: w.output_lines,
                output_pending: w.output_pending,
                dirty: true,
                ..v
            }
        }),
{
    reveal(AppView::appended);
    law_split_lines_reassemble(v.output_pending + s);
    let w = v.appended(s);
    assert(w.output_lines.take(v.output_lines.len() as int) =~= v.output_lines);
}

/// `x` moved up by `d` rows, stopping at 0.
pub open spec fn lowered(x: u16, d: int) -> int {
    if x >= d {
        x - d
    } else {
        0
    }
}

/// Dropping the oldest lines beyond the limit moves what points into the
/// output up by the rows those lines took (at most `u16::MAX`): the paused
/// scroll position, the known row count and both ends of a selection, none
/// going below 0. A session following the output keeps its scroll position.
/// Within the limit nothing changes.
pub proof fn law_truncation_shifts_positions(v: AppView)
    ensures
        v.output_lines.len() <= MAX_OUTPUT_LINES ==> v.truncated() == v,
        ({
            let w = v.truncated();
            let excess = v.output_lines.len() - MAX_OUTPUT_LINES;
            let d = sum_heights(v.output_lines.take(excess));
            let dropped: int = if d > u16::MAX {
                u16::MAX as int
            } else {
                d as int
            };
            v.output_lines.len() > MAX_OUTPUT_LINES ==> {
                &&& !v.auto_scroll ==> w.scroll_top == lowered(v.scroll_top, dropped)
                &&& v.auto_scroll ==> w.scroll_top == v.scroll_top
                &&& w.last_total_visual_lines == lowered(v.last_total_visual_lines, dropped)
                &&& v.selection is None ==> w.selection is None
                &&& v.selection is Some ==> {
                    let a = v.selection.unwrap();
                    let b = w.selection.unwrap();
                    &&& w.selection is Some
                    &&& b.mode == a.mode
                    &&& b.anchor.0 == a.anchor.0
                    &&& b.cursor.0 == a.cursor.0
                    &&& b.anchor.1 == lowered(a.anchor.1, dropped)
                    &&& b.cursor.1 == lowered(a.cursor.1, dropped)
                }
            }
        }),
{
    reveal(AppView::truncated);
}

/// The names of some ports, in order.
pub open spec fn port_names(ports: Seq<crate::serial::PortInfo>) -> Seq<Seq<char>> {
    ports.map_values(|p: crate::serial::PortInfo| p.port_name@)
}

/// A scan of the serial ports: the ports found replace the list, and the
/// screen is redrawn when their names, in order, differ from those listed
/// before. A failed scan empties the list, records the error, and redraws
/// when the list was not empty. Nothing else changes.
pub proof fn law_port_scan(v: AppView, result: Result<Seq<crate::serial::PortInfo>, String>)
    ensures
        result matches Ok(ports) ==> v.scanned(result) == (AppView {
            available_ports: ports,
            dirty: v.dirty || port_names(ports) != port_names(v.available_ports),
            ..v
        }),
        result matches Err(e) ==> v.scanned(result) == (AppView {
            available_ports: seq![],
            port_error: Some(e),
            dirty: v.dirty || v.available_ports.len() > 0,
            ..v
        }),
{
    match result {
        Ok(ports) => {
            let a = port_names(ports);
            let b = port_names(v.available_ports);
            if a == b {
                assert(ports.len() == v.available_ports.len());
                assert forall|i: int| 0 <= i < ports.len() && i < v.available_ports.len() implies
                    #[trigger] ports[i].port_name@ == v.available_ports[i].port_name@ by {
                    assert(a[i] == b[i]);
                }
            } else if ports.len() == v.available_ports.len() {
                assert(!(a =~= b));
                let i = choose|i: int| 0 <= i < a.len() && a[i] != b[i];
                assert(ports[i].port_name@ != v.available_ports[i].port_name@);
            }
        },
        Err(e) => {},
    }
}

/// Connecting: on success the session holds the port, is connected, clears
/// any port error and says `[Connected]` in the output; on failure it is
/// disconnected, records the error and is redrawn. Disconnecting closes the
/// port (asking for it to be closed only when one is open), is disconnected
/// and says `[Disconnected]`. Quitting closes the port the same way and ends
/// the session.
pub proof fn law_connection_outcomes(v: AppView, e: String)
    ensures
        v.connected(Ok(())) == (AppView {
            handle_open: true,
            connection_status: crate::app::ConnectionStatus::Connected,
            port_error: None,
            ..v
        }).appended("[Connected]\n"@),
        v.connected(Err(e)) == (AppView {
            connection_status: crate::app::ConnectionStatus::Disconnected,
            port_error: Some(e),
            dirty: true,
            ..v
        }),
        v.disconnected().0 == (AppView {
            handle_open: false,
            connection_status: crate::app::ConnectionStatus::Disconnected,
            ..v
        }).appended("[Disconnected]\n"@),
        v.handle_open ==> v.disconnected().1 == Some(crate::session::Action::CloseHandle),
        !v.handle_open ==> v.disconnected().1 is None,
        v.exited().0 == (AppView { handle_open: false, exit: true, ..v }),
        v.handle_open ==> v.exited().1 == Some(crate::session::Action::CloseHandle),
        !v.handle_open ==> v.exited().1 is None,
        v.connecting() == (AppView { handle_open: false, ..v }, Some(crate::session::Action::Connect)),
{
    reveal(AppView::connected);
    reveal(AppView::disconnected);
    reveal(AppView::exited);
}

/// What a selection covers, in an area with cells: from the earlier of its
/// two ends to the later, in reading order (row first, then column). In
/// character mode those are its ends; in line mode whole rows, from column 0
/// to the last column; in word mode the same rows as its ends, reaching no
/// later than the earlier end and no earlier than the later one. An area
/// without cells covers nothing.
pub proof fn law_selection_cells(sel: crate::app::Selection, area: crate::app::Area, scroll: u16, g: Grid)
    ensures
        (area.width == 0 || area.height == 0) ==> crate::ui::selection_range(sel, area, scroll, g)
            is None,
        ({
            let r = crate::ui::selection_range(sel, area, scroll, g);
            let a = sel.anchor;
            let c = sel.cursor;
            let a_first = a.1 < c.1 || (a.1 == c.1 && a.0 <= c.0);
            let first = if a_first {
                a
            } else {
                c
            };
            let last = if a_first {
                c
            } else {
                a
            };
            (area.width > 0 && area.height > 0) ==> {
                &&& r is Some
                &&& sel.mode == SelectionMode::Char ==> r.unwrap() == (first, last)
                &&& sel.mode == SelectionMode::Line ==> r.unwrap() == ((0u16, first.1), (
                    (area.width - 1) as u16,
                    last.1,
                ))
                &&& sel.mode == SelectionMode::Word ==> {
                    &&& r.unwrap().0.1 == first.1
                    &&& r.unwrap().1.1 == last.1
                    &&& r.unwrap().0.0 <= first.0
                    &&& r.unwrap().1.0 >= last.0
                }
            }
        }),
{
    let a = sel.anchor;
    let c = sel.cursor;
    let a_first = a.1 < c.1 || (a.1 == c.1 && a.0 <= c.0);
    let first = if a_first {
        a
    } else {
        c
    };
    let last = if a_first {
        c
    } else {
        a
    };
    if area.width > 0 && area.height > 0 {
        match crate::ui::screen_row(first.1, scroll, area) {
            Some(y) => {
                if first.0 <= area.width - 1 {
                    law_word_start(g, first.0 as int, y - area.y);
                }
            },
            None => {},
        }
        match crate::ui::screen_row(last.1, scroll, area) {
            Some(y) => {
                if last.0 <= area.width - 1 {
                    law_word_end(g, last.0 as int, y - area.y, area.width - 1);
                }
            },
            None => {},
        }
    }
}

/// The number a string of decimal digits spells.
pub open spec fn digits_value(s: Seq<char>) -> int
    decreases s.len(),
{
    if s.len() == 0 {
        0
    } else {
        digits_value(s.drop_last()) * 10 + (s.last() as int - 48)
    }
}

/// Writing a number in decimal: only digits, no leading zero, and they spell
/// the number.
pub proof fn law_decimal_reads_back(n: nat)
    ensures
        crate::text::decimal(n).len() > 0,
        forall|i: int|
            0 <= i < crate::text::decimal(n).len() ==> '0' <= #[trigger] crate::text::decimal(n)[i]
                <= '9',
        n > 0 ==> crate::text::decimal(n)[0] != '0',
        digits_value(crate::text::decimal(n)) == n,
    decreases n,
{
    if n >= 10 {
        law_decimal_reads_back(n / 10);
        let d = crate::text::decimal(n / 10);
        let e = crate::text::decimal(n);
        assert(e == d.push(crate::text::digit_char(n % 10)));
        assert(e.drop_last() =~= d);
        assert(e[0] == d[0]);
        assert(crate::text::digit_char(n % 10) as int == 48 + n % 10);
        assert(n == (n / 10) * 10 + n % 10);
        assert(digits_value(e) == digits_value(d) * 10 + (n % 10));
        assert(digits_value(d) == n / 10);
        assert(digits_value(e) == n);
    } else {
        let e = crate::text::decimal(n);
        assert(crate::text::digit_char(n) as int == 48 + n);
        assert(e.drop_last() =~= Seq::<char>::empty());
        assert(digits_value(e.drop_last()) == 0);
        assert(digits_value(e) == n);
    }
}

/// A byte written in hexadecimal: two upper-case digits, high first, that
/// spell the byte.
pub proof fn law_hex_byte(b: u8)
    ensures
        crate::text::hex_byte(b).len() == 2,
        is_upper_hex(crate::text::hex_byte(b)[0]),
        is_upper_hex(crate::text::hex_byte(b)[1]),
        digit_worth(crate::text::hex_byte(b)[0]) * 16 + digit_worth(crate::text::hex_byte(b)[1])
            == b,
{
}

/// The letters of the configuration in short: 5 to 8 for the data bits; N,
/// O or E for no, odd or even parity; 1 or 2 for the stop bits.
pub proof fn law_shorthand_letters()
    ensures
        crate::ui::data_bits_digit(DataBits::Five) == '5',
        crate::ui::data_bits_digit(DataBits::Six) == '6',
        crate::ui::data_bits_digit(DataBits::Seven) == '7',
        crate::ui::data_bits_digit(DataBits::Eight) == '8',
        crate::ui::parity_letter(Parity::NoParity) == 'N',
        crate::ui::parity_letter(Parity::Odd) == 'O',
        crate::ui::parity_letter(Parity::Even) == 'E',
        crate::ui::stop_bits_digit(StopBits::One) == '1',
        crate::ui::stop_bits_digit(StopBits::Two) == '2',
{
}

/// Trimming the end of a text keeps a prefix of it that is empty or ends in
/// a character that is not white space, and removes only white space.
pub proof fn law_trimmed_end(s: Seq<char>)
    ensures
        ({
            let t = crate::text::trimmed_end(s);
            &&& t.len() <= s.len()
            &&& t == s.take(t.len() as int)
            &&& t.len() > 0 ==> !crate::text::is_white_space(t.last())
            &&& forall|i: int| t.len() <= i < s.len() ==> crate::text::is_white_space(#[trigger] s[i])
        }),
    decreases s.len(),
{
    if s.len() > 0 && crate::text::is_white_space(s.last()) {
        law_trimmed_end(s.drop_last());
        let t = crate::text::trimmed_end(s);
        assert forall|i: int| t.len() <= i < s.len() implies crate::text::is_white_space(#[trigger] s[i]) by {
            if i < s.len() - 1 {
                assert(s.drop_last()[i] == s[i]);
            }
        }
        assert(t =~= s.take(t.len() as int));
    } else {
        assert(s.take(s.len() as int) =~= s);
    }
}

/// The text copied from a selection on the screen: only the visual lines in
/// view count, from the selection's first row (or the first row in view) to
/// its last (or the last row in view); nothing when none of them is in view.
/// A selection within one line in view gives the cells from its start column
/// to its end column (each kept within the area), with trailing white space
/// removed and no line break.
pub proof fn law_selected_text(area: crate::app::Area, start: (u16, u16), end: (u16, u16), scroll: u16, g: Grid)
    requires
        area.width > 0,
        area.height > 0,
        scroll + area.height <= u16::MAX,
    ensures
        ({
            let rows = crate::ui::visible_rows(start, end, scroll, area);
            &&& rows.0 == if start.1 > scroll {
                start.1 as int
            } else {
                scroll as int
            }
            &&& rows.1 == if end.1 < scroll + area.height - 1 {
                end.1 as int
            } else {
                scroll + area.height - 1
            }
            &&& rows.0 > rows.1 ==> crate::ui::selected_text(area, start, end, scroll, g).len() == 0
        }),
        (start.1 == end.1 && scroll <= start.1 < scroll + area.height) ==> crate::ui::selected_text(
            area,
            start,
            end,
            scroll,
            g,
        ) == crate::text::trimmed_end(
            crate::ui::cells_text(
                g,
                start.1 - scroll,
                if start.0 < area.width - 1 {
                    start.0 as int
                } else {
                    area.width - 1
                },
                if end.0 < area.width - 1 {
                    end.0 as int
                } else {
                    area.width - 1
                },
            ),
        ),
{
    if start.1 == end.1 && scroll <= start.1 < scroll + area.height {
        let v = start.1 as int;
        let cols = crate::ui::row_columns(v, start, end, area);
        assert(crate::ui::rows_text(g, start, end, scroll, area, v, v - 1, v) == Seq::<char>::empty());
        assert(crate::ui::selected_text(area, start, end, scroll, g) =~= crate::text::trimmed_end(
            crate::ui::cells_text(g, v - scroll, cols.0 as int, cols.1 as int),
        ));
    }
}

/// The value a menu entry shows, for an entry that steps a setting.
pub open spec fn shown_value(v: AppView, i: int) -> Seq<char> {
    match menu_items(v)[i] {
        crate::app::MenuItemView::Cycle { value, .. } => value,
        _ => seq![],
    }
}

/// What a menu entry does, for an entry that is not a heading.
pub open spec fn entry_action(v: AppView, i: int) -> Option<MenuAction> {
    match menu_items(v)[i] {
        crate::app::MenuItemView::Cycle { action, .. } => Some(action),
        crate::app::MenuItemView::Action { action, .. } => Some(action),
        _ => None,
    }
}

/// The menu, from top to bottom: a heading, Select Port, Disconnect, a
/// heading, baud rate, data bits, parity, stop bits and flow control, a
/// heading, local echo, line ending and input mode, and Exit. Each setting
/// shows its current value: the baud rate in decimal, the data bits and stop
/// bits as digits, parity and flow control by name, echo as ON or OFF, the
/// line ending as CR+LF, CR, LF or None, the input mode as ASCII or HEX; the
/// port entry names the configured port, or a dash.
pub proof fn law_menu_layout(v: AppView)
    ensures
        menu_items(v).len() == MENU_LEN,
        entry_action(v, 0) is None,
        entry_action(v, 3) is None,
        entry_action(v, 9) is None,
        entry_action(v, 1) == Some(MenuAction::SelectPort),
        entry_action(v, 2) == Some(MenuAction::Disconnect),
        entry_action(v, 4) == Some(MenuAction::CycleBaudRate),
        entry_action(v, 5) == Some(MenuAction::CycleDataBits),
        entry_action(v, 6) == Some(MenuAction::CycleParity),
        entry_action(v, 7) == Some(MenuAction::CycleStopBits),
        entry_action(v, 8) == Some(MenuAction::CycleFlowControl),
        entry_action(v, 10) == Some(MenuAction::CycleLocalEcho),
        entry_action(v, 11) == Some(MenuAction::CycleLineEnding),
        entry_action(v, 12) == Some(MenuAction::CycleInputMode),
        entry_action(v, 13) == Some(MenuAction::Exit),
        shown_value(v, 4) == crate::text::decimal(v.serial_config.baud as nat),
        v.serial_config.parity == Parity::NoParity ==> shown_value(v, 6) == "None"@,
        v.serial_config.parity == Parity::Odd ==> shown_value(v, 6) == "Odd"@,
        v.serial_config.parity == Parity::Even ==> shown_value(v, 6) == "Even"@,
        v.serial_config.data_bits == DataBits::Five ==> shown_value(v, 5) == "5"@,
        v.serial_config.data_bits == DataBits::Six ==> shown_value(v, 5) == "6"@,
        v.serial_config.data_bits == DataBits::Seven ==> shown_value(v, 5) == "7"@,
        v.serial_config.data_bits == DataBits::Eight ==> shown_value(v, 5) == "8"@,
        v.serial_config.stop_bits == StopBits::One ==> shown_value(v, 7) == "1"@,
        v.serial_config.stop_bits == StopBits::Two ==> shown_value(v, 7) == "2"@,
        v.serial_config.flow_control == FlowControl::NoFlow ==> shown_value(v, 8) == "None"@,
        v.serial_config.flow_control == FlowControl::Hardware ==> shown_value(v, 8) == "Hardware"@,
        v.serial_config.flow_control == FlowControl::Software ==> shown_value(v, 8) == "Software"@,
        v.local_echo ==> shown_value(v, 10) == "ON"@,
        !v.local_echo ==> shown_value(v, 10) == "OFF"@,
        v.line_ending == LineEnding::CrLf ==> shown_value(v, 11) == "CR+LF"@,
        v.line_ending == LineEnding::Cr ==> shown_value(v, 11) == "CR"@,
        v.line_ending == LineEnding::Lf ==> shown_value(v, 11) == "LF"@,
        v.line_ending == LineEnding::NoEnding ==> shown_value(v, 11) == "None"@,
        v.input_mode == InputMode::Ascii ==> shown_value(v, 12) == "ASCII"@,
        v.input_mode == InputMode::Hex ==> shown_value(v, 12) == "HEX"@,
        v.serial_config.port_info matches Some(p) ==> menu_items(v)[1] == (crate::app::MenuItemView::Action {
            label: "Select Port              "@ + p.port_name@,
            action: MenuAction::SelectPort,
        }),
{
}

/// `n - 4`, or 0 when `n` is smaller.
pub open spec fn less_margin(n: u16) -> int {
    if n >= 4 {
        n - 4
    } else {
        0
    }
}

/// The popups sit inside the screen area, centred in it (the left and top
/// margins are half the room left over, rounded down), keeping a margin of
/// two cells each side where there is room: the menu 46 columns wide and 20
/// rows high at most, the port list 44 columns wide and two rows more than
/// there are ports at most.
pub proof fn law_popups_centred(area: crate::app::Area, ports: nat)
    requires
        area.x + area.width <= u16::MAX,
        area.y + area.height <= u16::MAX,
        ports < 0x10000 - 2,
    ensures
        ({
            let m = crate::ui::menu_popup_area(area);
            &&& m.width == if less_margin(area.width) < 46 {
                less_margin(area.width)
            } else {
                46
            }
            &&& m.height == if less_margin(area.height) < 20 {
                less_margin(area.height)
            } else {
                20
            }
            &&& m.x - area.x == (area.width - m.width) / 2
            &&& m.y - area.y == (area.height - m.height) / 2
            &&& m.x + m.width <= area.x + area.width
            &&& m.y + m.height <= area.y + area.height
        }),
        ({
            let p = crate::ui::port_popup_area(area, ports);
            &&& p.width == if less_margin(area.width) < 44 {
                less_margin(area.width)
            } else {
                44
            }
            &&& p.height == if less_margin(area.height) < ports + 2 {
                less_margin(area.height)
            } else {
                ports + 2int
            }
            &&& p.x - area.x == (area.width - p.width) / 2
            &&& p.y - area.y == (area.height - p.height) / 2
            &&& p.x + p.width <= area.x + area.width
            &&& p.y + p.height <= area.y + area.height
        }),
{
}

/// Enter on the port list opens the port under the cursor: it becomes the
/// configured port, the port is (re)opened, the menu's remembered
/// configuration is forgotten and the capture screen is shown. With the
/// cursor past the list nothing happens but a redraw. Esc goes back to the
/// menu.
pub proof fn law_port_choice(v: AppView, event: KeyEvent, tracker: ClickTracker)
    requires
        v.app_state == AppState::PortList,
        event.code == KeyCode::Enter || event.code == KeyCode::Esc,
    ensures
        ({
            let r = v.event_step(TermEvent::Key { event, press: true }, tracker);
            let s = AppView { dirty: true, selection: None, ..v };
            &&& (event.code == KeyCode::Enter && v.port_list_index < v.available_ports.len()) ==> r
                == (AppView {
                serial_config: SerialConfig {
                    port_info: Some(v.available_ports[v.port_list_index as int]),
                    ..v.serial_config
                },
                handle_open: false,
                config_snapshot: None,
                app_state: AppState::Capturing,
                ..s
            }, Some(crate::session::Action::Connect))
            &&& (event.code == KeyCode::Enter && v.port_list_index >= v.available_ports.len()) ==> r
                == (s, None::<crate::session::Action>)
            &&& event.code == KeyCode::Esc ==> r == (AppView { app_state: AppState::Options, ..s }, None::<crate::session::Action>)
        }),
{
    reveal(AppView::event_step);
    reveal(AppView::key_step);
    reveal(AppView::port_list_key);
    reveal(AppView::port_chosen);
}

/// Ctrl+A on the capture screen opens the menu on its first entry after the
/// heading, remembering the configuration. Ctrl+A or Esc on the menu closes
/// it and shows the capture screen; the port is reopened exactly when the
/// session is connected and the configuration differs from the one
/// remembered. Either way the menu forgets it, the screen is redrawn and any
/// selection goes.
pub proof fn law_menu_open_close(v: AppView, event: KeyEvent, tracker: ClickTracker)
    requires
        (event.code == KeyCode::Char('a') && event.ctrl) || (event.code == KeyCode::Esc
            && v.app_state == AppState::Options),
    ensures
        ({
            let r = v.event_step(TermEvent::Key { event, press: true }, tracker);
            let s = AppView { dirty: true, selection: None, ..v };
            let reconnect = v.connection_status == crate::app::ConnectionStatus::Connected
                && v.config_snapshot is Some && !same_config(
                v.serial_config,
                v.config_snapshot.unwrap(),
            );
            &&& (v.app_state == AppState::Capturing && event.ctrl) ==> r == (AppView {
                app_state: AppState::Options,
                menu_cursor: 1,
                config_snapshot: Some(v.serial_config),
                ..s
            }, None::<crate::session::Action>)
            &&& v.app_state != AppState::Capturing ==> {
                &&& r.0.app_state == AppState::Capturing
                &&& r.0.config_snapshot is None
                &&& reconnect ==> r.1 == Some(crate::session::Action::Connect) && !r.0.handle_open
                &&& !reconnect ==> r == (AppView {
                    app_state: AppState::Capturing,
                    config_snapshot: None,
                    ..s
                }, None::<crate::session::Action>)
            }
        }),
{
    reveal(AppView::event_step);
    reveal(AppView::key_step);
    reveal(AppView::menu_closed);
    reveal(AppView::options_key);
    reveal(AppView::port_list_key);
}

/// Keys on the menu: Up or `k` and Down or `j` move the cursor, Left or `h`
/// steps the setting under it backward and Right or `l` forward, Enter takes
/// the entry, `x` quits.
pub proof fn law_menu_keys(v: AppView, event: KeyEvent, tracker: ClickTracker)
    requires
        v.app_state == AppState::Options,
        !(event.code == KeyCode::Char('a') && event.ctrl),
    ensures
        ({
            let r = v.event_step(TermEvent::Key { event, press: true }, tracker);
            let s = AppView { dirty: true, selection: None, ..v };
            &&& (event.code == KeyCode::Up || event.code == KeyCode::Char('k')) ==> r == (s.moved_up(), None::<crate::session::Action>)
            &&& (event.code == KeyCode::Down || event.code == KeyCode::Char('j')) ==> r == (s.moved_down(), None::<crate::session::Action>)
            &&& (event.code == KeyCode::Left || event.code == KeyCode::Char('h')) ==> r == (s.cycled_current(false), None::<crate::session::Action>)
            &&& (event.code == KeyCode::Right || event.code == KeyCode::Char('l')) ==> r == (s.cycled_current(true), None::<crate::session::Action>)
            &&& event.code == KeyCode::Enter ==> r == s.executed_current()
            &&& event.code == KeyCode::Char('x') ==> r == s.exited()
        }),
{
    reveal(AppView::event_step);
    reveal(AppView::key_step);
    reveal(AppView::options_key);
}

/// What the entry under the menu cursor does. On a setting, stepping and
/// Enter step that setting (Enter forward). Enter on Select Port shows the
/// port list from its first entry; on Disconnect closes the port as
/// disconnecting does, forgets the remembered configuration and shows the
/// capture screen; on Exit quits. On a heading nothing happens.
pub proof fn law_menu_entries(v: AppView, forward: bool)
    requires
        v.menu_cursor < MENU_LEN,
    ensures
        ({
            let c = v.menu_cursor as int;
            &&& entry_action(v, c) is None ==> v.executed_current() == (v, None::<crate::session::Action>)
                && v.cycled_current(forward) == v
            &&& (menu_items(v)[c] matches crate::app::MenuItemView::Cycle { action, .. }) ==> {
                &&& v.cycled_current(forward) == v.cycled(entry_action(v, c).unwrap(), forward)
                &&& v.executed_current() == (v.cycled(entry_action(v, c).unwrap(), true), None::<crate::session::Action>)
            }
            &&& entry_action(v, c) == Some(MenuAction::SelectPort) ==> v.executed_current() == (AppView {
                port_list_index: 0,
                app_state: AppState::PortList,
                ..v
            }, None::<crate::session::Action>) && v.cycled_current(forward) == v
            &&& entry_action(v, c) == Some(MenuAction::Disconnect) ==> v.executed_current() == (AppView {
                config_snapshot: None,
                app_state: AppState::Capturing,
                ..v.disconnected().0
            }, v.disconnected().1) && v.cycled_current(forward) == v
            &&& entry_action(v, c) == Some(MenuAction::Exit) ==> v.executed_current() == v.exited()
                && v.cycled_current(forward) == v
        }),
{
    reveal(AppView::executed_current);
    reveal(AppView::cycled_current);
    reveal(AppView::acted);
}

/// What a message from the worker adds to the output: an error as
/// `[Error: ` and its message and `]` on a line of its own, a disconnection
/// nothing.
pub proof fn law_event_text(e: SerialEvent)
    ensures
        e matches SerialEvent::Error(msg) ==> crate::session::event_text(e) == "[Error: "@ + msg@
            + "]\n"@,
        e is Disconnected ==> crate::session::event_text(e).len() == 0,
{
}

proof fn lemma_absorbed_keeps_link(v: AppView, events: Seq<SerialEvent>)
    ensures
        crate::session::absorbed(v, events).0.connection_status == v.connection_status,
        crate::session::absorbed(v, events).0.handle_open == v.handle_open,
        crate::session::absorbed(v, events).1 <==> exists|i: int|
            0 <= i < events.len() && (#[trigger] events[i]) is Disconnected,
    decreases events.len(),
{
    reveal(AppView::appended);
    if events.len() > 0 && !(events[0] is Disconnected) {
        let w = v.appended(crate::session::event_text(events[0]));
        lemma_absorbed_keeps_link(w, events.skip(1));
        if exists|i: int| 0 <= i < events.len() && (#[trigger] events[i]) is Disconnected {
            let i = choose|i: int| 0 <= i < events.len() && (#[trigger] events[i]) is Disconnected;
            assert(events.skip(1)[i - 1] is Disconnected);
        }
        if exists|i: int| 0 <= i < events.skip(1).len() && (#[trigger] events.skip(1)[i]) is Disconnected {
            let i = choose|i: int| 0 <= i < events.skip(1).len() && (#[trigger] events.skip(1)[i]) is Disconnected;
            assert(events[i + 1] is Disconnected);
        }
    } else if events.len() > 0 {
        assert(events[0] is Disconnected);
    }
}

/// Taking in the worker's messages: when one of them says the worker
/// stopped, or the worker is gone (`lost`), the session's side of the port
/// is closed and it is disconnected; otherwise whether it holds the port and
/// is connected stays as it was.
pub proof fn law_messages_close_the_link(v: AppView, events: Seq<SerialEvent>, lost: bool)
    ensures
        ({
            let w = v.drained(events, lost);
            let stopped = exists|i: int| 0 <= i < events.len() && (#[trigger] events[i]) is Disconnected;
            &&& (stopped || lost) ==> !w.handle_open && w.connection_status
                == crate::app::ConnectionStatus::Disconnected
            &&& !(stopped || lost) ==> w.handle_open == v.handle_open && w.connection_status
                == v.connection_status
        }),
{
    reveal(AppView::drained);
    reveal(AppView::truncated);
    reveal(AppView::appended);
    lemma_absorbed_keeps_link(v, events);
}

} // verus!
