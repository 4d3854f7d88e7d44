use seriust::app::{App, Area, ClickTracker, LineEnding, Selection, SelectionMode};
use seriust::cli::Args;
use seriust::events::{MouseButton, MouseEvent, MouseEventKind, TermEvent};
use seriust::serial::{
    port_to_open, worker_on_command, worker_on_read, worker_on_write, CommandPoll, DataBits,
    Parity, PortInfo, PortType, ReadErrorKind, ReadOutcome, SerialCommand, SerialConfig,
    SerialEvent, StopBits, UsbInfo, WorkerStep,
};
use seriust::ui::{
    base64_encode, compute_selection_range, copy_sequence, data_bits_char, expand_to_word_end,
    expand_to_word_start, extract_selected_text, highlight_rows, is_word_char, menu_lines,
    menu_popup, parity_char, port_popup, should_copy, stop_bits_char, vline_to_screen_y, Grid,
    LineStyle,
};

fn args() -> Args {
    Args {
        port: None,
        baud: 115200,
        data_bits: 8,
        stop_bits: 1,
        parity: "none".to_string(),
        flow_control: "none".to_string(),
    }
}

fn grid(rows: &[&str], width: u16) -> Grid {
    let mut cells = Vec::new();
    for r in rows {
        let mut cs: Vec<char> = r.chars().collect();
        while cs.len() < width as usize {
            cs.push(' ');
        }
        for c in cs {
            cells.push(vec![c]);
        }
    }
    Grid { width, height: rows.len() as u16, cells }
}

fn sel(anchor: (u16, u16), cursor: (u16, u16), mode: SelectionMode) -> Selection {
    Selection { anchor, cursor, mode }
}

fn text(v: Vec<char>) -> String {
    v.into_iter().collect()
}

#[test]
fn base64_known_values() {
    assert_eq!(base64_encode(b""), "");
    assert_eq!(base64_encode(b"f"), "Zg==");
    assert_eq!(base64_encode(b"fo"), "Zm8=");
    assert_eq!(base64_encode(b"foo"), "Zm9v");
    assert_eq!(base64_encode(b"foob"), "Zm9vYg==");
    assert_eq!(base64_encode(b"foobar"), "Zm9vYmFy");
    assert_eq!(base64_encode(&[0xff, 0xfe, 0xfd]), "//79");
}

#[test]
fn base64_encodings_of_different_bytes_differ() {
    let mut seen = std::collections::HashSet::new();
    for a in 0..=255u8 {
        assert!(seen.insert(base64_encode(&[a])));
        assert!(seen.insert(base64_encode(&[a, 0x5a])));
        assert!(seen.insert(base64_encode(&[0x01, a, 0x7f])));
    }
}

#[test]
fn base64_length_is_four_per_group() {
    for n in 0..10usize {
        let data = vec![7u8; n];
        assert_eq!(base64_encode(&data).len(), 4 * ((n + 2) / 3));
    }
}

#[test]
fn clipboard_sequence_wraps_base64() {
    let seq = copy_sequence(&"hi".chars().collect());
    assert_eq!(seq, b"\x1b]52;c;aGk=\x07".to_vec());
    let seq = copy_sequence(&"é".chars().collect());
    assert_eq!(seq, b"\x1b]52;c;w6k=\x07".to_vec());
}

#[test]
fn status_characters() {
    assert_eq!(parity_char(Parity::NoParity), 'N');
    assert_eq!(parity_char(Parity::Odd), 'O');
    assert_eq!(parity_char(Parity::Even), 'E');
    assert_eq!(data_bits_char(DataBits::Seven), '7');
    assert_eq!(stop_bits_char(StopBits::Two), '2');
}

#[test]
fn status_bar_text() {
    let mut app = App::new(args());
    let bar = app.status_bar();
    assert_eq!(bar.shorthand, " 115200 8N1");
    assert_eq!(bar.status, "Disconnected ");
    assert_eq!(bar.port, "—");
    assert!(!bar.paused);
    app.serial_config.baud = 300;
    app.connection_status = seriust::app::ConnectionStatus::Connected;
    app.auto_scroll = false;
    let bar = app.status_bar();
    assert_eq!(bar.shorthand, "    300 8N1");
    assert_eq!(bar.status, "Connected    ");
    assert!(bar.paused);
}

#[test]
fn screen_rows() {
    let area = Area::new(2, 5, 10, 3);
    assert_eq!(vline_to_screen_y(7, 5, area), Some(7));
    assert_eq!(vline_to_screen_y(4, 5, area), None);
    assert_eq!(vline_to_screen_y(8, 5, area), None);
}

#[test]
fn word_characters() {
    assert!(is_word_char('a'));
    assert!(is_word_char('Z'));
    assert!(is_word_char('5'));
    assert!(is_word_char('_'));
    assert!(is_word_char('é'));
    assert!(!is_word_char(' '));
    assert!(!is_word_char('-'));
    assert!(!is_word_char('.'));
    assert!(!is_word_char('/'));
}

#[test]
fn word_expansion() {
    let g = grid(&["hello world", "foo_bar-baz"], 11);
    let area = Area::new(0, 0, 11, 2);
    assert_eq!(expand_to_word_start((8, 0), area, 0, &g), (6, 0));
    assert_eq!(expand_to_word_end((8, 0), area, 0, &g), (10, 0));
    assert_eq!(expand_to_word_start((5, 0), area, 0, &g), (5, 0));
    assert_eq!(expand_to_word_end((2, 1), area, 0, &g), (6, 1));
    assert_eq!(expand_to_word_start((2, 7), area, 0, &g), (2, 7));
}

#[test]
fn selection_ranges() {
    let g = grid(&["hello world", "second line"], 11);
    let area = Area::new(0, 0, 11, 2);
    let s = sel((3, 1), (1, 0), SelectionMode::Char);
    assert_eq!(compute_selection_range(&s, area, 0, &g), Some(((1, 0), (3, 1))));
    let s = sel((3, 1), (1, 0), SelectionMode::Line);
    assert_eq!(compute_selection_range(&s, area, 0, &g), Some(((0, 0), (10, 1))));
    let s = sel((7, 0), (7, 0), SelectionMode::Word);
    assert_eq!(compute_selection_range(&s, area, 0, &g), Some(((6, 0), (10, 0))));
    assert_eq!(compute_selection_range(&s, Area::new(0, 0, 0, 2), 0, &g), None);
}

#[test]
fn selected_text_trims_each_line() {
    let g = grid(&["ab   ", "cd ef", "gh   "], 5);
    let area = Area::new(0, 0, 5, 3);
    assert_eq!(text(extract_selected_text(area, (1, 0), (1, 2), 0, &g)), "b\ncd ef\ngh");
    assert_eq!(text(extract_selected_text(area, (0, 1), (1, 1), 0, &g)), "cd");
    assert_eq!(text(extract_selected_text(area, (0, 5), (1, 6), 0, &g)), "");
}

#[test]
fn highlighted_rows_of_a_selection() {
    let area = Area::new(0, 0, 5, 3);
    let rows = highlight_rows((2, 10), (1, 12), 10, area);
    let got: Vec<(u16, u16, u16)> = rows.iter().map(|r| (r.row, r.first_col, r.last_col)).collect();
    assert_eq!(got, vec![(0, 2, 4), (1, 0, 4), (2, 0, 1)]);
    assert!(highlight_rows((0, 0), (0, 0), 0, Area::new(0, 0, 0, 0)).is_empty());
}

#[test]
fn a_plain_click_copies_nothing() {
    assert!(!should_copy(&sel((1, 1), (1, 1), SelectionMode::Char)));
    assert!(should_copy(&sel((1, 1), (2, 1), SelectionMode::Char)));
    assert!(should_copy(&sel((1, 1), (1, 1), SelectionMode::Word)));
}

fn mouse(kind: MouseEventKind, column: u16, row: u16) -> TermEvent {
    TermEvent::Mouse(MouseEvent { kind, column, row })
}

#[test]
fn click_drag_release_copies_the_selection() {
    let mut app = App::new(args());
    app.append_output(&"hello world\nsecond\n".chars().collect());
    app.prepare_output(Area::new(1, 1, 11, 4)).unwrap();
    assert_eq!(app.last_scroll, 0);
    app.handle_event(mouse(MouseEventKind::Down(MouseButton::Left), 1, 1));
    assert!(app.is_dragging);
    app.handle_event(mouse(MouseEventKind::Drag(MouseButton::Left), 50, 2));
    assert_eq!(app.selection.unwrap().cursor, (10, 1));
    app.handle_event(mouse(MouseEventKind::Up(MouseButton::Left), 50, 2));
    assert!(app.copy_pending);
    let g = grid(&["hello world", "second", "", ""], 11);
    let pass = app.selection_pass(Area::new(1, 1, 11, 4), &g);
    assert_eq!(text(pass.copy.unwrap()), "hello world\nsecond");
    assert_eq!(pass.highlights.len(), 2);
    assert!(!app.copy_pending);
}

#[test]
fn clicks_outside_the_output_drop_the_selection() {
    let mut app = App::new(args());
    app.prepare_output(Area::new(1, 1, 11, 4)).unwrap();
    app.selection = Some(sel((0, 0), (1, 0), SelectionMode::Char));
    app.handle_event(mouse(MouseEventKind::Down(MouseButton::Left), 0, 0));
    assert!(app.selection.is_none());
    assert!(!app.is_dragging);
}

#[test]
fn the_wheel_scrolls() {
    let mut app = App::new(args());
    app.last_total_visual_lines = 50;
    app.last_output_height = 10;
    app.handle_event(mouse(MouseEventKind::ScrollUp, 0, 0));
    assert_eq!(app.scroll_top, 37);
    assert!(!app.auto_scroll);
    app.handle_event(mouse(MouseEventKind::ScrollDown, 0, 0));
    assert_eq!(app.scroll_top, 40);
    assert!(app.auto_scroll);
}

#[test]
fn clicks_chain_on_one_cell() {
    let mut t = ClickTracker::new();
    assert_eq!(t.record((3, 4)), 1);
    assert_eq!(t.record((3, 4)), 2);
    assert_eq!(t.record((3, 4)), 3);
    assert_eq!(t.record((3, 4)), 1);
    assert_eq!(t.record((5, 4)), 1);
    assert_eq!(t.last_pos, (5, 4));
}

#[test]
fn chaining_depends_on_the_delay() {
    let mut t = ClickTracker::new();
    let now = std::time::Instant::now();
    assert_eq!(t.register((1, 1), now, None), 1);
    assert_eq!(t.register((1, 1), now, Some(499)), 2);
    assert_eq!(t.register((1, 1), now, Some(500)), 1);
}

#[test]
fn menu_lines_are_laid_out() {
    let app = App::new(args());
    let items = app.build_menu_items();
    let lines = menu_lines(&items, 4, 30);
    assert_eq!(lines.len(), 14 + 3 + 1);
    assert_eq!(lines[0].text, "");
    assert_eq!(lines[1].text, "  CONNECTION");
    assert_eq!(lines[1].style, LineStyle::Header);
    assert_eq!(lines[2].text, format!("{:<30}", "    Select Port              —"));
    let baud = &lines[6];
    assert_eq!(baud.style, LineStyle::Selected);
    assert!(baud.text.starts_with("  > Baud Rate"));
    assert!(baud.text.ends_with("◂ 115200 ▸"));
    assert_eq!(baud.text.len(), 30);
    assert_eq!(lines[17].text, "");
}

#[test]
fn popups_are_centred() {
    let area = Area::new(0, 0, 80, 24);
    assert_eq!(menu_popup(area), Area::new(17, 2, 46, 20));
    assert_eq!(port_popup(area, 3), Area::new(18, 9, 44, 5));
    assert_eq!(menu_popup(Area::new(0, 0, 10, 6)), Area::new(2, 2, 6, 2));
}

#[test]
fn port_list_lines() {
    let mut app = App::new(args());
    app.available_ports = vec![
        PortInfo { port_name: "ttyS0".to_string(), port_type: PortType::Pci },
        PortInfo { port_name: "ttyUSB0".to_string(), port_type: PortType::Usb(UsbInfo { vid: 1, pid: 2, serial_number: None, manufacturer: None, product: Some("cable".to_string()) }) },
    ];
    app.serial_config.port_info = Some(app.available_ports[1].clone());
    app.connection_status = seriust::app::ConnectionStatus::Connected;
    app.port_list_index = 1;
    let lines = app.port_lines(20);
    assert_eq!(lines.len(), 2);
    assert!(!lines[0].connected);
    assert_eq!(lines[0].padding, 20 - 5 - 3 - 2);
    assert_eq!(lines[0].type_label, "PCI");
    assert!(lines[1].connected);
    assert!(lines[1].selected);
    assert_eq!(lines[1].name, "ttyUSB0");
}

#[test]
fn the_port_to_open() {
    let mut c = SerialConfig::default();
    assert_eq!(port_to_open(&c), Err("No port selected".to_string()));
    c.port_info = Some(PortInfo { port_name: "/dev/x".to_string(), port_type: PortType::Unknown });
    assert_eq!(port_to_open(&c), Ok("/dev/x".to_string()));
    assert_eq!(c.baud, 115200);
    assert_eq!(c.data_bits, DataBits::Eight);
}

#[test]
fn worker_commands() {
    assert!(matches!(
        worker_on_command(CommandPoll::Received(SerialCommand::Send(vec![1, 2]))),
        WorkerStep::Write(ref d) if d == &vec![1u8, 2]
    ));
    assert!(matches!(
        worker_on_command(CommandPoll::Received(SerialCommand::Disconnect)),
        WorkerStep::Stop { notify: true }
    ));
    assert!(matches!(worker_on_command(CommandPoll::Empty), WorkerStep::Read));
    assert!(matches!(worker_on_command(CommandPoll::Closed), WorkerStep::Stop { notify: false }));
    assert!(worker_on_write(Ok(())).is_none());
    assert!(matches!(worker_on_write(Err("e".to_string())), Some(SerialEvent::Error(ref m)) if m == "e"));
}

#[test]
fn worker_reads() {
    let r = worker_on_read(ReadOutcome::Bytes(vec![]));
    assert!(r.events.is_empty() && !r.stop);
    let r = worker_on_read(ReadOutcome::Bytes(vec![9]));
    assert_eq!(r.events.len(), 1);
    assert!(r.stop_if_undelivered);
    let r = worker_on_read(ReadOutcome::Failed(ReadErrorKind::TimedOut, "t".to_string()));
    assert!(r.events.is_empty());
    let r = worker_on_read(ReadOutcome::Failed(ReadErrorKind::BrokenPipe, "gone".to_string()));
    assert_eq!(r.events.len(), 2);
    assert!(matches!(r.events[1], SerialEvent::Disconnected));
    assert!(r.stop);
    let r = worker_on_read(ReadOutcome::Failed(ReadErrorKind::Other, "odd".to_string()));
    assert_eq!(r.events.len(), 1);
    assert!(!r.stop);
}

#[test]
fn line_ending_cycles_back() {
    for e in [LineEnding::CrLf, LineEnding::Cr, LineEnding::Lf, LineEnding::NoEnding] {
        assert_eq!(e.cycle(true).cycle(false), e);
    }
}
