use seriust::app::{port_scan_due, App, AppState, ConnectionStatus, InputMode, LineEnding, MenuItem, MenuAction};
use seriust::cli::Args;
use seriust::events::{KeyCode, KeyEvent, TermEvent};
use seriust::serial::{DataBits, FlowControl, Parity, PortInfo, PortType, SerialConfig, StopBits, UsbInfo};
use seriust::session::Effect;

fn args() -> Args {
    Args {
        port: None,
        baud: 115200,
        data_bits: 8,
        stop_bits: 1,
        parity: "none".to_string(),
        flow_control: "none".to_string(),
    }
}

fn usb(serial: &str) -> PortType {
    PortType::Usb(UsbInfo {
        vid: 0x0403,
        pid: 0x6001,
        serial_number: Some(serial.to_string()),
        manufacturer: Some("FTDI".to_string()),
        product: None,
    })
}

fn key(code: KeyCode) -> KeyEvent {
    KeyEvent { code, ctrl: false }
}

fn ctrl_a() -> KeyEvent {
    KeyEvent { code: KeyCode::Char('a'), ctrl: true }
}

fn texts(app: &App) -> Vec<String> {
    app.output_lines.iter().map(|l| l.text.clone()).collect()
}

fn type_str(app: &mut App, s: &str) {
    for c in s.chars() {
        app.handle_key_event(key(KeyCode::Char(c)));
    }
}

fn sent_bytes(e: Option<Effect>) -> Option<Vec<u8>> {
    match e {
        Some(Effect::Send(b)) => Some(b),
        _ => None,
    }
}

#[test]
fn labels() {
    assert_eq!(InputMode::Ascii.label(), "ASCII");
    assert_eq!(InputMode::Hex.label(), "HEX");
    assert_eq!(LineEnding::CrLf.label(), "CR+LF");
    assert_eq!(LineEnding::NoEnding.label(), "None");
    assert_eq!(LineEnding::CrLf.bytes(), b"\r\n");
    assert_eq!(LineEnding::Cr.bytes(), b"\r");
    assert_eq!(LineEnding::Lf.bytes(), b"\n");
    assert_eq!(LineEnding::NoEnding.bytes(), b"");
}

#[test]
fn menu_has_its_entries() {
    let app = App::new(args());
    let items = app.build_menu_items();
    assert_eq!(items.len(), 14);
    let selectable: Vec<bool> = items.iter().map(|i| i.is_selectable()).collect();
    assert_eq!(
        selectable,
        vec![false, true, true, false, true, true, true, true, true, false, true, true, true, true]
    );
    match &items[1] {
        MenuItem::Action { label, action } => {
            assert_eq!(label, "Select Port              —");
            assert_eq!(*action, MenuAction::SelectPort);
        }
        _ => panic!("entry 1 is an action"),
    }
    match &items[4] {
        MenuItem::Cycle { label, value, .. } => {
            assert_eq!(label, "Baud Rate");
            assert_eq!(value, "115200");
        }
        _ => panic!("entry 4 is a setting"),
    }
    match &items[10] {
        MenuItem::Cycle { value, .. } => assert_eq!(value, "ON"),
        _ => panic!("entry 10 is a setting"),
    }
}

#[test]
fn ctrl_a_opens_and_closes_the_menu() {
    let mut app = App::new(args());
    app.handle_key_event(ctrl_a());
    assert_eq!(app.app_state, AppState::Options);
    assert_eq!(app.menu_cursor, 1);
    assert!(app.config_snapshot.is_some());
    let e = app.handle_key_event(ctrl_a());
    assert!(e.is_none());
    assert_eq!(app.app_state, AppState::Capturing);
    assert!(app.config_snapshot.is_none());
}

#[test]
fn cursor_skips_headers() {
    let mut app = App::new(args());
    app.handle_key_event(ctrl_a());
    app.handle_key_event(key(KeyCode::Down));
    assert_eq!(app.menu_cursor, 2);
    app.handle_key_event(key(KeyCode::Char('j')));
    assert_eq!(app.menu_cursor, 4);
    app.handle_key_event(key(KeyCode::Up));
    assert_eq!(app.menu_cursor, 2);
    app.handle_key_event(key(KeyCode::Char('k')));
    app.handle_key_event(key(KeyCode::Up));
    assert_eq!(app.menu_cursor, 1);
    for _ in 0..20 {
        app.handle_key_event(key(KeyCode::Down));
    }
    assert_eq!(app.menu_cursor, 13);
}

#[test]
fn cycling_the_baud_rate() {
    let mut app = App::new(args());
    app.handle_key_event(ctrl_a());
    app.menu_cursor = 4;
    app.handle_key_event(key(KeyCode::Right));
    assert_eq!(app.serial_config.baud, 230400);
    app.handle_key_event(key(KeyCode::Left));
    app.handle_key_event(key(KeyCode::Char('h')));
    assert_eq!(app.serial_config.baud, 57600);
    app.serial_config.baud = 300;
    app.handle_key_event(key(KeyCode::Left));
    assert_eq!(app.serial_config.baud, 921600);
    app.serial_config.baud = 1234;
    app.handle_key_event(key(KeyCode::Right));
    assert_eq!(app.serial_config.baud, 230400);
}

#[test]
fn cycling_the_serial_settings_wraps() {
    assert_eq!(DataBits::Eight.cycle(true), DataBits::Five);
    assert_eq!(DataBits::Five.cycle(false), DataBits::Eight);
    assert_eq!(Parity::Even.cycle(true), Parity::NoParity);
    assert_eq!(Parity::NoParity.cycle(true), Parity::Odd);
    assert_eq!(StopBits::One.cycle(true), StopBits::Two);
    assert_eq!(StopBits::Two.cycle(false), StopBits::One);
    assert_eq!(FlowControl::NoFlow.cycle(true), FlowControl::Hardware);
    assert_eq!(FlowControl::Software.cycle(true), FlowControl::NoFlow);
    assert_eq!(LineEnding::NoEnding.cycle(true), LineEnding::CrLf);
    assert_eq!(LineEnding::CrLf.cycle(false), LineEnding::NoEnding);
}

#[test]
fn cycle_there_and_back_restores_every_setting() {
    for forward in [true, false] {
        let mut app = App::new(args());
        app.handle_key_event(ctrl_a());
        for cursor in [4usize, 5, 6, 7, 8, 10, 11] {
            app.menu_cursor = cursor;
            let before = (
                app.serial_config.baud,
                app.serial_config.data_bits,
                app.serial_config.parity,
                app.serial_config.stop_bits,
                app.serial_config.flow_control,
                app.local_echo,
                app.line_ending,
            );
            app.handle_key_event(key(if forward { KeyCode::Right } else { KeyCode::Left }));
            app.handle_key_event(key(if forward { KeyCode::Left } else { KeyCode::Right }));
            let after = (
                app.serial_config.baud,
                app.serial_config.data_bits,
                app.serial_config.parity,
                app.serial_config.stop_bits,
                app.serial_config.flow_control,
                app.local_echo,
                app.line_ending,
            );
            assert_eq!(before, after);
        }
    }
}

#[test]
fn switching_input_mode_clears_the_input() {
    let mut app = App::new(args());
    type_str(&mut app, "hello");
    app.handle_key_event(ctrl_a());
    app.menu_cursor = 12;
    app.handle_key_event(key(KeyCode::Enter));
    assert_eq!(app.input_mode, InputMode::Hex);
    assert!(app.input_buffer.is_empty());
}

#[test]
fn changed_settings_reconnect_when_the_menu_closes() {
    let mut app = App::new(args());
    app.connection_status = ConnectionStatus::Connected;
    app.handle_open = true;
    app.handle_key_event(ctrl_a());
    app.menu_cursor = 5;
    app.handle_key_event(key(KeyCode::Right));
    let e = app.handle_key_event(key(KeyCode::Esc));
    assert!(matches!(e, Some(Effect::Connect)));
    assert!(!app.handle_open);
    assert_eq!(app.app_state, AppState::Capturing);
}

#[test]
fn changed_usb_details_reconnect_when_the_menu_closes() {
    let mut app = App::new(args());
    app.serial_config.port_info = Some(PortInfo { port_name: "/dev/ttyUSB0".to_string(), port_type: usb("A1") });
    app.connection_status = ConnectionStatus::Connected;
    app.handle_open = true;
    app.handle_key_event(ctrl_a());
    app.serial_config.port_info = Some(PortInfo { port_name: "/dev/ttyUSB0".to_string(), port_type: usb("B2") });
    let e = app.handle_key_event(key(KeyCode::Esc));
    assert!(matches!(e, Some(Effect::Connect)));
}

#[test]
fn configurations_compare_every_port_detail() {
    let mut a = SerialConfig::default();
    a.port_info = Some(PortInfo { port_name: "/dev/ttyUSB0".to_string(), port_type: usb("A1") });
    let mut b = a.clone();
    assert!(a.same_as(&b));
    b.port_info = Some(PortInfo { port_name: "/dev/ttyUSB0".to_string(), port_type: usb("B2") });
    assert!(!a.same_as(&b));
    b.port_info = Some(PortInfo { port_name: "/dev/ttyUSB0".to_string(), port_type: PortType::Pci });
    assert!(!a.same_as(&b));
    b.port_info = Some(PortInfo { port_name: "/dev/ttyUSB1".to_string(), port_type: usb("A1") });
    assert!(!a.same_as(&b));
    b.port_info = None;
    assert!(!a.same_as(&b));
    a.port_info = None;
    assert!(a.same_as(&b));
}

#[test]
fn unchanged_settings_do_not_reconnect() {
    let mut app = App::new(args());
    app.connection_status = ConnectionStatus::Connected;
    app.handle_key_event(ctrl_a());
    let e = app.handle_key_event(key(KeyCode::Esc));
    assert!(e.is_none());
}

#[test]
fn menu_actions() {
    let mut app = App::new(args());
    app.handle_open = true;
    app.handle_key_event(ctrl_a());
    app.menu_cursor = 2;
    let e = app.handle_key_event(key(KeyCode::Enter));
    assert!(matches!(e, Some(Effect::CloseHandle)));
    assert_eq!(texts(&app), vec!["[Disconnected]".to_string()]);
    assert_eq!(app.app_state, AppState::Capturing);
    app.handle_key_event(ctrl_a());
    app.menu_cursor = 1;
    app.handle_key_event(key(KeyCode::Enter));
    assert_eq!(app.app_state, AppState::PortList);
    app.handle_key_event(key(KeyCode::Esc));
    assert_eq!(app.app_state, AppState::Options);
    app.handle_key_event(key(KeyCode::Char('x')));
    assert!(app.exit);
}

#[test]
fn choosing_a_port_connects_to_it() {
    let mut app = App::new(args());
    app.available_ports = vec![
        PortInfo { port_name: "/dev/ttyS0".to_string(), port_type: PortType::Pci },
        PortInfo { port_name: "/dev/ttyUSB0".to_string(), port_type: usb("A1") },
    ];
    app.handle_key_event(ctrl_a());
    app.handle_key_event(key(KeyCode::Enter));
    app.handle_key_event(key(KeyCode::Down));
    app.handle_key_event(key(KeyCode::Down));
    assert_eq!(app.port_list_index, 1);
    app.handle_key_event(key(KeyCode::Up));
    app.handle_key_event(key(KeyCode::Up));
    assert_eq!(app.port_list_index, 0);
    app.handle_key_event(key(KeyCode::Char('j')));
    let e = app.handle_key_event(key(KeyCode::Enter));
    assert!(matches!(e, Some(Effect::Connect)));
    assert_eq!(app.serial_config.port_info.as_ref().unwrap().port_name, "/dev/ttyUSB0");
    assert_eq!(app.app_state, AppState::Capturing);
}

#[test]
fn ascii_input_is_sent_with_its_line_ending() {
    let mut app = App::new(args());
    app.handle_open = true;
    type_str(&mut app, "hi");
    app.handle_key_event(key(KeyCode::Backspace));
    type_str(&mut app, "é");
    let e = app.handle_key_event(key(KeyCode::Enter));
    assert_eq!(sent_bytes(e), Some("hé\r\n".as_bytes().to_vec()));
    assert_eq!(texts(&app), vec!["hé".to_string()]);
    assert!(app.input_buffer.is_empty());
}

#[test]
fn nothing_is_sent_without_a_port() {
    let mut app = App::new(args());
    app.local_echo = false;
    type_str(&mut app, "x");
    let e = app.handle_key_event(key(KeyCode::Enter));
    assert!(e.is_none());
    assert!(app.output_lines.is_empty());
    assert!(app.input_buffer.is_empty());
}

#[test]
fn hex_input_takes_digits_in_upper_case() {
    let mut app = App::new(args());
    app.input_mode = InputMode::Hex;
    type_str(&mut app, "a-g1 b2");
    assert_eq!(app.input_buffer, vec!['A', '1', 'B', '2']);
    assert_eq!(app.hex_display_buffer(), "A1 B2");
    assert_eq!(app.input_display(), "A1 B2");
    app.handle_open = true;
    let e = app.handle_key_event(key(KeyCode::Enter));
    assert_eq!(sent_bytes(e), Some(vec![0xA1, 0xB2]));
    assert_eq!(texts(&app), vec!["[TX: A1 B2]".to_string()]);
}

#[test]
fn an_odd_count_of_hex_digits_is_refused() {
    let mut app = App::new(args());
    app.input_mode = InputMode::Hex;
    app.handle_open = true;
    type_str(&mut app, "ABC");
    let e = app.handle_key_event(key(KeyCode::Enter));
    assert!(e.is_none());
    assert_eq!(texts(&app), vec!["[Error: Odd number of hex digits]".to_string()]);
    assert_eq!(app.input_buffer, vec!['A', 'B', 'C']);
}

#[test]
fn hex_display_spaces_pairs() {
    let mut app = App::new(args());
    app.input_buffer = "ABCDE".chars().collect();
    assert_eq!(app.hex_display_buffer(), "AB CD E");
    app.input_buffer = vec![];
    assert_eq!(app.hex_display_buffer(), "");
}

#[test]
fn paging_and_jumps() {
    let mut app = App::new(args());
    app.last_total_visual_lines = 100;
    app.last_output_height = 10;
    app.handle_key_event(key(KeyCode::PageUp));
    assert!(!app.auto_scroll);
    assert_eq!(app.scroll_top, 81);
    app.handle_key_event(key(KeyCode::PageDown));
    assert_eq!(app.scroll_top, 90);
    assert!(app.auto_scroll);
    app.handle_key_event(key(KeyCode::Home));
    assert_eq!(app.scroll_top, 0);
    assert!(!app.auto_scroll);
    app.handle_key_event(key(KeyCode::End));
    assert!(app.auto_scroll);
}

#[test]
fn a_key_press_drops_the_selection_and_redraws() {
    let mut app = App::new(args());
    app.selection = Some(seriust::app::Selection {
        anchor: (0, 0),
        cursor: (1, 0),
        mode: seriust::app::SelectionMode::Char,
    });
    app.dirty = false;
    app.handle_event(TermEvent::Key { event: key(KeyCode::Other), press: true });
    assert!(app.selection.is_none());
    assert!(app.dirty);
    app.dirty = false;
    app.handle_event(TermEvent::Key { event: key(KeyCode::Char('q')), press: false });
    assert!(!app.dirty);
    assert!(app.input_buffer.is_empty());
    app.handle_event(TermEvent::Resize);
    assert!(app.dirty);
}

#[test]
fn start_from_the_command_line() {
    let mut a = Args { port: Some("/dev/ttyACM0".to_string()), ..args() };
    a.data_bits = 7;
    a.stop_bits = 2;
    a.parity = "odd".to_string();
    a.flow_control = "software".to_string();
    a.baud = 9600;
    let mut app = App::new(a);
    let e = app.start();
    assert!(matches!(e, Some(Effect::Connect)));
    let c = &app.serial_config;
    assert_eq!(c.baud, 9600);
    assert_eq!(c.data_bits, DataBits::Seven);
    assert_eq!(c.stop_bits, StopBits::Two);
    assert_eq!(c.parity, Parity::Odd);
    assert_eq!(c.flow_control, FlowControl::Software);
    assert_eq!(c.port_info.as_ref().unwrap().port_name, "/dev/ttyACM0");
    assert!(matches!(c.port_info.as_ref().unwrap().port_type, PortType::Unknown));

    let mut b = args();
    b.data_bits = 9;
    b.parity = "mark".to_string();
    let mut app = App::new(b);
    assert!(app.start().is_none());
    assert_eq!(app.app_state, AppState::Options);
    assert_eq!(app.serial_config.data_bits, DataBits::Eight);
    assert_eq!(app.serial_config.parity, Parity::NoParity);
}

#[test]
fn port_scans() {
    let mut app = App::new(args());
    app.dirty = false;
    app.apply_port_scan(Ok(vec![PortInfo { port_name: "a".to_string(), port_type: usb("A1") }]));
    assert!(app.dirty);
    app.dirty = false;
    app.apply_port_scan(Ok(vec![PortInfo { port_name: "a".to_string(), port_type: PortType::Pci }]));
    assert!(!app.dirty);
    app.apply_port_scan(Ok(vec![PortInfo { port_name: "b".to_string(), port_type: PortType::Pci }]));
    assert!(app.dirty);
    app.dirty = false;
    app.apply_port_scan(Err("denied".to_string()));
    assert!(app.dirty);
    assert!(app.available_ports.is_empty());
    assert_eq!(app.port_error, Some("denied".to_string()));
}

#[test]
fn ports_are_scanned_every_two_seconds() {
    assert!(!port_scan_due(0));
    assert!(!port_scan_due(1999));
    assert!(port_scan_due(2000));
    assert!(port_scan_due(60000));
}

#[test]
fn port_list_keys_move_within_the_list() {
    let mut app = App::new(args());
    app.app_state = AppState::PortList;
    app.available_ports = vec![
        PortInfo { port_name: "a".to_string(), port_type: PortType::Pci },
        PortInfo { port_name: "b".to_string(), port_type: usb("C3") },
    ];
    app.handle_key_event(key(KeyCode::Down));
    assert_eq!(app.port_list_index, 1);
    app.handle_key_event(key(KeyCode::Char('j')));
    assert_eq!(app.port_list_index, 1);
    app.handle_key_event(key(KeyCode::Char('k')));
    assert_eq!(app.port_list_index, 0);
    app.handle_key_event(key(KeyCode::Up));
    assert_eq!(app.port_list_index, 0);
    assert_eq!(app.app_state, AppState::PortList);
}
