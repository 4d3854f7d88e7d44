use seriust::app::{compute_line_height, App, Area, CachedLine, MAX_OUTPUT_LINES};
use seriust::cli::Args;
use seriust::session::Effect;
use seriust::serial::SerialEvent;
use seriust::ui::visible_window;

fn args() -> Args {
    Args {
        port: None,
        baud: 115200,
        data_bits: 8,
        stop_bits: 1,
        parity: "none".to_string(),
        flow_control: "none".to_string(),
    }
}

fn chars(s: &str) -> Vec<char> {
    s.chars().collect()
}

fn texts(app: &App) -> Vec<String> {
    app.output_lines.iter().map(|l| l.text.clone()).collect()
}

#[test]
fn line_height_is_one_at_width_zero() {
    assert_eq!(compute_line_height("anything at all", 0), 1);
}

#[test]
fn line_height_counts_wrapped_rows() {
    assert_eq!(compute_line_height("abcdefghij", 10), 1);
    assert_eq!(compute_line_height("abcdefghij", 5), 2);
    assert_eq!(compute_line_height("abcdefghijk", 5), 3);
    assert_eq!(compute_line_height("", 10), 1);
}

#[test]
fn append_cuts_lines_and_keeps_the_rest_pending() {
    let mut app = App::new(args());
    app.append_output(&chars("ab\ncd"));
    assert_eq!(texts(&app), vec!["ab".to_string()]);
    assert_eq!(app.output_pending, chars("cd"));
    app.append_output(&chars("e\n\nf"));
    assert_eq!(texts(&app), vec!["ab".to_string(), "cde".to_string(), "".to_string()]);
    assert_eq!(app.output_pending, chars("f"));
    assert!(app.dirty);
}

#[test]
fn append_in_pieces_equals_append_at_once() {
    let mut a = App::new(args());
    let mut b = App::new(args());
    a.append_output(&chars("one\ntw"));
    a.append_output(&chars("o\nthree"));
    b.append_output(&chars("one\ntwo\nthree"));
    assert_eq!(texts(&a), texts(&b));
    assert_eq!(a.output_pending, b.output_pending);
}

#[test]
fn append_strips_escape_sequences() {
    let mut app = App::new(args());
    app.append_output(&chars("\u{1b}[31mred\u{1b}[0m text\n"));
    assert_eq!(texts(&app), vec!["red text".to_string()]);
}

#[test]
fn append_measures_lines_at_the_cached_width() {
    let mut app = App::new(args());
    app.cached_width = 4;
    app.append_output(&chars("abcdefgh\nab\n"));
    let heights: Vec<u16> = app.output_lines.iter().map(|l| l.height).collect();
    assert_eq!(heights, vec![2, 1]);
}

#[test]
fn truncation_keeps_the_newest_lines() {
    let mut app = App::new(args());
    for i in 0..(MAX_OUTPUT_LINES + 3) {
        app.output_lines.push(CachedLine { text: format!("{}", i), height: 2 });
    }
    app.auto_scroll = false;
    app.scroll_top = 10;
    app.last_total_visual_lines = 100;
    app.truncate_old_lines();
    assert_eq!(app.output_lines.len(), MAX_OUTPUT_LINES);
    assert_eq!(app.output_lines[0].text, "3");
    assert_eq!(app.scroll_top, 4);
    assert_eq!(app.last_total_visual_lines, 94);
}

#[test]
fn truncation_leaves_short_output_alone() {
    let mut app = App::new(args());
    app.output_lines.push(CachedLine { text: "x".to_string(), height: 1 });
    app.dirty = false;
    app.truncate_old_lines();
    assert_eq!(app.output_lines.len(), 1);
    assert!(!app.dirty);
}

#[test]
fn total_visual_lines_counts_the_pending_text() {
    let mut app = App::new(args());
    app.output_lines.push(CachedLine { text: "a".to_string(), height: 2 });
    app.output_lines.push(CachedLine { text: "b".to_string(), height: 3 });
    assert_eq!(app.total_visual_lines(), 5);
    app.output_pending = chars("partial");
    assert_eq!(app.total_visual_lines(), 6);
    app.cached_width = 3;
    assert_eq!(app.total_visual_lines(), 8);
}

#[test]
fn total_visual_lines_is_capped() {
    let mut app = App::new(args());
    app.output_lines.push(CachedLine { text: "a".to_string(), height: 60000 });
    app.output_lines.push(CachedLine { text: "b".to_string(), height: 60000 });
    assert_eq!(app.total_visual_lines(), u16::MAX);
}

#[test]
fn recompute_heights_follows_the_width() {
    let mut app = App::new(args());
    app.output_lines.push(CachedLine { text: "abcdefgh".to_string(), height: 1 });
    app.recompute_heights_for_width(4);
    assert_eq!(app.output_lines[0].height, 2);
    assert_eq!(app.cached_width, 4);
    app.copy_pending = true;
    app.recompute_heights_for_width(8);
    assert_eq!(app.output_lines[0].height, 1);
    assert!(!app.copy_pending);
    app.recompute_heights_for_width(0);
    assert_eq!(app.cached_width, 8);
}

#[test]
fn window_of_three_lines() {
    let w = visible_window(&vec![1, 2, 3], 2, 2);
    assert_eq!(w.first, Some(1));
    assert_eq!(w.first_offset, 1);
    assert_eq!(w.end, 3);
}

#[test]
fn window_stops_below_the_viewport() {
    let w = visible_window(&vec![1, 1, 1, 1, 1], 1, 2);
    assert_eq!(w.first, Some(1));
    assert_eq!(w.first_offset, 0);
    assert_eq!(w.end, 3);
}

#[test]
fn window_past_the_end_is_empty() {
    let w = visible_window(&vec![1, 1], 5, 3);
    assert_eq!(w.first, None);
    let w = visible_window(&vec![], 0, 3);
    assert_eq!(w.first, None);
}

#[test]
fn prepare_output_follows_the_bottom() {
    let mut app = App::new(args());
    app.append_output(&chars("1\n2\n3\n4\n5\npend"));
    let plan = app.prepare_output(Area::new(0, 0, 20, 3)).unwrap();
    assert_eq!(app.last_total_visual_lines, 6);
    assert_eq!(app.last_scroll, 3);
    assert_eq!(plan.window.first, Some(3));
    assert_eq!(plan.window.end, 6);
    assert_eq!(plan.pending_text, "pend");
    assert_eq!(app.last_output_height, 3);
}

#[test]
fn prepare_output_keeps_a_paused_view_inside_the_output() {
    let mut app = App::new(args());
    app.append_output(&chars("1\n2\n3\n"));
    app.auto_scroll = false;
    app.scroll_top = 50;
    app.prepare_output(Area::new(0, 0, 20, 2)).unwrap();
    assert_eq!(app.scroll_top, 1);
    assert_eq!(app.last_scroll, 1);
}

#[test]
fn prepare_output_shows_the_error_instead() {
    let mut app = App::new(args());
    app.port_error = Some("no such port".to_string());
    assert!(app.prepare_output(Area::new(1, 1, 10, 5)).is_none());
    assert_eq!(app.last_output_area, Area::new(1, 1, 10, 5));
}

#[test]
fn events_are_taken_in_until_disconnected() {
    let mut app = App::new(args());
    app.handle_open = true;
    let events = vec![
        SerialEvent::Data(b"abc\n".to_vec()),
        SerialEvent::Error("oops".to_string()),
        SerialEvent::Disconnected,
        SerialEvent::Data(b"late\n".to_vec()),
    ];
    app.apply_serial_events(events, false);
    assert_eq!(
        texts(&app),
        vec!["abc".to_string(), "[Error: oops]".to_string(), "[Disconnected]".to_string()]
    );
    assert!(!app.handle_open);
}

#[test]
fn a_lost_worker_is_reported() {
    let mut app = App::new(args());
    app.handle_open = true;
    app.apply_serial_events(vec![SerialEvent::Data(b"x".to_vec())], true);
    assert_eq!(texts(&app), vec!["x[Connection lost]".to_string()]);
    assert!(!app.handle_open);
}

#[test]
fn invalid_utf8_is_replaced() {
    let mut app = App::new(args());
    app.apply_serial_events(vec![SerialEvent::Data(vec![0x41, 0xff, 0x0a])], false);
    assert_eq!(texts(&app), vec!["A\u{FFFD}".to_string()]);
}

#[test]
fn finishing_a_connection() {
    let mut app = App::new(args());
    app.finish_connect(Ok(()));
    assert!(app.handle_open);
    assert_eq!(texts(&app), vec!["[Connected]".to_string()]);
    app.finish_connect(Err("busy".to_string()));
    assert_eq!(app.port_error, Some("busy".to_string()));
    assert_eq!(app.connection_status, seriust::app::ConnectionStatus::Disconnected);
}

#[test]
fn effects_compare() {
    assert!(matches!(Effect::Send(vec![1]), Effect::Send(ref v) if v == &vec![1u8]));
}

