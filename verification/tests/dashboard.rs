//! Behavioral tests of the dashboard core: buffer ingestion and eviction,
//! viewport math, the input-line state machine and colored-text decoding.

use openbot_cli::config::{AppConfig, AppType, TuiConfig};
use openbot_cli::render::decode_line;
use openbot_cli::textline::trim_chars;
use openbot_cli::tui::{EventOutcome, InputEvent, LoopStatus, TuiApp};
use openbot_cli::viewport::window_bounds;

fn chars(s: &str) -> Vec<char> {
    s.chars().collect()
}

fn lines(v: &[&str]) -> Vec<String> {
    v.iter().map(|s| s.to_string()).collect()
}

fn type_line(app: &mut TuiApp, s: &str) {
    for c in s.chars() {
        app.insert_char(c);
    }
}

#[test]
fn overflow_keeps_most_recent_three() {
    let mut app = TuiApp::new();
    app.ingest(lines(&["a", "b", "c", "d"]), 3);
    assert_eq!(app.logs, lines(&["b", "c", "d"]));
}

#[test]
fn under_capacity_keeps_everything_in_order() {
    let mut app = TuiApp::new();
    app.ingest(lines(&["one", "two"]), 5);
    assert_eq!(app.logs, lines(&["one", "two"]));
    app.ingest(lines(&["three"]), 5);
    assert_eq!(app.logs, lines(&["one", "two", "three"]));
}

#[test]
fn overflow_across_ingestion_steps() {
    let mut app = TuiApp::new();
    app.ingest(lines(&["a", "b", "c"]), 4);
    app.ingest(lines(&["d", "e"]), 4);
    assert_eq!(app.logs, lines(&["b", "c", "d", "e"]));
    assert_eq!(app.logs.len(), 4.min(5));
}

#[test]
fn enforce_capacity_drops_oldest_first() {
    let mut app = TuiApp::new();
    for l in ["a", "b", "c", "d", "e"] {
        app.push_line(l.to_string());
    }
    app.enforce_capacity(2);
    assert_eq!(app.logs, lines(&["d", "e"]));
}

#[test]
fn window_scenario_total_ten_height_four_offset_two() {
    let (clamped, start, end) = window_bounds(10, 4, 2);
    assert_eq!(clamped, 2);
    assert_eq!((start, end), (4, 8));
}

#[test]
fn window_stays_within_bounds_on_edge_inputs() {
    // Empty buffer, any offset.
    let (clamped, start, end) = window_bounds(0, 5, 10);
    assert_eq!((clamped, start, end), (0, 0, 0));
    // Buffer shorter than the viewport.
    let (clamped, start, end) = window_bounds(3, 10, 0);
    assert_eq!((clamped, start, end), (0, 0, 3));
    // Offset far beyond the clamp.
    let (clamped, start, end) = window_bounds(10, 4, 100);
    assert_eq!((clamped, start, end), (6, 0, 4));
    // Zero visible height.
    let (clamped, start, end) = window_bounds(7, 0, 2);
    assert!(start <= end && end <= 7 && end - start == 0);
    assert_eq!(clamped, 2);
}

#[test]
fn frame_clamp_updates_stored_offset() {
    let mut app = TuiApp::new();
    app.ingest(lines(&["a", "b", "c", "d", "e", "f"]), 100);
    app.scroll_up();  // offset -> min(5, 6 - 3) = 3
    assert_eq!(app.scroll_offset, 3);
    let (start, end) = app.clamp_and_window(4);
    // max_scroll = 6 - 4 = 2, so the offset re-clamps to 2.
    assert_eq!(app.scroll_offset, 2);
    assert_eq!((start, end), (0, 4));
}

#[test]
fn scroll_up_then_down_round_trips_without_clamp() {
    let mut app = TuiApp::new();
    let many: Vec<String> = (0..20).map(|i| format!("line {i}")).collect();
    app.ingest(many, 100);
    app.scroll_up();
    assert_eq!(app.scroll_offset, 5);
    app.scroll_down();
    assert_eq!(app.scroll_offset, 0);
}

#[test]
fn scroll_up_clamped_by_soft_ceiling() {
    let mut app = TuiApp::new();
    app.ingest(lines(&["a", "b", "c", "d"]), 10);
    app.scroll_up();  // ceiling = 4 - 3 = 1
    assert_eq!(app.scroll_offset, 1);
    app.scroll_down();
    assert_eq!(app.scroll_offset, 0);
}

#[test]
fn typed_exit_terminates_the_loop() {
    let mut app = TuiApp::new();
    type_line(&mut app, "exi");
    let mid = app.apply_event(InputEvent::Char('t'));
    assert!(matches!(mid, EventOutcome::Continue));
    assert_eq!(app.status, LoopStatus::Running);
    let out = app.apply_event(InputEvent::Enter);
    assert!(matches!(out, EventOutcome::Terminate));
    assert_eq!(app.status, LoopStatus::Terminated);
    assert!(app.input.is_empty());
    assert_eq!(app.scroll_offset, 0);
}

#[test]
fn exit_terminates_whatever_the_prior_state() {
    let mut app = TuiApp::new();
    app.ingest(lines(&["a", "b", "c", "d", "e", "f", "g", "h"]), 100);
    app.scroll_up();
    type_line(&mut app, "  exit \t");
    let out = app.apply_event(InputEvent::Enter);
    assert!(matches!(out, EventOutcome::Terminate));
    assert_eq!(app.status, LoopStatus::Terminated);
}

#[test]
fn escape_terminates_directly() {
    let mut app = TuiApp::new();
    type_line(&mut app, "half-typed");
    let out = app.apply_event(InputEvent::Esc);
    assert!(matches!(out, EventOutcome::Terminate));
    assert_eq!(app.status, LoopStatus::Terminated);
    // The input buffer is left as it was.
    assert_eq!(app.input, chars("half-typed"));
}

#[test]
fn whitespace_only_submit_changes_nothing() {
    let mut app = TuiApp::new();
    app.ingest(lines(&["a", "b", "c", "d", "e", "f"]), 100);
    app.scroll_up();
    let offset_before = app.scroll_offset;
    type_line(&mut app, " \t  ");
    let out = app.apply_event(InputEvent::Enter);
    assert!(matches!(out, EventOutcome::Continue));
    assert_eq!(app.input, chars(" \t  "));
    assert_eq!(app.logs, lines(&["a", "b", "c", "d", "e", "f"]));
    assert_eq!(app.scroll_offset, offset_before);
    assert_eq!(app.status, LoopStatus::Running);
}

#[test]
fn empty_submit_changes_nothing() {
    let mut app = TuiApp::new();
    let out = app.apply_event(InputEvent::Enter);
    assert!(matches!(out, EventOutcome::Continue));
    assert!(app.input.is_empty());
    assert_eq!(app.status, LoopStatus::Running);
}

#[test]
fn unknown_command_is_reported_and_clears_input() {
    let mut app = TuiApp::new();
    app.ingest(lines(&["x", "y", "z", "w"]), 100);
    app.scroll_up();
    type_line(&mut app, "  hello ");
    let out = app.apply_event(InputEvent::Enter);
    match out {
        EventOutcome::ReportUnknown(cmd) => assert_eq!(cmd, chars("hello")),
        other => panic!("expected ReportUnknown, got {other:?}"),
    }
    assert!(app.input.is_empty());
    assert_eq!(app.scroll_offset, 0);
    assert_eq!(app.status, LoopStatus::Running);
    assert_eq!(app.logs, lines(&["x", "y", "z", "w"]));
}

#[test]
fn backspace_removes_last_character_only() {
    let mut app = TuiApp::new();
    app.apply_event(InputEvent::Char('h'));
    app.apply_event(InputEvent::Char('i'));
    app.apply_event(InputEvent::Backspace);
    assert_eq!(app.input, chars("h"));
    app.apply_event(InputEvent::Backspace);
    app.apply_event(InputEvent::Backspace);
    assert!(app.input.is_empty());
}

#[test]
fn resize_and_ignored_events_change_nothing() {
    let mut app = TuiApp::new();
    type_line(&mut app, "abc");
    app.ingest(lines(&["l"]), 10);
    let out = app.apply_event(InputEvent::Resize);
    assert!(matches!(out, EventOutcome::Continue));
    let out = app.apply_event(InputEvent::Other);
    assert!(matches!(out, EventOutcome::Continue));
    assert_eq!(app.input, chars("abc"));
    assert_eq!(app.logs, lines(&["l"]));
    assert_eq!(app.status, LoopStatus::Running);
}

#[test]
fn cycle_drains_even_without_an_event() {
    let mut app = TuiApp::new();
    let out = app.cycle(None, lines(&["a", "b"]), 10);
    assert!(matches!(out, EventOutcome::Continue));
    assert_eq!(app.logs, lines(&["a", "b"]));
    assert_eq!(app.status, LoopStatus::Running);
}

#[test]
fn cycle_applies_event_and_enforces_capacity() {
    let mut app = TuiApp::new();
    app.ingest(lines(&["a", "b"]), 10);
    let out = app.cycle(Some(InputEvent::Char('q')), lines(&["c", "d"]), 3);
    assert!(matches!(out, EventOutcome::Continue));
    assert_eq!(app.input, chars("q"));
    assert_eq!(app.logs, lines(&["b", "c", "d"]));
    let out = app.cycle(Some(InputEvent::Esc), lines(&["e"]), 3);
    assert!(matches!(out, EventOutcome::Terminate));
    assert_eq!(app.status, LoopStatus::Terminated);
    assert_eq!(app.logs, lines(&["c", "d", "e"]));
}

#[test]
fn decoding_keeps_raw_text_of_undecodable_line() {
    let raw = "\u{1b}[99;§invalid escape\u{7}";
    let line = decode_line(raw.to_string());
    assert_eq!(line.raw, raw);
}

#[test]
fn decoding_valid_ansi_yields_styled_text_and_raw() {
    let raw = "\u{1b}[31mred\u{1b}[0m plain";
    let line = decode_line(raw.to_string());
    assert_eq!(line.raw, raw);
    assert!(line.styled.is_some());
}

#[test]
fn decode_window_keeps_order_and_raw_lines() {
    let logs = lines(&["a", "\u{1b}[32mb\u{1b}[0m", "c", "d"]);
    let window = openbot_cli::render::decode_window(&logs, 1, 3);
    assert_eq!(window.len(), 2);
    assert_eq!(window[0].raw, "\u{1b}[32mb\u{1b}[0m");
    assert_eq!(window[1].raw, "c");
}

#[test]
fn trimming_removes_surrounding_whitespace_only() {
    assert_eq!(trim_chars(&chars("  a b\t")), chars("a b"));
    assert_eq!(trim_chars(&chars("exit")), chars("exit"));
    assert_eq!(trim_chars(&chars(" \u{a0}\u{2003} ")), Vec::<char>::new());
    assert_eq!(trim_chars(&chars("")), Vec::<char>::new());
}

#[test]
fn default_config_values() {
    let config = AppConfig::default();
    assert!(matches!(config.app_type, AppType::CLI));
    assert_eq!(config.tui.refresh_millis, 5);
    assert_eq!(config.tui.logs_max, 1000);
}

#[test]
fn poll_timeout_is_floored() {
    let tui = TuiConfig { refresh_millis: 0, logs_max: 10 };
    assert_eq!(tui.effective_timeout_millis(), 5);
    let tui = TuiConfig { refresh_millis: 40, logs_max: 10 };
    assert_eq!(tui.effective_timeout_millis(), 40);
}
