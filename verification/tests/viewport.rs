use least::render::RenderOp;
use least::state::{Effect, KeyEvent, Mode, WindowState};

fn doc(lines: &[&str]) -> Vec<String> {
    lines.iter().map(|l| l.to_string()).collect()
}

fn five_lines() -> WindowState {
    WindowState::new(doc(&["l0", "l1", "l2", "l3", "l4"]), 3, 10)
}

#[test]
fn new_starts_at_top() {
    let s = five_lines();
    assert_eq!(s.content_top, 0);
    assert_eq!(s.content_bottom, 3);
    assert_eq!(s.content_len, 5);
    assert!(s.search_results.is_empty());
    assert!(matches!(s.mode, Mode::Viewing));
}

#[test]
fn new_short_document() {
    let s = WindowState::new(doc(&["only"]), 3, 10);
    assert_eq!(s.content_bottom, 1);
    let s = WindowState::new(Vec::new(), 3, 10);
    assert_eq!(s.content_bottom, 0);
    assert_eq!(s.content_len, 0);
}

#[test]
fn jump_to_shows_window() {
    let s = five_lines();
    let (s, ops) = s.jump_to_line(&0);
    assert_eq!(s.content_top, 0);
    assert_eq!(s.content_bottom, 3);
    assert_eq!(
        ops,
        vec![
            RenderOp::Clear,
            RenderOp::MoveCursor { row: 0, col: 0 },
            RenderOp::WriteText { text: "l0".to_string() },
            RenderOp::MoveCursor { row: 1, col: 0 },
            RenderOp::WriteText { text: "l1".to_string() },
            RenderOp::MoveCursor { row: 2, col: 0 },
            RenderOp::WriteText { text: "l2".to_string() },
            RenderOp::Refresh,
        ]
    );
}

#[test]
fn jump_to_clamps_as_noop() {
    let s = five_lines();
    let (s, ops) = s.jump_to_line(&-1);
    assert_eq!(s.content_top, 0);
    assert!(ops.is_empty());
    let (s, ops) = s.jump_to_line(&6);
    assert_eq!(s.content_top, 0);
    assert!(ops.is_empty());
    // The document's very end is still in range: an empty window.
    let (s, ops) = s.jump_to_line(&5);
    assert_eq!(s.content_top, 5);
    assert_eq!(s.content_bottom, 5);
    assert_eq!(ops, vec![RenderOp::Clear, RenderOp::Refresh]);
}

#[test]
fn scroll_scenario() {
    // Five lines, a window of three rows.
    let s = five_lines();
    let (s, _) = s.jump_to_line(&0);
    assert_eq!((s.content_top, s.content_bottom), (0, 3));
    // One line down: lines 1-3.
    let (s, _, e) = s.handle_key(KeyEvent::Char('j'));
    assert_eq!(e, Effect::Continue);
    assert_eq!((s.content_top, s.content_bottom), (1, 4));
    // Half a screen (one row) down: lines 2-4.
    let (s, _, _) = s.handle_key(KeyEvent::Char('d'));
    assert_eq!((s.content_top, s.content_bottom), (2, 5));
}

#[test]
fn line_and_half_screen_keys() {
    let s = five_lines();
    let (s, _, _) = s.handle_key(KeyEvent::Down);
    assert_eq!(s.content_top, 1);
    let (s, _, _) = s.handle_key(KeyEvent::Up);
    assert_eq!(s.content_top, 0);
    // Up from the top clamps.
    let (s, ops, _) = s.handle_key(KeyEvent::Char('k'));
    assert_eq!(s.content_top, 0);
    assert!(ops.is_empty());
    // Half-screen moves clamp at the ends.
    let (s, _, _) = s.handle_key(KeyEvent::PageDown);
    assert_eq!(s.content_top, 1);
    let (s, _, _) = s.handle_key(KeyEvent::PageUp);
    assert_eq!(s.content_top, 0);
    let (s, _, _) = s.handle_key(KeyEvent::PageUp);
    assert_eq!(s.content_top, 0);
}

#[test]
fn jump_to_top_key() {
    let s = five_lines();
    let (s, _, _) = s.handle_key(KeyEvent::Char('j'));
    let (s, _, _) = s.handle_key(KeyEvent::Char('j'));
    assert_eq!(s.content_top, 2);
    let (s, _, _) = s.handle_key(KeyEvent::Char('g'));
    assert_eq!(s.content_top, 0);
    assert_eq!(s.content_bottom, 3);
}

#[test]
fn quit_and_ignored_keys() {
    let s = five_lines();
    let (s, ops, e) = s.handle_key(KeyEvent::Char('q'));
    assert_eq!(e, Effect::Quit);
    assert!(ops.is_empty());
    let (s, ops, e) = s.handle_key(KeyEvent::Other);
    assert_eq!(e, Effect::Continue);
    assert!(ops.is_empty());
    let (s, ops, e) = s.handle_key(KeyEvent::Char('z'));
    assert_eq!(e, Effect::Continue);
    assert!(ops.is_empty());
    assert_eq!(s.content_top, 0);
}

#[test]
fn help_replaces_document() {
    let s = five_lines();
    let (s, _, _) = s.handle_key(KeyEvent::Char('j'));
    let (s, _) = s.search(&"l".to_string(), false);
    assert!(!s.search_results.is_empty());
    let (s, ops, e) = s.handle_key(KeyEvent::Char('h'));
    assert_eq!(e, Effect::Continue);
    assert_eq!(s.content_len, 1);
    assert_eq!(s.content_top, 0);
    assert_eq!(s.content_bottom, 1);
    assert!(s.lines[0].contains("Controls"));
    assert!(s.search_results.is_empty());
    assert!(matches!(ops[0], RenderOp::Clear));
    assert!(matches!(ops.last().unwrap(), RenderOp::Refresh));
}
