use least::render::{RenderOp, TextAttr};
use least::search::SearchMatch;
use least::state::{KeyEvent, WindowState};

fn doc(lines: &[&str]) -> Vec<String> {
    lines.iter().map(|l| l.to_string()).collect()
}

#[test]
fn search_stores_rotated_list_and_jumps() {
    let s = WindowState::new(doc(&["a", "b", "a", "c", "a"]), 2, 10);
    let (s, _) = s.search(&"a".to_string(), false);
    // The first match was visited at once: the window stands on line 0 and
    // the consumed match moved to the tail.
    assert_eq!(s.content_top, 0);
    assert_eq!(
        s.search_results,
        vec![
            SearchMatch { line: 2, start: 0, end: 1 },
            SearchMatch { line: 4, start: 0, end: 1 },
            SearchMatch { line: 0, start: 0, end: 1 },
        ]
    );
}

#[test]
fn reverse_search_reverses_the_whole_list() {
    let s = WindowState::new(doc(&["a", "b", "a", "c", "a"]), 2, 10);
    let (s, _) = s.search(&"a".to_string(), true);
    // Scanned [0, 2, 4], reversed to [4, 2, 0], then the head was visited
    // and rotated to the tail.
    assert_eq!(s.content_top, 4);
    assert_eq!(
        s.search_results,
        vec![
            SearchMatch { line: 2, start: 0, end: 1 },
            SearchMatch { line: 0, start: 0, end: 1 },
            SearchMatch { line: 4, start: 0, end: 1 },
        ]
    );
}

#[test]
fn next_cycles_through_matches() {
    let s = WindowState::new(doc(&["a", "b", "a", "c", "a"]), 2, 10);
    let (s, _) = s.search(&"a".to_string(), false);
    let list_before = s.search_results.clone();
    let top_before = s.content_top;
    // As many visits as there are matches bring the list back to the same
    // rotation, and the window back to the same match.
    let (s, _) = s.jump_to_next_search_result();
    assert_eq!(s.content_top, 2);
    let (s, _) = s.jump_to_next_search_result();
    assert_eq!(s.content_top, 4);
    let (s, _) = s.jump_to_next_search_result();
    assert_eq!(s.content_top, 0);
    assert_eq!(s.search_results, list_before);
    assert_eq!(s.content_top, top_before);
}

#[test]
fn next_then_last_restores_the_state() {
    let s = WindowState::new(doc(&["x", "y", "x"]), 2, 10);
    let (s, _) = s.search(&"x".to_string(), false);
    let list_before = s.search_results.clone();
    let top_before = s.content_top;
    let (s, _) = s.jump_to_next_search_result();
    assert_eq!(s.content_top, 2);
    let (s, _) = s.jump_to_last_search_result();
    assert_eq!(s.content_top, top_before);
    assert_eq!(s.search_results, list_before);
}

#[test]
fn next_without_session_is_noop() {
    let s = WindowState::new(doc(&["x", "y"]), 2, 10);
    let (s, ops) = s.jump_to_next_search_result();
    assert_eq!(s.content_top, 0);
    assert!(ops.is_empty());
}

#[test]
fn last_with_single_match_is_noop() {
    let s = WindowState::new(doc(&["x", "y"]), 2, 10);
    let (s, _) = s.search(&"x".to_string(), false);
    assert_eq!(s.search_results.len(), 1);
    let top = s.content_top;
    let (s, ops) = s.jump_to_last_search_result();
    assert_eq!(s.content_top, top);
    assert!(ops.is_empty());
    assert_eq!(s.search_results.len(), 1);
}

#[test]
fn search_without_matches_is_harmless() {
    let s = WindowState::new(doc(&["x", "y"]), 2, 10);
    let (s, ops) = s.search(&"zz".to_string(), false);
    assert!(s.search_results.is_empty());
    assert!(ops.is_empty());
    assert_eq!(s.content_top, 0);
}

#[test]
fn search_with_empty_pattern_stores_nothing() {
    let s = WindowState::new(doc(&["x", "y"]), 2, 10);
    let (s, _, _) = s.handle_key(KeyEvent::Char('j'));
    let (s, ops) = s.search(&String::new(), false);
    assert!(s.search_results.is_empty());
    assert!(ops.is_empty());
    assert_eq!(s.content_top, 1);
}

#[test]
fn highlight_paints_only_the_hit_span() {
    let s = WindowState::new(doc(&["abc"]), 2, 10);
    let (s, _) = s.search(&"b".to_string(), false);
    let ops = s.highlight_search_results();
    assert_eq!(
        ops,
        vec![
            RenderOp::MoveCursor { row: 0, col: 1 },
            RenderOp::SetAttribute { attr: TextAttr::Highlight },
            RenderOp::WriteText { text: "b".to_string() },
            RenderOp::SetAttribute { attr: TextAttr::Normal },
            RenderOp::Refresh,
        ]
    );
}

#[test]
fn highlight_keeps_every_hit_on_a_shared_line() {
    // Two matches on one visible line: each repaints its own span alone,
    // so neither write covers the other's highlight.
    let s = WindowState::new(doc(&["foo bar foo"]), 2, 20);
    let (s, _) = s.search(&"foo".to_string(), false);
    let ops = s.highlight_search_results();
    assert_eq!(
        ops,
        vec![
            RenderOp::MoveCursor { row: 0, col: 8 },
            RenderOp::SetAttribute { attr: TextAttr::Highlight },
            RenderOp::WriteText { text: "foo".to_string() },
            RenderOp::SetAttribute { attr: TextAttr::Normal },
            RenderOp::Refresh,
            RenderOp::MoveCursor { row: 0, col: 0 },
            RenderOp::SetAttribute { attr: TextAttr::Highlight },
            RenderOp::WriteText { text: "foo".to_string() },
            RenderOp::SetAttribute { attr: TextAttr::Normal },
            RenderOp::Refresh,
        ]
    );
    // No write strays outside a hit span: every written text is a hit.
    for op in &ops {
        if let RenderOp::WriteText { text } = op {
            assert_eq!(text, "foo");
        }
    }
}

#[test]
fn highlight_skips_matches_off_screen() {
    // Six lines, a window of two rows: after the search the window shows
    // lines 0 and 1, so the match on line 5 paints nothing.
    let mut lines = vec!["hit here".to_string()];
    for _ in 0..4 {
        lines.push("-".to_string());
    }
    lines.push("hit again".to_string());
    let s = WindowState::new(lines, 2, 10);
    let (s, _) = s.search(&"hit".to_string(), false);
    assert_eq!(s.content_top, 0);
    assert_eq!(s.content_bottom, 2);
    let ops = s.highlight_search_results();
    // Only the line-0 match paints: a move to its span, the highlighted
    // hit, the restored attribute, a refresh.
    assert_eq!(ops.len(), 5);
    assert_eq!(ops[0], RenderOp::MoveCursor { row: 0, col: 0 });
    assert_eq!(ops[2], RenderOp::WriteText { text: "hit".to_string() });
}

#[test]
fn next_key_and_last_key_drive_traversal() {
    let s = WindowState::new(doc(&["m", "-", "m", "-", "m"]), 1, 10);
    let (s, _) = s.search(&"m".to_string(), false);
    let (s, _, _) = s.handle_key(KeyEvent::Char('n'));
    assert_eq!(s.content_top, 2);
    let (s, _, _) = s.handle_key(KeyEvent::Char('N'));
    assert_eq!(s.content_top, 0);
}
