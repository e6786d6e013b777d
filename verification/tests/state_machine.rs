use least::document::LoadOutcome;
use least::state::{Effect, KeyEvent, Mode, WindowState};

fn doc(lines: &[&str]) -> Vec<String> {
    lines.iter().map(|l| l.to_string()).collect()
}

#[test]
fn open_file_missing_path_yields_error_document() {
    let s = WindowState::new(doc(&["old"]), 3, 30);
    let (s, _, _) = s.handle_key(KeyEvent::Char('j'));
    let (s, ops) = s.open_file(LoadOutcome::MissingFile { path: "/no/such/file".to_string() });
    assert_eq!(s.lines, vec!["Error: File \"/no/such/file\" does not exist".to_string()]);
    assert_eq!(s.content_top, 0);
    assert_eq!(s.content_len, 1);
    assert!(!ops.is_empty());
}

#[test]
fn open_file_directory_path_yields_error_document() {
    let s = WindowState::new(doc(&["old"]), 3, 30);
    let (s, _) = s.open_file(LoadOutcome::IsDirectory { path: "/tmp".to_string() });
    assert_eq!(s.lines, vec!["Error: \"/tmp\" is a directory".to_string()]);
    assert_eq!(s.content_top, 0);
}

#[test]
fn open_file_installs_lines_and_discards_session() {
    let s = WindowState::new(doc(&["aaa", "bbb"]), 3, 30);
    let (s, _) = s.search(&"a".to_string(), false);
    assert!(!s.search_results.is_empty());
    let (s, _) = s.open_file(LoadOutcome::Loaded { lines: doc(&["n0", "n1", "n2", "n3"]) });
    assert_eq!(s.lines, doc(&["n0", "n1", "n2", "n3"]));
    assert_eq!(s.content_len, 4);
    assert_eq!(s.content_top, 0);
    assert_eq!(s.content_bottom, 3);
    assert!(s.search_results.is_empty());
}

#[test]
fn open_prompt_collects_a_path() {
    let s = WindowState::new(doc(&["x"]), 3, 30);
    let (s, ops, e) = s.handle_key(KeyEvent::Char('o'));
    assert_eq!(e, Effect::Continue);
    assert!(matches!(s.mode, Mode::Prompting { .. }));
    assert_eq!(ops.len(), 2);
    let (s, _, _) = s.handle_key(KeyEvent::Char('a'));
    let (s, _, _) = s.handle_key(KeyEvent::Char('b'));
    let (s, _, _) = s.handle_key(KeyEvent::Char('c'));
    let (s, _, e) = s.handle_key(KeyEvent::Char('\n'));
    assert_eq!(e, Effect::LoadFile { path: "abc".to_string() });
    assert!(matches!(s.mode, Mode::Viewing));
}

#[test]
fn prompt_backspace_forms_are_equivalent() {
    // The named key and both raw codes erase one character alike.
    for key in [KeyEvent::Backspace, KeyEvent::Char('\u{7f}'), KeyEvent::Char('\u{8f}')] {
        let s = WindowState::new(doc(&["x"]), 3, 30);
        let (s, _, _) = s.handle_key(KeyEvent::Char('o'));
        let (s, _, _) = s.handle_key(KeyEvent::Char('a'));
        let (s, _, _) = s.handle_key(KeyEvent::Char('b'));
        let (s, ops, _) = s.handle_key(key);
        assert_eq!(ops.len(), 3);
        let (_, _, e) = s.handle_key(KeyEvent::Char('\n'));
        assert_eq!(e, Effect::LoadFile { path: "a".to_string() });
    }
}

#[test]
fn backspace_outside_a_prompt_does_nothing() {
    let s = WindowState::new(doc(&["x", "y"]), 3, 30);
    let (s, ops, e) = s.handle_key(KeyEvent::Backspace);
    assert_eq!(e, Effect::Continue);
    assert!(ops.is_empty());
    assert_eq!(s.content_top, 0);
    assert!(matches!(s.mode, Mode::Viewing));
}

#[test]
fn prompt_ignores_other_keys() {
    let s = WindowState::new(doc(&["x"]), 3, 30);
    let (s, _, _) = s.handle_key(KeyEvent::Char('o'));
    let (s, ops, e) = s.handle_key(KeyEvent::Up);
    assert_eq!(e, Effect::Continue);
    assert!(ops.is_empty());
    assert!(matches!(s.mode, Mode::Prompting { .. }));
}

#[test]
fn search_prompt_runs_the_search_on_submit() {
    let s = WindowState::new(doc(&["one", "two", "one"]), 2, 30);
    let (s, _, _) = s.handle_key(KeyEvent::Char('/'));
    let (s, _, _) = s.handle_key(KeyEvent::Char('o'));
    let (s, _, _) = s.handle_key(KeyEvent::Char('n'));
    let (s, _, _) = s.handle_key(KeyEvent::Char('e'));
    let (s, _, e) = s.handle_key(KeyEvent::Char('\n'));
    assert_eq!(e, Effect::Continue);
    assert!(matches!(s.mode, Mode::Viewing));
    assert_eq!(s.search_results.len(), 2);
    assert_eq!(s.content_top, 0);
    let (s, _, _) = s.handle_key(KeyEvent::Char('n'));
    assert_eq!(s.content_top, 2);
}

#[test]
fn reverse_search_prompt_records_the_direction() {
    let s = WindowState::new(doc(&["one", "two", "one"]), 2, 30);
    let (s, _, _) = s.handle_key(KeyEvent::Char('?'));
    let (s, _, _) = s.handle_key(KeyEvent::Char('o'));
    let (s, _, _) = s.handle_key(KeyEvent::Char('n'));
    let (s, _, _) = s.handle_key(KeyEvent::Char('e'));
    let (s, _, _) = s.handle_key(KeyEvent::Char('\n'));
    // Backward search visits the later match first.
    assert_eq!(s.content_top, 2);
}

#[test]
fn viewing_keys_do_not_reach_the_prompt() {
    // While prompting, a character that is a command in the browsing mode
    // is just input.
    let s = WindowState::new(doc(&["x"]), 3, 30);
    let (s, _, _) = s.handle_key(KeyEvent::Char('o'));
    let (s, _, e) = s.handle_key(KeyEvent::Char('q'));
    assert_eq!(e, Effect::Continue);
    let (_, _, e) = s.handle_key(KeyEvent::Char('\n'));
    assert_eq!(e, Effect::LoadFile { path: "q".to_string() });
}
