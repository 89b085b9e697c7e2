use shell::line_editor::{edit_keys, KeyAction, LineEditor};

fn feed_all(ed: &mut LineEditor, bytes: &[u8]) -> Vec<KeyAction> {
    bytes.iter().map(|b| ed.feed(*b)).collect()
}

#[test]
fn edit_cycle_with_backspace_and_left_arrow() {
    // "abc", backspace, left arrow, then "x": the x goes between a and b.
    let keys = b"abc\x7f\x1b[Dx\r";
    let (line, entered) = edit_keys(keys);
    assert!(entered);
    assert_eq!(line, "axb");
}

#[test]
fn editor_reports_actions() {
    let mut ed = LineEditor::new();
    let actions = feed_all(&mut ed, b"hi\x1b[D");
    assert_eq!(
        actions,
        vec![KeyAction::Redraw, KeyAction::Redraw, KeyAction::Pending, KeyAction::Pending, KeyAction::Redraw]
    );
    assert_eq!(ed.cursor(), 1);
    assert_eq!(ed.cursor_column(2), 4);
    assert_eq!(ed.feed(b'\n'), KeyAction::Finish);
    assert_eq!(ed.line(), "hi");
}

#[test]
fn cursor_moves_are_clamped() {
    let mut ed = LineEditor::new();
    feed_all(&mut ed, b"\x1b[D\x1b[D");
    assert_eq!(ed.cursor(), 0);
    feed_all(&mut ed, b"ab\x1b[C\x1b[C");
    assert_eq!(ed.cursor(), 2);
    feed_all(&mut ed, b"\x1b[D\x1b[D\x1b[C");
    assert_eq!(ed.cursor(), 1);
    assert_eq!(ed.line(), "ab");
}

#[test]
fn backspace_at_start_does_nothing() {
    let (line, entered) = edit_keys(b"\x08ab\x1b[D\x1b[D\x08\x7fc\n");
    assert!(entered);
    assert_eq!(line, "cab");
}

#[test]
fn end_of_transmission_returns_line_so_far() {
    let (line, entered) = edit_keys(b"ls\x04more");
    assert!(!entered);
    assert_eq!(line, "ls");
}

#[test]
fn control_bytes_and_unknown_escapes_are_ignored() {
    let (line, entered) = edit_keys(b"a\x01\x1bOxb\x1b[Zc\r");
    assert!(entered);
    assert_eq!(line, "abc");
}

#[test]
fn clear_resets_the_editor() {
    let mut ed = LineEditor::new();
    feed_all(&mut ed, b"abc\x1b[D");
    ed.clear();
    assert_eq!(ed.line(), "");
    assert_eq!(ed.cursor(), 0);
}

#[test]
fn input_without_end_returns_not_entered() {
    let (line, entered) = edit_keys(b"pwd");
    assert!(!entered);
    assert_eq!(line, "pwd");
}
