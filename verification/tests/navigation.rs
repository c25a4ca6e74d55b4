use tview::editor::{handle_key, move_cursor, new_editor, scroll, set_window_size, Action, Editor};
use tview::files::load_file;
use tview::keys::Key;

fn editor_with_lines(n: usize) -> Editor {
    let mut e = new_editor();
    let lines: Vec<Vec<u8>> = (0..n).map(|i| format!("line {}", i).into_bytes()).collect();
    load_file(&mut e, lines, &b"test.txt".to_vec());
    set_window_size(&mut e, 80, 25);
    e
}

#[test]
fn arrow_down_clamps_to_content_len() {
    let mut e = editor_with_lines(3);
    for _ in 0..5 {
        move_cursor(Key::ArrowDown, &mut e);
    }
    assert_eq!(e.cursor_y, 3);
}

#[test]
fn arrow_up_stops_at_zero() {
    let mut e = editor_with_lines(3);
    for _ in 0..4 {
        move_cursor(Key::ArrowUp, &mut e);
    }
    assert_eq!(e.cursor_y, 0);
    move_cursor(Key::ArrowDown, &mut e);
    move_cursor(Key::ArrowUp, &mut e);
    move_cursor(Key::ArrowUp, &mut e);
    assert_eq!(e.cursor_y, 0);
}

#[test]
fn arrow_right_clamps_to_last_column() {
    let mut e = editor_with_lines(1);
    for _ in 0..100 {
        move_cursor(Key::ArrowRight, &mut e);
    }
    assert_eq!(e.cursor_x, 79);
}

#[test]
fn arrow_left_stops_at_zero() {
    let mut e = editor_with_lines(1);
    move_cursor(Key::ArrowLeft, &mut e);
    assert_eq!(e.cursor_x, 0);
    move_cursor(Key::ArrowRight, &mut e);
    move_cursor(Key::ArrowLeft, &mut e);
    move_cursor(Key::ArrowLeft, &mut e);
    assert_eq!(e.cursor_x, 0);
}

#[test]
fn home_and_end_jump_to_column_edges() {
    let mut e = editor_with_lines(2);
    move_cursor(Key::End, &mut e);
    assert_eq!(e.cursor_x, 79);
    move_cursor(Key::Home, &mut e);
    assert_eq!(e.cursor_x, 0);
}

#[test]
fn quit_key_requests_termination_and_touches_nothing() {
    let mut e = editor_with_lines(3);
    move_cursor(Key::ArrowDown, &mut e);
    move_cursor(Key::ArrowRight, &mut e);
    let action = handle_key(Key::Literal(b'q'), &mut e);
    assert_eq!(action, Action::Quit);
    assert_eq!(e.cursor_y, 1);
    assert_eq!(e.cursor_x, 1);
    assert_eq!(e.offset_y, 0);
}

#[test]
fn navigation_keys_move_through_dispatch() {
    let mut e = editor_with_lines(3);
    let action = handle_key(Key::ArrowDown, &mut e);
    assert_eq!(action, Action::Continue);
    assert_eq!(e.cursor_y, 1);
}

#[test]
fn other_keys_are_ignored() {
    let mut e = editor_with_lines(3);
    for key in [Key::Literal(b'x'), Key::Delete, Key::PageUp, Key::PageDown] {
        let action = handle_key(key, &mut e);
        assert_eq!(action, Action::Continue);
        assert_eq!(e.cursor_y, 0);
        assert_eq!(e.cursor_x, 0);
    }
}

#[test]
fn new_editor_starts_zeroed() {
    let e = new_editor();
    assert_eq!(e.cursor_x, 0);
    assert_eq!(e.cursor_y, 0);
    assert_eq!(e.columns, 0);
    assert_eq!(e.rows, 0);
    assert_eq!(e.offset_y, 0);
    assert!(e.content.is_empty());
    assert!(e.filename.is_empty());
}

#[test]
fn set_window_size_reserves_status_bar_row() {
    let mut e = new_editor();
    set_window_size(&mut e, 40, 12);
    assert_eq!(e.columns, 40);
    assert_eq!(e.rows, 11);
}

#[test]
fn scroll_down_reveals_cursor_as_last_row() {
    let mut e = editor_with_lines(50);
    for _ in 0..30 {
        move_cursor(Key::ArrowDown, &mut e);
    }
    scroll(&mut e);
    // rows == 24, so line 30 is visible exactly when offset_y == 30 - 24 + 1.
    assert_eq!(e.offset_y, 7);
    assert!(e.offset_y <= e.cursor_y && e.cursor_y < e.offset_y + e.rows);
}

#[test]
fn scroll_up_makes_cursor_first_row() {
    let mut e = editor_with_lines(50);
    e.cursor_y = 2;
    e.offset_y = 10;
    scroll(&mut e);
    assert_eq!(e.offset_y, 2);
    assert!(e.offset_y <= e.cursor_y && e.cursor_y < e.offset_y + e.rows);
}

#[test]
fn scroll_leaves_visible_cursor_alone() {
    let mut e = editor_with_lines(50);
    e.cursor_y = 5;
    e.offset_y = 3;
    scroll(&mut e);
    assert_eq!(e.offset_y, 3);
    assert!(e.offset_y <= e.cursor_y && e.cursor_y < e.offset_y + e.rows);
}
