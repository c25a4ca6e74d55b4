use tview::editor::{new_editor, set_window_size, Editor};
use tview::files::load_file;
use tview::render::{
    draw_content, draw_cursor, draw_status_bar, format_decimal, get_file_name,
    move_cursor_to_top_left, quit_screen_sequence, refresh_screen,
};

fn editor(columns: usize, total_rows: usize, lines: &[&[u8]], filename: &[u8]) -> Editor {
    let mut e = new_editor();
    e.content = lines.iter().map(|l| l.to_vec()).collect();
    e.filename = filename.to_vec();
    set_window_size(&mut e, columns, total_rows);
    e
}

#[test]
fn decimal_formatting_exact_values() {
    assert_eq!(format_decimal(0), b"0".to_vec());
    assert_eq!(format_decimal(7), b"7".to_vec());
    assert_eq!(format_decimal(10), b"10".to_vec());
    assert_eq!(format_decimal(305), b"305".to_vec());
    assert_eq!(format_decimal(1234567), b"1234567".to_vec());
}

#[test]
fn file_name_placeholder_when_empty() {
    let e = editor(40, 3, &[b"x"], b"");
    assert_eq!(get_file_name(&e), b"New File".to_vec());
}

#[test]
fn file_name_shown_when_present() {
    let e = editor(40, 3, &[b"x"], b"a.txt");
    assert_eq!(get_file_name(&e), b"a.txt".to_vec());
}

#[test]
fn status_bar_fills_terminal_width_exactly() {
    let mut e = editor(40, 6, &[b"one", b"two", b"three", b"four"], b"a.txt");
    e.cursor_y = 3;
    let mut out: Vec<u8> = Vec::new();
    draw_status_bar(&e, &mut out);
    assert!(out.starts_with(b"\x1b[7m"));
    assert!(out.ends_with(b"\x1b[0m"));
    let visible = &out[4..out.len() - 4];
    assert_eq!(visible.len(), 40);
    let mut expected: Vec<u8> = b" tview - a.txt".to_vec();
    expected.extend_from_slice(&vec![b' '; 18]);
    expected.extend_from_slice(b"Line: 3 ");
    assert_eq!(visible, expected.as_slice());
}

#[test]
fn status_bar_truncates_left_segment_when_narrow() {
    let e = editor(10, 3, &[b"x"], b"long-name.txt");
    let mut out: Vec<u8> = Vec::new();
    draw_status_bar(&e, &mut out);
    let visible = &out[4..out.len() - 4];
    assert_eq!(visible.len(), 10);
    // The right segment "Line: 0 " survives whole; the left is cut to fit.
    assert_eq!(visible, b" tLine: 0 ".as_slice());
}

#[test]
fn status_bar_truncates_right_segment_as_last_resort() {
    let e = editor(5, 3, &[b"x"], b"f");
    let mut out: Vec<u8> = Vec::new();
    draw_status_bar(&e, &mut out);
    let visible = &out[4..out.len() - 4];
    assert_eq!(visible, b"Line:".as_slice());
}

#[test]
fn content_rows_show_lines_then_tildes() {
    let e = editor(20, 4, &[b"ab", b"c"], b"");
    let mut out: Vec<u8> = Vec::new();
    draw_content(&e, &mut out);
    assert_eq!(out, b"ab\x1b[K\r\nc\x1b[K\r\n~\x1b[K\r\n".to_vec());
}

#[test]
fn content_rows_respect_scroll_offset() {
    let mut e = editor(20, 3, &[b"one", b"two", b"three"], b"");
    e.offset_y = 1;
    let mut out: Vec<u8> = Vec::new();
    draw_content(&e, &mut out);
    assert_eq!(out, b"two\x1b[K\r\nthree\x1b[K\r\n".to_vec());
}

#[test]
fn cursor_home_sequence() {
    let mut out: Vec<u8> = Vec::new();
    move_cursor_to_top_left(&mut out);
    assert_eq!(out, b"\x1b[H".to_vec());
}

#[test]
fn cursor_position_is_one_based_and_window_relative() {
    let mut e = editor(20, 6, &[b"a", b"b", b"c", b"d", b"e"], b"");
    e.cursor_y = 3;
    e.offset_y = 2;
    e.cursor_x = 4;
    let mut out: Vec<u8> = Vec::new();
    draw_cursor(&e, &mut out);
    assert_eq!(out, b"\x1b[2;5H".to_vec());
}

#[test]
fn full_frame_layout() {
    let mut e = new_editor();
    load_file(&mut e, vec![b"hi".to_vec()], &b"dir/h.txt".to_vec());
    set_window_size(&mut e, 20, 3);
    let frame = refresh_screen(&e);
    let mut expected: Vec<u8> = Vec::new();
    expected.extend_from_slice(b"\x1b[H");
    expected.extend_from_slice(b"hi\x1b[K\r\n~\x1b[K\r\n");
    // 20 columns hold the 14-byte left segment cut to 12 plus "Line: 0 ".
    expected.extend_from_slice(b"\x1b[7m tview - h.tLine: 0 \x1b[0m");
    expected.extend_from_slice(b"\x1b[1;1H");
    assert_eq!(frame, expected);
}

#[test]
fn quit_clears_screen_and_homes_cursor() {
    assert_eq!(quit_screen_sequence(), b"\x1b[2J\x1b[H".to_vec());
}
