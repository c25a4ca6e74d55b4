//! Editor state: cursor position, viewport size, scroll offset and content,
//! together with the state transitions driven by decoded keys.

use vstd::prelude::*;

use crate::keys::Key;

verus! {

/// The literal key that quits the program.
pub const QUIT_KEY: u8 = 113;  // 'q'

/// The whole state of the viewer.
///
/// `cursor_x` and `cursor_y` are zero-based logical coordinates; `cursor_y`
/// indexes a line of `content` (one past the last line is reachable) and
/// `cursor_x` a column of the viewport.  `rows` is the usable height: the
/// terminal's height minus the status bar row.  `offset_y` is the index of
/// the first visible content line.
pub struct Editor {
    pub cursor_x: usize,
    pub cursor_y: usize,
    pub columns: usize,
    pub rows: usize,
    pub offset_y: usize,
    pub content: Vec<Vec<u8>>,
    pub filename: Vec<u8>,
}

/// The mathematical model of an `Editor`.
pub ghost struct EditorView {
    pub cursor_x: int,
    pub cursor_y: int,
    pub columns: int,
    pub rows: int,
    pub offset_y: int,
    pub content: Seq<Seq<u8>>,
    pub filename: Seq<u8>,
}

impl View for Editor {
    type V = EditorView;

    open spec fn view(&self) -> EditorView {
        EditorView {
            cursor_x: self.cursor_x as int,
            cursor_y: self.cursor_y as int,
            columns: self.columns as int,
            rows: self.rows as int,
            offset_y: self.offset_y as int,
            content: self.content.deep_view(),
            filename: self.filename@,
        }
    }
}

/// Well-formedness: the viewport has at least one column and one row, the
/// cursor column lies within the viewport, and the cursor line and scroll
/// offset never pass one step beyond the content.
pub open spec fn wf(v: EditorView) -> bool {
    &&& 1 <= v.columns
    &&& 1 <= v.rows
    &&& 0 <= v.cursor_x < v.columns
    &&& 0 <= v.cursor_y <= v.content.len()
    &&& 0 <= v.offset_y <= v.content.len()
}

/// The cursor's line lies inside the visible window.
pub open spec fn cursor_visible(v: EditorView) -> bool {
    v.offset_y <= v.cursor_y < v.offset_y + v.rows
}

/// A fresh editor: everything zeroed and empty, to be populated by loading
/// content and measuring the terminal.
pub fn new_editor() -> (e: Editor)
    ensures
        e.cursor_x == 0,
        e.cursor_y == 0,
        e.columns == 0,
        e.rows == 0,
        e.offset_y == 0,
        e@.content == Seq::<Seq<u8>>::empty(),
        e@.filename == Seq::<u8>::empty(),
{
    let e = Editor {
        cursor_x: 0,
        cursor_y: 0,
        columns: 0,
        rows: 0,
        offset_y: 0,
        content: Vec::new(),
        filename: Vec::new(),
    };
    proof {
        assert(e@.content =~= Seq::<Seq<u8>>::empty());
        assert(e@.filename =~= Seq::<u8>::empty());
    }
    e
}

/// What one key does to the cursor.  Vertical movement is clamped to
/// `[0, content.len()]`, horizontal movement to `[0, columns - 1]`; Home and
/// End jump to the first and last column.  Keys that are not navigation keys
/// leave the state unchanged.
pub open spec fn spec_move_cursor(v: EditorView, key: Key) -> EditorView {
    match key {
        Key::ArrowUp => if v.cursor_y > 0 {
            EditorView { cursor_y: v.cursor_y - 1, ..v }
        } else {
            v
        },
        Key::ArrowDown => if v.cursor_y < v.content.len() {
            EditorView { cursor_y: v.cursor_y + 1, ..v }
        } else {
            v
        },
        Key::ArrowLeft => if v.cursor_x > 0 {
            EditorView { cursor_x: v.cursor_x - 1, ..v }
        } else {
            v
        },
        Key::ArrowRight => if v.cursor_x < v.columns - 1 {
            EditorView { cursor_x: v.cursor_x + 1, ..v }
        } else {
            v
        },
        Key::Home => EditorView { cursor_x: 0, ..v },
        Key::End => EditorView { cursor_x: v.columns - 1, ..v },
        _ => v,
    }
}

/// Moves the cursor one step as `key` directs, with all clamping.
pub fn move_cursor(key: Key, editor: &mut Editor)
    requires
        wf(old(editor)@),
    ensures
        final(editor)@ == spec_move_cursor(old(editor)@, key),
        wf(final(editor)@),
{
    match key {
        Key::ArrowUp => {
            if editor.cursor_y > 0 {
                editor.cursor_y = editor.cursor_y - 1;
            }
        }
        Key::ArrowDown => {
            if editor.cursor_y < editor.content.len() {
                editor.cursor_y = editor.cursor_y + 1;
            }
        }
        Key::ArrowLeft => {
            if editor.cursor_x > 0 {
                editor.cursor_x = editor.cursor_x - 1;
            }
        }
        Key::ArrowRight => {
            if editor.cursor_x < editor.columns - 1 {
                editor.cursor_x = editor.cursor_x + 1;
            }
        }
        Key::Home => {
            editor.cursor_x = 0;
        }
        Key::End => {
            editor.cursor_x = editor.columns - 1;
        }
        _ => {}
    }
}

/// What a scroll adjustment does: if the cursor's line fell below the window,
/// scroll down just enough to show it as the last visible row; if it rose
/// above, make it the first visible row; otherwise change nothing.
pub open spec fn spec_scroll(v: EditorView) -> EditorView {
    if v.cursor_y >= v.offset_y + v.rows {
        EditorView { offset_y: v.cursor_y - v.rows + 1, ..v }
    } else if v.cursor_y < v.offset_y {
        EditorView { offset_y: v.cursor_y, ..v }
    } else {
        v
    }
}

/// Adjusts the scroll offset so the cursor's line is visible.
pub fn scroll(editor: &mut Editor)
    requires
        wf(old(editor)@),
    ensures
        final(editor)@ == spec_scroll(old(editor)@),
        wf(final(editor)@),
        cursor_visible(final(editor)@),
{
    if editor.cursor_y >= editor.offset_y && editor.cursor_y - editor.offset_y >= editor.rows {
        editor.offset_y = editor.cursor_y - editor.rows + 1;
    } else if editor.cursor_y < editor.offset_y {
        editor.offset_y = editor.cursor_y;
    }
}

/// After any scroll adjustment of a well-formed state the cursor is visible:
/// `offset_y <= cursor_y < offset_y + rows`, and the state is still
/// well formed.
pub proof fn lemma_scroll_keeps_cursor_visible(v: EditorView)
    requires
        wf(v),
    ensures
        wf(spec_scroll(v)),
        cursor_visible(spec_scroll(v)),
{
}

/// Whether a key drives cursor movement.
pub open spec fn spec_is_navigation(key: Key) -> bool {
    match key {
        Key::ArrowUp | Key::ArrowDown | Key::ArrowLeft | Key::ArrowRight | Key::Home
            | Key::End => true,
        _ => false,
    }
}

/// What the control loop should do after a key was dispatched.
#[derive(Clone, Copy, Debug, PartialEq, Eq, Structural)]
pub enum Action {
    /// Keep running.
    Continue,
    /// Quit: clear the screen, restore the terminal and exit successfully.
    Quit,
}

/// Dispatches one decoded key: the literal quit key asks for termination and
/// touches nothing, navigation keys move the cursor, every other key is
/// ignored.
pub fn handle_key(key: Key, editor: &mut Editor) -> (r: Action)
    requires
        wf(old(editor)@),
    ensures
        wf(final(editor)@),
        key == Key::Literal(QUIT_KEY) ==> r == Action::Quit && final(editor)@ == old(editor)@,
        key != Key::Literal(QUIT_KEY) ==> r == Action::Continue,
        key != Key::Literal(QUIT_KEY) && spec_is_navigation(key) ==> final(editor)@
            == spec_move_cursor(old(editor)@, key),
        key != Key::Literal(QUIT_KEY) && !spec_is_navigation(key) ==> final(editor)@
            == old(editor)@,
{
    match key {
        Key::Literal(b) => {
            if b == QUIT_KEY {
                Action::Quit
            } else {
                Action::Continue
            }
        }
        Key::ArrowUp | Key::ArrowDown | Key::ArrowLeft | Key::ArrowRight | Key::Home
            | Key::End => {
            move_cursor(key, editor);
            Action::Continue
        }
        _ => Action::Continue,
    }
}

/// The state after a whole sequence of keys has moved the cursor, first key
/// first.
pub open spec fn spec_apply_keys(v: EditorView, keys: Seq<Key>) -> EditorView
    decreases keys.len(),
{
    if keys.len() == 0 {
        v
    } else {
        spec_apply_keys(spec_move_cursor(v, keys[0]), keys.drop_first())
    }
}

/// Cursor movement never disturbs anything but the cursor: after any sequence
/// of keys the state is still well formed, and content, viewport size and
/// scroll offset are untouched.
pub proof fn lemma_apply_keys_preserves_wf(v: EditorView, keys: Seq<Key>)
    requires
        wf(v),
    ensures
        wf(spec_apply_keys(v, keys)),
        spec_apply_keys(v, keys).content == v.content,
        spec_apply_keys(v, keys).columns == v.columns,
        spec_apply_keys(v, keys).rows == v.rows,
        spec_apply_keys(v, keys).offset_y == v.offset_y,
    decreases keys.len(),
{
    if keys.len() > 0 {
        lemma_apply_keys_preserves_wf(spec_move_cursor(v, keys[0]), keys.drop_first());
    }
}

/// For every sequence of key presses on a well-formed state, the cursor stays
/// in bounds: its line never exceeds the number of content lines and never
/// goes below zero, and its column never exceeds `columns - 1` and never goes
/// below zero.  In particular this holds for any run of ArrowDown, ArrowUp,
/// ArrowRight or ArrowLeft presses.
pub proof fn lemma_cursor_stays_in_bounds(v: EditorView, keys: Seq<Key>)
    requires
        wf(v),
    ensures
        0 <= spec_apply_keys(v, keys).cursor_y <= v.content.len(),
        0 <= spec_apply_keys(v, keys).cursor_x <= v.columns - 1,
{
    lemma_apply_keys_preserves_wf(v, keys);
}

/// Records the measured terminal size: `columns` as given, and the usable
/// height `rows - 1`, the last terminal row being reserved for the status
/// bar.
pub fn set_window_size(editor: &mut Editor, columns: usize, rows: usize)
    requires
        1 <= columns,
        2 <= rows,
        old(editor).cursor_x < columns,
        old(editor)@.cursor_y <= old(editor)@.content.len(),
        old(editor)@.offset_y <= old(editor)@.content.len(),
    ensures
        final(editor)@ == (EditorView { columns: columns as int, rows: rows - 1, ..old(editor)@ }),
        wf(final(editor)@),
{
    editor.columns = columns;
    editor.rows = rows - 1;
}

} // verus!
