//! Frame rendering: one buffer of ANSI control sequences and text per frame,
//! holding the visible content rows, a reverse-video status bar that exactly
//! fills the terminal width, and a cursor-positioning sequence.

use vstd::prelude::*;

use crate::editor::{cursor_visible, wf, Editor, EditorView};

verus! {

/// Move the terminal cursor to the top-left corner: `ESC [ H`.
pub open spec fn spec_esc_home() -> Seq<u8> {
    seq![27u8, 91u8, 72u8]
}

/// Erase from the cursor to the end of the line: `ESC [ K`.
pub open spec fn spec_erase_line() -> Seq<u8> {
    seq![27u8, 91u8, 75u8]
}

/// Carriage return plus line feed.
pub open spec fn spec_crlf() -> Seq<u8> {
    seq![13u8, 10u8]
}

/// Swap foreground and background colors: `ESC [ 7 m`.
pub open spec fn spec_reverse_video() -> Seq<u8> {
    seq![27u8, 91u8, 55u8, 109u8]
}

/// Reset all styling: `ESC [ 0 m`.
pub open spec fn spec_reset_style() -> Seq<u8> {
    seq![27u8, 91u8, 48u8, 109u8]
}

/// Clear the whole screen: `ESC [ 2 J`.
pub open spec fn spec_clear_screen() -> Seq<u8> {
    seq![27u8, 91u8, 50u8, 74u8]
}

/// The decimal digits of `n`, most significant first, as ASCII bytes.
pub open spec fn spec_decimal(n: nat) -> Seq<u8>
    decreases n,
{
    if n < 10 {
        seq![(48 + n) as u8]
    } else {
        spec_decimal(n / 10).push((48 + n % 10) as u8)
    }
}

/// Writes `n` in decimal notation.
pub fn format_decimal(n: usize) -> (r: Vec<u8>)
    ensures
        r@ == spec_decimal(n as nat),
    decreases n,
{
    if n < 10 {
        let mut r: Vec<u8> = Vec::new();
        r.push(48 + (n as u8));
        proof {
            assert(r@ =~= spec_decimal(n as nat));
        }
        r
    } else {
        let mut r = format_decimal(n / 10);
        r.push(48 + ((n % 10) as u8));
        proof {
            assert(r@ =~= spec_decimal(n as nat));
        }
        r
    }
}

/// `n` spaces.
pub open spec fn spec_spaces(n: int) -> Seq<u8> {
    Seq::new(n as nat, |i: int| 32u8)
}

/// Appends the first `k` bytes of `src` to `dst`.
fn append_prefix(dst: &mut Vec<u8>, src: &Vec<u8>, k: usize)
    requires
        k <= src.len(),
    ensures
        final(dst)@ == old(dst)@ + src@.take(k as int),
{
    let mut j: usize = 0;
    while j < k
        invariant
            j <= k <= src.len(),
            dst@ == old(dst)@ + src@.take(j as int),
        decreases k - j,
    {
        dst.push(src[j]);
        proof {
            assert(src@.take(j + 1) =~= src@.take(j as int).push(src@[j as int]));
        }
        j = j + 1;
    }
}

/// Appends all of `src` to `dst`.
fn append_all(dst: &mut Vec<u8>, src: &Vec<u8>)
    ensures
        final(dst)@ == old(dst)@ + src@,
{
    let n = src.len();
    append_prefix(dst, src, n);
    proof {
        assert(src@.take(src@.len() as int) =~= src@);
    }
}

/// Appends `n` spaces to `dst`.
fn push_spaces(dst: &mut Vec<u8>, n: usize)
    ensures
        final(dst)@ == old(dst)@ + spec_spaces(n as int),
{
    let mut i: usize = 0;
    while i < n
        invariant
            i <= n,
            dst@ == old(dst)@ + spec_spaces(i as int),
        decreases n - i,
    {
        dst.push(32);
        proof {
            assert(old(dst)@ + spec_spaces(i + 1) =~= (old(dst)@ + spec_spaces(i as int)).push(
                32u8,
            ));
        }
        i = i + 1;
    }
}

/// The product label that opens the status bar: `" tview - "`.
pub open spec fn spec_product_label() -> Seq<u8> {
    seq![32u8, 116u8, 118u8, 105u8, 101u8, 119u8, 32u8, 45u8, 32u8]
}

/// The placeholder display name when no file was loaded: `"New File"`.
pub open spec fn spec_new_file_label() -> Seq<u8> {
    seq![78u8, 101u8, 119u8, 32u8, 70u8, 105u8, 108u8, 101u8]
}

/// The label that opens the line indicator: `"Line: "`.
pub open spec fn spec_line_label() -> Seq<u8> {
    seq![76u8, 105u8, 110u8, 101u8, 58u8, 32u8]
}

/// The name shown in the status bar: the filename, or the placeholder when
/// none was loaded.
pub open spec fn spec_display_name(filename: Seq<u8>) -> Seq<u8> {
    if filename.len() == 0 {
        spec_new_file_label()
    } else {
        filename
    }
}

/// The display name of the loaded file, or the placeholder label.
pub fn get_file_name(editor: &Editor) -> (r: Vec<u8>)
    ensures
        r@ == spec_display_name(editor@.filename),
{
    if editor.filename.len() == 0 {
        let mut r: Vec<u8> = Vec::new();
        r.push(78);
        r.push(101);
        r.push(119);
        r.push(32);
        r.push(70);
        r.push(105);
        r.push(108);
        r.push(101);
        proof {
            assert(r@ =~= spec_new_file_label());
        }
        r
    } else {
        let mut r: Vec<u8> = Vec::new();
        append_all(&mut r, &editor.filename);
        proof {
            assert(r@ =~= editor.filename@);
        }
        r
    }
}

/// Fits a left and a right segment into exactly `width` cells: when both fit,
/// spaces pad the middle; when they overflow, the left segment is truncated
/// first, and the right segment itself as a last resort.
pub open spec fn spec_fit(left: Seq<u8>, right: Seq<u8>, width: int) -> Seq<u8> {
    if left.len() + right.len() <= width {
        left + spec_spaces(width - left.len() - right.len()) + right
    } else if right.len() <= width {
        left.take(width - right.len()) + right
    } else {
        right.take(width)
    }
}

/// Whatever the segments hold, the fitted line is exactly `width` long: the
/// status line always fills the terminal width.
pub proof fn lemma_fit_len(left: Seq<u8>, right: Seq<u8>, width: int)
    requires
        width >= 0,
    ensures
        spec_fit(left, right, width).len() == width,
{
}

/// The left status segment: product label plus display name.
pub open spec fn spec_status_left(v: EditorView) -> Seq<u8> {
    spec_product_label() + spec_display_name(v.filename)
}

/// The right status segment: the cursor's line number.
pub open spec fn spec_status_right(v: EditorView) -> Seq<u8> {
    spec_line_label() + spec_decimal(v.cursor_y as nat) + seq![32u8]
}

/// The visible text of the status line: both segments fitted to the terminal
/// width.
pub open spec fn spec_status_line(v: EditorView) -> Seq<u8> {
    spec_fit(spec_status_left(v), spec_status_right(v), v.columns)
}

/// The status line shows exactly `columns` visible characters between the
/// reverse-video markers.
pub proof fn lemma_status_line_width(v: EditorView)
    requires
        wf(v),
    ensures
        spec_status_line(v).len() == v.columns,
{
    lemma_fit_len(spec_status_left(v), spec_status_right(v), v.columns);
}

/// The full status bar: the visible text wrapped in reverse-video styling.
pub open spec fn spec_status_bar(v: EditorView) -> Seq<u8> {
    spec_reverse_video() + spec_status_line(v) + spec_reset_style()
}

/// Appends the status bar row: reverse video on, the fitted status text, and
/// a style reset.
pub fn draw_status_bar(editor: &Editor, builder: &mut Vec<u8>)
    requires
        wf(editor@),
    ensures
        final(builder)@ == old(builder)@ + spec_status_bar(editor@),
{
    let mut left: Vec<u8> = Vec::new();
    left.push(32);
    left.push(116);
    left.push(118);
    left.push(105);
    left.push(101);
    left.push(119);
    left.push(32);
    left.push(45);
    left.push(32);
    proof {
        assert(left@ =~= spec_product_label());
    }
    let name = get_file_name(editor);
    append_all(&mut left, &name);

    let mut right: Vec<u8> = Vec::new();
    right.push(76);
    right.push(105);
    right.push(110);
    right.push(101);
    right.push(58);
    right.push(32);
    proof {
        assert(right@ =~= spec_line_label());
    }
    let line_number = format_decimal(editor.cursor_y);
    append_all(&mut right, &line_number);
    right.push(32);
    proof {
        assert(right@ =~= spec_status_right(editor@));
    }

    builder.push(27);
    builder.push(91);
    builder.push(55);
    builder.push(109);
    let ghost mid = old(builder)@ + spec_reverse_video();
    proof {
        assert(builder@ =~= mid);
    }
    let cols = editor.columns;
    if left.len() <= cols && cols - left.len() >= right.len() {
        append_all(builder, &left);
        push_spaces(builder, cols - left.len() - right.len());
        append_all(builder, &right);
        proof {
            assert(builder@ =~= mid + spec_status_line(editor@));
        }
    } else if right.len() <= cols {
        append_prefix(builder, &left, cols - right.len());
        append_all(builder, &right);
        proof {
            assert(builder@ =~= mid + spec_status_line(editor@));
        }
    } else {
        append_prefix(builder, &right, cols);
        proof {
            assert(builder@ =~= mid + spec_status_line(editor@));
        }
    }
    builder.push(27);
    builder.push(91);
    builder.push(48);
    builder.push(109);
    proof {
        assert(builder@ =~= old(builder)@ + spec_status_bar(editor@));
    }
}

/// One rendered viewport row: the content line at `offset_y + i`, or a tilde
/// past the end of the content, ended by erase-to-end-of-line and CR LF.
pub open spec fn spec_row(v: EditorView, i: int) -> Seq<u8> {
    (if v.offset_y + i < v.content.len() {
        v.content[v.offset_y + i]
    } else {
        seq![126u8]
    }) + spec_erase_line() + spec_crlf()
}

/// The first `n` rendered viewport rows, in order.
pub open spec fn spec_rows(v: EditorView, n: int) -> Seq<u8>
    decreases n,
{
    if n <= 0 {
        Seq::empty()
    } else {
        spec_rows(v, n - 1) + spec_row(v, n - 1)
    }
}

/// Appends the whole content area: one rendered row for each of the `rows`
/// viewport rows.
pub fn draw_content(editor: &Editor, builder: &mut Vec<u8>)
    requires
        wf(editor@),
    ensures
        final(builder)@ == old(builder)@ + spec_rows(editor@, editor@.rows),
{
    let rows = editor.rows;
    let mut i: usize = 0;
    while i < rows
        invariant
            i <= rows,
            rows == editor@.rows,
            wf(editor@),
            builder@ == old(builder)@ + spec_rows(editor@, i as int),
        decreases rows - i,
    {
        if i >= editor.content.len() || editor.offset_y >= editor.content.len() - i {
            builder.push(126);
        } else {
            let line = &editor.content[editor.offset_y + i];
            proof {
                assert(line@ == editor@.content[editor@.offset_y + i]);
            }
            append_all(builder, line);
        }
        builder.push(27);
        builder.push(91);
        builder.push(75);
        builder.push(13);
        builder.push(10);
        proof {
            assert(builder@ =~= old(builder)@ + spec_rows(editor@, i as int) + spec_row(
                editor@,
                i as int,
            ));
        }
        i = i + 1;
    }
}

/// Appends the cursor-home control sequence, placing the terminal cursor at
/// the top-left corner without clearing the screen.
pub fn move_cursor_to_top_left(builder: &mut Vec<u8>)
    ensures
        final(builder)@ == old(builder)@ + spec_esc_home(),
{
    builder.push(27);
    builder.push(91);
    builder.push(72);
    proof {
        assert(builder@ =~= old(builder)@ + spec_esc_home());
    }
}

/// The cursor-positioning sequence `ESC [ <row> ; <col> H`, with the one-based
/// viewport row and column of the logical cursor.
pub open spec fn spec_cursor_position(v: EditorView) -> Seq<u8> {
    seq![27u8, 91u8] + spec_decimal((v.cursor_y - v.offset_y + 1) as nat) + seq![59u8]
        + spec_decimal((v.cursor_x + 1) as nat) + seq![72u8]
}

/// Appends the sequence that places the terminal's real cursor on the logical
/// cursor's viewport cell (one-based), always within the content region.
pub fn draw_cursor(editor: &Editor, builder: &mut Vec<u8>)
    requires
        wf(editor@),
        cursor_visible(editor@),
    ensures
        final(builder)@ == old(builder)@ + spec_cursor_position(editor@),
{
    builder.push(27);
    builder.push(91);
    let row_digits = format_decimal(editor.cursor_y - editor.offset_y + 1);
    append_all(builder, &row_digits);
    builder.push(59);
    let col_digits = format_decimal(editor.cursor_x + 1);
    append_all(builder, &col_digits);
    builder.push(72);
    proof {
        assert(builder@ =~= old(builder)@ + spec_cursor_position(editor@));
    }
}

/// A full frame: home the cursor, every content row, the status bar, and the
/// cursor-positioning sequence, in that fixed order.
pub open spec fn spec_frame(v: EditorView) -> Seq<u8> {
    spec_esc_home() + spec_rows(v, v.rows) + spec_status_bar(v) + spec_cursor_position(v)
}

/// Renders one full frame into a single buffer, to be written to the terminal
/// in one write.
pub fn refresh_screen(editor: &Editor) -> (r: Vec<u8>)
    requires
        wf(editor@),
        cursor_visible(editor@),
    ensures
        r@ == spec_frame(editor@),
{
    let mut builder: Vec<u8> = Vec::new();
    move_cursor_to_top_left(&mut builder);
    draw_content(editor, &mut builder);
    draw_status_bar(editor, &mut builder);
    draw_cursor(editor, &mut builder);
    proof {
        assert(builder@ =~= spec_frame(editor@));
    }
    builder
}

/// The bytes written when quitting: clear the whole screen, then home the
/// cursor.
pub fn quit_screen_sequence() -> (r: Vec<u8>)
    ensures
        r@ == spec_clear_screen() + spec_esc_home(),
{
    let mut r: Vec<u8> = Vec::new();
    r.push(27);
    r.push(91);
    r.push(50);
    r.push(74);
    r.push(27);
    r.push(91);
    r.push(72);
    proof {
        assert(r@ =~= spec_clear_screen() + spec_esc_home());
    }
    r
}

} // verus!
