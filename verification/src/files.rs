//! Turning a loaded file into editor state: the display name is the path's
//! basename, and the lines become the content.

use vstd::prelude::*;

use crate::editor::Editor;

verus! {

/// The path separator.
pub const SLASH: u8 = 47;  // '/'

/// The suffix of `s` that follows its last slash; `s` itself when it has no
/// slash, empty when it ends with one.
pub open spec fn spec_basename(s: Seq<u8>) -> Seq<u8>
    decreases s.len(),
{
    if s.len() == 0 {
        Seq::empty()
    } else if s.last() == SLASH {
        Seq::empty()
    } else {
        spec_basename(s.drop_last()).push(s.last())
    }
}

/// The index right after the last slash of `s`; zero when `s` has none.
pub open spec fn spec_slash_end(s: Seq<u8>) -> int
    decreases s.len(),
{
    if s.len() == 0 {
        0
    } else if s.last() == SLASH {
        s.len() as int
    } else {
        spec_slash_end(s.drop_last())
    }
}

/// The basename is exactly the suffix that starts right after the last slash.
pub proof fn lemma_basename_is_suffix(s: Seq<u8>)
    ensures
        0 <= spec_slash_end(s) <= s.len(),
        spec_basename(s) == s.subrange(spec_slash_end(s), s.len() as int),
    decreases s.len(),
{
    if s.len() == 0 {
        assert(spec_basename(s) =~= s.subrange(0, 0));
    } else if s.last() == SLASH {
        assert(spec_basename(s) =~= s.subrange(s.len() as int, s.len() as int));
    } else {
        lemma_basename_is_suffix(s.drop_last());
        assert(s.drop_last().subrange(spec_slash_end(s.drop_last()), s.len() - 1).push(s.last())
            =~= s.subrange(spec_slash_end(s), s.len() as int));
    }
}

/// The display name of a file path: everything after the last slash.
pub fn extract_filename(file_path: &Vec<u8>) -> (r: Vec<u8>)
    ensures
        r@ == spec_basename(file_path@),
{
    let ghost s = file_path@;
    let mut start: usize = 0;
    let mut i: usize = 0;
    while i < file_path.len()
        invariant
            0 <= start <= i <= s.len(),
            s == file_path@,
            start == spec_slash_end(s.take(i as int)),
        decreases s.len() - i,
    {
        if file_path[i] == SLASH {
            start = i + 1;
        }
        proof {
            assert(s.take(i + 1).drop_last() =~= s.take(i as int));
        }
        i = i + 1;
    }
    proof {
        assert(s.take(s.len() as int) =~= s);
        lemma_basename_is_suffix(s);
    }
    let mut r: Vec<u8> = Vec::new();
    let mut j: usize = start;
    while j < file_path.len()
        invariant
            start <= j <= s.len(),
            s == file_path@,
            start == spec_slash_end(s),
            r@ == s.subrange(start as int, j as int),
        decreases s.len() - j,
    {
        r.push(file_path[j]);
        proof {
            assert(s.subrange(start as int, j + 1)
                =~= s.subrange(start as int, j as int).push(s[j as int]));
        }
        j = j + 1;
    }
    r
}

/// Stores a loaded file: the lines become the content, in file order, and the
/// path's basename becomes the display name.  Cursor, viewport and scroll are
/// untouched.
pub fn load_file(editor: &mut Editor, lines: Vec<Vec<u8>>, file_path: &Vec<u8>)
    requires
        old(editor)@.cursor_y <= lines.deep_view().len(),
        old(editor)@.offset_y <= lines.deep_view().len(),
    ensures
        final(editor)@.content == lines.deep_view(),
        final(editor)@.filename == spec_basename(file_path@),
        final(editor).cursor_x == old(editor).cursor_x,
        final(editor).cursor_y == old(editor).cursor_y,
        final(editor).columns == old(editor).columns,
        final(editor).rows == old(editor).rows,
        final(editor).offset_y == old(editor).offset_y,
{
    editor.content = lines;
    editor.filename = extract_filename(file_path);
}

} // verus!
