//! Raw-mode terminal configuration.
//!
//! The terminal's mode is a set of flag words and control characters.  This
//! module computes, from a saved configuration, the raw-mode configuration:
//! no canonical line buffering, no echo, no signal keys, no extended input
//! processing, no output post-processing, no software flow control, no
//! CR-to-NL translation, and a bounded read timeout so that reads return
//! periodically.  Reading and applying the configuration on the actual
//! terminal device is I/O and stays outside the library.

use vstd::prelude::*;

verus! {

// Flag bits of the terminal mode words (Linux values).
/// Local-mode bit: echo input characters.
pub const ECHO_BIT: u32 = 0x8;

/// Local-mode bit: canonical (line-buffered) input.
pub const ICANON_BIT: u32 = 0x2;

/// Local-mode bit: extended input processing.
pub const IEXTEN_BIT: u32 = 0x8000;

/// Local-mode bit: generate signals from control characters.
pub const ISIG_BIT: u32 = 0x1;

/// Input-mode bit: software flow control.
pub const IXON_BIT: u32 = 0x400;

/// Input-mode bit: translate carriage return to newline.
pub const ICRNL_BIT: u32 = 0x100;

/// Output-mode bit: output post-processing.
pub const OPOST_BIT: u32 = 0x1;

/// A terminal configuration, reduced to what raw mode changes: the input,
/// output and local mode words, and the two read-timeout control characters.
#[derive(Clone, Copy, Debug, PartialEq, Eq, Structural)]
pub struct TermSettings {
    pub iflag: u32,
    pub oflag: u32,
    pub lflag: u32,
    /// Minimum number of bytes a read must deliver.
    pub vmin: u8,
    /// Read timeout in tenths of a second.
    pub vtime: u8,
}

/// The raw-mode configuration derived from a saved one: the echo, canonical,
/// extended-processing and signal bits leave the local mode word, the flow
/// control and CR-to-NL bits leave the input mode word, the post-processing
/// bit leaves the output mode word, and reads return after at most one tenth
/// of a second with no minimum byte count.
pub fn raw_settings(orig: &TermSettings) -> (r: TermSettings)
    ensures
        r.lflag == orig.lflag & !(ECHO_BIT | ICANON_BIT | IEXTEN_BIT | ISIG_BIT),
        r.iflag == orig.iflag & !(IXON_BIT | ICRNL_BIT),
        r.oflag == orig.oflag & !OPOST_BIT,
        r.vmin == 0,
        r.vtime == 1,
{
    TermSettings {
        iflag: orig.iflag & !(IXON_BIT | ICRNL_BIT),
        oflag: orig.oflag & !OPOST_BIT,
        lflag: orig.lflag & !(ECHO_BIT | ICANON_BIT | IEXTEN_BIT | ISIG_BIT),
        vmin: 0,
        vtime: 1,
    }
}

} // verus!
