//! Logical key events and the escape-sequence decoder.
//!
//! Terminal input in raw mode arrives as a byte stream in which navigation
//! keys are encoded as multi-byte escape sequences.  `read_key` turns the
//! front of such a stream into one logical key event, or reports that more
//! bytes are needed.

use vstd::prelude::*;

verus! {

/// The escape byte that introduces every control sequence.
pub const ESC: u8 = 27;

/// A decoded key event: either a literal byte or a named navigation key.
#[derive(Clone, Copy, Debug, PartialEq, Eq, Structural)]
pub enum Key {
    /// An ordinary byte, delivered unchanged.
    Literal(u8),
    ArrowUp,
    ArrowDown,
    ArrowLeft,
    ArrowRight,
    Home,
    End,
    Delete,
    PageUp,
    PageDown,
}

/// Meaning of the final byte of a `ESC [ <digit> ~` sequence.
pub open spec fn spec_tilde_key(digit: u8) -> Key {
    if digit == 49 || digit == 55 {  // '1' or '7'
        Key::Home
    } else if digit == 51 {  // '3'
        Key::Delete
    } else if digit == 52 || digit == 56 {  // '4' or '8'
        Key::End
    } else if digit == 53 {  // '5'
        Key::PageUp
    } else if digit == 54 {  // '6'
        Key::PageDown
    } else {
        Key::Literal(digit)
    }
}

/// Meaning of the letter that ends a `ESC [ <letter>` sequence.
pub open spec fn spec_csi_key(b: u8) -> Key {
    if b == 65 {  // 'A'
        Key::ArrowUp
    } else if b == 66 {  // 'B'
        Key::ArrowDown
    } else if b == 67 {  // 'C'
        Key::ArrowRight
    } else if b == 68 {  // 'D'
        Key::ArrowLeft
    } else if b == 72 {  // 'H'
        Key::Home
    } else if b == 70 {  // 'F'
        Key::End
    } else {
        Key::Literal(b)
    }
}

/// Meaning of the byte that ends a `ESC O <byte>` sequence.
pub open spec fn spec_ss3_key(b: u8) -> Key {
    if b == 72 {  // 'H'
        Key::Home
    } else if b == 70 {  // 'F'
        Key::End
    } else {
        Key::Literal(b)
    }
}

pub open spec fn spec_is_digit(b: u8) -> bool {
    48 <= b && b <= 57
}

/// Decodes one key event from the front of a byte stream.  Returns the key
/// and the number of bytes consumed, or `None` when the stream ends in the
/// middle of an escape sequence and more bytes are needed.
pub open spec fn spec_decode(s: Seq<u8>) -> Option<(Key, int)> {
    if s.len() == 0 {
        None
    } else if s[0] != ESC {
        Some((Key::Literal(s[0]), 1))
    } else if s.len() < 2 {
        None
    } else if s[1] != 91 && s[1] != 79 {  // neither '[' nor 'O'
        Some((Key::Literal(s[1]), 2))
    } else if s.len() < 3 {
        None
    } else if s[1] == 79 {  // 'O'
        Some((spec_ss3_key(s[2]), 3))
    } else if !spec_is_digit(s[2]) {
        Some((spec_csi_key(s[2]), 3))
    } else if s.len() < 4 {
        None
    } else if s[3] != 126 {  // not '~'
        Some((Key::Literal(s[3]), 4))
    } else {
        Some((spec_tilde_key(s[2]), 4))
    }
}

/// Decodes one key event from the front of `input`.
///
/// Returns the decoded key together with how many bytes of `input` it
/// consumed, or `None` when `input` is a strict prefix of an escape sequence
/// (the caller should read more bytes and try again).
pub fn read_key(input: &Vec<u8>) -> (r: Option<(Key, usize)>)
    ensures
        match r {
            Some((k, n)) => spec_decode(input@) == Some((k, n as int)) && 1 <= n <= input.len(),
            None => spec_decode(input@) is None,
        },
{
    if input.len() == 0 {
        return None;
    }
    let b0 = input[0];
    if b0 != ESC {
        return Some((Key::Literal(b0), 1));
    }
    if input.len() < 2 {
        return None;
    }
    let b1 = input[1];
    if b1 != 91 && b1 != 79 {
        return Some((Key::Literal(b1), 2));
    }
    if input.len() < 3 {
        return None;
    }
    let b2 = input[2];
    if b1 == 79 {
        let k = if b2 == 72 {
            Key::Home
        } else if b2 == 70 {
            Key::End
        } else {
            Key::Literal(b2)
        };
        return Some((k, 3));
    }
    if !(48 <= b2 && b2 <= 57) {
        let k = if b2 == 65 {
            Key::ArrowUp
        } else if b2 == 66 {
            Key::ArrowDown
        } else if b2 == 67 {
            Key::ArrowRight
        } else if b2 == 68 {
            Key::ArrowLeft
        } else if b2 == 72 {
            Key::Home
        } else if b2 == 70 {
            Key::End
        } else {
            Key::Literal(b2)
        };
        return Some((k, 3));
    }
    if input.len() < 4 {
        return None;
    }
    let b3 = input[3];
    if b3 != 126 {
        return Some((Key::Literal(b3), 4));
    }
    let k = if b2 == 49 || b2 == 55 {
        Key::Home
    } else if b2 == 51 {
        Key::Delete
    } else if b2 == 52 || b2 == 56 {
        Key::End
    } else if b2 == 53 {
        Key::PageUp
    } else if b2 == 54 {
        Key::PageDown
    } else {
        Key::Literal(b2)
    };
    Some((k, 4))
}

} // verus!
