//! Line accumulation: one buffered line of keystrokes is built character
//! by character and finished by Enter. The input loop reads the raw key
//! events and feeds them through here.

use vstd::prelude::*;

verus! {

/// One key event, reduced to what the line buffer cares about.
#[derive(Clone, Copy, PartialEq, Eq, Structural, Debug)]
pub enum KeyInput {
    Char(char),
    Enter,
    Other,
}

/// Whether the line is still being typed or has been finished.
#[derive(Clone, Copy, PartialEq, Eq, Structural, Debug)]
pub enum LineStep {
    Pending,
    Done,
}

/// Feeds one key event into the line buffer: a printable character is
/// appended, Enter finishes the line unchanged, and any other key is
/// ignored.
pub fn line_step(buf: &mut Vec<char>, key: KeyInput) -> (r: LineStep)
    ensures
        match key {
            KeyInput::Char(c) => final(buf)@ == old(buf)@.push(c) && r is Pending,
            KeyInput::Enter => final(buf)@ == old(buf)@ && r is Done,
            KeyInput::Other => final(buf)@ == old(buf)@ && r is Pending,
        },
{
    match key {
        KeyInput::Char(c) => {
            buf.push(c);
            LineStep::Pending
        },
        KeyInput::Enter => LineStep::Done,
        KeyInput::Other => LineStep::Pending,
    }
}

} // verus!
