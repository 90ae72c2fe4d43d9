//! Parts of a status-bar control.
//!
//! A status bar is a native control divided into parts, each addressed by
//! a zero-based index. A part's state lives inside the control and travels
//! in messages; reading its text takes two of them: first the text-length
//! query (see [`crate::messages::GetTextLength`]), whose reply's low word
//! is the character count, then the text request itself, for which a
//! buffer of one more character — the terminator — is allocated.

use vstd::prelude::*;

use crate::messages::GetTextLength;

verus! {

/// A single part of a status-bar control.
///
/// Each object keeps the zero-based index of a part. If parts are added
/// to or removed from the control, the object may then point to a
/// different part.
#[derive(Clone, Copy, PartialEq, Eq, Structural, Debug)]
pub struct StatusBarPart {
    index: u32,
}

impl StatusBarPart {
    /// The index this part stands for.
    pub closed spec fn spec_index(&self) -> u32 {
        self.index
    }

    /// A part addressing the given zero-based index of its control.
    pub fn new(index: u32) -> (p: StatusBarPart)
        ensures
            p.spec_index() == index,
    {
        StatusBarPart { index }
    }

    /// The zero-based index of the part.
    pub fn index(&self) -> (i: u32)
        ensures
            i == self.spec_index(),
    {
        self.index
    }

    /// The text-length query this part sends before reading its text.
    pub fn text_length_message(&self) -> (m: GetTextLength)
        ensures
            self.spec_index() <= u16::MAX ==> m.part_index == self.spec_index(),
    {
        GetTextLength {
            part_index:
            #[verifier::truncate]
            (self.index as u16),
        }
    }
}

/// How many characters of buffer the text request allocates for a part
/// whose text-length query reported `num_chars` characters: one more, for
/// the terminator.
pub fn text_buffer_len(num_chars: u16) -> (n: usize)
    ensures
        n == num_chars + 1,
{
    num_chars as usize + 1
}

} // verus!
