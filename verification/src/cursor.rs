//! A position in a byte buffer.

use vstd::prelude::*;

verus! {

/// A read position in an input buffer. The buffer is never changed; decoding
/// only moves the position.
#[derive(Debug, Clone, Copy)]
pub struct Cursor<'a> {
    /// The whole input.
    pub input: &'a [u8],
    /// The offset of the next byte to read.
    pub pos: usize,
}

impl<'a> Cursor<'a> {
    /// A cursor at the start of `input`.
    pub fn new(input: &'a [u8]) -> (c: Cursor<'a>)
        ensures
            c.input@ == input@,
            c.pos == 0,
    {
        Cursor { input, pos: 0 }
    }

    /// The current position.
    pub fn position(&self) -> (p: usize)
        ensures
            p == self.pos,
    {
        self.pos
    }

    /// Moves the cursor to `pos`.
    pub fn set_position(&mut self, pos: usize)
        ensures
            final(self).pos == pos,
            final(self).input@ == old(self).input@,
    {
        self.pos = pos;
    }

    /// The whole input, whatever the position.
    pub fn input(&self) -> (b: &'a [u8])
        ensures
            b@ == self.input@,
    {
        self.input
    }
}

} // verus!
