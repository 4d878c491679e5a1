//! What one interpreter cycle reports back to its caller.

use vstd::prelude::*;

verus! {

/// How a cycle that ran to its end went.
#[derive(Clone, Copy, Debug, PartialEq, Eq, Structural)]
pub enum Event {
    /// An instruction was executed.
    Completed,
    /// The instruction waits for a key and none is down: the machine stays
    /// on it.
    AwaitingKey,
    /// The word fetched encodes no instruction. It was stepped over and
    /// nothing else changed.
    UnknownOpcode(u16),
}

/// Why a cycle could not be carried out. The machine needs a reset after any
/// of these.
#[derive(Clone, Copy, Debug, PartialEq, Eq, Structural)]
pub enum Fault {
    /// A call was made with the call stack already full.
    StackOverflow,
    /// A return was made with the call stack empty.
    StackUnderflow,
    /// The cycle needed a byte outside the memory, a key outside the keypad
    /// or a glyph outside the font.
    OutOfBoundsMemoryAccess,
}

} // verus!
