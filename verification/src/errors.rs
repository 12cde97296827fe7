//! The two fatal conditions a machine can report: an instruction register
//! bit pattern outside the instruction set, and a program image longer than
//! memory. Both surface as explicit error values, never as a crash.

use vstd::prelude::*;

verus! {

/// The instruction register holds a bit pattern outside the enumerated
/// instruction set. The offending byte is kept for diagnostics.
#[derive(Clone, Copy, Debug, PartialEq, Eq, Structural)]
pub struct DecodeError {
    /// The byte that failed to decode.
    pub byte: u8,
}

/// A program image was longer than the machine's memory capacity.
#[derive(Clone, Copy, Debug, PartialEq, Eq, Structural)]
pub struct InputTooLong {
    /// The length of the rejected image.
    pub len: usize,
    /// The memory capacity it exceeded.
    pub capacity: usize,
}

} // verus!
