//! The ways in which decoding a word or rendering an instruction can fail.
use vstd::prelude::*;

verus! {

/// A failure that concerns one word or one instruction only.
#[derive(Clone, Copy, Debug, PartialEq, Eq, Structural)]
pub enum DecodeError {
    /// Bits [31:26] of the word hold a value that is no declared opcode.
    UnrecognizedOpcode(u8),
    /// The opcode is `SPECIAL`, and bits [5:0] hold a value that is no
    /// declared function code.
    UnrecognizedFunction(u8),
    /// The instruction has no textual form.
    UnsupportedRenderForm,
}

} // verus!
