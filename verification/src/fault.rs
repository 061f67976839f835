//! The fatal conditions of the machine.
use vstd::prelude::*;

verus! {

/// A condition under which the machine cannot go on.
///
/// A fault is reported by the operation that meets it, and that operation
/// leaves the machine exactly as it found it. No fault is recoverable: a
/// driver that sees one should end the session.
#[derive(Clone, Copy, Debug, PartialEq, Eq, Structural)]
pub enum Fault {
    /// An instruction fetch, an instruction operand or a program image
    /// reaches past the last byte of memory.
    MemoryOutOfBounds,
    /// A call was made while all sixteen stack frames were in use.
    StackOverflow,
    /// A return was made while no call was active.
    StackUnderflow,
    /// The instruction word matches no instruction of the machine.
    UnrecognizedOpcode { opcode: u16 },
    /// A key was named that the sixteen-key pad does not have.
    KeyOutOfRange,
}

} // verus!
