//! The conditions under which the machine cannot execute an instruction.

use vstd::prelude::*;

verus! {

/// Why an instruction could not be executed. Every fault is final: a program
/// that runs into one is malformed, and the machine has to be reset.
#[derive(Clone, Copy, Debug, PartialEq, Eq, Structural)]
pub enum Fault {
    /// A byte outside memory would be read.
    MemoryReadOutOfBounds,
    /// A byte outside memory would be written.
    MemoryWriteOutOfBounds,
    /// The program counter would leave memory.
    ProgramCounterOutOfBounds,
    /// A call with sixteen return addresses already on the stack.
    StackOverflow,
    /// A return with no return address on the stack.
    StackUnderflow,
    /// The opcode, given here, is no instruction of the machine.
    UnknownOpcode(u16),
}

} // verus!
