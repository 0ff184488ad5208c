//! The conditions under which the machine refuses to go on.

use vstd::prelude::*;

verus! {

/// A condition that stops the machine. None of them is transient: the state is
/// left as it was before the offending operation, so repeating the operation
/// reports the same fault again.
#[derive(Clone, Copy, Debug, PartialEq, Eq, Structural)]
pub enum Fault {
    /// The program image does not fit between the load address and the end of
    /// memory.
    ProgramTooLarge,
    /// A return was executed while the call stack was empty.
    StackUnderflow,
    /// The instruction word matches no operation of the instruction set.
    UnknownOpcode(u16),
    /// The program counter or the index register addresses a byte beyond the
    /// end of memory.
    OutOfRange,
}

} // verus!
