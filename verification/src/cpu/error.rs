use crate::memory::error::MemoryError;
use vstd::prelude::*;

verus! {

/// Errors raised by a CPU while it fetches, decodes or executes.
#[derive(Debug, Clone, Copy, PartialEq, Eq, Structural)]
pub enum CPUError {
    /// A register code does not name a register.
    InvalidRegister,
    /// A memory access failed.
    MemoryError(MemoryError),
    /// The byte does not decode to an instruction the engine implements.
    InvalidInstruction(u8),
    /// The stack pointer cannot move past the bottom of memory.
    StackOverflow,
    /// Any other failure.
    Unexpected,
}

pub type CPUResult<T> = Result<T, CPUError>;

} // verus!
