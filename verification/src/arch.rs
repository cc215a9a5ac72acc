//! The top-level architecture interface and its error type.

use crate::bus::device::MemoryError;
use crate::framework::cpu::CpuError;
use crate::framework::isa::InstructionError;
use vstd::prelude::*;

verus! {

/// Errors raised by a whole architecture.
#[derive(Debug, Clone, PartialEq)]
pub enum ArchError {
    /// A CPU-level failure.
    Cpu(CpuError),
    /// A memory-level failure.
    Memory(MemoryError),
    /// An instruction-level failure.
    Instruction(InstructionError),
    /// The architecture reached a state it does not define.
    InvalidState(String),
    /// The architecture does not implement the requested feature.
    UnsupportedFeature(String),
    /// A timing constraint was violated.
    TimingViolation,
}

impl From<CpuError> for ArchError {
    fn from(err: CpuError) -> (r: ArchError)
        ensures
            r == ArchError::Cpu(err),
    {
        ArchError::Cpu(err)
    }
}

impl vstd::std_specs::convert::FromSpecImpl<CpuError> for ArchError {
    open spec fn obeys_from_spec() -> bool {
        true
    }

    open spec fn from_spec(err: CpuError) -> ArchError {
        ArchError::Cpu(err)
    }
}

impl From<MemoryError> for ArchError {
    fn from(err: MemoryError) -> (r: ArchError)
        ensures
            r == ArchError::Memory(err),
    {
        ArchError::Memory(err)
    }
}

impl vstd::std_specs::convert::FromSpecImpl<MemoryError> for ArchError {
    open spec fn obeys_from_spec() -> bool {
        true
    }

    open spec fn from_spec(err: MemoryError) -> ArchError {
        ArchError::Memory(err)
    }
}

impl From<InstructionError> for ArchError {
    fn from(err: InstructionError) -> (r: ArchError)
        ensures
            r == ArchError::Instruction(err),
    {
        ArchError::Instruction(err)
    }
}

impl vstd::std_specs::convert::FromSpecImpl<InstructionError> for ArchError {
    open spec fn obeys_from_spec() -> bool {
        true
    }

    open spec fn from_spec(err: InstructionError) -> ArchError {
        ArchError::Instruction(err)
    }
}

/// A complete architecture: a CPU bound to a memory, an instruction set and
/// an execution state, with whole-machine reset and single-step operations.
pub trait Architecture {
    /// The CPU implementation for this architecture.
    type CPU;

    /// The instruction set for this architecture.
    type ISA;

    /// The CPU state for this architecture.
    type State;

    /// The memory implementation for this architecture.
    type Memory;

    fn name(&self) -> &'static str;

    fn cpu(&self) -> &Self::CPU;

    fn cpu_mut(&mut self) -> &mut Self::CPU;

    fn memory(&self) -> &Self::Memory;

    fn memory_mut(&mut self) -> &mut Self::Memory;

    fn reset(&mut self) -> Result<(), ArchError>;

    fn step(&mut self) -> Result<u8, ArchError>;

    fn state(&self) -> &Self::State;

    fn instruction_set(&self) -> &Self::ISA;
}

} // verus!
