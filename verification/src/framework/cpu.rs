use vstd::prelude::*;

verus! {

/// Errors raised by a register file.
#[derive(Debug, Clone, PartialEq)]
pub enum RegisterError {
    /// The register index does not name a register.
    InvalidIndex(u8),
    /// The value is not acceptable for the register.
    InvalidValue { register: u8, value: u8 },
    /// The flag bit pattern is not defined.
    InvalidFlag(u8),
    /// The register cannot be written.
    ReadOnlyRegister(u8),
    /// Any other register access failure.
    AccessError(String),
}

/// Errors raised while reading or changing CPU state.
#[derive(Debug, Clone, PartialEq)]
pub enum CpuStateError {
    Register(RegisterError),
    Memory(crate::bus::device::MemoryError),
    Instruction(crate::framework::isa::InstructionError),
    InvalidState(String),
}

/// Errors raised by a whole CPU.
#[derive(Debug, Clone, PartialEq)]
pub enum CpuError {
    State(CpuStateError),
    Halted,
    InvalidInterrupt(u8),
    StackOverflow,
    StackUnderflow,
    Other(String),
}

impl From<RegisterError> for CpuStateError {
    fn from(err: RegisterError) -> (r: CpuStateError)
        ensures
            r == CpuStateError::Register(err),
    {
        CpuStateError::Register(err)
    }
}

impl vstd::std_specs::convert::FromSpecImpl<RegisterError> for CpuStateError {
    open spec fn obeys_from_spec() -> bool {
        true
    }

    open spec fn from_spec(err: RegisterError) -> CpuStateError {
        CpuStateError::Register(err)
    }
}

impl From<crate::bus::device::MemoryError> for CpuStateError {
    fn from(err: crate::bus::device::MemoryError) -> (r: CpuStateError)
        ensures
            r == CpuStateError::Memory(err),
    {
        CpuStateError::Memory(err)
    }
}

impl vstd::std_specs::convert::FromSpecImpl<crate::bus::device::MemoryError> for CpuStateError {
    open spec fn obeys_from_spec() -> bool {
        true
    }

    open spec fn from_spec(err: crate::bus::device::MemoryError) -> CpuStateError {
        CpuStateError::Memory(err)
    }
}

impl From<crate::framework::isa::InstructionError> for CpuStateError {
    fn from(err: crate::framework::isa::InstructionError) -> (r: CpuStateError)
        ensures
            r == CpuStateError::Instruction(err),
    {
        CpuStateError::Instruction(err)
    }
}

impl vstd::std_specs::convert::FromSpecImpl<crate::framework::isa::InstructionError> for CpuStateError {
    open spec fn obeys_from_spec() -> bool {
        true
    }

    open spec fn from_spec(err: crate::framework::isa::InstructionError) -> CpuStateError {
        CpuStateError::Instruction(err)
    }
}

impl From<CpuStateError> for CpuError {
    fn from(err: CpuStateError) -> (r: CpuError)
        ensures
            r == CpuError::State(err),
    {
        CpuError::State(err)
    }
}

impl vstd::std_specs::convert::FromSpecImpl<CpuStateError> for CpuError {
    open spec fn obeys_from_spec() -> bool {
        true
    }

    open spec fn from_spec(err: CpuStateError) -> CpuError {
        CpuError::State(err)
    }
}

/// A CPU's flag bits, readable and writable as one mask.
pub trait FlagsRegister: Copy + PartialEq {
    fn get(&self) -> u8;

    fn set(&mut self, value: u8);

    fn update(&mut self, mask: u8, value: u8);

    fn test(&self, mask: u8) -> bool;
}

/// A CPU's register file: general registers by index, a program counter, a
/// stack pointer and a flags register.
pub trait RegisterFile {
    type Flags: FlagsRegister;

    fn get(&self, index: u8) -> Result<u8, RegisterError>;

    fn set(&mut self, index: u8, value: u8) -> Result<(), RegisterError>;

    fn register_count(&self) -> usize;

    fn program_counter(&self) -> u16;

    fn set_program_counter(&mut self, value: u16);

    fn stack_pointer(&self) -> u16;

    fn set_stack_pointer(&mut self, value: u16);

    fn flags(&self) -> Self::Flags;

    fn update_flags(&mut self, mask: Self::Flags, value: Self::Flags);

    fn test_flags(&self, mask: Self::Flags) -> bool;

    fn reset(&mut self);
}

/// A CPU's execution state: registers, flags, a cycle counter, and the memory
/// it executes against.
pub trait CpuState {
    type Memory;

    fn read_register(&self, reg: u8) -> Result<u8, CpuStateError>;

    fn write_register(&mut self, reg: u8, value: u8) -> Result<(), CpuStateError>;

    fn get_program_counter(&self) -> u16;

    fn set_program_counter(&mut self, addr: u16) -> Result<(), CpuStateError>;

    fn get_stack_pointer(&self) -> u16;

    fn set_stack_pointer(&mut self, addr: u16) -> Result<(), CpuStateError>;

    fn get_flags(&self) -> u8;

    fn set_flags(&mut self, flags: u8) -> Result<(), CpuStateError>;

    fn test_flag(&self, flag: u8) -> Result<bool, CpuStateError>;

    fn memory(&self) -> &Self::Memory;

    fn memory_mut(&mut self) -> &mut Self::Memory;

    fn cycles(&self) -> u64;

    fn add_cycles(&mut self, cycles: u8);
}

/// A complete CPU: an instruction set bound to an execution state, with
/// reset and single-step operations.
pub trait Cpu {
    type ISA;

    type State;

    fn instruction_set(&self) -> &Self::ISA;

    fn state(&self) -> &Self::State;

    fn state_mut(&mut self) -> &mut Self::State;

    fn reset(&mut self) -> Result<(), CpuError>;

    fn step(&mut self) -> Result<u8, CpuError>;
}

} // verus!
