use vstd::prelude::*;

verus! {

/// Errors raised while decoding or executing an instruction.
#[derive(Debug, Clone, Copy, PartialEq, Eq, Structural)]
pub enum InstructionError {
    /// The opcode is not valid for this instruction set.
    InvalidOpcode,
    /// The value is not valid for this operation.
    InvalidValue,
    /// Fewer bytes were supplied than the instruction requires.
    InvalidLength,
    /// An addressing error occurred.
    AddressingError(AddressingError),
}

/// Errors raised while resolving an operand to a register or address.
#[derive(Debug, Clone, Copy, PartialEq, Eq, Structural)]
pub enum AddressingError {
    /// The addressing mode is not valid for this instruction.
    InvalidAddressingMode,
    /// The register specified is not valid.
    InvalidRegister,
}

impl From<AddressingError> for InstructionError {
    fn from(error: AddressingError) -> (r: InstructionError)
        ensures
            r == InstructionError::AddressingError(error),
    {
        InstructionError::AddressingError(error)
    }
}

impl vstd::std_specs::convert::FromSpecImpl<AddressingError> for InstructionError {
    open spec fn obeys_from_spec() -> bool {
        true
    }

    open spec fn from_spec(error: AddressingError) -> InstructionError {
        InstructionError::AddressingError(error)
    }
}

impl AddressingError {
    /// The addressing error an instruction error collapses to: a nested
    /// addressing error is kept, anything else becomes `InvalidAddressingMode`.
    pub open spec fn spec_of_instruction_error(error: InstructionError) -> AddressingError {
        match error {
            InstructionError::AddressingError(e) => e,
            _ => AddressingError::InvalidAddressingMode,
        }
    }
}

impl From<InstructionError> for AddressingError {
    fn from(error: InstructionError) -> (r: AddressingError)
        ensures
            r == AddressingError::spec_of_instruction_error(error),
    {
        match error {
            InstructionError::AddressingError(e) => e,
            _ => AddressingError::InvalidAddressingMode,
        }
    }
}

impl vstd::std_specs::convert::FromSpecImpl<InstructionError> for AddressingError {
    open spec fn obeys_from_spec() -> bool {
        true
    }

    open spec fn from_spec(error: InstructionError) -> AddressingError {
        AddressingError::spec_of_instruction_error(error)
    }
}

/// The broad kind of work an instruction does.
#[derive(Debug, Clone, Copy, PartialEq, Eq, Structural)]
pub enum InstructionCategory {
    Arithmetic,
    Logic,
    DataTransfer,
    Control,
    Stack,
    IO,
    System,
    Misc,
}

impl InstructionCategory {
    /// The characters of the category's name.
    pub open spec fn spec_name(self) -> Seq<char> {
        match self {
            InstructionCategory::Arithmetic => "Arithmetic"@,
            InstructionCategory::Logic => "Logic"@,
            InstructionCategory::DataTransfer => "DataTransfer"@,
            InstructionCategory::Control => "Control"@,
            InstructionCategory::Stack => "Stack"@,
            InstructionCategory::IO => "IO"@,
            InstructionCategory::System => "System"@,
            InstructionCategory::Misc => "Misc"@,
        }
    }

    /// The category's name.
    pub fn name(self) -> (r: &'static str)
        ensures
            r@ == self.spec_name(),
    {
        match self {
            InstructionCategory::Arithmetic => "Arithmetic",
            InstructionCategory::Logic => "Logic",
            InstructionCategory::DataTransfer => "DataTransfer",
            InstructionCategory::Control => "Control",
            InstructionCategory::Stack => "Stack",
            InstructionCategory::IO => "IO",
            InstructionCategory::System => "System",
            InstructionCategory::Misc => "Misc",
        }
    }
}

/// Binary encoding and decoding of one instruction. `decode` must fail with a
/// length error rather than read past the supplied bytes, and `decode` of a
/// value's own `encode` must give the value back.
pub trait InstructionCodec: Sized {
    fn decode(bytes: &[u8]) -> Result<Self, InstructionError>;

    fn encode(&self) -> Vec<u8>;

    fn size(&self) -> usize;
}

/// How an instruction operand is resolved: how many bytes it takes and
/// which registers and addresses it accepts.
pub trait AddressingMode {
    fn size(&self) -> usize;

    fn bytes_needed(&self) -> usize;

    fn is_valid_register(&self, register: u8) -> bool;

    fn is_valid_address(&self, address: u16) -> bool;
}

/// A single instruction: its binary codec plus its static execution facts —
/// cycle cost, whether it touches the flags, and a disassembly render.
pub trait Instruction: InstructionCodec {
    fn cycles(&self) -> u8;

    fn affects_flags(&self) -> bool;

    fn disassemble(&self) -> String;
}

/// A complete instruction set: its architecture parameters, an opcode
/// validity predicate, a categorizer, and reverse lookup of the opcodes in
/// a category (for tooling, not execution).
pub trait InstructionSet {
    fn name(&self) -> &'static str;

    fn word_size(&self) -> u8;

    fn address_size(&self) -> u8;

    fn register_count(&self) -> usize;

    fn is_valid_opcode(&self, opcode: u8) -> bool;

    fn categorize(&self, opcode: u8) -> Result<InstructionCategory, InstructionError>;

    fn opcodes_in_category(&self, category: InstructionCategory) -> Vec<u8>;
}

} // verus!
