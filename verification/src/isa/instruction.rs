use vstd::prelude::*;

verus! {

/// The operand-resolution strategies an instruction byte can name.
#[derive(Debug, Clone, Copy, PartialEq, Eq, Structural)]
pub enum AddressingMode {
    /// An immediate value in the next byte.
    Immediate,
    /// An immediate value in the next two bytes.
    ImmediateExtended,
    /// A register as source.
    Register,
    /// A two-byte address whose value is the source.
    Indirect,
    /// A register pair holding the address of the source.
    RegisterIndirect,
    /// An 8-bit displacement added to the program counter.
    Relative,
    /// A 16-bit displacement added to the program counter.
    RelativeExtended,
    /// A register holding an 8-bit displacement from the program counter.
    RegisterRelative,
    /// A register pair holding a 16-bit displacement from the program counter.
    RegisterRelativeExtended,
    /// A base address plus an 8-bit displacement.
    Indexed,
    /// A base address plus a 16-bit displacement.
    IndexedExtended,
    /// No operand at all.
    Implied,
}

/// An instruction as one raw byte: an opcode packed with an address mode.
#[derive(Debug, Clone, Copy, PartialEq, Eq, Structural)]
pub struct Instruction(pub u8);

} // verus!
