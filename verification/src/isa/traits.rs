use crate::isa::instruction::Instruction;
use vstd::prelude::*;

verus! {

/// An instruction set: how a raw byte maps to an instruction and back.
pub trait ISA {
    fn decode_instruction(&self, instruction: u8) -> Instruction;

    fn encode_instruction(&self, instruction: Instruction) -> u8;
}

} // verus!
