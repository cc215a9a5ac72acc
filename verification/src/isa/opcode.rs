use crate::framework::isa::InstructionError;
use vstd::prelude::*;

verus! {

/// The operations of the small test instruction set.
#[derive(Debug, Clone, Copy, PartialEq, Eq, Structural)]
pub enum Opcode {
    Nop,
    Add,
    Sub,
    Mul,
    Div,
    Cmp,
    Ld,
    St,
    Jmp,
    Jz,
    Jnz,
    Hlt,
}

impl Opcode {
    /// The numeric code of the operation.
    pub open spec fn spec_code(self) -> u8 {
        match self {
            Opcode::Nop => 0,
            Opcode::Add => 1,
            Opcode::Sub => 2,
            Opcode::Mul => 3,
            Opcode::Div => 4,
            Opcode::Cmp => 5,
            Opcode::Ld => 6,
            Opcode::St => 7,
            Opcode::Jmp => 8,
            Opcode::Jz => 9,
            Opcode::Jnz => 10,
            Opcode::Hlt => 11,
        }
    }

    /// The operation a numeric code names, if any.
    pub open spec fn spec_from_code(byte: u8) -> Option<Opcode> {
        if byte == 0 {
            Some(Opcode::Nop)
        } else if byte == 1 {
            Some(Opcode::Add)
        } else if byte == 2 {
            Some(Opcode::Sub)
        } else if byte == 3 {
            Some(Opcode::Mul)
        } else if byte == 4 {
            Some(Opcode::Div)
        } else if byte == 5 {
            Some(Opcode::Cmp)
        } else if byte == 6 {
            Some(Opcode::Ld)
        } else if byte == 7 {
            Some(Opcode::St)
        } else if byte == 8 {
            Some(Opcode::Jmp)
        } else if byte == 9 {
            Some(Opcode::Jz)
        } else if byte == 10 {
            Some(Opcode::Jnz)
        } else if byte == 11 {
            Some(Opcode::Hlt)
        } else {
            None
        }
    }

    pub fn to_u8(self) -> (r: u8)
        ensures
            r == self.spec_code(),
    {
        match self {
            Opcode::Nop => 0,
            Opcode::Add => 1,
            Opcode::Sub => 2,
            Opcode::Mul => 3,
            Opcode::Div => 4,
            Opcode::Cmp => 5,
            Opcode::Ld => 6,
            Opcode::St => 7,
            Opcode::Jmp => 8,
            Opcode::Jz => 9,
            Opcode::Jnz => 10,
            Opcode::Hlt => 11,
        }
    }

    /// Validates a numeric operation code; codes the set does not define are
    /// rejected, never reinterpreted.
    pub fn from_u8(byte: u8) -> (r: Result<Opcode, InstructionError>)
        ensures
            Opcode::spec_from_code(byte) is Some ==> r == Ok::<Opcode, InstructionError>(
                Opcode::spec_from_code(byte).unwrap(),
            ),
            Opcode::spec_from_code(byte) is None ==> r == Err::<Opcode, InstructionError>(
                InstructionError::InvalidOpcode,
            ),
    {
        match byte {
            0 => Ok(Opcode::Nop),
            1 => Ok(Opcode::Add),
            2 => Ok(Opcode::Sub),
            3 => Ok(Opcode::Mul),
            4 => Ok(Opcode::Div),
            5 => Ok(Opcode::Cmp),
            6 => Ok(Opcode::Ld),
            7 => Ok(Opcode::St),
            8 => Ok(Opcode::Jmp),
            9 => Ok(Opcode::Jz),
            10 => Ok(Opcode::Jnz),
            11 => Ok(Opcode::Hlt),
            _ => Err(InstructionError::InvalidOpcode),
        }
    }
}

/// An operation code survives the trip through its numeric encoding.
pub proof fn lemma_opcode_code_round_trip(op: Opcode)
    ensures
        Opcode::spec_from_code(op.spec_code()) == Some(op),
{
}

} // verus!
