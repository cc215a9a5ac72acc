use crate::cpu::error::CPUError;
use crate::cpu::register_files::FlagSet;
use vstd::prelude::*;

verus! {

/// The high byte of a 16-bit word.
pub open spec fn word_high(v: u16) -> u8 {
    (v / 256) as u8
}

/// The low byte of a 16-bit word.
pub open spec fn word_low(v: u16) -> u8 {
    (v % 256) as u8
}

/// The 16-bit word with the given high and low bytes (big-endian order).
pub open spec fn word_from(high: u8, low: u8) -> u16 {
    ((high as int) * 256 + (low as int)) as u16
}

/// A register name. `A` to `D` are byte-wide scalars; `AB` and `CD` name the
/// big-endian pairs of their two scalars (high byte first). Whether a name
/// denotes a pair is a static property of the name.
#[derive(Debug, Clone, Copy, PartialEq, Eq, Structural)]
pub enum Register {
    A,
    B,
    C,
    D,
    AB,
    CD,
}

impl Register {
    /// The numeric code of the register in instruction encodings.
    pub open spec fn spec_code(self) -> u8 {
        match self {
            Register::A => 0,
            Register::B => 1,
            Register::C => 2,
            Register::D => 3,
            Register::AB => 4,
            Register::CD => 5,
        }
    }

    /// The register a numeric code names, if any.
    pub open spec fn spec_from_code(code: u8) -> Option<Register> {
        if code == 0 {
            Some(Register::A)
        } else if code == 1 {
            Some(Register::B)
        } else if code == 2 {
            Some(Register::C)
        } else if code == 3 {
            Some(Register::D)
        } else if code == 4 {
            Some(Register::AB)
        } else if code == 5 {
            Some(Register::CD)
        } else {
            None
        }
    }

    /// Whether the name denotes a register pair.
    pub open spec fn spec_is_pair(self) -> bool {
        match self {
            Register::AB | Register::CD => true,
            _ => false,
        }
    }

    /// The scalar holding a pair's high byte.
    pub open spec fn pair_high(self) -> Register {
        match self {
            Register::AB => Register::A,
            Register::CD => Register::C,
            _ => self,
        }
    }

    /// The scalar holding a pair's low byte.
    pub open spec fn pair_low(self) -> Register {
        match self {
            Register::AB => Register::B,
            Register::CD => Register::D,
            _ => self,
        }
    }

    pub fn is_pair(self) -> (r: bool)
        ensures
            r == self.spec_is_pair(),
    {
        match self {
            Register::AB | Register::CD => true,
            _ => false,
        }
    }

    pub fn code(self) -> (r: u8)
        ensures
            r == self.spec_code(),
    {
        match self {
            Register::A => 0,
            Register::B => 1,
            Register::C => 2,
            Register::D => 3,
            Register::AB => 4,
            Register::CD => 5,
        }
    }

    /// Validates a numeric register code; codes outside the register set are
    /// rejected with `InvalidRegister`, never reinterpreted.
    pub fn from_code(code: u8) -> (r: Result<Register, CPUError>)
        ensures
            Register::spec_from_code(code) is Some ==> r == Ok::<Register, CPUError>(
                Register::spec_from_code(code).unwrap(),
            ),
            Register::spec_from_code(code) is None ==> r == Err::<Register, CPUError>(
                CPUError::InvalidRegister,
            ),
    {
        match code {
            0 => Ok(Register::A),
            1 => Ok(Register::B),
            2 => Ok(Register::C),
            3 => Ok(Register::D),
            4 => Ok(Register::AB),
            5 => Ok(Register::CD),
            _ => Err(CPUError::InvalidRegister),
        }
    }
}

/// The destination and source registers packed in one operand byte: the
/// destination in the high nibble, the source in the low nibble.
pub open spec fn spec_unpack_registers(byte: u8) -> Option<(Register, Register)> {
    match (Register::spec_from_code(byte / 16), Register::spec_from_code(byte % 16)) {
        (Some(dest), Some(src)) => Some((dest, src)),
        _ => None,
    }
}

/// Splits an operand byte into its destination and source registers,
/// rejecting nibbles that name no register.
pub fn unpack_registers(byte: u8) -> (r: Result<(Register, Register), CPUError>)
    ensures
        spec_unpack_registers(byte) is Some ==> r == Ok::<(Register, Register), CPUError>(
            spec_unpack_registers(byte).unwrap(),
        ),
        spec_unpack_registers(byte) is None ==> r == Err::<(Register, Register), CPUError>(
            CPUError::InvalidRegister,
        ),
{
    let dest = Register::from_code(byte / 16)?;
    let src = Register::from_code(byte % 16)?;
    Ok((dest, src))
}

/// The machine's register file: four byte-wide scalars, the stack pointer,
/// the program counter and the flag set. Register pairs have no storage of
/// their own; they are always the big-endian composition of their scalars.
#[derive(Debug, Clone, Copy, PartialEq, Eq, Structural)]
pub struct RegisterFile {
    pub a: u8,
    pub b: u8,
    pub c: u8,
    pub d: u8,
    pub sp: u16,
    pub pc: u16,
    pub flags: FlagSet,
}

impl RegisterFile {
    /// The current value of a scalar register.
    pub open spec fn reg_val(self, register: Register) -> u8 {
        match register {
            Register::A => self.a,
            Register::B => self.b,
            Register::C => self.c,
            Register::D => self.d,
            Register::AB => 0,
            Register::CD => 0,
        }
    }

    /// The current value of a register pair: high scalar first (big-endian).
    pub open spec fn pair_val(self, register: Register) -> u16 {
        word_from(self.reg_val(register.pair_high()), self.reg_val(register.pair_low()))
    }

    /// The register file with one scalar register replaced.
    pub open spec fn spec_set_reg(self, register: Register, value: u8) -> RegisterFile {
        match register {
            Register::A => RegisterFile { a: value, ..self },
            Register::B => RegisterFile { b: value, ..self },
            Register::C => RegisterFile { c: value, ..self },
            Register::D => RegisterFile { d: value, ..self },
            Register::AB => self,
            Register::CD => self,
        }
    }

    /// The register file with a pair replaced: the high byte goes to the
    /// first scalar, the low byte to the second.
    pub open spec fn spec_set_pair(self, register: Register, value: u16) -> RegisterFile {
        self.spec_set_reg(register.pair_high(), word_high(value)).spec_set_reg(
            register.pair_low(),
            word_low(value),
        )
    }

    /// A register file with every register, pointer and flag zero.
    pub open spec fn spec_zeroed() -> RegisterFile {
        RegisterFile { a: 0, b: 0, c: 0, d: 0, sp: 0, pc: 0, flags: FlagSet(0) }
    }

    pub fn new() -> (r: RegisterFile)
        ensures
            r == RegisterFile::spec_zeroed(),
    {
        RegisterFile { a: 0, b: 0, c: 0, d: 0, sp: 0, pc: 0, flags: FlagSet(0) }
    }

    /// Zeroes every register, pointer and flag.
    pub fn reset(&mut self)
        ensures
            *final(self) == RegisterFile::spec_zeroed(),
    {
        *self = RegisterFile::new();
    }

    pub fn get_reg(&self, register: Register) -> (r: u8)
        requires
            !register.spec_is_pair(),
        ensures
            r == self.reg_val(register),
    {
        match register {
            Register::A => self.a,
            Register::B => self.b,
            Register::C => self.c,
            Register::D => self.d,
            Register::AB => 0,
            Register::CD => 0,
        }
    }

    pub fn set_reg(&mut self, register: Register, value: u8)
        requires
            !register.spec_is_pair(),
        ensures
            *final(self) == old(self).spec_set_reg(register, value),
    {
        match register {
            Register::A => self.a = value,
            Register::B => self.b = value,
            Register::C => self.c = value,
            Register::D => self.d = value,
            Register::AB => (),
            Register::CD => (),
        }
    }

    pub fn get_reg_pair(&self, register: Register) -> (r: u16)
        requires
            register.spec_is_pair(),
        ensures
            r == self.pair_val(register),
    {
        match register {
            Register::AB => (self.a as u16) * 256 + (self.b as u16),
            Register::CD => (self.c as u16) * 256 + (self.d as u16),
            _ => 0,
        }
    }

    pub fn set_reg_pair(&mut self, register: Register, value: u16)
        requires
            register.spec_is_pair(),
        ensures
            *final(self) == old(self).spec_set_pair(register, value),
    {
        let high = (value / 256) as u8;
        let low = (value % 256) as u8;
        match register {
            Register::AB => {
                self.a = high;
                self.b = low;
            },
            Register::CD => {
                self.c = high;
                self.d = low;
            },
            _ => (),
        }
    }
}

/// A 16-bit word survives being split into its high and low bytes and
/// composed again.
pub proof fn lemma_word_round_trip(value: u16)
    ensures
        word_from(word_high(value), word_low(value)) == value,
{
    assert((value as int) / 256 * 256 + (value as int) % 256 == value as int) by {
        vstd::arithmetic::div_mod::lemma_fundamental_div_mod(value as int, 256);
    }
}

/// Register pair composition: writing a 16-bit value to a pair puts its high
/// byte in the pair's first scalar and its low byte in the second, and
/// reading the pair back gives the value.
pub proof fn lemma_register_pair_composition(regs: RegisterFile, register: Register, value: u16)
    requires
        register.spec_is_pair(),
    ensures
        regs.spec_set_pair(register, value).reg_val(register.pair_high()) == word_high(value),
        regs.spec_set_pair(register, value).reg_val(register.pair_low()) == word_low(value),
        regs.spec_set_pair(register, value).pair_val(register) == value,
{
    lemma_word_round_trip(value);
}

} // verus!
