use crate::framework::isa::{AddressingError, InstructionCategory, InstructionError};
use crate::machine::registers::{
    spec_unpack_registers, unpack_registers, word_from, word_high, word_low, Register,
};
use vstd::prelude::*;
use vstd::string::StringExecFns;

verus! {

/// An addressing mode: how the bytes after the opcode name the operand.
/// The mode lives in the three low bits of the opcode byte.
#[derive(Debug, Clone, Copy, PartialEq, Eq, Structural)]
pub enum Mode {
    /// A register id byte, then a one- or two-byte literal (by the
    /// register's pair-ness).
    Immediate,
    /// One byte packing the destination and source registers.
    Register,
    /// One byte packing the destination register and the source pair that
    /// holds the address.
    RegisterIndirect,
    /// One byte packing the registers, then a two-byte offset added to the
    /// source pair's address.
    RegisterIndexed,
    /// A register id byte, then a two-byte absolute address.
    Direct,
    /// A program-counter-relative offset; reserved for control flow and not
    /// taken by the data-movement engine.
    Relative,
}

impl Mode {
    /// The numeric code of the mode.
    pub open spec fn spec_code(self) -> u8 {
        match self {
            Mode::Immediate => 0,
            Mode::Register => 1,
            Mode::RegisterIndirect => 2,
            Mode::RegisterIndexed => 3,
            Mode::Direct => 4,
            Mode::Relative => 5,
        }
    }

    /// The mode a numeric code names, if any.
    pub open spec fn spec_from_code(code: u8) -> Option<Mode> {
        if code == 0 {
            Some(Mode::Immediate)
        } else if code == 1 {
            Some(Mode::Register)
        } else if code == 2 {
            Some(Mode::RegisterIndirect)
        } else if code == 3 {
            Some(Mode::RegisterIndexed)
        } else if code == 4 {
            Some(Mode::Direct)
        } else if code == 5 {
            Some(Mode::Relative)
        } else {
            None
        }
    }

    pub fn to_u8(self) -> (r: u8)
        ensures
            r == self.spec_code(),
    {
        match self {
            Mode::Immediate => 0,
            Mode::Register => 1,
            Mode::RegisterIndirect => 2,
            Mode::RegisterIndexed => 3,
            Mode::Direct => 4,
            Mode::Relative => 5,
        }
    }

    /// Validates a numeric mode code; undefined codes are rejected, never
    /// reinterpreted.
    pub fn from_u8(code: u8) -> (r: Result<Mode, InstructionError>)
        ensures
            Mode::spec_from_code(code) is Some ==> r == Ok::<Mode, InstructionError>(
                Mode::spec_from_code(code).unwrap(),
            ),
            Mode::spec_from_code(code) is None ==> r == Err::<Mode, InstructionError>(
                InstructionError::InvalidOpcode,
            ),
    {
        match code {
            0 => Ok(Mode::Immediate),
            1 => Ok(Mode::Register),
            2 => Ok(Mode::RegisterIndirect),
            3 => Ok(Mode::RegisterIndexed),
            4 => Ok(Mode::Direct),
            5 => Ok(Mode::Relative),
            _ => Err(InstructionError::InvalidOpcode),
        }
    }

    /// The mode's name.
    pub fn name(self) -> (r: &'static str)
        ensures
            r@ == self.spec_name(),
    {
        match self {
            Mode::Immediate => "Immediate",
            Mode::Register => "Register",
            Mode::RegisterIndirect => "RegisterIndirect",
            Mode::RegisterIndexed => "RegisterIndexed",
            Mode::Direct => "Direct",
            Mode::Relative => "Relative",
        }
    }

    /// The characters of the mode's name.
    pub open spec fn spec_name(self) -> Seq<char> {
        match self {
            Mode::Immediate => "Immediate"@,
            Mode::Register => "Register"@,
            Mode::RegisterIndirect => "RegisterIndirect"@,
            Mode::RegisterIndexed => "RegisterIndexed"@,
            Mode::Direct => "Direct"@,
            Mode::Relative => "Relative"@,
        }
    }
}

/// The operations of the instruction set. The instruction id lives in the
/// opcode byte's bits above the mode's three.
#[derive(Debug, Clone, Copy, PartialEq, Eq, Structural)]
pub enum Instruction {
    Nop,
    Add,
    Sub,
    Mul,
    Div,
    Mod,
    And,
    Or,
    Xor,
    Not,
    Lsh,
    Rsh,
    Cmp,
    Jmp,
    Jmpf,
    Jmpb,
    Call,
    Ret,
    Push,
    Pop,
    Write,
    Load,
    In,
    Out,
    Halt,
}

impl Instruction {
    /// The numeric id of the instruction.
    pub open spec fn spec_code(self) -> u8 {
        match self {
            Instruction::Nop => 0x00,
            Instruction::Add => 0x01,
            Instruction::Sub => 0x02,
            Instruction::Mul => 0x03,
            Instruction::Div => 0x04,
            Instruction::Mod => 0x05,
            Instruction::And => 0x06,
            Instruction::Or => 0x07,
            Instruction::Xor => 0x08,
            Instruction::Not => 0x09,
            Instruction::Lsh => 0x0a,
            Instruction::Rsh => 0x0b,
            Instruction::Cmp => 0x0c,
            Instruction::Jmp => 0x0d,
            Instruction::Jmpf => 0x0e,
            Instruction::Jmpb => 0x0f,
            Instruction::Call => 0x10,
            Instruction::Ret => 0x11,
            Instruction::Push => 0x12,
            Instruction::Pop => 0x13,
            Instruction::Write => 0x14,
            Instruction::Load => 0x15,
            Instruction::In => 0x16,
            Instruction::Out => 0x17,
            Instruction::Halt => 0x1F,
        }
    }

    /// The instruction a numeric id names, if any. Ids in the gap between
    /// `Out` and `Halt`, or past `Halt`, name nothing.
    pub open spec fn spec_from_code(code: u8) -> Option<Instruction> {
        if code == 0x00 {
            Some(Instruction::Nop)
        } else if code == 0x01 {
            Some(Instruction::Add)
        } else if code == 0x02 {
            Some(Instruction::Sub)
        } else if code == 0x03 {
            Some(Instruction::Mul)
        } else if code == 0x04 {
            Some(Instruction::Div)
        } else if code == 0x05 {
            Some(Instruction::Mod)
        } else if code == 0x06 {
            Some(Instruction::And)
        } else if code == 0x07 {
            Some(Instruction::Or)
        } else if code == 0x08 {
            Some(Instruction::Xor)
        } else if code == 0x09 {
            Some(Instruction::Not)
        } else if code == 0x0a {
            Some(Instruction::Lsh)
        } else if code == 0x0b {
            Some(Instruction::Rsh)
        } else if code == 0x0c {
            Some(Instruction::Cmp)
        } else if code == 0x0d {
            Some(Instruction::Jmp)
        } else if code == 0x0e {
            Some(Instruction::Jmpf)
        } else if code == 0x0f {
            Some(Instruction::Jmpb)
        } else if code == 0x10 {
            Some(Instruction::Call)
        } else if code == 0x11 {
            Some(Instruction::Ret)
        } else if code == 0x12 {
            Some(Instruction::Push)
        } else if code == 0x13 {
            Some(Instruction::Pop)
        } else if code == 0x14 {
            Some(Instruction::Write)
        } else if code == 0x15 {
            Some(Instruction::Load)
        } else if code == 0x16 {
            Some(Instruction::In)
        } else if code == 0x17 {
            Some(Instruction::Out)
        } else if code == 0x1F {
            Some(Instruction::Halt)
        } else {
            None
        }
    }

    pub fn to_u8(self) -> (r: u8)
        ensures
            r == self.spec_code(),
    {
        match self {
            Instruction::Nop => 0x00,
            Instruction::Add => 0x01,
            Instruction::Sub => 0x02,
            Instruction::Mul => 0x03,
            Instruction::Div => 0x04,
            Instruction::Mod => 0x05,
            Instruction::And => 0x06,
            Instruction::Or => 0x07,
            Instruction::Xor => 0x08,
            Instruction::Not => 0x09,
            Instruction::Lsh => 0x0a,
            Instruction::Rsh => 0x0b,
            Instruction::Cmp => 0x0c,
            Instruction::Jmp => 0x0d,
            Instruction::Jmpf => 0x0e,
            Instruction::Jmpb => 0x0f,
            Instruction::Call => 0x10,
            Instruction::Ret => 0x11,
            Instruction::Push => 0x12,
            Instruction::Pop => 0x13,
            Instruction::Write => 0x14,
            Instruction::Load => 0x15,
            Instruction::In => 0x16,
            Instruction::Out => 0x17,
            Instruction::Halt => 0x1F,
        }
    }

    /// Validates a numeric instruction id; undefined ids are rejected, never
    /// reinterpreted.
    pub fn from_u8(code: u8) -> (r: Result<Instruction, InstructionError>)
        ensures
            Instruction::spec_from_code(code) is Some ==> r == Ok::<Instruction, InstructionError>(
                Instruction::spec_from_code(code).unwrap(),
            ),
            Instruction::spec_from_code(code) is None ==> r == Err::<
                Instruction,
                InstructionError,
            >(InstructionError::InvalidOpcode),
    {
        match code {
            0x00 => Ok(Instruction::Nop),
            0x01 => Ok(Instruction::Add),
            0x02 => Ok(Instruction::Sub),
            0x03 => Ok(Instruction::Mul),
            0x04 => Ok(Instruction::Div),
            0x05 => Ok(Instruction::Mod),
            0x06 => Ok(Instruction::And),
            0x07 => Ok(Instruction::Or),
            0x08 => Ok(Instruction::Xor),
            0x09 => Ok(Instruction::Not),
            0x0a => Ok(Instruction::Lsh),
            0x0b => Ok(Instruction::Rsh),
            0x0c => Ok(Instruction::Cmp),
            0x0d => Ok(Instruction::Jmp),
            0x0e => Ok(Instruction::Jmpf),
            0x0f => Ok(Instruction::Jmpb),
            0x10 => Ok(Instruction::Call),
            0x11 => Ok(Instruction::Ret),
            0x12 => Ok(Instruction::Push),
            0x13 => Ok(Instruction::Pop),
            0x14 => Ok(Instruction::Write),
            0x15 => Ok(Instruction::Load),
            0x16 => Ok(Instruction::In),
            0x17 => Ok(Instruction::Out),
            0x1F => Ok(Instruction::Halt),
            _ => Err(InstructionError::InvalidOpcode),
        }
    }

    /// The characters of the instruction's mnemonic.
    pub open spec fn spec_mnemonic(self) -> Seq<char> {
        match self {
            Instruction::Nop => "nop"@,
            Instruction::Add => "add"@,
            Instruction::Sub => "sub"@,
            Instruction::Mul => "mul"@,
            Instruction::Div => "div"@,
            Instruction::Mod => "mod"@,
            Instruction::And => "and"@,
            Instruction::Or => "or"@,
            Instruction::Xor => "xor"@,
            Instruction::Not => "not"@,
            Instruction::Lsh => "lsh"@,
            Instruction::Rsh => "rsh"@,
            Instruction::Cmp => "cmp"@,
            Instruction::Jmp => "jmp"@,
            Instruction::Jmpf => "jmpf"@,
            Instruction::Jmpb => "jmpb"@,
            Instruction::Call => "call"@,
            Instruction::Ret => "ret"@,
            Instruction::Push => "push"@,
            Instruction::Pop => "pop"@,
            Instruction::Write => "store"@,
            Instruction::Load => "load"@,
            Instruction::In => "in"@,
            Instruction::Out => "out"@,
            Instruction::Halt => "halt"@,
        }
    }

    /// The assembly mnemonic the instruction disassembles to.
    pub fn mnemonic(self) -> (r: &'static str)
        ensures
            r@ == self.spec_mnemonic(),
    {
        match self {
            Instruction::Nop => "nop",
            Instruction::Add => "add",
            Instruction::Sub => "sub",
            Instruction::Mul => "mul",
            Instruction::Div => "div",
            Instruction::Mod => "mod",
            Instruction::And => "and",
            Instruction::Or => "or",
            Instruction::Xor => "xor",
            Instruction::Not => "not",
            Instruction::Lsh => "lsh",
            Instruction::Rsh => "rsh",
            Instruction::Cmp => "cmp",
            Instruction::Jmp => "jmp",
            Instruction::Jmpf => "jmpf",
            Instruction::Jmpb => "jmpb",
            Instruction::Call => "call",
            Instruction::Ret => "ret",
            Instruction::Push => "push",
            Instruction::Pop => "pop",
            Instruction::Write => "store",
            Instruction::Load => "load",
            Instruction::In => "in",
            Instruction::Out => "out",
            Instruction::Halt => "halt",
        }
    }
}

/// The opcode byte an instruction id and a mode pack to: the id in the bits
/// above the three mode bits.
pub open spec fn opcode_pack(instruction: Instruction, mode: Mode) -> u8 {
    ((instruction.spec_code() as int) * 8 + (mode.spec_code() as int)) as u8
}

/// The instruction-id part of an opcode byte (the bits above the low three).
pub open spec fn opcode_instr_code(byte: u8) -> u8 {
    ((byte as int) / 8) as u8
}

/// The mode part of an opcode byte (the low three bits).
pub open spec fn opcode_mode_code(byte: u8) -> u8 {
    ((byte as int) % 8) as u8
}

/// One opcode byte: a validated instruction id packed with a validated
/// addressing mode. The view of an `Opcode` is the raw byte.
#[derive(Debug, Clone, Copy, PartialEq, Eq, Structural)]
pub struct Opcode(u8);

impl View for Opcode {
    type V = u8;

    closed spec fn view(&self) -> u8 {
        self.0
    }
}

impl Opcode {
    pub fn new(instruction: Instruction, mode: Mode) -> (r: Opcode)
        ensures
            r@ == opcode_pack(instruction, mode),
    {
        Opcode(instruction.to_u8() * 8 + mode.to_u8())
    }

    /// Reads any byte as an opcode; validation happens in `instruction` and
    /// `mode`.
    pub fn from_u8(value: u8) -> (r: Opcode)
        ensures
            r@ == value,
    {
        Opcode(value)
    }

    /// The instruction the byte's id bits name; an undefined id is rejected
    /// with `InvalidOpcode`, never silently defaulted.
    pub fn instruction(&self) -> (r: Result<Instruction, InstructionError>)
        ensures
            Instruction::spec_from_code(opcode_instr_code(self@)) is Some ==> r == Ok::<
                Instruction,
                InstructionError,
            >(Instruction::spec_from_code(opcode_instr_code(self@)).unwrap()),
            Instruction::spec_from_code(opcode_instr_code(self@)) is None ==> r == Err::<
                Instruction,
                InstructionError,
            >(InstructionError::InvalidOpcode),
    {
        Instruction::from_u8(self.0 / 8)
    }

    /// The mode the byte's low three bits name; an undefined mode is
    /// rejected with `InvalidOpcode`.
    pub fn mode(&self) -> (r: Result<Mode, InstructionError>)
        ensures
            Mode::spec_from_code(opcode_mode_code(self@)) is Some ==> r == Ok::<
                Mode,
                InstructionError,
            >(Mode::spec_from_code(opcode_mode_code(self@)).unwrap()),
            Mode::spec_from_code(opcode_mode_code(self@)) is None ==> r == Err::<
                Mode,
                InstructionError,
            >(InstructionError::InvalidOpcode),
    {
        Mode::from_u8(self.0 % 8)
    }

    pub fn as_u8(&self) -> (r: u8)
        ensures
            r == self@,
    {
        self.0
    }
}

/// The operand byte packing two registers: the destination's code in the
/// high nibble, the source's in the low nibble.
pub open spec fn regs_pack(dest: Register, src: Register) -> u8 {
    ((dest.spec_code() as int) * 16 + (src.spec_code() as int)) as u8
}

/// A register pair packed into an operand byte unpacks to the same pair.
pub proof fn lemma_regs_pack_unpack(dest: Register, src: Register)
    ensures
        spec_unpack_registers(regs_pack(dest, src)) == Some((dest, src)),
{
    let dc = dest.spec_code() as int;
    let sc = src.spec_code() as int;
    vstd::arithmetic::div_mod::lemma_fundamental_div_mod_converse(dc * 16 + sc, 16, dc, sc);
}

/// The operands of one decoded instruction; the variant fixes the addressing
/// mode and how many bytes follow the opcode.
#[derive(Debug, Clone, Copy, PartialEq, Eq, Structural)]
pub enum Operands {
    /// Immediate mode with a scalar destination: one literal byte.
    ImmediateByte { dest: Register, value: u8 },
    /// Immediate mode with a pair destination: two literal bytes,
    /// big-endian.
    ImmediateWord { dest: Register, value: u16 },
    /// Register mode: the source register's current value moves.
    RegisterToRegister { dest: Register, src: Register },
    /// Register-indirect mode: the source pair holds the address.
    RegisterIndirect { dest: Register, src: Register },
    /// Register-indexed mode: the source pair's value plus a 16-bit offset
    /// is the address.
    RegisterIndexed { dest: Register, src: Register, offset: u16 },
    /// Direct mode: a register and a two-byte absolute address.
    Direct { reg: Register, addr: u16 },
}

/// One instruction as decoded from the byte stream: the operation and its
/// operands.
#[derive(Debug, Clone, Copy, PartialEq, Eq, Structural)]
pub struct DecodedInstruction {
    pub op: Instruction,
    pub operands: Operands,
}

impl DecodedInstruction {
    /// Operand widths agree with the registers they name: immediate
    /// literals are as wide as the destination, register moves pair like
    /// with like, and indirection goes through a pair.
    pub open spec fn wf(self) -> bool {
        match self.operands {
            Operands::ImmediateByte { dest, .. } => !dest.spec_is_pair(),
            Operands::ImmediateWord { dest, .. } => dest.spec_is_pair(),
            Operands::RegisterToRegister { dest, src } => dest.spec_is_pair()
                == src.spec_is_pair(),
            Operands::RegisterIndirect { dest, src } => src.spec_is_pair(),
            Operands::RegisterIndexed { dest, src, .. } => src.spec_is_pair(),
            Operands::Direct { .. } => true,
        }
    }

    /// The addressing mode the operands encode under.
    pub open spec fn spec_mode(self) -> Mode {
        match self.operands {
            Operands::ImmediateByte { .. } => Mode::Immediate,
            Operands::ImmediateWord { .. } => Mode::Immediate,
            Operands::RegisterToRegister { .. } => Mode::Register,
            Operands::RegisterIndirect { .. } => Mode::RegisterIndirect,
            Operands::RegisterIndexed { .. } => Mode::RegisterIndexed,
            Operands::Direct { .. } => Mode::Direct,
        }
    }

    /// The instruction's binary encoding: the packed opcode byte, then the
    /// operand bytes, 16-bit values big-endian.
    pub open spec fn encode_spec(self) -> Seq<u8> {
        match self.operands {
            Operands::ImmediateByte { dest, value } => seq![
                opcode_pack(self.op, Mode::Immediate),
                dest.spec_code(),
                value,
            ],
            Operands::ImmediateWord { dest, value } => seq![
                opcode_pack(self.op, Mode::Immediate),
                dest.spec_code(),
                word_high(value),
                word_low(value),
            ],
            Operands::RegisterToRegister { dest, src } => seq![
                opcode_pack(self.op, Mode::Register),
                regs_pack(dest, src),
            ],
            Operands::RegisterIndirect { dest, src } => seq![
                opcode_pack(self.op, Mode::RegisterIndirect),
                regs_pack(dest, src),
            ],
            Operands::RegisterIndexed { dest, src, offset } => seq![
                opcode_pack(self.op, Mode::RegisterIndexed),
                regs_pack(dest, src),
                word_high(offset),
                word_low(offset),
            ],
            Operands::Direct { reg, addr } => seq![
                opcode_pack(self.op, Mode::Direct),
                reg.spec_code(),
                word_high(addr),
                word_low(addr),
            ],
        }
    }

    /// What decoding the operand bytes after the opcode yields for a mode:
    /// the operands, or the exact error. Too few bytes is `InvalidLength`; a
    /// nibble or byte that names no register is `InvalidRegister`; operand
    /// widths that contradict the mode are `InvalidRegister`; `Relative` is
    /// reserved and refused as `InvalidAddressingMode`.
    pub open spec fn decode_operands_spec(mode: Mode, rest: Seq<u8>) -> Result<
        Operands,
        InstructionError,
    > {
        match mode {
            Mode::Immediate => {
                if rest.len() < 1 {
                    Err(InstructionError::InvalidLength)
                } else {
                    match Register::spec_from_code(rest[0]) {
                        None => Err(
                            InstructionError::AddressingError(AddressingError::InvalidRegister),
                        ),
                        Some(dest) => {
                            if !dest.spec_is_pair() {
                                if rest.len() < 2 {
                                    Err(InstructionError::InvalidLength)
                                } else {
                                    Ok(Operands::ImmediateByte { dest, value: rest[1] })
                                }
                            } else {
                                if rest.len() < 3 {
                                    Err(InstructionError::InvalidLength)
                                } else {
                                    Ok(
                                        Operands::ImmediateWord {
                                            dest,
                                            value: word_from(rest[1], rest[2]),
                                        },
                                    )
                                }
                            }
                        },
                    }
                }
            },
            Mode::Register => {
                if rest.len() < 1 {
                    Err(InstructionError::InvalidLength)
                } else {
                    match spec_unpack_registers(rest[0]) {
                        None => Err(
                            InstructionError::AddressingError(AddressingError::InvalidRegister),
                        ),
                        Some((dest, src)) => {
                            if dest.spec_is_pair() == src.spec_is_pair() {
                                Ok(Operands::RegisterToRegister { dest, src })
                            } else {
                                Err(
                                    InstructionError::AddressingError(
                                        AddressingError::InvalidRegister,
                                    ),
                                )
                            }
                        },
                    }
                }
            },
            Mode::RegisterIndirect => {
                if rest.len() < 1 {
                    Err(InstructionError::InvalidLength)
                } else {
                    match spec_unpack_registers(rest[0]) {
                        None => Err(
                            InstructionError::AddressingError(AddressingError::InvalidRegister),
                        ),
                        Some((dest, src)) => {
                            if src.spec_is_pair() {
                                Ok(Operands::RegisterIndirect { dest, src })
                            } else {
                                Err(
                                    InstructionError::AddressingError(
                                        AddressingError::InvalidRegister,
                                    ),
                                )
                            }
                        },
                    }
                }
            },
            Mode::RegisterIndexed => {
                if rest.len() < 1 {
                    Err(InstructionError::InvalidLength)
                } else {
                    match spec_unpack_registers(rest[0]) {
                        None => Err(
                            InstructionError::AddressingError(AddressingError::InvalidRegister),
                        ),
                        Some((dest, src)) => {
                            if !src.spec_is_pair() {
                                Err(
                                    InstructionError::AddressingError(
                                        AddressingError::InvalidRegister,
                                    ),
                                )
                            } else if rest.len() < 3 {
                                Err(InstructionError::InvalidLength)
                            } else {
                                Ok(
                                    Operands::RegisterIndexed {
                                        dest,
                                        src,
                                        offset: word_from(rest[1], rest[2]),
                                    },
                                )
                            }
                        },
                    }
                }
            },
            Mode::Direct => {
                if rest.len() < 1 {
                    Err(InstructionError::InvalidLength)
                } else {
                    match Register::spec_from_code(rest[0]) {
                        None => Err(
                            InstructionError::AddressingError(AddressingError::InvalidRegister),
                        ),
                        Some(reg) => {
                            if rest.len() < 3 {
                                Err(InstructionError::InvalidLength)
                            } else {
                                Ok(Operands::Direct { reg, addr: word_from(rest[1], rest[2]) })
                            }
                        },
                    }
                }
            },
            Mode::Relative => Err(
                InstructionError::AddressingError(AddressingError::InvalidAddressingMode),
            ),
        }
    }

    /// What decoding a byte stream yields: the instruction at its front, or
    /// the exact error. An empty stream is `InvalidLength`; an opcode byte
    /// whose id or mode bits name nothing is `InvalidOpcode`; the operand
    /// errors follow `decode_operands_spec`.
    pub open spec fn decode_spec(bytes: Seq<u8>) -> Result<DecodedInstruction, InstructionError> {
        if bytes.len() < 1 {
            Err(InstructionError::InvalidLength)
        } else {
            match Instruction::spec_from_code(opcode_instr_code(bytes[0])) {
                None => Err(InstructionError::InvalidOpcode),
                Some(op) => match Mode::spec_from_code(opcode_mode_code(bytes[0])) {
                    None => Err(InstructionError::InvalidOpcode),
                    Some(mode) => match Self::decode_operands_spec(mode, bytes.skip(1)) {
                        Ok(operands) => Ok(DecodedInstruction { op, operands }),
                        Err(e) => Err(e),
                    },
                },
            }
        }
    }

    /// Encodes the instruction to its binary form.
    pub fn encode(&self) -> (r: Vec<u8>)
        ensures
            r@ == self.encode_spec(),
    {
        let mut out: Vec<u8> = Vec::new();
        match self.operands {
            Operands::ImmediateByte { dest, value } => {
                out.push(Opcode::new(self.op, Mode::Immediate).as_u8());
                out.push(dest.code());
                out.push(value);
            },
            Operands::ImmediateWord { dest, value } => {
                out.push(Opcode::new(self.op, Mode::Immediate).as_u8());
                out.push(dest.code());
                out.push((value / 256) as u8);
                out.push((value % 256) as u8);
            },
            Operands::RegisterToRegister { dest, src } => {
                out.push(Opcode::new(self.op, Mode::Register).as_u8());
                out.push(dest.code() * 16 + src.code());
            },
            Operands::RegisterIndirect { dest, src } => {
                out.push(Opcode::new(self.op, Mode::RegisterIndirect).as_u8());
                out.push(dest.code() * 16 + src.code());
            },
            Operands::RegisterIndexed { dest, src, offset } => {
                out.push(Opcode::new(self.op, Mode::RegisterIndexed).as_u8());
                out.push(dest.code() * 16 + src.code());
                out.push((offset / 256) as u8);
                out.push((offset % 256) as u8);
            },
            Operands::Direct { reg, addr } => {
                out.push(Opcode::new(self.op, Mode::Direct).as_u8());
                out.push(reg.code());
                out.push((addr / 256) as u8);
                out.push((addr % 256) as u8);
            },
        }
        proof {
            assert(out@ =~= self.encode_spec());
        }
        out
    }

    /// The addressing mode the operands encode under.
    pub fn mode(&self) -> (r: Mode)
        ensures
            r == self.spec_mode(),
    {
        match self.operands {
            Operands::ImmediateByte { .. } => Mode::Immediate,
            Operands::ImmediateWord { .. } => Mode::Immediate,
            Operands::RegisterToRegister { .. } => Mode::Register,
            Operands::RegisterIndirect { .. } => Mode::RegisterIndirect,
            Operands::RegisterIndexed { .. } => Mode::RegisterIndexed,
            Operands::Direct { .. } => Mode::Direct,
        }
    }

    /// The number of bytes the instruction occupies, opcode byte included.
    pub fn size(&self) -> (r: usize)
        ensures
            r == self.encode_spec().len(),
    {
        match self.operands {
            Operands::ImmediateByte { .. } => 3,
            Operands::ImmediateWord { .. } => 4,
            Operands::RegisterToRegister { .. } => 2,
            Operands::RegisterIndirect { .. } => 2,
            Operands::RegisterIndexed { .. } => 4,
            Operands::Direct { .. } => 4,
        }
    }

    /// Decodes the instruction at the front of the byte stream. Fails with a
    /// length error rather than read past the supplied bytes, and never
    /// panics on malformed input.
    pub fn decode(bytes: &[u8]) -> (r: Result<DecodedInstruction, InstructionError>)
        ensures
            r == DecodedInstruction::decode_spec(bytes@),
    {
        if bytes.len() < 1 {
            return Err(InstructionError::InvalidLength);
        }
        let b0 = bytes[0];
        let op = match Instruction::from_u8(b0 / 8) {
            Ok(op) => op,
            Err(e) => {
                return Err(e);
            },
        };
        let mode = match Mode::from_u8(b0 % 8) {
            Ok(m) => m,
            Err(e) => {
                return Err(e);
            },
        };
        let ghost rest = bytes@.skip(1);
        proof {
            assert(forall|k: int| 0 <= k < rest.len() ==> rest[k] == bytes@[k + 1]);
        }
        let operands = match mode {
            Mode::Immediate => {
                if bytes.len() < 2 {
                    return Err(InstructionError::InvalidLength);
                }
                let dest = match Register::from_code(bytes[1]) {
                    Ok(d) => d,
                    Err(_) => {
                        return Err(
                            InstructionError::AddressingError(AddressingError::InvalidRegister),
                        );
                    },
                };
                if !dest.is_pair() {
                    if bytes.len() < 3 {
                        return Err(InstructionError::InvalidLength);
                    }
                    Operands::ImmediateByte { dest, value: bytes[2] }
                } else {
                    if bytes.len() < 4 {
                        return Err(InstructionError::InvalidLength);
                    }
                    let value = (bytes[2] as u16) * 256 + (bytes[3] as u16);
                    Operands::ImmediateWord { dest, value }
                }
            },
            Mode::Register => {
                if bytes.len() < 2 {
                    return Err(InstructionError::InvalidLength);
                }
                let (dest, src) = match unpack_registers(bytes[1]) {
                    Ok(p) => p,
                    Err(_) => {
                        return Err(
                            InstructionError::AddressingError(AddressingError::InvalidRegister),
                        );
                    },
                };
                if dest.is_pair() != src.is_pair() {
                    return Err(InstructionError::AddressingError(AddressingError::InvalidRegister));
                }
                Operands::RegisterToRegister { dest, src }
            },
            Mode::RegisterIndirect => {
                if bytes.len() < 2 {
                    return Err(InstructionError::InvalidLength);
                }
                let (dest, src) = match unpack_registers(bytes[1]) {
                    Ok(p) => p,
                    Err(_) => {
                        return Err(
                            InstructionError::AddressingError(AddressingError::InvalidRegister),
                        );
                    },
                };
                if !src.is_pair() {
                    return Err(InstructionError::AddressingError(AddressingError::InvalidRegister));
                }
                Operands::RegisterIndirect { dest, src }
            },
            Mode::RegisterIndexed => {
                if bytes.len() < 2 {
                    return Err(InstructionError::InvalidLength);
                }
                let (dest, src) = match unpack_registers(bytes[1]) {
                    Ok(p) => p,
                    Err(_) => {
                        return Err(
                            InstructionError::AddressingError(AddressingError::InvalidRegister),
                        );
                    },
                };
                if !src.is_pair() {
                    return Err(InstructionError::AddressingError(AddressingError::InvalidRegister));
                }
                if bytes.len() < 4 {
                    return Err(InstructionError::InvalidLength);
                }
                let offset = (bytes[2] as u16) * 256 + (bytes[3] as u16);
                Operands::RegisterIndexed { dest, src, offset }
            },
            Mode::Direct => {
                if bytes.len() < 2 {
                    return Err(InstructionError::InvalidLength);
                }
                let reg = match Register::from_code(bytes[1]) {
                    Ok(d) => d,
                    Err(_) => {
                        return Err(
                            InstructionError::AddressingError(AddressingError::InvalidRegister),
                        );
                    },
                };
                if bytes.len() < 4 {
                    return Err(InstructionError::InvalidLength);
                }
                let addr = (bytes[2] as u16) * 256 + (bytes[3] as u16);
                Operands::Direct { reg, addr }
            },
            Mode::Relative => {
                return Err(
                    InstructionError::AddressingError(AddressingError::InvalidAddressingMode),
                );
            },
        };
        Ok(DecodedInstruction { op, operands })
    }
}

/// Decoding reads only the encoded prefix: a byte stream that begins with a
/// well-formed instruction's encoding decodes to that instruction, whatever
/// follows.
pub proof fn lemma_decode_encoded_prefix(d: DecodedInstruction, rest: Seq<u8>)
    requires
        d.wf(),
    ensures
        DecodedInstruction::decode_spec(d.encode_spec() + rest) == Ok::<
            DecodedInstruction,
            InstructionError,
        >(d),
{
    let bytes = d.encode_spec() + rest;
    let mode = d.spec_mode();
    lemma_opcode_packing(d.op, mode);
    assert(bytes[0] == opcode_pack(d.op, mode));
    let tail = bytes.skip(1);
    assert(forall|k: int| 0 <= k < tail.len() ==> tail[k] == bytes[k + 1]);
    match d.operands {
        Operands::ImmediateByte { dest, value } => {
            assert(tail[0] == dest.spec_code());
            assert(tail[1] == value);
        },
        Operands::ImmediateWord { dest, value } => {
            assert(tail[0] == dest.spec_code());
            assert(tail[1] == word_high(value));
            assert(tail[2] == word_low(value));
            crate::machine::registers::lemma_word_round_trip(value);
        },
        Operands::RegisterToRegister { dest, src } => {
            assert(tail[0] == regs_pack(dest, src));
            lemma_regs_pack_unpack(dest, src);
        },
        Operands::RegisterIndirect { dest, src } => {
            assert(tail[0] == regs_pack(dest, src));
            lemma_regs_pack_unpack(dest, src);
        },
        Operands::RegisterIndexed { dest, src, offset } => {
            assert(tail[0] == regs_pack(dest, src));
            assert(tail[1] == word_high(offset));
            assert(tail[2] == word_low(offset));
            lemma_regs_pack_unpack(dest, src);
            crate::machine::registers::lemma_word_round_trip(offset);
        },
        Operands::Direct { reg, addr } => {
            assert(tail[0] == reg.spec_code());
            assert(tail[1] == word_high(addr));
            assert(tail[2] == word_low(addr));
            crate::machine::registers::lemma_word_round_trip(addr);
        },
    }
}

/// Codec round trip: decoding a well-formed instruction's own encoding gives
/// the instruction back.
pub proof fn lemma_codec_round_trip(d: DecodedInstruction)
    requires
        d.wf(),
    ensures
        DecodedInstruction::decode_spec(d.encode_spec()) == Ok::<
            DecodedInstruction,
            InstructionError,
        >(d),
{
    lemma_decode_encoded_prefix(d, Seq::empty());
    assert(d.encode_spec() + Seq::<u8>::empty() =~= d.encode_spec());
}

/// A successfully decoded instruction is well-formed, and its encoding fits
/// inside the bytes it was decoded from.
pub proof fn lemma_decode_size(bytes: Seq<u8>, d: DecodedInstruction)
    requires
        DecodedInstruction::decode_spec(bytes) == Ok::<DecodedInstruction, InstructionError>(d),
    ensures
        d.wf(),
        1 <= d.encode_spec().len() <= bytes.len(),
{
}

/// Opcode packing: packing any instruction with any mode and taking the two
/// parts back out gives the instruction and the mode.
pub proof fn lemma_opcode_packing(instruction: Instruction, mode: Mode)
    ensures
        Instruction::spec_from_code(opcode_instr_code(opcode_pack(instruction, mode))) == Some(
            instruction,
        ),
        Mode::spec_from_code(opcode_mode_code(opcode_pack(instruction, mode))) == Some(mode),
{
    let ic = instruction.spec_code() as int;
    let mc = mode.spec_code() as int;
    let packed = ic * 8 + mc;
    vstd::arithmetic::div_mod::lemma_fundamental_div_mod_converse(packed, 8, ic, mc);
}

/// Whether executing the instruction may change the flag register:
/// arithmetic, logic and compare operations do, data movement and control
/// flow do not.
impl Instruction {
    pub open spec fn spec_affects_flags(self) -> bool {
        match self {
            Instruction::Add | Instruction::Sub | Instruction::Mul | Instruction::Div
                | Instruction::Mod | Instruction::And | Instruction::Or | Instruction::Xor
                | Instruction::Not | Instruction::Lsh | Instruction::Rsh | Instruction::Cmp => (
            true),
            _ => false,
        }
    }
}

impl crate::framework::isa::InstructionCodec for DecodedInstruction {
    fn decode(bytes: &[u8]) -> (r: Result<Self, InstructionError>)
        ensures
            r == DecodedInstruction::decode_spec(bytes@),
    {
        DecodedInstruction::decode(bytes)
    }

    fn encode(&self) -> (r: Vec<u8>)
        ensures
            r@ == self.encode_spec(),
    {
        DecodedInstruction::encode(self)
    }

    fn size(&self) -> (r: usize)
        ensures
            r == self.encode_spec().len(),
    {
        DecodedInstruction::size(self)
    }
}

impl crate::framework::isa::Instruction for DecodedInstruction {
    /// The cycle cost of the instruction, counted as the bytes the fetch
    /// consumes.
    fn cycles(&self) -> (r: u8)
        ensures
            r == self.encode_spec().len(),
    {
        match self.operands {
            Operands::ImmediateByte { .. } => 3,
            Operands::ImmediateWord { .. } => 4,
            Operands::RegisterToRegister { .. } => 2,
            Operands::RegisterIndirect { .. } => 2,
            Operands::RegisterIndexed { .. } => 4,
            Operands::Direct { .. } => 4,
        }
    }

    fn affects_flags(&self) -> (r: bool)
        ensures
            r == self.op.spec_affects_flags(),
    {
        match self.op {
            Instruction::Add | Instruction::Sub | Instruction::Mul | Instruction::Div
                | Instruction::Mod | Instruction::And | Instruction::Or | Instruction::Xor
                | Instruction::Not | Instruction::Lsh | Instruction::Rsh | Instruction::Cmp => (
            true),
            _ => false,
        }
    }

    /// Renders the instruction's mnemonic and addressing mode.
    fn disassemble(&self) -> (r: String)
        ensures
            r@ == self.op.spec_mnemonic() + " "@ + self.spec_mode().spec_name(),
    {
        let mut s = String::from_str(self.op.mnemonic());
        s.append(" ");
        s.append(self.mode().name());
        s
    }
}

/// The machine's instruction set seen through the framework interface:
/// 8-bit words, 16-bit addresses, six register names, and the packed opcode
/// byte layout.
pub struct MachineInstructionSet;

impl MachineInstructionSet {
    /// Whether a packed opcode byte names a defined instruction and mode.
    pub open spec fn spec_is_valid_opcode(byte: u8) -> bool {
        Instruction::spec_from_code(opcode_instr_code(byte)) is Some && Mode::spec_from_code(
            opcode_mode_code(byte),
        ) is Some
    }

    /// The category each instruction falls in.
    pub open spec fn spec_category(instruction: Instruction) -> InstructionCategory {
        match instruction {
            Instruction::Nop => InstructionCategory::Misc,
            Instruction::Add | Instruction::Sub | Instruction::Mul | Instruction::Div
                | Instruction::Mod | Instruction::Cmp => InstructionCategory::Arithmetic,
            Instruction::And | Instruction::Or | Instruction::Xor | Instruction::Not
                | Instruction::Lsh | Instruction::Rsh => InstructionCategory::Logic,
            Instruction::Jmp | Instruction::Jmpf | Instruction::Jmpb | Instruction::Call
                | Instruction::Ret => InstructionCategory::Control,
            Instruction::Push | Instruction::Pop => InstructionCategory::Stack,
            Instruction::Write | Instruction::Load => InstructionCategory::DataTransfer,
            Instruction::In | Instruction::Out => InstructionCategory::IO,
            Instruction::Halt => InstructionCategory::System,
        }
    }

    /// The defined opcode bytes below `n` whose instruction falls in the
    /// category, ascending.
    pub open spec fn spec_opcodes_in_category_below(
        category: InstructionCategory,
        n: int,
    ) -> Seq<u8>
        decreases n,
    {
        if n <= 0 {
            Seq::empty()
        } else {
            let prefix = Self::spec_opcodes_in_category_below(category, n - 1);
            let b = (n - 1) as u8;
            if Self::spec_is_valid_opcode(b) && Self::spec_category(
                Instruction::spec_from_code(opcode_instr_code(b)).unwrap(),
            ) == category {
                prefix.push(b)
            } else {
                prefix
            }
        }
    }

    /// A byte stands in the listing below `n` exactly when it is below `n`,
    /// is a defined opcode, and its instruction falls in the category.
    pub proof fn lemma_opcodes_below_contains(category: InstructionCategory, n: int, byte: u8)
        requires
            0 <= n <= 256,
        ensures
            Self::spec_opcodes_in_category_below(category, n).contains(byte) <==> ((byte as int)
                < n && Self::spec_is_valid_opcode(byte) && Self::spec_category(
                Instruction::spec_from_code(opcode_instr_code(byte)).unwrap(),
            ) == category),
        decreases n,
    {
        if n > 0 {
            Self::lemma_opcodes_below_contains(category, n - 1, byte);
            let prefix = Self::spec_opcodes_in_category_below(category, n - 1);
            let b = (n - 1) as u8;
            if Self::spec_is_valid_opcode(b) && Self::spec_category(
                Instruction::spec_from_code(opcode_instr_code(b)).unwrap(),
            ) == category {
                let whole = prefix.push(b);
                if whole.contains(byte) {
                    let i = choose|i: int| 0 <= i < whole.len() && whole[i] == byte;
                    if i < prefix.len() {
                        assert(prefix[i] == byte);
                        assert(prefix.contains(byte));
                    } else {
                        assert(byte == b);
                    }
                }
                if prefix.contains(byte) {
                    let i = choose|i: int| 0 <= i < prefix.len() && prefix[i] == byte;
                    assert(whole[i] == byte);
                    assert(whole.contains(byte));
                }
                if byte == b {
                    assert(whole[prefix.len() as int] == b);
                    assert(whole.contains(byte));
                }
            }
        }
    }
}

impl crate::framework::isa::InstructionSet for MachineInstructionSet {
    fn name(&self) -> (r: &'static str)
        ensures
            r@ == "tiny-16"@,
    {
        "tiny-16"
    }

    fn word_size(&self) -> (r: u8)
        ensures
            r == 8,
    {
        8
    }

    fn address_size(&self) -> (r: u8)
        ensures
            r == 16,
    {
        16
    }

    fn register_count(&self) -> (r: usize)
        ensures
            r == 6,
    {
        6
    }

    fn is_valid_opcode(&self, opcode: u8) -> (r: bool)
        ensures
            r == Self::spec_is_valid_opcode(opcode),
    {
        let instr_ok = match Instruction::from_u8(opcode / 8) {
            Ok(_) => true,
            Err(_) => false,
        };
        let mode_ok = match Mode::from_u8(opcode % 8) {
            Ok(_) => true,
            Err(_) => false,
        };
        instr_ok && mode_ok
    }

    /// Categorizes a packed opcode byte; a byte that names no instruction
    /// or mode is rejected, never silently defaulted.
    fn categorize(&self, opcode: u8) -> (r: Result<InstructionCategory, InstructionError>)
        ensures
            Self::spec_is_valid_opcode(opcode) ==> r == Ok::<
                InstructionCategory,
                InstructionError,
            >(Self::spec_category(Instruction::spec_from_code(opcode_instr_code(opcode)).unwrap())),
            !Self::spec_is_valid_opcode(opcode) ==> r == Err::<
                InstructionCategory,
                InstructionError,
            >(InstructionError::InvalidOpcode),
    {
        let instruction = Instruction::from_u8(opcode / 8)?;
        let mode = Mode::from_u8(opcode % 8);
        if mode.is_err() {
            return Err(InstructionError::InvalidOpcode);
        }
        Ok(
            match instruction {
                Instruction::Nop => InstructionCategory::Misc,
                Instruction::Add | Instruction::Sub | Instruction::Mul | Instruction::Div
                    | Instruction::Mod | Instruction::Cmp => InstructionCategory::Arithmetic,
                Instruction::And | Instruction::Or | Instruction::Xor | Instruction::Not
                    | Instruction::Lsh | Instruction::Rsh => InstructionCategory::Logic,
                Instruction::Jmp | Instruction::Jmpf | Instruction::Jmpb | Instruction::Call
                    | Instruction::Ret => InstructionCategory::Control,
                Instruction::Push | Instruction::Pop => InstructionCategory::Stack,
                Instruction::Write | Instruction::Load => InstructionCategory::DataTransfer,
                Instruction::In | Instruction::Out => InstructionCategory::IO,
                Instruction::Halt => InstructionCategory::System,
            },
        )
    }

    /// Lists every defined opcode byte whose instruction falls in the
    /// category, ascending.
    fn opcodes_in_category(&self, category: InstructionCategory) -> (r: Vec<u8>)
        ensures
            r@ == Self::spec_opcodes_in_category_below(category, 256),
    {
        let mut out: Vec<u8> = Vec::new();
        let mut b: usize = 0;
        while b < 256
            invariant
                b <= 256,
                out@ == Self::spec_opcodes_in_category_below(category, b as int),
            decreases 256 - b,
        {
            let byte = b as u8;
            match self.categorize(byte) {
                Ok(c) => if c == category {
                    out.push(byte);
                },
                Err(_) => (),
            }
            b = b + 1;
        }
        out
    }
}

} // verus!
