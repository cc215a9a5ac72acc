use crate::cpu::error::{CPUError, CPUResult};
use crate::framework::isa::{AddressingError, InstructionError};
use crate::machine::isa::{opcode_pack, DecodedInstruction, Instruction, Operands};
use crate::machine::memory::Memory;
use crate::machine::registers::{word_from, word_high, word_low, Register, RegisterFile};
use crate::memory::error::MemoryError;
use vstd::prelude::*;

verus! {

/// The register file with only the program counter replaced.
pub open spec fn regs_with_pc(regs: RegisterFile, pc: u16) -> RegisterFile {
    RegisterFile { pc, ..regs }
}

/// What loading into `dest` from memory address `addr` does: a pair
/// destination takes the big-endian 16-bit value at `addr`, a scalar takes
/// the byte; an access past the end of memory fails and changes nothing.
pub open spec fn load_from_mem_spec(
    regs: RegisterFile,
    mem: Seq<u8>,
    dest: Register,
    addr: int,
    new_pc: u16,
) -> Result<(RegisterFile, Seq<u8>), CPUError> {
    if dest.spec_is_pair() {
        if addr + 1 < mem.len() {
            Ok(
                (
                    regs_with_pc(
                        regs.spec_set_pair(dest, word_from(mem[addr], mem[addr + 1])),
                        new_pc,
                    ),
                    mem,
                ),
            )
        } else {
            Err(CPUError::MemoryError(MemoryError::OutOfBounds))
        }
    } else {
        if addr < mem.len() {
            Ok((regs_with_pc(regs.spec_set_reg(dest, mem[addr]), new_pc), mem))
        } else {
            Err(CPUError::MemoryError(MemoryError::OutOfBounds))
        }
    }
}

/// What executing one decoded instruction does to the registers and memory.
/// The program counter advances by exactly the bytes the instruction and its
/// operands occupy. `Load` moves a value into a register from a literal,
/// another register, or memory; `Write` stores a register to memory. Every
/// other operation, and any 16-bit address computation that leaves the
/// address space, is an explicit failure that changes nothing.
pub open spec fn apply_spec(d: DecodedInstruction, regs: RegisterFile, mem: Seq<u8>) -> Result<
    (RegisterFile, Seq<u8>),
    CPUError,
> {
    let new_pc = ((regs.pc as int) + d.encode_spec().len()) as u16;
    match (d.op, d.operands) {
        (Instruction::Load, Operands::ImmediateByte { dest, value }) => Ok(
            (regs_with_pc(regs.spec_set_reg(dest, value), new_pc), mem),
        ),
        (Instruction::Load, Operands::ImmediateWord { dest, value }) => Ok(
            (regs_with_pc(regs.spec_set_pair(dest, value), new_pc), mem),
        ),
        (Instruction::Load, Operands::RegisterToRegister { dest, src }) => {
            if dest.spec_is_pair() {
                Ok((regs_with_pc(regs.spec_set_pair(dest, regs.pair_val(src)), new_pc), mem))
            } else {
                Ok((regs_with_pc(regs.spec_set_reg(dest, regs.reg_val(src)), new_pc), mem))
            }
        },
        (Instruction::Load, Operands::RegisterIndirect { dest, src }) => load_from_mem_spec(
            regs,
            mem,
            dest,
            regs.pair_val(src) as int,
            new_pc,
        ),
        (Instruction::Load, Operands::RegisterIndexed { dest, src, offset }) => {
            let addr = (regs.pair_val(src) as int) + (offset as int);
            if addr > 0xFFFF {
                Err(CPUError::MemoryError(MemoryError::OutOfBounds))
            } else {
                load_from_mem_spec(regs, mem, dest, addr, new_pc)
            }
        },
        (Instruction::Load, Operands::Direct { reg, addr }) => load_from_mem_spec(
            regs,
            mem,
            reg,
            addr as int,
            new_pc,
        ),
        (Instruction::Write, Operands::Direct { reg, addr }) => {
            if reg.spec_is_pair() {
                if (addr as int) + 1 < mem.len() {
                    Ok(
                        (
                            regs_with_pc(regs, new_pc),
                            mem.update(addr as int, word_high(regs.pair_val(reg))).update(
                                addr as int + 1,
                                word_low(regs.pair_val(reg)),
                            ),
                        ),
                    )
                } else {
                    Err(CPUError::MemoryError(MemoryError::OutOfBounds))
                }
            } else {
                if (addr as int) < mem.len() {
                    Ok((regs_with_pc(regs, new_pc), mem.update(addr as int, regs.reg_val(reg))))
                } else {
                    Err(CPUError::MemoryError(MemoryError::OutOfBounds))
                }
            }
        },
        _ => Err(CPUError::InvalidInstruction(opcode_pack(d.op, d.spec_mode()))),
    }
}

/// The engine's error for a codec failure at the opcode byte: running out of
/// bytes is an out-of-bounds fetch, a bad register nibble is
/// `InvalidRegister`, anything else rejects the opcode byte itself.
pub open spec fn step_error_of(e: InstructionError, opcode_byte: u8) -> CPUError {
    match e {
        InstructionError::InvalidLength => CPUError::MemoryError(MemoryError::OutOfBounds),
        InstructionError::InvalidOpcode => CPUError::InvalidInstruction(opcode_byte),
        InstructionError::InvalidValue => CPUError::InvalidInstruction(opcode_byte),
        InstructionError::AddressingError(AddressingError::InvalidRegister) => (
        CPUError::InvalidRegister),
        InstructionError::AddressingError(AddressingError::InvalidAddressingMode) => (
        CPUError::InvalidInstruction(opcode_byte)),
    }
}

/// One fetch-decode-execute step: decode the instruction at the program
/// counter and apply it. A program counter outside memory is an
/// out-of-bounds fetch. On any error, registers and memory are unchanged.
pub open spec fn step_spec(regs: RegisterFile, mem: Seq<u8>) -> Result<
    (RegisterFile, Seq<u8>),
    CPUError,
> {
    if (regs.pc as int) >= mem.len() {
        Err(CPUError::MemoryError(MemoryError::OutOfBounds))
    } else {
        match DecodedInstruction::decode_spec(mem.skip(regs.pc as int)) {
            Ok(d) => apply_spec(d, regs, mem),
            Err(e) => Err(step_error_of(e, mem[regs.pc as int])),
        }
    }
}

/// The machine's CPU: a register file bound to a memory of `M` bytes.
/// `execute` runs one instruction; on any error it leaves registers and
/// memory exactly as they were.
#[derive(Debug)]
pub struct Cpu<const M: usize> {
    registers: RegisterFile,
}

impl<const M: usize> Cpu<M> {
    /// The current register file.
    pub closed spec fn regs(&self) -> RegisterFile {
        self.registers
    }

    /// A CPU with zeroed registers and the stack pointer at the top of
    /// memory.
    pub fn new() -> (r: Cpu<M>)
        requires
            1 <= M <= 0xFFFF,
        ensures
            r.regs() == regs_with_sp(RegisterFile::spec_zeroed(), (M - 1) as u16),
    {
        let mut registers = RegisterFile::new();
        registers.sp = (M as u16) - 1;
        Cpu { registers }
    }

    /// Zeroes every register and flag, moves the stack pointer back to the
    /// top of memory and the program counter to zero.
    pub fn reset(&mut self)
        requires
            1 <= M <= 0xFFFF,
        ensures
            final(self).regs() == regs_with_sp(RegisterFile::spec_zeroed(), (M - 1) as u16),
    {
        self.registers = RegisterFile::new();
        self.registers.sp = (M as u16) - 1;
    }

    /// Replaces a scalar register.
    pub fn set_register(&mut self, register: Register, value: u8)
        requires
            !register.spec_is_pair(),
        ensures
            final(self).regs() == old(self).regs().spec_set_reg(register, value),
    {
        self.registers.set_reg(register, value)
    }

    /// Replaces a register pair, big-endian: the high byte goes to the
    /// pair's first scalar.
    pub fn set_register_pair(&mut self, register: Register, value: u16)
        requires
            register.spec_is_pair(),
        ensures
            final(self).regs() == old(self).regs().spec_set_pair(register, value),
    {
        self.registers.set_reg_pair(register, value)
    }

    /// The value of a scalar register.
    pub fn get_register(&self, register: Register) -> (r: u8)
        requires
            !register.spec_is_pair(),
        ensures
            r == self.regs().reg_val(register),
    {
        self.registers.get_reg(register)
    }

    /// The big-endian value of a register pair.
    pub fn get_register_pair(&self, register: Register) -> (r: u16)
        requires
            register.spec_is_pair(),
        ensures
            r == self.regs().pair_val(register),
    {
        self.registers.get_reg_pair(register)
    }

    /// The current stack pointer.
    pub fn get_sptr(&self) -> (r: u16)
        ensures
            r == self.regs().sp,
    {
        self.registers.sp
    }

    /// The current program counter.
    pub fn get_pc(&self) -> (r: u16)
        ensures
            r == self.regs().pc,
    {
        self.registers.pc
    }

    /// Pushes a value: writes it at the stack pointer, then moves the
    /// pointer one slot down, so the pointer stays on the next free slot.
    /// A pointer outside memory is an out-of-bounds write; a pointer already
    /// at the bottom cannot move further and is a stack overflow. On any
    /// error, nothing changes.
    pub fn push(&mut self, memory: &mut Memory<M>, value: u8) -> (r: CPUResult<()>)
        requires
            old(memory).wf(),
        ensures
            final(memory).wf(),
            (old(self).regs().sp as int) >= M ==> r == Err::<(), CPUError>(
                CPUError::MemoryError(MemoryError::OutOfBounds),
            ) && *final(self) == *old(self) && final(memory)@ == old(memory)@,
            (old(self).regs().sp as int) < M && old(self).regs().sp == 0 ==> r == Err::<
                (),
                CPUError,
            >(CPUError::StackOverflow) && *final(self) == *old(self) && final(memory)@ == old(memory)@,
            0 < (old(self).regs().sp as int) < M ==> r == Ok::<(), CPUError>(()) && final(memory)@ == old(memory)@.update(old(self).regs().sp as int, value) && final(self).regs()
                == regs_with_sp(old(self).regs(), (old(self).regs().sp - 1) as u16),
    {
        let sp = self.registers.sp;
        if (sp as usize) >= M {
            return Err(CPUError::MemoryError(MemoryError::OutOfBounds));
        }
        if sp == 0 {
            return Err(CPUError::StackOverflow);
        }
        match memory.write_u8(sp, value) {
            Ok(_) => (),
            Err(e) => {
                return Err(CPUError::MemoryError(e));
            },
        }
        self.registers.sp = sp - 1;
        Ok(())
    }

    /// Pops a value: reads the byte at the stack pointer, then moves the
    /// pointer one slot up. A pointer outside memory is an out-of-bounds
    /// read, and nothing changes.
    pub fn pop(&mut self, memory: &mut Memory<M>) -> (r: CPUResult<u8>)
        requires
            old(memory).wf(),
        ensures
            final(memory).wf(),
            final(memory)@ == old(memory)@,
            (old(self).regs().sp as int) >= M ==> r == Err::<u8, CPUError>(
                CPUError::MemoryError(MemoryError::OutOfBounds),
            ) && *final(self) == *old(self),
            (old(self).regs().sp as int) < M ==> r == Ok::<u8, CPUError>(
                old(memory)@[old(self).regs().sp as int],
            ) && final(self).regs() == regs_with_sp(
                old(self).regs(),
                (old(self).regs().sp + 1) as u16,
            ),
    {
        let sp = self.registers.sp;
        let value = match memory.read_u8(sp) {
            Ok(v) => v,
            Err(e) => {
                return Err(CPUError::MemoryError(e));
            },
        };
        self.registers.sp = sp + 1;
        Ok(value)
    }

    /// Fetches the byte at the program counter and moves the counter past
    /// it. A counter outside memory is an out-of-bounds fetch, and nothing
    /// changes.
    pub fn consume_u8(&mut self, memory: &Memory<M>) -> (r: CPUResult<u8>)
        requires
            memory.wf(),
        ensures
            (old(self).regs().pc as int) >= M ==> r == Err::<u8, CPUError>(
                CPUError::MemoryError(MemoryError::OutOfBounds),
            ) && *final(self) == *old(self),
            (old(self).regs().pc as int) < M ==> r == Ok::<u8, CPUError>(
                memory@[old(self).regs().pc as int],
            ) && final(self).regs() == regs_with_pc(
                old(self).regs(),
                (old(self).regs().pc + 1) as u16,
            ),
    {
        let pc = self.registers.pc;
        let value = match memory.read_u8(pc) {
            Ok(v) => v,
            Err(e) => {
                return Err(CPUError::MemoryError(e));
            },
        };
        self.registers.pc = pc + 1;
        Ok(value)
    }

    /// Fetches the big-endian 16-bit value at the program counter and moves
    /// the counter past both bytes. If either byte lies outside memory, the
    /// fetch fails and nothing changes.
    pub fn consume_u16(&mut self, memory: &Memory<M>) -> (r: CPUResult<u16>)
        requires
            memory.wf(),
        ensures
            (old(self).regs().pc as int) + 1 >= M ==> r == Err::<u16, CPUError>(
                CPUError::MemoryError(MemoryError::OutOfBounds),
            ) && *final(self) == *old(self),
            (old(self).regs().pc as int) + 1 < M ==> r == Ok::<u16, CPUError>(
                word_from(
                    memory@[old(self).regs().pc as int],
                    memory@[old(self).regs().pc as int + 1],
                ),
            ) && final(self).regs() == regs_with_pc(
                old(self).regs(),
                (old(self).regs().pc + 2) as u16,
            ),
    {
        let pc = self.registers.pc;
        let value = match memory.read_u16(pc) {
            Ok(v) => v,
            Err(e) => {
                return Err(CPUError::MemoryError(e));
            },
        };
        self.registers.pc = pc + 2;
        Ok(value)
    }

    /// Reads the big-endian 16-bit value at an address.
    fn read_memory_u16(&self, memory: &Memory<M>, addr: u16) -> (r: CPUResult<u16>)
        requires
            memory.wf(),
        ensures
            (addr as int) + 1 < M ==> r == Ok::<u16, CPUError>(
                word_from(memory@[addr as int], memory@[addr as int + 1]),
            ),
            (addr as int) + 1 >= M ==> r == Err::<u16, CPUError>(
                CPUError::MemoryError(MemoryError::OutOfBounds),
            ),
    {
        match memory.read_u16(addr) {
            Ok(v) => Ok(v),
            Err(e) => Err(CPUError::MemoryError(e)),
        }
    }

    /// Writes the big-endian 16-bit value at an address; atomic on failure.
    fn write_memory_u16(&mut self, memory: &mut Memory<M>, addr: u16, value: u16) -> (r: CPUResult<
        (),
    >)
        requires
            old(memory).wf(),
        ensures
            final(memory).wf(),
            *final(self) == *old(self),
            (addr as int) + 1 < M ==> r == Ok::<(), CPUError>(()) && final(memory)@ == old(memory)@.update(addr as int, word_high(value)).update(addr as int + 1, word_low(value)),
            (addr as int) + 1 >= M ==> r == Err::<(), CPUError>(
                CPUError::MemoryError(MemoryError::OutOfBounds),
            ) && final(memory)@ == old(memory)@,
    {
        match memory.write_u16(addr, value) {
            Ok(_) => Ok(()),
            Err(e) => Err(CPUError::MemoryError(e)),
        }
    }

    /// Executes the single instruction at the program counter, per
    /// `step_spec`: registers and memory change exactly as the decoded
    /// instruction says, the program counter advances by exactly the bytes
    /// consumed, and on any error nothing changes at all.
    pub fn execute(&mut self, memory: &mut Memory<M>) -> (r: CPUResult<()>)
        requires
            old(memory).wf(),
        ensures
            final(memory).wf(),
            match step_spec(old(self).regs(), old(memory)@) {
                Ok((r2, m2)) => r == Ok::<(), CPUError>(()) && final(self).regs() == r2 && final(memory)@ == m2,
                Err(e) => r == Err::<(), CPUError>(e) && *final(self) == *old(self) && final(memory)@ == old(memory)@,
            },
    {
        let pc = self.registers.pc;
        if (pc as usize) >= M {
            return Err(CPUError::MemoryError(MemoryError::OutOfBounds));
        }
        let d = {
            let tail = memory.bytes_from(pc);
            let b0 = tail[0];
            match DecodedInstruction::decode(tail) {
                Ok(d) => d,
                Err(InstructionError::InvalidLength) => {
                    return Err(CPUError::MemoryError(MemoryError::OutOfBounds));
                },
                Err(InstructionError::InvalidOpcode) => {
                    return Err(CPUError::InvalidInstruction(b0));
                },
                Err(InstructionError::InvalidValue) => {
                    return Err(CPUError::InvalidInstruction(b0));
                },
                Err(InstructionError::AddressingError(AddressingError::InvalidRegister)) => {
                    return Err(CPUError::InvalidRegister);
                },
                Err(InstructionError::AddressingError(AddressingError::InvalidAddressingMode)) => {
                    return Err(CPUError::InvalidInstruction(b0));
                },
            }
        };
        proof {
            crate::machine::isa::lemma_decode_size(old(memory)@.skip(pc as int), d);
        }
        let size = d.size();
        let new_pc = pc + (size as u16);
        match (d.op, d.operands) {
            (Instruction::Load, Operands::ImmediateByte { dest, value }) => {
                self.registers.set_reg(dest, value);
                self.registers.pc = new_pc;
                Ok(())
            },
            (Instruction::Load, Operands::ImmediateWord { dest, value }) => {
                self.registers.set_reg_pair(dest, value);
                self.registers.pc = new_pc;
                Ok(())
            },
            (Instruction::Load, Operands::RegisterToRegister { dest, src }) => {
                if dest.is_pair() {
                    let value = self.registers.get_reg_pair(src);
                    self.registers.set_reg_pair(dest, value);
                } else {
                    let value = self.registers.get_reg(src);
                    self.registers.set_reg(dest, value);
                }
                self.registers.pc = new_pc;
                Ok(())
            },
            (Instruction::Load, Operands::RegisterIndirect { dest, src }) => {
                let addr = self.registers.get_reg_pair(src);
                self.load_into(memory, dest, addr, new_pc)
            },
            (Instruction::Load, Operands::RegisterIndexed { dest, src, offset }) => {
                let base = self.registers.get_reg_pair(src);
                let sum = (base as usize) + (offset as usize);
                if sum > 0xFFFF {
                    return Err(CPUError::MemoryError(MemoryError::OutOfBounds));
                }
                self.load_into(memory, dest, sum as u16, new_pc)
            },
            (Instruction::Load, Operands::Direct { reg, addr }) => {
                self.load_into(memory, reg, addr, new_pc)
            },
            (Instruction::Write, Operands::Direct { reg, addr }) => {
                if reg.is_pair() {
                    let value = self.registers.get_reg_pair(reg);
                    self.write_memory_u16(memory, addr, value)?;
                } else {
                    let value = self.registers.get_reg(reg);
                    match memory.write_u8(addr, value) {
                        Ok(_) => (),
                        Err(e) => {
                            return Err(CPUError::MemoryError(e));
                        },
                    }
                }
                self.registers.pc = new_pc;
                Ok(())
            },
            _ => {
                proof {
                    let bytes = old(memory)@.skip(pc as int);
                    let b = bytes[0];
                    vstd::arithmetic::div_mod::lemma_fundamental_div_mod(b as int, 8);
                }
                Err(CPUError::InvalidInstruction(d.op.to_u8() * 8 + d.mode().to_u8()))
            },
        }
    }

    /// Loads `dest` from memory at `addr` and advances the program counter;
    /// an access past the end of memory fails and changes nothing.
    fn load_into(&mut self, memory: &Memory<M>, dest: Register, addr: u16, new_pc: u16) -> (r:
        CPUResult<()>)
        requires
            memory.wf(),
        ensures
            match load_from_mem_spec(old(self).regs(), memory@, dest, addr as int, new_pc) {
                Ok((r2, m2)) => r == Ok::<(), CPUError>(()) && final(self).regs() == r2,
                Err(e) => r == Err::<(), CPUError>(e) && *final(self) == *old(self),
            },
    {
        if dest.is_pair() {
            let value = self.read_memory_u16(memory, addr)?;
            self.registers.set_reg_pair(dest, value);
        } else {
            let value = match memory.read_u8(addr) {
                Ok(v) => v,
                Err(e) => {
                    return Err(CPUError::MemoryError(e));
                },
            };
            self.registers.set_reg(dest, value);
        }
        self.registers.pc = new_pc;
        Ok(())
    }
}

/// The register file with only the stack pointer replaced.
pub open spec fn regs_with_sp(regs: RegisterFile, sp: u16) -> RegisterFile {
    RegisterFile { sp, ..regs }
}

/// The stack pointer and memory after pushing each value in turn, per the
/// contract of `push`: each byte lands at the current stack pointer, which
/// then moves one slot down.
pub open spec fn push_all_spec(sp: u16, mem: Seq<u8>, vals: Seq<u8>) -> (u16, Seq<u8>)
    decreases vals.len(),
{
    if vals.len() == 0 {
        (sp, mem)
    } else {
        push_all_spec((sp - 1) as u16, mem.update(sp as int, vals[0]), vals.skip(1))
    }
}

/// The values a run of pops returns from a stack pointer, per the contract
/// of `pop`: the bytes at `sp`, `sp + 1`, and so on, each read before the
/// pointer moves up.
pub open spec fn pop_vals_spec(sp: u16, mem: Seq<u8>, n: nat) -> Seq<u8> {
    Seq::new(n, |i: int| mem[sp + i])
}

/// Stack discipline. Pushing `n` values moves the stack pointer down
/// exactly `n` slots and lays the values out downward from the old pointer,
/// touching nothing else; `n` pops then return the pointer to exactly its
/// old value. Because a push writes before it moves while a pop reads
/// before it moves, the pops return the byte one slot below the deepest
/// value first, and then the pushed values newest first, the oldest never
/// among them.
pub proof fn lemma_stack_discipline(sp: u16, mem: Seq<u8>, vals: Seq<u8>)
    requires
        vals.len() <= sp < mem.len(),
    ensures
        ({
            let (sp2, mem2) = push_all_spec(sp, mem, vals);
            &&& sp2 == sp - vals.len()
            &&& sp2 + vals.len() == sp
            &&& mem2.len() == mem.len()
            &&& forall|i: int| 0 <= i < vals.len() ==> mem2[sp - i] == vals[i]
            &&& forall|a: int|
                0 <= a < mem.len() && !(sp - vals.len() < a <= sp) ==> mem2[a] == mem[a]
            &&& vals.len() > 0 ==> pop_vals_spec(sp2, mem2, vals.len() as nat)[0] == mem[sp
                - vals.len()]
            &&& forall|i: int|
                1 <= i < vals.len() ==> pop_vals_spec(sp2, mem2, vals.len() as nat)[i]
                    == vals[vals.len() - i]
        }),
    decreases vals.len(),
{
    if vals.len() > 0 {
        let sp1 = (sp - 1) as u16;
        let mem1 = mem.update(sp as int, vals[0]);
        let rest = vals.skip(1);
        assert(forall|i: int| 0 <= i < rest.len() ==> rest[i] == vals[i + 1]);
        lemma_stack_discipline(sp1, mem1, rest);
        let (sp2, mem2) = push_all_spec(sp1, mem1, rest);
        assert forall|i: int| 0 <= i < vals.len() implies mem2[sp - i] == vals[i] by {
            if i == 0 {
                assert(mem1[sp as int] == vals[0]);
                assert(!(sp1 - rest.len() < sp as int <= sp1));
            } else {
                assert(mem2[sp1 - (i - 1)] == rest[i - 1]);
            }
        }
        assert forall|i: int|
            1 <= i < vals.len() implies pop_vals_spec(sp2, mem2, vals.len() as nat)[i]
            == vals[vals.len() - i] by {
            assert(mem2[sp - (vals.len() - i)] == vals[vals.len() - i]);
        }
        if rest.len() > 0 {
            assert(pop_vals_spec(sp2, mem2, vals.len() as nat)[0] == mem2[sp2 as int]);
            assert(mem1[sp1 - rest.len()] == mem[sp - vals.len()]);
        } else {
            assert(mem2[sp - vals.len()] == mem[sp - vals.len()]);
        }
    }
}

} // verus!
