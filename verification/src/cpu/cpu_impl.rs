use crate::cpu::register_files::TestRegisterFile;
use crate::cpu::traits::{RegisterFile, CPU};
use crate::isa::instruction::Instruction;
use crate::isa::traits::ISA;
use vstd::prelude::*;

verus! {

/// A minimal CPU over the test register file and the identity codec. Its
/// step only advances the program counter; it exists to exercise the CPU
/// abstraction, not to model a real machine.
pub struct TestCPU {
    pub isa: TestISA,
    pub register_file: TestRegisterFile,
    pub sp: u16,
    pub pc: u16,
}

impl CPU<TestRegisterFile, TestISA> for TestCPU {
    open spec fn spec_pc(&self) -> u16 {
        self.pc
    }

    open spec fn spec_sp(&self) -> u16 {
        self.sp
    }

    fn new(isa: TestISA) -> (r: TestCPU)
        ensures
            r.pc == 0,
            r.sp == 0,
            r.register_file.registers@ == Seq::new(8, |i: int| 0u8),
            r.register_file.flags.0 == 0,
    {
        TestCPU { isa, register_file: TestRegisterFile::new(), sp: 0, pc: 0 }
    }

    fn get_register_file(&self) -> (r: &TestRegisterFile)
        ensures
            r == &self.register_file,
    {
        &self.register_file
    }

    fn get_register_file_mut(&mut self) -> (r: &mut TestRegisterFile)
        ensures
            *r == old(self).register_file,
            *final(self) == (TestCPU { register_file: *final(r), ..*old(self) }),
    {
        &mut self.register_file
    }

    fn get_pc(&self) -> (r: u16) {
        self.pc
    }

    fn set_pc(&mut self, pc: u16)
        ensures
            *final(self) == (TestCPU { pc, ..*old(self) }),
    {
        self.pc = pc;
    }

    fn get_sp(&self) -> (r: u16) {
        self.sp
    }

    fn set_sp(&mut self, sp: u16)
        ensures
            *final(self) == (TestCPU { sp, ..*old(self) }),
    {
        self.sp = sp;
    }

    fn reset(&mut self)
        ensures
            final(self).pc == 0,
            final(self).sp == 0,
            final(self).register_file.registers@ == Seq::new(8, |i: int| 0u8),
            final(self).register_file.flags.0 == 0,
    {
        self.register_file.reset();
        self.sp = 0;
        self.pc = 0;
    }

    /// Advances the program counter by one byte, wrapping at the top of the
    /// address space (where the wrap lands on the halt sentinel).
    fn step(&mut self)
        ensures
            final(self).pc == old(self).pc.wrapping_add(1),
    {
        self.pc = self.pc.wrapping_add(1);
    }
}

/// The identity instruction set: a byte is an instruction and back.
pub struct TestISA;

impl ISA for TestISA {
    fn decode_instruction(&self, instruction: u8) -> (r: Instruction)
        ensures
            r == Instruction(instruction),
    {
        Instruction(instruction)
    }

    fn encode_instruction(&self, instruction: Instruction) -> (r: u8)
        ensures
            r == instruction.0,
    {
        instruction.0
    }
}

/// The identity codec round-trips: decoding a byte and encoding the result
/// gives the byte back, and the other way round.
pub proof fn lemma_test_isa_round_trip(byte: u8, instruction: Instruction)
    ensures
        Instruction(byte).0 == byte,
        Instruction(instruction.0) == instruction,
{
}

} // verus!
