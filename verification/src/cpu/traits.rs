use crate::cpu::error::{CPUError, CPUResult};
use crate::isa::traits::ISA;
use vstd::prelude::*;

verus! {

/// A register file addressed by numeric register index.
pub trait RegisterFile {
    /// Zeroes every register and flag.
    fn reset(&mut self);

    /// The value of a register, or `InvalidRegister` for an index that names
    /// no register.
    fn get_reg(&self, register: u8) -> CPUResult<u8>;

    /// Replaces the value of a register.
    fn set_reg(&mut self, register: u8, value: u8) -> CPUResult<()>;

    /// The current flag bits.
    fn get_flags(&self) -> CPUResult<u8>;

    /// Replaces the flag bits.
    fn set_flags(&mut self, value: u8) -> CPUResult<()>;
}

/// A CPU built from a register file and an instruction set: program counter
/// and stack pointer accessors, reset, and the stepped run loop. Address 0 is
/// the halt sentinel: `run` stops when the program counter reaches it.
pub trait CPU<R: RegisterFile, I: ISA>: Sized {
    /// The current program counter, as a spec-level view.
    spec fn spec_pc(&self) -> u16;

    /// The current stack pointer, as a spec-level view.
    spec fn spec_sp(&self) -> u16;

    fn new(isa: I) -> Self;

    fn get_register_file(&self) -> &R;

    fn get_register_file_mut(&mut self) -> &mut R;

    fn get_pc(&self) -> (r: u16)
        ensures
            r == self.spec_pc(),
    ;

    fn set_pc(&mut self, pc: u16)
        ensures
            final(self).spec_pc() == pc,
    ;

    fn get_sp(&self) -> (r: u16)
        ensures
            r == self.spec_sp(),
    ;

    fn set_sp(&mut self, sp: u16)
        ensures
            final(self).spec_sp() == sp,
    ;

    /// Moves the program counter one byte forward. The counter never wraps:
    /// the caller keeps it under the top of the address space.
    fn inc_pc(&mut self)
        requires
            old(self).spec_pc() < 0xFFFF,
        ensures
            final(self).spec_pc() == old(self).spec_pc() + 1,
    {
        let pc = self.get_pc();
        self.set_pc(pc + 1);
    }

    /// Moves the program counter one byte back. The counter never wraps.
    fn dec_pc(&mut self)
        requires
            old(self).spec_pc() > 0,
        ensures
            final(self).spec_pc() == old(self).spec_pc() - 1,
    {
        let pc = self.get_pc();
        self.set_pc(pc - 1);
    }

    /// Moves the stack pointer one slot up. The pointer never wraps.
    fn inc_sp(&mut self)
        requires
            old(self).spec_sp() < 0xFFFF,
        ensures
            final(self).spec_sp() == old(self).spec_sp() + 1,
    {
        let sp = self.get_sp();
        self.set_sp(sp + 1);
    }

    /// Moves the stack pointer one slot down. The pointer never wraps.
    fn dec_sp(&mut self)
        requires
            old(self).spec_sp() > 0,
        ensures
            final(self).spec_sp() == old(self).spec_sp() - 1,
    {
        let sp = self.get_sp();
        self.set_sp(sp - 1);
    }

    /// Zeroes registers and flags and both pointers.
    fn reset(&mut self);

    /// Stops the CPU by moving the program counter to the halt sentinel.
    fn stop(&mut self)
        ensures
            final(self).spec_pc() == 0,
    {
        self.set_pc(0);
    }

    /// Executes one instruction; always moves the program counter.
    fn step(&mut self);

    /// Resets, then steps until the program counter reaches the halt
    /// sentinel at address 0. A program that never halts is cut off after
    /// an astronomically large number of steps and reported as `Unexpected`.
    fn run(&mut self) -> (r: CPUResult<()>)
        ensures
            r is Ok ==> final(self).spec_pc() == 0,
    {
        self.reset();
        let mut fuel: u64 = 0xFFFF_FFFF_FFFF_FFFF;
        loop
            decreases fuel,
        {
            self.step();
            if self.get_pc() == 0 {
                return Ok(());
            }
            if fuel == 0 {
                return Err(CPUError::Unexpected);
            }
            fuel = fuel - 1;
        }
    }
}

} // verus!
