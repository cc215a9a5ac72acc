use crate::cpu::error::{CPUError, CPUResult};
use crate::cpu::traits::RegisterFile;
use vstd::prelude::*;

verus! {

/// A bit mask over the named condition flags. Bit positions, lowest first:
/// zero, negative, carry, overflow, decimal, condition, interrupt.
#[derive(Debug, Clone, Copy, PartialEq, Eq, Structural)]
pub struct FlagSet(pub u8);

/// The bit of the zero flag.
pub const FLAG_ZERO: u8 = 0b0000_0001;

/// The bit of the negative flag.
pub const FLAG_NEGATIVE: u8 = 0b0000_0010;

/// The bit of the carry flag.
pub const FLAG_CARRY: u8 = 0b0000_0100;

/// The bit of the overflow flag.
pub const FLAG_OVERFLOW: u8 = 0b0000_1000;

/// The bit of the decimal flag.
pub const FLAG_DECIMAL: u8 = 0b0001_0000;

/// The bit of the condition flag.
pub const FLAG_CONDITION: u8 = 0b0010_0000;

/// The bit of the interrupt flag.
pub const FLAG_INTERRUPT: u8 = 0b0100_0000;

impl FlagSet {
    /// Whether any of the other mask's set bits is set here too.
    pub fn contains(self, other: Self) -> (r: bool)
        ensures
            r == ((self.0 & other.0) != 0),
    {
        (self.0 & other.0) != 0
    }

    /// Whether no flag at all is set.
    pub fn is_clear(self) -> (r: bool)
        ensures
            r == (self.0 == 0),
    {
        self.0 == 0
    }

    /// The mask with every flag cleared.
    pub fn clear(self) -> (r: Self)
        ensures
            r.0 == 0,
    {
        FlagSet(0)
    }

    /// Sets the given flags.
    pub fn insert(&mut self, other: Self)
        ensures
            final(self).0 == (old(self).0 | other.0),
    {
        self.0 = self.0 | other.0;
    }

    /// Clears the given flags.
    pub fn remove(&mut self, other: Self)
        ensures
            final(self).0 == (old(self).0 & !other.0),
    {
        self.0 = self.0 & !other.0;
    }
}

/// A register file of eight byte-wide registers and a flag set.
pub struct TestRegisterFile {
    pub registers: [u8; 8],
    pub flags: FlagSet,
}

impl TestRegisterFile {
    pub fn new() -> (r: TestRegisterFile)
        ensures
            r.registers@ == Seq::new(8, |i: int| 0u8),
            r.flags.0 == 0,
    {
        let registers: [u8; 8] = [0, 0, 0, 0, 0, 0, 0, 0];
        proof {
            assert(registers@ =~= Seq::new(8, |i: int| 0u8));
        }
        TestRegisterFile { registers, flags: FlagSet(0) }
    }
}

impl RegisterFile for TestRegisterFile {
    fn reset(&mut self)
        ensures
            final(self).registers@ == Seq::new(8, |i: int| 0u8),
            final(self).flags.0 == 0,
    {
        let registers: [u8; 8] = [0, 0, 0, 0, 0, 0, 0, 0];
        proof {
            assert(registers@ =~= Seq::new(8, |i: int| 0u8));
        }
        self.registers = registers;
        self.flags = FlagSet(0);
    }

    fn get_reg(&self, register: u8) -> (r: CPUResult<u8>)
        ensures
            register < 8 ==> r == Ok::<u8, CPUError>(self.registers@[register as int]),
            register >= 8 ==> r == Err::<u8, CPUError>(CPUError::InvalidRegister),
    {
        if register < 8 {
            Ok(self.registers[register as usize])
        } else {
            Err(CPUError::InvalidRegister)
        }
    }

    fn set_reg(&mut self, register: u8, value: u8) -> (r: CPUResult<()>)
        ensures
            register < 8 ==> r == Ok::<(), CPUError>(()) && final(self).registers@ == old(
                self,
            ).registers@.update(register as int, value) && final(self).flags == old(self).flags,
            register >= 8 ==> r == Err::<(), CPUError>(CPUError::InvalidRegister) && *final(self)
                == *old(self),
    {
        if register < 8 {
            self.registers[register as usize] = value;
            Ok(())
        } else {
            Err(CPUError::InvalidRegister)
        }
    }

    fn get_flags(&self) -> (r: CPUResult<u8>)
        ensures
            r == Ok::<u8, CPUError>(self.flags.0),
    {
        Ok(self.flags.0)
    }

    fn set_flags(&mut self, value: u8) -> (r: CPUResult<()>)
        ensures
            r == Ok::<(), CPUError>(()),
            final(self).flags.0 == value,
            final(self).registers == old(self).registers,
    {
        self.flags = FlagSet(value);
        Ok(())
    }
}

} // verus!
