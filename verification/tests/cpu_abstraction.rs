use tiny_computers::cpu::cpu_impl::{TestCPU, TestISA};
use tiny_computers::cpu::error::CPUError;
use tiny_computers::cpu::register_files::{
    FlagSet, TestRegisterFile, FLAG_CARRY, FLAG_NEGATIVE, FLAG_ZERO,
};
use tiny_computers::cpu::traits::{RegisterFile, CPU};
use tiny_computers::framework::cpu::{CpuStateError, RegisterError};
use tiny_computers::framework::isa::{AddressingError, InstructionError};
use tiny_computers::isa::instruction::Instruction;
use tiny_computers::isa::opcode::Opcode;
use tiny_computers::isa::traits::ISA;

#[test]
fn flag_set_operations() {
    let mut flags = FlagSet(0);
    assert!(flags.is_clear());
    flags.insert(FlagSet(FLAG_ZERO));
    flags.insert(FlagSet(FLAG_CARRY));
    assert!(flags.contains(FlagSet(FLAG_ZERO)));
    assert!(flags.contains(FlagSet(FLAG_CARRY)));
    assert!(!flags.contains(FlagSet(FLAG_NEGATIVE)));
    assert_eq!(flags.0, FLAG_ZERO | FLAG_CARRY);
    flags.remove(FlagSet(FLAG_ZERO));
    assert!(!flags.contains(FlagSet(FLAG_ZERO)));
    assert!(flags.contains(FlagSet(FLAG_CARRY)));
    let cleared = flags.clear();
    assert!(cleared.is_clear());
}

#[test]
fn test_register_file_bounds_and_flags() {
    let mut rf = TestRegisterFile::new();
    rf.set_reg(3, 0x42).unwrap();
    assert_eq!(rf.get_reg(3).unwrap(), 0x42);
    assert_eq!(rf.get_reg(8).unwrap_err(), CPUError::InvalidRegister);
    rf.set_flags(FLAG_ZERO).unwrap();
    assert_eq!(rf.get_flags().unwrap(), FLAG_ZERO);
    rf.reset();
    assert_eq!(rf.get_reg(3).unwrap(), 0);
    assert_eq!(rf.get_flags().unwrap(), 0);
}

#[test]
fn test_cpu_pointer_arithmetic() {
    let mut cpu = TestCPU::new(TestISA);
    cpu.set_pc(10);
    cpu.inc_pc();
    assert_eq!(cpu.get_pc(), 11);
    cpu.dec_pc();
    assert_eq!(cpu.get_pc(), 10);
    cpu.set_sp(5);
    cpu.inc_sp();
    assert_eq!(cpu.get_sp(), 6);
    cpu.dec_sp();
    assert_eq!(cpu.get_sp(), 5);
    cpu.stop();
    assert_eq!(cpu.get_pc(), 0);
}

#[test]
fn test_cpu_reset_and_step() {
    let mut cpu = TestCPU::new(TestISA);
    cpu.set_pc(41);
    cpu.step();
    assert_eq!(cpu.get_pc(), 42);
    cpu.set_sp(9);
    cpu.register_file.set_reg(0, 7).unwrap();
    cpu.reset();
    assert_eq!(cpu.get_pc(), 0);
    assert_eq!(cpu.get_sp(), 0);
    assert_eq!(cpu.register_file.get_reg(0).unwrap(), 0);
}

#[test]
fn test_cpu_run_halts_at_the_sentinel() {
    // the step only advances the counter, so the run wraps the whole
    // address space once and halts when the counter lands back on zero
    let mut cpu = TestCPU::new(TestISA);
    cpu.run().unwrap();
    assert_eq!(cpu.get_pc(), 0);
}

#[test]
fn test_isa_codec_is_the_identity() {
    let isa = TestISA;
    assert_eq!(isa.decode_instruction(0x42), Instruction(0x42));
    assert_eq!(isa.encode_instruction(Instruction(0x42)), 0x42);
    assert_eq!(isa.encode_instruction(isa.decode_instruction(7)), 7);
}

#[test]
fn opcode_enum_codes() {
    assert_eq!(Opcode::Nop.to_u8(), 0);
    assert_eq!(Opcode::Hlt.to_u8(), 11);
    assert_eq!(Opcode::from_u8(6).unwrap(), Opcode::Ld);
    assert_eq!(
        Opcode::from_u8(12).unwrap_err(),
        InstructionError::InvalidOpcode
    );
}

#[test]
fn framework_error_conversions() {
    let e = CpuStateError::from(RegisterError::InvalidIndex(3));
    assert_eq!(e, CpuStateError::Register(RegisterError::InvalidIndex(3)));
    let e = InstructionError::from(AddressingError::InvalidRegister);
    assert_eq!(e, InstructionError::AddressingError(AddressingError::InvalidRegister));
    let e = AddressingError::from(InstructionError::InvalidOpcode);
    assert_eq!(e, AddressingError::InvalidAddressingMode);
    let e = AddressingError::from(InstructionError::AddressingError(
        AddressingError::InvalidRegister,
    ));
    assert_eq!(e, AddressingError::InvalidRegister);
}
