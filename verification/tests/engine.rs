use tiny_computers::cpu::error::CPUError;
use tiny_computers::machine::cpu::Cpu;
use tiny_computers::machine::memory::Memory;
use tiny_computers::machine::registers::{unpack_registers, Register, RegisterFile};
use tiny_computers::memory::error::MemoryError;

fn load_program<const M: usize>(memory: &mut Memory<M>, program: &[u8]) {
    let mut a: u16 = 0;
    for b in program {
        memory.write_u8(a, *b).unwrap();
        a += 1;
    }
}

#[test]
fn register_pair_composition() {
    let mut cpu: Cpu<16> = Cpu::new();
    cpu.set_register_pair(Register::AB, 0x1234);
    assert_eq!(cpu.get_register(Register::A), 0x12);
    assert_eq!(cpu.get_register(Register::B), 0x34);
    assert_eq!(cpu.get_register_pair(Register::AB), 0x1234);

    cpu.set_register(Register::C, 0xAB);
    cpu.set_register(Register::D, 0xCD);
    assert_eq!(cpu.get_register_pair(Register::CD), 0xABCD);
}

#[test]
fn register_file_resets_to_zero() {
    let mut regs = RegisterFile::new();
    regs.set_reg(Register::A, 1);
    regs.set_reg_pair(Register::CD, 0xFFEE);
    regs.pc = 7;
    regs.sp = 9;
    regs.reset();
    assert_eq!(regs.get_reg(Register::A), 0);
    assert_eq!(regs.get_reg_pair(Register::CD), 0);
    assert_eq!(regs.pc, 0);
    assert_eq!(regs.sp, 0);
}

#[test]
fn register_codes_validate() {
    assert_eq!(Register::from_code(0).unwrap(), Register::A);
    assert_eq!(Register::from_code(5).unwrap(), Register::CD);
    assert_eq!(Register::from_code(6).unwrap_err(), CPUError::InvalidRegister);
    assert!(Register::AB.is_pair());
    assert!(!Register::D.is_pair());
    assert_eq!(Register::CD.code(), 5);
    assert_eq!(unpack_registers(0x45).unwrap(), (Register::AB, Register::CD));
    assert_eq!(unpack_registers(0x95).unwrap_err(), CPUError::InvalidRegister);
}

#[test]
fn load_immediate_scalar_advances_pc_three_bytes() {
    let mut memory: Memory<64> = Memory::new();
    let mut cpu: Cpu<64> = Cpu::new();
    // load A, 0x42
    load_program(&mut memory, &[0xA8, 0x00, 0x42]);
    cpu.execute(&mut memory).unwrap();
    assert_eq!(cpu.get_register(Register::A), 0x42);
    assert_eq!(cpu.get_pc(), 3);
}

#[test]
fn load_immediate_pair_advances_pc_four_bytes() {
    let mut memory: Memory<64> = Memory::new();
    let mut cpu: Cpu<64> = Cpu::new();
    // load AB, 0x1234
    load_program(&mut memory, &[0xA8, 0x04, 0x12, 0x34]);
    cpu.execute(&mut memory).unwrap();
    assert_eq!(cpu.get_pc(), 4);
    assert_eq!(cpu.get_register(Register::A), 0x12);
    assert_eq!(cpu.get_register(Register::B), 0x34);
    assert_eq!(cpu.get_register_pair(Register::AB), 0x1234);
}

#[test]
fn load_register_moves_scalar_and_pair_values() {
    let mut memory: Memory<64> = Memory::new();
    let mut cpu: Cpu<64> = Cpu::new();
    cpu.set_register(Register::B, 0x55);
    // load A, B (mode Register: opcode 0xA9, dest nibble 0, src nibble 1)
    load_program(&mut memory, &[0xA9, 0x01]);
    cpu.execute(&mut memory).unwrap();
    assert_eq!(cpu.get_register(Register::A), 0x55);
    assert_eq!(cpu.get_pc(), 2);

    let mut cpu: Cpu<64> = Cpu::new();
    cpu.set_register_pair(Register::CD, 0x6677);
    // load AB, CD
    load_program(&mut memory, &[0xA9, 0x45]);
    cpu.execute(&mut memory).unwrap();
    assert_eq!(cpu.get_register_pair(Register::AB), 0x6677);
}

#[test]
fn load_register_indirect_reads_through_the_pair() {
    let mut memory: Memory<64> = Memory::new();
    let mut cpu: Cpu<64> = Cpu::new();
    memory.write_u8(0x20, 0x99).unwrap();
    cpu.set_register_pair(Register::CD, 0x20);
    // load A, [CD] (mode RegisterIndirect: opcode 0xAA)
    load_program(&mut memory, &[0xAA, 0x05]);
    cpu.execute(&mut memory).unwrap();
    assert_eq!(cpu.get_register(Register::A), 0x99);
    assert_eq!(cpu.get_pc(), 2);
}

#[test]
fn load_register_indexed_adds_the_offset() {
    let mut memory: Memory<64> = Memory::new();
    let mut cpu: Cpu<64> = Cpu::new();
    memory.write_u8(0x25, 0x77).unwrap();
    cpu.set_register_pair(Register::CD, 0x20);
    // load A, [CD + 5] (mode RegisterIndexed: opcode 0xAB)
    load_program(&mut memory, &[0xAB, 0x05, 0x00, 0x05]);
    cpu.execute(&mut memory).unwrap();
    assert_eq!(cpu.get_register(Register::A), 0x77);
    assert_eq!(cpu.get_pc(), 4);
}

#[test]
fn load_direct_reads_the_absolute_address() {
    let mut memory: Memory<64> = Memory::new();
    let mut cpu: Cpu<64> = Cpu::new();
    memory.write_u16(0x30, 0xBEEF).unwrap();
    // load AB, [0x0030] (mode Direct: opcode 0xAC)
    load_program(&mut memory, &[0xAC, 0x04, 0x00, 0x30]);
    cpu.execute(&mut memory).unwrap();
    assert_eq!(cpu.get_register_pair(Register::AB), 0xBEEF);
    assert_eq!(cpu.get_pc(), 4);
}

#[test]
fn write_direct_stores_scalar_and_pair_values() {
    let mut memory: Memory<64> = Memory::new();
    let mut cpu: Cpu<64> = Cpu::new();
    cpu.set_register(Register::A, 0x42);
    // store [0x0030], A (Write Direct: opcode 0xA4)
    load_program(&mut memory, &[0xA4, 0x00, 0x00, 0x30]);
    cpu.execute(&mut memory).unwrap();
    assert_eq!(memory.read_u8(0x30).unwrap(), 0x42);
    assert_eq!(cpu.get_pc(), 4);

    let mut cpu: Cpu<64> = Cpu::new();
    cpu.set_register_pair(Register::CD, 0x1122);
    load_program(&mut memory, &[0xA4, 0x05, 0x00, 0x38]);
    cpu.execute(&mut memory).unwrap();
    assert_eq!(memory.read_u8(0x38).unwrap(), 0x11);
    assert_eq!(memory.read_u8(0x39).unwrap(), 0x22);
    assert_eq!(memory.read_u16(0x38).unwrap(), 0x1122);
}

#[test]
fn execute_rejects_undefined_opcodes_and_registers() {
    let mut memory: Memory<64> = Memory::new();
    let mut cpu: Cpu<64> = Cpu::new();
    // instruction id 0x18 names nothing
    load_program(&mut memory, &[0xC0, 0, 0]);
    assert_eq!(cpu.execute(&mut memory).unwrap_err(), CPUError::InvalidInstruction(0xC0));
    assert_eq!(cpu.get_pc(), 0);

    // register code 9 names nothing
    load_program(&mut memory, &[0xA8, 0x09, 0]);
    assert_eq!(cpu.execute(&mut memory).unwrap_err(), CPUError::InvalidRegister);

    // Relative addressing is reserved
    load_program(&mut memory, &[0xAD, 0, 0]);
    assert_eq!(cpu.execute(&mut memory).unwrap_err(), CPUError::InvalidInstruction(0xAD));

    // a combination the engine does not implement: store with an immediate
    load_program(&mut memory, &[0xA0, 0x00, 0x07]);
    assert_eq!(cpu.execute(&mut memory).unwrap_err(), CPUError::InvalidInstruction(0xA0));
}

#[test]
fn execute_converts_fetch_overruns_to_typed_errors() {
    // the pair literal runs past the end of this tiny memory
    let mut memory: Memory<2> = Memory::new();
    let mut cpu: Cpu<2> = Cpu::new();
    memory.write_u8(0, 0xA8).unwrap();
    memory.write_u8(1, 0x04).unwrap();
    assert_eq!(
        cpu.execute(&mut memory).unwrap_err(),
        CPUError::MemoryError(MemoryError::OutOfBounds)
    );
    assert_eq!(cpu.get_pc(), 0);
}

#[test]
fn execute_fails_atomically_on_bad_data_addresses() {
    let mut memory: Memory<16> = Memory::new();
    let mut cpu: Cpu<16> = Cpu::new();
    // load A, [0x0030]: the address is outside this memory
    load_program(&mut memory, &[0xAC, 0x00, 0x00, 0x30]);
    assert_eq!(
        cpu.execute(&mut memory).unwrap_err(),
        CPUError::MemoryError(MemoryError::OutOfBounds)
    );
    // nothing moved: the program counter and registers are untouched
    assert_eq!(cpu.get_pc(), 0);
    assert_eq!(cpu.get_register(Register::A), 0);
}

#[test]
fn stack_pointer_restored_after_pushes_and_pops() {
    let mut memory: Memory<16> = Memory::new();
    let mut cpu: Cpu<16> = Cpu::new();
    assert_eq!(cpu.get_sptr(), 15);
    cpu.push(&mut memory, 0x11).unwrap();
    cpu.push(&mut memory, 0x22).unwrap();
    assert_eq!(cpu.get_sptr(), 13);
    // push writes before it moves, pop reads before it moves: the first pop
    // sees the free slot below the deepest value, the second sees the value
    // pushed last; two pops restore the pointer exactly
    assert_eq!(cpu.pop(&mut memory).unwrap(), 0x00);
    assert_eq!(cpu.pop(&mut memory).unwrap(), 0x22);
    assert_eq!(cpu.get_sptr(), 15);
    // the pushed bytes sit at the old pointer and one below
    assert_eq!(memory.read_u8(15).unwrap(), 0x11);
    assert_eq!(memory.read_u8(14).unwrap(), 0x22);
}

#[test]
fn push_reports_stack_overflow_at_the_bottom() {
    let mut memory: Memory<2> = Memory::new();
    let mut cpu: Cpu<2> = Cpu::new();
    assert_eq!(cpu.get_sptr(), 1);
    cpu.push(&mut memory, 0xAA).unwrap();
    assert_eq!(cpu.push(&mut memory, 0xBB).unwrap_err(), CPUError::StackOverflow);
    assert_eq!(cpu.get_sptr(), 0);
}

#[test]
fn pop_reports_out_of_bounds_past_the_top() {
    let mut memory: Memory<2> = Memory::new();
    let mut cpu: Cpu<2> = Cpu::new();
    assert_eq!(cpu.pop(&mut memory).unwrap(), 0);
    assert_eq!(cpu.get_sptr(), 2);
    assert_eq!(
        cpu.pop(&mut memory).unwrap_err(),
        CPUError::MemoryError(MemoryError::OutOfBounds)
    );
}

#[test]
fn consume_moves_the_program_counter() {
    let mut memory: Memory<16> = Memory::new();
    let mut cpu: Cpu<16> = Cpu::new();
    load_program(&mut memory, &[0x0A, 0x0B, 0x0C]);
    assert_eq!(cpu.consume_u8(&memory).unwrap(), 0x0A);
    assert_eq!(cpu.get_pc(), 1);
    assert_eq!(cpu.consume_u16(&memory).unwrap(), 0x0B0C);
    assert_eq!(cpu.get_pc(), 3);
}

#[test]
fn reset_rewinds_the_whole_cpu() {
    let mut memory: Memory<16> = Memory::new();
    let mut cpu: Cpu<16> = Cpu::new();
    load_program(&mut memory, &[0xA8, 0x00, 0x42]);
    cpu.execute(&mut memory).unwrap();
    cpu.reset();
    assert_eq!(cpu.get_pc(), 0);
    assert_eq!(cpu.get_sptr(), 15);
    assert_eq!(cpu.get_register(Register::A), 0);
}

#[test]
fn memory_u16_accesses_are_big_endian_and_atomic() {
    let mut memory: Memory<16> = Memory::new();
    memory.write_u16(0, 0x0102).unwrap();
    assert_eq!(memory.read_u8(0).unwrap(), 1);
    assert_eq!(memory.read_u8(1).unwrap(), 2);
    assert_eq!(memory.read_u16(0).unwrap(), 0x0102);
    // a 16-bit access whose second byte falls outside fails without
    // touching the first
    assert_eq!(memory.write_u16(15, 0xFFFF).unwrap_err(), MemoryError::OutOfBounds);
    assert_eq!(memory.read_u8(15).unwrap(), 0);
    assert_eq!(memory.read_u16(15).unwrap_err(), MemoryError::OutOfBounds);
    assert_eq!(memory.read_u8(16).unwrap_err(), MemoryError::OutOfBounds);
}

#[test]
fn two_instructions_chain_through_the_program_counter() {
    let mut memory: Memory<64> = Memory::new();
    let mut cpu: Cpu<64> = Cpu::new();
    // load A, 0x42; store [0x0030], A
    load_program(&mut memory, &[0xA8, 0x00, 0x42, 0xA4, 0x00, 0x00, 0x30]);
    cpu.execute(&mut memory).unwrap();
    assert_eq!(cpu.get_pc(), 3);
    cpu.execute(&mut memory).unwrap();
    assert_eq!(cpu.get_pc(), 7);
    assert_eq!(memory.read_u8(0x30).unwrap(), 0x42);
}
