use tiny_computers::framework::isa::{
    AddressingError, Instruction as InstructionTrait, InstructionCategory, InstructionError,
    InstructionSet,
};
use tiny_computers::machine::isa::{
    DecodedInstruction, Instruction, MachineInstructionSet, Mode, Opcode, Operands,
};
use tiny_computers::machine::registers::Register;

#[test]
fn opcode_packing_round_trips() {
    let op = Opcode::new(Instruction::Load, Mode::Immediate);
    assert_eq!(op.as_u8(), 0xA8);
    assert_eq!(op.instruction().unwrap(), Instruction::Load);
    assert_eq!(op.mode().unwrap(), Mode::Immediate);

    let op = Opcode::new(Instruction::Halt, Mode::Relative);
    assert_eq!(op.as_u8(), 0xFD);
    assert_eq!(op.instruction().unwrap(), Instruction::Halt);
    assert_eq!(op.mode().unwrap(), Mode::Relative);

    let op = Opcode::new(Instruction::Write, Mode::Direct);
    assert_eq!(op.as_u8(), 0xA4);
    assert_eq!(op.instruction().unwrap(), Instruction::Write);
    assert_eq!(op.mode().unwrap(), Mode::Direct);
}

#[test]
fn opcode_rejects_undefined_ids() {
    // instruction ids between Out and Halt name nothing
    let op = Opcode::from_u8(0x18 * 8);
    assert_eq!(op.instruction().unwrap_err(), InstructionError::InvalidOpcode);
    // mode ids 6 and 7 name nothing
    let op = Opcode::from_u8(0xA8 + 6);
    assert_eq!(op.mode().unwrap_err(), InstructionError::InvalidOpcode);
}

#[test]
fn instruction_and_mode_codes_validate() {
    assert_eq!(Instruction::from_u8(0x1F).unwrap(), Instruction::Halt);
    assert_eq!(Instruction::from_u8(0x18).unwrap_err(), InstructionError::InvalidOpcode);
    assert_eq!(Instruction::from_u8(0x15).unwrap(), Instruction::Load);
    assert_eq!(Mode::from_u8(5).unwrap(), Mode::Relative);
    assert_eq!(Mode::from_u8(6).unwrap_err(), InstructionError::InvalidOpcode);
    assert_eq!(Instruction::Halt.to_u8(), 0x1F);
    assert_eq!(Mode::Direct.to_u8(), 4);
}

#[test]
fn codec_round_trips_every_operand_shape() {
    let cases = vec![
        DecodedInstruction {
            op: Instruction::Load,
            operands: Operands::ImmediateByte { dest: Register::A, value: 0x42 },
        },
        DecodedInstruction {
            op: Instruction::Load,
            operands: Operands::ImmediateWord { dest: Register::AB, value: 0x1234 },
        },
        DecodedInstruction {
            op: Instruction::Load,
            operands: Operands::RegisterToRegister { dest: Register::C, src: Register::D },
        },
        DecodedInstruction {
            op: Instruction::Load,
            operands: Operands::RegisterIndirect { dest: Register::A, src: Register::CD },
        },
        DecodedInstruction {
            op: Instruction::Load,
            operands: Operands::RegisterIndexed {
                dest: Register::B,
                src: Register::AB,
                offset: 0xBEEF,
            },
        },
        DecodedInstruction {
            op: Instruction::Write,
            operands: Operands::Direct { reg: Register::CD, addr: 0x00FF },
        },
    ];
    for c in cases {
        let bytes = c.encode();
        assert_eq!(bytes.len(), c.size());
        assert_eq!(DecodedInstruction::decode(&bytes).unwrap(), c);
    }
}

#[test]
fn codec_encodes_exact_bytes() {
    let d = DecodedInstruction {
        op: Instruction::Load,
        operands: Operands::ImmediateWord { dest: Register::AB, value: 0x1234 },
    };
    assert_eq!(d.encode(), vec![0xA8, 4, 0x12, 0x34]);
    assert_eq!(d.size(), 4);

    let d = DecodedInstruction {
        op: Instruction::Load,
        operands: Operands::RegisterToRegister { dest: Register::A, src: Register::B },
    };
    assert_eq!(d.encode(), vec![0xA9, 0x01]);
    assert_eq!(d.size(), 2);
}

#[test]
fn decode_rejects_short_input_with_length_error() {
    assert_eq!(
        DecodedInstruction::decode(&[]).unwrap_err(),
        InstructionError::InvalidLength
    );
    // Load Immediate into a pair needs two literal bytes
    assert_eq!(
        DecodedInstruction::decode(&[0xA8, 4, 0x12]).unwrap_err(),
        InstructionError::InvalidLength
    );
    assert_eq!(
        DecodedInstruction::decode(&[0xA8]).unwrap_err(),
        InstructionError::InvalidLength
    );
}

#[test]
fn decode_rejects_undefined_opcodes_and_registers() {
    assert_eq!(
        DecodedInstruction::decode(&[0x18 * 8, 0, 0]).unwrap_err(),
        InstructionError::InvalidOpcode
    );
    // register code 9 names nothing
    assert_eq!(
        DecodedInstruction::decode(&[0xA8, 9, 0]).unwrap_err(),
        InstructionError::AddressingError(AddressingError::InvalidRegister)
    );
    // a scalar source cannot hold the address of an indirect load
    assert_eq!(
        DecodedInstruction::decode(&[0xAA, 0x01]).unwrap_err(),
        InstructionError::AddressingError(AddressingError::InvalidRegister)
    );
    // Relative addressing is reserved
    assert_eq!(
        DecodedInstruction::decode(&[0xAD, 0, 0]).unwrap_err(),
        InstructionError::AddressingError(AddressingError::InvalidAddressingMode)
    );
}

#[test]
fn decode_ignores_trailing_bytes() {
    let d = DecodedInstruction {
        op: Instruction::Load,
        operands: Operands::ImmediateByte { dest: Register::A, value: 7 },
    };
    let mut bytes = d.encode();
    bytes.push(0xFF);
    bytes.push(0xEE);
    assert_eq!(DecodedInstruction::decode(&bytes).unwrap(), d);
}

#[test]
fn mnemonics_match_the_assembly_names() {
    assert_eq!(Instruction::Load.mnemonic(), "load");
    assert_eq!(Instruction::Write.mnemonic(), "store");
    assert_eq!(Instruction::Nop.mnemonic(), "nop");
    assert_eq!(Instruction::Halt.mnemonic(), "halt");
    assert_eq!(Mode::RegisterIndexed.name(), "RegisterIndexed");
}

#[test]
fn instruction_statics_report_cost_and_flags() {
    let load = DecodedInstruction {
        op: Instruction::Load,
        operands: Operands::ImmediateByte { dest: Register::A, value: 7 },
    };
    assert_eq!(load.cycles(), 3);
    assert!(!load.affects_flags());
    assert_eq!(load.disassemble(), "load Immediate");

    let add = DecodedInstruction {
        op: Instruction::Add,
        operands: Operands::RegisterToRegister { dest: Register::A, src: Register::B },
    };
    assert!(add.affects_flags());
}

#[test]
fn instruction_set_reports_its_parameters() {
    let isa = MachineInstructionSet;
    assert_eq!(isa.name(), "tiny-16");
    assert_eq!(isa.word_size(), 8);
    assert_eq!(isa.address_size(), 16);
    assert_eq!(isa.register_count(), 6);
}

#[test]
fn instruction_set_validates_and_categorizes() {
    let isa = MachineInstructionSet;
    assert!(isa.is_valid_opcode(0xA8));
    assert!(!isa.is_valid_opcode(0x18 * 8));
    assert!(!isa.is_valid_opcode(0xA8 + 6));
    assert_eq!(isa.categorize(0xA8).unwrap(), InstructionCategory::DataTransfer);
    assert_eq!(isa.categorize(0x01 * 8).unwrap(), InstructionCategory::Arithmetic);
    assert_eq!(isa.categorize(0x12 * 8).unwrap(), InstructionCategory::Stack);
    assert_eq!(isa.categorize(0x1F * 8).unwrap(), InstructionCategory::System);
    assert_eq!(isa.categorize(0x18 * 8).unwrap_err(), InstructionError::InvalidOpcode);
}

#[test]
fn opcodes_in_category_lists_exactly_the_members() {
    let isa = MachineInstructionSet;
    let data_transfer = isa.opcodes_in_category(InstructionCategory::DataTransfer);
    let mut expected: Vec<u8> = Vec::new();
    for m in 0..6u8 {
        expected.push(0x14 * 8 + m);
    }
    for m in 0..6u8 {
        expected.push(0x15 * 8 + m);
    }
    assert_eq!(data_transfer, expected);

    let system = isa.opcodes_in_category(InstructionCategory::System);
    assert_eq!(system, vec![0xF8, 0xF9, 0xFA, 0xFB, 0xFC, 0xFD]);
}
