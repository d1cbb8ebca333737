use i8080::instruction::{Instruction, Operand};

#[test]
fn decodes_documented_opcodes() {
    assert_eq!(Instruction::from(&[0x00]), Instruction::NOP);
    assert_eq!(Instruction::from(&[0x3E, 0x42]), Instruction::MVI(Operand::A, 0x42));
    assert_eq!(Instruction::from(&[0x21, 0x34, 0x12]), Instruction::LXI(Operand::H, 0x1234));
    assert_eq!(Instruction::from(&[0x78]), Instruction::MOV(Operand::A, Operand::B));
    assert_eq!(Instruction::from(&[0x76]), Instruction::HLT);
    assert_eq!(Instruction::from(&[0x86]), Instruction::ADD(Operand::M));
    assert_eq!(Instruction::from(&[0xBF]), Instruction::CMP(Operand::A));
    assert_eq!(Instruction::from(&[0xF5]), Instruction::PUSH(Operand::PSW));
    assert_eq!(Instruction::from(&[0xDE, 0x07]), Instruction::SBI(0x07));
    assert_eq!(Instruction::from(&[0xFF]), Instruction::RST(7));
    assert_eq!(Instruction::from(&[0xDB, 0x02]), Instruction::IN(0x02));
    assert_eq!(Instruction::decode_op(&[0xC3, 0xCD, 0xAB]), Ok(Instruction::JMP(0xABCD)));
}

#[test]
fn decodes_undocumented_aliases() {
    assert_eq!(Instruction::from(&[0x08]), Instruction::NOP);
    assert_eq!(Instruction::from(&[0x38]), Instruction::NOP);
    assert_eq!(Instruction::from(&[0xCB, 0x01, 0x02]), Instruction::JMP(0x0201));
    assert_eq!(Instruction::from(&[0xD9]), Instruction::RET);
    assert_eq!(Instruction::from(&[0xFD, 0x00, 0x10]), Instruction::CALL(0x1000));
}

/// Length of the encoding that starts with `op`, from the 8080 opcode table.
fn encoding_length(op: u8) -> u16 {
    match op {
        0x01 | 0x11 | 0x21 | 0x31 | 0x22 | 0x2A | 0x32 | 0x3A => 3,
        0x06 | 0x0E | 0x16 | 0x1E | 0x26 | 0x2E | 0x36 | 0x3E => 2,
        0xC2 | 0xCA | 0xD2 | 0xDA | 0xE2 | 0xEA | 0xF2 | 0xFA => 3,
        0xC4 | 0xCC | 0xD4 | 0xDC | 0xE4 | 0xEC | 0xF4 | 0xFC => 3,
        0xC3 | 0xCB | 0xCD | 0xDD | 0xED | 0xFD => 3,
        0xC6 | 0xCE | 0xD6 | 0xDE | 0xE6 | 0xEE | 0xF6 | 0xFE => 2,
        0xD3 | 0xDB => 2,
        _ => 1,
    }
}

#[test]
fn size_matches_encoding() {
    for op in 0u8..=255 {
        let i = Instruction::from(&[op, 0, 0]);
        assert_eq!(i.size(), encoding_length(op), "opcode {:#x}", op);
        assert_eq!(i.size() as usize, Instruction::encoded_length(op), "opcode {:#x}", op);
    }
    assert_eq!(Instruction::SBI(7).size(), 2);
}

#[test]
fn cycle_counts() {
    assert_eq!(Instruction::CALL(0).cycles(), 17);
    assert_eq!(Instruction::XTHL.cycles(), 18);
    assert_eq!(Instruction::MVI(Operand::M, 0).cycles(), 10);
    assert_eq!(Instruction::MVI(Operand::A, 0).cycles(), 7);
    assert_eq!(Instruction::INR(Operand::M).cycles(), 10);
    assert_eq!(Instruction::DCR(Operand::C).cycles(), 5);
    assert_eq!(Instruction::ADD(Operand::M).cycles(), 7);
    assert_eq!(Instruction::ADD(Operand::B).cycles(), 4);
    assert_eq!(Instruction::SHLD(0).cycles(), 16);
    assert_eq!(Instruction::CNZ(0).cycles(), 11);
    assert_eq!(Instruction::RZ.cycles(), 5);
}

#[test]
fn disassembles_like_the_assembler_listing() {
    assert_eq!(Instruction::NOP.disassemble(), "NOP");
    assert_eq!(Instruction::MVI(Operand::B, 0x3C).disassemble(), "MVI\tB, 0x3c");
    assert_eq!(Instruction::JMP(0x10FF).disassemble(), "JMP\t0x10ff");
    assert_eq!(Instruction::LXI(Operand::SP, 0).disassemble(), "LXI\tSP, 0x0");
    assert_eq!(Instruction::MOV(Operand::A, Operand::M).disassemble(), "MOV\tA, M");
    assert_eq!(Instruction::PUSH(Operand::PSW).disassemble(), "PUSH\tPSW");
    assert_eq!(Instruction::RST(0).disassemble(), "RST\t0x0");
    assert_eq!(Instruction::OUT(0xFF).disassemble(), "OUT\t0xff");
    assert_eq!(Instruction::RRC.disassemble(), "RLC");
    assert_eq!(Instruction::CMC.mnemonic(), "RLC");
    assert_eq!(Instruction::XTHL.mnemonic(), "XTHL");
}

#[test]
fn encoded_length_counts_immediate_bytes() {
    assert_eq!(Instruction::encoded_length(0x00), 1);
    assert_eq!(Instruction::encoded_length(0x3E), 2);
    assert_eq!(Instruction::encoded_length(0xC3), 3);
    assert_eq!(Instruction::encoded_length(0xCD), 3);
    assert_eq!(Instruction::encoded_length(0xDB), 2);
    assert_eq!(Instruction::encoded_length(0xDE), 2);
    assert_eq!(Instruction::encoded_length(0x78), 1);
    for op in 0u16..256 {
        let mut bytes = vec![op as u8, 0x34, 0x12];
        bytes.truncate(Instruction::encoded_length(op as u8));
        let _ = Instruction::from(&bytes);
    }
}
