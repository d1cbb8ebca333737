use i8080::instruction::{Instruction, Operand};


#[test]
fn test_cycles_m_target() {
    assert_eq!(Instruction::MOV(Operand::M, Operand::B).cycles(), 7);
}

#[test]
fn test_cycles_m_source() {
    assert_eq!(Instruction::MOV(Operand::B, Operand::M).cycles(), 7);
}

#[test]
fn test_cycles_m_neither() {
    assert_eq!(Instruction::MOV(Operand::B, Operand::C).cycles(), 5);
}

#[test]
fn test_size() {
    assert_eq!(Instruction::PUSH(Operand::C).size(), 1);
}
