use i8080::cpu::Cpu;
use i8080::instruction::{Instruction, Operand};

#[test]
fn test_nop() {
    let mut cpu = Cpu::new();
    let instr = Instruction::NOP;
    let (_, cycles) = cpu.execute(&instr);
    assert_eq!(cycles, Instruction::NOP.cycles());
}

#[test]
fn test_jmp() {
    let mut cpu = Cpu::new();
    let (next_pc, _) = cpu.execute(&Instruction::JMP(0x10FF));
    assert_eq!(next_pc, 0x10FF);
}

#[test]
fn test_jc() {
    let mut cpu = Cpu::new();
    let instr = Instruction::JC(0x10FF);
    cpu.condition_codes.carry = false;
    let (next_pc, _) = cpu.execute(&instr);
    assert_ne!(next_pc, 0x10FF);
    cpu.condition_codes.carry = true;
    let (next_pc, _) = cpu.execute(&instr);
    assert_eq!(next_pc, 0x10FF);
}

#[test]
fn test_jnc() {
    let mut cpu = Cpu::new();
    let instr = Instruction::JNC(0x10FF);
    cpu.condition_codes.carry = true;
    let (next_pc, _) = cpu.execute(&instr);
    assert_ne!(next_pc, 0x10FF);
    cpu.condition_codes.carry = false;
    let (next_pc, _) = cpu.execute(&instr);
    assert_eq!(next_pc, 0x10FF);
}

#[test]
fn test_jz() {
    let mut cpu = Cpu::new();
    let instr = Instruction::JZ(0x10FF);
    cpu.condition_codes.zero = false;
    let (next_pc, _) = cpu.execute(&instr);
    assert_ne!(next_pc, 0x10FF);
    cpu.condition_codes.zero = true;
    let (next_pc, _) = cpu.execute(&instr);
    assert_eq!(next_pc, 0x10FF);
}

#[test]
fn test_jnz() {
    let mut cpu = Cpu::new();
    let instr = Instruction::JNZ(0x10FF);
    cpu.condition_codes.zero = true;
    let (next_pc, _) = cpu.execute(&instr);
    assert_ne!(next_pc, 0x10FF);
    cpu.condition_codes.zero = false;
    let (next_pc, _) = cpu.execute(&instr);
    assert_eq!(next_pc, 0x10FF);
}

#[test]
fn test_jp() {
    let mut cpu = Cpu::new();
    let instr = Instruction::JP(0x10FF);
    cpu.condition_codes.sign = true;
    let (next_pc, _) = cpu.execute(&instr);
    assert_ne!(next_pc, 0x10FF);
    cpu.condition_codes.sign = false;
    let (next_pc, _) = cpu.execute(&instr);
    assert_eq!(next_pc, 0x10FF);
}

#[test]
fn test_jm() {
    let mut cpu = Cpu::new();
    let instr = Instruction::JM(0x10FF);
    cpu.condition_codes.sign = false;
    let (next_pc, _) = cpu.execute(&instr);
    assert_ne!(next_pc, 0x10FF);
    cpu.condition_codes.sign = true;
    let (next_pc, _) = cpu.execute(&instr);
    assert_eq!(next_pc, 0x10FF);
}

#[test]
fn test_jpe() {
    let mut cpu = Cpu::new();
    let instr = Instruction::JPE(0x10FF);
    cpu.condition_codes.parity = false;
    let (next_pc, _) = cpu.execute(&instr);
    assert_ne!(next_pc, 0x10FF);
    cpu.condition_codes.parity = true;
    let (next_pc, _) = cpu.execute(&instr);
    assert_eq!(next_pc, 0x10FF);
}

#[test]
fn test_jpo() {
    let mut cpu = Cpu::new();
    let instr = Instruction::JPO(0x10FF);
    cpu.condition_codes.parity = true;
    let (next_pc, _) = cpu.execute(&instr);
    assert_ne!(next_pc, 0x10FF);
    cpu.condition_codes.parity = false;
    let (next_pc, _) = cpu.execute(&instr);
    assert_eq!(next_pc, 0x10FF);
}

#[test]
fn test_pchl() {
    let mut cpu = Cpu::new();
    cpu.registers.h = 0x1;
    cpu.registers.l = 0x2;
    let (next_pc, _) = cpu.execute(&Instruction::PCHL);
    assert_eq!(next_pc, 0x102);
}

#[test]
fn test_ana() {
    let mut cpu = Cpu::new();
    cpu.registers.a = 0xFC;
    cpu.registers.b = 0xF;
    cpu.execute(&Instruction::ANA(Operand::B));
    assert_eq!(cpu.registers.a, 0xC);
    assert_eq!(cpu.condition_codes.carry, false);
    assert_eq!(cpu.condition_codes.sign, false);
    assert_eq!(cpu.condition_codes.zero, false);
    assert_eq!(cpu.condition_codes.parity, true);
    assert_eq!(cpu.condition_codes.aux_carry, true);
}

#[test]
fn test_xra() {
    let mut cpu = Cpu::new();
    cpu.registers.a = 0xFC;
    cpu.registers.b = 0x1;
    cpu.execute(&Instruction::XRA(Operand::B));
    assert_eq!(cpu.registers.a, 0xFD);
    assert_eq!(cpu.condition_codes.carry, false);
    assert_eq!(cpu.condition_codes.sign, true);
    assert_eq!(cpu.condition_codes.zero, false);
    assert_eq!(cpu.condition_codes.parity, false);
    assert_eq!(cpu.condition_codes.aux_carry, false);
}

#[test]
fn test_ora() {
    let mut cpu = Cpu::new();
    cpu.registers.a = 0x33;
    cpu.registers.b = 0xF;
    cpu.execute(&Instruction::ORA(Operand::B));
    assert_eq!(cpu.registers.a, 0x3F);
    assert_eq!(cpu.condition_codes.carry, false);
    assert_eq!(cpu.condition_codes.sign, false);
    assert_eq!(cpu.condition_codes.zero, false);
    assert_eq!(cpu.condition_codes.parity, true);
    assert_eq!(cpu.condition_codes.aux_carry, false);
}

#[test]
fn test_cmp() {
    let mut cpu = Cpu::new();
    cpu.registers.a = 0xA;
    cpu.registers.b = 0x5;
    cpu.execute(&Instruction::CMP(Operand::B));
    assert_eq!(cpu.registers.a, 0xA);
    assert_eq!(cpu.registers.b, 0x5);
    assert_eq!(cpu.condition_codes.carry, false);
    assert_eq!(cpu.condition_codes.sign, false);
    assert_eq!(cpu.condition_codes.zero, false);
    assert_eq!(cpu.condition_codes.parity, true);
    assert_eq!(cpu.condition_codes.aux_carry, false);

    cpu.registers.a = 0x2;
    cpu.registers.b = 0x5;
    cpu.execute(&Instruction::CMP(Operand::B));
    assert_eq!(cpu.registers.a, 0x2);
    assert_eq!(cpu.registers.b, 0x5);
    assert_eq!(cpu.condition_codes.carry, true);
    assert_eq!(cpu.condition_codes.sign, false);
    assert_eq!(cpu.condition_codes.zero, false);
    assert_eq!(cpu.condition_codes.parity, false);
    assert_eq!(cpu.condition_codes.aux_carry, true);
}

#[test]
fn test_ani() {
    let mut cpu = Cpu::new();
    cpu.registers.a = 0x3A;
    cpu.execute(&Instruction::ANI(0xF));
    assert_eq!(cpu.registers.a, 0xA);
    assert_eq!(cpu.condition_codes.carry, false);
    assert_eq!(cpu.condition_codes.sign, false);
    assert_eq!(cpu.condition_codes.zero, false);
    assert_eq!(cpu.condition_codes.parity, true);
    assert_eq!(cpu.condition_codes.aux_carry, true);
}

#[test]
fn test_xri() {
    let mut cpu = Cpu::new();
    cpu.registers.a = 0x3B;
    cpu.execute(&Instruction::XRI(0x81));
    assert_eq!(cpu.registers.a, 0xBA);
    assert_eq!(cpu.condition_codes.carry, false);
    assert_eq!(cpu.condition_codes.sign, true);
    assert_eq!(cpu.condition_codes.zero, false);
    assert_eq!(cpu.condition_codes.parity, false);
    assert_eq!(cpu.condition_codes.aux_carry, false);
}

#[test]
fn test_ori() {
    let mut cpu = Cpu::new();
    cpu.registers.a = 0xB5;
    cpu.execute(&Instruction::ORI(0xF));
    assert_eq!(cpu.registers.a, 0xBF);
    assert_eq!(cpu.condition_codes.carry, false);
    assert_eq!(cpu.condition_codes.sign, true);
    assert_eq!(cpu.condition_codes.zero, false);
    assert_eq!(cpu.condition_codes.parity, false);
    assert_eq!(cpu.condition_codes.aux_carry, false);
}

#[test]
fn test_cpi() {
    let mut cpu = Cpu::new();
    cpu.registers.a = 0x4A;
    cpu.execute(&Instruction::CPI(0x40));
    assert_eq!(cpu.registers.a, 0x4A);
    assert_eq!(cpu.condition_codes.carry, false);
    assert_eq!(cpu.condition_codes.sign, false);
    assert_eq!(cpu.condition_codes.zero, false);
    assert_eq!(cpu.condition_codes.parity, false);
    assert_eq!(cpu.condition_codes.aux_carry, false);

    cpu.registers.a = 0x2;
    cpu.execute(&Instruction::CPI(0x40));
    assert_eq!(cpu.registers.a, 0x2);
    assert_eq!(cpu.condition_codes.carry, true);
    assert_eq!(cpu.condition_codes.sign, false);
    assert_eq!(cpu.condition_codes.zero, false);
    assert_eq!(cpu.condition_codes.parity, false);
    assert_eq!(cpu.condition_codes.aux_carry, false);
}

#[test]
fn test_rlc() {
    let mut cpu = Cpu::new();
    cpu.registers.a = 0xF2;
    cpu.execute(&Instruction::RLC);
    assert_eq!(cpu.registers.a, 0xE5);
    assert_eq!(cpu.condition_codes.carry, true);
}

#[test]
fn test_rrc() {
    let mut cpu = Cpu::new();
    cpu.registers.a = 0xF2;
    cpu.execute(&Instruction::RRC);
    assert_eq!(cpu.registers.a, 0x79);
    assert_eq!(cpu.condition_codes.carry, false);
}

#[test]
fn test_ral() {
    let mut cpu = Cpu::new();
    cpu.registers.a = 0xB5;
    cpu.execute(&Instruction::RAL);
    assert_eq!(cpu.registers.a, 0x6A);
    assert_eq!(cpu.condition_codes.carry, true);
}

#[test]
fn test_rar() {
    let mut cpu = Cpu::new();
    cpu.registers.a = 0x6A;
    cpu.condition_codes.carry = true;
    cpu.execute(&Instruction::RAR);
    assert_eq!(cpu.registers.a, 0xB5);
    assert_eq!(cpu.condition_codes.carry, false);
}

#[test]
fn test_cma() {
    let mut cpu = Cpu::new();
    cpu.registers.a = 0x51;
    cpu.execute(&Instruction::CMA);
    assert_eq!(cpu.registers.a, 0xAE);
}

#[test]
fn test_stc() {
    let mut cpu = Cpu::new();
    cpu.execute(&Instruction::STC);
    assert_eq!(cpu.condition_codes.carry, true);
}

#[test]
fn test_cmc() {
    let mut cpu = Cpu::new();
    let instr = Instruction::CMC;
    cpu.condition_codes.carry = false;
    cpu.execute(&instr);
    assert_eq!(cpu.condition_codes.carry, true);
    cpu.condition_codes.carry = true;
    cpu.execute(&instr);
    assert_eq!(cpu.condition_codes.carry, false);
}

#[test]
fn test_daa() {
    let mut cpu = Cpu::new();
    cpu.registers.a = 0x9B;
    cpu.condition_codes.carry = false;
    cpu.condition_codes.aux_carry = false;
    cpu.execute(&Instruction::DAA);
    assert_eq!(cpu.registers.a, 0x1);
    assert_eq!(cpu.condition_codes.carry, true);
    assert_eq!(cpu.condition_codes.aux_carry, true);
}

#[test]
fn test_inx() {
    let mut cpu = Cpu::new();
    cpu.registers.d = 0x38;
    cpu.registers.e = 0xFF;
    cpu.execute(&Instruction::INX(Operand::D));
    assert_eq!(cpu.registers.d, 0x39);
    assert_eq!(cpu.registers.e, 0x00);
    cpu.sp = 0xFFFF;
    cpu.execute(&Instruction::INX(Operand::SP));
    assert_eq!(cpu.sp, 0x0000);
}

#[test]
fn test_dcx() {
    let mut cpu = Cpu::new();
    cpu.registers.h = 0x98;
    cpu.registers.l = 0x00;
    cpu.execute(&Instruction::DCX(Operand::H));
    assert_eq!(cpu.registers.h, 0x97);
    assert_eq!(cpu.registers.l, 0xFF);
}

#[test]
fn test_dad() {
    let mut cpu = Cpu::new();
    cpu.registers.b = 0x33;
    cpu.registers.c = 0x9F;
    cpu.registers.h = 0xA1;
    cpu.registers.l = 0x7B;
    cpu.condition_codes.carry = true;
    cpu.execute(&Instruction::DAD(Operand::B));
    assert_eq!(cpu.registers.h, 0xD5);
    assert_eq!(cpu.registers.l, 0x1A);
    assert_eq!(cpu.condition_codes.carry, false);
}

#[test]
fn test_push() {
    let mut cpu = Cpu::new();
    cpu.registers.d = 0x8F;
    cpu.registers.e = 0x9D;
    cpu.sp = 0x3A2C;
    cpu.execute(&Instruction::PUSH(Operand::D));
    assert_eq!(cpu.memory[0x3A2B], 0x8F);
    assert_eq!(cpu.memory[0x3A2A], 0x9D);
    assert_eq!(cpu.sp, 0x3A2A);

    //PUSH PSW
    cpu.registers.a = 0x1F;
    cpu.sp = 0x502A;
    cpu.condition_codes.carry = true;
    cpu.condition_codes.zero = true;
    cpu.condition_codes.parity = true;
    cpu.condition_codes.sign = false;
    cpu.condition_codes.aux_carry = false;
 
    cpu.execute(&Instruction::PUSH(Operand::PSW));
    assert_eq!(cpu.memory[0x5029], 0x1F);
    assert_eq!(cpu.memory[0x5028], 0x47);
    assert_eq!(cpu.sp, 0x5028);
}

#[test]
fn test_pop() {
    let mut cpu = Cpu::new();
    cpu.memory[0x1239] = 0x3D;
    cpu.memory[0x123A] = 0x93;
    cpu.sp = 0x1239;
    cpu.execute(&Instruction::POP(Operand::H));
    assert_eq!(cpu.registers.l, 0x3D);
    assert_eq!(cpu.registers.h, 0x93);
    assert_eq!(cpu.sp, 0x123B);

    //POP PSW
    cpu.memory[0x2C00] = 0xC3;
    cpu.memory[0x2C01] = 0xFF;
    cpu.sp = 0x2C00;
    cpu.execute(&Instruction::POP(Operand::PSW));
    assert_eq!(cpu.registers.a, 0xFF);
    assert_eq!(cpu.condition_codes.carry, true);
    assert_eq!(cpu.condition_codes.zero, true);
    assert_eq!(cpu.condition_codes.aux_carry, false);
    assert_eq!(cpu.condition_codes.sign, true);
    assert_eq!(cpu.condition_codes.parity, false);
}

#[test]
fn test_ei() {
    let mut cpu = Cpu::new();
    cpu.interrupts_enabled = false;
    cpu.ei();
    assert_eq!(cpu.interrupts_enabled, true);
}

#[test]
fn test_di() {
    let mut cpu = Cpu::new();
    cpu.interrupts_enabled = true;
    cpu.di();
    assert_eq!(cpu.interrupts_enabled, false);
}

#[test]
fn test_sphl() {
    let mut cpu = Cpu::new();
    cpu.registers.h = 0x50;
    cpu.registers.l = 0x6C;
    cpu.execute(&Instruction::SPHL);
    assert_eq!(cpu.sp, 0x506C);
}

#[test]
fn test_xthl() {
    let mut cpu = Cpu::new();
    cpu.sp = 0x10AD;
    cpu.registers.h = 0x0B;
    cpu.registers.l = 0x3C;
    cpu.memory[0x10AD] = 0xF0;
    cpu.memory[0x10AE] = 0x0D;
    cpu.execute(&Instruction::XTHL);
    assert_eq!(cpu.registers.h, 0x0D);
    assert_eq!(cpu.registers.l, 0xF0);
    assert_eq!(cpu.memory[0x10AD], 0x3C);
    assert_eq!(cpu.memory[0x10AE], 0x0B);
}

#[test]
fn test_add() {
    let mut cpu = Cpu::new();
    cpu.registers.a = 0x6C;
    cpu.registers.d = 0x2E;
    cpu.execute(&Instruction::ADD(Operand::D));

    assert_eq!(cpu.registers.a, 0x9A);
    assert_eq!(cpu.condition_codes.carry, false);
    assert_eq!(cpu.condition_codes.sign, true);
    assert_eq!(cpu.condition_codes.zero, false);
    assert_eq!(cpu.condition_codes.parity, true);
    assert_eq!(cpu.condition_codes.aux_carry, true);
}

#[test]
fn test_adc() {
    // carry bit not set
    let mut cpu = Cpu::new();
    cpu.registers.a = 0x42;
    cpu.registers.c = 0x3D;
    cpu.condition_codes.carry = false;
    cpu.execute(&Instruction::ADC(Operand::C));

    assert_eq!(cpu.registers.a, 0x7F);
    assert_eq!(cpu.condition_codes.carry, false);
    assert_eq!(cpu.condition_codes.sign, false);
    assert_eq!(cpu.condition_codes.zero, false);
    assert_eq!(cpu.condition_codes.parity, false);
    assert_eq!(cpu.condition_codes.aux_carry, false);

    // carry bit set
    cpu.registers.a = 0x42;
    cpu.registers.c = 0x3D;
    cpu.condition_codes.carry = true;
    cpu.execute(&Instruction::ADC(Operand::C));

    assert_eq!(cpu.registers.a, 0x80);
    assert_eq!(cpu.condition_codes.carry, false);
    assert_eq!(cpu.condition_codes.sign, true);
    assert_eq!(cpu.condition_codes.zero, false);
    assert_eq!(cpu.condition_codes.parity, false);
    assert_eq!(cpu.condition_codes.aux_carry, true);
}

#[test]
fn test_sub() {
    let mut cpu = Cpu::new();
    cpu.registers.a = 0x3E;
    cpu.execute(&Instruction::SUB(Operand::A));

    assert_eq!(cpu.registers.a, 0x0);
    assert_eq!(cpu.condition_codes.carry, false);
    assert_eq!(cpu.condition_codes.sign, false);
    assert_eq!(cpu.condition_codes.zero, true);
    assert_eq!(cpu.condition_codes.parity, true);
    assert_eq!(cpu.condition_codes.aux_carry, true);
}

#[test]
fn test_sbb() {
    let mut cpu = Cpu::new();
    cpu.registers.a = 0x4;
    cpu.registers.l = 0x2;
    cpu.condition_codes.carry = true;
    cpu.execute(&Instruction::SBB(Operand::L));

    assert_eq!(cpu.registers.a, 0x1);
    assert_eq!(cpu.condition_codes.carry, false);
    assert_eq!(cpu.condition_codes.sign, false);
    assert_eq!(cpu.condition_codes.zero, false);
    assert_eq!(cpu.condition_codes.parity, false);
    assert_eq!(cpu.condition_codes.aux_carry, true);
}

#[test]
fn test_inr() {
    let mut cpu = Cpu::new();
    cpu.registers.a = 0x99;
    cpu.execute(&Instruction::INR(Operand::A));

    assert_eq!(cpu.registers.a, 0x9A);
    assert_eq!(cpu.condition_codes.carry, false);
    assert_eq!(cpu.condition_codes.sign, true);
    assert_eq!(cpu.condition_codes.zero, false);
    assert_eq!(cpu.condition_codes.parity, true);
    assert_eq!(cpu.condition_codes.aux_carry, false);
}

#[test]
fn test_dcr() {
    let mut cpu = Cpu::new();
    cpu.registers.h = 0x3A;
    cpu.registers.l = 0x7C;
    cpu.memory[0x3A7C] = 0x40;
    cpu.execute(&Instruction::DCR(Operand::M));

    assert_eq!(cpu.memory[0x3A7C], 0x3F);
    assert_eq!(cpu.condition_codes.carry, false);
    assert_eq!(cpu.condition_codes.sign, false);
    assert_eq!(cpu.condition_codes.zero, false);
    assert_eq!(cpu.condition_codes.parity, true);
    assert_eq!(cpu.condition_codes.aux_carry, true);
}

#[test]
fn test_mov() {
    let mut cpu = Cpu::new();
    cpu.registers.a = 0;
    cpu.registers.e = 0x2B;
    cpu.execute(&Instruction::MOV(Operand::A, Operand::E));
    assert_eq!(cpu.registers.a, 0x2B);
    assert_eq!(cpu.registers.e, 0x2B);

    cpu.registers.a = 0x5A;
    cpu.registers.h = 0x2B;
    cpu.registers.l = 0xE9;
    cpu.execute(&Instruction::MOV(Operand::M, Operand::A));
    assert_eq!(cpu.memory[0x2BE9], 0x5A);
    assert_eq!(cpu.registers.a, 0x5A);
    assert_eq!(cpu.registers.h, 0x2B);
    assert_eq!(cpu.registers.l, 0xE9);
}

#[test]
fn test_mvi() {
    let mut cpu = Cpu::new();
    assert_eq!(cpu.registers.b, 0);
    cpu.execute(&Instruction::MVI(Operand::B, 0x3C));
    assert_eq!(cpu.registers.b, 0x3C);
}

#[test]
fn test_lxi() {
    let mut cpu = Cpu::new();
    cpu.execute(&Instruction::LXI(Operand::H, 0x103));
    assert_eq!(cpu.registers.h, 0x1);
    assert_eq!(cpu.registers.l, 0x3);
}

#[test]
fn test_stax() {
    let mut cpu = Cpu::new();
    cpu.registers.a = 0x5C;
    cpu.registers.b = 0x3F;
    cpu.registers.c = 0x16;
    cpu.execute(&Instruction::STAX(Operand::B));
    assert_eq!(cpu.memory[0x3F16], 0x5C);
}

#[test]
fn test_ldax() {
    let mut cpu = Cpu::new();
    cpu.registers.d = 0x93;
    cpu.registers.e = 0x8B;
    cpu.memory[0x938B] = 0x5C;
    cpu.execute(&Instruction::LDAX(Operand::D));
    assert_eq!(cpu.registers.a, 0x5C);
}

#[test]
fn test_sta() {
    let mut cpu = Cpu::new();
    cpu.registers.a = 0xFF;
    cpu.execute(&Instruction::STA(0x5B3));
    assert_eq!(cpu.memory[0x5b3], 0xFF);
}

#[test]
fn test_lda() {
    let mut cpu = Cpu::new();
    cpu.memory[0x300] = 0xB;
    cpu.execute(&Instruction::LDA(0x300));
    assert_eq!(cpu.registers.a, 0xB);
}

#[test]
fn test_shld() {
    let mut cpu = Cpu::new();
    cpu.registers.h = 0xAE;
    cpu.registers.l = 0x29;
    cpu.execute(&Instruction::SHLD(0x10A));
    assert_eq!(cpu.memory[0x10A], 0x29);
    assert_eq!(cpu.memory[0x10B], 0xAE);
}

#[test]
fn test_lhld() {
    let mut cpu = Cpu::new();
    cpu.memory[0x25B] = 0xFF;
    cpu.memory[0x25C] = 0x3;
    cpu.execute(&Instruction::LHLD(0x25B));
    assert_eq!(cpu.registers.l, 0xFF);
    assert_eq!(cpu.registers.h, 0x3);
}

#[test]
fn test_xchg() {
    let mut cpu = Cpu::new();
    cpu.registers.d = 0x33;
    cpu.registers.e = 0x55;
    cpu.registers.h = 0x0;
    cpu.registers.l = 0xFF;
    cpu.execute(&Instruction::XCHG);
    assert_eq!(cpu.registers.d, 0x0);
    assert_eq!(cpu.registers.e, 0xFF);
    assert_eq!(cpu.registers.h, 0x33);
    assert_eq!(cpu.registers.l, 0x55);
}
