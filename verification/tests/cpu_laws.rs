use i8080::condition_codes::ConditionCodes;
use i8080::cpu::Cpu;
use i8080::instruction::{Instruction, Operand};

fn flags(carry: bool, zero: bool, sign: bool, parity: bool, aux_carry: bool) -> ConditionCodes {
    ConditionCodes { carry, zero, sign, parity, aux_carry }
}

#[test]
fn psw_round_trip_all_flag_combinations() {
    for bits in 0u8..32 {
        let f = flags(bits & 1 != 0, bits & 2 != 0, bits & 4 != 0, bits & 8 != 0, bits & 16 != 0);
        let psw = f.flags_to_psw();
        let mut g = ConditionCodes::new();
        g.psw_to_flags(psw);
        assert_eq!(g.carry, f.carry);
        assert_eq!(g.zero, f.zero);
        assert_eq!(g.sign, f.sign);
        assert_eq!(g.parity, f.parity);
        assert_eq!(g.aux_carry, f.aux_carry);
    }
}

#[test]
fn psw_normalizes_unused_bits() {
    let mut f = ConditionCodes::new();
    f.psw_to_flags(0xFF);
    assert_eq!(f.flags_to_psw(), 0xD7);
    f.psw_to_flags(0x00);
    assert_eq!(f.flags_to_psw(), 0x02);
    f.psw_to_flags(0x28);
    assert_eq!(f.flags_to_psw(), 0x02);
}

#[test]
fn parity_counts_one_bits() {
    let mut f = ConditionCodes::new();
    f.set_parity(0x00);
    assert!(f.parity);
    f.set_parity(0x01);
    assert!(!f.parity);
    f.set_parity(0xFF);
    assert!(f.parity);
    f.set_parity(0x07);
    assert!(!f.parity);
    f.set_zero(0);
    assert!(f.zero);
    f.set_sign(0x80);
    assert!(f.sign);
    f.set_sign(0x7F);
    assert!(!f.sign);
}

#[test]
fn pop_restores_pushed_pairs() {
    let mut cpu = Cpu::new();
    cpu.sp = 0x4000;
    cpu.registers.b = 0x12;
    cpu.registers.c = 0x34;
    cpu.registers.d = 0x56;
    cpu.registers.e = 0x78;
    cpu.registers.h = 0x9A;
    cpu.registers.l = 0xBC;
    cpu.registers.a = 0xDE;
    cpu.condition_codes = flags(true, false, true, false, true);
    for op in [Operand::B, Operand::D, Operand::H, Operand::PSW] {
        cpu.execute(&Instruction::PUSH(op));
    }
    assert_eq!(cpu.sp, 0x4000 - 8);
    cpu.registers.b = 0;
    cpu.registers.c = 0;
    cpu.registers.d = 0;
    cpu.registers.e = 0;
    cpu.registers.h = 0;
    cpu.registers.l = 0;
    cpu.registers.a = 0;
    cpu.condition_codes = ConditionCodes::new();
    for op in [Operand::PSW, Operand::H, Operand::D, Operand::B] {
        cpu.execute(&Instruction::POP(op));
    }
    assert_eq!(cpu.sp, 0x4000);
    assert_eq!((cpu.registers.b, cpu.registers.c), (0x12, 0x34));
    assert_eq!((cpu.registers.d, cpu.registers.e), (0x56, 0x78));
    assert_eq!((cpu.registers.h, cpu.registers.l), (0x9A, 0xBC));
    assert_eq!(cpu.registers.a, 0xDE);
    assert!(cpu.condition_codes.carry && !cpu.condition_codes.zero && cpu.condition_codes.sign);
    assert!(!cpu.condition_codes.parity && cpu.condition_codes.aux_carry);
}

#[test]
fn ret_returns_after_the_call() {
    let mut cpu = Cpu::new();
    cpu.pc = 0x1234;
    cpu.sp = 0x2400;
    let (next_pc, cycles) = cpu.execute(&Instruction::CALL(0x5678));
    assert_eq!((next_pc, cycles), (0x5678, 17));
    assert_eq!(cpu.sp, 0x23FE);
    assert_eq!(cpu.memory[0x23FF], 0x12);
    assert_eq!(cpu.memory[0x23FE], 0x37);
    cpu.pc = next_pc;
    let (back, cycles) = cpu.execute(&Instruction::RET);
    assert_eq!((back, cycles), (0x1237, 10));
    assert_eq!(cpu.sp, 0x2400);
}

#[test]
fn conditional_calls_and_returns_cost_six_more_when_taken() {
    let mut cpu = Cpu::new();
    cpu.pc = 0x100;
    cpu.sp = 0x3000;
    cpu.condition_codes.carry = false;
    assert_eq!(cpu.execute(&Instruction::CC(0x200)), (0x103, 11));
    assert_eq!(cpu.sp, 0x3000);
    cpu.condition_codes.carry = true;
    assert_eq!(cpu.execute(&Instruction::CC(0x200)), (0x200, 17));
    assert_eq!(cpu.sp, 0x2FFE);
    cpu.condition_codes.zero = true;
    assert_eq!(cpu.execute(&Instruction::RNZ), (0x101, 5));
    cpu.condition_codes.zero = false;
    assert_eq!(cpu.execute(&Instruction::RNZ), (0x103, 11));
    assert_eq!(cpu.sp, 0x3000);
}

#[test]
fn restart_pushes_return_address_and_jumps_to_eight_times_its_number() {
    let mut cpu = Cpu::new();
    cpu.pc = 0x0ABC;
    cpu.sp = 0x100;
    assert_eq!(cpu.execute(&Instruction::RST(3)), (0x18, 11));
    assert_eq!(cpu.memory[0xFF], 0x0A);
    assert_eq!(cpu.memory[0xFE], 0xBD);
}

#[test]
fn rotations_undo_each_other() {
    let mut cpu = Cpu::new();
    for a in [0x00u8, 0x01, 0x80, 0xF2, 0x5A, 0xFF] {
        cpu.registers.a = a;
        cpu.execute(&Instruction::RLC);
        cpu.execute(&Instruction::RRC);
        assert_eq!(cpu.registers.a, a);
        assert_eq!(cpu.condition_codes.carry, a >= 0x80);
        for carry in [false, true] {
            cpu.registers.a = a;
            cpu.condition_codes.carry = carry;
            cpu.execute(&Instruction::RAL);
            cpu.execute(&Instruction::RAR);
            assert_eq!(cpu.registers.a, a);
            assert_eq!(cpu.condition_codes.carry, carry);
        }
    }
    cpu.registers.a = 0x01;
    cpu.execute(&Instruction::RRC);
    assert_eq!(cpu.registers.a, 0x80);
    assert!(cpu.condition_codes.carry);
}

#[test]
fn involutions_restore_the_state() {
    let mut cpu = Cpu::new();
    cpu.registers.a = 0x3C;
    cpu.registers.d = 0x11;
    cpu.registers.e = 0x22;
    cpu.registers.h = 0x33;
    cpu.registers.l = 0x44;
    cpu.sp = 0x2000;
    cpu.memory[0x2000] = 0x55;
    cpu.memory[0x2001] = 0x66;
    for i in [Instruction::CMA, Instruction::CMC, Instruction::XCHG, Instruction::XTHL] {
        cpu.execute(&i);
        cpu.execute(&i);
    }
    assert_eq!(cpu.registers.a, 0x3C);
    assert!(!cpu.condition_codes.carry);
    assert_eq!((cpu.registers.d, cpu.registers.e), (0x11, 0x22));
    assert_eq!((cpu.registers.h, cpu.registers.l), (0x33, 0x44));
    assert_eq!((cpu.memory[0x2000], cpu.memory[0x2001]), (0x55, 0x66));
}

#[test]
fn increment_and_decrement_pairs_wrap_and_undo() {
    let mut cpu = Cpu::new();
    cpu.registers.b = 0xFF;
    cpu.registers.c = 0xFF;
    cpu.execute(&Instruction::INX(Operand::B));
    assert_eq!((cpu.registers.b, cpu.registers.c), (0, 0));
    cpu.execute(&Instruction::DCX(Operand::B));
    assert_eq!((cpu.registers.b, cpu.registers.c), (0xFF, 0xFF));
    cpu.sp = 0;
    cpu.execute(&Instruction::DCX(Operand::SP));
    assert_eq!(cpu.sp, 0xFFFF);
    cpu.execute(&Instruction::INX(Operand::SP));
    assert_eq!(cpu.sp, 0);
}

#[test]
fn loads_read_back_stores() {
    let mut cpu = Cpu::new();
    cpu.registers.a = 0x77;
    cpu.execute(&Instruction::STA(0x1234));
    cpu.registers.a = 0;
    cpu.execute(&Instruction::LDA(0x1234));
    assert_eq!(cpu.registers.a, 0x77);
    cpu.registers.h = 0xAB;
    cpu.registers.l = 0xCD;
    cpu.execute(&Instruction::SHLD(0xFFFC));
    cpu.registers.h = 0;
    cpu.registers.l = 0;
    cpu.execute(&Instruction::LHLD(0xFFFC));
    assert_eq!((cpu.registers.h, cpu.registers.l), (0xAB, 0xCD));
    assert_eq!((cpu.memory[0xFFFC], cpu.memory[0xFFFD]), (0xCD, 0xAB));
}

#[test]
fn sequential_instructions_advance_by_their_size() {
    let mut cpu = Cpu::new();
    cpu.pc = 0xFFFF;
    assert_eq!(cpu.execute(&Instruction::MVI(Operand::C, 1)), (0x0001, 7));
    cpu.pc = 0x10;
    assert_eq!(cpu.execute(&Instruction::LXI(Operand::SP, 0x2400)), (0x13, 10));
    assert_eq!(cpu.execute(&Instruction::SBI(1)), (0x12, 7));
    assert_eq!(cpu.execute(&Instruction::IN(1)), (0x12, 10));
    assert_eq!(cpu.execute(&Instruction::HLT), (0x11, 7));
    assert_eq!(cpu.execute(&Instruction::MOV(Operand::M, Operand::A)), (0x11, 7));
}

#[test]
fn compare_sets_zero_on_equal_and_keeps_accumulator() {
    let mut cpu = Cpu::new();
    cpu.registers.a = 0x42;
    cpu.execute(&Instruction::CPI(0x42));
    assert_eq!(cpu.registers.a, 0x42);
    assert!(cpu.condition_codes.zero);
    assert!(!cpu.condition_codes.carry);
    cpu.execute(&Instruction::CPI(0x43));
    assert!(!cpu.condition_codes.zero);
    assert!(cpu.condition_codes.carry);
}

#[test]
fn double_add_sets_carry_on_overflow() {
    let mut cpu = Cpu::new();
    cpu.registers.h = 0xFF;
    cpu.registers.l = 0xFF;
    cpu.registers.b = 0x00;
    cpu.registers.c = 0x02;
    cpu.execute(&Instruction::DAD(Operand::B));
    assert_eq!((cpu.registers.h, cpu.registers.l), (0x00, 0x01));
    assert!(cpu.condition_codes.carry);
    cpu.execute(&Instruction::DAD(Operand::H));
    assert_eq!((cpu.registers.h, cpu.registers.l), (0x00, 0x02));
    assert!(!cpu.condition_codes.carry);
    cpu.sp = 0x1000;
    cpu.execute(&Instruction::DAD(Operand::SP));
    assert_eq!((cpu.registers.h, cpu.registers.l), (0x10, 0x02));
}

#[test]
fn increment_and_decrement_keep_the_carry() {
    let mut cpu = Cpu::new();
    cpu.condition_codes.carry = true;
    cpu.registers.b = 0xFF;
    cpu.execute(&Instruction::INR(Operand::B));
    assert_eq!(cpu.registers.b, 0);
    assert!(cpu.condition_codes.carry && cpu.condition_codes.zero && cpu.condition_codes.aux_carry);
    cpu.execute(&Instruction::DCR(Operand::B));
    assert_eq!(cpu.registers.b, 0xFF);
    assert!(cpu.condition_codes.carry && cpu.condition_codes.sign && cpu.condition_codes.aux_carry);
}

#[test]
fn decimal_adjust_without_corrections() {
    let mut cpu = Cpu::new();
    cpu.registers.a = 0x42;
    cpu.execute(&Instruction::DAA);
    assert_eq!(cpu.registers.a, 0x42);
    assert!(!cpu.condition_codes.carry && !cpu.condition_codes.aux_carry);
    cpu.registers.a = 0x15;
    cpu.condition_codes.aux_carry = true;
    cpu.execute(&Instruction::DAA);
    assert_eq!(cpu.registers.a, 0x1B);
    assert!(!cpu.condition_codes.aux_carry);
}

#[test]
fn subtract_with_borrow_and_immediates() {
    let mut cpu = Cpu::new();
    cpu.registers.a = 0x10;
    cpu.execute(&Instruction::SUI(0x20));
    assert_eq!(cpu.registers.a, 0xF0);
    assert!(cpu.condition_codes.carry);
    cpu.execute(&Instruction::SBI(0x0F));
    assert_eq!(cpu.registers.a, 0xE0);
    cpu.execute(&Instruction::ADI(0x20));
    assert_eq!(cpu.registers.a, 0x00);
    assert!(cpu.condition_codes.carry && cpu.condition_codes.zero);
    cpu.execute(&Instruction::ACI(0x01));
    assert_eq!(cpu.registers.a, 0x02);
}

#[test]
fn interrupt_instructions_set_and_clear_the_flag() {
    let mut cpu = Cpu::new();
    assert_eq!(cpu.execute(&Instruction::EI), (1, 4));
    assert!(cpu.interrupts_enabled);
    assert_eq!(cpu.execute(&Instruction::DI), (1, 4));
    assert!(!cpu.interrupts_enabled);
    cpu.ei();
    assert!(cpu.interrupts_enabled);
}

#[test]
fn subtract_with_borrow_counts_the_borrow_in_the_carry() {
    let mut cpu = Cpu::new();
    cpu.registers.a = 0x02;
    cpu.registers.l = 0x02;
    cpu.condition_codes.carry = true;
    cpu.execute(&Instruction::SBB(Operand::L));
    assert_eq!(cpu.registers.a, 0xFF);
    assert!(cpu.condition_codes.carry);
    assert!(cpu.condition_codes.sign);
    assert!(!cpu.condition_codes.zero);
    assert!(cpu.condition_codes.parity);
}

#[test]
fn can_execute_checks_stack_and_memory_bounds() {
    let mut cpu = Cpu::new();
    assert!(!cpu.can_execute(&Instruction::PUSH(Operand::B)));
    assert!(!cpu.can_execute(&Instruction::CALL(0x1234)));
    assert!(cpu.can_execute(&Instruction::RET));
    assert!(!cpu.can_execute(&Instruction::PUSH(Operand::SP)));
    cpu.sp = 0x100;
    assert!(cpu.can_execute(&Instruction::PUSH(Operand::B)));
    assert!(cpu.can_execute(&Instruction::CALL(0x1234)));
    cpu.sp = 0xFFFE;
    assert!(!cpu.can_execute(&Instruction::RET));
    assert!(!cpu.can_execute(&Instruction::CZ(0x1234)) || !cpu.condition_codes.zero);
    cpu.registers.h = 0xFF;
    cpu.registers.l = 0xFF;
    assert!(!cpu.can_execute(&Instruction::MOV(Operand::M, Operand::A)));
    assert!(cpu.can_execute(&Instruction::MOV(Operand::B, Operand::A)));
    assert!(!cpu.can_execute(&Instruction::LDA(0xFFFF)));
    assert!(!cpu.can_execute(&Instruction::SHLD(0xFFFE)));
    assert!(cpu.can_execute(&Instruction::SHLD(0xFFFD)));
    assert!(!cpu.can_execute(&Instruction::INX(Operand::PSW)));
    assert!(cpu.can_execute(&Instruction::NOP));
}

#[test]
fn pop_restores_what_push_saved_after_the_registers_change() {
    let mut cpu = Cpu::new();
    cpu.sp = 0x3000;
    cpu.registers.d = 0x12;
    cpu.registers.e = 0x34;
    cpu.execute(&Instruction::PUSH(Operand::D));
    cpu.registers.d = 0xFF;
    cpu.registers.e = 0xEE;
    cpu.execute(&Instruction::POP(Operand::D));
    assert_eq!((cpu.registers.d, cpu.registers.e, cpu.sp), (0x12, 0x34, 0x3000));
}

#[test]
fn ret_pops_low_byte_first() {
    let mut cpu = Cpu::new();
    cpu.sp = 0x2000;
    cpu.memory[0x2000] = 0x78;
    cpu.memory[0x2001] = 0x56;
    assert_eq!(cpu.execute(&Instruction::RET), (0x5678, 10));
    assert_eq!(cpu.sp, 0x2002);
}

#[test]
fn compare_sets_zero_on_equal_and_carry_on_greater() {
    let mut cpu = Cpu::new();
    cpu.registers.a = 0x05;
    cpu.execute(&Instruction::CPI(0x05));
    assert!(cpu.condition_codes.zero && !cpu.condition_codes.carry);
    cpu.execute(&Instruction::CPI(0x06));
    assert!(!cpu.condition_codes.zero && cpu.condition_codes.carry);
    cpu.execute(&Instruction::CPI(0x04));
    assert!(!cpu.condition_codes.zero && !cpu.condition_codes.carry);
    assert_eq!(cpu.registers.a, 0x05);
}

#[test]
fn exchange_swaps_de_and_hl() {
    let mut cpu = Cpu::new();
    cpu.registers.d = 0x33;
    cpu.registers.e = 0x55;
    cpu.registers.h = 0x00;
    cpu.registers.l = 0xFF;
    cpu.execute(&Instruction::XCHG);
    assert_eq!((cpu.registers.d, cpu.registers.e, cpu.registers.h, cpu.registers.l), (0x00, 0xFF, 0x33, 0x55));
}
