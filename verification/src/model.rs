use vstd::prelude::*;

use crate::condition_codes::{ConditionCodes, even_parity, flags_of, psw_of};
use crate::instruction::{Instruction, Operand, cycles_of, decoded, encoded_len, size_of};
use crate::invaders_io::{IoState, after_output, input_value};
use crate::registers::{Registers, pair};

verus! {

/// Number of addressable bytes of the emulated memory (addresses
/// 0x0000..=0xFFFE).
pub const MEMORY_SIZE: usize = 0xFFFF;

/// The abstract state of the processor: registers, stack pointer, program
/// counter, memory contents, flags and the interrupt enable flip-flop.
#[verifier::ext_equal]
pub struct CpuState {
    pub registers: Registers,
    pub sp: u16,
    pub pc: u16,
    pub memory: Seq<u8>,
    pub condition_codes: ConditionCodes,
    pub interrupts_enabled: bool,
}

/// `v` reduced to a byte (two's complement wrap-around).
pub open spec fn wrap8(v: int) -> u8 {
    (v % 256) as u8
}

/// `v` reduced to a 16-bit word (two's complement wrap-around).
pub open spec fn wrap16(v: int) -> u16 {
    (v % 65536) as u16
}

/// The flags with zero, sign and parity describing the result byte `r`.
pub open spec fn result_flags(f: ConditionCodes, r: u8) -> ConditionCodes {
    ConditionCodes { zero: r == 0, sign: r >= 0x80, parity: even_parity(r), ..f }
}

/// An operand that names a byte: a register or M.
pub open spec fn is_byte_operand(op: Operand) -> bool {
    !(op is SP) && !(op is PSW)
}

/// An operand that names B/C, D/E, H/L or SP.
pub open spec fn is_pair_operand(op: Operand) -> bool {
    op is B || op is D || op is H || op is SP
}

/// An operand that PUSH and POP accept: B/C, D/E, H/L or the PSW.
pub open spec fn is_stack_operand(op: Operand) -> bool {
    op is B || op is D || op is H || op is PSW
}

impl CpuState {
    /// The memory has its full size.
    pub open spec fn wf(self) -> bool {
        self.memory.len() == MEMORY_SIZE
    }

    pub open spec fn a(self) -> u8 {
        self.registers.a
    }

    pub open spec fn hl(self) -> u16 {
        self.registers.hl()
    }

    /// True when `addr` is inside the emulated memory.
    pub open spec fn addressable(self, addr: int) -> bool {
        0 <= addr < self.memory.len()
    }

    pub open spec fn with_registers(self, r: Registers) -> CpuState {
        CpuState { registers: r, ..self }
    }

    pub open spec fn with_a(self, v: u8) -> CpuState {
        self.with_registers(Registers { a: v, ..self.registers })
    }

    pub open spec fn with_flags(self, f: ConditionCodes) -> CpuState {
        CpuState { condition_codes: f, ..self }
    }

    pub open spec fn write(self, addr: int, v: u8) -> CpuState {
        CpuState { memory: self.memory.update(addr, v), ..self }
    }

    /// Reading a byte operand does not leave the memory.
    pub open spec fn readable(self, op: Operand) -> bool {
        is_byte_operand(op) && (op is M ==> self.addressable(self.hl() as int))
    }

    /// The byte a register or M holds.
    pub open spec fn read(self, op: Operand) -> u8 {
        match op {
            Operand::A => self.registers.a,
            Operand::B => self.registers.b,
            Operand::C => self.registers.c,
            Operand::D => self.registers.d,
            Operand::E => self.registers.e,
            Operand::H => self.registers.h,
            Operand::L => self.registers.l,
            _ => self.memory[self.hl() as int],
        }
    }

    /// The state with a register or M set to `v`.
    pub open spec fn store(self, op: Operand, v: u8) -> CpuState {
        let r = self.registers;
        match op {
            Operand::A => self.with_registers(Registers { a: v, ..r }),
            Operand::B => self.with_registers(Registers { b: v, ..r }),
            Operand::C => self.with_registers(Registers { c: v, ..r }),
            Operand::D => self.with_registers(Registers { d: v, ..r }),
            Operand::E => self.with_registers(Registers { e: v, ..r }),
            Operand::H => self.with_registers(Registers { h: v, ..r }),
            Operand::L => self.with_registers(Registers { l: v, ..r }),
            _ => self.write(self.hl() as int, v),
        }
    }

    /// The 16-bit value of B/C, D/E, H/L or SP.
    pub open spec fn read_pair(self, op: Operand) -> u16 {
        match op {
            Operand::B => self.registers.bc(),
            Operand::D => self.registers.de(),
            Operand::H => self.registers.hl(),
            _ => self.sp,
        }
    }

    /// The state with B/C, D/E, H/L or SP set to `v`.
    pub open spec fn store_pair(self, op: Operand, v: u16) -> CpuState {
        let r = self.registers;
        let (hi, lo) = ((v / 256) as u8, (v % 256) as u8);
        match op {
            Operand::B => self.with_registers(Registers { b: hi, c: lo, ..r }),
            Operand::D => self.with_registers(Registers { d: hi, e: lo, ..r }),
            Operand::H => self.with_registers(Registers { h: hi, l: lo, ..r }),
            _ => CpuState { sp: v, ..self },
        }
    }

    // ---- stack ----------------------------------------------------------

    /// Pushing two bytes stays inside the memory.
    pub open spec fn can_push(self) -> bool {
        self.sp >= 2
    }

    /// Popping two bytes stays inside the memory.
    pub open spec fn can_pop(self) -> bool {
        self.sp as int + 1 < self.memory.len()
    }

    /// Push a word given as high and low byte: the high byte goes to
    /// SP - 1, the low byte to SP - 2, and SP drops by two.
    pub open spec fn push_bytes(self, hi: u8, lo: u8) -> CpuState {
        CpuState {
            memory: self.memory.update(self.sp - 1, hi).update(self.sp - 2, lo),
            sp: wrap16(self.sp - 2),
            ..self
        }
    }

    /// The word at the top of the stack (low byte at SP).
    pub open spec fn stack_word(self) -> u16 {
        pair(self.memory[self.sp as int + 1], self.memory[self.sp as int])
    }

    /// Drop the word at the top of the stack.
    pub open spec fn drop_word(self) -> CpuState {
        CpuState { sp: wrap16(self.sp + 2), ..self }
    }

    /// Push a return address (a subroutine call or restart).
    pub open spec fn push_word(self, w: u16) -> CpuState {
        self.push_bytes((w / 256) as u8, (w % 256) as u8)
    }

    /// PUSH: B/C, D/E, H/L, or the accumulator and the flags.
    pub open spec fn push(self, op: Operand) -> CpuState {
        let r = self.registers;
        match op {
            Operand::B => self.push_bytes(r.b, r.c),
            Operand::D => self.push_bytes(r.d, r.e),
            Operand::H => self.push_bytes(r.h, r.l),
            _ => self.push_bytes(r.a, psw_of(self.condition_codes)),
        }
    }

    /// POP into B/C, D/E, H/L, or the accumulator and the flags.
    pub open spec fn pop(self, op: Operand) -> CpuState {
        let lo = self.memory[self.sp as int];
        let hi = self.memory[self.sp as int + 1];
        let r = self.registers;
        let s = self.drop_word();
        match op {
            Operand::B => s.with_registers(Registers { b: hi, c: lo, ..r }),
            Operand::D => s.with_registers(Registers { d: hi, e: lo, ..r }),
            Operand::H => s.with_registers(Registers { h: hi, l: lo, ..r }),
            _ => s.with_registers(Registers { a: hi, ..r }).with_flags(flags_of(lo)),
        }
    }

    // ---- accumulator operations ------------------------------------------

    /// A := A & v. Carry cleared; auxiliary carry is bit 3 of A | v.
    pub open spec fn and_with(self, v: u8) -> CpuState {
        let r = self.a() & v;
        let f = ConditionCodes {
            carry: false,
            aux_carry: (self.a() | v) & 0x08 == 0x08,
            ..result_flags(self.condition_codes, r)
        };
        self.with_a(r).with_flags(f)
    }

    /// A := A ^ v. Carry and auxiliary carry cleared.
    pub open spec fn xor_with(self, v: u8) -> CpuState {
        let r = self.a() ^ v;
        let f = ConditionCodes { carry: false, aux_carry: false, ..result_flags(self.condition_codes, r) };
        self.with_a(r).with_flags(f)
    }

    /// A := A | v. Carry and auxiliary carry cleared.
    pub open spec fn or_with(self, v: u8) -> CpuState {
        let r = self.a() | v;
        let f = ConditionCodes { carry: false, aux_carry: false, ..result_flags(self.condition_codes, r) };
        self.with_a(r).with_flags(f)
    }

    /// Compare v with A, leaving A unchanged: carry when v > A, zero when
    /// they are equal, sign and parity describe A, auxiliary carry when the
    /// low nibble of A is below that of A - v.
    pub open spec fn compare_with(self, v: u8) -> CpuState {
        let a = self.a();
        let d = wrap8(a - v);
        let f = ConditionCodes {
            carry: v > a,
            zero: a == v,
            sign: a >= 0x80,
            parity: even_parity(a),
            aux_carry: a % 16 < d % 16,
        };
        self.with_flags(f)
    }

    /// A := A + v + carry_in, carry out of bit 7 into the carry flag, carry
    /// out of bit 3 into the auxiliary carry.
    pub open spec fn add_with(self, v: u8, carry_in: int) -> CpuState {
        let a = self.a();
        let sum = a + v + carry_in;
        let r = wrap8(sum);
        let f = ConditionCodes {
            carry: sum > 0xFF,
            aux_carry: a % 16 + v % 16 + carry_in > 0xF,
            ..result_flags(self.condition_codes, r)
        };
        self.with_a(r).with_flags(f)
    }

    /// A := A - v; carry when v > A; auxiliary carry when the low nibble of
    /// A is at least that of v.
    pub open spec fn sub_with(self, v: u8) -> CpuState {
        let a = self.a();
        let r = wrap8(a - v);
        let f = ConditionCodes {
            carry: a < v,
            aux_carry: a % 16 >= v % 16,
            ..result_flags(self.condition_codes, r)
        };
        self.with_a(r).with_flags(f)
    }

    /// A := A - v - carry; the carry flag is set when v + carry > A (a
    /// borrow); the auxiliary
    /// carry when the low nibble of A is at least the low nibble of v masked
    /// with 0xF - borrow.
    pub open spec fn sbb_with(self, v: u8) -> CpuState {
        let a = self.a();
        let b: u8 = if self.condition_codes.carry { 1 } else { 0 };
        let r = wrap8(a - v - b);
        let f = ConditionCodes {
            carry: a < v + b,
            aux_carry: a & 0xF >= v & ((0xF - b) as u8),
            ..result_flags(self.condition_codes, r)
        };
        self.with_a(r).with_flags(f)
    }

    /// INR: increment a register or M; the carry flag is unaffected.
    pub open spec fn increment(self, op: Operand) -> CpuState {
        let r = wrap8(self.read(op) + 1);
        let f = ConditionCodes { aux_carry: r % 16 == 0, ..result_flags(self.condition_codes, r) };
        self.store(op, r).with_flags(f)
    }

    /// DCR: decrement a register or M; the carry flag is unaffected.
    pub open spec fn decrement(self, op: Operand) -> CpuState {
        let r = wrap8(self.read(op) - 1);
        let f = ConditionCodes { aux_carry: r % 16 == 0xF, ..result_flags(self.condition_codes, r) };
        self.store(op, r).with_flags(f)
    }

    /// RLC: rotate A left; bit 7 goes to bit 0 and to the carry.
    pub open spec fn rotate_left(self) -> CpuState {
        let a = self.a();
        self.with_a(wrap8(2 * a + a / 128)).with_flags(
            ConditionCodes { carry: a >= 0x80, ..self.condition_codes },
        )
    }

    /// RRC: rotate A right; bit 0 goes to bit 7 and to the carry.
    pub open spec fn rotate_right(self) -> CpuState {
        let a = self.a();
        self.with_a((a / 2 + 128 * (a % 2)) as u8).with_flags(
            ConditionCodes { carry: a % 2 == 1, ..self.condition_codes },
        )
    }

    /// RAL: rotate A left through the carry.
    pub open spec fn rotate_left_carry(self) -> CpuState {
        let a = self.a();
        let c: int = if self.condition_codes.carry { 1 } else { 0 };
        self.with_a(wrap8(2 * a + c)).with_flags(
            ConditionCodes { carry: a >= 0x80, ..self.condition_codes },
        )
    }

    /// RAR: rotate A right through the carry.
    pub open spec fn rotate_right_carry(self) -> CpuState {
        let a = self.a();
        let c: int = if self.condition_codes.carry { 1 } else { 0 };
        self.with_a((a / 2 + 128 * c) as u8).with_flags(
            ConditionCodes { carry: a % 2 == 1, ..self.condition_codes },
        )
    }

    /// DAA: decimal adjust of the accumulator.
    pub open spec fn decimal_adjust(self) -> CpuState {
        let a = self.a();
        let f = self.condition_codes;
        let low = a % 16 > 9 || f.aux_carry;
        let a1: u8 = if low { wrap8(a + 6) } else { a };
        let aux = if low { a % 16 + 6 > 0xF } else { f.aux_carry };
        let high = a1 >= 0xA0 || f.carry;
        let a2: u8 = if high { wrap8(a1 + 0x60) } else { a1 };
        let carry = if high { f.carry || a1 + 0x60 > 0xFF } else { f.carry };
        self.with_a(a2).with_flags(
            ConditionCodes { carry, aux_carry: aux, ..result_flags(f, a2) },
        )
    }

    // ---- 16-bit operations -----------------------------------------------

    /// DAD: H/L := H/L + pair, carry set on a carry out of bit 15.
    pub open spec fn double_add(self, op: Operand) -> CpuState {
        let sum = self.read_pair(op) + self.hl();
        self.store_pair(Operand::H, wrap16(sum)).with_flags(
            ConditionCodes { carry: sum > 0xFFFF, ..self.condition_codes },
        )
    }

    /// XCHG: swap H/L with D/E.
    pub open spec fn exchange(self) -> CpuState {
        let r = self.registers;
        self.with_registers(Registers { d: r.h, e: r.l, h: r.d, l: r.e, ..r })
    }

    /// XTHL: swap H/L with the word at the top of the stack.
    pub open spec fn exchange_stack(self) -> CpuState {
        let r = self.registers;
        let sp = self.sp as int;
        CpuState {
            registers: Registers { l: self.memory[sp], h: self.memory[sp + 1], ..r },
            memory: self.memory.update(sp, r.l).update(sp + 1, r.h),
            ..self
        }
    }
}

/// Executing the instruction `i` in state `s` stays inside the memory and
/// uses only operands that the instruction accepts.
pub open spec fn executable(s: CpuState, i: Instruction) -> bool {
    let f = s.condition_codes;
    match i {
        Instruction::ANA(op) | Instruction::XRA(op) | Instruction::ORA(op) | Instruction::CMP(op)
        | Instruction::ADD(op) | Instruction::ADC(op) | Instruction::SUB(op) | Instruction::SBB(op)
        | Instruction::INR(op) | Instruction::DCR(op) | Instruction::MVI(op, _) => s.readable(op),
        Instruction::MOV(d, src) => s.readable(d) && s.readable(src),
        Instruction::LXI(op, _) | Instruction::DAD(op) | Instruction::INX(op) | Instruction::DCX(
            op,
        ) => is_pair_operand(op),
        Instruction::STAX(op) | Instruction::LDAX(op) => (op is B || op is D) && s.addressable(
            s.read_pair(op) as int,
        ),
        Instruction::STA(addr) | Instruction::LDA(addr) => s.addressable(addr as int),
        Instruction::SHLD(addr) | Instruction::LHLD(addr) => s.addressable(addr + 1),
        Instruction::PUSH(op) => is_stack_operand(op) && s.can_push(),
        Instruction::POP(op) => is_stack_operand(op) && s.can_pop(),
        Instruction::CALL(_) | Instruction::RST(_) => s.can_push(),
        Instruction::CNZ(_) => !f.zero ==> s.can_push(),
        Instruction::CZ(_) => f.zero ==> s.can_push(),
        Instruction::CNC(_) => !f.carry ==> s.can_push(),
        Instruction::CC(_) => f.carry ==> s.can_push(),
        Instruction::CPO(_) => !f.parity ==> s.can_push(),
        Instruction::CPE(_) => f.parity ==> s.can_push(),
        Instruction::CP(_) => !f.sign ==> s.can_push(),
        Instruction::CM(_) => f.sign ==> s.can_push(),
        Instruction::RET | Instruction::XTHL => s.can_pop(),
        Instruction::RNZ => !f.zero ==> s.can_pop(),
        Instruction::RZ => f.zero ==> s.can_pop(),
        Instruction::RNC => !f.carry ==> s.can_pop(),
        Instruction::RC => f.carry ==> s.can_pop(),
        Instruction::RPO => !f.parity ==> s.can_pop(),
        Instruction::RPE => f.parity ==> s.can_pop(),
        Instruction::RP => !f.sign ==> s.can_pop(),
        Instruction::RM => f.sign ==> s.can_pop(),
        _ => true,
    }
}

/// A conditional jump: the target when the condition holds, else the next
/// instruction.
pub open spec fn branch(s: CpuState, cond: bool, addr: u16, next: u16, cycles: u8) -> (
    CpuState,
    u16,
    u8,
) {
    (s, if cond { addr } else { next }, cycles)
}

/// A conditional call: when taken, the return address `next` is pushed and the
/// instruction takes six more cycles.
pub open spec fn call_when(s: CpuState, cond: bool, addr: u16, next: u16, cycles: u8) -> (
    CpuState,
    u16,
    u8,
) {
    if cond {
        (s.push_word(next), addr, (cycles + 6) as u8)
    } else {
        (s, next, cycles)
    }
}

/// A conditional return: when taken, the return address is popped and the
/// instruction takes six more cycles.
pub open spec fn return_when(s: CpuState, cond: bool, next: u16, cycles: u8) -> (
    CpuState,
    u16,
    u8,
) {
    if cond {
        (s.drop_word(), s.stack_word(), (cycles + 6) as u8)
    } else {
        (s, next, cycles)
    }
}

/// The effect of one of the jumps; `next` is the address of the
/// following instruction and `cyc` the cycles that `cycles` reports.
pub open spec fn step_jump(s: CpuState, i: Instruction, next: u16, cyc: u8) -> (CpuState, u16, u8) {
    let f = s.condition_codes;
    match i {
        Instruction::JMP(addr) => (s, addr, cyc),
        Instruction::JC(addr) => branch(s, f.carry, addr, next, cyc),
        Instruction::JNC(addr) => branch(s, !f.carry, addr, next, cyc),
        Instruction::JZ(addr) => branch(s, f.zero, addr, next, cyc),
        Instruction::JNZ(addr) => branch(s, !f.zero, addr, next, cyc),
        Instruction::JP(addr) => branch(s, !f.sign, addr, next, cyc),
        Instruction::JM(addr) => branch(s, f.sign, addr, next, cyc),
        Instruction::JPE(addr) => branch(s, f.parity, addr, next, cyc),
        Instruction::JPO(addr) => branch(s, !f.parity, addr, next, cyc),
        Instruction::PCHL => (s, s.hl(), cyc),
        _ => (s, next, cyc),
    }
}

/// The effect of one of the calls and restarts; `next` is the address of the
/// following instruction and `cyc` the cycles that `cycles` reports.
pub open spec fn step_call(s: CpuState, i: Instruction, next: u16, cyc: u8) -> (CpuState, u16, u8) {
    let f = s.condition_codes;
    match i {
        Instruction::CALL(addr) => (s.push_word(next), addr, cyc),
        Instruction::CC(addr) => call_when(s, f.carry, addr, next, cyc),
        Instruction::CNC(addr) => call_when(s, !f.carry, addr, next, cyc),
        Instruction::CZ(addr) => call_when(s, f.zero, addr, next, cyc),
        Instruction::CNZ(addr) => call_when(s, !f.zero, addr, next, cyc),
        Instruction::CP(addr) => call_when(s, !f.sign, addr, next, cyc),
        Instruction::CM(addr) => call_when(s, f.sign, addr, next, cyc),
        Instruction::CPE(addr) => call_when(s, f.parity, addr, next, cyc),
        Instruction::CPO(addr) => call_when(s, !f.parity, addr, next, cyc),
        Instruction::RST(n) => (s.push_word(next), (8 * n) as u16, cyc),
        _ => (s, next, cyc),
    }
}

/// The effect of one of the returns; `next` is the address of the
/// following instruction and `cyc` the cycles that `cycles` reports.
pub open spec fn step_return(s: CpuState, i: Instruction, next: u16, cyc: u8) -> (CpuState, u16, u8) {
    let f = s.condition_codes;
    match i {
        Instruction::RET => (s.drop_word(), s.stack_word(), cyc),
        Instruction::RC => return_when(s, f.carry, next, cyc),
        Instruction::RNC => return_when(s, !f.carry, next, cyc),
        Instruction::RZ => return_when(s, f.zero, next, cyc),
        Instruction::RNZ => return_when(s, !f.zero, next, cyc),
        Instruction::RP => return_when(s, !f.sign, next, cyc),
        Instruction::RM => return_when(s, f.sign, next, cyc),
        Instruction::RPE => return_when(s, f.parity, next, cyc),
        Instruction::RPO => return_when(s, !f.parity, next, cyc),
        _ => (s, next, cyc),
    }
}

/// The effect of one of the logical, compare and rotate instructions, CMA, STC, CMC and DAA; `next` is the address of the
/// following instruction and `cyc` the cycles that `cycles` reports.
pub open spec fn step_logic(s: CpuState, i: Instruction, next: u16, cyc: u8) -> (CpuState, u16, u8) {
    let f = s.condition_codes;
    match i {
        Instruction::ANA(op) => (s.and_with(s.read(op)), next, cyc),
        Instruction::XRA(op) => (s.xor_with(s.read(op)), next, cyc),
        Instruction::ORA(op) => (s.or_with(s.read(op)), next, cyc),
        Instruction::CMP(op) => (s.compare_with(s.read(op)), next, cyc),
        Instruction::ANI(v) => (s.and_with(v), next, cyc),
        Instruction::XRI(v) => (s.xor_with(v), next, cyc),
        Instruction::ORI(v) => (s.or_with(v), next, cyc),
        Instruction::CPI(v) => (s.compare_with(v), next, cyc),
        Instruction::RLC => (s.rotate_left(), next, cyc),
        Instruction::RRC => (s.rotate_right(), next, cyc),
        Instruction::RAL => (s.rotate_left_carry(), next, cyc),
        Instruction::RAR => (s.rotate_right_carry(), next, cyc),
        Instruction::CMA => (s.with_a((255 - s.a()) as u8), next, cyc),
        Instruction::STC => (s.with_flags(ConditionCodes { carry: true, ..f }), next, cyc),
        Instruction::CMC => (s.with_flags(ConditionCodes { carry: !f.carry, ..f }), next, cyc),
        Instruction::DAA => (s.decimal_adjust(), next, cyc),
        _ => (s, next, cyc),
    }
}

/// The effect of one of the arithmetic instructions; `next` is the address of the
/// following instruction and `cyc` the cycles that `cycles` reports.
pub open spec fn step_arith(s: CpuState, i: Instruction, next: u16, cyc: u8) -> (CpuState, u16, u8) {
    let f = s.condition_codes;
    match i {
        Instruction::ADD(op) => (s.add_with(s.read(op), 0), next, cyc),
        Instruction::ADC(op) => (s.add_with(s.read(op), if f.carry { 1 } else { 0 }), next, cyc),
        Instruction::SUB(op) => (s.sub_with(s.read(op)), next, cyc),
        Instruction::SBB(op) => (s.sbb_with(s.read(op)), next, cyc),
        Instruction::ADI(v) => (s.add_with(v, 0), next, cyc),
        Instruction::ACI(v) => (s.add_with(v, if f.carry { 1 } else { 0 }), next, cyc),
        Instruction::SUI(v) => (s.sub_with(v), next, cyc),
        Instruction::SBI(v) => (s.sbb_with(v), next, cyc),
        Instruction::INR(op) => (s.increment(op), next, cyc),
        Instruction::DCR(op) => (s.decrement(op), next, cyc),
        _ => (s, next, cyc),
    }
}

/// The effect of one of the stack and exchange instructions; `next` is the address of the
/// following instruction and `cyc` the cycles that `cycles` reports.
pub open spec fn step_stack(s: CpuState, i: Instruction, next: u16, cyc: u8) -> (CpuState, u16, u8) {
    let f = s.condition_codes;
    match i {
        Instruction::PUSH(op) => (s.push(op), next, cyc),
        Instruction::POP(op) => (s.pop(op), next, cyc),
        Instruction::XCHG => (s.exchange(), next, cyc),
        Instruction::XTHL => (s.exchange_stack(), next, cyc),
        Instruction::SPHL => (CpuState { sp: s.hl(), ..s }, next, cyc),
        _ => (s, next, cyc),
    }
}

/// The effect of one of the byte transfer instructions; `next` is the address of the
/// following instruction and `cyc` the cycles that `cycles` reports.
pub open spec fn step_move(s: CpuState, i: Instruction, next: u16, cyc: u8) -> (CpuState, u16, u8) {
    let f = s.condition_codes;
    match i {
        Instruction::MOV(d, src) => (s.store(d, s.read(src)), next, cyc),
        Instruction::MVI(d, v) => (s.store(d, v), next, cyc),
        Instruction::STAX(op) => (s.write(s.read_pair(op) as int, s.a()), next, cyc),
        Instruction::LDAX(op) => (s.with_a(s.memory[s.read_pair(op) as int]), next, cyc),
        Instruction::STA(addr) => (s.write(addr as int, s.a()), next, cyc),
        Instruction::LDA(addr) => (s.with_a(s.memory[addr as int]), next, cyc),
        Instruction::SHLD(addr) => (
            s.write(addr as int, s.registers.l).write(addr + 1, s.registers.h),
            next,
            cyc,
        ),
        Instruction::LHLD(addr) => (
            s.with_registers(
                Registers { l: s.memory[addr as int], h: s.memory[addr + 1], ..s.registers },
            ),
            next,
            cyc,
        ),
        _ => (s, next, cyc),
    }
}

/// The effect of one of the register pair instructions; `next` is the address of the
/// following instruction and `cyc` the cycles that `cycles` reports.
pub open spec fn step_pair(s: CpuState, i: Instruction, next: u16, cyc: u8) -> (CpuState, u16, u8) {
    let f = s.condition_codes;
    match i {
        Instruction::LXI(d, v) => (s.store_pair(d, v), next, cyc),
        Instruction::DAD(op) => (s.double_add(op), next, cyc),
        Instruction::INX(op) => (s.store_pair(op, wrap16(s.read_pair(op) + 1)), next, cyc),
        Instruction::DCX(op) => (s.store_pair(op, wrap16(s.read_pair(op) - 1)), next, cyc),
        _ => (s, next, cyc),
    }
}

/// Which group of instructions `i` belongs to.
pub open spec fn group_of(i: Instruction) -> int {
    match i {
        Instruction::JMP(_) | Instruction::JC(_) | Instruction::JNC(_) | Instruction::JZ(_)
        | Instruction::JNZ(_) | Instruction::JP(_) | Instruction::JM(_) | Instruction::JPE(_)
        | Instruction::JPO(_) | Instruction::PCHL => 1,
        Instruction::CALL(_) | Instruction::CC(_) | Instruction::CNC(_) | Instruction::CZ(_)
        | Instruction::CNZ(_) | Instruction::CP(_) | Instruction::CM(_) | Instruction::CPE(_)
        | Instruction::CPO(_) | Instruction::RST(_) => 2,
        Instruction::RET | Instruction::RC | Instruction::RNC | Instruction::RZ | Instruction::RNZ
        | Instruction::RP | Instruction::RM | Instruction::RPE | Instruction::RPO => 3,
        Instruction::ANA(_) | Instruction::XRA(_) | Instruction::ORA(_) | Instruction::CMP(_)
        | Instruction::ANI(_) | Instruction::XRI(_) | Instruction::ORI(_) | Instruction::CPI(_)
        | Instruction::RLC | Instruction::RRC | Instruction::RAL | Instruction::RAR
        | Instruction::CMA | Instruction::STC | Instruction::CMC | Instruction::DAA => 4,
        Instruction::ADD(_) | Instruction::ADC(_) | Instruction::SUB(_) | Instruction::SBB(_)
        | Instruction::ADI(_) | Instruction::ACI(_) | Instruction::SUI(_) | Instruction::SBI(_)
        | Instruction::INR(_) | Instruction::DCR(_) => 5,
        Instruction::PUSH(_) | Instruction::POP(_) | Instruction::XCHG | Instruction::XTHL
        | Instruction::SPHL => 6,
        Instruction::MOV(_, _) | Instruction::MVI(_, _) | Instruction::STAX(_)
        | Instruction::LDAX(_) | Instruction::STA(_) | Instruction::LDA(_) | Instruction::SHLD(_)
        | Instruction::LHLD(_) => 7,
        Instruction::LXI(_, _) | Instruction::DAD(_) | Instruction::INX(_)
        | Instruction::DCX(_) => 8,
        _ => 0,
    }
}

/// The effect of executing `i` in state `s`: the new state, the address of
/// the instruction to execute next and the number of cycles taken. The
/// program counter in the state itself is left for the caller to update.
/// EI and DI set and clear the interrupt enable flip-flop; NOP, HLT, IN and
/// OUT only advance the program counter.
pub open spec fn step(s: CpuState, i: Instruction) -> (CpuState, u16, u8) {
    let next = wrap16(s.pc + size_of(i));
    let cyc = cycles_of(i);
    let g = group_of(i);
    if g == 1 {
        step_jump(s, i, next, cyc)
    } else if g == 2 {
        step_call(s, i, next, cyc)
    } else if g == 3 {
        step_return(s, i, next, cyc)
    } else if g == 4 {
        step_logic(s, i, next, cyc)
    } else if g == 5 {
        step_arith(s, i, next, cyc)
    } else if g == 6 {
        step_stack(s, i, next, cyc)
    } else if g == 7 {
        step_move(s, i, next, cyc)
    } else if g == 8 {
        step_pair(s, i, next, cyc)
    } else {
        match i {
            Instruction::EI => (CpuState { interrupts_enabled: true, ..s }, next, cyc),
            Instruction::DI => (CpuState { interrupts_enabled: false, ..s }, next, cyc),
            _ => (s, next, cyc),
        }
    }
}

// ---- the processor on the Space Invaders board ------------------------------

/// `i` can run on the Space Invaders board: `execute` accepts it, IN reads
/// one of the input ports 0 to 3 and OUT writes one of the output ports 2
/// to 6.
pub open spec fn board_ready(s: CpuState, i: Instruction) -> bool {
    &&& executable(s, i)
    &&& (i matches Instruction::IN(p) ==> p <= 3)
    &&& (i matches Instruction::OUT(p) ==> 2 <= p <= 6)
}

/// One instruction on the Space Invaders board: IN loads the accumulator
/// from an input port, OUT sends the accumulator to an output port, and
/// every other instruction acts as `step` says. Gives the new processor
/// state, the new board, the next address and the cycles taken.
pub open spec fn board_step(s: CpuState, b: IoState, i: Instruction) -> (CpuState, IoState, u16, u8) {
    let (t, next, cyc) = step(s, i);
    match i {
        Instruction::IN(p) => (s.with_a(input_value(b, p)), b, next, cyc),
        Instruction::OUT(p) => (s, after_output(b, p, s.a()), next, cyc),
        _ => (t, b, next, cyc),
    }
}

/// The whole encoding of the instruction at the program counter lies in
/// memory.
pub open spec fn fetchable(s: CpuState) -> bool {
    &&& (s.pc as int) < s.memory.len()
    &&& s.memory.len() - s.pc >= encoded_len(s.memory[s.pc as int])
}

/// The instruction at the program counter.
pub open spec fn fetched(s: CpuState) -> Instruction {
    decoded(s.memory.subrange(s.pc as int, s.memory.len() as int))
}

/// The machine can take its next step: the instruction at the program
/// counter is whole and can run on the board.
pub open spec fn can_run(s: CpuState, b: IoState) -> bool {
    fetchable(s) && board_ready(s, fetched(s))
}

/// The machine's next step: run the instruction at the program counter and
/// move the program counter on. Gives the new state, the new board and the
/// cycles taken. (Closed, so that proofs about many steps need not unfold
/// the instruction set; `lemma_machine_step` gives the definition.)
pub closed spec fn machine_step(s: CpuState, b: IoState) -> (CpuState, IoState, u8) {
    let (t, c, next, cyc) = board_step(s, b, fetched(s));
    (CpuState { pc: next, ..t }, c, cyc)
}

/// A machine step runs the fetched instruction on the board and moves the
/// program counter to the address it gives.
pub proof fn lemma_machine_step(s: CpuState, b: IoState)
    ensures
        machine_step(s, b) == ({
            let (t, c, next, cyc) = board_step(s, b, fetched(s));
            (CpuState { pc: next, ..t }, c, cyc)
        }),
{
}

/// The state, the board and the total cycles after `n` machine steps.
pub open spec fn run(s: CpuState, b: IoState, n: nat) -> (CpuState, IoState, nat)
    decreases n,
{
    if n == 0 {
        (s, b, 0)
    } else {
        let (s1, b1, c1) = run(s, b, (n - 1) as nat);
        let (s2, b2, c) = machine_step(s1, b1);
        (s2, b2, c1 + c as nat)
    }
}

/// Running a frame with cycle budget `budget` from (`s`, `b`) took `n`
/// steps: each earlier step could run and started below the budget.
pub open spec fn frame_prefix(s: CpuState, b: IoState, budget: nat, n: nat) -> bool {
    forall|k: nat|
        k < n ==> #[trigger] run(s, b, k).2 < budget && can_run(run(s, b, k).0, run(s, b, k).1)
}

} // verus!
