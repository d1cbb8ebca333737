use vstd::prelude::*;

use crate::condition_codes::law_psw_round_trip;
use crate::condition_codes::ConditionCodes;
use crate::instruction::{Instruction, Operand, cycles_of, decoded, op_x, op_y, op_z, size_of};
use crate::model::{CpuState, executable, group_of, is_stack_operand, step, wrap16};

verus! {

proof fn lemma_rotate_back(a: u8, r: u8)
    requires
        r == (2 * a + a / 128) % 256,
    ensures
        r / 2 + 128 * (r % 2) == a,
{
    if a >= 128 {
        assert(r == 2 * a - 255);
    } else {
        assert(r == 2 * a);
    }
}

proof fn lemma_rotate_carry_back(a: u8, c: u8, r: u8)
    requires
        c <= 1,
        r == (2 * a + c) % 256,
    ensures
        r / 2 + 128 * (if a >= 128 { 1int } else { 0 }) == a,
        (r % 2 == 1) == (c == 1),
{
    if a >= 128 {
        assert(r == 2 * a + c - 256);
    } else {
        assert(r == 2 * a + c);
    }
}

/// Splitting a word into its bytes and joining them gives the word back.
pub proof fn lemma_pair_split(v: u16)
    ensures
        crate::registers::pair((v / 256) as u8, (v % 256) as u8) == v,
{
    assert(v == 256 * (v / 256) + v % 256);
}

/// POP after PUSH of the same register pair (or of the PSW) restores the
/// registers, the flags and the stack pointer.
pub proof fn law_pop_undoes_push(s: CpuState, op: Operand)
    requires
        s.wf(),
        is_stack_operand(op),
        executable(s, Instruction::PUSH(op)),
    ensures
        executable(step(s, Instruction::PUSH(op)).0, Instruction::POP(op)),
        step(step(s, Instruction::PUSH(op)).0, Instruction::POP(op)).0.registers == s.registers,
        step(step(s, Instruction::PUSH(op)).0, Instruction::POP(op)).0.condition_codes
            == s.condition_codes,
        step(step(s, Instruction::PUSH(op)).0, Instruction::POP(op)).0.sp == s.sp,
{
    law_psw_round_trip(s.condition_codes);
}

/// RET after CALL continues with the instruction that follows the CALL (three
/// bytes on), with the stack pointer, registers and flags as before the call.
pub proof fn law_ret_undoes_call(s: CpuState, addr: u16)
    requires
        s.wf(),
        executable(s, Instruction::CALL(addr)),
    ensures
        executable(step(s, Instruction::CALL(addr)).0, Instruction::RET),
        step(s, Instruction::CALL(addr)).1 == addr,
        step(step(s, Instruction::CALL(addr)).0, Instruction::RET).1 == wrap16(s.pc + 3),
        step(step(s, Instruction::CALL(addr)).0, Instruction::RET).0.sp == s.sp,
        step(step(s, Instruction::CALL(addr)).0, Instruction::RET).0.registers == s.registers,
        step(step(s, Instruction::CALL(addr)).0, Instruction::RET).0.condition_codes
            == s.condition_codes,
{
}

/// RRC after RLC restores the accumulator and leaves the carry equal to the
/// bit that went round.
pub proof fn law_rotate_right_undoes_rotate_left(s: CpuState)
    ensures
        step(step(s, Instruction::RLC).0, Instruction::RRC).0.registers == s.registers,
        step(step(s, Instruction::RLC).0, Instruction::RRC).0.condition_codes.carry == (s.a()
            >= 0x80),
{
    let a = s.a();
    let r = step(s, Instruction::RLC).0.a();
    assert(r == (2 * a + a / 128) % 256);
    lemma_rotate_back(a, r);
}

/// RAR after RAL restores the whole state: the rotation through the carry is
/// a nine-bit rotation.
pub proof fn law_rotate_through_carry_round_trip(s: CpuState)
    ensures
        step(step(s, Instruction::RAL).0, Instruction::RAR).0 == s,
{
    let a = s.a();
    let c: u8 = if s.condition_codes.carry { 1 } else { 0 };
    let r = step(s, Instruction::RAL).0.a();
    assert(r == (2 * a + c) % 256);
    lemma_rotate_carry_back(a, c, r);
    let t = step(step(s, Instruction::RAL).0, Instruction::RAR).0;
    assert(t.registers == s.registers);
    assert(t.condition_codes == s.condition_codes);
}

/// CMA twice, CMC twice, XCHG twice and XTHL twice each leave the state as
/// it was.
pub proof fn law_involutions(s: CpuState)
    ensures
        step(step(s, Instruction::CMA).0, Instruction::CMA).0 == s,
        step(step(s, Instruction::CMC).0, Instruction::CMC).0 == s,
        step(step(s, Instruction::XCHG).0, Instruction::XCHG).0 == s,
        s.wf() && s.can_pop() ==> step(step(s, Instruction::XTHL).0, Instruction::XTHL).0 == s,
{
    assert(step(step(s, Instruction::CMA).0, Instruction::CMA).0.registers == s.registers);
    assert(step(step(s, Instruction::CMC).0, Instruction::CMC).0.condition_codes
        == s.condition_codes);
    assert(step(step(s, Instruction::XCHG).0, Instruction::XCHG).0.registers == s.registers);
    if s.wf() && s.can_pop() {
        let t = step(step(s, Instruction::XTHL).0, Instruction::XTHL).0;
        assert(t.registers == s.registers);
        assert(t.memory =~= s.memory);
    }
}

/// Storing a word into a register pair and reading the pair gives the word
/// back; storing what a pair holds changes nothing.
pub proof fn lemma_pair_store_read(s: CpuState, op: Operand, v: u16)
    requires
        op is B || op is D || op is H || op is SP,
    ensures
        s.store_pair(op, v).read_pair(op) == v,
        s.store_pair(op, s.read_pair(op)) == s,
        s.store_pair(op, v).store_pair(op, s.read_pair(op)) == s,
{
    lemma_pair_split(v);
    lemma_pair_split(s.read_pair(op));
    assert(s.store_pair(op, s.read_pair(op)).registers == s.registers);
    assert(s.store_pair(op, v).store_pair(op, s.read_pair(op)).registers == s.registers);
}

/// DCX after INX (and INX after DCX) of a register pair leaves the state as
/// it was.
#[verifier::rlimit(30)]
pub proof fn law_increment_decrement_pair(s: CpuState, op: Operand)
    requires
        op is B || op is D || op is H || op is SP,
    ensures
        step(step(s, Instruction::INX(op)).0, Instruction::DCX(op)).0 == s,
        step(step(s, Instruction::DCX(op)).0, Instruction::INX(op)).0 == s,
{
    let v = s.read_pair(op);
    let up = wrap16(v + 1);
    let down = wrap16(v - 1);
    lemma_pair_store_read(s, op, up);
    lemma_pair_store_read(s, op, down);
    assert(wrap16(up - 1) == v);
    assert(wrap16(down + 1) == v);
}

/// A load from an address gives back what a store to that address wrote:
/// LDA after STA leaves the accumulator as it was, and LHLD after SHLD
/// leaves H and L as they were.
pub proof fn law_load_reads_store(s: CpuState, addr: u16)
    requires
        s.wf(),
    ensures
        s.addressable(addr as int) ==> step(step(s, Instruction::STA(addr)).0, Instruction::LDA(
            addr,
        )).0 == step(s, Instruction::STA(addr)).0,
        s.addressable(addr + 1) ==> step(step(s, Instruction::SHLD(addr)).0, Instruction::LHLD(
            addr,
        )).0 == step(s, Instruction::SHLD(addr)).0,
{
    if s.addressable(addr as int) {
        let t = step(step(s, Instruction::STA(addr)).0, Instruction::LDA(addr)).0;
        assert(t.registers == step(s, Instruction::STA(addr)).0.registers);
    }
    if s.addressable(addr + 1) {
        let t = step(step(s, Instruction::SHLD(addr)).0, Instruction::LHLD(addr)).0;
        assert(t.registers == step(s, Instruction::SHLD(addr)).0.registers);
    }
}

/// Every instruction other than a jump, call, restart or return continues
/// with the instruction that follows it in memory, and takes the number of
/// cycles that `cycles` reports.
pub proof fn law_sequential_flow(s: CpuState, i: Instruction)
    requires
        group_of(i) != 1 && group_of(i) != 2 && group_of(i) != 3,
    ensures
        step(s, i).1 == wrap16(s.pc + size_of(i)),
        step(s, i).2 == cycles_of(i),
{
}

/// A jump, call, restart or return takes the number of cycles that `cycles`
/// reports, plus six for a conditional call or return whose condition holds.
pub proof fn law_branch_cycles(s: CpuState, i: Instruction)
    requires
        group_of(i) == 1 || group_of(i) == 2 || group_of(i) == 3,
    ensures
        step(s, i).2 == cycles_of(i) || step(s, i).2 == cycles_of(i) + 6,
        (i is JMP || i is CALL || i is RET || i is RST || i is PCHL || group_of(i) == 1) ==> step(
            s,
            i,
        ).2 == cycles_of(i),
{
}

/// The data transfer instructions (MOV, MVI, LXI, STAX, LDAX, STA, LDA,
/// SHLD, LHLD, XCHG, XTHL, SPHL, INX, DCX, PUSH of a register pair) leave
/// the flags unchanged.
pub proof fn law_transfers_keep_flags(s: CpuState, i: Instruction)
    requires
        group_of(i) == 7 || i is LXI || i is INX || i is DCX || i is XCHG || i is XTHL
            || i is SPHL || i is PUSH,
    ensures
        step(s, i).0.condition_codes == s.condition_codes,
{
}

/// INR and DCR leave the carry flag unchanged; CMP and CPI leave the
/// accumulator unchanged.
pub proof fn law_flag_preservation(s: CpuState, op: Operand, v: u8)
    ensures
        step(s, Instruction::INR(op)).0.condition_codes.carry == s.condition_codes.carry,
        step(s, Instruction::DCR(op)).0.condition_codes.carry == s.condition_codes.carry,
        step(s, Instruction::CMP(op)).0.registers == s.registers,
        step(s, Instruction::CPI(v)).0.registers == s.registers,
{
}

/// POP restores what PUSH saved even when the registers were changed in
/// between: any state with the memory and stack pointer that PUSH left pops
/// back the pushed pair (for the PSW, the accumulator and the flags) and
/// the stack pointer from before the PUSH.
pub proof fn law_pop_restores_pushed(s: CpuState, op: Operand, t: CpuState)
    requires
        s.wf(),
        executable(s, Instruction::PUSH(op)),
        t.memory == step(s, Instruction::PUSH(op)).0.memory,
        t.sp == step(s, Instruction::PUSH(op)).0.sp,
    ensures
        executable(t, Instruction::POP(op)),
        step(t, Instruction::POP(op)).0.sp == s.sp,
        op is B ==> step(t, Instruction::POP(op)).0.registers.b == s.registers.b
            && step(t, Instruction::POP(op)).0.registers.c == s.registers.c,
        op is D ==> step(t, Instruction::POP(op)).0.registers.d == s.registers.d
            && step(t, Instruction::POP(op)).0.registers.e == s.registers.e,
        op is H ==> step(t, Instruction::POP(op)).0.registers.h == s.registers.h
            && step(t, Instruction::POP(op)).0.registers.l == s.registers.l,
        op is PSW ==> step(t, Instruction::POP(op)).0.registers.a == s.registers.a
            && step(t, Instruction::POP(op)).0.condition_codes == s.condition_codes,
{
    law_psw_round_trip(s.condition_codes);
}

/// RET continues at the word at the top of the stack, low byte at SP and
/// high byte at SP + 1, and raises SP by two.
pub proof fn law_ret_pops_the_return_address(s: CpuState)
    requires
        s.wf(),
        executable(s, Instruction::RET),
    ensures
        step(s, Instruction::RET).1 == s.memory[s.sp as int] + 256 * s.memory[s.sp as int + 1],
        step(s, Instruction::RET).0.sp == s.sp + 2,
        step(s, Instruction::RET).0.registers == s.registers,
        step(s, Instruction::RET).0.condition_codes == s.condition_codes,
{
}

/// CMP and CPI compare without changing the accumulator: the zero flag is
/// set exactly when the operand equals A, the carry exactly when it exceeds
/// A.
pub proof fn law_compare(s: CpuState, v: u8, op: Operand)
    requires
        executable(s, Instruction::CMP(op)),
    ensures
        step(s, Instruction::CPI(v)).0.registers == s.registers,
        step(s, Instruction::CPI(v)).0.condition_codes.zero == (s.registers.a == v),
        step(s, Instruction::CPI(v)).0.condition_codes.carry == (v > s.registers.a),
        step(s, Instruction::CMP(op)).0.registers == s.registers,
        step(s, Instruction::CMP(op)).0.condition_codes.zero == (s.registers.a == s.read(op)),
        step(s, Instruction::CMP(op)).0.condition_codes.carry == (s.read(op) > s.registers.a),
{
}

/// XCHG swaps D/E with H/L and changes nothing else.
pub proof fn law_exchange_swaps(s: CpuState)
    ensures
        step(s, Instruction::XCHG).0.registers.d == s.registers.h,
        step(s, Instruction::XCHG).0.registers.e == s.registers.l,
        step(s, Instruction::XCHG).0.registers.h == s.registers.d,
        step(s, Instruction::XCHG).0.registers.l == s.registers.e,
        step(s, Instruction::XCHG).0 == (CpuState {
            registers: step(s, Instruction::XCHG).0.registers,
            ..s
        }),
        step(s, Instruction::XCHG).0.registers.a == s.registers.a,
        step(s, Instruction::XCHG).0.registers.b == s.registers.b,
        step(s, Instruction::XCHG).0.registers.c == s.registers.c,
{
}

/// EI sets and DI clears the interrupt enable flip-flop; neither changes
/// anything else.
pub proof fn law_interrupt_flag(s: CpuState)
    ensures
        step(s, Instruction::EI).0 == (CpuState { interrupts_enabled: true, ..s }),
        step(s, Instruction::DI).0 == (CpuState { interrupts_enabled: false, ..s }),
        step(step(s, Instruction::EI).0, Instruction::DI).0.interrupts_enabled == false,
{
}

// ---- conditional transfers ---------------------------------------------

/// The 8080's eight branch conditions, numbered by the condition field
/// (bits 5..3) of a conditional jump, call or return opcode: not zero,
/// zero, no carry, carry, parity odd, parity even, plus, minus.
pub open spec fn branch_condition(y: int, f: ConditionCodes) -> bool {
    if y == 0 {
        !f.zero
    } else if y == 1 {
        f.zero
    } else if y == 2 {
        !f.carry
    } else if y == 3 {
        f.carry
    } else if y == 4 {
        !f.parity
    } else if y == 5 {
        f.parity
    } else if y == 6 {
        !f.sign
    } else {
        f.sign
    }
}

/// The conditional jump with condition field `y` (opcode 0xC2 + 8y, then
/// the target address, low byte first) goes to its target exactly when the
/// condition holds, else to the next instruction three bytes on; it takes
/// 10 cycles and changes no register, flag or memory byte.
#[verifier::rlimit(40)]
pub proof fn law_conditional_jumps(s: CpuState, y: int, lo: u8, hi: u8)
    requires
        0 <= y < 8,
    ensures
        step(s, decoded(seq![(0xC2 + 8 * y) as u8, lo, hi])) == (
            s,
            if branch_condition(y, s.condition_codes) {
                (lo + 256 * hi) as u16
            } else {
                wrap16(s.pc + 3)
            },
            10u8,
        ),
{
    let op = (0xC2 + 8 * y) as u8;
    assert(op_x(op) == 3 && op_z(op) == 2 && op_y(op) == y);
}

/// The conditional call with condition field `y` (opcode 0xC4 + 8y, then
/// the target address): when the condition holds it pushes the address of
/// the next instruction (high byte at SP - 1, low byte at SP - 2), lowers
/// SP by two and goes to the target in 17 cycles; otherwise it goes on to
/// the next instruction in 11 cycles and changes nothing. It can run
/// exactly when a taken call has room on the stack.
#[verifier::rlimit(40)]
pub proof fn law_conditional_calls(s: CpuState, y: int, lo: u8, hi: u8)
    requires
        0 <= y < 8,
    ensures
        ({
            let i = decoded(seq![(0xC4 + 8 * y) as u8, lo, hi]);
            let next = wrap16(s.pc + 3);
            let sp = s.sp as int;
            &&& executable(s, i) == (branch_condition(y, s.condition_codes) ==> s.sp >= 2)
            &&& branch_condition(y, s.condition_codes) ==> step(s, i) == (
                CpuState {
                    memory: s.memory.update(sp - 1, (next / 256) as u8).update(
                        sp - 2,
                        (next % 256) as u8,
                    ),
                    sp: wrap16(sp - 2),
                    ..s
                },
                (lo + 256 * hi) as u16,
                17u8,
            )
            &&& !branch_condition(y, s.condition_codes) ==> step(s, i) == (s, next, 11u8)
        }),
{
    let op = (0xC4 + 8 * y) as u8;
    assert(op_x(op) == 3 && op_z(op) == 4 && op_y(op) == y);
}

/// The conditional return with condition field `y` (opcode 0xC0 + 8y):
/// when the condition holds it goes to the word at the top of the stack
/// (low byte at SP) and raises SP by two, in 11 cycles; otherwise it goes on
/// to the next instruction in 5 cycles and changes nothing. It can run
/// exactly when a taken return reads inside memory.
#[verifier::rlimit(40)]
pub proof fn law_conditional_returns(s: CpuState, y: int)
    requires
        0 <= y < 8,
    ensures
        ({
            let i = decoded(seq![(0xC0 + 8 * y) as u8]);
            let sp = s.sp as int;
            &&& executable(s, i) == (branch_condition(y, s.condition_codes) ==> sp + 1
                < s.memory.len())
            &&& branch_condition(y, s.condition_codes) ==> step(s, i) == (
                CpuState { sp: wrap16(sp + 2), ..s },
                (s.memory[sp] + 256 * s.memory[sp + 1]) as u16,
                11u8,
            )
            &&& !branch_condition(y, s.condition_codes) ==> step(s, i) == (
                s,
                wrap16(s.pc + 1),
                5u8,
            )
        }),
{
    let op = (0xC0 + 8 * y) as u8;
    assert(op_x(op) == 3 && op_z(op) == 0 && op_y(op) == y);
}

// ---- decimal arithmetic --------------------------------------------------

/// A byte holds two binary-coded decimal digits.
pub open spec fn is_bcd(b: u8) -> bool {
    b / 16 <= 9 && b % 16 <= 9
}

/// The number, 0 to 99, that a BCD byte stands for.
pub open spec fn bcd_value(b: u8) -> int {
    (b / 16) * 10 + b % 16
}

/// The BCD byte for a number from 0 to 99.
pub open spec fn bcd_byte(n: int) -> u8 {
    ((n / 10) * 16 + n % 10) as u8
}

/// Adding two BCD bytes with ADI and then DAA gives the BCD digits of the
/// decimal sum modulo 100, with the carry set exactly when the sum reaches
/// 100. Left out are the sums whose binary value is 0xFA to 0xFF (such as
/// 0x61 + 0x99): there adding six to the low digit wraps the accumulator
/// round to 0x00-0x05, which the high-digit test then no longer sees.
#[verifier::rlimit(40)]
pub proof fn law_daa_after_add(s: CpuState, v: u8)
    requires
        is_bcd(s.registers.a),
        is_bcd(v),
        !(0xFA <= s.registers.a + v <= 0xFF),
    ensures
        ({
            let sum = bcd_value(s.registers.a) + bcd_value(v);
            let t = step(step(s, Instruction::ADI(v)).0, Instruction::DAA).0;
            &&& t.registers.a == bcd_byte(sum % 100)
            &&& t.condition_codes.carry == (sum >= 100)
        }),
{
    lemma_bcd_add_adjust(s.registers.a, v);
}

/// The arithmetic of ADI then DAA on two BCD bytes `a` and `v`.
proof fn lemma_bcd_add_adjust(a: u8, v: u8)
    by (bit_vector)
    requires
        a / 16 <= 9,
        a % 16 <= 9,
        v / 16 <= 9,
        v % 16 <= 9,
        !(0xFA <= a + v <= 0xFF),
    ensures
        ({
            let r = ((a + v) % 256) as u8;
            let c1 = a + v > 0xFF;
            let aux1 = a % 16 + v % 16 > 0xF;
            let low = r % 16 > 9 || aux1;
            let a1: u8 = if low { ((r + 6) % 256) as u8 } else { r };
            let high = a1 >= 0xA0 || c1;
            let a2: u8 = if high { ((a1 + 0x60) % 256) as u8 } else { a1 };
            let carry = if high { c1 || a1 + 0x60 > 0xFF } else { c1 };
            let sum = (a / 16 + v / 16) * 10 + a % 16 + v % 16;
            &&& a2 == (((sum % 100) / 10) * 16 + sum % 100 % 10) as u8
            &&& carry == (sum >= 100)
        }),
{
}

/// DAA adds 0x60 whenever the carry is set on entry (the decimal sum went
/// past 99) and the low digit needs no correction; the carry stays set.
#[verifier::rlimit(40)]
pub proof fn law_daa_keeps_decimal_carry(s: CpuState)
    requires
        s.condition_codes.carry,
        !s.condition_codes.aux_carry,
        s.registers.a % 16 <= 9,
    ensures
        step(s, Instruction::DAA).0.registers.a == (s.registers.a + 0x60) % 256,
        step(s, Instruction::DAA).0.condition_codes.carry,
{
}

} // verus!
