use vstd::prelude::*;

use crate::condition_codes::ConditionCodes;
use crate::instruction::{Instruction, Operand, cycles_of, size_of};
use crate::model::{
    CpuState, executable, group_of, is_byte_operand, is_pair_operand, is_stack_operand, result_flags, step,
    step_arith, step_call, step_jump, step_logic, step_move, step_pair, step_return, step_stack,
    wrap16, wrap8,
};
use crate::registers::{Registers, high_byte, join_bytes, low_byte, pair};
use crate::invaders_io::{IoState, SpaceInvadersIO};
use crate::machine::MachineIO;
use crate::model::{
    board_ready, board_step, can_run, fetchable, fetched, frame_prefix, lemma_machine_step,
    machine_step, run,
};

verus! {

/// The processor: registers, stack pointer, program counter, 0xFFFF bytes
/// of memory, the condition flags and the interrupt enable flip-flop.
pub struct Cpu {
    pub registers: Registers,
    pub sp: u16,
    pub pc: u16,
    pub memory: [u8; 0xFFFF],
    pub condition_codes: ConditionCodes,
    pub interrupts_enabled: bool,
}

impl View for Cpu {
    type V = CpuState;

    open spec fn view(&self) -> CpuState {
        CpuState {
            registers: self.registers,
            sp: self.sp,
            pc: self.pc,
            memory: self.memory@,
            condition_codes: self.condition_codes,
            interrupts_enabled: self.interrupts_enabled,
        }
    }
}

// ---- bit-level facts used below --------------------------------------------

proof fn lemma_low_nibble(x: u8)
    ensures
        x & 0xF == x % 16,
{
    assert(x & 0xF == x % 16) by (bit_vector);
}

proof fn lemma_rotate_left(a: u8, r: u8)
    requires
        r == (a << 1u8) | ((a & 0x80) >> 7u8),
    ensures
        r == (2 * a + a / 128) % 256,
        ((r & 0x1) > 0) == (a >= 0x80),
{
    assert(r == (2 * a + a / 128) % 256 && ((r & 0x1) > 0) == (a >= 0x80)) by (bit_vector)
        requires
            r == (a << 1u8) | ((a & 0x80) >> 7u8),
    ;
}

proof fn lemma_rotate_right(a: u8, r: u8)
    requires
        r == (a >> 1u8) | ((a & 0x01) << 7u8),
    ensures
        r == a / 2 + 128 * (a % 2),
        ((a & 0x01) == 1) == (a % 2 == 1),
{
    assert(r == a / 2 + 128 * (a % 2) && ((a & 0x01) == 1) == (a % 2 == 1)) by (bit_vector)
        requires
            r == (a >> 1u8) | ((a & 0x01) << 7u8),
    ;
}

proof fn lemma_rotate_left_carry(a: u8, c: u8, r: u8)
    requires
        c <= 1,
        r == (a << 1u8) | c,
    ensures
        r == (2 * a + c) % 256,
        ((a & 0x80) == 0x80) == (a >= 0x80),
{
    assert(r == (2 * a + c) % 256 && ((a & 0x80) == 0x80) == (a >= 0x80)) by (bit_vector)
        requires
            c <= 1,
            r == (a << 1u8) | c,
    ;
}

proof fn lemma_rotate_right_carry(a: u8, c: u8, r: u8)
    requires
        c <= 1,
        r == (a >> 1u8) | (c << 7u8),
    ensures
        r == a / 2 + 128 * c,
        ((a & 0x01) == 1) == (a % 2 == 1),
{
    assert(r == a / 2 + 128 * c && ((a & 0x01) == 1) == (a % 2 == 1)) by (bit_vector)
        requires
            c <= 1,
            r == (a >> 1u8) | (c << 7u8),
    ;
}

proof fn lemma_complement(a: u8)
    ensures
        !a == 255 - a,
{
    assert(!a == 255 - a) by (bit_vector);
}

proof fn lemma_daa_low(a: u8, b: u8)
    requires
        b == (a + 6) % 256,
    ensures
        ((a & 0x0F) > 0x9) == (a % 16 > 9),
        ((b & 0x8) < (a & 0x8)) == (a % 16 + 6 > 0xF),
{
    lemma_low_nibble(a);
    assert(((a & 0x0F) > 0x9) == (a % 16 > 9)) by (bit_vector);
    assert(((b & 0x8u8) < (a & 0x8u8)) == ((a & 0x0Fu8) >= 10u8)) by (bit_vector)
        requires
            b == (a + 6) % 256,
    ;
}

proof fn lemma_daa_high(a: u8, b: u8)
    requires
        b == (a + 0x60) % 256,
    ensures
        ((a & 0xF0) > 0x90) == (a >= 0xA0),
        (((b >> 4u8) & 0x8) < ((a >> 4u8) & 0x8)) == (a + 0x60 > 0xFF),
{
    assert(((a & 0xF0) > 0x90) == (a >= 0xA0) && (((b >> 4u8) & 0x8) < ((a >> 4u8) & 0x8)) == (a
        + 0x60 > 0xFF)) by (bit_vector)
        requires
            b == (a + 0x60) % 256,
    ;
}

impl Cpu {
    /// A processor with cleared registers, flags and memory.
    pub fn new() -> (r: Self)
        ensures
            r@.registers == Registers::cleared(),
            r.sp == 0,
            r.pc == 0,
            r@.memory.len() == 0xFFFF,
            forall|i: int| 0 <= i < 0xFFFF ==> r@.memory[i] == 0,
            r.condition_codes == ConditionCodes::cleared(),
            !r.interrupts_enabled,
    {
        Cpu {
            registers: Registers::new(),
            sp: 0,
            pc: 0,
            memory: [0; 0xFFFF],
            condition_codes: ConditionCodes::new(),
            interrupts_enabled: false,
        }
    }

    /// Whether `execute` can run `instruction` in this state: its operands
    /// name registers it accepts, and every byte it reads or writes, the
    /// stack included, lies inside the memory.
    pub fn can_execute(&self, instruction: &Instruction) -> (r: bool)
        ensures
            r == executable(self@, *instruction),
    {
        let f = &self.condition_codes;
        let hl_ok = (self.registers.get_hl() as usize) < 0xFFFF;
        let push_ok = self.sp >= 2;
        let pop_ok = (self.sp as usize) + 1 < 0xFFFF;
        match *instruction {
            Instruction::ANA(op) | Instruction::XRA(op) | Instruction::ORA(op) | Instruction::CMP(op)
            | Instruction::ADD(op) | Instruction::ADC(op) | Instruction::SUB(op) | Instruction::SBB(op)
            | Instruction::INR(op) | Instruction::DCR(op) | Instruction::MVI(op, _) => {
                Self::byte_operand_ok(op, hl_ok)
            },
            Instruction::MOV(d, s) => Self::byte_operand_ok(d, hl_ok) && Self::byte_operand_ok(s, hl_ok),
            Instruction::LXI(op, _) | Instruction::DAD(op) | Instruction::INX(op) | Instruction::DCX(op) => {
                matches!(op, Operand::B | Operand::D | Operand::H | Operand::SP)
            },
            Instruction::STAX(op) | Instruction::LDAX(op) => {
                matches!(op, Operand::B | Operand::D) && (self.read_pair(op) as usize) < 0xFFFF
            },
            Instruction::STA(addr) | Instruction::LDA(addr) => (addr as usize) < 0xFFFF,
            Instruction::SHLD(addr) | Instruction::LHLD(addr) => (addr as usize) + 1 < 0xFFFF,
            Instruction::PUSH(op) => matches!(op, Operand::B | Operand::D | Operand::H | Operand::PSW) && push_ok,
            Instruction::POP(op) => matches!(op, Operand::B | Operand::D | Operand::H | Operand::PSW) && pop_ok,
            Instruction::CALL(_) | Instruction::RST(_) => push_ok,
            Instruction::CNZ(_) => f.zero || push_ok,
            Instruction::CZ(_) => !f.zero || push_ok,
            Instruction::CNC(_) => f.carry || push_ok,
            Instruction::CC(_) => !f.carry || push_ok,
            Instruction::CPO(_) => f.parity || push_ok,
            Instruction::CPE(_) => !f.parity || push_ok,
            Instruction::CP(_) => f.sign || push_ok,
            Instruction::CM(_) => !f.sign || push_ok,
            Instruction::RET | Instruction::XTHL => pop_ok,
            Instruction::RNZ => f.zero || pop_ok,
            Instruction::RZ => !f.zero || pop_ok,
            Instruction::RNC => f.carry || pop_ok,
            Instruction::RC => !f.carry || pop_ok,
            Instruction::RPO => f.parity || pop_ok,
            Instruction::RPE => !f.parity || pop_ok,
            Instruction::RP => f.sign || pop_ok,
            Instruction::RM => !f.sign || pop_ok,
            _ => true,
        }
    }

    /// A byte operand other than SP and PSW, and for M, H/L inside memory.
    fn byte_operand_ok(op: Operand, hl_ok: bool) -> (r: bool)
        ensures
            r == (is_byte_operand(op) && (op is M ==> hl_ok)),
    {
        match op {
            Operand::SP | Operand::PSW => false,
            Operand::M => hl_ok,
            _ => true,
        }
    }
}


impl Cpu {
    /// Execute one instruction. Returns the address of the instruction to
    /// execute next and the number of cycles taken; the caller stores the
    /// address into `pc`. Conditional calls and returns that are taken cost
    /// six cycles more than `cycles()` reports.
    pub fn execute(&mut self, instruction: &Instruction) -> (r: (u16, u8))
        requires
            executable(old(self)@, *instruction),
        ensures
            final(self)@ == step(old(self)@, *instruction).0,
            r.0 == step(old(self)@, *instruction).1,
            r.1 == step(old(self)@, *instruction).2,
    {
        let next = self.pc.wrapping_add(instruction.size());
        let cycles = instruction.cycles();
        match *instruction {
            Instruction::JMP(_) | Instruction::JC(_) | Instruction::JNC(_) | Instruction::JZ(_)
            | Instruction::JNZ(_) | Instruction::JP(_) | Instruction::JM(_) | Instruction::JPE(_)
            | Instruction::JPO(_) | Instruction::PCHL => {
                self.execute_jump(instruction, next, cycles)
            },
            Instruction::CALL(_) | Instruction::CC(_) | Instruction::CNC(_) | Instruction::CZ(_)
            | Instruction::CNZ(_) | Instruction::CP(_) | Instruction::CM(_) | Instruction::CPE(_)
            | Instruction::CPO(_) | Instruction::RST(_) => self.execute_call(instruction, next, cycles),
            Instruction::RET | Instruction::RC | Instruction::RNC | Instruction::RZ | Instruction::RNZ
            | Instruction::RP | Instruction::RM | Instruction::RPE | Instruction::RPO => {
                self.execute_return(instruction, next, cycles)
            },
            Instruction::ANA(_) | Instruction::XRA(_) | Instruction::ORA(_) | Instruction::CMP(_)
            | Instruction::ANI(_) | Instruction::XRI(_) | Instruction::ORI(_) | Instruction::CPI(_)
            | Instruction::RLC | Instruction::RRC | Instruction::RAL | Instruction::RAR | Instruction::CMA
            | Instruction::STC | Instruction::CMC | Instruction::DAA => {
                self.execute_logic(instruction, next, cycles)
            },
            Instruction::ADD(_) | Instruction::ADC(_) | Instruction::SUB(_) | Instruction::SBB(_)
            | Instruction::ADI(_) | Instruction::ACI(_) | Instruction::SUI(_) | Instruction::SBI(_)
            | Instruction::INR(_) | Instruction::DCR(_) => {
                self.execute_arith(instruction, next, cycles)
            },
            Instruction::PUSH(_) | Instruction::POP(_) | Instruction::XCHG | Instruction::XTHL
            | Instruction::SPHL => self.execute_stack(instruction, next, cycles),
            Instruction::MOV(_, _) | Instruction::MVI(_, _) | Instruction::STAX(_) | Instruction::LDAX(_)
            | Instruction::STA(_) | Instruction::LDA(_) | Instruction::SHLD(_) | Instruction::LHLD(_) => {
                self.execute_move(instruction, next, cycles)
            },
            Instruction::LXI(_, _) | Instruction::DAD(_) | Instruction::INX(_) | Instruction::DCX(_) => {
                self.execute_pair(instruction, next, cycles)
            },
            Instruction::EI => {
                self.ei();
                (next, cycles)
            },
            Instruction::DI => {
                self.di();
                (next, cycles)
            },
            _ => (next, cycles),
        }
    }

    /// Execute one of the jumps.
    fn execute_jump(&mut self, instruction: &Instruction, next: u16, cycles: u8) -> (r: (u16, u8))
        requires
            executable(old(self)@, *instruction),
            group_of(*instruction) == 1,
            cycles == cycles_of(*instruction),
        ensures
            final(self)@ == step_jump(old(self)@, *instruction, next, cycles).0,
            r.0 == step_jump(old(self)@, *instruction, next, cycles).1,
            r.1 == step_jump(old(self)@, *instruction, next, cycles).2,
    {
        match *instruction {
            Instruction::JMP(addr) => (self.jmp(addr), cycles),
            Instruction::JC(addr) => match self.jc(addr) {
                None => (next, cycles),
                Some(next_pc) => (next_pc, cycles),
            },
            Instruction::JNC(addr) => match self.jnc(addr) {
                None => (next, cycles),
                Some(next_pc) => (next_pc, cycles),
            },
            Instruction::JZ(addr) => match self.jz(addr) {
                None => (next, cycles),
                Some(next_pc) => (next_pc, cycles),
            },
            Instruction::JNZ(addr) => match self.jnz(addr) {
                None => (next, cycles),
                Some(next_pc) => (next_pc, cycles),
            },
            Instruction::JP(addr) => match self.jp(addr) {
                None => (next, cycles),
                Some(next_pc) => (next_pc, cycles),
            },
            Instruction::JM(addr) => match self.jm(addr) {
                None => (next, cycles),
                Some(next_pc) => (next_pc, cycles),
            },
            Instruction::JPE(addr) => match self.jpe(addr) {
                None => (next, cycles),
                Some(next_pc) => (next_pc, cycles),
            },
            Instruction::JPO(addr) => match self.jpo(addr) {
                None => (next, cycles),
                Some(next_pc) => (next_pc, cycles),
            },
            Instruction::PCHL => (self.pchl(), cycles),
            _ => (next, cycles),
        }
    }

    /// Execute one of the calls and restarts.
    fn execute_call(&mut self, instruction: &Instruction, next: u16, cycles: u8) -> (r: (u16, u8))
        requires
            executable(old(self)@, *instruction),
            group_of(*instruction) == 2,
            cycles == cycles_of(*instruction),
        ensures
            final(self)@ == step_call(old(self)@, *instruction, next, cycles).0,
            r.0 == step_call(old(self)@, *instruction, next, cycles).1,
            r.1 == step_call(old(self)@, *instruction, next, cycles).2,
    {
        match *instruction {
            Instruction::CALL(addr) => (self.call(addr, next), cycles),
            Instruction::CC(addr) => match self.cc(addr, next) {
                None => (next, cycles),
                Some(next_pc) => (next_pc, cycles + 6),
            },
            Instruction::CNC(addr) => match self.cnc(addr, next) {
                None => (next, cycles),
                Some(next_pc) => (next_pc, cycles + 6),
            },
            Instruction::CZ(addr) => match self.cz(addr, next) {
                None => (next, cycles),
                Some(next_pc) => (next_pc, cycles + 6),
            },
            Instruction::CNZ(addr) => match self.cnz(addr, next) {
                None => (next, cycles),
                Some(next_pc) => (next_pc, cycles + 6),
            },
            Instruction::CP(addr) => match self.cp(addr, next) {
                None => (next, cycles),
                Some(next_pc) => (next_pc, cycles + 6),
            },
            Instruction::CM(addr) => match self.cm(addr, next) {
                None => (next, cycles),
                Some(next_pc) => (next_pc, cycles + 6),
            },
            Instruction::CPE(addr) => match self.cpe(addr, next) {
                None => (next, cycles),
                Some(next_pc) => (next_pc, cycles + 6),
            },
            Instruction::CPO(addr) => match self.cpo(addr, next) {
                None => (next, cycles),
                Some(next_pc) => (next_pc, cycles + 6),
            },
            Instruction::RST(n) => (self.rst(n, next), cycles),
            _ => (next, cycles),
        }
    }

    /// Execute one of the returns.
    fn execute_return(&mut self, instruction: &Instruction, next: u16, cycles: u8) -> (r: (u16, u8))
        requires
            executable(old(self)@, *instruction),
            group_of(*instruction) == 3,
            cycles == cycles_of(*instruction),
        ensures
            final(self)@ == step_return(old(self)@, *instruction, next, cycles).0,
            r.0 == step_return(old(self)@, *instruction, next, cycles).1,
            r.1 == step_return(old(self)@, *instruction, next, cycles).2,
    {
        match *instruction {
            Instruction::RET => (self.ret(), cycles),
            Instruction::RC => match self.rc() {
                None => (next, cycles),
                Some(next_pc) => (next_pc, cycles + 6),
            },
            Instruction::RNC => match self.rnc() {
                None => (next, cycles),
                Some(next_pc) => (next_pc, cycles + 6),
            },
            Instruction::RZ => match self.rz() {
                None => (next, cycles),
                Some(next_pc) => (next_pc, cycles + 6),
            },
            Instruction::RNZ => match self.rnz() {
                None => (next, cycles),
                Some(next_pc) => (next_pc, cycles + 6),
            },
            Instruction::RP => match self.rp() {
                None => (next, cycles),
                Some(next_pc) => (next_pc, cycles + 6),
            },
            Instruction::RM => match self.rm() {
                None => (next, cycles),
                Some(next_pc) => (next_pc, cycles + 6),
            },
            Instruction::RPE => match self.rpe() {
                None => (next, cycles),
                Some(next_pc) => (next_pc, cycles + 6),
            },
            Instruction::RPO => match self.rpo() {
                None => (next, cycles),
                Some(next_pc) => (next_pc, cycles + 6),
            },
            _ => (next, cycles),
        }
    }

    /// Execute one of the logical, compare and rotate instructions, CMA, STC, CMC and DAA.
    fn execute_logic(&mut self, instruction: &Instruction, next: u16, cycles: u8) -> (r: (u16, u8))
        requires
            executable(old(self)@, *instruction),
            group_of(*instruction) == 4,
            cycles == cycles_of(*instruction),
        ensures
            final(self)@ == step_logic(old(self)@, *instruction, next, cycles).0,
            r.0 == step_logic(old(self)@, *instruction, next, cycles).1,
            r.1 == step_logic(old(self)@, *instruction, next, cycles).2,
    {
        match *instruction {
            Instruction::ANA(op) => {
                let val = self.read_operand(op);
                self.ana(val);
                (next, cycles)
            },
            Instruction::XRA(op) => {
                let val = self.read_operand(op);
                self.xra(val);
                (next, cycles)
            },
            Instruction::ORA(op) => {
                let val = self.read_operand(op);
                self.ora(val);
                (next, cycles)
            },
            Instruction::CMP(op) => {
                let val = self.read_operand(op);
                self.cmp(val);
                (next, cycles)
            },
            Instruction::ANI(val) => {
                self.ani(val);
                (next, cycles)
            },
            Instruction::XRI(val) => {
                self.xri(val);
                (next, cycles)
            },
            Instruction::ORI(val) => {
                self.ori(val);
                (next, cycles)
            },
            Instruction::CPI(val) => {
                self.cpi(val);
                (next, cycles)
            },
            Instruction::RLC => {
                self.rlc();
                (next, cycles)
            },
            Instruction::RRC => {
                self.rrc();
                (next, cycles)
            },
            Instruction::RAL => {
                self.ral();
                (next, cycles)
            },
            Instruction::RAR => {
                self.rar();
                (next, cycles)
            },
            Instruction::CMA => {
                self.cma();
                (next, cycles)
            },
            Instruction::STC => {
                self.stc();
                (next, cycles)
            },
            Instruction::CMC => {
                self.cmc();
                (next, cycles)
            },
            Instruction::DAA => {
                self.daa();
                (next, cycles)
            },
            _ => (next, cycles),
        }
    }

    /// Execute one of the arithmetic instructions.
    fn execute_arith(&mut self, instruction: &Instruction, next: u16, cycles: u8) -> (r: (u16, u8))
        requires
            executable(old(self)@, *instruction),
            group_of(*instruction) == 5,
            cycles == cycles_of(*instruction),
        ensures
            final(self)@ == step_arith(old(self)@, *instruction, next, cycles).0,
            r.0 == step_arith(old(self)@, *instruction, next, cycles).1,
            r.1 == step_arith(old(self)@, *instruction, next, cycles).2,
    {
        match *instruction {
            Instruction::ADD(op) => {
                let val = self.read_operand(op);
                self.add(val);
                (next, cycles)
            },
            Instruction::ADC(op) => {
                let val = self.read_operand(op);
                self.adc(val);
                (next, cycles)
            },
            Instruction::SUB(op) => {
                let val = self.read_operand(op);
                self.sub(val);
                (next, cycles)
            },
            Instruction::SBB(op) => {
                let val = self.read_operand(op);
                self.sbb(val);
                (next, cycles)
            },
            Instruction::ADI(val) => {
                self.adi(val);
                (next, cycles)
            },
            Instruction::ACI(val) => {
                self.aci(val);
                (next, cycles)
            },
            Instruction::SUI(val) => {
                self.sui(val);
                (next, cycles)
            },
            Instruction::SBI(val) => {
                self.sbi(val);
                (next, cycles)
            },
            Instruction::INR(op) => {
                self.inr(op);
                (next, cycles)
            },
            Instruction::DCR(op) => {
                self.dcr(op);
                (next, cycles)
            },
            _ => (next, cycles),
        }
    }

    /// Execute one of the stack and exchange instructions.
    fn execute_stack(&mut self, instruction: &Instruction, next: u16, cycles: u8) -> (r: (u16, u8))
        requires
            executable(old(self)@, *instruction),
            group_of(*instruction) == 6,
            cycles == cycles_of(*instruction),
        ensures
            final(self)@ == step_stack(old(self)@, *instruction, next, cycles).0,
            r.0 == step_stack(old(self)@, *instruction, next, cycles).1,
            r.1 == step_stack(old(self)@, *instruction, next, cycles).2,
    {
        match *instruction {
            Instruction::PUSH(op) => {
                self.push(op);
                (next, cycles)
            },
            Instruction::POP(op) => {
                self.pop(op);
                (next, cycles)
            },
            Instruction::XCHG => {
                self.xchg();
                (next, cycles)
            },
            Instruction::XTHL => {
                self.xthl();
                (next, cycles)
            },
            Instruction::SPHL => {
                self.sphl();
                (next, cycles)
            },
            _ => (next, cycles),
        }
    }

    /// Execute one of the byte transfer instructions.
    fn execute_move(&mut self, instruction: &Instruction, next: u16, cycles: u8) -> (r: (u16, u8))
        requires
            executable(old(self)@, *instruction),
            group_of(*instruction) == 7,
            cycles == cycles_of(*instruction),
        ensures
            final(self)@ == step_move(old(self)@, *instruction, next, cycles).0,
            r.0 == step_move(old(self)@, *instruction, next, cycles).1,
            r.1 == step_move(old(self)@, *instruction, next, cycles).2,
    {
        match *instruction {
            Instruction::MOV(dest, src) => {
                self.mov(dest, src);
                (next, cycles)
            },
            Instruction::MVI(dest, val) => {
                self.mvi(dest, val);
                (next, cycles)
            },
            Instruction::STAX(reg) => {
                self.stax(reg);
                (next, cycles)
            },
            Instruction::LDAX(reg) => {
                self.ldax(reg);
                (next, cycles)
            },
            Instruction::STA(addr) => {
                self.sta(addr);
                (next, cycles)
            },
            Instruction::LDA(addr) => {
                self.lda(addr);
                (next, cycles)
            },
            Instruction::SHLD(addr) => {
                self.shld(addr);
                (next, cycles)
            },
            Instruction::LHLD(addr) => {
                self.lhld(addr);
                (next, cycles)
            },
            _ => (next, cycles),
        }
    }

    /// Execute one of the register pair instructions.
    fn execute_pair(&mut self, instruction: &Instruction, next: u16, cycles: u8) -> (r: (u16, u8))
        requires
            executable(old(self)@, *instruction),
            group_of(*instruction) == 8,
            cycles == cycles_of(*instruction),
        ensures
            final(self)@ == step_pair(old(self)@, *instruction, next, cycles).0,
            r.0 == step_pair(old(self)@, *instruction, next, cycles).1,
            r.1 == step_pair(old(self)@, *instruction, next, cycles).2,
    {
        match *instruction {
            Instruction::LXI(dest, val) => {
                self.lxi(dest, val);
                (next, cycles)
            },
            Instruction::DAD(reg) => {
                self.dad(reg);
                (next, cycles)
            },
            Instruction::INX(reg) => {
                self.inx(reg);
                (next, cycles)
            },
            Instruction::DCX(reg) => {
                self.dcx(reg);
                (next, cycles)
            },
            _ => (next, cycles),
        }
    }

}

impl Cpu {
    // ---- jumps -----------------------------------------------------------

    /// Unconditionally jump to the provided address.
    fn jmp(&self, addr: u16) -> (r: u16)
        ensures
            r == addr,
    {
        self.jump(addr)
    }

    /// Jump to the provided address if the carry flag is set.
    fn jc(&self, addr: u16) -> (r: Option<u16>)
        ensures
            r == (if self.condition_codes.carry { Some(addr) } else { None::<u16> }),
    {
        if self.condition_codes.carry {
            Some(self.jump(addr))
        } else {
            None
        }
    }

    /// Jump to the provided address if the carry flag is not set.
    fn jnc(&self, addr: u16) -> (r: Option<u16>)
        ensures
            r == (if !self.condition_codes.carry { Some(addr) } else { None::<u16> }),
    {
        if !self.condition_codes.carry {
            Some(self.jump(addr))
        } else {
            None
        }
    }

    /// Jump to the provided address if the zero flag is set.
    fn jz(&self, addr: u16) -> (r: Option<u16>)
        ensures
            r == (if self.condition_codes.zero { Some(addr) } else { None::<u16> }),
    {
        if self.condition_codes.zero {
            Some(self.jump(addr))
        } else {
            None
        }
    }

    /// Jump to the provided address if the zero flag is not set.
    fn jnz(&self, addr: u16) -> (r: Option<u16>)
        ensures
            r == (if !self.condition_codes.zero { Some(addr) } else { None::<u16> }),
    {
        if !self.condition_codes.zero {
            Some(self.jump(addr))
        } else {
            None
        }
    }

    /// Jump to the provided address if the sign flag is not set.
    fn jp(&self, addr: u16) -> (r: Option<u16>)
        ensures
            r == (if !self.condition_codes.sign { Some(addr) } else { None::<u16> }),
    {
        if !self.condition_codes.sign {
            Some(self.jump(addr))
        } else {
            None
        }
    }

    /// Jump to the provided address if the sign flag is set.
    fn jm(&self, addr: u16) -> (r: Option<u16>)
        ensures
            r == (if self.condition_codes.sign { Some(addr) } else { None::<u16> }),
    {
        if self.condition_codes.sign {
            Some(self.jump(addr))
        } else {
            None
        }
    }

    /// Jump to the provided address if the parity flag is set.
    fn jpe(&self, addr: u16) -> (r: Option<u16>)
        ensures
            r == (if self.condition_codes.parity { Some(addr) } else { None::<u16> }),
    {
        if self.condition_codes.parity {
            Some(self.jump(addr))
        } else {
            None
        }
    }

    /// Jump to the provided address if the parity flag is not set.
    fn jpo(&self, addr: u16) -> (r: Option<u16>)
        ensures
            r == (if !self.condition_codes.parity { Some(addr) } else { None::<u16> }),
    {
        if !self.condition_codes.parity {
            Some(self.jump(addr))
        } else {
            None
        }
    }

    /// All jumps go through here: the program counter becomes `addr`.
    fn jump(&self, addr: u16) -> (r: u16)
        ensures
            r == addr,
    {
        addr
    }

    /// The H/L pair, which PCHL moves into the program counter.
    fn pchl(&self) -> (r: u16)
        ensures
            r == self@.hl(),
    {
        self.registers.get_hl()
    }

    // ---- calls and returns -----------------------------------------------

    /// Call a subroutine, returning to `ret`, if `cond` holds.
    fn call_if(&mut self, cond: bool, addr: u16, ret: u16) -> (r: Option<u16>)
        requires
            cond ==> old(self)@.can_push(),
        ensures
            cond ==> r == Some(addr) && final(self)@ == old(self)@.push_word(ret),
            !cond ==> r == None::<u16> && final(self)@ == old(self)@,
    {
        if cond {
            Some(self.call(addr, ret))
        } else {
            None
        }
    }

    /// Call a subroutine if the carry flag is set.
    fn cc(&mut self, addr: u16, ret: u16) -> (r: Option<u16>)
        requires
            old(self).condition_codes.carry ==> old(self)@.can_push(),
        ensures
            old(self).condition_codes.carry ==> r == Some(addr) && final(self)@ == old(self)@.push_word(ret),
            !old(self).condition_codes.carry ==> r == None::<u16> && final(self)@ == old(self)@,
    {
        let cond = self.condition_codes.carry;
        self.call_if(cond, addr, ret)
    }

    /// Call a subroutine if the carry flag is not set.
    fn cnc(&mut self, addr: u16, ret: u16) -> (r: Option<u16>)
        requires
            !old(self).condition_codes.carry ==> old(self)@.can_push(),
        ensures
            !old(self).condition_codes.carry ==> r == Some(addr) && final(self)@ == old(self)@.push_word(ret),
            old(self).condition_codes.carry ==> r == None::<u16> && final(self)@ == old(self)@,
    {
        let cond = !self.condition_codes.carry;
        self.call_if(cond, addr, ret)
    }

    /// Call a subroutine if the zero flag is set.
    fn cz(&mut self, addr: u16, ret: u16) -> (r: Option<u16>)
        requires
            old(self).condition_codes.zero ==> old(self)@.can_push(),
        ensures
            old(self).condition_codes.zero ==> r == Some(addr) && final(self)@ == old(self)@.push_word(ret),
            !old(self).condition_codes.zero ==> r == None::<u16> && final(self)@ == old(self)@,
    {
        let cond = self.condition_codes.zero;
        self.call_if(cond, addr, ret)
    }

    /// Call a subroutine if the zero flag is not set.
    fn cnz(&mut self, addr: u16, ret: u16) -> (r: Option<u16>)
        requires
            !old(self).condition_codes.zero ==> old(self)@.can_push(),
        ensures
            !old(self).condition_codes.zero ==> r == Some(addr) && final(self)@ == old(self)@.push_word(ret),
            old(self).condition_codes.zero ==> r == None::<u16> && final(self)@ == old(self)@,
    {
        let cond = !self.condition_codes.zero;
        self.call_if(cond, addr, ret)
    }

    /// Call a subroutine if the sign flag is not set.
    fn cp(&mut self, addr: u16, ret: u16) -> (r: Option<u16>)
        requires
            !old(self).condition_codes.sign ==> old(self)@.can_push(),
        ensures
            !old(self).condition_codes.sign ==> r == Some(addr) && final(self)@ == old(self)@.push_word(ret),
            old(self).condition_codes.sign ==> r == None::<u16> && final(self)@ == old(self)@,
    {
        let cond = !self.condition_codes.sign;
        self.call_if(cond, addr, ret)
    }

    /// Call a subroutine if the sign flag is set.
    fn cm(&mut self, addr: u16, ret: u16) -> (r: Option<u16>)
        requires
            old(self).condition_codes.sign ==> old(self)@.can_push(),
        ensures
            old(self).condition_codes.sign ==> r == Some(addr) && final(self)@ == old(self)@.push_word(ret),
            !old(self).condition_codes.sign ==> r == None::<u16> && final(self)@ == old(self)@,
    {
        let cond = self.condition_codes.sign;
        self.call_if(cond, addr, ret)
    }

    /// Call a subroutine if the parity flag is set.
    fn cpe(&mut self, addr: u16, ret: u16) -> (r: Option<u16>)
        requires
            old(self).condition_codes.parity ==> old(self)@.can_push(),
        ensures
            old(self).condition_codes.parity ==> r == Some(addr) && final(self)@ == old(self)@.push_word(ret),
            !old(self).condition_codes.parity ==> r == None::<u16> && final(self)@ == old(self)@,
    {
        let cond = self.condition_codes.parity;
        self.call_if(cond, addr, ret)
    }

    /// Call a subroutine if the parity flag is not set.
    fn cpo(&mut self, addr: u16, ret: u16) -> (r: Option<u16>)
        requires
            !old(self).condition_codes.parity ==> old(self)@.can_push(),
        ensures
            !old(self).condition_codes.parity ==> r == Some(addr) && final(self)@ == old(self)@.push_word(ret),
            old(self).condition_codes.parity ==> r == None::<u16> && final(self)@ == old(self)@,
    {
        let cond = !self.condition_codes.parity;
        self.call_if(cond, addr, ret)
    }

    /// Call a subroutine: push the return address `ret` (high byte at
    /// SP - 1, low byte at SP - 2), lower SP by two and continue at `addr`.
    fn call(&mut self, addr: u16, ret: u16) -> (r: u16)
        requires
            old(self)@.can_push(),
        ensures
            r == addr,
            final(self)@ == old(self)@.push_word(ret),
    {
        self.memory[self.sp as usize - 1] = high_byte(ret);
        self.memory[self.sp as usize - 2] = low_byte(ret);
        self.sp = self.sp.wrapping_sub(2);
        addr
    }

    /// Return if `cond` holds.
    fn ret_if(&mut self, cond: bool) -> (r: Option<u16>)
        requires
            cond ==> old(self)@.can_pop(),
        ensures
            cond ==> r == Some(old(self)@.stack_word()) && final(self)@ == old(self)@.drop_word(),
            !cond ==> r == None::<u16> && final(self)@ == old(self)@,
    {
        if cond {
            Some(self.ret())
        } else {
            None
        }
    }

    /// Return if the carry flag is set.
    fn rc(&mut self) -> (r: Option<u16>)
        requires
            old(self).condition_codes.carry ==> old(self)@.can_pop(),
        ensures
            old(self).condition_codes.carry ==> r == Some(old(self)@.stack_word()) && final(self)@
                == old(self)@.drop_word(),
            !old(self).condition_codes.carry ==> r == None::<u16> && final(self)@ == old(self)@,
    {
        let cond = self.condition_codes.carry;
        self.ret_if(cond)
    }

    /// Return if the carry flag is not set.
    fn rnc(&mut self) -> (r: Option<u16>)
        requires
            !old(self).condition_codes.carry ==> old(self)@.can_pop(),
        ensures
            !old(self).condition_codes.carry ==> r == Some(old(self)@.stack_word()) && final(self)@
                == old(self)@.drop_word(),
            old(self).condition_codes.carry ==> r == None::<u16> && final(self)@ == old(self)@,
    {
        let cond = !self.condition_codes.carry;
        self.ret_if(cond)
    }

    /// Return if the zero flag is set.
    fn rz(&mut self) -> (r: Option<u16>)
        requires
            old(self).condition_codes.zero ==> old(self)@.can_pop(),
        ensures
            old(self).condition_codes.zero ==> r == Some(old(self)@.stack_word()) && final(self)@
                == old(self)@.drop_word(),
            !old(self).condition_codes.zero ==> r == None::<u16> && final(self)@ == old(self)@,
    {
        let cond = self.condition_codes.zero;
        self.ret_if(cond)
    }

    /// Return if the zero flag is not set.
    fn rnz(&mut self) -> (r: Option<u16>)
        requires
            !old(self).condition_codes.zero ==> old(self)@.can_pop(),
        ensures
            !old(self).condition_codes.zero ==> r == Some(old(self)@.stack_word()) && final(self)@
                == old(self)@.drop_word(),
            old(self).condition_codes.zero ==> r == None::<u16> && final(self)@ == old(self)@,
    {
        let cond = !self.condition_codes.zero;
        self.ret_if(cond)
    }

    /// Return if the sign flag is not set.
    fn rp(&mut self) -> (r: Option<u16>)
        requires
            !old(self).condition_codes.sign ==> old(self)@.can_pop(),
        ensures
            !old(self).condition_codes.sign ==> r == Some(old(self)@.stack_word()) && final(self)@
                == old(self)@.drop_word(),
            old(self).condition_codes.sign ==> r == None::<u16> && final(self)@ == old(self)@,
    {
        let cond = !self.condition_codes.sign;
        self.ret_if(cond)
    }

    /// Return if the sign flag is set.
    fn rm(&mut self) -> (r: Option<u16>)
        requires
            old(self).condition_codes.sign ==> old(self)@.can_pop(),
        ensures
            old(self).condition_codes.sign ==> r == Some(old(self)@.stack_word()) && final(self)@
                == old(self)@.drop_word(),
            !old(self).condition_codes.sign ==> r == None::<u16> && final(self)@ == old(self)@,
    {
        let cond = self.condition_codes.sign;
        self.ret_if(cond)
    }

    /// Return if the parity flag is set.
    fn rpe(&mut self) -> (r: Option<u16>)
        requires
            old(self).condition_codes.parity ==> old(self)@.can_pop(),
        ensures
            old(self).condition_codes.parity ==> r == Some(old(self)@.stack_word()) && final(self)@
                == old(self)@.drop_word(),
            !old(self).condition_codes.parity ==> r == None::<u16> && final(self)@ == old(self)@,
    {
        let cond = self.condition_codes.parity;
        self.ret_if(cond)
    }

    /// Return if the parity flag is not set.
    fn rpo(&mut self) -> (r: Option<u16>)
        requires
            !old(self).condition_codes.parity ==> old(self)@.can_pop(),
        ensures
            !old(self).condition_codes.parity ==> r == Some(old(self)@.stack_word()) && final(self)@
                == old(self)@.drop_word(),
            old(self).condition_codes.parity ==> r == None::<u16> && final(self)@ == old(self)@,
    {
        let cond = !self.condition_codes.parity;
        self.ret_if(cond)
    }

    /// Return from a subroutine: pop the return address (low byte at SP,
    /// high byte at SP + 1) and raise SP by two.
    fn ret(&mut self) -> (r: u16)
        requires
            old(self)@.can_pop(),
        ensures
            r == old(self)@.stack_word(),
            final(self)@ == old(self)@.drop_word(),
    {
        let res = join_bytes(self.memory[self.sp as usize + 1], self.memory[self.sp as usize]);
        self.sp = self.sp.wrapping_add(2);
        res
    }

    /// Restart: push the return address `ret` and continue at address 8n.
    fn rst(&mut self, n: u8, ret: u16) -> (r: u16)
        requires
            old(self)@.can_push(),
        ensures
            r == 8 * n,
            final(self)@ == old(self)@.push_word(ret),
    {
        self.call((n as u16) * 8, ret)
    }
}


impl Cpu {
    // ---- stack and register pairs ----------------------------------------

    /// Push a word given as high and low byte onto the stack.
    fn push_bytes(&mut self, hi: u8, lo: u8)
        requires
            old(self)@.can_push(),
        ensures
            final(self)@ == old(self)@.push_bytes(hi, lo),
    {
        self.memory[self.sp as usize - 1] = hi;
        self.memory[self.sp as usize - 2] = lo;
        self.sp = self.sp.wrapping_sub(2);
    }

    /// PUSH: B/C, D/E, H/L, or the accumulator followed by the flags.
    fn push(&mut self, reg: Operand)
        requires
            is_stack_operand(reg),
            old(self)@.can_push(),
        ensures
            final(self)@ == old(self)@.push(reg),
    {
        match reg {
            Operand::B => {
                let res = self.registers.get_bc();
                self.push_bytes(high_byte(res), low_byte(res));
            },
            Operand::D => {
                let res = self.registers.get_de();
                self.push_bytes(high_byte(res), low_byte(res));
            },
            Operand::H => {
                let res = self.registers.get_hl();
                self.push_bytes(high_byte(res), low_byte(res));
            },
            _ => {
                let psw = self.condition_codes.flags_to_psw();
                self.push_bytes(self.registers.a, psw);
            },
        }
    }

    /// POP into B/C, D/E, H/L, or the accumulator and the flags.
    fn pop(&mut self, reg: Operand)
        requires
            is_stack_operand(reg),
            old(self)@.can_pop(),
        ensures
            final(self)@ == old(self)@.pop(reg),
    {
        let lo = self.memory[self.sp as usize];
        let hi = self.memory[self.sp as usize + 1];
        match reg {
            Operand::B => {
                self.registers.c = lo;
                self.registers.b = hi;
            },
            Operand::D => {
                self.registers.e = lo;
                self.registers.d = hi;
            },
            Operand::H => {
                self.registers.l = lo;
                self.registers.h = hi;
            },
            _ => {
                self.registers.a = hi;
                self.condition_codes.psw_to_flags(lo);
            },
        }
        self.sp = self.sp.wrapping_add(2);
    }

    /// The 16-bit value of B/C, D/E, H/L or SP.
    fn read_pair(&self, reg: Operand) -> (r: u16)
        requires
            is_pair_operand(reg),
        ensures
            r == self@.read_pair(reg),
    {
        match reg {
            Operand::B => self.registers.get_bc(),
            Operand::D => self.registers.get_de(),
            Operand::H => self.registers.get_hl(),
            _ => self.sp,
        }
    }

    /// Store a 16-bit value into B/C, D/E, H/L or SP.
    fn write_pair(&mut self, reg: Operand, val: u16)
        requires
            is_pair_operand(reg),
        ensures
            final(self)@ == old(self)@.store_pair(reg, val),
    {
        match reg {
            Operand::B => self.registers.set_bc(val),
            Operand::D => self.registers.set_de(val),
            Operand::H => self.registers.set_hl(val),
            _ => self.sp = val,
        }
    }

    /// DAD: add a register pair to H/L; the carry flag records a carry out
    /// of bit 15.
    fn dad(&mut self, reg: Operand)
        requires
            is_pair_operand(reg),
        ensures
            final(self)@ == old(self)@.double_add(reg),
    {
        let res = self.read_pair(reg);
        let hl = self.registers.get_hl();
        self.condition_codes.set_carry((res as u32 + hl as u32) > 0xFFFF);
        self.registers.set_hl(res.wrapping_add(hl));
    }

    /// DCX: decrement a register pair.
    fn dcx(&mut self, reg: Operand)
        requires
            is_pair_operand(reg),
        ensures
            final(self)@ == old(self)@.store_pair(reg, wrap16(old(self)@.read_pair(reg) - 1)),
    {
        let v = self.read_pair(reg);
        self.write_pair(reg, v.wrapping_sub(1));
    }

    /// INX: increment a register pair.
    fn inx(&mut self, reg: Operand)
        requires
            is_pair_operand(reg),
        ensures
            final(self)@ == old(self)@.store_pair(reg, wrap16(old(self)@.read_pair(reg) + 1)),
    {
        let v = self.read_pair(reg);
        self.write_pair(reg, v.wrapping_add(1));
    }

    /// Enable interrupts: set the interrupt enable flip-flop.
    pub fn ei(&mut self)
        ensures
            final(self)@ == (CpuState { interrupts_enabled: true, ..old(self)@ }),
    {
        self.interrupts_enabled = true;
    }

    /// Disable interrupts: clear the interrupt enable flip-flop.
    pub fn di(&mut self)
        ensures
            final(self)@ == (CpuState { interrupts_enabled: false, ..old(self)@ }),
    {
        self.interrupts_enabled = false;
    }

    /// SPHL: load SP from H/L.
    fn sphl(&mut self)
        ensures
            final(self)@ == (CpuState { sp: old(self)@.hl(), ..old(self)@ }),
    {
        self.sp = self.registers.get_hl();
    }

    /// XTHL: exchange H/L with the word at the top of the stack.
    fn xthl(&mut self)
        requires
            old(self)@.can_pop(),
        ensures
            final(self)@ == old(self)@.exchange_stack(),
    {
        let tmp_h = self.registers.h;
        let tmp_l = self.registers.l;

        self.registers.h = self.memory[self.sp as usize + 1];
        self.registers.l = self.memory[self.sp as usize];
        self.memory[self.sp as usize] = tmp_l;
        self.memory[self.sp as usize + 1] = tmp_h;
    }

    /// XCHG: exchange H/L with D/E.
    fn xchg(&mut self)
        ensures
            final(self)@ == old(self)@.exchange(),
    {
        let temp = self.registers.get_hl();
        let de = self.registers.get_de();
        self.registers.set_hl(de);
        self.registers.set_de(temp);
    }

    /// LXI: load a register pair with immediate data.
    fn lxi(&mut self, dest: Operand, val: u16)
        requires
            is_pair_operand(dest),
        ensures
            final(self)@ == old(self)@.store_pair(dest, val),
    {
        self.write_pair(dest, val)
    }
}


impl Cpu {
    // ---- byte operands ---------------------------------------------------

    /// The byte held by a register or by M (the memory byte H/L addresses).
    fn read_operand(&self, op: Operand) -> (r: u8)
        requires
            self@.readable(op),
        ensures
            r == self@.read(op),
    {
        match op {
            Operand::A => self.registers.a,
            Operand::B => self.registers.b,
            Operand::C => self.registers.c,
            Operand::D => self.registers.d,
            Operand::E => self.registers.e,
            Operand::H => self.registers.h,
            Operand::L => self.registers.l,
            _ => self.memory[self.registers.get_hl() as usize],
        }
    }

    /// Store a byte into a register or into M.
    fn write_operand(&mut self, op: Operand, val: u8)
        requires
            old(self)@.readable(op),
        ensures
            final(self)@ == old(self)@.store(op, val),
    {
        match op {
            Operand::A => self.registers.a = val,
            Operand::B => self.registers.b = val,
            Operand::C => self.registers.c = val,
            Operand::D => self.registers.d = val,
            Operand::E => self.registers.e = val,
            Operand::H => self.registers.h = val,
            Operand::L => self.registers.l = val,
            _ => self.memory[self.registers.get_hl() as usize] = val,
        }
    }

    /// Set zero, sign and parity from a result byte.
    fn set_result_flags(&mut self, val: u8)
        ensures
            final(self)@ == old(self)@.with_flags(
                result_flags(old(self).condition_codes, val),
            ),
    {
        self.condition_codes.set_zero(val);
        self.condition_codes.set_sign(val);
        self.condition_codes.set_parity(val);
    }

    // ---- logical group ---------------------------------------------------

    /// ANA: AND a register or M into the accumulator.
    fn ana(&mut self, val: u8)
        ensures
            final(self)@ == old(self)@.and_with(val),
    {
        self.and(val)
    }

    /// ANI: AND immediate data into the accumulator.
    fn ani(&mut self, val: u8)
        ensures
            final(self)@ == old(self)@.and_with(val),
    {
        self.and(val)
    }

    /// XRA: exclusive-OR a register or M into the accumulator.
    fn xra(&mut self, val: u8)
        ensures
            final(self)@ == old(self)@.xor_with(val),
    {
        self.xor(val)
    }

    /// XRI: exclusive-OR immediate data into the accumulator.
    fn xri(&mut self, val: u8)
        ensures
            final(self)@ == old(self)@.xor_with(val),
    {
        self.xor(val)
    }

    /// ORA: OR a register or M into the accumulator.
    fn ora(&mut self, val: u8)
        ensures
            final(self)@ == old(self)@.or_with(val),
    {
        self.or(val)
    }

    /// ORI: OR immediate data into the accumulator.
    fn ori(&mut self, val: u8)
        ensures
            final(self)@ == old(self)@.or_with(val),
    {
        self.or(val)
    }

    /// CMP: compare a register or M with the accumulator.
    fn cmp(&mut self, val: u8)
        ensures
            final(self)@ == old(self)@.compare_with(val),
    {
        self.compare(val)
    }

    /// CPI: compare immediate data with the accumulator.
    fn cpi(&mut self, val: u8)
        ensures
            final(self)@ == old(self)@.compare_with(val),
    {
        self.compare(val)
    }

    /// AND `val` into the accumulator. The carry is reset; the auxiliary
    /// carry reflects bit 3 of the OR of the two operands.
    fn and(&mut self, val: u8)
        ensures
            final(self)@ == old(self)@.and_with(val),
    {
        let aux_carry = ((self.registers.a | val) & 0x8) == 0x8;
        self.registers.a = self.registers.a & val;

        self.condition_codes.reset_carry();
        self.set_result_flags(self.registers.a);
        self.condition_codes.set_aux_carry(aux_carry);
    }

    /// Exclusive-OR `val` into the accumulator; carry and auxiliary carry
    /// are reset.
    fn xor(&mut self, val: u8)
        ensures
            final(self)@ == old(self)@.xor_with(val),
    {
        self.registers.a = self.registers.a ^ val;

        self.condition_codes.reset_carry();
        self.set_result_flags(self.registers.a);
        self.condition_codes.set_aux_carry(false);
    }

    /// OR `val` into the accumulator; carry and auxiliary carry are reset.
    fn or(&mut self, val: u8)
        ensures
            final(self)@ == old(self)@.or_with(val),
    {
        self.registers.a = self.registers.a | val;

        self.condition_codes.reset_carry();
        self.set_result_flags(self.registers.a);
        self.condition_codes.set_aux_carry(false);
    }

    /// Compare `val` with the accumulator by an internal subtraction that
    /// leaves the accumulator unchanged. Carry is set when `val` exceeds the
    /// accumulator; zero when the two are equal.
    #[verifier::rlimit(40)]
    fn compare(&mut self, val: u8)
        ensures
            final(self)@ == old(self)@.compare_with(val),
    {
        let a = self.registers.a;
        let diff = a.wrapping_sub(val);
        assert((a < diff) == (val > a));

        self.condition_codes.set_carry(a < diff);
        self.condition_codes.set_zero(diff);
        self.condition_codes.set_sign(a);
        self.condition_codes.set_parity(a);
        proof {
            lemma_low_nibble(a);
            lemma_low_nibble(diff);
        }
        self.condition_codes.set_aux_carry((a & 0xF) < (diff & 0xF));
    }

    // ---- rotate group ----------------------------------------------------

    /// RLC: rotate the accumulator left; the high-order bit goes to bit 0
    /// and to the carry.
    fn rlc(&mut self)
        ensures
            final(self)@ == old(self)@.rotate_left(),
    {
        let a = self.registers.a;
        let carry = (a & 0x80) >> 7u8;
        self.registers.a = a << 1u8 | carry;
        proof {
            lemma_rotate_left(a, self.registers.a);
        }
        self.condition_codes.carry = (self.registers.a & 0x1) > 0;
    }

    /// RRC: rotate the accumulator right; the low-order bit goes to bit 7
    /// and to the carry.
    fn rrc(&mut self)
        ensures
            final(self)@ == old(self)@.rotate_right(),
    {
        let a = self.registers.a;
        let low_bit = a & 0x01;
        self.registers.a = a >> 1u8 | (low_bit << 7u8);
        proof {
            lemma_rotate_right(a, self.registers.a);
        }
        self.condition_codes.carry = low_bit == 1;
    }

    /// RAL: rotate the accumulator left through the carry.
    fn ral(&mut self)
        ensures
            final(self)@ == old(self)@.rotate_left_carry(),
    {
        let a = self.registers.a;
        let carry_bit: u8 = if self.condition_codes.carry { 1 } else { 0 };
        let high_bit = a & 0x80;
        self.registers.a = (a << 1u8) | carry_bit;
        proof {
            lemma_rotate_left_carry(a, carry_bit, self.registers.a);
        }
        self.condition_codes.carry = high_bit == 0x80;
    }

    /// RAR: rotate the accumulator right through the carry.
    fn rar(&mut self)
        ensures
            final(self)@ == old(self)@.rotate_right_carry(),
    {
        let a = self.registers.a;
        let carry_bit: u8 = if self.condition_codes.carry { 1 } else { 0 };
        let low_bit = a & 0x1;
        self.registers.a = (a >> 1u8) | (carry_bit << 7u8);
        proof {
            lemma_rotate_right_carry(a, carry_bit, self.registers.a);
        }
        self.condition_codes.carry = low_bit == 0x1;
    }

    /// CMA: complement the accumulator.
    fn cma(&mut self)
        ensures
            final(self)@ == old(self)@.with_a((255 - old(self).registers.a) as u8),
    {
        proof {
            lemma_complement(self.registers.a);
        }
        self.registers.a = !self.registers.a
    }

    /// STC: set the carry.
    fn stc(&mut self)
        ensures
            final(self)@ == old(self)@.with_flags(
                ConditionCodes { carry: true, ..old(self).condition_codes },
            ),
    {
        self.condition_codes.carry = true
    }

    /// CMC: complement the carry.
    fn cmc(&mut self)
        ensures
            final(self)@ == old(self)@.with_flags(
                ConditionCodes { carry: !old(self).condition_codes.carry, ..old(self).condition_codes },
            ),
    {
        self.condition_codes.carry = !self.condition_codes.carry
    }

    /// DAA: adjust the accumulator to two binary-coded decimal digits.
    /// When the low digit exceeds 9 or the auxiliary carry is set, six is
    /// added (the auxiliary carry then records a carry out of bit 3); when
    /// the high digit then exceeds 9 or the carry is set, 0x60 is added (a
    /// carry out of bit 7 sets the carry, which is otherwise unaffected).
    fn daa(&mut self)
        ensures
            final(self)@ == old(self)@.decimal_adjust(),
    {
        let a0 = self.registers.a;
        proof {
            lemma_daa_low(a0, wrap8(a0 + 6));
        }
        if (self.registers.a & 0x0F > 0x9) || self.condition_codes.aux_carry {
            let high_bit = self.registers.a & 0x8;
            self.registers.a = self.registers.a.wrapping_add(0x6);
            self.condition_codes.aux_carry = (self.registers.a & 0x8) < high_bit;
        }
        let a1 = self.registers.a;
        proof {
            lemma_daa_high(a1, wrap8(a1 + 0x60));
        }
        if (self.registers.a & 0xF0 > 0x90) || self.condition_codes.carry {
            let high_bit = (self.registers.a >> 4u8) & 0x8;
            self.registers.a = self.registers.a.wrapping_add(0x60);
            if ((self.registers.a >> 4u8) & 0x8) < high_bit {
                self.condition_codes.set_carry(true);
            }
        }
        self.set_result_flags(self.registers.a);
    }

    // ---- arithmetic group ------------------------------------------------

    /// Add `val` and a carry-in to the accumulator.
    fn add_carry_in(&mut self, val: u8, carry: u8)
        requires
            carry <= 1,
        ensures
            final(self)@ == old(self)@.add_with(val, carry as int),
    {
        let reg_a = self.registers.a;
        let res: u16 = (reg_a as u16).wrapping_add(val as u16).wrapping_add(carry as u16);
        let res8 = (res % 256) as u8;
        self.registers.a = res8;
        self.set_result_flags(res8);
        self.condition_codes.set_carry(res > 0xFF);
        proof {
            lemma_low_nibble(reg_a);
            lemma_low_nibble(val);
            lemma_low_nibble(carry);
        }
        self.condition_codes.set_aux_carry((reg_a & 0xF) + (val & 0xF) + (carry & 0xF) > 0xF);
    }

    /// ADD: add a register or M to the accumulator.
    fn add(&mut self, val: u8)
        ensures
            final(self)@ == old(self)@.add_with(val, 0),
    {
        self.add_carry_in(val, 0)
    }

    /// ADC: add a register or M plus the carry to the accumulator.
    fn adc(&mut self, val: u8)
        ensures
            final(self)@ == old(self)@.add_with(val, if old(self).condition_codes.carry { 1 } else { 0 }),
    {
        let carry: u8 = if self.condition_codes.carry { 1 } else { 0 };
        self.add_carry_in(val, carry)
    }

    /// SUB: subtract a register or M from the accumulator. The carry is set
    /// when a borrow occurs.
    fn sub(&mut self, val: u8)
        ensures
            final(self)@ == old(self)@.sub_with(val),
    {
        let reg_a = self.registers.a;
        let res = reg_a.wrapping_sub(val);
        self.registers.a = res;
        self.set_result_flags(res);
        self.condition_codes.set_carry(reg_a < val);
        proof {
            lemma_low_nibble(reg_a);
            lemma_low_nibble(val);
        }
        self.condition_codes.set_aux_carry((reg_a & 0xF) >= (val & 0xF));
    }

    /// SBB: subtract a register or M and the carry from the accumulator.
    fn sbb(&mut self, val: u8)
        ensures
            final(self)@ == old(self)@.sbb_with(val),
    {
        let reg_a = self.registers.a;
        let borrow: u8 = if self.condition_codes.carry { 1 } else { 0 };
        let res = reg_a.wrapping_sub(val).wrapping_sub(borrow);
        self.registers.a = res;
        self.set_result_flags(res);
        self.condition_codes.set_carry((reg_a as u16) < (val as u16) + (borrow as u16));
        self.condition_codes.set_aux_carry((reg_a & 0xF) >= (val & (0xF - borrow)));
    }

    /// ADI: add immediate data to the accumulator.
    fn adi(&mut self, val: u8)
        ensures
            final(self)@ == old(self)@.add_with(val, 0),
    {
        self.add(val);
    }

    /// ACI: add immediate data plus the carry to the accumulator.
    fn aci(&mut self, val: u8)
        ensures
            final(self)@ == old(self)@.add_with(val, if old(self).condition_codes.carry { 1 } else { 0 }),
    {
        self.adc(val);
    }

    /// SUI: subtract immediate data from the accumulator.
    fn sui(&mut self, val: u8)
        ensures
            final(self)@ == old(self)@.sub_with(val),
    {
        self.sub(val);
    }

    /// SBI: subtract immediate data and the carry from the accumulator.
    fn sbi(&mut self, val: u8)
        ensures
            final(self)@ == old(self)@.sbb_with(val),
    {
        self.sbb(val);
    }

    /// INR: increment a register or M. Zero, sign, parity and auxiliary
    /// carry are affected; the carry is not.
    fn inr(&mut self, reg: Operand)
        requires
            old(self)@.readable(reg),
        ensures
            final(self)@ == old(self)@.increment(reg),
    {
        let res = self.read_operand(reg).wrapping_add(1);
        self.write_operand(reg, res);
        self.set_result_flags(res);
        proof {
            lemma_low_nibble(res);
        }
        self.condition_codes.set_aux_carry((res & 0xF) == 0x0);
    }

    /// DCR: decrement a register or M. Zero, sign, parity and auxiliary
    /// carry are affected; the carry is not.
    fn dcr(&mut self, reg: Operand)
        requires
            old(self)@.readable(reg),
        ensures
            final(self)@ == old(self)@.decrement(reg),
    {
        let res = self.read_operand(reg).wrapping_sub(1);
        self.write_operand(reg, res);
        self.set_result_flags(res);
        proof {
            lemma_low_nibble(res);
        }
        self.condition_codes.set_aux_carry((res & 0xF) == 0xF);
    }

    // ---- data transfer group ---------------------------------------------

    /// MOV: copy a register or M into a register or M.
    fn mov(&mut self, dest: Operand, src: Operand)
        requires
            old(self)@.readable(dest),
            old(self)@.readable(src),
        ensures
            final(self)@ == old(self)@.store(dest, old(self)@.read(src)),
    {
        let val = self.read_operand(src);
        self.write_operand(dest, val);
    }

    /// MVI: store immediate data into a register or M.
    fn mvi(&mut self, dest: Operand, val: u8)
        requires
            old(self)@.readable(dest),
        ensures
            final(self)@ == old(self)@.store(dest, val),
    {
        self.write_operand(dest, val);
    }

    /// STAX: store the accumulator at the address in B/C or D/E.
    fn stax(&mut self, reg: Operand)
        requires
            reg is B || reg is D,
            old(self)@.addressable(old(self)@.read_pair(reg) as int),
        ensures
            final(self)@ == old(self)@.write(old(self)@.read_pair(reg) as int, old(self).registers.a),
    {
        let addr = self.read_pair(reg);
        self.memory[addr as usize] = self.registers.a;
    }

    /// LDAX: load the accumulator from the address in B/C or D/E.
    fn ldax(&mut self, reg: Operand)
        requires
            reg is B || reg is D,
            old(self)@.addressable(old(self)@.read_pair(reg) as int),
        ensures
            final(self)@ == old(self)@.with_a(old(self)@.memory[old(self)@.read_pair(reg) as int]),
    {
        let addr = self.read_pair(reg);
        self.registers.a = self.memory[addr as usize];
    }

    /// STA: store the accumulator at `addr`.
    fn sta(&mut self, addr: u16)
        requires
            old(self)@.addressable(addr as int),
        ensures
            final(self)@ == old(self)@.write(addr as int, old(self).registers.a),
    {
        self.memory[addr as usize] = self.registers.a;
    }

    /// LDA: load the accumulator from `addr`.
    fn lda(&mut self, addr: u16)
        requires
            old(self)@.addressable(addr as int),
        ensures
            final(self)@ == old(self)@.with_a(old(self)@.memory[addr as int]),
    {
        self.registers.a = self.memory[addr as usize];
    }

    /// SHLD: store L at `addr` and H at `addr + 1`.
    fn shld(&mut self, addr: u16)
        requires
            old(self)@.addressable(addr + 1),
        ensures
            final(self)@ == old(self)@.write(addr as int, old(self).registers.l).write(
                addr + 1,
                old(self).registers.h,
            ),
    {
        self.memory[addr as usize] = self.registers.l;
        self.memory[addr as usize + 1] = self.registers.h;
    }

    /// LHLD: load L from `addr` and H from `addr + 1`.
    fn lhld(&mut self, addr: u16)
        requires
            old(self)@.addressable(addr + 1),
        ensures
            final(self)@ == old(self)@.with_registers(
                Registers {
                    l: old(self)@.memory[addr as int],
                    h: old(self)@.memory[addr + 1],
                    ..old(self).registers
                },
            ),
    {
        self.registers.l = self.memory[addr as usize];
        self.registers.h = self.memory[addr as usize + 1];
    }
}

/// Every instruction takes between 4 and 18 cycles.
proof fn lemma_step_cycles(s: CpuState, i: Instruction)
    ensures
        4 <= step(s, i).2 <= 18,
{
}

/// One more machine step extends a frame that has not reached its budget.
proof fn lemma_frame_step(
    s0: CpuState,
    b0: IoState,
    budget: nat,
    n: nat,
    spent: nat,
    b: IoState,
)
    requires
        frame_prefix(s0, b0, budget, n),
        run(s0, b0, n).1 == b,
        run(s0, b0, n).2 == spent,
        spent < budget,
        can_run(run(s0, b0, n).0, b),
    ensures
        frame_prefix(s0, b0, budget, n + 1),
        run(s0, b0, n + 1) == ({
            let (t, c, cyc) = machine_step(run(s0, b0, n).0, b);
            (t, c, spent + cyc as nat)
        }),
{
    assert forall|k: nat| k < n + 1 implies #[trigger] run(s0, b0, k).2 < budget && can_run(
        run(s0, b0, k).0,
        run(s0, b0, k).1,
    ) by {
        if k < n {
            assert(frame_prefix(s0, b0, budget, n));
        }
    }
}

impl Cpu {
    // ---- running on the Space Invaders board -----------------------------

    /// The instruction at the program counter, if its whole encoding lies
    /// in memory.
    fn fetch(&self) -> (r: Option<Instruction>)
        ensures
            r is Some <==> fetchable(self@),
            r is Some ==> r->0 == fetched(self@),
    {
        let pc = self.pc as usize;
        if pc >= 0xFFFF {
            return None;
        }
        let len = Instruction::encoded_length(self.memory[pc]);
        if 0xFFFF - pc < len {
            return None;
        }
        let bytes = &self.memory.as_slice()[pc..0xFFFF];
        Some(Instruction::from(bytes))
    }

    /// Whether `instruction` can run on the board (see `board_ready`).
    fn can_execute_on(&self, instruction: &Instruction) -> (r: bool)
        ensures
            r == board_ready(self@, *instruction),
    {
        self.can_execute(instruction) && match *instruction {
            Instruction::IN(port) => port <= 3,
            Instruction::OUT(port) => 2 <= port && port <= 6,
            _ => true,
        }
    }

    /// Execute one instruction on the Space Invaders board: IN loads the
    /// accumulator from an input port of `board`, OUT sends the accumulator
    /// to an output port of `board`, every other instruction runs as in
    /// `execute`. Returns the next address and the cycles taken.
    pub fn execute_on(&mut self, instruction: &Instruction, board: &mut SpaceInvadersIO) -> (r: (
        u16,
        u8,
    ))
        requires
            board_ready(old(self)@, *instruction),
        ensures
            (final(self)@, final(board)@, r.0, r.1) == board_step(
                old(self)@,
                old(board)@,
                *instruction,
            ),
    {
        let r = self.execute(instruction);
        match *instruction {
            Instruction::IN(port) => {
                self.registers.a = board.machine_in(port);
            },
            Instruction::OUT(port) => {
                board.machine_out(port, self.registers.a);
            },
            _ => {},
        }
        r
    }

    /// Take one machine step: run `instruction`, the instruction at the
    /// program counter, on the board and move the program counter on.
    /// Returns the cycles taken.
    fn step_on(&mut self, instruction: &Instruction, board: &mut SpaceInvadersIO) -> (r: u8)
        requires
            fetchable(old(self)@),
            fetched(old(self)@) == *instruction,
            board_ready(old(self)@, *instruction),
        ensures
            (final(self)@, final(board)@, r) == machine_step(old(self)@, old(board)@),
            4 <= r <= 18,
    {
        proof {
            lemma_machine_step(self@, board@);
            lemma_step_cycles(self@, *instruction);
        }
        let (next, cycles) = self.execute_on(instruction, board);
        self.pc = next;
        cycles
    }

    /// Run the machine for one frame: execute instructions at the program
    /// counter (moving it on after each) until at least `budget` cycles
    /// have passed, and return `Ok` of the cycles spent. Stops early with
    /// `Err` of the program counter when the instruction there runs past
    /// the end of memory or cannot run on the board.
    pub fn run_frame(&mut self, board: &mut SpaceInvadersIO, budget: u32) -> (r: Result<u64, u16>)
        ensures
            exists|n: nat|
                {
                    &&& frame_prefix(old(self)@, old(board)@, budget as nat, n)
                    &&& run(old(self)@, old(board)@, n).0 == final(self)@
                    &&& run(old(self)@, old(board)@, n).1 == final(board)@
                    &&& match r {
                        Ok(spent) => spent == run(old(self)@, old(board)@, n).2 && spent >= budget,
                        Err(pc) => {
                            &&& run(old(self)@, old(board)@, n).2 < budget
                            &&& pc == final(self).pc
                            &&& !can_run(final(self)@, final(board)@)
                        },
                    }
                },
    {
        let ghost s0 = self@;
        let ghost b0 = board@;
        let ghost mut n: nat = 0;
        let mut spent: u64 = 0;
        while spent < budget as u64
            invariant
                spent < budget as u64 + 24,
                run(s0, b0, n) == (self@, board@, spent as nat),
                frame_prefix(s0, b0, budget as nat, n),
                s0 == old(self)@,
                b0 == old(board)@,
            decreases budget as u64 + 24 - spent,
        {
            let instruction = match self.fetch() {
                Some(i) => i,
                None => {
                    proof {
                        assert(frame_prefix(s0, b0, budget as nat, n) && run(s0, b0, n).2 < budget);
                    }
                    return Err(self.pc);
                },
            };
            if !self.can_execute_on(&instruction) {
                proof {
                    assert(frame_prefix(s0, b0, budget as nat, n) && run(s0, b0, n).2 < budget);
                }
                return Err(self.pc);
            }
            let ghost board_before = board@;
            let cycles = self.step_on(&instruction, board);
            proof {
                lemma_frame_step(s0, b0, budget as nat, n, spent as nat, board_before);
                n = n + 1;
            }
            spent = spent + cycles as u64;
        }
        Ok(spent)
    }
}

} // verus!
