use vstd::prelude::*;
use vstd::string::StringExecFns;

verus! {

/// A register, register pair, memory reference (M, the byte addressed by
/// H/L), stack pointer or processor status word named by an instruction.
#[derive(Copy, Clone, Debug, PartialEq, Eq, Structural)]
pub enum Operand {
    A,
    B,
    C,
    D,
    E,
    H,
    L,
    M,
    SP,
    PSW,
}

/// A decoded 8080 instruction with its immediate data.
#[derive(Copy, Clone, Debug, PartialEq, Eq, Structural)]
pub enum Instruction {
    NOP,
    JMP(u16),
    PUSH(Operand),
    MVI(Operand, u8),
    STA(u16),
    LXI(Operand, u16),
    STAX(Operand),
    INX(Operand),
    INR(Operand),
    DCR(Operand),
    RLC,
    DAD(Operand),
    LDAX(Operand),
    DCX(Operand),
    RRC,
    RAL,
    RAR,
    SHLD(u16),
    DAA,
    LHLD(u16),
    CMA,
    STC,
    LDA(u16),
    CMC,
    MOV(Operand, Operand),
    HLT,
    ADD(Operand),
    ANA(Operand),
    ADC(Operand),
    SUB(Operand),
    SBB(Operand),
    XRA(Operand),
    ACI(u8),
    ADI(u8),
    ANI(u8),
    CALL(u16),
    CC(u16),
    CM(u16),
    CMP(Operand),
    CNC(u16),
    CP(u16),
    CPE(u16),
    CPI(u8),
    CPO(u16),
    CNZ(u16),
    CZ(u16),
    DI,
    EI,
    IN(u8),
    JC(u16),
    JM(u16),
    JNC(u16),
    JNZ(u16),
    JP(u16),
    JPE(u16),
    JPO(u16),
    JZ(u16),
    ORA(Operand),
    ORI(u8),
    OUT(u8),
    PCHL,
    POP(Operand),
    RC,
    RET,
    RM,
    RNC,
    RNZ,
    RP,
    RPE,
    RPO,
    RST(u8),
    RZ,
    SBI(u8),
    SPHL,
    SUI(u8),
    XCHG,
    XRI(u8),
    XTHL,
}

// ---------------------------------------------------------------------------
// The instruction encoding. An opcode is read as the fields
// x = bits 7..6, y = bits 5..3, z = bits 2..0, and y splits into
// p = bits 5..4 and q = bit 3.

pub open spec fn op_x(op: u8) -> int {
    op as int / 64
}

pub open spec fn op_y(op: u8) -> int {
    op as int / 8 % 8
}

pub open spec fn op_z(op: u8) -> int {
    op as int % 8
}

/// The register (or M) named by a three-bit field.
pub open spec fn reg_operand(k: int) -> Operand {
    if k == 0 {
        Operand::B
    } else if k == 1 {
        Operand::C
    } else if k == 2 {
        Operand::D
    } else if k == 3 {
        Operand::E
    } else if k == 4 {
        Operand::H
    } else if k == 5 {
        Operand::L
    } else if k == 6 {
        Operand::M
    } else {
        Operand::A
    }
}

/// The register pair named by a two-bit field (LXI, DAD, INX, DCX).
pub open spec fn pair_operand(k: int) -> Operand {
    if k == 0 {
        Operand::B
    } else if k == 1 {
        Operand::D
    } else if k == 2 {
        Operand::H
    } else {
        Operand::SP
    }
}

/// The register pair named by a two-bit field in PUSH and POP.
pub open spec fn stack_operand(k: int) -> Operand {
    if k == 0 {
        Operand::B
    } else if k == 1 {
        Operand::D
    } else if k == 2 {
        Operand::H
    } else {
        Operand::PSW
    }
}

/// The one-byte immediate operand following an opcode.
pub open spec fn imm8_of(bytes: Seq<u8>) -> u8 {
    bytes[1]
}

/// The two-byte little-endian immediate operand following an opcode.
pub open spec fn imm16_of(bytes: Seq<u8>) -> u16 {
    (bytes[1] as int + 256 * bytes[2] as int) as u16
}

/// Accumulator operation with a register or memory operand.
pub open spec fn alu_register(y: int, r: Operand) -> Instruction {
    if y == 0 {
        Instruction::ADD(r)
    } else if y == 1 {
        Instruction::ADC(r)
    } else if y == 2 {
        Instruction::SUB(r)
    } else if y == 3 {
        Instruction::SBB(r)
    } else if y == 4 {
        Instruction::ANA(r)
    } else if y == 5 {
        Instruction::XRA(r)
    } else if y == 6 {
        Instruction::ORA(r)
    } else {
        Instruction::CMP(r)
    }
}

/// Accumulator operation with an immediate operand.
pub open spec fn alu_immediate(y: int, v: u8) -> Instruction {
    if y == 0 {
        Instruction::ADI(v)
    } else if y == 1 {
        Instruction::ACI(v)
    } else if y == 2 {
        Instruction::SUI(v)
    } else if y == 3 {
        Instruction::SBI(v)
    } else if y == 4 {
        Instruction::ANI(v)
    } else if y == 5 {
        Instruction::XRI(v)
    } else if y == 6 {
        Instruction::ORI(v)
    } else {
        Instruction::CPI(v)
    }
}

/// Conditional return; the condition field is NZ, Z, NC, C, PO, PE, P, M.
pub open spec fn return_if(y: int) -> Instruction {
    if y == 0 {
        Instruction::RNZ
    } else if y == 1 {
        Instruction::RZ
    } else if y == 2 {
        Instruction::RNC
    } else if y == 3 {
        Instruction::RC
    } else if y == 4 {
        Instruction::RPO
    } else if y == 5 {
        Instruction::RPE
    } else if y == 6 {
        Instruction::RP
    } else {
        Instruction::RM
    }
}

/// Conditional jump.
pub open spec fn jump_if(y: int, a: u16) -> Instruction {
    if y == 0 {
        Instruction::JNZ(a)
    } else if y == 1 {
        Instruction::JZ(a)
    } else if y == 2 {
        Instruction::JNC(a)
    } else if y == 3 {
        Instruction::JC(a)
    } else if y == 4 {
        Instruction::JPO(a)
    } else if y == 5 {
        Instruction::JPE(a)
    } else if y == 6 {
        Instruction::JP(a)
    } else {
        Instruction::JM(a)
    }
}

/// Conditional call.
pub open spec fn call_if(y: int, a: u16) -> Instruction {
    if y == 0 {
        Instruction::CNZ(a)
    } else if y == 1 {
        Instruction::CZ(a)
    } else if y == 2 {
        Instruction::CNC(a)
    } else if y == 3 {
        Instruction::CC(a)
    } else if y == 4 {
        Instruction::CPO(a)
    } else if y == 5 {
        Instruction::CPE(a)
    } else if y == 6 {
        Instruction::CP(a)
    } else {
        Instruction::CM(a)
    }
}

/// The instruction that a byte sequence starting with an opcode encodes.
/// Undocumented opcodes decode as their documented aliases (NOP, JMP,
/// RET, CALL).
pub open spec fn decoded(bytes: Seq<u8>) -> Instruction {
    let op = bytes[0];
    let (x, y, z) = (op_x(op), op_y(op), op_z(op));
    let (p, q) = (y / 2, y % 2);
    let d8 = imm8_of(bytes);
    let d16 = imm16_of(bytes);
    if x == 0 {
        if z == 0 {
            Instruction::NOP
        } else if z == 1 {
            if q == 0 {
                Instruction::LXI(pair_operand(p), d16)
            } else {
                Instruction::DAD(pair_operand(p))
            }
        } else if z == 2 {
            if y == 0 {
                Instruction::STAX(Operand::B)
            } else if y == 1 {
                Instruction::LDAX(Operand::B)
            } else if y == 2 {
                Instruction::STAX(Operand::D)
            } else if y == 3 {
                Instruction::LDAX(Operand::D)
            } else if y == 4 {
                Instruction::SHLD(d16)
            } else if y == 5 {
                Instruction::LHLD(d16)
            } else if y == 6 {
                Instruction::STA(d16)
            } else {
                Instruction::LDA(d16)
            }
        } else if z == 3 {
            if q == 0 {
                Instruction::INX(pair_operand(p))
            } else {
                Instruction::DCX(pair_operand(p))
            }
        } else if z == 4 {
            Instruction::INR(reg_operand(y))
        } else if z == 5 {
            Instruction::DCR(reg_operand(y))
        } else if z == 6 {
            Instruction::MVI(reg_operand(y), d8)
        } else if y == 0 {
            Instruction::RLC
        } else if y == 1 {
            Instruction::RRC
        } else if y == 2 {
            Instruction::RAL
        } else if y == 3 {
            Instruction::RAR
        } else if y == 4 {
            Instruction::DAA
        } else if y == 5 {
            Instruction::CMA
        } else if y == 6 {
            Instruction::STC
        } else {
            Instruction::CMC
        }
    } else if x == 1 {
        if op == 0x76 {
            Instruction::HLT
        } else {
            Instruction::MOV(reg_operand(y), reg_operand(z))
        }
    } else if x == 2 {
        alu_register(y, reg_operand(z))
    } else if z == 0 {
        return_if(y)
    } else if z == 1 {
        if q == 0 {
            Instruction::POP(stack_operand(p))
        } else if p <= 1 {
            Instruction::RET
        } else if p == 2 {
            Instruction::PCHL
        } else {
            Instruction::SPHL
        }
    } else if z == 2 {
        jump_if(y, d16)
    } else if z == 3 {
        if y <= 1 {
            Instruction::JMP(d16)
        } else if y == 2 {
            Instruction::OUT(d8)
        } else if y == 3 {
            Instruction::IN(d8)
        } else if y == 4 {
            Instruction::XTHL
        } else if y == 5 {
            Instruction::XCHG
        } else if y == 6 {
            Instruction::DI
        } else {
            Instruction::EI
        }
    } else if z == 4 {
        call_if(y, d16)
    } else if z == 5 {
        if q == 0 {
            Instruction::PUSH(stack_operand(p))
        } else {
            Instruction::CALL(d16)
        }
    } else if z == 6 {
        alu_immediate(y, d8)
    } else {
        Instruction::RST(y as u8)
    }
}

/// Number of bytes (opcode and immediate data) that the encoding starting
/// with opcode `op` occupies.
pub open spec fn encoded_len(op: u8) -> nat {
    let (x, y, z) = (op_x(op), op_y(op), op_z(op));
    if x == 0 {
        if (z == 1 && y % 2 == 0) || (z == 2 && y >= 4) {
            3
        } else if z == 6 {
            2
        } else {
            1
        }
    } else if x == 3 {
        if z == 2 || z == 4 || (z == 3 && y <= 1) || (z == 5 && y % 2 == 1) {
            3
        } else if z == 6 || (z == 3 && (y == 2 || y == 3)) {
            2
        } else {
            1
        }
    } else {
        1
    }
}

/// The size in bytes that `size` reports for an instruction.
pub open spec fn size_of(i: Instruction) -> u16 {
    match i {
        Instruction::JMP(_) | Instruction::STA(_) | Instruction::LXI(_, _) | Instruction::SHLD(_)
        | Instruction::LHLD(_) | Instruction::LDA(_) | Instruction::CALL(_) | Instruction::CC(_)
        | Instruction::CNC(_) | Instruction::CZ(_) | Instruction::CNZ(_) | Instruction::CP(_)
        | Instruction::CM(_) | Instruction::CPE(_) | Instruction::CPO(_) | Instruction::JC(_)
        | Instruction::JNC(_) | Instruction::JZ(_) | Instruction::JNZ(_) | Instruction::JP(_)
        | Instruction::JM(_) | Instruction::JPE(_) | Instruction::JPO(_) => 3,
        Instruction::MVI(_, _) | Instruction::ADI(_) | Instruction::ACI(_) | Instruction::SUI(_)
        | Instruction::SBI(_) | Instruction::ANI(_) | Instruction::XRI(_) | Instruction::ORI(_) | Instruction::CPI(_)
        | Instruction::IN(_) | Instruction::OUT(_) => 2,
        _ => 1,
    }
}

/// The cycle count that `cycles` reports for an instruction (for
/// conditional calls and returns, the count when the condition fails).
pub open spec fn cycles_of(i: Instruction) -> u8 {
    match i {
        Instruction::NOP | Instruction::RLC | Instruction::RRC | Instruction::RAL | Instruction::RAR
        | Instruction::DAA | Instruction::CMA | Instruction::STC | Instruction::CMC | Instruction::DI
        | Instruction::EI => 4,
        Instruction::INX(_) | Instruction::DCX(_) | Instruction::PCHL | Instruction::XCHG
        | Instruction::SPHL | Instruction::RNZ | Instruction::RZ | Instruction::RNC | Instruction::RC
        | Instruction::RPO | Instruction::RPE | Instruction::RP | Instruction::RM => 5,
        Instruction::INR(t) | Instruction::DCR(t) => if t is M {
            10
        } else {
            5
        },
        Instruction::MOV(d, s) => if d is M || s is M {
            7
        } else {
            5
        },
        Instruction::MVI(t, _) => if t is M {
            10
        } else {
            7
        },
        Instruction::ADD(t) | Instruction::ADC(t) | Instruction::SUB(t) | Instruction::SBB(t)
        | Instruction::ANA(t) | Instruction::XRA(t) | Instruction::ORA(t) | Instruction::CMP(t) =>
            if t is M {
            7
        } else {
            4
        },
        Instruction::STAX(_) | Instruction::LDAX(_) | Instruction::HLT | Instruction::ADI(_)
        | Instruction::ACI(_) | Instruction::SUI(_) | Instruction::SBI(_) | Instruction::ANI(_)
        | Instruction::XRI(_) | Instruction::ORI(_) | Instruction::CPI(_) => 7,
        Instruction::JMP(_) | Instruction::LXI(_, _) | Instruction::DAD(_) | Instruction::POP(_)
        | Instruction::JNZ(_) | Instruction::JZ(_) | Instruction::JNC(_) | Instruction::JC(_)
        | Instruction::JPO(_) | Instruction::JPE(_) | Instruction::JP(_) | Instruction::JM(_)
        | Instruction::RET | Instruction::OUT(_) | Instruction::IN(_) => 10,
        Instruction::PUSH(_) | Instruction::CNZ(_) | Instruction::CZ(_) | Instruction::CNC(_)
        | Instruction::CC(_) | Instruction::CPO(_) | Instruction::CPE(_) | Instruction::CP(_)
        | Instruction::CM(_) | Instruction::RST(_) => 11,
        Instruction::STA(_) | Instruction::LDA(_) => 13,
        Instruction::SHLD(_) | Instruction::LHLD(_) => 16,
        Instruction::CALL(_) => 17,
        Instruction::XTHL => 18,
    }
}

impl Instruction {
    /// Decode the instruction at the start of `bytes`. Every opcode decodes.
    pub fn decode_op(bytes: &[u8]) -> (r: Result<Instruction, ()>)
        requires
            bytes@.len() >= 1,
            bytes@.len() >= encoded_len(bytes@[0]),
        ensures
            r == Ok::<Instruction, ()>(decoded(bytes@)),
    {
        let opcode = bytes[0];

        let instruction = match opcode {
            0x00 | 0x10 | 0x20 | 0x30 | 0x08 | 0x18 | 0x28 | 0x38 => Instruction::NOP,
            0x01 => Instruction::LXI(Operand::B, Instruction::read_imm16(bytes)),
            0x02 => Instruction::STAX(Operand::B),
            0x03 => Instruction::INX(Operand::B),
            0x04 => Instruction::INR(Operand::B),
            0x05 => Instruction::DCR(Operand::B),
            0x06 => Instruction::MVI(Operand::B, Instruction::read_imm8(bytes)),
            0x07 => Instruction::RLC,
            0x09 => Instruction::DAD(Operand::B),
            0x0a => Instruction::LDAX(Operand::B),
            0x0b => Instruction::DCX(Operand::B),
            0x0c => Instruction::INR(Operand::C),
            0x0d => Instruction::DCR(Operand::C),
            0x0e => Instruction::MVI(Operand::C, Instruction::read_imm8(bytes)),
            0x0f => Instruction::RRC,
            0x11 => Instruction::LXI(Operand::D, Instruction::read_imm16(bytes)),
            0x12 => Instruction::STAX(Operand::D),
            0x13 => Instruction::INX(Operand::D),
            0x14 => Instruction::INR(Operand::D),
            0x15 => Instruction::DCR(Operand::D),
            0x16 => Instruction::MVI(Operand::D, Instruction::read_imm8(bytes)),
            0x17 => Instruction::RAL,
            0x19 => Instruction::DAD(Operand::D),
            0x1a => Instruction::LDAX(Operand::D),
            0x1b => Instruction::DCX(Operand::D),
            0x1c => Instruction::INR(Operand::E),
            0x1d => Instruction::DCR(Operand::E),
            0x1e => Instruction::MVI(Operand::E, Instruction::read_imm8(bytes)),
            0x1f => Instruction::RAR,
            0x21 => Instruction::LXI(Operand::H, Instruction::read_imm16(bytes)),
            0x22 => Instruction::SHLD(Instruction::read_imm16(bytes)),
            0x23 => Instruction::INX(Operand::H),
            0x24 => Instruction::INR(Operand::H),
            0x25 => Instruction::DCR(Operand::H),
            0x26 => Instruction::MVI(Operand::H, Instruction::read_imm8(bytes)),
            0x27 => Instruction::DAA,
            0x29 => Instruction::DAD(Operand::H),
            0x2a => Instruction::LHLD(Instruction::read_imm16(bytes)),
            0x2b => Instruction::DCX(Operand::H),
            0x2c => Instruction::INR(Operand::L),
            0x2d => Instruction::DCR(Operand::L),
            0x2e => Instruction::MVI(Operand::L, Instruction::read_imm8(bytes)),
            0x2f => Instruction::CMA,
            0x31 => Instruction::LXI(Operand::SP, Instruction::read_imm16(bytes)),
            0x32 => Instruction::STA(Instruction::read_imm16(bytes)),
            0x33 => Instruction::INX(Operand::SP),
            0x34 => Instruction::INR(Operand::M),
            0x35 => Instruction::DCR(Operand::M),
            0x36 => Instruction::MVI(Operand::M, Instruction::read_imm8(bytes)),
            0x37 => Instruction::STC,
            0x39 => Instruction::DAD(Operand::SP),
            0x3a => Instruction::LDA(Instruction::read_imm16(bytes)),
            0x3b => Instruction::DCX(Operand::SP),
            0x3c => Instruction::INR(Operand::A),
            0x3d => Instruction::DCR(Operand::A),
            0x3e => Instruction::MVI(Operand::A, Instruction::read_imm8(bytes)),
            0x3f => Instruction::CMC,
            0x40 => Instruction::MOV(Operand::B, Operand::B),
            0x41 => Instruction::MOV(Operand::B, Operand::C),
            0x42 => Instruction::MOV(Operand::B, Operand::D),
            0x43 => Instruction::MOV(Operand::B, Operand::E),
            0x44 => Instruction::MOV(Operand::B, Operand::H),
            0x45 => Instruction::MOV(Operand::B, Operand::L),
            0x46 => Instruction::MOV(Operand::B, Operand::M),
            0x47 => Instruction::MOV(Operand::B, Operand::A),
            0x48 => Instruction::MOV(Operand::C, Operand::B),
            0x49 => Instruction::MOV(Operand::C, Operand::C),
            0x4a => Instruction::MOV(Operand::C, Operand::D),
            0x4b => Instruction::MOV(Operand::C, Operand::E),
            0x4c => Instruction::MOV(Operand::C, Operand::H),
            0x4d => Instruction::MOV(Operand::C, Operand::L),
            0x4e => Instruction::MOV(Operand::C, Operand::M),
            0x4f => Instruction::MOV(Operand::C, Operand::A),
            0x50 => Instruction::MOV(Operand::D, Operand::B),
            0x51 => Instruction::MOV(Operand::D, Operand::C),
            0x52 => Instruction::MOV(Operand::D, Operand::D),
            0x53 => Instruction::MOV(Operand::D, Operand::E),
            0x54 => Instruction::MOV(Operand::D, Operand::H),
            0x55 => Instruction::MOV(Operand::D, Operand::L),
            0x56 => Instruction::MOV(Operand::D, Operand::M),
            0x57 => Instruction::MOV(Operand::D, Operand::A),
            0x58 => Instruction::MOV(Operand::E, Operand::B),
            0x59 => Instruction::MOV(Operand::E, Operand::C),
            0x5a => Instruction::MOV(Operand::E, Operand::D),
            0x5b => Instruction::MOV(Operand::E, Operand::E),
            0x5c => Instruction::MOV(Operand::E, Operand::H),
            0x5d => Instruction::MOV(Operand::E, Operand::L),
            0x5e => Instruction::MOV(Operand::E, Operand::M),
            0x5f => Instruction::MOV(Operand::E, Operand::A),
            0x60 => Instruction::MOV(Operand::H, Operand::B),
            0x61 => Instruction::MOV(Operand::H, Operand::C),
            0x62 => Instruction::MOV(Operand::H, Operand::D),
            0x63 => Instruction::MOV(Operand::H, Operand::E),
            0x64 => Instruction::MOV(Operand::H, Operand::H),
            0x65 => Instruction::MOV(Operand::H, Operand::L),
            0x66 => Instruction::MOV(Operand::H, Operand::M),
            0x67 => Instruction::MOV(Operand::H, Operand::A),
            0x68 => Instruction::MOV(Operand::L, Operand::B),
            0x69 => Instruction::MOV(Operand::L, Operand::C),
            0x6a => Instruction::MOV(Operand::L, Operand::D),
            0x6b => Instruction::MOV(Operand::L, Operand::E),
            0x6c => Instruction::MOV(Operand::L, Operand::H),
            0x6d => Instruction::MOV(Operand::L, Operand::L),
            0x6e => Instruction::MOV(Operand::L, Operand::M),
            0x6f => Instruction::MOV(Operand::L, Operand::A),
            0x70 => Instruction::MOV(Operand::M, Operand::B),
            0x71 => Instruction::MOV(Operand::M, Operand::C),
            0x72 => Instruction::MOV(Operand::M, Operand::D),
            0x73 => Instruction::MOV(Operand::M, Operand::E),
            0x74 => Instruction::MOV(Operand::M, Operand::H),
            0x75 => Instruction::MOV(Operand::M, Operand::L),
            0x76 => Instruction::HLT,
            0x77 => Instruction::MOV(Operand::M, Operand::A),
            0x78 => Instruction::MOV(Operand::A, Operand::B),
            0x79 => Instruction::MOV(Operand::A, Operand::C),
            0x7a => Instruction::MOV(Operand::A, Operand::D),
            0x7b => Instruction::MOV(Operand::A, Operand::E),
            0x7c => Instruction::MOV(Operand::A, Operand::H),
            0x7d => Instruction::MOV(Operand::A, Operand::L),
            0x7e => Instruction::MOV(Operand::A, Operand::M),
            0x7f => Instruction::MOV(Operand::A, Operand::A),
            0x80 => Instruction::ADD(Operand::B),
            0x81 => Instruction::ADD(Operand::C),
            0x82 => Instruction::ADD(Operand::D),
            0x83 => Instruction::ADD(Operand::E),
            0x84 => Instruction::ADD(Operand::H),
            0x85 => Instruction::ADD(Operand::L),
            0x86 => Instruction::ADD(Operand::M),
            0x87 => Instruction::ADD(Operand::A),
            0x88 => Instruction::ADC(Operand::B),
            0x89 => Instruction::ADC(Operand::C),
            0x8a => Instruction::ADC(Operand::D),
            0x8b => Instruction::ADC(Operand::E),
            0x8c => Instruction::ADC(Operand::H),
            0x8d => Instruction::ADC(Operand::L),
            0x8e => Instruction::ADC(Operand::M),
            0x8f => Instruction::ADC(Operand::A),
            0x90 => Instruction::SUB(Operand::B),
            0x91 => Instruction::SUB(Operand::C),
            0x92 => Instruction::SUB(Operand::D),
            0x93 => Instruction::SUB(Operand::E),
            0x94 => Instruction::SUB(Operand::H),
            0x95 => Instruction::SUB(Operand::L),
            0x96 => Instruction::SUB(Operand::M),
            0x97 => Instruction::SUB(Operand::A),
            0x98 => Instruction::SBB(Operand::B),
            0x99 => Instruction::SBB(Operand::C),
            0x9a => Instruction::SBB(Operand::D),
            0x9b => Instruction::SBB(Operand::E),
            0x9c => Instruction::SBB(Operand::H),
            0x9d => Instruction::SBB(Operand::L),
            0x9e => Instruction::SBB(Operand::M),
            0x9f => Instruction::SBB(Operand::A),
            0xa0 => Instruction::ANA(Operand::B),
            0xa1 => Instruction::ANA(Operand::C),
            0xa2 => Instruction::ANA(Operand::D),
            0xa3 => Instruction::ANA(Operand::E),
            0xa4 => Instruction::ANA(Operand::H),
            0xa5 => Instruction::ANA(Operand::L),
            0xa6 => Instruction::ANA(Operand::M),
            0xa7 => Instruction::ANA(Operand::A),
            0xa8 => Instruction::XRA(Operand::B),
            0xa9 => Instruction::XRA(Operand::C),
            0xaa => Instruction::XRA(Operand::D),
            0xab => Instruction::XRA(Operand::E),
            0xac => Instruction::XRA(Operand::H),
            0xad => Instruction::XRA(Operand::L),
            0xae => Instruction::XRA(Operand::M),
            0xaf => Instruction::XRA(Operand::A),
            0xb0 => Instruction::ORA(Operand::B),
            0xb1 => Instruction::ORA(Operand::C),
            0xb2 => Instruction::ORA(Operand::D),
            0xb3 => Instruction::ORA(Operand::E),
            0xb4 => Instruction::ORA(Operand::H),
            0xb5 => Instruction::ORA(Operand::L),
            0xb6 => Instruction::ORA(Operand::M),
            0xb7 => Instruction::ORA(Operand::A),
            0xb8 => Instruction::CMP(Operand::B),
            0xb9 => Instruction::CMP(Operand::C),
            0xba => Instruction::CMP(Operand::D),
            0xbb => Instruction::CMP(Operand::E),
            0xbc => Instruction::CMP(Operand::H),
            0xbd => Instruction::CMP(Operand::L),
            0xbe => Instruction::CMP(Operand::M),
            0xbf => Instruction::CMP(Operand::A),
            //note: listed both cycle numbers (action taken/action not-taken)
            //next to cycles where applicable.
            //https://pastraiser.com/cpu/i8080/i8080_opcodes.html
            0xc0 => Instruction::RNZ,
            0xc1 => Instruction::POP(Operand::B),
            0xc2 => Instruction::JNZ(Instruction::read_imm16(bytes)),
            0xc3 | 0xcb => Instruction::JMP(Instruction::read_imm16(bytes)),
            0xc4 => Instruction::CNZ(Instruction::read_imm16(bytes)),
            0xc5 => Instruction::PUSH(Operand::B),
            0xc6 => Instruction::ADI(Instruction::read_imm8(bytes)),
            0xc7 => Instruction::RST(0),
            0xc8 => Instruction::RZ,
            0xc9 | 0xd9 => Instruction::RET,
            0xca => Instruction::JZ(Instruction::read_imm16(bytes)),
            0xcc => Instruction::CZ(Instruction::read_imm16(bytes)),
            0xcd | 0xdd | 0xed | 0xfd => Instruction::CALL(Instruction::read_imm16(bytes)),
            0xce => Instruction::ACI(Instruction::read_imm8(bytes)),
            0xcf => Instruction::RST(1),
            0xd0 => Instruction::RNC,
            0xd1 => Instruction::POP(Operand::D),
            0xd2 => Instruction::JNC(Instruction::read_imm16(bytes)),
            0xd3 => Instruction::OUT(Instruction::read_imm8(bytes)),
            0xd4 => Instruction::CNC(Instruction::read_imm16(bytes)),
            0xd5 => Instruction::PUSH(Operand::D),
            0xd6 => Instruction::SUI(Instruction::read_imm8(bytes)),
            0xd7 => Instruction::RST(2),
            0xd8 => Instruction::RC,
            0xda => Instruction::JC(Instruction::read_imm16(bytes)),
            0xdb => Instruction::IN(Instruction::read_imm8(bytes)),
            0xdc => Instruction::CC(Instruction::read_imm16(bytes)),
            0xde => Instruction::SBI(Instruction::read_imm8(bytes)),
            0xdf => Instruction::RST(3),
            0xe0 => Instruction::RPO,
            0xe1 => Instruction::POP(Operand::H),
            0xe2 => Instruction::JPO(Instruction::read_imm16(bytes)),
            0xe3 => Instruction::XTHL,
            0xe4 => Instruction::CPO(Instruction::read_imm16(bytes)),
            0xe5 => Instruction::PUSH(Operand::H),
            0xe6 => Instruction::ANI(Instruction::read_imm8(bytes)),
            0xe7 => Instruction::RST(4),
            0xe8 => Instruction::RPE,
            0xe9 => Instruction::PCHL,
            0xea => Instruction::JPE(Instruction::read_imm16(bytes)),
            0xeb => Instruction::XCHG,
            0xec => Instruction::CPE(Instruction::read_imm16(bytes)),
            0xee => Instruction::XRI(Instruction::read_imm8(bytes)),
            0xef => Instruction::RST(5),
            0xf0 => Instruction::RP,
            0xf1 => Instruction::POP(Operand::PSW),
            0xf2 => Instruction::JP(Instruction::read_imm16(bytes)),
            0xf3 => Instruction::DI,
            0xf4 => Instruction::CP(Instruction::read_imm16(bytes)),
            0xf5 => Instruction::PUSH(Operand::PSW),
            0xf6 => Instruction::ORI(Instruction::read_imm8(bytes)),
            0xf7 => Instruction::RST(6),
            0xf8 => Instruction::RM,
            0xf9 => Instruction::SPHL,
            0xfa => Instruction::JM(Instruction::read_imm16(bytes)),
            0xfb => Instruction::EI,
            0xfc => Instruction::CM(Instruction::read_imm16(bytes)),
            0xfe => Instruction::CPI(Instruction::read_imm8(bytes)),
            0xff => Instruction::RST(7),
        };

        Ok(instruction)
    }

    /// Number of bytes the instruction occupies in the program.
    pub fn size(&self) -> (r: u16)
        ensures
            r == size_of(*self),
    {
        match *self {
            Instruction::NOP => 1,
            Instruction::JMP(_) => 3,
            Instruction::PUSH(_) => 1,
            Instruction::MVI(_, _) => 2,
            Instruction::STA(_) => 3,
            Instruction::LXI(_, _) => 3,
            Instruction::STAX(_) => 1,
            Instruction::INX(_) => 1,
            Instruction::INR(_) => 1,
            Instruction::DCR(_) => 1,
            Instruction::RLC => 1,
            Instruction::DAD(_) => 1,
            Instruction::LDAX(_) => 1,
            Instruction::DCX(_) => 1,
            Instruction::RRC => 1,
            Instruction::RAL => 1,
            Instruction::RAR => 1,
            Instruction::SHLD(_) => 3,
            Instruction::DAA => 1,
            Instruction::LHLD(_) => 3,
            Instruction::CMA => 1,
            Instruction::STC => 1,
            Instruction::LDA(_) => 3,
            Instruction::CMC => 1,
            Instruction::MOV(_, _) => 1,
            Instruction::HLT => 1,
            Instruction::ADD(_) => 1,
            Instruction::ANA(_) => 1,
            Instruction::ADC(_) => 1,
            Instruction::SUB(_) => 1,
            Instruction::SBB(_) => 1,
            Instruction::XRA(_) => 1,
            Instruction::ORA(_) => 1,
            Instruction::CMP(_) => 1,
            Instruction::RNZ => 1,
            Instruction::POP(_) => 1,
            Instruction::JNZ(_) => 3,
            Instruction::CNZ(_) => 3,
            Instruction::ADI(_) => 2,
            Instruction::RST(_) => 1,
            Instruction::RZ => 1,
            Instruction::RET => 1,
            Instruction::JZ(_) => 3,
            Instruction::CZ(_) => 3,
            Instruction::CALL(_) => 3,
            Instruction::ACI(_) => 2,
            Instruction::RNC => 1,
            Instruction::JNC(_) => 3,
            Instruction::OUT(_) => 2,
            Instruction::CNC(_) => 3,
            Instruction::SUI(_) => 2,
            Instruction::RC => 1,
            Instruction::JC(_) => 3,
            Instruction::IN(_) => 2,
            Instruction::CC(_) => 3,
            Instruction::SBI(_) => 2,
            Instruction::RPO => 1,
            Instruction::JPO(_) => 3,
            Instruction::XTHL => 1,
            Instruction::CPO(_) => 3,
            Instruction::ANI(_) => 2,
            Instruction::RPE => 1,
            Instruction::PCHL => 1,
            Instruction::JPE(_) => 3,
            Instruction::XCHG => 1,
            Instruction::CPE(_) => 3,
            Instruction::XRI(_) => 2,
            Instruction::RP => 1,
            Instruction::JP(_) => 3,
            Instruction::DI => 1,
            Instruction::CP(_) => 3,
            Instruction::ORI(_) => 2,
            Instruction::RM => 1,
            Instruction::SPHL => 1,
            Instruction::JM(_) => 3,
            Instruction::EI => 1,
            Instruction::CM(_) => 3,
            Instruction::CPI(_) => 2,
        }
    }

    /// Number of clock cycles the instruction takes (for conditional calls
    /// and returns, when the condition fails).
    pub fn cycles(&self) -> (r: u8)
        ensures
            r == cycles_of(*self),
    {
        match *self {
            Instruction::NOP => 4,
            Instruction::JMP(_) => 10,
            Instruction::PUSH(_) => 11,
            Instruction::MVI(target, _) => match target {
                Operand::M => 10,
                _ => 7,
            },
            Instruction::STA(_) => 13,
            Instruction::LXI(_, _) => 10,
            Instruction::STAX(_) => 7,
            Instruction::INX(_) => 5,
            Instruction::INR(target) => match target {
                Operand::M => 10,
                _ => 5,
            },
            Instruction::DCR(target) => match target {
                Operand::M => 10,
                _ => 5,
            },
            Instruction::RLC => 4,
            Instruction::DAD(_) => 10,
            Instruction::LDAX(_) => 7,
            Instruction::DCX(_) => 5,
            Instruction::RRC => 4,
            Instruction::RAL => 4,
            Instruction::RAR => 4,
            Instruction::SHLD(_) => 16,
            Instruction::DAA => 4,
            Instruction::LHLD(_) => 16,
            Instruction::CMA => 4,
            Instruction::STC => 4,
            Instruction::LDA(_) => 13,
            Instruction::CMC => 4,
            Instruction::MOV(target, source) => match (target, source) {
                (Operand::M, _) => 7,
                (_, Operand::M) => 7,
                _ => 5,
            },
            Instruction::HLT => 7,
            Instruction::ADD(target) => match target {
                Operand::M => 7,
                _ => 4,
            },
            Instruction::ANA(target) => match target {
                Operand::M => 7,
                _ => 4,
            },
            Instruction::ADC(target) => match target {
                Operand::M => 7,
                _ => 4,
            },
            Instruction::SUB(target) => match target {
                Operand::M => 7,
                _ => 4,
            },
            Instruction::SBB(target) => match target {
                Operand::M => 7,
                _ => 4,
            },
            Instruction::XRA(target) => match target {
                Operand::M => 7,
                _ => 4,
            },
            Instruction::ORA(target) => match target {
                Operand::M => 7,
                _ => 4,
            },
            Instruction::CMP(target) => match target {
                Operand::M => 7,
                _ => 4,
            },
            Instruction::RNZ => 5,
            Instruction::POP(_) => 10,
            Instruction::JNZ(_) => 10,
            Instruction::CNZ(_) => 11,
            Instruction::ADI(_) => 7,
            Instruction::RST(_) => 11,
            Instruction::RZ => 5,
            Instruction::RET => 10,
            Instruction::JZ(_) => 10,
            Instruction::CZ(_) => 11,
            Instruction::CALL(_) => 17,
            Instruction::ACI(_) => 7,
            Instruction::RNC => 5,
            Instruction::JNC(_) => 10,
            Instruction::OUT(_) => 10,
            Instruction::CNC(_) => 11,
            Instruction::SUI(_) => 7,
            Instruction::RC => 5,
            Instruction::JC(_) => 10,
            Instruction::IN(_) => 10,
            Instruction::CC(_) => 11,
            Instruction::SBI(_) => 7,
            Instruction::RPO => 5,
            Instruction::JPO(_) => 10,
            Instruction::XTHL => 18,
            Instruction::CPO(_) => 11,
            Instruction::ANI(_) => 7,
            Instruction::RPE => 5,
            Instruction::PCHL => 5,
            Instruction::JPE(_) => 10,
            Instruction::XCHG => 5,
            Instruction::CPE(_) => 11,
            Instruction::XRI(_) => 7,
            Instruction::RP => 5,
            Instruction::JP(_) => 10,
            Instruction::DI => 4,
            Instruction::CP(_) => 11,
            Instruction::ORI(_) => 7,
            Instruction::RM => 5,
            Instruction::SPHL => 5,
            Instruction::JM(_) => 10,
            Instruction::EI => 4,
            Instruction::CM(_) => 11,
            Instruction::CPI(_) => 7,
        }
    }

    /// The one-byte immediate operand.
    fn read_imm8(bytes: &[u8]) -> (r: u8)
        requires
            bytes@.len() >= 2,
        ensures
            r == imm8_of(bytes@),
    {
        bytes[1]
    }

    /// The two-byte little-endian immediate operand.
    fn read_imm16(bytes: &[u8]) -> (r: u16)
        requires
            bytes@.len() >= 3,
        ensures
            r == imm16_of(bytes@),
    {
        bytes[1] as u16 + (bytes[2] as u16) * 256
    }

    /// Number of bytes that the encoding beginning with `opcode` occupies:
    /// how many bytes `from` needs to decode it.
    pub fn encoded_length(opcode: u8) -> (r: usize)
        ensures
            r == encoded_len(opcode),
    {
        let (x, y, z) = (opcode / 64, (opcode / 8) % 8, opcode % 8);
        if x == 0 {
            if (z == 1 && y % 2 == 0) || (z == 2 && y >= 4) {
                3
            } else if z == 6 {
                2
            } else {
                1
            }
        } else if x == 3 {
            if z == 2 || z == 4 || (z == 3 && y <= 1) || (z == 5 && y % 2 == 1) {
                3
            } else if z == 6 || (z == 3 && (y == 2 || y == 3)) {
                2
            } else {
                1
            }
        } else {
            1
        }
    }

    /// Decode the instruction at the start of `bytes`.
    pub fn from(bytes: &[u8]) -> (r: Instruction)
        requires
            bytes@.len() >= 1,
            bytes@.len() >= encoded_len(bytes@[0]),
        ensures
            r == decoded(bytes@),
    {
        match Instruction::decode_op(bytes) {
            Ok(i) => i,
            Err(_) => Instruction::NOP,
        }
    }
}

/// The mnemonic that `disassemble` prints for an instruction. (RRC, RAL,
/// RAR, DAA, CMA, STC and CMC print as "RLC".)
pub open spec fn mnemonic_text(i: Instruction) -> Seq<char> {
    match i {
        Instruction::NOP => "NOP"@,
        Instruction::PUSH(_) => "PUSH"@,
        Instruction::JMP(_) => "JMP"@,
        Instruction::MVI(_, _) => "MVI"@,
        Instruction::STA(_) => "STA"@,
        Instruction::LXI(_, _) => "LXI"@,
        Instruction::STAX(_) => "STAX"@,
        Instruction::INX(_) => "INX"@,
        Instruction::INR(_) => "INR"@,
        Instruction::DCR(_) => "DCR"@,
        Instruction::RLC => "RLC"@,
        Instruction::DAD(_) => "DAD"@,
        Instruction::LDAX(_) => "LDAX"@,
        Instruction::DCX(_) => "DCX"@,
        Instruction::RRC => "RLC"@,
        Instruction::RAL => "RLC"@,
        Instruction::RAR => "RLC"@,
        Instruction::SHLD(_) => "SHLD"@,
        Instruction::DAA => "RLC"@,
        Instruction::LHLD(_) => "LHLD"@,
        Instruction::CMA => "RLC"@,
        Instruction::STC => "RLC"@,
        Instruction::LDA(_) => "LDA"@,
        Instruction::CMC => "RLC"@,
        Instruction::MOV(_, _) => "MOV"@,
        Instruction::HLT => "HLT"@,
        Instruction::ADD(_) => "ADD"@,
        Instruction::ANA(_) => "ANA"@,
        Instruction::ADC(_) => "ADC"@,
        Instruction::SUB(_) => "SUB"@,
        Instruction::SBB(_) => "SBB"@,
        Instruction::XRA(_) => "XRA"@,
        Instruction::ACI(_) => "ACI"@,
        Instruction::ADI(_) => "ADI"@,
        Instruction::ANI(_) => "ANI"@,
        Instruction::CALL(_) => "CALL"@,
        Instruction::CC(_) => "CC"@,
        Instruction::CM(_) => "CM"@,
        Instruction::CMP(_) => "CMP"@,
        Instruction::CNC(_) => "CNC"@,
        Instruction::CP(_) => "CP"@,
        Instruction::CPE(_) => "CPE"@,
        Instruction::CPI(_) => "CPI"@,
        Instruction::CPO(_) => "CPO"@,
        Instruction::CNZ(_) => "CNZ"@,
        Instruction::CZ(_) => "CZ"@,
        Instruction::DI => "DI"@,
        Instruction::EI => "EI"@,
        Instruction::IN(_) => "IN"@,
        Instruction::JC(_) => "JC"@,
        Instruction::JM(_) => "JM"@,
        Instruction::JNC(_) => "JNC"@,
        Instruction::JNZ(_) => "JNZ"@,
        Instruction::JP(_) => "JP"@,
        Instruction::JPE(_) => "JPE"@,
        Instruction::JPO(_) => "JPO"@,
        Instruction::JZ(_) => "JZ"@,
        Instruction::ORA(_) => "ORA"@,
        Instruction::ORI(_) => "ORI"@,
        Instruction::OUT(_) => "OUT"@,
        Instruction::PCHL => "PCHL"@,
        Instruction::POP(_) => "POP"@,
        Instruction::RC => "RC"@,
        Instruction::RET => "RET"@,
        Instruction::RM => "RM"@,
        Instruction::RNC => "RNC"@,
        Instruction::RNZ => "RNZ"@,
        Instruction::RP => "RP"@,
        Instruction::RPE => "RPE"@,
        Instruction::RPO => "RPO"@,
        Instruction::RST(_) => "RST"@,
        Instruction::RZ => "RZ"@,
        Instruction::SBI(_) => "SBI"@,
        Instruction::SPHL => "SPHL"@,
        Instruction::SUI(_) => "SUI"@,
        Instruction::XCHG => "XCHG"@,
        Instruction::XRI(_) => "XRI"@,
        Instruction::XTHL => "XTHL"@,
    }
}

/// The name of an operand.
pub open spec fn operand_text(o: Operand) -> Seq<char> {
    match o {
        Operand::A => "A"@,
        Operand::B => "B"@,
        Operand::C => "C"@,
        Operand::D => "D"@,
        Operand::E => "E"@,
        Operand::H => "H"@,
        Operand::L => "L"@,
        Operand::M => "M"@,
        Operand::SP => "SP"@,
        Operand::PSW => "PSW"@,
    }
}

/// A hexadecimal digit, lower case.
pub open spec fn hex_digit(d: int) -> Seq<char> {
    if d == 0 {
        "0"@
    } else if d == 1 {
        "1"@
    } else if d == 2 {
        "2"@
    } else if d == 3 {
        "3"@
    } else if d == 4 {
        "4"@
    } else if d == 5 {
        "5"@
    } else if d == 6 {
        "6"@
    } else if d == 7 {
        "7"@
    } else if d == 8 {
        "8"@
    } else if d == 9 {
        "9"@
    } else if d == 10 {
        "a"@
    } else if d == 11 {
        "b"@
    } else if d == 12 {
        "c"@
    } else if d == 13 {
        "d"@
    } else if d == 14 {
        "e"@
    } else {
        "f"@
    }
}

/// The hexadecimal digits of `v`, without leading zeros.
pub open spec fn hex_digits(v: nat) -> Seq<char>
    decreases v,
{
    if v < 16 {
        hex_digit(v as int)
    } else {
        hex_digits(v / 16) + hex_digit((v % 16) as int)
    }
}

/// `v` in hexadecimal with a `0x` prefix.
pub open spec fn hex_text(v: nat) -> Seq<char> {
    "0x"@ + hex_digits(v)
}

/// The assembly text of an instruction: the mnemonic, then a tab and the
/// operands separated by ", ", numbers in hexadecimal.
pub open spec fn disassembly(i: Instruction) -> Seq<char> {
    match i {
        Instruction::PUSH(val) => mnemonic_text(i) + "\t"@ + operand_text(val),
        Instruction::JMP(val) => mnemonic_text(i) + "\t"@ + hex_text(val as nat),
        Instruction::MVI(lhs, rhs) => mnemonic_text(i) + "\t"@ + operand_text(lhs) + ", "@ + hex_text(rhs as nat),
        Instruction::STA(val) => mnemonic_text(i) + "\t"@ + hex_text(val as nat),
        Instruction::LXI(lhs, rhs) => mnemonic_text(i) + "\t"@ + operand_text(lhs) + ", "@ + hex_text(rhs as nat),
        Instruction::STAX(val) => mnemonic_text(i) + "\t"@ + operand_text(val),
        Instruction::INX(val) => mnemonic_text(i) + "\t"@ + operand_text(val),
        Instruction::INR(val) => mnemonic_text(i) + "\t"@ + operand_text(val),
        Instruction::DCR(val) => mnemonic_text(i) + "\t"@ + operand_text(val),
        Instruction::DAD(val) => mnemonic_text(i) + "\t"@ + operand_text(val),
        Instruction::LDAX(val) => mnemonic_text(i) + "\t"@ + operand_text(val),
        Instruction::DCX(val) => mnemonic_text(i) + "\t"@ + operand_text(val),
        Instruction::SHLD(val) => mnemonic_text(i) + "\t"@ + hex_text(val as nat),
        Instruction::LHLD(val) => mnemonic_text(i) + "\t"@ + hex_text(val as nat),
        Instruction::LDA(val) => mnemonic_text(i) + "\t"@ + hex_text(val as nat),
        Instruction::MOV(lhs, rhs) => mnemonic_text(i) + "\t"@ + operand_text(lhs) + ", "@ + operand_text(rhs),
        Instruction::ADD(val) => mnemonic_text(i) + "\t"@ + operand_text(val),
        Instruction::ANA(val) => mnemonic_text(i) + "\t"@ + operand_text(val),
        Instruction::ADC(val) => mnemonic_text(i) + "\t"@ + operand_text(val),
        Instruction::SUB(val) => mnemonic_text(i) + "\t"@ + operand_text(val),
        Instruction::SBB(val) => mnemonic_text(i) + "\t"@ + operand_text(val),
        Instruction::XRA(val) => mnemonic_text(i) + "\t"@ + operand_text(val),
        Instruction::ACI(val) => mnemonic_text(i) + "\t"@ + hex_text(val as nat),
        Instruction::ADI(val) => mnemonic_text(i) + "\t"@ + hex_text(val as nat),
        Instruction::ANI(val) => mnemonic_text(i) + "\t"@ + hex_text(val as nat),
        Instruction::CALL(val) => mnemonic_text(i) + "\t"@ + hex_text(val as nat),
        Instruction::CC(val) => mnemonic_text(i) + "\t"@ + hex_text(val as nat),
        Instruction::CM(val) => mnemonic_text(i) + "\t"@ + hex_text(val as nat),
        Instruction::CMP(val) => mnemonic_text(i) + "\t"@ + operand_text(val),
        Instruction::CNC(val) => mnemonic_text(i) + "\t"@ + hex_text(val as nat),
        Instruction::CP(val) => mnemonic_text(i) + "\t"@ + hex_text(val as nat),
        Instruction::CPE(val) => mnemonic_text(i) + "\t"@ + hex_text(val as nat),
        Instruction::CPI(val) => mnemonic_text(i) + "\t"@ + hex_text(val as nat),
        Instruction::CPO(val) => mnemonic_text(i) + "\t"@ + hex_text(val as nat),
        Instruction::CNZ(val) => mnemonic_text(i) + "\t"@ + hex_text(val as nat),
        Instruction::CZ(val) => mnemonic_text(i) + "\t"@ + hex_text(val as nat),
        Instruction::IN(val) => mnemonic_text(i) + "\t"@ + hex_text(val as nat),
        Instruction::JC(val) => mnemonic_text(i) + "\t"@ + hex_text(val as nat),
        Instruction::JM(val) => mnemonic_text(i) + "\t"@ + hex_text(val as nat),
        Instruction::JNC(val) => mnemonic_text(i) + "\t"@ + hex_text(val as nat),
        Instruction::JNZ(val) => mnemonic_text(i) + "\t"@ + hex_text(val as nat),
        Instruction::JP(val) => mnemonic_text(i) + "\t"@ + hex_text(val as nat),
        Instruction::JPE(val) => mnemonic_text(i) + "\t"@ + hex_text(val as nat),
        Instruction::JPO(val) => mnemonic_text(i) + "\t"@ + hex_text(val as nat),
        Instruction::JZ(val) => mnemonic_text(i) + "\t"@ + hex_text(val as nat),
        Instruction::ORA(val) => mnemonic_text(i) + "\t"@ + operand_text(val),
        Instruction::ORI(val) => mnemonic_text(i) + "\t"@ + hex_text(val as nat),
        Instruction::OUT(val) => mnemonic_text(i) + "\t"@ + hex_text(val as nat),
        Instruction::POP(val) => mnemonic_text(i) + "\t"@ + operand_text(val),
        Instruction::RST(val) => mnemonic_text(i) + "\t"@ + hex_text(val as nat),
        Instruction::SBI(val) => mnemonic_text(i) + "\t"@ + hex_text(val as nat),
        Instruction::SUI(val) => mnemonic_text(i) + "\t"@ + hex_text(val as nat),
        Instruction::XRI(val) => mnemonic_text(i) + "\t"@ + hex_text(val as nat),
        _ => mnemonic_text(i),
    }
}

fn operand_str(o: Operand) -> (r: &'static str)
    ensures
        r@ == operand_text(o),
{
    match o {
        Operand::A => "A",
        Operand::B => "B",
        Operand::C => "C",
        Operand::D => "D",
        Operand::E => "E",
        Operand::H => "H",
        Operand::L => "L",
        Operand::M => "M",
        Operand::SP => "SP",
        Operand::PSW => "PSW",
    }
}

fn hex_digit_str(d: u16) -> (r: &'static str)
    requires
        d < 16,
    ensures
        r@ == hex_digit(d as int),
{
    match d {
        0 => "0",
        1 => "1",
        2 => "2",
        3 => "3",
        4 => "4",
        5 => "5",
        6 => "6",
        7 => "7",
        8 => "8",
        9 => "9",
        10 => "a",
        11 => "b",
        12 => "c",
        13 => "d",
        14 => "e",
        _ => "f",
    }
}

/// Append the hexadecimal digits of `v`.
fn push_hex_digits(s: &mut String, v: u16)
    ensures
        final(s)@ == old(s)@ + hex_digits(v as nat),
    decreases v,
{
    if v >= 16 {
        push_hex_digits(s, v / 16);
    }
    s.append(hex_digit_str(v % 16));
}

/// Append `v` in hexadecimal with a `0x` prefix.
fn push_hex(s: &mut String, v: u16)
    ensures
        final(s)@ == old(s)@ + hex_text(v as nat),
{
    s.append("0x");
    push_hex_digits(s, v);
}

impl Instruction {
    /// The mnemonic of the instruction.
    pub fn mnemonic(&self) -> (r: &'static str)
        ensures
            r@ == mnemonic_text(*self),
    {
        match *self {
            Instruction::NOP => "NOP",
            Instruction::PUSH(_) => "PUSH",
            Instruction::JMP(_) => "JMP",
            Instruction::MVI(_, _) => "MVI",
            Instruction::STA(_) => "STA",
            Instruction::LXI(_, _) => "LXI",
            Instruction::STAX(_) => "STAX",
            Instruction::INX(_) => "INX",
            Instruction::INR(_) => "INR",
            Instruction::DCR(_) => "DCR",
            Instruction::RLC => "RLC",
            Instruction::DAD(_) => "DAD",
            Instruction::LDAX(_) => "LDAX",
            Instruction::DCX(_) => "DCX",
            Instruction::RRC => "RLC",
            Instruction::RAL => "RLC",
            Instruction::RAR => "RLC",
            Instruction::SHLD(_) => "SHLD",
            Instruction::DAA => "RLC",
            Instruction::LHLD(_) => "LHLD",
            Instruction::CMA => "RLC",
            Instruction::STC => "RLC",
            Instruction::LDA(_) => "LDA",
            Instruction::CMC => "RLC",
            Instruction::MOV(_, _) => "MOV",
            Instruction::HLT => "HLT",
            Instruction::ADD(_) => "ADD",
            Instruction::ANA(_) => "ANA",
            Instruction::ADC(_) => "ADC",
            Instruction::SUB(_) => "SUB",
            Instruction::SBB(_) => "SBB",
            Instruction::XRA(_) => "XRA",
            Instruction::ACI(_) => "ACI",
            Instruction::ADI(_) => "ADI",
            Instruction::ANI(_) => "ANI",
            Instruction::CALL(_) => "CALL",
            Instruction::CC(_) => "CC",
            Instruction::CM(_) => "CM",
            Instruction::CMP(_) => "CMP",
            Instruction::CNC(_) => "CNC",
            Instruction::CP(_) => "CP",
            Instruction::CPE(_) => "CPE",
            Instruction::CPI(_) => "CPI",
            Instruction::CPO(_) => "CPO",
            Instruction::CNZ(_) => "CNZ",
            Instruction::CZ(_) => "CZ",
            Instruction::DI => "DI",
            Instruction::EI => "EI",
            Instruction::IN(_) => "IN",
            Instruction::JC(_) => "JC",
            Instruction::JM(_) => "JM",
            Instruction::JNC(_) => "JNC",
            Instruction::JNZ(_) => "JNZ",
            Instruction::JP(_) => "JP",
            Instruction::JPE(_) => "JPE",
            Instruction::JPO(_) => "JPO",
            Instruction::JZ(_) => "JZ",
            Instruction::ORA(_) => "ORA",
            Instruction::ORI(_) => "ORI",
            Instruction::OUT(_) => "OUT",
            Instruction::PCHL => "PCHL",
            Instruction::POP(_) => "POP",
            Instruction::RC => "RC",
            Instruction::RET => "RET",
            Instruction::RM => "RM",
            Instruction::RNC => "RNC",
            Instruction::RNZ => "RNZ",
            Instruction::RP => "RP",
            Instruction::RPE => "RPE",
            Instruction::RPO => "RPO",
            Instruction::RST(_) => "RST",
            Instruction::RZ => "RZ",
            Instruction::SBI(_) => "SBI",
            Instruction::SPHL => "SPHL",
            Instruction::SUI(_) => "SUI",
            Instruction::XCHG => "XCHG",
            Instruction::XRI(_) => "XRI",
            Instruction::XTHL => "XTHL",
        }
    }

    /// The instruction as assembly text, e.g. "MVI\tB, 0x3c".
    pub fn disassemble(&self) -> (r: String)
        ensures
            r@ == disassembly(*self),
    {
        let mut s = String::from_str(self.mnemonic());
        match *self {
            Instruction::PUSH(val) => {
                s.append("\t");
                s.append(operand_str(val));
            },
            Instruction::JMP(val) => {
                s.append("\t");
                push_hex(&mut s, val as u16);
            },
            Instruction::MVI(lhs, rhs) => {
                s.append("\t");
                s.append(operand_str(lhs));
                s.append(", ");
                push_hex(&mut s, rhs as u16);
            },
            Instruction::STA(val) => {
                s.append("\t");
                push_hex(&mut s, val as u16);
            },
            Instruction::LXI(lhs, rhs) => {
                s.append("\t");
                s.append(operand_str(lhs));
                s.append(", ");
                push_hex(&mut s, rhs as u16);
            },
            Instruction::STAX(val) => {
                s.append("\t");
                s.append(operand_str(val));
            },
            Instruction::INX(val) => {
                s.append("\t");
                s.append(operand_str(val));
            },
            Instruction::INR(val) => {
                s.append("\t");
                s.append(operand_str(val));
            },
            Instruction::DCR(val) => {
                s.append("\t");
                s.append(operand_str(val));
            },
            Instruction::DAD(val) => {
                s.append("\t");
                s.append(operand_str(val));
            },
            Instruction::LDAX(val) => {
                s.append("\t");
                s.append(operand_str(val));
            },
            Instruction::DCX(val) => {
                s.append("\t");
                s.append(operand_str(val));
            },
            Instruction::SHLD(val) => {
                s.append("\t");
                push_hex(&mut s, val as u16);
            },
            Instruction::LHLD(val) => {
                s.append("\t");
                push_hex(&mut s, val as u16);
            },
            Instruction::LDA(val) => {
                s.append("\t");
                push_hex(&mut s, val as u16);
            },
            Instruction::MOV(lhs, rhs) => {
                s.append("\t");
                s.append(operand_str(lhs));
                s.append(", ");
                s.append(operand_str(rhs));
            },
            Instruction::ADD(val) => {
                s.append("\t");
                s.append(operand_str(val));
            },
            Instruction::ANA(val) => {
                s.append("\t");
                s.append(operand_str(val));
            },
            Instruction::ADC(val) => {
                s.append("\t");
                s.append(operand_str(val));
            },
            Instruction::SUB(val) => {
                s.append("\t");
                s.append(operand_str(val));
            },
            Instruction::SBB(val) => {
                s.append("\t");
                s.append(operand_str(val));
            },
            Instruction::XRA(val) => {
                s.append("\t");
                s.append(operand_str(val));
            },
            Instruction::ACI(val) => {
                s.append("\t");
                push_hex(&mut s, val as u16);
            },
            Instruction::ADI(val) => {
                s.append("\t");
                push_hex(&mut s, val as u16);
            },
            Instruction::ANI(val) => {
                s.append("\t");
                push_hex(&mut s, val as u16);
            },
            Instruction::CALL(val) => {
                s.append("\t");
                push_hex(&mut s, val as u16);
            },
            Instruction::CC(val) => {
                s.append("\t");
                push_hex(&mut s, val as u16);
            },
            Instruction::CM(val) => {
                s.append("\t");
                push_hex(&mut s, val as u16);
            },
            Instruction::CMP(val) => {
                s.append("\t");
                s.append(operand_str(val));
            },
            Instruction::CNC(val) => {
                s.append("\t");
                push_hex(&mut s, val as u16);
            },
            Instruction::CP(val) => {
                s.append("\t");
                push_hex(&mut s, val as u16);
            },
            Instruction::CPE(val) => {
                s.append("\t");
                push_hex(&mut s, val as u16);
            },
            Instruction::CPI(val) => {
                s.append("\t");
                push_hex(&mut s, val as u16);
            },
            Instruction::CPO(val) => {
                s.append("\t");
                push_hex(&mut s, val as u16);
            },
            Instruction::CNZ(val) => {
                s.append("\t");
                push_hex(&mut s, val as u16);
            },
            Instruction::CZ(val) => {
                s.append("\t");
                push_hex(&mut s, val as u16);
            },
            Instruction::IN(val) => {
                s.append("\t");
                push_hex(&mut s, val as u16);
            },
            Instruction::JC(val) => {
                s.append("\t");
                push_hex(&mut s, val as u16);
            },
            Instruction::JM(val) => {
                s.append("\t");
                push_hex(&mut s, val as u16);
            },
            Instruction::JNC(val) => {
                s.append("\t");
                push_hex(&mut s, val as u16);
            },
            Instruction::JNZ(val) => {
                s.append("\t");
                push_hex(&mut s, val as u16);
            },
            Instruction::JP(val) => {
                s.append("\t");
                push_hex(&mut s, val as u16);
            },
            Instruction::JPE(val) => {
                s.append("\t");
                push_hex(&mut s, val as u16);
            },
            Instruction::JPO(val) => {
                s.append("\t");
                push_hex(&mut s, val as u16);
            },
            Instruction::JZ(val) => {
                s.append("\t");
                push_hex(&mut s, val as u16);
            },
            Instruction::ORA(val) => {
                s.append("\t");
                s.append(operand_str(val));
            },
            Instruction::ORI(val) => {
                s.append("\t");
                push_hex(&mut s, val as u16);
            },
            Instruction::OUT(val) => {
                s.append("\t");
                push_hex(&mut s, val as u16);
            },
            Instruction::POP(val) => {
                s.append("\t");
                s.append(operand_str(val));
            },
            Instruction::RST(val) => {
                s.append("\t");
                push_hex(&mut s, val as u16);
            },
            Instruction::SBI(val) => {
                s.append("\t");
                push_hex(&mut s, val as u16);
            },
            Instruction::SUI(val) => {
                s.append("\t");
                push_hex(&mut s, val as u16);
            },
            Instruction::XRI(val) => {
                s.append("\t");
                push_hex(&mut s, val as u16);
            },
            _ => {},
        }
        s
    }
}

/// The size reported for a decoded instruction is the length of its
/// encoding, so stepping the program counter by `size` reaches the next
/// instruction.
pub proof fn law_size_is_encoded_len(bytes: Seq<u8>)
    requires
        bytes.len() >= 1,
    ensures
        size_of(decoded(bytes)) == encoded_len(bytes[0]),
{
    let op = bytes[0];
    assert(op as int == 64 * op_x(op) + 8 * op_y(op) + op_z(op));
}

/// PUSH and POP disassemble under their own names: POP of a pair prints
/// "POP", a tab and the pair, PUSH likewise "PUSH"; and the opcodes
/// 0xC1 + 16p and 0xC5 + 16p decode to the POP and PUSH of the same pair.
#[verifier::rlimit(40)]
pub proof fn law_stack_disassembly(op: Operand, p: int)
    requires
        0 <= p < 4,
    ensures
        disassembly(Instruction::POP(op)) == seq!['P', 'O', 'P', '\t'] + operand_text(op),
        disassembly(Instruction::PUSH(op)) == seq!['P', 'U', 'S', 'H', '\t'] + operand_text(op),
        disassembly(Instruction::POP(op)) != disassembly(Instruction::PUSH(op)),
        decoded(seq![(0xC1 + 16 * p) as u8]) is POP,
        decoded(seq![(0xC5 + 16 * p) as u8]) is PUSH,
        decoded(seq![(0xC1 + 16 * p) as u8])->POP_0 == decoded(seq![(0xC5 + 16 * p) as u8])->PUSH_0,
{
    reveal_strlit("POP");
    reveal_strlit("PUSH");
    reveal_strlit("\t");
    let t = operand_text(op);
    assert(disassembly(Instruction::POP(op)) =~= seq!['P', 'O', 'P', '\t'] + t);
    assert(disassembly(Instruction::PUSH(op)) =~= seq!['P', 'U', 'S', 'H', '\t'] + t);
    assert(disassembly(Instruction::POP(op))[1] != disassembly(Instruction::PUSH(op))[1]);
    let pop = (0xC1 + 16 * p) as u8;
    let push = (0xC5 + 16 * p) as u8;
    assert(op_x(pop) == 3 && op_z(pop) == 1 && op_y(pop) == 2 * p);
    assert(op_x(push) == 3 && op_z(push) == 5 && op_y(push) == 2 * p);
}

/// The eight condition names, by the condition field of the opcode.
pub open spec fn condition_name(y: int) -> Seq<char> {
    if y == 0 {
        seq!['N', 'Z']
    } else if y == 1 {
        seq!['Z']
    } else if y == 2 {
        seq!['N', 'C']
    } else if y == 3 {
        seq!['C']
    } else if y == 4 {
        seq!['P', 'O']
    } else if y == 5 {
        seq!['P', 'E']
    } else if y == 6 {
        seq!['P']
    } else {
        seq!['M']
    }
}

/// The conditional jumps, calls and returns with condition field `y`
/// (opcodes 0xC2 + 8y, 0xC4 + 8y and 0xC0 + 8y) disassemble as J, C and R
/// followed by the name of the same condition.
#[verifier::rlimit(40)]
pub proof fn law_condition_mnemonics(y: int, lo: u8, hi: u8)
    requires
        0 <= y < 8,
    ensures
        mnemonic_text(decoded(seq![(0xC2 + 8 * y) as u8, lo, hi])) == seq!['J'] + condition_name(y),
        mnemonic_text(decoded(seq![(0xC4 + 8 * y) as u8, lo, hi])) == seq!['C'] + condition_name(y),
        mnemonic_text(decoded(seq![(0xC0 + 8 * y) as u8])) == seq!['R'] + condition_name(y),
{
    let j = (0xC2 + 8 * y) as u8;
    let c = (0xC4 + 8 * y) as u8;
    let r = (0xC0 + 8 * y) as u8;
    assert(op_x(j) == 3 && op_z(j) == 2 && op_y(j) == y);
    assert(op_x(c) == 3 && op_z(c) == 4 && op_y(c) == y);
    assert(op_x(r) == 3 && op_z(r) == 0 && op_y(r) == y);
    reveal_strlit("JNZ");
    reveal_strlit("JZ");
    reveal_strlit("JNC");
    reveal_strlit("JC");
    reveal_strlit("JPO");
    reveal_strlit("JPE");
    reveal_strlit("JP");
    reveal_strlit("JM");
    reveal_strlit("CNZ");
    reveal_strlit("CZ");
    reveal_strlit("CNC");
    reveal_strlit("CC");
    reveal_strlit("CPO");
    reveal_strlit("CPE");
    reveal_strlit("CP");
    reveal_strlit("CM");
    reveal_strlit("RNZ");
    reveal_strlit("RZ");
    reveal_strlit("RNC");
    reveal_strlit("RC");
    reveal_strlit("RPO");
    reveal_strlit("RPE");
    reveal_strlit("RP");
    reveal_strlit("RM");
    assert(mnemonic_text(decoded(seq![j, lo, hi])) =~= seq!['J'] + condition_name(y));
    assert(mnemonic_text(decoded(seq![c, lo, hi])) =~= seq!['C'] + condition_name(y));
    assert(mnemonic_text(decoded(seq![r])) =~= seq!['R'] + condition_name(y));
}

} // verus!
