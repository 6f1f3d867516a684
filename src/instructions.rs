//! The instruction set and its decoding from opcode bytes.

use vstd::prelude::*;
use crate::alu::ShiftKind;

verus! {

#[derive(Clone, Copy, PartialEq, Eq, Structural, Debug)]
pub enum Instruction {
    ADD(ArithmeticType),
    ADC(ArithmeticByteTarget),
    SUB(ArithmeticByteTarget),
    SBC(ArithmeticByteTarget),
    AND(ArithmeticByteTarget),
    OR(ArithmeticByteTarget),
    XOR(ArithmeticByteTarget),
    CP(ArithmeticByteTarget),
    INC(ArithmeticType),
    DEC(ArithmeticType),
    /// ADD SP, e
    ADDSP,
    CCF,
    SCF,
    RRA,
    RLA,
    RRCA,
    RLCA,
    CPL,
    BIT(u8),
    RES(u8),
    SET(u8),
    /// A prefixed shift or rotate.
    SHIFT(ShiftKind),
    LD(LoadType, LoadOperation),
    JP(JumpCondition, JumpTarget),
    JR(JumpCondition),
    CALL(JumpCondition),
    RET(JumpCondition),
    PUSH(ArithmeticWordTarget),
    POP(ArithmeticWordTarget),
    RST(u16),
    DAA,
    EI,
    DI,
    RETI,
    PREFIX,
    NOP,
    HALT,
    STOP,
    UNDEFINED,
}

#[derive(Clone, Copy, PartialEq, Eq, Structural, Debug)]
pub enum ArithmeticType {
    Byte(ArithmeticByteTarget),
    Word(ArithmeticWordTarget),
}

/// An 8-bit operand: a register, the byte at (HL), or an immediate byte.
#[derive(Clone, Copy, PartialEq, Eq, Structural, Debug)]
pub enum ArithmeticByteTarget {
    A,
    B,
    C,
    D,
    E,
    H,
    L,
    MHL,
    N8,
}

#[derive(Clone, Copy, PartialEq, Eq, Structural, Debug)]
pub enum ArithmeticWordTarget {
    HL,
    BC,
    DE,
    AF,
    SP,
}

#[derive(Clone, Copy, PartialEq, Eq, Structural, Debug)]
pub enum LoadByteTarget {
    A,
    B,
    C,
    D,
    E,
    H,
    L,
    MHL,
    MBC,
    MDE,
    /// (nn)
    MN16,
    /// (0xFF00 + n)
    DN8,
    /// (0xFF00 + C)
    DC,
}

#[derive(Clone, Copy, PartialEq, Eq, Structural, Debug)]
pub enum LoadByteSource {
    A,
    B,
    C,
    D,
    E,
    H,
    L,
    N8,
    DN8,
    DC,
    MHL,
    MBC,
    MDE,
    MN16,
}

#[derive(Clone, Copy, PartialEq, Eq, Structural, Debug)]
pub enum LoadWordTarget {
    BC,
    DE,
    HL,
    SP,
    MN16,
}

#[derive(Clone, Copy, PartialEq, Eq, Structural, Debug)]
pub enum LoadWordSource {
    N16,
    SP,
    HL,
    /// SP plus a signed immediate byte.
    SPE8,
}

#[derive(Clone, Copy, PartialEq, Eq, Structural, Debug)]
pub enum LoadType {
    Byte(LoadByteTarget, LoadByteSource),
    Word(LoadWordTarget, LoadWordSource),
}

/// What happens to HL after the load: incremented, decremented or kept.
#[derive(Clone, Copy, PartialEq, Eq, Structural, Debug)]
pub enum LoadOperation {
    HLI,
    HLD,
    Keep,
}

#[derive(Clone, Copy, PartialEq, Eq, Structural, Debug)]
pub enum JumpCondition {
    Z,
    NZ,
    C,
    NC,
    NONE,
}

#[derive(Clone, Copy, PartialEq, Eq, Structural, Debug)]
pub enum JumpTarget {
    N16,
    HL,
}

/// The opcodes that the processor leaves undefined.
pub open spec fn undefined_opcode(op: u8) -> bool {
    op == 0xD3 || op == 0xDB || op == 0xDD || op == 0xE3 || op == 0xE4 || op == 0xEB || op
        == 0xEC || op == 0xED || op == 0xF4 || op == 0xFC || op == 0xFD
}

/// Register operand number `z` of the encoding: B C D E H L (HL) A.
pub open spec fn byte_operand(z: u8) -> ArithmeticByteTarget {
    if z == 0 {
        ArithmeticByteTarget::B
    } else if z == 1 {
        ArithmeticByteTarget::C
    } else if z == 2 {
        ArithmeticByteTarget::D
    } else if z == 3 {
        ArithmeticByteTarget::E
    } else if z == 4 {
        ArithmeticByteTarget::H
    } else if z == 5 {
        ArithmeticByteTarget::L
    } else if z == 6 {
        ArithmeticByteTarget::MHL
    } else {
        ArithmeticByteTarget::A
    }
}

/// ALU operation number `y` applied to operand `t`:
/// ADD ADC SUB SBC AND XOR OR CP.
pub open spec fn alu_instruction(y: u8, t: ArithmeticByteTarget) -> Instruction {
    if y == 0 {
        Instruction::ADD(ArithmeticType::Byte(t))
    } else if y == 1 {
        Instruction::ADC(t)
    } else if y == 2 {
        Instruction::SUB(t)
    } else if y == 3 {
        Instruction::SBC(t)
    } else if y == 4 {
        Instruction::AND(t)
    } else if y == 5 {
        Instruction::XOR(t)
    } else if y == 6 {
        Instruction::OR(t)
    } else {
        Instruction::CP(t)
    }
}

pub open spec fn shift_kind(y: u8) -> ShiftKind {
    if y == 0 {
        ShiftKind::Rlc
    } else if y == 1 {
        ShiftKind::Rrc
    } else if y == 2 {
        ShiftKind::Rl
    } else if y == 3 {
        ShiftKind::Rr
    } else if y == 4 {
        ShiftKind::Sla
    } else if y == 5 {
        ShiftKind::Sra
    } else if y == 6 {
        ShiftKind::Swap
    } else {
        ShiftKind::Srl
    }
}

pub fn byte_operand_of(z: u8) -> (r: ArithmeticByteTarget)
    ensures
        r == byte_operand(z),
{
    if z == 0 {
        ArithmeticByteTarget::B
    } else if z == 1 {
        ArithmeticByteTarget::C
    } else if z == 2 {
        ArithmeticByteTarget::D
    } else if z == 3 {
        ArithmeticByteTarget::E
    } else if z == 4 {
        ArithmeticByteTarget::H
    } else if z == 5 {
        ArithmeticByteTarget::L
    } else if z == 6 {
        ArithmeticByteTarget::MHL
    } else {
        ArithmeticByteTarget::A
    }
}

fn alu_instruction_of(y: u8, t: ArithmeticByteTarget) -> (r: Instruction)
    ensures
        r == alu_instruction(y, t),
{
    if y == 0 {
        Instruction::ADD(ArithmeticType::Byte(t))
    } else if y == 1 {
        Instruction::ADC(t)
    } else if y == 2 {
        Instruction::SUB(t)
    } else if y == 3 {
        Instruction::SBC(t)
    } else if y == 4 {
        Instruction::AND(t)
    } else if y == 5 {
        Instruction::XOR(t)
    } else if y == 6 {
        Instruction::OR(t)
    } else {
        Instruction::CP(t)
    }
}

fn shift_kind_of(y: u8) -> (r: ShiftKind)
    ensures
        r == shift_kind(y),
{
    if y == 0 {
        ShiftKind::Rlc
    } else if y == 1 {
        ShiftKind::Rrc
    } else if y == 2 {
        ShiftKind::Rl
    } else if y == 3 {
        ShiftKind::Rr
    } else if y == 4 {
        ShiftKind::Sla
    } else if y == 5 {
        ShiftKind::Sra
    } else if y == 6 {
        ShiftKind::Swap
    } else {
        ShiftKind::Srl
    }
}

/// The prefixed table: bits 7..3 of the byte after 0xCB give the operation,
/// bits 2..0 the operand. The cycles are those of the whole prefixed
/// instruction (8, or 16 on (HL), 12 for BIT on (HL)).
pub open spec fn prefix_decode_spec(opcode: u8) -> ((Instruction, u8), ArithmeticByteTarget) {
    let n = ((opcode / 8) % 8) as u8;
    let instruction = if opcode < 0x40 {
        Instruction::SHIFT(shift_kind(opcode / 8))
    } else if opcode < 0x80 {
        Instruction::BIT(n)
    } else if opcode < 0xC0 {
        Instruction::RES(n)
    } else {
        Instruction::SET(n)
    };
    let cycles = if opcode % 8 != 6 {
        8u8
    } else if 0x40 <= opcode < 0x80 {
        12u8
    } else {
        16u8
    };
    ((instruction, cycles), byte_operand(opcode % 8))
}

pub fn parse_prefix_instruction(opcode: u8) -> (r: ((Instruction, u8), ArithmeticByteTarget))
    ensures
        r == prefix_decode_spec(opcode),
        r.1 != ArithmeticByteTarget::N8,
{
    let target = byte_operand_of(opcode % 8);
    let n = (opcode / 8) % 8;
    let instruction = if opcode < 0x40 {
        Instruction::SHIFT(shift_kind_of(opcode / 8))
    } else if opcode < 0x80 {
        Instruction::BIT(n)
    } else if opcode < 0xC0 {
        Instruction::RES(n)
    } else {
        Instruction::SET(n)
    };
    let cycles: u8 = if opcode % 8 != 6 {
        8
    } else if 0x40 <= opcode && opcode < 0x80 {
        12
    } else {
        16
    };
    ((instruction, cycles), target)
}

pub open spec fn load_target(y: u8) -> LoadByteTarget {
    if y == 0 {
        LoadByteTarget::B
    } else if y == 1 {
        LoadByteTarget::C
    } else if y == 2 {
        LoadByteTarget::D
    } else if y == 3 {
        LoadByteTarget::E
    } else if y == 4 {
        LoadByteTarget::H
    } else if y == 5 {
        LoadByteTarget::L
    } else if y == 6 {
        LoadByteTarget::MHL
    } else {
        LoadByteTarget::A
    }
}

pub open spec fn load_source(z: u8) -> LoadByteSource {
    if z == 0 {
        LoadByteSource::B
    } else if z == 1 {
        LoadByteSource::C
    } else if z == 2 {
        LoadByteSource::D
    } else if z == 3 {
        LoadByteSource::E
    } else if z == 4 {
        LoadByteSource::H
    } else if z == 5 {
        LoadByteSource::L
    } else if z == 6 {
        LoadByteSource::MHL
    } else {
        LoadByteSource::A
    }
}

fn load_target_of(y: u8) -> (r: LoadByteTarget)
    ensures
        r == load_target(y),
{
    if y == 0 {
        LoadByteTarget::B
    } else if y == 1 {
        LoadByteTarget::C
    } else if y == 2 {
        LoadByteTarget::D
    } else if y == 3 {
        LoadByteTarget::E
    } else if y == 4 {
        LoadByteTarget::H
    } else if y == 5 {
        LoadByteTarget::L
    } else if y == 6 {
        LoadByteTarget::MHL
    } else {
        LoadByteTarget::A
    }
}

fn load_source_of(z: u8) -> (r: LoadByteSource)
    ensures
        r == load_source(z),
{
    if z == 0 {
        LoadByteSource::B
    } else if z == 1 {
        LoadByteSource::C
    } else if z == 2 {
        LoadByteSource::D
    } else if z == 3 {
        LoadByteSource::E
    } else if z == 4 {
        LoadByteSource::H
    } else if z == 5 {
        LoadByteSource::L
    } else if z == 6 {
        LoadByteSource::MHL
    } else {
        LoadByteSource::A
    }
}

fn word_operand_of(p: u8) -> (r: ArithmeticWordTarget)
    ensures
        r == word_operand(p),
{
    if p == 0 {
        ArithmeticWordTarget::BC
    } else if p == 1 {
        ArithmeticWordTarget::DE
    } else if p == 2 {
        ArithmeticWordTarget::HL
    } else {
        ArithmeticWordTarget::SP
    }
}

fn stack_operand_of(p: u8) -> (r: ArithmeticWordTarget)
    ensures
        r == stack_operand(p),
{
    if p == 0 {
        ArithmeticWordTarget::BC
    } else if p == 1 {
        ArithmeticWordTarget::DE
    } else if p == 2 {
        ArithmeticWordTarget::HL
    } else {
        ArithmeticWordTarget::AF
    }
}

fn condition_of(y: u8) -> (r: JumpCondition)
    ensures
        r == condition(y),
{
    if y == 0 {
        JumpCondition::NZ
    } else if y == 1 {
        JumpCondition::Z
    } else if y == 2 {
        JumpCondition::NC
    } else {
        JumpCondition::C
    }
}

pub open spec fn word_operand(p: u8) -> ArithmeticWordTarget {
    if p == 0 {
        ArithmeticWordTarget::BC
    } else if p == 1 {
        ArithmeticWordTarget::DE
    } else if p == 2 {
        ArithmeticWordTarget::HL
    } else {
        ArithmeticWordTarget::SP
    }
}

pub open spec fn stack_operand(p: u8) -> ArithmeticWordTarget {
    if p == 0 {
        ArithmeticWordTarget::BC
    } else if p == 1 {
        ArithmeticWordTarget::DE
    } else if p == 2 {
        ArithmeticWordTarget::HL
    } else {
        ArithmeticWordTarget::AF
    }
}

pub open spec fn condition(y: u8) -> JumpCondition {
    if y == 0 {
        JumpCondition::NZ
    } else if y == 1 {
        JumpCondition::Z
    } else if y == 2 {
        JumpCondition::NC
    } else {
        JumpCondition::C
    }
}

/// The unprefixed opcode table: instruction and base cycles (for a
/// conditional branch, the cycles when it is not taken). The opcode splits
/// into x = bits 7..6, y = bits 5..3 (p = y / 2, q = y % 2), z = bits 2..0.
pub open spec fn decode_spec(opcode: u8) -> (Instruction, u8) {
    let x = opcode / 64;
    let y = ((opcode / 8) % 8) as u8;
    let z = (opcode % 8) as u8;
    let p = (y / 2) as u8;
    let q = y % 2;
    if x == 1 {
        if opcode == 0x76 {
            (Instruction::HALT, 4u8)
        } else {
            (
                Instruction::LD(LoadType::Byte(load_target(y), load_source(z)), LoadOperation::Keep),
                if y == 6 || z == 6 { 8u8 } else { 4u8 },
            )
        }
    } else if x == 2 {
        (alu_instruction(y, byte_operand(z)), if z == 6 { 8u8 } else { 4u8 })
    } else if x == 0 {
        if z == 0 {
            if y == 0 {
                (Instruction::NOP, 4u8)
            } else if y == 1 {
                (Instruction::LD(LoadType::Word(LoadWordTarget::MN16, LoadWordSource::SP), LoadOperation::Keep), 20u8)
            } else if y == 2 {
                (Instruction::STOP, 4u8)
            } else if y == 3 {
                (Instruction::JR(JumpCondition::NONE), 12u8)
            } else {
                (Instruction::JR(condition((y - 4) as u8)), 8u8)
            }
        } else if z == 1 {
            if q == 0 {
                let t = if p == 0 {
                    LoadWordTarget::BC
                } else if p == 1 {
                    LoadWordTarget::DE
                } else if p == 2 {
                    LoadWordTarget::HL
                } else {
                    LoadWordTarget::SP
                };
                (Instruction::LD(LoadType::Word(t, LoadWordSource::N16), LoadOperation::Keep), 12u8)
            } else {
                (Instruction::ADD(ArithmeticType::Word(word_operand(p))), 8u8)
            }
        } else if z == 2 {
            let (t, s, o) = if y == 0 {
                (LoadByteTarget::MBC, LoadByteSource::A, LoadOperation::Keep)
            } else if y == 1 {
                (LoadByteTarget::A, LoadByteSource::MBC, LoadOperation::Keep)
            } else if y == 2 {
                (LoadByteTarget::MDE, LoadByteSource::A, LoadOperation::Keep)
            } else if y == 3 {
                (LoadByteTarget::A, LoadByteSource::MDE, LoadOperation::Keep)
            } else if y == 4 {
                (LoadByteTarget::MHL, LoadByteSource::A, LoadOperation::HLI)
            } else if y == 5 {
                (LoadByteTarget::A, LoadByteSource::MHL, LoadOperation::HLI)
            } else if y == 6 {
                (LoadByteTarget::MHL, LoadByteSource::A, LoadOperation::HLD)
            } else {
                (LoadByteTarget::A, LoadByteSource::MHL, LoadOperation::HLD)
            };
            (Instruction::LD(LoadType::Byte(t, s), o), 8u8)
        } else if z == 3 {
            if q == 0 {
                (Instruction::INC(ArithmeticType::Word(word_operand(p))), 8u8)
            } else {
                (Instruction::DEC(ArithmeticType::Word(word_operand(p))), 8u8)
            }
        } else if z == 4 {
            (Instruction::INC(ArithmeticType::Byte(byte_operand(y))), if y == 6 { 12 } else { 4 })
        } else if z == 5 {
            (Instruction::DEC(ArithmeticType::Byte(byte_operand(y))), if y == 6 { 12 } else { 4 })
        } else if z == 6 {
            (
                Instruction::LD(LoadType::Byte(load_target(y), LoadByteSource::N8), LoadOperation::Keep),
                if y == 6 { 12 } else { 8 },
            )
        } else {
            let i = if y == 0 {
                Instruction::RLCA
            } else if y == 1 {
                Instruction::RRCA
            } else if y == 2 {
                Instruction::RLA
            } else if y == 3 {
                Instruction::RRA
            } else if y == 4 {
                Instruction::DAA
            } else if y == 5 {
                Instruction::CPL
            } else if y == 6 {
                Instruction::SCF
            } else {
                Instruction::CCF
            };
            (i, 4)
        }
    } else {
        if z == 0 {
            if y < 4 {
                (Instruction::RET(condition(y)), 8u8)
            } else if y == 4 {
                (Instruction::LD(LoadType::Byte(LoadByteTarget::DN8, LoadByteSource::A), LoadOperation::Keep), 12u8)
            } else if y == 5 {
                (Instruction::ADDSP, 16u8)
            } else if y == 6 {
                (Instruction::LD(LoadType::Byte(LoadByteTarget::A, LoadByteSource::DN8), LoadOperation::Keep), 12u8)
            } else {
                (Instruction::LD(LoadType::Word(LoadWordTarget::HL, LoadWordSource::SPE8), LoadOperation::Keep), 12u8)
            }
        } else if z == 1 {
            if q == 0 {
                (Instruction::POP(stack_operand(p)), 12u8)
            } else if p == 0 {
                (Instruction::RET(JumpCondition::NONE), 16u8)
            } else if p == 1 {
                (Instruction::RETI, 16u8)
            } else if p == 2 {
                (Instruction::JP(JumpCondition::NONE, JumpTarget::HL), 4u8)
            } else {
                (Instruction::LD(LoadType::Word(LoadWordTarget::SP, LoadWordSource::HL), LoadOperation::Keep), 8u8)
            }
        } else if z == 2 {
            if y < 4 {
                (Instruction::JP(condition(y), JumpTarget::N16), 12u8)
            } else if y == 4 {
                (Instruction::LD(LoadType::Byte(LoadByteTarget::DC, LoadByteSource::A), LoadOperation::Keep), 8u8)
            } else if y == 5 {
                (Instruction::LD(LoadType::Byte(LoadByteTarget::MN16, LoadByteSource::A), LoadOperation::Keep), 16u8)
            } else if y == 6 {
                (Instruction::LD(LoadType::Byte(LoadByteTarget::A, LoadByteSource::DC), LoadOperation::Keep), 8u8)
            } else {
                (Instruction::LD(LoadType::Byte(LoadByteTarget::A, LoadByteSource::MN16), LoadOperation::Keep), 16u8)
            }
        } else if z == 3 {
            if y == 0 {
                (Instruction::JP(JumpCondition::NONE, JumpTarget::N16), 16u8)
            } else if y == 1 {
                (Instruction::PREFIX, 0u8)
            } else if y == 6 {
                (Instruction::DI, 4u8)
            } else if y == 7 {
                (Instruction::EI, 4u8)
            } else {
                (Instruction::UNDEFINED, 4u8)
            }
        } else if z == 4 {
            if y < 4 {
                (Instruction::CALL(condition(y)), 12u8)
            } else {
                (Instruction::UNDEFINED, 4u8)
            }
        } else if z == 5 {
            if q == 0 {
                (Instruction::PUSH(stack_operand(p)), 16u8)
            } else if p == 0 {
                (Instruction::CALL(JumpCondition::NONE), 24u8)
            } else {
                (Instruction::UNDEFINED, 4u8)
            }
        } else if z == 6 {
            (alu_instruction(y, ArithmeticByteTarget::N8), 8)
        } else {
            (Instruction::RST((y * 8) as u16), 16u8)
        }
    }
}

/// Decodes an unprefixed opcode through the opcode table.
pub fn decode(opcode: u8) -> (r: (Instruction, u8))
    ensures
        r == decode_spec(opcode),
        (r.0 == Instruction::PREFIX) == (opcode == 0xCB),
        (r.0 == Instruction::UNDEFINED) == undefined_opcode(opcode),
        opcode == 0x00 ==> r == (Instruction::NOP, 4u8),
        opcode == 0x76 ==> r == (Instruction::HALT, 4u8),
        opcode == 0xCB ==> r.0 == Instruction::PREFIX,
        opcode / 64 == 1 && opcode != 0x76 ==> r == (
            Instruction::LD(
                LoadType::Byte(load_target((opcode / 8) % 8), load_source(opcode % 8)),
                LoadOperation::Keep,
            ),
            if (opcode / 8) % 8 == 6 || opcode % 8 == 6 {
                8u8
            } else {
                4u8
            },
        ),
        opcode / 64 == 2 ==> r == (
            alu_instruction((opcode / 8) % 8, byte_operand(opcode % 8)),
            if opcode % 8 == 6 {
                8u8
            } else {
                4u8
            },
        ),
        opcode / 64 == 3 && opcode % 8 == 6 ==> r == (
            alu_instruction((opcode / 8) % 8, ArithmeticByteTarget::N8),
            8u8,
        ),
        opcode / 64 == 3 && opcode % 8 == 7 ==> r == (
            Instruction::RST((((opcode / 8) % 8) * 8) as u16),
            16u8,
        ),
{
    let x = opcode / 64;
    let y = (opcode / 8) % 8;
    let z = opcode % 8;
    let p = y / 2;
    let q = y % 2;
    if x == 1 {
        if opcode == 0x76 {
            return (Instruction::HALT, 4);
        }
        let cycles: u8 = if y == 6 || z == 6 { 8 } else { 4 };
        return (
            Instruction::LD(LoadType::Byte(load_target_of(y), load_source_of(z)), LoadOperation::Keep),
            cycles,
        );
    }
    if x == 2 {
        let cycles: u8 = if z == 6 { 8 } else { 4 };
        return (alu_instruction_of(y, byte_operand_of(z)), cycles);
    }
    if x == 0 {
        if z == 0 {
            if y == 0 {
                (Instruction::NOP, 4)
            } else if y == 1 {
                (Instruction::LD(LoadType::Word(LoadWordTarget::MN16, LoadWordSource::SP), LoadOperation::Keep), 20)
            } else if y == 2 {
                (Instruction::STOP, 4)
            } else if y == 3 {
                (Instruction::JR(JumpCondition::NONE), 12)
            } else {
                (Instruction::JR(condition_of(y - 4)), 8)
            }
        } else if z == 1 {
            if q == 0 {
                let t = if p == 0 {
                    LoadWordTarget::BC
                } else if p == 1 {
                    LoadWordTarget::DE
                } else if p == 2 {
                    LoadWordTarget::HL
                } else {
                    LoadWordTarget::SP
                };
                (Instruction::LD(LoadType::Word(t, LoadWordSource::N16), LoadOperation::Keep), 12)
            } else {
                (Instruction::ADD(ArithmeticType::Word(word_operand_of(p))), 8)
            }
        } else if z == 2 {
            let (t, s, o) = if y == 0 {
                (LoadByteTarget::MBC, LoadByteSource::A, LoadOperation::Keep)
            } else if y == 1 {
                (LoadByteTarget::A, LoadByteSource::MBC, LoadOperation::Keep)
            } else if y == 2 {
                (LoadByteTarget::MDE, LoadByteSource::A, LoadOperation::Keep)
            } else if y == 3 {
                (LoadByteTarget::A, LoadByteSource::MDE, LoadOperation::Keep)
            } else if y == 4 {
                (LoadByteTarget::MHL, LoadByteSource::A, LoadOperation::HLI)
            } else if y == 5 {
                (LoadByteTarget::A, LoadByteSource::MHL, LoadOperation::HLI)
            } else if y == 6 {
                (LoadByteTarget::MHL, LoadByteSource::A, LoadOperation::HLD)
            } else {
                (LoadByteTarget::A, LoadByteSource::MHL, LoadOperation::HLD)
            };
            (Instruction::LD(LoadType::Byte(t, s), o), 8)
        } else if z == 3 {
            if q == 0 {
                (Instruction::INC(ArithmeticType::Word(word_operand_of(p))), 8)
            } else {
                (Instruction::DEC(ArithmeticType::Word(word_operand_of(p))), 8)
            }
        } else if z == 4 {
            (Instruction::INC(ArithmeticType::Byte(byte_operand_of(y))), if y == 6 { 12 } else { 4 })
        } else if z == 5 {
            (Instruction::DEC(ArithmeticType::Byte(byte_operand_of(y))), if y == 6 { 12 } else { 4 })
        } else if z == 6 {
            (
                Instruction::LD(LoadType::Byte(load_target_of(y), LoadByteSource::N8), LoadOperation::Keep),
                if y == 6 { 12 } else { 8 },
            )
        } else {
            let i = if y == 0 {
                Instruction::RLCA
            } else if y == 1 {
                Instruction::RRCA
            } else if y == 2 {
                Instruction::RLA
            } else if y == 3 {
                Instruction::RRA
            } else if y == 4 {
                Instruction::DAA
            } else if y == 5 {
                Instruction::CPL
            } else if y == 6 {
                Instruction::SCF
            } else {
                Instruction::CCF
            };
            (i, 4)
        }
    } else {
        if z == 0 {
            if y < 4 {
                (Instruction::RET(condition_of(y)), 8)
            } else if y == 4 {
                (Instruction::LD(LoadType::Byte(LoadByteTarget::DN8, LoadByteSource::A), LoadOperation::Keep), 12)
            } else if y == 5 {
                (Instruction::ADDSP, 16)
            } else if y == 6 {
                (Instruction::LD(LoadType::Byte(LoadByteTarget::A, LoadByteSource::DN8), LoadOperation::Keep), 12)
            } else {
                (Instruction::LD(LoadType::Word(LoadWordTarget::HL, LoadWordSource::SPE8), LoadOperation::Keep), 12)
            }
        } else if z == 1 {
            if q == 0 {
                (Instruction::POP(stack_operand_of(p)), 12)
            } else if p == 0 {
                (Instruction::RET(JumpCondition::NONE), 16)
            } else if p == 1 {
                (Instruction::RETI, 16)
            } else if p == 2 {
                (Instruction::JP(JumpCondition::NONE, JumpTarget::HL), 4)
            } else {
                (Instruction::LD(LoadType::Word(LoadWordTarget::SP, LoadWordSource::HL), LoadOperation::Keep), 8)
            }
        } else if z == 2 {
            if y < 4 {
                (Instruction::JP(condition_of(y), JumpTarget::N16), 12)
            } else if y == 4 {
                (Instruction::LD(LoadType::Byte(LoadByteTarget::DC, LoadByteSource::A), LoadOperation::Keep), 8)
            } else if y == 5 {
                (Instruction::LD(LoadType::Byte(LoadByteTarget::MN16, LoadByteSource::A), LoadOperation::Keep), 16)
            } else if y == 6 {
                (Instruction::LD(LoadType::Byte(LoadByteTarget::A, LoadByteSource::DC), LoadOperation::Keep), 8)
            } else {
                (Instruction::LD(LoadType::Byte(LoadByteTarget::A, LoadByteSource::MN16), LoadOperation::Keep), 16)
            }
        } else if z == 3 {
            if y == 0 {
                (Instruction::JP(JumpCondition::NONE, JumpTarget::N16), 16)
            } else if y == 1 {
                (Instruction::PREFIX, 0)
            } else if y == 6 {
                (Instruction::DI, 4)
            } else if y == 7 {
                (Instruction::EI, 4)
            } else {
                (Instruction::UNDEFINED, 4)
            }
        } else if z == 4 {
            if y < 4 {
                (Instruction::CALL(condition_of(y)), 12)
            } else {
                (Instruction::UNDEFINED, 4)
            }
        } else if z == 5 {
            if q == 0 {
                (Instruction::PUSH(stack_operand_of(p)), 16)
            } else if p == 0 {
                (Instruction::CALL(JumpCondition::NONE), 24)
            } else {
                (Instruction::UNDEFINED, 4)
            }
        } else if z == 6 {
            (alu_instruction_of(y, ArithmeticByteTarget::N8), 8)
        } else {
            (Instruction::RST(y as u16 * 8), 16)
        }
    }
}

} // verus!
