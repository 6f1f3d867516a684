//! Names of instructions and operands, for printing a trace of execution.

use vstd::prelude::*;
use crate::alu::ShiftKind;
use crate::instructions::{
    ArithmeticByteTarget, ArithmeticType, ArithmeticWordTarget, Instruction, JumpCondition,
    JumpTarget, LoadByteSource, LoadByteTarget, LoadOperation, LoadType, LoadWordSource,
    LoadWordTarget,
};
use vstd::string::StringExecFns;
use crate::bus::Bus;
use crate::cpu::wrap16;
use crate::instructions::{decode, decode_spec, parse_prefix_instruction, prefix_decode_spec};

verus! {

pub open spec fn word_target_name(t: ArithmeticWordTarget) -> Seq<char> {
    match t {
        ArithmeticWordTarget::BC => "BC"@,
        ArithmeticWordTarget::HL => "HL"@,
        ArithmeticWordTarget::AF => "AF"@,
        ArithmeticWordTarget::DE => "DE"@,
        ArithmeticWordTarget::SP => "SP"@,
    }
}

pub open spec fn condition_prefix(c: JumpCondition) -> Seq<char> {
    match c {
        JumpCondition::Z => "Z, "@,
        JumpCondition::NZ => "NZ, "@,
        JumpCondition::C => "C, "@,
        JumpCondition::NC => "NC, "@,
        JumpCondition::NONE => ""@,
    }
}

pub open spec fn byte_target_name(t: ArithmeticByteTarget) -> Seq<char> {
    match t {
        ArithmeticByteTarget::A => "A"@,
        ArithmeticByteTarget::B => "B"@,
        ArithmeticByteTarget::C => "C"@,
        ArithmeticByteTarget::D => "D"@,
        ArithmeticByteTarget::E => "E"@,
        ArithmeticByteTarget::H => "H"@,
        ArithmeticByteTarget::L => "L"@,
        ArithmeticByteTarget::MHL => "[HL]"@,
        ArithmeticByteTarget::N8 => "n8"@,
    }
}

/// The name of a register pair.
pub fn get_arithmetic_word_target_string(target: ArithmeticWordTarget) -> (r: &'static str)
    ensures
        r@ == word_target_name(target),
{
    match target {
        ArithmeticWordTarget::BC => "BC",
        ArithmeticWordTarget::HL => "HL",
        ArithmeticWordTarget::AF => "AF",
        ArithmeticWordTarget::DE => "DE",
        ArithmeticWordTarget::SP => "SP",
    }
}

/// The condition as it prefixes a branch operand ("" when unconditional).
pub fn get_jump_condition_string(condition: JumpCondition) -> (r: &'static str)
    ensures
        r@ == condition_prefix(condition),
{
    match condition {
        JumpCondition::Z => "Z, ",
        JumpCondition::NZ => "NZ, ",
        JumpCondition::C => "C, ",
        JumpCondition::NC => "NC, ",
        JumpCondition::NONE => "",
    }
}

/// The name of an 8-bit operand.
pub fn get_arithmetic_byte_target_string(target: ArithmeticByteTarget) -> (r: &'static str)
    ensures
        r@ == byte_target_name(target),
{
    match target {
        ArithmeticByteTarget::A => "A",
        ArithmeticByteTarget::B => "B",
        ArithmeticByteTarget::C => "C",
        ArithmeticByteTarget::D => "D",
        ArithmeticByteTarget::E => "E",
        ArithmeticByteTarget::H => "H",
        ArithmeticByteTarget::L => "L",
        ArithmeticByteTarget::MHL => "[HL]",
        ArithmeticByteTarget::N8 => "n8",
    }
}

pub open spec fn mnemonic_spec(i: Instruction) -> Seq<char> {
    match i {
        Instruction::ADD(_) | Instruction::ADDSP => "ADD"@,
        Instruction::ADC(_) => "ADC"@,
        Instruction::SUB(_) => "SUB"@,
        Instruction::SBC(_) => "SBC"@,
        Instruction::AND(_) => "AND"@,
        Instruction::OR(_) => "OR"@,
        Instruction::XOR(_) => "XOR"@,
        Instruction::CP(_) => "CP"@,
        Instruction::INC(_) => "INC"@,
        Instruction::DEC(_) => "DEC"@,
        Instruction::CCF => "CCF"@,
        Instruction::SCF => "SCF"@,
        Instruction::RRA => "RRA"@,
        Instruction::RLA => "RLA"@,
        Instruction::RRCA => "RRCA"@,
        Instruction::RLCA => "RLCA"@,
        Instruction::CPL => "CPL"@,
        Instruction::BIT(_) => "BIT"@,
        Instruction::RES(_) => "RES"@,
        Instruction::SET(_) => "SET"@,
        Instruction::SHIFT(_) => "SHIFT"@,
        Instruction::LD(_, _) => "LD"@,
        Instruction::JP(_, _) => "JP"@,
        Instruction::JR(_) => "JR"@,
        Instruction::CALL(_) => "CALL"@,
        Instruction::RET(_) => "RET"@,
        Instruction::PUSH(_) => "PUSH"@,
        Instruction::POP(_) => "POP"@,
        Instruction::RST(_) => "RST"@,
        Instruction::DAA => "DAA"@,
        Instruction::EI => "EI"@,
        Instruction::DI => "DI"@,
        Instruction::RETI => "RETI"@,
        Instruction::PREFIX => "PREFIX"@,
        Instruction::NOP => "NOP"@,
        Instruction::HALT => "HALT"@,
        Instruction::STOP => "STOP"@,
        Instruction::UNDEFINED => "UNDEFINED"@,
    }
}

pub struct Disassembler {}

impl Disassembler {
    pub fn new() -> (r: Disassembler) {
        Disassembler {}
    }

    /// The mnemonic of an instruction.
    pub fn mnemonic(&self, instruction: Instruction) -> (r: &'static str)
        ensures
            r@ == mnemonic_spec(instruction),
    {
        match instruction {
            Instruction::ADD(_) | Instruction::ADDSP => "ADD",
            Instruction::ADC(_) => "ADC",
            Instruction::SUB(_) => "SUB",
            Instruction::SBC(_) => "SBC",
            Instruction::AND(_) => "AND",
            Instruction::OR(_) => "OR",
            Instruction::XOR(_) => "XOR",
            Instruction::CP(_) => "CP",
            Instruction::INC(_) => "INC",
            Instruction::DEC(_) => "DEC",
            Instruction::CCF => "CCF",
            Instruction::SCF => "SCF",
            Instruction::RRA => "RRA",
            Instruction::RLA => "RLA",
            Instruction::RRCA => "RRCA",
            Instruction::RLCA => "RLCA",
            Instruction::CPL => "CPL",
            Instruction::BIT(_) => "BIT",
            Instruction::RES(_) => "RES",
            Instruction::SET(_) => "SET",
            Instruction::SHIFT(_) => "SHIFT",
            Instruction::LD(_, _) => "LD",
            Instruction::JP(_, _) => "JP",
            Instruction::JR(_) => "JR",
            Instruction::CALL(_) => "CALL",
            Instruction::RET(_) => "RET",
            Instruction::PUSH(_) => "PUSH",
            Instruction::POP(_) => "POP",
            Instruction::RST(_) => "RST",
            Instruction::DAA => "DAA",
            Instruction::EI => "EI",
            Instruction::DI => "DI",
            Instruction::RETI => "RETI",
            Instruction::PREFIX => "PREFIX",
            Instruction::NOP => "NOP",
            Instruction::HALT => "HALT",
            Instruction::STOP => "STOP",
            Instruction::UNDEFINED => "UNDEFINED",
        }
    }
}

} // verus!

verus! {

pub open spec fn hex_digit(n: int) -> Seq<char> {
    if n == 0 { "0"@ } else if n == 1 { "1"@ } else if n == 2 { "2"@ } else if n == 3 { "3"@ }
    else if n == 4 { "4"@ } else if n == 5 { "5"@ } else if n == 6 { "6"@ } else if n == 7 { "7"@ }
    else if n == 8 { "8"@ } else if n == 9 { "9"@ } else if n == 10 { "A"@ } else if n == 11 { "B"@ }
    else if n == 12 { "C"@ } else if n == 13 { "D"@ } else if n == 14 { "E"@ } else { "F"@ }
}

/// `v` as two upper-case hexadecimal digits.
pub open spec fn hex2(v: u8) -> Seq<char> {
    hex_digit(v as int / 16) + hex_digit(v as int % 16)
}

/// `v` as four upper-case hexadecimal digits.
pub open spec fn hex4(v: u16) -> Seq<char> {
    hex2((v / 256) as u8) + hex2((v % 256) as u8)
}

pub open spec fn shift_name(kind: ShiftKind) -> Seq<char> {
    match kind {
        ShiftKind::Rlc => "RLC"@,
        ShiftKind::Rrc => "RRC"@,
        ShiftKind::Rl => "RL"@,
        ShiftKind::Rr => "RR"@,
        ShiftKind::Sla => "SLA"@,
        ShiftKind::Sra => "SRA"@,
        ShiftKind::Swap => "SWAP"@,
        ShiftKind::Srl => "SRL"@,
    }
}

fn hex_digit_str(n: u8) -> (r: &'static str)
    requires
        n < 16,
    ensures
        r@ == hex_digit(n as int),
{
    if n == 0 { "0" } else if n == 1 { "1" } else if n == 2 { "2" } else if n == 3 { "3" }
    else if n == 4 { "4" } else if n == 5 { "5" } else if n == 6 { "6" } else if n == 7 { "7" }
    else if n == 8 { "8" } else if n == 9 { "9" } else if n == 10 { "A" } else if n == 11 { "B" }
    else if n == 12 { "C" } else if n == 13 { "D" } else if n == 14 { "E" } else { "F" }
}

fn shift_name_str(kind: ShiftKind) -> (r: &'static str)
    ensures
        r@ == shift_name(kind),
{
    match kind {
        ShiftKind::Rlc => "RLC",
        ShiftKind::Rrc => "RRC",
        ShiftKind::Rl => "RL",
        ShiftKind::Rr => "RR",
        ShiftKind::Sla => "SLA",
        ShiftKind::Sra => "SRA",
        ShiftKind::Swap => "SWAP",
        ShiftKind::Srl => "SRL",
    }
}

fn append_hex2(s: &mut String, v: u8)
    ensures
        final(s)@ == old(s)@ + hex2(v),
{
    s.append(hex_digit_str(v / 16));
    s.append(hex_digit_str(v % 16));
}

fn append_hex4(s: &mut String, v: u16)
    ensures
        final(s)@ == old(s)@ + hex4(v),
{
    append_hex2(s, (v / 256) as u8);
    append_hex2(s, (v % 256) as u8);
}

/// The operand text of an 8-bit operand; `imm` is the byte after the opcode.
pub open spec fn byte_operand_text(t: ArithmeticByteTarget, imm: u8) -> Seq<char> {
    if t == ArithmeticByteTarget::N8 {
        "0x"@ + hex2(imm)
    } else {
        byte_target_name(t)
    }
}

pub open spec fn load_source_text(s: LoadByteSource, op: LoadOperation, imm8: u8, imm16: u16) -> Seq<char> {
    match s {
        LoadByteSource::A => "A"@,
        LoadByteSource::B => "B"@,
        LoadByteSource::C => "C"@,
        LoadByteSource::D => "D"@,
        LoadByteSource::E => "E"@,
        LoadByteSource::H => "H"@,
        LoadByteSource::L => "L"@,
        LoadByteSource::N8 => "0x"@ + hex2(imm8),
        LoadByteSource::DN8 => "[0xFF"@ + hex2(imm8) + "]"@,
        LoadByteSource::DC => "[0xFF00+C]"@,
        LoadByteSource::MHL => hl_text(op),
        LoadByteSource::MBC => "[BC]"@,
        LoadByteSource::MDE => "[DE]"@,
        LoadByteSource::MN16 => "[0x"@ + hex4(imm16) + "]"@,
    }
}

pub open spec fn load_target_text(t: LoadByteTarget, op: LoadOperation, imm8: u8, imm16: u16) -> Seq<char> {
    match t {
        LoadByteTarget::A => "A"@,
        LoadByteTarget::B => "B"@,
        LoadByteTarget::C => "C"@,
        LoadByteTarget::D => "D"@,
        LoadByteTarget::E => "E"@,
        LoadByteTarget::H => "H"@,
        LoadByteTarget::L => "L"@,
        LoadByteTarget::MHL => hl_text(op),
        LoadByteTarget::MBC => "[BC]"@,
        LoadByteTarget::MDE => "[DE]"@,
        LoadByteTarget::MN16 => "[0x"@ + hex4(imm16) + "]"@,
        LoadByteTarget::DN8 => "[0xFF"@ + hex2(imm8) + "]"@,
        LoadByteTarget::DC => "[0xFF00+C]"@,
    }
}

pub open spec fn hl_text(op: LoadOperation) -> Seq<char> {
    match op {
        LoadOperation::HLI => "[HL+]"@,
        LoadOperation::HLD => "[HL-]"@,
        LoadOperation::Keep => "[HL]"@,
    }
}

pub open spec fn word_load_text(t: LoadWordTarget, s: LoadWordSource, imm8: u8, imm16: u16) -> Seq<char> {
    let target = match t {
        LoadWordTarget::BC => "BC"@,
        LoadWordTarget::DE => "DE"@,
        LoadWordTarget::HL => "HL"@,
        LoadWordTarget::SP => "SP"@,
        LoadWordTarget::MN16 => "[0x"@ + hex4(imm16) + "]"@,
    };
    let source = match s {
        LoadWordSource::N16 => "0x"@ + hex4(imm16),
        LoadWordSource::SP => "SP"@,
        LoadWordSource::HL => "HL"@,
        LoadWordSource::SPE8 => "SP+0x"@ + hex2(imm8),
    };
    target + ", "@ + source
}

/// The text of instruction `i` (its opcode at some address, `imm8` and
/// `imm16` the byte and word after it).
pub open spec fn instruction_text(i: Instruction, imm8: u8, imm16: u16) -> Seq<char> {
    match i {
        Instruction::ADD(ArithmeticType::Word(t)) | Instruction::INC(ArithmeticType::Word(t))
        | Instruction::DEC(ArithmeticType::Word(t)) | Instruction::PUSH(t) | Instruction::POP(t) =>
            mnemonic_spec(i) + " "@ + word_target_name(t),
        Instruction::ADD(ArithmeticType::Byte(t)) | Instruction::INC(ArithmeticType::Byte(t))
        | Instruction::DEC(ArithmeticType::Byte(t)) | Instruction::ADC(t) | Instruction::SUB(t)
        | Instruction::SBC(t) | Instruction::AND(t) | Instruction::OR(t) | Instruction::XOR(t)
        | Instruction::CP(t) => mnemonic_spec(i) + " "@ + byte_operand_text(t, imm8),
        Instruction::ADDSP => "ADD SP, 0x"@ + hex2(imm8),
        Instruction::JP(c, JumpTarget::N16) | Instruction::CALL(c) => mnemonic_spec(i) + " "@
            + condition_prefix(c) + "0x"@ + hex4(imm16),
        Instruction::JP(_, JumpTarget::HL) => "JP HL"@,
        Instruction::JR(c) => mnemonic_spec(i) + " "@ + condition_prefix(c) + "0x"@ + hex2(imm8),
        Instruction::RET(c) => mnemonic_spec(i) + " "@ + condition_prefix(c),
        Instruction::RST(n) => mnemonic_spec(i) + " 0x"@ + hex2((n % 256) as u8),
        Instruction::LD(LoadType::Byte(t, s), op) => mnemonic_spec(i) + " "@ + load_target_text(t, op, imm8, imm16)
            + ", "@ + load_source_text(s, op, imm8, imm16),
        Instruction::LD(LoadType::Word(t, s), _) => mnemonic_spec(i) + " "@ + word_load_text(t, s, imm8, imm16),
        _ => mnemonic_spec(i),
    }
}

/// The text of prefixed operation `i` on operand `t`.
pub open spec fn prefixed_text(i: Instruction, t: ArithmeticByteTarget) -> Seq<char> {
    match i {
        Instruction::SHIFT(kind) => shift_name(kind) + " "@ + byte_target_name(t),
        Instruction::BIT(n) | Instruction::RES(n) | Instruction::SET(n) => mnemonic_spec(i) + " "@
            + hex_digit(n as int) + ", "@ + byte_target_name(t),
        _ => mnemonic_spec(i),
    }
}

} // verus!

verus! {

fn append_byte_operand(s: &mut String, t: ArithmeticByteTarget, imm: u8)
    ensures
        final(s)@ =~= old(s)@ + byte_operand_text(t, imm),
{
    if t == ArithmeticByteTarget::N8 {
        s.append("0x");
        append_hex2(s, imm);
    } else {
        s.append(get_arithmetic_byte_target_string(t));
    }
}

fn append_hl(s: &mut String, op: LoadOperation)
    ensures
        final(s)@ =~= old(s)@ + hl_text(op),
{
    match op {
        LoadOperation::HLI => s.append("[HL+]"),
        LoadOperation::HLD => s.append("[HL-]"),
        LoadOperation::Keep => s.append("[HL]"),
    }
}

fn append_load_source(s: &mut String, src: LoadByteSource, op: LoadOperation, imm8: u8, imm16: u16)
    ensures
        final(s)@ =~= old(s)@ + load_source_text(src, op, imm8, imm16),
{
    match src {
        LoadByteSource::A => s.append("A"),
        LoadByteSource::B => s.append("B"),
        LoadByteSource::C => s.append("C"),
        LoadByteSource::D => s.append("D"),
        LoadByteSource::E => s.append("E"),
        LoadByteSource::H => s.append("H"),
        LoadByteSource::L => s.append("L"),
        LoadByteSource::N8 => {
            s.append("0x");
            append_hex2(s, imm8);
        },
        LoadByteSource::DN8 => {
            s.append("[0xFF");
            append_hex2(s, imm8);
            s.append("]");
        },
        LoadByteSource::DC => s.append("[0xFF00+C]"),
        LoadByteSource::MHL => append_hl(s, op),
        LoadByteSource::MBC => s.append("[BC]"),
        LoadByteSource::MDE => s.append("[DE]"),
        LoadByteSource::MN16 => {
            s.append("[0x");
            append_hex4(s, imm16);
            s.append("]");
        },
    }
}

fn append_load_target(s: &mut String, t: LoadByteTarget, op: LoadOperation, imm8: u8, imm16: u16)
    ensures
        final(s)@ =~= old(s)@ + load_target_text(t, op, imm8, imm16),
{
    match t {
        LoadByteTarget::A => s.append("A"),
        LoadByteTarget::B => s.append("B"),
        LoadByteTarget::C => s.append("C"),
        LoadByteTarget::D => s.append("D"),
        LoadByteTarget::E => s.append("E"),
        LoadByteTarget::H => s.append("H"),
        LoadByteTarget::L => s.append("L"),
        LoadByteTarget::MHL => append_hl(s, op),
        LoadByteTarget::MBC => s.append("[BC]"),
        LoadByteTarget::MDE => s.append("[DE]"),
        LoadByteTarget::MN16 => {
            s.append("[0x");
            append_hex4(s, imm16);
            s.append("]");
        },
        LoadByteTarget::DN8 => {
            s.append("[0xFF");
            append_hex2(s, imm8);
            s.append("]");
        },
        LoadByteTarget::DC => s.append("[0xFF00+C]"),
    }
}

fn append_word_load(s: &mut String, t: LoadWordTarget, src: LoadWordSource, imm8: u8, imm16: u16)
    ensures
        final(s)@ =~= old(s)@ + word_load_text(t, src, imm8, imm16),
{
    let ghost s0 = s@;
    match t {
        LoadWordTarget::BC => s.append("BC"),
        LoadWordTarget::DE => s.append("DE"),
        LoadWordTarget::HL => s.append("HL"),
        LoadWordTarget::SP => s.append("SP"),
        LoadWordTarget::MN16 => {
            s.append("[0x");
            append_hex4(s, imm16);
            s.append("]");
        },
    }
    let ghost s1 = s@;
    s.append(", ");
    match src {
        LoadWordSource::N16 => {
            s.append("0x");
            append_hex4(s, imm16);
        },
        LoadWordSource::SP => s.append("SP"),
        LoadWordSource::HL => s.append("HL"),
        LoadWordSource::SPE8 => {
            s.append("SP+0x");
            append_hex2(s, imm8);
        },
    }
    assert(s@ =~= s0 + word_load_text(t, src, imm8, imm16));
}

/// The text of an unprefixed instruction; `imm8` and `imm16` are the byte
/// and the word after its opcode.
pub fn instruction_string(i: Instruction, imm8: u8, imm16: u16) -> (r: String)
    ensures
        r@ =~= instruction_text(i, imm8, imm16),
{
    let names = Disassembler::new();
    let mut s = String::from_str(names.mnemonic(i));
    match i {
        Instruction::ADD(ArithmeticType::Word(t)) | Instruction::INC(ArithmeticType::Word(t))
        | Instruction::DEC(ArithmeticType::Word(t)) | Instruction::PUSH(t) | Instruction::POP(t) => {
            s.append(" ");
            s.append(get_arithmetic_word_target_string(t));
            assert(s@ =~= instruction_text(i, imm8, imm16));
        },
        Instruction::ADD(ArithmeticType::Byte(t)) | Instruction::INC(ArithmeticType::Byte(t))
        | Instruction::DEC(ArithmeticType::Byte(t)) | Instruction::ADC(t) | Instruction::SUB(t)
        | Instruction::SBC(t) | Instruction::AND(t) | Instruction::OR(t) | Instruction::XOR(t)
        | Instruction::CP(t) => {
            s.append(" ");
            append_byte_operand(&mut s, t, imm8);
            assert(s@ =~= instruction_text(i, imm8, imm16));
        },
        Instruction::ADDSP => {
            s = String::from_str("ADD SP, 0x");
            append_hex2(&mut s, imm8);
            assert(s@ =~= instruction_text(i, imm8, imm16));
        },
        Instruction::JP(c, JumpTarget::N16) | Instruction::CALL(c) => {
            s.append(" ");
            s.append(get_jump_condition_string(c));
            s.append("0x");
            append_hex4(&mut s, imm16);
            assert(s@ =~= instruction_text(i, imm8, imm16));
        },
        Instruction::JP(_, JumpTarget::HL) => {
            s = String::from_str("JP HL");
            assert(s@ =~= instruction_text(i, imm8, imm16));
        },
        Instruction::JR(c) => {
            s.append(" ");
            s.append(get_jump_condition_string(c));
            s.append("0x");
            append_hex2(&mut s, imm8);
            assert(s@ =~= instruction_text(i, imm8, imm16));
        },
        Instruction::RET(c) => {
            s.append(" ");
            s.append(get_jump_condition_string(c));
            assert(s@ =~= instruction_text(i, imm8, imm16));
        },
        Instruction::RST(n) => {
            s.append(" 0x");
            append_hex2(&mut s, (n % 256) as u8);
            assert(s@ =~= instruction_text(i, imm8, imm16));
        },
        Instruction::LD(LoadType::Byte(t, src), op) => {
            s.append(" ");
            append_load_target(&mut s, t, op, imm8, imm16);
            s.append(", ");
            append_load_source(&mut s, src, op, imm8, imm16);
            assert(s@ =~= instruction_text(i, imm8, imm16));
        },
        Instruction::LD(LoadType::Word(t, src), _) => {
            s.append(" ");
            append_word_load(&mut s, t, src, imm8, imm16);
            assert(s@ =~= instruction_text(i, imm8, imm16));
        },
        _ => {},
    }
    assert(s@ =~= instruction_text(i, imm8, imm16));
    s
}

/// The text of prefixed operation `i` on operand `t`.
pub fn prefixed_string(i: Instruction, t: ArithmeticByteTarget) -> (r: String)
    requires
        match i {
            Instruction::BIT(n) | Instruction::RES(n) | Instruction::SET(n) => n < 8,
            _ => true,
        },
    ensures
        r@ =~= prefixed_text(i, t),
{
    let names = Disassembler::new();
    match i {
        Instruction::SHIFT(kind) => {
            let mut s = String::from_str(shift_name_str(kind));
            s.append(" ");
            s.append(get_arithmetic_byte_target_string(t));
            s
        },
        Instruction::BIT(n) | Instruction::RES(n) | Instruction::SET(n) => {
            let mut s = String::from_str(names.mnemonic(i));
            s.append(" ");
            s.append(hex_digit_str(n));
            s.append(", ");
            s.append(get_arithmetic_byte_target_string(t));
            s
        },
        _ => String::from_str(names.mnemonic(i)),
    }
}

/// One trace line for the instruction at `pc`: its address in hexadecimal,
/// then its text.
pub fn disassemble_instruction(bus: &Bus, pc: u16) -> (r: String)
    requires
        bus.wf(),
    ensures
        r@ =~= "0x"@ + hex4(pc) + ": "@ + {
            let op = bus.read_spec(pc);
            let next = wrap16(pc + 1);
            if op == 0xCB {
                let d = prefix_decode_spec(bus.read_spec(next));
                prefixed_text(d.0.0, d.1)
            } else {
                instruction_text(decode_spec(op).0, bus.read_spec(next), bus.read16_spec(next))
            }
        },
{
    let mut s = String::from_str("0x");
    append_hex4(&mut s, pc);
    s.append(": ");
    let op = bus.fetch8(pc);
    let next = pc.wrapping_add(1);
    let text = if op == 0xCB {
        let ((i, _), t) = parse_prefix_instruction(bus.fetch8(next));
        prefixed_string(i, t)
    } else {
        let (i, _) = decode(op);
        instruction_string(i, bus.fetch8(next), bus.fetch16(next))
    };
    s.append(text.as_str());
    s
}

} // verus!
