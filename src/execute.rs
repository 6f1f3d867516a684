//! What each instruction does, stated once as a relation between the state
//! before and after it, and the executors proved against that relation.

use vstd::prelude::*;
use crate::alu::{
    Flags, ShiftKind, add_spec, sub_spec, inc_spec, dec_spec, add_hl_spec, add_sp_spec,
    accumulator_rotate_spec, prefixed_shift_spec, cpl_spec, daa_spec, test_bit_spec,
    set_bit_spec, reset_bit_spec, lemma_flags_low_nibble,
};
use crate::alu;
use crate::bus::{Bus, wrote16, is_plain_ram, ram_cell, lemma_plain_ram_write};
use crate::cpu::{Cpu, pushed, wrap16};
use crate::instructions::{
    ArithmeticByteTarget, ArithmeticType, ArithmeticWordTarget, Instruction, JumpCondition,
    JumpTarget, LoadByteSource, LoadByteTarget, LoadOperation, LoadType, LoadWordSource,
    LoadWordTarget,
};
use crate::interrupts::Interrupts;
use crate::memory::word_of;

verus! {

/// ALU operation `y` (ADD ADC SUB SBC AND XOR OR CP) on A and `x`.
pub open spec fn alu_spec(y: u8, a: u8, x: u8, f: Flags) -> (u8, Flags) {
    if y == 0 {
        add_spec(a, x, false)
    } else if y == 1 {
        add_spec(a, x, f.carry)
    } else if y == 2 {
        sub_spec(a, x, false)
    } else if y == 3 {
        sub_spec(a, x, f.carry)
    } else if y == 4 {
        (a & x, Flags { zero: a & x == 0, subtract: false, halfcarry: true, carry: false })
    } else if y == 5 {
        (a ^ x, Flags { zero: a ^ x == 0, subtract: false, halfcarry: false, carry: false })
    } else if y == 6 {
        (a | x, Flags { zero: a | x == 0, subtract: false, halfcarry: false, carry: false })
    } else {
        (a, sub_spec(a, x, false).1)
    }
}

/// The signed value of an offset byte.
pub open spec fn signed(e: u8) -> int {
    if e >= 128 {
        e - 256
    } else {
        e as int
    }
}

pub open spec fn load_reg(t: LoadByteTarget) -> ArithmeticByteTarget {
    match t {
        LoadByteTarget::A => ArithmeticByteTarget::A,
        LoadByteTarget::B => ArithmeticByteTarget::B,
        LoadByteTarget::C => ArithmeticByteTarget::C,
        LoadByteTarget::D => ArithmeticByteTarget::D,
        LoadByteTarget::E => ArithmeticByteTarget::E,
        LoadByteTarget::H => ArithmeticByteTarget::H,
        _ => ArithmeticByteTarget::L,
    }
}

pub open spec fn is_register_target(t: LoadByteTarget) -> bool {
    match t {
        LoadByteTarget::A | LoadByteTarget::B | LoadByteTarget::C | LoadByteTarget::D
        | LoadByteTarget::E | LoadByteTarget::H | LoadByteTarget::L => true,
        _ => false,
    }
}

/// Whether `i` is a conditional branch whose condition holds in `c`.
pub open spec fn branch_taken(c: &Cpu, i: Instruction) -> bool {
    match i {
        Instruction::JR(cond) => cond != JumpCondition::NONE && c.condition_spec(cond),
        Instruction::JP(cond, _) => cond != JumpCondition::NONE && c.condition_spec(cond),
        Instruction::CALL(cond) => cond != JumpCondition::NONE && c.condition_spec(cond),
        Instruction::RET(cond) => cond != JumpCondition::NONE && c.condition_spec(cond),
        _ => false,
    }
}

/// Cycles that a taken conditional branch adds to its base cycles.
pub open spec fn branch_extra(i: Instruction) -> u8 {
    match i {
        Instruction::JR(_) => 4,
        Instruction::JP(_, _) => 4,
        Instruction::CALL(_) => 12,
        Instruction::RET(_) => 12,
        _ => 0,
    }
}

impl Cpu {
    pub open spec fn hl_stepped(&self, op: LoadOperation) -> Cpu {
        match op {
            LoadOperation::HLI => self.with_word(ArithmeticWordTarget::HL, wrap16(self.hl_spec() + 1)),
            LoadOperation::HLD => self.with_word(ArithmeticWordTarget::HL, wrap16(self.hl_spec() - 1)),
            LoadOperation::Keep => *self,
        }
    }

    /// The byte a load reads from `s`.
    pub open spec fn load_source_value(&self, bus: &Bus, s: LoadByteSource) -> u8 {
        let pc = self.program_counter;
        match s {
            LoadByteSource::A => self.a,
            LoadByteSource::B => self.b,
            LoadByteSource::C => self.c,
            LoadByteSource::D => self.d,
            LoadByteSource::E => self.e,
            LoadByteSource::H => self.h,
            LoadByteSource::L => self.l,
            LoadByteSource::N8 => bus.read_spec(pc),
            LoadByteSource::DN8 => bus.read_spec((0xFF00 + bus.read_spec(pc)) as u16),
            LoadByteSource::DC => bus.read_spec((0xFF00 + self.c) as u16),
            LoadByteSource::MHL => bus.read_spec(self.hl_spec()),
            LoadByteSource::MBC => bus.read_spec(self.bc_spec()),
            LoadByteSource::MDE => bus.read_spec(self.de_spec()),
            LoadByteSource::MN16 => bus.read_spec(bus.read16_spec(pc)),
        }
    }

    /// Immediate bytes a load source takes.
    pub open spec fn source_len(s: LoadByteSource) -> int {
        match s {
            LoadByteSource::N8 | LoadByteSource::DN8 => 1,
            LoadByteSource::MN16 => 2,
            _ => 0,
        }
    }

    /// The address a load stores to, for a memory target (PC at its immediates).
    pub open spec fn load_target_address(&self, bus: &Bus, t: LoadByteTarget) -> u16 {
        match t {
            LoadByteTarget::MBC => self.bc_spec(),
            LoadByteTarget::MDE => self.de_spec(),
            LoadByteTarget::MN16 => bus.read16_spec(self.program_counter),
            LoadByteTarget::DN8 => (0xFF00 + bus.read_spec(self.program_counter)) as u16,
            LoadByteTarget::DC => (0xFF00 + self.c) as u16,
            _ => self.hl_spec(),
        }
    }

    pub open spec fn target_len(t: LoadByteTarget) -> int {
        match t {
            LoadByteTarget::DN8 => 1,
            LoadByteTarget::MN16 => 2,
            _ => 0,
        }
    }

    /// An 8-bit load from `s` into `t`, then the HL step `op`.
    pub open spec fn byte_loaded(
        c0: &Cpu,
        b0: &Bus,
        t: LoadByteTarget,
        s: LoadByteSource,
        op: LoadOperation,
        c1: &Cpu,
        b1: &Bus,
    ) -> bool {
        let v = c0.load_source_value(b0, s);
        let c = Cpu { program_counter: wrap16(c0.program_counter + Cpu::source_len(s)), ..*c0 };
        if is_register_target(t) {
            *c1 == c.with_reg(load_reg(t), v).hl_stepped(op) && *b1 == *b0
        } else {
            &&& *c1 == (Cpu {
                program_counter: wrap16(c.program_counter + Cpu::target_len(t)),
                ..c
            }).hl_stepped(op)
            &&& Bus::written(b0, b1, c.load_target_address(b0, t), v)
        }
    }

    /// A 16-bit load.
    pub open spec fn word_loaded(
        c0: &Cpu,
        b0: &Bus,
        t: LoadWordTarget,
        s: LoadWordSource,
        c1: &Cpu,
        b1: &Bus,
    ) -> bool {
        let pc = c0.program_counter;
        match (t, s) {
            (LoadWordTarget::MN16, LoadWordSource::SP) => {
                &&& *c1 == (Cpu { program_counter: wrap16(pc + 2), ..*c0 })
                &&& wrote16(b0, b1, b0.read16_spec(pc), c0.stack_pointer)
            },
            (LoadWordTarget::SP, LoadWordSource::HL) => {
                *c1 == (Cpu { stack_pointer: c0.hl_spec(), ..*c0 }) && *b1 == *b0
            },
            (LoadWordTarget::HL, LoadWordSource::SPE8) => {
                let r = add_sp_spec(c0.stack_pointer, b0.read_spec(pc));
                &&& *c1 == (Cpu { program_counter: wrap16(pc + 1), flags: r.1, ..*c0 }).with_word(
                    ArithmeticWordTarget::HL,
                    r.0,
                )
                &&& *b1 == *b0
            },
            (_, LoadWordSource::N16) => {
                let w = match t {
                    LoadWordTarget::BC => ArithmeticWordTarget::BC,
                    LoadWordTarget::DE => ArithmeticWordTarget::DE,
                    LoadWordTarget::HL => ArithmeticWordTarget::HL,
                    _ => ArithmeticWordTarget::SP,
                };
                &&& t != LoadWordTarget::MN16
                &&& *c1 == (Cpu { program_counter: wrap16(pc + 2), ..*c0 }).with_word(
                    w,
                    b0.read16_spec(pc),
                )
                &&& *b1 == *b0
            },
            _ => false,
        }
    }

    /// An ALU operation on A and operand `t`.
    pub open spec fn alu_executed(c0: &Cpu, b0: &Bus, y: u8, t: ArithmeticByteTarget, c1: &Cpu, b1: &Bus) -> bool {
        let r = alu_spec(y, c0.a, c0.operand_spec(b0, t), c0.flags);
        *c1 == (Cpu { a: r.0, flags: r.1, program_counter: c0.pc_after(t), ..*c0 }) && *b1 == *b0
    }

    /// The value popped from the stack at SP.
    pub open spec fn popped(&self, bus: &Bus) -> u16 {
        word_of(bus.read_spec(self.stack_pointer), bus.read_spec(wrap16(self.stack_pointer + 1)))
    }

    /// Whether (c1, b1) is (c0, b0) after an unprefixed instruction `i`
    /// whose opcode byte has already been fetched (PC at its immediates).
    #[verifier::opaque]
    pub open spec fn executed(c0: &Cpu, b0: &Bus, i: Instruction, c1: &Cpu, b1: &Bus) -> bool {
        let pc = c0.program_counter;
        let sp = c0.stack_pointer;
        match i {
            Instruction::NOP | Instruction::HALT => *c1 == *c0 && *b1 == *b0,
            Instruction::STOP => *c1 == (Cpu { program_counter: wrap16(pc + 1), ..*c0 }) && *b1 == *b0,
            Instruction::ADD(ArithmeticType::Byte(t)) => Cpu::alu_executed(c0, b0, 0, t, c1, b1),
            Instruction::ADC(t) => Cpu::alu_executed(c0, b0, 1, t, c1, b1),
            Instruction::SUB(t) => Cpu::alu_executed(c0, b0, 2, t, c1, b1),
            Instruction::SBC(t) => Cpu::alu_executed(c0, b0, 3, t, c1, b1),
            Instruction::AND(t) => Cpu::alu_executed(c0, b0, 4, t, c1, b1),
            Instruction::XOR(t) => Cpu::alu_executed(c0, b0, 5, t, c1, b1),
            Instruction::OR(t) => Cpu::alu_executed(c0, b0, 6, t, c1, b1),
            Instruction::CP(t) => Cpu::alu_executed(c0, b0, 7, t, c1, b1),
            Instruction::ADD(ArithmeticType::Word(t)) => {
                let r = add_hl_spec(c0.hl_spec(), c0.word_spec(t), c0.flags);
                *c1 == (Cpu { flags: r.1, ..c0.with_word(ArithmeticWordTarget::HL, r.0) }) && *b1 == *b0
            },
            Instruction::INC(ArithmeticType::Byte(t)) => {
                let r = inc_spec(c0.operand_spec(b0, t), c0.flags);
                Cpu::operand_written(&Cpu { flags: r.1, ..*c0 }, b0, c1, b1, t, r.0)
            },
            Instruction::DEC(ArithmeticType::Byte(t)) => {
                let r = dec_spec(c0.operand_spec(b0, t), c0.flags);
                Cpu::operand_written(&Cpu { flags: r.1, ..*c0 }, b0, c1, b1, t, r.0)
            },
            Instruction::INC(ArithmeticType::Word(t)) => {
                *c1 == c0.with_word(t, wrap16(c0.word_spec(t) + 1)) && *b1 == *b0
            },
            Instruction::DEC(ArithmeticType::Word(t)) => {
                *c1 == c0.with_word(t, wrap16(c0.word_spec(t) - 1)) && *b1 == *b0
            },
            Instruction::ADDSP => {
                let r = add_sp_spec(sp, b0.read_spec(pc));
                *c1 == (Cpu { stack_pointer: r.0, flags: r.1, program_counter: wrap16(pc + 1), ..*c0 })
                    && *b1 == *b0
            },
            Instruction::CCF => *c1 == (Cpu {
                flags: Flags { subtract: false, halfcarry: false, carry: !c0.flags.carry, ..c0.flags },
                ..*c0
            }) && *b1 == *b0,
            Instruction::SCF => *c1 == (Cpu {
                flags: Flags { subtract: false, halfcarry: false, carry: true, ..c0.flags },
                ..*c0
            }) && *b1 == *b0,
            Instruction::RLCA => Cpu::rotated_a(c0, b0, ShiftKind::Rlc, c1, b1),
            Instruction::RRCA => Cpu::rotated_a(c0, b0, ShiftKind::Rrc, c1, b1),
            Instruction::RLA => Cpu::rotated_a(c0, b0, ShiftKind::Rl, c1, b1),
            Instruction::RRA => Cpu::rotated_a(c0, b0, ShiftKind::Rr, c1, b1),
            Instruction::CPL => {
                let r = cpl_spec(c0.a, c0.flags);
                *c1 == (Cpu { a: r.0, flags: r.1, ..*c0 }) && *b1 == *b0
            },
            Instruction::DAA => {
                let r = daa_spec(c0.a, c0.flags);
                *c1 == (Cpu { a: r.0, flags: r.1, ..*c0 }) && *b1 == *b0
            },
            Instruction::LD(LoadType::Byte(t, s), op) => Cpu::byte_loaded(c0, b0, t, s, op, c1, b1),
            Instruction::LD(LoadType::Word(t, s), _) => Cpu::word_loaded(c0, b0, t, s, c1, b1),
            Instruction::JP(cond, JumpTarget::N16) => {
                let c = Cpu { program_counter: wrap16(pc + 2), ..*c0 };
                *c1 == (if c0.condition_spec(cond) {
                    Cpu { program_counter: b0.read16_spec(pc), ..c }
                } else {
                    c
                }) && *b1 == *b0
            },
            Instruction::JP(cond, JumpTarget::HL) => {
                *c1 == (if c0.condition_spec(cond) {
                    Cpu { program_counter: c0.hl_spec(), ..*c0 }
                } else {
                    *c0
                }) && *b1 == *b0
            },
            Instruction::JR(cond) => {
                let next = wrap16(pc + 1);
                *c1 == (Cpu {
                    program_counter: if c0.condition_spec(cond) {
                        wrap16(next + signed(b0.read_spec(pc)))
                    } else {
                        next
                    },
                    ..*c0
                }) && *b1 == *b0
            },
            Instruction::CALL(cond) => {
                let next = wrap16(pc + 2);
                if c0.condition_spec(cond) {
                    &&& *c1 == (Cpu {
                        program_counter: b0.read16_spec(pc),
                        stack_pointer: wrap16(sp - 2),
                        ..*c0
                    })
                    &&& pushed(b0, b1, sp, next)
                } else {
                    *c1 == (Cpu { program_counter: next, ..*c0 }) && *b1 == *b0
                }
            },
            Instruction::RET(cond) => {
                *c1 == (if c0.condition_spec(cond) {
                    Cpu { program_counter: c0.popped(b0), stack_pointer: wrap16(sp + 2), ..*c0 }
                } else {
                    *c0
                }) && *b1 == *b0
            },
            Instruction::RETI => {
                &&& *c1 == (Cpu { program_counter: c0.popped(b0), stack_pointer: wrap16(sp + 2), ..*c0 })
                &&& *b1 == (Bus { interrupts: Interrupts { master: true, ..b0.interrupts }, ..*b0 })
            },
            Instruction::RST(n) => {
                &&& *c1 == (Cpu { program_counter: n, stack_pointer: wrap16(sp - 2), ..*c0 })
                &&& pushed(b0, b1, sp, pc)
            },
            Instruction::PUSH(t) => {
                &&& *c1 == (Cpu { stack_pointer: wrap16(sp - 2), ..*c0 })
                &&& pushed(b0, b1, sp, c0.word_spec(t))
            },
            Instruction::POP(t) => {
                &&& *c1 == (Cpu { stack_pointer: wrap16(sp + 2), ..*c0 }).with_word(t, c0.popped(b0))
                &&& *b1 == *b0
            },
            Instruction::EI => *c1 == (Cpu { ei_delay: 2, ..*c0 }) && *b1 == *b0,
            Instruction::DI => {
                &&& *c1 == (Cpu { ei_delay: 0, ..*c0 })
                &&& *b1 == (Bus { interrupts: Interrupts { master: false, ..b0.interrupts }, ..*b0 })
            },
            _ => false,
        }
    }

    pub open spec fn rotated_a(c0: &Cpu, b0: &Bus, kind: ShiftKind, c1: &Cpu, b1: &Bus) -> bool {
        let r = accumulator_rotate_spec(kind, c0.a, c0.flags);
        *c1 == (Cpu { a: r.0, flags: r.1, ..*c0 }) && *b1 == *b0
    }

    /// Whether (c1, b1) is (c0, b0) after prefixed instruction `i` on operand `t`.
    pub open spec fn prefix_executed(
        c0: &Cpu,
        b0: &Bus,
        i: Instruction,
        t: ArithmeticByteTarget,
        c1: &Cpu,
        b1: &Bus,
    ) -> bool {
        let v = c0.operand_spec(b0, t);
        match i {
            Instruction::SHIFT(kind) => {
                let r = prefixed_shift_spec(kind, v, c0.flags);
                Cpu::operand_written(&Cpu { flags: r.1, ..*c0 }, b0, c1, b1, t, r.0)
            },
            Instruction::BIT(n) => *c1 == (Cpu { flags: test_bit_spec(v, n, c0.flags), ..*c0 })
                && *b1 == *b0,
            Instruction::RES(n) => Cpu::operand_written(c0, b0, c1, b1, t, reset_bit_spec(v, n)),
            Instruction::SET(n) => Cpu::operand_written(c0, b0, c1, b1, t, set_bit_spec(v, n)),
            _ => false,
        }
    }
}

} // verus!

verus! {

/// Instructions that `Cpu::execute` runs (all but the prefix byte, the
/// undefined opcodes and the prefixed operations).
pub open spec fn is_unprefixed(i: Instruction) -> bool {
    match i {
        Instruction::PREFIX | Instruction::UNDEFINED | Instruction::SHIFT(_) | Instruction::BIT(_)
        | Instruction::RES(_) | Instruction::SET(_) => false,
        Instruction::LD(LoadType::Word(t, s), _) => match (t, s) {
            (LoadWordTarget::MN16, LoadWordSource::SP) => true,
            (LoadWordTarget::SP, LoadWordSource::HL) => true,
            (LoadWordTarget::HL, LoadWordSource::SPE8) => true,
            (LoadWordTarget::MN16, _) => false,
            (_, LoadWordSource::N16) => true,
            _ => false,
        },
        _ => true,
    }
}

impl Cpu {
    fn alu8(&mut self, bus: &Bus, y: u8, t: ArithmeticByteTarget, instruction: Instruction)
        requires
            bus.wf(),
            y < 8,
            instruction == (if y == 0 {
                Instruction::ADD(ArithmeticType::Byte(t))
            } else if y == 1 {
                Instruction::ADC(t)
            } else if y == 2 {
                Instruction::SUB(t)
            } else if y == 3 {
                Instruction::SBC(t)
            } else if y == 4 {
                Instruction::AND(t)
            } else if y == 5 {
                Instruction::XOR(t)
            } else if y == 6 {
                Instruction::OR(t)
            } else {
                Instruction::CP(t)
            }),
        ensures
            Cpu::executed(old(self), bus, instruction, final(self), bus),
    {
        reveal(Cpu::executed);
        let x = self.read_arithmetic_byte_target(bus, t);
        let a = self.a;
        let c = self.flags.carry;
        let r = if y == 0 {
            alu::add(a, x, false)
        } else if y == 1 {
            alu::add(a, x, c)
        } else if y == 2 {
            alu::sub(a, x, false)
        } else if y == 3 {
            alu::sub(a, x, c)
        } else if y == 4 {
            alu::and(a, x)
        } else if y == 5 {
            alu::xor(a, x)
        } else if y == 6 {
            alu::or(a, x)
        } else {
            let s = alu::sub(a, x, false);
            (a, s.1)
        };
        self.a = r.0;
        self.flags = r.1;
    }

    fn load_source(&mut self, bus: &Bus, s: LoadByteSource) -> (r: u8)
        requires
            bus.wf(),
        ensures
            r == old(self).load_source_value(bus, s),
            *final(self) == (Cpu {
                program_counter: wrap16(old(self).program_counter + Cpu::source_len(s)),
                ..*old(self)
            }),
    {
        match s {
            LoadByteSource::A => self.a,
            LoadByteSource::B => self.b,
            LoadByteSource::C => self.c,
            LoadByteSource::D => self.d,
            LoadByteSource::E => self.e,
            LoadByteSource::H => self.h,
            LoadByteSource::L => self.l,
            LoadByteSource::N8 => self.next_byte(bus),
            LoadByteSource::DN8 => {
                let n = self.next_byte(bus);
                bus.fetch8(0xFF00 + n as u16)
            },
            LoadByteSource::DC => bus.fetch8(0xFF00 + self.c as u16),
            LoadByteSource::MHL => bus.fetch8(self.hl()),
            LoadByteSource::MBC => bus.fetch8(self.bc()),
            LoadByteSource::MDE => bus.fetch8(self.de()),
            LoadByteSource::MN16 => {
                let address = self.next_word(bus);
                bus.fetch8(address)
            },
        }
    }

    fn store_target(&mut self, bus: &mut Bus, t: LoadByteTarget, v: u8)
        requires
            old(bus).wf(),
        ensures
            final(bus).wf(),
            is_register_target(t) ==> *final(self) == old(self).with_reg(load_reg(t), v)
                && *final(bus) == *old(bus),
            !is_register_target(t) ==> *final(self) == (Cpu {
                program_counter: wrap16(old(self).program_counter + Cpu::target_len(t)),
                ..*old(self)
            }) && Bus::written(old(bus), final(bus), old(self).load_target_address(old(bus), t), v),
    {
        match t {
            LoadByteTarget::A => self.a = v,
            LoadByteTarget::B => self.b = v,
            LoadByteTarget::C => self.c = v,
            LoadByteTarget::D => self.d = v,
            LoadByteTarget::E => self.e = v,
            LoadByteTarget::H => self.h = v,
            LoadByteTarget::L => self.l = v,
            LoadByteTarget::MHL => bus.write8(self.hl(), v),
            LoadByteTarget::MBC => bus.write8(self.bc(), v),
            LoadByteTarget::MDE => bus.write8(self.de(), v),
            LoadByteTarget::MN16 => {
                let address = self.next_word(bus);
                bus.write8(address, v);
            },
            LoadByteTarget::DN8 => {
                let n = self.next_byte(bus);
                bus.write8(0xFF00 + n as u16, v);
            },
            LoadByteTarget::DC => bus.write8(0xFF00 + self.c as u16, v),
        }
    }

    fn step_hl(&mut self, op: LoadOperation)
        ensures
            *final(self) == old(self).hl_stepped(op),
    {
        match op {
            LoadOperation::HLI => {
                let hl = self.hl();
                self.set_hl(hl.wrapping_add(1));
            },
            LoadOperation::HLD => {
                let hl = self.hl();
                self.set_hl(hl.wrapping_sub(1));
            },
            LoadOperation::Keep => {},
        }
    }

    fn ld_byte(&mut self, bus: &mut Bus, t: LoadByteTarget, s: LoadByteSource, op: LoadOperation)
        requires
            old(bus).wf(),
        ensures
            final(bus).wf(),
            Cpu::executed(old(self), old(bus), Instruction::LD(LoadType::Byte(t, s), op), final(self), final(bus)),
    {
        reveal(Cpu::executed);
        let v = self.load_source(bus, s);
        self.store_target(bus, t, v);
        self.step_hl(op);
    }

    fn ld_word(&mut self, bus: &mut Bus, t: LoadWordTarget, s: LoadWordSource, op: LoadOperation)
        requires
            old(bus).wf(),
            is_unprefixed(Instruction::LD(LoadType::Word(t, s), op)),
        ensures
            final(bus).wf(),
            Cpu::executed(old(self), old(bus), Instruction::LD(LoadType::Word(t, s), op), final(self), final(bus)),
    {
        reveal(Cpu::executed);
        match (t, s) {
            (LoadWordTarget::MN16, LoadWordSource::SP) => {
                let address = self.next_word(bus);
                bus.write16(address, self.stack_pointer);
            },
            (LoadWordTarget::SP, LoadWordSource::HL) => {
                self.stack_pointer = self.hl();
            },
            (LoadWordTarget::HL, LoadWordSource::SPE8) => {
                let e = self.next_byte(bus);
                let r = alu::add_sp(self.stack_pointer, e);
                self.flags = r.1;
                self.set_hl(r.0);
            },
            (LoadWordTarget::BC, _) => {
                let v = self.next_word(bus);
                self.set_bc(v);
            },
            (LoadWordTarget::DE, _) => {
                let v = self.next_word(bus);
                self.set_de(v);
            },
            (LoadWordTarget::HL, _) => {
                let v = self.next_word(bus);
                self.set_hl(v);
            },
            (_, _) => {
                let v = self.next_word(bus);
                self.stack_pointer = v;
            },
        }
    }

    fn inc_dec_byte(&mut self, bus: &mut Bus, t: ArithmeticByteTarget, up: bool)
        requires
            old(bus).wf(),
        ensures
            final(bus).wf(),
            Cpu::executed(
                old(self),
                old(bus),
                if up {
                    Instruction::INC(ArithmeticType::Byte(t))
                } else {
                    Instruction::DEC(ArithmeticType::Byte(t))
                },
                final(self),
                final(bus),
            ),
    {
        reveal(Cpu::executed);
        let v = match t {
            ArithmeticByteTarget::MHL => bus.fetch8(self.hl()),
            ArithmeticByteTarget::N8 => bus.fetch8(self.program_counter),
            _ => self.read_arithmetic_byte_target(bus, t),
        };
        let r = if up {
            alu::inc(v, self.flags)
        } else {
            alu::dec(v, self.flags)
        };
        self.flags = r.1;
        self.write_arithmetic_byte_target(bus, t, r.0);
    }

    fn inc_dec_word(&mut self, bus: &Bus, t: ArithmeticWordTarget, up: bool)
        ensures
            Cpu::executed(
                old(self),
                bus,
                if up {
                    Instruction::INC(ArithmeticType::Word(t))
                } else {
                    Instruction::DEC(ArithmeticType::Word(t))
                },
                final(self),
                bus,
            ),
    {
        reveal(Cpu::executed);
        let v = self.read_arithmetic_word_target(t);
        let w = if up {
            v.wrapping_add(1)
        } else {
            v.wrapping_sub(1)
        };
        self.write_arithmetic_word_target(t, w);
    }

    fn jump(&mut self, bus: &Bus, cond: JumpCondition, target: JumpTarget) -> (taken: bool)
        requires
            bus.wf(),
        ensures
            Cpu::executed(old(self), bus, Instruction::JP(cond, target), final(self), bus),
            taken == branch_taken(old(self), Instruction::JP(cond, target)),
    {
        reveal(Cpu::executed);
        let address = match target {
            JumpTarget::N16 => self.next_word(bus),
            JumpTarget::HL => self.hl(),
        };
        let met = self.jump_condition_met(cond);
        if met {
            self.program_counter = address;
        }
        met && cond != JumpCondition::NONE
    }

    fn jump_relative(&mut self, bus: &Bus, cond: JumpCondition) -> (taken: bool)
        requires
            bus.wf(),
        ensures
            Cpu::executed(old(self), bus, Instruction::JR(cond), final(self), bus),
            taken == branch_taken(old(self), Instruction::JR(cond)),
    {
        reveal(Cpu::executed);
        let e = self.next_byte(bus);
        let met = self.jump_condition_met(cond);
        if met {
            let offset: i32 = if e >= 128 { e as i32 - 256 } else { e as i32 };
            self.program_counter = ((self.program_counter as i32 + offset + 65536) % 65536) as u16;
        }
        met && cond != JumpCondition::NONE
    }

    fn call(&mut self, bus: &mut Bus, cond: JumpCondition) -> (taken: bool)
        requires
            old(bus).wf(),
        ensures
            final(bus).wf(),
            Cpu::executed(old(self), old(bus), Instruction::CALL(cond), final(self), final(bus)),
            taken == branch_taken(old(self), Instruction::CALL(cond)),
    {
        reveal(Cpu::executed);
        let address = self.next_word(bus);
        let met = self.jump_condition_met(cond);
        if met {
            let pc = self.program_counter;
            self.push16(bus, pc);
            self.program_counter = address;
        }
        met && cond != JumpCondition::NONE
    }

    fn ret(&mut self, bus: &mut Bus, cond: JumpCondition) -> (taken: bool)
        requires
            old(bus).wf(),
        ensures
            final(bus).wf(),
            Cpu::executed(old(self), old(bus), Instruction::RET(cond), final(self), final(bus)),
            taken == branch_taken(old(self), Instruction::RET(cond)),
    {
        reveal(Cpu::executed);
        let met = self.jump_condition_met(cond);
        if met {
            self.program_counter = self.pop16(bus);
        }
        met && cond != JumpCondition::NONE
    }

    fn reti(&mut self, bus: &mut Bus)
        requires
            old(bus).wf(),
        ensures
            final(bus).wf(),
            Cpu::executed(old(self), old(bus), Instruction::RETI, final(self), final(bus)),
    {
        reveal(Cpu::executed);
        self.program_counter = self.pop16(bus);
        bus.interrupts.enable_master();
    }

    fn rst(&mut self, bus: &mut Bus, n: u16)
        requires
            old(bus).wf(),
        ensures
            final(bus).wf(),
            Cpu::executed(old(self), old(bus), Instruction::RST(n), final(self), final(bus)),
    {
        reveal(Cpu::executed);
        let pc = self.program_counter;
        self.push16(bus, pc);
        self.program_counter = n;
    }

    fn misc(&mut self, bus: &mut Bus, instruction: Instruction)
        requires
            old(bus).wf(),
            match instruction {
                Instruction::NOP | Instruction::HALT | Instruction::STOP | Instruction::ADDSP
                | Instruction::CCF | Instruction::SCF | Instruction::RLCA | Instruction::RRCA
                | Instruction::RLA | Instruction::RRA | Instruction::CPL | Instruction::DAA
                | Instruction::PUSH(_) | Instruction::POP(_) | Instruction::EI | Instruction::DI => true,
                Instruction::ADD(ArithmeticType::Word(_)) => true,
                _ => false,
            },
        ensures
            final(bus).wf(),
            Cpu::executed(old(self), old(bus), instruction, final(self), final(bus)),
    {
        reveal(Cpu::executed);
        match instruction {
            Instruction::STOP => {
                self.program_counter = self.program_counter.wrapping_add(1);
            },
            Instruction::ADDSP => {
                let e = self.next_byte(bus);
                let r = alu::add_sp(self.stack_pointer, e);
                self.stack_pointer = r.0;
                self.flags = r.1;
            },
            Instruction::ADD(ArithmeticType::Word(t)) => {
                let v = self.read_arithmetic_word_target(t);
                let r = alu::add_hl(self.hl(), v, self.flags);
                self.set_hl(r.0);
                self.flags = r.1;
            },
            Instruction::CCF => {
                self.flags.carry = !self.flags.carry;
                self.flags.subtract = false;
                self.flags.halfcarry = false;
            },
            Instruction::SCF => {
                self.flags.carry = true;
                self.flags.subtract = false;
                self.flags.halfcarry = false;
            },
            Instruction::RLCA => {
                let r = alu::accumulator_rotate(ShiftKind::Rlc, self.a, self.flags);
                self.a = r.0;
                self.flags = r.1;
            },
            Instruction::RRCA => {
                let r = alu::accumulator_rotate(ShiftKind::Rrc, self.a, self.flags);
                self.a = r.0;
                self.flags = r.1;
            },
            Instruction::RLA => {
                let r = alu::accumulator_rotate(ShiftKind::Rl, self.a, self.flags);
                self.a = r.0;
                self.flags = r.1;
            },
            Instruction::RRA => {
                let r = alu::accumulator_rotate(ShiftKind::Rr, self.a, self.flags);
                self.a = r.0;
                self.flags = r.1;
            },
            Instruction::CPL => {
                let r = alu::cpl(self.a, self.flags);
                self.a = r.0;
                self.flags = r.1;
            },
            Instruction::DAA => {
                let r = alu::daa(self.a, self.flags);
                self.a = r.0;
                self.flags = r.1;
            },
            Instruction::PUSH(t) => {
                let v = self.read_arithmetic_word_target(t);
                self.push16(bus, v);
            },
            Instruction::POP(t) => {
                let v = self.pop16(bus);
                self.write_arithmetic_word_target(t, v);
            },
            Instruction::EI => {
                self.ei_delay = 2;
            },
            Instruction::DI => {
                self.ei_delay = 0;
                bus.interrupts.disable_master();
            },
            _ => {},
        }
    }

    /// Runs an unprefixed instruction whose opcode has been fetched; returns
    /// whether it was a conditional branch that was taken.
    #[verifier::rlimit(50)]
    pub fn execute(&mut self, bus: &mut Bus, instruction: Instruction) -> (taken: bool)
        requires
            old(bus).wf(),
            is_unprefixed(instruction),
        ensures
            final(bus).wf(),
            Cpu::executed(old(self), old(bus), instruction, final(self), final(bus)),
            taken == branch_taken(old(self), instruction),
    {
        match instruction {
            Instruction::ADD(ArithmeticType::Byte(t)) => {
                self.alu8(bus, 0, t, instruction);
                false
            },
            Instruction::ADC(t) => {
                self.alu8(bus, 1, t, instruction);
                false
            },
            Instruction::SUB(t) => {
                self.alu8(bus, 2, t, instruction);
                false
            },
            Instruction::SBC(t) => {
                self.alu8(bus, 3, t, instruction);
                false
            },
            Instruction::AND(t) => {
                self.alu8(bus, 4, t, instruction);
                false
            },
            Instruction::XOR(t) => {
                self.alu8(bus, 5, t, instruction);
                false
            },
            Instruction::OR(t) => {
                self.alu8(bus, 6, t, instruction);
                false
            },
            Instruction::CP(t) => {
                self.alu8(bus, 7, t, instruction);
                false
            },
            Instruction::INC(ArithmeticType::Byte(t)) => {
                self.inc_dec_byte(bus, t, true);
                false
            },
            Instruction::DEC(ArithmeticType::Byte(t)) => {
                self.inc_dec_byte(bus, t, false);
                false
            },
            Instruction::INC(ArithmeticType::Word(t)) => {
                self.inc_dec_word(bus, t, true);
                false
            },
            Instruction::DEC(ArithmeticType::Word(t)) => {
                self.inc_dec_word(bus, t, false);
                false
            },
            Instruction::LD(LoadType::Byte(t, s), op) => {
                self.ld_byte(bus, t, s, op);
                false
            },
            Instruction::LD(LoadType::Word(t, s), op) => {
                self.ld_word(bus, t, s, op);
                false
            },
            Instruction::JP(cond, target) => self.jump(bus, cond, target),
            Instruction::JR(cond) => self.jump_relative(bus, cond),
            Instruction::CALL(cond) => self.call(bus, cond),
            Instruction::RET(cond) => self.ret(bus, cond),
            Instruction::RETI => {
                self.reti(bus);
                false
            },
            Instruction::RST(n) => {
                self.rst(bus, n);
                false
            },
            _ => {
                self.misc(bus, instruction);
                false
            },
        }
    }

    /// Runs the prefixed operation `instruction` on operand `target`.
    pub fn execute_prefixed(&mut self, bus: &mut Bus, instruction: Instruction, target: ArithmeticByteTarget)
        requires
            old(bus).wf(),
            target != ArithmeticByteTarget::N8,
            match instruction {
                Instruction::SHIFT(_) => true,
                Instruction::BIT(n) | Instruction::RES(n) | Instruction::SET(n) => n < 8,
                _ => false,
            },
        ensures
            final(bus).wf(),
            Cpu::prefix_executed(old(self), old(bus), instruction, target, final(self), final(bus)),
    {
        let v = self.read_arithmetic_byte_target(bus, target);
        match instruction {
            Instruction::SHIFT(kind) => {
                let r = alu::prefixed_shift(kind, v, self.flags);
                self.flags = r.1;
                self.write_arithmetic_byte_target(bus, target, r.0);
            },
            Instruction::BIT(n) => {
                self.flags = alu::test_bit(v, n, self.flags);
            },
            Instruction::RES(n) => {
                let r = alu::reset_bit(v, n);
                self.write_arithmetic_byte_target(bus, target, r);
            },
            Instruction::SET(n) => {
                let r = alu::set_bit(v, n);
                self.write_arithmetic_byte_target(bus, target, r);
            },
            _ => {},
        }
    }
}

} // verus!

verus! {

/// `PUSH rr` followed by `POP rr` restores the pair and SP (indeed the
/// whole processor state), when the two stack bytes are plain RAM.
pub proof fn lemma_push_pop(
    c0: &Cpu,
    b0: &Bus,
    c1: &Cpu,
    b1: &Bus,
    c2: &Cpu,
    b2: &Bus,
    t: ArithmeticWordTarget,
)
    requires
        b0.wf(),
        t != ArithmeticWordTarget::SP,
        is_plain_ram(wrap16(c0.stack_pointer - 1)),
        is_plain_ram(wrap16(c0.stack_pointer - 2)),
        Cpu::executed(c0, b0, Instruction::PUSH(t), c1, b1),
        Cpu::executed(c1, b1, Instruction::POP(t), c2, b2),
    ensures
        c2.word_spec(t) == c0.word_spec(t),
        c2.stack_pointer == c0.stack_pointer,
        *c2 == *c0,
{
    let sp = c0.stack_pointer;
    let v = c0.word_spec(t);
    assert(*c1 == (Cpu { stack_pointer: wrap16(sp - 2), ..*c0 }) && pushed(b0, b1, sp, v)) by {
        reveal(Cpu::executed);
    }
    assert(*c2 == (Cpu { stack_pointer: wrap16(c1.stack_pointer + 2), ..*c1 }).with_word(
        t,
        c1.popped(b1),
    )) by {
        reveal(Cpu::executed);
    }
    let hi_addr = wrap16(sp - 1);
    let lo_addr = wrap16(sp - 2);
    let mid = choose|mid: Bus|
        #[trigger] Bus::written(b0, &mid, hi_addr, (v / 256) as u8) && Bus::written(
            &mid,
            b1,
            lo_addr,
            (v % 256) as u8,
        );
    lemma_plain_ram_write(b0, &mid, hi_addr, (v / 256) as u8, lo_addr);
    lemma_plain_ram_write(&mid, b1, lo_addr, (v % 256) as u8, hi_addr);
    assert(ram_cell(hi_addr) != ram_cell(lo_addr));
    assert(wrap16(c1.stack_pointer + 1) == hi_addr);
    assert(c1.popped(b1) == v);
    lemma_flags_low_nibble(c0.flags);
}

} // verus!
