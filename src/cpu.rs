//! The processor: registers, flags, stack, and the execution of one
//! instruction per step against the bus.

use vstd::prelude::*;
use crate::alu::{Flags, flags_byte, flags_of, lemma_flags_low_nibble};
use crate::bus::Bus;
use crate::instructions::{ArithmeticByteTarget, ArithmeticWordTarget, JumpCondition};
use crate::memory::word_of;

verus! {

pub struct Cpu {
    pub a: u8,
    pub b: u8,
    pub c: u8,
    pub d: u8,
    pub e: u8,
    pub h: u8,
    pub l: u8,
    pub flags: Flags,
    pub program_counter: u16,
    pub stack_pointer: u16,
    /// Steps left before a pending EI takes effect (0 when none is pending).
    pub ei_delay: u8,
}

pub open spec fn pair(hi: u8, lo: u8) -> u16 {
    (hi * 256 + lo) as u16
}

/// `v` brought into 0..65536, for `v` within one wrap of that range.
pub open spec fn wrap16(v: int) -> u16 {
    if v < 0 {
        (v + 65536) as u16
    } else if v >= 65536 {
        (v - 65536) as u16
    } else {
        v as u16
    }
}

impl Cpu {
    pub open spec fn af_spec(&self) -> u16 {
        pair(self.a, flags_byte(self.flags))
    }

    pub open spec fn bc_spec(&self) -> u16 {
        pair(self.b, self.c)
    }

    pub open spec fn de_spec(&self) -> u16 {
        pair(self.d, self.e)
    }

    pub open spec fn hl_spec(&self) -> u16 {
        pair(self.h, self.l)
    }

    /// F as a byte.
    pub open spec fn f_spec(&self) -> u8 {
        flags_byte(self.flags)
    }

    /// The register named by `t` (meaningless for (HL) and immediates).
    pub open spec fn reg_spec(&self, t: ArithmeticByteTarget) -> u8 {
        match t {
            ArithmeticByteTarget::A => self.a,
            ArithmeticByteTarget::B => self.b,
            ArithmeticByteTarget::C => self.c,
            ArithmeticByteTarget::D => self.d,
            ArithmeticByteTarget::E => self.e,
            ArithmeticByteTarget::H => self.h,
            ArithmeticByteTarget::L => self.l,
            _ => 0,
        }
    }

    /// `self` with the register named by `t` set to `v`.
    pub open spec fn with_reg(&self, t: ArithmeticByteTarget, v: u8) -> Cpu {
        match t {
            ArithmeticByteTarget::A => Cpu { a: v, ..*self },
            ArithmeticByteTarget::B => Cpu { b: v, ..*self },
            ArithmeticByteTarget::C => Cpu { c: v, ..*self },
            ArithmeticByteTarget::D => Cpu { d: v, ..*self },
            ArithmeticByteTarget::E => Cpu { e: v, ..*self },
            ArithmeticByteTarget::H => Cpu { h: v, ..*self },
            ArithmeticByteTarget::L => Cpu { l: v, ..*self },
            _ => *self,
        }
    }

    /// The 8-bit operand `t`: a register, the byte at (HL), or the byte at PC.
    pub open spec fn operand_spec(&self, bus: &Bus, t: ArithmeticByteTarget) -> u8 {
        match t {
            ArithmeticByteTarget::MHL => bus.read_spec(self.hl_spec()),
            ArithmeticByteTarget::N8 => bus.read_spec(self.program_counter),
            _ => self.reg_spec(t),
        }
    }

    /// PC after fetching operand `t` (one byte further for an immediate).
    pub open spec fn pc_after(&self, t: ArithmeticByteTarget) -> u16 {
        if t == ArithmeticByteTarget::N8 {
            wrap16(self.program_counter + 1)
        } else {
            self.program_counter
        }
    }

    /// Whether (c1, b1) is (c0, b0) after `v` was stored into operand `t`.
    pub open spec fn operand_written(
        c0: &Cpu,
        b0: &Bus,
        c1: &Cpu,
        b1: &Bus,
        t: ArithmeticByteTarget,
        v: u8,
    ) -> bool {
        match t {
            ArithmeticByteTarget::MHL => *c1 == *c0 && Bus::written(b0, b1, c0.hl_spec(), v),
            ArithmeticByteTarget::N8 => *c1 == *c0 && *b1 == *b0,
            _ => *c1 == c0.with_reg(t, v) && *b1 == *b0,
        }
    }

    pub open spec fn word_spec(&self, t: ArithmeticWordTarget) -> u16 {
        match t {
            ArithmeticWordTarget::AF => self.af_spec(),
            ArithmeticWordTarget::BC => self.bc_spec(),
            ArithmeticWordTarget::DE => self.de_spec(),
            ArithmeticWordTarget::HL => self.hl_spec(),
            ArithmeticWordTarget::SP => self.stack_pointer,
        }
    }

    /// `self` with register pair `t` set to `v` (for AF, F keeps bits 7..4 only).
    pub open spec fn with_word(&self, t: ArithmeticWordTarget, v: u16) -> Cpu {
        let hi = (v / 256) as u8;
        let lo = (v % 256) as u8;
        match t {
            ArithmeticWordTarget::AF => Cpu { a: hi, flags: flags_of(lo), ..*self },
            ArithmeticWordTarget::BC => Cpu { b: hi, c: lo, ..*self },
            ArithmeticWordTarget::DE => Cpu { d: hi, e: lo, ..*self },
            ArithmeticWordTarget::HL => Cpu { h: hi, l: lo, ..*self },
            ArithmeticWordTarget::SP => Cpu { stack_pointer: v, ..*self },
        }
    }

    pub open spec fn condition_spec(&self, condition: JumpCondition) -> bool {
        match condition {
            JumpCondition::Z => self.flags.zero,
            JumpCondition::NZ => !self.flags.zero,
            JumpCondition::C => self.flags.carry,
            JumpCondition::NC => !self.flags.carry,
            JumpCondition::NONE => true,
        }
    }

    /// The post-boot register values.
    pub fn new() -> (r: Cpu)
        ensures
            r.a == 0x01 && r.f_spec() == 0x00 && r.b == 0x00 && r.c == 0x13,
            r.d == 0x00 && r.e == 0xD8 && r.h == 0x01 && r.l == 0x4D,
            r.stack_pointer == 0xFFFE && r.program_counter == 0x0100,
            r.ei_delay == 0,
    {
        Cpu {
            a: 0x01,
            b: 0x00,
            c: 0x13,
            d: 0x00,
            e: 0xD8,
            h: 0x01,
            l: 0x4D,
            flags: Flags { zero: false, subtract: false, halfcarry: false, carry: false },
            program_counter: 0x0100,
            stack_pointer: 0xFFFE,
            ei_delay: 0,
        }
    }

    /// Registers as they stand before a boot ROM has run: all zero, PC at 0.
    pub fn new_for_boot_rom() -> (r: Cpu)
        ensures
            r.a == 0 && r.f_spec() == 0 && r.b == 0 && r.c == 0,
            r.d == 0 && r.e == 0 && r.h == 0 && r.l == 0,
            r.stack_pointer == 0 && r.program_counter == 0,
            r.ei_delay == 0,
    {
        Cpu {
            a: 0,
            b: 0,
            c: 0,
            d: 0,
            e: 0,
            h: 0,
            l: 0,
            flags: Flags { zero: false, subtract: false, halfcarry: false, carry: false },
            program_counter: 0,
            stack_pointer: 0,
            ei_delay: 0,
        }
    }

    pub fn f(&self) -> (r: u8)
        ensures
            r == self.f_spec(),
            r % 16 == 0,
    {
        proof {
            lemma_flags_low_nibble(self.flags);
        }
        self.flags.to_byte()
    }

    pub fn af(&self) -> (r: u16)
        ensures
            r == self.af_spec(),
    {
        self.a as u16 * 256 + self.f() as u16
    }

    pub fn hl(&self) -> (r: u16)
        ensures
            r == self.hl_spec(),
    {
        self.h as u16 * 256 + self.l as u16
    }

    pub fn bc(&self) -> (r: u16)
        ensures
            r == self.bc_spec(),
    {
        self.b as u16 * 256 + self.c as u16
    }

    pub fn de(&self) -> (r: u16)
        ensures
            r == self.de_spec(),
    {
        self.d as u16 * 256 + self.e as u16
    }

    pub fn set_a(&mut self, value: u8)
        ensures
            *final(self) == (Cpu { a: value, ..*old(self) }),
    {
        self.a = value;
    }

    pub fn set_b(&mut self, value: u8)
        ensures
            *final(self) == (Cpu { b: value, ..*old(self) }),
    {
        self.b = value;
    }

    pub fn set_c(&mut self, value: u8)
        ensures
            *final(self) == (Cpu { c: value, ..*old(self) }),
    {
        self.c = value;
    }

    pub fn set_d(&mut self, value: u8)
        ensures
            *final(self) == (Cpu { d: value, ..*old(self) }),
    {
        self.d = value;
    }

    pub fn set_e(&mut self, value: u8)
        ensures
            *final(self) == (Cpu { e: value, ..*old(self) }),
    {
        self.e = value;
    }

    pub fn set_h(&mut self, value: u8)
        ensures
            *final(self) == (Cpu { h: value, ..*old(self) }),
    {
        self.h = value;
    }

    pub fn set_l(&mut self, value: u8)
        ensures
            *final(self) == (Cpu { l: value, ..*old(self) }),
    {
        self.l = value;
    }

    pub fn set_bc(&mut self, value: u16)
        ensures
            *final(self) == old(self).with_word(ArithmeticWordTarget::BC, value),
            final(self).bc_spec() == value,
    {
        self.b = (value / 256) as u8;
        self.c = (value % 256) as u8;
    }

    pub fn set_de(&mut self, value: u16)
        ensures
            *final(self) == old(self).with_word(ArithmeticWordTarget::DE, value),
            final(self).de_spec() == value,
    {
        self.d = (value / 256) as u8;
        self.e = (value % 256) as u8;
    }

    pub fn set_hl(&mut self, value: u16)
        ensures
            *final(self) == old(self).with_word(ArithmeticWordTarget::HL, value),
            final(self).hl_spec() == value,
    {
        self.h = (value / 256) as u8;
        self.l = (value % 256) as u8;
    }

    /// Sets A and F; the low nibble of F is dropped.
    pub fn set_af(&mut self, value: u16)
        ensures
            *final(self) == old(self).with_word(ArithmeticWordTarget::AF, value),
            final(self).af_spec() == value - value % 16,
    {
        self.a = (value / 256) as u8;
        self.flags = Flags::from_byte((value % 256) as u8);
        proof {
            let lo = (value % 256) as u8;
            assert(flags_byte(flags_of(lo)) == lo - lo % 16);
        }
    }

    pub fn set_stack_pointer(&mut self, value: u16)
        ensures
            *final(self) == (Cpu { stack_pointer: value, ..*old(self) }),
    {
        self.stack_pointer = value;
    }

    pub fn set_program_counter(&mut self, value: u16)
        ensures
            *final(self) == (Cpu { program_counter: value, ..*old(self) }),
    {
        self.program_counter = value;
    }

    pub fn carry(&self) -> (r: bool)
        ensures
            r == self.flags.carry,
    {
        self.flags.carry
    }

    pub fn set_carry(&mut self, value: bool)
        ensures
            *final(self) == (Cpu { flags: Flags { carry: value, ..old(self).flags }, ..*old(self) }),
    {
        self.flags.carry = value;
    }

    pub fn halfcarry(&self) -> (r: bool)
        ensures
            r == self.flags.halfcarry,
    {
        self.flags.halfcarry
    }

    pub fn set_halfcarry(&mut self, value: bool)
        ensures
            *final(self) == (Cpu { flags: Flags { halfcarry: value, ..old(self).flags }, ..*old(self) }),
    {
        self.flags.halfcarry = value;
    }

    pub fn subtract(&self) -> (r: bool)
        ensures
            r == self.flags.subtract,
    {
        self.flags.subtract
    }

    pub fn set_subtract(&mut self, value: bool)
        ensures
            *final(self) == (Cpu { flags: Flags { subtract: value, ..old(self).flags }, ..*old(self) }),
    {
        self.flags.subtract = value;
    }

    pub fn zero(&self) -> (r: bool)
        ensures
            r == self.flags.zero,
    {
        self.flags.zero
    }

    pub fn set_zero(&mut self, value: bool)
        ensures
            *final(self) == (Cpu { flags: Flags { zero: value, ..old(self).flags }, ..*old(self) }),
    {
        self.flags.zero = value;
    }

    pub fn jump_condition_met(&self, condition: JumpCondition) -> (r: bool)
        ensures
            r == self.condition_spec(condition),
    {
        match condition {
            JumpCondition::Z => self.flags.zero,
            JumpCondition::NZ => !self.flags.zero,
            JumpCondition::C => self.flags.carry,
            JumpCondition::NC => !self.flags.carry,
            JumpCondition::NONE => true,
        }
    }

    pub fn read_arithmetic_word_target(&self, target: ArithmeticWordTarget) -> (r: u16)
        ensures
            r == self.word_spec(target),
    {
        match target {
            ArithmeticWordTarget::BC => self.bc(),
            ArithmeticWordTarget::HL => self.hl(),
            ArithmeticWordTarget::AF => self.af(),
            ArithmeticWordTarget::DE => self.de(),
            ArithmeticWordTarget::SP => self.stack_pointer,
        }
    }

    pub fn write_arithmetic_word_target(&mut self, target: ArithmeticWordTarget, value: u16)
        ensures
            *final(self) == old(self).with_word(target, value),
    {
        match target {
            ArithmeticWordTarget::AF => self.set_af(value),
            ArithmeticWordTarget::BC => self.set_bc(value),
            ArithmeticWordTarget::HL => self.set_hl(value),
            ArithmeticWordTarget::DE => self.set_de(value),
            ArithmeticWordTarget::SP => self.stack_pointer = value,
        }
    }

    /// Fetches the byte at PC and moves PC past it.
    pub fn next_byte(&mut self, bus: &Bus) -> (r: u8)
        requires
            bus.wf(),
        ensures
            r == bus.read_spec(old(self).program_counter),
            *final(self) == (Cpu { program_counter: wrap16(old(self).program_counter + 1), ..*old(self) }),
    {
        let v = bus.fetch8(self.program_counter);
        self.program_counter = self.program_counter.wrapping_add(1);
        v
    }

    /// Fetches the little-endian word at PC and moves PC past it.
    pub fn next_word(&mut self, bus: &Bus) -> (r: u16)
        requires
            bus.wf(),
        ensures
            r == bus.read16_spec(old(self).program_counter),
            *final(self) == (Cpu { program_counter: wrap16(old(self).program_counter + 2), ..*old(self) }),
    {
        let v = bus.fetch16(self.program_counter);
        self.program_counter = self.program_counter.wrapping_add(2);
        v
    }

    pub fn read_arithmetic_byte_target(&mut self, bus: &Bus, target: ArithmeticByteTarget) -> (r: u8)
        requires
            bus.wf(),
        ensures
            r == old(self).operand_spec(bus, target),
            *final(self) == (Cpu { program_counter: old(self).pc_after(target), ..*old(self) }),
    {
        match target {
            ArithmeticByteTarget::A => self.a,
            ArithmeticByteTarget::B => self.b,
            ArithmeticByteTarget::C => self.c,
            ArithmeticByteTarget::D => self.d,
            ArithmeticByteTarget::E => self.e,
            ArithmeticByteTarget::H => self.h,
            ArithmeticByteTarget::L => self.l,
            ArithmeticByteTarget::MHL => bus.fetch8(self.hl()),
            ArithmeticByteTarget::N8 => self.next_byte(bus),
        }
    }

    pub fn write_arithmetic_byte_target(&mut self, bus: &mut Bus, target: ArithmeticByteTarget, value: u8)
        requires
            old(bus).wf(),
        ensures
            final(bus).wf(),
            Cpu::operand_written(old(self), old(bus), final(self), final(bus), target, value),
    {
        match target {
            ArithmeticByteTarget::A => self.a = value,
            ArithmeticByteTarget::B => self.b = value,
            ArithmeticByteTarget::C => self.c = value,
            ArithmeticByteTarget::D => self.d = value,
            ArithmeticByteTarget::E => self.e = value,
            ArithmeticByteTarget::H => self.h = value,
            ArithmeticByteTarget::L => self.l = value,
            ArithmeticByteTarget::MHL => bus.write8(self.hl(), value),
            ArithmeticByteTarget::N8 => {},
        }
    }

    /// Pushes `value`: SP drops by two, the high byte lands at the higher
    /// address.
    pub fn push16(&mut self, bus: &mut Bus, value: u16)
        requires
            old(bus).wf(),
        ensures
            final(bus).wf(),
            *final(self) == (Cpu { stack_pointer: wrap16(old(self).stack_pointer - 2), ..*old(self) }),
            pushed(old(bus), final(bus), old(self).stack_pointer, value),
    {
        let ghost b0 = *bus;
        self.stack_pointer = self.stack_pointer.wrapping_sub(1);
        bus.write8(self.stack_pointer, (value / 256) as u8);
        let ghost b1 = *bus;
        self.stack_pointer = self.stack_pointer.wrapping_sub(1);
        bus.write8(self.stack_pointer, (value % 256) as u8);
        assert(Bus::written(&b0, &b1, wrap16(old(self).stack_pointer - 1), (value / 256) as u8));
    }

    /// Pops a word: low byte at SP, high byte above it; SP rises by two.
    pub fn pop16(&mut self, bus: &Bus) -> (r: u16)
        requires
            bus.wf(),
        ensures
            r == word_of(
                bus.read_spec(old(self).stack_pointer),
                bus.read_spec(wrap16(old(self).stack_pointer + 1)),
            ),
            *final(self) == (Cpu { stack_pointer: wrap16(old(self).stack_pointer + 2), ..*old(self) }),
    {
        let lo = bus.fetch8(self.stack_pointer);
        self.stack_pointer = self.stack_pointer.wrapping_add(1);
        let hi = bus.fetch8(self.stack_pointer);
        self.stack_pointer = self.stack_pointer.wrapping_add(1);
        hi as u16 * 256 + lo as u16
    }
}

/// Whether `new` is `old` after pushing `value` below stack pointer `sp`:
/// the high byte written at sp - 1, then the low byte at sp - 2.
pub open spec fn pushed(old: &Bus, new: &Bus, sp: u16, value: u16) -> bool {
    exists|mid: Bus|
        #[trigger] Bus::written(old, &mid, wrap16(sp - 1), (value / 256) as u8) && Bus::written(
            &mid,
            new,
            wrap16(sp - 2),
            (value % 256) as u8,
        )
}

} // verus!
