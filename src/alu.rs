//! Flag arithmetic of the instruction set: each operation is a function from
//! operands (and the incoming carry) to a result and the four flags.

use vstd::prelude::*;

verus! {

/// The four flags kept in bits 7..4 of F.
#[derive(Clone, Copy, PartialEq, Eq, Structural, Debug)]
pub struct Flags {
    pub zero: bool,
    pub subtract: bool,
    pub halfcarry: bool,
    pub carry: bool,
}

/// F as a byte: Z in bit 7, N in bit 6, H in bit 5, C in bit 4; bits 3..0 zero.
pub open spec fn flags_byte(f: Flags) -> u8 {
    ((if f.zero { 128int } else { 0 }) + (if f.subtract { 64int } else { 0 }) + (if f.halfcarry {
        32int
    } else {
        0
    }) + (if f.carry { 16int } else { 0 })) as u8
}

/// The flags held in a byte's bits 7..4 (bits 3..0 are ignored).
pub open spec fn flags_of(v: u8) -> Flags {
    Flags {
        zero: v / 128 == 1,
        subtract: (v / 64) % 2 == 1,
        halfcarry: (v / 32) % 2 == 1,
        carry: (v / 16) % 2 == 1,
    }
}

pub open spec fn cin(c: bool) -> int {
    if c {
        1
    } else {
        0
    }
}

impl Flags {
    pub fn to_byte(&self) -> (r: u8)
        ensures
            r == flags_byte(*self),
    {
        let mut v: u8 = 0;
        if self.zero {
            v = v + 128;
        }
        if self.subtract {
            v = v + 64;
        }
        if self.halfcarry {
            v = v + 32;
        }
        if self.carry {
            v = v + 16;
        }
        v
    }

    pub fn from_byte(v: u8) -> (r: Flags)
        ensures
            r == flags_of(v),
    {
        Flags {
            zero: v / 128 == 1,
            subtract: (v / 64) % 2 == 1,
            halfcarry: (v / 32) % 2 == 1,
            carry: (v / 16) % 2 == 1,
        }
    }
}

/// F never has a bit of its low nibble set.
pub proof fn lemma_flags_low_nibble(f: Flags)
    ensures
        flags_byte(f) & 0x0F == 0,
        flags_byte(f) % 16 == 0,
        flags_of(flags_byte(f)) == f,
{
    let v = flags_byte(f);
    assert(v % 16 == 0);
    assert(v & 0x0F == v % 16) by (bit_vector);
}

// ---- 8-bit arithmetic ----

/// ADD (with `carry_in` false) and ADC: Z from the result, N clear, H from the
/// low nibbles plus carry, C from bit 7.
pub open spec fn add_spec(a: u8, x: u8, carry_in: bool) -> (u8, Flags) {
    let sum = a + x + cin(carry_in);
    let r = (sum % 256) as u8;
    (r, Flags { zero: r == 0, subtract: false, halfcarry: a % 16 + x % 16 + cin(carry_in) > 15, carry: sum > 255 })
}

/// SUB and CP (with `carry_in` false) and SBC: N set, H and C on borrow.
pub open spec fn sub_spec(a: u8, x: u8, carry_in: bool) -> (u8, Flags) {
    let diff = a - x - cin(carry_in);
    let r = ((diff + 256) % 256) as u8;
    (r, Flags { zero: r == 0, subtract: true, halfcarry: a % 16 < x % 16 + cin(carry_in), carry: diff < 0 })
}

pub fn add(a: u8, x: u8, carry_in: bool) -> (r: (u8, Flags))
    ensures
        r == add_spec(a, x, carry_in),
{
    let c: u16 = if carry_in { 1 } else { 0 };
    let sum: u16 = a as u16 + x as u16 + c;
    let r = (sum % 256) as u8;
    (r, Flags { zero: r == 0, subtract: false, halfcarry: (a % 16) as u16 + (x % 16) as u16 + c > 15, carry: sum > 255 })
}

pub fn sub(a: u8, x: u8, carry_in: bool) -> (r: (u8, Flags))
    ensures
        r == sub_spec(a, x, carry_in),
{
    let c: i16 = if carry_in { 1 } else { 0 };
    let diff: i16 = a as i16 - x as i16 - c;
    let r = ((diff + 256) % 256) as u8;
    (r, Flags { zero: r == 0, subtract: true, halfcarry: ((a % 16) as i16) < (x % 16) as i16 + c, carry: diff < 0 })
}

/// AND: Z from the result, H set, N and C clear.
pub fn and(a: u8, x: u8) -> (r: (u8, Flags))
    ensures
        r.0 == a & x,
        r.1 == (Flags { zero: a & x == 0, subtract: false, halfcarry: true, carry: false }),
{
    let v = a & x;
    (v, Flags { zero: v == 0, subtract: false, halfcarry: true, carry: false })
}

/// OR: Z from the result, N, H and C clear.
pub fn or(a: u8, x: u8) -> (r: (u8, Flags))
    ensures
        r.0 == a | x,
        r.1 == (Flags { zero: a | x == 0, subtract: false, halfcarry: false, carry: false }),
{
    let v = a | x;
    (v, Flags { zero: v == 0, subtract: false, halfcarry: false, carry: false })
}

/// XOR: Z from the result, N, H and C clear.
pub fn xor(a: u8, x: u8) -> (r: (u8, Flags))
    ensures
        r.0 == a ^ x,
        r.1 == (Flags { zero: a ^ x == 0, subtract: false, halfcarry: false, carry: false }),
{
    let v = a ^ x;
    (v, Flags { zero: v == 0, subtract: false, halfcarry: false, carry: false })
}

/// INC r8: Z, N clear, H from the low nibble; C kept.
pub open spec fn inc_spec(v: u8, f: Flags) -> (u8, Flags) {
    let r = ((v + 1) % 256) as u8;
    (r, Flags { zero: r == 0, subtract: false, halfcarry: v % 16 + 1 > 15, carry: f.carry })
}

/// DEC r8: Z, N set, H when the low nibble was 0; C kept.
pub open spec fn dec_spec(v: u8, f: Flags) -> (u8, Flags) {
    let r = ((v + 255) % 256) as u8;
    (r, Flags { zero: r == 0, subtract: true, halfcarry: v % 16 == 0, carry: f.carry })
}

pub fn inc(v: u8, f: Flags) -> (r: (u8, Flags))
    ensures
        r == inc_spec(v, f),
{
    let r = ((v as u16 + 1) % 256) as u8;
    (r, Flags { zero: r == 0, subtract: false, halfcarry: v % 16 + 1 > 15, carry: f.carry })
}

pub fn dec(v: u8, f: Flags) -> (r: (u8, Flags))
    ensures
        r == dec_spec(v, f),
{
    let r = ((v as u16 + 255) % 256) as u8;
    (r, Flags { zero: r == 0, subtract: true, halfcarry: v % 16 == 0, carry: f.carry })
}

// ---- rotates and shifts ----

/// The shift and rotate kinds of the prefixed table, in encoding order.
#[derive(Clone, Copy, PartialEq, Eq, Structural, Debug)]
pub enum ShiftKind {
    Rlc,
    Rrc,
    Rl,
    Rr,
    Sla,
    Sra,
    Swap,
    Srl,
}

/// Result byte and carry-out of a shift or rotate of `v`.
pub open spec fn shift_spec(kind: ShiftKind, v: u8, carry_in: bool) -> (u8, bool) {
    match kind {
        ShiftKind::Rlc => (((v * 2) % 256 + v / 128) as u8, v >= 128),
        ShiftKind::Rrc => ((v / 2 + (v % 2) * 128) as u8, v % 2 == 1),
        ShiftKind::Rl => (((v * 2) % 256 + cin(carry_in)) as u8, v >= 128),
        ShiftKind::Rr => ((v / 2 + cin(carry_in) * 128) as u8, v % 2 == 1),
        ShiftKind::Sla => (((v * 2) % 256) as u8, v >= 128),
        ShiftKind::Sra => ((v / 2 + (v / 128) * 128) as u8, v % 2 == 1),
        ShiftKind::Swap => (((v % 16) * 16 + v / 16) as u8, false),
        ShiftKind::Srl => ((v / 2) as u8, v % 2 == 1),
    }
}

/// A prefixed shift or rotate: Z from the result, N and H clear, C the bit
/// shifted out (clear for SWAP).
pub open spec fn prefixed_shift_spec(kind: ShiftKind, v: u8, f: Flags) -> (u8, Flags) {
    let (r, c) = shift_spec(kind, v, f.carry);
    (r, Flags { zero: r == 0, subtract: false, halfcarry: false, carry: c })
}

/// RLCA, RRCA, RLA, RRA: as the prefixed rotate of A but Z is always clear.
pub open spec fn accumulator_rotate_spec(kind: ShiftKind, v: u8, f: Flags) -> (u8, Flags) {
    let (r, c) = shift_spec(kind, v, f.carry);
    (r, Flags { zero: false, subtract: false, halfcarry: false, carry: c })
}

pub fn shift(kind: ShiftKind, v: u8, carry_in: bool) -> (r: (u8, bool))
    ensures
        r == shift_spec(kind, v, carry_in),
{
    let c: u8 = if carry_in { 1 } else { 0 };
    match kind {
        ShiftKind::Rlc => (((v as u16 * 2) % 256) as u8 + v / 128, v >= 128),
        ShiftKind::Rrc => (v / 2 + (v % 2) * 128, v % 2 == 1),
        ShiftKind::Rl => (((v as u16 * 2) % 256) as u8 + c, v >= 128),
        ShiftKind::Rr => (v / 2 + c * 128, v % 2 == 1),
        ShiftKind::Sla => (((v as u16 * 2) % 256) as u8, v >= 128),
        ShiftKind::Sra => (v / 2 + (v / 128) * 128, v % 2 == 1),
        ShiftKind::Swap => ((v % 16) * 16 + v / 16, false),
        ShiftKind::Srl => (v / 2, v % 2 == 1),
    }
}

pub fn prefixed_shift(kind: ShiftKind, v: u8, f: Flags) -> (r: (u8, Flags))
    ensures
        r == prefixed_shift_spec(kind, v, f),
{
    let (x, c) = shift(kind, v, f.carry);
    (x, Flags { zero: x == 0, subtract: false, halfcarry: false, carry: c })
}

pub fn accumulator_rotate(kind: ShiftKind, v: u8, f: Flags) -> (r: (u8, Flags))
    ensures
        r == accumulator_rotate_spec(kind, v, f),
{
    let (x, c) = shift(kind, v, f.carry);
    (x, Flags { zero: false, subtract: false, halfcarry: false, carry: c })
}

// ---- single bits ----

/// 2 to the power `n`, for a bit position.
pub open spec fn weight(n: u8) -> int {
    if n == 0 {
        1
    } else if n == 1 {
        2
    } else if n == 2 {
        4
    } else if n == 3 {
        8
    } else if n == 4 {
        16
    } else if n == 5 {
        32
    } else if n == 6 {
        64
    } else {
        128
    }
}

pub open spec fn bit_is_set(v: u8, n: u8) -> bool {
    (v as int / weight(n)) % 2 == 1
}

/// SET n.
pub open spec fn set_bit_spec(v: u8, n: u8) -> u8 {
    if bit_is_set(v, n) {
        v
    } else {
        (v + weight(n)) as u8
    }
}

/// RES n.
pub open spec fn reset_bit_spec(v: u8, n: u8) -> u8 {
    if bit_is_set(v, n) {
        (v - weight(n)) as u8
    } else {
        v
    }
}

/// BIT n: Z when the bit is clear, N clear, H set, C kept.
pub open spec fn test_bit_spec(v: u8, n: u8, f: Flags) -> Flags {
    Flags { zero: !bit_is_set(v, n), subtract: false, halfcarry: true, carry: f.carry }
}

fn bit_weight(n: u8) -> (r: u8)
    requires
        n < 8,
    ensures
        r == weight(n),
{
    if n == 0 {
        1
    } else if n == 1 {
        2
    } else if n == 2 {
        4
    } else if n == 3 {
        8
    } else if n == 4 {
        16
    } else if n == 5 {
        32
    } else if n == 6 {
        64
    } else {
        128
    }
}

proof fn lemma_bit_room(v: u8, n: u8)
    requires
        n < 8,
    ensures
        !bit_is_set(v, n) ==> v + weight(n) < 256,
        bit_is_set(v, n) ==> v >= weight(n),
{
    let w = weight(n);
    assert(1 <= w <= 128);
    vstd::arithmetic::div_mod::lemma_fundamental_div_mod(v as int, w);
    let q = v as int / w;
    let rem = v as int % w;
    assert(v == w * q + rem);
    if !bit_is_set(v, n) {
        // q is even and q * w + rem + w <= 255
        assert(v + w < 256) by (nonlinear_arith)
            requires
                v == w * q + rem,
                0 <= rem < w,
                q % 2 == 0,
                q >= 0,
                v < 256,
                w == 1 || w == 2 || w == 4 || w == 8 || w == 16 || w == 32 || w == 64 || w == 128,
        {
            assert((q + 1) * w <= 256) by {
                if w == 1 { } else if w == 2 { } else if w == 4 { } else if w == 8 { } else if w == 16 { } else if w == 32 { } else if w == 64 { } else { }
            }
        }
    } else {
        assert(q >= 1);
        assert(v >= w) by (nonlinear_arith)
            requires
                v == w * q + rem,
                q >= 1,
                rem >= 0,
                w >= 1,
        {
        }
    }
}

pub fn set_bit(v: u8, n: u8) -> (r: u8)
    requires
        n < 8,
    ensures
        r == set_bit_spec(v, n),
{
    let w = bit_weight(n);
    proof {
        lemma_bit_room(v, n);
    }
    if (v / w) % 2 == 1 {
        v
    } else {
        v + w
    }
}

pub fn reset_bit(v: u8, n: u8) -> (r: u8)
    requires
        n < 8,
    ensures
        r == reset_bit_spec(v, n),
{
    let w = bit_weight(n);
    proof {
        lemma_bit_room(v, n);
    }
    if (v / w) % 2 == 1 {
        v - w
    } else {
        v
    }
}

pub fn test_bit(v: u8, n: u8, f: Flags) -> (r: Flags)
    requires
        n < 8,
    ensures
        r == test_bit_spec(v, n, f),
{
    let w = bit_weight(n);
    Flags { zero: (v / w) % 2 != 1, subtract: false, halfcarry: true, carry: f.carry }
}

// ---- accumulator specials ----

/// DAA: BCD-adjusts A after an addition (N clear) or subtraction (N set).
pub open spec fn daa_spec(a: u8, f: Flags) -> (u8, Flags) {
    let low = f.halfcarry || (!f.subtract && a % 16 > 9);
    let high = f.carry || (!f.subtract && a > 0x99);
    let adjust = (if low { 0x06int } else { 0 }) + (if high { 0x60int } else { 0 });
    let r = (if f.subtract { (a - adjust + 256) % 256 } else { (a + adjust) % 256 }) as u8;
    (r, Flags { zero: r == 0, subtract: f.subtract, halfcarry: false, carry: high })
}

pub fn daa(a: u8, f: Flags) -> (r: (u8, Flags))
    ensures
        r == daa_spec(a, f),
{
    let low = f.halfcarry || (!f.subtract && a % 16 > 9);
    let high = f.carry || (!f.subtract && a > 0x99);
    let adjust: u16 = (if low { 0x06 } else { 0 }) + (if high { 0x60 } else { 0 });
    let r = (if f.subtract { (a as u16 + 256 - adjust) % 256 } else { (a as u16 + adjust) % 256 }) as u8;
    (r, Flags { zero: r == 0, subtract: f.subtract, halfcarry: false, carry: high })
}

/// CPL: A complemented; N and H set; Z and C kept.
pub open spec fn cpl_spec(a: u8, f: Flags) -> (u8, Flags) {
    ((255 - a) as u8, Flags { subtract: true, halfcarry: true, ..f })
}

pub fn cpl(a: u8, f: Flags) -> (r: (u8, Flags))
    ensures
        r == cpl_spec(a, f),
{
    (255 - a, Flags { subtract: true, halfcarry: true, ..f })
}

// ---- 16-bit arithmetic ----

/// ADD HL, rr: N clear, H from bits 10..0, C from bit 15; Z kept.
pub open spec fn add_hl_spec(hl: u16, x: u16, f: Flags) -> (u16, Flags) {
    let sum = hl + x;
    ((sum % 65536) as u16, Flags { zero: f.zero, subtract: false, halfcarry: hl % 2048 + x % 2048 > 2047, carry: sum > 65535 })
}

pub fn add_hl(hl: u16, x: u16, f: Flags) -> (r: (u16, Flags))
    ensures
        r == add_hl_spec(hl, x, f),
{
    let sum: u32 = hl as u32 + x as u32;
    ((sum % 65536) as u16, Flags { zero: f.zero, subtract: false, halfcarry: hl % 2048 + x % 2048 > 2047, carry: sum > 65535 })
}

/// SP plus a signed offset (ADD SP, e and LD HL, SP+e): Z and N clear, H and
/// C from the unsigned addition of the offset's byte to SP's low byte.
pub open spec fn add_sp_spec(sp: u16, e: u8) -> (u16, Flags) {
    let offset = if e >= 128 { e - 256 } else { e as int };
    (((sp + offset + 65536) % 65536) as u16, Flags { zero: false, subtract: false, halfcarry: sp % 16 + e % 16 > 15, carry: sp % 256 + e > 255 })
}

pub fn add_sp(sp: u16, e: u8) -> (r: (u16, Flags))
    ensures
        r == add_sp_spec(sp, e),
{
    let offset: i32 = if e >= 128 { e as i32 - 256 } else { e as i32 };
    let v = ((sp as i32 + offset + 65536) % 65536) as u16;
    (v, Flags { zero: false, subtract: false, halfcarry: sp % 16 + (e % 16) as u16 > 15, carry: sp % 256 + e as u16 > 255 })
}

// ---- laws ----

/// SWAP twice gives back the byte.
pub proof fn lemma_swap_twice(v: u8, f: Flags)
    ensures
        prefixed_shift_spec(ShiftKind::Swap, prefixed_shift_spec(ShiftKind::Swap, v, f).0, f).0 == v,
{
}

/// CPL twice gives back A; after either, N and H are set.
pub proof fn lemma_cpl_twice(a: u8, f: Flags)
    ensures
        cpl_spec(cpl_spec(a, f).0, cpl_spec(a, f).1).0 == a,
        cpl_spec(a, f).1.subtract && cpl_spec(a, f).1.halfcarry,
{
}

/// RLCA followed by RRCA gives back A.
pub proof fn lemma_rlca_rrca(a: u8, f: Flags)
    ensures
        accumulator_rotate_spec(
            ShiftKind::Rrc,
            accumulator_rotate_spec(ShiftKind::Rlc, a, f).0,
            accumulator_rotate_spec(ShiftKind::Rlc, a, f).1,
        ).0 == a,
{
}

} // verus!
