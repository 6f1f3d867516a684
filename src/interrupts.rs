//! The interrupt controller: enable mask (IE), request mask (IF) and the
//! master enable flag (IME).

use vstd::prelude::*;

verus! {

pub const V_BLANK_BIT: u8 = 0;
pub const LCD_STAT_BIT: u8 = 1;
pub const TIMER_BIT: u8 = 2;
pub const SERIAL_BIT: u8 = 3;
pub const JOYPAD_BIT: u8 = 4;

/// Whether bit `i` of `v` is set.
pub open spec fn bit(v: u8, i: u8) -> bool {
    v & (1u8 << i) != 0
}

/// `v` with bit `i` forced to `b`.
pub open spec fn with_bit(v: u8, i: u8, b: bool) -> u8 {
    if b {
        v | (1u8 << i)
    } else {
        v & !(1u8 << i)
    }
}

/// Address of the handler for interrupt source `i` (0 = vblank .. 4 = joypad).
pub open spec fn handler_address(i: u8) -> u16 {
    (0x40 + 8 * i) as u16
}

#[derive(Clone, Copy)]
pub struct Interrupts {
    pub enable_register: u8,
    pub request_register: u8,
    pub master: bool,
}

/// The highest-priority source set in both `ie` and `iflag`, scanning from
/// vblank (bit 0) up to joypad (bit 4).
pub open spec fn highest_pending(ie: u8, iflag: u8) -> Option<u8> {
    if bit(ie, 0) && bit(iflag, 0) {
        Some(0u8)
    } else if bit(ie, 1) && bit(iflag, 1) {
        Some(1u8)
    } else if bit(ie, 2) && bit(iflag, 2) {
        Some(2u8)
    } else if bit(ie, 3) && bit(iflag, 3) {
        Some(3u8)
    } else if bit(ie, 4) && bit(iflag, 4) {
        Some(4u8)
    } else {
        None
    }
}

impl Interrupts {
    pub open spec fn pending_spec(&self) -> bool {
        self.master && (self.enable_register & self.request_register) != 0
    }

    pub fn new() -> (r: Interrupts)
        ensures
            r.enable_register == 0,
            r.request_register == 0,
            r.master,
    {
        Interrupts { enable_register: 0, request_register: 0, master: true }
    }

    /// True iff IME is set and some source is both enabled and requested.
    pub fn interrupt_pending(&self) -> (r: bool)
        ensures
            r == self.pending_spec(),
    {
        self.master && (self.enable_register & self.request_register) != 0
    }

    /// Acknowledges the highest-priority interrupt that is both enabled and
    /// requested: clears its request bit and returns its handler address.
    pub fn ack_and_get_pending_address(&mut self) -> (r: Option<u16>)
        ensures
            match highest_pending(old(self).enable_register, old(self).request_register) {
                Some(i) => r == Some(handler_address(i)) && *final(self) == (Interrupts {
                    request_register: with_bit(old(self).request_register, i, false),
                    ..*old(self)
                }),
                None => r.is_none() && *final(self) == *old(self),
            },
    {
        let mut i: u8 = 0;
        while i < 5
            invariant
                i <= 5,
                *self == *old(self),
                forall|j: u8| j < i ==> !(bit(self.enable_register, j) && bit(self.request_register, j)),
            decreases 5 - i,
        {
            let mask: u8 = 1u8 << i;
            if self.enable_register & mask != 0 && self.request_register & mask != 0 {
                self.request_register = self.request_register & !mask;
                return Some(0x40 + 8 * i as u16);
            }
            i = i + 1;
        }
        None
    }

    pub fn v_blank_enable(&self) -> (r: bool)
        ensures
            r == bit(self.enable_register, V_BLANK_BIT),
    {
        self.enable_register & (1u8 << V_BLANK_BIT) != 0
    }

    pub fn lcd_stat_enable(&self) -> (r: bool)
        ensures
            r == bit(self.enable_register, LCD_STAT_BIT),
    {
        self.enable_register & (1u8 << LCD_STAT_BIT) != 0
    }

    pub fn timer_enable(&self) -> (r: bool)
        ensures
            r == bit(self.enable_register, TIMER_BIT),
    {
        self.enable_register & (1u8 << TIMER_BIT) != 0
    }

    pub fn serial_enable(&self) -> (r: bool)
        ensures
            r == bit(self.enable_register, SERIAL_BIT),
    {
        self.enable_register & (1u8 << SERIAL_BIT) != 0
    }

    pub fn joypad_enable(&self) -> (r: bool)
        ensures
            r == bit(self.enable_register, JOYPAD_BIT),
    {
        self.enable_register & (1u8 << JOYPAD_BIT) != 0
    }

    pub fn v_blank_request(&self) -> (r: bool)
        ensures
            r == bit(self.request_register, V_BLANK_BIT),
    {
        self.request_register & (1u8 << V_BLANK_BIT) != 0
    }

    pub fn lcd_stat_request(&self) -> (r: bool)
        ensures
            r == bit(self.request_register, LCD_STAT_BIT),
    {
        self.request_register & (1u8 << LCD_STAT_BIT) != 0
    }

    pub fn timer_request(&self) -> (r: bool)
        ensures
            r == bit(self.request_register, TIMER_BIT),
    {
        self.request_register & (1u8 << TIMER_BIT) != 0
    }

    pub fn serial_request(&self) -> (r: bool)
        ensures
            r == bit(self.request_register, SERIAL_BIT),
    {
        self.request_register & (1u8 << SERIAL_BIT) != 0
    }

    pub fn joypad_request(&self) -> (r: bool)
        ensures
            r == bit(self.request_register, JOYPAD_BIT),
    {
        self.request_register & (1u8 << JOYPAD_BIT) != 0
    }

    /// Sets or clears request bit `i`.
    pub fn set_request_bit(&mut self, i: u8, value: bool)
        requires
            i < 8,
        ensures
            *final(self) == (Interrupts {
                request_register: with_bit(old(self).request_register, i, value),
                ..*old(self)
            }),
    {
        if value {
            self.request_register = self.request_register | (1u8 << i);
        } else {
            self.request_register = self.request_register & !(1u8 << i);
        }
    }

    pub fn set_v_blank_request(&mut self, value: bool)
        ensures
            *final(self) == (Interrupts {
                request_register: with_bit(old(self).request_register, V_BLANK_BIT, value),
                ..*old(self)
            }),
    {
        self.set_request_bit(V_BLANK_BIT, value)
    }

    pub fn set_lcd_stat_request(&mut self, value: bool)
        ensures
            *final(self) == (Interrupts {
                request_register: with_bit(old(self).request_register, LCD_STAT_BIT, value),
                ..*old(self)
            }),
    {
        self.set_request_bit(LCD_STAT_BIT, value)
    }

    pub fn set_timer_request(&mut self, value: bool)
        ensures
            *final(self) == (Interrupts {
                request_register: with_bit(old(self).request_register, TIMER_BIT, value),
                ..*old(self)
            }),
    {
        self.set_request_bit(TIMER_BIT, value)
    }

    pub fn set_serial_request(&mut self, value: bool)
        ensures
            *final(self) == (Interrupts {
                request_register: with_bit(old(self).request_register, SERIAL_BIT, value),
                ..*old(self)
            }),
    {
        self.set_request_bit(SERIAL_BIT, value)
    }

    pub fn set_joypad_request(&mut self, value: bool)
        ensures
            *final(self) == (Interrupts {
                request_register: with_bit(old(self).request_register, JOYPAD_BIT, value),
                ..*old(self)
            }),
    {
        self.set_request_bit(JOYPAD_BIT, value)
    }

    pub fn master_enabled(&self) -> (r: bool)
        ensures
            r == self.master,
    {
        self.master
    }

    pub fn enable_master(&mut self)
        ensures
            *final(self) == (Interrupts { master: true, ..*old(self) }),
    {
        self.master = true
    }

    pub fn disable_master(&mut self)
        ensures
            *final(self) == (Interrupts { master: false, ..*old(self) }),
    {
        self.master = false
    }

    pub fn set_enable(&mut self, value: u8)
        ensures
            *final(self) == (Interrupts { enable_register: value, ..*old(self) }),
    {
        self.enable_register = value;
    }

    pub fn set_request(&mut self, value: u8)
        ensures
            *final(self) == (Interrupts { request_register: value, ..*old(self) }),
    {
        self.request_register = value;
    }
}

} // verus!

verus! {

/// Setting or clearing one bit leaves every other bit as it was.
pub proof fn lemma_with_bit(v: u8, i: u8, b: bool, j: u8)
    requires
        i < 8,
        j < 8,
    ensures
        bit(with_bit(v, i, b), j) == if i == j { b } else { bit(v, j) },
{
    if b {
        assert(((v | (1u8 << i)) & (1u8 << j) != 0) == if i == j { true } else { v & (1u8 << j) != 0 })
            by (bit_vector)
            requires
                i < 8,
                j < 8,
        ;
    } else {
        assert(((v & !(1u8 << i)) & (1u8 << j) != 0) == if i == j { false } else { v & (1u8 << j) != 0 })
            by (bit_vector)
            requires
                i < 8,
                j < 8,
        ;
    }
}

} // verus!
