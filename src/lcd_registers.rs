//! The LCD control (LCDC) and status (STAT) registers.

use vstd::prelude::*;

verus! {

/// The four GPU modes, numbered as in STAT bits 1..0.
#[derive(Clone, Copy, PartialEq, Eq, Structural, Debug)]
pub enum Mode {
    HBlank,
    VBlank,
    ScanOam,
    ScanVram,
}

pub open spec fn mode_number(m: Mode) -> u8 {
    match m {
        Mode::HBlank => 0,
        Mode::VBlank => 1,
        Mode::ScanOam => 2,
        Mode::ScanVram => 3,
    }
}

#[derive(Clone, Copy, PartialEq, Eq, Structural)]
pub struct LCDC {
    pub value: u8,
}

impl LCDC {
    pub fn new() -> (r: LCDC)
        ensures
            r.value == 0,
    {
        LCDC { value: 0 }
    }

    /// Bit 0: background enable.
    pub fn get_priority(&self) -> (r: bool)
        ensures
            r == (self.value % 2 == 1),
    {
        self.value % 2 == 1
    }

    /// Bit 1: objects enable.
    pub fn get_obj_enable(&self) -> (r: bool)
        ensures
            r == ((self.value / 2) % 2 == 1),
    {
        (self.value / 2) % 2 == 1
    }

    /// Bit 2: objects are 8×16 when set, 8×8 otherwise.
    pub fn get_obj_size(&self) -> (r: bool)
        ensures
            r == ((self.value / 4) % 2 == 1),
    {
        (self.value / 4) % 2 == 1
    }

    /// Bit 3: background tile map at 0x9C00 when set, 0x9800 otherwise.
    pub fn get_bg_area(&self) -> (r: bool)
        ensures
            r == ((self.value / 8) % 2 == 1),
    {
        (self.value / 8) % 2 == 1
    }

    /// Bit 4: unsigned tile data at 0x8000 when set, signed around 0x9000 otherwise.
    pub fn get_bg_characters(&self) -> (r: bool)
        ensures
            r == ((self.value / 16) % 2 == 1),
    {
        (self.value / 16) % 2 == 1
    }

    /// Bit 5: window enable.
    pub fn get_window_enable(&self) -> (r: bool)
        ensures
            r == ((self.value / 32) % 2 == 1),
    {
        (self.value / 32) % 2 == 1
    }

    /// Bit 6: window tile map at 0x9C00 when set.
    pub fn get_window_area(&self) -> (r: bool)
        ensures
            r == ((self.value / 64) % 2 == 1),
    {
        (self.value / 64) % 2 == 1
    }

    /// Bit 7: LCD enable.
    pub fn get_lcd_enable(&self) -> (r: bool)
        ensures
            r == (self.value / 128 == 1),
    {
        self.value / 128 == 1
    }
}

/// STAT: bits 1..0 the mode, bit 2 the LY == LYC coincidence, bits 6..3 the
/// interrupt selectors that software sets.
#[derive(Clone, Copy, PartialEq, Eq, Structural)]
pub struct STAT {
    pub value: u8,
}

impl STAT {
    pub open spec fn mode_spec(&self) -> Mode {
        let m = self.value % 4;
        if m == 0 {
            Mode::HBlank
        } else if m == 1 {
            Mode::VBlank
        } else if m == 2 {
            Mode::ScanOam
        } else {
            Mode::ScanVram
        }
    }

    pub open spec fn coincidence_spec(&self) -> bool {
        (self.value / 4) % 2 == 1
    }

    /// The interrupt selectors, bits 6..3.
    pub open spec fn selectors(&self) -> u8 {
        ((self.value / 8) % 16) as u8
    }

    pub fn new() -> (r: STAT)
        ensures
            r.value == 0,
    {
        STAT { value: 0 }
    }

    pub fn get_mode(&self) -> (r: Mode)
        ensures
            r == self.mode_spec(),
            mode_number(r) == self.value % 4,
    {
        let m = self.value % 4;
        if m == 0 {
            Mode::HBlank
        } else if m == 1 {
            Mode::VBlank
        } else if m == 2 {
            Mode::ScanOam
        } else {
            Mode::ScanVram
        }
    }

    pub fn get_lyc_coincidence(&self) -> (r: bool)
        ensures
            r == self.coincidence_spec(),
    {
        (self.value / 4) % 2 == 1
    }

    /// Bit 3: STAT interrupt on entering HBlank.
    pub fn get_mode_hblank_interrupt(&self) -> (r: bool)
        ensures
            r == ((self.value / 8) % 2 == 1),
    {
        (self.value / 8) % 2 == 1
    }

    /// Bit 4: STAT interrupt on entering VBlank.
    pub fn get_mode_vblank_interrupt(&self) -> (r: bool)
        ensures
            r == ((self.value / 16) % 2 == 1),
    {
        (self.value / 16) % 2 == 1
    }

    /// Bit 5: STAT interrupt on entering ScanOam.
    pub fn get_mode_oam_interrupt(&self) -> (r: bool)
        ensures
            r == ((self.value / 32) % 2 == 1),
    {
        (self.value / 32) % 2 == 1
    }

    /// Bit 6: STAT interrupt on LY == LYC.
    pub fn get_lyc_coincidence_interrupt(&self) -> (r: bool)
        ensures
            r == ((self.value / 64) % 2 == 1),
    {
        (self.value / 64) % 2 == 1
    }

    pub fn set_mode(&mut self, mode: Mode)
        ensures
            final(self).mode_spec() == mode,
            final(self).value % 4 == mode_number(mode),
            final(self).value / 4 == old(self).value / 4,
    {
        let n: u8 = match mode {
            Mode::HBlank => 0,
            Mode::VBlank => 1,
            Mode::ScanOam => 2,
            Mode::ScanVram => 3,
        };
        self.value = self.value - self.value % 4 + n;
    }

    pub fn set_lyc_match(&mut self, value: bool)
        ensures
            final(self).coincidence_spec() == value,
            final(self).value % 4 == old(self).value % 4,
            final(self).value / 8 == old(self).value / 8,
    {
        let low = self.value % 4;
        self.value = (self.value / 8) * 8 + (if value { 4u8 } else { 0u8 }) + low;
    }

    /// A software write: only the selector bits 6..3 take the written value.
    pub fn write8(&mut self, value: u8)
        ensures
            final(self).value % 8 == old(self).value % 8,
            final(self).selectors() == (value / 8) % 16,
            final(self).value < 128,
    {
        self.value = ((value / 8) % 16) * 8 + self.value % 8;
    }
}

} // verus!
