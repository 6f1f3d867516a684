//! Cartridge (32 KiB ROM, no bank controller, 8 KiB external RAM), the
//! optional boot ROM, and the stubbed sound registers.

use vstd::prelude::*;
use crate::memory::Ram;

verus! {

pub const ROM_SIZE: usize = 0x8000;
pub const ERAM_SIZE: usize = 0x2000;
pub const ERAM_START_ADDRESS: u16 = 0xA000;
pub const ERAM_END_ADDRESS: u16 = 0xBFFF;
pub const BOOT_ROM_SIZE: usize = 0x100;

pub const NR50_ADDRESS: u16 = 0xFF24;
pub const NR51_ADDRESS: u16 = 0xFF25;
pub const NR52_ADDRESS: u16 = 0xFF26;

/// Why a ROM image was refused.
#[derive(Clone, Copy, PartialEq, Eq, Structural, Debug)]
pub enum RomError {
    /// The image does not have the size the mapping requires.
    WrongSize,
}

pub struct Cartridge {
    pub rom: Vec<u8>,
    pub eram: Ram,
}

impl Cartridge {
    pub open spec fn wf(&self) -> bool {
        &&& self.rom@.len() == ROM_SIZE
        &&& self.eram@.len() == ERAM_SIZE
        &&& self.eram.address_offset == ERAM_START_ADDRESS
    }

    /// A cartridge over `rom`, which must be exactly 32 KiB; external RAM
    /// starts zeroed.
    pub fn new(rom: Vec<u8>) -> (r: Result<Cartridge, RomError>)
        ensures
            rom@.len() == ROM_SIZE <==> r is Ok,
            r matches Ok(c) ==> c.wf() && c.rom@ == rom@ && c.eram@ == Seq::new(
                ERAM_SIZE as nat,
                |i: int| 0u8,
            ),
    {
        if rom.len() != ROM_SIZE {
            return Err(RomError::WrongSize);
        }
        Ok(Cartridge { rom, eram: Ram::new(ERAM_SIZE, ERAM_START_ADDRESS) })
    }

    pub fn fetch_rom(&self, address: u16) -> (r: u8)
        requires
            self.wf(),
            address < 0x8000,
        ensures
            r == self.rom@[address as int],
    {
        self.rom[address as usize]
    }
}

/// The 256-byte boot program mapped over 0000..00FF until software unmaps it.
pub struct BootRom {
    pub rom: Vec<u8>,
}

impl BootRom {
    pub fn new(rom: Vec<u8>) -> (r: Result<BootRom, RomError>)
        ensures
            rom@.len() == BOOT_ROM_SIZE <==> r is Ok,
            r matches Ok(b) ==> b.rom@ == rom@,
    {
        if rom.len() != BOOT_ROM_SIZE {
            return Err(RomError::WrongSize);
        }
        Ok(BootRom { rom })
    }
}

/// The sound mixer and enable registers, kept only so that software can
/// read back what it wrote.
#[derive(Clone, Copy)]
pub struct Spu {
    pub nr50: u8,
    pub nr51: u8,
    pub nr52: u8,
}

impl Spu {
    pub fn new() -> (r: Spu)
        ensures
            r == (Spu { nr50: 0, nr51: 0, nr52: 0 }),
    {
        Spu { nr50: 0, nr51: 0, nr52: 0 }
    }

    pub open spec fn read_spec(&self, address: u16) -> u8 {
        if address == NR50_ADDRESS {
            self.nr50
        } else if address == NR51_ADDRESS {
            self.nr51
        } else {
            self.nr52
        }
    }

    pub open spec fn written(&self, address: u16, value: u8) -> Spu {
        if address == NR50_ADDRESS {
            Spu { nr50: value, ..*self }
        } else if address == NR51_ADDRESS {
            Spu { nr51: value, ..*self }
        } else {
            Spu { nr52: value, ..*self }
        }
    }

    pub fn fetch8(&self, address: u16) -> (r: u8)
        ensures
            r == self.read_spec(address),
    {
        if address == NR50_ADDRESS {
            self.nr50
        } else if address == NR51_ADDRESS {
            self.nr51
        } else {
            self.nr52
        }
    }

    pub fn write8(&mut self, address: u16, value: u8)
        ensures
            *final(self) == old(self).written(address, value),
    {
        if address == NR50_ADDRESS {
            self.nr50 = value;
        } else if address == NR51_ADDRESS {
            self.nr51 = value;
        } else {
            self.nr52 = value;
        }
    }
}

} // verus!
