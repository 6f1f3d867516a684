//! The memory-map arbiter: routes every address to the component that owns
//! it and forwards elapsed cycles to the GPU and the timer.

use vstd::prelude::*;
use crate::buttons::{Button, Buttons};
use crate::cartridge::{BootRom, Cartridge, Spu, ERAM_START_ADDRESS, ERAM_END_ADDRESS};
use crate::gpu::{Gpu, crosses_vblank, renders_row, DMA_ADDRESS};
use crate::interrupts::{Interrupts, with_bit, bit, lemma_with_bit, JOYPAD_BIT, TIMER_BIT, V_BLANK_BIT, LCD_STAT_BIT};
use crate::memory::{Ram, word_of};
use crate::timer::Timer;

verus! {

pub const WRAM_START_ADDRESS: u16 = 0xC000;
pub const WRAM_END_ADDRESS: u16 = 0xDFFF;
pub const ECHO_START_ADDRESS: u16 = 0xE000;
pub const ECHO_END_ADDRESS: u16 = 0xFDFF;
pub const HRAM_START_ADDRESS: u16 = 0xFF80;
pub const HRAM_END_ADDRESS: u16 = 0xFFFE;
pub const BUTTONS_ADDRESS: u16 = 0xFF00;
pub const SERIAL_TRANSFER_ADDRESS: u16 = 0xFF01;
pub const SERIAL_CONTROL_ADDRESS: u16 = 0xFF02;
pub const TIMER_START_ADDRESS: u16 = 0xFF04;
pub const TIMER_END_ADDRESS: u16 = 0xFF07;
pub const INTERRUPT_REQUEST_ADDRESS: u16 = 0xFF0F;
pub const SPU_START_ADDRESS: u16 = 0xFF24;
pub const SPU_END_ADDRESS: u16 = 0xFF26;
pub const GPU_REGISTER_START_ADDRESS: u16 = 0xFF40;
pub const GPU_REGISTER_END_ADDRESS: u16 = 0xFF4B;
pub const BOOT_OFF_ADDRESS: u16 = 0xFF50;
pub const INTERRUPT_ENABLE_ADDRESS: u16 = 0xFFFF;

/// The value read where no component answers.
pub const OPEN_BUS: u8 = 0xFF;

/// Which component owns an address.
#[derive(Clone, Copy, PartialEq, Eq, Structural, Debug)]
pub enum Region {
    BootRom,
    Rom,
    Video,
    ExternalRam,
    WorkRam,
    Echo,
    Buttons,
    SerialTransfer,
    SerialControl,
    Timer,
    InterruptRequest,
    Sound,
    BootOff,
    HighRam,
    InterruptEnable,
    Unmapped,
}

pub struct Bus {
    pub boot_rom: Option<BootRom>,
    pub cartridge: Cartridge,
    pub wram: Ram,
    pub hram: Ram,
    pub interrupts: Interrupts,
    pub gpu: Gpu,
    pub serial_transfer: u8,
    pub serial_control: u8,
    pub spu: Spu,
    pub timer: Timer,
    pub buttons: Buttons,
}

/// The owner of `address` when the boot ROM is (or is not) mapped.
pub open spec fn region_of(address: u16, boot_mapped: bool) -> Region {
    if address <= 0xFF && boot_mapped {
        Region::BootRom
    } else if address <= 0x7FFF {
        Region::Rom
    } else if address <= 0x9FFF {
        Region::Video
    } else if address <= ERAM_END_ADDRESS {
        Region::ExternalRam
    } else if address <= WRAM_END_ADDRESS {
        Region::WorkRam
    } else if address <= ECHO_END_ADDRESS {
        Region::Echo
    } else if address <= 0xFE9F {
        Region::Video
    } else if address == BUTTONS_ADDRESS {
        Region::Buttons
    } else if address == SERIAL_TRANSFER_ADDRESS {
        Region::SerialTransfer
    } else if address == SERIAL_CONTROL_ADDRESS {
        Region::SerialControl
    } else if TIMER_START_ADDRESS <= address <= TIMER_END_ADDRESS {
        Region::Timer
    } else if address == INTERRUPT_REQUEST_ADDRESS {
        Region::InterruptRequest
    } else if SPU_START_ADDRESS <= address <= SPU_END_ADDRESS {
        Region::Sound
    } else if GPU_REGISTER_START_ADDRESS <= address <= GPU_REGISTER_END_ADDRESS {
        Region::Video
    } else if address == BOOT_OFF_ADDRESS {
        Region::BootOff
    } else if HRAM_START_ADDRESS <= address <= HRAM_END_ADDRESS {
        Region::HighRam
    } else if address == INTERRUPT_ENABLE_ADDRESS {
        Region::InterruptEnable
    } else {
        Region::Unmapped
    }
}

/// Addresses whose byte reads back exactly what was last written there and
/// whose writes touch nothing else: external, work, echo and high RAM.
pub open spec fn is_plain_ram(address: u16) -> bool {
    (ERAM_START_ADDRESS <= address <= ECHO_END_ADDRESS) || (HRAM_START_ADDRESS <= address
        <= HRAM_END_ADDRESS)
}

/// The backing byte of a plain RAM address (echo RAM shares work RAM's bytes).
pub open spec fn ram_cell(address: u16) -> int {
    if ECHO_START_ADDRESS <= address <= ECHO_END_ADDRESS {
        address - 0x2000
    } else {
        address as int
    }
}

impl Bus {
    pub open spec fn boot_mapped(&self) -> bool {
        self.boot_rom is Some
    }

    pub open spec fn wf(&self) -> bool {
        &&& self.cartridge.wf()
        &&& self.wram@.len() == 0x2000
        &&& self.wram.address_offset == WRAM_START_ADDRESS
        &&& self.hram@.len() == 0x7F
        &&& self.hram.address_offset == HRAM_START_ADDRESS
        &&& self.gpu.wf()
        &&& self.timer.wf()
        &&& (self.boot_rom matches Some(b) ==> b.rom@.len() == 0x100)
    }

    /// The byte a read of `address` returns.
    #[verifier::opaque]
    pub open spec fn read_spec(&self, address: u16) -> u8 {
        match region_of(address, self.boot_mapped()) {
            Region::BootRom => self.boot_rom->0.rom@[address as int],
            Region::Rom => self.cartridge.rom@[address as int],
            Region::Video => self.gpu.read_spec(address),
            Region::ExternalRam => self.cartridge.eram@[address - ERAM_START_ADDRESS],
            Region::WorkRam => self.wram@[address - WRAM_START_ADDRESS],
            Region::Echo => self.wram@[address - ECHO_START_ADDRESS],
            Region::Buttons => self.buttons.register_spec(),
            Region::SerialTransfer => self.serial_transfer,
            Region::SerialControl => self.serial_control,
            Region::Timer => self.timer.read_spec(address),
            Region::InterruptRequest => self.interrupts.request_register,
            Region::Sound => self.spu.read_spec(address),
            Region::HighRam => self.hram@[address - HRAM_START_ADDRESS],
            Region::InterruptEnable => self.interrupts.enable_register,
            _ => OPEN_BUS,
        }
    }

    /// The little-endian word at `address`, `address + 1` (wrapping).
    pub open spec fn read16_spec(&self, address: u16) -> u16 {
        word_of(self.read_spec(address), self.read_spec(((address + 1) % 0x10000) as u16))
    }

    /// Whether `new` is `old` after a write of `value` to `address`: ROM and
    /// unmapped addresses ignore it, a nonzero write to FF50 unmaps the boot
    /// ROM, and each other address changes only the component that owns it.
    /// A write to FF46 also copies the 160 bytes at `value * 0x100` into OAM.
    #[verifier::opaque]
    pub open spec fn written(old: &Bus, new: &Bus, address: u16, value: u8) -> bool {
        if address == DMA_ADDRESS {
            &&& *new == (Bus { gpu: new.gpu, ..*old })
            &&& new.gpu == (Gpu { dma: value, oam: new.gpu.oam, ..old.gpu })
            &&& new.gpu.oam.address_offset == old.gpu.oam.address_offset
            &&& new.gpu.oam@ == dma_source(old, value)
        } else {
        match region_of(address, old.boot_mapped()) {
            Region::Video => {
                &&& *new == (Bus { gpu: new.gpu, ..*old })
                &&& Gpu::written(&old.gpu, &new.gpu, address, value)
            },
            Region::ExternalRam => {
                &&& *new == (Bus { cartridge: new.cartridge, ..*old })
                &&& new.cartridge.rom == old.cartridge.rom
                &&& new.cartridge.eram.address_offset == old.cartridge.eram.address_offset
                &&& new.cartridge.eram@ == old.cartridge.eram@.update(
                    address - ERAM_START_ADDRESS,
                    value,
                )
            },
            Region::WorkRam => {
                &&& *new == (Bus { wram: new.wram, ..*old })
                &&& new.wram.address_offset == old.wram.address_offset
                &&& new.wram@ == old.wram@.update(address - WRAM_START_ADDRESS, value)
            },
            Region::Echo => {
                &&& *new == (Bus { wram: new.wram, ..*old })
                &&& new.wram.address_offset == old.wram.address_offset
                &&& new.wram@ == old.wram@.update(address - ECHO_START_ADDRESS, value)
            },
            Region::HighRam => {
                &&& *new == (Bus { hram: new.hram, ..*old })
                &&& new.hram.address_offset == old.hram.address_offset
                &&& new.hram@ == old.hram@.update(address - HRAM_START_ADDRESS, value)
            },
            Region::Buttons => *new == (Bus {
                buttons: Buttons {
                    directions: (value / 16) % 2 == 0,
                    actions: (value / 32) % 2 == 0,
                    ..old.buttons
                },
                ..*old
            }),
            Region::SerialTransfer => *new == (Bus { serial_transfer: value, ..*old }),
            Region::SerialControl => *new == (Bus { serial_control: value, ..*old }),
            Region::Timer => *new == (Bus { timer: old.timer.written(address, value), ..*old }),
            Region::InterruptRequest => *new == (Bus {
                interrupts: Interrupts { request_register: value, ..old.interrupts },
                ..*old
            }),
            Region::InterruptEnable => *new == (Bus {
                interrupts: Interrupts { enable_register: value, ..old.interrupts },
                ..*old
            }),
            Region::Sound => *new == (Bus { spu: old.spu.written(address, value), ..*old }),
            Region::BootOff => *new == if value != 0 {
                Bus { boot_rom: None, ..*old }
            } else {
                *old
            },
            _ => *new == *old,
        }
        }
    }

    /// A bus over `cartridge`, with the boot ROM mapped when one is given.
    pub fn new(cartridge: Cartridge, boot_rom: Option<BootRom>) -> (r: Bus)
        requires
            cartridge.wf(),
            boot_rom matches Some(b) ==> b.rom@.len() == 0x100,
        ensures
            r.wf(),
            r.cartridge == cartridge,
            r.boot_rom == boot_rom,
            r.wram@ == Seq::new(0x2000, |i: int| 0u8),
            r.hram@ == Seq::new(0x7F, |i: int| 0u8),
            r.interrupts == (Interrupts { enable_register: 0, request_register: 0, master: true }),
            r.timer.div == 0 && r.timer.tima == 0 && r.timer.tma == 0 && r.timer.tac == 0,
            r.gpu.ly == 0,
    {
        Bus {
            boot_rom,
            cartridge,
            wram: Ram::new(0x2000, WRAM_START_ADDRESS),
            hram: Ram::new(0x7F, HRAM_START_ADDRESS),
            interrupts: Interrupts::new(),
            gpu: Gpu::new(),
            serial_transfer: 0xFF,
            serial_control: 0,
            spu: Spu::new(),
            timer: Timer::new(),
            buttons: Buttons::new(),
        }
    }

    fn region(&self, address: u16) -> (r: Region)
        ensures
            r == region_of(address, self.boot_mapped()),
    {
        if address <= 0xFF && self.boot_rom.is_some() {
            Region::BootRom
        } else if address <= 0x7FFF {
            Region::Rom
        } else if address <= 0x9FFF {
            Region::Video
        } else if address <= ERAM_END_ADDRESS {
            Region::ExternalRam
        } else if address <= WRAM_END_ADDRESS {
            Region::WorkRam
        } else if address <= ECHO_END_ADDRESS {
            Region::Echo
        } else if address <= 0xFE9F {
            Region::Video
        } else if address == BUTTONS_ADDRESS {
            Region::Buttons
        } else if address == SERIAL_TRANSFER_ADDRESS {
            Region::SerialTransfer
        } else if address == SERIAL_CONTROL_ADDRESS {
            Region::SerialControl
        } else if TIMER_START_ADDRESS <= address && address <= TIMER_END_ADDRESS {
            Region::Timer
        } else if address == INTERRUPT_REQUEST_ADDRESS {
            Region::InterruptRequest
        } else if SPU_START_ADDRESS <= address && address <= SPU_END_ADDRESS {
            Region::Sound
        } else if GPU_REGISTER_START_ADDRESS <= address && address <= GPU_REGISTER_END_ADDRESS {
            Region::Video
        } else if address == BOOT_OFF_ADDRESS {
            Region::BootOff
        } else if HRAM_START_ADDRESS <= address && address <= HRAM_END_ADDRESS {
            Region::HighRam
        } else if address == INTERRUPT_ENABLE_ADDRESS {
            Region::InterruptEnable
        } else {
            Region::Unmapped
        }
    }

    pub fn fetch8(&self, address: u16) -> (r: u8)
        requires
            self.wf(),
        ensures
            r == self.read_spec(address),
    {
        reveal(Bus::read_spec);
        match self.region(address) {
            Region::BootRom => {
                let b = self.boot_rom.as_ref().unwrap();
                b.rom[address as usize]
            },
            Region::Rom => self.cartridge.fetch_rom(address),
            Region::Video => self.gpu.fetch8(address),
            Region::ExternalRam => self.cartridge.eram.fetch8(address),
            Region::WorkRam => self.wram.fetch8(address),
            Region::Echo => self.wram.fetch8(address - 0x2000),
            Region::Buttons => self.buttons.fetch8(),
            Region::SerialTransfer => self.serial_transfer,
            Region::SerialControl => self.serial_control,
            Region::Timer => self.timer.fetch8(address),
            Region::InterruptRequest => self.interrupts.request_register,
            Region::Sound => self.spu.fetch8(address),
            Region::HighRam => self.hram.fetch8(address),
            Region::InterruptEnable => self.interrupts.enable_register,
            _ => OPEN_BUS,
        }
    }

    /// Reads the little-endian word at `address` (low byte first).
    pub fn fetch16(&self, address: u16) -> (r: u16)
        requires
            self.wf(),
        ensures
            r == self.read16_spec(address),
    {
        let lo = self.fetch8(address);
        let hi = self.fetch8(address.wrapping_add(1));
        hi as u16 * 256 + lo as u16
    }

    pub fn write8(&mut self, address: u16, value: u8)
        requires
            old(self).wf(),
        ensures
            final(self).wf(),
            Bus::written(old(self), final(self), address, value),
    {
        reveal(Bus::written);
        if address == DMA_ADDRESS {
            let base: u16 = value as u16 * 256;
            let mut copy: Vec<u8> = Vec::new();
            let mut i: u16 = 0;
            while i < 0xA0
                invariant
                    self.wf(),
                    *self == *old(self),
                    base == value * 256,
                    i <= 0xA0,
                    copy@.len() == i,
                    forall|k: int| 0 <= k < i ==> #[trigger] copy@[k] == self.read_spec((base + k) as u16),
                decreases 0xA0 - i,
            {
                let b = self.fetch8(base + i);
                copy.push(b);
                i = i + 1;
            }
            assert(copy@ =~= dma_source(self, value));
            self.gpu.dma = value;
            self.gpu.oam.buffer = copy;
            return;
        }
        match self.region(address) {
            Region::Video => self.gpu.write8(address, value),
            Region::ExternalRam => self.cartridge.eram.write8(address, value),
            Region::WorkRam => self.wram.write8(address, value),
            Region::Echo => self.wram.write8(address - 0x2000, value),
            Region::HighRam => self.hram.write8(address, value),
            Region::Buttons => self.buttons.write8(value),
            Region::SerialTransfer => self.serial_transfer = value,
            Region::SerialControl => self.serial_control = value,
            Region::Timer => self.timer.write8(address, value),
            Region::InterruptRequest => self.interrupts.set_request(value),
            Region::InterruptEnable => self.interrupts.set_enable(value),
            Region::Sound => self.spu.write8(address, value),
            Region::BootOff => {
                if value != 0 {
                    self.boot_rom = None;
                }
            },
            _ => {},
        }
    }

    /// Writes `value` little-endian: low byte at `address`, high byte at
    /// `address + 1` (wrapping).
    pub fn write16(&mut self, address: u16, value: u16)
        requires
            old(self).wf(),
        ensures
            final(self).wf(),
            wrote16(old(self), final(self), address, value),
    {
        let ghost b0 = *self;
        self.write8(address, (value % 256) as u8);
        let ghost b1 = *self;
        self.write8(address.wrapping_add(1), (value / 256) as u8);
        assert(Bus::written(&b0, &b1, address, (value % 256) as u8));
    }

    /// Whether `new` is `old` after the GPU and the timer have advanced by
    /// `cycles`: the frame position moves by `cycles` modulo a frame, a line
    /// whose HBlank ends in that span is drawn into the frame, the timer
    /// ticks, the VBlank and timer requests are raised exactly when
    /// crossed, and nothing else of the bus changes.
    pub open spec fn ticked(old: &Bus, new: &Bus, cycles: u8) -> bool {
        &&& new.gpu.same_settings(&old.gpu)
        &&& new.gpu.frame_position() == (old.gpu.frame_position() + cycles) % 70224
        &&& forall|i: int|
            0 <= i < 23040 ==> #[trigger] new.gpu.frame@[i] == if old.gpu.lcdc.value / 128 == 1
                && renders_row(old.gpu.frame_position(), cycles, i / 160) {
                old.gpu.pixel_spec((i % 160) as u8, (i / 160) as u8)
            } else {
                old.gpu.frame@[i]
            }
        &&& new.gpu.frame_ready == (old.gpu.frame_ready || crosses_vblank(
            old.gpu.frame_position(),
            cycles,
        ))
        &&& new.timer == old.timer.ticked(cycles)
        &&& new.interrupts.enable_register == old.interrupts.enable_register
        &&& new.interrupts.master == old.interrupts.master
        &&& bit(new.interrupts.request_register, V_BLANK_BIT) == (bit(
            old.interrupts.request_register,
            V_BLANK_BIT,
        ) || crosses_vblank(old.gpu.frame_position(), cycles))
        &&& bit(new.interrupts.request_register, TIMER_BIT) == (bit(
            old.interrupts.request_register,
            TIMER_BIT,
        ) || old.timer.overflows(cycles))
        &&& bit(old.interrupts.request_register, LCD_STAT_BIT) ==> bit(
            new.interrupts.request_register,
            LCD_STAT_BIT,
        )
        &&& forall|j: u8|
            3 <= j < 8 ==> bit(new.interrupts.request_register, j) == bit(
                old.interrupts.request_register,
                j,
            )
        &&& *new == (Bus { gpu: new.gpu, timer: new.timer, interrupts: new.interrupts, ..*old })
    }

    /// Advances the GPU and the timer by the cycles of one instruction.
    pub fn next(&mut self, cycles: u8)
        requires
            old(self).wf(),
        ensures
            final(self).wf(),
            Bus::ticked(old(self), final(self), cycles),
    {
        self.gpu.next(cycles, &mut self.interrupts);
        let ghost mid = self.interrupts.request_register;
        self.timer.next(cycles, &mut self.interrupts);
        proof {
            assert(bit(mid, TIMER_BIT) == bit(old(self).interrupts.request_register, TIMER_BIT));
            if old(self).timer.overflows(cycles) {
                assert forall|j: u8| j < 8 implies bit(self.interrupts.request_register, j) == (bit(mid, j) || j == TIMER_BIT) by {
                    lemma_with_bit(mid, TIMER_BIT, true, j);
                }
            }
        }
    }

    /// Records a key change; a change of state requests the joypad interrupt.
    pub fn set_button(&mut self, button: Button, pressed: bool)
        ensures
            final(self).buttons == old(self).buttons.with_pressed(button, pressed),
            final(self).interrupts == if old(self).buttons.pressed_spec(button) != pressed {
                Interrupts {
                    request_register: with_bit(old(self).interrupts.request_register, JOYPAD_BIT, true),
                    ..old(self).interrupts
                }
            } else {
                old(self).interrupts
            },
            *final(self) == (Bus {
                buttons: final(self).buttons,
                interrupts: final(self).interrupts,
                ..*old(self)
            }),
    {
        let was = self.buttons.pressed(button);
        self.buttons.set(button, pressed);
        if was != pressed {
            self.interrupts.set_joypad_request(true);
        }
    }
}

/// The bytes an OAM DMA started by writing `value` copies.
pub open spec fn dma_source(bus: &Bus, value: u8) -> Seq<u8> {
    Seq::new(0xA0, |i: int| bus.read_spec((value * 256 + i) as u16))
}

/// Whether `new` is `old` after a 16-bit little-endian write of `value` at
/// `address`.
pub open spec fn wrote16(old: &Bus, new: &Bus, address: u16, value: u16) -> bool {
    exists|mid: Bus|
        #[trigger] Bus::written(old, &mid, address, (value % 256) as u8) && Bus::written(
            &mid,
            new,
            ((address + 1) % 0x10000) as u16,
            (value / 256) as u8,
        )
}

} // verus!

verus! {

/// A write to plain RAM reads back at once and leaves every byte outside
/// its cell as it was.
pub proof fn lemma_plain_ram_write(old: &Bus, new: &Bus, address: u16, value: u8, other: u16)
    requires
        old.wf(),
        is_plain_ram(address),
        Bus::written(old, new, address, value),
    ensures
        new.wf(),
        new.read_spec(address) == value,
        !(is_plain_ram(other) && ram_cell(other) == ram_cell(address)) ==> new.read_spec(other)
            == old.read_spec(other),
{
    reveal(Bus::written);
    reveal(Bus::read_spec);
}

/// A 16-bit write followed by a 16-bit read at the same plain RAM address
/// yields the written value (low byte first).
pub proof fn lemma_word_round_trip(old: &Bus, new: &Bus, address: u16, value: u16)
    requires
        old.wf(),
        is_plain_ram(address),
        is_plain_ram(((address + 1) % 0x10000) as u16),
        wrote16(old, new, address, value),
    ensures
        new.read16_spec(address) == value,
{
    let next = ((address + 1) % 0x10000) as u16;
    let mid = choose|mid: Bus|
        #[trigger] Bus::written(old, &mid, address, (value % 256) as u8) && Bus::written(
            &mid,
            new,
            next,
            (value / 256) as u8,
        );
    lemma_plain_ram_write(old, &mid, address, (value % 256) as u8, next);
    lemma_plain_ram_write(&mid, new, next, (value / 256) as u8, address);
    assert(ram_cell(address) != ram_cell(next));
    assert(word_of((value % 256) as u8, (value / 256) as u8) == value);
}

} // verus!
