use emulator::alu::{self, Flags, ShiftKind};
use emulator::bus::Bus;
use emulator::buttons::Button;
use emulator::cartridge::{BootRom, Cartridge, RomError};
use emulator::cpu::Cpu;
use emulator::gpu::{DmgColor, Gpu};
use emulator::instructions::{decode, parse_prefix_instruction, ArithmeticByteTarget, Instruction};
use emulator::interrupts::Interrupts;
use emulator::lcd_registers::Mode;
use emulator::memory::Ram;
use emulator::timer::Timer;

fn no_flags() -> Flags {
    Flags { zero: false, subtract: false, halfcarry: false, carry: false }
}

fn empty_bus() -> Bus {
    Bus::new(Cartridge::new(vec![0u8; 0x8000]).unwrap(), None)
}

#[test]
fn flags_low_nibble_always_clear() {
    let mut cpu = Cpu::new();
    cpu.set_af(0x12FF);
    assert_eq!(cpu.f(), 0xF0);
    assert_eq!(cpu.af(), 0x12F0);
}

#[test]
fn swap_twice_is_identity() {
    for v in 0..=255u8 {
        let once = alu::prefixed_shift(ShiftKind::Swap, v, no_flags());
        let twice = alu::prefixed_shift(ShiftKind::Swap, once.0, once.1);
        assert_eq!(twice.0, v);
    }
    assert_eq!(alu::prefixed_shift(ShiftKind::Swap, 0xAB, no_flags()).0, 0xBA);
}

#[test]
fn cpl_twice_is_identity() {
    let (a, f) = alu::cpl(0x35, no_flags());
    assert_eq!(a, 0xCA);
    assert!(f.subtract && f.halfcarry);
    assert_eq!(alu::cpl(a, f).0, 0x35);
}

#[test]
fn rlca_then_rrca_restores() {
    let (a, f) = alu::accumulator_rotate(ShiftKind::Rlc, 0x85, no_flags());
    assert_eq!(a, 0x0B);
    assert!(f.carry && !f.zero);
    assert_eq!(alu::accumulator_rotate(ShiftKind::Rrc, a, f).0, 0x85);
}

#[test]
fn inc_dec_boundaries() {
    let (r, f) = alu::inc(0xFF, no_flags());
    assert_eq!(r, 0x00);
    assert!(f.zero && f.halfcarry && !f.subtract);
    let (r, f) = alu::dec(0x00, no_flags());
    assert_eq!(r, 0xFF);
    assert!(!f.zero && f.halfcarry && f.subtract);
}

#[test]
fn add_boundary() {
    let (r, f) = alu::add(0x01, 0x0F, false);
    assert_eq!(r, 0x10);
    assert!(f.halfcarry && !f.carry && !f.zero);
    let (r, f) = alu::add(0xFF, 0x01, false);
    assert_eq!(r, 0x00);
    assert!(f.zero && f.carry && f.halfcarry);
}

#[test]
fn sub_and_sbc_borrow() {
    let (r, f) = alu::sub(0x10, 0x01, false);
    assert_eq!(r, 0x0F);
    assert!(f.subtract && f.halfcarry && !f.carry);
    let (r, f) = alu::sub(0x00, 0x00, true);
    assert_eq!(r, 0xFF);
    assert!(f.carry && f.halfcarry);
}

#[test]
fn add_hl_flags() {
    let (r, f) = alu::add_hl(0x0FFF, 0x0001, no_flags());
    assert_eq!(r, 0x1000);
    assert!(f.halfcarry && !f.carry);
    let (r, f) = alu::add_hl(0xFFFF, 0x0001, no_flags());
    assert_eq!(r, 0x0000);
    assert!(f.carry);
}

#[test]
fn add_sp_signed_offset() {
    let (r, f) = alu::add_sp(0xFFF8, 0x08);
    assert_eq!(r, 0x0000);
    assert!(f.carry && f.halfcarry);
    let (r, _) = alu::add_sp(0x1000, 0xFE);
    assert_eq!(r, 0x0FFE);
}

#[test]
fn ram_word_round_trip() {
    let mut ram = Ram::new(4, 0x100);
    ram.write16(0x101, 0xBEEF);
    assert_eq!(ram.fetch16(0x101), 0xBEEF);
    assert_eq!(ram.fetch8(0x101), 0xEF);
    assert_eq!(ram.fetch8(0x102), 0xBE);
}

#[test]
fn bus_word_round_trip_and_echo() {
    let mut bus = empty_bus();
    bus.write16(0xC010, 0xBEEF);
    assert_eq!(bus.fetch16(0xC010), 0xBEEF);
    assert_eq!(bus.fetch8(0xC010), 0xEF);
    assert_eq!(bus.fetch8(0xE010), 0xEF);
    bus.write8(0xE011, 0x12);
    assert_eq!(bus.fetch8(0xC011), 0x12);
    bus.write16(0xFF90, 0x0102);
    assert_eq!(bus.fetch16(0xFF90), 0x0102);
}

#[test]
fn rom_ignores_writes_and_unmapped_reads_open_bus() {
    let mut rom = vec![0u8; 0x8000];
    rom[0x1234] = 0x77;
    let mut bus = Bus::new(Cartridge::new(rom).unwrap(), None);
    bus.write8(0x1234, 0x00);
    assert_eq!(bus.fetch8(0x1234), 0x77);
    assert_eq!(bus.fetch8(0xFEA5), 0xFF);
    bus.write8(0xA000, 0x42);
    assert_eq!(bus.fetch8(0xA000), 0x42);
}

#[test]
fn boot_rom_maps_until_switched_off() {
    let mut rom = vec![0u8; 0x8000];
    rom[0x10] = 0x22;
    let boot = BootRom::new(vec![0x11u8; 0x100]).unwrap();
    let mut bus = Bus::new(Cartridge::new(rom).unwrap(), Some(boot));
    assert_eq!(bus.fetch8(0x10), 0x11);
    bus.write8(0xFF50, 0x01);
    assert_eq!(bus.fetch8(0x10), 0x22);
}

#[test]
fn wrong_rom_sizes_are_refused() {
    assert_eq!(Cartridge::new(vec![0u8; 10]).err(), Some(RomError::WrongSize));
    assert_eq!(BootRom::new(vec![0u8; 10]).err(), Some(RomError::WrongSize));
}

#[test]
fn interrupt_priority_order() {
    let mut i = Interrupts::new();
    i.set_enable(0x1F);
    i.set_request(0x14);
    assert!(i.interrupt_pending());
    assert_eq!(i.ack_and_get_pending_address(), Some(0x50));
    assert_eq!(i.request_register, 0x10);
    assert_eq!(i.ack_and_get_pending_address(), Some(0x60));
    assert_eq!(i.ack_and_get_pending_address(), None);
    assert!(!i.interrupt_pending());
}

#[test]
fn interrupt_needs_master_enable() {
    let mut i = Interrupts::new();
    i.set_enable(0x01);
    i.set_v_blank_request(true);
    assert!(i.interrupt_pending());
    i.disable_master();
    assert!(!i.interrupt_pending());
}

#[test]
fn div_counts_at_16384_hz() {
    let mut t = Timer::new();
    let mut i = Interrupts::new();
    for _ in 0..16 {
        t.next(16, &mut i);
    }
    assert_eq!(t.fetch8(0xFF04), 1);
    for _ in 0..(255 * 16) {
        t.next(16, &mut i);
    }
    assert_eq!(t.fetch8(0xFF04), 0);
}

#[test]
fn writing_div_zeroes_it() {
    let mut t = Timer::new();
    let mut i = Interrupts::new();
    for _ in 0..40 {
        t.next(200, &mut i);
    }
    assert!(t.fetch8(0xFF04) != 0);
    t.write8(0xFF04, 0x5A);
    assert_eq!(t.fetch8(0xFF04), 0);
}

#[test]
fn tima_fast_rate_and_overflow() {
    let mut t = Timer::new();
    let mut i = Interrupts::new();
    t.write8(0xFF07, 0x05);
    t.write8(0xFF06, 0x42);
    t.next(15, &mut i);
    assert_eq!(t.fetch8(0xFF05), 0);
    t.next(1, &mut i);
    assert_eq!(t.fetch8(0xFF05), 1);
    t.write8(0xFF05, 0xFF);
    t.next(16, &mut i);
    assert_eq!(t.fetch8(0xFF05), 0x42);
    assert!(i.timer_request());
}

#[test]
fn timer_disabled_keeps_tima() {
    let mut t = Timer::new();
    let mut i = Interrupts::new();
    t.write8(0xFF07, 0x01);
    t.next(200, &mut i);
    assert_eq!(t.fetch8(0xFF05), 0);
}

#[test]
fn buttons_register_rows() {
    let mut bus = empty_bus();
    bus.write8(0xFF00, 0x20); // bit 4 low: directions
    assert_eq!(bus.fetch8(0xFF00), 0xEF);
    bus.set_button(Button::Left, true);
    assert!(bus.interrupts.joypad_request());
    assert_eq!(bus.fetch8(0xFF00), 0xED);
    bus.write8(0xFF00, 0x10); // bit 5 low: actions
    assert_eq!(bus.fetch8(0xFF00), 0xDF);
    bus.set_button(Button::Start, true);
    assert_eq!(bus.fetch8(0xFF00), 0xD7);
    bus.write8(0xFF00, 0x00); // both rows
    assert_eq!(bus.fetch8(0xFF00), 0xC5);
}

#[test]
fn frame_takes_70224_cycles() {
    let mut g = Gpu::new();
    let mut i = Interrupts::new();
    let mut frames = 0;
    let mut cycles: u32 = 0;
    let mut first = 0;
    while frames < 2 {
        g.next(4, &mut i);
        cycles += 4;
        if g.take_frame_ready() {
            frames += 1;
            if frames == 1 {
                first = cycles;
            }
        }
    }
    assert_eq!(cycles - first, 70224);
    assert!(i.v_blank_request());
}

#[test]
fn stat_reflects_mode_and_coincidence() {
    let mut bus = empty_bus();
    bus.write8(0xFF41, 0xFF);
    let stat = bus.fetch8(0xFF41);
    assert_eq!(stat & 0x78, 0x78);
    assert_eq!(stat & 0x07, 0x04); // HBlank, LY == LYC == 0
    bus.next(204);
    assert_eq!(bus.gpu.stat.get_mode(), Mode::ScanOam);
    assert_eq!(bus.fetch8(0xFF44), 1);
    assert_eq!(bus.fetch8(0xFF41) & 0x07, 0x02);
    bus.write8(0xFF45, 1);
    assert_eq!(bus.fetch8(0xFF41) & 0x07, 0x06);
    bus.next(80);
    assert_eq!(bus.fetch8(0xFF41) & 0x03, 0x03);
}

#[test]
fn background_pixel_shades() {
    let mut bus = empty_bus();
    // tile 1 at 0x8010: first line lsb=0xFF msb=0x00 -> color index 1
    bus.write8(0x8010, 0xFF);
    bus.write8(0x8011, 0x00);
    bus.write8(0x9800, 0x01);
    bus.write8(0xFF47, 0b1110_0100);
    bus.write8(0xFF40, 0x91); // LCD on, unsigned tiles, map 0x9800
    assert_eq!(bus.gpu.get_bg_color(0, 0), DmgColor::LightGrey);
    assert_eq!(bus.gpu.get_bg_color(8, 0), DmgColor::White);
    assert_eq!(bus.gpu.get_pixel_color(3, 0), DmgColor::LightGrey);
}

#[test]
fn object_pixel_overrides_background() {
    let mut bus = empty_bus();
    bus.write8(0x8020, 0x80); // tile 2, column 0 color index 1
    bus.write8(0xFE00, 16); // y = 0
    bus.write8(0xFE01, 8); // x = 0
    bus.write8(0xFE02, 2);
    bus.write8(0xFE03, 0);
    bus.write8(0xFF48, 0b1110_0100);
    bus.write8(0xFF40, 0x93);
    bus.gpu.select_oam_objects();
    assert_eq!(bus.gpu.selected_oam_objects, vec![0u8]);
    assert_eq!(bus.gpu.get_pixel_color(0, 0), DmgColor::LightGrey);
    assert_eq!(bus.gpu.get_pixel_color(1, 0), DmgColor::White);
}

#[test]
fn rendered_line_lands_in_frame() {
    let mut bus = empty_bus();
    bus.write8(0xFF47, 0xFF);
    bus.write8(0xFF40, 0x91);
    bus.next(204);
    assert_eq!(bus.gpu.frame[0], DmgColor::Black);
    assert_eq!(bus.gpu.frame[159], DmgColor::Black);
    assert_eq!(bus.gpu.frame[160], DmgColor::White);
}

#[test]
fn decode_tables() {
    assert_eq!(decode(0x00).0, Instruction::NOP);
    assert_eq!(decode(0xD3).0, Instruction::UNDEFINED);
    assert_eq!(decode(0xCB).0, Instruction::PREFIX);
    assert_eq!(decode(0xFF), (Instruction::RST(0x38), 16));
    let ((i, c), t) = parse_prefix_instruction(0x46);
    assert_eq!(i, Instruction::BIT(0));
    assert_eq!(c, 12);
    assert_eq!(t, ArithmeticByteTarget::MHL);
}

#[test]
fn oam_dma_copies_160_bytes() {
    let mut bus = empty_bus();
    for i in 0..0xA0u16 {
        bus.write8(0xC100 + i, (i as u8).wrapping_mul(3));
    }
    bus.write8(0xFF46, 0xC1);
    assert_eq!(bus.fetch8(0xFF46), 0xC1);
    assert_eq!(bus.fetch8(0xFE00), 0);
    assert_eq!(bus.fetch8(0xFE01), 3);
    assert_eq!(bus.fetch8(0xFE9F), (0x9Fu8).wrapping_mul(3));
}

#[test]
fn tac_write_keeps_div() {
    let mut t = Timer::new();
    let mut i = Interrupts::new();
    t.next(255, &mut i);
    t.next(1, &mut i);
    assert_eq!(t.fetch8(0xFF04), 1);
    t.write8(0xFF07, 0x04);
    assert_eq!(t.fetch8(0xFF04), 1);
}
