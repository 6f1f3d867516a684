use emulator::bus::Bus;
use emulator::cartridge::Cartridge;
use emulator::disassembler::{
    get_arithmetic_byte_target_string, get_arithmetic_word_target_string,
    get_jump_condition_string, disassemble_instruction, Disassembler,
};
use emulator::frontend::{Controller, FrontendStatus, Key};
use emulator::instructions::{ArithmeticByteTarget, ArithmeticWordTarget, Instruction, JumpCondition};

#[test]
fn operand_names() {
    assert_eq!(get_arithmetic_word_target_string(ArithmeticWordTarget::DE), "DE");
    assert_eq!(get_jump_condition_string(JumpCondition::NZ), "NZ, ");
    assert_eq!(get_jump_condition_string(JumpCondition::NONE), "");
    assert_eq!(get_arithmetic_byte_target_string(ArithmeticByteTarget::MHL), "[HL]");
    assert_eq!(Disassembler::new().mnemonic(Instruction::RETI), "RETI");
}

#[test]
fn controller_maps_keys_and_quits() {
    let mut bus = Bus::new(Cartridge::new(vec![0u8; 0x8000]).unwrap(), None);
    let controller = Controller::new();
    assert_eq!(controller.update(Key::X, true, &mut bus), FrontendStatus::Running);
    assert!(bus.buttons.a);
    assert!(bus.interrupts.joypad_request());
    assert_eq!(controller.update(Key::A, true, &mut bus), FrontendStatus::Running);
    assert!(bus.buttons.start);
    assert_eq!(controller.update(Key::X, false, &mut bus), FrontendStatus::Running);
    assert!(!bus.buttons.a);
    assert_eq!(controller.update(Key::Escape, true, &mut bus), FrontendStatus::Quit);
}

fn bus_with(program: &[u8]) -> Bus {
    let mut rom = vec![0u8; 0x8000];
    for (i, b) in program.iter().enumerate() {
        rom[0x100 + i] = *b;
    }
    Bus::new(Cartridge::new(rom).unwrap(), None)
}

#[test]
fn disassembly_lines() {
    let bus = bus_with(&[0x3E, 0x12, 0xC3, 0x50, 0x01, 0xCB, 0x7C, 0x20, 0xFE, 0xEA, 0x34, 0x12, 0xF8, 0x05]);
    assert_eq!(disassemble_instruction(&bus, 0x100), "0x0100: LD A, 0x12");
    assert_eq!(disassemble_instruction(&bus, 0x102), "0x0102: JP 0x0150");
    assert_eq!(disassemble_instruction(&bus, 0x105), "0x0105: BIT 7, H");
    assert_eq!(disassemble_instruction(&bus, 0x107), "0x0107: JR NZ, 0xFE");
    assert_eq!(disassemble_instruction(&bus, 0x109), "0x0109: LD [0x1234], A");
    assert_eq!(disassemble_instruction(&bus, 0x10C), "0x010C: LD HL, SP+0x05");
}
