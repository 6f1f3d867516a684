use emulator::bus::Bus;
use emulator::cartridge::Cartridge;
use emulator::cpu::Cpu;
use emulator::step::CpuError;

fn bus_with_program(program: &[u8]) -> Bus {
    let mut rom = vec![0u8; 0x8000];
    for (i, b) in program.iter().enumerate() {
        rom[0x100 + i] = *b;
    }
    let cartridge = Cartridge::new(rom).unwrap();
    Bus::new(cartridge, None)
}

fn run(cpu: &mut Cpu, bus: &mut Bus, steps: usize) -> Vec<u8> {
    let mut cycles = Vec::new();
    for _ in 0..steps {
        let c = cpu.next(bus).unwrap();
        bus.next(c);
        cycles.push(c);
    }
    cycles
}

#[test]
fn nop_then_halt_advances_pc_by_two() {
    let mut bus = bus_with_program(&[0x00, 0x76]);
    let mut cpu = Cpu::new();
    let f = cpu.f();
    run(&mut cpu, &mut bus, 2);
    assert_eq!(cpu.program_counter, 0x102);
    assert_eq!(cpu.f(), f);
}

#[test]
fn load_immediate_and_add() {
    let mut bus = bus_with_program(&[0x3E, 0x12, 0xC6, 0x34]);
    let mut cpu = Cpu::new();
    let cycles = run(&mut cpu, &mut bus, 2);
    assert_eq!(cpu.a, 0x46);
    assert!(!cpu.zero() && !cpu.subtract() && !cpu.halfcarry() && !cpu.carry());
    assert_eq!(cycles, vec![8, 8]);
    assert_eq!(cpu.program_counter, 0x104);
}

#[test]
fn xor_a_clears_a_and_sets_zero() {
    let mut bus = bus_with_program(&[0xAF]);
    let mut cpu = Cpu::new();
    run(&mut cpu, &mut bus, 1);
    assert_eq!(cpu.a, 0x00);
    assert_eq!(cpu.f(), 0x80);
}

#[test]
fn stack_round_trip() {
    let mut bus = bus_with_program(&[0x01, 0x34, 0x12, 0xC5, 0x01, 0x00, 0x00, 0xC1]);
    let mut cpu = Cpu::new();
    run(&mut cpu, &mut bus, 2);
    assert_eq!(cpu.stack_pointer, 0xFFFC);
    assert_eq!(bus.fetch8(0xFFFD), 0x12);
    assert_eq!(bus.fetch8(0xFFFC), 0x34);
    run(&mut cpu, &mut bus, 2);
    assert_eq!(cpu.bc(), 0x1234);
    assert_eq!(cpu.stack_pointer, 0xFFFE);
}

#[test]
fn push_pop_af_keeps_flags() {
    // SCF; PUSH AF; XOR A; POP AF
    let mut bus = bus_with_program(&[0x37, 0xF5, 0xAF, 0xF1]);
    let mut cpu = Cpu::new();
    run(&mut cpu, &mut bus, 2);
    let af = cpu.af();
    run(&mut cpu, &mut bus, 2);
    assert_eq!(cpu.af(), af);
    assert_eq!(cpu.af(), 0x0110);
    assert_eq!(cpu.stack_pointer, 0xFFFE);
}

#[test]
fn conditional_jump_not_taken_falls_through() {
    let mut bus = bus_with_program(&[0xB8, 0x28, 0x02, 0x00, 0x00, 0x3C]);
    let mut cpu = Cpu::new();
    cpu.set_a(0);
    cpu.set_b(1);
    let cycles = run(&mut cpu, &mut bus, 5);
    assert_eq!(cpu.a, 1);
    assert_eq!(cpu.program_counter, 0x106);
    assert_eq!(cycles[1], 8);
}

#[test]
fn conditional_jump_taken_skips() {
    let mut bus = bus_with_program(&[0xB8, 0x28, 0x02, 0x00, 0x00, 0x3C]);
    let mut cpu = Cpu::new();
    cpu.set_a(1);
    cpu.set_b(1);
    let cycles = run(&mut cpu, &mut bus, 3);
    assert_eq!(cycles[1], 12);
    assert_eq!(cpu.a, 2);
    assert_eq!(cpu.program_counter, 0x106);
}

#[test]
fn interrupt_dispatch() {
    let mut bus = bus_with_program(&[]);
    let mut cpu = Cpu::new();
    bus.write8(0xFFFF, 0x01);
    bus.write8(0xFF0F, 0x01);
    bus.interrupts.enable_master();
    cpu.set_program_counter(0x1000);
    cpu.set_stack_pointer(0xFFFE);
    let cycles = cpu.next(&mut bus).unwrap();
    assert_eq!(cycles, 20);
    assert_eq!(bus.fetch8(0xFFFD), 0x10);
    assert_eq!(bus.fetch8(0xFFFC), 0x00);
    assert_eq!(cpu.stack_pointer, 0xFFFC);
    assert!(!bus.interrupts.v_blank_request());
    assert!(!bus.interrupts.master_enabled());
    assert_eq!(cpu.program_counter, 0x0040);
}

#[test]
fn interrupt_waits_for_instruction_after_ei() {
    // EI; NOP; NOP
    let mut bus = bus_with_program(&[0xFB, 0x00, 0x00]);
    let mut cpu = Cpu::new();
    bus.interrupts.disable_master();
    bus.write8(0xFFFF, 0x04);
    bus.write8(0xFF0F, 0x04);
    run(&mut cpu, &mut bus, 2);
    assert_eq!(cpu.program_counter, 0x102);
    let cycles = cpu.next(&mut bus).unwrap();
    assert_eq!(cycles, 20);
    assert_eq!(cpu.program_counter, 0x0050);
}

#[test]
fn jr_minus_two_loops_forever() {
    let mut bus = bus_with_program(&[0x18, 0xFE]);
    let mut cpu = Cpu::new();
    for _ in 0..10 {
        let c = cpu.next(&mut bus).unwrap();
        assert_eq!(c, 12);
        assert_eq!(cpu.program_counter, 0x100);
    }
}

#[test]
fn inc_of_ff_and_dec_of_zero() {
    // LD A,0xFF; INC A; LD B,0; DEC B
    let mut bus = bus_with_program(&[0x3E, 0xFF, 0x3C, 0x06, 0x00, 0x05]);
    let mut cpu = Cpu::new();
    run(&mut cpu, &mut bus, 2);
    assert_eq!(cpu.a, 0x00);
    assert!(cpu.zero() && cpu.halfcarry() && !cpu.subtract());
    run(&mut cpu, &mut bus, 2);
    assert_eq!(cpu.b, 0xFF);
    assert!(!cpu.zero() && cpu.halfcarry() && cpu.subtract());
}

#[test]
fn add_half_carry_boundary() {
    // LD A,1; ADD A,0x0F
    let mut bus = bus_with_program(&[0x3E, 0x01, 0xC6, 0x0F]);
    let mut cpu = Cpu::new();
    run(&mut cpu, &mut bus, 2);
    assert_eq!(cpu.a, 0x10);
    assert!(cpu.halfcarry() && !cpu.carry() && !cpu.zero());
}

#[test]
fn undefined_opcode_is_an_error() {
    let mut bus = bus_with_program(&[0x00, 0xD3]);
    let mut cpu = Cpu::new();
    run(&mut cpu, &mut bus, 1);
    let r = cpu.next(&mut bus);
    assert_eq!(r, Err(CpuError::UnsupportedOpcode { opcode: 0xD3, address: 0x101 }));
}

#[test]
fn call_and_return() {
    // CALL 0x0110; (at 0x110) LD A,0x99; RET
    let mut program = vec![0xCD, 0x10, 0x01];
    program.resize(0x10, 0x00);
    program.extend_from_slice(&[0x3E, 0x99, 0xC9]);
    let mut bus = bus_with_program(&program);
    let mut cpu = Cpu::new();
    let cycles = run(&mut cpu, &mut bus, 3);
    assert_eq!(cycles, vec![24, 8, 16]);
    assert_eq!(cpu.a, 0x99);
    assert_eq!(cpu.program_counter, 0x103);
    assert_eq!(cpu.stack_pointer, 0xFFFE);
}

#[test]
fn prefixed_swap_and_bit() {
    // LD A,0xF1; SWAP A; BIT 7,A; SET 0,B; RES 4,A
    let mut bus = bus_with_program(&[0x3E, 0xF1, 0xCB, 0x37, 0xCB, 0x7F, 0xCB, 0xC0, 0xCB, 0xA7]);
    let mut cpu = Cpu::new();
    let cycles = run(&mut cpu, &mut bus, 2);
    assert_eq!(cycles[1], 8);
    assert_eq!(cpu.a, 0x1F);
    run(&mut cpu, &mut bus, 1);
    assert!(cpu.zero() && cpu.halfcarry());
    run(&mut cpu, &mut bus, 2);
    assert_eq!(cpu.b, 0x01);
    assert_eq!(cpu.a, 0x0F);
}

#[test]
fn load_through_hl_increment() {
    // LD HL,0xC000; LD A,0x5A; LD (HL+),A; LD A,(HL-) ; LD A,(HL)
    let mut bus = bus_with_program(&[0x21, 0x00, 0xC0, 0x3E, 0x5A, 0x22, 0x3A, 0x7E]);
    let mut cpu = Cpu::new();
    run(&mut cpu, &mut bus, 3);
    assert_eq!(bus.fetch8(0xC000), 0x5A);
    assert_eq!(cpu.hl(), 0xC001);
    run(&mut cpu, &mut bus, 2);
    assert_eq!(cpu.hl(), 0xC000);
    assert_eq!(cpu.a, 0x5A);
}

#[test]
fn daa_after_bcd_addition() {
    // LD A,0x15; ADD A,0x27; DAA
    let mut bus = bus_with_program(&[0x3E, 0x15, 0xC6, 0x27, 0x27]);
    let mut cpu = Cpu::new();
    run(&mut cpu, &mut bus, 3);
    assert_eq!(cpu.a, 0x42);
    assert!(!cpu.carry());
}

#[test]
fn run_stops_at_budget_or_frame() {
    let mut bus = bus_with_program(&[0x18, 0xFE]);
    let mut cpu = Cpu::new();
    let ran = cpu.run(&mut bus, 100).unwrap();
    assert!(ran >= 100 && ran < 124);
    assert_eq!(ran % 12, 0);
    let mut total = ran;
    loop {
        let n = cpu.run(&mut bus, 70224).unwrap();
        total += n;
        if bus.gpu.take_frame_ready() {
            break;
        }
    }
    assert!(total >= 65664 - 252);
}
