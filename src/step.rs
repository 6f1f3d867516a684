//! One step of the processor: the delayed EI, interrupt dispatch, then the
//! fetch, decode and execution of one instruction.

use vstd::prelude::*;
use crate::bus::Bus;
use crate::cpu::{Cpu, pushed, wrap16};
use crate::execute::{branch_extra, branch_taken, is_unprefixed};
use crate::instructions::{
    Instruction, JumpCondition, decode, decode_spec, parse_prefix_instruction, prefix_decode_spec,
    undefined_opcode,
};
use crate::interrupts::{Interrupts, handler_address, highest_pending, with_bit};
use crate::alu::{lemma_flags_low_nibble, lemma_rlca_rrca, ShiftKind};

verus! {

/// Cycles taken by an interrupt dispatch.
pub const DISPATCH_CYCLES: u8 = 20;

/// Why a step could not run.
#[derive(Clone, Copy, PartialEq, Eq, Structural, Debug)]
pub enum CpuError {
    /// The opcode at `address` is undefined.
    UnsupportedOpcode { opcode: u8, address: u16 },
}

/// Whether an interrupt is dispatched: IME set and some source both
/// enabled and requested.
pub open spec fn dispatchable(bus: &Bus) -> bool {
    bus.interrupts.master && highest_pending(
        bus.interrupts.enable_register,
        bus.interrupts.request_register,
    ) is Some
}

impl Cpu {
    /// The processor after the EI countdown of this step.
    pub open spec fn promoted(&self) -> Cpu {
        if self.ei_delay > 0 {
            Cpu { ei_delay: (self.ei_delay - 1) as u8, ..*self }
        } else {
            *self
        }
    }

    /// The bus after the EI countdown of this step: IME is set when it ends.
    pub open spec fn promoted_bus(&self, bus: &Bus) -> Bus {
        if self.ei_delay == 1 {
            Bus { interrupts: Interrupts { master: true, ..bus.interrupts }, ..*bus }
        } else {
            *bus
        }
    }

    /// Whether (c1, b1) and result `r` are what one step from (c0, b0) gives.
    pub open spec fn stepped(
        c0: &Cpu,
        b0: &Bus,
        r: Result<u8, CpuError>,
        c1: &Cpu,
        b1: &Bus,
    ) -> bool {
        let cp = c0.promoted();
        let bp = c0.promoted_bus(b0);
        if dispatchable(&bp) {
            let i = highest_pending(bp.interrupts.enable_register, bp.interrupts.request_register)->0;
            let mid = Bus {
                interrupts: Interrupts {
                    request_register: with_bit(bp.interrupts.request_register, i, false),
                    master: false,
                    ..bp.interrupts
                },
                ..bp
            };
            &&& r == Ok::<u8, CpuError>(DISPATCH_CYCLES)
            &&& *c1 == (Cpu {
                program_counter: handler_address(i),
                stack_pointer: wrap16(cp.stack_pointer - 2),
                ..cp
            })
            &&& pushed(&mid, b1, cp.stack_pointer, cp.program_counter)
        } else {
            let op = bp.read_spec(cp.program_counter);
            let cf = Cpu { program_counter: wrap16(cp.program_counter + 1), ..cp };
            if undefined_opcode(op) {
                &&& r == Err::<u8, CpuError>(
                    CpuError::UnsupportedOpcode { opcode: op, address: cp.program_counter },
                )
                &&& *c1 == cf
                &&& *b1 == bp
            } else if op == 0xCB {
                let d = prefix_decode_spec(bp.read_spec(cf.program_counter));
                let cg = Cpu { program_counter: wrap16(cf.program_counter + 1), ..cf };
                r == Ok::<u8, CpuError>(d.0.1) && Cpu::prefix_executed(&cg, &bp, d.0.0, d.1, c1, b1)
            } else {
                let d = decode_spec(op);
                &&& r == Ok::<u8, CpuError>(
                    if branch_taken(&cf, d.0) {
                        (d.1 + branch_extra(d.0)) as u8
                    } else {
                        d.1
                    },
                )
                &&& Cpu::executed(&cf, &bp, d.0, c1, b1)
            }
        }
    }

    /// Runs one step: counts down a pending EI, then either dispatches the
    /// highest-priority interrupt (push PC, clear its request, clear IME,
    /// jump to its handler) or executes the instruction at PC. Returns the
    /// cycles used, which the caller forwards to the bus. An undefined
    /// opcode is an error.
    pub fn next(&mut self, bus: &mut Bus) -> (r: Result<u8, CpuError>)
        requires
            old(bus).wf(),
        ensures
            final(bus).wf(),
            Cpu::stepped(old(self), old(bus), r, final(self), final(bus)),
    {
        if self.ei_delay > 0 {
            self.ei_delay = self.ei_delay - 1;
            if self.ei_delay == 0 {
                bus.interrupts.enable_master();
            }
        }
        if bus.interrupts.master_enabled() {
            let handler = bus.interrupts.ack_and_get_pending_address();
            if let Some(address) = handler {
                bus.interrupts.disable_master();
                let pc = self.program_counter;
                self.push16(bus, pc);
                self.program_counter = address;
                return Ok(DISPATCH_CYCLES);
            }
        }
        let address = self.program_counter;
        let opcode = self.next_byte(bus);
        let (instruction, cycles) = decode(opcode);

        match instruction {
            Instruction::UNDEFINED => Err(CpuError::UnsupportedOpcode { opcode, address }),
            Instruction::PREFIX => {
                let code = self.next_byte(bus);
                let ((operation, prefixed_cycles), target) = parse_prefix_instruction(code);
                self.execute_prefixed(bus, operation, target);
                Ok(prefixed_cycles)
            },
            _ => {
                proof {
                    lemma_decoded_runs(opcode);
                }
                let taken = self.execute(bus, instruction);
                if taken {
                    let extra: u8 = match instruction {
                        Instruction::JR(_) | Instruction::JP(_, _) => 4,
                        _ => 12,
                    };
                    Ok(cycles + extra)
                } else {
                    Ok(cycles)
                }
            },
        }
    }
}

/// Every step that succeeds takes at least 4 and at most 24 cycles.
pub proof fn lemma_step_cycles(c0: &Cpu, b0: &Bus, n: u8, c1: &Cpu, b1: &Bus)
    requires
        Cpu::stepped(c0, b0, Ok::<u8, CpuError>(n), c1, b1),
    ensures
        4 <= n <= 24,
{
    let cp = c0.promoted();
    let bp = c0.promoted_bus(b0);
    if !dispatchable(&bp) {
        let op = bp.read_spec(cp.program_counter);
        if !undefined_opcode(op) && op != 0xCB {
            lemma_decoded_runs(op);
        }
    }
}

/// One step of a run: the processor after it, the bus after it, its cycles,
/// and the bus after advancing by those cycles.
pub type RunStep = (Cpu, Bus, u8, Bus);

/// Processor, bus and cycles run after the steps of `trace`.
pub open spec fn state_after(c0: Cpu, b0: Bus, trace: Seq<RunStep>) -> (Cpu, Bus, int)
    decreases trace.len(),
{
    if trace.len() == 0 {
        (c0, b0, 0)
    } else {
        let last = trace.last();
        (last.0, last.3, state_after(c0, b0, trace.drop_last()).2 + last.2)
    }
}

/// Whether `trace` is a run from (c0, b0): each step began while fewer than
/// `budget` cycles had run and no frame was ready, succeeded, and was
/// followed by the bus advancing by its cycles.
pub open spec fn reaches(c0: Cpu, b0: Bus, budget: int, trace: Seq<RunStep>) -> bool
    decreases trace.len(),
{
    if trace.len() == 0 {
        true
    } else {
        let before = state_after(c0, b0, trace.drop_last());
        let last = trace.last();
        &&& reaches(c0, b0, budget, trace.drop_last())
        &&& before.2 < budget
        &&& !before.1.gpu.frame_ready
        &&& Cpu::stepped(&before.0, &before.1, Ok::<u8, CpuError>(last.2), &last.0, &last.1)
        &&& Bus::ticked(&last.1, &last.3, last.2)
    }
}

impl Cpu {
    /// Whether result `r` and state (c1, b1) are what running steps from
    /// (c0, b0) gives: steps run one after another, each followed by the bus
    /// advancing by its cycles, until at least `budget` cycles have run or a
    /// frame is ready (`Ok` with the total), or until a step fails (that
    /// step's error, the bus not advanced).
    pub open spec fn ran(c0: Cpu, b0: Bus, budget: int, r: Result<u32, CpuError>, c1: Cpu, b1: Bus) -> bool {
        exists|trace: Seq<RunStep>|
            #[trigger] reaches(c0, b0, budget, trace) && {
                let end = state_after(c0, b0, trace);
                match r {
                    Ok(total) => total == end.2 && (end.2 >= budget || end.1.gpu.frame_ready)
                        && c1 == end.0 && b1 == end.1,
                    Err(e) => end.2 < budget && !end.1.gpu.frame_ready && Cpu::stepped(
                        &end.0,
                        &end.1,
                        Err::<u8, CpuError>(e),
                        &c1,
                        &b1,
                    ),
                }
            }
    }

    /// Runs steps, forwarding the cycles of each to the bus, until at least
    /// `budget` cycles have run or a frame is ready to be presented. Returns
    /// the cycles run, or the error of the step that failed.
    pub fn run(&mut self, bus: &mut Bus, budget: u32) -> (r: Result<u32, CpuError>)
        requires
            old(bus).wf(),
            budget <= 0x100000,
        ensures
            final(bus).wf(),
            Cpu::ran(*old(self), *old(bus), budget as int, r, *final(self), *final(bus)),
            r matches Ok(n) ==> (n >= budget || final(bus).gpu.frame_ready) && n < budget + 24,
    {
        let ghost c0 = *self;
        let ghost b0 = *bus;
        let ghost mut trace: Seq<RunStep> = Seq::empty();
        let mut total: u32 = 0;
        while total < budget && !bus.gpu.frame_ready
            invariant
                bus.wf(),
                total < budget + 24,
                budget <= 0x100000,
                c0 == *old(self),
                b0 == *old(bus),
                reaches(c0, b0, budget as int, trace),
                state_after(c0, b0, trace) == (*self, *bus, total as int),
            decreases budget + 24 - total,
        {
            let ghost cp = *self;
            let ghost bp = *bus;
            let step = self.next(bus);
            match step {
                Ok(k) => {
                    proof {
                        lemma_step_cycles(&cp, &bp, k, self, bus);
                    }
                    let ghost bm = *bus;
                    bus.next(k);
                    total = total + k as u32;
                    proof {
                        let t2 = trace.push((*self, bm, k, *bus));
                        assert(t2.drop_last() == trace);
                        trace = t2;
                    }
                },
                Err(e) => {
                    proof {
                        assert(reaches(c0, b0, budget as int, trace));
                    }
                    return Err(e);
                },
            }
        }
        proof {
            assert(reaches(c0, b0, budget as int, trace));
        }
        Ok(total)
    }
}

/// After any step, the low nibble of F is zero.
pub proof fn lemma_step_keeps_f_low_nibble_clear(
    c0: &Cpu,
    b0: &Bus,
    r: Result<u8, CpuError>,
    c1: &Cpu,
    b1: &Bus,
)
    requires
        Cpu::stepped(c0, b0, r, c1, b1),
    ensures
        c1.f_spec() & 0x0F == 0,
{
    lemma_flags_low_nibble(c1.flags);
}

/// `JR -2` (bytes 18 FE) jumps back onto its own opcode: when no interrupt
/// is dispatched, the step leaves every register and the bus as they were
/// (only a pending EI counts down), so without interrupts the program loops
/// there forever.
pub proof fn lemma_jr_minus_two_loops(c0: &Cpu, b0: &Bus, r: Result<u8, CpuError>, c1: &Cpu, b1: &Bus)
    requires
        !dispatchable(&c0.promoted_bus(b0)),
        b0.read_spec(c0.program_counter) == 0x18,
        b0.read_spec(wrap16(c0.program_counter + 1)) == 0xFE,
        Cpu::stepped(c0, b0, r, c1, b1),
    ensures
        *c1 == c0.promoted(),
        *b1 == c0.promoted_bus(b0),
        c1.program_counter == c0.program_counter,
        r == Ok::<u8, CpuError>(12),
{
    reveal(Cpu::executed);
    let bp = c0.promoted_bus(b0);
    assert(bp.read_spec(c0.program_counter) == 0x18) by {
        reveal(Bus::read_spec);
    }
    assert(bp.read_spec(wrap16(c0.program_counter + 1)) == 0xFE) by {
        reveal(Bus::read_spec);
    }
    assert(!undefined_opcode(0x18));
    assert(decode_spec(0x18) == (Instruction::JR(JumpCondition::NONE), 12u8));
}

/// RLCA followed by RRCA, executed as two steps with no interrupt
/// dispatched, gives back A, moves PC past both, and leaves C holding the
/// old bit 7 of A with Z, N and H clear.
pub proof fn lemma_rlca_rrca_steps(
    c0: &Cpu,
    b0: &Bus,
    r1: Result<u8, CpuError>,
    c1: &Cpu,
    b1: &Bus,
    r2: Result<u8, CpuError>,
    c2: &Cpu,
    b2: &Bus,
)
    requires
        c0.program_counter < 0xFFFE,
        b0.read_spec(c0.program_counter) == 0x07,
        b0.read_spec((c0.program_counter + 1) as u16) == 0x0F,
        !dispatchable(&c0.promoted_bus(b0)),
        Cpu::stepped(c0, b0, r1, c1, b1),
        !dispatchable(&c1.promoted_bus(b1)),
        Cpu::stepped(c1, b1, r2, c2, b2),
    ensures
        c2.a == c0.a,
        c2.program_counter == c0.program_counter + 2,
        c2.flags.carry == (c0.a >= 128),
        !c2.flags.zero && !c2.flags.subtract && !c2.flags.halfcarry,
        r1 == Ok::<u8, CpuError>(4) && r2 == Ok::<u8, CpuError>(4),
{
    let pc = c0.program_counter;
    let bp = c0.promoted_bus(b0);
    assert(bp.read_spec(pc) == 0x07 && bp.read_spec((pc + 1) as u16) == 0x0F) by {
        reveal(Bus::read_spec);
    }
    assert(!undefined_opcode(0x07) && !undefined_opcode(0x0F));
    assert(decode_spec(0x07) == (Instruction::RLCA, 4u8));
    assert(decode_spec(0x0F) == (Instruction::RRCA, 4u8));
    let cf = Cpu { program_counter: wrap16(pc + 1), ..c0.promoted() };
    assert(Cpu::executed(&cf, &bp, Instruction::RLCA, c1, b1));
    assert(Cpu::rotated_a(&cf, &bp, ShiftKind::Rlc, c1, b1)) by {
        reveal(Cpu::executed);
    }
    assert(*b1 == bp);
    let bq = c1.promoted_bus(b1);
    assert(bq.read_spec(c1.program_counter) == 0x0F) by {
        reveal(Bus::read_spec);
    }
    let cg = Cpu { program_counter: wrap16(c1.program_counter + 1), ..c1.promoted() };
    assert(Cpu::executed(&cg, &bq, Instruction::RRCA, c2, b2));
    assert(Cpu::rotated_a(&cg, &bq, ShiftKind::Rrc, c2, b2)) by {
        reveal(Cpu::executed);
    }
    lemma_rlca_rrca(c0.a, c0.flags);
}

/// Every defined opcode other than the prefix decodes to an instruction that
/// `execute` runs.
proof fn lemma_decoded_runs(opcode: u8)
    requires
        !undefined_opcode(opcode),
        opcode != 0xCB,
    ensures
        is_unprefixed(decode_spec(opcode).0),
        4 <= decode_spec(opcode).1 <= 24,
        match decode_spec(opcode).0 {
            Instruction::JR(c) | Instruction::JP(c, _) | Instruction::CALL(c) | Instruction::RET(c) => c
                != JumpCondition::NONE ==> decode_spec(opcode).1 <= 12,
            _ => true,
        },
{
}

} // verus!
