//! The programmable timer: DIV, TIMA, TMA and TAC, paced in raw CPU cycles.

use vstd::prelude::*;
use crate::interrupts::{Interrupts, with_bit, TIMER_BIT};

verus! {

pub const DIV_ADDRESS: u16 = 0xFF04;
pub const TIMA_ADDRESS: u16 = 0xFF05;
pub const TMA_ADDRESS: u16 = 0xFF06;
pub const TAC_ADDRESS: u16 = 0xFF07;

/// CPU cycles per DIV increment (4194304 Hz / 16384 Hz).
pub const DIV_PERIOD: u32 = 256;

/// Timer state. The two counters hold the cycles accumulated since the last
/// increment of DIV and TIMA respectively.
#[derive(Clone, Copy)]
pub struct Timer {
    pub div: u8,
    pub tima: u8,
    pub tma: u8,
    pub tac: u8,
    pub div_counter: u32,
    pub tima_counter: u32,
}

/// CPU cycles per TIMA increment for the frequency selector `tac & 3`:
/// 4096, 262144, 65536 and 16384 Hz.
pub open spec fn tima_period(tac: u8) -> u32 {
    let sel = tac % 4;
    if sel == 0 {
        1024
    } else if sel == 1 {
        16
    } else if sel == 2 {
        64
    } else {
        256
    }
}

pub open spec fn timer_enabled(tac: u8) -> bool {
    (tac / 4) % 2 == 1
}

/// TIMA after `k` increments starting from `tima`, reloading from `tma` on
/// each overflow.
pub open spec fn tima_after(tima: u8, tma: u8, k: nat) -> u8
    decreases k,
{
    if k == 0 {
        tima
    } else {
        let prev = tima_after(tima, tma, (k - 1) as nat);
        if prev == 255 {
            tma
        } else {
            (prev + 1) as u8
        }
    }
}

/// Whether any of `k` increments starting from `tima` overflows.
pub open spec fn tima_overflows(tima: u8, tma: u8, k: nat) -> bool
    decreases k,
{
    if k == 0 {
        false
    } else {
        tima_overflows(tima, tma, (k - 1) as nat) || tima_after(tima, tma, (k - 1) as nat) == 255
    }
}

impl Timer {
    pub open spec fn wf(&self) -> bool {
        &&& self.div_counter < DIV_PERIOD
        &&& self.tima_counter < tima_period(self.tac)
    }

    /// Cycles elapsed on the DIV time base, modulo one full DIV wrap.
    pub open spec fn div_phase(&self) -> int {
        self.div * 256 + self.div_counter
    }

    /// The state after `cycles` more CPU cycles.
    pub open spec fn ticked(&self, cycles: u8) -> Timer {
        let dsum = self.div_counter + cycles;
        let div = ((self.div + dsum / 256) % 256) as u8;
        let div_counter = (dsum % 256) as u32;
        if !timer_enabled(self.tac) {
            Timer { div, div_counter, ..*self }
        } else {
            let p = tima_period(self.tac);
            let tsum = self.tima_counter + cycles;
            Timer {
                div,
                div_counter,
                tima: tima_after(self.tima, self.tma, (tsum / p as int) as nat),
                tima_counter: (tsum % p as int) as u32,
                ..*self
            }
        }
    }

    /// Whether `cycles` more CPU cycles overflow TIMA.
    pub open spec fn overflows(&self, cycles: u8) -> bool {
        timer_enabled(self.tac) && tima_overflows(
            self.tima,
            self.tma,
            ((self.tima_counter + cycles) / tima_period(self.tac) as int) as nat,
        )
    }

    pub open spec fn read_spec(&self, address: u16) -> u8 {
        if address == DIV_ADDRESS {
            self.div
        } else if address == TIMA_ADDRESS {
            self.tima
        } else if address == TMA_ADDRESS {
            self.tma
        } else {
            self.tac
        }
    }

    /// The state after software writes `value` to `address`.
    pub open spec fn written(&self, address: u16, value: u8) -> Timer {
        if address == DIV_ADDRESS {
            Timer { div: 0, div_counter: 0, ..*self }
        } else if address == TIMA_ADDRESS {
            Timer { tima: value, ..*self }
        } else if address == TMA_ADDRESS {
            Timer { tma: value, ..*self }
        } else {
            Timer { tac: value, div_counter: 0, tima_counter: 0, ..*self }
        }
    }

    pub fn new() -> (r: Timer)
        ensures
            r.wf(),
            r == (Timer { div: 0, tima: 0, tma: 0, tac: 0, div_counter: 0, tima_counter: 0 }),
    {
        Timer { div: 0, tima: 0, tma: 0, tac: 0, div_counter: 0, tima_counter: 0 }
    }

    fn period(tac: u8) -> (r: u32)
        ensures
            r == tima_period(tac),
    {
        let sel = tac % 4;
        if sel == 0 {
            1024
        } else if sel == 1 {
            16
        } else if sel == 2 {
            64
        } else {
            256
        }
    }

    /// Advances the timer by `cycles` CPU cycles; each TIMA overflow reloads
    /// TIMA from TMA and requests the timer interrupt.
    pub fn next(&mut self, cycles: u8, interrupts: &mut Interrupts)
        requires
            old(self).wf(),
        ensures
            final(self).wf(),
            *final(self) == old(self).ticked(cycles),
            *final(interrupts) == if old(self).overflows(cycles) {
                Interrupts {
                    request_register: with_bit(old(interrupts).request_register, TIMER_BIT, true),
                    ..*old(interrupts)
                }
            } else {
                *old(interrupts)
            },
    {
        let dsum: u32 = self.div_counter + cycles as u32;
        self.div = ((self.div as u32 + dsum / 256) % 256) as u8;
        self.div_counter = dsum % 256;

        if (self.tac / 4) % 2 != 1 {
            return;
        }
        let p = Timer::period(self.tac);
        let tsum: u32 = self.tima_counter + cycles as u32;
        let k: u32 = tsum / p;
        self.tima_counter = tsum % p;
        let ghost tima0 = self.tima;
        let ghost s1 = *self;
        let mut overflowed = false;
        let mut i: u32 = 0;
        while i < k
            invariant
                i <= k,
                self.tima == tima_after(tima0, self.tma, i as nat),
                overflowed == tima_overflows(tima0, self.tma, i as nat),
                *interrupts == *old(interrupts),
                *self == (Timer { tima: self.tima, ..s1 }),
            decreases k - i,
        {
            if self.tima == 255 {
                self.tima = self.tma;
                overflowed = true;
            } else {
                self.tima = self.tima + 1;
            }
            i = i + 1;
        }
        if overflowed {
            interrupts.set_timer_request(true);
        }
    }

    pub fn fetch8(&self, address: u16) -> (r: u8)
        ensures
            r == self.read_spec(address),
    {
        if address == DIV_ADDRESS {
            self.div
        } else if address == TIMA_ADDRESS {
            self.tima
        } else if address == TMA_ADDRESS {
            self.tma
        } else {
            self.tac
        }
    }

    /// A write to DIV zeroes it whatever the value; a write to TAC restarts
    /// the cycle accumulators of DIV and TIMA.
    pub fn write8(&mut self, address: u16, value: u8)
        requires
            old(self).wf(),
        ensures
            final(self).wf(),
            *final(self) == old(self).written(address, value),
    {
        if address == DIV_ADDRESS {
            self.div = 0;
            self.div_counter = 0;
        } else if address == TIMA_ADDRESS {
            self.tima = value;
        } else if address == TMA_ADDRESS {
            self.tma = value;
        } else {
            self.tac = value;
            self.div_counter = 0;
            self.tima_counter = 0;
        }
    }
}

/// DIV runs at exactly 16384 Hz: every tick advances the DIV time base by the
/// number of cycles elapsed, so DIV counts one per 256 cycles and the residue
/// is always below one period.
pub proof fn lemma_div_rate(t: Timer, cycles: u8)
    requires
        t.wf(),
    ensures
        t.ticked(cycles).div_phase() == (t.div_phase() + cycles) % 65536,
        t.ticked(cycles).div_counter < 256,
{
    let dsum = t.div_counter + cycles;
    assert(t.ticked(cycles).div_phase() == ((t.div + dsum / 256) % 256) * 256 + dsum % 256);
    assert(((t.div + dsum / 256) % 256) * 256 + dsum % 256 == (t.div * 256 + dsum) % 65536)
        by (nonlinear_arith)
        requires
            0 <= dsum < 512,
            0 <= t.div < 256,
    {
    }
}

/// Writing any value to DIV zeroes it.
pub proof fn lemma_div_write_zeroes(t: Timer, value: u8)
    ensures
        t.written(DIV_ADDRESS, value).div == 0,
{
}

/// With TAC = 0x05 (enabled, 262144 Hz) TIMA advances by one every 16 cycles;
/// when that step overflows, TIMA is reloaded from TMA and the timer
/// interrupt is requested.
pub proof fn lemma_tima_fast_rate(t: Timer)
    requires
        t.wf(),
        t.tac == 0x05,
        t.tima_counter == 0,
    ensures
        t.ticked(16).tima_counter == 0,
        t.tima < 255 ==> t.ticked(16).tima == t.tima + 1 && !t.overflows(16),
        t.tima == 255 ==> t.ticked(16).tima == t.tma && t.overflows(16),
        forall|c: u8| c < 16 ==> (#[trigger] t.ticked(c)).tima == t.tima && !t.overflows(c),
{
    assert(tima_period(5) == 16);
    assert(timer_enabled(5));
    assert(tima_after(t.tima, t.tma, 1) == tima_after(t.tima, t.tma, 0) + 1 || t.tima == 255);
    assert(!tima_overflows(t.tima, t.tma, 0));
    assert(tima_overflows(t.tima, t.tma, 1) == (t.tima == 255));
    assert forall|c: u8| c < 16 implies (#[trigger] t.ticked(c)).tima == t.tima && !t.overflows(c) by {
        assert((c as int) / 16 == 0);
    }
}

} // verus!
