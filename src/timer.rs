//! The divider and the programmable timer.
use crate::bus::{BusView, MemorySystem, INT_TIMER, REG_DIV, REG_IF, REG_TAC, REG_TIMA, REG_TMA};
use vstd::arithmetic::div_mod::lemma_fundamental_div_mod_converse;
use vstd::prelude::*;

verus! {

/// Machine cycles per `TIMA` tick for the rate bits of `TAC`.
pub open spec fn period_of(tac: u8) -> int {
    if tac % 4 == 0 {
        256
    } else if tac % 4 == 1 {
        4
    } else if tac % 4 == 2 {
        16
    } else {
        64
    }
}

pub open spec fn timer_enabled(tac: u8) -> bool {
    (tac / 4) % 2 == 1
}

/// `TIMA` after one tick: it counts up and reloads from `TMA` after `0xFF`.
pub open spec fn tick(tima: u8, tma: u8) -> u8 {
    if tima == 0xFF {
        tma
    } else {
        (tima + 1) as u8
    }
}

/// `TIMA` after `k` ticks.
pub open spec fn tima_after(tima: u8, tma: u8, k: nat) -> u8
    decreases k,
{
    if k == 0 {
        tima
    } else {
        tick(tima_after(tima, tma, (k - 1) as nat), tma)
    }
}

/// Whether any of `k` ticks overflows.
pub open spec fn overflows(tima: u8, tma: u8, k: nat) -> bool
    decreases k,
{
    if k == 0 {
        false
    } else {
        overflows(tima, tma, (k - 1) as nat) || tima_after(tima, tma, (k - 1) as nat) == 0xFF
    }
}

/// Drives `DIV` and `TIMA` from machine cycles.
pub struct Timer {
    div_cycles: u16,
    timer_cycles: u16,
}

impl Default for Timer {
    fn default() -> (r: Self)
        ensures
            r.wf(),
            r.spec_div_cycles() == 0,
            r.spec_timer_cycles() == 0,
    {
        Timer::new()
    }
}

impl Timer {
    pub closed spec fn spec_div_cycles(self) -> u16 {
        self.div_cycles
    }

    pub closed spec fn spec_timer_cycles(self) -> u16 {
        self.timer_cycles
    }

    pub open spec fn wf(self) -> bool {
        self.spec_div_cycles() < 256 && self.spec_timer_cycles() < 256
    }

    pub fn new() -> (r: Self)
        ensures
            r.wf(),
            r.spec_div_cycles() == 0,
            r.spec_timer_cycles() == 0,
    {
        Timer { div_cycles: 0, timer_cycles: 0 }
    }

    /// Zeroes the counters and `DIV`, `TIMA`, `TMA`; `TAC` reads `0xF8`.
    pub fn reset(&mut self, bus: &mut MemorySystem)
        requires
            old(bus)@.wf(),
        ensures
            final(self).wf(),
            final(self).spec_div_cycles() == 0,
            final(self).spec_timer_cycles() == 0,
            final(bus)@ == old(bus)@.store(REG_DIV, 0).store(REG_TIMA, 0).store(REG_TMA, 0).store(
                REG_TAC,
                0xF8,
            ),
            final(bus)@.wf(),
    {
        bus.write_internal_byte(REG_DIV, 0);
        bus.write_internal_byte(REG_TIMA, 0);
        bus.write_internal_byte(REG_TMA, 0);
        bus.write_internal_byte(REG_TAC, 0xF8);
        self.div_cycles = 0;
        self.timer_cycles = 0;
    }

    /// The divider counter this step starts from: zero after a write to DIV.
    pub open spec fn div_start(self, m: BusView) -> int {
        if m.div_reset {
            0
        } else {
            self.spec_div_cycles() as int
        }
    }

    pub open spec fn timer_start(self, m: BusView) -> int {
        if m.div_reset {
            0
        } else {
            self.spec_timer_cycles() as int
        }
    }

    /// What `step` does, from timer `self` and bus `m0` to `t2` and `m2`.
    pub open spec fn step_post(self, m0: BusView, cycles: u8, t2: Timer, m2: BusView) -> bool {
        &&& t2.wf()
        &&& m2.wf()
        &&& ({
                    let m = m0;
                    let n = m2;
                    let d = self.div_start(m) + cycles;
                    let t = self.timer_start(m) + cycles;
                    let tac = m.peek(REG_TAC);
                    let k = (t / period_of(tac)) as nat;
                    let tima = m.peek(REG_TIMA);
                    let tma = m.peek(REG_TMA);
                    &&& n == (BusView { memory: n.memory, div_reset: false, ..m })
                    &&& forall|i: int|
                        0 <= i < 0x10000 && i != REG_DIV && i != REG_TIMA && i != REG_IF
                            ==> n.memory[i] == m.memory[i]
                    &&& t2.spec_div_cycles() == d % 256
                    &&& n.peek(REG_DIV) == (m.peek(REG_DIV) + d / 256) % 256
                    &&& if timer_enabled(tac) {
                        &&& t2.spec_timer_cycles() == t % period_of(tac)
                        &&& n.peek(REG_TIMA) == tima_after(tima, tma, k)
                        &&& n.peek(REG_IF) == if overflows(tima, tma, k) {
                            m.peek(REG_IF) | INT_TIMER
                        } else {
                            m.peek(REG_IF)
                        }
                    } else {
                        &&& t2.spec_timer_cycles() == self.timer_start(m)
                        &&& n.peek(REG_TIMA) == tima
                        &&& n.peek(REG_IF) == m.peek(REG_IF)
                    }
                })
    }

    /// Advances by `cycles` machine cycles. `DIV` counts every 256 cycles;
    /// when `TAC` enables it, `TIMA` counts at the rate `TAC` selects and
    /// an overflow reloads it from `TMA` and requests the timer interrupt.
    /// A pending write to DIV first restarts both counters.
    pub fn step(&mut self, bus: &mut MemorySystem, cycles: u8)
        requires
            old(self).wf(),
            old(bus)@.wf(),
        ensures
            old(self).step_post(old(bus)@, cycles, *final(self), final(bus)@),
    {
        let ghost m = bus@;
        let ghost d = self.div_start(m) + cycles;
        if bus.take_div_reset() {
            self.div_cycles = 0;
            self.timer_cycles = 0;
        }
        let total_div = self.div_cycles + cycles as u16;
        if total_div >= 256 {
            self.div_cycles = total_div - 256;
            let div = bus.read_byte(REG_DIV);
            bus.write_internal_byte(REG_DIV, div.wrapping_add(1));
        } else {
            self.div_cycles = total_div;
        }
        let tac = bus.read_byte(REG_TAC);
        if (tac / 4) % 2 == 0 {
            return;
        }
        let period: u16 = if tac % 4 == 0 {
            256
        } else if tac % 4 == 1 {
            4
        } else if tac % 4 == 2 {
            16
        } else {
            64
        };
        let ghost t = self.timer_cycles + cycles;
        let ghost tima0 = m.peek(REG_TIMA);
        let ghost tma = m.peek(REG_TMA);
        let ghost if0 = m.peek(REG_IF);
        let ghost mid = bus@;
        self.timer_cycles = self.timer_cycles + cycles as u16;
        let mut j: u16 = 0;
        while self.timer_cycles >= period
            invariant
                bus@.wf(),
                period == period_of(tac),
                self.div_cycles < 256,
                self.timer_cycles + j * period == t,
                t < 512,
                j <= t,
                bus@ == (BusView { memory: bus@.memory, ..mid }),
                forall|i: int|
                    0 <= i < 0x10000 && i != REG_TIMA && i != REG_IF ==> bus@.memory[i]
                        == mid.memory[i],
                bus@.memory[REG_TIMA as int] == tima_after(tima0, tma, j as nat),
                bus@.memory[REG_IF as int] == if overflows(tima0, tma, j as nat) {
                    if0 | INT_TIMER
                } else {
                    if0
                },
                mid == (BusView { memory: mid.memory, div_reset: false, ..m }),
                forall|i: int|
                    0 <= i < 0x10000 && i != REG_DIV ==> mid.memory[i] == m.memory[i],
                mid.memory[REG_DIV as int] == (m.peek(REG_DIV) + d / 256) % 256,
                self.div_cycles == d % 256,
                mid.peek(REG_TMA) == tma,
                mid.peek(REG_TIMA) == tima0,
                mid.peek(REG_IF) == if0,
            decreases self.timer_cycles,
        {
            self.timer_cycles = self.timer_cycles - period;
            let tima = bus.read_byte(REG_TIMA);
            if tima == 0xFF {
                let reload = bus.read_byte(REG_TMA);
                bus.write_internal_byte(REG_TIMA, reload);
                let requested = bus.read_byte(REG_IF);
                bus.write_internal_byte(REG_IF, requested | INT_TIMER);
                proof {
                    lemma_or_idempotent(if0, INT_TIMER);
                }
            } else {
                bus.write_internal_byte(REG_TIMA, tima + 1);
            }
            j = j + 1;
        }
        proof {
            lemma_fundamental_div_mod_converse(t, period as int, j as int, self.timer_cycles as int);
        }
    }
}

proof fn lemma_or_idempotent(x: u8, bit: u8)
    by (bit_vector)
    ensures
        (x | bit) | bit == x | bit,
{
}

/// After a write to DIV, an advance of fewer than 256 cycles leaves DIV at
/// zero, and the advance that first reaches 256 cycles in all raises it by
/// exactly one, whatever the timer's counter held before the write.
pub proof fn lemma_div_write_restarts_divider(t: Timer, m: BusView, v: u8, first: u8, second: u8)
    requires
        m.wf(),
        first as int + second as int >= 256,
    ensures
        ({
            let w = m.write_spec(REG_DIV, v);
            let d1 = t.div_start(w) + first;
            &&& w.peek(REG_DIV) == 0
            &&& (w.peek(REG_DIV) + d1 / 256) % 256 == 0
            &&& (d1 % 256 + second) / 256 == 1
        }),
{
}

} // verus!
