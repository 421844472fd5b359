//! The Game Boy timer.
//!
//! Four memory-mapped registers:
//!   FF04  DIV   16384 Hz internal counter; any write resets it to 0.
//!   FF05  TIMA  counter, increments at the rate selected by TAC.
//!   FF06  TMA   value TIMA reloads to when it overflows from 0xFF.
//!   FF07  TAC   bit 2 = timer enable; bits 1-0 = rate select.
//!
//! On TIMA overflow the timer raises `interrupt_request`, which the MMU
//! turns into IF bit 2.

use vstd::prelude::*;
use vstd::arithmetic::div_mod::lemma_fundamental_div_mod_converse;

verus! {

pub struct Timer {
    /// T-cycles counted toward the next DIV tick (one per 256).
    pub div_counter: u32,
    /// T-cycles counted toward the next TIMA tick (one per TAC period).
    pub tima_counter: u32,
    pub div: u8,
    pub tima: u8,
    pub tma: u8,
    pub tac: u8,
    /// Set on TIMA overflow; the MMU consumes this and ORs it into IF.
    pub interrupt_request: bool,
}

/// T-cycles per TIMA tick for the rate select bits of TAC.
pub open spec fn tac_period(tac: u8) -> nat {
    let sel = tac & 0x03;
    if sel == 0 {
        1024
    } else if sel == 1 {
        16
    } else if sel == 2 {
        64
    } else {
        256
    }
}

/// TIMA after `n` ticks, reloading from TMA on each overflow, and whether
/// any tick overflowed.
pub open spec fn tima_ticks(tima: u8, tma: u8, n: nat) -> (u8, bool)
    decreases n,
{
    if n == 0 {
        (tima, false)
    } else {
        let (t, o) = tima_ticks(tima, tma, (n - 1) as nat);
        if t == 0xFF {
            (tma, true)
        } else {
            ((t + 1) as u8, o)
        }
    }
}

impl Timer {
    /// The power-on state: everything zero.
    pub open spec fn initial() -> Timer {
        Timer {
            div_counter: 0,
            tima_counter: 0,
            div: 0,
            tima: 0,
            tma: 0,
            tac: 0,
            interrupt_request: false,
        }
    }

    /// The counters stay below their periods.
    pub open spec fn wf(&self) -> bool {
        self.div_counter < 256 && self.tima_counter < 1024
    }

    /// The value a read of `addr` returns.
    pub open spec fn read_spec(&self, addr: u16) -> u8 {
        if addr == 0xFF04 {
            self.div
        } else if addr == 0xFF05 {
            self.tima
        } else if addr == 0xFF06 {
            self.tma
        } else if addr == 0xFF07 {
            self.tac | 0xF8
        } else {
            0xFF
        }
    }

    /// The timer after a write of `value` to `addr`.
    pub open spec fn write_spec(self, addr: u16, value: u8) -> Timer {
        if addr == 0xFF04 {
            Timer { div: 0, div_counter: 0, ..self }
        } else if addr == 0xFF05 {
            Timer { tima: value, ..self }
        } else if addr == 0xFF06 {
            Timer { tma: value, ..self }
        } else if addr == 0xFF07 {
            Timer { tac: value & 0x07, ..self }
        } else {
            self
        }
    }

    /// The timer after `cycles` T-cycles: DIV advances once per 256 cycles;
    /// when TAC enables it, TIMA advances once per TAC period.
    pub open spec fn step_spec(self, cycles: u32) -> Timer {
        let dtotal = self.div_counter + cycles;
        let t1 = Timer {
            div_counter: (dtotal % 256) as u32,
            div: ((self.div + dtotal / 256) % 256) as u8,
            ..self
        };
        if self.tac & 0x04 == 0 {
            t1
        } else {
            let p = tac_period(self.tac) as int;
            let total = self.tima_counter + cycles;
            let (tima, overflowed) = tima_ticks(self.tima, self.tma, (total / p) as nat);
            Timer {
                tima_counter: (total % p) as u32,
                tima: tima,
                interrupt_request: self.interrupt_request || overflowed,
                ..t1
            }
        }
    }

    /// `step` does not overflow its counters.
    pub open spec fn can_step(&self, cycles: u32) -> bool {
        self.div_counter + cycles <= u32::MAX && (self.tac & 0x04 != 0 ==> self.tima_counter
            + cycles <= u32::MAX)
    }

    pub fn new() -> (t: Self)
        ensures
            t == Timer::initial(),
    {
        Self {
            div_counter: 0,
            tima_counter: 0,
            div: 0,
            tima: 0,
            tma: 0,
            tac: 0,
            interrupt_request: false,
        }
    }

    pub fn read(&self, addr: u16) -> (r: u8)
        ensures
            r == self.read_spec(addr),
    {
        match addr {
            0xFF04 => self.div,
            0xFF05 => self.tima,
            0xFF06 => self.tma,
            // Unused bits of TAC always read as 1.
            0xFF07 => self.tac | 0xF8,
            _ => 0xFF,
        }
    }

    pub fn write(&mut self, addr: u16, value: u8)
        ensures
            *final(self) == old(self).write_spec(addr, value),
    {
        match addr {
            // Any write to DIV resets the internal counter and the visible byte.
            0xFF04 => {
                self.div = 0;
                self.div_counter = 0;
            },
            0xFF05 => {
                self.tima = value;
            },
            0xFF06 => {
                self.tma = value;
            },
            0xFF07 => {
                self.tac = value & 0x07;
            },
            _ => {},
        }
    }

    /// Advance by `cycles` T-cycles. Should be called every CPU step.
    pub fn step(&mut self, cycles: u32)
        requires
            old(self).can_step(cycles),
        ensures
            *final(self) == old(self).step_spec(cycles),
    {
        let ghost t0 = *self;
        // DIV ticks every 256 T-cycles regardless of TAC.
        self.div_counter = self.div_counter + cycles;
        let ghost mut k: nat = 0;
        while self.div_counter >= 256
            invariant
                self.div_counter + 256 * k == t0.div_counter + cycles,
                self.div == (t0.div + k) % 256,
                self.tac == t0.tac,
                self.tima == t0.tima,
                self.tma == t0.tma,
                self.tima_counter == t0.tima_counter,
                self.interrupt_request == t0.interrupt_request,
            decreases self.div_counter,
        {
            self.div_counter = self.div_counter - 256;
            self.div = self.div.wrapping_add(1);
            proof {
                k = k + 1;
            }
        }
        proof {
            lemma_fundamental_div_mod_converse(
                t0.div_counter + cycles,
                256,
                k as int,
                self.div_counter as int,
            );
        }
        // TIMA only ticks when enabled.
        if self.tac & 0x04 == 0 {
            return;
        }
        let period: u32 = match self.tac & 0x03 {
            0 => 1024,
            1 => 16,
            2 => 64,
            _ => 256,
        };
        assert(period == tac_period(self.tac));
        self.tima_counter = self.tima_counter + cycles;
        let ghost mut n: nat = 0;
        let ghost mut ovf: bool = false;
        while self.tima_counter >= period
            invariant
                period > 0,
                self.tima_counter + n * period == t0.tima_counter + cycles,
                (self.tima, ovf) == tima_ticks(t0.tima, t0.tma, n),
                self.interrupt_request == (t0.interrupt_request || ovf),
                self.tma == t0.tma,
                self.tac == t0.tac,
                self.div == (t0.div + (t0.div_counter + cycles) / 256) % 256,
                self.div_counter == (t0.div_counter + cycles) % 256,
            decreases self.tima_counter,
        {
            self.tima_counter = self.tima_counter - period;
            let ghost prev = self.tima;
            if self.tima == 0xFF {
                self.tima = self.tma;
                self.interrupt_request = true;
            } else {
                self.tima = self.tima + 1;
            }
            proof {
                assert((n + 1) * period == n * period + period) by (nonlinear_arith);
                n = n + 1;
                ovf = ovf || prev == 0xFF;
            }
        }
        proof {
            lemma_fundamental_div_mod_converse(
                t0.tima_counter + cycles,
                period as int,
                n as int,
                self.tima_counter as int,
            );
        }
    }
}

impl Default for Timer {
    fn default() -> (t: Self)
        ensures
            t == Timer::initial(),
    {
        Self::new()
    }
}

/// Any write to DIV resets it (and the counter behind it) to 0; TIMA and
/// TMA read back what was written; TAC keeps its low three bits and reads
/// the rest as 1.
pub proof fn law_timer_writes(t: Timer, value: u8)
    ensures
        t.write_spec(0xFF04, value).read_spec(0xFF04) == 0,
        t.write_spec(0xFF04, value).div_counter == 0,
        t.write_spec(0xFF05, value).read_spec(0xFF05) == value,
        t.write_spec(0xFF06, value).read_spec(0xFF06) == value,
        t.write_spec(0xFF07, value).read_spec(0xFF07) == (value & 0x07) | 0xF8,
{
}

/// The TIMA rates: with the timer enabled, TIMA counts up once per 1024,
/// 16, 64 and 256 T-cycles for TAC rate select 0, 1, 2 and 3 (4096,
/// 262144, 65536 and 16384 Hz). From the start of a period, one cycle
/// short of the period leaves TIMA as it is and the full period adds one.
/// DIV counts up once per 256 T-cycles whatever TAC holds.
pub proof fn law_timer_rates(t: Timer)
    requires
        t.wf(),
        t.tac & 0x04 != 0,
        t.tima_counter == 0,
        t.div_counter == 0,
        t.tima < 0xFF,
    ensures
        ({
            let period: u32 = if t.tac & 0x03 == 0 {
                1024
            } else if t.tac & 0x03 == 1 {
                16
            } else if t.tac & 0x03 == 2 {
                64
            } else {
                256
            };
            &&& t.step_spec((period - 1) as u32).tima == t.tima
            &&& t.step_spec(period).tima == t.tima + 1
            &&& !t.step_spec(period).interrupt_request || t.interrupt_request
        }),
        t.step_spec(255).div == t.div,
        t.step_spec(256).div == (t.div + 1) % 256,
{
    reveal_with_fuel(tima_ticks, 2);
    let p = tac_period(t.tac) as int;
    assert(p == 1024 || p == 16 || p == 64 || p == 256);
    assert((p - 1) / p == 0 && (p - 1) % p == p - 1) by (nonlinear_arith)
        requires
            p >= 1,
    ;
    assert(p / p == 1 && p % p == 0) by (nonlinear_arith)
        requires
            p >= 1,
    ;
}

/// On the tick that takes TIMA past 0xFF, TIMA is reloaded from TMA and the
/// timer interrupt is requested; with TAC's enable bit clear, TIMA never moves.
pub proof fn law_timer_overflow(t: Timer, cycles: u32)
    requires
        t.wf(),
        t.tima_counter == 0,
        t.tima == 0xFF,
    ensures
        t.tac & 0x04 != 0 ==> t.step_spec(tac_period(t.tac) as u32).tima == t.tma,
        t.tac & 0x04 != 0 ==> t.step_spec(tac_period(t.tac) as u32).interrupt_request,
        t.tac & 0x04 == 0 ==> t.step_spec(cycles).tima == t.tima,
        t.tac & 0x04 == 0 ==> t.step_spec(cycles).interrupt_request == t.interrupt_request,
{
    reveal_with_fuel(tima_ticks, 2);
    let p = tac_period(t.tac) as int;
    assert(p == 1024 || p == 16 || p == 64 || p == 256);
    assert(p / p == 1 && p % p == 0) by (nonlinear_arith)
        requires
            p >= 1,
    ;
}

} // verus!
