//! Per-channel state and the shared sub-units (length counter, volume
//! envelope, frequency sweep).
//!
//! Length-register quirk (DMG): while the APU is powered off, writes to
//! NR11/NR21/NR31/NR41 still update the internal length counter, but
//! nothing else; the duty bits and the readable NRxx byte stay at zero.
//! That is why each channel has both `write_nrX1` (used when on) and
//! `write_nrX1_length_only` (used when off).

use vstd::prelude::*;
use crate::bits::lemma_mask_bounds;

verus! {

/// The four duty patterns (12.5%, 25%, 50%, 75%), indexed by NR11/NR21
/// bits 7-6, then by the step 0..8.
pub open spec fn duty_table(duty: u8, step: u8) -> u8 {
    let pattern: Seq<u8> = if duty == 0 {
        seq![0, 0, 0, 0, 0, 0, 0, 1]
    } else if duty == 1 {
        seq![1, 0, 0, 0, 0, 0, 0, 1]
    } else if duty == 2 {
        seq![1, 0, 0, 0, 0, 1, 1, 1]
    } else {
        seq![0, 1, 1, 1, 1, 1, 1, 0]
    };
    pattern[step as int]
}

fn duty_bit(duty: u8, step: u8) -> (r: u8)
    requires
        duty < 4,
        step < 8,
    ensures
        r == duty_table(duty, step),
{
    let pattern: [u8; 8] = if duty == 0 {
        [0, 0, 0, 0, 0, 0, 0, 1]
    } else if duty == 1 {
        [1, 0, 0, 0, 0, 0, 0, 1]
    } else if duty == 2 {
        [1, 0, 0, 0, 0, 1, 1, 1]
    } else {
        [0, 1, 1, 1, 1, 1, 1, 0]
    };
    let r = pattern[step as usize];
    let ghost expected: Seq<u8> = if duty == 0 {
        seq![0u8, 0, 0, 0, 0, 0, 0, 1]
    } else if duty == 1 {
        seq![1u8, 0, 0, 0, 0, 0, 0, 1]
    } else if duty == 2 {
        seq![1u8, 0, 0, 0, 0, 1, 1, 1]
    } else {
        seq![0u8, 1, 1, 1, 1, 1, 1, 0]
    };
    assert(pattern@ =~= expected);
    r
}

/// A frequency timer counting `n` T-cycles: each cycle first reloads an
/// expired timer with `period` (advancing the waveform position), then
/// counts one down. Returns the timer and the number of reloads.
pub open spec fn timer_run(timer: u32, period: u32, n: nat) -> (u32, nat)
    decreases n,
{
    if n == 0 {
        (timer, 0)
    } else {
        let (t1, k1) = if timer == 0 { (period, 1nat) } else { (timer, 0nat) };
        let (t2, k2) = timer_run((t1 - 1) as u32, period, (n - 1) as nat);
        (t2, k1 + k2)
    }
}

/// Running a timer for at most its current count only counts it down.
proof fn lemma_timer_skip(timer: u32, period: u32, n: nat, k: nat)
    requires
        k <= timer,
        k <= n,
    ensures
        timer_run(timer, period, n) == (
            timer_run((timer - k) as u32, period, (n - k) as nat).0,
            timer_run((timer - k) as u32, period, (n - k) as nat).1,
        ),
    decreases k,
{
    if k > 0 {
        lemma_timer_skip((timer - 1) as u32, period, (n - 1) as nat, (k - 1) as nat);
    }
}

// ────────────────────────────────────────────────────────────────────────
// Shared sub-units
// ────────────────────────────────────────────────────────────────────────

#[derive(Clone, Copy)]
pub struct LengthCounter {
    pub counter: u16,
    pub enabled: bool,
}

impl LengthCounter {
    /// One length clock: an enabled, running counter counts down;
    /// reaching 0 is reported (the channel then switches off).
    pub open spec fn tick_spec(self) -> (LengthCounter, bool) {
        if self.enabled && self.counter > 0 {
            let c = (self.counter - 1) as u16;
            (LengthCounter { counter: c, ..self }, c == 0)
        } else {
            (self, false)
        }
    }

    pub fn tick(&mut self) -> (expired: bool)
        ensures
            (*final(self), expired) == old(self).tick_spec(),
    {
        if self.enabled && self.counter > 0 {
            self.counter = self.counter - 1;
            if self.counter == 0 {
                return true;
            }
        }
        false
    }

    /// The length-enable bit of an NRx4 write. On DMG, turning length on
    /// (0 -> 1) during the first half of a length period (the next
    /// frame-sequencer step does not clock length) clocks the counter
    /// once at once; reaching 0 that way is reported.
    pub open spec fn set_enabled_spec(self, enable: bool, first_half: bool) -> (LengthCounter, bool) {
        if first_half && !self.enabled && enable && self.counter > 0 {
            let c = (self.counter - 1) as u16;
            (LengthCounter { counter: c, enabled: true }, c == 0)
        } else {
            (LengthCounter { enabled: enable, ..self }, false)
        }
    }

    pub fn set_enabled(&mut self, enable: bool, first_half: bool) -> (expired: bool)
        ensures
            (*final(self), expired) == old(self).set_enabled_spec(enable, first_half),
    {
        let extra = first_half && !self.enabled && enable && self.counter > 0;
        self.enabled = enable;
        if extra {
            self.counter = self.counter - 1;
            return self.counter == 0;
        }
        false
    }
}

/// A channel's enable flag after an NRx4 write: an extra length clock
/// that empties the counter switches it off, unless the write triggers.
pub open spec fn enabled_after_nrx4(enabled: bool, expired: bool, value: u8) -> bool {
    if expired && value & 0x80 == 0 {
        false
    } else {
        enabled
    }
}

impl Default for LengthCounter {
    fn default() -> (r: Self)
        ensures
            r == (LengthCounter { counter: 0, enabled: false }),
    {
        LengthCounter { counter: 0, enabled: false }
    }
}

#[derive(Clone, Copy)]
pub struct Envelope {
    pub volume: u8,
    pub initial: u8,
    pub direction_up: bool,
    pub period: u8,
    pub timer: u8,
}

impl Envelope {
    /// Loads NRx2: initial volume in bits 7-4, direction in bit 3, period
    /// in bits 2-0; the volume and timer restart.
    pub open spec fn reload_spec(self, nrx2: u8) -> Envelope {
        Envelope {
            initial: nrx2 >> 4u8,
            direction_up: nrx2 & 0x08 != 0,
            period: nrx2 & 0x07,
            volume: nrx2 >> 4u8,
            timer: nrx2 & 0x07,
        }
    }

    /// One envelope clock: with a non-zero period the timer counts down;
    /// at 0 it restarts and the volume moves one step within 0..=15.
    pub open spec fn tick_spec(self) -> Envelope {
        if self.period == 0 {
            self
        } else {
            let t: u8 = if self.timer > 0 { (self.timer - 1) as u8 } else { 0 };
            if t == 0 {
                let v: u8 = if self.direction_up && self.volume < 15 {
                    (self.volume + 1) as u8
                } else if !self.direction_up && self.volume > 0 {
                    (self.volume - 1) as u8
                } else {
                    self.volume
                };
                Envelope { timer: self.period, volume: v, ..self }
            } else {
                Envelope { timer: t, ..self }
            }
        }
    }

    pub fn reload(&mut self, nrx2: u8)
        ensures
            *final(self) == old(self).reload_spec(nrx2),
    {
        self.initial = nrx2 >> 4;
        self.direction_up = nrx2 & 0x08 != 0;
        self.period = nrx2 & 0x07;
        self.volume = self.initial;
        self.timer = self.period;
    }

    pub fn tick(&mut self)
        ensures
            *final(self) == old(self).tick_spec(),
    {
        if self.period == 0 {
            return;
        }
        if self.timer > 0 {
            self.timer = self.timer - 1;
        }
        if self.timer == 0 {
            self.timer = self.period;
            if self.direction_up && self.volume < 15 {
                self.volume = self.volume + 1;
            } else if !self.direction_up && self.volume > 0 {
                self.volume = self.volume - 1;
            }
        }
    }
}

impl Default for Envelope {
    fn default() -> (r: Self)
        ensures
            r == (Envelope { volume: 0, initial: 0, direction_up: false, period: 0, timer: 0 }),
    {
        Envelope { volume: 0, initial: 0, direction_up: false, period: 0, timer: 0 }
    }
}

#[derive(Clone, Copy)]
pub struct Sweep {
    pub period: u8,
    pub negate: bool,
    pub shift: u8,
    pub timer: u8,
    pub enabled: bool,
    pub shadow: u16,
}

impl Sweep {
    /// The next frequency: the shadow frequency plus or minus itself
    /// shifted right by `shift`.
    pub open spec fn calculate_spec(&self) -> u16 {
        let delta = self.shadow >> self.shift;
        if self.negate {
            self.shadow.wrapping_sub(delta)
        } else {
            self.shadow.wrapping_add(delta)
        }
    }

    /// The sweep as a trigger loads it from NR10 and the channel frequency.
    pub open spec fn trigger_state(nr10: u8, current_freq: u16) -> Sweep {
        let period = (nr10 >> 4u8) & 0x07;
        let shift = nr10 & 0x07;
        Sweep {
            period: period,
            negate: nr10 & 0x08 != 0,
            shift: shift,
            shadow: current_freq,
            timer: if period == 0 { 8 } else { period },
            enabled: period != 0 || shift != 0,
        }
    }

    /// Loads the sweep on a trigger; with a non-zero shift the first
    /// calculation runs at once and an overflow past 2047 is reported.
    pub fn trigger(&mut self, nr10: u8, current_freq: u16) -> (r: Result<(), ()>)
        ensures
            *final(self) == Sweep::trigger_state(nr10, current_freq),
            r is Err <==> (final(self).shift != 0 && final(self).calculate_spec() > 2047),
    {
        proof {
            lemma_mask_bounds();
        }
        self.period = (nr10 >> 4) & 0x07;
        self.negate = nr10 & 0x08 != 0;
        self.shift = nr10 & 0x07;
        self.shadow = current_freq;
        self.timer = if self.period == 0 {
            8
        } else {
            self.period
        };
        self.enabled = self.period != 0 || self.shift != 0;
        if self.shift != 0 {
            let next = self.calculate();
            if next > 2047 {
                return Err(());
            }
        }
        Ok(())
    }

    pub fn calculate(&self) -> (r: u16)
        requires
            self.shift < 16,
        ensures
            r == self.calculate_spec(),
    {
        let delta = self.shadow >> self.shift;
        if self.negate {
            self.shadow.wrapping_sub(delta)
        } else {
            self.shadow.wrapping_add(delta)
        }
    }
}

impl Default for Sweep {
    fn default() -> (r: Self)
        ensures
            r == (Sweep { period: 0, negate: false, shift: 0, timer: 0, enabled: false, shadow: 0 }),
    {
        Sweep { period: 0, negate: false, shift: 0, timer: 0, enabled: false, shadow: 0 }
    }
}

/// The duty position after `k` more steps.
pub open spec fn advance_mod(pos: u8, k: nat, m: nat) -> u8 {
    ((pos + k) % (m as int)) as u8
}

/// The frequency-timer period of a square channel (4 T-cycles per unit).
pub open spec fn square_period(freq: u16) -> u32 {
    ((2048 - freq) * 4) as u32
}

/// The 11-bit frequency after writing NRx3 (low byte).
pub open spec fn freq_with_lo(freq: u16, value: u8) -> u16 {
    (freq & 0x0700) | (value as u16)
}

/// The 11-bit frequency after writing NRx4 (bits 2-0 are the high bits).
pub open spec fn freq_with_hi(freq: u16, value: u8) -> u16 {
    (freq & 0x00FF) | (((value as u16) & 0x07) << 8u16)
}

/// The length counter value of a 6-bit length load.
pub open spec fn length64(value: u8) -> u16 {
    (64 - (value & 0x3F)) as u16
}

// ────────────────────────────────────────────────────────────────────────
// Channel 1: square with sweep
// ────────────────────────────────────────────────────────────────────────

#[derive(Clone, Copy)]
pub struct Ch1State {
    pub nr10: u8,
    pub nr11: u8,
    pub nr12: u8,
    pub nr13: u8,
    pub nr14: u8,
    pub length: LengthCounter,
    pub envelope: Envelope,
    pub sweep: Sweep,
    pub freq: u16,
    pub duty: u8,
    pub duty_step: u8,
    pub freq_timer: u32,
    pub dac_on: bool,
    pub enabled: bool,
}

impl Ch1State {
    pub open spec fn tick_spec(self, cycles: u32) -> Ch1State {
        Ch1State {
            freq_timer: timer_run(self.freq_timer, square_period(self.freq), cycles as nat).0,
            duty_step: advance_mod(
                self.duty_step,
                timer_run(self.freq_timer, square_period(self.freq), cycles as nat).1,
                8,
            ),
            ..self
        }
    }

    pub open spec fn tick_length_spec(self) -> Ch1State {
        Ch1State {
            length: self.length.tick_spec().0,
            enabled: self.enabled && !self.length.tick_spec().1,
            ..self
        }
    }

    pub open spec fn tick_envelope_spec(self) -> Ch1State {
        Ch1State { envelope: self.envelope.tick_spec(), ..self }
    }

    pub open spec fn write_nr10_spec(self, value: u8) -> Ch1State {
        Ch1State { nr10: value, ..self }
    }

    pub open spec fn write_nr11_spec(self, value: u8) -> Ch1State {
        Ch1State {
            nr11: value,
            duty: value >> 6u8,
            length: LengthCounter { counter: length64(value), ..self.length },
            ..self
        }
    }

    pub open spec fn write_nr11_length_only_spec(self, value: u8) -> Ch1State {
        Ch1State {
            length: LengthCounter { counter: length64(value), ..self.length },
            ..self
        }
    }

    pub open spec fn write_nr12_spec(self, value: u8) -> Ch1State {
        Ch1State {
            nr12: value,
            dac_on: value & 0xF8 != 0,
            enabled: self.enabled && value & 0xF8 != 0,
            ..self
        }
    }

    pub open spec fn write_nr13_spec(self, value: u8) -> Ch1State {
        Ch1State {
            nr13: value,
            freq: freq_with_lo(self.freq, value),
            ..self
        }
    }

    /// NRx4: frequency high bits, length enable (with the extra length
    /// clock in the first half of a length period), and trigger.
    pub open spec fn write_nr14_spec(self, value: u8, first_half: bool) -> Ch1State {
        let (len, expired) = self.length.set_enabled_spec(value & 0x40 != 0, first_half);
        let c = Ch1State {
            nr14: value,
            freq: freq_with_hi(self.freq, value),
            length: len,
            enabled: enabled_after_nrx4(self.enabled, expired, value),
            ..self
        };
        if value & 0x80 != 0 {
            c.trigger_spec()
        } else {
            c
        }
    }

    /// Frequency, duty and sweep shift stay in their hardware ranges.
    pub open spec fn wf(&self) -> bool {
        self.freq < 2048 && self.duty < 4 && self.duty_step < 8 && self.sweep.shift < 8
    }

    /// The channel after a trigger (NR14 bit 7).
    pub open spec fn trigger_spec(self) -> Ch1State {
        let sw = Sweep::trigger_state(self.nr10, self.freq);
        Ch1State {
            enabled: if sw.shift != 0 && sw.calculate_spec() > 2047 {
                false
            } else {
                self.dac_on || self.enabled
            },
            length: if self.length.counter == 0 {
                LengthCounter { counter: 64, ..self.length }
            } else {
                self.length
            },
            freq_timer: square_period(self.freq),
            envelope: self.envelope.reload_spec(self.nr12),
            sweep: sw,
            ..self
        }
    }

    /// The channel after one sweep clock.
    pub open spec fn tick_sweep_spec(self) -> Ch1State {
        if !self.sweep.enabled {
            self
        } else {
            let t: u8 = if self.sweep.timer > 0 { (self.sweep.timer - 1) as u8 } else { 0 };
            if t != 0 {
                Ch1State { sweep: Sweep { timer: t, ..self.sweep }, ..self }
            } else {
                let sw = Sweep {
                    timer: if self.sweep.period == 0 { 8 } else { self.sweep.period },
                    ..self.sweep
                };
                if sw.period != 0 && sw.shift != 0 {
                    let next = sw.calculate_spec();
                    if next > 2047 {
                        Ch1State { sweep: sw, enabled: false, ..self }
                    } else {
                        let sw2 = Sweep { shadow: next, ..sw };
                        Ch1State {
                            sweep: sw2,
                            freq: next,
                            nr13: (next & 0xFF) as u8,
                            nr14: (self.nr14 & 0xF8) | (((next >> 8u16) as u8) & 0x07),
                            enabled: if sw2.calculate_spec() > 2047 {
                                false
                            } else {
                                self.enabled
                            },
                            ..self
                        }
                    }
                } else {
                    Ch1State { sweep: sw, ..self }
                }
            }
        }
    }

    /// The output level: the envelope volume where the duty pattern is
    /// high, 0 otherwise or when the channel or its DAC is off.
    pub open spec fn sample_spec(&self) -> u8 {
        if !self.enabled || !self.dac_on {
            0
        } else if duty_table(self.duty, self.duty_step) == 0 {
            0
        } else {
            self.envelope.volume
        }
    }

    pub fn write_nr10(&mut self, value: u8)
        ensures
            *final(self) == old(self).write_nr10_spec(value),
    {
        self.nr10 = value;
    }

    pub fn write_nr11(&mut self, value: u8)
        ensures
            *final(self) == old(self).write_nr11_spec(value),
    {
        proof {
            lemma_mask_bounds();
        }
        self.nr11 = value;
        self.duty = value >> 6;
        self.length.counter = 64 - (value as u16 & 0x3F);
    }

    /// While the APU is off, NR11 writes still reload the length counter
    /// but touch neither duty nor the readable byte.
    pub fn write_nr11_length_only(&mut self, value: u8)
        ensures
            *final(self) == old(self).write_nr11_length_only_spec(value),
    {
        proof {
            lemma_mask_bounds();
        }
        self.length.counter = 64 - (value as u16 & 0x3F);
    }

    /// NR12 loads the envelope on the next trigger; a value with the top
    /// five bits clear turns the DAC, and so the channel, off.
    pub fn write_nr12(&mut self, value: u8)
        ensures
            *final(self) == old(self).write_nr12_spec(value),
    {
        self.nr12 = value;
        self.dac_on = value & 0xF8 != 0;
        if !self.dac_on {
            self.enabled = false;
        }
    }

    pub fn write_nr13(&mut self, value: u8)
        ensures
            *final(self) == old(self).write_nr13_spec(value),
            final(self).freq < 2048,
    {
        proof {
            lemma_mask_bounds();
        }
        self.nr13 = value;
        self.freq = (self.freq & 0x0700) | value as u16;
    }

    /// NR14: frequency high bits, length enable (bit 6), trigger (bit 7).
    pub fn write_nr14(&mut self, value: u8, first_half: bool)
        ensures
            *final(self) == old(self).write_nr14_spec(value, first_half),
            final(self).freq < 2048,
    {
        proof {
            lemma_mask_bounds();
        }
        self.nr14 = value;
        self.freq = (self.freq & 0x00FF) | ((value as u16 & 0x07) << 8);
        let expired = self.length.set_enabled(value & 0x40 != 0, first_half);
        if expired && value & 0x80 == 0 {
            self.enabled = false;
        }
        if value & 0x80 != 0 {
            self.trigger();
        }
    }

    fn trigger(&mut self)
        requires
            old(self).freq < 2048,
        ensures
            *final(self) == old(self).trigger_spec(),
    {
        if self.dac_on {
            self.enabled = true;
        }
        if self.length.counter == 0 {
            self.length.counter = 64;
        }
        self.freq_timer = (2048 - self.freq as u32) * 4;
        self.envelope.reload(self.nr12);
        if self.sweep.trigger(self.nr10, self.freq).is_err() {
            self.enabled = false;
        }
    }

    /// Advance the frequency timer by `cycles` T-cycles; each reload moves
    /// the duty position on.
    pub fn tick(&mut self, cycles: u32)
        requires
            old(self).freq < 2048,
            old(self).duty_step < 8,
        ensures
            *final(self) == old(self).tick_spec(cycles),
    {
        let ghost p = square_period(self.freq);
        let ghost mut k: nat = 0;
        let mut remaining = cycles;
        while remaining > 0
            invariant
                self.freq < 2048 && self.duty_step < 8,
                p == square_period(self.freq),
                p > 0,
                timer_run(old(self).freq_timer, p, cycles as nat).0 == timer_run(self.freq_timer, p, remaining as nat).0,
                timer_run(old(self).freq_timer, p, cycles as nat).1 == k + timer_run(self.freq_timer, p, remaining as nat).1,
                self.duty_step == advance_mod(old(self).duty_step, k, 8),
                *self == (Ch1State { freq_timer: self.freq_timer, duty_step: self.duty_step, ..*old(self) }),
            decreases remaining,
        {
            proof {
                lemma_mask_bounds();
            }
            if self.freq_timer == 0 {
                self.freq_timer = (2048 - self.freq as u32) * 4;
                self.duty_step = (self.duty_step + 1) & 7;
                proof {
                    k = k + 1;
                }
            }
            let chunk = if remaining < self.freq_timer { remaining } else { self.freq_timer };
            proof {
                lemma_timer_skip(self.freq_timer, p, remaining as nat, chunk as nat);
            }
            self.freq_timer = self.freq_timer - chunk;
            remaining = remaining - chunk;
        }
    }

    pub fn sample(&self) -> (r: u8)
        requires
            self.duty < 4,
            self.duty_step < 8,
        ensures
            r == self.sample_spec(),
    {
        if !self.enabled || !self.dac_on {
            return 0;
        }
        let pattern_bit = duty_bit(self.duty, self.duty_step);
        if pattern_bit == 0 {
            0
        } else {
            self.envelope.volume
        }
    }

    /// One length clock; expiry switches the channel off.
    pub fn tick_length(&mut self)
        ensures
            *final(self) == old(self).tick_length_spec(),
    {
        if self.length.tick() {
            self.enabled = false;
        }
    }

    pub fn tick_sweep(&mut self)
        requires
            old(self).wf(),
        ensures
            *final(self) == old(self).tick_sweep_spec(),
            final(self).wf(),
    {
        if !self.sweep.enabled {
            return;
        }
        if self.sweep.timer > 0 {
            self.sweep.timer = self.sweep.timer - 1;
        }
        if self.sweep.timer == 0 {
            self.sweep.timer = if self.sweep.period == 0 {
                8
            } else {
                self.sweep.period
            };
            if self.sweep.period != 0 && self.sweep.shift != 0 {
                let next = self.sweep.calculate();
                if next > 2047 {
                    self.enabled = false;
                } else {
                    self.sweep.shadow = next;
                    self.freq = next;
                    self.nr13 = (next & 0xFF) as u8;
                    self.nr14 = (self.nr14 & 0xF8) | ((next >> 8) as u8 & 0x07);
                    if self.sweep.calculate() > 2047 {
                        self.enabled = false;
                    }
                }
            }
        }
    }

    pub fn tick_envelope(&mut self)
        ensures
            *final(self) == old(self).tick_envelope_spec(),
    {
        self.envelope.tick();
    }
}

// ────────────────────────────────────────────────────────────────────────
// Channel 2: square, no sweep
// ────────────────────────────────────────────────────────────────────────

#[derive(Clone, Copy)]
pub struct Ch2State {
    pub nr21: u8,
    pub nr22: u8,
    pub nr23: u8,
    pub nr24: u8,
    pub length: LengthCounter,
    pub envelope: Envelope,
    pub freq: u16,
    pub duty: u8,
    pub duty_step: u8,
    pub freq_timer: u32,
    pub dac_on: bool,
    pub enabled: bool,
}

impl Ch2State {
    pub open spec fn write_nr21_spec(self, value: u8) -> Ch2State {
        Ch2State {
            nr21: value,
            duty: value >> 6u8,
            length: LengthCounter { counter: length64(value), ..self.length },
            ..self
        }
    }

    pub open spec fn write_nr21_length_only_spec(self, value: u8) -> Ch2State {
        Ch2State {
            length: LengthCounter { counter: length64(value), ..self.length },
            ..self
        }
    }

    pub open spec fn write_nr22_spec(self, value: u8) -> Ch2State {
        Ch2State {
            nr22: value,
            dac_on: value & 0xF8 != 0,
            enabled: self.enabled && value & 0xF8 != 0,
            ..self
        }
    }

    pub open spec fn write_nr23_spec(self, value: u8) -> Ch2State {
        Ch2State {
            nr23: value,
            freq: freq_with_lo(self.freq, value),
            ..self
        }
    }

    pub open spec fn tick_spec(self, cycles: u32) -> Ch2State {
        Ch2State {
            freq_timer: timer_run(self.freq_timer, square_period(self.freq), cycles as nat).0,
            duty_step: advance_mod(
                self.duty_step,
                timer_run(self.freq_timer, square_period(self.freq), cycles as nat).1,
                8,
            ),
            ..self
        }
    }

    pub open spec fn tick_length_spec(self) -> Ch2State {
        Ch2State {
            length: self.length.tick_spec().0,
            enabled: self.enabled && !self.length.tick_spec().1,
            ..self
        }
    }

    pub open spec fn tick_envelope_spec(self) -> Ch2State {
        Ch2State { envelope: self.envelope.tick_spec(), ..self }
    }

    /// NRx4: frequency high bits, length enable (with the extra length
    /// clock in the first half of a length period), and trigger.
    pub open spec fn write_nr24_spec(self, value: u8, first_half: bool) -> Ch2State {
        let (len, expired) = self.length.set_enabled_spec(value & 0x40 != 0, first_half);
        let c = Ch2State {
            nr24: value,
            freq: freq_with_hi(self.freq, value),
            length: len,
            enabled: enabled_after_nrx4(self.enabled, expired, value),
            ..self
        };
        if value & 0x80 != 0 {
            c.trigger_spec()
        } else {
            c
        }
    }

    pub open spec fn wf(&self) -> bool {
        self.freq < 2048 && self.duty < 4 && self.duty_step < 8
    }

    pub open spec fn trigger_spec(self) -> Ch2State {
        Ch2State {
            enabled: self.dac_on || self.enabled,
            length: if self.length.counter == 0 {
                LengthCounter { counter: 64, ..self.length }
            } else {
                self.length
            },
            freq_timer: square_period(self.freq),
            envelope: self.envelope.reload_spec(self.nr22),
            ..self
        }
    }

    pub open spec fn sample_spec(&self) -> u8 {
        if !self.enabled || !self.dac_on {
            0
        } else if duty_table(self.duty, self.duty_step) == 0 {
            0
        } else {
            self.envelope.volume
        }
    }

    pub fn write_nr21(&mut self, value: u8)
        ensures
            *final(self) == old(self).write_nr21_spec(value),
    {
        proof {
            lemma_mask_bounds();
        }
        self.nr21 = value;
        self.duty = value >> 6;
        self.length.counter = 64 - (value as u16 & 0x3F);
    }

    pub fn write_nr21_length_only(&mut self, value: u8)
        ensures
            *final(self) == old(self).write_nr21_length_only_spec(value),
    {
        proof {
            lemma_mask_bounds();
        }
        self.length.counter = 64 - (value as u16 & 0x3F);
    }

    pub fn write_nr22(&mut self, value: u8)
        ensures
            *final(self) == old(self).write_nr22_spec(value),
    {
        self.nr22 = value;
        self.dac_on = value & 0xF8 != 0;
        if !self.dac_on {
            self.enabled = false;
        }
    }

    pub fn write_nr23(&mut self, value: u8)
        ensures
            *final(self) == old(self).write_nr23_spec(value),
            final(self).freq < 2048,
    {
        proof {
            lemma_mask_bounds();
        }
        self.nr23 = value;
        self.freq = (self.freq & 0x0700) | value as u16;
    }

    pub fn write_nr24(&mut self, value: u8, first_half: bool)
        ensures
            *final(self) == old(self).write_nr24_spec(value, first_half),
            final(self).freq < 2048,
    {
        proof {
            lemma_mask_bounds();
        }
        self.nr24 = value;
        self.freq = (self.freq & 0x00FF) | ((value as u16 & 0x07) << 8);
        let expired = self.length.set_enabled(value & 0x40 != 0, first_half);
        if expired && value & 0x80 == 0 {
            self.enabled = false;
        }
        if value & 0x80 != 0 {
            self.trigger();
        }
    }

    fn trigger(&mut self)
        requires
            old(self).freq < 2048,
        ensures
            *final(self) == old(self).trigger_spec(),
    {
        if self.dac_on {
            self.enabled = true;
        }
        if self.length.counter == 0 {
            self.length.counter = 64;
        }
        self.freq_timer = (2048 - self.freq as u32) * 4;
        self.envelope.reload(self.nr22);
    }

    pub fn tick(&mut self, cycles: u32)
        requires
            old(self).freq < 2048,
            old(self).duty_step < 8,
        ensures
            *final(self) == old(self).tick_spec(cycles),
    {
        let ghost p = square_period(self.freq);
        let ghost mut k: nat = 0;
        let mut remaining = cycles;
        while remaining > 0
            invariant
                self.freq < 2048 && self.duty_step < 8,
                p == square_period(self.freq),
                p > 0,
                timer_run(old(self).freq_timer, p, cycles as nat).0 == timer_run(self.freq_timer, p, remaining as nat).0,
                timer_run(old(self).freq_timer, p, cycles as nat).1 == k + timer_run(self.freq_timer, p, remaining as nat).1,
                self.duty_step == advance_mod(old(self).duty_step, k, 8),
                *self == (Ch2State { freq_timer: self.freq_timer, duty_step: self.duty_step, ..*old(self) }),
            decreases remaining,
        {
            proof {
                lemma_mask_bounds();
            }
            if self.freq_timer == 0 {
                self.freq_timer = (2048 - self.freq as u32) * 4;
                self.duty_step = (self.duty_step + 1) & 7;
                proof {
                    k = k + 1;
                }
            }
            let chunk = if remaining < self.freq_timer { remaining } else { self.freq_timer };
            proof {
                lemma_timer_skip(self.freq_timer, p, remaining as nat, chunk as nat);
            }
            self.freq_timer = self.freq_timer - chunk;
            remaining = remaining - chunk;
        }
    }

    pub fn sample(&self) -> (r: u8)
        requires
            self.duty < 4,
            self.duty_step < 8,
        ensures
            r == self.sample_spec(),
    {
        if !self.enabled || !self.dac_on {
            return 0;
        }
        let pattern_bit = duty_bit(self.duty, self.duty_step);
        if pattern_bit == 0 {
            0
        } else {
            self.envelope.volume
        }
    }

    pub fn tick_length(&mut self)
        ensures
            *final(self) == old(self).tick_length_spec(),
    {
        if self.length.tick() {
            self.enabled = false;
        }
    }

    pub fn tick_envelope(&mut self)
        ensures
            *final(self) == old(self).tick_envelope_spec(),
    {
        self.envelope.tick();
    }
}

// ────────────────────────────────────────────────────────────────────────
// Channel 3: wave
// ────────────────────────────────────────────────────────────────────────

/// The frequency-timer period of the wave channel (2 T-cycles per unit).
pub open spec fn wave_period(freq: u16) -> u32 {
    ((2048 - freq) * 2) as u32
}

#[derive(Clone, Copy)]
pub struct Ch3State {
    pub nr30: u8,
    pub nr31: u8,
    pub nr32: u8,
    pub nr33: u8,
    pub nr34: u8,
    pub length: LengthCounter,
    pub freq: u16,
    pub volume_shift: u8,
    pub sample_index: u8,
    pub freq_timer: u32,
    pub dac_on: bool,
    pub enabled: bool,
}

impl Ch3State {
    pub open spec fn write_nr30_spec(self, value: u8) -> Ch3State {
        Ch3State {
            nr30: value,
            dac_on: value & 0x80 != 0,
            enabled: self.enabled && value & 0x80 != 0,
            ..self
        }
    }

    pub open spec fn write_nr31_spec(self, value: u8) -> Ch3State {
        Ch3State {
            nr31: value,
            length: LengthCounter { counter: (256 - value) as u16, ..self.length },
            ..self
        }
    }

    pub open spec fn write_nr31_length_only_spec(self, value: u8) -> Ch3State {
        Ch3State {
            length: LengthCounter { counter: (256 - value) as u16, ..self.length },
            ..self
        }
    }

    pub open spec fn write_nr32_spec(self, value: u8) -> Ch3State {
        Ch3State {
            nr32: value,
            volume_shift: (value >> 5u8) & 0x03,
            ..self
        }
    }

    pub open spec fn write_nr33_spec(self, value: u8) -> Ch3State {
        Ch3State {
            nr33: value,
            freq: freq_with_lo(self.freq, value),
            ..self
        }
    }

    pub open spec fn tick_spec(self, cycles: u32) -> Ch3State {
        Ch3State {
            freq_timer: timer_run(self.freq_timer, wave_period(self.freq), cycles as nat).0,
            sample_index: advance_mod(
                self.sample_index,
                timer_run(self.freq_timer, wave_period(self.freq), cycles as nat).1,
                32,
            ),
            ..self
        }
    }

    pub open spec fn tick_length_spec(self) -> Ch3State {
        Ch3State {
            length: self.length.tick_spec().0,
            enabled: self.enabled && !self.length.tick_spec().1,
            ..self
        }
    }

    /// NRx4: frequency high bits, length enable (with the extra length
    /// clock in the first half of a length period), and trigger.
    pub open spec fn write_nr34_spec(self, value: u8, first_half: bool) -> Ch3State {
        let (len, expired) = self.length.set_enabled_spec(value & 0x40 != 0, first_half);
        let c = Ch3State {
            nr34: value,
            freq: freq_with_hi(self.freq, value),
            length: len,
            enabled: enabled_after_nrx4(self.enabled, expired, value),
            ..self
        };
        if value & 0x80 != 0 {
            c.trigger_spec()
        } else {
            c
        }
    }

    pub open spec fn wf(&self) -> bool {
        self.freq < 2048 && self.sample_index < 32
    }

    pub open spec fn trigger_spec(self) -> Ch3State {
        Ch3State {
            enabled: self.dac_on || self.enabled,
            length: if self.length.counter == 0 {
                LengthCounter { counter: 256, ..self.length }
            } else {
                self.length
            },
            freq_timer: wave_period(self.freq),
            sample_index: 0,
            ..self
        }
    }

    /// The output level: the 4-bit wave sample at the current position
    /// (high nibble first), shifted right by the volume code (0 mutes).
    pub open spec fn sample_spec(&self, wave_ram: Seq<u8>) -> u8 {
        if !self.enabled || !self.dac_on {
            0
        } else {
            let byte = wave_ram[(self.sample_index >> 1u8) as int];
            let nibble: u8 = if self.sample_index & 1 == 0 { byte >> 4u8 } else { byte & 0x0F };
            if self.volume_shift == 1 {
                nibble
            } else if self.volume_shift == 2 {
                nibble >> 1u8
            } else if self.volume_shift == 3 {
                nibble >> 2u8
            } else {
                0
            }
        }
    }

    /// NR30 bit 7 is the DAC power; turning it off silences the channel.
    pub fn write_nr30(&mut self, value: u8)
        ensures
            *final(self) == old(self).write_nr30_spec(value),
    {
        self.nr30 = value;
        self.dac_on = value & 0x80 != 0;
        if !self.dac_on {
            self.enabled = false;
        }
    }

    /// NR31 is an 8-bit length load.
    pub fn write_nr31(&mut self, value: u8)
        ensures
            *final(self) == old(self).write_nr31_spec(value),
    {
        self.nr31 = value;
        self.length.counter = 256 - value as u16;
    }

    pub fn write_nr31_length_only(&mut self, value: u8)
        ensures
            *final(self) == old(self).write_nr31_length_only_spec(value),
    {
        self.length.counter = 256 - value as u16;
    }

    /// NR32 bits 6-5 select the output level.
    pub fn write_nr32(&mut self, value: u8)
        ensures
            *final(self) == old(self).write_nr32_spec(value),
    {
        self.nr32 = value;
        self.volume_shift = (value >> 5) & 0x03;
    }

    pub fn write_nr33(&mut self, value: u8)
        ensures
            *final(self) == old(self).write_nr33_spec(value),
            final(self).freq < 2048,
    {
        proof {
            lemma_mask_bounds();
        }
        self.nr33 = value;
        self.freq = (self.freq & 0x0700) | value as u16;
    }

    pub fn write_nr34(&mut self, value: u8, first_half: bool)
        ensures
            *final(self) == old(self).write_nr34_spec(value, first_half),
            final(self).freq < 2048,
    {
        proof {
            lemma_mask_bounds();
        }
        self.nr34 = value;
        self.freq = (self.freq & 0x00FF) | ((value as u16 & 0x07) << 8);
        let expired = self.length.set_enabled(value & 0x40 != 0, first_half);
        if expired && value & 0x80 == 0 {
            self.enabled = false;
        }
        if value & 0x80 != 0 {
            self.trigger();
        }
    }

    fn trigger(&mut self)
        requires
            old(self).freq < 2048,
        ensures
            *final(self) == old(self).trigger_spec(),
    {
        if self.dac_on {
            self.enabled = true;
        }
        if self.length.counter == 0 {
            self.length.counter = 256;
        }
        self.freq_timer = (2048 - self.freq as u32) * 2;
        self.sample_index = 0;
    }

    pub fn tick(&mut self, cycles: u32)
        requires
            old(self).freq < 2048,
            old(self).sample_index < 32,
        ensures
            *final(self) == old(self).tick_spec(cycles),
    {
        let ghost p = wave_period(self.freq);
        let ghost mut k: nat = 0;
        let mut remaining = cycles;
        while remaining > 0
            invariant
                self.freq < 2048 && self.sample_index < 32,
                p == wave_period(self.freq),
                p > 0,
                timer_run(old(self).freq_timer, p, cycles as nat).0 == timer_run(self.freq_timer, p, remaining as nat).0,
                timer_run(old(self).freq_timer, p, cycles as nat).1 == k + timer_run(self.freq_timer, p, remaining as nat).1,
                self.sample_index == advance_mod(old(self).sample_index, k, 32),
                *self == (Ch3State { freq_timer: self.freq_timer, sample_index: self.sample_index, ..*old(self) }),
            decreases remaining,
        {
            proof {
                lemma_mask_bounds();
            }
            if self.freq_timer == 0 {
                self.freq_timer = (2048 - self.freq as u32) * 2;
                self.sample_index = (self.sample_index + 1) & 0x1F;
                proof {
                    k = k + 1;
                }
            }
            let chunk = if remaining < self.freq_timer { remaining } else { self.freq_timer };
            proof {
                lemma_timer_skip(self.freq_timer, p, remaining as nat, chunk as nat);
            }
            self.freq_timer = self.freq_timer - chunk;
            remaining = remaining - chunk;
        }
    }

    pub fn sample(&self, wave_ram: &[u8; 16]) -> (r: u8)
        requires
            self.sample_index < 32,
        ensures
            r == self.sample_spec(wave_ram@),
    {
        if !self.enabled || !self.dac_on {
            return 0;
        }
        proof {
            lemma_mask_bounds();
        }
        let byte = wave_ram[(self.sample_index >> 1) as usize];
        let nibble = if self.sample_index & 1 == 0 {
            byte >> 4
        } else {
            byte & 0x0F
        };
        match self.volume_shift {
            1 => nibble,
            2 => nibble >> 1,
            3 => nibble >> 2,
            _ => 0,
        }
    }

    pub fn tick_length(&mut self)
        ensures
            *final(self) == old(self).tick_length_spec(),
    {
        if self.length.tick() {
            self.enabled = false;
        }
    }
}

// ────────────────────────────────────────────────────────────────────────
// Channel 4: noise (LFSR)
// ────────────────────────────────────────────────────────────────────────

/// The noise period for NR43: divisor code in bits 2-0 (0 means 8),
/// clock shift in bits 7-4.
pub open spec fn noise_period_spec(nr43: u8) -> u32 {
    let code = (nr43 & 0x07) as u32;
    let shift = ((nr43 >> 4u8) & 0x0F) as u32;
    let divisor: u32 = if code == 0 { 8 } else { code << 4u32 };
    divisor << shift
}

/// One LFSR step: the XOR of bits 0 and 1 is shifted in at bit 14 (and
/// also at bit 6 in 7-bit mode).
pub open spec fn lfsr_step(lfsr: u16, width_mode: bool) -> u16 {
    let bit = (lfsr & 0x01) ^ ((lfsr >> 1u16) & 0x01);
    let l1 = (lfsr >> 1u16) | (bit << 14u16);
    if width_mode {
        (l1 & !(1u16 << 6u16)) | (bit << 6u16)
    } else {
        l1
    }
}

pub open spec fn lfsr_steps(lfsr: u16, width_mode: bool, n: nat) -> u16
    decreases n,
{
    if n == 0 {
        lfsr
    } else {
        lfsr_step(lfsr_steps(lfsr, width_mode, (n - 1) as nat), width_mode)
    }
}

proof fn lemma_noise_period_positive(nr43: u8)
    ensures
        noise_period_spec(nr43) > 0,
{
    let code = (nr43 & 0x07) as u32;
    let shift = ((nr43 >> 4u8) & 0x0F) as u32;
    assert(code <= 7 && shift <= 15) by (bit_vector)
        requires
            code == (nr43 & 0x07) as u32,
            shift == ((nr43 >> 4u8) & 0x0F) as u32,
            ;
    let divisor: u32 = if code == 0 { 8 } else { code << 4u32 };
    assert(divisor << shift > 0) by (bit_vector)
        requires
            code <= 7,
            shift <= 15,
            divisor == if code == 0 { 8 } else { code << 4u32 },
            ;
}

#[derive(Clone, Copy)]
pub struct Ch4State {
    pub nr41: u8,
    pub nr42: u8,
    pub nr43: u8,
    pub nr44: u8,
    pub length: LengthCounter,
    pub envelope: Envelope,
    pub lfsr: u16,
    pub width_mode: bool,
    pub freq_timer: u32,
    pub dac_on: bool,
    pub enabled: bool,
}

impl Ch4State {
    pub open spec fn write_nr41_spec(self, value: u8) -> Ch4State {
        Ch4State {
            nr41: value,
            length: LengthCounter { counter: length64(value), ..self.length },
            ..self
        }
    }

    pub open spec fn write_nr41_length_only_spec(self, value: u8) -> Ch4State {
        Ch4State {
            length: LengthCounter { counter: length64(value), ..self.length },
            ..self
        }
    }

    pub open spec fn write_nr42_spec(self, value: u8) -> Ch4State {
        Ch4State {
            nr42: value,
            dac_on: value & 0xF8 != 0,
            enabled: self.enabled && value & 0xF8 != 0,
            ..self
        }
    }

    pub open spec fn write_nr43_spec(self, value: u8) -> Ch4State {
        Ch4State { nr43: value, width_mode: value & 0x08 != 0, ..self }
    }

    pub open spec fn tick_spec(self, cycles: u32) -> Ch4State {
        Ch4State {
            freq_timer: timer_run(self.freq_timer, noise_period_spec(self.nr43), cycles as nat).0,
            lfsr: lfsr_steps(
                self.lfsr,
                self.width_mode,
                timer_run(self.freq_timer, noise_period_spec(self.nr43), cycles as nat).1,
            ),
            ..self
        }
    }

    pub open spec fn step_lfsr_spec(self) -> Ch4State {
        Ch4State { lfsr: lfsr_step(self.lfsr, self.width_mode), ..self }
    }

    pub open spec fn tick_length_spec(self) -> Ch4State {
        Ch4State {
            length: self.length.tick_spec().0,
            enabled: self.enabled && !self.length.tick_spec().1,
            ..self
        }
    }

    pub open spec fn tick_envelope_spec(self) -> Ch4State {
        Ch4State { envelope: self.envelope.tick_spec(), ..self }
    }

    /// NR44: length enable (with the extra length clock in the first half
    /// of a length period) and trigger.
    pub open spec fn write_nr44_spec(self, value: u8, first_half: bool) -> Ch4State {
        let (len, expired) = self.length.set_enabled_spec(value & 0x40 != 0, first_half);
        let c = Ch4State {
            nr44: value,
            length: len,
            enabled: enabled_after_nrx4(self.enabled, expired, value),
            ..self
        };
        if value & 0x80 != 0 {
            c.trigger_spec()
        } else {
            c
        }
    }

    pub open spec fn trigger_spec(self) -> Ch4State {
        Ch4State {
            enabled: self.dac_on || self.enabled,
            length: if self.length.counter == 0 {
                LengthCounter { counter: 64, ..self.length }
            } else {
                self.length
            },
            envelope: self.envelope.reload_spec(self.nr42),
            freq_timer: noise_period_spec(self.nr43),
            lfsr: 0x7FFF,
            ..self
        }
    }

    /// The output level: the envelope volume while LFSR bit 0 is 0.
    pub open spec fn sample_spec(&self) -> u8 {
        if !self.enabled || !self.dac_on {
            0
        } else if self.lfsr & 0x01 == 0 {
            self.envelope.volume
        } else {
            0
        }
    }

    pub fn write_nr41(&mut self, value: u8)
        ensures
            *final(self) == old(self).write_nr41_spec(value),
    {
        proof {
            lemma_mask_bounds();
        }
        self.nr41 = value;
        self.length.counter = 64 - (value as u16 & 0x3F);
    }

    pub fn write_nr41_length_only(&mut self, value: u8)
        ensures
            *final(self) == old(self).write_nr41_length_only_spec(value),
    {
        proof {
            lemma_mask_bounds();
        }
        self.length.counter = 64 - (value as u16 & 0x3F);
    }

    pub fn write_nr42(&mut self, value: u8)
        ensures
            *final(self) == old(self).write_nr42_spec(value),
    {
        self.nr42 = value;
        self.dac_on = value & 0xF8 != 0;
        if !self.dac_on {
            self.enabled = false;
        }
    }

    /// NR43 bit 3 selects the 7-bit LFSR.
    pub fn write_nr43(&mut self, value: u8)
        ensures
            *final(self) == old(self).write_nr43_spec(value),
    {
        self.nr43 = value;
        self.width_mode = value & 0x08 != 0;
    }

    pub fn write_nr44(&mut self, value: u8, first_half: bool)
        ensures
            *final(self) == old(self).write_nr44_spec(value, first_half),
    {
        self.nr44 = value;
        let expired = self.length.set_enabled(value & 0x40 != 0, first_half);
        if expired && value & 0x80 == 0 {
            self.enabled = false;
        }
        if value & 0x80 != 0 {
            self.trigger();
        }
    }

    fn trigger(&mut self)
        ensures
            *final(self) == old(self).trigger_spec(),
    {
        if self.dac_on {
            self.enabled = true;
        }
        if self.length.counter == 0 {
            self.length.counter = 64;
        }
        self.envelope.reload(self.nr42);
        self.freq_timer = self.noise_period();
        self.lfsr = 0x7FFF;
    }

    fn noise_period(&self) -> (r: u32)
        ensures
            r == noise_period_spec(self.nr43),
            r > 0,
    {
        proof {
            lemma_noise_period_positive(self.nr43);
            lemma_mask_bounds();
        }
        let code = (self.nr43 & 0x07) as u32;
        let shift = ((self.nr43 >> 4) & 0x0F) as u32;
        let divisor: u32 = if code == 0 {
            8
        } else {
            code << 4
        };
        divisor << shift
    }

    /// Advance the frequency timer by `cycles` T-cycles; each reload steps
    /// the LFSR.
    pub fn tick(&mut self, cycles: u32)
        ensures
            *final(self) == old(self).tick_spec(cycles),
    {
        let ghost p = noise_period_spec(self.nr43);
        proof {
            lemma_noise_period_positive(self.nr43);
        }
        let ghost mut k: nat = 0;
        let mut remaining = cycles;
        while remaining > 0
            invariant
                p == noise_period_spec(self.nr43),
                p > 0,
                timer_run(old(self).freq_timer, p, cycles as nat).0 == timer_run(self.freq_timer, p, remaining as nat).0,
                timer_run(old(self).freq_timer, p, cycles as nat).1 == k + timer_run(self.freq_timer, p, remaining as nat).1,
                self.lfsr == lfsr_steps(old(self).lfsr, old(self).width_mode, k),
                *self == (Ch4State { freq_timer: self.freq_timer, lfsr: self.lfsr, ..*old(self) }),
            decreases remaining,
        {
            if self.freq_timer == 0 {
                self.freq_timer = self.noise_period();
                self.step_lfsr();
                proof {
                    k = k + 1;
                }
            }
            let chunk = if remaining < self.freq_timer { remaining } else { self.freq_timer };
            proof {
                lemma_timer_skip(self.freq_timer, p, remaining as nat, chunk as nat);
            }
            self.freq_timer = self.freq_timer - chunk;
            remaining = remaining - chunk;
        }
    }

    fn step_lfsr(&mut self)
        ensures
            *final(self) == old(self).step_lfsr_spec(),
    {
        let bit = (self.lfsr & 0x01) ^ ((self.lfsr >> 1) & 0x01);
        self.lfsr = self.lfsr >> 1;
        self.lfsr = self.lfsr | (bit << 14);
        if self.width_mode {
            self.lfsr = (self.lfsr & !(1u16 << 6)) | (bit << 6);
        }
    }

    pub fn sample(&self) -> (r: u8)
        ensures
            r == self.sample_spec(),
    {
        if !self.enabled || !self.dac_on {
            return 0;
        }
        if self.lfsr & 0x01 == 0 {
            self.envelope.volume
        } else {
            0
        }
    }

    pub fn tick_length(&mut self)
        ensures
            *final(self) == old(self).tick_length_spec(),
    {
        if self.length.tick() {
            self.enabled = false;
        }
    }

    pub fn tick_envelope(&mut self)
        ensures
            *final(self) == old(self).tick_envelope_spec(),
    {
        self.envelope.tick();
    }
}

// ────────────────────────────────────────────────────────────────────────
// Power-on states
// ────────────────────────────────────────────────────────────────────────

impl Default for Ch1State {
    fn default() -> (r: Self)
        ensures
            r == Ch1State::zeroed(),
    {
        Ch1State {
            nr10: 0,
            nr11: 0,
            nr12: 0,
            nr13: 0,
            nr14: 0,
            length: LengthCounter::default(),
            envelope: Envelope::default(),
            sweep: Sweep::default(),
            freq: 0,
            duty: 0,
            duty_step: 0,
            freq_timer: 0,
            dac_on: false,
            enabled: false,
        }
    }
}

impl Default for Ch2State {
    fn default() -> (r: Self)
        ensures
            r == Ch2State::zeroed(),
    {
        Ch2State {
            nr21: 0,
            nr22: 0,
            nr23: 0,
            nr24: 0,
            length: LengthCounter::default(),
            envelope: Envelope::default(),
            freq: 0,
            duty: 0,
            duty_step: 0,
            freq_timer: 0,
            dac_on: false,
            enabled: false,
        }
    }
}

impl Default for Ch3State {
    fn default() -> (r: Self)
        ensures
            r == Ch3State::zeroed(),
    {
        Ch3State {
            nr30: 0,
            nr31: 0,
            nr32: 0,
            nr33: 0,
            nr34: 0,
            length: LengthCounter::default(),
            freq: 0,
            volume_shift: 0,
            sample_index: 0,
            freq_timer: 0,
            dac_on: false,
            enabled: false,
        }
    }
}

impl Default for Ch4State {
    fn default() -> (r: Self)
        ensures
            r == Ch4State::zeroed(),
    {
        Ch4State {
            nr41: 0,
            nr42: 0,
            nr43: 0,
            nr44: 0,
            length: LengthCounter::default(),
            envelope: Envelope::default(),
            lfsr: 0,
            width_mode: false,
            freq_timer: 0,
            dac_on: false,
            enabled: false,
        }
    }
}

impl Ch1State {
    /// Every register, counter and flag zero.
    pub open spec fn zeroed() -> Ch1State {
        Ch1State {
            nr10: 0,
            nr11: 0,
            nr12: 0,
            nr13: 0,
            nr14: 0,
            length: LengthCounter { counter: 0, enabled: false },
            envelope: Envelope { volume: 0, initial: 0, direction_up: false, period: 0, timer: 0 },
            sweep: Sweep { period: 0, negate: false, shift: 0, timer: 0, enabled: false, shadow: 0 },
            freq: 0,
            duty: 0,
            duty_step: 0,
            freq_timer: 0,
            dac_on: false,
            enabled: false,
        }
    }
}

impl Ch2State {
    pub open spec fn zeroed() -> Ch2State {
        Ch2State {
            nr21: 0,
            nr22: 0,
            nr23: 0,
            nr24: 0,
            length: LengthCounter { counter: 0, enabled: false },
            envelope: Envelope { volume: 0, initial: 0, direction_up: false, period: 0, timer: 0 },
            freq: 0,
            duty: 0,
            duty_step: 0,
            freq_timer: 0,
            dac_on: false,
            enabled: false,
        }
    }
}

impl Ch3State {
    pub open spec fn zeroed() -> Ch3State {
        Ch3State {
            nr30: 0,
            nr31: 0,
            nr32: 0,
            nr33: 0,
            nr34: 0,
            length: LengthCounter { counter: 0, enabled: false },
            freq: 0,
            volume_shift: 0,
            sample_index: 0,
            freq_timer: 0,
            dac_on: false,
            enabled: false,
        }
    }
}

impl Ch4State {
    pub open spec fn zeroed() -> Ch4State {
        Ch4State {
            nr41: 0,
            nr42: 0,
            nr43: 0,
            nr44: 0,
            length: LengthCounter { counter: 0, enabled: false },
            envelope: Envelope { volume: 0, initial: 0, direction_up: false, period: 0, timer: 0 },
            lfsr: 0,
            width_mode: false,
            freq_timer: 0,
            dac_on: false,
            enabled: false,
        }
    }
}

/// Running a timer for `a` then `b` cycles is running it for `a + b`:
/// the same final count, and the reloads add up.
proof fn lemma_timer_run_split(timer: u32, period: u32, a: nat, b: nat)
    ensures
        timer_run(timer, period, a + b) == (
            timer_run(timer_run(timer, period, a).0, period, b).0,
            timer_run(timer, period, a).1 + timer_run(timer_run(timer, period, a).0, period, b).1,
        ),
    decreases a,
{
    if a > 0 {
        let t1: u32 = if timer == 0 { period } else { timer };
        lemma_timer_run_split((t1 - 1) as u32, period, (a - 1) as nat, b);
        assert((a + b - 1) as nat == (a - 1) as nat + b);
    }
}

/// Moving a position on by `k1` and then by `k2` (mod `m`) is moving it on
/// by `k1 + k2`.
proof fn lemma_advance_mod_split(pos: u8, k1: nat, k2: nat, m: nat)
    requires
        0 < m <= 256,
    ensures
        advance_mod(advance_mod(pos, k1, m), k2, m) == advance_mod(pos, k1 + k2, m),
{
    let p1 = (pos + k1) % (m as int);
    assert(0 <= p1 < m);
    assert(advance_mod(pos, k1, m) as int == p1);
    vstd::arithmetic::div_mod::lemma_add_mod_noop_right(k2 as int, pos + k1, m as int);
}

/// `k1` LFSR steps followed by `k2` more are `k1 + k2` steps.
proof fn lemma_lfsr_steps_split(lfsr: u16, width_mode: bool, k1: nat, k2: nat)
    ensures
        lfsr_steps(lfsr_steps(lfsr, width_mode, k1), width_mode, k2) == lfsr_steps(
            lfsr,
            width_mode,
            k1 + k2,
        ),
    decreases k2,
{
    if k2 > 0 {
        lemma_lfsr_steps_split(lfsr, width_mode, k1, (k2 - 1) as nat);
        assert((k1 + k2 - 1) as nat == k1 + (k2 - 1) as nat);
    }
}

/// Channel timers are additive: ticking `a` cycles and then `b` cycles is
/// ticking `a + b` cycles, for each of the four channels.
pub proof fn law_tick_composes(c1: Ch1State, c2: Ch2State, c3: Ch3State, c4: Ch4State, a: u32, b: u32)
    requires
        a + b <= u32::MAX,
    ensures
        c1.tick_spec(a).tick_spec(b) == c1.tick_spec((a + b) as u32),
        c2.tick_spec(a).tick_spec(b) == c2.tick_spec((a + b) as u32),
        c3.tick_spec(a).tick_spec(b) == c3.tick_spec((a + b) as u32),
        c4.tick_spec(a).tick_spec(b) == c4.tick_spec((a + b) as u32),
{
    let n = (a + b) as u32;
    assert(n as nat == a as nat + b as nat);
    let p1 = square_period(c1.freq);
    lemma_timer_run_split(c1.freq_timer, p1, a as nat, b as nat);
    lemma_advance_mod_split(
        c1.duty_step,
        timer_run(c1.freq_timer, p1, a as nat).1,
        timer_run(timer_run(c1.freq_timer, p1, a as nat).0, p1, b as nat).1,
        8,
    );
    let p2 = square_period(c2.freq);
    lemma_timer_run_split(c2.freq_timer, p2, a as nat, b as nat);
    lemma_advance_mod_split(
        c2.duty_step,
        timer_run(c2.freq_timer, p2, a as nat).1,
        timer_run(timer_run(c2.freq_timer, p2, a as nat).0, p2, b as nat).1,
        8,
    );
    let p3 = wave_period(c3.freq);
    lemma_timer_run_split(c3.freq_timer, p3, a as nat, b as nat);
    lemma_advance_mod_split(
        c3.sample_index,
        timer_run(c3.freq_timer, p3, a as nat).1,
        timer_run(timer_run(c3.freq_timer, p3, a as nat).0, p3, b as nat).1,
        32,
    );
    let p4 = noise_period_spec(c4.nr43);
    lemma_timer_run_split(c4.freq_timer, p4, a as nat, b as nat);
    lemma_lfsr_steps_split(
        c4.lfsr,
        c4.width_mode,
        timer_run(c4.freq_timer, p4, a as nat).1,
        timer_run(timer_run(c4.freq_timer, p4, a as nat).0, p4, b as nat).1,
    );
}

/// A timer that starts within its period stays within it.
proof fn lemma_timer_run_bound(timer: u32, period: u32, n: nat)
    requires
        0 < period,
        timer <= period,
    ensures
        timer_run(timer, period, n).0 <= period,
    decreases n,
{
    if n > 0 {
        let t1: u32 = if timer == 0 { period } else { timer };
        lemma_timer_run_bound((t1 - 1) as u32, period, (n - 1) as nat);
    }
}

/// A square-channel tick changes only the frequency timer and the duty
/// position, and keeps both in range: the position below 8 and the timer
/// within the period (2048 - freq) * 4.
pub proof fn law_square_tick_keeps_ranges(c: Ch1State, cycles: u32)
    requires
        c.freq < 2048,
        c.duty_step < 8,
        c.freq_timer <= square_period(c.freq),
    ensures
        c.tick_spec(cycles) == (Ch1State {
            freq_timer: c.tick_spec(cycles).freq_timer,
            duty_step: c.tick_spec(cycles).duty_step,
            ..c
        }),
        c.tick_spec(cycles).duty_step < 8,
        c.tick_spec(cycles).freq_timer <= square_period(c.freq),
{
    lemma_timer_run_bound(c.freq_timer, square_period(c.freq), cycles as nat);
}

/// The square-channel registers and waveforms, stated arithmetically:
/// - the four duty patterns are high for 1, 2, 4 and 6 of their 8 steps
///   (12.5%, 25%, 50%, 75%);
/// - NRx1 = v selects duty v / 64 and loads the length counter with
///   64 - (v mod 64);
/// - NRx2 = v turns the DAC on exactly when v / 8 != 0; a trigger then
///   starts the envelope at volume v / 16, period v mod 8, rising exactly
///   when bit 3 is set;
/// - the channel outputs its envelope volume while the duty pattern is
///   high, and 0 while it is low or the channel is off.
pub proof fn law_square_registers(c: Ch2State, v: u8)
    ensures
        forall|d: u8|
            d < 4 ==> duty_table(d, 0) + duty_table(d, 1) + duty_table(d, 2) + duty_table(d, 3)
                + duty_table(d, 4) + duty_table(d, 5) + duty_table(d, 6) + duty_table(d, 7) == (if d
                == 0 {
                1int
            } else if d == 1 {
                2int
            } else if d == 2 {
                4int
            } else {
                6int
            }),
        c.write_nr21_spec(v).duty == v / 64,
        c.write_nr21_spec(v).length.counter == 64 - v % 64,
        c.write_nr22_spec(v).dac_on == (v / 8 != 0),
        c.write_nr22_spec(v).trigger_spec().envelope.volume == v / 16,
        c.write_nr22_spec(v).trigger_spec().envelope.period == v % 8,
        c.write_nr22_spec(v).trigger_spec().envelope.direction_up == (v / 8 % 2 == 1),
        c.duty < 4 && c.duty_step < 8 ==> c.sample_spec() == (if c.enabled && c.dac_on && duty_table(
            c.duty,
            c.duty_step,
        ) == 1 {
            c.envelope.volume
        } else {
            0
        }),
{
    assert({
        &&& (v >> 6u8) == v / 64
        &&& (v & 0x3Fu8) == v % 64
        &&& (v & 0xF8u8 != 0) == (v / 8 != 0)
        &&& (v >> 4u8) == v / 16
        &&& (v & 0x07u8) == v % 8
        &&& (v & 0x08u8 != 0) == (v / 8 % 2 == 1)
    }) by (bit_vector);
    assert forall|d: u8| d < 4 implies duty_table(d, 0) + duty_table(d, 1) + duty_table(d, 2)
        + duty_table(d, 3) + duty_table(d, 4) + duty_table(d, 5) + duty_table(d, 6) + duty_table(d, 7)
        == (if d == 0 {
        1int
    } else if d == 1 {
        2int
    } else if d == 2 {
        4int
    } else {
        6int
    }) by {}
    assert(c.duty < 4 && c.duty_step < 8 ==> duty_table(c.duty, c.duty_step) <= 1);
}

/// The wave channel, stated arithmetically: NR31 = v loads the length
/// counter with 256 - v; NR32 = v selects the output level (v / 32) mod 4:
/// 0 mutes, 1 plays the 4-bit sample as is, 2 halves it and 3 quarters it.
/// Samples are read high nibble first: position i plays the high nibble
/// of wave byte i / 2 when i is even, the low one when it is odd.
pub proof fn law_wave_channel(c: Ch3State, v: u8, wave_ram: Seq<u8>)
    requires
        wave_ram.len() == 16,
        c.sample_index < 32,
    ensures
        c.write_nr31_spec(v).length.counter == 256 - v,
        c.write_nr32_spec(v).volume_shift == (v / 32) % 4,
        ({
            let byte = wave_ram[(c.sample_index / 2) as int];
            let nibble: int = if c.sample_index % 2 == 0 { (byte / 16) as int } else { (byte % 16) as int };
            let level = c.volume_shift;
            &&& !(c.enabled && c.dac_on) ==> c.sample_spec(wave_ram) == 0
            &&& c.enabled && c.dac_on ==> c.sample_spec(wave_ram) == (if level == 1 {
                nibble
            } else if level == 2 {
                nibble / 2
            } else if level == 3 {
                nibble / 4
            } else {
                0
            })
        }),
{
    let i = c.sample_index;
    let b = wave_ram[(i / 2) as int];
    let hi = b >> 4u8;
    let lo = b & 0x0Fu8;
    assert({
        &&& ((v >> 5u8) & 0x03u8) == (v / 32) % 4
        &&& (i >> 1u8) == i / 2
        &&& (i & 1u8 == 0) == (i % 2 == 0)
        &&& hi == b / 16
        &&& lo == b % 16
        &&& (hi >> 1u8) == hi / 2
        &&& (hi >> 2u8) == hi / 4
        &&& (lo >> 1u8) == lo / 2
        &&& (lo >> 2u8) == lo / 4
    }) by (bit_vector)
        requires
            hi == b >> 4u8,
            lo == b & 0x0Fu8,
    ;
}

/// Frequency sweep: a sweep clock that finds the timer above 1 only counts
/// it down. One that finds it at 1 (period and shift non-zero) reloads it
/// with the period and computes shadow +/- shadow / 2^shift (minus when
/// NR10 bit 3 negates); past 2047 that switches the channel off and keeps
/// the frequency, otherwise it becomes the new frequency and shadow.
pub proof fn law_sweep_clock(ch: Ch1State)
    requires
        ch.wf(),
        ch.sweep.enabled,
        ch.sweep.period != 0,
        ch.sweep.shift != 0,
    ensures
        ({
            let sh = ch.sweep.shadow as int;
            let d = sh / (vstd::arithmetic::power2::pow2(ch.sweep.shift as nat) as int);
            let next = if ch.sweep.negate { sh - d } else { (sh + d) % 65536 };
            let t = ch.tick_sweep_spec();
            &&& ch.sweep.timer > 1 ==> t == (Ch1State {
                sweep: Sweep { timer: (ch.sweep.timer - 1) as u8, ..ch.sweep },
                ..ch
            })
            &&& ch.sweep.timer == 1 ==> {
                &&& t.sweep.timer == ch.sweep.period
                &&& next > 2047 ==> !t.enabled && t.freq == ch.freq
                &&& next <= 2047 ==> t.freq == next && t.sweep.shadow == next
            }
        }),
{
    let sh = ch.sweep.shadow;
    vstd::bits::lemma_u16_shr_is_div(sh, ch.sweep.shift as u16);
    vstd::arithmetic::power2::lemma_pow2_pos(ch.sweep.shift as nat);
    let d = sh as int / (vstd::arithmetic::power2::pow2(ch.sweep.shift as nat) as int);
    assert(0 <= d <= sh) by {
        vstd::arithmetic::div_mod::lemma_div_is_ordered_by_denominator(
            sh as int,
            1,
            vstd::arithmetic::power2::pow2(ch.sweep.shift as nat) as int,
        );
    }
    assert((sh >> ch.sweep.shift) as int == d);
}

/// Noise timer period from NR43: the divisor (8 for code 0, else 16 times
/// the code in bits 2-0) doubled once for each step of the clock shift in
/// bits 7-4.
pub proof fn law_noise_period(nr43: u8)
    ensures
        noise_period_spec(nr43) as int == (if nr43 % 8 == 0 {
            8
        } else {
            16 * (nr43 % 8)
        }) * vstd::arithmetic::power2::pow2((nr43 / 16) as nat),
{
    vstd::bits::lemma_low_bits_mask_values();
    vstd::arithmetic::power2::lemma2_to64();
    vstd::bits::lemma_u8_low_bits_mask_is_mod(nr43, 3);
    vstd::bits::lemma_u8_shr_is_div(nr43, 4);
    let hi = nr43 >> 4u8;
    vstd::bits::lemma_u8_low_bits_mask_is_mod(hi, 4);
    let code = (nr43 & 0x07) as u32;
    let shift = (hi & 0x0F) as u32;
    assert(nr43 & 0x07 == nr43 % 8);
    assert(hi == nr43 / 16);
    assert(hi & 0x0F == hi % 16);
    assert(code == nr43 % 8 && shift == nr43 / 16);
    if code != 0 {
        vstd::bits::lemma_u32_shl_is_mul(code, 4);
    }
    let divisor: u32 = if code == 0 { 8 } else { code << 4u32 };
    assert(divisor <= 112);
    let p = vstd::arithmetic::power2::pow2(shift as nat);
    assert(p <= 32768) by {
        if shift < 15 {
            vstd::arithmetic::power2::lemma_pow2_strictly_increases(shift as nat, 15);
        }
    }
    assert(divisor * p <= 112 * 32768) by (nonlinear_arith)
        requires
            divisor <= 112,
            p <= 32768,
    ;
    vstd::bits::lemma_u32_shl_is_mul(divisor, shift);
}

/// The envelope after `n` clocks.
pub open spec fn envelope_ticks(e: Envelope, n: nat) -> Envelope
    decreases n,
{
    if n == 0 {
        e
    } else {
        envelope_ticks(e, (n - 1) as nat).tick_spec()
    }
}

proof fn lemma_envelope_countdown(e: Envelope, k: nat)
    requires
        e.period != 0,
        k < e.timer,
    ensures
        envelope_ticks(e, k) == (Envelope { timer: (e.timer - k) as u8, ..e }),
    decreases k,
{
    if k > 0 {
        lemma_envelope_countdown(e, (k - 1) as nat);
    }
}

/// Volume envelope: from a freshly loaded timer with period p in 1..=7, the
/// volume holds for p - 1 clocks and moves one step on the p-th (up or
/// down as set, staying within 0..=15), after which the timer is p again.
pub proof fn law_envelope_rate(e: Envelope)
    requires
        1 <= e.period <= 7,
        e.timer == e.period,
        e.volume <= 15,
    ensures
        envelope_ticks(e, (e.period - 1) as nat).volume == e.volume,
        ({
            let t = envelope_ticks(e, e.period as nat);
            &&& t.timer == e.period
            &&& t.volume == if e.direction_up {
                if e.volume < 15 { e.volume + 1 } else { 15 }
            } else {
                if e.volume > 0 { e.volume - 1 } else { 0 }
            }
        }),
{
    lemma_envelope_countdown(e, (e.period - 1) as nat);
}

} // verus!
