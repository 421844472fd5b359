//! The DMG APU.
//!
//! Powerdown and writes while off:
//!   - Writes to 0xFF10..=0xFF25 while the APU is off are dropped, except
//!     NR52, the four length registers (NR11/NR21/NR31/NR41), which still
//!     update the internal length counter, and wave RAM.
//!   - Powerdown clears the register bytes 0xFF10..=0xFF25, but the four
//!     length counters survive (DMG), and so does wave RAM.
//!   - The 512 Hz timer that feeds the frame sequencer keeps running while
//!     the APU is off; only the dispatch (length/sweep/envelope clocks)
//!     stops. So the frame-sequencer phase is predictable after a power
//!     cycle.
//!
//! Extra length clocking (DMG): when an NRx4 write enables length (bit 6
//! going 0 -> 1) during the first half of a length period (the next
//! frame-sequencer step does not clock length), a non-zero length counter
//! is clocked once at once; if that empties it and the write does not
//! trigger, the channel switches off.
//!
//! Samples are mixed as integer levels: each is the sum of the routed
//! channel outputs (0..=15 each) times the master volume (1..=8). A level
//! of 480 is full scale.

pub mod channel;

use vstd::prelude::*;
use vstd::arithmetic::div_mod::lemma_fundamental_div_mod_converse;
use crate::bits::lemma_mask_bounds;
use channel::{Ch1State, Ch2State, Ch3State, Ch4State, Envelope, LengthCounter};

verus! {

pub const FRAME_SEQ_PERIOD: u32 = 8192;

/// Default sample rate, used by tests and until the host audio backend
/// reports its actual rate.
pub const SAMPLE_RATE: u32 = 48000;

pub const CPU_HZ: u32 = 4194304;

/// The level of a full-scale sample.
pub const FULL_SCALE: u16 = 480;

pub struct Apu {
    pub nr50: u8,
    pub nr51: u8,
    pub master_enable: bool,
    pub ch1: Ch1State,
    pub ch2: Ch2State,
    pub ch3: Ch3State,
    pub ch4: Ch4State,
    pub wave_ram: [u8; 16],
    /// T-cycles counted toward the next 512 Hz tick. Runs even while the
    /// APU is off, so the frame-sequencer phase stays continuous.
    pub frame_seq_counter: u32,
    /// The last frame-sequencer step dispatched, 0..8. On power-on it is
    /// set to 7 so that the next step is 0.
    pub frame_seq_step: u8,
    pub sample_rate: u32,
    pub sample_accumulator: u32,
    /// Interleaved left/right sample levels.
    pub sample_buffer: Vec<u16>,
}

/// The mathematical model of the APU.
pub struct ApuView {
    pub nr50: u8,
    pub nr51: u8,
    pub master_enable: bool,
    pub ch1: Ch1State,
    pub ch2: Ch2State,
    pub ch3: Ch3State,
    pub ch4: Ch4State,
    pub wave_ram: Seq<u8>,
    pub frame_seq_counter: u32,
    pub frame_seq_step: u8,
    pub sample_rate: u32,
    pub sample_accumulator: u32,
    pub samples: Seq<u16>,
}

impl View for Apu {
    type V = ApuView;

    open spec fn view(&self) -> ApuView {
        ApuView {
            nr50: self.nr50,
            nr51: self.nr51,
            master_enable: self.master_enable,
            ch1: self.ch1,
            ch2: self.ch2,
            ch3: self.ch3,
            ch4: self.ch4,
            wave_ram: self.wave_ram@,
            frame_seq_counter: self.frame_seq_counter,
            frame_seq_step: self.frame_seq_step,
            sample_rate: self.sample_rate,
            sample_accumulator: self.sample_accumulator,
            samples: self.sample_buffer@,
        }
    }
}

/// Channel output summed over the channels that NR51 routes to one side:
/// bits 0..3 for the right output, bits 4..7 for the left.
pub open spec fn route(nr51: u8, left: bool, s1: u8, s2: u8, s3: u8, s4: u8) -> int {
    let (m1, m2, m3, m4) = if left {
        (0x10u8, 0x20u8, 0x40u8, 0x80u8)
    } else {
        (0x01u8, 0x02u8, 0x04u8, 0x08u8)
    };
    (if nr51 & m1 != 0 { s1 as int } else { 0 }) + (if nr51 & m2 != 0 { s2 as int } else { 0 })
        + (if nr51 & m3 != 0 { s3 as int } else { 0 }) + (if nr51 & m4 != 0 {
        s4 as int
    } else {
        0
    })
}

impl ApuView {
    /// What stepping needs: channel registers in range, a positive sample
    /// rate, and the counters below their periods.
    pub open spec fn wf(&self) -> bool {
        &&& self.ch1.wf()
        &&& self.ch2.wf()
        &&& self.ch3.wf()
        &&& self.wave_ram.len() == 16
        &&& self.sample_rate > 0
        &&& self.sample_accumulator < CPU_HZ
        &&& self.frame_seq_counter < FRAME_SEQ_PERIOD
        &&& self.frame_seq_step < 8
    }

    /// The next frame-sequencer step does not clock length: the last
    /// dispatched step is even (length clocks on 0, 2, 4, 6).
    pub open spec fn in_first_half(&self) -> bool {
        self.frame_seq_step % 2 == 0
    }

    pub open spec fn nr52_spec(&self) -> u8 {
        0x70 | (if self.master_enable { 0x80u8 } else { 0 }) | (if self.ch1.enabled {
            0x01u8
        } else {
            0
        }) | (if self.ch2.enabled { 0x02u8 } else { 0 }) | (if self.ch3.enabled {
            0x04u8
        } else {
            0
        }) | (if self.ch4.enabled { 0x08u8 } else { 0 })
    }

    /// A register read: unused and write-only bits read as 1.
    pub open spec fn read_reg_spec(&self, addr: u16) -> u8 {
        if addr == 0xFF10 {
            self.ch1.nr10 | 0x80
        } else if addr == 0xFF11 {
            self.ch1.nr11 | 0x3F
        } else if addr == 0xFF12 {
            self.ch1.nr12
        } else if addr == 0xFF14 {
            self.ch1.nr14 | 0xBF
        } else if addr == 0xFF16 {
            self.ch2.nr21 | 0x3F
        } else if addr == 0xFF17 {
            self.ch2.nr22
        } else if addr == 0xFF19 {
            self.ch2.nr24 | 0xBF
        } else if addr == 0xFF1A {
            self.ch3.nr30 | 0x7F
        } else if addr == 0xFF1C {
            self.ch3.nr32 | 0x9F
        } else if addr == 0xFF1E {
            self.ch3.nr34 | 0xBF
        } else if addr == 0xFF21 {
            self.ch4.nr42
        } else if addr == 0xFF22 {
            self.ch4.nr43
        } else if addr == 0xFF23 {
            self.ch4.nr44 | 0xBF
        } else if addr == 0xFF24 {
            self.nr50
        } else if addr == 0xFF25 {
            self.nr51
        } else if addr == 0xFF26 {
            self.nr52_spec()
        } else if 0xFF30 <= addr <= 0xFF3F {
            self.wave_ram[addr - 0xFF30]
        } else {
            0xFF
        }
    }

    /// NR52: bit 7 powers the APU. Powering off clears every register but
    /// keeps the length counters and wave RAM; powering on makes the next
    /// frame-sequencer step 0.
    pub open spec fn write_nr52_spec(self, value: u8) -> ApuView {
        let new_enable = value & 0x80 != 0;
        let a1 = if !new_enable && self.master_enable {
            ApuView {
                ch1: Ch1State { length: self.ch1.length, ..Ch1State::zeroed() },
                ch2: Ch2State { length: self.ch2.length, ..Ch2State::zeroed() },
                ch3: Ch3State { length: self.ch3.length, ..Ch3State::zeroed() },
                ch4: Ch4State { length: self.ch4.length, ..Ch4State::zeroed() },
                nr50: 0,
                nr51: 0,
                ..self
            }
        } else {
            self
        };
        let a2 = if new_enable && !self.master_enable {
            ApuView { frame_seq_step: 7, ..a1 }
        } else {
            a1
        };
        ApuView { master_enable: new_enable, ..a2 }
    }

    pub open spec fn write_reg_spec(self, addr: u16, value: u8) -> ApuView {
        if !self.master_enable {
            if addr == 0xFF11 {
                ApuView { ch1: self.ch1.write_nr11_length_only_spec(value), ..self }
            } else if addr == 0xFF16 {
                ApuView { ch2: self.ch2.write_nr21_length_only_spec(value), ..self }
            } else if addr == 0xFF1B {
                ApuView { ch3: self.ch3.write_nr31_length_only_spec(value), ..self }
            } else if addr == 0xFF20 {
                ApuView { ch4: self.ch4.write_nr41_length_only_spec(value), ..self }
            } else if addr == 0xFF26 {
                self.write_nr52_spec(value)
            } else if 0xFF30 <= addr <= 0xFF3F {
                ApuView { wave_ram: self.wave_ram.update(addr - 0xFF30, value), ..self }
            } else {
                self
            }
        } else if addr == 0xFF10 {
            ApuView { ch1: self.ch1.write_nr10_spec(value), ..self }
        } else if addr == 0xFF11 {
            ApuView { ch1: self.ch1.write_nr11_spec(value), ..self }
        } else if addr == 0xFF12 {
            ApuView { ch1: self.ch1.write_nr12_spec(value), ..self }
        } else if addr == 0xFF13 {
            ApuView { ch1: self.ch1.write_nr13_spec(value), ..self }
        } else if addr == 0xFF14 {
            ApuView { ch1: self.ch1.write_nr14_spec(value, self.in_first_half()), ..self }
        } else if addr == 0xFF16 {
            ApuView { ch2: self.ch2.write_nr21_spec(value), ..self }
        } else if addr == 0xFF17 {
            ApuView { ch2: self.ch2.write_nr22_spec(value), ..self }
        } else if addr == 0xFF18 {
            ApuView { ch2: self.ch2.write_nr23_spec(value), ..self }
        } else if addr == 0xFF19 {
            ApuView { ch2: self.ch2.write_nr24_spec(value, self.in_first_half()), ..self }
        } else if addr == 0xFF1A {
            ApuView { ch3: self.ch3.write_nr30_spec(value), ..self }
        } else if addr == 0xFF1B {
            ApuView { ch3: self.ch3.write_nr31_spec(value), ..self }
        } else if addr == 0xFF1C {
            ApuView { ch3: self.ch3.write_nr32_spec(value), ..self }
        } else if addr == 0xFF1D {
            ApuView { ch3: self.ch3.write_nr33_spec(value), ..self }
        } else if addr == 0xFF1E {
            ApuView { ch3: self.ch3.write_nr34_spec(value, self.in_first_half()), ..self }
        } else if addr == 0xFF20 {
            ApuView { ch4: self.ch4.write_nr41_spec(value), ..self }
        } else if addr == 0xFF21 {
            ApuView { ch4: self.ch4.write_nr42_spec(value), ..self }
        } else if addr == 0xFF22 {
            ApuView { ch4: self.ch4.write_nr43_spec(value), ..self }
        } else if addr == 0xFF23 {
            ApuView { ch4: self.ch4.write_nr44_spec(value, self.in_first_half()), ..self }
        } else if addr == 0xFF24 {
            ApuView { nr50: value, ..self }
        } else if addr == 0xFF25 {
            ApuView { nr51: value, ..self }
        } else if addr == 0xFF26 {
            self.write_nr52_spec(value)
        } else if 0xFF30 <= addr <= 0xFF3F {
            ApuView { wave_ram: self.wave_ram.update(addr - 0xFF30, value), ..self }
        } else {
            self
        }
    }

    /// The four length counters clocked.
    pub open spec fn clock_lengths(self) -> ApuView {
        ApuView {
            ch1: self.ch1.tick_length_spec(),
            ch2: self.ch2.tick_length_spec(),
            ch3: self.ch3.tick_length_spec(),
            ch4: self.ch4.tick_length_spec(),
            ..self
        }
    }

    /// One frame-sequencer step: the step advances first, then it is
    /// dispatched. Length clocks on even steps, sweep on 2 and 6,
    /// envelopes on 7.
    pub open spec fn frame_seq_tick_spec(self) -> ApuView {
        let step = ((self.frame_seq_step + 1) % 8) as u8;
        let a = ApuView { frame_seq_step: step, ..self };
        if step == 0 || step == 4 {
            a.clock_lengths()
        } else if step == 2 || step == 6 {
            let b = a.clock_lengths();
            ApuView { ch1: b.ch1.tick_sweep_spec(), ..b }
        } else if step == 7 {
            ApuView {
                ch1: a.ch1.tick_envelope_spec(),
                ch2: a.ch2.tick_envelope_spec(),
                ch4: a.ch4.tick_envelope_spec(),
                ..a
            }
        } else {
            a
        }
    }

    /// `n` 512 Hz ticks: each dispatches a step while the APU is on.
    pub open spec fn frame_seq_ticks(self, n: nat) -> ApuView
        decreases n,
    {
        if n == 0 {
            self
        } else {
            let a = self.frame_seq_ticks((n - 1) as nat);
            if a.master_enable {
                a.frame_seq_tick_spec()
            } else {
                a
            }
        }
    }

    /// The current stereo output levels (left, right): the routed channel
    /// outputs times the master volumes; silent while off.
    pub open spec fn levels(&self) -> (u16, u16) {
        if !self.master_enable {
            (0, 0)
        } else {
            let s1 = self.ch1.sample_spec();
            let s2 = self.ch2.sample_spec();
            let s3 = self.ch3.sample_spec(self.wave_ram);
            let s4 = self.ch4.sample_spec();
            let right = route(self.nr51, false, s1, s2, s3, s4);
            let left = route(self.nr51, true, s1, s2, s3, s4);
            let vol_r = (self.nr50 & 0x07) + 1;
            let vol_l = ((self.nr50 >> 4u8) & 0x07) + 1;
            ((left * vol_l) as u16, (right * vol_r) as u16)
        }
    }

    /// T-cycles until the next sample is due.
    pub open spec fn cycles_to_next_sample(&self) -> nat {
        ((CPU_HZ - self.sample_accumulator + self.sample_rate - 1) / self.sample_rate as int) as nat
    }

    /// One chunk of `step`: the channels run `chunk` cycles (while on),
    /// the 512 Hz timer advances and dispatches, and the samples that fell
    /// due are appended (left, right, left, right, ...).
    pub open spec fn chunk_spec(self, chunk: nat) -> ApuView {
        let a1 = if self.master_enable {
            ApuView {
                ch1: self.ch1.tick_spec(chunk as u32),
                ch2: self.ch2.tick_spec(chunk as u32),
                ch3: self.ch3.tick_spec(chunk as u32),
                ch4: self.ch4.tick_spec(chunk as u32),
                ..self
            }
        } else {
            self
        };
        let total = a1.frame_seq_counter + chunk;
        let a2 = ApuView {
            frame_seq_counter: (total % FRAME_SEQ_PERIOD as int) as u32,
            ..a1
        }.frame_seq_ticks((total / FRAME_SEQ_PERIOD as int) as nat);
        let acc = a2.sample_accumulator + chunk * a2.sample_rate;
        let n = acc / CPU_HZ as int;
        let (l, r) = a2.levels();
        ApuView {
            sample_accumulator: (acc % CPU_HZ as int) as u32,
            samples: a2.samples + Seq::new((2 * n) as nat, |i: int| if i % 2 == 0 { l } else { r }),
            ..a2
        }
    }

    /// The APU after `remaining` T-cycles, chunked at sample instants.
    pub open spec fn run_spec(self, remaining: nat) -> ApuView
        decreases remaining,
    {
        if remaining == 0 || self.cycles_to_next_sample() == 0 {
            self
        } else {
            let chunk = if remaining < self.cycles_to_next_sample() {
                remaining
            } else {
                self.cycles_to_next_sample()
            };
            self.chunk_spec(chunk).run_spec((remaining - chunk) as nat)
        }
    }
}

/// The routed sum for one side, as `route` states it.
fn route_exec(nr51: u8, left: bool, s1: u8, s2: u8, s3: u8, s4: u8) -> (r: u32)
    ensures
        r == route(nr51, left, s1, s2, s3, s4),
        r <= 1020,
{
    let (m1, m2, m3, m4): (u8, u8, u8, u8) = if left {
        (0x10, 0x20, 0x40, 0x80)
    } else {
        (0x01, 0x02, 0x04, 0x08)
    };
    let mut sum: u32 = 0;
    if nr51 & m1 != 0 {
        sum = sum + s1 as u32;
    }
    if nr51 & m2 != 0 {
        sum = sum + s2 as u32;
    }
    if nr51 & m3 != 0 {
        sum = sum + s3 as u32;
    }
    if nr51 & m4 != 0 {
        sum = sum + s4 as u32;
    }
    sum
}

/// 512 Hz ticks do not touch the tick counter itself.
proof fn lemma_ticks_counter(a: ApuView, n: nat, c: u32)
    ensures
        (ApuView { frame_seq_counter: c, ..a }).frame_seq_ticks(n) == (ApuView {
            frame_seq_counter: c,
            ..a.frame_seq_ticks(n)
        }),
        a.frame_seq_ticks(n).samples == a.samples,
        a.frame_seq_ticks(n).sample_rate == a.sample_rate,
        a.frame_seq_ticks(n).sample_accumulator == a.sample_accumulator,
        a.frame_seq_ticks(n).master_enable == a.master_enable,
        a.frame_seq_ticks(n).wave_ram == a.wave_ram,
        a.frame_seq_ticks(n).frame_seq_counter == a.frame_seq_counter,
        a.wf() ==> a.frame_seq_ticks(n).wf(),
    decreases n,
{
    if n > 0 {
        lemma_ticks_counter(a, (n - 1) as nat, c);
    }
}

impl Apu {
    pub open spec fn initial() -> ApuView {
        ApuView {
            nr50: 0,
            nr51: 0,
            master_enable: false,
            ch1: Ch1State::zeroed(),
            ch2: Ch2State::zeroed(),
            ch3: Ch3State::zeroed(),
            ch4: Ch4State::zeroed(),
            wave_ram: Seq::new(16, |i: int| 0u8),
            frame_seq_counter: 0,
            frame_seq_step: 0,
            sample_rate: SAMPLE_RATE,
            sample_accumulator: 0,
            samples: Seq::empty(),
        }
    }

    pub fn new() -> (a: Self)
        ensures
            a@ == Apu::initial(),
            a@.wf(),
    {
        let a = Self {
            nr50: 0,
            nr51: 0,
            master_enable: false,
            ch1: Ch1State::default(),
            ch2: Ch2State::default(),
            ch3: Ch3State::default(),
            ch4: Ch4State::default(),
            wave_ram: [0; 0x10],
            frame_seq_counter: 0,
            frame_seq_step: 0,
            sample_rate: SAMPLE_RATE,
            sample_accumulator: 0,
            sample_buffer: Vec::new(),
        };
        assert(a@.wave_ram =~= Seq::new(16, |i: int| 0u8));
        a
    }

    /// Switch to the host's sample rate; pending samples are dropped.
    pub fn set_sample_rate(&mut self, rate: u32)
        ensures
            final(self)@ == (ApuView {
                sample_rate: rate,
                sample_accumulator: 0,
                samples: Seq::empty(),
                ..old(self)@
            }),
    {
        self.sample_rate = rate;
        self.sample_accumulator = 0;
        self.sample_buffer.clear();
    }

    pub fn read_reg(&self, addr: u16) -> (r: u8)
        ensures
            r == self@.read_reg_spec(addr),
    {
        match addr {
            0xFF10 => self.ch1.nr10 | 0x80,
            0xFF11 => self.ch1.nr11 | 0x3F,
            0xFF12 => self.ch1.nr12,
            0xFF13 => 0xFF,
            0xFF14 => self.ch1.nr14 | 0xBF,
            0xFF15 => 0xFF,
            0xFF16 => self.ch2.nr21 | 0x3F,
            0xFF17 => self.ch2.nr22,
            0xFF18 => 0xFF,
            0xFF19 => self.ch2.nr24 | 0xBF,
            0xFF1A => self.ch3.nr30 | 0x7F,
            0xFF1B => 0xFF,
            0xFF1C => self.ch3.nr32 | 0x9F,
            0xFF1D => 0xFF,
            0xFF1E => self.ch3.nr34 | 0xBF,
            0xFF1F => 0xFF,
            0xFF20 => 0xFF,
            0xFF21 => self.ch4.nr42,
            0xFF22 => self.ch4.nr43,
            0xFF23 => self.ch4.nr44 | 0xBF,
            0xFF24 => self.nr50,
            0xFF25 => self.nr51,
            0xFF26 => self.read_nr52(),
            _ => {
                if 0xFF30 <= addr && addr <= 0xFF3F {
                    self.wave_ram[(addr - 0xFF30) as usize]
                } else {
                    0xFF
                }
            },
        }
    }

    pub fn write_reg(&mut self, addr: u16, value: u8)
        ensures
            final(self)@ == old(self)@.write_reg_spec(addr, value),
            old(self)@.wf() ==> final(self)@.wf(),
    {
        if !self.master_enable {
            match addr {
                0xFF11 => {
                    self.ch1.write_nr11_length_only(value);
                    return ;
                },
                0xFF16 => {
                    self.ch2.write_nr21_length_only(value);
                    return ;
                },
                0xFF1B => {
                    self.ch3.write_nr31_length_only(value);
                    return ;
                },
                0xFF20 => {
                    self.ch4.write_nr41_length_only(value);
                    return ;
                },
                0xFF26 => {
                    self.write_nr52(value);
                    return ;
                },
                _ => {},
            }
            if 0xFF30 <= addr && addr <= 0xFF3F {
                self.wave_ram[(addr - 0xFF30) as usize] = value;
                return ;
            }
            if 0xFF10 <= addr && addr <= 0xFF25 {
                return ;
            }
        }
        proof {
            lemma_mask_bounds();
        }
        // The extra length clock of NRx4 writes depends on where the
        // frame sequencer stands.
        let fh = self.frame_seq_step % 2 == 0;
        match addr {
            0xFF10 => self.ch1.write_nr10(value),
            0xFF11 => self.ch1.write_nr11(value),
            0xFF12 => self.ch1.write_nr12(value),
            0xFF13 => self.ch1.write_nr13(value),
            0xFF14 => self.ch1.write_nr14(value, fh),
            0xFF15 => {},
            0xFF16 => self.ch2.write_nr21(value),
            0xFF17 => self.ch2.write_nr22(value),
            0xFF18 => self.ch2.write_nr23(value),
            0xFF19 => self.ch2.write_nr24(value, fh),
            0xFF1A => self.ch3.write_nr30(value),
            0xFF1B => self.ch3.write_nr31(value),
            0xFF1C => self.ch3.write_nr32(value),
            0xFF1D => self.ch3.write_nr33(value),
            0xFF1E => self.ch3.write_nr34(value, fh),
            0xFF1F => {},
            0xFF20 => self.ch4.write_nr41(value),
            0xFF21 => self.ch4.write_nr42(value),
            0xFF22 => self.ch4.write_nr43(value),
            0xFF23 => self.ch4.write_nr44(value, fh),
            0xFF24 => self.nr50 = value,
            0xFF25 => self.nr51 = value,
            0xFF26 => self.write_nr52(value),
            _ => {
                if 0xFF30 <= addr && addr <= 0xFF3F {
                    self.wave_ram[(addr - 0xFF30) as usize] = value;
                }
            },
        }
    }

    fn read_nr52(&self) -> (r: u8)
        ensures
            r == self@.nr52_spec(),
    {
        let mut v: u8 = 0x70;
        let m: u8 = if self.master_enable { 0x80 } else { 0 };
        let c1: u8 = if self.ch1.enabled { 0x01 } else { 0 };
        let c2: u8 = if self.ch2.enabled { 0x02 } else { 0 };
        let c3: u8 = if self.ch3.enabled { 0x04 } else { 0 };
        let c4: u8 = if self.ch4.enabled { 0x08 } else { 0 };
        v = v | m;
        v = v | c1;
        v = v | c2;
        v = v | c3;
        v = v | c4;
        v
    }

    fn write_nr52(&mut self, value: u8)
        ensures
            final(self)@ == old(self)@.write_nr52_spec(value),
            old(self)@.wf() ==> final(self)@.wf(),
    {
        let new_enable = value & 0x80 != 0;
        if !new_enable && self.master_enable {
            // Power-off: clear the registers but keep the length counters
            // (DMG) and wave RAM. The 512 Hz counter keeps its phase.
            let saved_lengths: [LengthCounter; 4] = [
                self.ch1.length,
                self.ch2.length,
                self.ch3.length,
                self.ch4.length,
            ];
            self.ch1 = Ch1State::default();
            self.ch2 = Ch2State::default();
            self.ch3 = Ch3State::default();
            self.ch4 = Ch4State::default();
            self.nr50 = 0;
            self.nr51 = 0;
            self.ch1.length = saved_lengths[0];
            self.ch2.length = saved_lengths[1];
            self.ch3.length = saved_lengths[2];
            self.ch4.length = saved_lengths[3];
        }
        if new_enable && !self.master_enable {
            // Power-on: the next step is 0, so the last one is 7. The
            // 512 Hz counter is not reset: the time to that first step
            // depends on its phase, which kept running while off.
            self.frame_seq_step = 7;
        }
        self.master_enable = new_enable;
    }

    /// Advance by `cycles` T-cycles: the channels and the frame
    /// sequencer run, and samples are emitted at the sample rate.
    pub fn step(&mut self, cycles: u32)
        requires
            old(self)@.wf(),
        ensures
            final(self)@ == old(self)@.run_spec(cycles as nat),
            final(self)@.wf(),
    {
        let mut remaining = cycles;
        while remaining > 0
            invariant
                self@.wf(),
                old(self)@.run_spec(cycles as nat) == self@.run_spec(remaining as nat),
            decreases remaining,
        {
            let to_next_sample = self.cycles_until_next_sample();
            let chunk = if remaining < to_next_sample { remaining } else { to_next_sample };
            let ghost a0 = self@;
            // Channel timers and frame-sequencer dispatch only run when on.
            if self.master_enable {
                self.ch1.tick(chunk);
                self.ch2.tick(chunk);
                self.ch3.tick(chunk);
                self.ch4.tick(chunk);
            }
            let ghost a1 = self@;
            // The 512 Hz timer runs regardless of power; only the dispatch
            // is gated on it.
            self.frame_seq_counter = self.frame_seq_counter + chunk;
            let ghost total: nat = self.frame_seq_counter as nat;
            let ghost mut n: nat = 0;
            proof {
                lemma_ticks_counter(a1, 0, self.frame_seq_counter);
            }
            while self.frame_seq_counter >= FRAME_SEQ_PERIOD
                invariant
                    a1.wf(),
                    self.frame_seq_counter + n * 8192 == total,
                    self@ == (ApuView { frame_seq_counter: self.frame_seq_counter, ..a1 }).frame_seq_ticks(n),
                    self@.wf() || self.frame_seq_counter >= FRAME_SEQ_PERIOD,
                    self@.ch1.wf() && self@.ch2.wf() && self@.ch3.wf() && self@.frame_seq_step < 8,
                    self@.master_enable == a1.master_enable,
                decreases self.frame_seq_counter,
            {
                let ghost before = self.frame_seq_counter;
                self.frame_seq_counter = self.frame_seq_counter - FRAME_SEQ_PERIOD;
                proof {
                    lemma_ticks_counter(ApuView { frame_seq_counter: before, ..a1 }, n, self.frame_seq_counter);
                }
                if self.master_enable {
                    self.tick_frame_sequencer();
                }
                proof {
                    n = n + 1;
                }
            }
            proof {
                lemma_fundamental_div_mod_converse(total as int, 8192, n as int, self.frame_seq_counter as int);
            }
            self.emit_samples(chunk);
            remaining = remaining - chunk;
            assert(self@ == a0.chunk_spec(chunk as nat));
        }
    }

    fn cycles_until_next_sample(&self) -> (r: u32)
        requires
            self@.wf(),
        ensures
            r == self@.cycles_to_next_sample(),
            1 <= r <= CPU_HZ,
    {
        let needed = CPU_HZ as u64 - self.sample_accumulator as u64;
        let rate = self.sample_rate as u64;
        assert((needed + rate - 1) / (rate as int) <= needed) by (nonlinear_arith)
            requires
                rate >= 1,
                needed >= 1,
        ;
        assert((needed + rate - 1) / (rate as int) >= 1) by (nonlinear_arith)
            requires
                rate >= 1,
                needed >= 1,
        ;
        ((needed + rate - 1) / rate) as u32
    }

    fn tick_frame_sequencer(&mut self)
        requires
            old(self)@.ch1.wf(),
            old(self)@.ch2.wf(),
            old(self)@.ch3.wf(),
            old(self)@.frame_seq_step < 8,
        ensures
            final(self)@ == old(self)@.frame_seq_tick_spec(),
            final(self)@.ch1.wf(),
            final(self)@.ch2.wf(),
            final(self)@.ch3.wf(),
            final(self)@.frame_seq_step < 8,
    {
        proof {
            lemma_mask_bounds();
        }
        // Advance first, then dispatch on the new step.
        self.frame_seq_step = (self.frame_seq_step + 1) & 7;
        match self.frame_seq_step {
            0 => {
                self.ch1.tick_length();
                self.ch2.tick_length();
                self.ch3.tick_length();
                self.ch4.tick_length();
            },
            2 => {
                self.ch1.tick_length();
                self.ch2.tick_length();
                self.ch3.tick_length();
                self.ch4.tick_length();
                self.ch1.tick_sweep();
            },
            4 => {
                self.ch1.tick_length();
                self.ch2.tick_length();
                self.ch3.tick_length();
                self.ch4.tick_length();
            },
            6 => {
                self.ch1.tick_length();
                self.ch2.tick_length();
                self.ch3.tick_length();
                self.ch4.tick_length();
                self.ch1.tick_sweep();
            },
            7 => {
                self.ch1.tick_envelope();
                self.ch2.tick_envelope();
                self.ch4.tick_envelope();
            },
            _ => {},
        }
    }

    fn emit_samples(&mut self, cycles: u32)
        requires
            old(self)@.wf(),
        ensures
            final(self)@ == ({
                let a = old(self)@;
                let acc = a.sample_accumulator + cycles * a.sample_rate;
                let n = acc / CPU_HZ as int;
                let (l, r) = a.levels();
                ApuView {
                    sample_accumulator: (acc % CPU_HZ as int) as u32,
                    samples: a.samples + Seq::new((2 * n) as nat, |i: int| if i % 2 == 0 { l } else { r }),
                    ..a
                }
            }),
            final(self)@.wf(),
    {
        let ghost a = self@;
        let (l, r) = self.current_sample();
        assert((cycles as u64) * (self.sample_rate as u64) <= 0xFFFF_FFFE_0000_0001u64) by (nonlinear_arith)
            requires
                cycles <= u32::MAX,
                self.sample_rate <= u32::MAX,
        ;
        let mut acc = self.sample_accumulator as u64 + cycles as u64 * self.sample_rate as u64;
        let ghost total: int = acc as int;
        let cpu_hz = CPU_HZ as u64;
        let ghost mut n: nat = 0;
        while acc >= cpu_hz
            invariant
                cpu_hz == CPU_HZ,
                acc + n * CPU_HZ == total,
                (l, r) == a.levels(),
                self@ == (ApuView {
                    samples: a.samples + Seq::new((2 * n) as nat, |i: int| if i % 2 == 0 { l } else { r }),
                    ..a
                }),
            decreases acc,
        {
            acc = acc - cpu_hz;
            self.sample_buffer.push(l);
            self.sample_buffer.push(r);
            proof {
                n = n + 1;
                assert(self@.samples =~= a.samples + Seq::new((2 * n) as nat, |i: int| if i % 2 == 0 { l } else { r }));
            }
        }
        self.sample_accumulator = acc as u32;
        proof {
            lemma_fundamental_div_mod_converse(total, CPU_HZ as int, n as int, acc as int);
        }
    }

    /// The current output levels (left, right). A level of 480 is full
    /// scale; the front-end turns levels into floating-point samples.
    pub fn current_sample(&self) -> (r: (u16, u16))
        requires
            self.ch1.duty < 4 && self.ch1.duty_step < 8,
            self.ch2.duty < 4 && self.ch2.duty_step < 8,
            self.ch3.sample_index < 32,
        ensures
            r == self@.levels(),
    {
        if !self.master_enable {
            return (0, 0);
        }
        proof {
            lemma_mask_bounds();
        }
        let s1 = self.ch1.sample();
        let s2 = self.ch2.sample();
        let s3 = self.ch3.sample(&self.wave_ram);
        let s4 = self.ch4.sample();
        let right = route_exec(self.nr51, false, s1, s2, s3, s4);
        let left = route_exec(self.nr51, true, s1, s2, s3, s4);
        let vol_r = (self.nr50 & 0x07) + 1;
        let vol_l = ((self.nr50 >> 4) & 0x07) + 1;
        assert(left * vol_l <= 1020 * 8 && right * vol_r <= 1020 * 8) by (nonlinear_arith)
            requires
                left <= 1020,
                right <= 1020,
                1 <= vol_l <= 8,
                1 <= vol_r <= 8,
        ;
        ((left * vol_l as u32) as u16, (right * vol_r as u32) as u16)
    }

    /// Hand out the samples emitted so far and start a new buffer.
    pub fn take_samples(&mut self) -> (v: Vec<u16>)
        ensures
            v@ == old(self)@.samples,
            final(self)@ == (ApuView { samples: Seq::empty(), ..old(self)@ }),
    {
        let mut out: Vec<u16> = Vec::new();
        std::mem::swap(&mut out, &mut self.sample_buffer);
        out
    }
}

impl Default for Apu {
    fn default() -> (a: Self)
        ensures
            a@ == Apu::initial(),
    {
        Self::new()
    }
}

/// While the APU is off, writes to its registers are dropped, except the
/// four length registers, which still load their length counters.
pub proof fn law_apu_off_drops_writes(a: ApuView, addr: u16, value: u8)
    requires
        !a.master_enable,
        0xFF10 <= addr <= 0xFF25,
        addr != 0xFF11 && addr != 0xFF16 && addr != 0xFF1B && addr != 0xFF20,
    ensures
        a.write_reg_spec(addr, value) == a,
{
}

/// Powering off clears the registers, but the length counters and wave
/// RAM survive, and NR52 then reads 0x70 (all channels off).
pub proof fn law_apu_power_off(a: ApuView, value: u8)
    requires
        a.master_enable,
        value & 0x80 == 0,
    ensures
        ({
            let b = a.write_reg_spec(0xFF26, value);
            &&& !b.master_enable
            &&& b.wave_ram == a.wave_ram
            &&& b.ch1.length == a.ch1.length
            &&& b.ch2.length == a.ch2.length
            &&& b.ch3.length == a.ch3.length
            &&& b.ch4.length == a.ch4.length
            &&& b.nr50 == 0 && b.nr51 == 0
            &&& b.read_reg_spec(0xFF26) == 0x70
        }),
{
    assert(0x70u8 | 0u8 | 0u8 | 0u8 | 0u8 | 0u8 == 0x70u8) by (bit_vector);
}

/// Wave RAM reads back what was written, whether the APU is on or off.
pub proof fn law_wave_ram_roundtrip(a: ApuView, addr: u16, value: u8)
    requires
        a.wf(),
        0xFF30 <= addr <= 0xFF3F,
    ensures
        a.write_reg_spec(addr, value).read_reg_spec(addr) == value,
{
}

/// Powering on makes the next frame-sequencer step 0 and leaves the
/// 512 Hz counter, which kept running while off, where it was.
pub proof fn law_apu_power_on(a: ApuView, value: u8)
    requires
        !a.master_enable,
        value & 0x80 != 0,
    ensures
        a.write_reg_spec(0xFF26, value).master_enable,
        a.write_reg_spec(0xFF26, value).frame_seq_step == 7,
        a.write_reg_spec(0xFF26, value).frame_seq_counter == a.frame_seq_counter,
{
}

/// One chunk keeps the APU well-formed, moves the 512 Hz counter on by
/// the chunk (mod 8192) and leaves the power state alone.
proof fn lemma_chunk_counter(a: ApuView, chunk: nat)
    requires
        a.wf(),
        chunk <= CPU_HZ,
    ensures
        a.chunk_spec(chunk).wf(),
        a.chunk_spec(chunk).frame_seq_counter == (a.frame_seq_counter + chunk) % 8192,
        a.chunk_spec(chunk).master_enable == a.master_enable,
        a.chunk_spec(chunk).sample_rate == a.sample_rate,
        a.chunk_spec(chunk).sample_accumulator == (a.sample_accumulator + chunk * a.sample_rate)
            % CPU_HZ as int,
        a.chunk_spec(chunk).samples.len() == a.samples.len() + 2 * ((a.sample_accumulator + chunk
            * a.sample_rate) / CPU_HZ as int),
{
    let a1 = if a.master_enable {
        ApuView {
            ch1: a.ch1.tick_spec(chunk as u32),
            ch2: a.ch2.tick_spec(chunk as u32),
            ch3: a.ch3.tick_spec(chunk as u32),
            ch4: a.ch4.tick_spec(chunk as u32),
            ..a
        }
    } else {
        a
    };
    assert(a1.wf());
    let total = a1.frame_seq_counter + chunk;
    let c = (total % FRAME_SEQ_PERIOD as int) as u32;
    lemma_ticks_counter(ApuView { frame_seq_counter: c, ..a1 }, (total / FRAME_SEQ_PERIOD as int) as nat, c);
}

/// Samples come out at the configured rate: after `n` T-cycles the APU
/// has emitted floor((accumulator + n * rate) / CPU_HZ) stereo pairs, and
/// the remainder is carried in the accumulator.
#[verifier::spinoff_prover]
pub proof fn law_sample_rate(a: ApuView, n: nat)
    requires
        a.wf(),
    ensures
        a.run_spec(n).samples.len() == a.samples.len() + 2 * ((a.sample_accumulator + n
            * a.sample_rate) / CPU_HZ as int),
        a.run_spec(n).sample_accumulator == (a.sample_accumulator + n * a.sample_rate)
            % CPU_HZ as int,
        a.run_spec(n).sample_rate == a.sample_rate,
    decreases n,
{
    let needed = CPU_HZ - a.sample_accumulator;
    let rate = a.sample_rate as int;
    let h = CPU_HZ as int;
    assert((needed + rate - 1) / rate >= 1 && (needed + rate - 1) / rate <= needed) by (nonlinear_arith)
        requires
            needed >= 1,
            rate >= 1,
    ;
    if n == 0 {
        assert(a.run_spec(0) == a);
        vstd::arithmetic::div_mod::lemma_small_mod(a.sample_accumulator as nat, CPU_HZ as nat);
        vstd::arithmetic::div_mod::lemma_basic_div(a.sample_accumulator as int, h);
    } else {
        let chunk = if n < a.cycles_to_next_sample() { n } else { a.cycles_to_next_sample() };
        let rest = (n - chunk) as nat;
        assert(a.run_spec(n) == a.chunk_spec(chunk).run_spec(rest));
        lemma_chunk_counter(a, chunk);
        let b = a.chunk_spec(chunk);
        law_sample_rate(b, rest);
        lemma_sample_arith(a.sample_accumulator as int, chunk as int, rest as int, rate);
    }
}

/// Carrying the accumulator across two runs adds up.
proof fn lemma_sample_arith(acc: int, chunk: int, rest: int, rate: int)
    requires
        acc >= 0,
        chunk >= 0,
        rest >= 0,
        rate >= 0,
    ensures
        (acc + chunk * rate) / (CPU_HZ as int) + ((acc + chunk * rate) % (CPU_HZ as int) + rest * rate)
            / (CPU_HZ as int) == (acc + (chunk + rest) * rate) / (CPU_HZ as int),
        ((acc + chunk * rate) % (CPU_HZ as int) + rest * rate) % (CPU_HZ as int) == (acc + (chunk
            + rest) * rate) % (CPU_HZ as int),
{
    let h = CPU_HZ as int;
    let x = acc + chunk * rate;
    let k1 = x / h;
    let acc1 = x % h;
    let y = rest * rate;
    vstd::arithmetic::div_mod::lemma_fundamental_div_mod(x, h);
    vstd::arithmetic::div_mod::lemma_hoist_over_denominator(acc1 + y, k1, CPU_HZ as nat);
    vstd::arithmetic::mul::lemma_mul_is_distributive_add_other_way(rate, chunk, rest);
    vstd::arithmetic::mul::lemma_mul_is_commutative(k1, h);
    vstd::arithmetic::div_mod::lemma_add_mod_noop_right(y, x, h);
    assert(acc + (chunk + rest) * rate == acc1 + y + k1 * h);
    assert(x + y == acc + (chunk + rest) * rate);
}

/// The 512 Hz counter behind the frame sequencer counts every T-cycle,
/// whether the APU is on or off: after `n` T-cycles it has moved on by
/// `n` (mod 8192), so the sequencer's phase is predictable across a power
/// cycle.
#[verifier::spinoff_prover]
pub proof fn law_frame_seq_counter_runs_regardless_of_power(a: ApuView, n: nat)
    requires
        a.wf(),
    ensures
        a.run_spec(n).frame_seq_counter == (a.frame_seq_counter + n) % 8192,
        a.run_spec(n).master_enable == a.master_enable,
    decreases n,
{
    let needed = CPU_HZ - a.sample_accumulator;
    let rate = a.sample_rate as int;
    assert((needed + rate - 1) / rate >= 1 && (needed + rate - 1) / rate <= needed) by (nonlinear_arith)
        requires
            needed >= 1,
            rate >= 1,
    ;
    if n == 0 {
    } else {
        let chunk = if n < a.cycles_to_next_sample() { n } else { a.cycles_to_next_sample() };
        lemma_chunk_counter(a, chunk);
        let b = a.chunk_spec(chunk);
        law_frame_seq_counter_runs_regardless_of_power(b, (n - chunk) as nat);
        vstd::arithmetic::div_mod::lemma_add_mod_noop_right(
            (n - chunk) as int,
            a.frame_seq_counter + chunk,
            8192,
        );
    }
}

/// Extra length clocking: an NR14 write that turns length on while the
/// next frame-sequencer step does not clock length clocks the counter
/// once at once (a channel emptied that way without a trigger switches
/// off); in the other half the counter is left alone.
pub proof fn law_extra_length_clock(a: ApuView, value: u8)
    requires
        a.master_enable,
        !a.ch1.length.enabled,
        value & 0x40 != 0,
        value & 0x80 == 0,
    ensures
        ({
            let b = a.write_reg_spec(0xFF14, value);
            &&& b.ch1.length.enabled
            &&& a.in_first_half() && a.ch1.length.counter > 0 ==> b.ch1.length.counter
                == a.ch1.length.counter - 1
            &&& a.in_first_half() && a.ch1.length.counter == 1 ==> !b.ch1.enabled
            &&& !a.in_first_half() ==> b.ch1.length.counter == a.ch1.length.counter
                && b.ch1.enabled == a.ch1.enabled
        }),
{
}

/// The output of channel `k + 1` (k = 0..3).
pub open spec fn channel_output(a: ApuView, k: int) -> int {
    if k == 0 {
        a.ch1.sample_spec() as int
    } else if k == 1 {
        a.ch2.sample_spec() as int
    } else if k == 2 {
        a.ch3.sample_spec(a.wave_ram) as int
    } else {
        a.ch4.sample_spec() as int
    }
}

/// NR51 routing: bit k (k = 0..3) sends channel k + 1 to the right output
/// and bit k + 4 sends it to the left; each side is the sum of what it is
/// sent, times that side's master volume (NR50 bits 0..2 right, 4..6
/// left, plus one). So with a single bit set, one side carries exactly
/// that channel and the other is silent, and the routed sums add up over
/// disjoint routings.
pub proof fn law_nr51_routing(a: ApuView, k: int)
    requires
        a.master_enable,
        0 <= k < 4,
    ensures
        ({
            let vol_r = (a.nr50 % 8) + 1;
            let vol_l = ((a.nr50 / 16) % 8) + 1;
            let right_only = ApuView { nr51: (pow2_u8(k)) as u8, ..a };
            let left_only = ApuView { nr51: (pow2_u8(k + 4)) as u8, ..a };
            &&& right_only.levels().1 == channel_output(a, k) * vol_r
            &&& right_only.levels().0 == 0
            &&& left_only.levels().0 == channel_output(a, k) * vol_l
            &&& left_only.levels().1 == 0
        }),
        ({
            let s1 = a.ch1.sample_spec();
            let s2 = a.ch2.sample_spec();
            let s3 = a.ch3.sample_spec(a.wave_ram);
            let s4 = a.ch4.sample_spec();
            &&& route(a.nr51, false, s1, s2, s3, s4) == route(a.nr51 & 0x03, false, s1, s2, s3, s4)
                + route(a.nr51 & 0x0C, false, s1, s2, s3, s4)
            &&& route(a.nr51, true, s1, s2, s3, s4) == route(a.nr51 & 0x30, true, s1, s2, s3, s4)
                + route(a.nr51 & 0xC0, true, s1, s2, s3, s4)
        }),
{
    let n = a.nr51;
    let m = a.nr50;
    assert((m & 0x07) == m % 8 && ((m >> 4u8) & 0x07) == (m / 16) % 8) by (bit_vector);
    assert(
        (1u8 & 0x01u8) != 0 && (1u8 & 0x02u8) == 0 && (1u8 & 0x04u8) == 0 && (1u8 & 0x08u8) == 0
        && (1u8 & 0x10u8) == 0 && (1u8 & 0x20u8) == 0 && (1u8 & 0x40u8) == 0 && (1u8 & 0x80u8) == 0
        && (2u8 & 0x01u8) == 0 && (2u8 & 0x02u8) != 0 && (2u8 & 0x04u8) == 0 && (2u8 & 0x08u8) == 0
        && (2u8 & 0x10u8) == 0 && (2u8 & 0x20u8) == 0 && (2u8 & 0x40u8) == 0 && (2u8 & 0x80u8) == 0
        && (4u8 & 0x01u8) == 0 && (4u8 & 0x02u8) == 0 && (4u8 & 0x04u8) != 0 && (4u8 & 0x08u8) == 0
        && (4u8 & 0x10u8) == 0 && (4u8 & 0x20u8) == 0 && (4u8 & 0x40u8) == 0 && (4u8 & 0x80u8) == 0
        && (8u8 & 0x01u8) == 0 && (8u8 & 0x02u8) == 0 && (8u8 & 0x04u8) == 0 && (8u8 & 0x08u8) != 0
        && (8u8 & 0x10u8) == 0 && (8u8 & 0x20u8) == 0 && (8u8 & 0x40u8) == 0 && (8u8 & 0x80u8) == 0
    ) by (bit_vector);
    assert(
        (16u8 & 0x01u8) == 0 && (16u8 & 0x02u8) == 0 && (16u8 & 0x04u8) == 0 && (16u8 & 0x08u8) == 0
        && (16u8 & 0x10u8) != 0 && (16u8 & 0x20u8) == 0 && (16u8 & 0x40u8) == 0 && (16u8 & 0x80u8) == 0
        && (32u8 & 0x01u8) == 0 && (32u8 & 0x02u8) == 0 && (32u8 & 0x04u8) == 0 && (32u8 & 0x08u8) == 0
        && (32u8 & 0x10u8) == 0 && (32u8 & 0x20u8) != 0 && (32u8 & 0x40u8) == 0 && (32u8 & 0x80u8) == 0
        && (64u8 & 0x01u8) == 0 && (64u8 & 0x02u8) == 0 && (64u8 & 0x04u8) == 0 && (64u8 & 0x08u8) == 0
        && (64u8 & 0x10u8) == 0 && (64u8 & 0x20u8) == 0 && (64u8 & 0x40u8) != 0 && (64u8 & 0x80u8) == 0
        && (128u8 & 0x01u8) == 0 && (128u8 & 0x02u8) == 0 && (128u8 & 0x04u8) == 0 && (128u8 & 0x08u8) == 0
        && (128u8 & 0x10u8) == 0 && (128u8 & 0x20u8) == 0 && (128u8 & 0x40u8) == 0 && (128u8 & 0x80u8) != 0
    ) by (bit_vector);
    assert(
        ((n & 0x03u8) & 0x01u8) == (n & 0x01u8) && ((n & 0x03u8) & 0x02u8) == (n & 0x02u8)
        && ((n & 0x03u8) & 0x04u8) == 0 && ((n & 0x03u8) & 0x08u8) == 0
        && ((n & 0x0Cu8) & 0x01u8) == 0 && ((n & 0x0Cu8) & 0x02u8) == 0
        && ((n & 0x0Cu8) & 0x04u8) == (n & 0x04u8) && ((n & 0x0Cu8) & 0x08u8) == (n & 0x08u8)
        && ((n & 0x30u8) & 0x10u8) == (n & 0x10u8) && ((n & 0x30u8) & 0x20u8) == (n & 0x20u8)
        && ((n & 0x30u8) & 0x40u8) == 0 && ((n & 0x30u8) & 0x80u8) == 0
        && ((n & 0xC0u8) & 0x10u8) == 0 && ((n & 0xC0u8) & 0x20u8) == 0
        && ((n & 0xC0u8) & 0x40u8) == (n & 0x40u8) && ((n & 0xC0u8) & 0x80u8) == (n & 0x80u8)
    ) by (bit_vector);
    let vol_r = (m % 8) + 1;
    let vol_l = ((m / 16) % 8) + 1;
    let c = channel_output(a, k);
    assert(0 <= c <= 255);
    assert(c * vol_r <= 255 * 8 && c * vol_l <= 255 * 8) by (nonlinear_arith)
        requires
            0 <= c <= 255,
            1 <= vol_r <= 8,
            1 <= vol_l <= 8,
    ;
    let right_only = ApuView { nr51: (pow2_u8(k)) as u8, ..a };
    let left_only = ApuView { nr51: (pow2_u8(k + 4)) as u8, ..a };
    let s1 = a.ch1.sample_spec();
    let s2 = a.ch2.sample_spec();
    let s3 = a.ch3.sample_spec(a.wave_ram);
    let s4 = a.ch4.sample_spec();
    let rr = route(right_only.nr51, false, s1, s2, s3, s4);
    let rl = route(right_only.nr51, true, s1, s2, s3, s4);
    let lr = route(left_only.nr51, false, s1, s2, s3, s4);
    let ll = route(left_only.nr51, true, s1, s2, s3, s4);
    if k == 0 {
        assert(right_only.nr51 == 1u8 && left_only.nr51 == 16u8);
    } else if k == 1 {
        assert(right_only.nr51 == 2u8 && left_only.nr51 == 32u8);
    } else if k == 2 {
        assert(right_only.nr51 == 4u8 && left_only.nr51 == 64u8);
    } else {
        assert(right_only.nr51 == 8u8 && left_only.nr51 == 128u8);
    }
    assert(rr == c && rl == 0 && lr == 0 && ll == c);
    assert(right_only.levels() == ((rl * vol_l) as u16, (rr * vol_r) as u16));
    assert(left_only.levels() == ((ll * vol_l) as u16, (lr * vol_r) as u16));
}

/// 2 to the `k` for the bit positions of a byte.
pub open spec fn pow2_u8(k: int) -> int {
    if k == 0 {
        1
    } else if k == 1 {
        2
    } else if k == 2 {
        4
    } else if k == 3 {
        8
    } else if k == 4 {
        16
    } else if k == 5 {
        32
    } else if k == 6 {
        64
    } else {
        128
    }
}

/// How many of the steps s + 1, ..., s + n (mod 8) are even (length
/// clocks).
pub open spec fn even_steps(s: int, n: nat) -> int
    decreases n,
{
    if n == 0 {
        0
    } else {
        even_steps(s, (n - 1) as nat) + if (s + n) % 8 % 2 == 0 {
            1int
        } else {
            0int
        }
    }
}

/// How many of the steps s + 1, ..., s + n (mod 8) are step 7 (envelope
/// clocks).
pub open spec fn seventh_steps(s: int, n: nat) -> int
    decreases n,
{
    if n == 0 {
        0
    } else {
        seventh_steps(s, (n - 1) as nat) + if (s + n) % 8 == 7 {
            1int
        } else {
            0int
        }
    }
}

proof fn lemma_schedule_ticks(a: ApuView, n: nat)
    requires
        a.master_enable,
        a.frame_seq_step < 8,
        a.ch2.length.enabled,
        a.ch2.length.counter >= n,
        a.ch2.envelope.period == 1,
        a.ch2.envelope.timer == 1,
        !a.ch2.envelope.direction_up,
        a.ch2.envelope.volume >= n,
    ensures
        a.frame_seq_ticks(n).master_enable,
        a.frame_seq_ticks(n).frame_seq_step == (a.frame_seq_step + n) % 8,
        a.frame_seq_ticks(n).ch2.length.enabled,
        a.frame_seq_ticks(n).ch2.length.counter == a.ch2.length.counter - even_steps(
            a.frame_seq_step as int,
            n,
        ),
        a.frame_seq_ticks(n).ch2.envelope == (Envelope {
            volume: (a.ch2.envelope.volume - seventh_steps(a.frame_seq_step as int, n)) as u8,
            ..a.ch2.envelope
        }),
        0 <= even_steps(a.frame_seq_step as int, n) <= n,
        0 <= seventh_steps(a.frame_seq_step as int, n) <= n,
    decreases n,
{
    if n > 0 {
        lemma_schedule_ticks(a, (n - 1) as nat);
        let b = a.frame_seq_ticks((n - 1) as nat);
        assert(a.frame_seq_ticks(n) == b.frame_seq_tick_spec());
        vstd::arithmetic::div_mod::lemma_add_mod_noop_right(1, a.frame_seq_step + n - 1, 8);
        assert((b.frame_seq_step + 1) % 8 == (a.frame_seq_step + n) % 8);
    }
}

/// The frame-sequencer schedule: over any eight consecutive 512 Hz ticks
/// of a powered APU, the length counters are clocked four times (256 Hz)
/// and the envelopes once (64 Hz), and the sequencer returns to the same
/// step.
pub proof fn law_frame_sequencer_schedule(a: ApuView)
    requires
        a.master_enable,
        a.frame_seq_step < 8,
        a.ch2.length.enabled,
        a.ch2.length.counter >= 8,
        a.ch2.envelope.period == 1,
        a.ch2.envelope.timer == 1,
        !a.ch2.envelope.direction_up,
        8 <= a.ch2.envelope.volume <= 15,
    ensures
        a.frame_seq_ticks(8).ch2.length.counter == a.ch2.length.counter - 4,
        a.frame_seq_ticks(8).ch2.envelope.volume == a.ch2.envelope.volume - 1,
        a.frame_seq_ticks(8).frame_seq_step == a.frame_seq_step,
{
    lemma_schedule_ticks(a, 8);
    reveal_with_fuel(even_steps, 9);
    reveal_with_fuel(seventh_steps, 9);
    let s = a.frame_seq_step as int;
    assert(even_steps(s, 8) == 4 && seventh_steps(s, 8) == 1) by {
        assert(s == 0 || s == 1 || s == 2 || s == 3 || s == 4 || s == 5 || s == 6 || s == 7);
    }
}

} // verus!
