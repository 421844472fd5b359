//! The whole machine: the CPU on the MMU bus, stepped in lockstep with
//! the timer and the PPU, and the two run loops that the front-ends use.

use vstd::prelude::*;
use crate::cpu::{Cpu, CpuState, can_step, step_spec, read8, lemma_step_cycles};
use crate::cpu::registers::Registers;
use crate::cpu::ImeState;
use crate::memory::{Mmu, MmuView};
use crate::memory::cartridge::{CartridgeView, ram_size_spec, header_byte, mapper_for};
use crate::ppu::PpuView;

verus! {

/// The cycle budget of one `run_frame`: a little under three frames, so a
/// program that has turned the LCD off still hands control back.
pub const FRAME_CYCLE_LIMIT: u64 = 200000;

/// Steps run after a serial test ROM has reported its verdict, so that
/// the rest of its message reaches the serial buffer.
pub const DRAIN_STEPS: u32 = 2000;

/// The largest cycle budget `run_blargg` takes: the budget plus the last
/// step and the drain steps must fit in a `u64`.
pub const MAX_BLARGG_CYCLES: u64 = 0xFFFF_FFFF_FFFF_0000;

/// The next step would execute an opcode the CPU does not implement.
#[derive(Debug, Clone, Copy, PartialEq, Eq, Structural)]
pub struct UnimplementedOpcode {
    pub opcode: u8,
    /// The address the opcode was fetched from.
    pub pc: u16,
}

pub struct Emulator {
    pub cpu: Cpu<Mmu>,
}

/// The opcode at PC, as the refusal to step reports it.
pub open spec fn unimplemented_at(s: CpuState<MmuView>) -> UnimplementedOpcode {
    UnimplementedOpcode { opcode: read8::<Mmu>(s, s.regs.pc), pc: s.regs.pc }
}

/// One machine step: a CPU step, then the devices ticked by the cycles it
/// took.
#[verifier::opaque]
pub open spec fn emu_step_spec(s: CpuState<MmuView>) -> (CpuState<MmuView>, u32) {
    let (s1, c) = step_spec::<Mmu>(s);
    (CpuState { bus: s1.bus.tick_spec(c), ..s1 }, c)
}

/// A machine step that can run takes between 4 and 24 T-cycles.
pub proof fn lemma_emu_step_cycles(s: CpuState<MmuView>)
    requires
        can_step::<Mmu>(s),
    ensures
        4 <= emu_step_spec(s).1 <= 24,
{
    reveal(emu_step_spec);
    lemma_step_cycles::<Mmu>(s);
}

/// The bus with the PPU's frame-ready flag cleared.
pub open spec fn clear_frame_ready(s: CpuState<MmuView>) -> CpuState<MmuView> {
    CpuState { bus: MmuView { ppu: PpuView { frame_ready: false, ..s.bus.ppu }, ..s.bus }, ..s }
}

/// The progress of `run_frame`: the T-cycles spent, and whether it is over.
#[derive(Debug, Clone, Copy, PartialEq, Eq, Structural)]
pub struct FrameRun {
    pub total: u64,
    pub done: bool,
}

impl FrameRun {
    pub open spec fn needs_step(self) -> bool {
        !self.done && self.total < FRAME_CYCLE_LIMIT
    }

    /// A fresh run: nothing spent yet.
    pub fn start() -> (r: FrameRun)
        ensures
            r == (FrameRun { total: 0, done: false }),
    {
        FrameRun { total: 0, done: false }
    }

    /// Whether the next iteration executes a machine step.
    pub fn steps_next(&self) -> (r: bool)
        ensures
            r == self.needs_step(),
    {
        !self.done && self.total < FRAME_CYCLE_LIMIT
    }
}

/// One iteration of `run_frame`: stop at the budget; otherwise step, and
/// stop (clearing the flag) once the PPU has a frame ready.
pub open spec fn frame_step_spec(s: CpuState<MmuView>, r: FrameRun) -> (CpuState<MmuView>, FrameRun) {
    if r.done {
        (s, r)
    } else if r.total >= FRAME_CYCLE_LIMIT {
        (s, FrameRun { done: true, ..r })
    } else {
        let (s1, c) = emu_step_spec(s);
        let t = (r.total + c) as u64;
        if s1.bus.ppu.frame_ready {
            (clear_frame_ready(s1), FrameRun { total: t, done: true })
        } else {
            (s1, FrameRun { total: t, done: false })
        }
    }
}

/// `run_frame` from a given point: the final state, and the cycles spent
/// or the opcode that stopped it.
pub open spec fn frame_run_spec(s: CpuState<MmuView>, r: FrameRun) -> (
    CpuState<MmuView>,
    Result<u64, UnimplementedOpcode>,
)
    decreases
            (if r.done {
                0int
            } else {
                1int
            }),
            (if r.total < FRAME_CYCLE_LIMIT {
                FRAME_CYCLE_LIMIT - r.total
            } else {
                0int
            }),
{
    if r.done {
        (s, Ok(r.total))
    } else if r.needs_step() && !can_step::<Mmu>(s) {
        (s, Err(unimplemented_at(s)))
    } else {
        proof {
            if r.needs_step() {
                lemma_emu_step_cycles(s);
            }
        }
        let (s1, r1) = frame_step_spec(s, r);
        frame_run_spec(s1, r1)
    }
}

/// Where `run_blargg` is: looking for a verdict, running the drain steps
/// after it, or finished.
#[derive(Debug, Clone, Copy, PartialEq, Eq, Structural)]
pub enum BlarggPhase {
    Searching,
    Draining { steps_left: u32 },
    Finished,
}

/// The progress of `run_blargg`.
#[derive(Debug, Clone, Copy, PartialEq, Eq, Structural)]
pub struct BlarggRun {
    pub total: u64,
    pub max_cycles: u64,
    pub phase: BlarggPhase,
}

/// `needle` occurs in `hay` as a contiguous run.
pub open spec fn contains_run(hay: Seq<u8>, needle: Seq<u8>) -> bool {
    exists|i: int| 0 <= i && i + needle.len() <= hay.len() && #[trigger] hay.subrange(i, i + needle.len()) == needle
}

/// The serial output holds "Passed" or "Failed".
pub open spec fn reports_verdict(serial: Seq<u8>) -> bool {
    contains_run(serial, seq![0x50u8, 0x61, 0x73, 0x73, 0x65, 0x64])
        || contains_run(serial, seq![0x46u8, 0x61, 0x69, 0x6C, 0x65, 0x64])
}

impl BlarggRun {
    pub open spec fn start_spec(max_cycles: u64) -> BlarggRun {
        BlarggRun { total: 0, max_cycles, phase: BlarggPhase::Searching }
    }

    /// A fresh run with the given cycle budget.
    pub fn start(max_cycles: u64) -> (r: BlarggRun)
        ensures
            r == BlarggRun::start_spec(max_cycles),
    {
        BlarggRun { total: 0, max_cycles, phase: BlarggPhase::Searching }
    }

    /// Whether the next iteration executes a machine step.
    pub fn steps_next(&self) -> (r: bool)
        ensures
            r == self.needs_step(),
    {
        match self.phase {
            BlarggPhase::Searching => self.total < self.max_cycles,
            BlarggPhase::Draining { steps_left } => steps_left > 0,
            BlarggPhase::Finished => false,
        }
    }

    /// Whether the run is over.
    pub fn is_finished(&self) -> (r: bool)
        ensures
            r == (self.phase is Finished),
    {
        matches!(self.phase, BlarggPhase::Finished)
    }

    pub open spec fn needs_step(self) -> bool {
        match self.phase {
            BlarggPhase::Searching => self.total < self.max_cycles,
            BlarggPhase::Draining { steps_left } => steps_left > 0,
            BlarggPhase::Finished => false,
        }
    }

    /// The totals cannot overflow: the budget leaves room for the last
    /// step and the drain steps.
    pub open spec fn wf(self) -> bool {
        &&& self.max_cycles <= MAX_BLARGG_CYCLES
        &&& match self.phase {
            BlarggPhase::Searching => self.total < self.max_cycles + 24,
            BlarggPhase::Draining { steps_left } => steps_left <= DRAIN_STEPS && self.total + 24
                * steps_left <= self.max_cycles + 24 + 24 * DRAIN_STEPS,
            BlarggPhase::Finished => true,
        }
    }

    pub open spec fn rank(self) -> int {
        match self.phase {
            BlarggPhase::Searching => 2,
            BlarggPhase::Draining { .. } => 1,
            BlarggPhase::Finished => 0,
        }
    }

    pub open spec fn budget_left(self) -> int {
        match self.phase {
            BlarggPhase::Searching => if self.total < self.max_cycles {
                self.max_cycles - self.total
            } else {
                0
            },
            _ => 0,
        }
    }

    pub open spec fn drain_left(self) -> int {
        match self.phase {
            BlarggPhase::Draining { steps_left } => steps_left as int,
            _ => 0,
        }
    }
}

/// One iteration of `run_blargg`. While searching: stop at the budget,
/// else step and switch to draining once the serial output holds a
/// verdict. While draining: step until the drain steps are used up.
pub open spec fn blargg_step_spec(s: CpuState<MmuView>, r: BlarggRun) -> (CpuState<MmuView>, BlarggRun) {
    match r.phase {
        BlarggPhase::Finished => (s, r),
        BlarggPhase::Searching => {
            if r.total >= r.max_cycles {
                (s, BlarggRun { phase: BlarggPhase::Finished, ..r })
            } else {
                let (s1, c) = emu_step_spec(s);
                let t = (r.total + c) as u64;
                if reports_verdict(s1.bus.serial) {
                    (
                        s1,
                        BlarggRun {
                            total: t,
                            phase: BlarggPhase::Draining { steps_left: DRAIN_STEPS },
                            ..r
                        },
                    )
                } else {
                    (s1, BlarggRun { total: t, ..r })
                }
            }
        },
        BlarggPhase::Draining { steps_left } => {
            if steps_left == 0 {
                (s, BlarggRun { phase: BlarggPhase::Finished, ..r })
            } else {
                let (s1, c) = emu_step_spec(s);
                (
                    s1,
                    BlarggRun {
                        total: (r.total + c) as u64,
                        phase: BlarggPhase::Draining { steps_left: (steps_left - 1) as u32 },
                        ..r
                    },
                )
            }
        },
    }
}

/// `run_blargg` from a given point: the final state, and the cycles spent
/// or the opcode that stopped it.
pub open spec fn blargg_run_spec(s: CpuState<MmuView>, r: BlarggRun) -> (
    CpuState<MmuView>,
    Result<u64, UnimplementedOpcode>,
)
    decreases r.rank(), r.budget_left(), r.drain_left(),
        when r.wf()
{
    if r.phase is Finished {
        (s, Ok(r.total))
    } else if r.needs_step() && !can_step::<Mmu>(s) {
        (s, Err(unimplemented_at(s)))
    } else {
        proof {
            if r.needs_step() {
                lemma_emu_step_cycles(s);
            }
        }
        let (s1, r1) = blargg_step_spec(s, r);
        blargg_run_spec(s1, r1)
    }
}

/// Whether `needle` occurs in `hay`.
pub fn contains_bytes(hay: &[u8], needle: &[u8]) -> (r: bool)
    ensures
        r == contains_run(hay@, needle@),
{
    if needle.len() == 0 {
        assert(hay@.subrange(0, 0int + needle@.len()) =~= needle@);
        return true;
    }
    if needle.len() > hay.len() {
        return false;
    }
    let last = hay.len() - needle.len();
    let mut i: usize = 0;
    while i <= last
        invariant
            0 < needle@.len() <= hay@.len(),
            hay@.len() == hay.len(),
            last == hay@.len() - needle@.len(),
            i <= last + 1,
            forall|k: int| 0 <= k < i ==> #[trigger] hay@.subrange(k, k + needle@.len()) != needle@,
        decreases last + 1 - i,
    {
        let mut j: usize = 0;
        let mut same = true;
        while j < needle.len()
            invariant
                0 < needle@.len() <= hay@.len(),
                hay@.len() == hay.len(),
                needle@.len() == needle.len(),
                i <= last,
                last == hay@.len() - needle@.len(),
                j <= needle@.len(),
                same <==> forall|m: int| 0 <= m < j ==> hay@[i + m] == needle@[m],
            decreases needle@.len() - j,
        {
            if hay[i + j] != needle[j] {
                same = false;
            }
            j = j + 1;
        }
        if same {
            assert(hay@.subrange(i as int, i + needle@.len()) =~= needle@);
            return true;
        }
        proof {
            let m = choose|m: int| 0 <= m < needle@.len() && hay@[i + m] != needle@[m];
            assert(hay@.subrange(i as int, i + needle@.len())[m] != needle@[m]);
        }
        i = i + 1;
    }
    false
}

impl Emulator {
    /// The machine right after the boot ROM, with the cartridge built
    /// from `rom` inserted.
    pub fn new(rom: &[u8]) -> (e: Self)
        ensures
            e.cpu@ == (CpuState {
                regs: Registers::post_boot(),
                bus: MmuView {
                    cart: CartridgeView {
                        rom: rom@,
                        ram: Seq::new(ram_size_spec(header_byte(rom@, 0x0149)), |i: int| 0u8),
                        mapper: mapper_for(header_byte(rom@, 0x0147)).0,
                        has_battery: mapper_for(header_byte(rom@, 0x0147)).1,
                    },
                    ..MmuView::initial()
                },
                halted: false,
                ime: false,
                ime_state: ImeState::Disabled,
                trace: false,
            }),
            e.cpu.bus@.wf(),
    {
        let mut mmu = Mmu::new();
        mmu.load_rom(rom);
        Self { cpu: Cpu::new(mmu) }
    }

    /// One CPU step plus the lockstep tick of the timer and the PPU. The
    /// T-cycles it took.
    #[verifier::rlimit(100)]
    #[verifier::spinoff_prover]
    pub fn step(&mut self) -> (cycles: u32)
        requires
            can_step::<Mmu>(old(self).cpu@),
            old(self).cpu.bus@.wf(),
        ensures
            (final(self).cpu@, cycles) == emu_step_spec(old(self).cpu@),
            4 <= cycles <= 24,
            final(self).cpu.bus@.wf(),
    {
        proof {
            reveal(emu_step_spec);
            lemma_step_cycles::<Mmu>(self.cpu@);
        }
        let cycles = self.cpu.step();
        self.cpu.bus.tick(cycles);
        cycles
    }

    /// `step`, or the opcode that keeps it from running (nothing changes
    /// then).
    pub fn try_step(&mut self) -> (r: Result<u32, UnimplementedOpcode>)
        requires
            old(self).cpu.bus@.wf(),
        ensures
            r is Err <==> !can_step::<Mmu>(old(self).cpu@),
            r matches Err(e) ==> e == unimplemented_at(old(self).cpu@) && final(self).cpu@ == old(
                self,
            ).cpu@,
            r matches Ok(c) ==> (final(self).cpu@, c) == emu_step_spec(old(self).cpu@) && 4 <= c
                <= 24,
            final(self).cpu.bus@.wf(),
    {
        match self.cpu.next_unimplemented() {
            Some(opcode) => Err(UnimplementedOpcode { opcode, pc: self.cpu.regs.pc }),
            None => Ok(self.step()),
        }
    }

    /// One iteration of `run_frame` (see `frame_step_spec`).
    pub fn frame_step(&mut self, run: &mut FrameRun) -> (r: Result<(), UnimplementedOpcode>)
        requires
            old(self).cpu.bus@.wf(),
        ensures
            r is Err <==> old(run).needs_step() && !can_step::<Mmu>(old(self).cpu@),
            r matches Err(e) ==> e == unimplemented_at(old(self).cpu@) && final(self).cpu@ == old(
                self,
            ).cpu@ && *final(run) == *old(run),
            r is Ok ==> (final(self).cpu@, *final(run)) == frame_step_spec(old(self).cpu@, *old(run)),
            final(self).cpu.bus@.wf(),
    {
        if run.done {
            return Ok(());
        }
        if run.total >= FRAME_CYCLE_LIMIT {
            run.done = true;
            return Ok(());
        }
        let cycles = match self.try_step() {
            Ok(c) => c,
            Err(e) => return Err(e),
        };
        run.total = run.total + cycles as u64;
        if self.cpu.bus.ppu.frame_ready {
            self.cpu.bus.ppu.frame_ready = false;
            run.done = true;
        }
        Ok(())
    }

    /// Run until the PPU signals that a frame is ready (it just entered
    /// VBlank), or until the cycle budget is spent. Clears the flag and
    /// returns the T-cycles spent.
    pub fn run_frame(&mut self) -> (r: Result<u64, UnimplementedOpcode>)
        requires
            old(self).cpu.bus@.wf(),
        ensures
            (final(self).cpu@, r) == frame_run_spec(old(self).cpu@, FrameRun { total: 0, done: false }),
            final(self).cpu.bus@.wf(),
    {
        let mut run = FrameRun::start();
        while !run.done
            invariant
                self.cpu.bus@.wf(),
                frame_run_spec(self.cpu@, run) == frame_run_spec(
                    old(self).cpu@,
                    FrameRun { total: 0, done: false },
                ),
            decreases
                    (if run.done {
                        0int
                    } else {
                        1int
                    }),
                    (if run.total < FRAME_CYCLE_LIMIT {
                        FRAME_CYCLE_LIMIT - run.total
                    } else {
                        0int
                    }),
        {
            let ghost s0 = self.cpu@;
            let ghost r0 = run;
            proof {
                if r0.needs_step() && can_step::<Mmu>(s0) {
                    lemma_emu_step_cycles(s0);
                }
            }
            if let Err(e) = self.frame_step(&mut run) {
                return Err(e);
            }
        }
        Ok(run.total)
    }

    /// One iteration of `run_blargg` (see `blargg_step_spec`).
    pub fn blargg_step(&mut self, run: &mut BlarggRun) -> (r: Result<(), UnimplementedOpcode>)
        requires
            old(self).cpu.bus@.wf(),
            old(run).wf(),
        ensures
            r is Err <==> old(run).needs_step() && !can_step::<Mmu>(old(self).cpu@),
            r matches Err(e) ==> e == unimplemented_at(old(self).cpu@) && final(self).cpu@ == old(
                self,
            ).cpu@ && *final(run) == *old(run),
            r is Ok ==> (final(self).cpu@, *final(run)) == blargg_step_spec(
                old(self).cpu@,
                *old(run),
            ),
            final(self).cpu.bus@.wf(),
            final(run).wf(),
    {
        match run.phase {
            BlarggPhase::Finished => Ok(()),
            BlarggPhase::Searching => {
                if run.total >= run.max_cycles {
                    run.phase = BlarggPhase::Finished;
                    return Ok(());
                }
                let cycles = match self.try_step() {
            Ok(c) => c,
            Err(e) => return Err(e),
        };
                run.total = run.total + cycles as u64;
                if self.serial_reports_verdict() {
                    run.phase = BlarggPhase::Draining { steps_left: DRAIN_STEPS };
                }
                Ok(())
            },
            BlarggPhase::Draining { steps_left } => {
                if steps_left == 0 {
                    run.phase = BlarggPhase::Finished;
                    return Ok(());
                }
                let cycles = match self.try_step() {
            Ok(c) => c,
            Err(e) => return Err(e),
        };
                run.total = run.total + cycles as u64;
                run.phase = BlarggPhase::Draining { steps_left: steps_left - 1 };
                Ok(())
            },
        }
    }

    /// Whether the serial output holds "Passed" or "Failed".
    pub fn serial_reports_verdict(&self) -> (r: bool)
        ensures
            r == reports_verdict(self.cpu.bus@.serial),
    {
        let passed: [u8; 6] = [0x50, 0x61, 0x73, 0x73, 0x65, 0x64];
        let failed: [u8; 6] = [0x46, 0x61, 0x69, 0x6C, 0x65, 0x64];
        assert(passed@ =~= seq![0x50u8, 0x61, 0x73, 0x73, 0x65, 0x64]);
        assert(failed@ =~= seq![0x46u8, 0x61, 0x69, 0x6C, 0x65, 0x64]);
        let buf = self.cpu.bus.serial_buffer.as_slice();
        contains_bytes(buf, &passed) || contains_bytes(buf, &failed)
    }

    /// Headless run for serial-reporting test ROMs: run until `max_cycles`
    /// T-cycles are spent, or until the serial output holds "Passed" or
    /// "Failed", then run a further `DRAIN_STEPS` steps. Returns the
    /// T-cycles spent.
    pub fn run_blargg(&mut self, max_cycles: u64) -> (r: Result<u64, UnimplementedOpcode>)
        requires
            old(self).cpu.bus@.wf(),
            max_cycles <= MAX_BLARGG_CYCLES,
        ensures
            (final(self).cpu@, r) == blargg_run_spec(old(self).cpu@, BlarggRun::start_spec(max_cycles)),
            final(self).cpu.bus@.wf(),
    {
        let mut run = BlarggRun::start(max_cycles);
        while !run.is_finished()
            invariant
                self.cpu.bus@.wf(),
                run.wf(),
                blargg_run_spec(self.cpu@, run) == blargg_run_spec(
                    old(self).cpu@,
                    BlarggRun::start_spec(max_cycles),
                ),
            decreases run.rank(), run.budget_left(), run.drain_left(),
        {
            let ghost s0 = self.cpu@;
            let ghost r0 = run;
            proof {
                if r0.needs_step() && can_step::<Mmu>(s0) {
                    lemma_emu_step_cycles(s0);
                }
            }
            if let Err(e) = self.blargg_step(&mut run) {
                return Err(e);
            }
        }
        Ok(run.total)
    }

    /// True if the inserted cartridge declares itself battery-backed.
    pub fn has_battery(&self) -> (r: bool)
        ensures
            r == self.cpu.bus@.cart.has_battery,
    {
        self.cpu.bus.cart.has_battery
    }

    /// What a save file should hold: the cartridge RAM, when the cartridge
    /// is battery-backed and has RAM; `None` when there is nothing to save.
    pub fn save_payload(&self) -> (r: Option<Vec<u8>>)
        ensures
            r is Some <==> self.cpu.bus@.cart.has_battery && self.cpu.bus@.cart.ram.len() > 0,
            r matches Some(v) ==> v@ == self.cpu.bus@.cart.ram,
    {
        if !self.has_battery() {
            return None;
        }
        let ram = self.cpu.bus.cart.ram();
        if ram.len() == 0 {
            return None;
        }
        Some(vstd::slice::slice_to_vec(ram))
    }
}

proof fn lemma_frame_run_invariant(s: CpuState<MmuView>, r: FrameRun)
    requires
        (r.total > 0 || r.done) ==> !s.bus.ppu.frame_ready,
        r.total < FRAME_CYCLE_LIMIT + 24,
    ensures
        frame_run_spec(s, r).1 matches Ok(t) ==> !frame_run_spec(s, r).0.bus.ppu.frame_ready && t
            < FRAME_CYCLE_LIMIT + 24,
    decreases
            (if r.done {
                0int
            } else {
                1int
            }),
            (if r.total < FRAME_CYCLE_LIMIT {
                FRAME_CYCLE_LIMIT - r.total
            } else {
                0int
            }),
{
    if r.done {
    } else if r.needs_step() && !can_step::<Mmu>(s) {
    } else {
        if r.needs_step() {
            lemma_emu_step_cycles(s);
        }
        let (s1, r1) = frame_step_spec(s, r);
        lemma_frame_run_invariant(s1, r1);
    }
}

/// `run_frame` ends with the frame-ready flag clear, having spent less
/// than its cycle budget plus one instruction.
pub proof fn law_run_frame_clears_frame_ready(s: CpuState<MmuView>)
    ensures
        frame_run_spec(s, FrameRun { total: 0, done: false }).1 matches Ok(t) ==> !frame_run_spec(
            s,
            FrameRun { total: 0, done: false },
        ).0.bus.ppu.frame_ready && t < FRAME_CYCLE_LIMIT + 24,
{
    lemma_frame_run_invariant(s, FrameRun { total: 0, done: false });
}

} // verus!
