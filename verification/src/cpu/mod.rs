//! The Sharp LR35902 CPU core.

pub mod registers;
pub mod alu;
pub mod execute;
pub mod execute_cb;
pub mod interrupts;

use vstd::prelude::*;
use crate::bits::{word, hi_byte, lo_byte};
use crate::memory::{Bus, MockBus};
use registers::Registers;
use execute::{exec_spec, is_implemented, jr_target};
use interrupts::{interrupt_fires, pending_bits, service_spec};

verus! {

/// IME, including the one-instruction delay that EI has.
#[derive(Debug, Clone, Copy, PartialEq, Eq, Structural)]
pub enum ImeState {
    Disabled,
    EnablePending,
    Enabled,
}

pub struct Cpu<B: Bus> {
    pub regs: Registers,
    pub bus: B,
    pub halted: bool,
    pub ime: bool,
    pub ime_state: ImeState,
    /// Requests a trace line before each fetch (printed by the front-end).
    pub trace: bool,
}

/// What a trace line shows before an instruction is fetched: the
/// registers and the four bytes at PC.
#[derive(Debug, Clone, Copy)]
pub struct TraceRecord {
    pub regs: Registers,
    pub pcmem: [u8; 4],
}

/// The mathematical state of a CPU: its registers and the model of its bus.
pub struct CpuState<M> {
    pub regs: Registers,
    pub bus: M,
    pub halted: bool,
    pub ime: bool,
    pub ime_state: ImeState,
    pub trace: bool,
}

impl<B: Bus> View for Cpu<B> {
    type V = CpuState<B::V>;

    open spec fn view(&self) -> CpuState<B::V> {
        CpuState {
            regs: self.regs,
            bus: self.bus@,
            halted: self.halted,
            ime: self.ime,
            ime_state: self.ime_state,
            trace: self.trace,
        }
    }
}

impl<M> CpuState<M> {
    pub open spec fn with_regs(self, r: Registers) -> CpuState<M> {
        CpuState { regs: r, ..self }
    }

    pub open spec fn with_pc(self, pc: u16) -> CpuState<M> {
        CpuState { regs: Registers { pc: pc, ..self.regs }, ..self }
    }

    pub open spec fn with_sp(self, sp: u16) -> CpuState<M> {
        CpuState { regs: Registers { sp: sp, ..self.regs }, ..self }
    }
}

/// The bus invariant carries over from `a` to `b`.
pub open spec fn keeps_inv<B: Bus>(a: CpuState<B::V>, b: CpuState<B::V>) -> bool {
    B::inv(a.bus) ==> B::inv(b.bus)
}

pub open spec fn read8<B: Bus>(s: CpuState<B::V>, addr: u16) -> u8 {
    B::read_spec(s.bus, addr)
}

pub open spec fn write8<B: Bus>(s: CpuState<B::V>, addr: u16, v: u8) -> CpuState<B::V> {
    CpuState { bus: B::write_spec(s.bus, addr, v), ..s }
}

/// Little-endian word at `addr`.
pub open spec fn read16<B: Bus>(s: CpuState<B::V>, addr: u16) -> u16 {
    word(read8::<B>(s, addr.wrapping_add(1)), read8::<B>(s, addr))
}

/// Little-endian word write, low byte first.
pub open spec fn write16<B: Bus>(s: CpuState<B::V>, addr: u16, v: u16) -> CpuState<B::V> {
    write8::<B>(write8::<B>(s, addr, lo_byte(v)), addr.wrapping_add(1), hi_byte(v))
}

/// The byte at PC, and the state with PC moved past it.
pub open spec fn fetch8<B: Bus>(s: CpuState<B::V>) -> (u8, CpuState<B::V>) {
    (read8::<B>(s, s.regs.pc), s.with_pc(s.regs.pc.wrapping_add(1)))
}

/// The little-endian word at PC, and the state with PC moved past it.
pub open spec fn fetch16<B: Bus>(s: CpuState<B::V>) -> (u16, CpuState<B::V>) {
    let (lo, s1) = fetch8::<B>(s);
    let (hi, s2) = fetch8::<B>(s1);
    (word(hi, lo), s2)
}

/// SP moves down by two and the word is stored at the new SP.
pub open spec fn push16<B: Bus>(s: CpuState<B::V>, v: u16) -> CpuState<B::V> {
    let sp = s.regs.sp.wrapping_sub(2);
    write16::<B>(s.with_sp(sp), sp, v)
}

/// The word at SP, and the state with SP moved up by two.
pub open spec fn pop16<B: Bus>(s: CpuState<B::V>) -> (u16, CpuState<B::V>) {
    (read16::<B>(s, s.regs.sp), s.with_sp(s.regs.sp.wrapping_add(2)))
}

/// One CPU step: an interrupt dispatch, a HALT idle cycle, or one
/// instruction (after which a pending EI takes effect). The state and the
/// T-cycles taken.
pub open spec fn step_spec<B: Bus>(s: CpuState<B::V>) -> (CpuState<B::V>, u32) {
    if interrupt_fires::<B>(s) {
        (service_spec::<B>(s), 20)
    } else if s.halted {
        (if pending_bits::<B>(s) != 0 { CpuState { halted: false, ..s } } else { s }, 4)
    } else {
        let about_to_enable = s.ime_state == ImeState::EnablePending;
        let (op, s1) = fetch8::<B>(s);
        let (s2, c) = exec_spec::<B>(s1, op);
        (
            if about_to_enable {
                CpuState { ime: true, ime_state: ImeState::Enabled, ..s2 }
            } else {
                s2
            },
            c,
        )
    }
}

/// The next step does not run into an unimplemented opcode.
pub open spec fn can_step<B: Bus>(s: CpuState<B::V>) -> bool {
    !interrupt_fires::<B>(s) && !s.halted ==> is_implemented(read8::<B>(s, s.regs.pc))
}

/// Every implemented instruction takes between 4 and 24 T-cycles.
pub proof fn lemma_exec_cycles<B: Bus>(s: CpuState<B::V>, op: u8)
    requires
        is_implemented(op),
    ensures
        4 <= exec_spec::<B>(s, op).1 <= 24,
{
    let (cb, s1) = fetch8::<B>(s);
    assert(4 <= crate::cpu::execute_cb::cb_spec::<B>(s1, cb).1 <= 24);
}

/// A step that can run takes between 4 and 24 T-cycles.
pub proof fn lemma_step_cycles<B: Bus>(s: CpuState<B::V>)
    requires
        can_step::<B>(s),
    ensures
        4 <= step_spec::<B>(s).1 <= 24,
{
    if !interrupt_fires::<B>(s) && !s.halted {
        let (op, s1) = fetch8::<B>(s);
        lemma_exec_cycles::<B>(s1, op);
    }
}

impl<B: Bus> Cpu<B> {
    pub fn new(bus: B) -> (r: Self)
        ensures
            r@ == (CpuState {
                regs: Registers::post_boot(),
                bus: bus@,
                halted: false,
                ime: false,
                ime_state: ImeState::Disabled,
                trace: false,
            }),
    {
        Self {
            regs: Registers::new(),
            bus,
            halted: false,
            ime: false,
            ime_state: ImeState::Disabled,
            trace: false,
        }
    }

    pub fn fetch_byte(&mut self) -> (b: u8)
        ensures
            (b, final(self)@) == fetch8::<B>(old(self)@),
    {
        let b = self.bus.read(self.regs.pc);
        self.regs.pc = self.regs.pc.wrapping_add(1);
        b
    }

    pub fn fetch_word(&mut self) -> (w: u16)
        ensures
            (w, final(self)@) == fetch16::<B>(old(self)@),
    {
        let lo = self.fetch_byte() as u16;
        let hi = self.fetch_byte() as u16;
        proof {
            crate::bits::lemma_word_bits();
        }
        (hi << 8) | lo
    }

    /// Whether the next step would run into an unimplemented opcode; if
    /// so, that opcode.
    pub fn next_unimplemented(&self) -> (r: Option<u8>)
        ensures
            r is None <==> can_step::<B>(self@),
            r matches Some(op) ==> op == read8::<B>(self@, self.regs.pc) && !is_implemented(op),
    {
        if self.ime {
            let pending = self.bus.read(0xFF0F) & self.bus.read(0xFFFF) & 0x1F;
            if pending != 0 {
                return None;
            }
        }
        if self.halted {
            return None;
        }
        let op = self.bus.read(self.regs.pc);
        if op == 0xD3 || op == 0xDB || op == 0xDD || op == 0xE3 || op == 0xE4 || op == 0xEB || op
            == 0xEC || op == 0xED || op == 0xF4 || op == 0xFC || op == 0xFD {
            Some(op)
        } else {
            None
        }
    }

    /// The trace line due before the next step, if tracing is on and the
    /// next step fetches an instruction (no interrupt fires, not halted).
    pub fn trace_record(&self) -> (r: Option<TraceRecord>)
        ensures
            r is Some <==> self.trace && !interrupt_fires::<B>(self@) && !self.halted,
            r matches Some(t) ==> t.regs == self.regs && t.pcmem@ == seq![
                read8::<B>(self@, self.regs.pc),
                read8::<B>(self@, self.regs.pc.wrapping_add(1)),
                read8::<B>(self@, self.regs.pc.wrapping_add(2)),
                read8::<B>(self@, self.regs.pc.wrapping_add(3)),
            ],
    {
        if !self.trace || self.halted {
            return None;
        }
        if self.ime {
            let pending = self.bus.read(0xFF0F) & self.bus.read(0xFFFF) & 0x1F;
            if pending != 0 {
                return None;
            }
        }
        let pc = self.regs.pc;
        let pcmem: [u8; 4] = [
            self.bus.read(pc),
            self.bus.read(pc.wrapping_add(1)),
            self.bus.read(pc.wrapping_add(2)),
            self.bus.read(pc.wrapping_add(3)),
        ];
        assert(pcmem@ =~= seq![
            read8::<B>(self@, pc),
            read8::<B>(self@, pc.wrapping_add(1)),
            read8::<B>(self@, pc.wrapping_add(2)),
            read8::<B>(self@, pc.wrapping_add(3)),
        ]);
        Some(TraceRecord { regs: self.regs, pcmem })
    }

    pub fn step(&mut self) -> (cycles: u32)
        requires
            can_step::<B>(old(self)@),
        ensures
            (final(self)@, cycles) == step_spec::<B>(old(self)@),
            keeps_inv::<B>(old(self)@, final(self)@),
    {
        if let Some(cycles) = self.service_interrupt() {
            return cycles;
        }
        if self.halted {
            let pending = self.bus.read(0xFF0F) & self.bus.read(0xFFFF) & 0x1F;
            if pending != 0 {
                self.halted = false;
            }
            return 4;
        }
        let about_to_enable = self.ime_state == ImeState::EnablePending;
        let opcode = self.fetch_byte();
        let cycles = self.execute(opcode);
        if about_to_enable {
            self.ime = true;
            self.ime_state = ImeState::Enabled;
        }
        cycles
    }
}

/// On the flat RAM bus, a pushed word pops back, and SP returns to where
/// it was.
pub proof fn law_push_pop_roundtrip(s: CpuState<Seq<u8>>, v: u16)
    requires
        s.bus.len() == 0x10000,
    ensures
        pop16::<MockBus>(push16::<MockBus>(s, v)).0 == v,
        pop16::<MockBus>(push16::<MockBus>(s, v)).1.regs == s.regs,
{
    let sp = s.regs.sp.wrapping_sub(2);
    assert(sp.wrapping_add(1) != sp);
    assert(sp.wrapping_add(2) == s.regs.sp);
    crate::bits::lemma_word_roundtrip(v, 0, 0);
}

/// EI takes effect one instruction late: right after it IME is still
/// off (an enable is pending), and the step after that turns IME on.
pub proof fn law_ei_delay<B: Bus>(s: CpuState<B::V>)
    requires
        !s.ime,
        s.ime_state == ImeState::Disabled,
        !s.halted,
        read8::<B>(s, s.regs.pc) == 0xFB,
    ensures
        !step_spec::<B>(s).0.ime,
        step_spec::<B>(s).0.ime_state == ImeState::EnablePending,
        !step_spec::<B>(s).0.halted,
        step_spec::<B>(step_spec::<B>(s).0).0.ime,
{
    let (op, s1) = fetch8::<B>(s);
    assert(exec_spec::<B>(s1, op).0 == CpuState { ime_state: ImeState::EnablePending, ..s1 });
    let t = step_spec::<B>(s).0;
    let (op2, t1) = fetch8::<B>(t);
    assert(!interrupt_fires::<B>(t));
}

/// A halted CPU with IME off wakes as soon as an interrupt is pending,
/// without dispatching it; PC does not move while halted.
pub proof fn law_halt_wakes_on_pending<B: Bus>(s: CpuState<B::V>)
    requires
        s.halted,
        !s.ime,
    ensures
        step_spec::<B>(s).0.regs == s.regs,
        step_spec::<B>(s).1 == 4,
        step_spec::<B>(s).0.halted == (pending_bits::<B>(s) == 0),
{
}

/// The condition of a conditional JR/JP/CALL/RET, from bits 3..4 of its
/// opcode: NZ, Z, NC, C, tested on F's Z (bit 7) and C (bit 4) flags.
pub open spec fn condition_holds(op: u8, f: u8) -> bool {
    let cc = (op / 8) % 4;
    if cc == 0 {
        f & 0x80 == 0
    } else if cc == 1 {
        f & 0x80 != 0
    } else if cc == 2 {
        f & 0x10 == 0
    } else {
        f & 0x10 != 0
    }
}

/// A step that executes the instruction at PC (no interrupt, not halted).
pub open spec fn executes_at_pc<B: Bus>(s: CpuState<B::V>) -> bool {
    !interrupt_fires::<B>(s) && !s.halted
}

/// The byte `k` bytes after PC.
pub open spec fn byte_after_pc<B: Bus>(s: CpuState<B::V>, k: int) -> u8 {
    read8::<B>(s, ((s.regs.pc + k) % 0x10000) as u16)
}

proof fn lemma_jr_target(p: u16, off: u8)
    ensures
        jr_target(p, off) as int == (p + 0x10000 + (off as i8) as int) % 0x10000,
{
    assert(((p as i16).wrapping_add(off as i8 as i16)) as u16 as int == (p + 0x10000 + (off as i8)
        as int) % 0x10000) by (bit_vector);
}

/// JR cc, e (0x20, 0x28, 0x30, 0x38): when the condition holds PC moves
/// to the address after the instruction plus the signed offset e and the
/// step takes 12 T-cycles; otherwise PC just passes the instruction and
/// the step takes 8. Nothing else changes.
#[verifier::rlimit(100)]
pub proof fn law_jr_conditional<B: Bus>(s: CpuState<B::V>)
    requires
        executes_at_pc::<B>(s),
        read8::<B>(s, s.regs.pc) == 0x20 || read8::<B>(s, s.regs.pc) == 0x28 || read8::<B>(
            s,
            s.regs.pc,
        ) == 0x30 || read8::<B>(s, s.regs.pc) == 0x38,
    ensures
        ({
            let op = read8::<B>(s, s.regs.pc);
            let (t, c) = step_spec::<B>(s);
            let off = byte_after_pc::<B>(s, 1);
            &&& condition_holds(op, s.regs.f) ==> t.regs.pc as int == (s.regs.pc + 2 + 0x10000 + (
            off as i8) as int) % 0x10000 && c == 12
            &&& !condition_holds(op, s.regs.f) ==> t.regs.pc as int == (s.regs.pc + 2) % 0x10000 && c
                == 8
            &&& t.regs.sp == s.regs.sp && t.regs.a == s.regs.a && t.regs.f == s.regs.f
            &&& t.bus == s.bus
        }),
{
    let (op, s1) = fetch8::<B>(s);
    let (off, s2) = fetch8::<B>(s1);
    lemma_jr_target(s2.regs.pc, off);
    let z = s.regs.f & 0x80 != 0;
    let cy = s.regs.f & 0x10 != 0;
    let taken = if op == 0x20 {
        !z
    } else if op == 0x28 {
        z
    } else if op == 0x30 {
        !cy
    } else {
        cy
    };
    assert(exec_spec::<B>(s1, op) == execute::jr_spec::<B>(s1, taken));
    assert(condition_holds(op, s.regs.f) == taken);
}

/// JP cc, nn (0xC2, 0xCA, 0xD2, 0xDA): when the condition holds PC becomes
/// the little-endian word after the opcode (16 T-cycles); otherwise PC
/// passes the three-byte instruction (12 T-cycles).
#[verifier::rlimit(100)]
pub proof fn law_jp_conditional<B: Bus>(s: CpuState<B::V>)
    requires
        executes_at_pc::<B>(s),
        read8::<B>(s, s.regs.pc) == 0xC2 || read8::<B>(s, s.regs.pc) == 0xCA || read8::<B>(
            s,
            s.regs.pc,
        ) == 0xD2 || read8::<B>(s, s.regs.pc) == 0xDA,
    ensures
        ({
            let op = read8::<B>(s, s.regs.pc);
            let (t, c) = step_spec::<B>(s);
            let target = byte_after_pc::<B>(s, 1) + 256 * byte_after_pc::<B>(s, 2);
            &&& condition_holds(op, s.regs.f) ==> t.regs.pc == target && c == 16
            &&& !condition_holds(op, s.regs.f) ==> t.regs.pc as int == (s.regs.pc + 3) % 0x10000 && c
                == 12
            &&& t.regs.sp == s.regs.sp
            &&& t.bus == s.bus
        }),
{
    let (op, s1) = fetch8::<B>(s);
    let z = s.regs.f & 0x80 != 0;
    let cy = s.regs.f & 0x10 != 0;
    let taken = if op == 0xC2 {
        !z
    } else if op == 0xCA {
        z
    } else if op == 0xD2 {
        !cy
    } else {
        cy
    };
    assert(exec_spec::<B>(s1, op) == execute::jp_spec::<B>(s1, taken));
    assert(condition_holds(op, s.regs.f) == taken);
}

/// CALL cc, nn (0xC4, 0xCC, 0xD4, 0xDC): when the condition holds SP
/// drops by two and PC becomes the word after the opcode (24 T-cycles);
/// otherwise PC passes the instruction and SP is kept (12 T-cycles).
#[verifier::rlimit(100)]
pub proof fn law_call_conditional<B: Bus>(s: CpuState<B::V>)
    requires
        executes_at_pc::<B>(s),
        read8::<B>(s, s.regs.pc) == 0xC4 || read8::<B>(s, s.regs.pc) == 0xCC || read8::<B>(
            s,
            s.regs.pc,
        ) == 0xD4 || read8::<B>(s, s.regs.pc) == 0xDC,
    ensures
        ({
            let op = read8::<B>(s, s.regs.pc);
            let (t, c) = step_spec::<B>(s);
            let target = byte_after_pc::<B>(s, 1) + 256 * byte_after_pc::<B>(s, 2);
            &&& condition_holds(op, s.regs.f) ==> t.regs.pc == target && t.regs.sp as int == (
            s.regs.sp + 0x10000 - 2) % 0x10000 && c == 24
            &&& !condition_holds(op, s.regs.f) ==> t.regs.pc as int == (s.regs.pc + 3) % 0x10000
                && t.regs.sp == s.regs.sp && t.bus == s.bus && c == 12
        }),
{
    let (op, s1) = fetch8::<B>(s);
    let z = s.regs.f & 0x80 != 0;
    let cy = s.regs.f & 0x10 != 0;
    let taken = if op == 0xC4 {
        !z
    } else if op == 0xCC {
        z
    } else if op == 0xD4 {
        !cy
    } else {
        cy
    };
    assert(exec_spec::<B>(s1, op) == execute::call_spec::<B>(s1, taken));
    assert(condition_holds(op, s.regs.f) == taken);
}

/// RST n (0xC7, 0xCF, ..., 0xFF): PC jumps to the vector 8 * k for the
/// opcode 0xC7 + 8 * k, SP drops by two for the pushed return address, and
/// the instruction takes 16 T-cycles.
#[verifier::rlimit(100)]
pub proof fn law_rst<B: Bus>(s: CpuState<B::V>)
    requires
        executes_at_pc::<B>(s),
        read8::<B>(s, s.regs.pc) >= 0xC0,
        read8::<B>(s, s.regs.pc) % 8 == 7,
    ensures
        ({
            let op = read8::<B>(s, s.regs.pc);
            let (t, c) = step_spec::<B>(s);
            &&& t.regs.pc == op - 0xC7
            &&& t.regs.sp as int == (s.regs.sp + 0x10000 - 2) % 0x10000
            &&& c == 16
        }),
{
    lemma_step_executes::<B>(s);
    let (op, s1) = fetch8::<B>(s);
    let v = (op - 0xC7) as u16;
    assert(exec_spec::<B>(s1, op) == execute::rst_spec::<B>(s1, v));
}

/// RET cc (0xC0, 0xC8, 0xD0, 0xD8): when the condition holds PC becomes
/// the word at SP and SP rises by two (20 T-cycles); otherwise PC passes
/// the one-byte instruction (8 T-cycles).
#[verifier::rlimit(100)]
pub proof fn law_ret_conditional<B: Bus>(s: CpuState<B::V>)
    requires
        executes_at_pc::<B>(s),
        read8::<B>(s, s.regs.pc) == 0xC0 || read8::<B>(s, s.regs.pc) == 0xC8 || read8::<B>(
            s,
            s.regs.pc,
        ) == 0xD0 || read8::<B>(s, s.regs.pc) == 0xD8,
    ensures
        ({
            let op = read8::<B>(s, s.regs.pc);
            let (t, c) = step_spec::<B>(s);
            let sp = s.regs.sp as int;
            &&& condition_holds(op, s.regs.f) ==> t.regs.pc == read8::<B>(s, sp as u16) + 256
                * read8::<B>(s, ((sp + 1) % 0x10000) as u16) && t.regs.sp as int == (sp + 2)
                % 0x10000 && c == 20
            &&& !condition_holds(op, s.regs.f) ==> t.regs.pc as int == (s.regs.pc + 1) % 0x10000
                && t.regs.sp == s.regs.sp && c == 8
            &&& t.bus == s.bus
        }),
{
    let (op, s1) = fetch8::<B>(s);
    let z = s.regs.f & 0x80 != 0;
    let cy = s.regs.f & 0x10 != 0;
    let taken = if op == 0xC0 {
        !z
    } else if op == 0xC8 {
        z
    } else if op == 0xD0 {
        !cy
    } else {
        cy
    };
    assert(exec_spec::<B>(s1, op) == execute::ret_spec::<B>(s1, taken));
    assert(condition_holds(op, s.regs.f) == taken);
}

/// Interrupt dispatch and priority: with IME on and a request pending in
/// IF & IE, the step dispatches the lowest-numbered pending source k
/// (VBlank 0, STAT 1, timer 2, serial 3, joypad 4): PC goes to 0x40 + 8 k,
/// the old PC is pushed (SP drops by two), IME goes off, HALT ends, and
/// the step takes 20 T-cycles.
pub proof fn law_interrupt_dispatch<B: Bus>(s: CpuState<B::V>, k: u8)
    requires
        s.ime,
        k < 5,
        (pending_bits::<B>(s) >> k) & 1 == 1,
        forall|j: u8| j < k ==> (#[trigger] (pending_bits::<B>(s) >> j)) & 1 == 0,
    ensures
        step_spec::<B>(s).0.regs.pc == 0x40 + 8 * k,
        step_spec::<B>(s).0.regs.sp as int == (s.regs.sp + 0x10000 - 2) % 0x10000,
        !step_spec::<B>(s).0.ime,
        !step_spec::<B>(s).0.halted,
        step_spec::<B>(s).1 == 20,
{
    let p = pending_bits::<B>(s);
    vstd::std_specs::bits::axiom_u8_trailing_zeros(p);
    let tz = vstd::std_specs::bits::u8_trailing_zeros(p);
    if p == 0 {
        assert((p >> k) & 1 == 0) by (bit_vector)
            requires
                p == 0,
        ;
    }
    assert(tz < 8);
    if tz < k as u32 {
        assert((p >> (tz as u8)) & 1 == 0);
    }
    if tz > k as u32 {
        assert((p >> k) & 1u8 == 0u8);
    }
    assert(tz == k as u32);
}

/// The 8-bit registers by their 3-bit opcode code: 0 B, 1 C, 2 D, 3 E,
/// 4 H, 5 L, 7 A (6 is the byte at HL).
pub open spec fn register_by_code(r: Registers, code: int) -> u8 {
    if code == 0 {
        r.b
    } else if code == 1 {
        r.c
    } else if code == 2 {
        r.d
    } else if code == 3 {
        r.e
    } else if code == 4 {
        r.h
    } else if code == 5 {
        r.l
    } else {
        r.a
    }
}

/// What a step that executes the instruction at PC leaves in the
/// registers, the bus and the cycle count: those of the opcode's effect.
proof fn lemma_step_executes<B: Bus>(s: CpuState<B::V>)
    requires
        executes_at_pc::<B>(s),
    ensures
        ({
            let (op, s1) = fetch8::<B>(s);
            let (t, c) = step_spec::<B>(s);
            &&& t.regs == exec_spec::<B>(s1, op).0.regs
            &&& t.bus == exec_spec::<B>(s1, op).0.bus
            &&& c == exec_spec::<B>(s1, op).1
        }),
{
}

/// LD d, s (0x40..=0x7F, d = bits 5..3, s = bits 2..0, HALT and the (HL)
/// forms aside) copies register s into register d and changes no other
/// register or flag; it takes 4 T-cycles and advances PC by one.
#[verifier::rlimit(50)]
pub proof fn law_ld_register<B: Bus>(s: CpuState<B::V>)
    requires
        executes_at_pc::<B>(s),
        0x40 <= read8::<B>(s, s.regs.pc) < 0x80,
        read8::<B>(s, s.regs.pc) % 8 != 6,
        (read8::<B>(s, s.regs.pc) / 8) % 8 != 6,
    ensures
        ({
            let op = read8::<B>(s, s.regs.pc);
            let (t, c) = step_spec::<B>(s);
            let d = (op / 8) % 8;
            let src = op % 8;
            &&& c == 4
            &&& t.regs.pc as int == (s.regs.pc + 1) % 0x10000
            &&& t.regs.sp == s.regs.sp
            &&& t.regs.f == s.regs.f
            &&& t.bus == s.bus
            &&& register_by_code(t.regs, d as int) == register_by_code(s.regs, src as int)
            &&& forall|k: int|
                0 <= k < 8 && k != 6 && k != d ==> #[trigger] register_by_code(t.regs, k)
                    == register_by_code(s.regs, k)
        }),
{
    let op = read8::<B>(s, s.regs.pc);
    let d8 = (op / 8) % 8;
    let s8 = op % 8;
    assert((op >> 3u8) & 7u8 == d8 && op & 7u8 == s8 && d8 & 7u8 == d8 && s8 & 7u8 == s8)
        by (bit_vector)
        requires
            d8 == (op / 8) % 8,
            s8 == op % 8,
    ;
    lemma_step_executes::<B>(s);
    let (op2, s1) = fetch8::<B>(s);
    assert(exec_spec::<B>(s1, op) == execute::ld_r_r_spec::<B>(s1, op));
    lemma_reg_get_code::<B>(s1, s8);
    lemma_reg_set_code::<B>(s1, d8, register_by_code(s1.regs, s8 as int));
}

/// ALU A, s (0x80..=0xBF, the (HL) forms aside) applies the ALU operation
/// of bits 5..3 (see `law_alu_ops`) to A and register s (bits 2..0), with
/// PC advanced by one; it takes 4 T-cycles.
#[verifier::rlimit(50)]
pub proof fn law_alu_register<B: Bus>(s: CpuState<B::V>)
    requires
        executes_at_pc::<B>(s),
        0x80 <= read8::<B>(s, s.regs.pc) <= 0xBF,
        read8::<B>(s, s.regs.pc) % 8 != 6,
    ensures
        ({
            let op = read8::<B>(s, s.regs.pc);
            let (t, c) = step_spec::<B>(s);
            &&& c == 4
            &&& t.bus == s.bus
            &&& t.regs == crate::cpu::alu::alu_op_spec(
                (op / 8) % 8,
                Registers { pc: ((s.regs.pc + 1) % 0x10000) as u16, ..s.regs },
                register_by_code(s.regs, (op % 8) as int),
            )
        }),
{
    let op = read8::<B>(s, s.regs.pc);
    let d8 = (op / 8) % 8;
    let s8 = op % 8;
    assert((op >> 3u8) & 7u8 == d8 && op & 7u8 == s8 && s8 & 7u8 == s8) by (bit_vector)
        requires
            d8 == (op / 8) % 8,
            s8 == op % 8,
    ;
    lemma_step_executes::<B>(s);
    let (op2, s1) = fetch8::<B>(s);
    assert(exec_spec::<B>(s1, op) == execute::alu_r_spec::<B>(s1, op));
    lemma_reg_get_code::<B>(s1, s8);
    assert(s1.regs == Registers { pc: ((s.regs.pc + 1) % 0x10000) as u16, ..s.regs });
}

proof fn lemma_reg_get_code<B: Bus>(s: CpuState<B::V>, code: u8)
    requires
        code < 8,
        code != 6,
        code & 7 == code,
    ensures
        execute::reg_get::<B>(s, code) == register_by_code(s.regs, code as int),
{
}

proof fn lemma_reg_set_code<B: Bus>(s: CpuState<B::V>, code: u8, v: u8)
    requires
        code < 8,
        code != 6,
        code & 7 == code,
    ensures
        ({
            let t = execute::reg_set::<B>(s, code, v);
            &&& register_by_code(t.regs, code as int) == v
            &&& forall|k: int|
                0 <= k < 8 && k != 6 && k != code ==> #[trigger] register_by_code(t.regs, k)
                    == register_by_code(s.regs, k)
            &&& t.regs.f == s.regs.f && t.regs.pc == s.regs.pc && t.regs.sp == s.regs.sp
            &&& t.bus == s.bus
        }),
{
}

} // verus!
