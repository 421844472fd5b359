//! The CB-prefix opcode table. Four 64-instruction families decoded by
//! bit fields:
//!   0x00..=0x3F  rotates/shifts: op = (opcode >> 3) & 7, register = opcode & 7
//!                op: 0 RLC, 1 RRC, 2 RL, 3 RR, 4 SLA, 5 SRA, 6 SWAP, 7 SRL
//!   0x40..=0x7F  BIT n, r with n = (opcode >> 3) & 7
//!   0x80..=0xBF  RES n, r
//!   0xC0..=0xFF  SET n, r

use vstd::prelude::*;
use crate::cpu::{Cpu, CpuState, keeps_inv, register_by_code};
use crate::cpu::alu::carry_in;
use crate::cpu::execute::{reg_get, reg_set};
use crate::cpu::registers::{Registers, Flag};
use crate::memory::Bus;

verus! {

/// The eight rotate/shift operations on a byte: the result, and the
/// registers with all four flags written (Z from the result, N=H=0).
pub open spec fn cb_shift_spec(r: Registers, op: u8, v: u8) -> (u8, Registers) {
    let (res, c) = if op == 0 {
        ((v << 1u8) | (v >> 7u8), v >> 7u8 != 0)
    } else if op == 1 {
        ((v >> 1u8) | ((v & 1) << 7u8), v & 1 != 0)
    } else if op == 2 {
        ((v << 1u8) | carry_in(r), v >> 7u8 != 0)
    } else if op == 3 {
        ((v >> 1u8) | (carry_in(r) << 7u8), v & 1 != 0)
    } else if op == 4 {
        (v << 1u8, v >> 7u8 != 0)
    } else if op == 5 {
        ((v >> 1u8) | (v & 0x80), v & 1 != 0)
    } else if op == 6 {
        ((v << 4u8) | (v >> 4u8), false)
    } else {
        (v >> 1u8, v & 1 != 0)
    };
    (res, r.with_flags(res == 0, false, false, c))
}

/// BIT n, v: Z is set when bit n of v is clear; N=0, H=1, C kept.
pub open spec fn bit_spec(r: Registers, n: u8, v: u8) -> Registers {
    r.with_flags(!((v >> (n & 7)) & 1 != 0), false, true, r.cf())
}

/// What the CB-prefixed opcode `op` does, and its T-cycles.
pub open spec fn cb_spec<B: Bus>(s: CpuState<B::V>, op: u8) -> (CpuState<B::V>, u32) {
    let reg = op & 7;
    let n = (op >> 3u8) & 7;
    let v = reg_get::<B>(s, reg);
    let cycles: u32 = if reg == 6 { 16 } else { 8 };
    if op <= 0x3F {
        let (res, r1) = cb_shift_spec(s.regs, n, v);
        (reg_set::<B>(s.with_regs(r1), reg, res), cycles)
    } else if op <= 0x7F {
        (s.with_regs(bit_spec(s.regs, n, v)), if reg == 6 { 12 } else { 8 })
    } else if op <= 0xBF {
        (reg_set::<B>(s, reg, v & !(1u8 << n)), cycles)
    } else {
        (reg_set::<B>(s, reg, v | (1u8 << n)), cycles)
    }
}

impl<B: Bus> Cpu<B> {
    pub fn execute_cb(&mut self, opcode: u8) -> (cycles: u32)
        ensures
            (final(self)@, cycles) == cb_spec::<B>(old(self)@, opcode),
            keeps_inv::<B>(old(self)@, final(self)@),
    {
        proof {
            crate::bits::lemma_mask_bounds();
        }
        let reg = opcode & 0x07;
        let cycles: u32 = if reg == 6 { 16 } else { 8 };
        // BIT n, (HL) takes 12 cycles, not 16.
        let bit_cycles_hl: u32 = 12;
        let n = (opcode >> 3) & 0x07;
        if opcode <= 0x3F {
            let v = self.cb_read(reg);
            let r = if n == 0 {
                self.cb_rlc(v)
            } else if n == 1 {
                self.cb_rrc(v)
            } else if n == 2 {
                self.cb_rl(v)
            } else if n == 3 {
                self.cb_rr(v)
            } else if n == 4 {
                self.cb_sla(v)
            } else if n == 5 {
                self.cb_sra(v)
            } else if n == 6 {
                self.cb_swap(v)
            } else {
                self.cb_srl(v)
            };
            self.cb_write(reg, r);
            cycles
        } else if opcode <= 0x7F {
            let v = self.cb_read(reg);
            self.cb_bit(n, v);
            if reg == 6 {
                bit_cycles_hl
            } else {
                8
            }
        } else if opcode <= 0xBF {
            let v = self.cb_read(reg);
            self.cb_write(reg, v & !(1u8 << n));
            cycles
        } else {
            let v = self.cb_read(reg);
            self.cb_write(reg, v | (1u8 << n));
            cycles
        }
    }

    fn cb_read(&self, idx: u8) -> (r: u8)
        ensures
            r == reg_get::<B>(self@, idx),
    {
        match idx & 0x07 {
            0 => self.regs.b,
            1 => self.regs.c,
            2 => self.regs.d,
            3 => self.regs.e,
            4 => self.regs.h,
            5 => self.regs.l,
            6 => self.bus.read(self.regs.hl()),
            _ => self.regs.a,
        }
    }

    fn cb_write(&mut self, idx: u8, value: u8)
        ensures
            final(self)@ == reg_set::<B>(old(self)@, idx, value),
            keeps_inv::<B>(old(self)@, final(self)@),
    {
        match idx & 0x07 {
            0 => self.regs.b = value,
            1 => self.regs.c = value,
            2 => self.regs.d = value,
            3 => self.regs.e = value,
            4 => self.regs.h = value,
            5 => self.regs.l = value,
            6 => {
                let hl = self.regs.hl();
                self.bus.write(hl, value)
            },
            _ => self.regs.a = value,
        }
    }

    fn cb_rlc(&mut self, value: u8) -> (r: u8)
        ensures
            (r, final(self).regs) == cb_shift_spec(old(self).regs, 0, value),
            final(self)@ == old(self)@.with_regs(final(self).regs),
    {
        let c = value >> 7;
        let r = (value << 1) | c;
        self.set_zhnc(r == 0, false, false, c != 0);
        r
    }

    fn cb_rrc(&mut self, value: u8) -> (r: u8)
        ensures
            (r, final(self).regs) == cb_shift_spec(old(self).regs, 1, value),
            final(self)@ == old(self)@.with_regs(final(self).regs),
    {
        let c = value & 1;
        let r = (value >> 1) | (c << 7);
        self.set_zhnc(r == 0, false, false, c != 0);
        r
    }

    fn cb_rl(&mut self, value: u8) -> (r: u8)
        ensures
            (r, final(self).regs) == cb_shift_spec(old(self).regs, 2, value),
            final(self)@ == old(self)@.with_regs(final(self).regs),
    {
        let old_c = if self.regs.get_flag(Flag::C) { 1u8 } else { 0u8 };
        let new_c = value >> 7;
        let r = (value << 1) | old_c;
        self.set_zhnc(r == 0, false, false, new_c != 0);
        r
    }

    fn cb_rr(&mut self, value: u8) -> (r: u8)
        ensures
            (r, final(self).regs) == cb_shift_spec(old(self).regs, 3, value),
            final(self)@ == old(self)@.with_regs(final(self).regs),
    {
        let old_c = if self.regs.get_flag(Flag::C) { 1u8 } else { 0u8 };
        let new_c = value & 1;
        let r = (value >> 1) | (old_c << 7);
        self.set_zhnc(r == 0, false, false, new_c != 0);
        r
    }

    fn cb_sla(&mut self, value: u8) -> (r: u8)
        ensures
            (r, final(self).regs) == cb_shift_spec(old(self).regs, 4, value),
            final(self)@ == old(self)@.with_regs(final(self).regs),
    {
        let c = value >> 7;
        let r = value << 1;
        self.set_zhnc(r == 0, false, false, c != 0);
        r
    }

    /// SRA: arithmetic right shift (bit 7 preserved).
    fn cb_sra(&mut self, value: u8) -> (r: u8)
        ensures
            (r, final(self).regs) == cb_shift_spec(old(self).regs, 5, value),
            final(self)@ == old(self)@.with_regs(final(self).regs),
    {
        let c = value & 1;
        let r = (value >> 1) | (value & 0x80);
        self.set_zhnc(r == 0, false, false, c != 0);
        r
    }

    fn cb_swap(&mut self, value: u8) -> (r: u8)
        ensures
            (r, final(self).regs) == cb_shift_spec(old(self).regs, 6, value),
            final(self)@ == old(self)@.with_regs(final(self).regs),
    {
        let r = (value << 4) | (value >> 4);
        self.set_zhnc(r == 0, false, false, false);
        r
    }

    /// SRL: logical right shift (bit 7 becomes 0).
    fn cb_srl(&mut self, value: u8) -> (r: u8)
        ensures
            (r, final(self).regs) == cb_shift_spec(old(self).regs, 7, value),
            final(self)@ == old(self)@.with_regs(final(self).regs),
    {
        let c = value & 1;
        let r = value >> 1;
        self.set_zhnc(r == 0, false, false, c != 0);
        r
    }

    /// BIT n, value: Z = !((value >> n) & 1). N=0, H=1. C preserved.
    fn cb_bit(&mut self, n: u8, value: u8)
        ensures
            final(self)@ == old(self)@.with_regs(bit_spec(old(self).regs, n, value)),
    {
        proof {
            crate::bits::lemma_mask_bounds();
        }
        let bit_set = (value >> (n & 7)) & 1 != 0;
        let c = self.regs.get_flag(Flag::C);
        self.set_zhnc(!bit_set, false, true, c);
    }

    fn set_zhnc(&mut self, z: bool, n: bool, h: bool, c: bool)
        ensures
            final(self)@ == old(self)@.with_regs(old(self).regs.with_flags(z, n, h, c)),
    {
        self.regs.set_flag(Flag::Z, z);
        self.regs.set_flag(Flag::N, n);
        self.regs.set_flag(Flag::H, h);
        self.regs.set_flag(Flag::C, c);
        proof {
            crate::cpu::registers::lemma_flag_bits();
        }
    }
}

/// The CB rotates and shifts, by bits 5..3 of the opcode, as integer
/// arithmetic on the byte v: RLC, RRC, RL, RR (through the carry flag),
/// SLA, SRA (sign kept), SWAP (nibbles exchanged) and SRL. C receives the
/// bit shifted out (SWAP clears it), Z reports a zero result, N and H are
/// cleared, and nothing but F changes in the registers.
pub proof fn law_cb_shifts(r: Registers, op: u8, v: u8)
    requires
        op < 8,
    ensures
        ({
            let (res, r2) = cb_shift_spec(r, op, v);
            let x = v as int;
            let c: int = if r.f & 0x10 != 0 { 1 } else { 0 };
            let z = r2.f & 0x80 != 0;
            let n = r2.f & 0x40 != 0;
            let h = r2.f & 0x20 != 0;
            let cy = r2.f & 0x10 != 0;
            &&& r2 == (Registers { f: r2.f, ..r })
            &&& z == (res == 0) && !n && !h
            &&& op == 0 ==> res == (2 * x + x / 128) % 256 && cy == (x >= 128)
            &&& op == 1 ==> res == x / 2 + 128 * (x % 2) && cy == (x % 2 == 1)
            &&& op == 2 ==> res == (2 * x + c) % 256 && cy == (x >= 128)
            &&& op == 3 ==> res == x / 2 + 128 * c && cy == (x % 2 == 1)
            &&& op == 4 ==> res == (2 * x) % 256 && cy == (x >= 128)
            &&& op == 5 ==> res == x / 2 + 128 * (x / 128) && cy == (x % 2 == 1)
            &&& op == 6 ==> res == 16 * (x % 16) + x / 16 && !cy
            &&& op == 7 ==> res == x / 2 && cy == (x % 2 == 1)
        }),
{
    crate::cpu::registers::lemma_flag_bits();
    assert(r.cf() == (r.f & 0x10 != 0));
    assert({
        &&& ((v << 1u8) | (v >> 7u8)) as int == (2 * v + v / 128) % 256
        &&& ((v >> 1u8) | ((v & 1) << 7u8)) as int == v / 2 + 128 * (v % 2)
        &&& ((v << 1u8) | 1u8) as int == (2 * v + 1) % 256
        &&& ((v << 1u8) | 0u8) as int == (2 * v) % 256
        &&& ((v >> 1u8) | (1u8 << 7u8)) as int == v / 2 + 128
        &&& ((v >> 1u8) | (0u8 << 7u8)) as int == v / 2
        &&& (v << 1u8) as int == (2 * v) % 256
        &&& ((v >> 1u8) | (v & 0x80)) as int == v / 2 + 128 * (v / 128)
        &&& ((v << 4u8) | (v >> 4u8)) as int == 16 * (v % 16) + v / 16
        &&& (v >> 1u8) as int == v / 2
        &&& (v >> 7u8 != 0) == (v >= 128)
        &&& (v & 1 != 0) == (v % 2 == 1)
    }) by (bit_vector);
}

/// The accumulator rotates RLCA, RRCA, RLA and RRA, as arithmetic on A:
/// they rotate like RLC, RRC, RL and RR but always clear Z (and N, H);
/// C receives the bit rotated out.
pub proof fn law_rotate_a(r: Registers)
    ensures
        ({
            let a = r.a as int;
            let c: int = if r.f & 0x10 != 0 { 1 } else { 0 };
            &&& crate::cpu::alu::rlca_spec(r).a == (2 * a + a / 128) % 256
            &&& crate::cpu::alu::rrca_spec(r).a == a / 2 + 128 * (a % 2)
            &&& crate::cpu::alu::rla_spec(r).a == (2 * a + c) % 256
            &&& crate::cpu::alu::rra_spec(r).a == a / 2 + 128 * c
            &&& crate::cpu::alu::flags_of(crate::cpu::alu::rlca_spec(r)) == (false, false, false, a
                >= 128)
            &&& crate::cpu::alu::flags_of(crate::cpu::alu::rrca_spec(r)) == (false, false, false, a
                % 2 == 1)
            &&& crate::cpu::alu::flags_of(crate::cpu::alu::rla_spec(r)) == (false, false, false, a
                >= 128)
            &&& crate::cpu::alu::flags_of(crate::cpu::alu::rra_spec(r)) == (false, false, false, a
                % 2 == 1)
        }),
{
    crate::cpu::registers::lemma_flag_bits();
    law_cb_shifts(r, 0, r.a);
    law_cb_shifts(r, 1, r.a);
    law_cb_shifts(r, 2, r.a);
    law_cb_shifts(r, 3, r.a);
}

/// The weight of bit `n` of a byte.
pub open spec fn bit_weight(n: int) -> int {
    if n == 0 {
        1
    } else if n == 1 {
        2
    } else if n == 2 {
        4
    } else if n == 3 {
        8
    } else if n == 4 {
        16
    } else if n == 5 {
        32
    } else if n == 6 {
        64
    } else {
        128
    }
}

/// BIT n, r / RES n, r / SET n, r (CB opcodes 0x40..=0xFF, register forms),
/// with n the opcode's bits 5..3 and r its bits 2..0: BIT sets Z exactly when
/// bit n of r is clear, clears N, sets H, keeps C and changes no register;
/// RES takes bit n's weight off r when that bit was set, SET adds it when it
/// was clear, and both leave F and every other register alone. Each takes
/// 8 T-cycles and leaves the bus, PC and SP unchanged.
pub proof fn law_cb_bit_ops<B: Bus>(s: CpuState<B::V>, op: u8)
    requires
        op >= 0x40,
        op % 8 != 6,
    ensures
        ({
            let reg = (op % 8) as int;
            let w = bit_weight(((op / 8) % 8) as int);
            let v = register_by_code(s.regs, reg) as int;
            let bit = (v / w) % 2;
            let (t, c) = cb_spec::<B>(s, op);
            &&& c == 8
            &&& t.bus == s.bus
            &&& t.regs.pc == s.regs.pc && t.regs.sp == s.regs.sp
            &&& op <= 0x7F ==> {
                &&& t.regs == (Registers { f: t.regs.f, ..s.regs })
                &&& (t.regs.f & 0x80 != 0) == (bit == 0)
                &&& t.regs.f & 0x40 == 0 && t.regs.f & 0x20 != 0
                &&& (t.regs.f & 0x10 != 0) == (s.regs.f & 0x10 != 0)
            }
            &&& op >= 0x80 ==> {
                &&& t.regs.f == s.regs.f
                &&& op <= 0xBF ==> register_by_code(t.regs, reg) == v - w * bit
                &&& op >= 0xC0 ==> register_by_code(t.regs, reg) == v + w * (1 - bit)
                &&& forall|k: int|
                    0 <= k < 8 && k != 6 && k != reg ==> #[trigger] register_by_code(t.regs, k)
                        == register_by_code(s.regs, k)
            }
        }),
{
    crate::cpu::registers::lemma_flag_bits();
    let code = op & 7;
    let x = register_by_code(s.regs, (op % 8) as int);
    let nn = (op >> 3u8) & 7;
    let m = 1u8 << nn;
    assert({
        &&& nn == (op / 8) % 8 && nn & 7 == nn
        &&& code == op % 8 && code & 7 == code
        &&& nn == 0 ==> m == 1
        &&& nn == 1 ==> m == 2
        &&& nn == 2 ==> m == 4
        &&& nn == 3 ==> m == 8
        &&& nn == 4 ==> m == 16
        &&& nn == 5 ==> m == 32
        &&& nn == 6 ==> m == 64
        &&& nn == 7 ==> m == 128
        &&& ((x >> nn) & 1 != 0) == ((x / m) % 2 == 1)
        &&& (x & !m) as int == x - m * ((x / m) % 2)
        &&& (x | m) as int == x + m * (1 - (x / m) % 2)
    }) by (bit_vector)
        requires
            code == op & 7,
            nn == (op >> 3u8) & 7,
            m == 1u8 << nn,
    ;
    assert(m as int == bit_weight(((op / 8) % 8) as int));
    crate::cpu::lemma_reg_get_code::<B>(s, code);
    if op >= 0x80 {
        let res = if op <= 0xBF { x & !m } else { x | m };
        crate::cpu::lemma_reg_set_code::<B>(s, code, res);
    }
}

} // verus!
