//! The 8- and 16-bit arithmetic and logic unit.

use vstd::prelude::*;
use crate::bits::lemma_mask_bounds;
use crate::cpu::{Cpu, CpuState};
use crate::cpu::registers::{Registers, Flag, flag_byte, lemma_flag_bits};
use crate::memory::Bus;

verus! {

/// 1 when the carry flag is set.
pub open spec fn carry_in(r: Registers) -> u8 {
    if r.cf() { 1 } else { 0 }
}

/// ADD A, v.
pub open spec fn add_spec(r: Registers, v: u8) -> Registers {
    let res = r.a.wrapping_add(v);
    Registers { a: res, ..r }.with_flags(
        res == 0,
        false,
        (r.a & 0x0F) + (v & 0x0F) > 0x0F,
        r.a + v > 0xFF,
    )
}

/// ADC A, v: the carry flag is added as well.
pub open spec fn adc_spec(r: Registers, v: u8) -> Registers {
    let c = carry_in(r);
    let res = r.a.wrapping_add(v).wrapping_add(c);
    Registers { a: res, ..r }.with_flags(
        res == 0,
        false,
        (r.a & 0x0F) + (v & 0x0F) + c > 0x0F,
        r.a + v + c > 0xFF,
    )
}

/// SUB A, v.
pub open spec fn sub_spec(r: Registers, v: u8) -> Registers {
    let res = r.a.wrapping_sub(v);
    Registers { a: res, ..r }.with_flags(res == 0, true, (r.a & 0x0F) < (v & 0x0F), r.a < v)
}

/// SBC A, v: the carry flag is subtracted as well.
pub open spec fn sbc_spec(r: Registers, v: u8) -> Registers {
    let c = carry_in(r);
    let res = r.a.wrapping_sub(v).wrapping_sub(c);
    Registers { a: res, ..r }.with_flags(
        res == 0,
        true,
        (r.a & 0x0F) < (v & 0x0F) + c,
        r.a < v + c,
    )
}

pub open spec fn and_spec(r: Registers, v: u8) -> Registers {
    let res = r.a & v;
    Registers { a: res, ..r }.with_flags(res == 0, false, true, false)
}

pub open spec fn xor_spec(r: Registers, v: u8) -> Registers {
    let res = r.a ^ v;
    Registers { a: res, ..r }.with_flags(res == 0, false, false, false)
}

pub open spec fn or_spec(r: Registers, v: u8) -> Registers {
    let res = r.a | v;
    Registers { a: res, ..r }.with_flags(res == 0, false, false, false)
}

/// CP v: the flags of SUB, with A unchanged.
pub open spec fn cp_spec(r: Registers, v: u8) -> Registers {
    r.with_flags(r.a.wrapping_sub(v) == 0, true, (r.a & 0x0F) < (v & 0x0F), r.a < v)
}

/// The eight ALU operations of opcodes 0x80..=0xBF and the d8 forms,
/// selected by bits 5..3 of the opcode.
pub open spec fn alu_op_spec(op: u8, r: Registers, v: u8) -> Registers {
    if op == 0 {
        add_spec(r, v)
    } else if op == 1 {
        adc_spec(r, v)
    } else if op == 2 {
        sub_spec(r, v)
    } else if op == 3 {
        sbc_spec(r, v)
    } else if op == 4 {
        and_spec(r, v)
    } else if op == 5 {
        xor_spec(r, v)
    } else if op == 6 {
        or_spec(r, v)
    } else {
        cp_spec(r, v)
    }
}

/// INC on an 8-bit value: the result, and the registers with Z, N, H
/// written (C is kept).
pub open spec fn inc8_spec(r: Registers, v: u8) -> (u8, Registers) {
    let res = v.wrapping_add(1);
    (res, r.with_flags(res == 0, false, (v & 0x0F) + 1 > 0x0F, r.cf()))
}

/// DEC on an 8-bit value.
pub open spec fn dec8_spec(r: Registers, v: u8) -> (u8, Registers) {
    let res = v.wrapping_sub(1);
    (res, r.with_flags(res == 0, true, (v & 0x0F) == 0, r.cf()))
}

/// DAA: decimal adjust after a BCD addition (N clear) or subtraction
/// (N set). N is kept, H is cleared.
pub open spec fn daa_spec(r: Registers) -> Registers {
    let a = r.a;
    let (res, c) = if !r.nf() {
        let (a1, c1) = if r.cf() || a > 0x99 {
            (a.wrapping_add(0x60), true)
        } else {
            (a, r.cf())
        };
        let a2 = if r.hf() || (a1 & 0x0F) > 0x09 {
            a1.wrapping_add(0x06)
        } else {
            a1
        };
        (a2, c1)
    } else {
        let a1 = if r.cf() { a.wrapping_sub(0x60) } else { a };
        let a2 = if r.hf() { a1.wrapping_sub(0x06) } else { a1 };
        (a2, r.cf())
    };
    Registers { a: res, ..r }.with_flags(res == 0, r.nf(), false, c)
}

/// RLCA: rotate A left; bit 7 goes to C and to bit 0. Z is cleared.
pub open spec fn rlca_spec(r: Registers) -> Registers {
    let c = r.a >> 7u8;
    Registers { a: (r.a << 1u8) | c, ..r }.with_flags(false, false, false, c != 0)
}

/// RRCA: rotate A right; bit 0 goes to C and to bit 7.
pub open spec fn rrca_spec(r: Registers) -> Registers {
    let c = r.a & 1;
    Registers { a: (r.a >> 1u8) | (c << 7u8), ..r }.with_flags(false, false, false, c != 0)
}

/// RLA: rotate A left through the carry flag.
pub open spec fn rla_spec(r: Registers) -> Registers {
    let new_c = r.a >> 7u8;
    Registers { a: (r.a << 1u8) | carry_in(r), ..r }.with_flags(false, false, false, new_c != 0)
}

/// RRA: rotate A right through the carry flag.
pub open spec fn rra_spec(r: Registers) -> Registers {
    let new_c = r.a & 1;
    Registers { a: (r.a >> 1u8) | (carry_in(r) << 7u8), ..r }.with_flags(
        false,
        false,
        false,
        new_c != 0,
    )
}

/// CPL: A = !A, N and H set, Z and C kept.
pub open spec fn cpl_spec(r: Registers) -> Registers {
    Registers { a: !r.a, ..r }.with_flags(r.zf(), true, true, r.cf())
}

/// SCF: C set, N and H cleared, Z kept.
pub open spec fn scf_spec(r: Registers) -> Registers {
    r.with_flags(r.zf(), false, false, true)
}

/// CCF: C flipped, N and H cleared, Z kept.
pub open spec fn ccf_spec(r: Registers) -> Registers {
    r.with_flags(r.zf(), false, false, !r.cf())
}

/// ADD HL, v: H from bit 11, C from bit 15, Z kept.
pub open spec fn add_hl_spec(r: Registers, v: u16) -> Registers {
    let hl = r.hl_spec();
    r.with_hl(hl.wrapping_add(v)).with_flags(
        r.zf(),
        false,
        (hl & 0x0FFF) + (v & 0x0FFF) > 0x0FFF,
        hl + v > 0xFFFF,
    )
}

/// SP + a signed byte, as ADD SP, r8 and LD HL, SP+r8 compute it: the
/// sum, and the registers with the flags of an 8-bit add on the low byte.
pub open spec fn add_sp_i8_spec(r: Registers, offset: i8) -> (u16, Registers) {
    let off = offset as i16 as u16;
    let sp_lo = r.sp & 0xFF;
    let off_lo = off & 0xFF;
    (
        r.sp.wrapping_add(off),
        r.with_flags(false, false, (sp_lo & 0x0F) + (off_lo & 0x0F) > 0x0F, sp_lo + off_lo > 0xFF),
    )
}

impl<B: Bus> Cpu<B> {
    /// Writes all four flags.
    fn set_znhc(&mut self, z: bool, n: bool, h: bool, c: bool)
        ensures
            final(self)@ == old(self)@.with_regs(old(self).regs.with_flags(z, n, h, c)),
    {
        self.regs.set_flag(Flag::Z, z);
        self.regs.set_flag(Flag::N, n);
        self.regs.set_flag(Flag::H, h);
        self.regs.set_flag(Flag::C, c);
        proof {
            lemma_flag_bits();
        }
    }

    pub fn alu_add(&mut self, value: u8)
        ensures
            final(self)@ == old(self)@.with_regs(add_spec(old(self).regs, value)),
    {
        proof {
            lemma_mask_bounds();
        }
        let a = self.regs.a;
        let result = a.wrapping_add(value);
        self.set_znhc(result == 0, false, (a & 0x0F) + (value & 0x0F) > 0x0F, (a as u16) + (value as u16) > 0xFF);
        self.regs.a = result;
    }

    pub fn alu_adc(&mut self, value: u8)
        ensures
            final(self)@ == old(self)@.with_regs(adc_spec(old(self).regs, value)),
    {
        proof {
            lemma_mask_bounds();
        }
        let a = self.regs.a;
        let c = if self.regs.get_flag(Flag::C) { 1u8 } else { 0u8 };
        let result = a.wrapping_add(value).wrapping_add(c);
        self.set_znhc(
            result == 0,
            false,
            (a & 0x0F) + (value & 0x0F) + c > 0x0F,
            (a as u16) + (value as u16) + (c as u16) > 0xFF,
        );
        self.regs.a = result;
    }

    pub fn alu_sub(&mut self, value: u8)
        ensures
            final(self)@ == old(self)@.with_regs(sub_spec(old(self).regs, value)),
    {
        let a = self.regs.a;
        let result = a.wrapping_sub(value);
        self.set_znhc(result == 0, true, (a & 0x0F) < (value & 0x0F), (a as u16) < (value as u16));
        self.regs.a = result;
    }

    pub fn alu_sbc(&mut self, value: u8)
        ensures
            final(self)@ == old(self)@.with_regs(sbc_spec(old(self).regs, value)),
    {
        proof {
            lemma_mask_bounds();
        }
        let a = self.regs.a;
        let c = if self.regs.get_flag(Flag::C) { 1u8 } else { 0u8 };
        let result = a.wrapping_sub(value).wrapping_sub(c);
        self.set_znhc(
            result == 0,
            true,
            (a & 0x0F) < (value & 0x0F) + c,
            (a as u16) < (value as u16) + (c as u16),
        );
        self.regs.a = result;
    }

    pub fn alu_and(&mut self, value: u8)
        ensures
            final(self)@ == old(self)@.with_regs(and_spec(old(self).regs, value)),
    {
        let result = self.regs.a & value;
        self.regs.a = result;
        self.set_znhc(result == 0, false, true, false);
    }

    pub fn alu_xor(&mut self, value: u8)
        ensures
            final(self)@ == old(self)@.with_regs(xor_spec(old(self).regs, value)),
    {
        let result = self.regs.a ^ value;
        self.regs.a = result;
        self.set_znhc(result == 0, false, false, false);
    }

    pub fn alu_or(&mut self, value: u8)
        ensures
            final(self)@ == old(self)@.with_regs(or_spec(old(self).regs, value)),
    {
        let result = self.regs.a | value;
        self.regs.a = result;
        self.set_znhc(result == 0, false, false, false);
    }

    pub fn alu_cp(&mut self, value: u8)
        ensures
            final(self)@ == old(self)@.with_regs(cp_spec(old(self).regs, value)),
    {
        let a = self.regs.a;
        let result = a.wrapping_sub(value);
        self.set_znhc(result == 0, true, (a & 0x0F) < (value & 0x0F), a < value);
    }

    /// Dispatches one of the eight ALU operations on A.
    pub fn alu_op(&mut self, op: u8, value: u8)
        ensures
            final(self)@ == old(self)@.with_regs(alu_op_spec(op, old(self).regs, value)),
    {
        if op == 0 {
            self.alu_add(value)
        } else if op == 1 {
            self.alu_adc(value)
        } else if op == 2 {
            self.alu_sub(value)
        } else if op == 3 {
            self.alu_sbc(value)
        } else if op == 4 {
            self.alu_and(value)
        } else if op == 5 {
            self.alu_xor(value)
        } else if op == 6 {
            self.alu_or(value)
        } else {
            self.alu_cp(value)
        }
    }

    pub fn alu_inc8(&mut self, value: u8) -> (r: u8)
        ensures
            (r, final(self).regs) == inc8_spec(old(self).regs, value),
            final(self)@ == old(self)@.with_regs(final(self).regs),
    {
        proof {
            lemma_mask_bounds();
        }
        let result = value.wrapping_add(1);
        let c = self.regs.get_flag(Flag::C);
        self.set_znhc(result == 0, false, (value & 0x0F) + 1 > 0x0F, c);
        result
    }

    pub fn alu_dec8(&mut self, value: u8) -> (r: u8)
        ensures
            (r, final(self).regs) == dec8_spec(old(self).regs, value),
            final(self)@ == old(self)@.with_regs(final(self).regs),
    {
        let result = value.wrapping_sub(1);
        let c = self.regs.get_flag(Flag::C);
        self.set_znhc(result == 0, true, (value & 0x0F) == 0, c);
        result
    }

    /// DAA: decimal-adjust A after a BCD add/subtract.
    pub fn alu_daa(&mut self)
        ensures
            final(self)@ == old(self)@.with_regs(daa_spec(old(self).regs)),
    {
        let mut a = self.regs.a;
        let n = self.regs.get_flag(Flag::N);
        let h = self.regs.get_flag(Flag::H);
        let c = self.regs.get_flag(Flag::C);
        let mut new_c = c;
        if !n {
            if c || a > 0x99 {
                a = a.wrapping_add(0x60);
                new_c = true;
            }
            if h || (a & 0x0F) > 0x09 {
                a = a.wrapping_add(0x06);
            }
        } else {
            if c {
                a = a.wrapping_sub(0x60);
            }
            if h {
                a = a.wrapping_sub(0x06);
            }
        }
        self.regs.a = a;
        self.set_znhc(a == 0, n, false, new_c);
    }

    pub fn alu_rlca(&mut self)
        ensures
            final(self)@ == old(self)@.with_regs(rlca_spec(old(self).regs)),
    {
        let a = self.regs.a;
        let c = a >> 7;
        self.regs.a = (a << 1) | c;
        self.set_znhc(false, false, false, c != 0);
    }

    pub fn alu_rrca(&mut self)
        ensures
            final(self)@ == old(self)@.with_regs(rrca_spec(old(self).regs)),
    {
        let a = self.regs.a;
        let c = a & 1;
        self.regs.a = (a >> 1) | (c << 7);
        self.set_znhc(false, false, false, c != 0);
    }

    pub fn alu_rla(&mut self)
        ensures
            final(self)@ == old(self)@.with_regs(rla_spec(old(self).regs)),
    {
        let a = self.regs.a;
        let old_c = if self.regs.get_flag(Flag::C) { 1u8 } else { 0u8 };
        let new_c = a >> 7;
        self.regs.a = (a << 1) | old_c;
        self.set_znhc(false, false, false, new_c != 0);
    }

    pub fn alu_rra(&mut self)
        ensures
            final(self)@ == old(self)@.with_regs(rra_spec(old(self).regs)),
    {
        let a = self.regs.a;
        let old_c = if self.regs.get_flag(Flag::C) { 1u8 } else { 0u8 };
        let new_c = a & 1;
        self.regs.a = (a >> 1) | (old_c << 7);
        self.set_znhc(false, false, false, new_c != 0);
    }

    /// CPL: A = ~A. N=1, H=1. Z and C preserved.
    pub fn alu_cpl(&mut self)
        ensures
            final(self)@ == old(self)@.with_regs(cpl_spec(old(self).regs)),
    {
        let z = self.regs.get_flag(Flag::Z);
        let c = self.regs.get_flag(Flag::C);
        self.regs.a = !self.regs.a;
        self.set_znhc(z, true, true, c);
    }

    /// SCF: C=1, N=0, H=0. Z preserved.
    pub fn alu_scf(&mut self)
        ensures
            final(self)@ == old(self)@.with_regs(scf_spec(old(self).regs)),
    {
        let z = self.regs.get_flag(Flag::Z);
        self.set_znhc(z, false, false, true);
    }

    /// CCF: C = !C, N=0, H=0. Z preserved.
    pub fn alu_ccf(&mut self)
        ensures
            final(self)@ == old(self)@.with_regs(ccf_spec(old(self).regs)),
    {
        let z = self.regs.get_flag(Flag::Z);
        let c = self.regs.get_flag(Flag::C);
        self.set_znhc(z, false, false, !c);
    }

    /// ADD HL, value. Z preserved. N=0. H from bit 11. C from bit 15.
    pub fn alu_add_hl(&mut self, value: u16)
        ensures
            final(self)@ == old(self)@.with_regs(add_hl_spec(old(self).regs, value)),
    {
        proof {
            lemma_mask_bounds();
        }
        let hl = self.regs.hl();
        let result = hl.wrapping_add(value);
        let z = self.regs.get_flag(Flag::Z);
        self.regs.set_hl(result);
        self.set_znhc(z, false, (hl & 0x0FFF) + (value & 0x0FFF) > 0x0FFF, (hl as u32) + (value as u32) > 0xFFFF);
    }

    /// ADD SP, r8 and LD HL, SP+r8: returns SP + offset and sets the flags.
    pub fn alu_add_sp_i8(&mut self, offset: i8) -> (r: u16)
        ensures
            (r, final(self).regs) == add_sp_i8_spec(old(self).regs, offset),
            final(self)@ == old(self)@.with_regs(final(self).regs),
    {
        proof {
            lemma_mask_bounds();
        }
        let sp = self.regs.sp;
        let off = offset as i16 as u16;
        let result = sp.wrapping_add(off);
        let sp_lo = sp & 0xFF;
        let off_lo = off & 0xFF;
        self.set_znhc(false, false, (sp_lo & 0x0F) + (off_lo & 0x0F) > 0x0F, sp_lo + off_lo > 0xFF);
        result
    }
}

/// A byte holding two BCD digits.
pub open spec fn is_bcd(b: u8) -> bool {
    b >> 4u8 <= 9 && b & 0x0F <= 9
}

/// The number 0..=99 that a packed-BCD byte holds.
pub open spec fn bcd_value(b: u8) -> int {
    (b >> 4u8) * 10 + (b & 0x0F)
}

/// The byte arithmetic behind DAA after an addition of two BCD bytes.
proof fn lemma_bcd_add_adjust(x: u8, y: u8, a: u8, a1: u8, a2: u8, h: bool, c: bool, c1: bool)
    by (bit_vector)
    requires
        x >> 4u8 <= 9,
        x & 0x0Fu8 <= 9,
        y >> 4u8 <= 9,
        y & 0x0Fu8 <= 9,
        a == (if x + y > 255 { (x + y - 256) as u8 } else { (x + y) as u8 }),
        h == ((x & 0x0Fu8) + (y & 0x0Fu8) > 0x0F),
        c == (x + y > 0xFF),
        c1 == (c || a > 0x99u8),
        a1 == (if c1 {
            if a + 0x60u8 > 255 {
                (a + 0x60u8 - 256) as u8
            } else {
                (a + 0x60u8) as u8
            }
        } else {
            a
        }),
        a2 == (if h || (a1 & 0x0Fu8) > 0x09 {
            if a1 + 0x06u8 > 255 {
                (a1 + 0x06u8 - 256) as u8
            } else {
                (a1 + 0x06u8) as u8
            }
        } else {
            a1
        }),
    ensures
        a2 >> 4u8 <= 9,
        a2 & 0x0Fu8 <= 9,
        (a2 >> 4u8) * 10 + (a2 & 0x0Fu8) == ((x >> 4u8) * 10 + (x & 0x0Fu8) + (y >> 4u8) * 10 + (y
            & 0x0Fu8)) % 100,
        c1 == ((x >> 4u8) * 10 + (x & 0x0Fu8) + (y >> 4u8) * 10 + (y & 0x0Fu8) >= 100),
{
}

/// DAA after ADD decimal-adjusts: adding two packed-BCD bytes and then
/// running DAA leaves the BCD digits of the sum (mod 100) in A, with C set
/// exactly when the sum reaches 100, Z when A is 0, and H and N clear.
pub proof fn law_daa_after_add(r: Registers, y: u8)
    requires
        is_bcd(r.a),
        is_bcd(y),
    ensures
        ({
            let r2 = daa_spec(add_spec(r, y));
            &&& is_bcd(r2.a)
            &&& bcd_value(r2.a) == (bcd_value(r.a) + bcd_value(y)) % 100
            &&& r2.cf() == (bcd_value(r.a) + bcd_value(y) >= 100)
            &&& r2.zf() == (r2.a == 0)
            &&& !r2.hf()
            &&& !r2.nf()
        }),
{
    lemma_flag_bits();
    let x = r.a;
    let r1 = add_spec(r, y);
    let a = r1.a;
    let h = (x & 0x0F) + (y & 0x0F) > 0x0F;
    let c = x + y > 0xFF;
    assert(r1.f == flag_byte(a == 0, false, h, c));
    assert(!r1.nf() && r1.hf() == h && r1.cf() == c);
    let c1 = c || a > 0x99;
    let a1: u8 = if c1 { a.wrapping_add(0x60) } else { a };
    let a2: u8 = if h || (a1 & 0x0F) > 0x09 { a1.wrapping_add(0x06) } else { a1 };
    let r2 = daa_spec(r1);
    assert(r2.a == a2);
    lemma_bcd_add_adjust(x, y, a, a1, a2, h, c, c1);
    assert(r2.f == flag_byte(a2 == 0, false, false, c1));
}

/// The byte arithmetic behind DAA after a subtraction of two BCD bytes.
proof fn lemma_bcd_sub_adjust(x: u8, y: u8, a: u8, a1: u8, a2: u8, h: bool, c: bool)
    by (bit_vector)
    requires
        x >> 4u8 <= 9,
        x & 0x0Fu8 <= 9,
        y >> 4u8 <= 9,
        y & 0x0Fu8 <= 9,
        a == (if x < y { (x + 256 - y) as u8 } else { (x - y) as u8 }),
        h == ((x & 0x0Fu8) < (y & 0x0Fu8)),
        c == (x < y),
        a1 == (if c {
            if a < 0x60u8 {
                (a + 256 - 0x60u8) as u8
            } else {
                (a - 0x60u8) as u8
            }
        } else {
            a
        }),
        a2 == (if h {
            if a1 < 0x06u8 {
                (a1 + 256 - 0x06u8) as u8
            } else {
                (a1 - 0x06u8) as u8
            }
        } else {
            a1
        }),
    ensures
        a2 >> 4u8 <= 9,
        a2 & 0x0Fu8 <= 9,
        (a2 >> 4u8) * 10 + (a2 & 0x0Fu8) == (x >> 4u8) * 10 + (x & 0x0Fu8) - (y >> 4u8) * 10 - (y
            & 0x0Fu8) + (if c { 100int } else { 0int }),
        c == ((x >> 4u8) * 10 + (x & 0x0Fu8) < (y >> 4u8) * 10 + (y & 0x0Fu8)),
{
}

/// DAA after SUB decimal-adjusts: subtracting two packed-BCD bytes and
/// then running DAA leaves the BCD digits of the difference (mod 100) in
/// A, with C set exactly when a borrow happened, Z when A is 0, N set and
/// H clear.
pub proof fn law_daa_after_sub(r: Registers, y: u8)
    requires
        is_bcd(r.a),
        is_bcd(y),
    ensures
        ({
            let r2 = daa_spec(sub_spec(r, y));
            &&& is_bcd(r2.a)
            &&& bcd_value(r2.a) == (bcd_value(r.a) - bcd_value(y)) % 100
            &&& r2.cf() == (bcd_value(r.a) < bcd_value(y))
            &&& r2.zf() == (r2.a == 0)
            &&& !r2.hf()
            &&& r2.nf()
        }),
{
    lemma_flag_bits();
    let x = r.a;
    let r1 = sub_spec(r, y);
    let a = r1.a;
    let h = (x & 0x0F) < (y & 0x0F);
    let c = x < y;
    assert(r1.f == flag_byte(a == 0, true, h, c));
    assert(r1.nf() && r1.hf() == h && r1.cf() == c);
    let a1: u8 = if c { a.wrapping_sub(0x60) } else { a };
    let a2: u8 = if h { a1.wrapping_sub(0x06) } else { a1 };
    let r2 = daa_spec(r1);
    assert(r2.a == a2);
    lemma_bcd_sub_adjust(x, y, a, a1, a2, h, c);
    assert(r2.f == flag_byte(a2 == 0, true, false, c));
    let d = bcd_value(r.a) - bcd_value(y);
    if c {
        assert(bcd_value(a2) == d + 100);
        vstd::arithmetic::div_mod::lemma_mod_add_multiples_vanish(d, 100);
        vstd::arithmetic::div_mod::lemma_small_mod((d + 100) as nat, 100);
    } else {
        vstd::arithmetic::div_mod::lemma_small_mod(d as nat, 100);
    }
}

/// The flags of a register file as four booleans (Z, N, H, C).
pub open spec fn flags_of(r: Registers) -> (bool, bool, bool, bool) {
    (r.f & 0x80 != 0, r.f & 0x40 != 0, r.f & 0x20 != 0, r.f & 0x10 != 0)
}

/// The eight ALU operations of 0x80..=0xBF (and their immediate forms),
/// by bits 5..3 of the opcode: ADD, ADC, SUB, SBC, AND, XOR, OR, CP, each
/// stated as integer arithmetic on A and the operand. Z reports a zero
/// result, N a subtraction, H the carry or borrow out of the low nibble,
/// C the carry or borrow out of the byte (the carry flag taken as input
/// by ADC and SBC). Only A and F change; CP leaves A alone.
pub proof fn law_alu_ops(r: Registers, op: u8, v: u8)
    requires
        op < 8,
    ensures
        ({
            let r2 = alu_op_spec(op, r, v);
            let a = r.a as int;
            let x = v as int;
            let c: int = if r.f & 0x10 != 0 { 1 } else { 0 };
            let (z, n, h, cy) = flags_of(r2);
            &&& r2 == (Registers { a: r2.a, f: r2.f, ..r })
            &&& op != 7 ==> z == (r2.a == 0)
            &&& op == 0 ==> r2.a == (a + x) % 256 && !n && h == (a % 16 + x % 16 >= 16) && cy == (a + x
                >= 256)
            &&& op == 1 ==> r2.a == (a + x + c) % 256 && !n && h == (a % 16 + x % 16 + c >= 16) && cy
                == (a + x + c >= 256)
            &&& op == 2 ==> r2.a == (a - x + 256) % 256 && n && h == (a % 16 < x % 16) && cy == (a < x)
            &&& op == 3 ==> r2.a == (a - x - c + 512) % 256 && n && h == (a % 16 < x % 16 + c) && cy
                == (a < x + c)
            &&& op == 4 ==> r2.a == (r.a & v) && !n && h && !cy
            &&& op == 5 ==> r2.a == (r.a ^ v) && !n && !h && !cy
            &&& op == 6 ==> r2.a == (r.a | v) && !n && !h && !cy
            &&& op == 7 ==> r2.a == r.a && z == (r.a == v) && n && h == (a % 16 < x % 16) && cy == (a
                < x)
        }),
{
    lemma_flag_bits();
    let ra = r.a;
    assert((ra & 0x0F) as int == ra % 16 && (v & 0x0F) as int == v % 16) by (bit_vector);
    let r2 = alu_op_spec(op, r, v);
    assert(r.cf() == (r.f & 0x10 != 0));
    let c = carry_in(r);
    if op == 0 {
        let res = r.a.wrapping_add(v);
        assert(r2.f == flag_byte(res == 0, false, (r.a & 0x0F) + (v & 0x0F) > 0x0F, r.a + v > 0xFF));
    } else if op == 1 {
        let res = r.a.wrapping_add(v).wrapping_add(c);
        assert(r2.f == flag_byte(res == 0, false, (r.a & 0x0F) + (v & 0x0F) + c > 0x0F, r.a + v + c
            > 0xFF));
    } else if op == 2 {
        let res = r.a.wrapping_sub(v);
        assert(r2.f == flag_byte(res == 0, true, (r.a & 0x0F) < (v & 0x0F), r.a < v));
    } else if op == 3 {
        let res = r.a.wrapping_sub(v).wrapping_sub(c);
        assert(r2.a == res);
    } else if op == 4 {
        assert(r2.f == flag_byte(r2.a == 0, false, true, false));
    } else if op == 5 {
        assert(r2.f == flag_byte(r2.a == 0, false, false, false));
    } else if op == 6 {
        assert(r2.f == flag_byte(r2.a == 0, false, false, false));
    } else {
        assert(r2.f == flag_byte(r.a.wrapping_sub(v) == 0, true, (r.a & 0x0F) < (v & 0x0F), r.a < v));
    }
}

/// INC and DEC of a byte, CPL, SCF and CCF, as arithmetic: INC gives
/// v + 1 and DEC v - 1 (mod 256), with H reporting the carry out of (or
/// borrow into) the low nibble and C kept; CPL gives 255 - A with N and H
/// set; SCF sets C and CCF flips it, both clearing N and H. Z is kept by
/// CPL, SCF and CCF; only F (and A for CPL) changes.
pub proof fn law_alu_unary(r: Registers, v: u8)
    ensures
        inc8_spec(r, v).0 == (v + 1) % 256,
        flags_of(inc8_spec(r, v).1) == (inc8_spec(r, v).0 == 0, false, v % 16 == 15, r.f & 0x10
            != 0),
        dec8_spec(r, v).0 == (v + 255) % 256,
        flags_of(dec8_spec(r, v).1) == (dec8_spec(r, v).0 == 0, true, v % 16 == 0, r.f & 0x10 != 0),
        inc8_spec(r, v).1 == (Registers { f: inc8_spec(r, v).1.f, ..r }),
        dec8_spec(r, v).1 == (Registers { f: dec8_spec(r, v).1.f, ..r }),
        cpl_spec(r).a == 255 - r.a,
        flags_of(cpl_spec(r)) == (r.f & 0x80 != 0, true, true, r.f & 0x10 != 0),
        flags_of(scf_spec(r)) == (r.f & 0x80 != 0, false, false, true),
        flags_of(ccf_spec(r)) == (r.f & 0x80 != 0, false, false, r.f & 0x10 == 0),
{
    lemma_flag_bits();
    let ra = r.a;
    assert((v & 0x0F) as int == v % 16 && (!ra) as int == 255 - ra) by (bit_vector);
    assert(r.zf() == (r.f & 0x80 != 0) && r.cf() == (r.f & 0x10 != 0));
}

/// The 16-bit additions. ADD HL, v gives HL + v (mod 65536), with H the
/// carry out of bit 11, C the carry out of bit 15, N cleared and Z kept.
/// ADD SP, e (e a signed byte) gives SP + e (mod 65536), with H and C the
/// carries out of bits 3 and 7 of the unsigned low-byte addition, and Z
/// and N cleared.
pub proof fn law_add16(r: Registers, v: u16, e: i8)
    ensures
        add_hl_spec(r, v).hl_spec() == (r.hl_spec() + v) % 65536,
        flags_of(add_hl_spec(r, v)) == (r.f & 0x80 != 0, false, r.hl_spec() % 4096 + v % 4096
            >= 4096, r.hl_spec() + v >= 65536),
        add_hl_spec(r, v) == (Registers {
            h: add_hl_spec(r, v).h,
            l: add_hl_spec(r, v).l,
            f: add_hl_spec(r, v).f,
            ..r
        }),
        add_sp_i8_spec(r, e).0 == (r.sp + e + 65536) % 65536,
        flags_of(add_sp_i8_spec(r, e).1) == (false, false, r.sp % 16 + (e + 256) % 256 % 16 >= 16,
            r.sp % 256 + (e + 256) % 256 >= 256),
        add_sp_i8_spec(r, e).1 == (Registers { f: add_sp_i8_spec(r, e).1.f, ..r }),
{
    lemma_flag_bits();
    let hl = r.hl_spec();
    let sp = r.sp;
    let res = hl.wrapping_add(v);
    crate::bits::lemma_word_roundtrip(res, 0, 0);
    let off = e as i16 as u16;
    assert({
        &&& (hl & 0x0FFFu16) as int == hl % 4096
        &&& (v & 0x0FFFu16) as int == v % 4096
        &&& off as int == (e + 65536) % 65536
        &&& (sp & 0xFFu16) as int == sp % 256
        &&& (off & 0xFFu16) as int == (e + 256) % 256
        &&& ((sp & 0xFFu16) & 0x0Fu16) as int == sp % 16
        &&& ((off & 0xFFu16) & 0x0Fu16) as int == (e + 256) % 256 % 16
    }) by (bit_vector)
        requires
            off == e as i16 as u16,
    ;
    assert(r.zf() == (r.f & 0x80 != 0));
}

} // verus!
