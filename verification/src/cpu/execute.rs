//! The unprefixed opcode table.

use vstd::prelude::*;
use crate::bits::word;
use crate::cpu::{
    Cpu, CpuState, ImeState, keeps_inv, read8, write8, read16, write16, fetch8, fetch16, push16,
    pop16,
};
use crate::cpu::alu::{
    alu_op_spec, inc8_spec, dec8_spec, daa_spec, rlca_spec, rrca_spec, rla_spec, rra_spec,
    cpl_spec, scf_spec, ccf_spec, add_hl_spec, add_sp_i8_spec,
};
use crate::cpu::registers::{Registers, Flag};
use crate::memory::Bus;

verus! {

/// The opcodes that the DMG leaves undefined; they are not implemented.
pub open spec fn is_implemented(op: u8) -> bool {
    !(op == 0xD3 || op == 0xDB || op == 0xDD || op == 0xE3 || op == 0xE4 || op == 0xEB || op
        == 0xEC || op == 0xED || op == 0xF4 || op == 0xFC || op == 0xFD)
}

/// The 3-bit register index of the opcode tables:
/// B, C, D, E, H, L, (HL), A.
pub open spec fn reg_get<B: Bus>(s: CpuState<B::V>, idx: u8) -> u8 {
    let i = idx & 7;
    if i == 0 {
        s.regs.b
    } else if i == 1 {
        s.regs.c
    } else if i == 2 {
        s.regs.d
    } else if i == 3 {
        s.regs.e
    } else if i == 4 {
        s.regs.h
    } else if i == 5 {
        s.regs.l
    } else if i == 6 {
        read8::<B>(s, s.regs.hl_spec())
    } else {
        s.regs.a
    }
}

pub open spec fn reg_set<B: Bus>(s: CpuState<B::V>, idx: u8, v: u8) -> CpuState<B::V> {
    let i = idx & 7;
    if i == 0 {
        s.with_regs(Registers { b: v, ..s.regs })
    } else if i == 1 {
        s.with_regs(Registers { c: v, ..s.regs })
    } else if i == 2 {
        s.with_regs(Registers { d: v, ..s.regs })
    } else if i == 3 {
        s.with_regs(Registers { e: v, ..s.regs })
    } else if i == 4 {
        s.with_regs(Registers { h: v, ..s.regs })
    } else if i == 5 {
        s.with_regs(Registers { l: v, ..s.regs })
    } else if i == 6 {
        write8::<B>(s, s.regs.hl_spec(), v)
    } else {
        s.with_regs(Registers { a: v, ..s.regs })
    }
}

/// LD r, r' (0x40..=0x7F but 0x76).
pub open spec fn ld_r_r_spec<B: Bus>(s: CpuState<B::V>, op: u8) -> (CpuState<B::V>, u32) {
    let dest = (op >> 3u8) & 7;
    let src = op & 7;
    (reg_set::<B>(s, dest, reg_get::<B>(s, src)), if dest == 6 || src == 6 { 8 } else { 4 })
}

/// ALU A, r (0x80..=0xBF).
pub open spec fn alu_r_spec<B: Bus>(s: CpuState<B::V>, op: u8) -> (CpuState<B::V>, u32) {
    let src = op & 7;
    (
        s.with_regs(alu_op_spec((op >> 3u8) & 7, s.regs, reg_get::<B>(s, src))),
        if src == 6 { 8 } else { 4 },
    )
}

/// PC after a relative jump by the signed byte `off`.
pub open spec fn jr_target(pc: u16, off: u8) -> u16 {
    ((pc as i16).wrapping_add(off as i8 as i16)) as u16
}

pub open spec fn jr_spec<B: Bus>(s: CpuState<B::V>, taken: bool) -> (CpuState<B::V>, u32) {
    let (off, s1) = fetch8::<B>(s);
    if taken {
        (s1.with_pc(jr_target(s1.regs.pc, off)), 12)
    } else {
        (s1, 8)
    }
}

pub open spec fn jp_spec<B: Bus>(s: CpuState<B::V>, taken: bool) -> (CpuState<B::V>, u32) {
    let (addr, s1) = fetch16::<B>(s);
    if taken {
        (s1.with_pc(addr), 16)
    } else {
        (s1, 12)
    }
}

pub open spec fn call_spec<B: Bus>(s: CpuState<B::V>, taken: bool) -> (CpuState<B::V>, u32) {
    let (addr, s1) = fetch16::<B>(s);
    if taken {
        (push16::<B>(s1, s1.regs.pc).with_pc(addr), 24)
    } else {
        (s1, 12)
    }
}

pub open spec fn ret_spec<B: Bus>(s: CpuState<B::V>, taken: bool) -> (CpuState<B::V>, u32) {
    if taken {
        let (v, s1) = pop16::<B>(s);
        (s1.with_pc(v), 20)
    } else {
        (s, 8)
    }
}

/// RST n: push PC and jump to the fixed vector.
pub open spec fn rst_spec<B: Bus>(s: CpuState<B::V>, vector: u16) -> (CpuState<B::V>, u32) {
    (push16::<B>(s, s.regs.pc).with_pc(vector), 16)
}

/// LD r, d8.
pub open spec fn ld_r_d8_spec<B: Bus>(s: CpuState<B::V>, r: Registers) -> (CpuState<B::V>, u32) {
    (s.with_regs(r), 8)
}

/// ALU A, d8.
pub open spec fn alu_d8_spec<B: Bus>(s: CpuState<B::V>, op: u8) -> (CpuState<B::V>, u32) {
    let (v, s1) = fetch8::<B>(s);
    (s1.with_regs(alu_op_spec(op, s1.regs, v)), 8)
}

/// INC (HL) / DEC (HL).
pub open spec fn inc_dec_hl_spec<B: Bus>(s: CpuState<B::V>, inc: bool) -> (CpuState<B::V>, u32) {
    let hl = s.regs.hl_spec();
    let v = read8::<B>(s, hl);
    let (res, r1) = if inc { inc8_spec(s.regs, v) } else { dec8_spec(s.regs, v) };
    (write8::<B>(s.with_regs(r1), hl, res), 12)
}

/// What executing the fetched opcode `op` does: the new state and the
/// number of T-cycles taken. `s` is the state after the opcode byte was
/// fetched.
pub open spec fn exec_spec<B: Bus>(s: CpuState<B::V>, op: u8) -> (CpuState<B::V>, u32) {
    let r = s.regs;
    if 0x40 <= op <= 0x7F && op != 0x76 {
        ld_r_r_spec::<B>(s, op)
    } else if 0x80 <= op <= 0xBF {
        alu_r_spec::<B>(s, op)
    } else { match op {
        0x00 => (s, 4),
        0x10 => (fetch8::<B>(s).1, 4),
        0x01 => {
            let (v, s1) = fetch16::<B>(s);
            (s1.with_regs(s1.regs.with_bc(v)), 12)
        },
        0x11 => {
            let (v, s1) = fetch16::<B>(s);
            (s1.with_regs(s1.regs.with_de(v)), 12)
        },
        0x21 => {
            let (v, s1) = fetch16::<B>(s);
            (s1.with_regs(s1.regs.with_hl(v)), 12)
        },
        0x31 => {
            let (v, s1) = fetch16::<B>(s);
            (s1.with_sp(v), 12)
        },
        0x06 => {
            let (v, s1) = fetch8::<B>(s);
            (s1.with_regs(Registers { b: v, ..s1.regs }), 8)
        },
        0x0E => {
            let (v, s1) = fetch8::<B>(s);
            (s1.with_regs(Registers { c: v, ..s1.regs }), 8)
        },
        0x16 => {
            let (v, s1) = fetch8::<B>(s);
            (s1.with_regs(Registers { d: v, ..s1.regs }), 8)
        },
        0x1E => {
            let (v, s1) = fetch8::<B>(s);
            (s1.with_regs(Registers { e: v, ..s1.regs }), 8)
        },
        0x26 => {
            let (v, s1) = fetch8::<B>(s);
            (s1.with_regs(Registers { h: v, ..s1.regs }), 8)
        },
        0x2E => {
            let (v, s1) = fetch8::<B>(s);
            (s1.with_regs(Registers { l: v, ..s1.regs }), 8)
        },
        0x36 => {
            let (v, s1) = fetch8::<B>(s);
            (write8::<B>(s1, s1.regs.hl_spec(), v), 12)
        },
        0x3E => {
            let (v, s1) = fetch8::<B>(s);
            (s1.with_regs(Registers { a: v, ..s1.regs }), 8)
        },
        0x02 => (write8::<B>(s, r.bc_spec(), r.a), 8),
        0x12 => (write8::<B>(s, r.de_spec(), r.a), 8),
        0x0A => (s.with_regs(Registers { a: read8::<B>(s, r.bc_spec()), ..r }), 8),
        0x1A => (s.with_regs(Registers { a: read8::<B>(s, r.de_spec()), ..r }), 8),
        0x22 => {
            let s1 = write8::<B>(s, r.hl_spec(), r.a);
            (s1.with_regs(r.with_hl(r.hl_spec().wrapping_add(1))), 8)
        },
        0x32 => {
            let s1 = write8::<B>(s, r.hl_spec(), r.a);
            (s1.with_regs(r.with_hl(r.hl_spec().wrapping_sub(1))), 8)
        },
        0x2A => (
            s.with_regs(
                Registers { a: read8::<B>(s, r.hl_spec()), ..r }.with_hl(r.hl_spec().wrapping_add(1)),
            ),
            8,
        ),
        0x3A => (
            s.with_regs(
                Registers { a: read8::<B>(s, r.hl_spec()), ..r }.with_hl(r.hl_spec().wrapping_sub(1)),
            ),
            8,
        ),
        0xFA => {
            let (a, s1) = fetch16::<B>(s);
            (s1.with_regs(Registers { a: read8::<B>(s1, a), ..s1.regs }), 16)
        },
        0xEA => {
            let (a, s1) = fetch16::<B>(s);
            (write8::<B>(s1, a, s1.regs.a), 16)
        },
        0xE0 => {
            let (off, s1) = fetch8::<B>(s);
            (write8::<B>(s1, (0xFF00 + off) as u16, s1.regs.a), 12)
        },
        0xF0 => {
            let (off, s1) = fetch8::<B>(s);
            (s1.with_regs(Registers { a: read8::<B>(s1, (0xFF00 + off) as u16), ..s1.regs }), 12)
        },
        0xE2 => (write8::<B>(s, (0xFF00 + r.c) as u16, r.a), 8),
        0xF2 => (s.with_regs(Registers { a: read8::<B>(s, (0xFF00 + r.c) as u16), ..r }), 8),
        0x08 => {
            let (a, s1) = fetch16::<B>(s);
            (write16::<B>(s1, a, s1.regs.sp), 20)
        },
        0x76 => (CpuState { halted: true, ..s }, 4),
        0xC6 => alu_d8_spec::<B>(s, 0),
        0xCE => alu_d8_spec::<B>(s, 1),
        0xD6 => alu_d8_spec::<B>(s, 2),
        0xDE => alu_d8_spec::<B>(s, 3),
        0xE6 => alu_d8_spec::<B>(s, 4),
        0xEE => alu_d8_spec::<B>(s, 5),
        0xF6 => alu_d8_spec::<B>(s, 6),
        0xFE => alu_d8_spec::<B>(s, 7),
        0x04 => {
            let (res, r1) = inc8_spec(r, r.b);
            (s.with_regs(Registers { b: res, ..r1 }), 4)
        },
        0x0C => {
            let (res, r1) = inc8_spec(r, r.c);
            (s.with_regs(Registers { c: res, ..r1 }), 4)
        },
        0x14 => {
            let (res, r1) = inc8_spec(r, r.d);
            (s.with_regs(Registers { d: res, ..r1 }), 4)
        },
        0x1C => {
            let (res, r1) = inc8_spec(r, r.e);
            (s.with_regs(Registers { e: res, ..r1 }), 4)
        },
        0x24 => {
            let (res, r1) = inc8_spec(r, r.h);
            (s.with_regs(Registers { h: res, ..r1 }), 4)
        },
        0x2C => {
            let (res, r1) = inc8_spec(r, r.l);
            (s.with_regs(Registers { l: res, ..r1 }), 4)
        },
        0x3C => {
            let (res, r1) = inc8_spec(r, r.a);
            (s.with_regs(Registers { a: res, ..r1 }), 4)
        },
        0x34 => inc_dec_hl_spec::<B>(s, true),
        0x05 => {
            let (res, r1) = dec8_spec(r, r.b);
            (s.with_regs(Registers { b: res, ..r1 }), 4)
        },
        0x0D => {
            let (res, r1) = dec8_spec(r, r.c);
            (s.with_regs(Registers { c: res, ..r1 }), 4)
        },
        0x15 => {
            let (res, r1) = dec8_spec(r, r.d);
            (s.with_regs(Registers { d: res, ..r1 }), 4)
        },
        0x1D => {
            let (res, r1) = dec8_spec(r, r.e);
            (s.with_regs(Registers { e: res, ..r1 }), 4)
        },
        0x25 => {
            let (res, r1) = dec8_spec(r, r.h);
            (s.with_regs(Registers { h: res, ..r1 }), 4)
        },
        0x2D => {
            let (res, r1) = dec8_spec(r, r.l);
            (s.with_regs(Registers { l: res, ..r1 }), 4)
        },
        0x3D => {
            let (res, r1) = dec8_spec(r, r.a);
            (s.with_regs(Registers { a: res, ..r1 }), 4)
        },
        0x35 => inc_dec_hl_spec::<B>(s, false),
        0x03 => (s.with_regs(r.with_bc(r.bc_spec().wrapping_add(1))), 8),
        0x13 => (s.with_regs(r.with_de(r.de_spec().wrapping_add(1))), 8),
        0x23 => (s.with_regs(r.with_hl(r.hl_spec().wrapping_add(1))), 8),
        0x33 => (s.with_sp(r.sp.wrapping_add(1)), 8),
        0x0B => (s.with_regs(r.with_bc(r.bc_spec().wrapping_sub(1))), 8),
        0x1B => (s.with_regs(r.with_de(r.de_spec().wrapping_sub(1))), 8),
        0x2B => (s.with_regs(r.with_hl(r.hl_spec().wrapping_sub(1))), 8),
        0x3B => (s.with_sp(r.sp.wrapping_sub(1)), 8),
        0x07 => (s.with_regs(rlca_spec(r)), 4),
        0x0F => (s.with_regs(rrca_spec(r)), 4),
        0x17 => (s.with_regs(rla_spec(r)), 4),
        0x1F => (s.with_regs(rra_spec(r)), 4),
        0x27 => (s.with_regs(daa_spec(r)), 4),
        0x2F => (s.with_regs(cpl_spec(r)), 4),
        0x37 => (s.with_regs(scf_spec(r)), 4),
        0x3F => (s.with_regs(ccf_spec(r)), 4),
        0x09 => (s.with_regs(add_hl_spec(r, r.bc_spec())), 8),
        0x19 => (s.with_regs(add_hl_spec(r, r.de_spec())), 8),
        0x29 => (s.with_regs(add_hl_spec(r, r.hl_spec())), 8),
        0x39 => (s.with_regs(add_hl_spec(r, r.sp)), 8),
        0xE8 => {
            let (off, s1) = fetch8::<B>(s);
            let (v, r1) = add_sp_i8_spec(s1.regs, off as i8);
            (s1.with_regs(Registers { sp: v, ..r1 }), 16)
        },
        0xF8 => {
            let (off, s1) = fetch8::<B>(s);
            let (v, r1) = add_sp_i8_spec(s1.regs, off as i8);
            (s1.with_regs(r1.with_hl(v)), 12)
        },
        0xF9 => (s.with_sp(r.hl_spec()), 8),
        0xC5 => (push16::<B>(s, r.bc_spec()), 16),
        0xD5 => (push16::<B>(s, r.de_spec()), 16),
        0xE5 => (push16::<B>(s, r.hl_spec()), 16),
        0xF5 => (push16::<B>(s, r.af_spec()), 16),
        0xC1 => {
            let (v, s1) = pop16::<B>(s);
            (s1.with_regs(s1.regs.with_bc(v)), 12)
        },
        0xD1 => {
            let (v, s1) = pop16::<B>(s);
            (s1.with_regs(s1.regs.with_de(v)), 12)
        },
        0xE1 => {
            let (v, s1) = pop16::<B>(s);
            (s1.with_regs(s1.regs.with_hl(v)), 12)
        },
        0xF1 => {
            let (v, s1) = pop16::<B>(s);
            (s1.with_regs(s1.regs.with_af(v)), 12)
        },
        0xC3 => jp_spec::<B>(s, true),
        0xC2 => jp_spec::<B>(s, !r.zf()),
        0xCA => jp_spec::<B>(s, r.zf()),
        0xD2 => jp_spec::<B>(s, !r.cf()),
        0xDA => jp_spec::<B>(s, r.cf()),
        0xE9 => (s.with_pc(r.hl_spec()), 4),
        0x18 => jr_spec::<B>(s, true),
        0x20 => jr_spec::<B>(s, !r.zf()),
        0x28 => jr_spec::<B>(s, r.zf()),
        0x30 => jr_spec::<B>(s, !r.cf()),
        0x38 => jr_spec::<B>(s, r.cf()),
        0xCD => call_spec::<B>(s, true),
        0xC4 => call_spec::<B>(s, !r.zf()),
        0xCC => call_spec::<B>(s, r.zf()),
        0xD4 => call_spec::<B>(s, !r.cf()),
        0xDC => call_spec::<B>(s, r.cf()),
        0xC9 => {
            let (v, s1) = pop16::<B>(s);
            (s1.with_pc(v), 16)
        },
        0xC0 => ret_spec::<B>(s, !r.zf()),
        0xC8 => ret_spec::<B>(s, r.zf()),
        0xD0 => ret_spec::<B>(s, !r.cf()),
        0xD8 => ret_spec::<B>(s, r.cf()),
        0xD9 => {
            let (v, s1) = pop16::<B>(s);
            (CpuState { ime: true, ime_state: ImeState::Enabled, ..s1.with_pc(v) }, 16)
        },
        0xC7 => rst_spec::<B>(s, 0x00),
        0xCF => rst_spec::<B>(s, 0x08),
        0xD7 => rst_spec::<B>(s, 0x10),
        0xDF => rst_spec::<B>(s, 0x18),
        0xE7 => rst_spec::<B>(s, 0x20),
        0xEF => rst_spec::<B>(s, 0x28),
        0xF7 => rst_spec::<B>(s, 0x30),
        0xFF => rst_spec::<B>(s, 0x38),
        0xF3 => (CpuState { ime: false, ime_state: ImeState::Disabled, ..s }, 4),
        0xFB => (
            CpuState {
                ime_state: if s.ime_state == ImeState::Disabled {
                    ImeState::EnablePending
                } else {
                    s.ime_state
                },
                ..s
            },
            4,
        ),
        0xCB => {
            let (cb, s1) = fetch8::<B>(s);
            crate::cpu::execute_cb::cb_spec::<B>(s1, cb)
        },
        _ => (s, 0),
    } }
}

impl<B: Bus> Cpu<B> {
    #[verifier::rlimit(100)]
    #[verifier::spinoff_prover]
    pub fn execute(&mut self, opcode: u8) -> (cycles: u32)
        requires
            is_implemented(opcode),
        ensures
            (final(self)@, cycles) == exec_spec::<B>(old(self)@, opcode),
            keeps_inv::<B>(old(self)@, final(self)@),
    {
        if 0x40 <= opcode && opcode <= 0x7F && opcode != 0x76 {
            return self.execute_ld_r_r(opcode);
        }
        if 0x80 <= opcode && opcode <= 0xBF {
            return self.execute_alu_r(opcode);
        }
        match opcode {
            0x00 => {
                4
            },
            // 0x10 STOP: on the DMG a 2-byte NOP; the second byte is consumed.
            0x10 => {
                self.fetch_byte();
                4
            },
            0x01 => {
                let v = self.fetch_word();
                self.regs.set_bc(v);
                12
            },
            0x11 => {
                let v = self.fetch_word();
                self.regs.set_de(v);
                12
            },
            0x21 => {
                let v = self.fetch_word();
                self.regs.set_hl(v);
                12
            },
            0x31 => {
                let v = self.fetch_word();
                self.regs.sp = v;
                12
            },
            0x06 => {
                let v = self.fetch_byte();
                self.regs.b = v;
                8
            },
            0x0E => {
                let v = self.fetch_byte();
                self.regs.c = v;
                8
            },
            0x16 => {
                let v = self.fetch_byte();
                self.regs.d = v;
                8
            },
            0x1E => {
                let v = self.fetch_byte();
                self.regs.e = v;
                8
            },
            0x26 => {
                let v = self.fetch_byte();
                self.regs.h = v;
                8
            },
            0x2E => {
                let v = self.fetch_byte();
                self.regs.l = v;
                8
            },
            0x36 => {
                let v = self.fetch_byte();
                let hl = self.regs.hl();
                self.bus.write(hl, v);
                12
            },
            0x3E => {
                let v = self.fetch_byte();
                self.regs.a = v;
                8
            },
            0x02 => {
                let bc = self.regs.bc();
                self.bus.write(bc, self.regs.a);
                8
            },
            0x12 => {
                let de = self.regs.de();
                self.bus.write(de, self.regs.a);
                8
            },
            0x0A => {
                self.regs.a = self.bus.read(self.regs.bc());
                8
            },
            0x1A => {
                self.regs.a = self.bus.read(self.regs.de());
                8
            },
            0x22 => {
                let hl = self.regs.hl();
                self.bus.write(hl, self.regs.a);
                self.regs.set_hl(hl.wrapping_add(1));
                8
            },
            0x32 => {
                let hl = self.regs.hl();
                self.bus.write(hl, self.regs.a);
                self.regs.set_hl(hl.wrapping_sub(1));
                8
            },
            0x2A => {
                let hl = self.regs.hl();
                self.regs.a = self.bus.read(hl);
                self.regs.set_hl(hl.wrapping_add(1));
                8
            },
            0x3A => {
                let hl = self.regs.hl();
                self.regs.a = self.bus.read(hl);
                self.regs.set_hl(hl.wrapping_sub(1));
                8
            },
            0xFA => {
                let a = self.fetch_word();
                self.regs.a = self.bus.read(a);
                16
            },
            0xEA => {
                let a = self.fetch_word();
                self.bus.write(a, self.regs.a);
                16
            },
            0xE0 => {
                let off = self.fetch_byte() as u16;
                self.bus.write(0xFF00 + off, self.regs.a);
                12
            },
            0xF0 => {
                let off = self.fetch_byte() as u16;
                self.regs.a = self.bus.read(0xFF00 + off);
                12
            },
            0xE2 => {
                let addr = 0xFF00 + self.regs.c as u16;
                self.bus.write(addr, self.regs.a);
                8
            },
            0xF2 => {
                let addr = 0xFF00 + self.regs.c as u16;
                self.regs.a = self.bus.read(addr);
                8
            },
            0x08 => {
                let a = self.fetch_word();
                self.bus.write_word(a, self.regs.sp);
                20
            },
            0x76 => {
                self.halted = true;
                4
            },
            0xC6 => {
                let v = self.fetch_byte();
                self.alu_add(v);
                8
            },
            0xCE => {
                let v = self.fetch_byte();
                self.alu_adc(v);
                8
            },
            0xD6 => {
                let v = self.fetch_byte();
                self.alu_sub(v);
                8
            },
            0xDE => {
                let v = self.fetch_byte();
                self.alu_sbc(v);
                8
            },
            0xE6 => {
                let v = self.fetch_byte();
                self.alu_and(v);
                8
            },
            0xEE => {
                let v = self.fetch_byte();
                self.alu_xor(v);
                8
            },
            0xF6 => {
                let v = self.fetch_byte();
                self.alu_or(v);
                8
            },
            0xFE => {
                let v = self.fetch_byte();
                self.alu_cp(v);
                8
            },
            0x04 => {
                self.regs.b = self.alu_inc8(self.regs.b);
                4
            },
            0x14 => {
                self.regs.d = self.alu_inc8(self.regs.d);
                4
            },
            0x24 => {
                self.regs.h = self.alu_inc8(self.regs.h);
                4
            },
            0x34 => {
                let hl = self.regs.hl();
                let v = self.bus.read(hl);
                let r = self.alu_inc8(v);
                self.bus.write(hl, r);
                12
            },
            0x0C => {
                self.regs.c = self.alu_inc8(self.regs.c);
                4
            },
            0x1C => {
                self.regs.e = self.alu_inc8(self.regs.e);
                4
            },
            0x2C => {
                self.regs.l = self.alu_inc8(self.regs.l);
                4
            },
            0x3C => {
                self.regs.a = self.alu_inc8(self.regs.a);
                4
            },
            0x05 => {
                self.regs.b = self.alu_dec8(self.regs.b);
                4
            },
            0x15 => {
                self.regs.d = self.alu_dec8(self.regs.d);
                4
            },
            0x25 => {
                self.regs.h = self.alu_dec8(self.regs.h);
                4
            },
            0x35 => {
                let hl = self.regs.hl();
                let v = self.bus.read(hl);
                let r = self.alu_dec8(v);
                self.bus.write(hl, r);
                12
            },
            0x0D => {
                self.regs.c = self.alu_dec8(self.regs.c);
                4
            },
            0x1D => {
                self.regs.e = self.alu_dec8(self.regs.e);
                4
            },
            0x2D => {
                self.regs.l = self.alu_dec8(self.regs.l);
                4
            },
            0x3D => {
                self.regs.a = self.alu_dec8(self.regs.a);
                4
            },
            0x03 => {
                let v = self.regs.bc().wrapping_add(1);
                self.regs.set_bc(v);
                8
            },
            0x13 => {
                let v = self.regs.de().wrapping_add(1);
                self.regs.set_de(v);
                8
            },
            0x23 => {
                let v = self.regs.hl().wrapping_add(1);
                self.regs.set_hl(v);
                8
            },
            0x33 => {
                self.regs.sp = self.regs.sp.wrapping_add(1);
                8
            },
            0x0B => {
                let v = self.regs.bc().wrapping_sub(1);
                self.regs.set_bc(v);
                8
            },
            0x1B => {
                let v = self.regs.de().wrapping_sub(1);
                self.regs.set_de(v);
                8
            },
            0x2B => {
                let v = self.regs.hl().wrapping_sub(1);
                self.regs.set_hl(v);
                8
            },
            0x3B => {
                self.regs.sp = self.regs.sp.wrapping_sub(1);
                8
            },
            0x07 => {
                self.alu_rlca();
                4
            },
            0x0F => {
                self.alu_rrca();
                4
            },
            0x17 => {
                self.alu_rla();
                4
            },
            0x1F => {
                self.alu_rra();
                4
            },
            0x27 => {
                self.alu_daa();
                4
            },
            0x2F => {
                self.alu_cpl();
                4
            },
            0x37 => {
                self.alu_scf();
                4
            },
            0x3F => {
                self.alu_ccf();
                4
            },
            0x09 => {
                let v = self.regs.bc();
                self.alu_add_hl(v);
                8
            },
            0x19 => {
                let v = self.regs.de();
                self.alu_add_hl(v);
                8
            },
            0x29 => {
                let v = self.regs.hl();
                self.alu_add_hl(v);
                8
            },
            0x39 => {
                let v = self.regs.sp;
                self.alu_add_hl(v);
                8
            },
            0xE8 => {
                let off = #[verifier::truncate] (self.fetch_byte() as i8);
                self.regs.sp = self.alu_add_sp_i8(off);
                16
            },
            0xF8 => {
                let off = #[verifier::truncate] (self.fetch_byte() as i8);
                let v = self.alu_add_sp_i8(off);
                self.regs.set_hl(v);
                12
            },
            0xF9 => {
                self.regs.sp = self.regs.hl();
                8
            },
            0xC5 => {
                let v = self.regs.bc();
                self.push(v);
                16
            },
            0xD5 => {
                let v = self.regs.de();
                self.push(v);
                16
            },
            0xE5 => {
                let v = self.regs.hl();
                self.push(v);
                16
            },
            0xF5 => {
                let v = self.regs.af();
                self.push(v);
                16
            },
            0xC1 => {
                let v = self.pop();
                self.regs.set_bc(v);
                12
            },
            0xD1 => {
                let v = self.pop();
                self.regs.set_de(v);
                12
            },
            0xE1 => {
                let v = self.pop();
                self.regs.set_hl(v);
                12
            },
            0xF1 => {
                let v = self.pop();
                self.regs.set_af(v);
                12
            },
            0xC3 => {
                let addr = self.fetch_word();
                self.regs.pc = addr;
                16
            },
            0xC2 => {
                let t = !self.regs.get_flag(Flag::Z);
                self.jp_conditional(t)
            },
            0xCA => {
                let t = self.regs.get_flag(Flag::Z);
                self.jp_conditional(t)
            },
            0xD2 => {
                let t = !self.regs.get_flag(Flag::C);
                self.jp_conditional(t)
            },
            0xDA => {
                let t = self.regs.get_flag(Flag::C);
                self.jp_conditional(t)
            },
            0xE9 => {
                self.regs.pc = self.regs.hl();
                4
            },
            0x18 => {
                self.jr_unconditional()
            },
            0x20 => {
                let t = !self.regs.get_flag(Flag::Z);
                self.jr_conditional(t)
            },
            0x28 => {
                let t = self.regs.get_flag(Flag::Z);
                self.jr_conditional(t)
            },
            0x30 => {
                let t = !self.regs.get_flag(Flag::C);
                self.jr_conditional(t)
            },
            0x38 => {
                let t = self.regs.get_flag(Flag::C);
                self.jr_conditional(t)
            },
            0xCD => {
                let a = self.fetch_word();
                let pc = self.regs.pc;
                self.push(pc);
                self.regs.pc = a;
                24
            },
            0xC4 => {
                let t = !self.regs.get_flag(Flag::Z);
                self.call_conditional(t)
            },
            0xCC => {
                let t = self.regs.get_flag(Flag::Z);
                self.call_conditional(t)
            },
            0xD4 => {
                let t = !self.regs.get_flag(Flag::C);
                self.call_conditional(t)
            },
            0xDC => {
                let t = self.regs.get_flag(Flag::C);
                self.call_conditional(t)
            },
            0xC9 => {
                self.regs.pc = self.pop();
                16
            },
            0xC0 => {
                let t = !self.regs.get_flag(Flag::Z);
                self.ret_conditional(t)
            },
            0xC8 => {
                let t = self.regs.get_flag(Flag::Z);
                self.ret_conditional(t)
            },
            0xD0 => {
                let t = !self.regs.get_flag(Flag::C);
                self.ret_conditional(t)
            },
            0xD8 => {
                let t = self.regs.get_flag(Flag::C);
                self.ret_conditional(t)
            },
            0xD9 => {
                self.regs.pc = self.pop();
                self.ime = true;
                self.ime_state = ImeState::Enabled;
                16
            },
            0xC7 => {
                self.rst(0x00)
            },
            0xCF => {
                self.rst(0x08)
            },
            0xD7 => {
                self.rst(0x10)
            },
            0xDF => {
                self.rst(0x18)
            },
            0xE7 => {
                self.rst(0x20)
            },
            0xEF => {
                self.rst(0x28)
            },
            0xF7 => {
                self.rst(0x30)
            },
            0xFF => {
                self.rst(0x38)
            },
            0xF3 => {
                self.ime = false;
                self.ime_state = ImeState::Disabled;
                4
            },
            0xFB => {
                // EI: enable IME after the next instruction.
                if self.ime_state == ImeState::Disabled {
                    self.ime_state = ImeState::EnablePending;
                }
                4
            },
            0xCB => {
                let cb = self.fetch_byte();
                self.execute_cb(cb)
            },
            _ => {
                assert(false);
                0
            },
        }
    }

    pub fn read_reg(&self, idx: u8) -> (r: u8)
        ensures
            r == reg_get::<B>(self@, idx),
    {
        match idx & 0x07 {
            0 => self.regs.b,
            1 => self.regs.c,
            2 => self.regs.d,
            3 => self.regs.e,
            4 => self.regs.h,
            5 => self.regs.l,
            6 => self.bus.read(self.regs.hl()),
            _ => self.regs.a,
        }
    }

    pub fn write_reg(&mut self, idx: u8, value: u8)
        ensures
            final(self)@ == reg_set::<B>(old(self)@, idx, value),
            keeps_inv::<B>(old(self)@, final(self)@),
    {
        match idx & 0x07 {
            0 => self.regs.b = value,
            1 => self.regs.c = value,
            2 => self.regs.d = value,
            3 => self.regs.e = value,
            4 => self.regs.h = value,
            5 => self.regs.l = value,
            6 => {
                let hl = self.regs.hl();
                self.bus.write(hl, value)
            },
            _ => self.regs.a = value,
        }
    }

    fn execute_ld_r_r(&mut self, opcode: u8) -> (cycles: u32)
        ensures
            (final(self)@, cycles) == ld_r_r_spec::<B>(old(self)@, opcode),
            keeps_inv::<B>(old(self)@, final(self)@),
    {
        let dest = (opcode >> 3) & 0x07;
        let src = opcode & 0x07;
        let value = self.read_reg(src);
        self.write_reg(dest, value);
        if dest == 6 || src == 6 {
            8
        } else {
            4
        }
    }

    fn execute_alu_r(&mut self, opcode: u8) -> (cycles: u32)
        ensures
            (final(self)@, cycles) == alu_r_spec::<B>(old(self)@, opcode),
            keeps_inv::<B>(old(self)@, final(self)@),
    {
        let op = (opcode >> 3) & 0x07;
        let src = opcode & 0x07;
        let v = self.read_reg(src);
        self.alu_op(op, v);
        if src == 6 {
            8
        } else {
            4
        }
    }

    fn jr_unconditional(&mut self) -> (cycles: u32)
        ensures
            (final(self)@, cycles) == jr_spec::<B>(old(self)@, true),
    {
        let offset = self.fetch_byte() as i8 as i16;
        self.regs.pc = (self.regs.pc as i16).wrapping_add(offset) as u16;
        12
    }

    fn jr_conditional(&mut self, taken: bool) -> (cycles: u32)
        ensures
            (final(self)@, cycles) == jr_spec::<B>(old(self)@, taken),
    {
        let offset = self.fetch_byte() as i8 as i16;
        if taken {
            self.regs.pc = (self.regs.pc as i16).wrapping_add(offset) as u16;
            12
        } else {
            8
        }
    }

    fn jp_conditional(&mut self, taken: bool) -> (cycles: u32)
        ensures
            (final(self)@, cycles) == jp_spec::<B>(old(self)@, taken),
    {
        let addr = self.fetch_word();
        if taken {
            self.regs.pc = addr;
            16
        } else {
            12
        }
    }

    fn call_conditional(&mut self, taken: bool) -> (cycles: u32)
        ensures
            (final(self)@, cycles) == call_spec::<B>(old(self)@, taken),
            keeps_inv::<B>(old(self)@, final(self)@),
    {
        let addr = self.fetch_word();
        if taken {
            let pc = self.regs.pc;
            self.push(pc);
            self.regs.pc = addr;
            24
        } else {
            12
        }
    }

    fn ret_conditional(&mut self, taken: bool) -> (cycles: u32)
        ensures
            (final(self)@, cycles) == ret_spec::<B>(old(self)@, taken),
    {
        if taken {
            self.regs.pc = self.pop();
            20
        } else {
            8
        }
    }

    fn rst(&mut self, vector: u16) -> (cycles: u32)
        ensures
            (final(self)@, cycles) == rst_spec::<B>(old(self)@, vector),
            keeps_inv::<B>(old(self)@, final(self)@),
    {
        let pc = self.regs.pc;
        self.push(pc);
        self.regs.pc = vector;
        16
    }

    pub fn push(&mut self, value: u16)
        ensures
            final(self)@ == push16::<B>(old(self)@, value),
            keeps_inv::<B>(old(self)@, final(self)@),
    {
        self.regs.sp = self.regs.sp.wrapping_sub(2);
        let sp = self.regs.sp;
        self.bus.write_word(sp, value);
    }

    pub fn pop(&mut self) -> (v: u16)
        ensures
            (v, final(self)@) == pop16::<B>(old(self)@),
    {
        let v = self.bus.read_word(self.regs.sp);
        self.regs.sp = self.regs.sp.wrapping_add(2);
        v
    }
}

} // verus!
