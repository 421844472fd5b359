//! The CPU register file and its flag bits.

use vstd::prelude::*;
use crate::bits::{word, hi_byte, lo_byte, lemma_word_bits};

verus! {

pub const FLAG_Z: u8 = 0x80;
pub const FLAG_N: u8 = 0x40;
pub const FLAG_H: u8 = 0x20;
pub const FLAG_C: u8 = 0x10;

#[derive(Debug, Default, Clone, Copy)]
pub struct Registers {
    pub a: u8,
    pub b: u8,
    pub c: u8,
    pub d: u8,
    pub e: u8,
    pub f: u8,
    pub h: u8,
    pub l: u8,
    pub sp: u16,
    pub pc: u16,
}

#[derive(Debug, Clone, Copy)]
pub enum Flag {
    Z,
    N,
    H,
    C,
}

/// The bit of F that holds a flag.
pub open spec fn flag_mask(flag: Flag) -> u8 {
    match flag {
        Flag::Z => FLAG_Z,
        Flag::N => FLAG_N,
        Flag::H => FLAG_H,
        Flag::C => FLAG_C,
    }
}

/// Whether the bit `mask` is set in `f`.
pub open spec fn bit_set(f: u8, mask: u8) -> bool {
    f & mask != 0
}

/// F after writing one flag: the bit is set or cleared, and the unused
/// low nibble is cleared.
pub open spec fn with_flag(f: u8, mask: u8, value: bool) -> u8 {
    (if value { f | mask } else { f & !mask }) & 0xF0
}

/// The F byte that holds exactly the four given flags.
pub open spec fn flag_byte(z: bool, n: bool, h: bool, c: bool) -> u8 {
    (if z { 0x80u8 } else { 0u8 }) | (if n { 0x40u8 } else { 0u8 }) | (if h { 0x20u8 } else {
        0u8
    }) | (if c { 0x10u8 } else { 0u8 })
}

/// Writing a flag changes that flag only and clears the low nibble; a
/// byte whose low nibble is clear is the flag byte of its four flags.
pub proof fn lemma_flag_bits()
    ensures
        forall|f: u8, v: bool|
            #![trigger with_flag(f, FLAG_Z, v)]
            with_flag(f, FLAG_Z, v) == flag_byte(
                v,
                bit_set(f, FLAG_N),
                bit_set(f, FLAG_H),
                bit_set(f, FLAG_C),
            ),
        forall|f: u8, v: bool|
            #![trigger with_flag(f, FLAG_N, v)]
            with_flag(f, FLAG_N, v) == flag_byte(
                bit_set(f, FLAG_Z),
                v,
                bit_set(f, FLAG_H),
                bit_set(f, FLAG_C),
            ),
        forall|f: u8, v: bool|
            #![trigger with_flag(f, FLAG_H, v)]
            with_flag(f, FLAG_H, v) == flag_byte(
                bit_set(f, FLAG_Z),
                bit_set(f, FLAG_N),
                v,
                bit_set(f, FLAG_C),
            ),
        forall|f: u8, v: bool|
            #![trigger with_flag(f, FLAG_C, v)]
            with_flag(f, FLAG_C, v) == flag_byte(
                bit_set(f, FLAG_Z),
                bit_set(f, FLAG_N),
                bit_set(f, FLAG_H),
                v,
            ),
        forall|z: bool, n: bool, h: bool, c: bool|
            #![trigger flag_byte(z, n, h, c)]
            bit_set(flag_byte(z, n, h, c), FLAG_Z) == z && bit_set(flag_byte(z, n, h, c), FLAG_N)
                == n && bit_set(flag_byte(z, n, h, c), FLAG_H) == h && bit_set(
                flag_byte(z, n, h, c),
                FLAG_C,
            ) == c,
{
    assert forall|f: u8, v: bool| #[trigger]
        with_flag(f, FLAG_Z, v) == flag_byte(
            v,
            bit_set(f, FLAG_N),
            bit_set(f, FLAG_H),
            bit_set(f, FLAG_C),
        ) by {
        assert(((if v { f | 0x80u8 } else { f & !0x80u8 }) & 0xF0u8) == ((if v { 0x80u8 } else {
            0u8
        }) | (if f & 0x40u8 != 0 { 0x40u8 } else { 0u8 }) | (if f & 0x20u8 != 0 { 0x20u8 } else {
            0u8
        }) | (if f & 0x10u8 != 0 { 0x10u8 } else { 0u8 }))) by (bit_vector);
    }
    assert forall|f: u8, v: bool| #[trigger]
        with_flag(f, FLAG_N, v) == flag_byte(
            bit_set(f, FLAG_Z),
            v,
            bit_set(f, FLAG_H),
            bit_set(f, FLAG_C),
        ) by {
        assert(((if v { f | 0x40u8 } else { f & !0x40u8 }) & 0xF0u8) == ((if f & 0x80u8 != 0 {
            0x80u8
        } else {
            0u8
        }) | (if v { 0x40u8 } else { 0u8 }) | (if f & 0x20u8 != 0 { 0x20u8 } else { 0u8 }) | (
        if f & 0x10u8 != 0 {
            0x10u8
        } else {
            0u8
        }))) by (bit_vector);
    }
    assert forall|f: u8, v: bool| #[trigger]
        with_flag(f, FLAG_H, v) == flag_byte(
            bit_set(f, FLAG_Z),
            bit_set(f, FLAG_N),
            v,
            bit_set(f, FLAG_C),
        ) by {
        assert(((if v { f | 0x20u8 } else { f & !0x20u8 }) & 0xF0u8) == ((if f & 0x80u8 != 0 {
            0x80u8
        } else {
            0u8
        }) | (if f & 0x40u8 != 0 { 0x40u8 } else { 0u8 }) | (if v { 0x20u8 } else { 0u8 }) | (
        if f & 0x10u8 != 0 {
            0x10u8
        } else {
            0u8
        }))) by (bit_vector);
    }
    assert forall|f: u8, v: bool| #[trigger]
        with_flag(f, FLAG_C, v) == flag_byte(
            bit_set(f, FLAG_Z),
            bit_set(f, FLAG_N),
            bit_set(f, FLAG_H),
            v,
        ) by {
        assert(((if v { f | 0x10u8 } else { f & !0x10u8 }) & 0xF0u8) == ((if f & 0x80u8 != 0 {
            0x80u8
        } else {
            0u8
        }) | (if f & 0x40u8 != 0 { 0x40u8 } else { 0u8 }) | (if f & 0x20u8 != 0 { 0x20u8 } else {
            0u8
        }) | (if v { 0x10u8 } else { 0u8 }))) by (bit_vector);
    }
    assert forall|z: bool, n: bool, h: bool, c: bool|
        bit_set(#[trigger] flag_byte(z, n, h, c), FLAG_Z) == z && bit_set(
            flag_byte(z, n, h, c),
            FLAG_N,
        ) == n && bit_set(flag_byte(z, n, h, c), FLAG_H) == h && bit_set(
            flag_byte(z, n, h, c),
            FLAG_C,
        ) == c by {
        let b = flag_byte(z, n, h, c);
        assert(b == (if z { 0x80u8 } else { 0u8 }) | (if n { 0x40u8 } else { 0u8 }) | (if h {
            0x20u8
        } else {
            0u8
        }) | (if c { 0x10u8 } else { 0u8 }));
        assert(b == (if z { 0x80u8 } else { 0u8 }) | (if n { 0x40u8 } else { 0u8 }) | (if h {
            0x20u8
        } else {
            0u8
        }) | (if c { 0x10u8 } else { 0u8 }) ==> (b & 0x80u8 != 0) == z && (b & 0x40u8 != 0) == n
            && (b & 0x20u8 != 0) == h && (b & 0x10u8 != 0) == c) by (bit_vector);
    }
}

impl Registers {
    /// The register file as the boot ROM leaves it on a DMG.
    pub open spec fn post_boot() -> Registers {
        Registers {
            a: 0x01,
            f: 0xB0,
            b: 0x00,
            c: 0x13,
            d: 0x00,
            e: 0xD8,
            h: 0x01,
            l: 0x4D,
            sp: 0xFFFE,
            pc: 0x0100,
        }
    }

    pub open spec fn af_spec(&self) -> u16 {
        word(self.a, self.f)
    }

    pub open spec fn bc_spec(&self) -> u16 {
        word(self.b, self.c)
    }

    pub open spec fn de_spec(&self) -> u16 {
        word(self.d, self.e)
    }

    pub open spec fn hl_spec(&self) -> u16 {
        word(self.h, self.l)
    }

    /// Whether a flag is set in F.
    pub open spec fn flag(&self, flag: Flag) -> bool {
        bit_set(self.f, flag_mask(flag))
    }

    pub open spec fn zf(&self) -> bool {
        bit_set(self.f, FLAG_Z)
    }

    pub open spec fn nf(&self) -> bool {
        bit_set(self.f, FLAG_N)
    }

    pub open spec fn hf(&self) -> bool {
        bit_set(self.f, FLAG_H)
    }

    pub open spec fn cf(&self) -> bool {
        bit_set(self.f, FLAG_C)
    }

    /// The registers with AF set to `v`: the low nibble of F is always 0.
    pub open spec fn with_af(self, v: u16) -> Registers {
        Registers { a: hi_byte(v), f: lo_byte(v) & 0xF0, ..self }
    }

    pub open spec fn with_bc(self, v: u16) -> Registers {
        Registers { b: hi_byte(v), c: lo_byte(v), ..self }
    }

    pub open spec fn with_de(self, v: u16) -> Registers {
        Registers { d: hi_byte(v), e: lo_byte(v), ..self }
    }

    pub open spec fn with_hl(self, v: u16) -> Registers {
        Registers { h: hi_byte(v), l: lo_byte(v), ..self }
    }

    /// The registers with F holding exactly the given four flags.
    pub open spec fn with_flags(self, z: bool, n: bool, h: bool, c: bool) -> Registers {
        Registers { f: flag_byte(z, n, h, c), ..self }
    }

    pub fn new() -> (r: Self)
        ensures
            r == Registers::post_boot(),
    {
        Self { a: 0x01, f: 0xB0, b: 0x00, c: 0x13, d: 0x00, e: 0xD8, h: 0x01, l: 0x4D, sp: 0xFFFE, pc: 0x0100 }
    }

    pub fn af(&self) -> (r: u16)
        ensures
            r == self.af_spec(),
    {
        proof {
            lemma_word_bits();
        }
        ((self.a as u16) << 8) | (self.f as u16)
    }

    pub fn bc(&self) -> (r: u16)
        ensures
            r == self.bc_spec(),
    {
        proof {
            lemma_word_bits();
        }
        ((self.b as u16) << 8) | (self.c as u16)
    }

    pub fn de(&self) -> (r: u16)
        ensures
            r == self.de_spec(),
    {
        proof {
            lemma_word_bits();
        }
        ((self.d as u16) << 8) | (self.e as u16)
    }

    pub fn hl(&self) -> (r: u16)
        ensures
            r == self.hl_spec(),
    {
        proof {
            lemma_word_bits();
        }
        ((self.h as u16) << 8) | (self.l as u16)
    }

    pub fn set_af(&mut self, v: u16)
        ensures
            *final(self) == old(self).with_af(v),
    {
        proof {
            lemma_word_bits();
        }
        self.a = (v >> 8) as u8;
        self.f = (v as u8) & 0xF0;
    }

    pub fn set_bc(&mut self, v: u16)
        ensures
            *final(self) == old(self).with_bc(v),
    {
        proof {
            lemma_word_bits();
        }
        self.b = (v >> 8) as u8;
        self.c = v as u8;
    }

    pub fn set_de(&mut self, v: u16)
        ensures
            *final(self) == old(self).with_de(v),
    {
        proof {
            lemma_word_bits();
        }
        self.d = (v >> 8) as u8;
        self.e = v as u8;
    }

    pub fn set_hl(&mut self, v: u16)
        ensures
            *final(self) == old(self).with_hl(v),
    {
        proof {
            lemma_word_bits();
        }
        self.h = (v >> 8) as u8;
        self.l = v as u8;
    }

    pub fn get_flag(&self, flag: Flag) -> (r: bool)
        ensures
            r == self.flag(flag),
    {
        let mask = match flag {
            Flag::Z => FLAG_Z,
            Flag::N => FLAG_N,
            Flag::H => FLAG_H,
            Flag::C => FLAG_C,
        };
        self.f & mask != 0
    }

    pub fn set_flag(&mut self, flag: Flag, value: bool)
        ensures
            *final(self) == (Registers { f: with_flag(old(self).f, flag_mask(flag), value), ..*old(self) }),
    {
        let mask = match flag {
            Flag::Z => FLAG_Z,
            Flag::N => FLAG_N,
            Flag::H => FLAG_H,
            Flag::C => FLAG_C,
        };
        if value {
            self.f = self.f | mask;
        } else {
            self.f = self.f & !mask;
        }
        self.f = self.f & 0xF0;
    }
}

/// Writing a register pair and reading it back gives the value written;
/// for AF the low nibble of F always reads back as 0.
pub proof fn law_register_pair_roundtrip(r: Registers, v: u16)
    ensures
        r.with_bc(v).bc_spec() == v,
        r.with_de(v).de_spec() == v,
        r.with_hl(v).hl_spec() == v,
        r.with_af(v).af_spec() == v & 0xFFF0,
{
    crate::bits::lemma_word_roundtrip(v, 0, 0);
    lemma_word_bits();
    assert(((((v >> 8u16) as u8) as u16) << 8u16) | ((((v as u8) & 0xF0u8)) as u16) == v & 0xFFF0)
        by (bit_vector);
    assert(word(hi_byte(v), lo_byte(v) & 0xF0) == ((((hi_byte(v)) as u16) << 8u16) | (((lo_byte(v)
        & 0xF0)) as u16)));
}

/// Setting a flag and reading it back gives the value set; the other three
/// flags keep their values.
pub proof fn law_flag_set_get(r: Registers, flag: Flag, other: Flag, value: bool)
    ensures
        (Registers { f: with_flag(r.f, flag_mask(flag), value), ..r }).flag(flag) == value,
        flag_mask(other) != flag_mask(flag) ==> (Registers {
            f: with_flag(r.f, flag_mask(flag), value),
            ..r
        }).flag(other) == r.flag(other),
{
    lemma_flag_bits();
    let f2 = with_flag(r.f, flag_mask(flag), value);
    match flag {
        Flag::Z => assert(f2 == flag_byte(value, r.nf(), r.hf(), r.cf())),
        Flag::N => assert(f2 == flag_byte(r.zf(), value, r.hf(), r.cf())),
        Flag::H => assert(f2 == flag_byte(r.zf(), r.nf(), value, r.cf())),
        Flag::C => assert(f2 == flag_byte(r.zf(), r.nf(), r.hf(), value)),
    }
}

} // verus!
