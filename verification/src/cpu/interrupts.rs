//! Interrupt dispatch.
//! Priority: VBlank (bit 0) > STAT (1) > Timer (2) > Serial (3) > Joypad (4).
//! Vectors: 0x40, 0x48, 0x50, 0x58, 0x60.

use vstd::prelude::*;
use vstd::std_specs::bits::u8_trailing_zeros;
use crate::cpu::{Cpu, CpuState, ImeState, keeps_inv, read8, write8, push16};
use crate::memory::Bus;

verus! {

/// IF & IE, restricted to the five interrupt sources.
pub open spec fn pending_bits<B: Bus>(s: CpuState<B::V>) -> u8 {
    read8::<B>(s, 0xFF0F) & read8::<B>(s, 0xFFFF) & 0x1F
}

/// An interrupt is dispatched when IME is set and a source is pending.
pub open spec fn interrupt_fires<B: Bus>(s: CpuState<B::V>) -> bool {
    s.ime && pending_bits::<B>(s) != 0
}

/// The dispatch: the lowest pending bit is cleared in IF, IME is
/// disabled, HALT ends, PC is pushed and control goes to 0x40 + 8 * bit.
pub open spec fn service_spec<B: Bus>(s: CpuState<B::V>) -> CpuState<B::V> {
    let if_flags = read8::<B>(s, 0xFF0F);
    let bit = u8_trailing_zeros(pending_bits::<B>(s)) as u8;
    let s1 = write8::<B>(s, 0xFF0F, if_flags & !(1u8 << bit));
    let s2 = CpuState { ime: false, ime_state: ImeState::Disabled, halted: false, ..s1 };
    push16::<B>(s2, s2.regs.pc).with_pc((0x40 + bit * 8) as u16)
}

impl<B: Bus> Cpu<B> {
    /// If an interrupt should fire right now, do it and return Some(cycles).
    /// Otherwise return None.
    pub fn service_interrupt(&mut self) -> (r: Option<u32>)
        ensures
            interrupt_fires::<B>(old(self)@) ==> r == Some(20u32) && final(self)@ == service_spec::<
                B,
            >(old(self)@),
            !interrupt_fires::<B>(old(self)@) ==> r is None && final(self)@ == old(self)@,
            keeps_inv::<B>(old(self)@, final(self)@),
    {
        if !self.ime {
            return None;
        }
        let if_flags = self.bus.read(0xFF0F);
        let ie = self.bus.read(0xFFFF);
        let pending = if_flags & ie & 0x1F;
        if pending == 0 {
            return None;
        }
        proof {
            vstd::std_specs::bits::axiom_u8_trailing_zeros(pending);
        }
        // Lowest-numbered bit wins (VBlank highest priority).
        let bit = pending.trailing_zeros() as u8;
        self.bus.write(0xFF0F, if_flags & !(1u8 << bit));
        self.ime = false;
        self.ime_state = ImeState::Disabled;
        self.halted = false;
        let pc = self.regs.pc;
        self.push(pc);
        self.regs.pc = 0x40 + (bit as u16) * 8;
        Some(20)
    }
}

} // verus!
