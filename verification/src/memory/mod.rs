//! The memory bus seen by the CPU, and the DMG memory map behind it.

pub mod cartridge;

use vstd::prelude::*;
use crate::bits::{word, hi_byte, lo_byte};
use crate::memory::cartridge::{Cartridge, CartridgeView};
use crate::timer::Timer;
use crate::ppu::{Ppu, PpuView};
use crate::joypad::Joypad;

verus! {

/// A byte-addressed 16-bit bus. `V` is the mathematical model of the bus
/// state; reads and writes are described as functions of it.
pub trait Bus: View + Sized {
    /// The byte a read at `addr` returns in state `m`.
    spec fn read_spec(m: Self::V, addr: u16) -> u8;

    /// The state after a write of `value` at `addr` in state `m`.
    spec fn write_spec(m: Self::V, addr: u16, value: u8) -> Self::V;

    /// What every state that the bus can be driven through satisfies.
    spec fn inv(m: Self::V) -> bool;

    fn read(&self, addr: u16) -> (r: u8)
        ensures
            r == Self::read_spec(self@, addr),
    ;

    fn write(&mut self, addr: u16, value: u8)
        ensures
            final(self)@ == Self::write_spec(old(self)@, addr, value),
            Self::inv(old(self)@) ==> Self::inv(final(self)@),
    ;

    /// Little-endian word read: the byte at `addr` is the low byte.
    fn read_word(&self, addr: u16) -> (r: u16)
        ensures
            r == word(Self::read_spec(self@, addr.wrapping_add(1)), Self::read_spec(self@, addr)),
    {
        let lo = self.read(addr);
        let hi = self.read(addr.wrapping_add(1));
        proof {
            crate::bits::lemma_word_bits();
        }
        ((hi as u16) << 8) | (lo as u16)
    }

    /// Little-endian word write: the low byte goes to `addr` first.
    fn write_word(&mut self, addr: u16, value: u16)
        ensures
            final(self)@ == Self::write_spec(
                Self::write_spec(old(self)@, addr, lo_byte(value)),
                addr.wrapping_add(1),
                hi_byte(value),
            ),
            Self::inv(old(self)@) ==> Self::inv(final(self)@),
    {
        proof {
            crate::bits::lemma_word_bits();
        }
        self.write(addr, value as u8);
        self.write(addr.wrapping_add(1), (value >> 8) as u8);
    }
}

/// A flat 64 KiB RAM bus, used to drive the CPU on its own.
pub struct MockBus {
    pub memory: [u8; 0x10000],
}

impl View for MockBus {
    type V = Seq<u8>;

    open spec fn view(&self) -> Seq<u8> {
        self.memory@
    }
}

impl MockBus {
    pub fn new() -> (r: Self)
        ensures
            r@ == Seq::new(0x10000, |i: int| 0u8),
    {
        let r = Self { memory: [0; 0x10000] };
        assert(r@ =~= Seq::new(0x10000, |i: int| 0u8));
        r
    }

    /// Copy `bytes` into memory starting at `addr`.
    pub fn load(&mut self, addr: u16, bytes: &[u8])
        requires
            addr as int + bytes@.len() <= 0x10000,
        ensures
            final(self)@ == old(self)@.take(addr as int) + bytes@ + old(self)@.skip(
                addr as int + bytes@.len(),
            ),
    {
        let start = addr as usize;
        let mut i: usize = 0;
        while i < bytes.len()
            invariant
                start == addr,
                i <= bytes@.len(),
                start + bytes@.len() <= 0x10000,
                self@.len() == 0x10000,
                forall|j: int| 0 <= j < start ==> self@[j] == old(self)@[j],
                forall|j: int| 0 <= j < i ==> self@[start + j] == bytes@[j],
                forall|j: int| start + i <= j < 0x10000 ==> self@[j] == old(self)@[j],
            decreases bytes@.len() - i,
        {
            self.memory[start + i] = bytes[i];
            i = i + 1;
        }
        assert(self@ =~= old(self)@.take(addr as int) + bytes@ + old(self)@.skip(
            addr as int + bytes@.len(),
        ));
    }
}

impl Bus for MockBus {
    open spec fn read_spec(m: Seq<u8>, addr: u16) -> u8 {
        m[addr as int]
    }

    open spec fn write_spec(m: Seq<u8>, addr: u16, value: u8) -> Seq<u8> {
        m.update(addr as int, value)
    }

    open spec fn inv(m: Seq<u8>) -> bool {
        m.len() == 0x10000
    }

    fn read(&self, addr: u16) -> (r: u8) {
        self.memory[addr as usize]
    }

    fn write(&mut self, addr: u16, value: u8) {
        self.memory[addr as usize] = value;
    }
}

/// The DMG memory map: cartridge, VRAM, WRAM (and its echo), OAM, I/O
/// registers, HRAM and IE, with the timer, PPU and joypad attached.
pub struct Mmu {
    pub cart: Cartridge,
    pub wram: [u8; 0x2000],
    pub hram: [u8; 0x7F],
    /// I/O registers not owned by a device; 0xFF0F is IF.
    pub io: [u8; 0x80],
    pub ie: u8,
    pub timer: Timer,
    pub ppu: Ppu,
    pub joypad: Joypad,
    /// The last value written to 0xFF46 (OAM DMA source page).
    pub dma_source: u8,
    /// Bytes sent over the serial port (used by test ROMs to report).
    pub serial_buffer: Vec<u8>,
}

/// The mathematical model of the MMU and its devices.
pub struct MmuView {
    pub cart: CartridgeView,
    pub wram: Seq<u8>,
    pub hram: Seq<u8>,
    pub io: Seq<u8>,
    pub ie: u8,
    pub timer: Timer,
    pub ppu: PpuView,
    pub joypad: Joypad,
    pub dma_source: u8,
    pub serial: Seq<u8>,
}

impl View for Mmu {
    type V = MmuView;

    open spec fn view(&self) -> MmuView {
        MmuView {
            cart: self.cart@,
            wram: self.wram@,
            hram: self.hram@,
            io: self.io@,
            ie: self.ie,
            timer: self.timer,
            ppu: self.ppu@,
            joypad: self.joypad,
            dma_source: self.dma_source,
            serial: self.serial_buffer@,
        }
    }
}

impl MmuView {
    /// A powered-up bus: an empty 32 KiB ROM-only cartridge, zeroed
    /// memories and freshly reset devices.
    pub open spec fn initial() -> MmuView {
        MmuView {
            cart: CartridgeView {
                rom: Seq::new(0x8000, |i: int| 0u8),
                ram: Seq::empty(),
                mapper: crate::memory::cartridge::Mapper::RomOnly,
                has_battery: false,
            },
            wram: Seq::new(0x2000, |i: int| 0u8),
            hram: Seq::new(0x7F, |i: int| 0u8),
            io: Seq::new(0x80, |i: int| 0u8),
            ie: 0,
            timer: Timer::initial(),
            ppu: PpuView::initial(),
            joypad: Joypad::initial(),
            dma_source: 0,
            serial: Seq::empty(),
        }
    }

    /// A read of the I/O page 0xFF00–0xFF7F.
    pub open spec fn io_read_spec(&self, addr: u16) -> u8 {
        if addr == 0xFF00 {
            self.joypad.read_spec()
        } else if 0xFF04 <= addr <= 0xFF07 {
            self.timer.read_spec(addr)
        } else if (0xFF40 <= addr <= 0xFF45) || (0xFF47 <= addr <= 0xFF4B) {
            self.ppu.read_reg_spec(addr)
        } else if addr == 0xFF46 {
            self.dma_source
        } else {
            self.io[addr - 0xFF00]
        }
    }

    pub open spec fn read_spec(&self, addr: u16) -> u8 {
        if addr <= 0x7FFF {
            self.cart.read_rom_spec(addr)
        } else if addr <= 0x9FFF {
            self.ppu.vram_at(addr as int)
        } else if addr <= 0xBFFF {
            self.cart.read_ram_spec(addr)
        } else if addr <= 0xDFFF {
            self.wram[addr - 0xC000]
        } else if addr <= 0xFDFF {
            // Echo RAM mirrors WRAM.
            self.wram[addr - 0xE000]
        } else if addr <= 0xFE9F {
            self.ppu.oam[addr - 0xFE00]
        } else if addr <= 0xFEFF {
            0xFF
        } else if addr <= 0xFF7F {
            self.io_read_spec(addr)
        } else if addr <= 0xFFFE {
            self.hram[addr - 0xFF80]
        } else {
            self.ie
        }
    }

    /// OAM DMA: the source page is recorded and its first 0xA0 bytes are
    /// copied into OAM.
    pub open spec fn dma_spec(self, value: u8) -> MmuView {
        let m1 = MmuView { dma_source: value, ..self };
        MmuView {
            ppu: PpuView {
                oam: Seq::new(0xA0, |i: int| m1.read_spec((value as int * 256 + i) as u16)),
                ..m1.ppu
            },
            ..m1
        }
    }

    /// A write to the I/O page.
    pub open spec fn io_write_spec(self, addr: u16, value: u8) -> MmuView {
        if addr == 0xFF00 {
            MmuView { joypad: self.joypad.write_spec(value), ..self }
        } else if 0xFF04 <= addr <= 0xFF07 {
            MmuView { timer: self.timer.write_spec(addr, value), ..self }
        } else if (0xFF40 <= addr <= 0xFF45) || (0xFF47 <= addr <= 0xFF4B) {
            MmuView { ppu: self.ppu.write_reg_spec(addr, value), ..self }
        } else if addr == 0xFF46 {
            self.dma_spec(value)
        } else if addr == 0xFF02 {
            // SC: a transfer request (0x81) sends SB out and completes at once.
            if value == 0x81 {
                MmuView {
                    io: self.io.update(0x02, 0x01),
                    serial: self.serial.push(self.io[0x01]),
                    ..self
                }
            } else {
                MmuView { io: self.io.update(0x02, value), ..self }
            }
        } else {
            MmuView { io: self.io.update(addr - 0xFF00, value), ..self }
        }
    }

    pub open spec fn write_spec(self, addr: u16, value: u8) -> MmuView {
        if addr <= 0x7FFF {
            MmuView { cart: self.cart.write_rom_spec(addr, value), ..self }
        } else if addr <= 0x9FFF {
            MmuView {
                ppu: PpuView { vram: self.ppu.vram.update(addr - 0x8000, value), ..self.ppu },
                ..self
            }
        } else if addr <= 0xBFFF {
            MmuView { cart: self.cart.write_ram_spec(addr, value), ..self }
        } else if addr <= 0xDFFF {
            MmuView { wram: self.wram.update(addr - 0xC000, value), ..self }
        } else if addr <= 0xFDFF {
            MmuView { wram: self.wram.update(addr - 0xE000, value), ..self }
        } else if addr <= 0xFE9F {
            MmuView {
                ppu: PpuView { oam: self.ppu.oam.update(addr - 0xFE00, value), ..self.ppu },
                ..self
            }
        } else if addr <= 0xFEFF {
            self
        } else if addr <= 0xFF7F {
            self.io_write_spec(addr, value)
        } else if addr <= 0xFFFE {
            MmuView { hram: self.hram.update(addr - 0xFF80, value), ..self }
        } else {
            MmuView { ie: value, ..self }
        }
    }

    /// The memory sizes, and what the timer and PPU need to be stepped.
    pub open spec fn wf(&self) -> bool {
        &&& self.wram.len() == 0x2000
        &&& self.hram.len() == 0x7F
        &&& self.io.len() == 0x80
        &&& self.timer.wf()
        &&& self.ppu.wf()
    }

    /// IF with `bits` ORed in when `cond` holds.
    pub open spec fn request(io: Seq<u8>, cond: bool, bits: u8) -> Seq<u8> {
        if cond {
            io.update(0x0F, io[0x0F] | bits)
        } else {
            io
        }
    }

    /// The devices after `cycles` T-cycles; the interrupt requests they
    /// raised are moved into IF (timer bit 2, VBlank bit 0, STAT bit 1,
    /// joypad bit 4).
    pub open spec fn tick_spec(self, cycles: u32) -> MmuView {
        let t = self.timer.step_spec(cycles);
        let io1 = MmuView::request(self.io, t.interrupt_request, 0x04);
        let p = self.ppu.step_spec(cycles);
        let io2 = MmuView::request(io1, p.vblank_irq, 0x01);
        let io3 = MmuView::request(io2, p.stat_irq, 0x02);
        let io4 = MmuView::request(io3, self.joypad.interrupt_request, 0x10);
        MmuView {
            timer: Timer { interrupt_request: false, ..t },
            ppu: PpuView { vblank_irq: false, stat_irq: false, ..p },
            joypad: Joypad { interrupt_request: false, ..self.joypad },
            io: io4,
            ..self
        }
    }
}

impl Mmu {
    pub fn new() -> (m: Self)
        ensures
            m@ == MmuView::initial(),
            m@.wf(),
    {
        let m = Self {
            cart: Cartridge::empty(),
            wram: [0; 0x2000],
            hram: [0; 0x7F],
            io: [0; 0x80],
            ie: 0,
            timer: Timer::new(),
            ppu: Ppu::new(),
            joypad: Joypad::new(),
            dma_source: 0,
            serial_buffer: Vec::new(),
        };
        assert(m@.wram =~= Seq::new(0x2000, |i: int| 0u8));
        assert(m@.hram =~= Seq::new(0x7F, |i: int| 0u8));
        assert(m@.io =~= Seq::new(0x80, |i: int| 0u8));
        m
    }

    /// Insert the cartridge built from `rom`.
    pub fn load_rom(&mut self, rom: &[u8])
        ensures
            final(self)@.cart.rom == rom@,
            final(self)@.cart.ram == Seq::new(
                crate::memory::cartridge::ram_size_spec(
                    crate::memory::cartridge::header_byte(rom@, 0x0149),
                ),
                |i: int| 0u8,
            ),
            (final(self)@.cart.mapper, final(self)@.cart.has_battery)
                == crate::memory::cartridge::mapper_for(
                crate::memory::cartridge::header_byte(rom@, 0x0147),
            ),
            final(self)@ == (MmuView { cart: final(self)@.cart, ..old(self)@ }),
    {
        self.cart = Cartridge::from_rom(vstd::slice::slice_to_vec(rom));
    }

    /// Advance the timer and PPU by `cycles` T-cycles and move their
    /// interrupt requests (and the joypad's) into IF.
    pub fn tick(&mut self, cycles: u32)
        requires
            old(self)@.wf(),
            old(self).timer.can_step(cycles),
        ensures
            final(self)@ == old(self)@.tick_spec(cycles),
            final(self)@.wf(),
    {
        self.timer.step(cycles);
        if self.timer.interrupt_request {
            self.timer.interrupt_request = false;
            self.io[0x0F] = self.io[0x0F] | 0x04;
        }
        self.ppu.step(cycles);
        if self.ppu.vblank_irq {
            self.ppu.vblank_irq = false;
            self.io[0x0F] = self.io[0x0F] | 0x01;
        }
        if self.ppu.stat_irq {
            self.ppu.stat_irq = false;
            self.io[0x0F] = self.io[0x0F] | 0x02;
        }
        if self.joypad.interrupt_request {
            self.joypad.interrupt_request = false;
            // IF bit 4 (joypad)
            self.io[0x0F] = self.io[0x0F] | 0x10;
        }
        proof {
            assert(self@.io =~= old(self)@.tick_spec(cycles).io);
        }
    }

    /// OAM DMA from page `value`.
    fn oam_dma(&mut self, value: u8)
        ensures
            final(self)@ == old(self)@.dma_spec(value),
    {
        self.dma_source = value;
        let ghost m1 = self@;
        let base = (value as u16) << 8;
        assert(base == value as int * 256) by (bit_vector)
            requires
                base == (value as u16) << 8u16,
        ;
        let mut i: u16 = 0;
        assert(self@.ppu.oam =~= Seq::new(
            0xA0,
            |k: int|
                if k < 0 {
                    m1.read_spec((base + k) as u16)
                } else {
                    m1.ppu.oam[k]
                },
        ));
        while i < 0xA0
            invariant
                m1 == (MmuView { dma_source: value, ..old(self)@ }),
                base == value as int * 256,
                i <= 0xA0,
                self@ == (MmuView {
                    ppu: PpuView {
                        oam: Seq::new(
                            0xA0,
                            |k: int|
                                if k < i {
                                    m1.read_spec((base + k) as u16)
                                } else {
                                    m1.ppu.oam[k]
                                },
                        ),
                        ..m1.ppu
                    },
                    ..m1
                }),
            decreases 0xA0 - i,
        {
            let byte = self.read(base + i);
            assert(byte == m1.read_spec((base + i) as u16));
            self.ppu.write_oam(0xFE00 + i, byte);
            i = i + 1;
            assert(self@.ppu.oam =~= Seq::new(
                0xA0,
                |k: int|
                    if k < i {
                        m1.read_spec((base + k) as u16)
                    } else {
                        m1.ppu.oam[k]
                    },
            ));
        }
        assert(self@.ppu.oam =~= old(self)@.dma_spec(value).ppu.oam);
    }

    fn io_read(&self, addr: u16) -> (r: u8)
        requires
            0xFF00 <= addr <= 0xFF7F,
        ensures
            r == self@.io_read_spec(addr),
    {
        if addr == 0xFF00 {
            self.joypad.read()
        } else if 0xFF04 <= addr && addr <= 0xFF07 {
            self.timer.read(addr)
        } else if (0xFF40 <= addr && addr <= 0xFF45) || (0xFF47 <= addr && addr <= 0xFF4B) {
            self.ppu.read_reg(addr)
        } else if addr == 0xFF46 {
            self.dma_source
        } else {
            self.io[(addr - 0xFF00) as usize]
        }
    }

    fn io_write(&mut self, addr: u16, value: u8)
        requires
            0xFF00 <= addr <= 0xFF7F,
        ensures
            final(self)@ == old(self)@.io_write_spec(addr, value),
    {
        if addr == 0xFF00 {
            self.joypad.write(value)
        } else if 0xFF04 <= addr && addr <= 0xFF07 {
            self.timer.write(addr, value)
        } else if (0xFF40 <= addr && addr <= 0xFF45) || (0xFF47 <= addr && addr <= 0xFF4B) {
            self.ppu.write_reg(addr, value)
        } else if addr == 0xFF46 {
            self.oam_dma(value)
        } else if addr == 0xFF02 {
            self.io[0x02] = value;
            if value == 0x81 {
                let ch = self.io[0x01];
                self.serial_buffer.push(ch);
                self.io[0x02] = 0x01;
            }
            proof {
                assert(self@.io =~= old(self)@.io_write_spec(addr, value).io);
            }
        } else {
            self.io[(addr - 0xFF00) as usize] = value;
        }
    }
}

impl Bus for Mmu {
    open spec fn read_spec(m: MmuView, addr: u16) -> u8 {
        m.read_spec(addr)
    }

    open spec fn write_spec(m: MmuView, addr: u16, value: u8) -> MmuView {
        m.write_spec(addr, value)
    }

    open spec fn inv(m: MmuView) -> bool {
        m.wf()
    }

    fn read(&self, addr: u16) -> (r: u8) {
        if addr <= 0x7FFF {
            self.cart.read_rom(addr)
        } else if addr <= 0x9FFF {
            self.ppu.read_vram(addr)
        } else if addr <= 0xBFFF {
            self.cart.read_ram(addr)
        } else if addr <= 0xDFFF {
            self.wram[(addr - 0xC000) as usize]
        } else if addr <= 0xFDFF {
            self.wram[(addr - 0xE000) as usize]
        } else if addr <= 0xFE9F {
            self.ppu.read_oam(addr)
        } else if addr <= 0xFEFF {
            0xFF
        } else if addr <= 0xFF7F {
            self.io_read(addr)
        } else if addr <= 0xFFFE {
            self.hram[(addr - 0xFF80) as usize]
        } else {
            self.ie
        }
    }

    fn write(&mut self, addr: u16, value: u8) {
        if addr <= 0x7FFF {
            self.cart.write_rom(addr, value)
        } else if addr <= 0x9FFF {
            self.ppu.write_vram(addr, value)
        } else if addr <= 0xBFFF {
            self.cart.write_ram(addr, value)
        } else if addr <= 0xDFFF {
            self.wram[(addr - 0xC000) as usize] = value
        } else if addr <= 0xFDFF {
            self.wram[(addr - 0xE000) as usize] = value
        } else if addr <= 0xFE9F {
            self.ppu.write_oam(addr, value)
        } else if addr <= 0xFEFF {
        } else if addr <= 0xFF7F {
            self.io_write(addr, value)
        } else if addr <= 0xFFFE {
            self.hram[(addr - 0xFF80) as usize] = value
        } else {
            self.ie = value
        }
    }
}

impl Default for Mmu {
    fn default() -> (m: Self)
        ensures
            m@ == MmuView::initial(),
            m@.wf(),
    {
        Self::new()
    }
}

/// On the flat RAM bus a read gives back the last byte written at that
/// address, and a write leaves every other address as it was.
pub proof fn law_mock_read_after_write(m: Seq<u8>, addr: u16, other: u16, value: u8)
    requires
        m.len() == 0x10000,
    ensures
        <MockBus as Bus>::read_spec(<MockBus as Bus>::write_spec(m, addr, value), addr) == value,
        other != addr ==> <MockBus as Bus>::read_spec(
            <MockBus as Bus>::write_spec(m, addr, value),
            other,
        ) == <MockBus as Bus>::read_spec(m, other),
{
}

/// A little-endian word written on the flat RAM bus reads back whole.
pub proof fn law_mock_word_roundtrip(m: Seq<u8>, addr: u16, value: u16)
    requires
        m.len() == 0x10000,
    ensures
        ({
            let m1 = <MockBus as Bus>::write_spec(
                <MockBus as Bus>::write_spec(m, addr, lo_byte(value)),
                addr.wrapping_add(1),
                hi_byte(value),
            );
            word(
                <MockBus as Bus>::read_spec(m1, addr.wrapping_add(1)),
                <MockBus as Bus>::read_spec(m1, addr),
            ) == value
        }),
{
    assert(addr.wrapping_add(1) != addr);
    crate::bits::lemma_word_roundtrip(value, 0, 0);
}

/// On the MMU, a read of work RAM, its echo, video RAM, OAM, high RAM or
/// IE gives back the byte just written there.
pub proof fn law_mmu_ram_read_after_write(m: MmuView, addr: u16, value: u8)
    requires
        m.wf(),
        (0x8000 <= addr <= 0x9FFF) || (0xC000 <= addr <= 0xFE9F) || (0xFF80 <= addr),
    ensures
        m.write_spec(addr, value).read_spec(addr) == value,
{
}

/// Echo RAM: a write to work RAM is visible 0x2000 higher, and a write
/// there is visible in work RAM.
pub proof fn law_mmu_echo_mirrors_wram(m: MmuView, addr: u16, value: u8)
    requires
        m.wf(),
        0xC000 <= addr <= 0xDDFF,
    ensures
        m.write_spec(addr, value).read_spec((addr + 0x2000) as u16) == value,
        m.write_spec((addr + 0x2000) as u16, value).read_spec(addr) == value,
{
}

/// A tick only adds interrupt requests to IF: every bit that was set
/// stays set; the timer sets bit 2, VBlank bit 0, STAT bit 1 and the
/// joypad bit 4 exactly when they requested (in this tick, or pending
/// from before), no other bit changes, and the devices' request flags are
/// then clear.
pub proof fn law_tick_raises_if(m: MmuView, cycles: u32)
    requires
        m.wf(),
    ensures
        ({
            let m2 = m.tick_spec(cycles);
            let f0 = m.read_spec(0xFF0F);
            let f = m2.read_spec(0xFF0F);
            let ta = m.timer.step_spec(cycles).interrupt_request;
            let vb = m.ppu.step_spec(cycles).vblank_irq;
            let st = m.ppu.step_spec(cycles).stat_irq;
            let jp = m.joypad.interrupt_request;
            &&& f & f0 == f0
            &&& (f & !f0) & !0x17u8 == 0
            &&& (f & 0x04 != 0) == (f0 & 0x04 != 0 || ta)
            &&& (f & 0x01 != 0) == (f0 & 0x01 != 0 || vb)
            &&& (f & 0x02 != 0) == (f0 & 0x02 != 0 || st)
            &&& (f & 0x10 != 0) == (f0 & 0x10 != 0 || jp)
            &&& !m2.timer.interrupt_request
            &&& !m2.ppu.vblank_irq
            &&& !m2.ppu.stat_irq
            &&& !m2.joypad.interrupt_request
        }),
{
    let ta = m.timer.step_spec(cycles).interrupt_request;
    let vb = m.ppu.step_spec(cycles).vblank_irq;
    let st = m.ppu.step_spec(cycles).stat_irq;
    let jp = m.joypad.interrupt_request;
    let f0 = m.io[0x0F];
    let f1: u8 = if ta { f0 | 0x04 } else { f0 };
    let f2: u8 = if vb { f1 | 0x01 } else { f1 };
    let f3: u8 = if st { f2 | 0x02 } else { f2 };
    let f4: u8 = if jp { f3 | 0x10 } else { f3 };
    assert(m.tick_spec(cycles).io[0x0F] == f4);
    assert({
        &&& f4 & f0 == f0
        &&& (f4 & !f0) & !0x17u8 == 0
        &&& (f4 & 0x04 != 0) == (f0 & 0x04 != 0 || ta)
        &&& (f4 & 0x01 != 0) == (f0 & 0x01 != 0 || vb)
        &&& (f4 & 0x02 != 0) == (f0 & 0x02 != 0 || st)
        &&& (f4 & 0x10 != 0) == (f0 & 0x10 != 0 || jp)
    }) by (bit_vector)
        requires
            f1 == (if ta { f0 | 0x04u8 } else { f0 }),
            f2 == (if vb { f1 | 0x01u8 } else { f1 }),
            f3 == (if st { f2 | 0x02u8 } else { f2 }),
            f4 == (if jp { f3 | 0x10u8 } else { f3 }),
    ;
}

/// OAM DMA: after a write of v to 0xFF46, OAM byte i (i < 0xA0) holds what
/// address v * 256 + i read before the write (0xFF46 itself aside, which
/// now reads v); the unusable region 0xFEA0-0xFEFF reads 0xFF and ignores
/// writes.
pub proof fn law_oam_dma(m: MmuView, v: u8, i: int, addr: u16, value: u8)
    requires
        m.wf(),
        0 <= i < 0xA0,
        v as int * 256 + i != 0xFF46,
        0xFEA0 <= addr <= 0xFEFF,
    ensures
        m.write_spec(0xFF46, v).read_spec((0xFE00 + i) as u16) == m.read_spec(
            (v as int * 256 + i) as u16,
        ),
        m.write_spec(0xFF46, v).read_spec(0xFF46) == v,
        m.read_spec(addr) == 0xFF,
        m.write_spec(addr, value) == m,
{
}

} // verus!
