//! The cartridge owns the ROM bytes and the external RAM, and knows which
//! MBC (memory bank controller) it uses. The MMU routes reads and writes
//! in the cartridge's address ranges (0x0000–0x7FFF and 0xA000–0xBFFF)
//! through here.

use vstd::prelude::*;

verus! {

#[derive(Debug, Clone, Copy)]
pub struct Mbc1State {
    /// Lower 5 bits of the ROM bank, written via 0x2000–0x3FFF.
    pub rom_bank_lo: u8,
    /// Upper 2 bits: ROM bank or RAM bank, depending on `mode`.
    pub bank_hi: u8,
    /// 0 = ROM banking, 1 = RAM banking.
    pub mode: u8,
    pub ram_enabled: bool,
}

impl Mbc1State {
    pub open spec fn initial() -> Mbc1State {
        Mbc1State { rom_bank_lo: 1, bank_hi: 0, mode: 0, ram_enabled: false }
    }

    pub open spec fn rom_bank_spec(&self) -> nat {
        let hi: u8 = if self.mode == 0 { self.bank_hi } else { 0 };
        (((hi & 0x03) << 5u8) | (self.rom_bank_lo & 0x1F)) as nat
    }

    pub open spec fn ram_bank_spec(&self) -> nat {
        if self.mode == 1 { (self.bank_hi & 0x03) as nat } else { 0 }
    }

    fn new() -> (r: Self)
        ensures
            r == Mbc1State::initial(),
    {
        Self { rom_bank_lo: 1, bank_hi: 0, mode: 0, ram_enabled: false }
    }

    fn rom_bank(&self) -> (r: usize)
        ensures
            r == self.rom_bank_spec(),
    {
        let hi: u8 = if self.mode == 0 { self.bank_hi } else { 0 };
        (((hi & 0x03) << 5) | (self.rom_bank_lo & 0x1F)) as usize
    }

    fn ram_bank(&self) -> (r: usize)
        ensures
            r == self.ram_bank_spec(),
    {
        if self.mode == 1 { (self.bank_hi & 0x03) as usize } else { 0 }
    }
}

/// MBC3 bank state.
///
/// `bank_select` is the value last written to 0x4000–0x5FFF. Values
/// 0x00–0x03 pick a RAM bank; values 0x08–0x0C pick an RTC register.
#[derive(Debug, Clone, Copy)]
pub struct Mbc3State {
    /// 7-bit, 1..127; a write of 0 selects 1.
    pub rom_bank: u8,
    /// Last write to 0x4000–0x5FFF.
    pub bank_select: u8,
    pub ram_rtc_enabled: bool,
}

impl Mbc3State {
    pub open spec fn initial() -> Mbc3State {
        Mbc3State { rom_bank: 1, bank_select: 0, ram_rtc_enabled: false }
    }

    pub open spec fn rtc_selected_spec(&self) -> bool {
        0x08 <= self.bank_select <= 0x0C
    }

    pub open spec fn ram_bank_spec(&self) -> nat {
        (self.bank_select & 0x03) as nat
    }

    fn new() -> (r: Self)
        ensures
            r == Mbc3State::initial(),
    {
        Self { rom_bank: 1, bank_select: 0, ram_rtc_enabled: false }
    }

    fn rom_bank(&self) -> (r: usize)
        ensures
            r == self.rom_bank as nat,
    {
        self.rom_bank as usize
    }

    fn rtc_selected(&self) -> (r: bool)
        ensures
            r == self.rtc_selected_spec(),
    {
        0x08 <= self.bank_select && self.bank_select <= 0x0C
    }

    fn ram_bank(&self) -> (r: usize)
        ensures
            r == self.ram_bank_spec(),
    {
        (self.bank_select & 0x03) as usize
    }
}

#[derive(Debug, Clone, Copy)]
pub enum Mapper {
    RomOnly,
    Mbc1(Mbc1State),
    Mbc3(Mbc3State),
}

pub struct Cartridge {
    pub rom: Vec<u8>,
    pub ram: Vec<u8>,
    pub mapper: Mapper,
    pub has_battery: bool,
}

/// The mathematical model of a cartridge.
pub struct CartridgeView {
    pub rom: Seq<u8>,
    pub ram: Seq<u8>,
    pub mapper: Mapper,
    pub has_battery: bool,
}

impl View for Cartridge {
    type V = CartridgeView;

    open spec fn view(&self) -> CartridgeView {
        CartridgeView {
            rom: self.rom@,
            ram: self.ram@,
            mapper: self.mapper,
            has_battery: self.has_battery,
        }
    }
}

/// The byte at `off`, or 0xFF past the end (open bus).
pub open spec fn byte_or_ff(bytes: Seq<u8>, off: int) -> u8 {
    if 0 <= off < bytes.len() {
        bytes[off]
    } else {
        0xFF
    }
}

/// External RAM size in bytes for header byte 0x0149.
pub open spec fn ram_size_spec(code: u8) -> nat {
    if code == 0x01 {
        0x0800
    } else if code == 0x02 {
        0x2000
    } else if code == 0x03 {
        0x8000
    } else if code == 0x04 {
        0x20000
    } else if code == 0x05 {
        0x10000
    } else {
        0
    }
}

/// The header byte at `off`, or 0 when the ROM is too short.
pub open spec fn header_byte(rom: Seq<u8>, off: int) -> u8 {
    if 0 <= off < rom.len() {
        rom[off]
    } else {
        0
    }
}

/// The mapper and battery flag for cartridge type `t` (header byte
/// 0x0147). Unknown types are treated as plain ROM.
pub open spec fn mapper_for(t: u8) -> (Mapper, bool) {
    if t == 0x01 || t == 0x02 {
        (Mapper::Mbc1(Mbc1State::initial()), false)
    } else if t == 0x03 {
        (Mapper::Mbc1(Mbc1State::initial()), true)
    } else if t == 0x0F || t == 0x10 || t == 0x13 {
        (Mapper::Mbc3(Mbc3State::initial()), true)
    } else if t == 0x11 || t == 0x12 {
        (Mapper::Mbc3(Mbc3State::initial()), false)
    } else {
        (Mapper::RomOnly, false)
    }
}

/// Cartridge types (header byte 0x0147) with a mapper of their own.
pub open spec fn known_mapper_type(t: u8) -> bool {
    t == 0x00 || t == 0x01 || t == 0x02 || t == 0x03 || (0x0F <= t <= 0x13)
}

impl CartridgeView {
    /// A read of the ROM area.
    pub open spec fn read_rom_spec(&self, addr: u16) -> u8 {
        match self.mapper {
            Mapper::RomOnly => byte_or_ff(self.rom, addr as int),
            Mapper::Mbc1(s) => if addr < 0x4000 {
                byte_or_ff(self.rom, addr as int)
            } else {
                byte_or_ff(self.rom, s.rom_bank_spec() * 0x4000 + (addr - 0x4000))
            },
            Mapper::Mbc3(s) => if addr < 0x4000 {
                byte_or_ff(self.rom, addr as int)
            } else {
                byte_or_ff(self.rom, s.rom_bank as int * 0x4000 + (addr - 0x4000))
            },
        }
    }

    /// A write to the ROM area: it sets mapper registers.
    pub open spec fn write_rom_spec(self, addr: u16, value: u8) -> CartridgeView {
        match self.mapper {
            Mapper::RomOnly => self,
            Mapper::Mbc1(s) => {
                let s2 = if addr <= 0x1FFF {
                    Mbc1State { ram_enabled: (value & 0x0F) == 0x0A, ..s }
                } else if addr <= 0x3FFF {
                    Mbc1State { rom_bank_lo: if value & 0x1F == 0 { 1 } else { value & 0x1F }, ..s }
                } else if addr <= 0x5FFF {
                    Mbc1State { bank_hi: value & 0x03, ..s }
                } else if addr <= 0x7FFF {
                    Mbc1State { mode: value & 0x01, ..s }
                } else {
                    s
                };
                CartridgeView { mapper: Mapper::Mbc1(s2), ..self }
            },
            Mapper::Mbc3(s) => {
                let s2 = if addr <= 0x1FFF {
                    Mbc3State { ram_rtc_enabled: (value & 0x0F) == 0x0A, ..s }
                } else if addr <= 0x3FFF {
                    Mbc3State { rom_bank: if value & 0x7F == 0 { 1 } else { value & 0x7F }, ..s }
                } else if addr <= 0x5FFF {
                    Mbc3State { bank_select: value, ..s }
                } else {
                    s
                };
                CartridgeView { mapper: Mapper::Mbc3(s2), ..self }
            },
        }
    }

    /// Whether an access to the RAM area reaches the RAM array (and
    /// which bank it uses).
    pub open spec fn ram_bank_used(&self) -> Option<nat> {
        match self.mapper {
            Mapper::RomOnly => None,
            Mapper::Mbc1(s) => if !s.ram_enabled || self.ram.len() == 0 {
                None
            } else {
                Some(s.ram_bank_spec())
            },
            Mapper::Mbc3(s) => if !s.ram_rtc_enabled || s.rtc_selected_spec() || self.ram.len()
                == 0 {
                None
            } else {
                Some(s.ram_bank_spec())
            },
        }
    }

    /// A read of the RAM area (0xA000–0xBFFF).
    pub open spec fn read_ram_spec(&self, addr: u16) -> u8 {
        match self.ram_bank_used() {
            Some(bank) => byte_or_ff(self.ram, bank * 0x2000 + (addr - 0xA000)),
            None => match self.mapper {
                // An enabled MBC3 with an RTC register selected reads 0.
                Mapper::Mbc3(s) => if s.ram_rtc_enabled && s.rtc_selected_spec() {
                    0
                } else {
                    0xFF
                },
                _ => 0xFF,
            },
        }
    }

    /// A write to the RAM area: it lands in RAM when the bank is mapped
    /// and the offset lies within the RAM; otherwise it is dropped.
    pub open spec fn write_ram_spec(self, addr: u16, value: u8) -> CartridgeView {
        match self.ram_bank_used() {
            Some(bank) => {
                let off = bank * 0x2000 + (addr - 0xA000);
                if 0 <= off < self.ram.len() {
                    CartridgeView { ram: self.ram.update(off, value), ..self }
                } else {
                    self
                }
            },
            None => self,
        }
    }
}

/// RAM size from header byte 0x0149.
fn ram_size_from_header(code: u8) -> (r: usize)
    ensures
        r == ram_size_spec(code),
{
    match code {
        0x00 => 0,
        0x01 => 0x0800,
        0x02 => 0x2000,
        0x03 => 0x8000,
        0x04 => 0x20000,
        0x05 => 0x10000,
        _ => 0,
    }
}

/// The decimal digits of `n`, as `Display` writes an integer: most
/// significant first, no leading zeros, "0" for zero.
pub open spec fn decimal(n: nat) -> Seq<char>
    decreases n,
{
    if n < 10 {
        seq![((48 + n) as u8) as char]
    } else {
        decimal(n / 10).push(((48 + n % 10) as u8) as char)
    }
}

/// The message of a refused save file: "save file size mismatch: file is
/// {file_len} bytes, cartridge expects {expected}".
pub open spec fn size_mismatch_text(file_len: usize, expected: usize) -> Seq<char> {
    "save file size mismatch: file is "@ + decimal(file_len as nat) + " bytes, cartridge expects "@
        + decimal(expected as nat)
}

/// The message of a refused save file, built with std's `format!` from the
/// two sizes; the contract states the text: the template with both sizes
/// written in decimal, as `Display` for `usize` writes them.
#[verifier::external_body]
fn size_mismatch_message(file_len: usize, expected: usize) -> (r: String)
    ensures
        r@ == size_mismatch_text(file_len, expected),
{
    format!(
        "save file size mismatch: file is {} bytes, cartridge expects {}",
        file_len,
        expected,
    )
}

impl Cartridge {
    /// Build a cartridge from raw ROM bytes. Parses the header to pick
    /// the mapper and size the RAM. Unknown mapper types are treated as
    /// plain ROM so the rest of the system can still load something.
    pub fn from_rom(rom: Vec<u8>) -> (c: Self)
        ensures
            c@.rom == rom@,
            c@.ram == Seq::new(ram_size_spec(header_byte(rom@, 0x0149)), |i: int| 0u8),
            (c@.mapper, c@.has_battery) == mapper_for(header_byte(rom@, 0x0147)),
    {
        let mbc_type: u8 = if rom.len() > 0x0147 { rom[0x0147] } else { 0 };
        let ram_code: u8 = if rom.len() > 0x0149 { rom[0x0149] } else { 0 };
        let ram_size = ram_size_from_header(ram_code);
        let (mapper, has_battery) = match mbc_type {
            0x00 => (Mapper::RomOnly, false),
            0x01 => (Mapper::Mbc1(Mbc1State::new()), false),
            0x02 => (Mapper::Mbc1(Mbc1State::new()), false),
            0x03 => (Mapper::Mbc1(Mbc1State::new()), true),
            // MBC3 family. 0x0F and 0x10 include the RTC; they count as
            // battery-backed, but the RTC itself is not implemented.
            0x0F => (Mapper::Mbc3(Mbc3State::new()), true),
            0x10 => (Mapper::Mbc3(Mbc3State::new()), true),
            0x11 => (Mapper::Mbc3(Mbc3State::new()), false),
            0x12 => (Mapper::Mbc3(Mbc3State::new()), false),
            0x13 => (Mapper::Mbc3(Mbc3State::new()), true),
            _ => (Mapper::RomOnly, false),
        };
        let ram: Vec<u8> = vec![0u8; ram_size];
        let c = Self { rom, ram, mapper, has_battery };
        assert(c@.ram =~= Seq::new(ram_size_spec(header_byte(c@.rom, 0x0149)), |i: int| 0u8));
        c
    }

    /// The cartridge type of `rom` when it names no mapper this library
    /// knows (`from_rom` then treats the ROM as plain ROM); `None` when it
    /// is known.
    pub fn unsupported_mapper_type(rom: &[u8]) -> (r: Option<u8>)
        ensures
            r == (if known_mapper_type(header_byte(rom@, 0x0147)) {
                None
            } else {
                Some(header_byte(rom@, 0x0147))
            }),
    {
        let t: u8 = if rom.len() > 0x0147 { rom[0x0147] } else { 0 };
        if t <= 0x03 || (0x0F <= t && t <= 0x13) {
            None
        } else {
            Some(t)
        }
    }

    /// A 32 KiB ROM of zeros, no RAM, no mapper.
    pub fn empty() -> (c: Self)
        ensures
            c@.rom == Seq::new(0x8000, |i: int| 0u8),
            c@.ram == Seq::<u8>::empty(),
            c@.mapper == Mapper::RomOnly,
            !c@.has_battery,
    {
        let rom: Vec<u8> = vec![0u8; 0x8000];
        let c = Self { rom, ram: Vec::new(), mapper: Mapper::RomOnly, has_battery: false };
        assert(c@.rom =~= Seq::new(0x8000, |i: int| 0u8));
        c
    }

    /// Read-only access to external RAM, used by the save-file writer.
    /// Empty for cartridges with no RAM.
    pub fn ram(&self) -> (r: &[u8])
        ensures
            r@ == self.ram@,
    {
        self.ram.as_slice()
    }

    /// Replace external RAM contents from a save file. Sizes must match
    /// what the cartridge expects (from header byte 0x0149); mismatched
    /// sizes are rejected so a stale save from another ROM can't corrupt
    /// a fresh session.
    pub fn load_ram(&mut self, data: &[u8]) -> (r: Result<(), String>)
        ensures
            r is Ok <==> data@.len() == old(self).ram@.len(),
            r is Ok ==> final(self)@ == (CartridgeView { ram: data@, ..old(self)@ }),
            r is Err ==> final(self)@ == old(self)@,
            r matches Err(msg) ==> msg@ == size_mismatch_text(data@.len() as usize, old(self).ram@.len() as usize),
    {
        if data.len() != self.ram.len() {
            return Err(size_mismatch_message(data.len(), self.ram.len()));
        }
        let mut i: usize = 0;
        while i < data.len()
            invariant
                i <= data@.len(),
                self.ram@.len() == data@.len(),
                self.rom@ == old(self).rom@,
                self.mapper == old(self).mapper,
                self.has_battery == old(self).has_battery,
                forall|j: int| 0 <= j < i ==> self.ram@[j] == data@[j],
            decreases data@.len() - i,
        {
            self.ram.set(i, data[i]);
            i = i + 1;
        }
        assert(self.ram@ =~= data@);
        Ok(())
    }

    pub fn read_rom(&self, addr: u16) -> (r: u8)
        ensures
            r == self@.read_rom_spec(addr),
    {
        match &self.mapper {
            Mapper::RomOnly => Self::rom_byte(&self.rom, addr as usize),
            Mapper::Mbc1(s) => {
                if addr < 0x4000 {
                    Self::rom_byte(&self.rom, addr as usize)
                } else {
                    let bank = s.rom_bank();
                    Self::rom_byte(&self.rom, bank * 0x4000 + (addr as usize - 0x4000))
                }
            },
            Mapper::Mbc3(s) => {
                if addr < 0x4000 {
                    Self::rom_byte(&self.rom, addr as usize)
                } else {
                    let bank = s.rom_bank();
                    Self::rom_byte(&self.rom, bank * 0x4000 + (addr as usize - 0x4000))
                }
            },
        }
    }

    /// The byte at `off`, or 0xFF past the end.
    fn rom_byte(bytes: &Vec<u8>, off: usize) -> (r: u8)
        ensures
            r == byte_or_ff(bytes@, off as int),
    {
        if off < bytes.len() {
            bytes[off]
        } else {
            0xFF
        }
    }

    pub fn write_rom(&mut self, addr: u16, value: u8)
        ensures
            final(self)@ == old(self)@.write_rom_spec(addr, value),
    {
        match &mut self.mapper {
            Mapper::RomOnly => {},
            Mapper::Mbc1(s) => {
                if addr <= 0x1FFF {
                    s.ram_enabled = (value & 0x0F) == 0x0A;
                } else if addr <= 0x3FFF {
                    let mut bank = value & 0x1F;
                    if bank == 0 {
                        bank = 1;
                    }
                    s.rom_bank_lo = bank;
                } else if addr <= 0x5FFF {
                    s.bank_hi = value & 0x03;
                } else if addr <= 0x7FFF {
                    s.mode = value & 0x01;
                }
            },
            Mapper::Mbc3(s) => {
                if addr <= 0x1FFF {
                    s.ram_rtc_enabled = (value & 0x0F) == 0x0A;
                } else if addr <= 0x3FFF {
                    // 7-bit register. Only 0 maps to 1: unlike MBC1,
                    // 0x20/0x40/0x60 are real banks here.
                    let mut bank = value & 0x7F;
                    if bank == 0 {
                        bank = 1;
                    }
                    s.rom_bank = bank;
                } else if addr <= 0x5FFF {
                    s.bank_select = value;
                }
                // 0x6000–0x7FFF is the RTC latch, which is not implemented:
                // writes there are ignored.
            },
        }
    }

    pub fn read_ram(&self, addr: u16) -> (r: u8)
        requires
            self@.ram_bank_used() is Some ==> addr >= 0xA000,
        ensures
            r == self@.read_ram_spec(addr),
    {
        match &self.mapper {
            Mapper::RomOnly => 0xFF,
            Mapper::Mbc1(s) => {
                if !s.ram_enabled || self.ram.len() == 0 {
                    return 0xFF;
                }
                let off = s.ram_bank() * 0x2000 + (addr as usize - 0xA000);
                Self::rom_byte(&self.ram, off)
            },
            Mapper::Mbc3(s) => {
                if !s.ram_rtc_enabled {
                    return 0xFF;
                }
                if s.rtc_selected() {
                    // RTC register read: the RTC is not implemented, so
                    // this reads 0.
                    return 0x00;
                }
                if self.ram.len() == 0 {
                    return 0xFF;
                }
                let off = s.ram_bank() * 0x2000 + (addr as usize - 0xA000);
                Self::rom_byte(&self.ram, off)
            },
        }
    }

    pub fn write_ram(&mut self, addr: u16, value: u8)
        requires
            old(self)@.ram_bank_used() is Some ==> addr >= 0xA000,
        ensures
            final(self)@ == old(self)@.write_ram_spec(addr, value),
    {
        let bank: usize = match &self.mapper {
            Mapper::RomOnly => {
                return ;
            },
            Mapper::Mbc1(s) => {
                if !s.ram_enabled || self.ram.len() == 0 {
                    return ;
                }
                s.ram_bank()
            },
            Mapper::Mbc3(s) => {
                if !s.ram_rtc_enabled {
                    return ;
                }
                if s.rtc_selected() {
                    // RTC write: not implemented, silently dropped.
                    return ;
                }
                if self.ram.len() == 0 {
                    return ;
                }
                s.ram_bank()
            },
        };
        let off = bank * 0x2000 + (addr as usize - 0xA000);
        if off < self.ram.len() {
            self.ram.set(off, value);
        }
    }
}

impl Default for Cartridge {
    fn default() -> (c: Self)
        ensures
            c@.rom == Seq::new(0x8000, |i: int| 0u8),
            c@.ram == Seq::<u8>::empty(),
            c@.mapper == Mapper::RomOnly,
            !c@.has_battery,
    {
        Self::empty()
    }
}

/// Writing 0 to the ROM bank register selects bank 1: on an MBC1 in ROM
/// banking mode with no upper bits, and on an MBC3, 0x4000..=0x7FFF then
/// reads ROM bank 1.
pub proof fn law_bank_zero_selects_one(c: CartridgeView, addr: u16, bank_write: u16)
    requires
        0x2000 <= bank_write <= 0x3FFF,
        0x4000 <= addr <= 0x7FFF,
        match c.mapper {
            Mapper::Mbc1(s) => s.mode == 0 && s.bank_hi == 0,
            Mapper::Mbc3(_) => true,
            Mapper::RomOnly => false,
        },
    ensures
        c.write_rom_spec(bank_write, 0).read_rom_spec(addr) == byte_or_ff(c.rom, addr as int),
{
    assert(0u8 & 0x1F == 0 && 0u8 & 0x7F == 0) by (bit_vector);
    assert(((0u8 & 0x03u8) << 5u8) | (1u8 & 0x1Fu8) == 1u8) by (bit_vector);
}

/// With RAM enabled, a write to the RAM area reads back at the same
/// address, as long as it falls within the cartridge's RAM.
pub proof fn law_cart_ram_roundtrip(c: CartridgeView, addr: u16, value: u8)
    requires
        0xA000 <= addr <= 0xBFFF,
        c.ram_bank_used() matches Some(bank) && bank * 0x2000 + (addr - 0xA000) < c.ram.len(),
    ensures
        c.write_ram_spec(addr, value).read_ram_spec(addr) == value,
{
}

/// MBC3 ROM banking: the bank register is seven bits. After a write of `v`
/// to 0x2000..=0x3FFF, 0x4000..=0x7FFF reads ROM bank `v mod 128` (bank 1
/// when that is 0), while 0x0000..=0x3FFF keeps reading bank 0.
pub proof fn law_mbc3_rom_banking(c: CartridgeView, addr: u16, bank_write: u16, v: u8)
    requires
        c.mapper is Mbc3,
        0x2000 <= bank_write <= 0x3FFF,
    ensures
        ({
            let bank: int = if v % 128 == 0 { 1 } else { (v % 128) as int };
            let c2 = c.write_rom_spec(bank_write, v);
            &&& 0x4000 <= addr <= 0x7FFF ==> c2.read_rom_spec(addr) == byte_or_ff(
                c.rom,
                bank * 0x4000 + (addr - 0x4000),
            )
            &&& addr < 0x4000 ==> c2.read_rom_spec(addr) == byte_or_ff(c.rom, addr as int)
        }),
{
    assert(v & 0x7F == v % 128) by (bit_vector);
}

/// MBC1 ROM banking: the low bank register is five bits, and in ROM
/// banking mode the two upper bits come from 0x4000..=0x5FFF. After a
/// write of `v` to 0x2000..=0x3FFF, 0x4000..=0x7FFF reads ROM bank
/// `32 * hi + (v mod 32)`, with a low part of 0 read as 1.
pub proof fn law_mbc1_rom_banking(c: CartridgeView, addr: u16, bank_write: u16, v: u8)
    requires
        c.mapper matches Mapper::Mbc1(s) && s.mode == 0,
        0x2000 <= bank_write <= 0x3FFF,
        0x4000 <= addr <= 0x7FFF,
    ensures
        ({
            let hi = c.mapper->Mbc1_0.bank_hi % 4;
            let lo: int = if v % 32 == 0 { 1 } else { (v % 32) as int };
            c.write_rom_spec(bank_write, v).read_rom_spec(addr) == byte_or_ff(
                c.rom,
                (32 * hi + lo) * 0x4000 + (addr - 0x4000),
            )
        }),
{
    let s = c.mapper->Mbc1_0;
    let lo: u8 = if v & 0x1F == 0 { 1 } else { v & 0x1F };
    let h = s.bank_hi;
    assert(v & 0x1F == v % 32) by (bit_vector);
    assert(lo <= 31 ==> ((((h & 0x03u8) << 5u8) | (lo & 0x1Fu8)) as int == 32 * (h % 4) + lo)) by (bit_vector);
}

/// Cartridge RAM gating and banking: a write of v to 0x0000..=0x1FFF
/// enables the RAM exactly when the low nibble of v is 0xA; on an MBC1 a
/// write of m to 0x6000..=0x7FFF selects RAM banking exactly when m is odd,
/// and then the RAM bank is the two-bit value last written to
/// 0x4000..=0x5FFF (bank 0 in ROM banking mode); on an MBC3 the RAM bank
/// is the low two bits of the value last written to 0x4000..=0x5FFF
/// while it selects no clock register (0x08..=0x0C).
pub proof fn law_cart_ram_gating(c: CartridgeView, enable_addr: u16, v: u8, mode_addr: u16, m: u8)
    requires
        enable_addr <= 0x1FFF,
        0x6000 <= mode_addr <= 0x7FFF,
        c.ram.len() > 0,
        !(c.mapper is RomOnly),
    ensures
        (c.write_rom_spec(enable_addr, v).ram_bank_used() is Some) == (v % 16 == 10 && !(c.mapper
            matches Mapper::Mbc3(s) && 0x08 <= s.bank_select <= 0x0C)),
        c.mapper matches Mapper::Mbc1(s) ==> ({
            let c2 = c.write_rom_spec(mode_addr, m);
            &&& c2.mapper matches Mapper::Mbc1(s2) && (s2.mode == 1) == (m % 2 == 1)
            &&& s.ram_enabled ==> c2.ram_bank_used() == Some(
                if m % 2 == 1 {
                    (s.bank_hi % 4) as nat
                } else {
                    0nat
                },
            )
        }),
        c.mapper matches Mapper::Mbc3(s) ==> (s.ram_rtc_enabled && !(0x08 <= s.bank_select <= 0x0C)
            ==> c.ram_bank_used() == Some((s.bank_select % 4) as nat)),
{
    let h: u8 = match c.mapper {
        Mapper::Mbc1(s) => s.bank_hi,
        Mapper::Mbc3(s) => s.bank_select,
        Mapper::RomOnly => 0,
    };
    assert(((v & 0x0Fu8) == 0x0Au8) == (v % 16 == 10) && (h & 0x03u8) == h % 4 && (m & 0x01u8)
        == m % 2) by (bit_vector);
}

} // verus!
