//! The DMG PPU.
//!
//! Timing model: one scanline is 456 T-cycles ("dots"), one frame is 154
//! scanlines (70224 dots). Within each visible scanline (LY 0..=143) the
//! PPU walks three modes:
//!
//!   Mode 2  OAM scan   dots   0.. 79      (80 dots)
//!   Mode 3  Drawing    dots  80..251      (172 dots)
//!   Mode 0  HBlank     dots 252..455      (204 dots)
//!
//! Lines 144..=153 are Mode 1 (VBlank). VBlank fires once per frame when
//! LY goes from 143 to 144.
//!
//! Rendering: when a visible scanline enters HBlank, that whole line is
//! rendered at once (background, then window, then sprites).
//!
//! STAT interrupt: four sources are ORed into one STAT line, and the
//! interrupt fires on the rising edge of that line.

pub mod sprites;

use vstd::prelude::*;
use crate::bits::lemma_mask_bounds;

verus! {

pub const SCREEN_W: usize = 160;
pub const SCREEN_H: usize = 144;
/// Bytes in the framebuffer: one shade per pixel.
pub const FRAMEBUFFER_LEN: usize = 23040;

pub const DOTS_PER_LINE: u32 = 456;
pub const LINES_PER_FRAME: u32 = 154;
pub const VISIBLE_LINES: u8 = 144;
pub const OAM_END: u32 = 80;
pub const DRAWING_END: u32 = 252;

// LCDC bits.
pub const LCDC_BG_ENABLE: u8 = 0x01;
pub const LCDC_OBJ_ENABLE: u8 = 0x02;
/// 0 = 8x8 sprites, 1 = 8x16.
pub const LCDC_OBJ_SIZE: u8 = 0x04;
pub const LCDC_BG_MAP_AREA: u8 = 0x08;
pub const LCDC_BG_DATA_AREA: u8 = 0x10;
pub const LCDC_WINDOW_ENABLE: u8 = 0x20;
pub const LCDC_WINDOW_MAP_AREA: u8 = 0x40;
pub const LCDC_LCD_ENABLE: u8 = 0x80;

// STAT interrupt-source-enable bits.
pub const STAT_LYC_IE: u8 = 0x40;
pub const STAT_MODE2_IE: u8 = 0x20;
pub const STAT_MODE1_IE: u8 = 0x10;
pub const STAT_MODE0_IE: u8 = 0x08;

#[derive(Debug, Clone, Copy, PartialEq, Eq, Structural)]
pub enum PpuMode {
    HBlank,
    VBlank,
    OamScan,
    Drawing,
}

/// The mode number that STAT reports.
pub open spec fn mode_number(m: PpuMode) -> u8 {
    match m {
        PpuMode::HBlank => 0,
        PpuMode::VBlank => 1,
        PpuMode::OamScan => 2,
        PpuMode::Drawing => 3,
    }
}

/// The mode of a visible scanline at a dot.
pub open spec fn mode_for_dot(dots: u32) -> PpuMode {
    if dots < OAM_END {
        PpuMode::OamScan
    } else if dots < DRAWING_END {
        PpuMode::Drawing
    } else {
        PpuMode::HBlank
    }
}

pub struct Ppu {
    pub vram: [u8; 0x2000],
    pub oam: [u8; 0xA0],
    pub lcdc: u8,
    pub stat: u8,
    pub scy: u8,
    pub scx: u8,
    pub ly: u8,
    pub lyc: u8,
    pub bgp: u8,
    pub obp0: u8,
    pub obp1: u8,
    pub wy: u8,
    pub wx: u8,
    pub mode: PpuMode,
    pub dots: u32,
    /// Window line counter: the window row to draw next.
    pub wlc: u8,
    pub stat_line_prev: bool,
    pub framebuffer: [u8; 23040],
    /// Per-pixel background/window colour index (before BGP, 0..=3) of
    /// the line being rendered. Sprite priority is decided against it.
    pub bg_color_line: [u8; 160],
    pub vblank_irq: bool,
    pub stat_irq: bool,
    pub frame_ready: bool,
}

/// The mathematical model of the PPU.
pub struct PpuView {
    pub vram: Seq<u8>,
    pub oam: Seq<u8>,
    pub lcdc: u8,
    pub stat: u8,
    pub scy: u8,
    pub scx: u8,
    pub ly: u8,
    pub lyc: u8,
    pub bgp: u8,
    pub obp0: u8,
    pub obp1: u8,
    pub wy: u8,
    pub wx: u8,
    pub mode: PpuMode,
    pub dots: u32,
    pub wlc: u8,
    pub stat_line_prev: bool,
    pub framebuffer: Seq<u8>,
    pub bg_color_line: Seq<u8>,
    pub vblank_irq: bool,
    pub stat_irq: bool,
    pub frame_ready: bool,
}

impl View for Ppu {
    type V = PpuView;

    open spec fn view(&self) -> PpuView {
        PpuView {
            vram: self.vram@,
            oam: self.oam@,
            lcdc: self.lcdc,
            stat: self.stat,
            scy: self.scy,
            scx: self.scx,
            ly: self.ly,
            lyc: self.lyc,
            bgp: self.bgp,
            obp0: self.obp0,
            obp1: self.obp1,
            wy: self.wy,
            wx: self.wx,
            mode: self.mode,
            dots: self.dots,
            wlc: self.wlc,
            stat_line_prev: self.stat_line_prev,
            framebuffer: self.framebuffer@,
            bg_color_line: self.bg_color_line@,
            vblank_irq: self.vblank_irq,
            stat_irq: self.stat_irq,
            frame_ready: self.frame_ready,
        }
    }
}

/// The tile data address of a tile index: unsigned from 0x8000, or
/// signed around 0x9000, as LCDC bit 4 selects.
pub open spec fn tile_data_addr_spec(lcdc: u8, tile_index: u8) -> u16 {
    if lcdc & LCDC_BG_DATA_AREA != 0 {
        (0x8000 + tile_index as int * 16) as u16
    } else {
        (0x9000 + (tile_index as i8) as int * 16) as u16
    }
}

/// The 2-bit colour index of bit `bit` of a tile row.
pub open spec fn color_id(byte0: u8, byte1: u8, bit: u8) -> u8 {
    (((byte1 >> bit) & 1) << 1u8) | ((byte0 >> bit) & 1)
}

/// The shade a palette maps a colour index to.
pub open spec fn shade(palette: u8, id: u8) -> u8 {
    (palette >> (id * 2)) & 0x03
}

impl PpuView {
    /// The power-on state.
    pub open spec fn initial() -> PpuView {
        PpuView {
            vram: Seq::new(0x2000, |i: int| 0u8),
            oam: Seq::new(0xA0, |i: int| 0u8),
            lcdc: 0x91,
            stat: 0x85,
            scy: 0,
            scx: 0,
            ly: 0,
            lyc: 0,
            bgp: 0xFC,
            obp0: 0xFF,
            obp1: 0xFF,
            wy: 0,
            wx: 0,
            mode: PpuMode::OamScan,
            dots: 0,
            wlc: 0,
            stat_line_prev: false,
            framebuffer: Seq::new(23040, |i: int| 0u8),
            bg_color_line: Seq::new(160, |i: int| 0u8),
            vblank_irq: false,
            stat_irq: false,
            frame_ready: false,
        }
    }

    /// What stepping needs: the dot counter is within the line and, on a
    /// visible line, within the current mode.
    pub open spec fn wf(&self) -> bool {
        &&& self.vram.len() == 0x2000
        &&& self.oam.len() == 0xA0
        &&& self.framebuffer.len() == 23040
        &&& self.bg_color_line.len() == 160
        &&& self.dots < DOTS_PER_LINE
        &&& self.ly < VISIBLE_LINES ==> (self.mode == PpuMode::OamScan ==> self.dots < OAM_END)
            && (self.mode == PpuMode::Drawing ==> self.dots < DRAWING_END)
    }

    pub open spec fn lcd_on(&self) -> bool {
        self.lcdc & LCDC_LCD_ENABLE != 0
    }

    pub open spec fn vram_at(&self, addr: int) -> u8 {
        self.vram[addr - 0x8000]
    }

    /// STAT as the CPU reads it: bit 7 set, the interrupt enables, the
    /// LY=LYC bit and the mode.
    pub open spec fn stat_spec(&self) -> u8 {
        0x80 | (self.stat & 0x78) | mode_number(self.mode) | (if self.ly == self.lyc {
            0x04u8
        } else {
            0x00u8
        })
    }

    pub open spec fn read_reg_spec(&self, addr: u16) -> u8 {
        if addr == 0xFF40 {
            self.lcdc
        } else if addr == 0xFF41 {
            self.stat_spec()
        } else if addr == 0xFF42 {
            self.scy
        } else if addr == 0xFF43 {
            self.scx
        } else if addr == 0xFF44 {
            self.ly
        } else if addr == 0xFF45 {
            self.lyc
        } else if addr == 0xFF47 {
            self.bgp
        } else if addr == 0xFF48 {
            self.obp0
        } else if addr == 0xFF49 {
            self.obp1
        } else if addr == 0xFF4A {
            self.wy
        } else if addr == 0xFF4B {
            self.wx
        } else {
            0xFF
        }
    }

    /// The OR of the enabled STAT interrupt sources.
    pub open spec fn stat_line(&self) -> bool {
        (self.stat & STAT_LYC_IE != 0 && self.ly == self.lyc) || (self.stat & STAT_MODE2_IE != 0
            && self.mode == PpuMode::OamScan) || (self.stat & STAT_MODE1_IE != 0 && self.mode
            == PpuMode::VBlank) || (self.stat & STAT_MODE0_IE != 0 && self.mode
            == PpuMode::HBlank)
    }

    /// The STAT interrupt is requested on a rising edge of the line.
    pub open spec fn update_stat_line_spec(self) -> PpuView {
        PpuView {
            stat_irq: self.stat_irq || (self.stat_line() && !self.stat_line_prev),
            stat_line_prev: self.stat_line(),
            ..self
        }
    }

    pub open spec fn write_reg_spec(self, addr: u16, value: u8) -> PpuView {
        if addr == 0xFF40 {
            let was_on = self.lcdc & LCDC_LCD_ENABLE != 0;
            let will_on = value & LCDC_LCD_ENABLE != 0;
            if was_on && !will_on {
                PpuView {
                    lcdc: value,
                    ly: 0,
                    dots: 0,
                    mode: PpuMode::HBlank,
                    wlc: 0,
                    stat_line_prev: false,
                    ..self
                }
            } else if !was_on && will_on {
                PpuView {
                    lcdc: value,
                    ly: 0,
                    dots: 0,
                    mode: PpuMode::OamScan,
                    wlc: 0,
                    stat_line_prev: false,
                    ..self
                }
            } else {
                PpuView { lcdc: value, ..self }
            }
        } else if addr == 0xFF41 {
            PpuView { stat: (self.stat & 0x07) | (value & 0x78), ..self }.update_stat_line_spec()
        } else if addr == 0xFF42 {
            PpuView { scy: value, ..self }
        } else if addr == 0xFF43 {
            PpuView { scx: value, ..self }
        } else if addr == 0xFF45 {
            PpuView { lyc: value, ..self }.update_stat_line_spec()
        } else if addr == 0xFF47 {
            PpuView { bgp: value, ..self }
        } else if addr == 0xFF48 {
            PpuView { obp0: value, ..self }
        } else if addr == 0xFF49 {
            PpuView { obp1: value, ..self }
        } else if addr == 0xFF4A {
            PpuView { wy: value, ..self }
        } else if addr == 0xFF4B {
            PpuView { wx: value, ..self }
        } else {
            self
        }
    }

    /// The colour index at (x, y) of the 32x32 tile map at `map_base`.
    pub open spec fn map_pixel(&self, map_base: int, y: u8, x: u8) -> u8 {
        let tile_index = self.vram_at(map_base + (y / 8) as int * 32 + (x / 8) as int);
        let tile_addr = tile_data_addr_spec(self.lcdc, tile_index) as int;
        let row = (y % 8) as int;
        color_id(
            self.vram_at(tile_addr + row * 2),
            self.vram_at(tile_addr + row * 2 + 1),
            (7 - x % 8) as u8,
        )
    }

    pub open spec fn bg_map_base(&self) -> int {
        if self.lcdc & LCDC_BG_MAP_AREA != 0 {
            0x9C00
        } else {
            0x9800
        }
    }

    pub open spec fn window_map_base(&self) -> int {
        if self.lcdc & LCDC_WINDOW_MAP_AREA != 0 {
            0x9C00
        } else {
            0x9800
        }
    }

    /// Background colour index at screen column x of the current line.
    pub open spec fn bg_id(&self, x: int) -> u8 {
        self.map_pixel(self.bg_map_base(), self.ly.wrapping_add(self.scy), (x as u8).wrapping_add(self.scx))
    }

    /// Window colour index at screen column x of the current line.
    pub open spec fn window_id(&self, x: int) -> u8 {
        self.map_pixel(self.window_map_base(), self.wlc, (x - (self.wx - 7)) as u8)
    }

    /// The framebuffer with the current line replaced, column by column,
    /// where `covers` holds.
    pub open spec fn line_written(&self, covers: spec_fn(int) -> bool, px: spec_fn(int) -> u8) -> Seq<u8> {
        let row = self.ly as int * 160;
        Seq::new(
            self.framebuffer.len(),
            |i: int|
                if row <= i < row + 160 && covers(i - row) {
                    px(i - row)
                } else {
                    self.framebuffer[i]
                },
        )
    }

    /// The current line filled with the background.
    pub open spec fn render_bg_line_spec(self) -> PpuView {
        PpuView {
            framebuffer: self.line_written(|x: int| true, |x: int| shade(self.bgp, self.bg_id(x))),
            bg_color_line: Seq::new(160, |x: int| self.bg_id(x)),
            ..self
        }
    }

    /// The window covers the current line.
    pub open spec fn window_visible(&self) -> bool {
        self.lcdc & LCDC_WINDOW_ENABLE != 0 && self.ly >= self.wy && self.wx < 167
    }

    /// The window drawn over the current line from column WX-7 on; the
    /// window line counter advances when it is drawn.
    pub open spec fn render_window_line_spec(self) -> PpuView {
        if !self.window_visible() {
            self
        } else {
            let start = self.wx - 7;
            PpuView {
                framebuffer: self.line_written(
                    |x: int| x >= start,
                    |x: int| shade(self.bgp, self.window_id(x)),
                ),
                bg_color_line: Seq::new(
                    160,
                    |x: int|
                        if x >= start {
                            self.window_id(x)
                        } else {
                            self.bg_color_line[x]
                        },
                ),
                wlc: self.wlc.wrapping_add(1),
                ..self
            }
        }
    }

    /// A full scanline: background (or blank), window, then sprites.
    pub open spec fn render_scanline_spec(self) -> PpuView {
        let v1 = if self.lcdc & LCDC_BG_ENABLE == 0 {
            PpuView {
                framebuffer: self.line_written(|x: int| true, |x: int| 0u8),
                bg_color_line: Seq::new(160, |x: int| 0u8),
                ..self
            }
        } else {
            self.render_bg_line_spec()
        };
        let v2 = if self.lcdc & LCDC_BG_ENABLE != 0 {
            v1.render_window_line_spec()
        } else {
            v1
        };
        if self.lcdc & LCDC_OBJ_ENABLE != 0 {
            v2.render_sprites_line_spec()
        } else {
            v2
        }
    }

    /// The next line: LY wraps after 153; line 144 starts VBlank and
    /// requests the VBlank interrupt.
    pub open spec fn advance_line_spec(self) -> PpuView {
        let ly1 = self.ly.wrapping_add(1);
        let v1 = if ly1 as u32 >= LINES_PER_FRAME {
            PpuView { ly: 0, wlc: 0, ..self }
        } else {
            PpuView { ly: ly1, ..self }
        };
        let v2 = if v1.ly == VISIBLE_LINES {
            PpuView { mode: PpuMode::VBlank, vblank_irq: true, frame_ready: true, ..v1 }
        } else if v1.ly < VISIBLE_LINES {
            PpuView { mode: PpuMode::OamScan, ..v1 }
        } else {
            v1
        };
        v2.update_stat_line_spec()
    }

    /// Dots until the next event of the current line.
    pub open spec fn next_boundary(&self) -> u32 {
        if self.ly >= VISIBLE_LINES {
            DOTS_PER_LINE
        } else {
            match self.mode {
                PpuMode::OamScan => OAM_END,
                PpuMode::Drawing => DRAWING_END,
                _ => DOTS_PER_LINE,
            }
        }
    }

    /// The state after reaching the next event (line end or mode
    /// change), with `remaining` dots to spend; and the dots left after.
    pub open spec fn advance_to_event(self, remaining: nat) -> (PpuView, nat) {
        let gap = (self.next_boundary() - self.dots) as nat;
        let chunk = if gap < remaining { gap } else { remaining };
        let v1 = PpuView { dots: (self.dots + chunk) as u32, ..self };
        let v2 = if v1.dots == DOTS_PER_LINE {
            PpuView { dots: 0, ..v1 }.advance_line_spec()
        } else if v1.ly < VISIBLE_LINES {
            let new_mode = mode_for_dot(v1.dots);
            let v3 = if new_mode == PpuMode::HBlank && v1.mode != PpuMode::HBlank {
                v1.render_scanline_spec()
            } else {
                v1
            };
            if new_mode != v3.mode {
                PpuView { mode: new_mode, ..v3 }.update_stat_line_spec()
            } else {
                v3
            }
        } else {
            v1
        };
        (v2, (remaining - chunk) as nat)
    }

    /// The PPU after `remaining` dots of a running LCD, event by event.
    pub open spec fn run_spec(self, remaining: nat) -> PpuView
        decreases remaining,
    {
        if remaining == 0 {
            self
        } else {
            let (v1, rest) = self.advance_to_event(remaining);
            if rest < remaining {
                v1.run_spec(rest)
            } else {
                self
            }
        }
    }

    /// The PPU after `cycles` T-cycles: frozen while the LCD is off.
    pub open spec fn step_spec(self, cycles: u32) -> PpuView {
        if !self.lcd_on() {
            self
        } else {
            self.run_spec(cycles as nat)
        }
    }
}

impl Ppu {
    pub fn new() -> (p: Self)
        ensures
            p@ == PpuView::initial(),
    {
        let p = Self {
            vram: [0; 0x2000],
            oam: [0; 0xA0],
            lcdc: 0x91,
            stat: 0x85,
            scy: 0,
            scx: 0,
            ly: 0,
            lyc: 0,
            bgp: 0xFC,
            obp0: 0xFF,
            obp1: 0xFF,
            wy: 0,
            wx: 0,
            mode: PpuMode::OamScan,
            dots: 0,
            wlc: 0,
            stat_line_prev: false,
            framebuffer: [0; 23040],
            bg_color_line: [0; 160],
            vblank_irq: false,
            stat_irq: false,
            frame_ready: false,
        };
        assert(p@.vram =~= PpuView::initial().vram);
        assert(p@.oam =~= PpuView::initial().oam);
        assert(p@.framebuffer =~= PpuView::initial().framebuffer);
        assert(p@.bg_color_line =~= PpuView::initial().bg_color_line);
        p
    }

    // ── Memory access ───────────────────────────────────────────────────
    pub fn read_vram(&self, addr: u16) -> (r: u8)
        requires
            0x8000 <= addr < 0xA000,
        ensures
            r == self@.vram_at(addr as int),
    {
        self.vram[(addr - 0x8000) as usize]
    }

    pub fn write_vram(&mut self, addr: u16, v: u8)
        requires
            0x8000 <= addr < 0xA000,
        ensures
            final(self)@ == (PpuView {
                vram: old(self)@.vram.update(addr - 0x8000, v),
                ..old(self)@
            }),
    {
        self.vram[(addr - 0x8000) as usize] = v;
    }

    pub fn read_oam(&self, addr: u16) -> (r: u8)
        requires
            0xFE00 <= addr < 0xFEA0,
        ensures
            r == self@.oam[addr - 0xFE00],
    {
        self.oam[(addr - 0xFE00) as usize]
    }

    pub fn write_oam(&mut self, addr: u16, v: u8)
        requires
            0xFE00 <= addr < 0xFEA0,
        ensures
            final(self)@ == (PpuView { oam: old(self)@.oam.update(addr - 0xFE00, v), ..old(self)@ }),
    {
        self.oam[(addr - 0xFE00) as usize] = v;
    }

    pub fn read_reg(&self, addr: u16) -> (r: u8)
        ensures
            r == self@.read_reg_spec(addr),
    {
        match addr {
            0xFF40 => self.lcdc,
            0xFF41 => 0x80 | (self.stat & 0x78) | self.mode_bits() | self.lyc_match_bit(),
            0xFF42 => self.scy,
            0xFF43 => self.scx,
            0xFF44 => self.ly,
            0xFF45 => self.lyc,
            0xFF47 => self.bgp,
            0xFF48 => self.obp0,
            0xFF49 => self.obp1,
            0xFF4A => self.wy,
            0xFF4B => self.wx,
            _ => 0xFF,
        }
    }

    pub fn write_reg(&mut self, addr: u16, value: u8)
        ensures
            final(self)@ == old(self)@.write_reg_spec(addr, value),
    {
        match addr {
            0xFF40 => {
                let was_on = self.lcdc & LCDC_LCD_ENABLE != 0;
                let will_on = value & LCDC_LCD_ENABLE != 0;
                self.lcdc = value;
                if was_on && !will_on {
                    self.ly = 0;
                    self.dots = 0;
                    self.mode = PpuMode::HBlank;
                    self.wlc = 0;
                    self.stat_line_prev = false;
                }
                if !was_on && will_on {
                    self.ly = 0;
                    self.dots = 0;
                    self.mode = PpuMode::OamScan;
                    self.wlc = 0;
                    self.stat_line_prev = false;
                }
            },
            0xFF41 => {
                self.stat = (self.stat & 0x07) | (value & 0x78);
                self.update_stat_line();
            },
            0xFF42 => self.scy = value,
            0xFF43 => self.scx = value,
            // LY is read-only.
            0xFF44 => {},
            0xFF45 => {
                self.lyc = value;
                self.update_stat_line();
            },
            0xFF47 => self.bgp = value,
            0xFF48 => self.obp0 = value,
            0xFF49 => self.obp1 = value,
            0xFF4A => self.wy = value,
            0xFF4B => self.wx = value,
            _ => {},
        }
    }

    // ── State machine ───────────────────────────────────────────────────
    /// Advance by `cycles` dots. The budget is walked in chunks bounded by
    /// the next event (mode change, line end), so every HBlank entry is
    /// visited and its line rendered, even when one call spans many lines.
    pub fn step(&mut self, cycles: u32)
        requires
            old(self)@.wf(),
        ensures
            final(self)@ == old(self)@.step_spec(cycles),
            final(self)@.wf(),
    {
        if self.lcdc & LCDC_LCD_ENABLE == 0 {
            return;
        }
        let mut remaining = cycles;
        while remaining > 0
            invariant
                self@.wf(),
                self@.lcd_on(),
                old(self)@.step_spec(cycles) == self@.run_spec(remaining as nat),
            decreases remaining,
        {
            remaining = self.advance_to_event(remaining);
        }
    }

    /// One chunk of `step`: run to the next event or until the budget is
    /// spent; returns the budget left.
    fn advance_to_event(&mut self, remaining: u32) -> (rest: u32)
        requires
            old(self)@.wf(),
            remaining > 0,
        ensures
            (final(self)@, rest as nat) == old(self)@.advance_to_event(remaining as nat),
            final(self)@.wf(),
            rest < remaining,
    {
        let mut remaining = remaining;
        // Dots until the next event on this scanline.
        let next_boundary = if self.ly >= VISIBLE_LINES {
            // VBlank: the only event is the line end.
            DOTS_PER_LINE
        } else {
            match self.mode {
                PpuMode::OamScan => OAM_END,
                PpuMode::Drawing => DRAWING_END,
                _ => DOTS_PER_LINE,
            }
        };
        let gap = next_boundary - self.dots;
        let chunk = if gap < remaining { gap } else { remaining };
        self.dots = self.dots + chunk;
        remaining = remaining - chunk;
        if self.dots == DOTS_PER_LINE {
            // End of line: advance.
            self.dots = 0;
            self.advance_line();
        } else if self.ly < VISIBLE_LINES {
            // Mode transition within this scanline.
            let new_mode = if self.dots < OAM_END {
                PpuMode::OamScan
            } else if self.dots < DRAWING_END {
                PpuMode::Drawing
            } else {
                // Entering HBlank: this is when the line is rendered.
                if self.mode != PpuMode::HBlank {
                    self.render_scanline();
                }
                PpuMode::HBlank
            };
            if new_mode != self.mode {
                self.mode = new_mode;
                self.update_stat_line();
            }
        }
        remaining
    }

    fn advance_line(&mut self)
        ensures
            final(self)@ == old(self)@.advance_line_spec(),
    {
        self.ly = self.ly.wrapping_add(1);
        if self.ly as u32 >= LINES_PER_FRAME {
            self.ly = 0;
            self.wlc = 0;
        }
        if self.ly == VISIBLE_LINES {
            self.mode = PpuMode::VBlank;
            self.vblank_irq = true;
            self.frame_ready = true;
        } else if self.ly < VISIBLE_LINES {
            self.mode = PpuMode::OamScan;
        }
        self.update_stat_line();
    }

    fn mode_bits(&self) -> (r: u8)
        ensures
            r == mode_number(self.mode),
    {
        match self.mode {
            PpuMode::HBlank => 0,
            PpuMode::VBlank => 1,
            PpuMode::OamScan => 2,
            PpuMode::Drawing => 3,
        }
    }

    fn lyc_match_bit(&self) -> (r: u8)
        ensures
            r == (if self.ly == self.lyc { 0x04u8 } else { 0x00u8 }),
    {
        if self.ly == self.lyc {
            0x04
        } else {
            0x00
        }
    }

    fn update_stat_line(&mut self)
        ensures
            final(self)@ == old(self)@.update_stat_line_spec(),
    {
        let lyc_match = self.ly == self.lyc;
        let line = (self.stat & STAT_LYC_IE != 0 && lyc_match) || (self.stat & STAT_MODE2_IE != 0
            && self.mode == PpuMode::OamScan) || (self.stat & STAT_MODE1_IE != 0 && self.mode
            == PpuMode::VBlank) || (self.stat & STAT_MODE0_IE != 0 && self.mode
            == PpuMode::HBlank);
        if line && !self.stat_line_prev {
            self.stat_irq = true;
        }
        self.stat_line_prev = line;
    }

    /// The current mode (for inspection and tests).
    pub fn debug_mode(&self) -> (r: PpuMode)
        ensures
            r == self.mode,
    {
        self.mode
    }

    /// The window line counter (for inspection and tests).
    pub fn debug_wlc(&self) -> (r: u8)
        ensures
            r == self.wlc,
    {
        self.wlc
    }

    // ── Rendering ───────────────────────────────────────────────────────
    fn render_scanline(&mut self)
        requires
            old(self).ly < VISIBLE_LINES,
        ensures
            final(self)@ == old(self)@.render_scanline_spec(),
    {
        if self.lcdc & LCDC_BG_ENABLE == 0 {
            let start = self.ly as usize * SCREEN_W;
            let ghost v0 = self@;
            let mut i: usize = 0;
            assert(self@.framebuffer =~= Seq::new(
                23040,
                |k: int|
                    if start <= k < start + 0 {
                        0u8
                    } else {
                        v0.framebuffer[k]
                    },
            ));
            assert(self@.bg_color_line =~= Seq::new(
                160,
                |k: int|
                    if k < 0 {
                        0u8
                    } else {
                        v0.bg_color_line[k]
                    },
            ));
            while i < SCREEN_W
                invariant
                    start == v0.ly as int * 160,
                    v0.ly < 144,
                    i <= 160,
                    self@ == (PpuView {
                        framebuffer: Seq::new(
                            23040,
                            |k: int|
                                if start <= k < start + i {
                                    0u8
                                } else {
                                    v0.framebuffer[k]
                                },
                        ),
                        bg_color_line: Seq::new(
                            160,
                            |k: int|
                                if k < i {
                                    0u8
                                } else {
                                    v0.bg_color_line[k]
                                },
                        ),
                        ..v0
                    }),
                decreases 160 - i,
            {
                self.framebuffer[start + i] = 0;
                // BG disabled: the colour index is 0 for the whole line.
                self.bg_color_line[i] = 0;
                i = i + 1;
                assert(self@.framebuffer =~= Seq::new(
                    23040,
                    |k: int|
                        if start <= k < start + i {
                            0u8
                        } else {
                            v0.framebuffer[k]
                        },
                ));
                assert(self@.bg_color_line =~= Seq::new(
                    160,
                    |k: int|
                        if k < i {
                            0u8
                        } else {
                            v0.bg_color_line[k]
                        },
                ));
            }
            assert(self@.framebuffer =~= v0.line_written(|x: int| true, |x: int| 0u8));
            assert(self@.bg_color_line =~= Seq::new(160, |x: int| 0u8));
        } else {
            self.render_bg_line();
        }
        // On DMG, when LCDC bit 0 is 0, the window is suppressed too.
        if self.lcdc & LCDC_BG_ENABLE != 0 {
            self.render_window_line();
        }
        if self.lcdc & LCDC_OBJ_ENABLE != 0 {
            self.render_sprites_line();
        }
    }

    fn render_bg_line(&mut self)
        requires
            old(self).ly < VISIBLE_LINES,
        ensures
            final(self)@ == old(self)@.render_bg_line_spec(),
    {
        proof {
            lemma_mask_bounds();
        }
        let ghost v0 = self@;
        let ly = self.ly;
        let bg_y = ly.wrapping_add(self.scy);
        let tile_row = (bg_y / 8) as u16;
        let row_in_tile = (bg_y % 8) as u16;
        let map_base: u16 = if self.lcdc & LCDC_BG_MAP_AREA != 0 {
            0x9C00
        } else {
            0x9800
        };
        let mut screen_x: usize = 0;
        assert(self@.framebuffer =~= v0.line_written(
            |x: int| x < 0,
            |x: int| shade(v0.bgp, v0.bg_id(x)),
        ));
        assert(self@.bg_color_line =~= Seq::new(
            160,
            |x: int|
                if x < 0 {
                    v0.bg_id(x)
                } else {
                    v0.bg_color_line[x]
                },
        ));
        while screen_x < SCREEN_W
            invariant
                ly == v0.ly,
                ly < 144,
                screen_x <= 160,
                bg_y == v0.ly.wrapping_add(v0.scy),
                tile_row == bg_y / 8,
                row_in_tile == bg_y % 8,
                map_base == v0.bg_map_base(),
                self@ == (PpuView {
                    framebuffer: v0.line_written(
                        |x: int| x < screen_x,
                        |x: int| shade(v0.bgp, v0.bg_id(x)),
                    ),
                    bg_color_line: Seq::new(
                        160,
                        |x: int|
                            if x < screen_x {
                                v0.bg_id(x)
                            } else {
                                v0.bg_color_line[x]
                            },
                    ),
                    ..v0
                }),
            decreases 160 - screen_x,
        {
            proof {
                lemma_mask_bounds();
            }
            let bg_x = (screen_x as u8).wrapping_add(self.scx);
            let tile_col = (bg_x / 8) as u16;
            let col_in_tile = bg_x % 8;
            let map_addr = map_base + tile_row * 32 + tile_col;
            let tile_index = self.read_vram(map_addr);
            let tile_addr = self.tile_data_addr(tile_index);
            let byte0 = self.read_vram(tile_addr + row_in_tile * 2);
            let byte1 = self.read_vram(tile_addr + row_in_tile * 2 + 1);
            let bit = 7 - col_in_tile;
            let low = (byte0 >> bit) & 1;
            let high = (byte1 >> bit) & 1;
            let color_id = (high << 1u8) | low;
            let shade_v = (self.bgp >> (color_id * 2)) & 0x03;
            assert(color_id == v0.bg_id(screen_x as int));
            self.framebuffer[ly as usize * SCREEN_W + screen_x] = shade_v;
            self.bg_color_line[screen_x] = color_id;
            screen_x = screen_x + 1;
            assert(self@.framebuffer =~= v0.line_written(
                |x: int| x < screen_x,
                |x: int| shade(v0.bgp, v0.bg_id(x)),
            ));
            assert(self@.bg_color_line =~= Seq::new(
                160,
                |x: int|
                    if x < screen_x {
                        v0.bg_id(x)
                    } else {
                        v0.bg_color_line[x]
                    },
            ));
        }
        assert(self@.framebuffer =~= v0.render_bg_line_spec().framebuffer);
        assert(self@.bg_color_line =~= v0.render_bg_line_spec().bg_color_line);
    }

    fn render_window_line(&mut self)
        requires
            old(self).ly < VISIBLE_LINES,
        ensures
            final(self)@ == old(self)@.render_window_line_spec(),
    {
        proof {
            lemma_mask_bounds();
        }
        if self.lcdc & LCDC_WINDOW_ENABLE == 0 {
            return;
        }
        if self.ly < self.wy {
            return;
        }
        if self.wx >= (SCREEN_W as u8) + 7 {
            return;
        }
        let ghost v0 = self@;
        let map_base: u16 = if self.lcdc & LCDC_WINDOW_MAP_AREA != 0 {
            0x9C00
        } else {
            0x9800
        };
        let win_y = self.wlc;
        let tile_row = (win_y / 8) as u16;
        let row_in_tile = (win_y % 8) as u16;
        let start_x: i32 = self.wx as i32 - 7;
        let mut drew_any = false;
        let mut screen_x: usize = 0;
        assert(self@.framebuffer =~= v0.line_written(
            |x: int| x < 0 && x >= start_x,
            |x: int| shade(v0.bgp, v0.window_id(x)),
        ));
        assert(self@.bg_color_line =~= Seq::new(
            160,
            |x: int|
                if x < 0 && x >= start_x {
                    v0.window_id(x)
                } else {
                    v0.bg_color_line[x]
                },
        ));
        while screen_x < SCREEN_W
            invariant
                v0.ly < 144,
                v0.window_visible(),
                screen_x <= 160,
                win_y == v0.wlc,
                tile_row == win_y / 8,
                row_in_tile == win_y % 8,
                map_base == v0.window_map_base(),
                start_x == v0.wx - 7,
                drew_any == (screen_x > 0 && screen_x as int - 1 >= start_x),
                self@ == (PpuView {
                    framebuffer: v0.line_written(
                        |x: int| x < screen_x && x >= start_x,
                        |x: int| shade(v0.bgp, v0.window_id(x)),
                    ),
                    bg_color_line: Seq::new(
                        160,
                        |x: int|
                            if x < screen_x && x >= start_x {
                                v0.window_id(x)
                            } else {
                                v0.bg_color_line[x]
                            },
                    ),
                    ..v0
                }),
            decreases 160 - screen_x,
        {
            proof {
                lemma_mask_bounds();
            }
            let win_x = screen_x as i32 - start_x;
            if win_x >= 0 {
                let win_x = win_x as u8;
                let tile_col = (win_x / 8) as u16;
                let col_in_tile = win_x % 8;
                let map_addr = map_base + tile_row * 32 + tile_col;
                let tile_index = self.read_vram(map_addr);
                let tile_addr = self.tile_data_addr(tile_index);
                let byte0 = self.read_vram(tile_addr + row_in_tile * 2);
                let byte1 = self.read_vram(tile_addr + row_in_tile * 2 + 1);
                let bit = 7 - col_in_tile;
                let low = (byte0 >> bit) & 1;
                let high = (byte1 >> bit) & 1;
                let color_id = (high << 1u8) | low;
                let shade_v = (self.bgp >> (color_id * 2)) & 0x03;
                assert(color_id == v0.window_id(screen_x as int));
                self.framebuffer[self.ly as usize * SCREEN_W + screen_x] = shade_v;
                self.bg_color_line[screen_x] = color_id;
                drew_any = true;
            }
            screen_x = screen_x + 1;
            assert(self@.framebuffer =~= v0.line_written(
                |x: int| x < screen_x && x >= start_x,
                |x: int| shade(v0.bgp, v0.window_id(x)),
            ));
            assert(self@.bg_color_line =~= Seq::new(
                160,
                |x: int|
                    if x < screen_x && x >= start_x {
                        v0.window_id(x)
                    } else {
                        v0.bg_color_line[x]
                    },
            ));
        }
        if drew_any {
            self.wlc = self.wlc.wrapping_add(1);
        }
        assert(self@.framebuffer =~= v0.render_window_line_spec().framebuffer);
        assert(self@.bg_color_line =~= v0.render_window_line_spec().bg_color_line);
    }

    fn tile_data_addr(&self, tile_index: u8) -> (r: u16)
        ensures
            r == tile_data_addr_spec(self.lcdc, tile_index),
            0x8000 <= r <= 0x97F0,
    {
        if self.lcdc & LCDC_BG_DATA_AREA != 0 {
            0x8000 + (tile_index as u16) * 16
        } else {
            let signed = tile_index as i8 as i16;
            (0x9000i32 + signed as i32 * 16) as u16
        }
    }
}

impl Default for Ppu {
    fn default() -> (p: Self)
        ensures
            p@ == PpuView::initial(),
    {
        Self::new()
    }
}

/// While the LCD is off the PPU is frozen: stepping changes nothing.
pub proof fn law_lcd_off_freezes(v: PpuView, cycles: u32)
    requires
        !v.lcd_on(),
    ensures
        v.step_spec(cycles) == v,
{
}

/// LY is read-only, and a STAT write changes only the interrupt enables:
/// the mode and LY=LYC bits it reports stay as they were.
pub proof fn law_ppu_register_writes(v: PpuView, value: u8)
    ensures
        v.write_reg_spec(0xFF44, value) == v,
        v.write_reg_spec(0xFF41, value).stat_spec() & 0x07 == v.stat_spec() & 0x07,
        v.write_reg_spec(0xFF41, value).mode == v.mode,
{
    let w = v.write_reg_spec(0xFF41, value);
    let m = mode_number(v.mode);
    let c: u8 = if v.ly == v.lyc { 0x04 } else { 0x00 };
    assert(m <= 3);
    let s1 = w.stat;
    let s2 = v.stat;
    assert(((0x80u8 | (s1 & 0x78u8) | m | c) & 0x07u8) == ((0x80u8 | (s2 & 0x78u8) | m | c) & 0x07u8))
        by (bit_vector)
        requires
            m <= 3,
            c == 0 || c == 4,
    ;
}

/// A full line of dots (456) moves LY on by one, wrapping after 153, and
/// ends at dot 0 of the next line.
pub proof fn law_line_advances_ly(v: PpuView)
    requires
        v.wf(),
        v.lcd_on(),
        v.dots == 0,
        v.ly < 154,
        v.ly < VISIBLE_LINES ==> v.mode == PpuMode::OamScan,
    ensures
        v.step_spec(456).ly == (v.ly + 1) % 154,
        v.step_spec(456).dots == 0,
{
    lemma_line_split(v, 0);
}

/// The PPU is at dot 0 of a line of a running LCD, in OAM scan on a
/// visible line.
pub open spec fn at_line_start(v: PpuView) -> bool {
    &&& v.wf()
    &&& v.lcd_on()
    &&& v.dots == 0
    &&& v.ly < 154
    &&& v.ly < VISIBLE_LINES ==> v.mode == PpuMode::OamScan
}

/// Running past a line start splits at the next line start.
#[verifier::rlimit(50)]
proof fn lemma_line_split(v: PpuView, extra: nat)
    requires
        at_line_start(v),
    ensures
        v.run_spec(456 + extra) == v.run_spec(456).run_spec(extra),
        at_line_start(v.run_spec(456)),
        v.run_spec(456).ly == (v.ly + 1) % 154,
        v.ly == VISIBLE_LINES - 1 ==> v.run_spec(456).vblank_irq && v.run_spec(456).frame_ready
            && v.run_spec(456).mode == PpuMode::VBlank,
{
    if v.ly < VISIBLE_LINES {
        let (v1, r1) = v.advance_to_event(456 + extra);
        let (w1, s1) = v.advance_to_event(456);
        assert(w1 == v1 && r1 == 376 + extra && s1 == 376);
        assert(v1.dots == OAM_END && v1.ly == v.ly && v1.mode == PpuMode::Drawing);
        assert(v.run_spec(456 + extra) == v1.run_spec(376 + extra));
        assert(v.run_spec(456) == v1.run_spec(376));
        let (v2, r2) = v1.advance_to_event(376 + extra);
        let (w2, s2) = v1.advance_to_event(376);
        assert(w2 == v2 && r2 == 204 + extra && s2 == 204);
        assert(v2.dots == DRAWING_END && v2.ly == v.ly && v2.mode == PpuMode::HBlank);
        assert(v1.run_spec(376 + extra) == v2.run_spec(204 + extra));
        assert(v1.run_spec(376) == v2.run_spec(204));
        let (v3, r3) = v2.advance_to_event(204 + extra);
        let (w3, s3) = v2.advance_to_event(204);
        assert(w3 == v3 && r3 == extra && s3 == 0);
        assert(v2.run_spec(204 + extra) == v3.run_spec(extra));
        assert(v2.run_spec(204) == v3.run_spec(0));
        assert(v3.framebuffer.len() == 23040 && v3.bg_color_line.len() == 160);
    } else {
        let (v1, r1) = v.advance_to_event(456 + extra);
        let (w1, s1) = v.advance_to_event(456);
        assert(w1 == v1 && r1 == extra && s1 == 0);
        assert(v.run_spec(456 + extra) == v1.run_spec(extra));
        assert(v.run_spec(456) == v1.run_spec(0));
    }
}

/// The line from 143 to 144 enters VBlank: the VBlank interrupt is
/// requested and a frame is ready.
pub proof fn law_vblank_entry(v: PpuView)
    requires
        at_line_start(v),
        v.ly == VISIBLE_LINES - 1,
    ensures
        v.step_spec(456).ly == VISIBLE_LINES,
        v.step_spec(456).mode == PpuMode::VBlank,
        v.step_spec(456).vblank_irq,
        v.step_spec(456).frame_ready,
{
    lemma_line_split(v, 0);
}

/// 154 lines of 456 dots (70224 T-cycles) make one frame: from a line
/// start the PPU comes back to the same line, at dot 0.
pub proof fn law_frame_returns_to_line(v: PpuView)
    requires
        at_line_start(v),
    ensures
        v.step_spec(70224).ly == v.ly,
        v.step_spec(70224).dots == 0,
        at_line_start(v.step_spec(70224)),
{
    lemma_lines(v, 154);
}

/// `k` lines from a line start: another line start, `k` lines on.
proof fn lemma_lines(v: PpuView, k: nat)
    requires
        at_line_start(v),
    ensures
        at_line_start(v.run_spec(456 * k)),
        v.run_spec(456 * k).ly == (v.ly + k) % 154,
    decreases k,
{
    if k == 0 {
        vstd::arithmetic::div_mod::lemma_small_mod(v.ly as nat, 154);
    } else {
        let k1 = (k - 1) as nat;
        assert(456 * k == 456 + 456 * k1);
        lemma_line_split(v, 456 * k1);
        let w = v.run_spec(456);
        lemma_lines(w, k1);
        vstd::arithmetic::div_mod::lemma_add_mod_noop_right(k1 as int, v.ly + 1, 154);
    }
}

impl PpuView {
    /// On a visible line of a running LCD, the mode is the one its dot
    /// falls in (OAM scan, drawing, HBlank).
    pub open spec fn mode_matches_dots(&self) -> bool {
        self.lcd_on() && self.ly < VISIBLE_LINES ==> self.mode == mode_for_dot(self.dots)
    }
}

/// Reaching the next event keeps the PPU well-formed with its mode
/// matching its dot, and uses up at least one dot.
proof fn lemma_advance_keeps(v: PpuView, n: nat)
    requires
        v.wf(),
        v.lcd_on(),
        v.mode_matches_dots(),
        n > 0,
    ensures
        v.advance_to_event(n).0.wf(),
        v.advance_to_event(n).0.lcdc == v.lcdc,
        v.advance_to_event(n).0.mode_matches_dots(),
        v.advance_to_event(n).1 < n,
{
    let (v1, r) = v.advance_to_event(n);
    let gap = (v.next_boundary() - v.dots) as nat;
    assert(v.dots < v.next_boundary());
    let chunk = if gap < n { gap } else { n };
    let w = PpuView { dots: (v.dots + chunk) as u32, ..v };
    if w.dots != DOTS_PER_LINE && w.ly < VISIBLE_LINES && mode_for_dot(w.dots) == PpuMode::HBlank
        && w.mode != PpuMode::HBlank {
        let x = w.render_scanline_spec();
        assert(x.framebuffer.len() == 23040 && x.bg_color_line.len() == 160);
        assert(x.ly == w.ly && x.dots == w.dots && x.mode == w.mode && x.lcdc == w.lcdc);
    }
}

/// Running any number of dots keeps the PPU well-formed with its mode
/// matching its dot.
proof fn lemma_run_keeps(v: PpuView, n: nat)
    requires
        v.wf(),
        v.lcd_on(),
        v.mode_matches_dots(),
    ensures
        v.run_spec(n).wf(),
        v.run_spec(n).lcdc == v.lcdc,
        v.run_spec(n).mode_matches_dots(),
    decreases n,
{
    if n > 0 {
        lemma_advance_keeps(v, n);
        let (v1, rest) = v.advance_to_event(n);
        lemma_run_keeps(v1, rest);
    }
}

/// An advance that stops short of the next event only moves the dot
/// counter.
proof fn lemma_partial_advance(v: PpuView, a: nat)
    requires
        v.wf(),
        v.lcd_on(),
        v.mode_matches_dots(),
        0 < a,
        v.dots + a < v.next_boundary(),
    ensures
        v.advance_to_event(a) == (PpuView { dots: (v.dots + a) as u32, ..v }, 0nat),
{
}

/// An advance that reaches the next event does not depend on what is
/// left over: only the dots left differ.
proof fn lemma_full_advance(v: PpuView, a: nat, b: nat)
    requires
        v.wf(),
        v.dots + a >= v.next_boundary(),
        v.dots < v.next_boundary(),
    ensures
        v.advance_to_event(a + b).0 == v.advance_to_event(a).0,
        v.advance_to_event(a + b).1 == v.advance_to_event(a).1 + b,
{
}

/// Stepping `a` dots and then `b` dots is stepping `a + b` dots.
#[verifier::rlimit(50)]
proof fn lemma_run_split(v: PpuView, a: nat, b: nat)
    requires
        v.wf(),
        v.lcd_on(),
        v.mode_matches_dots(),
    ensures
        v.run_spec(a + b) == v.run_spec(a).run_spec(b),
    decreases a,
{
    if a == 0 {
        assert(a + b == b);
    } else {
        assert(v.dots < v.next_boundary());
        if v.dots + a >= v.next_boundary() {
            lemma_full_advance(v, a, b);
            lemma_advance_keeps(v, a);
            let (f1, s1) = v.advance_to_event(a);
            lemma_run_split(f1, s1, b);
            assert(v.run_spec(a) == f1.run_spec(s1));
            assert(v.run_spec(a + b) == f1.run_spec(s1 + b));
        } else {
            lemma_partial_advance(v, a);
            let f1 = PpuView { dots: (v.dots + a) as u32, ..v };
            assert(f1.run_spec(0) == f1);
            assert(v.run_spec(a) == f1);
            assert(f1.next_boundary() == v.next_boundary());
            if b == 0 {
                assert(a + b == a);
            } else if v.dots + a + b < v.next_boundary() {
                lemma_partial_advance(v, a + b);
                lemma_partial_advance(f1, b);
                let e1 = PpuView { dots: (v.dots + a + b) as u32, ..v };
                assert(f1.advance_to_event(b).0 == e1);
                assert(e1.run_spec(0) == e1);
            } else {
                let g = (v.next_boundary() - v.dots) as nat;
                lemma_full_advance(v, g, (a + b - g) as nat);
                lemma_full_advance(f1, (g - a) as nat, (b - (g - a)) as nat);
                assert(v.advance_to_event(g).0 == f1.advance_to_event((g - a) as nat).0);
                assert(v.run_spec(a + b) == v.advance_to_event(a + b).0.run_spec(v.advance_to_event(a + b).1));
                assert(f1.run_spec(b) == f1.advance_to_event(b).0.run_spec(f1.advance_to_event(b).1));
            }
        }
    }
}

/// Stepping is additive: `step(a)` then `step(b)` is `step(a + b)`, for
/// every PPU whose mode matches its dot (which every PPU reachable from
/// power-on does: see `law_mode_matches_dots_reachable`).
pub proof fn law_step_composes(v: PpuView, a: u32, b: u32)
    requires
        v.wf(),
        v.mode_matches_dots(),
        a + b <= u32::MAX,
    ensures
        v.step_spec(a).step_spec(b) == v.step_spec((a + b) as u32),
{
    if v.lcd_on() {
        lemma_run_keeps(v, a as nat);
        lemma_run_split(v, a as nat, b as nat);
    }
}

/// The power-on PPU has its mode matching its dot, and register writes
/// and steps keep it so (steps also keep it well-formed).
pub proof fn law_mode_matches_dots_reachable(v: PpuView, addr: u16, value: u8, cycles: u32)
    ensures
        PpuView::initial().mode_matches_dots(),
        v.mode_matches_dots() ==> v.write_reg_spec(addr, value).mode_matches_dots(),
        v.wf() && v.mode_matches_dots() ==> v.step_spec(cycles).mode_matches_dots() && v.step_spec(
            cycles,
        ).wf(),
{
    assert(PpuView::initial().lcd_on()) by {
        assert(0x91u8 & 0x80u8 != 0) by (bit_vector);
    }
    if v.wf() && v.mode_matches_dots() && v.lcd_on() {
        lemma_run_keeps(v, cycles as nat);
    }
}

/// Tile data addressing for the background and window. With LCDC bit 4
/// set, tile t's 16 bytes start at 0x8000 + 16 t. With it clear the index
/// is signed around 0x9000: tiles 0..=127 at 0x9000..=0x97F0 and tiles
/// 128..=255 at 0x8800..=0x8FF0.
pub proof fn law_tile_data_addressing(lcdc: u8, t: u8)
    ensures
        lcdc & 0x10 != 0 ==> tile_data_addr_spec(lcdc, t) as int == 0x8000 + 16 * t,
        lcdc & 0x10 == 0 && t < 128 ==> tile_data_addr_spec(lcdc, t) as int == 0x9000 + 16 * t,
        lcdc & 0x10 == 0 && t >= 128 ==> tile_data_addr_spec(lcdc, t) as int == 0x8800 + 16 * (t
            - 128),
{
    assert((t as i8) as int == if t < 128 { t as int } else { t - 256 }) by (bit_vector);
}

/// Pixel decoding: the colour index of pixel `bit` of a tile row takes its
/// low bit from the row's first byte and its high bit from the second
/// (bit 7 is the leftmost pixel), and a palette maps colour index i to
/// its bits 2i..2i+1.
pub proof fn law_pixel_decoding(b0: u8, b1: u8, bit: u8, palette: u8, id: u8)
    requires
        bit < 8,
        id < 4,
    ensures
        color_id(b0, b1, bit) == 2 * ((b1 as nat / vstd::arithmetic::power2::pow2(bit as nat)) % 2)
            + (b0 as nat / vstd::arithmetic::power2::pow2(bit as nat)) % 2,
        shade(palette, id) == (palette as nat / vstd::arithmetic::power2::pow2(2 * id as nat)) % 4,
{
    vstd::bits::lemma_u8_shr_is_div(b0, bit);
    vstd::bits::lemma_u8_shr_is_div(b1, bit);
    let s = (id * 2) as u8;
    vstd::bits::lemma_u8_shr_is_div(palette, s);
    let y0 = b0 >> bit;
    let y1 = b1 >> bit;
    let p = palette >> s;
    assert({
        &&& (y0 & 1u8) == y0 % 2
        &&& (y1 & 1u8) == y1 % 2
        &&& ((((y1 & 1u8) << 1u8) | (y0 & 1u8)) as int) == 2 * (y1 & 1u8) + (y0 & 1u8)
        &&& (p & 0x03u8) == p % 4
    }) by (bit_vector);
}

/// STAT: a read reports the mode in bits 1-0 (HBlank 0, VBlank 1, OAM scan
/// 2, drawing 3), LY == LYC in bit 2, the interrupt enables in bits 6-3 and
/// a high bit 7. The STAT interrupt line is high exactly when an enabled
/// source holds: bit 6 with LY == LYC, bit 5 in OAM scan, bit 4 in VBlank,
/// bit 3 in HBlank; a write to LYC that raises it requests the interrupt.
pub proof fn law_stat_register(v: PpuView, value: u8)
    ensures
        ({
            let s = v.stat_spec() as int;
            let st = v.stat as int;
            &&& s % 4 == match v.mode {
                PpuMode::HBlank => 0int,
                PpuMode::VBlank => 1int,
                PpuMode::OamScan => 2int,
                PpuMode::Drawing => 3int,
            }
            &&& ((s / 4) % 2 == 1) == (v.ly == v.lyc)
            &&& (s / 8) % 16 == (st / 8) % 16
            &&& s >= 128
            &&& v.stat_line() == (((st / 64) % 2 == 1 && v.ly == v.lyc) || ((st / 32) % 2 == 1
                && v.mode == PpuMode::OamScan) || ((st / 16) % 2 == 1 && v.mode == PpuMode::VBlank)
                || ((st / 8) % 2 == 1 && v.mode == PpuMode::HBlank))
            &&& ((st / 64) % 2 == 1 && value == v.ly && !v.stat_line_prev) ==> v.write_reg_spec(
                0xFF45,
                value,
            ).stat_irq
        }),
{
    let m = mode_number(v.mode);
    let c: u8 = if v.ly == v.lyc { 0x04 } else { 0x00 };
    let st = v.stat;
    assert(m <= 3);
    assert({
        let s = 0x80u8 | (st & 0x78u8) | m | c;
        &&& s % 4 == m
        &&& (s / 4) % 2 == c / 4
        &&& (s / 8) % 16 == (st / 8) % 16
        &&& s >= 128
        &&& (st & 0x40u8 != 0) == ((st / 64) % 2 == 1)
        &&& (st & 0x20u8 != 0) == ((st / 32) % 2 == 1)
        &&& (st & 0x10u8 != 0) == ((st / 16) % 2 == 1)
        &&& (st & 0x08u8 != 0) == ((st / 8) % 2 == 1)
    }) by (bit_vector)
        requires
            m <= 3,
            c == 0 || c == 4,
    ;
}

/// Background and window layers of a scanline (sprites off, LCDC bit 1
/// clear): with LCDC bit 0 clear the line is blank (shade 0). Otherwise a
/// column x shows the window, from the map LCDC bit 6 selects (0x9C00 when
/// set, else 0x9800), at window row WLC and window column x - (WX - 7),
/// when LCDC bit 5 is set, LY >= WY, WX < 167 and x >= WX - 7; else the
/// background, from the map LCDC bit 3 selects, at row (LY + SCY) mod 256
/// and column (x + SCX) mod 256; both through BGP. The window line counter
/// advances by one exactly on lines where the window is drawn.
pub proof fn law_scanline_layers(v: PpuView, x: int)
    requires
        v.wf(),
        v.ly < 144,
        0 <= x < 160,
        (v.lcdc / 2) % 2 == 0,
    ensures
        ({
            let l = v.lcdc as int;
            let t = v.render_scanline_spec();
            let px = t.framebuffer[v.ly * 160 + x];
            let bg_map: int = if (l / 8) % 2 == 1 { 0x9C00 } else { 0x9800 };
            let win_map: int = if (l / 64) % 2 == 1 { 0x9C00 } else { 0x9800 };
            let win = l % 2 == 1 && (l / 32) % 2 == 1 && v.ly >= v.wy && v.wx < 167;
            &&& l % 2 == 0 ==> px == 0
            &&& (win && x >= v.wx - 7) ==> px == shade(
                v.bgp,
                v.map_pixel(win_map, v.wlc, (x - (v.wx - 7)) as u8),
            )
            &&& (l % 2 == 1 && !(win && x >= v.wx - 7)) ==> px == shade(
                v.bgp,
                v.map_pixel(bg_map, ((v.ly + v.scy) % 256) as u8, ((x + v.scx) % 256) as u8),
            )
            &&& t.wlc == if win { (v.wlc + 1) % 256 } else { v.wlc as int }
        }),
{
    let lc = v.lcdc;
    assert({
        &&& (lc & 0x01u8 != 0) == (lc % 2 == 1)
        &&& (lc & 0x02u8 != 0) == ((lc / 2) % 2 == 1)
        &&& (lc & 0x08u8 != 0) == ((lc / 8) % 2 == 1)
        &&& (lc & 0x20u8 != 0) == ((lc / 32) % 2 == 1)
        &&& (lc & 0x40u8 != 0) == ((lc / 64) % 2 == 1)
    }) by (bit_vector);
    assert((x as u8) as int == x);
    let i = v.ly * 160 + x;
    assert(v.ly * 160 + x < 23040) by (nonlinear_arith)
        requires
            v.ly < 144,
            x < 160,
    ;
    assert(i - v.ly * 160 == x);
}

} // verus!
