//! Sprite rendering for one scanline.
//!
//!   1. OAM scan: collect up to 10 sprites whose rows cover LY, in OAM order.
//!   2. Stable sort by X ascending (ties keep OAM order).
//!   3. Draw from the last sprite of that order to the first, so that the
//!      first one ends up on top. Colour 0 is transparent, and a sprite
//!      with the BG-priority attribute hides behind background colours 1..3.

use vstd::prelude::*;
use crate::bits::lemma_mask_bounds;
use crate::ppu::{Ppu, PpuView, color_id, shade, LCDC_OBJ_SIZE, SCREEN_W};

verus! {

pub const MAX_SPRITES_PER_LINE: usize = 10;

// OAM attribute bits.
/// 1 = sprite behind background colours 1..3.
pub const OAM_ATTR_PRIORITY: u8 = 0x80;
pub const OAM_ATTR_Y_FLIP: u8 = 0x40;
pub const OAM_ATTR_X_FLIP: u8 = 0x20;
/// 0 = OBP0, 1 = OBP1.
pub const OAM_ATTR_PALETTE: u8 = 0x10;

/// One sprite selected for the current scanline.
#[derive(Clone, Copy)]
pub struct SpriteHit {
    /// 0..40
    pub oam_index: u8,
    /// OAM x byte (screen x + 8)
    pub x: u8,
    /// OAM y byte (screen y + 16)
    pub y: u8,
    pub tile: u8,
    pub attr: u8,
}

/// Drawing order: lower X first, then lower OAM index.
pub open spec fn key_lt(a: SpriteHit, b: SpriteHit) -> bool {
    a.x < b.x || (a.x == b.x && a.oam_index < b.oam_index)
}

/// Every element before position `lo`... is ordered before every element
/// at or after it, and the elements from `lo` on are in order.
pub open spec fn sorted_from(hs: Seq<SpriteHit>, lo: int) -> bool {
    forall|i: int, j: int| 0 <= i < j < hs.len() && j >= lo ==> key_lt(hs[i], hs[j])
}

/// Equal X keeps OAM order.
pub open spec fn stable(hs: Seq<SpriteHit>) -> bool {
    forall|i: int, j: int|
        0 <= i < j < hs.len() && hs[i].x == hs[j].x ==> hs[i].oam_index < hs[j].oam_index
}

/// No OAM index occurs twice.
pub open spec fn distinct(hs: Seq<SpriteHit>) -> bool {
    forall|i: int, j: int| 0 <= i < j < hs.len() ==> hs[i].oam_index != hs[j].oam_index
}

/// The same sprites, in any order.
pub open spec fn same_elems(a: Seq<SpriteHit>, b: Seq<SpriteHit>) -> bool {
    a.len() == b.len() && forall|h: SpriteHit| a.contains(h) <==> b.contains(h)
}

impl PpuView {
    pub open spec fn sprite_height(&self) -> u8 {
        if self.lcdc & LCDC_OBJ_SIZE != 0 {
            16
        } else {
            8
        }
    }

    pub open spec fn oam_entry(&self, i: int) -> SpriteHit {
        SpriteHit {
            oam_index: i as u8,
            y: self.oam[4 * i],
            x: self.oam[4 * i + 1],
            tile: self.oam[4 * i + 2],
            attr: self.oam[4 * i + 3],
        }
    }

    /// OAM entry `i` covers the current line: LY + 16 lies in [y, y + h).
    pub open spec fn on_line(&self, i: int) -> bool {
        let y = self.oam[4 * i] as int;
        y <= self.ly + 16 < y + self.sprite_height()
    }

    /// The sprites of the first `n` OAM entries that cover the line, in
    /// OAM order, at most 10: later ones are dropped.
    pub open spec fn selected_upto(&self, n: nat) -> Seq<SpriteHit>
        decreases n,
    {
        if n == 0 {
            Seq::empty()
        } else {
            let s = self.selected_upto((n - 1) as nat);
            if self.on_line(n - 1) && s.len() < 10 {
                s.push(self.oam_entry(n - 1))
            } else {
                s
            }
        }
    }

    pub open spec fn selected(&self) -> Seq<SpriteHit> {
        self.selected_upto(40)
    }

    /// The tile row of a sprite on the current line.
    pub open spec fn sprite_row(&self, h: SpriteHit) -> u8 {
        let r = (self.ly + 16 - h.y) as u8;
        if h.attr & OAM_ATTR_Y_FLIP != 0 {
            (self.sprite_height() - 1 - r) as u8
        } else {
            r
        }
    }

    /// The colour index of a sprite at screen column c (8x16 sprites use
    /// the even tile and the one after it).
    pub open spec fn sprite_color(&self, h: SpriteHit, c: int) -> u8 {
        let tile_index: u8 = if self.sprite_height() == 16 { h.tile & 0xFE } else { h.tile };
        let addr = 0x8000 + tile_index as int * 16 + self.sprite_row(h) as int * 2;
        let col = (c - (h.x - 8)) as u8;
        let bit_col: u8 = if h.attr & OAM_ATTR_X_FLIP != 0 { col } else { (7 - col) as u8 };
        color_id(self.vram_at(addr), self.vram_at(addr + 1), bit_col)
    }

    /// The sprite puts a pixel at column c: c is on screen and within the
    /// sprite, the colour is not transparent, and it is not hidden behind
    /// the background.
    pub open spec fn sprite_draws(&self, h: SpriteHit, c: int) -> bool {
        &&& h.x - 8 <= c < h.x
        &&& 0 <= c < 160
        &&& self.sprite_color(h, c) != 0
        &&& !(h.attr & OAM_ATTR_PRIORITY != 0 && self.bg_color_line[c] != 0)
    }

    pub open spec fn sprite_shade(&self, h: SpriteHit, c: int) -> u8 {
        shade(
            if h.attr & OAM_ATTR_PALETTE != 0 { self.obp1 } else { self.obp0 },
            self.sprite_color(h, c),
        )
    }

    /// `h` is the sprite shown at column c: a selected sprite that draws
    /// there and comes before every other one that does.
    pub open spec fn sprite_wins(&self, h: SpriteHit, c: int) -> bool {
        let sel = self.selected();
        &&& sel.contains(h)
        &&& self.sprite_draws(h, c)
        &&& forall|j: int|
            0 <= j < sel.len() && self.sprite_draws(sel[j], c) && sel[j] != h ==> key_lt(
                h,
                sel[j],
            )
    }

    pub open spec fn sprite_at(&self, c: int) -> Option<SpriteHit> {
        if exists|h: SpriteHit| self.sprite_wins(h, c) {
            Some(choose|h: SpriteHit| self.sprite_wins(h, c))
        } else {
            None
        }
    }

    /// The current line with the winning sprite's shade at each column
    /// where one draws.
    pub open spec fn render_sprites_line_spec(self) -> PpuView {
        PpuView {
            framebuffer: self.line_written(
                |c: int| self.sprite_at(c) is Some,
                |c: int| self.sprite_shade(self.sprite_at(c)->0, c),
            ),
            ..self
        }
    }
}

/// The first index from `lo` on whose sprite draws at column c.
pub open spec fn first_draw(v: PpuView, hs: Seq<SpriteHit>, lo: int, c: int) -> Option<int>
    decreases hs.len() - lo,
{
    if lo >= hs.len() || lo < 0 {
        None
    } else if v.sprite_draws(hs[lo], c) {
        Some(lo)
    } else {
        first_draw(v, hs, lo + 1, c)
    }
}

proof fn lemma_first_draw(v: PpuView, hs: Seq<SpriteHit>, lo: int, c: int)
    requires
        0 <= lo <= hs.len(),
    ensures
        first_draw(v, hs, lo, c) matches Some(k) ==> lo <= k < hs.len() && v.sprite_draws(hs[k], c)
            && forall|j: int| lo <= j < k ==> !v.sprite_draws(hs[j], c),
        first_draw(v, hs, lo, c) is None ==> forall|j: int|
            lo <= j < hs.len() ==> !v.sprite_draws(hs[j], c),
    decreases hs.len() - lo,
{
    if lo < hs.len() && !v.sprite_draws(hs[lo], c) {
        lemma_first_draw(v, hs, lo + 1, c);
    }
}

proof fn lemma_selected(v: PpuView, n: nat)
    requires
        n <= 40,
        v.oam.len() == 0xA0,
    ensures
        v.selected_upto(n).len() <= 10,
        distinct(v.selected_upto(n)),
        stable(v.selected_upto(n)),
        forall|i: int|
            0 <= i < v.selected_upto(n).len() ==> (#[trigger] v.selected_upto(n)[i]).oam_index < n,
        forall|i: int|
            0 <= i < v.selected_upto(n).len() ==> #[trigger] v.selected_upto(n)[i] == v.oam_entry(
                v.selected_upto(n)[i].oam_index as int,
            ) && v.on_line(v.selected_upto(n)[i].oam_index as int),
    decreases n,
{
    if n > 0 {
        lemma_selected(v, (n - 1) as nat);
    }
}

/// The sprite shown at a column is the first one in sorted order that
/// draws there.
proof fn lemma_winner(v: PpuView, hs: Seq<SpriteHit>, c: int)
    requires
        same_elems(hs, v.selected()),
        sorted_from(hs, 0),
    ensures
        v.sprite_at(c) == (match first_draw(v, hs, 0, c) {
            Some(k) => Some(hs[k]),
            None => None,
        }),
{
    let sel = v.selected();
    lemma_first_draw(v, hs, 0, c);
    match first_draw(v, hs, 0, c) {
        Some(k) => {
            assert(hs.contains(hs[k]));
            assert forall|j: int|
                0 <= j < sel.len() && v.sprite_draws(sel[j], c) && sel[j] != hs[k] implies key_lt(
                hs[k],
                sel[j],
            ) by {
                assert(sel.contains(sel[j]));
                let m = choose|m: int| 0 <= m < hs.len() && hs[m] == sel[j];
                assert(m != k);
                if m < k {
                    assert(!v.sprite_draws(hs[m], c));
                }
            }
            assert(v.sprite_wins(hs[k], c));
            let h = choose|h: SpriteHit| v.sprite_wins(h, c);
            assert(v.sprite_wins(h, c));
            if h != hs[k] {
                let jk = choose|j: int| 0 <= j < sel.len() && sel[j] == hs[k];
                let jh = choose|j: int| 0 <= j < sel.len() && sel[j] == h;
                assert(key_lt(h, sel[jk]));
                assert(key_lt(hs[k], sel[jh]));
                assert(false);
            }
        },
        None => {
            assert forall|h: SpriteHit| !v.sprite_wins(h, c) by {
                if v.sprite_wins(h, c) {
                    assert(hs.contains(h));
                    let m = choose|m: int| 0 <= m < hs.len() && hs[m] == h;
                    assert(!v.sprite_draws(hs[m], c));
                }
            }
        },
    }
}

/// Swapping two adjacent sprites, the first with larger X, keeps the same
/// sprites, their distinctness and the relative order of equal X.
proof fn lemma_swap(hs: Seq<SpriteHit>, b: int)
    requires
        0 <= b < b + 1 < hs.len(),
        hs[b].x > hs[b + 1].x,
        distinct(hs),
        stable(hs),
    ensures
        same_elems(hs, hs.update(b, hs[b + 1]).update(b + 1, hs[b])),
        distinct(hs.update(b, hs[b + 1]).update(b + 1, hs[b])),
        stable(hs.update(b, hs[b + 1]).update(b + 1, hs[b])),
{
    let hs2 = hs.update(b, hs[b + 1]).update(b + 1, hs[b]);
    assert forall|h: SpriteHit| hs.contains(h) <==> hs2.contains(h) by {
        if hs.contains(h) {
            let i = choose|i: int| 0 <= i < hs.len() && hs[i] == h;
            let k = if i == b { b + 1 } else if i == b + 1 { b } else { i };
            assert(hs2[k] == h);
        }
        if hs2.contains(h) {
            let i = choose|i: int| 0 <= i < hs2.len() && hs2[i] == h;
            let k = if i == b { b + 1 } else if i == b + 1 { b } else { i };
            assert(hs[k] == h);
        }
    }
    assert forall|i: int, j: int| 0 <= i < j < hs2.len() implies hs2[i].oam_index != hs2[j].oam_index by {
        let pi = if i == b { b + 1 } else if i == b + 1 { b } else { i };
        let pj = if j == b { b + 1 } else if j == b + 1 { b } else { j };
        assert(hs2[i] == hs[pi] && hs2[j] == hs[pj]);
        assert(pi != pj);
    }
    assert forall|i: int, j: int|
        0 <= i < j < hs2.len() && hs2[i].x == hs2[j].x implies hs2[i].oam_index
            < hs2[j].oam_index by {
        let pi = if i == b { b + 1 } else if i == b + 1 { b } else { i };
        let pj = if j == b { b + 1 } else if j == b + 1 { b } else { j };
        assert(hs2[i] == hs[pi] && hs2[j] == hs[pj]);
        if pi > pj {
            // only the swapped pair changes order, and its X differ
            assert(i == b && j == b + 1);
        }
    }
}

impl Ppu {
    pub(crate) fn render_sprites_line(&mut self)
        requires
            old(self).ly < 144,
        ensures
            final(self)@ == old(self)@.render_sprites_line_spec(),
    {
        let ghost v0 = self@;
        let sprite_h: u8 = if self.lcdc & LCDC_OBJ_SIZE != 0 {
            16
        } else {
            8
        };
        // Step 1: OAM scan.
        let mut hits: [SpriteHit; 10] = [SpriteHit { oam_index: 0, x: 0, y: 0, tile: 0, attr: 0 }; 10];
        let mut count: usize = 0;
        let mut i: u8 = 0;
        while i < 40
            invariant
                self@ == v0,
                v0.ly < 144,
                sprite_h == v0.sprite_height(),
                i <= 40,
                count <= 10,
                hits@.len() == 10,
                hits@.subrange(0, count as int) == v0.selected_upto(i as nat),
            decreases 40 - i,
        {
            let base = i as usize * 4;
            let y = self.oam[base];
            // The sprite covers LY iff LY + 16 is in [y, y + sprite_h).
            let ly_plus_16 = self.ly as i16 + 16;
            let top = y as i16;
            let bot = top + sprite_h as i16;
            let ghost prev = hits@.subrange(0, count as int);
            if ly_plus_16 >= top && ly_plus_16 < bot {
                if count < MAX_SPRITES_PER_LINE {
                    hits[count] = SpriteHit {
                        oam_index: i,
                        x: self.oam[base + 1],
                        y,
                        tile: self.oam[base + 2],
                        attr: self.oam[base + 3],
                    };
                    count = count + 1;
                    assert(hits@.subrange(0, count as int) =~= prev.push(v0.oam_entry(i as int)));
                }
                // With 10 already, further sprites are dropped.
            }
            i = i + 1;
        }
        if count == 0 {
            assert forall|c: int, h: SpriteHit| !v0.sprite_wins(h, c) by {
                assert(v0.selected().len() == 0);
            }
            assert(self@.framebuffer =~= v0.render_sprites_line_spec().framebuffer);
            return;
        }
        let ghost sel = v0.selected();
        proof {
            lemma_selected(v0, 40);
        }
        // Step 2: stable sort by X ascending (bubble sort; n <= 10).
        let mut a: usize = 0;
        while a < count
            invariant
                self@ == v0,
                1 <= count <= 10,
                a <= count,
                hits@.len() == 10,
                same_elems(hits@.subrange(0, count as int), sel),
                distinct(hits@.subrange(0, count as int)),
                stable(hits@.subrange(0, count as int)),
                sorted_from(hits@.subrange(0, count as int), count - a),
            decreases count - a,
        {
            let mut b: usize = 0;
            while b < count - a - 1
                invariant
                    self@ == v0,
                    1 <= count <= 10,
                    a < count,
                    b <= count - a - 1,
                    hits@.len() == 10,
                    same_elems(hits@.subrange(0, count as int), sel),
                    distinct(hits@.subrange(0, count as int)),
                    stable(hits@.subrange(0, count as int)),
                    sorted_from(hits@.subrange(0, count as int), count - a),
                    forall|k: int|
                        0 <= k < b ==> #[trigger] key_lt(hits@[k], hits@[b as int]),
                decreases count - a - 1 - b,
            {
                let ghost hs = hits@.subrange(0, count as int);
                if hits[b].x > hits[b + 1].x {
                    let tmp = hits[b];
                    hits[b] = hits[b + 1];
                    hits[b + 1] = tmp;
                    proof {
                        lemma_swap(hs, b as int);
                        assert(hits@.subrange(0, count as int) =~= hs.update(b as int, hs[b + 1]).update(
                            b + 1,
                            hs[b as int],
                        ));
                    }
                } else {
                    proof {
                        if hs[b as int].x == hs[b + 1].x {
                            assert(hs[b as int].oam_index < hs[b + 1].oam_index);
                        }
                        assert(hs[b as int].oam_index != hs[b + 1].oam_index);
                    }
                }
                b = b + 1;
                proof {
                    let hs2 = hits@.subrange(0, count as int);
                    assert forall|k: int| 0 <= k < b implies #[trigger] key_lt(hits@[k], hits@[b as int]) by {
                        if k < b - 1 {
                            assert(key_lt(hs[k], hs[b - 1]));
                            if hs[b - 1].x > hs[b as int].x {
                                assert(hs2[k] == hs[k]);
                            }
                        }
                    }
                    assert forall|i2: int, j2: int|
                        0 <= i2 < j2 < hs2.len() && j2 >= count - a implies key_lt(hs2[i2], hs2[j2]) by {
                        if i2 == b - 1 || i2 == b as int {
                            assert(hs2[i2] == hs[b - 1] || hs2[i2] == hs[b as int]);
                            assert(key_lt(hs[b - 1], hs[j2]));
                            assert(key_lt(hs[b as int], hs[j2]));
                        } else {
                            assert(hs2[i2] == hs[i2]);
                        }
                        assert(hs2[j2] == hs[j2]);
                    }
                }
            }
            proof {
                let hs = hits@.subrange(0, count as int);
                let top = count - a - 1;
                assert forall|i2: int, j2: int|
                    0 <= i2 < j2 < hs.len() && j2 >= top implies key_lt(hs[i2], hs[j2]) by {
                    if j2 == top {
                        assert(key_lt(hits@[i2], hits@[top as int]));
                    }
                }
            }
            a = a + 1;
        }
        let ghost hs = hits@.subrange(0, count as int);
        assert(sorted_from(hs, 0));
        // Step 3: draw, lowest priority first, so that earlier sprites in
        // the sorted order overwrite later ones.
        let row_start = self.ly as usize * SCREEN_W;
        let mut hit_i: usize = count;
        assert(self@.framebuffer =~= v0.line_written(
            |c: int| first_draw(v0, hs, count as int, c) is Some,
            |c: int| v0.sprite_shade(hs[first_draw(v0, hs, count as int, c)->0], c),
        ));
        while hit_i > 0
            invariant
                v0.ly < 144,
                row_start == v0.ly as int * 160,
                sprite_h == v0.sprite_height(),
                1 <= count <= 10,
                hit_i <= count,
                hits@.len() == 10,
                hs == hits@.subrange(0, count as int),
                same_elems(hs, sel),
                sel == v0.selected(),
                forall|i: int|
                    0 <= i < sel.len() ==> #[trigger] sel[i] == v0.oam_entry(sel[i].oam_index as int)
                        && v0.on_line(sel[i].oam_index as int),
                self@ == (PpuView {
                    framebuffer: v0.line_written(
                        |c: int| first_draw(v0, hs, hit_i as int, c) is Some,
                        |c: int| v0.sprite_shade(hs[first_draw(v0, hs, hit_i as int, c)->0], c),
                    ),
                    ..v0
                }),
            decreases hit_i,
        {
            hit_i = hit_i - 1;
            let hit = hits[hit_i];
            let ghost fb_before = self@.framebuffer;
            proof {
                assert(hs[hit_i as int] == hit);
                assert(hs.contains(hit));
                let j = choose|j: int| 0 <= j < sel.len() && sel[j] == hit;
                assert(sel[j] == v0.oam_entry(sel[j].oam_index as int));
                assert(v0.on_line(sel[j].oam_index as int));
            }
            let sprite_screen_x = hit.x as i16 - 8;
            let sprite_screen_y = hit.y as i16 - 16;
            let mut row = (self.ly as i16 - sprite_screen_y) as u8;
            if hit.attr & OAM_ATTR_Y_FLIP != 0 {
                row = sprite_h - 1 - row;
            }
            assert(row == v0.sprite_row(hit));
            // In 8x16 mode, the low bit of the tile index is ignored.
            let tile_index = if sprite_h == 16 {
                hit.tile & 0xFE
            } else {
                hit.tile
            };
            // Sprites always use the 0x8000-based unsigned tile addresses.
            // In 8x16 mode, rows 8..15 spill into the next tile.
            let tile_addr = 0x8000u16 + (tile_index as u16) * 16 + (row as u16) * 2;
            let byte0 = self.read_vram(tile_addr);
            let byte1 = self.read_vram(tile_addr + 1);
            let palette = if hit.attr & OAM_ATTR_PALETTE != 0 {
                self.obp1
            } else {
                self.obp0
            };
            let mut col: u8 = 0;
            while col < 8
                invariant
                    v0.ly < 144,
                    row_start == v0.ly as int * 160,
                    col <= 8,
                    sprite_screen_x == hit.x - 8,
                    row == v0.sprite_row(hit),
                    tile_index == (if v0.sprite_height() == 16 { hit.tile & 0xFE } else { hit.tile }),
                    tile_addr == 0x8000 + tile_index as int * 16 + row as int * 2,
                    byte0 == v0.vram_at(tile_addr as int),
                    byte1 == v0.vram_at(tile_addr + 1),
                    palette == (if hit.attr & OAM_ATTR_PALETTE != 0 { v0.obp1 } else { v0.obp0 }),
                    self@ == (PpuView { framebuffer: self@.framebuffer, ..v0 }),
                    self@.framebuffer.len() == 23040,
                    fb_before.len() == 23040,
                    forall|k: int|
                        0 <= k < 23040 ==> #[trigger] self@.framebuffer[k] == (if row_start <= k
                            < row_start + 160 && hit.x - 8 <= k - row_start < hit.x - 8 + col
                            && v0.sprite_draws(hit, k - row_start) {
                            v0.sprite_shade(hit, k - row_start)
                        } else {
                            fb_before[k]
                        }),
                decreases 8 - col,
            {
                proof {
                    lemma_mask_bounds();
                }
                let screen_x = sprite_screen_x + col as i16;
                let ghost fb_mid = self@.framebuffer;
                if screen_x >= 0 && screen_x < SCREEN_W as i16 {
                    let bit_col = if hit.attr & OAM_ATTR_X_FLIP != 0 {
                        col
                    } else {
                        7 - col
                    };
                    let low = (byte0 >> bit_col) & 1;
                    let high = (byte1 >> bit_col) & 1;
                    let color_id = (high << 1u8) | low;
                    assert(color_id == v0.sprite_color(hit, screen_x as int));
                    // Colour 0 is transparent; with BG priority the sprite
                    // is hidden where the background colour is not 0.
                    if color_id != 0 && !(hit.attr & OAM_ATTR_PRIORITY != 0
                        && self.bg_color_line[screen_x as usize] != 0) {
                        let shade_v = (palette >> (color_id * 2)) & 0x03;
                        self.framebuffer[row_start + screen_x as usize] = shade_v;
                    }
                }
                col = col + 1;
            }
            proof {
                assert forall|c: int| 0 <= c < 160 implies first_draw(v0, hs, hit_i as int, c)
                    == (if v0.sprite_draws(hs[hit_i as int], c) {
                    Some(hit_i as int)
                } else {
                    first_draw(v0, hs, hit_i + 1, c)
                }) by {}
            }
            assert(self@.framebuffer =~= v0.line_written(
                |c: int| first_draw(v0, hs, hit_i as int, c) is Some,
                |c: int| v0.sprite_shade(hs[first_draw(v0, hs, hit_i as int, c)->0], c),
            ));
        }
        proof {
            assert forall|c: int| 0 <= c < 160 implies v0.sprite_at(c) == (match first_draw(v0, hs, 0, c) {
                Some(k) => Some(hs[k]),
                None => None,
            }) by {
                lemma_winner(v0, hs, c);
            }
        }
        assert(self@.framebuffer =~= v0.render_sprites_line_spec().framebuffer);
    }
}

/// Sprite attributes: toggling bit 5 mirrors a sprite horizontally (the
/// colour at column offset k becomes the one at 7 - k), toggling bit 6
/// mirrors it vertically (row r becomes row height - 1 - r), bit 4 picks
/// OBP1 over OBP0, and with bit 7 set the sprite hides behind non-zero
/// background colours.
pub proof fn law_sprite_attributes(v: PpuView, h: SpriteHit, k: int)
    requires
        0 <= k < 8,
        v.ly + 16 >= h.y,
        v.ly + 16 < h.y + v.sprite_height(),
    ensures
        ({
            let hx = SpriteHit { attr: h.attr ^ 0x20, ..h };
            let x0 = h.x - 8;
            v.sprite_color(hx, x0 + k) == v.sprite_color(h, x0 + 7 - k)
        }),
        ({
            let hy = SpriteHit { attr: h.attr ^ 0x40, ..h };
            v.sprite_row(hy) == v.sprite_height() - 1 - v.sprite_row(h)
        }),
        ({
            let c = h.x - 8 + k;
            &&& v.sprite_shade(h, c) == shade(
                if h.attr / 16 % 2 == 1 {
                    v.obp1
                } else {
                    v.obp0
                },
                v.sprite_color(h, c),
            )
            &&& (0 <= c < 160 && h.attr >= 128 && c < v.bg_color_line.len() && v.bg_color_line[c] != 0)
                ==> !v.sprite_draws(h, c)
        }),
{
    let a = h.attr;
    assert({
        &&& ((a ^ 0x20u8) & 0x20u8 != 0) == (a & 0x20u8 == 0)
        &&& ((a ^ 0x40u8) & 0x40u8 != 0) == (a & 0x40u8 == 0)
        &&& (a & 0x10u8 != 0) == (a / 16 % 2 == 1)
        &&& (a & 0x80u8 != 0) == (a >= 128)
        &&& ((a ^ 0x20u8) & 0x40u8) == (a & 0x40u8)
    }) by (bit_vector);
    let hx = SpriteHit { attr: h.attr ^ 0x20, ..h };
    let x0 = h.x - 8;
    let c1 = x0 + k;
    let c2 = x0 + 7 - k;
    assert((c1 - (hx.x - 8)) as u8 == k as u8);
    assert((c2 - (h.x - 8)) as u8 == (7 - k) as u8);
    assert(v.sprite_row(hx) == v.sprite_row(h));
    let tile_index: u8 = if v.sprite_height() == 16 { h.tile & 0xFE } else { h.tile };
    let addr = 0x8000 + tile_index as int * 16 + v.sprite_row(h) as int * 2;
    if a & 0x20 != 0 {
        assert(v.sprite_color(hx, c1) == color_id(v.vram_at(addr), v.vram_at(addr + 1), (7 - k) as u8));
        assert(v.sprite_color(h, c2) == color_id(v.vram_at(addr), v.vram_at(addr + 1), (7 - k) as u8));
    } else {
        assert(v.sprite_color(hx, c1) == color_id(v.vram_at(addr), v.vram_at(addr + 1), k as u8));
        assert(v.sprite_color(h, c2) == color_id(v.vram_at(addr), v.vram_at(addr + 1), k as u8));
    }
}

proof fn lemma_selected_upto(v: PpuView, n: nat)
    requires
        n <= 40,
    ensures
        ({
            let s = v.selected_upto(n);
            &&& s.len() <= 10 && s.len() <= n
            &&& forall|j: int|
                0 <= j < s.len() ==> (#[trigger] s[j]).oam_index < n && v.on_line(
                    s[j].oam_index as int,
                ) && s[j] == v.oam_entry(s[j].oam_index as int)
            &&& forall|i: int, j: int|
                0 <= i < j < s.len() ==> (#[trigger] s[i]).oam_index < (#[trigger] s[j]).oam_index
            &&& forall|i: int|
                0 <= i < n && v.on_line(i) && s.len() < 10 ==> s.contains(
                    #[trigger] v.oam_entry(i),
                )
        }),
    decreases n,
{
    if n > 0 {
        let m = (n - 1) as nat;
        lemma_selected_upto(v, m);
        let s0 = v.selected_upto(m);
        let s = v.selected_upto(n);
        if v.on_line(m as int) && s0.len() < 10 {
            assert(s == s0.push(v.oam_entry(m as int)));
            assert(s[s0.len() as int] == v.oam_entry(m as int));
            assert forall|i: int|
                0 <= i < n && v.on_line(i) && s.len() < 10 implies s.contains(
                #[trigger] v.oam_entry(i),
            ) by {
                if i < m {
                    let k = choose|k: int| 0 <= k < s0.len() && s0[k] == v.oam_entry(i);
                    assert(s[k] == v.oam_entry(i));
                } else {
                    assert(s[s0.len() as int] == v.oam_entry(i));
                }
            }
        } else {
            assert(s == s0);
        }
    }
}

/// Sprite selection: at most 10 sprites are chosen for a line, each one an
/// OAM entry that covers the line, in OAM order; an entry that covers the
/// line is left out only when 10 earlier ones were already chosen.
pub proof fn law_sprite_selection(v: PpuView)
    ensures
        ({
            let s = v.selected();
            &&& s.len() <= 10
            &&& forall|j: int|
                0 <= j < s.len() ==> (#[trigger] s[j]).oam_index < 40 && v.on_line(
                    s[j].oam_index as int,
                ) && s[j] == v.oam_entry(s[j].oam_index as int)
            &&& forall|i: int, j: int|
                0 <= i < j < s.len() ==> (#[trigger] s[i]).oam_index < (#[trigger] s[j]).oam_index
            &&& forall|i: int|
                0 <= i < 40 && v.on_line(i) && !s.contains(#[trigger] v.oam_entry(i)) ==> s.len()
                    == 10
        }),
{
    lemma_selected_upto(v, 40);
}

/// Sprite priority: the sprite shown at a column is a selected one that
/// draws there, and any other selected sprite that draws there has a larger
/// X, or the same X and a larger OAM index.
pub proof fn law_sprite_priority(v: PpuView, c: int, g: SpriteHit)
    requires
        v.sprite_at(c) is Some,
        v.selected().contains(g),
        v.sprite_draws(g, c),
        g != v.sprite_at(c)->0,
    ensures
        ({
            let h = v.sprite_at(c)->0;
            &&& v.selected().contains(h) && v.sprite_draws(h, c)
            &&& h.x < g.x || (h.x == g.x && h.oam_index < g.oam_index)
        }),
{
    let h = v.sprite_at(c)->0;
    assert(v.sprite_wins(h, c));
    let sel = v.selected();
    let j = choose|j: int| 0 <= j < sel.len() && sel[j] == g;
    assert(v.sprite_draws(sel[j], c) && sel[j] != h);
}

} // verus!
