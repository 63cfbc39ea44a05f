//! Pixel composition: background tiles and sprites are decoded from
//! video RAM two bits per pixel, composed into one scanline, and put
//! through the palettes into the packed RGB frame buffer, three bytes
//! per pixel. Sprites are taken from the sprite table, at most ten per
//! line after filtering by vertical range, ordered by X, and overlaid
//! where the line has no earlier sprite pixel.

use vstd::prelude::*;

use crate::gbp::Pallet;
use crate::mem::{spec_gb_wf, spec_mem_wf, GbMapper, Mem, GAMEBOY_SCREEN_BUFFER_SIZE};
use crate::ppu::spec_bit;
use crate::GAMEBOY_WIDTH;

verus! {

/// The 2-bit colour of one pixel of a tile row, from the row's planar
/// byte pair: the high byte carries the colour's high bit.
pub open spec fn spec_tile_pixel(low: u8, high: u8, bit: u8) -> u8 {
    (((high as int / crate::spec_pow2(bit) as int) % 2) * 2 + (low as int / crate::spec_pow2(
        bit,
    ) as int) % 2) as u8
}

/// The tile-map base of the selected background map, as a video-RAM
/// index.
pub open spec fn spec_bg_map_base(m: GbMapper) -> int {
    if spec_bit(m.ppu.lcdc, 3) {
        0x1C00
    } else {
        0x1800
    }
}

/// Pixel `j` of the 256-pixel background strip that one scanline is cut
/// from: the scrolled line picks a tile-map row, the strip's tile and
/// in-tile column pick the tile-map slot and bit, and the slot's tile
/// index — translated by the signed addressing mode when tile data is
/// addressed from its upper bank — locates the planar byte pair.
pub open spec fn spec_bg_strip_pixel(m: GbMapper, scanline: u8, j: int) -> u8 {
    let y = ((m.ppu.scy + scanline) % 256) as int;
    let slot = spec_bg_map_base(m) + (y / 8) * 32 + (j / 8 + (m.ppu.scx as int / 8) * 8) % 32;
    let d = m.vram@[slot] as int;
    let tile = if !spec_bit(m.ppu.lcdc, 4) {
        255 + d
    } else {
        d
    };
    spec_tile_pixel(
        m.vram@[tile * 16 + (y % 8) * 2],
        m.vram@[tile * 16 + (y % 8) * 2 + 1],
        (7 - j % 8) as u8,
    )
}

/// Whether a sprite's vertical range covers the scanline whose shifted
/// index is `s9`.
pub open spec fn spec_sprite_covers(e: crate::oam::OamEntry, s9: u8) -> bool {
    e.y >= s9 && e.y < s9 + 8
}

/// The covering candidates among the first `n` sprite-table entries, in
/// table order; each holds its X position and its table index.
pub open spec fn spec_sprite_candidates(m: GbMapper, s9: u8, n: int) -> Seq<(u8, u8)>
    decreases n,
{
    if n <= 0 {
        Seq::empty()
    } else {
        let rest = spec_sprite_candidates(m, s9, n - 1);
        if spec_sprite_covers(m.oam.data@[n - 1], s9) {
            rest + seq![(m.oam.data@[n - 1].x, (n - 1) as u8)]
        } else {
            rest
        }
    }
}

/// A candidate inserted before the first one with a strictly greater X:
/// the stable insertion that keeps equal-X candidates in table order.
pub open spec fn spec_insert_by_x(s: Seq<(u8, u8)>, item: (u8, u8)) -> Seq<(u8, u8)>
    decreases s.len(),
{
    if s.len() == 0 {
        seq![item]
    } else if s[0].0 > item.0 {
        seq![item] + s
    } else {
        seq![s[0]] + spec_insert_by_x(s.drop_first(), item)
    }
}

/// The candidates sorted ascending by X, equal X keeping table order.
pub open spec fn spec_sort_by_x(s: Seq<(u8, u8)>) -> Seq<(u8, u8)>
    decreases s.len(),
{
    if s.len() == 0 {
        Seq::empty()
    } else {
        spec_insert_by_x(spec_sort_by_x(s.drop_last()), s.last())
    }
}

/// The line after the first `o` pixels of one sprite are painted: pixel
/// `p` of the sprite's covering tile row lands at column x + p - 8
/// (wrapping at 256), only on screen and only where no earlier sprite
/// painted.
pub open spec fn spec_paint_sprite(
    m: GbMapper,
    line: Seq<Option<u8>>,
    e: crate::oam::OamEntry,
    s9: u8,
    o: int,
) -> Seq<Option<u8>>
    decreases o,
{
    if o <= 0 {
        line
    } else {
        let painted = spec_paint_sprite(m, line, e, s9, o - 1);
        let xpos = (e.x as int + o - 1 + 248) % 256;
        let row = 7 - (e.y - s9);
        let px = spec_tile_pixel(
            m.vram@[e.t as int * 16 + row * 2],
            m.vram@[e.t as int * 16 + row * 2 + 1],
            (8 - o) as u8,
        );
        if xpos < 160 && (painted[xpos] matches None) {
            painted.update(xpos, Some(px))
        } else {
            painted
        }
    }
}

/// The line after the first `n` sorted sprites are painted in order,
/// an earlier (lower-X) sprite winning every contested column.
pub open spec fn spec_paint_sprites(
    m: GbMapper,
    line: Seq<Option<u8>>,
    sorted: Seq<(u8, u8)>,
    s9: u8,
    n: int,
) -> Seq<Option<u8>>
    decreases n,
{
    if n <= 0 {
        line
    } else {
        let prev = spec_paint_sprites(m, line, sorted, s9, n - 1);
        let e = m.oam.data@[sorted[n - 1].1 as int];
        if spec_sprite_covers(e, s9) {
            spec_paint_sprite(m, prev, e, s9, 8)
        } else {
            prev
        }
    }
}

/// The full sprite overlay of one scanline: a line of `None` painted by
/// the first ten covering sprites in ascending X order.
pub open spec fn spec_sprite_overlay(m: GbMapper, scanline: u8) -> Seq<Option<u8>> {
    let s9 = (scanline + 9) as u8;
    let sorted = spec_sort_by_x(spec_sprite_candidates(m, s9, 40));
    let visible = if sorted.len() < 10 {
        sorted.len() as int
    } else {
        10
    };
    spec_paint_sprites(m, Seq::new(160, |i: int| None), sorted, s9, visible)
}

/// The composed shade of pixel `i` of one scanline: a covering sprite
/// pixel goes through the object palette, else the background pixel
/// goes through the background palette.
pub open spec fn spec_composed_shade(m: GbMapper, row: u8, i: int) -> u8 {
    match spec_sprite_overlay(m, row)[i] {
        Some(d) => crate::gbp::spec_shade(m.gbp.obp1, d),
        None => crate::gbp::spec_shade(
            m.gbp.bgp,
            spec_bg_strip_pixel(m, row, i + m.ppu.scx as int % 8),
        ),
    }
}

/// Inserting at the first position whose X is strictly greater realizes
/// the stable insertion.
proof fn lemma_insert_by_x_at(s: Seq<(u8, u8)>, item: (u8, u8), pos: int)
    requires
        0 <= pos <= s.len(),
        forall|j: int| 0 <= j < pos ==> (#[trigger] s[j]).0 <= item.0,
        pos < s.len() ==> s[pos].0 > item.0,
    ensures
        spec_insert_by_x(s, item) == s.insert(pos, item),
    decreases s.len(),
{
    if s.len() == 0 {
        assert(s.insert(0, item) =~= seq![item]);
    } else if s[0].0 > item.0 {
        assert(pos == 0);
        assert(s.insert(0, item) =~= seq![item] + s);
    } else {
        assert(pos >= 1);
        assert(forall|j: int|
            0 <= j < pos - 1 ==> (#[trigger] s.drop_first()[j]).0 <= item.0) by {
            assert(forall|j: int| 0 <= j < pos - 1 ==> s.drop_first()[j] == s[j + 1]);
        }
        assert(pos - 1 < s.drop_first().len() ==> s.drop_first()[pos - 1].0 > item.0);
        lemma_insert_by_x_at(s.drop_first(), item, pos - 1);
        assert(seq![s[0]] + s.drop_first().insert(pos - 1, item) =~= s.insert(pos, item));
    }
}

impl GbMapper {
    /// The eight 2-bit pixels of one row of a tile, left to right, read
    /// from video RAM's planar pair at the tile's slot.
    fn tile_row(&self, tile: u16, row: u16) -> (r: Vec<u8>)
        requires
            spec_gb_wf(*self),
            tile <= 510,
            row < 8,
        ensures
            r@.len() == 8,
            forall|i: int|
                0 <= i < 8 ==> r@[i] == spec_tile_pixel(
                    self.vram@[tile * 16 + row * 2],
                    self.vram@[tile * 16 + row * 2 + 1],
                    (7 - i) as u8,
                ),
            forall|i: int| 0 <= i < 8 ==> r@[i] < 4,
    {
        let base: usize = (tile as usize) * 16 + (row as usize) * 2;
        let low = self.vram[base];
        let high = self.vram[base + 1];
        let mut r: Vec<u8> = Vec::new();
        let mut i: usize = 0;
        while i < 8
            invariant
                i <= 8,
                r@.len() == i,
                spec_gb_wf(*self),
                low == self.vram@[tile * 16 + row * 2],
                high == self.vram@[tile * 16 + row * 2 + 1],
                forall|k: int|
                    0 <= k < i ==> r@[k] == spec_tile_pixel(low, high, (7 - k) as u8) && r@[k] < 4,
            decreases 8 - i,
        {
            let bit: u8 = (7 - i) as u8;
            let p = crate::pow2(bit);
            let px: u8 = ((high / p) % 2) * 2 + (low / p) % 2;
            r.push(px);
            i = i + 1;
        }
        r
    }

    /// The 160 background pixels of one scanline, before the palette:
    /// the scrolled row of the selected tile map is walked tile by
    /// tile, each tile's index translated by the tile-data addressing
    /// mode, and the scanline starts at the fine scroll offset.
    pub fn background_line(&self, scanline: u8) -> (r: Vec<u8>)
        requires
            spec_gb_wf(*self),
        ensures
            r@.len() == GAMEBOY_WIDTH,
            forall|i: int|
                0 <= i < r@.len() ==> r@[i] == spec_bg_strip_pixel(
                    *self,
                    scanline,
                    i + self.ppu.scx as int % 8,
                ),
            forall|i: int| 0 <= i < r@.len() ==> r@[i] < 4,
    {
        let x_offset = self.ppu.scx;
        let y_offset: u16 = (self.ppu.scy as u16 + scanline as u16) % 256;
        let map_x_offset: usize = ((x_offset / 8) * 8) as usize;
        let map_base: usize = if self.ppu.lcdc_get(3) {
            0x1C00
        } else {
            0x1800
        };
        let map_row: usize = map_base + ((y_offset as usize) / 8) * 32;
        let tile_line: u16 = y_offset % 8;
        let signed_mode = !self.ppu.lcdc_get(4);
        let mut full: Vec<u8> = Vec::new();
        let mut t: usize = 0;
        while t < 32
            invariant
                t <= 32,
                full@.len() == t * 8,
                spec_gb_wf(*self),
                y_offset == (self.ppu.scy + scanline) % 256,
                map_base == spec_bg_map_base(*self),
                map_row == map_base + (y_offset as int / 8) * 32,
                map_row + 31 < 0x2000,
                tile_line == y_offset as int % 8,
                map_x_offset == (self.ppu.scx as int / 8) * 8,
                map_x_offset <= 248,
                signed_mode == !spec_bit(self.ppu.lcdc, 4),
                forall|k: int|
                    0 <= k < full@.len() ==> full@[k] == spec_bg_strip_pixel(*self, scanline, k),
                forall|k: int| 0 <= k < full@.len() ==> full@[k] < 4,
            decreases 32 - t,
        {
            let slot: usize = map_row + (t + map_x_offset) % 32;
            let map_data = self.vram[slot];
            let tile: u16 = if signed_mode {
                255 + map_data as u16
            } else {
                map_data as u16
            };
            let row_px = self.tile_row(tile, tile_line);
            let mut j: usize = 0;
            while j < 8
                invariant
                    j <= 8,
                    t < 32,
                    row_px@.len() == 8,
                    full@.len() == t * 8 + j,
                    spec_gb_wf(*self),
                    slot < 0x2000,
                    tile <= 510,
                    tile_line < 8,
                    forall|k: int|
                        0 <= k < row_px@.len() ==> row_px@[k] == spec_tile_pixel(
                            self.vram@[tile * 16 + tile_line * 2],
                            self.vram@[tile * 16 + tile_line * 2 + 1],
                            (7 - k) as u8,
                        ) && row_px@[k] < 4,
                    slot == spec_bg_map_base(*self) + (((self.ppu.scy + scanline) % 256) as int
                        / 8) * 32 + (t + (self.ppu.scx as int / 8) * 8) % 32,
                    tile as int == (if !spec_bit(self.ppu.lcdc, 4) {
                        255 + self.vram@[slot as int] as int
                    } else {
                        self.vram@[slot as int] as int
                    }),
                    tile_line == ((self.ppu.scy + scanline) % 256) as int % 8,
                    forall|k: int|
                        0 <= k < full@.len() ==> full@[k] == spec_bg_strip_pixel(*self, scanline, k),
                    forall|k: int| 0 <= k < full@.len() ==> full@[k] < 4,
                decreases 8 - j,
            {
                full.push(row_px[j]);
                proof {
                    let k = t * 8 + j;
                    assert(k / 8 == t && k % 8 == j) by (nonlinear_arith)
                        requires
                            k == t * 8 + j,
                            0 <= j < 8,
                            0 <= t,
                    ;
                    assert(full@[k as int] == spec_bg_strip_pixel(*self, scanline, k as int));
                }
                j = j + 1;
            }
            t = t + 1;
        }
        let skip: usize = (x_offset % 8) as usize;
        let mut out: Vec<u8> = Vec::new();
        let mut i: usize = 0;
        while i < GAMEBOY_WIDTH
            invariant
                i <= GAMEBOY_WIDTH,
                out@.len() == i,
                skip < 8,
                skip == self.ppu.scx as int % 8,
                full@.len() == 256,
                forall|k: int|
                    0 <= k < full@.len() ==> full@[k] == spec_bg_strip_pixel(*self, scanline, k),
                forall|k: int| 0 <= k < full@.len() ==> full@[k] < 4,
                forall|k: int|
                    0 <= k < out@.len() ==> out@[k] == spec_bg_strip_pixel(
                        *self,
                        scanline,
                        k + skip,
                    ),
                forall|k: int| 0 <= k < out@.len() ==> out@[k] < 4,
            decreases GAMEBOY_WIDTH - i,
        {
            out.push(full[i + skip]);
            i = i + 1;
        }
        out
    }

    /// The sprite overlay of one scanline: of the sprites whose
    /// vertical range covers the line, the first ten in ascending X
    /// order (equal X keeping table order) paint their tile-row pixels,
    /// an earlier sprite winning every contested column; `None` where
    /// the background shows through.
    pub fn sprite_line(&self, scanline: u8) -> (r: Vec<Option<u8>>)
        requires
            spec_gb_wf(*self),
            scanline < 144,
        ensures
            r@.len() == GAMEBOY_WIDTH,
            r@ == spec_sprite_overlay(*self, scanline),
            forall|i: int|
                0 <= i < r@.len() ==> ((#[trigger] r@[i]) matches Some(c) ==> c < 4),
            (forall|k: int|
                0 <= k < self.oam.data@.len() ==> !spec_sprite_covers(
                    #[trigger] self.oam.data@[k],
                    (scanline + 9) as u8,
                )) ==> forall|i: int| 0 <= i < r@.len() ==> (#[trigger] r@[i]) matches None,
    {
        let mut line: Vec<Option<u8>> = vec![None; GAMEBOY_WIDTH];
        proof {
            assert(line@ =~= Seq::new(160, |i: int| None::<u8>));
        }
        let s9: u8 = scanline + 9;
        let mut candidates: Vec<(u8, u8)> = Vec::new();
        let mut i: usize = 0;
        while i < 40
            invariant
                i <= 40,
                spec_gb_wf(*self),
                s9 == scanline + 9,
                s9 <= 153,
                candidates@ == spec_sprite_candidates(*self, s9, i as int),
                forall|k: int|
                    0 <= k < candidates@.len() ==> (#[trigger] candidates@[k]).1 < 40
                        && spec_sprite_covers(self.oam.data@[candidates@[k].1 as int], s9),
                candidates@.len() > 0 ==> exists|k: int|
                    0 <= k < 40 && spec_sprite_covers(#[trigger] self.oam.data@[k], s9),
            decreases 40 - i,
        {
            let e = self.oam.data[i];
            if e.y >= s9 && e.y < s9 + 8 {
                candidates.push((e.x, i as u8));
            }
            i = i + 1;
        }
        let mut sorted: Vec<(u8, u8)> = Vec::new();
        let mut i: usize = 0;
        while i < candidates.len()
            invariant
                i <= candidates@.len(),
                sorted@.len() == i,
                sorted@ == spec_sort_by_x(candidates@.subrange(0, i as int)),
                forall|k: int|
                    0 <= k < candidates@.len() ==> (#[trigger] candidates@[k]).1 < 40
                        && spec_sprite_covers(self.oam.data@[candidates@[k].1 as int], s9),
                forall|k: int|
                    0 <= k < sorted@.len() ==> (#[trigger] sorted@[k]).1 < 40
                        && spec_sprite_covers(self.oam.data@[sorted@[k].1 as int], s9),
            decreases candidates@.len() - i,
        {
            let item = candidates[i];
            let ghost pre_sorted = sorted@;
            let mut pos: usize = 0;
            while pos < sorted.len() && sorted[pos].0 <= item.0
                invariant
                    pos <= sorted@.len(),
                    sorted@ == pre_sorted,
                    forall|j: int| 0 <= j < pos ==> (#[trigger] sorted@[j]).0 <= item.0,
                decreases sorted@.len() - pos,
            {
                pos = pos + 1;
            }
            sorted.insert(pos, item);
            proof {
                lemma_insert_by_x_at(pre_sorted, item, pos as int);
                assert(sorted@ == spec_insert_by_x(pre_sorted, item));
                let sub1 = candidates@.subrange(0, i + 1 as int);
                assert(sub1.drop_last() =~= candidates@.subrange(0, i as int));
                assert(sub1.last() == candidates@[i as int]);
                assert(sorted@ == spec_sort_by_x(sub1));
                assert forall|k: int|
                    0 <= k < sorted@.len() implies (#[trigger] sorted@[k]).1 < 40
                    && spec_sprite_covers(self.oam.data@[sorted@[k].1 as int], s9) by {
                    if k < pos {
                        assert(sorted@[k] == pre_sorted[k]);
                    } else if k == pos {
                        assert(sorted@[k] == item);
                    } else {
                        assert(sorted@[k] == pre_sorted[k - 1]);
                    }
                }
            }
            i = i + 1;
        }
        proof {
            assert(candidates@.subrange(0, candidates@.len() as int) =~= candidates@);
            assert(sorted@ == spec_sort_by_x(spec_sprite_candidates(*self, s9, 40)));
        }
        let visible: usize = if sorted.len() < 10 {
            sorted.len()
        } else {
            10
        };
        let ghost line0 = line@;
        let mut s: usize = 0;
        while s < visible
            invariant
                s <= visible,
                visible <= sorted@.len(),
                visible == (if sorted@.len() < 10 {
                    sorted@.len() as int
                } else {
                    10
                }),
                spec_gb_wf(*self),
                s9 == scanline + 9,
                s9 <= 153,
                line@.len() == GAMEBOY_WIDTH,
                line@ == spec_paint_sprites(*self, line0, sorted@, s9, s as int),
                visible == 0 ==> line@ == line0,
                forall|k: int|
                    0 <= k < sorted@.len() ==> (#[trigger] sorted@[k]).1 < 40
                        && spec_sprite_covers(self.oam.data@[sorted@[k].1 as int], s9),
                forall|k: int|
                    0 <= k < line@.len() ==> ((#[trigger] line@[k]) matches Some(c) ==> c < 4),
            decreases visible - s,
        {
            let idx = sorted[s].1 as usize;
            let e = self.oam.data[idx];
            let ghost prev_line = line@;
            proof {
                assert(spec_sprite_covers(e, s9));
            }
            if e.y >= s9 && e.y - s9 < 8 {
                let row: u16 = 7 - ((e.y - s9) as u16);
                let px = self.tile_row(e.t as u16, row);
                let mut offset: usize = 0;
                while offset < 8
                    invariant
                        offset <= 8,
                        px@.len() == 8,
                        spec_gb_wf(*self),
                        e == self.oam.data@[sorted@[s as int].1 as int],
                        spec_sprite_covers(e, s9),
                        row == 7 - (e.y - s9),
                        e.t <= 255,
                        line@.len() == GAMEBOY_WIDTH,
                        line@ == spec_paint_sprite(*self, prev_line, e, s9, offset as int),
                        forall|k: int|
                            0 <= k < px@.len() ==> px@[k] == spec_tile_pixel(
                                self.vram@[e.t as int * 16 + row * 2],
                                self.vram@[e.t as int * 16 + row * 2 + 1],
                                (7 - k) as u8,
                            ) && px@[k] < 4,
                        forall|k: int|
                            0 <= k < line@.len() ==> ((#[trigger] line@[k]) matches Some(c) ==> c
                                < 4),
                    decreases 8 - offset,
                {
                    let xpos: u8 = (((e.x as u16) + (offset as u16) + 248) % 256) as u8;
                    proof {
                        assert(xpos as int == (e.x as int + (offset + 1) - 1 + 248) % 256);
                    }
                    if (xpos as usize) < GAMEBOY_WIDTH {
                        if line[xpos as usize].is_none() {
                            line[xpos as usize] = Some(px[offset]);
                        }
                    }
                    offset = offset + 1;
                }
            }
            s = s + 1;
        }
        proof {
            if candidates@.len() == 0 {
                assert(sorted@.len() == 0);
                assert(line@ == line0);
            }
            assert(line@ == spec_sprite_overlay(*self, scanline));
        }
        line
    }

    /// Compose one scanline into the frame buffer at the given byte
    /// offset: each of the 160 pixels takes its covering sprite pixel
    /// through the object palette where one covers it, else its
    /// background pixel through the background palette, written as
    /// three equal RGB bytes. Bytes outside the scanline's range are
    /// untouched.
    pub fn render(&self, row: u8, buffer: &mut Vec<u8>, offset: usize)
        requires
            spec_gb_wf(*self),
            row < 144,
            offset + 3 * GAMEBOY_WIDTH <= old(buffer)@.len(),
        ensures
            final(buffer)@.len() == old(buffer)@.len(),
            forall|k: int|
                0 <= k < old(buffer)@.len() && !(offset <= k < offset + 3 * GAMEBOY_WIDTH)
                    ==> final(buffer)@[k] == old(buffer)@[k],
            forall|k: int|
                offset <= k < offset + 3 * GAMEBOY_WIDTH ==> (final(buffer)@[k] == 0
                    || final(buffer)@[k] == 85 || final(buffer)@[k] == 170 || final(buffer)@[k]
                    == 255),
            forall|i: int|
                0 <= i < GAMEBOY_WIDTH ==> ({
                    let shade = #[trigger] spec_composed_shade(*self, row, i);
                    &&& final(buffer)@[offset + 3 * i] == shade
                    &&& final(buffer)@[offset + 3 * i + 1] == shade
                    &&& final(buffer)@[offset + 3 * i + 2] == shade
                }),
    {
        let sprites = self.sprite_line(row);
        let background = self.background_line(row);
        let total: usize = buffer.len();
        let mut i: usize = 0;
        while i < GAMEBOY_WIDTH
            invariant
                i <= GAMEBOY_WIDTH,
                sprites@.len() == GAMEBOY_WIDTH,
                background@.len() == GAMEBOY_WIDTH,
                spec_gb_wf(*self),
                offset + 3 * GAMEBOY_WIDTH <= buffer@.len(),
                buffer@.len() == old(buffer)@.len(),
                buffer@.len() == total,
                forall|k: int| 0 <= k < background@.len() ==> background@[k] < 4,
                forall|k: int|
                    0 <= k < sprites@.len() ==> ((#[trigger] sprites@[k]) matches Some(c) ==> c
                        < 4),
                forall|n: int|
                    0 <= n < background@.len() ==> background@[n] == spec_bg_strip_pixel(
                        *self,
                        row,
                        n + self.ppu.scx as int % 8,
                    ),
                sprites@ == spec_sprite_overlay(*self, row),
                forall|k: int|
                    0 <= k < old(buffer)@.len() && !(offset <= k < offset + 3 * i)
                        ==> buffer@[k] == old(buffer)@[k],
                forall|k: int|
                    offset <= k < offset + 3 * i ==> (buffer@[k] == 0 || buffer@[k] == 85
                        || buffer@[k] == 170 || buffer@[k] == 255),
                forall|n: int|
                    0 <= n < i ==> ({
                        let shade = #[trigger] spec_composed_shade(*self, row, n);
                        &&& buffer@[offset + 3 * n] == shade
                        &&& buffer@[offset + 3 * n + 1] == shade
                        &&& buffer@[offset + 3 * n + 2] == shade
                    }),
            decreases GAMEBOY_WIDTH - i,
        {
            let shade: u8 = match sprites[i] {
                Some(d) => self.gbp.shade(Pallet::OBP1, d),
                None => self.gbp.shade(Pallet::BGP, background[i]),
            };
            proof {
                assert(shade == 0 || shade == 85 || shade == 170 || shade == 255);
                assert(shade == spec_composed_shade(*self, row, i as int));
            }
            buffer[offset + 3 * i] = shade;
            buffer[offset + 3 * i + 1] = shade;
            buffer[offset + 3 * i + 2] = shade;
            i = i + 1;
        }
    }
}

impl Mem {
    /// Render one row into the frame buffer. A row inside the visible
    /// frame overwrites exactly its 480-byte scanline region of the
    /// screen with the composed shades of its pixels and reports no
    /// frame yet; row 144, the first V-blank line, reports the frame
    /// complete; later rows move nothing.
    pub fn render(&mut self, row: usize) -> (frame: bool)
        requires
            spec_mem_wf(*old(self)),
        ensures
            spec_mem_wf(*final(self)),
            final(self).map_holder == old(self).map_holder,
            final(self).ime == old(self).ime,
            frame == (row == 144),
            row >= 144 ==> *final(self) == *old(self),
            final(self).screen@.len() == old(self).screen@.len(),
            row < 144 ==> forall|k: int|
                0 <= k < old(self).screen@.len() && !(480 * row <= k < 480 * row + 480)
                    ==> final(self).screen@[k] == old(self).screen@[k],
            row < 144 ==> forall|k: int|
                480 * row <= k < 480 * row + 480 ==> (final(self).screen@[k] == 0
                    || final(self).screen@[k] == 85 || final(self).screen@[k] == 170
                    || final(self).screen@[k] == 255),
            row < 144 ==> forall|i: int|
                0 <= i < GAMEBOY_WIDTH ==> ({
                    let shade = #[trigger] spec_composed_shade(
                        old(self).map_holder,
                        row as u8,
                        i,
                    );
                    &&& final(self).screen@[480 * row + 3 * i] == shade
                    &&& final(self).screen@[480 * row + 3 * i + 1] == shade
                    &&& final(self).screen@[480 * row + 3 * i + 2] == shade
                }),
    {
        if row < 144 {
            let stride: usize = GAMEBOY_WIDTH * 3;
            proof {
                assert(stride == 480);
                assert(GAMEBOY_SCREEN_BUFFER_SIZE == 69120);
            }
            let off: usize = row * stride;
            self.map_holder.render(row as u8, &mut self.screen, off);
            false
        } else {
            row == 144
        }
    }
}

} // verus!
