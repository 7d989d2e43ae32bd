use vstd::prelude::*;

use crate::alu::{pow2_8, spec_pow2_8};
use crate::ppu::{
    spec_bg_tile_area, spec_bg_win_enable, spec_bg_win_mode, spec_obj_enable, spec_obj_size,
    spec_window_enable, spec_window_map_area, Ppu,
};

verus! {

/// The 160 by 144 framebuffer, three bytes of color per pixel.
pub struct Frame {
    pub data: Vec<u8>,
}

/// The fixed four-shade palette, from lightest to darkest.
pub open spec fn spec_palette(shade: u8) -> (u8, u8, u8) {
    if shade == 0 {
        (155u8, 188u8, 15u8)
    } else if shade == 1 {
        (139u8, 172u8, 15u8)
    } else if shade == 2 {
        (48u8, 98u8, 48u8)
    } else {
        (15u8, 56u8, 15u8)
    }
}

/// Executable twin of `spec_palette`.
pub fn palette(shade: u8) -> (r: (u8, u8, u8))
    ensures
        r == spec_palette(shade),
{
    if shade == 0 {
        (155, 188, 15)
    } else if shade == 1 {
        (139, 172, 15)
    } else if shade == 2 {
        (48, 98, 48)
    } else {
        (15, 56, 15)
    }
}

impl Frame {
    pub open spec fn wf(&self) -> bool {
        self.data@.len() == 160 * 144 * 3
    }

    pub fn new() -> (r: Frame)
        ensures
            r.wf(),
    {
        let mut v: Vec<u8> = Vec::new();
        let mut k: usize = 0;
        while k < 160 * 144 * 3
            invariant
                k <= 160 * 144 * 3,
                v@.len() == k,
            decreases 160 * 144 * 3 - k,
        {
            v.push(0);
            k = k + 1;
        }
        Self { data: v }
    }

    /// The color stored for pixel (x, y).
    pub open spec fn spec_pixel(&self, x: int, y: int) -> (u8, u8, u8) {
        (
            self.data@[(y * 160 + x) * 3],
            self.data@[(y * 160 + x) * 3 + 1],
            self.data@[(y * 160 + x) * 3 + 2],
        )
    }

    pub fn set_pixel(&mut self, x: usize, y: usize, rgb: (u8, u8, u8))
        requires
            old(self).wf(),
            x < 160,
            y < 144,
        ensures
            final(self).wf(),
            final(self).spec_pixel(x as int, y as int) == rgb,
            forall|i: int|
                0 <= i < 160 * 144 * 3 && !((y * 160 + x) * 3 <= i < (y * 160 + x) * 3 + 3)
                    ==> final(self).data@[i] == old(self).data@[i],
    {
        let base = (y * 160 + x) * 3;
        self.data[base] = rgb.0;
        self.data[base + 1] = rgb.1;
        self.data[base + 2] = rgb.2;
    }
}

/// A two-bit field of a palette byte: field `id` holds the shade of color
/// index `id`.
pub open spec fn spec_palette_lookup(pal: u8, id: u8) -> u8 {
    if id == 0 {
        (pal % 4) as u8
    } else if id == 1 {
        (pal / 4 % 4) as u8
    } else if id == 2 {
        (pal / 16 % 4) as u8
    } else {
        (pal / 64) as u8
    }
}

fn palette_lookup(pal: u8, id: u8) -> (r: u8)
    requires
        id < 4,
    ensures
        r == spec_palette_lookup(pal, id),
        r < 4,
{
    if id == 0 {
        pal % 4
    } else if id == 1 {
        pal / 4 % 4
    } else if id == 2 {
        pal / 16 % 4
    } else {
        pal / 64
    }
}

/// The tile id and in-tile coordinates a window pixel resolves to, through
/// the window position registers and the window tile-map area bit.
pub open spec fn spec_get_win_tile_id(p: &Ppu, x: int, y: int) -> (u8, u8, u8) {
    let x_pos = x + 7 - p.wx;
    let y_pos = y - p.wy;
    let base: int = if spec_window_map_area(p.control) {
        0x1c00
    } else {
        0x1800
    };
    (
        p.vram@[base + x_pos / 8 + 32 * (y_pos / 8)],
        (x_pos % 8) as u8,
        (y_pos % 8) as u8,
    )
}

/// Executable twin of `spec_get_win_tile_id`; the caller has established
/// that the pixel lies inside the window region.
pub fn get_win_tile_id(p: &Ppu, x: usize, y: usize) -> (r: (u8, u8, u8))
    requires
        p.wf(),
        x < 160,
        y < 144,
        x + 7 >= p.wx,
        y >= p.wy,
    ensures
        r == spec_get_win_tile_id(p, x as int, y as int),
{
    let x_pos = x + 7 - p.wx as usize;
    let y_pos = y - p.wy as usize;
    let base: usize = if p.control / 64 % 2 == 1 {
        0x1c00
    } else {
        0x1800
    };
    (self_vram(p, base + x_pos / 8 + 32 * (y_pos / 8)), (x_pos % 8) as u8, (y_pos % 8) as u8)
}

/// The tile id and in-tile coordinates a background pixel resolves to,
/// through the scroll registers and the background tile-map area bit.
pub open spec fn spec_get_bg_tile_id(p: &Ppu, x: int, y: int) -> (u8, u8, u8) {
    let x_pos = (x + p.scx) % 256;
    let y_pos = (y + p.scy) % 256;
    let base: int = if spec_bg_tile_area(p.control) {
        0x1c00
    } else {
        0x1800
    };
    (
        p.vram@[base + x_pos / 8 + 32 * (y_pos / 8)],
        (x_pos % 8) as u8,
        (y_pos % 8) as u8,
    )
}

/// Executable twin of `spec_get_bg_tile_id`.
pub fn get_bg_tile_id(p: &Ppu, x: usize, y: usize) -> (r: (u8, u8, u8))
    requires
        p.wf(),
        x < 160,
        y < 144,
    ensures
        r == spec_get_bg_tile_id(p, x as int, y as int),
{
    let x_pos = (x + p.scx as usize) % 256;
    let y_pos = (y + p.scy as usize) % 256;
    let base: usize = if p.control / 8 % 2 == 1 {
        0x1c00
    } else {
        0x1800
    };
    (self_vram(p, base + x_pos / 8 + 32 * (y_pos / 8)), (x_pos % 8) as u8, (y_pos % 8) as u8)
}

/// A checked video-memory read at a tile-map or tile-data offset.
fn self_vram(p: &Ppu, idx: usize) -> (r: u8)
    requires
        p.wf(),
        idx < 0x2000,
    ensures
        r == p.vram@[idx as int],
{
    p.vram[idx]
}

/// The two-bit color index of the pixel at (x, y) inside a tile: the low
/// plane byte sits at twice the row, the high plane one past it, and bit
/// 7 - x of each carries the pixel. Background tiles honour the addressing
/// mode bit; object tiles always use the unsigned base.
pub open spec fn spec_get_pixel_data(p: &Ppu, x: u8, y: u8, tile_id: u8, is_obj: bool) -> u8 {
    let adjust = !is_obj && !spec_bg_win_mode(p.control);
    let tile_base: int = if tile_id > 127 {
        0x800 + 16 * (tile_id - 128)
    } else {
        16 * tile_id + (if adjust {
            0x1000int
        } else {
            0
        })
    };
    let lo = p.vram@[tile_base + 2 * y];
    let hi = p.vram@[tile_base + 2 * y + 1];
    let lo_bit: int = (lo as int) / spec_pow2_8((7 - x) as u8) % 2;
    let hi_bit: int = (hi as int) / spec_pow2_8((7 - x) as u8) % 2;
    (lo_bit + 2 * hi_bit) as u8
}

/// Executable twin of `spec_get_pixel_data`.
pub fn get_pixel_data(p: &Ppu, x: u8, y: u8, tile_id: u8, is_obj: bool) -> (r: u8)
    requires
        p.wf(),
        x < 8,
        y < 8,
    ensures
        r == spec_get_pixel_data(p, x, y, tile_id, is_obj),
        r < 4,
{
    let adjust = !is_obj && !(p.control / 16 % 2 == 1);
    let tile_base: usize = if tile_id > 127 {
        0x800 + 16 * (tile_id as usize - 128)
    } else {
        16 * (tile_id as usize) + (if adjust {
            0x1000
        } else {
            0
        })
    };
    let lo = self_vram(p, tile_base + 2 * (y as usize));
    let hi = self_vram(p, tile_base + 2 * (y as usize) + 1);
    let pw = pow2_8(7 - x);
    let lo_bit = lo / pw % 2;
    let hi_bit = hi / pw % 2;
    lo_bit + 2 * hi_bit
}

/// Whether object `i` covers column `x`.
pub open spec fn spec_covers(p: &Ppu, x: int, i: int) -> bool {
    let xb = p.oam@[4 * i + 1];
    x + 8 >= xb && x < xb
}

/// Priority order of two objects on a scanline: the lower X byte wins, ties
/// going to the lower index.
pub open spec fn spec_lex_le(p: &Ppu, a: int, b: int) -> bool {
    let xa = p.oam@[4 * a + 1];
    let xb = p.oam@[4 * b + 1];
    xa < xb || (xa == xb && a <= b)
}

/// Inserting an object into a priority-ordered list.
pub open spec fn spec_insert_sprite(p: &Ppu, s: Seq<usize>, e: usize) -> Seq<usize>
    decreases s.len(),
{
    if s.len() == 0 {
        seq![e]
    } else if spec_lex_le(p, e as int, s[0] as int) {
        seq![e] + s
    } else {
        seq![s[0]] + spec_insert_sprite(p, s.drop_first(), e)
    }
}

/// The objects of the scan list that cover column `x`, in priority order:
/// the scan list's first `n` entries filtered and insertion-ordered.
pub open spec fn spec_sorted_candidates(p: &Ppu, x: int, n: int) -> Seq<usize>
    decreases n,
{
    if n <= 0 {
        Seq::empty()
    } else {
        let prev = spec_sorted_candidates(p, x, n - 1);
        let i = p.scanline_oams@[n - 1];
        if spec_covers(p, x, i as int) {
            spec_insert_sprite(p, prev, i)
        } else {
            prev
        }
    }
}

/// The pixel the object list yields at (x, y): walking the list in priority
/// order, the first object whose tile pixel is opaque supplies its palette
/// color and its background-priority bit; 0xff stands for transparency
/// everywhere.
pub open spec fn spec_resolve(p: &Ppu, x: int, y: int, s: Seq<usize>) -> (u8, bool)
    decreases s.len(),
{
    if s.len() == 0 {
        (0xffu8, true)
    } else {
        let i = s[0] as int;
        let attr = p.oam@[4 * i + 3];
        let tile_index = p.oam@[4 * i + 2];
        let y0 = y + 16 - p.oam@[4 * i];
        let x0 = x + 8 - p.oam@[4 * i + 1];
        let x1: int = if attr / 32 % 2 == 1 {
            7 - x0
        } else {
            x0
        };
        let y1: int = if attr / 64 % 2 == 1 {
            7 + (if spec_obj_size(p.control) {
                8int
            } else {
                0
            }) - y0
        } else {
            y0
        };
        let obj_id = if spec_obj_size(p.control) && y1 >= 8 {
            spec_get_pixel_data(
                p,
                x1 as u8,
                (y1 - 8) as u8,
                (tile_index - tile_index % 2 + 1) as u8,
                true,
            )
        } else if spec_obj_size(p.control) {
            spec_get_pixel_data(p, x1 as u8, y1 as u8, (tile_index - tile_index % 2) as u8, true)
        } else {
            spec_get_pixel_data(p, x1 as u8, y1 as u8, tile_index, true)
        };
        if obj_id != 0 {
            let pal = if attr / 16 % 2 == 1 {
                p.obp1
            } else {
                p.obp0
            };
            (spec_palette_lookup(pal, obj_id), attr >= 128)
        } else {
            spec_resolve(p, x, y, s.drop_first())
        }
    }
}

/// What every entry of a sprite list must satisfy for the resolver: a real
/// object index that covers the column and the current scanline.
pub open spec fn spec_sprite_list_ok(p: &Ppu, x: int, s: Seq<usize>) -> bool {
    forall|k: int|
        0 <= k < s.len() ==> (#[trigger] s[k]) < 40 && spec_covers(p, x, s[k] as int)
            && p.spec_sprite_hit(s[k] as int)
}

/// Executable twin of `spec_resolve`, walking the list iteratively.
pub fn resolve_sprite_overlap(p: &Ppu, x: usize, y: usize, sprites: &Vec<usize>) -> (r: (u8, bool))
    requires
        p.wf(),
        x < 160,
        y == p.scanline,
        spec_sprite_list_ok(p, x as int, sprites@),
    ensures
        r == spec_resolve(p, x as int, y as int, sprites@),
{
    let mut k: usize = 0;
    proof {
        assert(sprites@.skip(0) =~= sprites@);
    }
    while k < sprites.len()
        invariant
            p.wf(),
            x < 160,
            y == p.scanline,
            spec_sprite_list_ok(p, x as int, sprites@),
            k <= sprites@.len(),
            spec_resolve(p, x as int, y as int, sprites@) == spec_resolve(
                p,
                x as int,
                y as int,
                sprites@.skip(k as int),
            ),
        decreases sprites@.len() - k,
    {
        let i = sprites[k];
        proof {
            assert(sprites@.skip(k as int)[0] == sprites@[k as int]);
        }
        let y_byte = p.oam[4 * i];
        let x_byte = p.oam[4 * i + 1];
        let tile_index = p.oam[4 * i + 2];
        let attr = p.oam[4 * i + 3];
        let obj_tall = p.control / 4 % 2 == 1;
        let mut y_pos: u8 = (y as u8) + 16 - y_byte;
        let mut x_pos: u8 = (x as u8) + 8 - x_byte;
        if attr / 32 % 2 == 1 {
            x_pos = 7 - x_pos;
        }
        if attr / 64 % 2 == 1 {
            let h: u8 = if obj_tall {
                8
            } else {
                0
            };
            y_pos = 7 + h - y_pos;
        }
        let obj_id = if obj_tall && y_pos >= 8 {
            get_pixel_data(p, x_pos, y_pos - 8, tile_index - tile_index % 2 + 1, true)
        } else if obj_tall {
            get_pixel_data(p, x_pos, y_pos, tile_index - tile_index % 2, true)
        } else {
            get_pixel_data(p, x_pos, y_pos, tile_index, true)
        };
        if obj_id != 0 {
            let pal = if attr / 16 % 2 == 1 {
                p.obp1
            } else {
                p.obp0
            };
            return (palette_lookup(pal, obj_id), attr >= 128);
        }
        proof {
            assert(sprites@.skip(k as int).drop_first() =~= sprites@.skip(k as int + 1));
        }
        k = k + 1;
    }
    (0xff, true)
}

/// Inserts an object index into a priority-ordered list.
fn insert_sprite(v: &mut Vec<usize>, p: &Ppu, e: usize)
    requires
        p.wf(),
        e < 40,
        forall|k: int| 0 <= k < old(v)@.len() ==> (#[trigger] old(v)@[k]) < 40,
    ensures
        final(v)@ == spec_insert_sprite(p, old(v)@, e),
{
    let mut pos: usize = 0;
    while pos < v.len() && !sprite_lex_le(p, e, v[pos])
        invariant
            p.wf(),
            e < 40,
            forall|k: int| 0 <= k < v@.len() ==> (#[trigger] v@[k]) < 40,
            pos <= v@.len(),
            v@ == old(v)@,
            forall|j: int| 0 <= j < pos ==> !spec_lex_le(p, e as int, v@[j] as int),
        decreases v@.len() - pos,
    {
        pos = pos + 1;
    }
    proof {
        lemma_spec_insert_at(p, v@, e, pos as int);
    }
    v.insert(pos, e);
    proof {
        assert(v@ =~= old(v)@.insert(pos as int, e));
    }
}

/// Executable twin of `spec_lex_le`.
fn sprite_lex_le(p: &Ppu, a: usize, b: usize) -> (r: bool)
    requires
        p.wf(),
        a < 40,
        b < 40,
    ensures
        r == spec_lex_le(p, a as int, b as int),
{
    let xa = p.oam[4 * a + 1];
    let xb = p.oam[4 * b + 1];
    xa < xb || (xa == xb && a <= b)
}

/// Inserting at the first position whose entry does not precede the new one
/// is what the recursive insertion specification computes.
proof fn lemma_spec_insert_at(p: &Ppu, s: Seq<usize>, e: usize, pos: int)
    requires
        0 <= pos <= s.len(),
        forall|j: int| 0 <= j < pos ==> !spec_lex_le(p, e as int, s[j] as int),
        pos < s.len() ==> spec_lex_le(p, e as int, s[pos] as int),
    ensures
        spec_insert_sprite(p, s, e) == s.insert(pos, e),
    decreases pos,
{
    if s.len() == 0 {
        assert(spec_insert_sprite(p, s, e) =~= s.insert(0, e));
    } else if pos == 0 {
        assert(spec_insert_sprite(p, s, e) =~= s.insert(0, e));
    } else {
        lemma_spec_insert_at(p, s.drop_first(), e, pos - 1);
        assert(seq![s[0]] + spec_insert_sprite(p, s.drop_first(), e) =~= s.insert(pos, e));
    }
}

/// Collects the objects of the scan list that cover column `x`, in priority
/// order, and resolves the pixel through them.
pub fn get_sprite(p: &Ppu, x: usize, y: usize) -> (r: (u8, bool))
    requires
        p.wf(),
        x < 160,
        y == p.scanline,
        forall|k: int|
            0 <= k < p.scanline_oams@.len() ==> p.spec_sprite_hit(
                #[trigger] p.scanline_oams@[k] as int,
            ),
    ensures
        r == spec_resolve(
            p,
            x as int,
            y as int,
            spec_sorted_candidates(p, x as int, p.scanline_oams@.len() as int),
        ),
{
    let mut sorted: Vec<usize> = Vec::new();
    let mut k: usize = 0;
    while k < p.scanline_oams.len()
        invariant
            p.wf(),
            x < 160,
            k <= p.scanline_oams@.len(),
            sorted@ == spec_sorted_candidates(p, x as int, k as int),
            forall|j: int| 0 <= j < sorted@.len() ==> (#[trigger] sorted@[j]) < 40,
        decreases p.scanline_oams@.len() - k,
    {
        let i = p.scanline_oams[k];
        let x_byte = p.oam[4 * i + 1];
        if x + 8 >= x_byte as usize && x < x_byte as usize {
            insert_sprite(&mut sorted, p, i);
            proof {
                lemma_insert_keeps_small(p, spec_sorted_candidates(p, x as int, k as int), i);
            }
        }
        k = k + 1;
    }
    proof {
        lemma_sorted_candidates_ok(
            p,
            x as int,
            p.scanline_oams@.len() as int,
            spec_sorted_candidates(p, x as int, p.scanline_oams@.len() as int),
        );
    }
    resolve_sprite_overlap(p, x, y, &sorted)
}

/// Insertion keeps every entry a real object index.
proof fn lemma_insert_keeps_small(p: &Ppu, s: Seq<usize>, e: usize)
    requires
        e < 40,
        forall|k: int| 0 <= k < s.len() ==> (#[trigger] s[k]) < 40,
    ensures
        forall|k: int|
            0 <= k < spec_insert_sprite(p, s, e).len() ==> (#[trigger] spec_insert_sprite(
                p,
                s,
                e,
            )[k]) < 40,
    decreases s.len(),
{
    let r = spec_insert_sprite(p, s, e);
    if s.len() == 0 {
        assert forall|k: int| 0 <= k < r.len() implies (#[trigger] r[k]) < 40 by {
            assert(r[k] == e);
        }
    } else if spec_lex_le(p, e as int, s[0] as int) {
        assert forall|k: int| 0 <= k < r.len() implies (#[trigger] r[k]) < 40 by {
            if k == 0 {
                assert(r[k] == e);
            } else {
                assert(r[k] == s[k - 1]);
            }
        }
    } else {
        lemma_insert_keeps_small(p, s.drop_first(), e);
        let rr = spec_insert_sprite(p, s.drop_first(), e);
        assert forall|k: int| 0 <= k < r.len() implies (#[trigger] r[k]) < 40 by {
            if k == 0 {
                assert(r[k] == s[0]);
            } else {
                assert(r[k] == rr[k - 1]);
            }
        }
    }
}

/// Every entry of the ordered candidate list is a real object index that
/// covers the column and the scanline, provided the scan list's entries
/// cover the scanline.
proof fn lemma_sorted_candidates_ok(p: &Ppu, x: int, n: int, s: Seq<usize>)
    requires
        p.wf(),
        n <= p.scanline_oams@.len(),
        forall|k: int|
            0 <= k < p.scanline_oams@.len() ==> p.spec_sprite_hit(
                #[trigger] p.scanline_oams@[k] as int,
            ),
        s == spec_sorted_candidates(p, x, n),
    ensures
        spec_sprite_list_ok(p, x, s),
    decreases n,
{
    if n > 0 {
        lemma_sorted_candidates_ok(p, x, n - 1, spec_sorted_candidates(p, x, n - 1));
        let i = p.scanline_oams@[n - 1];
        if spec_covers(p, x, i as int) {
            lemma_insert_list_ok(p, x, spec_sorted_candidates(p, x, n - 1), i);
        }
    }
}

/// Insertion keeps the resolver's entry conditions.
proof fn lemma_insert_list_ok(p: &Ppu, x: int, s: Seq<usize>, e: usize)
    requires
        spec_sprite_list_ok(p, x, s),
        e < 40,
        spec_covers(p, x, e as int),
        p.spec_sprite_hit(e as int),
    ensures
        spec_sprite_list_ok(p, x, spec_insert_sprite(p, s, e)),
    decreases s.len(),
{
    let r = spec_insert_sprite(p, s, e);
    if s.len() == 0 {
        assert forall|k: int|
            0 <= k < r.len() implies (#[trigger] r[k]) < 40 && spec_covers(p, x, r[k] as int)
            && p.spec_sprite_hit(r[k] as int) by {
            assert(r[k] == e);
        }
    } else if spec_lex_le(p, e as int, s[0] as int) {
        assert forall|k: int|
            0 <= k < r.len() implies (#[trigger] r[k]) < 40 && spec_covers(p, x, r[k] as int)
            && p.spec_sprite_hit(r[k] as int) by {
            if k == 0 {
                assert(r[k] == e);
            } else {
                assert(r[k] == s[k - 1]);
            }
        }
    } else {
        assert(spec_sprite_list_ok(p, x, s.drop_first()));
        lemma_insert_list_ok(p, x, s.drop_first(), e);
        let rr = spec_insert_sprite(p, s.drop_first(), e);
        assert forall|k: int|
            0 <= k < r.len() implies (#[trigger] r[k]) < 40 && spec_covers(p, x, r[k] as int)
            && p.spec_sprite_hit(r[k] as int) by {
            if k == 0 {
                assert(r[k] == s[0]);
            } else {
                assert(r[k] == rr[k - 1]);
            }
        }
    }
}

/// The color rendered at (x, y): a window or background pixel through the
/// background palette, possibly replaced by an opaque object pixel unless
/// the object defers to a non-zero background color; master enable bits
/// force the background to shade zero or hide objects entirely.
pub open spec fn spec_render_pixel(p: &Ppu, x: int, y: int) -> (u8, u8, u8) {
    let in_window = spec_window_enable(p.control) && x + 7 >= p.wx && y >= p.wy;
    let t = if in_window {
        spec_get_win_tile_id(p, x, y)
    } else {
        spec_get_bg_tile_id(p, x, y)
    };
    let pixel_id = spec_get_pixel_data(p, t.1, t.2, t.0, false);
    let bg_pixel = spec_palette_lookup(p.bg_palette, pixel_id);
    let s = spec_resolve(
        p,
        x,
        y,
        spec_sorted_candidates(p, x, p.scanline_oams@.len() as int),
    );
    let obj_visible = !((s.1 && pixel_id > 0) || s.0 == 0xff);
    if spec_obj_enable(p.control) && obj_visible {
        spec_palette(s.0)
    } else if spec_bg_win_enable(p.control) {
        spec_palette(bg_pixel)
    } else {
        spec_palette(0)
    }
}

/// Executable twin of `spec_render_pixel`.
pub fn render_pixel(p: &Ppu, x: usize, y: usize) -> (r: (u8, u8, u8))
    requires
        p.wf(),
        x < 160,
        y < 144,
        y == p.scanline,
        forall|k: int|
            0 <= k < p.scanline_oams@.len() ==> p.spec_sprite_hit(
                #[trigger] p.scanline_oams@[k] as int,
            ),
    ensures
        r == spec_render_pixel(p, x as int, y as int),
{
    let t = if p.control / 32 % 2 == 1 && x + 7 >= p.wx as usize && y >= p.wy as usize {
        get_win_tile_id(p, x, y)
    } else {
        get_bg_tile_id(p, x, y)
    };
    let pixel_id = get_pixel_data(p, t.1, t.2, t.0, false);
    let bg_pixel = palette_lookup(p.bg_palette, pixel_id);
    let (obj_color, bg_over_obj) = get_sprite(p, x, y);
    let obj_visible = !((bg_over_obj && pixel_id > 0) || obj_color == 0xff);
    if p.control / 2 % 2 == 1 && obj_visible {
        palette(obj_color)
    } else if p.control % 2 == 1 {
        palette(bg_pixel)
    } else {
        palette(0)
    }
}

/// Renders the current scanline into the frame: every column of the line
/// takes its rendered color, every other pixel stays.
pub fn render_scanline(p: &Ppu, frame: &mut Frame)
    requires
        p.wf(),
        old(frame).wf(),
        p.scanline < 144,
        forall|k: int|
            0 <= k < p.scanline_oams@.len() ==> p.spec_sprite_hit(
                #[trigger] p.scanline_oams@[k] as int,
            ),
    ensures
        final(frame).wf(),
        forall|x: int|
            0 <= x < 160 ==> final(frame).spec_pixel(x, p.scanline as int) == spec_render_pixel(
                p,
                x,
                p.scanline as int,
            ),
        forall|i: int|
            0 <= i < 160 * 144 * 3 && !(p.scanline * 160 * 3 <= i < (p.scanline + 1) * 160 * 3)
                ==> final(frame).data@[i] == old(frame).data@[i],
{
    let y = p.scanline as usize;
    let mut x: usize = 0;
    while x < 160
        invariant
            p.wf(),
            frame.wf(),
            p.scanline < 144,
            y == p.scanline,
            x <= 160,
            forall|k: int|
                0 <= k < p.scanline_oams@.len() ==> p.spec_sprite_hit(
                    #[trigger] p.scanline_oams@[k] as int,
                ),
            forall|c: int|
                0 <= c < x ==> frame.spec_pixel(c, p.scanline as int) == spec_render_pixel(
                    p,
                    c,
                    p.scanline as int,
                ),
            forall|i: int|
                0 <= i < 160 * 144 * 3 && !(p.scanline * 160 * 3 <= i < p.scanline * 160 * 3 + x
                    * 3) ==> frame.data@[i] == old(frame).data@[i],
        decreases 160 - x,
    {
        let rgb = render_pixel(p, x, y);
        frame.set_pixel(x, y, rgb);
        x = x + 1;
    }
}

} // verus!
