use vstd::prelude::*;

verus! {

/// The mode the pixel processor is in within the current scanline.
#[derive(Debug, Clone, Copy, PartialEq, Eq, Structural)]
pub enum PpuMode {
    /// Mode 2: scanning object attributes.
    OamScan,
    /// Mode 3: producing pixels.
    Draw,
    /// Mode 0: the horizontal blank.
    HBlank,
    /// Mode 1: the vertical blank, scanlines 144 to 153.
    VBlank,
}

/// What the bus should do after a tick.
#[derive(Debug, Clone, Copy, PartialEq, Eq, Structural)]
pub enum DisplayStatus {
    DoNothing,
    OAMScan,
    NewScanline,
    NewFrame,
}

// Control-register bits.
pub open spec fn spec_lcd_enabled(c: u8) -> bool {
    c >= 128
}

pub open spec fn spec_window_map_area(c: u8) -> bool {
    c / 64 % 2 == 1
}

pub open spec fn spec_window_enable(c: u8) -> bool {
    c / 32 % 2 == 1
}

pub open spec fn spec_bg_win_mode(c: u8) -> bool {
    c / 16 % 2 == 1
}

pub open spec fn spec_bg_tile_area(c: u8) -> bool {
    c / 8 % 2 == 1
}

pub open spec fn spec_obj_size(c: u8) -> bool {
    c / 4 % 2 == 1
}

pub open spec fn spec_obj_enable(c: u8) -> bool {
    c / 2 % 2 == 1
}

pub open spec fn spec_bg_win_enable(c: u8) -> bool {
    c % 2 == 1
}

// Status-register interrupt-select bits.
pub open spec fn spec_lyc_select(s: u8) -> bool {
    s / 64 % 2 == 1
}

pub open spec fn spec_mode_two_select(s: u8) -> bool {
    s / 32 % 2 == 1
}

pub open spec fn spec_mode_one_select(s: u8) -> bool {
    s / 16 % 2 == 1
}

pub open spec fn spec_mode_zero_select(s: u8) -> bool {
    s / 8 % 2 == 1
}

pub open spec fn spec_compare(s: u8) -> bool {
    s / 4 % 2 == 1
}

/// The pixel processor: video memory, object attributes, the mode machine
/// and the memory-mapped registers.
pub struct Ppu {
    pub vram: Vec<u8>,
    pub oam: Vec<u8>,
    /// The LCD control byte.
    pub control: u8,
    /// The status byte's stored bits: the four interrupt selects and the
    /// compare bit; the mode bits live in `mode`.
    pub status: u8,
    pub lyc: u8,
    pub scy: u8,
    pub scx: u8,
    pub wy: u8,
    pub wx: u8,
    pub bg_palette: u8,
    pub obp0: u8,
    pub obp1: u8,
    pub bcps: u8,
    pub bcpd: u8,
    /// The cycle within the current scanline, 0 to 456.
    pub cycle: u32,
    /// LY: the current scanline, 0 to 153.
    pub scanline: u8,
    pub mode: PpuMode,
    /// Indices of the up to ten objects found on the current scanline.
    pub scanline_oams: Vec<usize>,
}

impl Ppu {
    /// Always-holding shape of the processor state; in particular the
    /// scanline stays under 154, the mode is the vertical blank exactly on
    /// scanlines 144 to 153, and a disabled LCD pins scanline zero in the
    /// horizontal blank.
    pub open spec fn wf(&self) -> bool {
        &&& self.vram@.len() == 0x2000
        &&& self.oam@.len() == 0xa0
        &&& self.cycle <= 456
        &&& self.scanline < 154
        &&& (self.mode == PpuMode::VBlank <==> 144 <= self.scanline)
        &&& self.scanline_oams@.len() <= 10
        &&& (forall|i: int|
            0 <= i < self.scanline_oams@.len() ==> #[trigger] self.scanline_oams@[i] < 40)
        &&& self.status < 128 && self.status % 4 == 0
        &&& (!spec_lcd_enabled(self.control) ==> self.scanline == 0 && self.mode == PpuMode::HBlank
            && self.cycle == 0)
    }

    pub fn new() -> (r: Ppu)
        ensures
            r.wf(),
            r.control == 0 && r.status == 0 && r.lyc == 0 && r.scy == 0 && r.scx == 0,
            r.wy == 0 && r.wx == 0 && r.bg_palette == 0 && r.obp0 == 0 && r.obp1 == 0,
            r.cycle == 0 && r.scanline == 0 && r.mode == PpuMode::HBlank,
            r.scanline_oams@.len() == 0,
            forall|i: int| 0 <= i < 0x2000 ==> r.vram@[i] == 0,
            forall|i: int| 0 <= i < 0xa0 ==> r.oam@[i] == 0,
    {
        Self {
            vram: zero_vec(0x2000),
            oam: zero_vec(0xa0),
            control: 0,
            status: 0,
            lyc: 0,
            scy: 0,
            scx: 0,
            wy: 0,
            wx: 0,
            bg_palette: 0,
            obp0: 0,
            obp1: 0,
            bcps: 0,
            bcpd: 0,
            cycle: 0,
            scanline: 0,
            mode: PpuMode::HBlank,
            scanline_oams: Vec::new(),
        }
    }

    /// Writes the control byte. Turning the LCD off halts the processor:
    /// the scanline and cycle reset and the mode drops to the horizontal
    /// blank.
    pub fn write_to_ctrl(&mut self, val: u8)
        requires
            old(self).wf(),
        ensures
            final(self).wf(),
            *final(self) == (if spec_lcd_enabled(val) {
                Ppu { control: val, ..*old(self) }
            } else {
                Ppu {
                    control: val,
                    scanline: 0u8,
                    cycle: 0u32,
                    mode: PpuMode::HBlank,
                    ..*old(self)
                }
            }),
    {
        self.control = val;
        if val < 128 {
            self.scanline = 0;
            self.cycle = 0;
            self.mode = PpuMode::HBlank;
        }
    }

    pub fn read_ctrl(&self) -> (r: u8)
        ensures
            r == self.control,
    {
        self.control
    }

    /// Writes the status byte: only the four interrupt-select bits are
    /// writable; the compare and mode bits are read-only.
    pub fn write_status(&mut self, val: u8)
        requires
            old(self).wf(),
        ensures
            final(self).wf(),
            *final(self) == (Ppu {
                status: (val / 8 % 16 * 8 + (if spec_compare(old(self).status) {
                    4int
                } else {
                    0
                })) as u8,
                ..*old(self)
            }),
    {
        let compare: u8 = if self.status / 4 % 2 == 1 {
            4
        } else {
            0
        };
        self.status = val / 8 % 16 * 8 + compare;
    }

    /// The mode bits as the status register presents them.
    pub open spec fn spec_mode_bits(&self) -> u8 {
        match self.mode {
            PpuMode::HBlank => 0,
            PpuMode::VBlank => 1,
            PpuMode::OamScan => 2,
            PpuMode::Draw => 3,
        }
    }

    /// The status register image: the unused top bit as one, the stored
    /// bits, and the current mode in the low two bits (zero with the LCD
    /// off).
    pub open spec fn spec_read_status(&self) -> u8 {
        (128 + self.status + (if spec_lcd_enabled(self.control) {
            self.spec_mode_bits()
        } else {
            0
        })) as u8
    }

    /// Reads the status register.
    pub fn read_status(&self) -> (r: u8)
        requires
            self.wf(),
        ensures
            r == self.spec_read_status(),
    {
        let mode: u8 = if self.control < 128 {
            0
        } else {
            match self.mode {
                PpuMode::HBlank => 0,
                PpuMode::VBlank => 1,
                PpuMode::OamScan => 2,
                PpuMode::Draw => 3,
            }
        };
        128 + self.status + mode
    }

    pub fn read_vram(&self, addr: u16) -> (r: u8)
        requires
            self.wf(),
            0x8000 <= addr < 0xa000,
        ensures
            r == self.vram@[addr - 0x8000],
    {
        self.vram[(addr - 0x8000) as usize]
    }

    pub fn write_vram(&mut self, addr: u16, val: u8)
        requires
            old(self).wf(),
            0x8000 <= addr < 0xa000,
        ensures
            final(self).wf(),
            *final(self) == (Ppu { vram: final(self).vram, ..*old(self) }),
            final(self).vram@ == old(self).vram@.update(addr - 0x8000, val),
    {
        self.vram[(addr - 0x8000) as usize] = val;
    }

    pub fn oam_read(&self, addr: u16) -> (r: u8)
        requires
            self.wf(),
            0xfe00 <= addr < 0xfea0,
        ensures
            r == self.oam@[addr - 0xfe00],
    {
        self.oam[(addr - 0xfe00) as usize]
    }

    pub fn oam_write(&mut self, addr: u16, val: u8)
        requires
            old(self).wf(),
            0xfe00 <= addr < 0xfea0,
        ensures
            final(self).wf(),
            *final(self) == (Ppu { oam: final(self).oam, ..*old(self) }),
            final(self).oam@ == old(self).oam@.update(addr - 0xfe00, val),
    {
        self.oam[(addr - 0xfe00) as usize] = val;
    }

    /// Replaces the whole object-attribute memory with a copied page.
    pub fn oam_dma(&mut self, page: Vec<u8>)
        requires
            old(self).wf(),
            page@.len() == 0xa0,
        ensures
            final(self).wf(),
            *final(self) == (Ppu { oam: final(self).oam, ..*old(self) }),
            final(self).oam@ == page@,
    {
        self.oam = page;
    }

    /// Whether object `i` covers the current scanline: its Y byte puts it
    /// over the line for the 8- or 16-pixel height the control bit selects.
    pub open spec fn spec_sprite_hit(&self, i: int) -> bool {
        let y = self.oam@[4 * i];
        &&& self.scanline + 16 >= y
        &&& self.scanline + (if spec_obj_size(self.control) {
            0int
        } else {
            8
        }) < y
    }

    /// The first `n` objects scanned: each hit is kept, up to ten.
    pub open spec fn spec_oam_scan(&self, n: int) -> Seq<usize>
        decreases n,
    {
        if n <= 0 {
            Seq::empty()
        } else {
            let prev = self.spec_oam_scan(n - 1);
            if self.spec_sprite_hit(n - 1) && prev.len() < 10 {
                prev.push((n - 1) as usize)
            } else {
                prev
            }
        }
    }

    /// Scans all forty object entries and keeps the indices of up to ten
    /// that cover the current scanline, in index order.
    pub fn oam_scan(&mut self)
        requires
            old(self).wf(),
        ensures
            final(self).wf(),
            *final(self) == (Ppu { scanline_oams: final(self).scanline_oams, ..*old(self) }),
            final(self).scanline_oams@ == old(self).spec_oam_scan(40),
    {
        self.scanline_oams.clear();
        let obj_tall = self.control / 4 % 2 == 1;
        let mut i: usize = 0;
        while i < 40
            invariant
                self.wf(),
                *self == (Ppu { scanline_oams: self.scanline_oams, ..*old(self) }),
                i <= 40,
                obj_tall == spec_obj_size(self.control),
                self.scanline_oams@ == old(self).spec_oam_scan(i as int),
            decreases 40 - i,
        {
            let y_byte = self.oam[4 * i];
            let reach: u8 = if obj_tall {
                0
            } else {
                8
            };
            let in_scanline = self.scanline as u16 + 16 >= y_byte as u16 && ((self.scanline as u16)
                + (reach as u16)) < (y_byte as u16);
            if in_scanline && self.scanline_oams.len() < 10 {
                self.scanline_oams.push(i);
            }
            i = i + 1;
        }
    }

    /// Advances the scanline clock. The results are, in order: what the bus
    /// should render, whether a STAT interrupt fires, and whether the
    /// vertical-blank interrupt fires. A disabled LCD does not run and
    /// raises nothing.
    pub fn tick(&mut self, cycles: u8) -> (r: (DisplayStatus, bool, bool))
        requires
            old(self).wf(),
        ensures
            final(self).wf(),
            ({
                let o = *old(self);
                let n = *final(self);
                &&& n.vram == o.vram
                &&& n.oam == o.oam
                &&& n.control == o.control
                &&& n.lyc == o.lyc
                &&& n.scy == o.scy && n.scx == o.scx && n.wy == o.wy && n.wx == o.wx
                &&& n.bg_palette == o.bg_palette && n.obp0 == o.obp0 && n.obp1 == o.obp1
                &&& n.scanline_oams == o.scanline_oams
                &&& (!spec_lcd_enabled(o.control) ==> n == o && r == (
                    DisplayStatus::DoNothing,
                    false,
                    false,
                ))
                &&& (r.0 == DisplayStatus::NewFrame <==> spec_lcd_enabled(o.control) && o.mode
                    != PpuMode::VBlank && n.mode == PpuMode::VBlank)
                &&& (r.0 == DisplayStatus::NewScanline <==> spec_lcd_enabled(o.control) && o.mode
                    != PpuMode::Draw && n.mode == PpuMode::Draw)
                &&& (r.2 ==> n.scanline == 144 && n.mode == PpuMode::VBlank)
                &&& (spec_lcd_enabled(o.control) ==> (r.2 <==> o.scanline == 143 && n.scanline
                    == 144))
                &&& (spec_lcd_enabled(o.control) ==> n.cycle == (if o.cycle + cycles > 456 {
                    (o.cycle + cycles) % 456
                } else {
                    o.cycle + cycles
                }))
                &&& (spec_lcd_enabled(o.control) ==> n.scanline == (if o.cycle + cycles > 456 {
                    if o.scanline + 1 > 153 {
                        0int
                    } else {
                        o.scanline + 1
                    }
                } else {
                    o.scanline as int
                }))
                &&& (n.scanline >= 144 <==> n.mode == PpuMode::VBlank)
            }),
    {
        if self.control < 128 {
            return (DisplayStatus::DoNothing, false, false);
        }
        self.cycle = self.cycle + cycles as u32;
        let prior_mode = self.mode;
        let mut status = DisplayStatus::DoNothing;
        let mut lcd_int = false;
        let mut vblank_int = false;
        if self.cycle > 456 {
            self.cycle = self.cycle % 456;
            self.scanline = self.scanline + 1;
            if self.scanline > 153 {
                self.scanline = 0;
                self.mode = PpuMode::OamScan;
            }
            if self.scanline == 144 {
                self.mode = PpuMode::VBlank;
                vblank_int = true;
                if self.status / 16 % 2 == 1 {
                    lcd_int = true;
                }
            }
            if self.scanline == self.lyc {
                if self.status / 4 % 2 == 0 {
                    self.status = self.status + 4;
                }
                if self.status / 64 % 2 == 1 {
                    lcd_int = true;
                }
            }
        }
        if self.mode != PpuMode::VBlank {
            if self.cycle <= 80 {
                self.mode = PpuMode::OamScan;
            } else if self.cycle <= 252 {
                self.mode = PpuMode::Draw;
            } else {
                self.mode = PpuMode::HBlank;
            }
        }
        if prior_mode != self.mode {
            match self.mode {
                PpuMode::HBlank => {
                    if self.status / 8 % 2 == 1 {
                        lcd_int = true;
                    }
                },
                PpuMode::VBlank => {
                    status = DisplayStatus::NewFrame;
                    if self.status / 16 % 2 == 1 {
                        lcd_int = true;
                    }
                },
                PpuMode::OamScan => {
                    status = DisplayStatus::OAMScan;
                    if self.status / 32 % 2 == 1 {
                        lcd_int = true;
                    }
                },
                PpuMode::Draw => {
                    status = DisplayStatus::NewScanline;
                },
            }
        }
        (status, lcd_int, vblank_int)
    }
}

/// Every index the object scan keeps covers the current scanline.
pub proof fn lemma_oam_scan_hits(p: &Ppu, n: int)
    requires
        0 <= n <= 40,
    ensures
        forall|k: int|
            0 <= k < p.spec_oam_scan(n).len() ==> p.spec_sprite_hit(
                #[trigger] p.spec_oam_scan(n)[k] as int,
            ),
    decreases n,
{
    if n > 0 {
        lemma_oam_scan_hits(p, n - 1);
        let prev = p.spec_oam_scan(n - 1);
        let s = p.spec_oam_scan(n);
        if p.spec_sprite_hit(n - 1) && prev.len() < 10 {
            assert forall|k: int|
                0 <= k < s.len() implies p.spec_sprite_hit(#[trigger] s[k] as int) by {
                if k < prev.len() {
                    assert(s[k] == prev[k]);
                } else {
                    assert(s[k] == (n - 1) as usize);
                }
            }
        }
    }
}

/// A zero-filled vector of the given length.
fn zero_vec(n: usize) -> (r: Vec<u8>)
    ensures
        r@.len() == n,
        forall|i: int| 0 <= i < n ==> r@[i] == 0,
{
    let mut v: Vec<u8> = Vec::new();
    let mut k: usize = 0;
    while k < n
        invariant
            k <= n,
            v@.len() == k,
            forall|i: int| 0 <= i < k ==> v@[i] == 0,
        decreases n - k,
    {
        v.push(0);
        k = k + 1;
    }
    v
}

} // verus!
