//! The pixel pipeline: the mode state machine, background and object
//! rendering into a frame of shades, and the GPU's slice of the address map.

use vstd::prelude::*;
use crate::interrupts::{Interrupts, bit, lemma_with_bit, LCD_STAT_BIT, V_BLANK_BIT};
use crate::lcd_registers::{LCDC, STAT, Mode, mode_number};
use crate::memory::Ram;

verus! {

pub const SCREEN_WIDTH: u8 = 160;
pub const SCREEN_HEIGHT: u8 = 144;
pub const FRAME_PIXELS: usize = 23040;

pub const OAM_CYCLES: u32 = 80;
pub const VRAM_CYCLES: u32 = 172;
pub const HBLANK_CYCLES: u32 = 204;
pub const SCANLINE_CYCLES: u32 = 456;
/// 154 lines of 456 cycles.
pub const FRAME_CYCLES: u32 = 70224;

pub const VBLANK_START_LINE: u8 = 144;
pub const VBLANK_END_LINE: u8 = 153;

pub const VRAM_START_ADDRESS: u16 = 0x8000;
pub const VRAM_END_ADDRESS: u16 = 0x9FFF;
pub const OAM_START_ADDRESS: u16 = 0xFE00;
pub const OAM_END_ADDRESS: u16 = 0xFE9F;

pub const LCDC_ADDRESS: u16 = 0xFF40;
pub const STAT_ADDRESS: u16 = 0xFF41;
pub const SCY_ADDRESS: u16 = 0xFF42;
pub const SCX_ADDRESS: u16 = 0xFF43;
pub const LY_ADDRESS: u16 = 0xFF44;
pub const LYC_ADDRESS: u16 = 0xFF45;
pub const DMA_ADDRESS: u16 = 0xFF46;
pub const BGP_ADDRESS: u16 = 0xFF47;
pub const OBP0_ADDRESS: u16 = 0xFF48;
pub const OBP1_ADDRESS: u16 = 0xFF49;
pub const WY_ADDRESS: u16 = 0xFF4A;
pub const WX_ADDRESS: u16 = 0xFF4B;

/// Objects drawn on one line at most.
pub const MAX_LINE_OBJECTS: usize = 10;
pub const OAM_OBJECTS: u8 = 40;

/// The four displayable shades, lightest first.
#[derive(Clone, Copy, PartialEq, Eq, Structural, Debug)]
pub enum DmgColor {
    White,
    LightGrey,
    DarkGrey,
    Black,
}

pub open spec fn mode_duration(m: Mode) -> u32 {
    match m {
        Mode::ScanOam => OAM_CYCLES,
        Mode::ScanVram => VRAM_CYCLES,
        Mode::HBlank => HBLANK_CYCLES,
        Mode::VBlank => SCANLINE_CYCLES,
    }
}

pub open spec fn shade_of(s: u8) -> DmgColor {
    if s == 0 {
        DmgColor::White
    } else if s == 1 {
        DmgColor::LightGrey
    } else if s == 2 {
        DmgColor::DarkGrey
    } else {
        DmgColor::Black
    }
}

/// The shade that `palette` (two bits per color index) gives color index `ci`.
pub open spec fn palette_shade(palette: u8, ci: u8) -> DmgColor {
    let s = if ci == 0 {
        palette % 4
    } else if ci == 1 {
        (palette / 4) % 4
    } else if ci == 2 {
        (palette / 16) % 4
    } else {
        palette / 64
    };
    shade_of(s as u8)
}

/// Bit of `v` for pixel column `px` (column 0 is bit 7).
pub open spec fn pixel_bit(v: u8, px: u8) -> u8 {
    ((v / (128u8 >> px)) % 2) as u8
}

/// The 2-bit color index of column `px` of a tile line given by its two planes.
pub open spec fn color_index(lsb: u8, msb: u8, px: u8) -> u8 {
    (2 * pixel_bit(msb, px) + pixel_bit(lsb, px)) as u8
}

/// Address of background tile `index`'s data under LCDC's addressing mode.
pub open spec fn bg_tile_data_address(lcdc: LCDC, index: u8) -> int {
    if (lcdc.value / 16) % 2 == 1 {
        0x8000 + index * 16
    } else if index < 128 {
        0x9000 + index * 16
    } else {
        0x8800 + (index - 128) * 16
    }
}

pub open spec fn bg_map_base(lcdc: LCDC) -> int {
    if (lcdc.value / 8) % 2 == 1 {
        0x9C00
    } else {
        0x9800
    }
}

proof fn lemma_column_divisor(px: u8)
    requires
        px < 8,
    ensures
        (128u8 >> px) > 0,
{
    assert(px < 8 ==> (128u8 >> px) > 0) by (bit_vector);
}

pub struct Gpu {
    pub vram: Ram,
    pub oam: Ram,
    pub modeclock: u32,
    pub lcdc: LCDC,
    pub stat: STAT,
    pub scy: u8,
    pub scx: u8,
    pub ly: u8,
    pub lyc: u8,
    pub dma: u8,
    pub bgp: u8,
    pub obp0: u8,
    pub obp1: u8,
    pub wy: u8,
    pub wx: u8,
    /// OAM indices of the objects selected for the current line, in OAM order.
    pub selected_oam_objects: Vec<u8>,
    /// The picture, row by row, 160 shades per row.
    pub frame: Vec<DmgColor>,
    /// Set when a complete frame is ready to be presented.
    pub frame_ready: bool,
}

impl Gpu {
    /// Well-formed apart from the bound on `modeclock`.
    pub open spec fn wf_state(&self) -> bool {
        &&& self.vram@.len() == 0x2000
        &&& self.vram.address_offset == VRAM_START_ADDRESS
        &&& self.oam@.len() == 0xA0
        &&& self.oam.address_offset == OAM_START_ADDRESS
        &&& self.frame@.len() == FRAME_PIXELS
        &&& self.selected_oam_objects@.len() <= MAX_LINE_OBJECTS
        &&& forall|k: int|
            0 <= k < self.selected_oam_objects@.len() ==> #[trigger] self.selected_oam_objects@[k]
                < OAM_OBJECTS
        &&& self.ly <= VBLANK_END_LINE
        &&& (self.stat.mode_spec() == Mode::VBlank) == (self.ly >= VBLANK_START_LINE)
        &&& self.stat.coincidence_spec() == (self.ly == self.lyc)
    }

    pub open spec fn wf(&self) -> bool {
        &&& self.wf_state()
        &&& self.modeclock < mode_duration(self.stat.mode_spec())
    }

    /// Cycles since the start of the current frame.
    pub open spec fn frame_position(&self) -> int {
        let line = self.ly * SCANLINE_CYCLES;
        match self.stat.mode_spec() {
            Mode::ScanOam => line + self.modeclock,
            Mode::ScanVram => line + OAM_CYCLES + self.modeclock,
            Mode::HBlank => line + OAM_CYCLES + VRAM_CYCLES + self.modeclock,
            Mode::VBlank => line + self.modeclock,
        }
    }

    pub open spec fn vram_at(&self, address: int) -> u8 {
        self.vram@[address - 0x8000]
    }

    pub open spec fn oam_at(&self, i: int) -> u8 {
        self.oam@[i]
    }

    // ---- background ----
    pub open spec fn bg_x(&self, x: u8) -> u8 {
        ((x + self.scx) % 256) as u8
    }

    pub open spec fn bg_y(&self, y: u8) -> u8 {
        ((y + self.scy) % 256) as u8
    }

    pub open spec fn bg_tile_index(&self, x: u8, y: u8) -> u8 {
        self.vram_at(bg_map_base(self.lcdc) + (self.bg_y(y) / 8) * 32 + self.bg_x(x) / 8)
    }

    pub open spec fn bg_color_index(&self, x: u8, y: u8) -> u8 {
        let a = bg_tile_data_address(self.lcdc, self.bg_tile_index(x, y)) + (self.bg_y(y) % 8) * 2;
        color_index(self.vram_at(a), self.vram_at(a + 1), self.bg_x(x) % 8)
    }

    pub open spec fn bg_shade(&self, x: u8, y: u8) -> DmgColor {
        palette_shade(self.bgp, self.bg_color_index(x, y))
    }

    // ---- objects ----
    pub open spec fn obj_height(&self) -> int {
        if (self.lcdc.value / 4) % 2 == 1 {
            16
        } else {
            8
        }
    }

    /// Row of object `o` that screen line `y` crosses (in range iff covered).
    pub open spec fn obj_row(&self, o: int, y: int) -> int {
        y - (self.oam_at(4 * o) - 16)
    }

    /// Column of object `o` under screen column `x` (in range iff overlapped).
    pub open spec fn obj_column(&self, o: int, x: int) -> int {
        x - (self.oam_at(4 * o + 1) - 8)
    }

    pub open spec fn obj_on_line(&self, o: int, y: int) -> bool {
        0 <= self.obj_row(o, y) < self.obj_height()
    }

    pub open spec fn obj_covers(&self, o: int, x: int, y: int) -> bool {
        self.obj_on_line(o, y) && 0 <= self.obj_column(o, x) < 8
    }

    pub open spec fn obj_color_index(&self, o: int, x: int, y: int) -> u8 {
        let attrs = self.oam_at(4 * o + 3);
        let row = self.obj_row(o, y);
        let row2 = if (attrs / 64) % 2 == 1 { self.obj_height() - 1 - row } else { row };
        let col = self.obj_column(o, x);
        let col2 = if (attrs / 32) % 2 == 1 { 7 - col } else { col };
        let tile = self.oam_at(4 * o + 2);
        let t = if self.obj_height() == 16 { tile - tile % 2 } else { tile as int };
        let a = 0x8000 + t * 16 + row2 * 2;
        color_index(self.vram_at(a), self.vram_at(a + 1), col2 as u8)
    }

    pub open spec fn obj_shade(&self, o: int, x: int, y: int) -> DmgColor {
        let attrs = self.oam_at(4 * o + 3);
        let palette = if (attrs / 16) % 2 == 1 { self.obp1 } else { self.obp0 };
        palette_shade(palette, self.obj_color_index(o, x, y))
    }

    /// The objects among the first `n` OAM entries that cover line `y`, in OAM order.
    pub open spec fn objects_on_line(&self, y: int, n: int) -> Seq<u8>
        decreases n,
    {
        if n <= 0 {
            Seq::empty()
        } else {
            let s = self.objects_on_line(y, n - 1);
            if self.obj_on_line(n - 1, y) {
                s.push((n - 1) as u8)
            } else {
                s
            }
        }
    }

    /// The first ten (at most) objects that cover line `y`.
    pub open spec fn selected_spec(&self, y: int) -> Seq<u8> {
        first_ten(self.objects_on_line(y, OAM_OBJECTS as int))
    }

    /// Shade of object `o` at (x, y) when it covers that pixel with a color
    /// index other than 0.
    #[verifier::opaque]
    pub open spec fn object_pixel_spec(&self, o: int, x: int, y: int) -> Option<DmgColor> {
        if self.obj_covers(o, x, y) && self.obj_color_index(o, x, y) != 0 {
            Some(self.obj_shade(o, x, y))
        } else {
            None
        }
    }

    /// The first visible object pixel at (x, y) among the selected objects
    /// from position `k` on.
    pub open spec fn first_object_shade(&self, x: u8, y: u8, k: int) -> Option<DmgColor>
        decreases self.selected_oam_objects@.len() - k,
    {
        if k < 0 || k >= self.selected_oam_objects@.len() {
            None
        } else {
            match self.object_pixel_spec(self.selected_oam_objects@[k] as int, x as int, y as int) {
                Some(c) => Some(c),
                None => self.first_object_shade(x, y, k + 1),
            }
        }
    }

    /// The shade shown at screen (x, y).
    #[verifier::opaque]
    pub open spec fn pixel_spec(&self, x: u8, y: u8) -> DmgColor {
        if (self.lcdc.value / 2) % 2 == 1 {
            match self.first_object_shade(x, y, 0) {
                Some(c) => c,
                None => self.bg_shade(x, y),
            }
        } else {
            self.bg_shade(x, y)
        }
    }

    pub fn new() -> (r: Gpu)
        ensures
            r.wf(),
            r.ly == 0,
            r.modeclock == 0,
            r.stat.mode_spec() == Mode::HBlank,
            !r.frame_ready,
    {
        let vram = Ram::new(0x2000, VRAM_START_ADDRESS);
        let oam = Ram::new(0xA0, OAM_START_ADDRESS);
        let mut frame: Vec<DmgColor> = Vec::new();
        while frame.len() < FRAME_PIXELS
            invariant
                frame.len() <= FRAME_PIXELS,
            decreases FRAME_PIXELS - frame.len(),
        {
            frame.push(DmgColor::White);
        }
        let mut stat = STAT::new();
        stat.set_lyc_match(true);
        Gpu {
            vram,
            oam,
            modeclock: 0,
            lcdc: LCDC::new(),
            stat,
            scy: 0,
            scx: 0,
            ly: 0,
            lyc: 0,
            dma: 0,
            bgp: 0,
            obp0: 0,
            obp1: 0,
            wy: 0,
            wx: 0,
            selected_oam_objects: Vec::new(),
            frame,
            frame_ready: false,
        }
    }

    pub fn get_dma(&self) -> (r: u8)
        ensures
            r == self.dma,
    {
        self.dma
    }

    fn vram_byte(&self, address: u16) -> (r: u8)
        requires
            self.wf_state(),
            0x8000 <= address <= 0x9FFF,
        ensures
            r == self.vram_at(address as int),
    {
        self.vram.buffer[(address - 0x8000) as usize]
    }

    /// Shade of the background at screen (x, y).
    pub fn get_bg_color(&self, x: u8, y: u8) -> (r: DmgColor)
        requires
            self.wf_state(),
        ensures
            r == self.bg_shade(x, y),
    {
        let bg_x: u8 = ((x as u16 + self.scx as u16) % 256) as u8;
        let bg_y: u8 = ((y as u16 + self.scy as u16) % 256) as u8;
        let base: u16 = if self.lcdc.get_bg_area() { 0x9C00 } else { 0x9800 };
        let index = self.vram_byte(base + (bg_y / 8) as u16 * 32 + (bg_x / 8) as u16);
        let tile: u16 = if self.lcdc.get_bg_characters() {
            0x8000 + index as u16 * 16
        } else if index < 128 {
            0x9000 + index as u16 * 16
        } else {
            0x8800 + (index - 128) as u16 * 16
        };
        let a = tile + (bg_y % 8) as u16 * 2;
        let ci = line_color_index(self.vram_byte(a), self.vram_byte(a + 1), bg_x % 8);
        shade(self.bgp, ci)
    }

    fn object_height(&self) -> (r: u8)
        ensures
            r == self.obj_height(),
    {
        if self.lcdc.get_obj_size() {
            16
        } else {
            8
        }
    }

    fn oam_byte(&self, i: u8) -> (r: u8)
        requires
            self.wf_state(),
            i < 0xA0,
        ensures
            r == self.oam_at(i as int),
    {
        self.oam.buffer[i as usize]
    }

    /// Shade of object `o` at screen (x, y), if it covers that pixel with a
    /// color index other than 0.
    fn object_pixel(&self, o: u8, x: u8, y: u8) -> (r: Option<DmgColor>)
        requires
            self.wf_state(),
            o < OAM_OBJECTS,
        ensures
            r == self.object_pixel_spec(o as int, x as int, y as int),
    {
        reveal(Gpu::object_pixel_spec);
        let h = self.object_height();
        let oy = self.oam_byte(4 * o);
        let ox = self.oam_byte(4 * o + 1);
        let tile = self.oam_byte(4 * o + 2);
        let attrs = self.oam_byte(4 * o + 3);
        // row = y - (oy - 16), col = x - (ox - 8)
        if (y as u16) + 16 < oy as u16 || (y as u16) + 16 >= oy as u16 + h as u16 {
            return None;
        }
        if (x as u16) + 8 < ox as u16 || (x as u16) + 8 >= ox as u16 + 8 {
            return None;
        }
        let row: u8 = ((y as u16 + 16) - oy as u16) as u8;
        let col: u8 = ((x as u16 + 8) - ox as u16) as u8;
        let row2: u8 = if (attrs / 64) % 2 == 1 { h - 1 - row } else { row };
        let col2: u8 = if (attrs / 32) % 2 == 1 { 7 - col } else { col };
        let t: u16 = if h == 16 { (tile - tile % 2) as u16 } else { tile as u16 };
        let a: u16 = 0x8000 + t * 16 + row2 as u16 * 2;
        let ci = line_color_index(self.vram_byte(a), self.vram_byte(a + 1), col2);
        if ci == 0 {
            return None;
        }
        let palette = if (attrs / 16) % 2 == 1 { self.obp1 } else { self.obp0 };
        Some(shade(palette, ci))
    }

    /// The shade shown at screen (x, y): the first selected object with a
    /// visible pixel there, else the background.
    pub fn get_pixel_color(&self, x: u8, y: u8) -> (r: DmgColor)
        requires
            self.wf_state(),
        ensures
            r == self.pixel_spec(x, y),
    {
        let bg = self.get_bg_color(x, y);
        if !self.lcdc.get_obj_enable() {
            proof {
                reveal(Gpu::pixel_spec);
            }
            return bg;
        }
        let n = self.selected_oam_objects.len();
        let mut k: usize = 0;
        while k < n
            invariant
                self.wf_state(),
                n == self.selected_oam_objects@.len(),
                k <= n,
                self.first_object_shade(x, y, 0) == self.first_object_shade(x, y, k as int),
                (self.lcdc.value / 2) % 2 == 1,
                bg == self.bg_shade(x, y),
            decreases n - k,
        {
            let o = self.selected_oam_objects[k];
            let c = self.object_pixel(o, x, y);
            if let Some(shade) = c {
                assert(self.first_object_shade(x, y, k as int) == Some(shade));
                proof {
                    reveal(Gpu::pixel_spec);
                }
                return shade;
            }
            k = k + 1;
        }
        proof {
            reveal(Gpu::pixel_spec);
        }
        bg
    }

    /// Picks, in OAM order, the first ten objects that cover line LY.
    pub fn select_oam_objects(&mut self)
        requires
            old(self).wf_state(),
        ensures
            final(self).wf_state(),
            final(self).selected_oam_objects@ == old(self).selected_spec(old(self).ly as int),
            *final(self) == (Gpu { selected_oam_objects: final(self).selected_oam_objects, ..*old(self) }),
    {
        let mut sel: Vec<u8> = Vec::new();
        let h = self.object_height() as u16;
        let ly = self.ly as u16;
        let mut i: u8 = 0;
        while i < OAM_OBJECTS
            invariant
                self.wf_state(),
                *self == *old(self),
                i <= OAM_OBJECTS,
                h == self.obj_height(),
                ly == self.ly,
                sel@ == first_ten(self.objects_on_line(ly as int, i as int)),
                forall|k: int| 0 <= k < sel@.len() ==> #[trigger] sel@[k] < i,
            decreases OAM_OBJECTS - i,
        {
            let oy = self.oam_byte(4 * i) as u16;
            let covers = ly + 16 >= oy && ly + 16 < oy + h;
            let ghost before = self.objects_on_line(ly as int, i as int);
            if covers && sel.len() < MAX_LINE_OBJECTS {
                sel.push(i);
            }
            proof {
                let after = self.objects_on_line(ly as int, i + 1);
                if covers {
                    assert(after == before.push(i));
                    if before.len() >= 10 {
                        assert(first_ten(after) =~= first_ten(before));
                    } else {
                        assert(first_ten(after) =~= first_ten(before).push(i));
                    }
                } else {
                    assert(after == before);
                }
            }
            i = i + 1;
        }
        self.selected_oam_objects = sel;
    }

    /// Draws line LY into the frame (nothing when the LCD is off).
    pub fn render_line(&mut self)
        requires
            old(self).wf_state(),
            old(self).ly < SCREEN_HEIGHT,
        ensures
            final(self).wf_state(),
            *final(self) == (Gpu { frame: final(self).frame, ..*old(self) }),
            forall|i: int|
                0 <= i < FRAME_PIXELS ==> #[trigger] final(self).frame@[i] == if old(
                    self,
                ).lcdc.value / 128 == 1 && old(self).ly * 160 <= i < old(self).ly * 160 + 160 {
                    old(self).pixel_spec((i - old(self).ly * 160) as u8, old(self).ly)
                } else {
                    old(self).frame@[i]
                },
    {
        if !self.lcdc.get_lcd_enable() {
            return;
        }
        let y = self.ly;
        let mut line: Vec<DmgColor> = Vec::new();
        while line.len() < 160
            invariant
                self.wf_state(),
                *self == *old(self),
                y == self.ly,
                line.len() <= 160,
                forall|i: int| 0 <= i < line.len() ==> #[trigger] line@[i] == self.pixel_spec(i as u8, y),
            decreases 160 - line.len(),
        {
            let c = self.get_pixel_color(line.len() as u8, y);
            line.push(c);
        }
        let base: usize = y as usize * 160;
        let ghost g0 = *self;
        let mut x: usize = 0;
        while x < 160
            invariant
                self.wf_state(),
                *self == (Gpu { frame: self.frame, ..g0 }),
                g0 == *old(self),
                y == g0.ly,
                y < 144,
                base == y * 160,
                x <= 160,
                line.len() == 160,
                forall|i: int| 0 <= i < 160 ==> #[trigger] line@[i] == g0.pixel_spec(i as u8, y),
                forall|i: int|
                    0 <= i < FRAME_PIXELS ==> #[trigger] self.frame@[i] == if base <= i < base + x {
                        g0.pixel_spec((i - base) as u8, y)
                    } else {
                        g0.frame@[i]
                    },
            decreases 160 - x,
        {
            self.frame.set(base + x, line[x]);
            x = x + 1;
        }
    }

    /// Frame position at which the current mode began.
    pub open spec fn mode_start(&self) -> int {
        self.frame_position() - self.modeclock
    }

    /// Whether leaving the current mode sends LY from line 153 back to 0.
    pub open spec fn wraps(&self) -> bool {
        self.stat.mode_spec() == Mode::VBlank && self.ly == VBLANK_END_LINE
    }

    /// Whether leaving the current mode enters VBlank.
    pub open spec fn enters_vblank(&self) -> bool {
        self.stat.mode_spec() == Mode::HBlank && self.ly + 1 == VBLANK_START_LINE
    }

    /// Whether leaving the current mode raises the LCD STAT interrupt.
    pub open spec fn raises_stat(&self) -> bool {
        let sel = self.stat.value;
        match self.stat.mode_spec() {
            Mode::ScanOam => false,
            Mode::ScanVram => (sel / 8) % 2 == 1 || ((sel / 64) % 2 == 1 && self.ly == self.lyc),
            Mode::HBlank => if self.ly + 1 == VBLANK_START_LINE {
                (sel / 16) % 2 == 1
            } else {
                (sel / 32) % 2 == 1
            },
            Mode::VBlank => self.ly == VBLANK_END_LINE && (sel / 32) % 2 == 1,
        }
    }

    /// The registers that the mode machine never changes.
    pub open spec fn same_settings(&self, other: &Gpu) -> bool {
        &&& self.vram == other.vram
        &&& self.oam == other.oam
        &&& self.lcdc == other.lcdc
        &&& self.stat.value / 8 == other.stat.value / 8
        &&& self.scy == other.scy
        &&& self.scx == other.scx
        &&& self.lyc == other.lyc
        &&& self.dma == other.dma
        &&& self.bgp == other.bgp
        &&& self.obp0 == other.obp0
        &&& self.obp1 == other.obp1
        &&& self.wy == other.wy
        &&& self.wx == other.wx
    }

    /// Sets LY and keeps the coincidence bit of STAT in step with it.
    fn set_ly(&mut self, value: u8)
        ensures
            *final(self) == (Gpu { ly: value, stat: final(self).stat, ..*old(self) }),
            final(self).stat.coincidence_spec() == (value == old(self).lyc),
            final(self).stat.value % 4 == old(self).stat.value % 4,
            final(self).stat.value / 8 == old(self).stat.value / 8,
    {
        self.ly = value;
        let m = self.ly == self.lyc;
        self.stat.set_lyc_match(m);
    }

    /// Leaves the current mode once its duration has elapsed.
    #[verifier::rlimit(100)]
    fn advance_mode(&mut self, interrupts: &mut Interrupts)
        requires
            old(self).wf_state(),
            old(self).modeclock >= mode_duration(old(self).stat.mode_spec()),
            old(self).modeclock < 1000,
        ensures
            final(self).wf_state(),
            final(self).same_settings(old(self)),
            final(self).modeclock == old(self).modeclock - mode_duration(old(self).stat.mode_spec()),
            final(self).frame_position() == old(self).frame_position() - if old(self).wraps() {
                FRAME_CYCLES as int
            } else {
                0
            },
            final(self).frame_ready == (old(self).frame_ready || old(self).enters_vblank()),
            final(self).selected_oam_objects@ == if old(self).stat.mode_spec() == Mode::ScanOam {
                old(self).selected_spec(old(self).ly as int)
            } else {
                old(self).selected_oam_objects@
            },
            final(self).stat.mode_spec() == Mode::ScanVram ==> final(self).ly == old(self).ly,
            final(self).stat.mode_spec() == Mode::HBlank ==> final(self).ly == old(self).ly,
            forall|i: int|
                0 <= i < FRAME_PIXELS ==> #[trigger] final(self).frame@[i] == if old(
                    self,
                ).stat.mode_spec() == Mode::HBlank && old(self).lcdc.value / 128 == 1 && old(
                    self,
                ).ly * 160 <= i < old(self).ly * 160 + 160 {
                    old(self).pixel_spec((i - old(self).ly * 160) as u8, old(self).ly)
                } else {
                    old(self).frame@[i]
                },
            final(interrupts).enable_register == old(interrupts).enable_register,
            final(interrupts).master == old(interrupts).master,
            bit(final(interrupts).request_register, V_BLANK_BIT) == (bit(
                old(interrupts).request_register,
                V_BLANK_BIT,
            ) || old(self).enters_vblank()),
            bit(final(interrupts).request_register, LCD_STAT_BIT) == (bit(
                old(interrupts).request_register,
                LCD_STAT_BIT,
            ) || old(self).raises_stat()),
            forall|j: u8|
                2 <= j < 8 ==> bit(final(interrupts).request_register, j) == bit(
                    old(interrupts).request_register,
                    j,
                ),
    {
        let ghost req0 = interrupts.request_register;
        let mode = self.stat.get_mode();
        let mut raise_stat = false;
        let mut raise_vblank = false;
        match mode {
            Mode::ScanOam => {
                self.select_oam_objects();
                self.modeclock = self.modeclock - OAM_CYCLES;
                self.stat.set_mode(Mode::ScanVram);
            },
            Mode::ScanVram => {
                self.modeclock = self.modeclock - VRAM_CYCLES;
                raise_stat = self.stat.get_mode_hblank_interrupt() || (
                self.stat.get_lyc_coincidence_interrupt() && self.ly == self.lyc);
                self.stat.set_mode(Mode::HBlank);
            },
            Mode::HBlank => {
                self.render_line();
                self.modeclock = self.modeclock - HBLANK_CYCLES;
                let next = self.ly + 1;
                if next == VBLANK_START_LINE {
                    raise_stat = self.stat.get_mode_vblank_interrupt();
                    raise_vblank = true;
                    self.set_ly(next);
                    self.stat.set_mode(Mode::VBlank);
                    self.frame_ready = true;
                } else {
                    raise_stat = self.stat.get_mode_oam_interrupt();
                    self.set_ly(next);
                    self.stat.set_mode(Mode::ScanOam);
                }
            },
            Mode::VBlank => {
                self.modeclock = self.modeclock - SCANLINE_CYCLES;
                if self.ly == VBLANK_END_LINE {
                    raise_stat = self.stat.get_mode_oam_interrupt();
                    self.set_ly(0);
                    self.stat.set_mode(Mode::ScanOam);
                } else {
                    let next = self.ly + 1;
                    self.set_ly(next);
                }
            },
        }
        if raise_vblank {
            interrupts.set_v_blank_request(true);
        }
        if raise_stat {
            interrupts.set_lcd_stat_request(true);
        }
        proof {
            let req1 = interrupts.request_register;
            assert forall|j: u8| j < 8 implies bit(req1, j) == (bit(req0, j) || (raise_vblank && j
                == V_BLANK_BIT) || (raise_stat && j == LCD_STAT_BIT)) by {
                if raise_vblank {
                    lemma_with_bit(req0, V_BLANK_BIT, true, j);
                    if raise_stat {
                        lemma_with_bit(
                            crate::interrupts::with_bit(req0, V_BLANK_BIT, true),
                            LCD_STAT_BIT,
                            true,
                            j,
                        );
                    }
                } else if raise_stat {
                    lemma_with_bit(req0, LCD_STAT_BIT, true, j);
                }
            }
            assert(bit(req1, V_BLANK_BIT) == (bit(req0, V_BLANK_BIT) || raise_vblank));
            assert(bit(req1, LCD_STAT_BIT) == (bit(req0, LCD_STAT_BIT) || raise_stat));
        }
    }

    /// Advances the mode machine by `cycles` CPU cycles. The frame position
    /// moves forward by exactly `cycles` modulo a frame; the VBlank interrupt
    /// is requested, and the frame marked ready, exactly when the position
    /// passes the start of line 144.
    pub fn next(&mut self, cycles: u8, interrupts: &mut Interrupts)
        requires
            old(self).wf(),
        ensures
            final(self).wf(),
            final(self).same_settings(old(self)),
            final(self).frame_position() == (old(self).frame_position() + cycles) % (
            FRAME_CYCLES as int),
            final(self).frame_ready == (old(self).frame_ready || crosses_vblank(
                old(self).frame_position(),
                cycles,
            )),
            forall|i: int|
                0 <= i < FRAME_PIXELS ==> #[trigger] final(self).frame@[i] == if old(
                    self,
                ).lcdc.value / 128 == 1 && renders_row(old(self).frame_position(), cycles, i / 160) {
                    old(self).pixel_spec((i % 160) as u8, (i / 160) as u8)
                } else {
                    old(self).frame@[i]
                },
            final(interrupts).enable_register == old(interrupts).enable_register,
            final(interrupts).master == old(interrupts).master,
            bit(final(interrupts).request_register, V_BLANK_BIT) == (bit(
                old(interrupts).request_register,
                V_BLANK_BIT,
            ) || crosses_vblank(old(self).frame_position(), cycles)),
            bit(old(interrupts).request_register, LCD_STAT_BIT) ==> bit(
                final(interrupts).request_register,
                LCD_STAT_BIT,
            ),
            forall|j: u8|
                2 <= j < 8 ==> bit(final(interrupts).request_register, j) == bit(
                    old(interrupts).request_register,
                    j,
                ),
    {
        proof {
            self.lemma_position_bounds();
        }
        let ghost pos0 = self.frame_position();
        let ghost u = pos0 + cycles;
        let ghost g0 = *self;
        let ghost ready0 = self.frame_ready;
        let ghost req0 = interrupts.request_register;
        let ghost mut wrapped = false;
        let ghost mut crossed = false;
        let ghost mut moved = false;
        let ghost mut scanned = false;
        self.modeclock = self.modeclock + cycles as u32;
        loop
            invariant
                g0.wf(),
                g0.mode_start() <= pos0 < g0.mode_start() + mode_duration(g0.stat.mode_spec()),
                !moved ==> self.mode_start() == g0.mode_start() && !wrapped && !scanned,
                moved ==> self.mode_start() + (if wrapped { FRAME_CYCLES as int } else { 0 }) > pos0,
                wrapped ==> pos0 >= 65664,
                !scanned ==> self.selected_oam_objects@ == g0.selected_oam_objects@,
                scanned ==> self.ly * 456 + 456 + (if wrapped { FRAME_CYCLES as int } else { 0 }) > u,
                self.frame@.len() == FRAME_PIXELS,
                forall|i: int|
                    0 <= i < FRAME_PIXELS ==> #[trigger] self.frame@[i] == if g0.lcdc.value / 128 == 1
                        && row_done(pos0, self.mode_start() + (if wrapped {
                        FRAME_CYCLES as int
                    } else {
                        0
                    }), i / 160) {
                        g0.pixel_spec((i % 160) as u8, (i / 160) as u8)
                    } else {
                        g0.frame@[i]
                    },
                self.wf_state(),
                self.same_settings(&g0),
                self.modeclock < 1000,
                pos0 < FRAME_CYCLES,
                u == pos0 + cycles,
                self.frame_position() + (if wrapped { FRAME_CYCLES as int } else { 0 }) == u,
                crossed == (pos0 < 65664 && self.mode_start() + (if wrapped {
                    FRAME_CYCLES as int
                } else {
                    0
                }) >= 65664),
                !wrapped && pos0 >= 65664 ==> self.stat.mode_spec() == Mode::VBlank,
                wrapped ==> self.mode_start() + FRAME_CYCLES >= FRAME_CYCLES,
                self.frame_ready == (ready0 || crossed),
                interrupts.enable_register == old(interrupts).enable_register,
                interrupts.master == old(interrupts).master,
                bit(interrupts.request_register, V_BLANK_BIT) == (bit(req0, V_BLANK_BIT) || crossed),
                bit(req0, LCD_STAT_BIT) ==> bit(interrupts.request_register, LCD_STAT_BIT),
                forall|j: u8|
                    2 <= j < 8 ==> bit(interrupts.request_register, j) == bit(req0, j),
            ensures
                self.modeclock < mode_duration(self.stat.mode_spec()),
            decreases self.modeclock,
        {
            let mode = self.stat.get_mode();
            let d: u32 = match mode {
                Mode::ScanOam => OAM_CYCLES,
                Mode::ScanVram => VRAM_CYCLES,
                Mode::HBlank => HBLANK_CYCLES,
                Mode::VBlank => SCANLINE_CYCLES,
            };
            if self.modeclock < d {
                break;
            }
            proof {
                self.lemma_position_bounds();
            }
            let ghost before = *self;
            let ghost w0: int = if wrapped { FRAME_CYCLES as int } else { 0 };
            proof {
                if before.stat.mode_spec() == Mode::HBlank {
                    assert(!scanned);
                    assert(!wrapped);
                    assert forall|x: u8| #[trigger] before.pixel_spec(x, before.ly) == g0.pixel_spec(x, before.ly) by {
                        lemma_pixel_congruent(&before, &g0, x, before.ly);
                    }
                }
            }
            self.advance_mode(interrupts);
            proof {
                self.lemma_position_bounds();
                if before.wraps() {
                    wrapped = true;
                }
                if before.enters_vblank() {
                    crossed = true;
                }
                if before.stat.mode_spec() == Mode::ScanOam {
                    scanned = true;
                }
                moved = true;
                let w1: int = if wrapped { FRAME_CYCLES as int } else { 0 };
                assert(self.mode_start() + w1 == before.mode_start() + w0 + mode_duration(before.stat.mode_spec()));
                assert forall|i: int| 0 <= i < FRAME_PIXELS implies #[trigger] self.frame@[i] == if g0.lcdc.value / 128 == 1
                    && row_done(pos0, self.mode_start() + w1, i / 160) {
                    g0.pixel_spec((i % 160) as u8, (i / 160) as u8)
                } else {
                    g0.frame@[i]
                } by {
                    let y = i / 160;
                    if before.stat.mode_spec() == Mode::HBlank {
                        assert(self.mode_start() + w1 == before.ly * 456 + 456);
                        if before.ly * 160 <= i < before.ly * 160 + 160 {
                            assert(y == before.ly);
                            assert(i - before.ly * 160 == i % 160);
                        } else {
                            assert(y != before.ly);
                        }
                    } else {
                        assert(row_done(pos0, self.mode_start() + w1, y) == row_done(pos0, before.mode_start() + w0, y));
                    }
                }
            }
        }
        proof {
            self.lemma_position_bounds();
            let w: int = if wrapped { FRAME_CYCLES as int } else { 0 };
            assert forall|y: int| #[trigger] row_done(pos0, self.mode_start() + w, y) == renders_row(pos0, cycles, y) by {
            }
        }
    }

    proof fn lemma_position_bounds(&self)
        requires
            self.wf_state(),
        ensures
            0 <= self.mode_start(),
            self.stat.mode_spec() != Mode::VBlank ==> self.mode_start() + mode_duration(
                self.stat.mode_spec(),
            ) <= 65664,
            self.stat.mode_spec() == Mode::VBlank ==> self.mode_start() >= 65664
                && self.mode_start() + mode_duration(self.stat.mode_spec()) <= FRAME_CYCLES,
            self.enters_vblank() ==> self.mode_start() + mode_duration(self.stat.mode_spec())
                == 65664,
            self.wraps() ==> self.mode_start() + mode_duration(self.stat.mode_spec())
                == FRAME_CYCLES,
            self.stat.mode_spec() == Mode::ScanOam ==> self.mode_start() == self.ly * 456,
            self.stat.mode_spec() == Mode::ScanVram ==> self.mode_start() == self.ly * 456 + 80,
            self.stat.mode_spec() == Mode::HBlank ==> self.mode_start() == self.ly * 456 + 252,
            self.stat.mode_spec() == Mode::VBlank ==> self.mode_start() == self.ly * 456,
    {
    }

    /// What a read of `address` returns: VRAM, OAM or one of the registers
    /// FF40..FF4B.
    pub open spec fn read_spec(&self, address: u16) -> u8 {
        if VRAM_START_ADDRESS <= address <= VRAM_END_ADDRESS {
            self.vram@[address - VRAM_START_ADDRESS]
        } else if OAM_START_ADDRESS <= address <= OAM_END_ADDRESS {
            self.oam@[address - OAM_START_ADDRESS]
        } else if address == LCDC_ADDRESS {
            self.lcdc.value
        } else if address == STAT_ADDRESS {
            self.stat.value
        } else if address == SCY_ADDRESS {
            self.scy
        } else if address == SCX_ADDRESS {
            self.scx
        } else if address == LY_ADDRESS {
            self.ly
        } else if address == LYC_ADDRESS {
            self.lyc
        } else if address == DMA_ADDRESS {
            self.dma
        } else if address == BGP_ADDRESS {
            self.bgp
        } else if address == OBP0_ADDRESS {
            self.obp0
        } else if address == OBP1_ADDRESS {
            self.obp1
        } else if address == WY_ADDRESS {
            self.wy
        } else if address == WX_ADDRESS {
            self.wx
        } else {
            0xFF
        }
    }

    /// Whether `new` is `old` after software wrote `value` to `address`. LY
    /// is read-only; STAT takes only its selector bits; a write to LYC
    /// refreshes the coincidence bit.
    pub open spec fn written(old: &Gpu, new: &Gpu, address: u16, value: u8) -> bool {
        if VRAM_START_ADDRESS <= address <= VRAM_END_ADDRESS {
            &&& *new == (Gpu { vram: new.vram, ..*old })
            &&& new.vram@ == old.vram@.update(address - VRAM_START_ADDRESS, value)
            &&& new.vram.address_offset == old.vram.address_offset
        } else if OAM_START_ADDRESS <= address <= OAM_END_ADDRESS {
            &&& *new == (Gpu { oam: new.oam, ..*old })
            &&& new.oam@ == old.oam@.update(address - OAM_START_ADDRESS, value)
            &&& new.oam.address_offset == old.oam.address_offset
        } else if address == LCDC_ADDRESS {
            *new == (Gpu { lcdc: LCDC { value }, ..*old })
        } else if address == STAT_ADDRESS {
            &&& *new == (Gpu { stat: new.stat, ..*old })
            &&& new.stat.value == ((value / 8) % 16) * 8 + old.stat.value % 8
        } else if address == SCY_ADDRESS {
            *new == (Gpu { scy: value, ..*old })
        } else if address == SCX_ADDRESS {
            *new == (Gpu { scx: value, ..*old })
        } else if address == LYC_ADDRESS {
            &&& *new == (Gpu { lyc: value, stat: new.stat, ..*old })
            &&& new.stat.coincidence_spec() == (old.ly == value)
            &&& new.stat.value % 4 == old.stat.value % 4
            &&& new.stat.value / 8 == old.stat.value / 8
        } else if address == DMA_ADDRESS {
            *new == (Gpu { dma: value, ..*old })
        } else if address == BGP_ADDRESS {
            *new == (Gpu { bgp: value, ..*old })
        } else if address == OBP0_ADDRESS {
            *new == (Gpu { obp0: value, ..*old })
        } else if address == OBP1_ADDRESS {
            *new == (Gpu { obp1: value, ..*old })
        } else if address == WY_ADDRESS {
            *new == (Gpu { wy: value, ..*old })
        } else if address == WX_ADDRESS {
            *new == (Gpu { wx: value, ..*old })
        } else {
            *new == *old
        }
    }

    pub fn fetch8(&self, address: u16) -> (r: u8)
        requires
            self.wf(),
        ensures
            r == self.read_spec(address),
    {
        if VRAM_START_ADDRESS <= address && address <= VRAM_END_ADDRESS {
            self.vram.fetch8(address)
        } else if OAM_START_ADDRESS <= address && address <= OAM_END_ADDRESS {
            self.oam.fetch8(address)
        } else if address == LCDC_ADDRESS {
            self.lcdc.value
        } else if address == STAT_ADDRESS {
            self.stat.value
        } else if address == SCY_ADDRESS {
            self.scy
        } else if address == SCX_ADDRESS {
            self.scx
        } else if address == LY_ADDRESS {
            self.ly
        } else if address == LYC_ADDRESS {
            self.lyc
        } else if address == DMA_ADDRESS {
            self.dma
        } else if address == BGP_ADDRESS {
            self.bgp
        } else if address == OBP0_ADDRESS {
            self.obp0
        } else if address == OBP1_ADDRESS {
            self.obp1
        } else if address == WY_ADDRESS {
            self.wy
        } else if address == WX_ADDRESS {
            self.wx
        } else {
            0xFF
        }
    }

    pub fn write8(&mut self, address: u16, value: u8)
        requires
            old(self).wf(),
        ensures
            final(self).wf(),
            Gpu::written(old(self), final(self), address, value),
    {
        if VRAM_START_ADDRESS <= address && address <= VRAM_END_ADDRESS {
            self.vram.write8(address, value);
        } else if OAM_START_ADDRESS <= address && address <= OAM_END_ADDRESS {
            self.oam.write8(address, value);
        } else if address == LCDC_ADDRESS {
            self.lcdc = LCDC { value };
        } else if address == STAT_ADDRESS {
            self.stat.write8(value);
        } else if address == SCY_ADDRESS {
            self.scy = value;
        } else if address == SCX_ADDRESS {
            self.scx = value;
        } else if address == LYC_ADDRESS {
            self.lyc = value;
            let m = self.ly == value;
            self.stat.set_lyc_match(m);
        } else if address == DMA_ADDRESS {
            self.dma = value;
        } else if address == BGP_ADDRESS {
            self.bgp = value;
        } else if address == OBP0_ADDRESS {
            self.obp0 = value;
        } else if address == OBP1_ADDRESS {
            self.obp1 = value;
        } else if address == WY_ADDRESS {
            self.wy = value;
        } else if address == WX_ADDRESS {
            self.wx = value;
        }
    }

    /// Takes the frame-ready signal: true once after each completed frame.
    pub fn take_frame_ready(&mut self) -> (r: bool)
        ensures
            r == old(self).frame_ready,
            *final(self) == (Gpu { frame_ready: false, ..*old(self) }),
    {
        let r = self.frame_ready;
        self.frame_ready = false;
        r
    }
}

fn shade(palette: u8, ci: u8) -> (r: DmgColor)
    ensures
        r == palette_shade(palette, ci),
{
    let s = if ci == 0 {
        palette % 4
    } else if ci == 1 {
        (palette / 4) % 4
    } else if ci == 2 {
        (palette / 16) % 4
    } else {
        palette / 64
    };
    if s == 0 {
        DmgColor::White
    } else if s == 1 {
        DmgColor::LightGrey
    } else if s == 2 {
        DmgColor::DarkGrey
    } else {
        DmgColor::Black
    }
}

fn line_color_index(lsb: u8, msb: u8, px: u8) -> (r: u8)
    requires
        px < 8,
    ensures
        r == color_index(lsb, msb, px),
        r < 4,
{
    proof {
        lemma_column_divisor(px);
    }
    let d: u8 = 128u8 >> px;
    2 * ((msb / d) % 2) + (lsb / d) % 2
}

/// Whether line `y` finished its HBlank (and so was drawn) after frame
/// position `from` and no later than `to`.
pub open spec fn row_done(from: int, to: int, y: int) -> bool {
    0 <= y < 144 && from < y * 456 + 456 <= to
}

/// Whether advancing `cycles` from frame position `position` draws line `y`.
pub open spec fn renders_row(position: int, cycles: u8, y: int) -> bool {
    row_done(position, position + cycles, y)
}

/// Whether advancing `cycles` from frame position `position` passes the
/// start of VBlank (line 144).
pub open spec fn crosses_vblank(position: int, cycles: u8) -> bool {
    position < 65664 <= position + cycles
}

pub open spec fn first_ten(s: Seq<u8>) -> Seq<u8> {
    if s.len() > 10 {
        s.take(10)
    } else {
        s
    }
}

} // verus!

verus! {

/// Frame position after a run of ticks of the given cycle counts.
pub open spec fn position_after(position: int, ticks: Seq<u8>) -> int
    decreases ticks.len(),
{
    if ticks.len() == 0 {
        position
    } else {
        position_after((position + ticks[0]) % (FRAME_CYCLES as int), ticks.drop_first())
    }
}

pub open spec fn total_cycles(ticks: Seq<u8>) -> int
    decreases ticks.len(),
{
    if ticks.len() == 0 {
        0
    } else {
        ticks[0] + total_cycles(ticks.drop_first())
    }
}

/// A frame lasts exactly 70224 cycles: whatever the split of a run of ticks,
/// the frame position moves by their total modulo 70224, so ticks totalling
/// 70224 cycles bring the GPU back to the same point of the frame.
pub proof fn lemma_frame_length(position: int, ticks: Seq<u8>)
    requires
        0 <= position < FRAME_CYCLES,
    ensures
        position_after(position, ticks) == (position + total_cycles(ticks)) % (FRAME_CYCLES as int),
        total_cycles(ticks) == FRAME_CYCLES ==> position_after(position, ticks) == position,
    decreases ticks.len(),
{
    if ticks.len() > 0 {
        let p1 = (position + ticks[0]) % (FRAME_CYCLES as int);
        lemma_frame_length(p1, ticks.drop_first());
        let rest = total_cycles(ticks.drop_first());
        assert(rest >= 0) by {
            lemma_total_nonneg(ticks.drop_first());
        }
        vstd::arithmetic::div_mod::lemma_add_mod_noop(position + ticks[0], rest, FRAME_CYCLES as int);
        vstd::arithmetic::div_mod::lemma_add_mod_noop(p1, rest, FRAME_CYCLES as int);
        vstd::arithmetic::div_mod::lemma_mod_twice(position + ticks[0], FRAME_CYCLES as int);
    }
}

proof fn lemma_total_nonneg(ticks: Seq<u8>)
    ensures
        total_cycles(ticks) >= 0,
    decreases ticks.len(),
{
    if ticks.len() > 0 {
        lemma_total_nonneg(ticks.drop_first());
    }
}

/// STAT's low three bits always show the current mode and whether LY equals
/// LYC, on every well-formed state (which every operation preserves).
pub proof fn lemma_stat_reflects_state(g: &Gpu)
    requires
        g.wf(),
    ensures
        g.stat.value % 4 == mode_number(g.stat.mode_spec()),
        ((g.stat.value / 4) % 2 == 1) == (g.ly == g.lyc),
{
}

} // verus!

verus! {

/// Software sets STAT's selector bits 6..3 and cannot touch the mode and
/// coincidence bits 2..0.
pub proof fn lemma_stat_selectors_writable(g: &Gpu, g2: &Gpu, value: u8)
    requires
        Gpu::written(g, g2, STAT_ADDRESS, value),
    ensures
        g2.stat.selectors() == (value / 8) % 16,
        g2.stat.value % 8 == g.stat.value % 8,
{
}

} // verus!

verus! {

proof fn lemma_first_object_congruent(g1: &Gpu, g2: &Gpu, x: u8, y: u8, k: int)
    requires
        g1.same_settings(g2),
        g1.selected_oam_objects@ == g2.selected_oam_objects@,
    ensures
        g1.first_object_shade(x, y, k) == g2.first_object_shade(x, y, k),
    decreases g1.selected_oam_objects@.len() - k,
{
    reveal(Gpu::object_pixel_spec);
    if 0 <= k < g1.selected_oam_objects@.len() {
        lemma_first_object_congruent(g1, g2, x, y, k + 1);
    }
}

/// The shade at a pixel depends only on video memory, OAM, the control,
/// scroll and palette registers, and the selected objects.
proof fn lemma_pixel_congruent(g1: &Gpu, g2: &Gpu, x: u8, y: u8)
    requires
        g1.same_settings(g2),
        g1.selected_oam_objects@ == g2.selected_oam_objects@,
    ensures
        g1.pixel_spec(x, y) == g2.pixel_spec(x, y),
{
    reveal(Gpu::pixel_spec);
    lemma_first_object_congruent(g1, g2, x, y, 0);
}

} // verus!

verus! {

/// `k` ticks of 4 cycles each.
pub open spec fn fours(k: nat) -> Seq<u8> {
    Seq::new(k, |i: int| 4u8)
}

proof fn lemma_total_of_fours(k: nat)
    ensures
        total_cycles(fours(k)) == 4 * k,
    decreases k,
{
    if k > 0 {
        let s = fours(k);
        assert(s.drop_first() =~= fours((k - 1) as nat));
        lemma_total_of_fours((k - 1) as nat);
    }
}

/// Ticking by 4 cycles at a time, the GPU first comes back to the same
/// point of the frame after exactly 17556 ticks (70224 cycles).
pub proof fn lemma_frame_in_four_cycle_ticks(position: int)
    requires
        0 <= position < FRAME_CYCLES,
    ensures
        position_after(position, fours(17556)) == position,
        forall|k: nat|
            0 < k < 17556 ==> position_after(position, #[trigger] fours(k))
                != position,
{
    lemma_total_of_fours(17556);
    lemma_frame_length(position, fours(17556));
    vstd::arithmetic::div_mod::lemma_mod_add_multiples_vanish(position, FRAME_CYCLES as int);
    vstd::arithmetic::div_mod::lemma_small_mod(position as nat, FRAME_CYCLES as nat);
    assert forall|k: nat|
        0 < k < 17556 implies position_after(position, #[trigger] fours(k))
        != position by {
        lemma_total_of_fours(k);
        lemma_frame_length(position, fours(k));
        let v = position + 4 * k;
        if v < FRAME_CYCLES {
            vstd::arithmetic::div_mod::lemma_small_mod(v as nat, FRAME_CYCLES as nat);
        } else {
            vstd::arithmetic::div_mod::lemma_mod_sub_multiples_vanish(v, FRAME_CYCLES as int);
            vstd::arithmetic::div_mod::lemma_small_mod((v - FRAME_CYCLES) as nat, FRAME_CYCLES as nat);
        }
    }
}

} // verus!
