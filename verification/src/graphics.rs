//! The LCD controller's register surface and video RAM, with the two
//! interrupt predicates that the bus samples, and the decoding of tiles.

use vstd::prelude::*;

verus! {

/// Width of a frame, in pixels.
pub const WIDTH: u32 = 166;

/// Height of a frame, in pixels.
pub const HEIGHT: u32 = 144;

/// One frame: `HEIGHT` lines of `WIDTH` shades.
pub type Frame = [[u8; 166]; 144];

/// One tile as it lies in video RAM: eight lines of two bit planes.
pub type Tile = [u8; 16];

/// One tile as eight lines of eight shades, each in `0..4`.
pub type TileColorMap = [[u8; 8]; 8];

/// First address of video RAM on the bus.
pub const VRAM_BASE: u16 = 0x8000;

/// Last address of video RAM on the bus.
pub const VRAM_LAST: u16 = 0x9FFF;

/// The shade of pixel `px` (0 is the leftmost) of a line whose bit planes are
/// `p1` (low bit) and `p2` (high bit).
pub open spec fn pixel_color(p1: u8, p2: u8, px: u8) -> u8 {
    let sh = (7 - px) as u8;
    (((p2 & (1u8 << sh)) >> sh) << 1u8) | ((p1 & (1u8 << sh)) >> sh)
}

/// Splits a tile into its eight lines, each a pair of bit planes.
pub fn tile_rows(tile: Tile) -> (rows: [[u8; 2]; 8])
    ensures
        forall|i: int| 0 <= i < 8 ==> (#[trigger] rows@[i])@ =~= seq![tile@[2 * i], tile@[2 * i + 1]],
{
    let mut rows: [[u8; 2]; 8] = [[0u8;2];8];
    let mut i: usize = 0;
    while i < 8
        invariant
            i <= 8,
            forall|k: int| 0 <= k < i ==> (#[trigger] rows@[k])@ =~= seq![tile@[2 * k], tile@[2 * k + 1]],
        decreases 8 - i,
    {
        let row: [u8; 2] = [tile[2 * i], tile[2 * i + 1]];
        rows[i] = row;
        i += 1;
    }
    rows
}

/// Decodes a tile into the shade of each of its pixels.
pub fn tile_color_map(tile: Tile) -> (map: TileColorMap)
    ensures
        forall|line: int, px: int|
            0 <= line < 8 && 0 <= px < 8 ==> (#[trigger] map@[line]@[px]) == pixel_color(
                tile@[2 * line],
                tile@[2 * line + 1],
                px as u8,
            ),
{
    let mut map: [[u8; 8]; 8] = [[0u8;8];8];
    let rows = tile_rows(tile);
    let mut line: usize = 0;
    while line < 8
        invariant
            line <= 8,
            forall|i: int| 0 <= i < 8 ==> (#[trigger] rows@[i])@ =~= seq![tile@[2 * i], tile@[2 * i + 1]],
            forall|l: int, px: int|
                0 <= l < line && 0 <= px < 8 ==> (#[trigger] map@[l]@[px]) == pixel_color(
                    tile@[2 * l],
                    tile@[2 * l + 1],
                    px as u8,
                ),
        decreases 8 - line,
    {
        let pair: [u8; 2] = rows[line];
        let p1: u8 = pair[0];
        let p2: u8 = pair[1];
        assert(rows@[line as int]@ =~= seq![tile@[2 * line], tile@[2 * line + 1]]);
        assert(p1 == tile@[2 * line] && p2 == tile@[2 * line + 1]);
        let mut row: [u8; 8] = [0u8;8];
        let mut px: u8 = 0;
        while px < 8
            invariant
                px <= 8,
                forall|k: int| 0 <= k < px ==> (#[trigger] row@[k]) == pixel_color(p1, p2, k as u8),
            decreases 8 - px,
        {
            let sh: u8 = 7 - px;
            let b1: u8 = (p1 & (1u8 << sh)) >> sh;
            let b2: u8 = (p2 & (1u8 << sh)) >> sh;
            row[px as usize] = (b2 << 1u8) | b1;
            px += 1;
        }
        map[line] = row;
        line += 1;
    }
    map
}

/// The LCD controller: video RAM and the registers that the bus shows.
pub struct Gpu {
    pub vram: [u8; 8192],
    /// LCD control.
    pub lcdc: u8,
    /// Current line.
    pub ly: u8,
    /// Line to compare with.
    pub lyc: u8,
    /// LCD status.
    pub stat: u8,
    /// Vertical scroll.
    pub scy: u8,
    /// Horizontal scroll.
    pub scx: u8,
    /// Vertical position of the window.
    pub wy: u8,
    /// Horizontal position of the window.
    pub wx: u8,
    /// Palette of the background.
    pub bgp: u8,
    /// First palette of the objects.
    pub obp0: u8,
    /// Second palette of the objects.
    pub obp1: u8,
}

/// The LCD controller as a value: video RAM as a sequence of 8192 bytes, and
/// the registers.
pub struct GpuState {
    pub vram: Seq<u8>,
    pub lcdc: u8,
    pub ly: u8,
    pub lyc: u8,
    pub stat: u8,
    pub scy: u8,
    pub scx: u8,
    pub wy: u8,
    pub wx: u8,
    pub bgp: u8,
    pub obp0: u8,
    pub obp1: u8,
}

impl View for Gpu {
    type V = GpuState;

    open spec fn view(&self) -> GpuState {
        GpuState {
            vram: self.vram@,
            lcdc: self.lcdc,
            ly: self.ly,
            lyc: self.lyc,
            stat: self.stat,
            scy: self.scy,
            scx: self.scx,
            wy: self.wy,
            wx: self.wx,
            bgp: self.bgp,
            obp0: self.obp0,
            obp1: self.obp1,
        }
    }
}

impl GpuState {
    /// Video RAM holds 8192 bytes.
    pub open spec fn wf(self) -> bool {
        self.vram.len() == 8192
    }

    /// The controller after reset: video RAM cleared, LCDC 0x91, STAT 0x85,
    /// BGP 0xFC, every other register 0.
    pub open spec fn reset() -> GpuState {
        GpuState {
            vram: Seq::new(8192, |i: int| 0u8),
            lcdc: 0x91,
            ly: 0,
            lyc: 0,
            stat: 0x85,
            scy: 0,
            scx: 0,
            wy: 0,
            wx: 0,
            bgp: 0xFC,
            obp0: 0,
            obp1: 0,
        }
    }

    /// The byte of video RAM at bus address `addr`.
    pub open spec fn vram_at(self, addr: u16) -> u8
        recommends
            VRAM_BASE <= addr <= VRAM_LAST,
    {
        self.vram[addr - VRAM_BASE]
    }

    /// The state after `val` was stored at bus address `addr` of video RAM.
    pub open spec fn with_vram(self, addr: u16, val: u8) -> GpuState
        recommends
            VRAM_BASE <= addr <= VRAM_LAST,
    {
        GpuState { vram: self.vram.update(addr - VRAM_BASE, val), ..self }
    }

    /// The mode that STAT reports, in `0..4`.
    pub open spec fn mode(self) -> u8 {
        self.stat & 0b11
    }

    /// The controller is in vertical blank.
    pub open spec fn vblank(self) -> bool {
        self.mode() == 1
    }

    /// One of the four sources that STAT selects (bits 3 to 6) is active: the
    /// line compare with the coincidence bit set, or mode 2, 1 or 0.
    pub open spec fn stat_line(self) -> bool {
        ||| (self.stat & 0x40 > 0 && self.stat & 0x04 > 0)
        ||| (self.stat & 0x20 > 0 && self.mode() == 2)
        ||| (self.stat & 0x10 > 0 && self.mode() == 1)
        ||| (self.stat & 0x08 > 0 && self.mode() == 0)
    }

    /// The sixteen bytes of the tile that starts at bus address `start`.
    pub open spec fn tile_at(self, start: int) -> Seq<u8> {
        Seq::new(16, |i: int| self.vram[start - VRAM_BASE + i])
    }

    /// Where the tile `id` of the objects starts.
    pub open spec fn object_tile_addr(id: u8) -> int {
        0x8000 + 16 * id
    }

    /// Where the tile `id` of the background and window starts: counted from
    /// 0x8000 when LCDC bit 4 is set, else from 0x9000.
    pub open spec fn bg_win_tile_addr(self, id: u8) -> int {
        if self.lcdc & 0x10 > 0 {
            0x8000 + 16 * id
        } else {
            0x9000 + 16 * id
        }
    }
}

impl Gpu {
    /// The controller after reset.
    pub fn new() -> (r: Self)
        ensures
            r@ == GpuState::reset(),
    {
        let r = Gpu {
            vram: [0u8;8192],
            lcdc: 0x91,
            ly: 0,
            lyc: 0,
            stat: 0x85,
            scy: 0,
            scx: 0,
            wy: 0,
            wx: 0,
            bgp: 0xFC,
            obp0: 0,
            obp1: 0,
        };
        assert(r@.vram =~= GpuState::reset().vram);
        r
    }

    /// Reads video RAM at a bus address.
    pub fn read_vram(&self, addr: u16) -> (r: u8)
        requires
            VRAM_BASE <= addr <= VRAM_LAST,
        ensures
            r == self@.vram_at(addr),
    {
        self.vram[(addr - VRAM_BASE) as usize]
    }

    /// Writes video RAM at a bus address.
    pub fn write_vram(&mut self, addr: u16, val: u8)
        requires
            VRAM_BASE <= addr <= VRAM_LAST,
        ensures
            final(self)@ == old(self)@.with_vram(addr, val),
    {
        self.vram[(addr - VRAM_BASE) as usize] = val;
    }

    /// LCDC bit 7: the display is on.
    pub fn lcd_enabled(&self) -> (r: bool)
        ensures
            r == (self.lcdc & 0x80 > 0),
    {
        self.lcdc & 0x80 > 0
    }

    /// LCDC bit 6: where the window's tile map starts.
    pub fn win_tile_map_area(&self) -> (r: u16)
        ensures
            r == if self.lcdc & 0x40 == 0 { 0x9800u16 } else { 0x9C00u16 },
    {
        if self.lcdc & 0x40 == 0 {
            0x9800
        } else {
            0x9C00
        }
    }

    /// LCDC bit 5: the window is shown.
    pub fn win_enabled(&self) -> (r: bool)
        ensures
            r == (self.lcdc & 0x20 > 0),
    {
        self.lcdc & 0x20 > 0
    }

    /// LCDC bit 4: tiles of the background and window are counted from
    /// 0x8000; when clear, from 0x9000.
    pub fn bg_win_addr_mode(&self) -> (r: bool)
        ensures
            r == (self.lcdc & 0x10 > 0),
    {
        self.lcdc & 0x10 > 0
    }

    /// LCDC bit 3: where the background's tile map starts.
    pub fn bg_tile_map_area(&self) -> (r: u16)
        ensures
            r == if self.lcdc & 0x08 == 0 { 0x9800u16 } else { 0x9C00u16 },
    {
        if self.lcdc & 0x08 == 0 {
            0x9800
        } else {
            0x9C00
        }
    }

    /// LCDC bit 2: the number of pixels of an object, 8 by 8 or 8 by 16.
    pub fn obj_size(&self) -> (r: u32)
        ensures
            r == if self.lcdc & 0x04 == 0 { 64u32 } else { 128u32 },
    {
        if self.lcdc & 0x04 == 0 {
            64
        } else {
            128
        }
    }

    /// LCDC bit 1: objects are shown.
    pub fn obj_enabled(&self) -> (r: bool)
        ensures
            r == (self.lcdc & 0x02 > 0),
    {
        self.lcdc & 0x02 > 0
    }

    /// LCDC bit 0: background and window are shown.
    pub fn bg_win_enabled(&self) -> (r: bool)
        ensures
            r == (self.lcdc & 0x01 > 0),
    {
        self.lcdc & 0x01 > 0
    }

    /// The mode that STAT reports.
    pub fn ppu_mode(&self) -> (r: u8)
        ensures
            r == self@.mode(),
    {
        self.stat & 0b11
    }

    /// Masks STAT with the two mode bits of `n`.
    pub fn set_ppu_mode(&mut self, n: u8)
        ensures
            final(self)@ == (GpuState { stat: old(self).stat & (n & 0b11), ..old(self)@ }),
    {
        self.stat = self.stat & (n & 0b11);
    }

    /// Whether the vertical blank interrupt is to be requested.
    pub fn should_vblank_interrupt(&self) -> (r: bool)
        ensures
            r == self@.vblank(),
    {
        self.ppu_mode() == 1
    }

    /// Whether the LCD status interrupt is to be requested.
    pub fn should_stat_interrupt(&self) -> (r: bool)
        ensures
            r == self@.stat_line(),
    {
        (self.stat & 0x40 > 0 && self.stat & 0x04 > 0) || (self.stat & 0x20 > 0 && self.ppu_mode()
            == 2) || (self.stat & 0x10 > 0 && self.ppu_mode() == 1) || (self.stat & 0x08 > 0
            && self.ppu_mode() == 0)
    }

    /// Copies sixteen bytes of video RAM, from bus address `start` on.
    fn tile_from(&self, start: u16) -> (tile: Tile)
        requires
            VRAM_BASE <= start,
            start + 15 <= VRAM_LAST,
        ensures
            tile@ =~= self@.tile_at(start as int),
    {
        let mut tile: Tile = [0u8;16];
        let mut i: u16 = 0;
        while i < 16
            invariant
                i <= 16,
                VRAM_BASE <= start,
                start + 15 <= VRAM_LAST,
                forall|k: int| 0 <= k < i ==> #[trigger] tile@[k] == self@.vram[start - VRAM_BASE + k],
            decreases 16 - i,
        {
            tile[i as usize] = self.read_vram(start + i);
            i += 1;
        }
        tile
    }

    /// The tile `id` of the objects.
    pub fn object_tile(&self, id: u8) -> (tile: Tile)
        ensures
            tile@ =~= self@.tile_at(GpuState::object_tile_addr(id)),
    {
        let start: u16 = 0x8000 + 16 * (id as u16);
        self.tile_from(start)
    }

    /// The tile `id` of the background and window.
    pub fn bg_win_tile(&self, id: u8) -> (tile: Tile)
        requires
            self.lcdc & 0x10 > 0 || id <= 127,
        ensures
            tile@ =~= self@.tile_at(self@.bg_win_tile_addr(id)),
    {
        let start: u16 = if self.bg_win_addr_mode() {
            0x8000 + 16 * (id as u16)
        } else {
            0x9000 + 16 * (id as u16)
        };
        self.tile_from(start)
    }

    /// Runs through the 154 lines of one frame and hands out the frame, which
    /// is blank: LY ends at 154 and STAT keeps of its bits only bit 1.
    pub fn draw_frame(&mut self) -> (frame: Frame)
        ensures
            final(self)@ == (GpuState { ly: 154, stat: old(self).stat & 2, ..old(self)@ }),
            forall|y: int, x: int|
                0 <= y < 144 && 0 <= x < 166 ==> (#[trigger] frame@[y]@[x]) == 0,
    {
        let frame: Frame = [[0u8;166];144];
        let ghost s0 = self.stat;
        assert((s0 & (2u8 & 0b11)) == s0 & 2 && ((s0 & 2) & (2u8 & 0b11)) == s0 & 2)
            by (bit_vector);
        self.ly = 0;
        while self.ly <= 153
            invariant
                self.ly <= 154,
                self.stat == s0 || self.stat == s0 & 2,
                self.ly > 0 ==> self.stat == s0 & 2,
                (s0 & (2u8 & 0b11)) == s0 & 2,
                ((s0 & 2) & (2u8 & 0b11)) == s0 & 2,
                self@ == (GpuState { ly: self.ly, stat: self.stat, ..old(self)@ }),
            decreases 154 - self.ly,
        {
            self.set_ppu_mode(2);
            self.ly += 1;
        }
        frame
    }
}

} // verus!
