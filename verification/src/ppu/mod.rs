//! The pixel-processing unit: a mode machine driven by T-cycles, which draws
//! one line of the screen each time it leaves pixel transfer.
//!
//! | Period                 | Mode | T-cycles        |
//! |------------------------|------|-----------------|
//! | OAM search             | 2    | 80              |
//! | pixel transfer         | 3    | 172             |
//! | horizontal blank       | 0    | 204             |
//! | one line               |      | 456             |
//! | vertical blank         | 1    | 4560 (10 lines) |
//! | one frame              |      | 70224           |

pub mod colour;
pub mod laws;
pub mod lcdc;
pub mod oam;
pub mod palette;
pub mod screen;
pub mod status;

use crate::mmu::ram::RAM;
use crate::util::{get_nth_bit, nth_bit, Addr};
use colour::Colour;
use lcdc::{TileMap, LCDC};
use oam::{scan, ObjPaletteType, Sprite, OAM};
use palette::{BgWinPalette, ObjPalette};
use screen::Screen;
use status::{PpuMode, Status};
use vstd::prelude::*;

verus! {

pub const VRAM_START: u16 = 0x8000;

pub const VRAM_SIZE: usize = 0x2000;

pub const REG_LCDC: u16 = 0xff40;

pub const REG_STAT: u16 = 0xff41;

pub const REG_SCROLL_Y: u16 = 0xff42;

pub const REG_SCROLL_X: u16 = 0xff43;

pub const REG_CURR_SCANLINE: u16 = 0xff44;

pub const REG_BG_PALETTE: u16 = 0xff47;

pub const REG_OBJ_PALETTE_0: u16 = 0xff48;

pub const REG_OBJ_PALETTE_1: u16 = 0xff49;

pub const REG_WIN_Y: u16 = 0xff4a;

pub const REG_WIN_X: u16 = 0xff4b;

/// The colour index of the pixel in column `col` of a tile row whose two
/// bytes stand at `off` in video RAM: the low bit-plane first, the leftmost
/// pixel in bit 7.
pub open spec fn tile_row_pixel(vram: Seq<u8>, off: int, col: int) -> u8 {
    ((if nth_bit(vram[off + 1], (7 - col) as u8) {
        2int
    } else {
        0
    }) + (if nth_bit(vram[off], (7 - col) as u8) {
        1int
    } else {
        0
    })) as u8
}

/// The state of the PPU.
pub struct PpuView {
    /// The T-cycles spent in the present mode (in the present line, during
    /// the vertical blank).
    pub ticks: u64,
    /// The frame buffer, row after row.
    pub screen: Seq<Colour>,
    pub lcdc: LCDC,
    pub status: Status,
    pub scx: u8,
    pub scy: u8,
    /// `LY`, the line being drawn.
    pub curr_scanline: u8,
    pub wy: u8,
    pub wx: u8,
    pub bgp: BgWinPalette,
    pub obp0: ObjPalette,
    pub obp1: ObjPalette,
    /// A vertical-blank interrupt is requested: bit 0 of `IF`.
    pub vblank_interrupt: bool,
    /// The number of lines of this frame on which the window was drawn.
    pub window_line: u8,
    pub vram: Seq<u8>,
    pub oam: Seq<u8>,
}

impl PpuView {
    /// The memories have their sizes, `LY` is below 154, the mode is the
    /// vertical blank exactly from line 144 on, the present mode has not
    /// used up its T-cycles, and the background palette and the frame buffer
    /// hold shades only.
    pub open spec fn wf(self) -> bool {
        &&& self.vram.len() == 0x2000
        &&& self.oam.len() == 0xa0
        &&& self.screen.len() == 160 * 144
        &&& self.curr_scanline < 154
        &&& (self.status.mode == PpuMode::VBlank <==> self.curr_scanline >= 144)
        &&& self.ticks < self.status.mode.budget()
        &&& self.bgp.shades()
        &&& forall|i: int| 0 <= i < self.screen.len() ==> (#[trigger] self.screen[i]).is_shade()
    }

    /// The PPU when the machine is switched on: at the start of a frame,
    /// with every register zero, the memories zero and the screen white.
    pub open spec fn power_on() -> PpuView {
        PpuView {
            ticks: 0,
            screen: Seq::new(160 * 144, |i: int| Colour::White),
            lcdc: LCDC::unpack(0),
            status: Status {
                lyc_int: false,
                oam_int: false,
                vblank_int: false,
                hblank_int: false,
                lyc_equal: false,
                mode: PpuMode::OAMSearch,
            },
            scx: 0,
            scy: 0,
            curr_scanline: 0,
            wy: 0,
            wx: 0,
            bgp: BgWinPalette::unpack(0),
            obp0: ObjPalette::unpack(0),
            obp1: ObjPalette::unpack(0),
            vblank_interrupt: false,
            window_line: 0,
            vram: Seq::new(0x2000, |i: int| 0u8),
            oam: Seq::new(0xa0, |i: int| 0u8),
        }
    }

    /// The T-cycles of the present frame that have gone by.
    pub open spec fn position(self) -> int {
        self.curr_scanline * 456 + self.status.mode.start() + self.ticks
    }

    /// The tile index that a tile map holds for the pixel `(px, py)` of its
    /// 256 x 256 plane.
    pub open spec fn tile_index(self, map: TileMap, px: u8, py: u8) -> u8 {
        self.vram[map.base() - 0x8000 + (py / 8) * 32 + px / 8]
    }

    /// The colour index of the pixel `(px, py)` of the plane of a tile map.
    pub open spec fn layer_index(self, map: TileMap, px: u8, py: u8) -> u8 {
        tile_row_pixel(
            self.vram,
            self.lcdc.bg_window_tile_data.tile_addr(self.tile_index(map, px, py)) - 0x8000 + 2 * (py % 8),
            (px % 8) as int,
        )
    }

    /// Whether the window covers column `x` of the present line.
    pub open spec fn window_covers(self, x: u8) -> bool {
        self.lcdc.window_enable && self.curr_scanline >= self.wy && x + 7 >= self.wx
    }

    /// The colour index of background and window in column `x`: zero when
    /// they are switched off; else that of the window where it covers the
    /// column, and that of the scrolled background elsewhere.
    pub open spec fn bg_index(self, x: u8) -> u8 {
        if !self.lcdc.bg_window_enable {
            0
        } else if self.window_covers(x) {
            self.layer_index(self.lcdc.window_tile_map, (x + 7 - self.wx) as u8, self.window_line)
        } else {
            self.layer_index(
                self.lcdc.bg_tile_map,
                ((x + self.scx) % 256) as u8,
                ((self.curr_scanline + self.scy) % 256) as u8,
            )
        }
    }

    /// The shade of background and window in column `x`: white when they are
    /// switched off.
    pub open spec fn bg_colour(self, x: u8) -> Colour {
        if self.lcdc.bg_window_enable {
            self.bgp.lookup(self.bg_index(x))
        } else {
            Colour::White
        }
    }

    /// The objects drawn on the present line.
    pub open spec fn selected(self) -> Seq<Sprite> {
        scan(self.oam, self.curr_scanline, self.lcdc.object_size.lines(), 40)
    }

    /// The colour index that an object has in column `x` of the present line;
    /// zero where the object is not. In 8x16 mode bit 0 of the tile index is
    /// taken as zero.
    pub open spec fn sprite_index(self, s: Sprite, x: u8) -> u8 {
        let h = self.lcdc.object_size.lines();
        if s.on_line(self.curr_scanline, h) && s.on_column(x) {
            let col = x + 8 - s.x_pos;
            let c = if s.attr.x_flip {
                7 - col
            } else {
                col
            };
            let row0 = self.curr_scanline + 16 - s.y_pos;
            let row = if s.attr.y_flip {
                h - 1 - row0
            } else {
                row0
            };
            let tile = if h == 16 {
                s.ti - s.ti % 2
            } else {
                s.ti as int
            };
            tile_row_pixel(self.vram, 16 * tile + 2 * row, c)
        } else {
            0
        }
    }

    /// The object in front in column `x` among the first `k` of a row of
    /// objects: of those that are not transparent there, the one with the
    /// lowest `x_pos`, and of several such the first in the row.
    pub open spec fn front(self, sel: Seq<Sprite>, x: u8, k: nat) -> Option<Sprite>
        decreases k,
    {
        if k == 0 {
            None
        } else {
            let before = self.front(sel, x, (k - 1) as nat);
            let s = sel[k - 1];
            if self.sprite_index(s, x) != 0 && (before is None || s.x_pos < before->0.x_pos) {
                Some(s)
            } else {
                before
            }
        }
    }

    /// The palette of an object.
    pub open spec fn obj_palette(self, s: Sprite) -> ObjPalette {
        match s.attr.palette {
            ObjPaletteType::OBP0 => self.obp0,
            ObjPaletteType::OBP1 => self.obp1,
        }
    }

    /// The colour that the objects give to column `x`: transparency when
    /// objects are switched off, when none is there, or when the one in
    /// front yields to a background pixel of non-zero colour index.
    pub open spec fn sprite_layer(self, x: u8) -> Colour {
        if !self.lcdc.object_enable {
            Colour::Transparent
        } else {
            match self.front(self.selected(), x, self.selected().len()) {
                None => Colour::Transparent,
                Some(s) => if s.attr.bg_win_over_obj && self.bg_index(x) != 0 {
                    Colour::Transparent
                } else {
                    self.obj_palette(s).lookup(self.sprite_index(s, x))
                },
            }
        }
    }

    /// The colour of column `x` of the present line: the objects over the
    /// background.
    pub open spec fn pixel(self, x: u8) -> Colour {
        self.sprite_layer(x).over(self.bg_colour(x))
    }

    /// Whether the window is drawn on the present line.
    pub open spec fn window_shown(self) -> bool {
        self.lcdc.window_enable && self.curr_scanline >= self.wy && self.wx <= 166
    }

    /// The PPU after it has drawn the present line into the frame buffer.
    pub open spec fn rendered(self) -> PpuView {
        let first = self.curr_scanline * 160;
        PpuView {
            screen: Seq::new(
                self.screen.len(),
                |i: int|
                    if first <= i < first + 160 {
                        self.pixel((i - first) as u8)
                    } else {
                        self.screen[i]
                    },
            ),
            window_line: if self.window_shown() {
                ((self.window_line + 1) % 256) as u8
            } else {
                self.window_line
            },
            ..self
        }
    }

    /// The PPU with another mode.
    pub open spec fn in_mode(self, mode: PpuMode) -> PpuView {
        PpuView { status: Status { mode, ..self.status }, ..self }
    }

    /// The PPU as it leaves its present mode. From OAM search it goes to
    /// pixel transfer; from there to the horizontal blank, drawing the line;
    /// from there to the next line, which begins with OAM search or, at
    /// line 144, with the vertical blank, whose interrupt is then requested.
    /// The vertical blank counts ten lines and then begins a new frame.
    pub open spec fn pass(self) -> PpuView {
        let p = PpuView { ticks: 0, ..self };
        match self.status.mode {
            PpuMode::OAMSearch => p.in_mode(PpuMode::PixelTransfer),
            PpuMode::PixelTransfer => p.rendered().in_mode(PpuMode::HBlank),
            PpuMode::HBlank => {
                let q = PpuView { curr_scanline: (self.curr_scanline + 1) as u8, ..p };
                if self.curr_scanline + 1 < 144 {
                    q.in_mode(PpuMode::OAMSearch)
                } else {
                    (PpuView { vblank_interrupt: true, ..q }).in_mode(PpuMode::VBlank)
                }
            },
            PpuMode::VBlank => {
                if self.curr_scanline + 1 < 154 {
                    PpuView { curr_scanline: (self.curr_scanline + 1) as u8, ..p }
                } else {
                    (PpuView { curr_scanline: 0, window_line: 0, ..p }).in_mode(PpuMode::OAMSearch)
                }
            },
        }
    }

    /// The T-cycles that the present mode has left.
    pub open spec fn room(self) -> int {
        self.status.mode.budget() - self.ticks
    }

    /// The PPU `n` T-cycles later.
    pub open spec fn advance(self, n: nat) -> PpuView
        decreases n,
    {
        if n < self.room() || self.room() <= 0 {
            PpuView { ticks: (self.ticks + n) as u64, ..self }
        } else {
            self.pass().advance((n - self.room()) as nat)
        }
    }

    /// What the bus reads from a register of the PPU, 0xff40 to 0xff4b.
    /// `LYC` and `DMA` are not kept: they read 0xff, as any other address.
    pub open spec fn read_register(self, addr: u16) -> u8 {
        if addr == REG_LCDC {
            self.lcdc.pack()
        } else if addr == REG_STAT {
            self.status.pack()
        } else if addr == REG_SCROLL_Y {
            self.scy
        } else if addr == REG_SCROLL_X {
            self.scx
        } else if addr == REG_CURR_SCANLINE {
            self.curr_scanline
        } else if addr == REG_BG_PALETTE {
            self.bgp.pack()
        } else if addr == REG_OBJ_PALETTE_0 {
            self.obp0.pack()
        } else if addr == REG_OBJ_PALETTE_1 {
            self.obp1.pack()
        } else if addr == REG_WIN_Y {
            self.wy
        } else if addr == REG_WIN_X {
            self.wx
        } else {
            0xff
        }
    }

    /// The PPU after the bus has written to one of its registers. `LY` is
    /// read-only, and so is the mode in `STAT`.
    pub open spec fn write_register(self, addr: u16, value: u8) -> PpuView {
        if addr == REG_LCDC {
            PpuView { lcdc: LCDC::unpack(value), ..self }
        } else if addr == REG_STAT {
            PpuView { status: Status { mode: self.status.mode, ..Status::unpack(value) }, ..self }
        } else if addr == REG_SCROLL_Y {
            PpuView { scy: value, ..self }
        } else if addr == REG_SCROLL_X {
            PpuView { scx: value, ..self }
        } else if addr == REG_BG_PALETTE {
            PpuView { bgp: BgWinPalette::unpack(value), ..self }
        } else if addr == REG_OBJ_PALETTE_0 {
            PpuView { obp0: ObjPalette::unpack(value), ..self }
        } else if addr == REG_OBJ_PALETTE_1 {
            PpuView { obp1: ObjPalette::unpack(value), ..self }
        } else if addr == REG_WIN_Y {
            PpuView { wy: value, ..self }
        } else if addr == REG_WIN_X {
            PpuView { wx: value, ..self }
        } else {
            self
        }
    }
}

/// The registers and counters of the PPU.
#[derive(Clone, Copy, Debug, PartialEq, Eq, Structural)]
pub struct PpuRegs {
    pub ticks: u64,
    pub lcdc: LCDC,
    pub status: Status,
    pub scx: u8,
    pub scy: u8,
    pub curr_scanline: u8,
    pub wy: u8,
    pub wx: u8,
    pub bgp: BgWinPalette,
    pub obp0: ObjPalette,
    pub obp1: ObjPalette,
    pub vblank_interrupt: bool,
    pub window_line: u8,
}

/// The PPU.
#[derive(Debug)]
pub struct PPU {
    regs: PpuRegs,
    screen: Screen,
    vram: RAM,
    oam: OAM,
}

impl View for PPU {
    type V = PpuView;

    closed spec fn view(&self) -> PpuView {
        PpuView {
            ticks: self.regs.ticks,
            screen: self.screen@,
            lcdc: self.regs.lcdc,
            status: self.regs.status,
            scx: self.regs.scx,
            scy: self.regs.scy,
            curr_scanline: self.regs.curr_scanline,
            wy: self.regs.wy,
            wx: self.regs.wx,
            bgp: self.regs.bgp,
            obp0: self.regs.obp0,
            obp1: self.regs.obp1,
            vblank_interrupt: self.regs.vblank_interrupt,
            window_line: self.regs.window_line,
            vram: self.vram@,
            oam: self.oam@,
        }
    }
}

impl PPU {
    /// The state is well-formed and the memories are mapped where the bus
    /// expects them.
    pub closed spec fn wf(&self) -> bool {
        &&& self@.wf()
        &&& self.vram.wf()
        &&& self.vram.base() == VRAM_START
        &&& self.oam.wf()
        &&& self.screen.wf()
    }

    /// The state of a well-formed PPU is well-formed.
    pub proof fn lemma_wf(&self)
        requires
            self.wf(),
        ensures
            self@.wf(),
    {
    }

    /// A PPU as it is when the machine is switched on.
    pub fn new() -> (r: PPU)
        ensures
            r.wf(),
            r@ == PpuView::power_on(),
    {
        PPU {
            regs: PpuRegs {
                ticks: 0,
                lcdc: LCDC::from(0),
                status: Status {
                    lyc_int: false,
                    oam_int: false,
                    vblank_int: false,
                    hblank_int: false,
                    lyc_equal: false,
                    mode: PpuMode::OAMSearch,
                },
                scx: 0,
                scy: 0,
                curr_scanline: 0,
                wy: 0,
                wx: 0,
                bgp: BgWinPalette::from(0),
                obp0: ObjPalette::from(0),
                obp1: ObjPalette::from(0),
                vblank_interrupt: false,
                window_line: 0,
            },
            screen: Screen::new(),
            vram: RAM::new(VRAM_SIZE, VRAM_START),
            oam: OAM::new(),
        }
    }

    /// Runs the PPU for `cpu_ticks` T-cycles.
    pub fn tick(&mut self, cpu_ticks: u64)
        requires
            old(self).wf(),
        ensures
            final(self)@ == old(self)@.advance(cpu_ticks as nat),
            final(self).wf(),
    {
        let mut left: u64 = cpu_ticks;
        loop
            invariant
                self.wf(),
                self@.advance(left as nat) == old(self)@.advance(cpu_ticks as nat),
            decreases left,
        {
            let room = self.regs.status.mode.ticks() - self.regs.ticks;
            if left < room {
                let regs = self.regs;
                self.regs = PpuRegs { ticks: regs.ticks + left, ..regs };
                return ;
            }
            left = left - room;
            self.next_mode();
        }
    }

    /// Leaves the present mode for the next one.
    pub fn next_mode(&mut self)
        requires
            old(self).wf(),
        ensures
            final(self)@ == old(self)@.pass(),
            final(self).wf(),
    {
        match self.regs.status.mode {
            PpuMode::OAMSearch => self.leave_oam_search(),
            PpuMode::PixelTransfer => self.leave_pixel_transfer(),
            PpuMode::HBlank => self.leave_hblank(),
            PpuMode::VBlank => self.leave_vblank(),
        }
    }

    fn leave_oam_search(&mut self)
        requires
            old(self).wf(),
            old(self)@.status.mode == PpuMode::OAMSearch,
        ensures
            final(self)@ == old(self)@.pass(),
            final(self).wf(),
    {
        let regs = self.regs;
        self.regs = PpuRegs { ticks: 0, status: Status { mode: PpuMode::PixelTransfer, ..regs.status }, ..regs };
    }

    fn leave_pixel_transfer(&mut self)
        requires
            old(self).wf(),
            old(self)@.status.mode == PpuMode::PixelTransfer,
        ensures
            final(self)@ == old(self)@.pass(),
            final(self).wf(),
    {
        let regs = self.regs;
        self.regs = PpuRegs { ticks: 0, ..regs };
        self.renderscan();
        let regs = self.regs;
        self.regs = PpuRegs { status: Status { mode: PpuMode::HBlank, ..regs.status }, ..regs };
    }

    fn leave_hblank(&mut self)
        requires
            old(self).wf(),
            old(self)@.status.mode == PpuMode::HBlank,
        ensures
            final(self)@ == old(self)@.pass(),
            final(self).wf(),
    {
        let regs = self.regs;
        let line = regs.curr_scanline + 1;
        if line < 144 {
            self.regs = PpuRegs {
                ticks: 0,
                curr_scanline: line,
                status: Status { mode: PpuMode::OAMSearch, ..regs.status },
                ..regs
            };
        } else {
            self.regs = PpuRegs {
                ticks: 0,
                curr_scanline: line,
                vblank_interrupt: true,
                status: Status { mode: PpuMode::VBlank, ..regs.status },
                ..regs
            };
        }
    }

    fn leave_vblank(&mut self)
        requires
            old(self).wf(),
            old(self)@.status.mode == PpuMode::VBlank,
        ensures
            final(self)@ == old(self)@.pass(),
            final(self).wf(),
    {
        let regs = self.regs;
        if regs.curr_scanline < 153 {
            self.regs = PpuRegs { ticks: 0, curr_scanline: regs.curr_scanline + 1, ..regs };
        } else {
            self.regs = PpuRegs {
                ticks: 0,
                curr_scanline: 0,
                window_line: 0,
                status: Status { mode: PpuMode::OAMSearch, ..regs.status },
                ..regs
            };
        }
    }

    /// Replaces the whole object attribute memory.
    pub fn dma(&mut self, src: &Vec<u8>)
        requires
            old(self).wf(),
            src@.len() == 0xa0,
        ensures
            final(self)@ == (PpuView { oam: src@, ..old(self)@ }),
            final(self).wf(),
    {
        self.oam.fill(src);
    }

    /// Draws the present line into the frame buffer.
    pub fn renderscan(&mut self)
        requires
            old(self).wf(),
            old(self)@.curr_scanline < 144,
        ensures
            final(self)@ == old(self)@.rendered(),
            final(self).wf(),
    {
        let py = self.get_curr_scanline();
        let sprites = self.oam.row(py, self.regs.lcdc.object_size);
        let mut row: Vec<Colour> = Vec::new();
        let mut x: u8 = 0;
        while x < 160
            invariant
                self.wf(),
                *self == *old(self),
                x <= 160,
                row@.len() == x,
                sprites@ == self@.selected(),
                forall|k: int| 0 <= k < x ==> row@[k] == self@.pixel(k as u8),
                forall|k: int| 0 <= k < x ==> (#[trigger] row@[k]).is_shade(),
            decreases 160 - x,
        {
            let c = self.get_pixel(&sprites, x);
            row.push(c);
            x = x + 1;
        }
        let shown = self.regs.lcdc.window_enable && py >= self.regs.wy && self.regs.wx <= 166;
        self.update_row(py, &row);
        if shown {
            let regs = self.regs;
            self.regs = PpuRegs { window_line: regs.window_line.wrapping_add(1), ..regs };
        }
        assert(self@.screen =~= old(self)@.rendered().screen);
    }

    /// The colour of column `x` of the present line, given the objects drawn
    /// on that line.
    pub fn get_pixel(&self, sprites: &Vec<Sprite>, x: u8) -> (r: Colour)
        requires
            self.wf(),
            x < 160,
            sprites@ == self@.selected(),
        ensures
            r == self@.pixel(x),
            r.is_shade(),
    {
        let index = self.get_bg_index(x);
        let bg = if self.regs.lcdc.bg_window_enable {
            self.regs.bgp.map(index).unwrap()
        } else {
            Colour::White
        };
        let obj = if self.regs.lcdc.object_enable {
            self.get_sprite_tile_data(sprites, x, index)
        } else {
            Colour::Transparent
        };
        obj.bitor(bg)
    }

    /// The colour that a row of objects gives to column `x`, where the
    /// background has colour index `bg_index`.
    pub fn get_sprite_tile_data(&self, sprites: &Vec<Sprite>, x: u8, bg_index: u8) -> (r: Colour)
        requires
            self.wf(),
        ensures
            r == (match self@.front(sprites@, x, sprites@.len()) {
                None => Colour::Transparent,
                Some(s) => if s.attr.bg_win_over_obj && bg_index != 0 {
                    Colour::Transparent
                } else {
                    self@.obj_palette(s).lookup(self@.sprite_index(s, x))
                },
            }),
    {
        match self.front_sprite(sprites, x) {
            None => Colour::Transparent,
            Some(s) => {
                if s.attr.bg_win_over_obj && bg_index != 0 {
                    Colour::Transparent
                } else {
                    let index = self.get_sprite_pixel(&s, x);
                    self.get_obj_palette(&s).map(index).unwrap()
                }
            },
        }
    }

    /// The object in front in column `x` among a row of objects.
    pub fn front_sprite(&self, sprites: &Vec<Sprite>, x: u8) -> (r: Option<Sprite>)
        requires
            self.wf(),
        ensures
            r == self@.front(sprites@, x, sprites@.len()),
    {
        let mut best: Option<Sprite> = None;
        let mut k: usize = 0;
        while k < sprites.len()
            invariant
                self.wf(),
                k <= sprites@.len(),
                best == self@.front(sprites@, x, k as nat),
            decreases sprites@.len() - k,
        {
            let s = sprites[k];
            if self.get_sprite_pixel(&s, x) != 0 {
                let better = match best {
                    None => true,
                    Some(b) => s.x_pos < b.x_pos,
                };
                if better {
                    best = Some(s);
                }
            }
            k = k + 1;
        }
        best
    }

    /// The colour index that an object has in column `x` of the present
    /// line; zero where the object is not.
    pub fn get_sprite_pixel(&self, s: &Sprite, x: u8) -> (r: u8)
        requires
            self.wf(),
        ensures
            r == self@.sprite_index(*s, x),
            r <= 3,
    {
        let h = self.regs.lcdc.object_size.height();
        let py = self.regs.curr_scanline;
        if !s.covers_line(py, h) || !s.covers_column(x) {
            return 0;
        }
        let col = (x as u16 + 8 - s.x_pos as u16) as u8;
        let c = if s.attr.x_flip {
            7 - col
        } else {
            col
        };
        let row0 = (py as u16 + 16 - s.y_pos as u16) as u8;
        let row = if s.attr.y_flip {
            h - 1 - row0
        } else {
            row0
        };
        let tile = if h == 16 {
            s.ti - s.ti % 2
        } else {
            s.ti
        };
        let tra = Addr(0x8000 + 16 * (tile as u16) + 2 * (row as u16));
        self.get_tile_row_data(tra, c)
    }

    /// The palette of an object.
    pub fn get_obj_palette(&self, s: &Sprite) -> (r: &ObjPalette)
        ensures
            *r == self@.obj_palette(*s),
    {
        match s.attr.palette {
            ObjPaletteType::OBP0 => &self.regs.obp0,
            ObjPaletteType::OBP1 => &self.regs.obp1,
        }
    }

    /// The colour index of background and window in column `x` of the
    /// present line.
    pub fn get_bg_index(&self, x: u8) -> (r: u8)
        requires
            self.wf(),
            x < 160,
        ensures
            r == self@.bg_index(x),
            r <= 3,
    {
        if !self.regs.lcdc.bg_window_enable {
            0
        } else if self.regs.lcdc.window_enable && self.regs.curr_scanline >= self.regs.wy && x + 7 >= self.regs.wx {
            self.get_layer_index(self.regs.lcdc.window_tile_map, x + 7 - self.regs.wx, self.regs.window_line)
        } else {
            let (spx, spy) = self.adjust_viewport_scroll(x, self.regs.curr_scanline);
            self.get_layer_index(self.regs.lcdc.bg_tile_map, spx, spy)
        }
    }

    /// The colour index of the pixel `(px, py)` of the plane of a tile map.
    pub fn get_layer_index(&self, map: TileMap, px: u8, py: u8) -> (r: u8)
        requires
            self.wf(),
        ensures
            r == self@.layer_index(map, px, py),
            r <= 3,
    {
        let tra = self.get_tile_row_data_addr(map, px, py);
        self.get_tile_row_data(tra, px % 8)
    }

    /// A point of the screen moved by the scroll registers, wrapping at 256.
    pub fn adjust_viewport_scroll(&self, px: u8, py: u8) -> (r: (u8, u8))
        ensures
            r.0 == (px + self@.scx) % 256,
            r.1 == (py + self@.scy) % 256,
    {
        let spx = px.wrapping_add(self.get_scroll_x());
        let spy = py.wrapping_add(self.get_scroll_y());
        (spx, spy)
    }

    /// The bus address of the tile that a tile map names for the pixel
    /// `(spx, spy)` of its plane.
    pub fn get_tile_data_addr(&self, map: TileMap, spx: u8, spy: u8) -> (r: Addr)
        requires
            self.wf(),
        ensures
            r.0 == self@.lcdc.bg_window_tile_data.tile_addr(self@.tile_index(map, spx, spy)),
            0x8000 <= r.0 <= 0x97f0,
            r.0 % 16 == 0,
    {
        let ty = spy >> 3;
        let tx = spx >> 3;
        assert(spy >> 3 == spy / 8 && spx >> 3 == spx / 8) by (bit_vector);
        let to = (ty as u16) * 32 + tx as u16;
        let ti = self.read_vram(map.addr().offset(to));
        self.get_lcdc().bg_window_tile_data.get_tile_data_addr(ti)
    }

    /// The bus address of the two bytes of the tile row that holds the
    /// pixel `(spx, spy)` of the plane of a tile map.
    pub fn get_tile_row_data_addr(&self, map: TileMap, spx: u8, spy: u8) -> (r: Addr)
        requires
            self.wf(),
        ensures
            r.0 == self@.lcdc.bg_window_tile_data.tile_addr(self@.tile_index(map, spx, spy)) + 2 * (spy % 8),
            0x8000 <= r.0 <= 0x97fe,
    {
        let ta = self.get_tile_data_addr(map, spx, spy);
        let ro = 2 * (spy % 8) as u16;
        ta.offset(ro)
    }

    /// The colour index of the pixel in column `col` of the tile row whose
    /// two bytes stand at `tra`.
    pub fn get_tile_row_data(&self, tra: Addr, col: u8) -> (r: u8)
        requires
            self.wf(),
            0x8000 <= tra.0 < 0x9fff,
            col < 8,
        ensures
            r == tile_row_pixel(self@.vram, tra.0 - 0x8000, col as int),
            r <= 3,
    {
        let lb = self.read_vram(tra);
        let hb = self.read_vram(tra.offset(1));
        let n = 7 - col;
        let high: u8 = if get_nth_bit(hb, n) {
            2
        } else {
            0
        };
        let low: u8 = if get_nth_bit(lb, n) {
            1
        } else {
            0
        };
        high + low
    }

    /// Colours a row of the frame buffer.
    pub fn update_row(&mut self, row: u8, row_data: &Vec<Colour>)
        requires
            old(self).wf(),
            row < 144,
            row_data@.len() == 160,
            forall|k: int| 0 <= k < 160 ==> (#[trigger] row_data@[k]).is_shade(),
        ensures
            final(self).wf(),
            final(self)@ == (PpuView {
                screen: Seq::new(
                    old(self)@.screen.len(),
                    |i: int|
                        if row * 160 <= i < row * 160 + 160 {
                            row_data@[i - row * 160]
                        } else {
                            old(self)@.screen[i]
                        },
                ),
                ..old(self)@
            }),
    {
        let mut i: u8 = 0;
        while i < 160
            invariant
                self.wf(),
                i <= 160,
                row < 144,
                row_data@.len() == 160,
                forall|k: int| 0 <= k < 160 ==> (#[trigger] row_data@[k]).is_shade(),
                self@ == (PpuView { screen: self@.screen, ..old(self)@ }),
                forall|k: int|
                    0 <= k < 160 * 144 ==> self@.screen[k] == (if row * 160 <= k < row * 160 + i {
                        row_data@[k - row * 160]
                    } else {
                        old(self)@.screen[k]
                    }),
            decreases 160 - i,
        {
            self.screen.set(row, i, row_data[i as usize]);
            i = i + 1;
        }
        assert(self@.screen =~= Seq::new(
            old(self)@.screen.len(),
            |i: int|
                if row * 160 <= i < row * 160 + 160 {
                    row_data@[i - row * 160]
                } else {
                    old(self)@.screen[i]
                },
        ));
    }

    /// The byte of video RAM at a bus address from 0x8000 to 0x9fff.
    pub fn read_vram(&self, addr: Addr) -> (r: u8)
        requires
            self.wf(),
            0x8000 <= addr.0 < 0xa000,
        ensures
            r == self@.vram[addr.0 - 0x8000],
    {
        self.vram.readu8(addr)
    }

    /// Stores a byte in video RAM at a bus address from 0x8000 to 0x9fff.
    pub fn write_vram(&mut self, addr: Addr, value: u8)
        requires
            old(self).wf(),
            0x8000 <= addr.0 < 0xa000,
        ensures
            final(self)@ == (PpuView { vram: old(self)@.vram.update(addr.0 - 0x8000, value), ..old(self)@ }),
            final(self).wf(),
    {
        self.vram.writeu8(addr, value);
    }

    /// The byte of object attribute memory at a bus address from 0xfe00 to
    /// 0xfe9f.
    pub fn read_oam(&self, addr: Addr) -> (r: u8)
        requires
            self.wf(),
            0xfe00 <= addr.0 < 0xfea0,
        ensures
            r == self@.oam[addr.0 - 0xfe00],
    {
        self.oam.readu8(addr)
    }

    /// Stores a byte in object attribute memory at a bus address from 0xfe00
    /// to 0xfe9f.
    pub fn write_oam(&mut self, addr: Addr, value: u8)
        requires
            old(self).wf(),
            0xfe00 <= addr.0 < 0xfea0,
        ensures
            final(self)@ == (PpuView { oam: old(self)@.oam.update(addr.0 - 0xfe00, value), ..old(self)@ }),
            final(self).wf(),
    {
        self.oam.writeu8(addr, value);
    }

    /// What the bus reads from a register of the PPU.
    pub fn read_register(&self, addr: u16) -> (r: u8)
        ensures
            r == self@.read_register(addr),
    {
        if addr == REG_LCDC {
            u8::from(self.regs.lcdc)
        } else if addr == REG_STAT {
            u8::from(self.regs.status)
        } else if addr == REG_SCROLL_Y {
            self.regs.scy
        } else if addr == REG_SCROLL_X {
            self.regs.scx
        } else if addr == REG_CURR_SCANLINE {
            self.regs.curr_scanline
        } else if addr == REG_BG_PALETTE {
            u8::from(self.regs.bgp)
        } else if addr == REG_OBJ_PALETTE_0 {
            u8::from(self.regs.obp0)
        } else if addr == REG_OBJ_PALETTE_1 {
            u8::from(self.regs.obp1)
        } else if addr == REG_WIN_Y {
            self.regs.wy
        } else if addr == REG_WIN_X {
            self.regs.wx
        } else {
            0xff
        }
    }

    /// A write of the bus to a register of the PPU.
    pub fn write_register(&mut self, addr: u16, value: u8)
        requires
            old(self).wf(),
        ensures
            final(self)@ == old(self)@.write_register(addr, value),
            final(self).wf(),
    {
        match addr {
            0xff40 => self.set_lcdc(LCDC::from(value)),
            0xff41 => self.set_status(Status::from(value)),
            0xff42 => self.set_scroll_y(value),
            0xff43 => self.set_scroll_x(value),
            0xff47 => {
                proof {
                    palette::lemma_palette_pack_unpack(value);
                }
                self.set_bg_palette(BgWinPalette::from(value))
            },
            0xff48 => self.set_obj_palette(ObjPaletteType::OBP0, ObjPalette::from(value)),
            0xff49 => self.set_obj_palette(ObjPaletteType::OBP1, ObjPalette::from(value)),
            0xff4a => self.set_window_y(value),
            0xff4b => self.set_window_x(value),
            _ => {},
        }
    }

    /// Stores the status register but for its mode, which stays.
    pub fn set_status(&mut self, status: Status)
        requires
            old(self).wf(),
        ensures
            final(self)@ == (PpuView { status: Status { mode: old(self)@.status.mode, ..status }, ..old(self)@ }),
            final(self).wf(),
    {
        let regs = self.regs;
        self.regs = PpuRegs { status: Status { mode: regs.status.mode, ..status }, ..regs };
    }

    pub fn set_obj_palette(&mut self, which: ObjPaletteType, palette: ObjPalette)
        requires
            old(self).wf(),
        ensures
            which == ObjPaletteType::OBP0 ==> final(self)@ == (PpuView { obp0: palette, ..old(self)@ }),
            which == ObjPaletteType::OBP1 ==> final(self)@ == (PpuView { obp1: palette, ..old(self)@ }),
            final(self).wf(),
    {
        let regs = self.regs;
        self.regs = match which {
            ObjPaletteType::OBP0 => PpuRegs { obp0: palette, ..regs },
            ObjPaletteType::OBP1 => PpuRegs { obp1: palette, ..regs },
        };
    }

    pub fn set_window_y(&mut self, value: u8)
        requires
            old(self).wf(),
        ensures
            final(self)@ == (PpuView { wy: value, ..old(self)@ }),
            final(self).wf(),
    {
        let regs = self.regs;
        self.regs = PpuRegs { wy: value, ..regs };
    }

    pub fn set_window_x(&mut self, value: u8)
        requires
            old(self).wf(),
        ensures
            final(self)@ == (PpuView { wx: value, ..old(self)@ }),
            final(self).wf(),
    {
        let regs = self.regs;
        self.regs = PpuRegs { wx: value, ..regs };
    }

    /// Whether a vertical-blank interrupt is requested.
    pub fn vblank_requested(&self) -> (r: bool)
        ensures
            r == self@.vblank_interrupt,
    {
        self.regs.vblank_interrupt
    }

    /// Requests the vertical-blank interrupt, or takes the request back.
    pub fn set_vblank_interrupt(&mut self, on: bool)
        requires
            old(self).wf(),
        ensures
            final(self)@ == (PpuView { vblank_interrupt: on, ..old(self)@ }),
            final(self).wf(),
    {
        let regs = self.regs;
        self.regs = PpuRegs { vblank_interrupt: on, ..regs };
    }

    /// The frame buffer.
    pub fn screen(&self) -> (r: &Screen)
        requires
            self.wf(),
        ensures
            r@ == self@.screen,
            r.wf(),
    {
        &self.screen
    }

    /// The present mode.
    pub fn mode(&self) -> (r: PpuMode)
        ensures
            r == self@.status.mode,
    {
        self.regs.status.mode
    }

    pub fn get_lcdc(&self) -> (r: LCDC)
        ensures
            r == self@.lcdc,
    {
        self.regs.lcdc
    }

    pub fn set_lcdc(&mut self, lcdc: LCDC)
        requires
            old(self).wf(),
        ensures
            final(self)@ == (PpuView { lcdc, ..old(self)@ }),
            final(self).wf(),
    {
        let regs = self.regs;
        self.regs = PpuRegs { lcdc, ..regs };
    }

    pub fn get_scroll_y(&self) -> (r: u8)
        ensures
            r == self@.scy,
    {
        self.regs.scy
    }

    pub fn set_scroll_y(&mut self, value: u8)
        requires
            old(self).wf(),
        ensures
            final(self)@ == (PpuView { scy: value, ..old(self)@ }),
            final(self).wf(),
    {
        let regs = self.regs;
        self.regs = PpuRegs { scy: value, ..regs };
    }

    pub fn get_scroll_x(&self) -> (r: u8)
        ensures
            r == self@.scx,
    {
        self.regs.scx
    }

    pub fn set_scroll_x(&mut self, value: u8)
        requires
            old(self).wf(),
        ensures
            final(self)@ == (PpuView { scx: value, ..old(self)@ }),
            final(self).wf(),
    {
        let regs = self.regs;
        self.regs = PpuRegs { scx: value, ..regs };
    }

    pub fn get_curr_scanline(&self) -> (r: u8)
        ensures
            r == self@.curr_scanline,
    {
        self.regs.curr_scanline
    }

    pub fn set_bg_palette(&mut self, palette: BgWinPalette)
        requires
            old(self).wf(),
            palette.shades(),
        ensures
            final(self)@ == (PpuView { bgp: palette, ..old(self)@ }),
            final(self).wf(),
    {
        let regs = self.regs;
        self.regs = PpuRegs { bgp: palette, ..regs };
    }
}

} // verus!
