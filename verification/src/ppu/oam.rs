//! Object attribute memory: forty objects of four bytes each.

use super::lcdc::ObjectSize;
use crate::mmu::ram::RAM;
use crate::util::{byte_of, get_nth_bit, lemma_bits_of_byte, nth_bit, pack_bits, Addr};
use vstd::prelude::*;
use vstd::std_specs::convert::FromSpecImpl;

verus! {

pub const OAM_START: u16 = 0xfe00;

pub const OAM_SIZE: usize = 0xa0;

pub const MAX_SPRITES_PER_ROW: usize = 10;

/// Which of the two object palettes an object uses.
#[derive(Clone, Copy, Debug, PartialEq, Eq, Structural)]
pub enum ObjPaletteType {
    OBP0,
    OBP1,
}

impl ObjPaletteType {
    /// The palette selected by an attribute bit.
    pub open spec fn of(bit: bool) -> ObjPaletteType {
        if bit {
            ObjPaletteType::OBP1
        } else {
            ObjPaletteType::OBP0
        }
    }

    /// The attribute bit that selects the palette.
    pub open spec fn bit(self) -> bool {
        self == ObjPaletteType::OBP1
    }

    pub fn from_bool(value: bool) -> (r: ObjPaletteType)
        ensures
            r == ObjPaletteType::of(value),
    {
        if value {
            ObjPaletteType::OBP1
        } else {
            ObjPaletteType::OBP0
        }
    }

    /// The palette with a given number, if the number is 0 or 1.
    pub fn try_from(value: u8) -> (r: Result<ObjPaletteType, ()>)
        ensures
            r is Ok <==> value <= 1,
            r is Ok ==> r->Ok_0 == ObjPaletteType::of(value == 1),
    {
        match value {
            0 => Ok(ObjPaletteType::OBP0),
            1 => Ok(ObjPaletteType::OBP1),
            _ => Err(()),
        }
    }
}

/// The attribute byte of an object: priority in bit 7, the two flips in bits
/// 6 and 5, the palette in bit 4.
#[derive(Clone, Copy, Debug, PartialEq, Eq, Structural)]
pub struct SpriteAttr {
    pub bg_win_over_obj: bool,
    pub y_flip: bool,
    pub x_flip: bool,
    pub palette: ObjPaletteType,
}

impl SpriteAttr {
    /// The attributes held in bits 7 to 4 of a byte.
    pub open spec fn unpack(value: u8) -> SpriteAttr {
        SpriteAttr {
            bg_win_over_obj: nth_bit(value, 7),
            y_flip: nth_bit(value, 6),
            x_flip: nth_bit(value, 5),
            palette: ObjPaletteType::of(nth_bit(value, 4)),
        }
    }

    /// The byte with the attributes in bits 7 to 4 and the low nibble zero.
    pub open spec fn pack(self) -> u8 {
        byte_of(self.bg_win_over_obj, self.y_flip, self.x_flip, self.palette.bit(), false, false, false, false)
    }
}

impl From<u8> for SpriteAttr {
    fn from(value: u8) -> (r: SpriteAttr) {
        SpriteAttr {
            bg_win_over_obj: get_nth_bit(value, 7),
            y_flip: get_nth_bit(value, 6),
            x_flip: get_nth_bit(value, 5),
            palette: ObjPaletteType::from_bool(get_nth_bit(value, 4)),
        }
    }
}

impl FromSpecImpl<u8> for SpriteAttr {
    open spec fn obeys_from_spec() -> bool {
        true
    }

    open spec fn from_spec(value: u8) -> SpriteAttr {
        SpriteAttr::unpack(value)
    }
}

impl From<SpriteAttr> for u8 {
    fn from(value: SpriteAttr) -> (r: u8) {
        let p = match value.palette {
            ObjPaletteType::OBP0 => false,
            ObjPaletteType::OBP1 => true,
        };
        pack_bits(value.bg_win_over_obj, value.y_flip, value.x_flip, p, false, false, false, false)
    }
}

impl FromSpecImpl<SpriteAttr> for u8 {
    open spec fn obeys_from_spec() -> bool {
        true
    }

    open spec fn from_spec(value: SpriteAttr) -> u8 {
        value.pack()
    }
}

/// Attributes packed and unpacked are the same attributes.
pub proof fn lemma_sprite_attr_unpack_pack(a: SpriteAttr)
    ensures
        SpriteAttr::unpack(a.pack()) == a,
{
    lemma_bits_of_byte(a.bg_win_over_obj, a.y_flip, a.x_flip, a.palette.bit(), false, false, false, false);
}

/// An object. It is drawn with its top left corner at column `x_pos - 8` of
/// line `y_pos - 16`.
#[derive(Clone, Copy, Debug, PartialEq, Eq, Structural)]
pub struct Sprite {
    pub y_pos: u8,
    pub x_pos: u8,
    /// The index of its tile.
    pub ti: u8,
    pub attr: SpriteAttr,
}

impl Sprite {
    /// The object described by four bytes.
    pub open spec fn parse(b0: u8, b1: u8, b2: u8, b3: u8) -> Sprite {
        Sprite { y_pos: b0, x_pos: b1, ti: b2, attr: SpriteAttr::unpack(b3) }
    }

    /// Whether an object of `height` lines covers line `ly`.
    pub open spec fn on_line(self, ly: u8, height: u8) -> bool {
        self.y_pos <= ly + 16 < self.y_pos + height
    }

    /// Whether the object covers column `x`.
    pub open spec fn on_column(self, x: u8) -> bool {
        self.x_pos <= x + 8 < self.x_pos + 8
    }

    /// The object described by four bytes.
    pub fn new(b0: u8, b1: u8, b2: u8, b3: u8) -> (r: Sprite)
        ensures
            r == Sprite::parse(b0, b1, b2, b3),
    {
        Sprite { y_pos: b0, x_pos: b1, ti: b2, attr: SpriteAttr::from(b3) }
    }

    /// Whether an object of `height` lines covers line `ly`.
    pub fn covers_line(&self, ly: u8, height: u8) -> (r: bool)
        ensures
            r == self.on_line(ly, height),
    {
        let y = ly as u16 + 16;
        self.y_pos as u16 <= y && y < self.y_pos as u16 + height as u16
    }

    /// Whether the object covers column `x`.
    pub fn covers_column(&self, x: u8) -> (r: bool)
        ensures
            r == self.on_column(x),
    {
        let c = x as u16 + 8;
        self.x_pos as u16 <= c && c < self.x_pos as u16 + 8
    }
}

/// Object number `i` of an object attribute memory.
pub open spec fn sprite_at(oam: Seq<u8>, i: int) -> Sprite {
    Sprite::parse(oam[4 * i], oam[4 * i + 1], oam[4 * i + 2], oam[4 * i + 3])
}

/// The objects that the scan of a line selects among the first `k`: in the
/// order of the memory, those that cover the line, as long as fewer than ten
/// are selected.
pub open spec fn scan(oam: Seq<u8>, ly: u8, height: u8, k: nat) -> Seq<Sprite>
    decreases k,
{
    if k == 0 {
        Seq::empty()
    } else {
        let before = scan(oam, ly, height, (k - 1) as nat);
        let s = sprite_at(oam, k - 1);
        if before.len() < 10 && s.on_line(ly, height) {
            before.push(s)
        } else {
            before
        }
    }
}

/// The scan of a line selects at most ten objects, and each of them covers
/// the line.
pub proof fn lemma_scan_selects_at_most_ten(oam: Seq<u8>, ly: u8, height: u8, k: nat)
    ensures
        scan(oam, ly, height, k).len() <= 10,
        scan(oam, ly, height, k).len() <= k,
        forall|i: int|
            0 <= i < scan(oam, ly, height, k).len() ==> (#[trigger] scan(oam, ly, height, k)[i]).on_line(
                ly,
                height,
            ),
    decreases k,
{
    if k > 0 {
        lemma_scan_selects_at_most_ten(oam, ly, height, (k - 1) as nat);
    }
}

/// Object attribute memory.
#[derive(Debug)]
pub struct OAM {
    ram: RAM,
}

impl View for OAM {
    type V = Seq<u8>;

    closed spec fn view(&self) -> Seq<u8> {
        self.ram@
    }
}

impl OAM {
    /// The memory holds 160 bytes, mapped from 0xfe00 on.
    pub closed spec fn wf(&self) -> bool {
        self.ram.wf() && self.ram.base() == OAM_START && self.ram@.len() == OAM_SIZE
    }

    /// An object attribute memory of zeros.
    pub fn new() -> (r: OAM)
        ensures
            r.wf(),
            r@ == Seq::new(OAM_SIZE as nat, |i: int| 0u8),
    {
        OAM { ram: RAM::new(OAM_SIZE, OAM_START) }
    }

    /// The byte at a bus address from 0xfe00 to 0xfe9f.
    pub fn readu8(&self, addr: Addr) -> (r: u8)
        requires
            self.wf(),
            0xfe00 <= addr.0 < 0xfea0,
        ensures
            r == self@[addr.0 - 0xfe00],
    {
        self.ram.readu8(addr)
    }

    /// Stores a byte at a bus address from 0xfe00 to 0xfe9f.
    pub fn writeu8(&mut self, addr: Addr, value: u8)
        requires
            old(self).wf(),
            0xfe00 <= addr.0 < 0xfea0,
        ensures
            final(self)@ == old(self)@.update(addr.0 - 0xfe00, value),
            final(self).wf(),
    {
        self.ram.writeu8(addr, value);
    }

    /// Replaces the whole memory.
    pub fn fill(&mut self, src: &Vec<u8>)
        requires
            old(self).wf(),
            src@.len() == OAM_SIZE,
        ensures
            final(self)@ == src@,
            final(self).wf(),
    {
        self.ram.copy_from_slice(src);
    }

    /// Object number `i`.
    pub fn sprite(&self, i: usize) -> (r: Sprite)
        requires
            self.wf(),
            i < 40,
        ensures
            r == sprite_at(self@, i as int),
    {
        Sprite::new(self.ram.get(4 * i), self.ram.get(4 * i + 1), self.ram.get(4 * i + 2), self.ram.get(4 * i + 3))
    }

    /// The objects drawn on line `y`: the first ten, in the order of the
    /// memory, that cover the line.
    pub fn row(&self, y: u8, obj_size: ObjectSize) -> (r: Vec<Sprite>)
        requires
            self.wf(),
        ensures
            r@ == scan(self@, y, obj_size.lines(), 40),
            r@.len() <= 10,
    {
        let sprite_size = obj_size.height();
        let mut out: Vec<Sprite> = Vec::new();
        let mut i: usize = 0;
        while i < 40
            invariant
                self.wf(),
                i <= 40,
                sprite_size == obj_size.lines(),
                out@ == scan(self@, y, sprite_size, i as nat),
                out@.len() <= 10,
            decreases 40 - i,
        {
            let s = self.sprite(i);
            if out.len() < MAX_SPRITES_PER_ROW && s.covers_line(y, sprite_size) {
                out.push(s);
            }
            i = i + 1;
        }
        out
    }
}

} // verus!
