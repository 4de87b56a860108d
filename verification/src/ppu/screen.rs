//! The frame buffer: 144 rows of 160 shades.

use super::colour::Colour;
use vstd::prelude::*;

verus! {

pub const SCREEN_WIDTH: usize = 160;

pub const SCREEN_HEIGHT: usize = 144;

/// The frame buffer, row after row.
#[derive(Debug)]
pub struct Screen {
    pixels: Vec<Colour>,
}

impl View for Screen {
    type V = Seq<Colour>;

    closed spec fn view(&self) -> Seq<Colour> {
        self.pixels@
    }
}

impl Screen {
    /// The buffer holds 160 x 144 pixels.
    pub open spec fn wf(&self) -> bool {
        self@.len() == 160 * 144
    }

    /// A white screen.
    pub fn new() -> (r: Screen)
        ensures
            r.wf(),
            r@ == Seq::new(160 * 144, |i: int| Colour::White),
    {
        let mut pixels: Vec<Colour> = Vec::new();
        while pixels.len() < SCREEN_WIDTH * SCREEN_HEIGHT
            invariant
                pixels@.len() <= 160 * 144,
                forall|i: int| 0 <= i < pixels@.len() ==> pixels@[i] == Colour::White,
            decreases 160 * 144 - pixels@.len(),
        {
            pixels.push(Colour::White);
        }
        assert(pixels@ =~= Seq::new(160 * 144, |i: int| Colour::White));
        Screen { pixels }
    }

    /// Colours the pixel in row `row`, column `col`.
    pub fn set(&mut self, row: u8, col: u8, colour: Colour)
        requires
            old(self).wf(),
            row < 144,
            col < 160,
        ensures
            final(self)@ == old(self)@.update(row * 160 + col, colour),
            final(self).wf(),
    {
        let index = row as usize * SCREEN_WIDTH + col as usize;
        self.pixels.set(index, colour);
    }

    /// The colour of the pixel in row `row`, column `col`.
    pub fn get(&self, row: u8, col: u8) -> (r: Colour)
        requires
            self.wf(),
            row < 144,
            col < 160,
        ensures
            r == self@[row * 160 + col],
    {
        self.pixels[row as usize * SCREEN_WIDTH + col as usize]
    }

    /// The whole screen as 0x00RRGGBB values, row after row.
    pub fn as_u32(&self) -> (r: Vec<u32>)
        ensures
            r@.len() == self@.len(),
            forall|i: int| 0 <= i < r@.len() ==> r@[i] == self@[i].rgb(),
    {
        let mut out: Vec<u32> = Vec::new();
        let mut i: usize = 0;
        while i < self.pixels.len()
            invariant
                i <= self.pixels@.len(),
                out@.len() == i,
                forall|k: int| 0 <= k < i ==> out@[k] == self.pixels@[k].rgb(),
            decreases self.pixels@.len() - i,
        {
            out.push(self.pixels[i].to_u32());
            i = i + 1;
        }
        out
    }
}

} // verus!
