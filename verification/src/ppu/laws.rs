//! What holds of the timing of the PPU.

use super::status::PpuMode;
use super::oam::Sprite;
use super::palette::lemma_palette_pack_unpack;
use super::PpuView;
use vstd::prelude::*;

verus! {

/// Whether the vertical blank begins within `n` T-cycles from position
/// `pos` of a frame.
pub open spec fn enters_vblank(pos: int, n: int) -> bool {
    (pos < 65664 <= pos + n) || pos + n >= 65664 + 70224
}

/// A PPU that draws with a palette of shades draws shades.
pub proof fn lemma_pixels_are_shades(p: PpuView, x: u8)
    requires
        p.bgp.shades(),
    ensures
        p.pixel(x).is_shade(),
{
}

/// A write to a register leaves a well-formed PPU well-formed.
pub proof fn lemma_register_write_keeps_wf(p: PpuView, addr: u16, value: u8)
    requires
        p.wf(),
    ensures
        p.write_register(addr, value).wf(),
{
    lemma_palette_pack_unpack(value);
}

/// Leaving a mode moves the PPU on by the T-cycles that the mode had left,
/// and requests the vertical-blank interrupt exactly when the position
/// reaches line 144.
pub proof fn lemma_pass(p: PpuView)
    requires
        p.wf(),
    ensures
        p.pass().wf(),
        p.pass().position() == (p.position() + p.room()) % 70224,
        p.pass().vblank_interrupt == (p.vblank_interrupt || p.position() + p.room() == 65664),
        p.room() > 0,
        p.position() < 70224,
        p.position() < 65664 ==> p.position() + p.room() <= 65664,
        p.position() + p.room() <= 70224,
{
    match p.status.mode {
        PpuMode::OAMSearch => {},
        PpuMode::PixelTransfer => {
            let q = (PpuView { ticks: 0, ..p }).rendered();
            assert forall|i: int| 0 <= i < q.screen.len() implies (#[trigger] q.screen[i]).is_shade() by {
                let first = p.curr_scanline * 160;
                if first <= i < first + 160 {
                    lemma_pixels_are_shades(PpuView { ticks: 0, ..p }, (i - first) as u8);
                }
            }
        },
        PpuMode::HBlank => {},
        PpuMode::VBlank => {},
    }
}

/// The PPU keeps time: after `n` T-cycles its position in the frame is `n`
/// further on, modulo the 70224 T-cycles of a frame, and the vertical-blank
/// interrupt is requested if it was before or if the position has reached
/// line 144 on the way.
pub proof fn lemma_advance_keeps_time(p: PpuView, n: nat)
    requires
        p.wf(),
    ensures
        p.advance(n).wf(),
        p.advance(n).position() == (p.position() + n) % 70224,
        p.advance(n).vblank_interrupt == (p.vblank_interrupt || enters_vblank(p.position(), n as int)),
    decreases n,
{
    lemma_pass(p);
    if n >= p.room() {
        let q = p.pass();
        let m = (n - p.room()) as nat;
        lemma_advance_keeps_time(q, m);
        assert(p.advance(n) == q.advance(m));
        let a = p.position() + p.room();
        assert(q.position() == a % 70224);
        assert((a % 70224 + m) % 70224 == (a + m) % 70224) by {
            if a == 70224 {
                assert(a % 70224 == 0);
            } else {
                assert(a % 70224 == a);
            }
        }
    }
}

/// A frame takes exactly 70224 T-cycles: from the moment the vertical blank
/// has begun and its request has been taken back, the request stays away
/// for 70223 T-cycles and is raised again by the 70224th, when the PPU
/// stands where it stood.
pub proof fn lemma_frame_period(p: PpuView, n: nat)
    requires
        p.wf(),
        p.position() == 65664,
        !p.vblank_interrupt,
    ensures
        n < 70224 ==> !p.advance(n).vblank_interrupt,
        n >= 70224 ==> p.advance(n).vblank_interrupt,
        p.advance(70224).position() == 65664,
{
    lemma_advance_keeps_time(p, n);
    lemma_advance_keeps_time(p, 70224);
}

/// Running for `a` T-cycles and then for `b` is running for `a + b`.
pub proof fn lemma_advance_adds(p: PpuView, a: nat, b: nat)
    requires
        p.wf(),
    ensures
        p.advance(a).advance(b) == p.advance(a + b),
    decreases a,
{
    lemma_pass(p);
    if a >= p.room() {
        lemma_advance_adds(p.pass(), (a - p.room()) as nat, b);
        assert(p.advance(a + b) == p.pass().advance((a + b - p.room()) as nat));
    } else {
        let q = PpuView { ticks: (p.ticks + a) as u64, ..p };
        assert(p.advance(a) == q);
        assert(q.room() == p.room() - a);
        if b < q.room() {
            assert(q.advance(b) == PpuView { ticks: (q.ticks + b) as u64, ..q });
        } else {
            assert(q.pass() == p.pass());
            assert(q.advance(b) == q.pass().advance((b - q.room()) as nat));
            assert(p.advance(a + b) == p.pass().advance((a + b - p.room()) as nat));
        }
    }
}

/// Whether object `j` of a row is the one in front in column `x` among the
/// first `k`: it is not transparent there, no other has a lower `x_pos`, and
/// those before it in the row have a higher one.
pub open spec fn foremost(p: PpuView, sel: Seq<Sprite>, x: u8, k: nat, j: int) -> bool {
    &&& 0 <= j < k
    &&& p.sprite_index(sel[j], x) != 0
    &&& forall|i: int| 0 <= i < k && p.sprite_index(#[trigger] sel[i], x) != 0 ==> sel[j].x_pos <= sel[i].x_pos
    &&& forall|i: int| 0 <= i < j && p.sprite_index(#[trigger] sel[i], x) != 0 ==> sel[j].x_pos < sel[i].x_pos
}

/// The object in front is the one with the lowest `x_pos` among those that
/// are not transparent in the column, and of several with that `x_pos` the
/// first in the row. There is none exactly when every object is transparent
/// there.
pub proof fn lemma_front_is_foremost(p: PpuView, sel: Seq<Sprite>, x: u8, k: nat)
    requires
        k <= sel.len(),
    ensures
        p.front(sel, x, k) is None ==> forall|i: int|
            0 <= i < k ==> p.sprite_index(#[trigger] sel[i], x) == 0,
        p.front(sel, x, k) is Some ==> exists|j: int|
            foremost(p, sel, x, k, j) && sel[j] == p.front(sel, x, k)->0,
    decreases k,
{
    if k > 0 {
        let before = p.front(sel, x, (k - 1) as nat);
        let s = sel[k - 1];
        lemma_front_is_foremost(p, sel, x, (k - 1) as nat);
        if p.sprite_index(s, x) != 0 && (before is None || s.x_pos < before->0.x_pos) {
            assert(foremost(p, sel, x, k, k - 1));
        } else if before is Some {
            let j = choose|j: int| foremost(p, sel, x, (k - 1) as nat, j) && sel[j] == before->0;
            assert(foremost(p, sel, x, k, j));
        }
    }
}

} // verus!
