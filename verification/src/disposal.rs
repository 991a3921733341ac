//! The disposal engine: the restoration that is pending between two frames.
//!
//! Each frame carries a directive saying how its rectangle is to be restored
//! before the next frame is drawn. The directive is captured into a
//! [`Disposal`] while the frame is blitted — for `Previous` together with a
//! snapshot of the rectangle taken before the frame's own pixels land — and
//! applied to the canvas at the start of the next cycle, so that the frame
//! just drawn stays visible until the next one arrives.

use vstd::prelude::*;

use crate::canvas::Rect;
use crate::canvas::fill_rect;
use crate::canvas::in_rect;
use crate::canvas::lemma_canvas_pointwise;
use crate::canvas::lemma_pix_bounds;
use crate::canvas::lemma_pix_coords;
use crate::canvas::lemma_saved_rect_at;
use crate::canvas::pix;
use crate::canvas::rect_ok;
use crate::canvas::saved_rect;
use crate::canvas::write_rect;
use crate::pixel::DisposalMethod;
use crate::pixel::Rgba;

verus! {

/// The restoration pending between two frames. `Previous` carries the
/// snapshot it will write back, so "a saved buffer exists only for
/// `Previous`" holds by construction rather than by a runtime check.
#[derive(Clone, Debug)]
pub enum Disposal {
    /// Leave the canvas as the last frame drew it.
    Keep,
    /// Fill the rectangle with the fully transparent zero pixel.
    Background(Rect),
    /// Write the saved pixels back into the rectangle.
    Previous(Rect, Vec<Rgba>),
}

/// The value of the canvas pixel at `(x, y)` after applying disposal `d`:
/// `Keep` changes nothing, `Background` turns the pixels of its rectangle
/// into the fully transparent zero pixel, `Previous` turns them back into
/// the saved snapshot; outside the rectangle nothing changes.
pub open spec fn disposed_pix(canvas: Seq<Rgba>, cw: int, d: Disposal, x: int, y: int) -> Rgba {
    match d {
        Disposal::Keep => canvas[pix(cw, x, y)],
        Disposal::Background(r) => if in_rect(r, x, y) {
            Rgba::spec_zero()
        } else {
            canvas[pix(cw, x, y)]
        },
        Disposal::Previous(r, saved) => if in_rect(r, x, y) {
            saved@[(y - r.top) * r.width + (x - r.left)]
        } else {
            canvas[pix(cw, x, y)]
        },
    }
}

/// The whole canvas after applying disposal `d`, pixel by pixel as
/// [`disposed_pix`] says.
pub open spec fn disposed_canvas(canvas: Seq<Rgba>, cw: int, d: Disposal) -> Seq<Rgba> {
    Seq::new(canvas.len(), |i: int| disposed_pix(canvas, cw, d, i % cw, i / cw))
}

/// What capturing a frame's directive yields: `Keep` and `Unspecified` store
/// nothing, `Background` stores the rectangle alone, and `Previous` stores
/// the rectangle together with a snapshot of exactly the canvas pixels it
/// covers at capture time.
pub open spec fn captures(
    d: Disposal,
    method: DisposalMethod,
    r: Rect,
    canvas: Seq<Rgba>,
    cw: int,
) -> bool {
    match method {
        DisposalMethod::Unspecified => d == Disposal::Keep,
        DisposalMethod::Keep => d == Disposal::Keep,
        DisposalMethod::Background => d == Disposal::Background(r),
        DisposalMethod::Previous => d matches Disposal::Previous(r2, saved) && r2 == r && saved@
            == saved_rect(canvas, cw, r),
    }
}

impl Disposal {
    /// Well-formed relative to a `cw` by `ch` canvas: the stored rectangle is
    /// acceptable there, and a `Previous` snapshot covers exactly its
    /// rectangle.
    pub open spec fn wf(self, cw: int, ch: int) -> bool {
        match self {
            Disposal::Keep => true,
            Disposal::Background(r) => rect_ok(r, cw, ch),
            Disposal::Previous(r, saved) => rect_ok(r, cw, ch) && saved@.len() == r.width
                * r.height,
        }
    }

    /// Capture the disposal pending after a frame with directive `method` and
    /// rectangle `(left, top, width, height)` is drawn onto a `cw` by `ch`
    /// canvas. `pixels` is that canvas *before* the frame's own pixels are
    /// written: for `Previous` it is the state the snapshot must restore.
    pub fn new(
        method: DisposalMethod,
        left: u16,
        top: u16,
        width: u16,
        height: u16,
        pixels: &Vec<Rgba>,
        cw: usize,
        ch: usize,
    ) -> (d: Disposal)
        requires
            pixels@.len() == cw * ch,
            rect_ok(Rect { left, top, width, height }, cw as int, ch as int),
        ensures
            d.wf(cw as int, ch as int),
            captures(d, method, Rect { left, top, width, height }, pixels@, cw as int),
    {
        let r = Rect { left, top, width, height };
        match method {
            DisposalMethod::Previous => {
                let saved = crate::canvas::copy_rect(pixels, cw, ch, r);
                Disposal::Previous(r, saved)
            },
            DisposalMethod::Background => Disposal::Background(r),
            DisposalMethod::Keep => Disposal::Keep,
            DisposalMethod::Unspecified => Disposal::Keep,
        }
    }

    /// Apply the stored restoration to the canvas. The caller's discipline,
    /// not a runtime check, keeps this from running twice for one frame: the
    /// compositor applies each captured disposal exactly once, at the start
    /// of the next cycle.
    pub fn dispose(&self, pixels: &mut Vec<Rgba>, cw: usize, ch: usize)
        requires
            old(pixels)@.len() == cw * ch,
            self.wf(cw as int, ch as int),
        ensures
            final(pixels)@ == disposed_canvas(old(pixels)@, cw as int, *self),
    {
        match self {
            Disposal::Keep => {},
            Disposal::Background(r) => {
                fill_rect(pixels, cw, ch, *r, Rgba::zero());
            },
            Disposal::Previous(r, saved) => {
                write_rect(pixels, cw, ch, *r, saved);
            },
        }
        proof {
            let post = disposed_canvas(old(pixels)@, cw as int, *self);
            assert forall|x: int, y: int| 0 <= x < cw && 0 <= y < ch implies pixels@[#[trigger] pix(
                cw as int,
                x,
                y,
            )] == post[pix(cw as int, x, y)] by {
                lemma_pix_bounds(cw as int, ch as int, x, y);
                lemma_pix_coords(cw as int, x, y);
            }
            lemma_canvas_pointwise(pixels@, post, cw as int, ch as int);
        }
    }
}

impl Default for Disposal {
    /// Before any frame has been drawn there is nothing to restore.
    fn default() -> (d: Self)
        ensures
            d == Disposal::Keep,
    {
        Disposal::Keep
    }
}

/// Snapshot round-trip: a `Previous` disposal captured from a canvas, applied
/// to any later canvas of the same extent, restores the rectangle to the
/// exact pixels the first canvas held there — whatever was drawn over it in
/// between.
pub proof fn lemma_snapshot_round_trip(
    before: Seq<Rgba>,
    later: Seq<Rgba>,
    cw: int,
    ch: int,
    r: Rect,
    d: Disposal,
)
    requires
        before.len() == cw * ch,
        later.len() == cw * ch,
        captures(d, DisposalMethod::Previous, r, before, cw),
    ensures
        forall|x: int, y: int|
            0 <= x < cw && 0 <= y < ch && in_rect(r, x, y) ==> disposed_canvas(later, cw, d)[
                #[trigger] pix(cw, x, y)
            ] == before[pix(cw, x, y)],
{
    assert forall|x: int, y: int|
        0 <= x < cw && 0 <= y < ch && in_rect(r, x, y) implies disposed_canvas(later, cw, d)[
        #[trigger] pix(cw, x, y)
    ] == before[pix(cw, x, y)] by {
        lemma_pix_bounds(cw, ch, x, y);
        lemma_pix_coords(cw, x, y);
        lemma_saved_rect_at(before, cw, r, x, y);
    }
}

/// Background fill is zero and transparent: after a `Background` disposal is
/// applied, every pixel of its rectangle is the fully transparent zero pixel,
/// whatever the canvas held and whatever background color the animation may
/// have declared.
pub proof fn lemma_background_fills_zero(canvas: Seq<Rgba>, cw: int, ch: int, r: Rect)
    requires
        canvas.len() == cw * ch,
    ensures
        forall|x: int, y: int|
            0 <= x < cw && 0 <= y < ch && in_rect(r, x, y) ==> disposed_canvas(
                canvas,
                cw,
                Disposal::Background(r),
            )[#[trigger] pix(cw, x, y)] == Rgba::spec_zero(),
{
    assert forall|x: int, y: int|
        0 <= x < cw && 0 <= y < ch && in_rect(r, x, y) implies disposed_canvas(
        canvas,
        cw,
        Disposal::Background(r),
    )[#[trigger] pix(cw, x, y)] == Rgba::spec_zero() by {
        lemma_pix_bounds(cw, ch, x, y);
        lemma_pix_coords(cw, x, y);
    }
}

/// Keep is a no-op: applying a `Keep` disposal leaves the whole canvas — in
/// particular the disposed frame's rectangle — pixel for pixel as the frame
/// drew it.
pub proof fn lemma_keep_is_noop(canvas: Seq<Rgba>, cw: int, ch: int)
    requires
        canvas.len() == cw * ch,
        cw >= 0,
        ch >= 0,
    ensures
        disposed_canvas(canvas, cw, Disposal::Keep) == canvas,
{
    assert forall|x: int, y: int| 0 <= x < cw && 0 <= y < ch implies disposed_canvas(
        canvas,
        cw,
        Disposal::Keep,
    )[#[trigger] pix(cw, x, y)] == canvas[pix(cw, x, y)] by {
        lemma_pix_bounds(cw, ch, x, y);
        lemma_pix_coords(cw, x, y);
    }
    lemma_canvas_pointwise(disposed_canvas(canvas, cw, Disposal::Keep), canvas, cw, ch);
}

} // verus!
