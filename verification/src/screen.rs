//! The compositor: a persistent canvas, the pending disposal, and the
//! transparency-aware blit that merges each decoded frame into the canvas
//! through its resolved color table.

use vstd::prelude::*;

use crate::Error;
use crate::canvas::Rect;
use crate::canvas::blit_canvas;
use crate::canvas::blit_rect;
use crate::canvas::lemma_canvas_pointwise;
use crate::canvas::lemma_pix_bounds;
use crate::canvas::lemma_pix_coords;
use crate::canvas::pix;
use crate::canvas::in_rect;
use crate::canvas::rect_ok;
use crate::canvas::resolved;
use crate::disposal::Disposal;
use crate::disposal::captures;
use crate::disposal::disposed_canvas;
use crate::disposal::lemma_snapshot_round_trip;
use crate::pixel::DisposalMethod;
use crate::pixel::Rgb;
use crate::pixel::Rgba;

verus! {

/// One decoded frame, exactly as the compositor consumes it: a rectangle of
/// palette indices, an optional local color table, an optional transparent
/// index, and the disposal directive for the frame after it.
pub struct Frame {
    pub left: u16,
    pub top: u16,
    pub width: u16,
    pub height: u16,
    pub disposal: DisposalMethod,
    pub transparent: Option<u8>,
    pub palette: Option<Vec<Rgb>>,
    pub buffer: Vec<u8>,
}

impl Frame {
    /// The rectangle of the canvas this frame covers.
    pub open spec fn rect(self) -> Rect {
        Rect { left: self.left, top: self.top, width: self.width, height: self.height }
    }

    /// The frame's local color table as a sequence, if it carries one.
    pub open spec fn palette_view(self) -> Option<Seq<Rgb>> {
        match self.palette {
            Some(p) => Some(p@),
            None => None,
        }
    }
}

/// The color table a frame's indices resolve through: the frame's local
/// table if it carries one, else the animation's global table, else nothing —
/// and with nothing the frame cannot be drawn.
pub open spec fn effective_palette(local: Option<Seq<Rgb>>, global: Option<Seq<Rgb>>) -> Option<
    Seq<Rgb>,
> {
    if local is Some {
        local
    } else {
        global
    }
}

/// The sequence held by an optional borrowed color table.
pub open spec fn opt_palette_view(pal: Option<&Vec<Rgb>>) -> Option<Seq<Rgb>> {
    match pal {
        Some(p) => Some(p@),
        None => None,
    }
}

/// Combined frames forming a "virtual screen": the canvas as composited so
/// far, the animation's global color table, and the disposal pending from
/// the frame drawn last.
pub struct Screen {
    width: usize,
    height: usize,
    pixels: Vec<Rgba>,
    global_pal: Option<Vec<Rgb>>,
    next_disposal: Disposal,
}

impl Screen {
    /// The canvas width in pixels.
    pub closed spec fn spec_width(self) -> int {
        self.width as int
    }

    /// The canvas height in pixels.
    pub closed spec fn spec_height(self) -> int {
        self.height as int
    }

    /// The canvas pixels, row-major.
    pub closed spec fn canvas(self) -> Seq<Rgba> {
        self.pixels@
    }

    /// The animation's global color table, if one was given.
    pub closed spec fn global_palette(self) -> Option<Seq<Rgb>> {
        match self.global_pal {
            Some(p) => Some(p@),
            None => None,
        }
    }

    /// The disposal pending from the frame drawn last, applied before the
    /// next frame is drawn.
    pub closed spec fn pending(self) -> Disposal {
        self.next_disposal
    }

    /// Well-formed: the canvas covers exactly its advertised extent and the
    /// pending disposal fits on it.
    pub open spec fn wf(self) -> bool {
        &&& self.canvas().len() == self.spec_width() * self.spec_height()
        &&& self.pending().wf(self.spec_width(), self.spec_height())
    }
}

/// What blitting one frame without a preceding dispose step guarantees,
/// relating the screen after the call (`post`) to the screen before it
/// (`pre`). On success the canvas is the blit of the old canvas and the
/// captured disposal is pending; with no color table to resolve through,
/// nothing at all has changed.
pub open spec fn blit_result(
    pre: Screen,
    post: Screen,
    local: Option<Seq<Rgb>>,
    method: DisposalMethod,
    r: Rect,
    buf: Seq<u8>,
    transparent: Option<u8>,
    result: Result<(), Error>,
) -> bool {
    &&& (result is Ok <==> (local is Some || pre.global_palette() is Some))
    &&& post.spec_width() == pre.spec_width()
    &&& post.spec_height() == pre.spec_height()
    &&& post.global_palette() == pre.global_palette()
    &&& match result {
        Ok(()) => {
            &&& post.canvas() == blit_canvas(
                pre.canvas(),
                pre.spec_width(),
                effective_palette(local, pre.global_palette()).unwrap(),
                r,
                buf,
                transparent,
            )
            &&& captures(post.pending(), method, r, pre.canvas(), pre.spec_width())
        },
        Err(e) => {
            &&& e == Error::NoPalette
            &&& post == pre
        },
    }
}

/// What advancing the screen by one whole frame guarantees: first the
/// pending disposal restores part of the canvas, then the frame is blitted
/// onto the restored canvas. With no color table to resolve through, the
/// restore has still happened — it belongs to the previous frame — but the
/// canvas is otherwise unmodified and the pending disposal is kept.
pub open spec fn draw_result(
    pre: Screen,
    post: Screen,
    local: Option<Seq<Rgb>>,
    method: DisposalMethod,
    r: Rect,
    buf: Seq<u8>,
    transparent: Option<u8>,
    result: Result<(), Error>,
) -> bool {
    let mid = disposed_canvas(pre.canvas(), pre.spec_width(), pre.pending());
    &&& (result is Ok <==> (local is Some || pre.global_palette() is Some))
    &&& post.spec_width() == pre.spec_width()
    &&& post.spec_height() == pre.spec_height()
    &&& post.global_palette() == pre.global_palette()
    &&& match result {
        Ok(()) => {
            &&& post.canvas() == blit_canvas(
                mid,
                pre.spec_width(),
                effective_palette(local, pre.global_palette()).unwrap(),
                r,
                buf,
                transparent,
            )
            &&& captures(post.pending(), method, r, mid, pre.spec_width())
        },
        Err(e) => {
            &&& e == Error::NoPalette
            &&& post.canvas() == mid
            &&& post.pending() == pre.pending()
        },
    }
}

/// Materialize a color table into the 256 destination pixels it maps source
/// indices to, padding past its end with the zero color, everything at full
/// opacity, so that every 8-bit index is in range without a per-pixel check.
#[verifier::loop_isolation(false)]
fn resolve_table(pal: &Vec<Rgb>) -> (table: Vec<Rgba>)
    ensures
        table@.len() == 256,
        forall|i: int| 0 <= i < 256 ==> table@[i] == resolved(pal@, i),
{
    let mut table: Vec<Rgba> = Vec::new();
    let n = pal.len();
    for i in 0..256usize
        invariant
            table@.len() == i,
            forall|j: int| 0 <= j < i ==> table@[j] == resolved(pal@, j),
    {
        if i < n {
            table.push(Rgba::opaque(pal[i]));
        } else {
            table.push(Rgba::opaque(Rgb::zero()));
        }
    }
    table
}

impl Screen {
    /// Manual setup of the canvas: its overall extent — at least every
    /// individual frame's rectangle — and the animation's global color
    /// table, if it has one. The canvas starts fully transparent, with
    /// nothing pending.
    pub fn new(width: usize, height: usize, global_pal: Option<Vec<Rgb>>) -> (s: Screen)
        requires
            width * height <= usize::MAX,
        ensures
            s.wf(),
            s.spec_width() == width,
            s.spec_height() == height,
            s.canvas().len() == width * height,
            forall|i: int| 0 <= i < s.canvas().len() ==> s.canvas()[i] == Rgba::spec_zero(),
            s.global_palette() == (match global_pal {
                Some(p) => Some(p@),
                None => None::<Seq<Rgb>>,
            }),
            s.pending() == Disposal::Keep,
    {
        let total = width * height;
        let mut pixels: Vec<Rgba> = Vec::new();
        for i in 0..total
            invariant
                pixels@.len() == i,
                forall|j: int| 0 <= j < i ==> pixels@[j] == Rgba::spec_zero(),
        {
            pixels.push(Rgba::zero());
        }
        Screen { width, height, pixels, global_pal, next_disposal: Disposal::Keep }
    }

    /// The canvas width in pixels.
    pub fn width(&self) -> (w: usize)
        ensures
            w == self.spec_width(),
    {
        self.width
    }

    /// The canvas height in pixels.
    pub fn height(&self) -> (h: usize)
        ensures
            h == self.spec_height(),
    {
        self.height
    }

    /// Access the currently rendered pixels, row-major.
    pub fn pixels_rgba(&self) -> (p: &Vec<Rgba>)
        ensures
            p@ == self.canvas(),
    {
        &self.pixels
    }

    /// Use [`Screen::pixels_rgba`]; kept under the older name.
    pub fn pixels(&self) -> (p: &Vec<Rgba>)
        ensures
            p@ == self.canvas(),
    {
        &self.pixels
    }

    /// Apply the pending disposal to the canvas, leaving it pending.
    fn apply_disposal(&mut self)
        requires
            old(self).wf(),
        ensures
            final(self).wf(),
            final(self).canvas() == disposed_canvas(
                old(self).canvas(),
                old(self).spec_width(),
                old(self).pending(),
            ),
            final(self).spec_width() == old(self).spec_width(),
            final(self).spec_height() == old(self).spec_height(),
            final(self).global_palette() == old(self).global_palette(),
            final(self).pending() == old(self).pending(),
    {
        let disposal = &self.next_disposal;
        disposal.dispose(&mut self.pixels, self.width, self.height);
    }

    /// Resolve the frame's color table, capture the next disposal against the
    /// canvas as it stands — before this frame's pixels land, which is what
    /// makes `Previous` correct — and blit. The dispose step must already
    /// have happened.
    fn blit_without_dispose(
        &mut self,
        local_pal: Option<&Vec<Rgb>>,
        method: DisposalMethod,
        left: u16,
        top: u16,
        width: u16,
        height: u16,
        buffer: &Vec<u8>,
        transparent: Option<u8>,
    ) -> (result: Result<(), Error>)
        requires
            old(self).wf(),
            rect_ok(
                Rect { left, top, width, height },
                old(self).spec_width(),
                old(self).spec_height(),
            ),
            buffer@.len() == width * height,
        ensures
            final(self).wf(),
            blit_result(
                *old(self),
                *final(self),
                opt_palette_view(local_pal),
                method,
                Rect { left, top, width, height },
                buffer@,
                transparent,
                result,
            ),
    {
        let r = Rect { left, top, width, height };
        let table: Vec<Rgba> = match local_pal {
            Some(p) => resolve_table(p),
            None => match &self.global_pal {
                Some(g) => resolve_table(g),
                None => {
                    return Err(Error::NoPalette);
                },
            },
        };
        let ghost pal = effective_palette(
            opt_palette_view(local_pal),
            self.global_palette(),
        ).unwrap();
        let next = Disposal::new(
            method,
            left,
            top,
            width,
            height,
            &self.pixels,
            self.width,
            self.height,
        );
        blit_rect(&mut self.pixels, self.width, self.height, r, &table, buffer, transparent);
        self.next_disposal = next;
        proof {
            let cw = old(self).spec_width();
            let ch = old(self).spec_height();
            let post = blit_canvas(old(self).canvas(), cw, pal, r, buffer@, transparent);
            assert forall|x: int, y: int| 0 <= x < cw && 0 <= y < ch implies self.pixels@[
                #[trigger] pix(cw, x, y)
            ] == post[pix(cw, x, y)] by {
                lemma_pix_bounds(cw, ch, x, y);
                lemma_pix_coords(cw, x, y);
            }
            lemma_canvas_pointwise(self.pixels@, post, cw, ch);
        }
        Ok(())
    }

    /// Low-level form of [`Screen::blit_frame`]: advance the screen by one
    /// frame given as its parts. The pending disposal is applied first; then
    /// the frame's indices are written through its resolved color table,
    /// skipping the transparent index, and the frame's own disposal becomes
    /// pending. With no local and no global color table the call fails with
    /// [`Error::NoPalette`] after the dispose step alone.
    pub fn blit(
        &mut self,
        local_pal: Option<&Vec<Rgb>>,
        method: DisposalMethod,
        left: u16,
        top: u16,
        width: u16,
        height: u16,
        buffer: &Vec<u8>,
        transparent: Option<u8>,
    ) -> (result: Result<(), Error>)
        requires
            old(self).wf(),
            rect_ok(
                Rect { left, top, width, height },
                old(self).spec_width(),
                old(self).spec_height(),
            ),
            buffer@.len() == width * height,
        ensures
            final(self).wf(),
            draw_result(
                *old(self),
                *final(self),
                opt_palette_view(local_pal),
                method,
                Rect { left, top, width, height },
                buffer@,
                transparent,
                result,
            ),
    {
        self.apply_disposal();
        self.blit_without_dispose(local_pal, method, left, top, width, height, buffer, transparent)
    }

    /// Advance the screen by one frame. Equivalent to [`Screen::blit`] on the
    /// frame's parts; use [`Screen::pixels_rgba`] afterwards to read the
    /// composited canvas.
    pub fn blit_frame(&mut self, frame: &Frame) -> (result: Result<(), Error>)
        requires
            old(self).wf(),
            rect_ok(frame.rect(), old(self).spec_width(), old(self).spec_height()),
            frame.buffer@.len() == frame.width * frame.height,
        ensures
            final(self).wf(),
            draw_result(
                *old(self),
                *final(self),
                frame.palette_view(),
                frame.disposal,
                frame.rect(),
                frame.buffer@,
                frame.transparent,
                result,
            ),
    {
        self.blit(
            frame.palette.as_ref(),
            frame.disposal,
            frame.left,
            frame.top,
            frame.width,
            frame.height,
            &frame.buffer,
            frame.transparent,
        )
    }

    /// Apply the pending disposal alone, exposing the canvas in its
    /// "disposed but not yet redrawn" state. This in-between state is never
    /// the displayed image; it exists so that encoders can compute a minimal
    /// difference between frames. Every call must be followed by
    /// [`TempDisposedStateScreen::then_blit`], which completes the cycle —
    /// until then the canvas stays legitimately mid-transition.
    pub fn dispose_only(self) -> (t: TempDisposedStateScreen)
        requires
            self.wf(),
        ensures
            t.screen().wf(),
            t.screen().canvas() == disposed_canvas(
                self.canvas(),
                self.spec_width(),
                self.pending(),
            ),
            t.screen().spec_width() == self.spec_width(),
            t.screen().spec_height() == self.spec_height(),
            t.screen().global_palette() == self.global_palette(),
            t.screen().pending() == self.pending(),
    {
        let mut s = self;
        s.apply_disposal();
        TempDisposedStateScreen { screen: s }
    }
}

/// A screen in the temporary state between two frames: the previous frame's
/// disposal has been applied, the next frame has not been drawn. Complete
/// the cycle with [`TempDisposedStateScreen::then_blit`].
#[must_use]
pub struct TempDisposedStateScreen {
    screen: Screen,
}

impl TempDisposedStateScreen {
    /// The screen held mid-transition.
    pub closed spec fn screen(self) -> Screen {
        self.screen
    }

    /// Complete the cycle begun by [`Screen::dispose_only`]: blit the frame
    /// onto the already-disposed canvas and hand the screen back, together
    /// with the outcome. With no color table to resolve through the screen
    /// comes back unchanged, still carrying its pending disposal.
    pub fn then_blit(
        self,
        local_pal: Option<&Vec<Rgb>>,
        method: DisposalMethod,
        left: u16,
        top: u16,
        width: u16,
        height: u16,
        buffer: &Vec<u8>,
        transparent: Option<u8>,
    ) -> (outcome: (Screen, Result<(), Error>))
        requires
            self.screen().wf(),
            rect_ok(
                Rect { left, top, width, height },
                self.screen().spec_width(),
                self.screen().spec_height(),
            ),
            buffer@.len() == width * height,
        ensures
            outcome.0.wf(),
            blit_result(
                self.screen(),
                outcome.0,
                opt_palette_view(local_pal),
                method,
                Rect { left, top, width, height },
                buffer@,
                transparent,
                outcome.1,
            ),
    {
        let mut s = self.screen;
        let result = s.blit_without_dispose(
            local_pal,
            method,
            left,
            top,
            width,
            height,
            buffer,
            transparent,
        );
        (s, result)
    }

    /// Access the pixels of the in-between state, row-major.
    pub fn pixels_rgba(&self) -> (p: &Vec<Rgba>)
        ensures
            p@ == self.screen().canvas(),
    {
        &self.screen.pixels
    }

    /// Use [`TempDisposedStateScreen::pixels_rgba`]; kept under the older
    /// name.
    pub fn pixels(&self) -> (p: &Vec<Rgba>)
        ensures
            p@ == self.screen().canvas(),
    {
        &self.screen.pixels
    }
}

/// Snapshot round-trip at the screen level: a frame drawn with the
/// `Previous` directive took the screen from `before` to `drawn`, its
/// snapshot captured immediately before its own pixels landed. When the
/// engine next disposes — the first thing the next draw does — the frame's
/// rectangle holds again the exact pixels it held immediately before that
/// frame was drawn, whatever the frame drew over it.
pub proof fn lemma_screen_snapshot_round_trip(
    before: Screen,
    drawn: Screen,
    local: Option<Seq<Rgb>>,
    r: Rect,
    buf: Seq<u8>,
    transparent: Option<u8>,
)
    requires
        before.wf(),
        drawn.wf(),
        blit_result(before, drawn, local, DisposalMethod::Previous, r, buf, transparent, Ok(())),
    ensures
        forall|x: int, y: int|
            0 <= x < before.spec_width() && 0 <= y < before.spec_height() && in_rect(r, x, y)
                ==> disposed_canvas(drawn.canvas(), drawn.spec_width(), drawn.pending())[
                #[trigger] pix(before.spec_width(), x, y)
            ] == before.canvas()[pix(before.spec_width(), x, y)],
{
    lemma_snapshot_round_trip(
        before.canvas(),
        drawn.canvas(),
        before.spec_width(),
        before.spec_height(),
        r,
        drawn.pending(),
    );
}

} // verus!
