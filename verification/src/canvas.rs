//! The canvas model: a fixed-size buffer of pixels in row-major order,
//! addressed either by a flat index or by `(x, y)` coordinates, together with
//! the sub-rectangle vocabulary that the disposal engine and the blit share.

use vstd::prelude::*;

use crate::pixel::Rgb;
use crate::pixel::Rgba;

verus! {

/// A rectangle within the canvas, given by its top-left corner and extent.
#[derive(Eq, PartialEq, Copy, Clone, Debug, Structural)]
pub struct Rect {
    pub left: u16,
    pub top: u16,
    pub width: u16,
    pub height: u16,
}

/// The flat row-major index of coordinate `(x, y)` on a canvas `cw` pixels wide.
pub open spec fn pix(cw: int, x: int, y: int) -> int {
    y * cw + x
}

/// Whether coordinate `(x, y)` lies inside rectangle `r`.
pub open spec fn in_rect(r: Rect, x: int, y: int) -> bool {
    &&& r.left <= x < r.left + r.width
    &&& r.top <= y < r.top + r.height
}

/// A rectangle is acceptable on a `cw` by `ch` canvas when it is empty (an
/// empty rectangle is a no-op wherever its corner sits) or lies fully within
/// the canvas bounds.
pub open spec fn rect_ok(r: Rect, cw: int, ch: int) -> bool {
    ||| r.width == 0
    ||| r.height == 0
    ||| (r.left + r.width <= cw && r.top + r.height <= ch)
}

/// The color a source index resolves to through a color table: the table
/// entry taken at full opacity, or, past the table's end, the zero color at
/// full opacity. Padding instead of failing is deliberate: indexed pixels may
/// legally reference unused slots of a short table.
pub open spec fn resolved(pal: Seq<Rgb>, idx: int) -> Rgba {
    if 0 <= idx < pal.len() {
        Rgba::spec_opaque(pal[idx])
    } else {
        Rgba::spec_opaque(Rgb::spec_zero())
    }
}

/// The pixels of rectangle `r`, read from the canvas in row-major order
/// within the rectangle: entry `dy * r.width + dx` is the canvas pixel at
/// `(r.left + dx, r.top + dy)`.
pub open spec fn saved_rect(canvas: Seq<Rgba>, cw: int, r: Rect) -> Seq<Rgba> {
    Seq::new(
        (r.width * r.height) as nat,
        |j: int| canvas[pix(cw, r.left + j % (r.width as int), r.top + j / (r.width as int))],
    )
}

/// The value of the canvas pixel at `(x, y)` after blitting `buf` through
/// color table `pal` into rectangle `r`: inside the rectangle a source index
/// equal to the declared transparent index leaves the pixel as it was, any
/// other index resolves through the table; outside the rectangle nothing
/// changes.
pub open spec fn blit_pix(
    canvas: Seq<Rgba>,
    cw: int,
    pal: Seq<Rgb>,
    r: Rect,
    buf: Seq<u8>,
    transparent: Option<u8>,
    x: int,
    y: int,
) -> Rgba {
    if in_rect(r, x, y) {
        let idx = buf[(y - r.top) * r.width + (x - r.left)];
        if transparent == Some(idx) {
            canvas[pix(cw, x, y)]
        } else {
            resolved(pal, idx as int)
        }
    } else {
        canvas[pix(cw, x, y)]
    }
}

/// The whole canvas after blitting `buf` through `pal` into rectangle `r`,
/// pixel by pixel as [`blit_pix`] says.
pub open spec fn blit_canvas(
    canvas: Seq<Rgba>,
    cw: int,
    pal: Seq<Rgb>,
    r: Rect,
    buf: Seq<u8>,
    transparent: Option<u8>,
) -> Seq<Rgba> {
    Seq::new(canvas.len(), |i: int| blit_pix(canvas, cw, pal, r, buf, transparent, i % cw, i / cw))
}

/// On a canvas `cw` pixels wide, a coordinate pair within bounds has a flat
/// index within the canvas area.
pub proof fn lemma_pix_bounds(cw: int, ch: int, x: int, y: int)
    requires
        0 <= x < cw,
        0 <= y < ch,
    ensures
        0 <= pix(cw, x, y) < cw * ch,
{
    assert(0 <= y * cw + x < cw * ch) by (nonlinear_arith)
        requires
            0 <= x < cw,
            0 <= y < ch,
    ;
}

/// Flat index and coordinates are inverse to each other: the flat index of
/// `(x, y)` decomposes back into `x` and `y`.
pub proof fn lemma_pix_coords(cw: int, x: int, y: int)
    requires
        0 <= x < cw,
        0 <= y,
    ensures
        pix(cw, x, y) % cw == x,
        pix(cw, x, y) / cw == y,
{
    vstd::arithmetic::div_mod::lemma_fundamental_div_mod_converse(y * cw + x, cw, y, x);
}

/// Coordinates and flat index are inverse to each other: a flat index within
/// the canvas area decomposes into a coordinate pair within bounds whose flat
/// index it is.
pub proof fn lemma_coords_pix(cw: int, ch: int, i: int)
    requires
        cw > 0,
        0 <= i < cw * ch,
    ensures
        0 <= i % cw < cw,
        0 <= i / cw < ch,
        pix(cw, i % cw, i / cw) == i,
{
    vstd::arithmetic::div_mod::lemma_fundamental_div_mod(i, cw);
    vstd::arithmetic::mul::lemma_mul_is_commutative(cw, i / cw);
    assert(i / cw < ch) by (nonlinear_arith)
        requires
            cw > 0,
            0 <= i < cw * ch,
            i == cw * (i / cw) + i % cw,
            0 <= i % cw < cw,
    ;
}

/// Distinct in-bounds coordinates have distinct flat indices.
pub proof fn lemma_pix_injective(cw: int, x1: int, y1: int, x2: int, y2: int)
    requires
        0 <= x1 < cw,
        0 <= x2 < cw,
        0 <= y1,
        0 <= y2,
        pix(cw, x1, y1) == pix(cw, x2, y2),
    ensures
        x1 == x2,
        y1 == y2,
{
    lemma_pix_coords(cw, x1, y1);
    lemma_pix_coords(cw, x2, y2);
}

/// Two canvases of the same `cw` by `ch` extent that agree at the flat index
/// of every in-bounds coordinate are equal.
pub proof fn lemma_canvas_pointwise(a: Seq<Rgba>, b: Seq<Rgba>, cw: int, ch: int)
    requires
        a.len() == cw * ch,
        b.len() == cw * ch,
        cw >= 0,
        ch >= 0,
        forall|x: int, y: int|
            0 <= x < cw && 0 <= y < ch ==> a[#[trigger] pix(cw, x, y)] == b[pix(cw, x, y)],
    ensures
        a == b,
{
    assert forall|i: int| 0 <= i < a.len() implies a[i] == b[i] by {
        assert(cw > 0);
        lemma_coords_pix(cw, ch, i);
        assert(a[pix(cw, i % cw, i / cw)] == b[pix(cw, i % cw, i / cw)]);
    }
    assert(a =~= b);
}

/// Reading [`saved_rect`] at the row-major offset of an in-rectangle
/// coordinate gives back exactly the canvas pixel at that coordinate.
pub proof fn lemma_saved_rect_at(canvas: Seq<Rgba>, cw: int, r: Rect, x: int, y: int)
    requires
        in_rect(r, x, y),
    ensures
        0 <= (y - r.top) * r.width + (x - r.left) < r.width * r.height,
        saved_rect(canvas, cw, r)[(y - r.top) * r.width + (x - r.left)] == canvas[pix(cw, x, y)],
{
    let dx = x - r.left;
    let dy = y - r.top;
    let j = dy * r.width + dx;
    assert(0 <= j < r.width * r.height) by (nonlinear_arith)
        requires
            0 <= dx < r.width,
            0 <= dy < r.height,
            j == dy * r.width + dx,
    ;
    vstd::arithmetic::div_mod::lemma_fundamental_div_mod_converse(j, r.width as int, dy, dx);
}

/// Transparency skip: a source index equal to the frame's declared
/// transparent index leaves the destination pixel exactly as it was
/// immediately before drawing, whatever the canvas held there.
pub proof fn lemma_transparent_skip(
    canvas: Seq<Rgba>,
    cw: int,
    ch: int,
    pal: Seq<Rgb>,
    r: Rect,
    buf: Seq<u8>,
    t: u8,
    x: int,
    y: int,
)
    requires
        canvas.len() == cw * ch,
        0 <= x < cw,
        0 <= y < ch,
        in_rect(r, x, y),
        buf[(y - r.top) * r.width + (x - r.left)] == t,
    ensures
        blit_canvas(canvas, cw, pal, r, buf, Some(t))[pix(cw, x, y)] == canvas[pix(cw, x, y)],
{
    lemma_pix_bounds(cw, ch, x, y);
    lemma_pix_coords(cw, x, y);
}

/// Palette padding safety: a source index at or past the color table's end
/// never fails; it resolves to the zero color at full opacity, and that is
/// what the blit writes wherever such an index is not the transparent one.
pub proof fn lemma_palette_padding(
    canvas: Seq<Rgba>,
    cw: int,
    ch: int,
    pal: Seq<Rgb>,
    r: Rect,
    buf: Seq<u8>,
    transparent: Option<u8>,
    x: int,
    y: int,
)
    requires
        canvas.len() == cw * ch,
        0 <= x < cw,
        0 <= y < ch,
        in_rect(r, x, y),
        pal.len() <= buf[(y - r.top) * r.width + (x - r.left)],
        transparent != Some(buf[(y - r.top) * r.width + (x - r.left)]),
    ensures
        resolved(pal, buf[(y - r.top) * r.width + (x - r.left)] as int) == Rgba::spec_opaque(
            Rgb::spec_zero(),
        ),
        blit_canvas(canvas, cw, pal, r, buf, transparent)[pix(cw, x, y)] == Rgba::spec_opaque(
            Rgb::spec_zero(),
        ),
{
    lemma_pix_bounds(cw, ch, x, y);
    lemma_pix_coords(cw, x, y);
}

/// The value of the canvas pixel at `(x, y)` after blitting `buf` into
/// rectangle `r` through a fully materialized table of destination pixels:
/// like [`blit_pix`], but the table already carries the final pixel of every
/// possible source index.
pub open spec fn blit_pix_table(
    canvas: Seq<Rgba>,
    cw: int,
    table: Seq<Rgba>,
    r: Rect,
    buf: Seq<u8>,
    transparent: Option<u8>,
    x: int,
    y: int,
) -> Rgba {
    if in_rect(r, x, y) {
        let idx = buf[(y - r.top) * r.width + (x - r.left)];
        if transparent == Some(idx) {
            canvas[pix(cw, x, y)]
        } else {
            table[idx as int]
        }
    } else {
        canvas[pix(cw, x, y)]
    }
}

/// Read the pixels of rectangle `r` out of the canvas, row-major within the
/// rectangle. An empty rectangle yields an empty buffer wherever its corner
/// sits.
#[verifier::loop_isolation(false)]
pub fn copy_rect(pixels: &Vec<Rgba>, cw: usize, ch: usize, r: Rect) -> (saved: Vec<Rgba>)
    requires
        pixels@.len() == cw * ch,
        rect_ok(r, cw as int, ch as int),
    ensures
        saved@ == saved_rect(pixels@, cw as int, r),
{
    let mut saved: Vec<Rgba> = Vec::new();
    if r.width == 0 || r.height == 0 {
        proof {
            assert(saved@ =~= saved_rect(pixels@, cw as int, r));
        }
        return saved;
    }
    // The canvas area fits in usize, so flat indices cannot overflow.
    let _area = pixels.len();
    let w = r.width as usize;
    let h = r.height as usize;
    let left = r.left as usize;
    let top = r.top as usize;
    for dy in 0..h
        invariant
            saved@.len() == dy * w,
            forall|j: int|
                0 <= j < saved@.len() ==> saved@[j] == saved_rect(pixels@, cw as int, r)[j],
    {
        for dx in 0..w
            invariant
                saved@.len() == dy * w + dx,
                forall|j: int|
                    0 <= j < saved@.len() ==> saved@[j] == saved_rect(pixels@, cw as int, r)[j],
        {
            let y = top + dy;
            let x = left + dx;
            proof {
                lemma_pix_bounds(cw as int, ch as int, x as int, y as int);
            }
            let p = pixels[y * cw + x];
            saved.push(p);
            proof {
                lemma_saved_rect_at(pixels@, cw as int, r, x as int, y as int);
            }
        }
        proof {
            assert((dy + 1) * w == dy * w + w) by (nonlinear_arith);
        }
    }
    proof {
        vstd::arithmetic::mul::lemma_mul_is_commutative(h as int, w as int);
        assert(saved@ =~= saved_rect(pixels@, cw as int, r));
    }
    saved
}

/// Overwrite every pixel of rectangle `r` with `p`, leaving the rest of the
/// canvas untouched. An empty rectangle is a no-op wherever its corner sits.
#[verifier::loop_isolation(false)]
pub fn fill_rect(pixels: &mut Vec<Rgba>, cw: usize, ch: usize, r: Rect, p: Rgba)
    requires
        old(pixels)@.len() == cw * ch,
        rect_ok(r, cw as int, ch as int),
    ensures
        final(pixels)@.len() == cw * ch,
        forall|x: int, y: int|
            0 <= x < cw && 0 <= y < ch ==> final(pixels)@[#[trigger] pix(cw as int, x, y)] == (
            if in_rect(r, x, y) {
                p
            } else {
                old(pixels)@[pix(cw as int, x, y)]
            }),
{
    if r.width == 0 || r.height == 0 {
        return;
    }
    // The canvas area fits in usize, so flat indices cannot overflow.
    let _area = pixels.len();
    let w = r.width as usize;
    let h = r.height as usize;
    let left = r.left as usize;
    let top = r.top as usize;
    for dy in 0..h
        invariant
            pixels@.len() == cw * ch,
            forall|x: int, y: int|
                0 <= x < cw && 0 <= y < ch ==> pixels@[#[trigger] pix(cw as int, x, y)] == (
                if in_rect(r, x, y) && y < top + dy {
                    p
                } else {
                    old(pixels)@[pix(cw as int, x, y)]
                }),
    {
        for dx in 0..w
            invariant
                pixels@.len() == cw * ch,
                forall|x: int, y: int|
                    0 <= x < cw && 0 <= y < ch ==> pixels@[#[trigger] pix(cw as int, x, y)] == (
                    if in_rect(r, x, y) && (y < top + dy || (y == top + dy && x < left + dx)) {
                        p
                    } else {
                        old(pixels)@[pix(cw as int, x, y)]
                    }),
        {
            let y = top + dy;
            let x = left + dx;
            proof {
                lemma_pix_bounds(cw as int, ch as int, x as int, y as int);
            }
            pixels[y * cw + x] = p;
            proof {
                assert forall|x2: int, y2: int| 0 <= x2 < cw && 0 <= y2 < ch implies pixels@[#[trigger] pix(
                    cw as int,
                    x2,
                    y2,
                )] == (if in_rect(r, x2, y2) && (y2 < top + dy || (y2 == top + dy && x2 < left + dx
                    + 1)) {
                    p
                } else {
                    old(pixels)@[pix(cw as int, x2, y2)]
                }) by {
                    lemma_pix_bounds(cw as int, ch as int, x2, y2);
                    if pix(cw as int, x2, y2) == pix(cw as int, x as int, y as int) {
                        lemma_pix_injective(cw as int, x2, y2, x as int, y as int);
                    }
                }
            }
        }
    }
}

/// Write `saved`, a row-major rectangle of pixels as [`saved_rect`] lays it
/// out, back into rectangle `r`, leaving the rest of the canvas untouched.
#[verifier::loop_isolation(false)]
pub fn write_rect(pixels: &mut Vec<Rgba>, cw: usize, ch: usize, r: Rect, saved: &Vec<Rgba>)
    requires
        old(pixels)@.len() == cw * ch,
        rect_ok(r, cw as int, ch as int),
        saved@.len() == r.width * r.height,
    ensures
        final(pixels)@.len() == cw * ch,
        forall|x: int, y: int|
            0 <= x < cw && 0 <= y < ch ==> final(pixels)@[#[trigger] pix(cw as int, x, y)] == (
            if in_rect(r, x, y) {
                saved@[(y - r.top) * r.width + (x - r.left)]
            } else {
                old(pixels)@[pix(cw as int, x, y)]
            }),
{
    if r.width == 0 || r.height == 0 {
        return;
    }
    // The canvas and snapshot areas fit in usize, so the index arithmetic
    // cannot overflow.
    let _area = pixels.len();
    let _saved_len = saved.len();
    let w = r.width as usize;
    let h = r.height as usize;
    let left = r.left as usize;
    let top = r.top as usize;
    for dy in 0..h
        invariant
            pixels@.len() == cw * ch,
            forall|x: int, y: int|
                0 <= x < cw && 0 <= y < ch ==> pixels@[#[trigger] pix(cw as int, x, y)] == (
                if in_rect(r, x, y) && y < top + dy {
                    saved@[(y - r.top) * r.width + (x - r.left)]
                } else {
                    old(pixels)@[pix(cw as int, x, y)]
                }),
    {
        for dx in 0..w
            invariant
                pixels@.len() == cw * ch,
                forall|x: int, y: int|
                    0 <= x < cw && 0 <= y < ch ==> pixels@[#[trigger] pix(cw as int, x, y)] == (
                    if in_rect(r, x, y) && (y < top + dy || (y == top + dy && x < left + dx)) {
                        saved@[(y - r.top) * r.width + (x - r.left)]
                    } else {
                        old(pixels)@[pix(cw as int, x, y)]
                    }),
        {
            let y = top + dy;
            let x = left + dx;
            proof {
                lemma_pix_bounds(cw as int, ch as int, x as int, y as int);
                assert(0 <= dy * w + dx < w * h) by (nonlinear_arith)
                    requires
                        0 <= dx < w,
                        0 <= dy < h,
                ;
            }
            let v = saved[dy * w + dx];
            pixels[y * cw + x] = v;
            proof {
                assert forall|x2: int, y2: int| 0 <= x2 < cw && 0 <= y2 < ch implies pixels@[#[trigger] pix(
                    cw as int,
                    x2,
                    y2,
                )] == (if in_rect(r, x2, y2) && (y2 < top + dy || (y2 == top + dy && x2 < left + dx
                    + 1)) {
                    saved@[(y2 - r.top) * r.width + (x2 - r.left)]
                } else {
                    old(pixels)@[pix(cw as int, x2, y2)]
                }) by {
                    lemma_pix_bounds(cw as int, ch as int, x2, y2);
                    if pix(cw as int, x2, y2) == pix(cw as int, x as int, y as int) {
                        lemma_pix_injective(cw as int, x2, y2, x as int, y as int);
                    }
                }
            }
        }
    }
}

/// Write `buf`, a row-major rectangle of source indices, into rectangle `r`
/// through `table`, a fully materialized table of destination pixels: a
/// source index equal to the declared transparent index leaves the
/// destination pixel unchanged, any other is looked up in the table. The
/// rest of the canvas is untouched.
#[verifier::loop_isolation(false)]
pub fn blit_rect(
    pixels: &mut Vec<Rgba>,
    cw: usize,
    ch: usize,
    r: Rect,
    table: &Vec<Rgba>,
    buf: &Vec<u8>,
    transparent: Option<u8>,
)
    requires
        old(pixels)@.len() == cw * ch,
        rect_ok(r, cw as int, ch as int),
        buf@.len() == r.width * r.height,
        table@.len() == 256,
    ensures
        final(pixels)@.len() == cw * ch,
        forall|x: int, y: int|
            0 <= x < cw && 0 <= y < ch ==> final(pixels)@[#[trigger] pix(cw as int, x, y)]
                == blit_pix_table(old(pixels)@, cw as int, table@, r, buf@, transparent, x, y),
{
    if r.width == 0 || r.height == 0 {
        return;
    }
    // The canvas and frame areas fit in usize, so the index arithmetic
    // cannot overflow.
    let _area = pixels.len();
    let _buf_len = buf.len();
    let w = r.width as usize;
    let h = r.height as usize;
    let left = r.left as usize;
    let top = r.top as usize;
    for dy in 0..h
        invariant
            pixels@.len() == cw * ch,
            forall|x: int, y: int|
                0 <= x < cw && 0 <= y < ch ==> pixels@[#[trigger] pix(cw as int, x, y)] == (
                if in_rect(r, x, y) && y < top + dy {
                    blit_pix_table(old(pixels)@, cw as int, table@, r, buf@, transparent, x, y)
                } else {
                    old(pixels)@[pix(cw as int, x, y)]
                }),
    {
        for dx in 0..w
            invariant
                pixels@.len() == cw * ch,
                forall|x: int, y: int|
                    0 <= x < cw && 0 <= y < ch ==> pixels@[#[trigger] pix(cw as int, x, y)] == (
                    if in_rect(r, x, y) && (y < top + dy || (y == top + dy && x < left + dx)) {
                        blit_pix_table(old(pixels)@, cw as int, table@, r, buf@, transparent, x, y)
                    } else {
                        old(pixels)@[pix(cw as int, x, y)]
                    }),
        {
            let y = top + dy;
            let x = left + dx;
            proof {
                lemma_pix_bounds(cw as int, ch as int, x as int, y as int);
                assert(0 <= dy * w + dx < w * h) by (nonlinear_arith)
                    requires
                        0 <= dx < w,
                        0 <= dy < h,
                ;
            }
            let idx = buf[dy * w + dx];
            let skip = match transparent {
                Some(t) => idx == t,
                None => false,
            };
            if !skip {
                let v = table[idx as usize];
                pixels[y * cw + x] = v;
            }
            proof {
                assert forall|x2: int, y2: int| 0 <= x2 < cw && 0 <= y2 < ch implies pixels@[#[trigger] pix(
                    cw as int,
                    x2,
                    y2,
                )] == (if in_rect(r, x2, y2) && (y2 < top + dy || (y2 == top + dy && x2 < left + dx
                    + 1)) {
                    blit_pix_table(old(pixels)@, cw as int, table@, r, buf@, transparent, x2, y2)
                } else {
                    old(pixels)@[pix(cw as int, x2, y2)]
                }) by {
                    lemma_pix_bounds(cw as int, ch as int, x2, y2);
                    if pix(cw as int, x2, y2) == pix(cw as int, x as int, y as int) {
                        lemma_pix_injective(cw as int, x2, y2, x as int, y as int);
                    }
                }
            }
        }
    }
}

} // verus!
