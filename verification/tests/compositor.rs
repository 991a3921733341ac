//! End-to-end tests of the compositor: disposal behaviour, transparency,
//! palette resolution and padding, and the two-phase dispose/blit protocol.

use gif_dispose::DisposalMethod;
use gif_dispose::Error;
use gif_dispose::Frame;
use gif_dispose::Rgb;
use gif_dispose::Rgba;
use gif_dispose::Screen;

fn rgb(r: u8, g: u8, b: u8) -> Rgb {
    Rgb { r, g, b }
}

fn opaque(r: u8, g: u8, b: u8) -> Rgba {
    Rgba { r, g, b, a: 255 }
}

fn zero() -> Rgba {
    Rgba { r: 0, g: 0, b: 0, a: 0 }
}

fn frame(
    left: u16,
    top: u16,
    width: u16,
    height: u16,
    disposal: DisposalMethod,
    transparent: Option<u8>,
    palette: Option<Vec<Rgb>>,
    buffer: Vec<u8>,
) -> Frame {
    Frame { left, top, width, height, disposal, transparent, palette, buffer }
}

fn pixel(screen: &Screen, x: usize, y: usize) -> Rgba {
    screen.pixels_rgba()[y * screen.width() + x]
}

#[test]
fn fresh_screen_is_transparent() {
    let screen = Screen::new(3, 2, None);
    assert_eq!(screen.width(), 3);
    assert_eq!(screen.height(), 2);
    assert_eq!(screen.pixels_rgba().len(), 6);
    for &p in screen.pixels_rgba().iter() {
        assert_eq!(p, zero());
    }
}

#[test]
fn draws_through_local_palette() {
    let mut screen = Screen::new(2, 2, None);
    let pal = vec![rgb(10, 20, 30), rgb(200, 100, 50)];
    let f = frame(0, 0, 2, 2, DisposalMethod::Keep, None, Some(pal), vec![0, 1, 1, 0]);
    assert_eq!(screen.blit_frame(&f), Ok(()));
    assert_eq!(pixel(&screen, 0, 0), opaque(10, 20, 30));
    assert_eq!(pixel(&screen, 1, 0), opaque(200, 100, 50));
    assert_eq!(pixel(&screen, 0, 1), opaque(200, 100, 50));
    assert_eq!(pixel(&screen, 1, 1), opaque(10, 20, 30));
}

#[test]
fn local_palette_wins_over_global() {
    let global = vec![rgb(1, 1, 1)];
    let mut screen = Screen::new(1, 1, Some(global));
    let local = vec![rgb(7, 8, 9)];
    let f = frame(0, 0, 1, 1, DisposalMethod::Keep, None, Some(local), vec![0]);
    assert_eq!(screen.blit_frame(&f), Ok(()));
    assert_eq!(pixel(&screen, 0, 0), opaque(7, 8, 9));
}

#[test]
fn global_palette_used_without_local() {
    let global = vec![rgb(5, 6, 7)];
    let mut screen = Screen::new(1, 1, Some(global));
    let f = frame(0, 0, 1, 1, DisposalMethod::Keep, None, None, vec![0]);
    assert_eq!(screen.blit_frame(&f), Ok(()));
    assert_eq!(pixel(&screen, 0, 0), opaque(5, 6, 7));
}

#[test]
fn missing_palette_fails_and_leaves_canvas_untouched() {
    let mut screen = Screen::new(2, 2, None);
    let f = frame(0, 0, 2, 2, DisposalMethod::Keep, None, None, vec![0, 1, 2, 3]);
    assert_eq!(screen.blit_frame(&f), Err(Error::NoPalette));
    for &p in screen.pixels_rgba().iter() {
        assert_eq!(p, zero());
    }
}

#[test]
fn short_palette_pads_with_opaque_zero() {
    // A two-entry table with indices well past its end: no failure, and the
    // out-of-range indices resolve to the zero color at full opacity.
    let mut screen = Screen::new(2, 1, None);
    let pal = vec![rgb(40, 50, 60), rgb(70, 80, 90)];
    let f = frame(0, 0, 2, 1, DisposalMethod::Keep, None, Some(pal), vec![1, 255]);
    assert_eq!(screen.blit_frame(&f), Ok(()));
    assert_eq!(pixel(&screen, 0, 0), opaque(70, 80, 90));
    assert_eq!(pixel(&screen, 1, 0), opaque(0, 0, 0));
}

#[test]
fn transparent_index_skips_fresh_canvas() {
    let mut screen = Screen::new(2, 1, None);
    let pal = vec![rgb(1, 2, 3), rgb(4, 5, 6)];
    let f = frame(0, 0, 2, 1, DisposalMethod::Keep, Some(0), Some(pal), vec![0, 1]);
    assert_eq!(screen.blit_frame(&f), Ok(()));
    assert_eq!(pixel(&screen, 0, 0), zero());
    assert_eq!(pixel(&screen, 1, 0), opaque(4, 5, 6));
}

#[test]
fn transparent_index_skips_populated_canvas() {
    let mut screen = Screen::new(1, 1, None);
    let pal = vec![rgb(9, 9, 9), rgb(3, 3, 3)];
    let first = frame(0, 0, 1, 1, DisposalMethod::Keep, None, Some(pal.clone()), vec![0]);
    assert_eq!(screen.blit_frame(&first), Ok(()));
    assert_eq!(pixel(&screen, 0, 0), opaque(9, 9, 9));
    // The second frame's only pixel carries the transparent index: the pixel
    // underneath must show through unchanged.
    let second = frame(0, 0, 1, 1, DisposalMethod::Keep, Some(1), Some(pal), vec![1]);
    assert_eq!(screen.blit_frame(&second), Ok(()));
    assert_eq!(pixel(&screen, 0, 0), opaque(9, 9, 9));
}

#[test]
fn keep_disposal_leaves_frame_pixels() {
    let mut screen = Screen::new(2, 2, None);
    let pal = vec![rgb(11, 22, 33)];
    let a = frame(0, 0, 2, 2, DisposalMethod::Keep, None, Some(pal.clone()), vec![0, 0, 0, 0]);
    assert_eq!(screen.blit_frame(&a), Ok(()));
    // The next frame triggers A's Keep disposal before drawing; it draws
    // nothing itself (every index transparent), so the canvas must still be
    // pixel for pixel what A drew.
    let b = frame(0, 0, 2, 2, DisposalMethod::Keep, Some(0), Some(pal), vec![0, 0, 0, 0]);
    assert_eq!(screen.blit_frame(&b), Ok(()));
    for &p in screen.pixels_rgba().iter() {
        assert_eq!(p, opaque(11, 22, 33));
    }
}

#[test]
fn unspecified_disposal_behaves_like_keep() {
    let mut screen = Screen::new(1, 1, None);
    let pal = vec![rgb(50, 60, 70)];
    let a = frame(0, 0, 1, 1, DisposalMethod::Unspecified, None, Some(pal.clone()), vec![0]);
    assert_eq!(screen.blit_frame(&a), Ok(()));
    let b = frame(0, 0, 1, 1, DisposalMethod::Keep, Some(0), Some(pal), vec![0]);
    assert_eq!(screen.blit_frame(&b), Ok(()));
    assert_eq!(pixel(&screen, 0, 0), opaque(50, 60, 70));
}

#[test]
fn background_disposal_fills_rectangle_with_zero() {
    let mut screen = Screen::new(2, 2, None);
    let pal = vec![rgb(100, 0, 0)];
    let a = frame(0, 0, 2, 2, DisposalMethod::Background, None, Some(pal.clone()), vec![
        0, 0, 0, 0,
    ]);
    assert_eq!(screen.blit_frame(&a), Ok(()));
    for &p in screen.pixels_rgba().iter() {
        assert_eq!(p, opaque(100, 0, 0));
    }
    // The next frame first applies A's Background disposal over the whole
    // canvas, then draws nothing (transparent); every pixel must be the
    // fully transparent zero pixel.
    let b = frame(0, 0, 1, 1, DisposalMethod::Keep, Some(0), Some(pal), vec![0]);
    assert_eq!(screen.blit_frame(&b), Ok(()));
    for &p in screen.pixels_rgba().iter() {
        assert_eq!(p, zero());
    }
}

#[test]
fn background_disposal_spares_pixels_outside_rectangle() {
    let mut screen = Screen::new(2, 1, None);
    let pal = vec![rgb(10, 0, 0), rgb(0, 10, 0)];
    let a = frame(0, 0, 2, 1, DisposalMethod::Keep, None, Some(pal.clone()), vec![0, 1]);
    assert_eq!(screen.blit_frame(&a), Ok(()));
    // B covers only the left pixel and asks for Background disposal there.
    let b = frame(0, 0, 1, 1, DisposalMethod::Background, None, Some(pal.clone()), vec![1]);
    assert_eq!(screen.blit_frame(&b), Ok(()));
    assert_eq!(pixel(&screen, 0, 0), opaque(0, 10, 0));
    // C draws nothing; its arrival applies B's Background fill to (0,0) only.
    let c = frame(0, 0, 1, 1, DisposalMethod::Keep, Some(0), Some(pal), vec![0]);
    assert_eq!(screen.blit_frame(&c), Ok(()));
    assert_eq!(pixel(&screen, 0, 0), zero());
    assert_eq!(pixel(&screen, 1, 0), opaque(0, 10, 0));
}

#[test]
fn previous_disposal_restores_snapshot() {
    let mut screen = Screen::new(2, 2, None);
    let pal = vec![rgb(1, 0, 0), rgb(0, 1, 0), rgb(0, 0, 1)];
    // A paints the whole canvas red.
    let a = frame(0, 0, 2, 2, DisposalMethod::Keep, None, Some(pal.clone()), vec![0, 0, 0, 0]);
    assert_eq!(screen.blit_frame(&a), Ok(()));
    // B paints it green and asks for Previous disposal: the red canvas is
    // snapshotted immediately before B is drawn.
    let b = frame(0, 0, 2, 2, DisposalMethod::Previous, None, Some(pal.clone()), vec![
        1, 1, 1, 1,
    ]);
    assert_eq!(screen.blit_frame(&b), Ok(()));
    for &p in screen.pixels_rgba().iter() {
        assert_eq!(p, opaque(0, 1, 0));
    }
    // C draws nothing; its arrival applies B's Previous disposal, restoring
    // the exact pixels the rectangle held immediately before B was drawn.
    let c = frame(0, 0, 2, 2, DisposalMethod::Keep, Some(2), Some(pal), vec![2, 2, 2, 2]);
    assert_eq!(screen.blit_frame(&c), Ok(()));
    for &p in screen.pixels_rgba().iter() {
        assert_eq!(p, opaque(1, 0, 0));
    }
}

#[test]
fn previous_disposal_snapshot_sees_prior_dispose() {
    // The snapshot is taken after the preceding frame's disposal has been
    // applied, never before.
    let mut screen = Screen::new(1, 1, None);
    let pal = vec![rgb(8, 8, 8), rgb(2, 2, 2)];
    // A paints and asks for Background disposal.
    let a = frame(0, 0, 1, 1, DisposalMethod::Background, None, Some(pal.clone()), vec![0]);
    assert_eq!(screen.blit_frame(&a), Ok(()));
    // B's Previous snapshot must capture the canvas after A's Background
    // fill, that is the zero pixel, not A's paint.
    let b = frame(0, 0, 1, 1, DisposalMethod::Previous, None, Some(pal.clone()), vec![1]);
    assert_eq!(screen.blit_frame(&b), Ok(()));
    assert_eq!(pixel(&screen, 0, 0), opaque(2, 2, 2));
    let c = frame(0, 0, 1, 1, DisposalMethod::Keep, Some(0), Some(pal), vec![0]);
    assert_eq!(screen.blit_frame(&c), Ok(()));
    assert_eq!(pixel(&screen, 0, 0), zero());
}

#[test]
fn zero_size_frame_is_a_no_op() {
    let mut screen = Screen::new(2, 1, None);
    let pal = vec![rgb(3, 1, 4)];
    let a = frame(0, 0, 2, 1, DisposalMethod::Keep, None, Some(pal.clone()), vec![0, 0]);
    assert_eq!(screen.blit_frame(&a), Ok(()));
    let empty = frame(0, 0, 0, 0, DisposalMethod::Background, None, Some(pal.clone()), vec![]);
    assert_eq!(screen.blit_frame(&empty), Ok(()));
    let after = frame(0, 0, 0, 0, DisposalMethod::Keep, None, Some(pal), vec![]);
    assert_eq!(screen.blit_frame(&after), Ok(()));
    assert_eq!(pixel(&screen, 0, 0), opaque(3, 1, 4));
    assert_eq!(pixel(&screen, 1, 0), opaque(3, 1, 4));
}

#[test]
fn dispose_only_exposes_in_between_state() {
    let mut screen = Screen::new(1, 1, None);
    let pal = vec![rgb(12, 34, 56), rgb(65, 43, 21)];
    let a = frame(0, 0, 1, 1, DisposalMethod::Background, None, Some(pal.clone()), vec![0]);
    assert_eq!(screen.blit_frame(&a), Ok(()));
    assert_eq!(pixel(&screen, 0, 0), opaque(12, 34, 56));
    // Split form: after the dispose step alone the canvas shows A's
    // Background fill; completing the cycle draws B on top of it.
    let tmp = screen.dispose_only();
    assert_eq!(tmp.pixels_rgba()[0], zero());
    let (screen, result) = tmp.then_blit(
        Some(&pal),
        DisposalMethod::Keep,
        0,
        0,
        1,
        1,
        &vec![1],
        None,
    );
    assert_eq!(result, Ok(()));
    assert_eq!(pixel(&screen, 0, 0), opaque(65, 43, 21));
}

#[test]
fn then_blit_without_palette_returns_screen_unchanged() {
    let screen = Screen::new(1, 1, None);
    let tmp = screen.dispose_only();
    let (screen, result) = tmp.then_blit(
        None,
        DisposalMethod::Keep,
        0,
        0,
        1,
        1,
        &vec![0],
        None,
    );
    assert_eq!(result, Err(Error::NoPalette));
    assert_eq!(pixel(&screen, 0, 0), zero());
}

#[test]
fn legacy_pixel_accessors_match() {
    let mut screen = Screen::new(1, 1, None);
    let pal = vec![rgb(13, 17, 19)];
    let f = frame(0, 0, 1, 1, DisposalMethod::Keep, None, Some(pal), vec![0]);
    assert_eq!(screen.blit_frame(&f), Ok(()));
    assert_eq!(screen.pixels(), screen.pixels_rgba());
    let tmp = screen.dispose_only();
    assert_eq!(tmp.pixels(), tmp.pixels_rgba());
    let (_screen, result) = tmp.then_blit(None, DisposalMethod::Keep, 0, 0, 0, 0, &vec![], None);
    assert_eq!(result, Err(Error::NoPalette));
}

#[test]
fn blit_matches_blit_frame() {
    let mut by_frame = Screen::new(2, 1, None);
    let mut by_parts = Screen::new(2, 1, None);
    let pal = vec![rgb(1, 2, 3), rgb(4, 5, 6)];
    let f = frame(0, 0, 2, 1, DisposalMethod::Keep, Some(0), Some(pal.clone()), vec![0, 1]);
    assert_eq!(by_frame.blit_frame(&f), Ok(()));
    assert_eq!(
        by_parts.blit(Some(&pal), DisposalMethod::Keep, 0, 0, 2, 1, &vec![0, 1], Some(0)),
        Ok(()),
    );
    assert_eq!(by_frame.pixels_rgba(), by_parts.pixels_rgba());
}

#[test]
fn end_to_end_two_frame_scenario() {
    // Canvas 4x4. Frame A at (0,0) 2x2, all index 1 mapped to opaque red,
    // disposal Background. Frame B at (1,1) 2x2, all index 1 mapped to
    // opaque blue, disposal Keep.
    let red = vec![rgb(0, 0, 0), rgb(255, 0, 0)];
    let blue = vec![rgb(0, 0, 0), rgb(0, 0, 255)];
    let mut screen = Screen::new(4, 4, None);

    let a = frame(0, 0, 2, 2, DisposalMethod::Background, None, Some(red), vec![1, 1, 1, 1]);
    assert_eq!(screen.blit_frame(&a), Ok(()));
    for y in 0..4 {
        for x in 0..4 {
            let expected = if x < 2 && y < 2 { opaque(255, 0, 0) } else { zero() };
            assert_eq!(pixel(&screen, x, y), expected);
        }
    }

    let b = frame(1, 1, 2, 2, DisposalMethod::Keep, None, Some(blue), vec![1, 1, 1, 1]);
    assert_eq!(screen.blit_frame(&b), Ok(()));
    // A's Background disposal has cleared (0,0)-(1,1) back to the default;
    // B has drawn blue over (1,1)-(2,2).
    assert_eq!(pixel(&screen, 0, 0), zero());
    assert_eq!(pixel(&screen, 1, 0), zero());
    assert_eq!(pixel(&screen, 0, 1), zero());
    assert_eq!(pixel(&screen, 1, 1), opaque(0, 0, 255));
    assert_eq!(pixel(&screen, 2, 1), opaque(0, 0, 255));
    assert_eq!(pixel(&screen, 1, 2), opaque(0, 0, 255));
    assert_eq!(pixel(&screen, 2, 2), opaque(0, 0, 255));
    assert_eq!(pixel(&screen, 3, 3), zero());
}
