//! Pixel representations and the per-frame disposal directive.

use vstd::prelude::*;

verus! {

/// A three-channel color, one byte per channel, as a color table stores it.
#[derive(Eq, PartialEq, Copy, Clone, Debug, Structural)]
pub struct Rgb {
    pub r: u8,
    pub g: u8,
    pub b: u8,
}

/// A four-channel pixel, one byte per channel, as the canvas stores it.
#[derive(Eq, PartialEq, Copy, Clone, Debug, Structural)]
pub struct Rgba {
    pub r: u8,
    pub g: u8,
    pub b: u8,
    pub a: u8,
}

impl Rgb {
    /// The all-zero color: the value with which short color tables are padded.
    pub open spec fn spec_zero() -> Rgb {
        Rgb { r: 0, g: 0, b: 0 }
    }

    /// The all-zero color: the value with which short color tables are padded.
    #[verifier::when_used_as_spec(spec_zero)]
    pub fn zero() -> (c: Rgb)
        ensures
            c == Rgb::spec_zero(),
    {
        Rgb { r: 0, g: 0, b: 0 }
    }
}

impl Rgba {
    /// The fully transparent zero pixel: the canvas starts out holding it, and
    /// `Background` disposal fills with it.
    pub open spec fn spec_zero() -> Rgba {
        Rgba { r: 0, g: 0, b: 0, a: 0 }
    }

    /// The fully transparent zero pixel: the canvas starts out holding it, and
    /// `Background` disposal fills with it.
    #[verifier::when_used_as_spec(spec_zero)]
    pub fn zero() -> (p: Rgba)
        ensures
            p == Rgba::spec_zero(),
    {
        Rgba { r: 0, g: 0, b: 0, a: 0 }
    }

    /// A three-channel color taken at full opacity, as the blit writes it.
    pub open spec fn spec_opaque(c: Rgb) -> Rgba {
        Rgba { r: c.r, g: c.g, b: c.b, a: 255 }
    }

    /// A three-channel color taken at full opacity, as the blit writes it.
    #[verifier::when_used_as_spec(spec_opaque)]
    pub fn opaque(c: Rgb) -> (p: Rgba)
        ensures
            p == Rgba::spec_opaque(c),
    {
        Rgba { r: c.r, g: c.g, b: c.b, a: 255 }
    }
}

/// The per-frame directive describing how the frame's rectangle is to be
/// restored before the next frame is drawn.
#[derive(Eq, PartialEq, Copy, Clone, Debug, Structural)]
pub enum DisposalMethod {
    /// The decoder left the directive open; treated exactly like `Keep`.
    Unspecified,
    /// Leave the canvas as this frame drew it.
    Keep,
    /// Fill the frame's rectangle with the fully transparent zero pixel.
    Background,
    /// Restore the frame's rectangle to what the canvas held immediately
    /// before this frame was drawn.
    Previous,
}

} // verus!
