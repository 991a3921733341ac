//! Compositor for indexed-color animation frames.
//!
//! A decoder hands over raw frames: a rectangle of palette indices, an
//! optional local color table, an optional transparent index, and a disposal
//! directive. Producing the displayed image requires keeping a canvas alive
//! across frames and, between each pair of frames, restoring part of the
//! canvas to a prior state before the next frame's pixels are written.
//!
//! [`Screen`] owns that canvas, resolves each frame's effective color table,
//! and performs the transparency-aware blit; [`disposal::Disposal`] carries
//! the restoration that is pending between two frames.

use vstd::prelude::*;

mod pixel;

pub mod canvas;

pub mod disposal;

pub mod screen;

pub use crate::canvas::Rect;
pub use crate::disposal::Disposal;
pub use crate::screen::Frame;
pub use crate::screen::Screen;
pub use crate::screen::TempDisposedStateScreen;
pub use crate::pixel::DisposalMethod;
pub use crate::pixel::Rgb;
pub use crate::pixel::Rgba;

verus! {

/// Failure conditions surfaced by the compositor.
#[derive(Eq, PartialEq, Copy, Clone, Debug, Structural)]
#[non_exhaustive]
pub enum Error {
    /// The animation has no global color table and the frame carries no local
    /// one, so its indexed pixels cannot be resolved to colors.
    NoPalette,
}

} // verus!
