//! Metrics of rasterized HUD glyphs. Rasterization itself is the font
//! library's work in the surrounding program; the core only carries the
//! measurements a text layout needs.

use vstd::prelude::*;

verus! {

/// Placement data of one rasterized character: the texture buffer holding
/// its bitmap, its size and bearing in pixels, and the pen advance to the
/// next character in 1/64 pixel units.
#[derive(Clone, Copy, Debug, PartialEq, Eq)]
pub struct Glyph {
    pub buffer_id: u32,
    pub size: (i32, i32),
    pub bearing: (i32, i32),
    pub advance: i32,
}

} // verus!
