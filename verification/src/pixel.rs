//! Pixel colors and positioned pixel writes.

use vstd::prelude::*;

verus! {

/// One pixel color, held as a single 16-bit word.
///
/// The buffer's raw word view reinterprets each stored color as exactly one
/// `u16`, so the color representation is fixed to 16 bits by construction.
#[derive(Clone, Copy, PartialEq, Eq, Structural, Debug)]
pub struct Color(pub u16);

impl Default for Color {
    /// The default color is zero (black).
    fn default() -> (r: Color)
        ensures
            r == Color(0u16),
    {
        Color(0)
    }
}

/// One pixel write: a color destined for the cell at `(x, y)`.
///
/// Coordinates are signed so that callers may describe shapes that extend
/// past any edge of the buffer; out-of-range writes are discarded.
#[derive(Clone, Copy, PartialEq, Eq, Structural, Debug)]
pub struct Pixel {
    pub x: i32,
    pub y: i32,
    pub color: Color,
}

} // verus!
