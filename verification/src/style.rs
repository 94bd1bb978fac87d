//! The style value a marker carries: a color plus rendering attributes
//! the point markers themselves never read.

use vstd::prelude::*;

verus! {

/// A solid color, one byte per channel.
#[derive(Clone, Copy, PartialEq, Eq, Structural, Debug)]
pub struct RGBColor(pub u8, pub u8, pub u8);

/// The style of a shape: its color, whether it is filled, and the width
/// of its strokes. The point markers only ever read the color.
#[derive(Clone, Copy, PartialEq, Eq, Structural, Debug)]
pub struct ShapeStyle {
    pub color: RGBColor,
    pub filled: bool,
    pub stroke_width: u32,
}

impl ShapeStyle {
    /// A solid style of the given color.
    pub fn new(color: RGBColor) -> (r: Self)
        ensures
            r.color == color,
            r.filled,
            r.stroke_width == 1,
    {
        ShapeStyle { color, filled: true, stroke_width: 1 }
    }
}

} // verus!
