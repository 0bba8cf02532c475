//! The central pivot type: linear-light RGBA.
use vstd::prelude::*;

verus! {

/// The main color type, a linear-light RGBA value every space converts
/// through. Channels are fixed-point units of 10^-10; values above 1.0
/// (HDR) are representable, nothing is clamped here.
#[derive(Debug, Clone, Copy, PartialEq, Eq, Structural, Default)]
pub struct Color {
    /// Red channel (linear).
    pub r: i128,
    /// Green channel (linear).
    pub g: i128,
    /// Blue channel (linear).
    pub b: i128,
    /// Alpha channel (0 = transparent, SCALE = opaque).
    pub a: i128,
}

impl Color {
    /// Construct a new color from linear RGBA components.
    pub fn new(r: i128, g: i128, b: i128, a: i128) -> (c: Color)
        ensures
            c == (Color { r, g, b, a }),
    {
        Color { r, g, b, a }
    }

    /// Construct an opaque color.
    pub fn opaque(r: i128, g: i128, b: i128) -> (c: Color)
        ensures
            c == (Color { r, g, b, a: crate::SCALE as i128 }),
    {
        Color { r, g, b, a: crate::SCALE }
    }
}

} // verus!
