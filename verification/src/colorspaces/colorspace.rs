//! The shared two-operation conversion contract.
use vstd::prelude::*;
use crate::colorspaces::color::Color;

verus! {

/// Trait for converting between color spaces.
/// Types implementing this trait can convert to and from the central `Color`
/// type. Each implementor names the exact value of both conversions in its
/// two spec functions, so callers generic over the trait keep the full
/// contract; the spec functions restate the ones on the inherent methods.
pub trait ColorSpace: Sized {
    /// The exact value `to_color` returns.
    spec fn to_color_spec(&self) -> Color;

    /// The exact value `from_color` returns.
    spec fn from_color_spec(color: &Color) -> Self;

    /// Convert from this color space to the central `Color` type.
    fn to_color(&self) -> (c: Color)
        ensures
            c == self.to_color_spec(),
    ;

    /// Convert from the central `Color` type to this color space.
    fn from_color(color: &Color) -> (s: Self)
        ensures
            s == Self::from_color_spec(color),
    ;
}

} // verus!
