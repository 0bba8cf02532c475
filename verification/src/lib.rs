//! Color conversion between many color spaces through one canonical
//! linear-light pivot representation.
//!
//! Every channel is a fixed-point scalar: a signed integer count of units of
//! 10^-10. At that resolution the guard threshold of 10^-10 used throughout
//! the conversion formulas is exactly one unit, and every matrix and curve
//! constant of the supported spaces is exactly representable.
use vstd::prelude::*;

pub mod colorspaces;

pub use colorspaces::adobe_rgb::AdobeRgb;
pub use colorspaces::color::Color;
pub use colorspaces::colorspace::ColorSpace;
pub use colorspaces::display_p3::DisplayP3;
pub use colorspaces::hsl::Hsl;
pub use colorspaces::hsv::Hsv;
pub use colorspaces::hwb::Hwb;
pub use colorspaces::lab::Lab;
pub use colorspaces::lch::Lch;
pub use colorspaces::luv::Luv;
pub use colorspaces::oklab::Oklab;
pub use colorspaces::oklch::Oklch;
pub use colorspaces::rec2020::Rec2020;
pub use colorspaces::srgb::Srgb;
pub use colorspaces::xyz::Xyz;

verus! {

/// Number of fixed-point units in 1.0: channel values are counts of 10^-10.
pub const SCALE: i128 = 10_000_000_000;

} // verus!
