//! Adobe RGB (1998): a pure power-law transfer curve with exponent 563/256.
use vstd::prelude::*;
use crate::colorspaces::color::Color;
use crate::colorspaces::colorspace::ColorSpace;
use crate::colorspaces::fixed::{fpow, fx_pow, fx_sat, sat};
use crate::colorspaces::matrix::{bridge_b, bridge_g, bridge_r, bridge_x, bridge_y, bridge_z, frow, fx_bridge_to_rgb, fx_bridge_to_xyz, fx_row};

verus! {

/// Fraction digits of the decode exponent 563/256 (the 0.19921875 part,
/// 40 binary digits, least significant first; this fraction is exact).
pub const EXP_ADOBE_DEC: u64 = 204;

/// Fraction digits of the encode exponent 256/563 (40 binary digits,
/// least significant first).
pub const EXP_ADOBE_ENC: u64 = 269_143_631_406;

/// Adobe RGB (1998), D65 white, gamma 563/256 (about 2.19922). A power of a
/// non-positive base is guarded to zero instead of degenerating.
#[derive(Debug, Clone, Copy, PartialEq, Eq, Structural)]
pub struct AdobeRgb {
    pub r: i128,
    pub g: i128,
    pub b: i128,
    pub a: i128,
}

/// Adobe RGB to pivot: power-law decode, primaries to XYZ, fixed bridge.
pub open spec fn adobe_to_color_s(r: int, g: int, b: int, a: int) -> (int, int, int, int) {
    let rl = fpow(r, 2, EXP_ADOBE_DEC as int);
    let gl = fpow(g, 2, EXP_ADOBE_DEC as int);
    let bl = fpow(b, 2, EXP_ADOBE_DEC as int);
    let x = frow(5_766_700_000, 1_855_600_000, 1_882_300_000, rl, gl, bl);
    let y = frow(2_973_400_000, 6_273_600_000, 752_900_000, rl, gl, bl);
    let z = frow(270_300_000, 706_900_000, 9_913_400_000, rl, gl, bl);
    (bridge_r(x, y, z), bridge_g(x, y, z), bridge_b(x, y, z), a)
}

/// Pivot to Adobe RGB: fixed bridge, XYZ to primaries, power-law encode.
pub open spec fn adobe_from_color_s(r: int, g: int, b: int, a: int) -> (int, int, int, int) {
    let x = bridge_x(r, g, b);
    let y = bridge_y(r, g, b);
    let z = bridge_z(r, g, b);
    let rl = frow(20_415_900_000, -5_650_100_000, -3_447_300_000, x, y, z);
    let gl = frow(-9_692_400_000, 18_759_700_000, 415_600_000, x, y, z);
    let bl = frow(134_400_000, -1_183_600_000, 10_151_700_000, x, y, z);
    (
        fpow(rl, 0, EXP_ADOBE_ENC as int),
        fpow(gl, 0, EXP_ADOBE_ENC as int),
        fpow(bl, 0, EXP_ADOBE_ENC as int),
        a,
    )
}

impl AdobeRgb {
    /// Convert to the pivot. No clamping: out-of-gamut inputs give
    /// out-of-range outputs; only a non-positive power base falls to zero.
    pub fn to_color(&self) -> (c: Color)
        ensures
            (c.r as int, c.g as int, c.b as int, c.a as int) == adobe_to_color_s(
                sat(self.r as int),
                sat(self.g as int),
                sat(self.b as int),
                sat(self.a as int),
            ),
    {
        let rl = fx_pow(fx_sat(self.r), 2, EXP_ADOBE_DEC);
        let gl = fx_pow(fx_sat(self.g), 2, EXP_ADOBE_DEC);
        let bl = fx_pow(fx_sat(self.b), 2, EXP_ADOBE_DEC);
        let x = fx_row(5_766_700_000, 1_855_600_000, 1_882_300_000, rl, gl, bl);
        let y = fx_row(2_973_400_000, 6_273_600_000, 752_900_000, rl, gl, bl);
        let z = fx_row(270_300_000, 706_900_000, 9_913_400_000, rl, gl, bl);
        let rgb = fx_bridge_to_rgb(x, y, z);
        Color::new(rgb.0, rgb.1, rgb.2, fx_sat(self.a))
    }

    /// Convert from the pivot. No clamping: out-of-gamut pivots give
    /// out-of-range outputs; only a non-positive power base falls to zero.
    pub fn from_color(c: &Color) -> (s: AdobeRgb)
        ensures
            (s.r as int, s.g as int, s.b as int, s.a as int) == adobe_from_color_s(
                sat(c.r as int),
                sat(c.g as int),
                sat(c.b as int),
                sat(c.a as int),
            ),
    {
        let xyz = fx_bridge_to_xyz(fx_sat(c.r), fx_sat(c.g), fx_sat(c.b));
        let rl = fx_row(20_415_900_000, -5_650_100_000, -3_447_300_000, xyz.0, xyz.1, xyz.2);
        let gl = fx_row(-9_692_400_000, 18_759_700_000, 415_600_000, xyz.0, xyz.1, xyz.2);
        let bl = fx_row(134_400_000, -1_183_600_000, 10_151_700_000, xyz.0, xyz.1, xyz.2);
        AdobeRgb {
            r: fx_pow(rl, 0, EXP_ADOBE_ENC),
            g: fx_pow(gl, 0, EXP_ADOBE_ENC),
            b: fx_pow(bl, 0, EXP_ADOBE_ENC),
            a: fx_sat(c.a),
        }
    }
}

impl ColorSpace for AdobeRgb {
    open spec fn to_color_spec(&self) -> Color {
        let t = adobe_to_color_s(sat(self.r as int), sat(self.g as int), sat(self.b as int), sat(self.a as int));
        Color { r: t.0 as i128, g: t.1 as i128, b: t.2 as i128, a: t.3 as i128 }
    }

    open spec fn from_color_spec(color: &Color) -> Self {
        let t = adobe_from_color_s(
            sat(color.r as int),
            sat(color.g as int),
            sat(color.b as int),
            sat(color.a as int),
        );
        AdobeRgb { r: t.0 as i128, g: t.1 as i128, b: t.2 as i128, a: t.3 as i128 }
    }

    fn to_color(&self) -> (c: Color) {
        AdobeRgb::to_color(self)
    }

    fn from_color(color: &Color) -> (s: Self) {
        AdobeRgb::from_color(color)
    }
}

} // verus!
