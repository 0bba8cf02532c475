//! Rec.2020 RGB: pure power law with exponent 2.4, and the one RGB-gamma
//! space that clamps its channels to [0, 1] before the power is applied.
use vstd::prelude::*;
use crate::colorspaces::color::Color;
use crate::colorspaces::colorspace::ColorSpace;
use crate::colorspaces::fixed::{fclamp, fpow, fx_clamp, fx_pow, fx_sat, sat, VMAX};
use crate::colorspaces::matrix::{bridge_b, bridge_g, bridge_r, bridge_x, bridge_y, bridge_z, frow, fx_bridge_to_rgb, fx_bridge_to_xyz, fx_row};
use crate::colorspaces::srgb::{EXP_04, EXP_5_12};

verus! {

/// Rec.2020 RGB (D65), gamma 2.4 for SDR.
#[derive(Debug, Clone, Copy, PartialEq, Eq, Structural)]
pub struct Rec2020 {
    pub r: i128,
    pub g: i128,
    pub b: i128,
    pub a: i128,
}

/// The documented pre-gamma clamp into [0, 1], then the 2.4 power.
pub open spec fn rec2020_decode(c: int) -> int {
    fpow(fclamp(c, 0, crate::SCALE as int), 2, EXP_04 as int)
}

/// The documented pre-gamma clamp into [0, 1], then the 1/2.4 power.
pub open spec fn rec2020_encode(c: int) -> int {
    fpow(fclamp(c, 0, crate::SCALE as int), 0, EXP_5_12 as int)
}

/// Rec.2020 to pivot: clamp, power decode, primaries to XYZ, fixed bridge.
pub open spec fn rec2020_to_color_s(r: int, g: int, b: int, a: int) -> (int, int, int, int) {
    let rl = rec2020_decode(r);
    let gl = rec2020_decode(g);
    let bl = rec2020_decode(b);
    let x = frow(6_369_580_000, 1_446_170_000, 1_688_810_000, rl, gl, bl);
    let y = frow(2_627_000_000, 6_780_000_000, 593_000_000, rl, gl, bl);
    let z = frow(0, 280_730_000, 10_609_850_000, rl, gl, bl);
    (bridge_r(x, y, z), bridge_g(x, y, z), bridge_b(x, y, z), a)
}

/// Pivot to Rec.2020: fixed bridge, XYZ to primaries, clamp, power encode.
pub open spec fn rec2020_from_color_s(r: int, g: int, b: int, a: int) -> (int, int, int, int) {
    let x = bridge_x(r, g, b);
    let y = bridge_y(r, g, b);
    let z = bridge_z(r, g, b);
    let rl = frow(17_166_634_000, -3_556_733_000, -2_533_681_000, x, y, z);
    let gl = frow(-6_666_738_000, 16_164_557_000, 157_683_000, x, y, z);
    let bl = frow(176_425_000, -427_769_000, 9_422_433_000, x, y, z);
    (rec2020_encode(rl), rec2020_encode(gl), rec2020_encode(bl), a)
}

/// One channel of the decode path.
pub fn fx_rec2020_decode(c: i128) -> (r: i128)
    requires
        -VMAX <= c <= VMAX,
    ensures
        r == rec2020_decode(c as int),
        -VMAX <= r <= VMAX,
{
    fx_pow(fx_clamp(c, 0, crate::SCALE), 2, EXP_04)
}

/// One channel of the encode path.
pub fn fx_rec2020_encode(c: i128) -> (r: i128)
    requires
        -VMAX <= c <= VMAX,
    ensures
        r == rec2020_encode(c as int),
        -VMAX <= r <= VMAX,
{
    fx_pow(fx_clamp(c, 0, crate::SCALE), 0, EXP_5_12)
}

impl Rec2020 {
    /// Convert to the pivot: channels are clamped to [0, 1] before the gamma
    /// power (this space's documented clamp); the result is not clamped.
    pub fn to_color(&self) -> (c: Color)
        ensures
            (c.r as int, c.g as int, c.b as int, c.a as int) == rec2020_to_color_s(
                sat(self.r as int),
                sat(self.g as int),
                sat(self.b as int),
                sat(self.a as int),
            ),
    {
        let rl = fx_rec2020_decode(fx_sat(self.r));
        let gl = fx_rec2020_decode(fx_sat(self.g));
        let bl = fx_rec2020_decode(fx_sat(self.b));
        let x = fx_row(6_369_580_000, 1_446_170_000, 1_688_810_000, rl, gl, bl);
        let y = fx_row(2_627_000_000, 6_780_000_000, 593_000_000, rl, gl, bl);
        let z = fx_row(0, 280_730_000, 10_609_850_000, rl, gl, bl);
        let rgb = fx_bridge_to_rgb(x, y, z);
        Color::new(rgb.0, rgb.1, rgb.2, fx_sat(self.a))
    }

    /// Convert from the pivot: linear channels are clamped to [0, 1] before
    /// the gamma power (this space's documented clamp).
    pub fn from_color(c: &Color) -> (s: Rec2020)
        ensures
            (s.r as int, s.g as int, s.b as int, s.a as int) == rec2020_from_color_s(
                sat(c.r as int),
                sat(c.g as int),
                sat(c.b as int),
                sat(c.a as int),
            ),
    {
        let xyz = fx_bridge_to_xyz(fx_sat(c.r), fx_sat(c.g), fx_sat(c.b));
        let rl = fx_row(17_166_634_000, -3_556_733_000, -2_533_681_000, xyz.0, xyz.1, xyz.2);
        let gl = fx_row(-6_666_738_000, 16_164_557_000, 157_683_000, xyz.0, xyz.1, xyz.2);
        let bl = fx_row(176_425_000, -427_769_000, 9_422_433_000, xyz.0, xyz.1, xyz.2);
        Rec2020 {
            r: fx_rec2020_encode(rl),
            g: fx_rec2020_encode(gl),
            b: fx_rec2020_encode(bl),
            a: fx_sat(c.a),
        }
    }
}

impl ColorSpace for Rec2020 {
    open spec fn to_color_spec(&self) -> Color {
        let t = rec2020_to_color_s(sat(self.r as int), sat(self.g as int), sat(self.b as int), sat(self.a as int));
        Color { r: t.0 as i128, g: t.1 as i128, b: t.2 as i128, a: t.3 as i128 }
    }

    open spec fn from_color_spec(color: &Color) -> Self {
        let t = rec2020_from_color_s(
            sat(color.r as int),
            sat(color.g as int),
            sat(color.b as int),
            sat(color.a as int),
        );
        Rec2020 { r: t.0 as i128, g: t.1 as i128, b: t.2 as i128, a: t.3 as i128 }
    }

    fn to_color(&self) -> (c: Color) {
        Rec2020::to_color(self)
    }

    fn from_color(color: &Color) -> (s: Self) {
        Rec2020::from_color(color)
    }
}

} // verus!
