//! Display P3: DCI-P3 primaries with D65 white and the sRGB transfer curve.
use vstd::prelude::*;
use crate::colorspaces::color::Color;
use crate::colorspaces::colorspace::ColorSpace;
use crate::colorspaces::fixed::{fx_sat, sat};
use crate::colorspaces::matrix::{bridge_b, bridge_g, bridge_r, bridge_x, bridge_y, bridge_z, frow, fx_bridge_to_rgb, fx_bridge_to_xyz, fx_row};
use crate::colorspaces::srgb::{fx_srgb_decode, fx_srgb_encode, srgb_decode, srgb_encode};

verus! {

/// Display P3 (DCI-P3 primaries + D65 white, sRGB transfer curve).
#[derive(Debug, Clone, Copy, PartialEq, Eq, Structural)]
pub struct DisplayP3 {
    pub r: i128,
    pub g: i128,
    pub b: i128,
    pub a: i128,
}

/// P3 to pivot: sRGB curve decode, P3-to-XYZ primaries, fixed bridge.
pub open spec fn p3_to_color_s(r: int, g: int, b: int, a: int) -> (int, int, int, int) {
    let rl = srgb_decode(r);
    let gl = srgb_decode(g);
    let bl = srgb_decode(b);
    let x = frow(4_865_690_000, 2_656_730_000, 1_981_870_000, rl, gl, bl);
    let y = frow(2_289_730_000, 6_917_520_000, 792_749_000, rl, gl, bl);
    let z = frow(0, 451_143_000, 10_437_900_000, rl, gl, bl);
    (bridge_r(x, y, z), bridge_g(x, y, z), bridge_b(x, y, z), a)
}

/// Pivot to P3: fixed bridge, then the exact inverse of the P3-to-XYZ
/// primaries matrix, then the sRGB curve encode.
pub open spec fn p3_from_color_s(r: int, g: int, b: int, a: int) -> (int, int, int, int) {
    let x = bridge_x(r, g, b);
    let y = bridge_y(r, g, b);
    let z = bridge_z(r, g, b);
    let rl = frow(24_935_057_295, -9_313_874_968, -4_027_100_943, x, y, z);
    let gl = frow(-8_294_700_635, 17_626_288_659, 236_234_840, x, y, z);
    let bl = frow(358_510_441, -761_836_839, 9_570_260_714, x, y, z);
    (srgb_encode(rl), srgb_encode(gl), srgb_encode(bl), a)
}

impl DisplayP3 {
    /// Convert to the pivot. Out-of-range inputs propagate; nothing is
    /// clamped.
    pub fn to_color(&self) -> (c: Color)
        ensures
            (c.r as int, c.g as int, c.b as int, c.a as int) == p3_to_color_s(
                sat(self.r as int),
                sat(self.g as int),
                sat(self.b as int),
                sat(self.a as int),
            ),
    {
        let rl = fx_srgb_decode(fx_sat(self.r));
        let gl = fx_srgb_decode(fx_sat(self.g));
        let bl = fx_srgb_decode(fx_sat(self.b));
        let x = fx_row(4_865_690_000, 2_656_730_000, 1_981_870_000, rl, gl, bl);
        let y = fx_row(2_289_730_000, 6_917_520_000, 792_749_000, rl, gl, bl);
        let z = fx_row(0, 451_143_000, 10_437_900_000, rl, gl, bl);
        let rgb = fx_bridge_to_rgb(x, y, z);
        Color::new(rgb.0, rgb.1, rgb.2, fx_sat(self.a))
    }

    /// Convert from the pivot. Out-of-range inputs propagate; nothing is
    /// clamped.
    pub fn from_color(c: &Color) -> (s: DisplayP3)
        ensures
            (s.r as int, s.g as int, s.b as int, s.a as int) == p3_from_color_s(
                sat(c.r as int),
                sat(c.g as int),
                sat(c.b as int),
                sat(c.a as int),
            ),
    {
        let xyz = fx_bridge_to_xyz(fx_sat(c.r), fx_sat(c.g), fx_sat(c.b));
        let rl = fx_row(24_935_057_295, -9_313_874_968, -4_027_100_943, xyz.0, xyz.1, xyz.2);
        let gl = fx_row(-8_294_700_635, 17_626_288_659, 236_234_840, xyz.0, xyz.1, xyz.2);
        let bl = fx_row(358_510_441, -761_836_839, 9_570_260_714, xyz.0, xyz.1, xyz.2);
        DisplayP3 {
            r: fx_srgb_encode(rl),
            g: fx_srgb_encode(gl),
            b: fx_srgb_encode(bl),
            a: fx_sat(c.a),
        }
    }
}

impl ColorSpace for DisplayP3 {
    open spec fn to_color_spec(&self) -> Color {
        let t = p3_to_color_s(sat(self.r as int), sat(self.g as int), sat(self.b as int), sat(self.a as int));
        Color { r: t.0 as i128, g: t.1 as i128, b: t.2 as i128, a: t.3 as i128 }
    }

    open spec fn from_color_spec(color: &Color) -> Self {
        let t = p3_from_color_s(
            sat(color.r as int),
            sat(color.g as int),
            sat(color.b as int),
            sat(color.a as int),
        );
        DisplayP3 { r: t.0 as i128, g: t.1 as i128, b: t.2 as i128, a: t.3 as i128 }
    }

    fn to_color(&self) -> (c: Color) {
        DisplayP3::to_color(self)
    }

    fn from_color(color: &Color) -> (s: Self) {
        DisplayP3::from_color(color)
    }
}

} // verus!
