//! CIE XYZ tristimulus space.
use vstd::prelude::*;
use crate::colorspaces::color::Color;
use crate::colorspaces::colorspace::ColorSpace;
use crate::colorspaces::fixed::{fx_sat, sat};
use crate::colorspaces::matrix::{
    bridge_b,
    bridge_g,
    bridge_r,
    bridge_x,
    bridge_y,
    bridge_z,
    fx_bridge_to_rgb,
    fx_bridge_to_xyz,
};

verus! {

/// CIE XYZ with Observer = 2 degrees, Illuminant = D65.
#[derive(Debug, Clone, Copy, PartialEq, Eq, Structural)]
pub struct Xyz {
    pub x: i128,
    pub y: i128,
    pub z: i128,
    pub alpha: i128,
}

/// XYZ to pivot: the fixed bridge matrix, alpha passed through.
pub open spec fn xyz_to_color_s(x: int, y: int, z: int, alpha: int) -> (int, int, int, int) {
    (bridge_r(x, y, z), bridge_g(x, y, z), bridge_b(x, y, z), alpha)
}

/// Pivot to XYZ: the fixed bridge matrix, alpha passed through.
pub open spec fn xyz_from_color_s(r: int, g: int, b: int, a: int) -> (int, int, int, int) {
    (bridge_x(r, g, b), bridge_y(r, g, b), bridge_z(r, g, b), a)
}

impl Xyz {
    /// Convert to the pivot: a pure fixed matrix multiply, nothing clamped.
    pub fn to_color(&self) -> (c: Color)
        ensures
            (c.r as int, c.g as int, c.b as int, c.a as int) == xyz_to_color_s(
                sat(self.x as int),
                sat(self.y as int),
                sat(self.z as int),
                sat(self.alpha as int),
            ),
    {
        let x = fx_sat(self.x);
        let y = fx_sat(self.y);
        let z = fx_sat(self.z);
        let rgb = fx_bridge_to_rgb(x, y, z);
        Color::new(rgb.0, rgb.1, rgb.2, fx_sat(self.alpha))
    }

    /// Convert from the pivot: a pure fixed matrix multiply, nothing clamped.
    pub fn from_color(c: &Color) -> (s: Xyz)
        ensures
            (s.x as int, s.y as int, s.z as int, s.alpha as int) == xyz_from_color_s(
                sat(c.r as int),
                sat(c.g as int),
                sat(c.b as int),
                sat(c.a as int),
            ),
    {
        let r = fx_sat(c.r);
        let g = fx_sat(c.g);
        let b = fx_sat(c.b);
        let xyz = fx_bridge_to_xyz(r, g, b);
        Xyz { x: xyz.0, y: xyz.1, z: xyz.2, alpha: fx_sat(c.a) }
    }
}

impl ColorSpace for Xyz {
    open spec fn to_color_spec(&self) -> Color {
        let t = xyz_to_color_s(sat(self.x as int), sat(self.y as int), sat(self.z as int), sat(self.alpha as int));
        Color { r: t.0 as i128, g: t.1 as i128, b: t.2 as i128, a: t.3 as i128 }
    }

    open spec fn from_color_spec(color: &Color) -> Self {
        let t = xyz_from_color_s(
            sat(color.r as int),
            sat(color.g as int),
            sat(color.b as int),
            sat(color.a as int),
        );
        Xyz { x: t.0 as i128, y: t.1 as i128, z: t.2 as i128, alpha: t.3 as i128 }
    }

    fn to_color(&self) -> (c: Color) {
        Xyz::to_color(self)
    }

    fn from_color(color: &Color) -> (s: Self) {
        Xyz::from_color(color)
    }
}

} // verus!
