//! CIE L*u*v* (D65): lightness as in Lab, chromaticity through the u', v'
//! projective coordinates.
use vstd::prelude::*;
use crate::colorspaces::color::Color;
use crate::colorspaces::colorspace::ColorSpace;
use crate::colorspaces::fixed::{abs_i, fadd, fcbrt, fdiv, fmax, fmul, fsub, fx_abs, fx_add, fx_cbrt, fx_div, fx_max, fx_mul, fx_sat, fx_sub, sat, VMAX};
use crate::colorspaces::lab::{C16, C116, LAB_XN, LAB_ZN};
use crate::colorspaces::matrix::{bridge_x, bridge_y, bridge_z, bridge_r, bridge_g, bridge_b, fx_bridge_to_rgb, fx_bridge_to_xyz};

verus! {

/// The CIE lightness constant 903.3, in units.
pub const C903_3: i128 = 9_033_000_000_000;

/// The lightness threshold 0.008856 on Y, in units.
pub const C008856: i128 = 88_560_000;

/// Eight, in units: the threshold on L for the inverse lightness form.
pub const C8: i128 = 80_000_000_000;

/// Thirteen, in units.
pub const C13: i128 = 130_000_000_000;

/// Nine, in units.
pub const C9: i128 = 90_000_000_000;

/// Twelve, in units.
pub const C12: i128 = 120_000_000_000;

/// Three, in units.
pub const C3: i128 = 30_000_000_000;

/// Twenty, in units.
pub const C20: i128 = 200_000_000_000;

/// CIE L*u*v* (D65).
#[derive(Debug, Clone, Copy, PartialEq, Eq, Structural)]
pub struct Luv {
    pub l: i128,
    pub u: i128,
    pub v: i128,
    pub alpha: i128,
}

/// u' chromaticity: 4X / (X + 15Y + 3Z); a denominator below the guard
/// threshold (one unit) yields zero.
pub open spec fn u_prime_s(x: int, y: int, z: int) -> int {
    let d = sat(x + 15 * y + 3 * z);
    if d == 0 {
        0
    } else {
        fdiv(sat(4 * x), d)
    }
}

/// v' chromaticity: 9Y / (X + 15Y + 3Z); a denominator below the guard
/// threshold (one unit) yields zero.
pub open spec fn v_prime_s(x: int, y: int, z: int) -> int {
    let d = sat(x + 15 * y + 3 * z);
    if d == 0 {
        0
    } else {
        fdiv(sat(9 * y), d)
    }
}

/// u' chromaticity.
fn u_prime(x: i128, y: i128, z: i128) -> (r: i128)
    requires
        -VMAX <= x <= VMAX,
        -VMAX <= y <= VMAX,
        -VMAX <= z <= VMAX,
    ensures
        r == u_prime_s(x as int, y as int, z as int),
        -VMAX <= r <= VMAX,
{
    let d = fx_sat(x + 15 * y + 3 * z);
    if d == 0 {
        0
    } else {
        fx_div(fx_sat(4 * x), d)
    }
}

/// v' chromaticity.
fn v_prime(x: i128, y: i128, z: i128) -> (r: i128)
    requires
        -VMAX <= x <= VMAX,
        -VMAX <= y <= VMAX,
        -VMAX <= z <= VMAX,
    ensures
        r == v_prime_s(x as int, y as int, z as int),
        -VMAX <= r <= VMAX,
{
    let d = fx_sat(x + 15 * y + 3 * z);
    if d == 0 {
        0
    } else {
        fx_div(fx_sat(9 * y), d)
    }
}

/// Luv to pivot: recover Y from L through the piecewise lightness form,
/// rebuild u', v' (falling back to the white's own chromaticity at L of
/// zero), then X, Y, Z algebraically and the fixed bridge.
pub open spec fn luv_to_color_s(l: int, u: int, v: int, alpha: int) -> (int, int, int, int) {
    let up_ref = u_prime_s(LAB_XN as int, crate::SCALE as int, LAB_ZN as int);
    let vp_ref = v_prime_s(LAB_XN as int, crate::SCALE as int, LAB_ZN as int);
    let yr = if l > C8 as int {
        let t = fdiv(fadd(l, C16 as int), C116 as int);
        fmul(fmul(t, t), t)
    } else {
        fdiv(l, C903_3 as int)
    };
    let up = if l == 0 {
        up_ref
    } else {
        fadd(fdiv(u, fmul(C13 as int, l)), up_ref)
    };
    let vp = if l == 0 {
        vp_ref
    } else {
        fadd(fdiv(v, fmul(C13 as int, l)), vp_ref)
    };
    let vp_denom = fmax(abs_i(sat(4 * vp)), 1);
    let x = fdiv(fmul(fmul(yr, C9 as int), up), vp_denom);
    let z = fdiv(fmul(yr, fsub(fsub(C12 as int, fmul(C3 as int, up)), fmul(C20 as int, vp))), vp_denom);
    (bridge_r(x, yr, z), bridge_g(x, yr, z), bridge_b(x, yr, z), alpha)
}

/// Pivot to Luv: the fixed bridge, the piecewise lightness of Y, and the
/// chromaticity differences scaled by 13 L.
pub open spec fn luv_from_color_s(r: int, g: int, b: int, a: int) -> (int, int, int, int) {
    let x = bridge_x(r, g, b);
    let y = bridge_y(r, g, b);
    let z = bridge_z(r, g, b);
    let l = if y > C008856 as int {
        fsub(fmul(C116 as int, fcbrt(y)), C16 as int)
    } else {
        fmul(C903_3 as int, y)
    };
    let ur_p = u_prime_s(x, y, z);
    let vr_p = v_prime_s(x, y, z);
    let ur_n = u_prime_s(LAB_XN as int, crate::SCALE as int, LAB_ZN as int);
    let vr_n = v_prime_s(LAB_XN as int, crate::SCALE as int, LAB_ZN as int);
    (
        l,
        fmul(fmul(C13 as int, l), fsub(ur_p, ur_n)),
        fmul(fmul(C13 as int, l), fsub(vr_p, vr_n)),
        a,
    )
}

impl Luv {
    /// Convert to the pivot. Out-of-range inputs propagate; nothing is
    /// clamped.
    pub fn to_color(&self) -> (c: Color)
        ensures
            (c.r as int, c.g as int, c.b as int, c.a as int) == luv_to_color_s(
                sat(self.l as int),
                sat(self.u as int),
                sat(self.v as int),
                sat(self.alpha as int),
            ),
    {
        let l = fx_sat(self.l);
        let u = fx_sat(self.u);
        let v = fx_sat(self.v);
        let up_ref = u_prime(LAB_XN, crate::SCALE, LAB_ZN);
        let vp_ref = v_prime(LAB_XN, crate::SCALE, LAB_ZN);
        let yr = if l > C8 {
            let t = fx_div(fx_add(l, C16), C116);
            fx_mul(fx_mul(t, t), t)
        } else {
            fx_div(l, C903_3)
        };
        let up = if l == 0 {
            up_ref
        } else {
            fx_add(fx_div(u, fx_mul(C13, l)), up_ref)
        };
        let vp = if l == 0 {
            vp_ref
        } else {
            fx_add(fx_div(v, fx_mul(C13, l)), vp_ref)
        };
        let vp_denom = fx_max(fx_abs(fx_sat(4 * vp)), 1);
        let x = fx_div(fx_mul(fx_mul(yr, C9), up), vp_denom);
        let z = fx_div(fx_mul(yr, fx_sub(fx_sub(C12, fx_mul(C3, up)), fx_mul(C20, vp))), vp_denom);
        let rgb = fx_bridge_to_rgb(x, yr, z);
        Color::new(rgb.0, rgb.1, rgb.2, fx_sat(self.alpha))
    }

    /// Convert from the pivot. Out-of-range inputs propagate; nothing is
    /// clamped.
    pub fn from_color(c: &Color) -> (s: Luv)
        ensures
            (s.l as int, s.u as int, s.v as int, s.alpha as int) == luv_from_color_s(
                sat(c.r as int),
                sat(c.g as int),
                sat(c.b as int),
                sat(c.a as int),
            ),
    {
        let xyz = fx_bridge_to_xyz(fx_sat(c.r), fx_sat(c.g), fx_sat(c.b));
        let x = xyz.0;
        let y = xyz.1;
        let z = xyz.2;
        let l = if y > C008856 {
            fx_sub(fx_mul(C116, fx_cbrt(y)), C16)
        } else {
            fx_mul(C903_3, y)
        };
        let ur_p = u_prime(x, y, z);
        let vr_p = v_prime(x, y, z);
        let ur_n = u_prime(LAB_XN, crate::SCALE, LAB_ZN);
        let vr_n = v_prime(LAB_XN, crate::SCALE, LAB_ZN);
        Luv {
            l,
            u: fx_mul(fx_mul(C13, l), fx_sub(ur_p, ur_n)),
            v: fx_mul(fx_mul(C13, l), fx_sub(vr_p, vr_n)),
            alpha: fx_sat(c.a),
        }
    }
}

impl ColorSpace for Luv {
    open spec fn to_color_spec(&self) -> Color {
        let t = luv_to_color_s(sat(self.l as int), sat(self.u as int), sat(self.v as int), sat(self.alpha as int));
        Color { r: t.0 as i128, g: t.1 as i128, b: t.2 as i128, a: t.3 as i128 }
    }

    open spec fn from_color_spec(color: &Color) -> Self {
        let t = luv_from_color_s(
            sat(color.r as int),
            sat(color.g as int),
            sat(color.b as int),
            sat(color.a as int),
        );
        Luv { l: t.0 as i128, u: t.1 as i128, v: t.2 as i128, alpha: t.3 as i128 }
    }

    fn to_color(&self) -> (c: Color) {
        Luv::to_color(self)
    }

    fn from_color(color: &Color) -> (s: Self) {
        Luv::from_color(color)
    }
}

} // verus!
