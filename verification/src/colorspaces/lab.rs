//! CIE Lab (D65): the piecewise cube-root lightness function over XYZ.
use vstd::prelude::*;
use crate::colorspaces::color::Color;
use crate::colorspaces::colorspace::ColorSpace;
use crate::colorspaces::fixed::{fadd, fcbrt, fdiv, fmul, fsub, fx_add, fx_cbrt, fx_div, fx_mul, fx_sat, fx_sub, fx_tdiv, is_floor_cbrt, sat, tdiv, VMAX};
use crate::colorspaces::matrix::{bridge_x, bridge_y, bridge_z, bridge_r, bridge_g, bridge_b, fx_bridge_to_rgb, fx_bridge_to_xyz};

verus! {

/// D65 white X (0.95047).
pub const LAB_XN: i128 = 9_504_700_000;

/// D65 white Z (1.08883); the white Y is exactly one.
pub const LAB_ZN: i128 = 10_888_300_000;

/// Sixteen, in units.
pub const C16: i128 = 160_000_000_000;

/// One hundred sixteen, in units.
pub const C116: i128 = 1_160_000_000_000;

/// Five hundred, in units.
pub const C500: i128 = 5_000_000_000_000;

/// Two hundred, in units.
pub const C200: i128 = 2_000_000_000_000;

/// The offset 4/29 of the linear segment, in units (nearest unit).
pub const C4_29: i128 = 1_379_310_345;

/// CIE Lab (D65): l in [0, 100], a and b unbounded, plus alpha.
#[derive(Debug, Clone, Copy, PartialEq, Eq, Structural)]
pub struct Lab {
    pub l: i128,
    pub a: i128,
    pub b: i128,
    pub alpha: i128,
}

/// The Lab forward function f: a cube root above the threshold (6/29)^3
/// (the comparison is exact: t > 216/24389), else the linear segment
/// (841/108) t + 4/29.
pub open spec fn lab_f(t: int) -> int {
    if 24389 * t > 216 * crate::SCALE as int {
        fcbrt(t)
    } else {
        fadd(sat(tdiv(841 * t, 108)), C4_29 as int)
    }
}

/// The inverse of `lab_f`: a cube above the threshold 6/29, else the linear
/// segment (108/841) (u - 4/29).
pub open spec fn lab_f_inv(u: int) -> int {
    if 29 * u > 6 * crate::SCALE as int {
        fmul(fmul(u, u), u)
    } else {
        sat(tdiv(108 * fsub(u, C4_29 as int), 841))
    }
}

/// Lab to pivot: undo the f nonlinearity per channel against the D65 white,
/// then the fixed bridge matrix.
pub open spec fn lab_to_color_s(l: int, a: int, b: int, alpha: int) -> (int, int, int, int) {
    let fy = fdiv(fadd(l, C16 as int), C116 as int);
    let fx = fadd(fy, fdiv(a, C500 as int));
    let fz = fsub(fy, fdiv(b, C200 as int));
    let x = fmul(LAB_XN as int, lab_f_inv(fx));
    let y = lab_f_inv(fy);
    let z = fmul(LAB_ZN as int, lab_f_inv(fz));
    (bridge_r(x, y, z), bridge_g(x, y, z), bridge_b(x, y, z), alpha)
}

/// Pivot to Lab: the fixed bridge matrix, then f per channel against the
/// D65 white.
pub open spec fn lab_from_color_s(r: int, g: int, b: int, a: int) -> (int, int, int, int) {
    let x = bridge_x(r, g, b);
    let y = bridge_y(r, g, b);
    let z = bridge_z(r, g, b);
    let fx = lab_f(fdiv(x, LAB_XN as int));
    let fy = lab_f(y);
    let fz = lab_f(fdiv(z, LAB_ZN as int));
    (
        fsub(fmul(C116 as int, fy), C16 as int),
        fmul(C500 as int, fsub(fx, fy)),
        fmul(C200 as int, fsub(fy, fz)),
        a,
    )
}

/// The Lab forward function f.
pub fn fx_lab_f(t: i128) -> (r: i128)
    requires
        -VMAX <= t <= VMAX,
    ensures
        r == lab_f(t as int),
        -VMAX <= r <= VMAX,
{
    if 24389 * t > 216 * crate::SCALE {
        fx_cbrt(t)
    } else {
        let lin = fx_sat(fx_tdiv(841 * t, 108));
        fx_add(lin, C4_29)
    }
}

/// The inverse of the Lab forward function f.
pub fn fx_lab_f_inv(u: i128) -> (r: i128)
    requires
        -VMAX <= u <= VMAX,
    ensures
        r == lab_f_inv(u as int),
        -VMAX <= r <= VMAX,
{
    if 29 * u > 6 * crate::SCALE {
        fx_mul(fx_mul(u, u), u)
    } else {
        fx_sat(fx_tdiv(108 * fx_sub(u, C4_29), 841))
    }
}

/// Both transfer functions fix one exactly: f(1) == 1 and its inverse of 1
/// is 1.
pub proof fn lemma_lab_f_unit()
    ensures
        lab_f(crate::SCALE as int) == crate::SCALE as int,
        lab_f_inv(crate::SCALE as int) == crate::SCALE as int,
{
    let s = crate::SCALE as int;
    assert(is_floor_cbrt(s * s * s, s));
    crate::colorspaces::fixed::lemma_floor_cbrt_unique(s * s * s, s);
    crate::colorspaces::fixed::lemma_tdiv_exact(s * s, s, s);
    assert(fmul(s, s) == s);
}

/// On the linear segment the transfer pair inverts to within one unit:
/// applying f and then its inverse returns the argument or one unit less.
/// (A tolerance below one unit is not expressible at this resolution.)
pub proof fn lemma_lab_f_inverse_linear(t: int)
    requires
        0 <= t,
        24389 * t <= 216 * crate::SCALE as int,
    ensures
        t - 1 <= lab_f_inv(lab_f(t)) <= t,
{
    let s = crate::SCALE as int;
    assert(t <= 88_564_516);
    vstd::arithmetic::div_mod::lemma_fundamental_div_mod(841 * t, 108);
    let q = tdiv(841 * t, 108);
    assert(q == (841 * t) / 108);
    assert(108 * q <= 841 * t);
    assert(q <= 689_655_166);
    let u = lab_f(t);
    assert(u == q + C4_29 as int);
    assert(29 * u <= 6 * s);
    vstd::arithmetic::div_mod::lemma_fundamental_div_mod(108 * q, 841);
    let w = tdiv(108 * q, 841);
    assert(w == (108 * q) / 841);
    assert(841 * t - 108 * q == (841 * t) % 108);
    assert(108 * q - 841 * w == (108 * q) % 841);
    assert(0 <= 841 * t - 841 * w <= 947);
    assert(841 * (t - w) == 841 * t - 841 * w) by (nonlinear_arith);
    assert(t - 1 <= w <= t);
    assert(lab_f_inv(u) == sat(tdiv(108 * fsub(u, C4_29 as int), 841)));
    assert(fsub(u, C4_29 as int) == q);
    assert(lab_f_inv(u) == w);
}

/// On the cube-root branch, for arguments up to twice the unit whose image
/// lands in the cube branch of the inverse, the transfer pair inverts to
/// within seven units (7e-10): the quantization error of one floor cube
/// root, one squaring and one final rescaling.
pub proof fn lemma_lab_f_inverse_cube(t: int)
    requires
        216 * (crate::SCALE as int) < 24389 * t,
        t <= 2 * crate::SCALE as int,
        29 * lab_f(t) > 6 * crate::SCALE as int,
    ensures
        t - 7 <= lab_f_inv(lab_f(t)) <= t,
{
    let s = crate::SCALE as int;
    assert(t > 0);
    crate::colorspaces::fixed::lemma_floor_cbrt_exists(t * s * s);
    let u = fcbrt(t);
    assert(is_floor_cbrt(t * s * s, u));
    assert(u <= 12_599_210_499) by (nonlinear_arith)
        requires
            u >= 0,
            u * u * u <= t * (crate::SCALE as int) * (crate::SCALE as int),
            t <= 2 * crate::SCALE as int,
            crate::SCALE == 10_000_000_000i128,
    ;
    assert(lab_f(t) == u);
    vstd::arithmetic::div_mod::lemma_fundamental_div_mod(u * u, s);
    let w1 = (u * u) / s;
    let r1 = (u * u) % s;
    assert(0 <= w1 <= 15_874_010_520) by (nonlinear_arith)
        requires
            u * u == (crate::SCALE as int) * w1 + r1,
            0 <= r1 < crate::SCALE as int,
            0 <= u <= 12_599_210_499,
            crate::SCALE == 10_000_000_000i128,
    ;
    assert(fmul(u, u) == w1);
    vstd::arithmetic::div_mod::lemma_fundamental_div_mod(w1 * u, s);
    let v = (w1 * u) / s;
    let r2 = (w1 * u) % s;
    assert(0 <= v <= 20_000_000_010) by (nonlinear_arith)
        requires
            w1 * u == (crate::SCALE as int) * v + r2,
            0 <= r2 < crate::SCALE as int,
            0 <= u <= 12_599_210_499,
            0 <= w1 <= 15_874_010_520,
            crate::SCALE == 10_000_000_000i128,
    ;
    assert(fmul(w1, u) == v);
    assert(lab_f_inv(u) == v);
    assert(u * u * u == s * s * v + s * r2 + u * r1) by (nonlinear_arith)
        requires
            u * u == s * w1 + r1,
            w1 * u == s * v + r2,
    ;
    assert(t - 7 <= v <= t) by (nonlinear_arith)
        requires
            u * u * u == s * s * v + s * r2 + u * r1,
            u * u * u <= t * s * s,
            t * s * s < (u + 1) * (u + 1) * (u + 1),
            0 <= r1 < s,
            0 <= r2 < s,
            0 <= u <= 12_599_210_499,
            s == 10_000_000_000int,
    ;
}

impl Lab {
    /// Convert to the pivot. Out-of-range inputs propagate; nothing is
    /// clamped.
    pub fn to_color(&self) -> (c: Color)
        ensures
            (c.r as int, c.g as int, c.b as int, c.a as int) == lab_to_color_s(
                sat(self.l as int),
                sat(self.a as int),
                sat(self.b as int),
                sat(self.alpha as int),
            ),
    {
        let l = fx_sat(self.l);
        let a = fx_sat(self.a);
        let b = fx_sat(self.b);
        let fy = fx_div(fx_add(l, C16), C116);
        let fx = fx_add(fy, fx_div(a, C500));
        let fz = fx_sub(fy, fx_div(b, C200));
        let x = fx_mul(LAB_XN, fx_lab_f_inv(fx));
        let y = fx_lab_f_inv(fy);
        let z = fx_mul(LAB_ZN, fx_lab_f_inv(fz));
        let rgb = fx_bridge_to_rgb(x, y, z);
        Color::new(rgb.0, rgb.1, rgb.2, fx_sat(self.alpha))
    }

    /// Convert from the pivot. Out-of-range inputs propagate; nothing is
    /// clamped.
    pub fn from_color(c: &Color) -> (s: Lab)
        ensures
            (s.l as int, s.a as int, s.b as int, s.alpha as int) == lab_from_color_s(
                sat(c.r as int),
                sat(c.g as int),
                sat(c.b as int),
                sat(c.a as int),
            ),
    {
        let xyz = fx_bridge_to_xyz(fx_sat(c.r), fx_sat(c.g), fx_sat(c.b));
        let fx = fx_lab_f(fx_div(xyz.0, LAB_XN));
        let fy = fx_lab_f(xyz.1);
        let fz = fx_lab_f(fx_div(xyz.2, LAB_ZN));
        Lab {
            l: fx_sub(fx_mul(C116, fy), C16),
            a: fx_mul(C500, fx_sub(fx, fy)),
            b: fx_mul(C200, fx_sub(fy, fz)),
            alpha: fx_sat(c.a),
        }
    }
}

impl ColorSpace for Lab {
    open spec fn to_color_spec(&self) -> Color {
        let t = lab_to_color_s(sat(self.l as int), sat(self.a as int), sat(self.b as int), sat(self.alpha as int));
        Color { r: t.0 as i128, g: t.1 as i128, b: t.2 as i128, a: t.3 as i128 }
    }

    open spec fn from_color_spec(color: &Color) -> Self {
        let t = lab_from_color_s(
            sat(color.r as int),
            sat(color.g as int),
            sat(color.b as int),
            sat(color.a as int),
        );
        Lab { l: t.0 as i128, a: t.1 as i128, b: t.2 as i128, alpha: t.3 as i128 }
    }

    fn to_color(&self) -> (c: Color) {
        Lab::to_color(self)
    }

    fn from_color(color: &Color) -> (s: Self) {
        Lab::from_color(color)
    }
}

} // verus!
