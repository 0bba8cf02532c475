//! Oklab: the perceptual space built from a cube-root LMS transform. This is
//! the one family whose pivot-direction output is clamped by design.
use vstd::prelude::*;
use crate::colorspaces::color::Color;
use crate::colorspaces::colorspace::ColorSpace;
use crate::colorspaces::fixed::{fclamp, fcbrt, fmul, fx_cbrt, fx_clamp, fx_mul, fx_sat, sat};
use crate::colorspaces::matrix::{frow, fx_row};

verus! {

/// One half, in units: the clamp bound on the a and b channels.
pub const OK_HALF: i128 = 5_000_000_000;

/// Oklab: L in [0, 1], a and b usually in [-0.5, 0.5], plus alpha.
#[derive(Debug, Clone, Copy, PartialEq, Eq, Structural, Default)]
pub struct Oklab {
    pub l: i128,
    pub a: i128,
    pub b: i128,
    pub alpha: i128,
}

/// Oklab to pivot: Oklab to nonlinear LMS, cube, LMS to linear RGB, then
/// every output channel clamped to [0, 1].
pub open spec fn oklab_to_color_s(l: int, a: int, b: int, alpha: int) -> (int, int, int, int) {
    let lp = frow(crate::SCALE as int, 3_963_377_774, 2_158_037_573, l, a, b);
    let mp = frow(crate::SCALE as int, -1_055_613_458, -638_541_728, l, a, b);
    let sp = frow(crate::SCALE as int, -894_841_775, -12_914_855_480, l, a, b);
    let lc = fmul(fmul(lp, lp), lp);
    let mc = fmul(fmul(mp, mp), mp);
    let sc = fmul(fmul(sp, sp), sp);
    let r = frow(40_767_416_621, -33_077_115_913, 2_309_699_292, lc, mc, sc);
    let g = frow(-12_684_380_046, 26_097_574_011, -3_413_193_965, lc, mc, sc);
    let bb = frow(-41_960_863, -7_034_186_147, 17_076_147_010, lc, mc, sc);
    (
        fclamp(r, 0, crate::SCALE as int),
        fclamp(g, 0, crate::SCALE as int),
        fclamp(bb, 0, crate::SCALE as int),
        fclamp(alpha, 0, crate::SCALE as int),
    )
}

/// Pivot to Oklab: input clamped to [0, 1], linear RGB to LMS, cube root,
/// LMS to Oklab, then L clamped to [0, 1] and a, b to [-0.5, 0.5].
pub open spec fn oklab_from_color_s(r: int, g: int, b: int, a: int) -> (int, int, int, int) {
    let rc = fclamp(r, 0, crate::SCALE as int);
    let gc = fclamp(g, 0, crate::SCALE as int);
    let bc = fclamp(b, 0, crate::SCALE as int);
    let l = frow(4_122_214_708, 5_363_325_363, 514_459_929, rc, gc, bc);
    let m = frow(2_119_034_982, 6_806_995_451, 1_073_969_566, rc, gc, bc);
    let s = frow(883_024_619, 2_817_188_376, 6_299_787_005, rc, gc, bc);
    let lp = fcbrt(l);
    let mp = fcbrt(m);
    let sp = fcbrt(s);
    let lo = frow(2_104_542_553, 7_936_177_850, -40_720_468, lp, mp, sp);
    let ao = frow(19_779_984_951, -24_285_922_050, 4_505_937_099, lp, mp, sp);
    let bo = frow(259_040_371, 7_827_717_662, -8_086_757_660, lp, mp, sp);
    (
        fclamp(lo, 0, crate::SCALE as int),
        fclamp(ao, -(OK_HALF as int), OK_HALF as int),
        fclamp(bo, -(OK_HALF as int), OK_HALF as int),
        fclamp(a, 0, crate::SCALE as int),
    )
}

impl Oklab {
    /// Convert to the pivot; the output RGB and alpha are clamped to [0, 1]
    /// by design.
    pub fn to_color(&self) -> (c: Color)
        ensures
            (c.r as int, c.g as int, c.b as int, c.a as int) == oklab_to_color_s(
                sat(self.l as int),
                sat(self.a as int),
                sat(self.b as int),
                sat(self.alpha as int),
            ),
            0 <= c.r <= crate::SCALE,
            0 <= c.g <= crate::SCALE,
            0 <= c.b <= crate::SCALE,
            0 <= c.a <= crate::SCALE,
    {
        let l = fx_sat(self.l);
        let a = fx_sat(self.a);
        let b = fx_sat(self.b);
        let lp = fx_row(crate::SCALE, 3_963_377_774, 2_158_037_573, l, a, b);
        let mp = fx_row(crate::SCALE, -1_055_613_458, -638_541_728, l, a, b);
        let sp = fx_row(crate::SCALE, -894_841_775, -12_914_855_480, l, a, b);
        let lc = fx_mul(fx_mul(lp, lp), lp);
        let mc = fx_mul(fx_mul(mp, mp), mp);
        let sc = fx_mul(fx_mul(sp, sp), sp);
        let r = fx_row(40_767_416_621, -33_077_115_913, 2_309_699_292, lc, mc, sc);
        let g = fx_row(-12_684_380_046, 26_097_574_011, -3_413_193_965, lc, mc, sc);
        let bb = fx_row(-41_960_863, -7_034_186_147, 17_076_147_010, lc, mc, sc);
        Color {
            r: fx_clamp(r, 0, crate::SCALE),
            g: fx_clamp(g, 0, crate::SCALE),
            b: fx_clamp(bb, 0, crate::SCALE),
            a: fx_clamp(fx_sat(self.alpha), 0, crate::SCALE),
        }
    }

    /// Convert from the pivot; input and output channels are clamped by
    /// design.
    pub fn from_color(c: &Color) -> (s: Oklab)
        ensures
            (s.l as int, s.a as int, s.b as int, s.alpha as int) == oklab_from_color_s(
                sat(c.r as int),
                sat(c.g as int),
                sat(c.b as int),
                sat(c.a as int),
            ),
            0 <= s.l <= crate::SCALE,
            -OK_HALF <= s.a <= OK_HALF,
            -OK_HALF <= s.b <= OK_HALF,
            0 <= s.alpha <= crate::SCALE,
    {
        let rc = fx_clamp(fx_sat(c.r), 0, crate::SCALE);
        let gc = fx_clamp(fx_sat(c.g), 0, crate::SCALE);
        let bc = fx_clamp(fx_sat(c.b), 0, crate::SCALE);
        let l = fx_row(4_122_214_708, 5_363_325_363, 514_459_929, rc, gc, bc);
        let m = fx_row(2_119_034_982, 6_806_995_451, 1_073_969_566, rc, gc, bc);
        let s = fx_row(883_024_619, 2_817_188_376, 6_299_787_005, rc, gc, bc);
        let lp = fx_cbrt(l);
        let mp = fx_cbrt(m);
        let sp = fx_cbrt(s);
        let lo = fx_row(2_104_542_553, 7_936_177_850, -40_720_468, lp, mp, sp);
        let ao = fx_row(19_779_984_951, -24_285_922_050, 4_505_937_099, lp, mp, sp);
        let bo = fx_row(259_040_371, 7_827_717_662, -8_086_757_660, lp, mp, sp);
        Oklab {
            l: fx_clamp(lo, 0, crate::SCALE),
            a: fx_clamp(ao, -OK_HALF, OK_HALF),
            b: fx_clamp(bo, -OK_HALF, OK_HALF),
            alpha: fx_clamp(fx_sat(c.a), 0, crate::SCALE),
        }
    }
}

impl ColorSpace for Oklab {
    open spec fn to_color_spec(&self) -> Color {
        let t = oklab_to_color_s(sat(self.l as int), sat(self.a as int), sat(self.b as int), sat(self.alpha as int));
        Color { r: t.0 as i128, g: t.1 as i128, b: t.2 as i128, a: t.3 as i128 }
    }

    open spec fn from_color_spec(color: &Color) -> Self {
        let t = oklab_from_color_s(
            sat(color.r as int),
            sat(color.g as int),
            sat(color.b as int),
            sat(color.a as int),
        );
        Oklab { l: t.0 as i128, a: t.1 as i128, b: t.2 as i128, alpha: t.3 as i128 }
    }

    fn to_color(&self) -> (c: Color) {
        Oklab::to_color(self)
    }

    fn from_color(color: &Color) -> (s: Self) {
        Oklab::from_color(color)
    }
}

} // verus!
