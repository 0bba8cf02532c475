//! HSV: hue, saturation, value.
use vstd::prelude::*;
use crate::colorspaces::color::Color;
use crate::colorspaces::colorspace::ColorSpace;
use crate::colorspaces::fixed::{abs_i, fadd, fdiv, fmul, fsub, fmax, fmin, fx_add, fx_div, fx_edivmod, fx_max, fx_min, fx_mul, fx_sat, fx_sub, fx_tmod, sat, tmod};
use crate::colorspaces::hsl::{D360, FOUR, SIX, TWO};

verus! {

/// Sixty degrees, in degree units.
pub const D60: i128 = 600_000_000_000;

/// HSV: hue in degrees [0, 360), saturation, value and alpha in [0, 1].
#[derive(Debug, Clone, Copy, PartialEq, Eq, Structural)]
pub struct Hsv {
    /// Hue in degrees [0,360)
    pub h: i128,
    /// Saturation [0,1]
    pub s: i128,
    /// Value [0,1]
    pub v: i128,
    pub a: i128,
}

/// HSV to pivot: the hue sector index and fraction pick among {v, p, q, t}.
pub open spec fn hsv_to_color_s(h: int, s: int, v: int, a: int) -> (int, int, int, int) {
    let hs = fdiv(h, D60 as int);
    let i = hs / (crate::SCALE as int);
    let f = hs % (crate::SCALE as int);
    let p = fmul(v, fsub(crate::SCALE as int, s));
    let q = fmul(v, fsub(crate::SCALE as int, fmul(s, f)));
    let t = fmul(v, fsub(crate::SCALE as int, fmul(s, fsub(crate::SCALE as int, f))));
    let sector = i % 6;
    if sector == 0 {
        (v, t, p, a)
    } else if sector == 1 {
        (q, v, p, a)
    } else if sector == 2 {
        (p, v, t, a)
    } else if sector == 3 {
        (p, q, v, a)
    } else if sector == 4 {
        (t, p, v, a)
    } else {
        (v, p, q, a)
    }
}

/// Pivot to HSV: value is the channel maximum, saturation the relative
/// spread, hue the sector formula; an achromatic color reports hue zero.
pub open spec fn hsv_from_color_s(r: int, g: int, b: int, a: int) -> (int, int, int, int) {
    let mx = fmax(fmax(r, g), b);
    let mn = fmin(fmin(r, g), b);
    let d = mx - mn;
    let s = if mx != 0 {
        fdiv(sat(d), mx)
    } else {
        0
    };
    let h = if d == 0 {
        0
    } else {
        let hs = if mx == r {
            tmod(fdiv(fsub(g, b), sat(d)), SIX as int)
        } else if mx == g {
            fadd(fdiv(fsub(b, r), sat(d)), TWO as int)
        } else {
            fadd(fdiv(fsub(r, g), sat(d)), FOUR as int)
        };
        fmul(D60 as int, hs)
    };
    let hw = if h < 0 {
        fadd(h, D360 as int)
    } else {
        h
    };
    (hw, s, mx, a)
}

impl Hsv {
    /// Convert to the pivot. Out-of-range inputs propagate; nothing is
    /// clamped.
    pub fn to_color(&self) -> (c: Color)
        ensures
            (c.r as int, c.g as int, c.b as int, c.a as int) == hsv_to_color_s(
                sat(self.h as int),
                sat(self.s as int),
                sat(self.v as int),
                sat(self.a as int),
            ),
    {
        let h = fx_sat(self.h);
        let s = fx_sat(self.s);
        let v = fx_sat(self.v);
        let hs = fx_div(h, D60);
        let ifr = fx_edivmod(hs, crate::SCALE);
        let f = ifr.1;
        let p = fx_mul(v, fx_sub(crate::SCALE, s));
        let q = fx_mul(v, fx_sub(crate::SCALE, fx_mul(s, f)));
        let t = fx_mul(v, fx_sub(crate::SCALE, fx_mul(s, fx_sub(crate::SCALE, f))));
        let sec = fx_edivmod(ifr.0, 6);
        let a = fx_sat(self.a);
        let sector = sec.1;
        if sector == 0 {
            Color { r: v, g: t, b: p, a }
        } else if sector == 1 {
            Color { r: q, g: v, b: p, a }
        } else if sector == 2 {
            Color { r: p, g: v, b: t, a }
        } else if sector == 3 {
            Color { r: p, g: q, b: v, a }
        } else if sector == 4 {
            Color { r: t, g: p, b: v, a }
        } else {
            Color { r: v, g: p, b: q, a }
        }
    }

    /// Convert from the pivot. An achromatic color (all channels equal)
    /// reports hue and saturation exactly zero.
    pub fn from_color(c: &Color) -> (s: Hsv)
        ensures
            (s.h as int, s.s as int, s.v as int, s.a as int) == hsv_from_color_s(
                sat(c.r as int),
                sat(c.g as int),
                sat(c.b as int),
                sat(c.a as int),
            ),
            c.r == c.g && c.g == c.b ==> s.h == 0 && s.s == 0,
            0 <= s.h < D360,
    {
        let r = fx_sat(c.r);
        let g = fx_sat(c.g);
        let b = fx_sat(c.b);
        let mx = fx_max(fx_max(r, g), b);
        let mn = fx_min(fx_min(r, g), b);
        let d = mx - mn;
        let sv = if mx != 0 {
            fx_div(fx_sat(d), mx)
        } else {
            0
        };
        let h = if d == 0 {
            0
        } else {
            let ds = fx_sat(d);
            proof {
                assert(mn <= r <= mx && mn <= g <= mx && mn <= b <= mx);
                assert(ds >= 1);
            }
            let hs = if mx == r {
                let num = fx_sub(g, b);
                let ratio = fx_div(num, ds);
                proof {
                    crate::colorspaces::fixed::lemma_fdiv_ratio_unit(num as int, ds as int);
                    vstd::arithmetic::div_mod::lemma_fundamental_div_mod_converse(
                        abs_i(ratio as int),
                        SIX as int,
                        0,
                        abs_i(ratio as int),
                    );
                }
                fx_tmod(ratio, SIX)
            } else if mx == g {
                let num = fx_sub(b, r);
                let ratio = fx_div(num, ds);
                proof {
                    crate::colorspaces::fixed::lemma_fdiv_ratio_unit(num as int, ds as int);
                }
                fx_add(ratio, TWO)
            } else {
                let num = fx_sub(r, g);
                let ratio = fx_div(num, ds);
                proof {
                    crate::colorspaces::fixed::lemma_fdiv_ratio_unit(num as int, ds as int);
                }
                fx_add(ratio, FOUR)
            };
            proof {
                assert(-50_000_000_000 <= hs <= 50_000_000_000);
                crate::colorspaces::fixed::lemma_fmul_whole(60, hs as int);
            }
            fx_mul(D60, hs)
        };
        let hw = if h < 0 {
            fx_add(h, D360)
        } else {
            h
        };
        Hsv { h: hw, s: sv, v: mx, a: fx_sat(c.a) }
    }
}

impl ColorSpace for Hsv {
    open spec fn to_color_spec(&self) -> Color {
        let t = hsv_to_color_s(sat(self.h as int), sat(self.s as int), sat(self.v as int), sat(self.a as int));
        Color { r: t.0 as i128, g: t.1 as i128, b: t.2 as i128, a: t.3 as i128 }
    }

    open spec fn from_color_spec(color: &Color) -> Self {
        let t = hsv_from_color_s(
            sat(color.r as int),
            sat(color.g as int),
            sat(color.b as int),
            sat(color.a as int),
        );
        Hsv { h: t.0 as i128, s: t.1 as i128, v: t.2 as i128, a: t.3 as i128 }
    }

    fn to_color(&self) -> (c: Color) {
        Hsv::to_color(self)
    }

    fn from_color(color: &Color) -> (s: Self) {
        Hsv::from_color(color)
    }
}

} // verus!
