//! HSL: hue, saturation, lightness.
use vstd::prelude::*;
use crate::colorspaces::color::Color;
use crate::colorspaces::colorspace::ColorSpace;
use crate::colorspaces::fixed::{fadd, fdiv, fmul, fsub, fx_add, fx_div, fx_max, fx_min, fx_mul, fx_sat, fx_sub, fx_tdiv, fmax, fmin, sat, tdiv, VMAX};

verus! {

/// One sixth, in units (nearest unit).
pub const SIXTH: i128 = 1_666_666_667;

/// One third, in units (nearest unit).
pub const THIRD: i128 = 3_333_333_333;

/// One half, in units.
pub const HALF: i128 = 5_000_000_000;

/// Two thirds, in units (nearest unit).
pub const TWO_THIRDS: i128 = 6_666_666_667;

/// Two, in units.
pub const TWO: i128 = 20_000_000_000;

/// Four, in units.
pub const FOUR: i128 = 40_000_000_000;

/// Six, in units.
pub const SIX: i128 = 60_000_000_000;

/// A full turn of hue, in degree units.
pub const D360: i128 = 3_600_000_000_000;

/// HSL: hue in degrees [0, 360), saturation, lightness and alpha in [0, 1].
#[derive(Debug, Clone, Copy, PartialEq, Eq, Structural)]
pub struct Hsl {
    /// Hue in degrees [0, 360)
    pub h: i128,
    /// Saturation [0, 1]
    pub s: i128,
    /// Lightness [0, 1]
    pub l: i128,
    /// Alpha [0, 1]
    pub a: i128,
}

/// The six-segment hue interpolation between the two lightness anchors.
pub open spec fn hue_to_rgb(p: int, q: int, t: int) -> int {
    let t1 = if t < 0 {
        fadd(t, crate::SCALE as int)
    } else {
        t
    };
    let t2 = if t1 > crate::SCALE as int {
        fsub(t1, crate::SCALE as int)
    } else {
        t1
    };
    if t2 < SIXTH as int {
        fadd(p, fmul(fmul(fsub(q, p), SIX as int), t2))
    } else if t2 < HALF as int {
        q
    } else if t2 < TWO_THIRDS as int {
        fadd(p, fmul(fmul(fsub(q, p), fsub(TWO_THIRDS as int, t2)), SIX as int))
    } else {
        p
    }
}

/// HSL to pivot: the two anchors p and q, then the six-segment hue walk.
pub open spec fn hsl_to_color_s(h: int, s: int, l: int, a: int) -> (int, int, int, int) {
    let hf = fdiv(h, D360 as int);
    let q = if l < HALF as int {
        fmul(l, fadd(crate::SCALE as int, s))
    } else {
        fsub(fadd(l, s), fmul(l, s))
    };
    let p = fsub(fmul(TWO as int, l), q);
    (
        hue_to_rgb(p, q, fadd(hf, THIRD as int)),
        hue_to_rgb(p, q, hf),
        hue_to_rgb(p, q, fsub(hf, THIRD as int)),
        a,
    )
}

/// Pivot to HSL: lightness from the channel extremes, saturation and hue
/// from their spread; an achromatic color reports hue and saturation zero.
/// A hue fraction that truncation lands exactly on the full turn wraps to
/// zero, keeping the hue inside [0, 360) degrees.
pub open spec fn hsl_from_color_s(r: int, g: int, b: int, a: int) -> (int, int, int, int) {
    let mx = fmax(fmax(r, g), b);
    let mn = fmin(fmin(r, g), b);
    let l = tdiv(mx + mn, 2);
    let d = mx - mn;
    if d == 0 {
        (0, 0, l, a)
    } else {
        let s = if l > HALF as int {
            fdiv(sat(d), fsub(fsub(TWO as int, mx), mn))
        } else {
            fdiv(sat(d), sat(mx + mn))
        };
        let hf = if mx == r {
            let base = fdiv(fsub(g, b), sat(d));
            let base2 = if g < b {
                fadd(base, SIX as int)
            } else {
                base
            };
            fdiv(base2, SIX as int)
        } else if mx == g {
            fdiv(fadd(fdiv(fsub(b, r), sat(d)), TWO as int), SIX as int)
        } else {
            fdiv(fadd(fdiv(fsub(r, g), sat(d)), FOUR as int), SIX as int)
        };
        let h0 = fmul(hf, D360 as int);
        let h = if h0 >= D360 as int {
            fsub(h0, D360 as int)
        } else {
            h0
        };
        (h, s, l, a)
    }
}

/// One hue segment of the HSL to RGB walk.
pub fn fx_hue_to_rgb(p: i128, q: i128, t: i128) -> (r: i128)
    requires
        -VMAX <= p <= VMAX,
        -VMAX <= q <= VMAX,
        -VMAX <= t <= VMAX,
    ensures
        r == hue_to_rgb(p as int, q as int, t as int),
        -VMAX <= r <= VMAX,
{
    let t1 = if t < 0 {
        fx_add(t, crate::SCALE)
    } else {
        t
    };
    let t2 = if t1 > crate::SCALE {
        fx_sub(t1, crate::SCALE)
    } else {
        t1
    };
    if t2 < SIXTH {
        fx_add(p, fx_mul(fx_mul(fx_sub(q, p), SIX), t2))
    } else if t2 < HALF {
        q
    } else if t2 < TWO_THIRDS {
        fx_add(p, fx_mul(fx_mul(fx_sub(q, p), fx_sub(TWO_THIRDS, t2)), SIX))
    } else {
        p
    }
}

impl Hsl {
    /// Convert to the pivot. Out-of-range inputs propagate; nothing is
    /// clamped.
    pub fn to_color(&self) -> (c: Color)
        ensures
            (c.r as int, c.g as int, c.b as int, c.a as int) == hsl_to_color_s(
                sat(self.h as int),
                sat(self.s as int),
                sat(self.l as int),
                sat(self.a as int),
            ),
    {
        let h = fx_sat(self.h);
        let s = fx_sat(self.s);
        let l = fx_sat(self.l);
        let hf = fx_div(h, D360);
        let q = if l < HALF {
            fx_mul(l, fx_add(crate::SCALE, s))
        } else {
            fx_sub(fx_add(l, s), fx_mul(l, s))
        };
        let p = fx_sub(fx_mul(TWO, l), q);
        Color {
            r: fx_hue_to_rgb(p, q, fx_add(hf, THIRD)),
            g: fx_hue_to_rgb(p, q, hf),
            b: fx_hue_to_rgb(p, q, fx_sub(hf, THIRD)),
            a: fx_sat(self.a),
        }
    }

    /// Convert from the pivot. An achromatic color (all channels equal)
    /// reports hue and saturation exactly zero; the hue is always reported
    /// in [0, 360) degrees.
    pub fn from_color(c: &Color) -> (s: Hsl)
        ensures
            (s.h as int, s.s as int, s.l as int, s.a as int) == hsl_from_color_s(
                sat(c.r as int),
                sat(c.g as int),
                sat(c.b as int),
                sat(c.a as int),
            ),
            c.r == c.g && c.g == c.b ==> s.h == 0 && s.s == 0,
            0 <= s.h < D360,
    {
        let r = fx_sat(c.r);
        let g = fx_sat(c.g);
        let b = fx_sat(c.b);
        let mx = fx_max(fx_max(r, g), b);
        let mn = fx_min(fx_min(r, g), b);
        let l = fx_tdiv(mx + mn, 2);
        let d = mx - mn;
        let a = fx_sat(c.a);
        if d == 0 {
            Hsl { h: 0, s: 0, l, a }
        } else {
            let ds = fx_sat(d);
            proof {
                assert(mn <= r <= mx && mn <= g <= mx && mn <= b <= mx);
                assert(ds >= 1);
            }
            let s = if l > HALF {
                fx_div(ds, fx_sub(fx_sub(TWO, mx), mn))
            } else {
                fx_div(ds, fx_sat(mx + mn))
            };
            let hf = if mx == r {
                let num = fx_sub(g, b);
                let base = fx_div(num, ds);
                proof {
                    crate::colorspaces::fixed::lemma_fdiv_ratio_unit(num as int, ds as int);
                }
                let base2 = if g < b {
                    fx_add(base, SIX)
                } else {
                    base
                };
                proof {
                    assert(0 <= base2 <= SIX);
                    crate::colorspaces::fixed::lemma_fdiv_ratio_unit(base2 as int, SIX as int);
                }
                fx_div(base2, SIX)
            } else if mx == g {
                let num = fx_sub(b, r);
                let inner = fx_div(num, ds);
                proof {
                    crate::colorspaces::fixed::lemma_fdiv_ratio_unit(num as int, ds as int);
                }
                let base2 = fx_add(inner, TWO);
                proof {
                    assert(0 <= base2 <= SIX);
                    crate::colorspaces::fixed::lemma_fdiv_ratio_unit(base2 as int, SIX as int);
                }
                fx_div(base2, SIX)
            } else {
                let num = fx_sub(r, g);
                let inner = fx_div(num, ds);
                proof {
                    crate::colorspaces::fixed::lemma_fdiv_ratio_unit(num as int, ds as int);
                }
                let base2 = fx_add(inner, FOUR);
                proof {
                    assert(0 <= base2 <= SIX);
                    crate::colorspaces::fixed::lemma_fdiv_ratio_unit(base2 as int, SIX as int);
                }
                fx_div(base2, SIX)
            };
            proof {
                assert(0 <= hf <= crate::SCALE);
                crate::colorspaces::fixed::lemma_fmul_whole(360, hf as int);
            }
            let h0 = fx_mul(hf, D360);
            let h = if h0 >= D360 {
                fx_sub(h0, D360)
            } else {
                h0
            };
            Hsl { h, s, l, a }
        }
    }
}

impl ColorSpace for Hsl {
    open spec fn to_color_spec(&self) -> Color {
        let t = hsl_to_color_s(sat(self.h as int), sat(self.s as int), sat(self.l as int), sat(self.a as int));
        Color { r: t.0 as i128, g: t.1 as i128, b: t.2 as i128, a: t.3 as i128 }
    }

    open spec fn from_color_spec(color: &Color) -> Self {
        let t = hsl_from_color_s(
            sat(color.r as int),
            sat(color.g as int),
            sat(color.b as int),
            sat(color.a as int),
        );
        Hsl { h: t.0 as i128, s: t.1 as i128, l: t.2 as i128, a: t.3 as i128 }
    }

    fn to_color(&self) -> (c: Color) {
        Hsl::to_color(self)
    }

    fn from_color(color: &Color) -> (s: Self) {
        Hsl::from_color(color)
    }
}

} // verus!
