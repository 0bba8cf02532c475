//! Oklch: the cylindrical form of Oklab. A pure polar wrapper; the
//! rectangular work is Oklab's own.
use vstd::prelude::*;
use crate::colorspaces::color::Color;
use crate::colorspaces::colorspace::ColorSpace;
use crate::colorspaces::fixed::{fmul, fsqrt, fx_mul, fx_sat, fx_sqrt, sat};
use crate::colorspaces::oklab::{oklab_from_color_s, oklab_to_color_s, Oklab};
use crate::colorspaces::trig::{atan2_deg, cos_deg, fx_atan2_deg, fx_sin_cos_deg, sin_deg, DEG360};

verus! {

/// Oklch: lightness in [0, 1], chroma at least 0, hue in degrees [0, 360),
/// plus opacity. At this resolution a chroma whose magnitude is below the
/// guard threshold of 10^-10 is exactly zero, and a zero chroma reports hue
/// zero.
#[derive(Debug, Clone, Copy, PartialEq, Eq, Structural)]
pub struct Oklch {
    pub l: i128,
    pub c: i128,
    pub h: i128,
    pub alpha: i128,
}

/// Oklch to pivot: rectangular a, b from chroma and hue, then Oklab's path.
pub open spec fn oklch_to_color_s(l: int, c: int, h: int, alpha: int) -> (int, int, int, int) {
    let ar = fmul(c, cos_deg(h));
    let br = fmul(c, sin_deg(h));
    oklab_to_color_s(l, ar, br, alpha)
}

/// Pivot to Oklch: Oklab's path, then chroma as the radius and hue as the
/// wrapped angle; a zero chroma forces hue zero.
pub open spec fn oklch_from_color_s(r: int, g: int, b: int, a: int) -> (int, int, int, int) {
    let ok = oklab_from_color_s(r, g, b, a);
    let cv = fsqrt(sat(fmul(ok.1, ok.1) + fmul(ok.2, ok.2)));
    let h = if cv == 0 {
        0
    } else {
        atan2_deg(ok.2, ok.1)
    };
    (ok.0, cv, h, ok.3)
}

impl Default for Oklch {
    /// The default Oklch value: black with full opacity.
    fn default() -> (d: Self)
        ensures
            d == (Oklch { l: 0, c: 0, h: 0, alpha: crate::SCALE as i128 }),
    {
        Self { l: 0, c: 0, h: 0, alpha: crate::SCALE }
    }
}

impl Oklch {
    /// Convert to the pivot through Oklab; Oklab's documented clamps apply.
    pub fn to_color(&self) -> (c: Color)
        ensures
            (c.r as int, c.g as int, c.b as int, c.a as int) == oklch_to_color_s(
                sat(self.l as int),
                sat(self.c as int),
                sat(self.h as int),
                sat(self.alpha as int),
            ),
    {
        let h = fx_sat(self.h);
        let cc = fx_sat(self.c);
        let sc = fx_sin_cos_deg(h);
        let ar = fx_mul(cc, sc.1);
        let br = fx_mul(cc, sc.0);
        Oklab { l: fx_sat(self.l), a: ar, b: br, alpha: fx_sat(self.alpha) }.to_color()
    }

    /// Convert from the pivot through Oklab; the hue is always reported in
    /// [0, 360) degrees.
    pub fn from_color(c: &Color) -> (s: Oklch)
        ensures
            (s.l as int, s.c as int, s.h as int, s.alpha as int) == oklch_from_color_s(
                sat(c.r as int),
                sat(c.g as int),
                sat(c.b as int),
                sat(c.a as int),
            ),
            0 <= s.h < DEG360,
            s.c >= 0,
    {
        let ok = Oklab::from_color(c);
        let cv = fx_sqrt(fx_sat(fx_mul(ok.a, ok.a) + fx_mul(ok.b, ok.b)));
        let h = if cv == 0 {
            0
        } else {
            fx_atan2_deg(ok.b, ok.a)
        };
        Oklch { l: ok.l, c: cv, h, alpha: ok.alpha }
    }
}

/// At zero chroma the hue cannot matter: conversion collapses to the
/// achromatic Oklab value, whatever hue was given.
pub proof fn lemma_oklch_zero_chroma_ignores_hue(l: int, h1: int, h2: int, alpha: int)
    ensures
        oklch_to_color_s(l, 0, h1, alpha) == oklch_to_color_s(l, 0, h2, alpha),
        oklch_to_color_s(l, 0, h1, alpha) == oklab_to_color_s(l, 0, 0, alpha),
{
}

/// A color whose recovered Oklab chroma components are exactly zero reports
/// chroma zero and hue reset to zero, never the hue it was built with.
pub proof fn lemma_oklch_achromatic_recovery(r: int, g: int, b: int, a: int)
    requires
        oklab_from_color_s(r, g, b, a).1 == 0,
        oklab_from_color_s(r, g, b, a).2 == 0,
    ensures
        oklch_from_color_s(r, g, b, a).1 == 0,
        oklch_from_color_s(r, g, b, a).2 == 0,
{
}

impl ColorSpace for Oklch {
    open spec fn to_color_spec(&self) -> Color {
        let t = oklch_to_color_s(sat(self.l as int), sat(self.c as int), sat(self.h as int), sat(self.alpha as int));
        Color { r: t.0 as i128, g: t.1 as i128, b: t.2 as i128, a: t.3 as i128 }
    }

    open spec fn from_color_spec(color: &Color) -> Self {
        let t = oklch_from_color_s(
            sat(color.r as int),
            sat(color.g as int),
            sat(color.b as int),
            sat(color.a as int),
        );
        Oklch { l: t.0 as i128, c: t.1 as i128, h: t.2 as i128, alpha: t.3 as i128 }
    }

    fn to_color(&self) -> (c: Color) {
        Oklch::to_color(self)
    }

    fn from_color(color: &Color) -> (s: Self) {
        Oklch::from_color(color)
    }
}

} // verus!
