//! Cylindrical Lab: lightness, chroma, hue in degrees. A pure polar wrapper
//! over Lab; no matrix of its own.
use vstd::prelude::*;
use crate::colorspaces::color::Color;
use crate::colorspaces::colorspace::ColorSpace;
use crate::colorspaces::fixed::{fmul, fsqrt, fx_mul, fx_sat, fx_sqrt, sat};
use crate::colorspaces::lab::{lab_from_color_s, lab_to_color_s, Lab};
use crate::colorspaces::trig::{atan2_deg, cos_deg, fx_atan2_deg, fx_sin_cos_deg, sin_deg, DEG360};

verus! {

/// Cylindrical Lab: L, C, H (degrees). At this resolution a chroma whose
/// magnitude is below the guard threshold of 10^-10 is exactly zero, and a
/// zero chroma reports hue zero.
#[derive(Debug, Clone, Copy, PartialEq, Eq, Structural)]
pub struct Lch {
    pub l: i128,
    pub c: i128,
    pub h: i128,
    pub a: i128,
}

/// LCh to pivot: rectangular a, b from chroma and hue, then Lab's own path.
pub open spec fn lch_to_color_s(l: int, c: int, h: int, a: int) -> (int, int, int, int) {
    let ar = fmul(c, cos_deg(h));
    let br = fmul(c, sin_deg(h));
    lab_to_color_s(l, ar, br, a)
}

/// Pivot to LCh: Lab's own path, then chroma as the radius and hue as the
/// wrapped angle; a zero chroma forces hue zero.
pub open spec fn lch_from_color_s(r: int, g: int, b: int, a: int) -> (int, int, int, int) {
    let lab = lab_from_color_s(r, g, b, a);
    let cv = fsqrt(sat(fmul(lab.1, lab.1) + fmul(lab.2, lab.2)));
    let h = if cv == 0 {
        0
    } else {
        atan2_deg(lab.2, lab.1)
    };
    (lab.0, cv, h, lab.3)
}

impl Lch {
    /// Convert to the pivot through Lab.
    pub fn to_color(&self) -> (c: Color)
        ensures
            (c.r as int, c.g as int, c.b as int, c.a as int) == lch_to_color_s(
                sat(self.l as int),
                sat(self.c as int),
                sat(self.h as int),
                sat(self.a as int),
            ),
    {
        let h = fx_sat(self.h);
        let cc = fx_sat(self.c);
        let sc = fx_sin_cos_deg(h);
        let ar = fx_mul(cc, sc.1);
        let br = fx_mul(cc, sc.0);
        Lab { l: fx_sat(self.l), a: ar, b: br, alpha: fx_sat(self.a) }.to_color()
    }

    /// Convert from the pivot through Lab; the hue is always reported in
    /// [0, 360) degrees.
    pub fn from_color(c: &Color) -> (s: Lch)
        ensures
            (s.l as int, s.c as int, s.h as int, s.a as int) == lch_from_color_s(
                sat(c.r as int),
                sat(c.g as int),
                sat(c.b as int),
                sat(c.a as int),
            ),
            0 <= s.h < DEG360,
            s.c >= 0,
    {
        let lab = Lab::from_color(c);
        let cv = fx_sqrt(fx_sat(fx_mul(lab.a, lab.a) + fx_mul(lab.b, lab.b)));
        let h = if cv == 0 {
            0
        } else {
            fx_atan2_deg(lab.b, lab.a)
        };
        Lch { l: lab.l, c: cv, h, a: lab.alpha }
    }
}

/// At zero chroma the hue cannot matter: conversion collapses to the
/// achromatic Lab value, whatever hue was given.
pub proof fn lemma_lch_zero_chroma_ignores_hue(l: int, h1: int, h2: int, a: int)
    ensures
        lch_to_color_s(l, 0, h1, a) == lch_to_color_s(l, 0, h2, a),
        lch_to_color_s(l, 0, h1, a) == lab_to_color_s(l, 0, 0, a),
{
}

/// A color whose recovered Lab chroma components are exactly zero reports
/// chroma zero and hue reset to zero, never the hue it was built with.
pub proof fn lemma_lch_achromatic_recovery(r: int, g: int, b: int, a: int)
    requires
        lab_from_color_s(r, g, b, a).1 == 0,
        lab_from_color_s(r, g, b, a).2 == 0,
    ensures
        lch_from_color_s(r, g, b, a).1 == 0,
        lch_from_color_s(r, g, b, a).2 == 0,
{
}

impl ColorSpace for Lch {
    open spec fn to_color_spec(&self) -> Color {
        let t = lch_to_color_s(sat(self.l as int), sat(self.c as int), sat(self.h as int), sat(self.a as int));
        Color { r: t.0 as i128, g: t.1 as i128, b: t.2 as i128, a: t.3 as i128 }
    }

    open spec fn from_color_spec(color: &Color) -> Self {
        let t = lch_from_color_s(
            sat(color.r as int),
            sat(color.g as int),
            sat(color.b as int),
            sat(color.a as int),
        );
        Lch { l: t.0 as i128, c: t.1 as i128, h: t.2 as i128, a: t.3 as i128 }
    }

    fn to_color(&self) -> (c: Color) {
        Lch::to_color(self)
    }

    fn from_color(color: &Color) -> (s: Self) {
        Lch::from_color(color)
    }
}

} // verus!
