//! HWB: hue, whiteness, blackness (CSS Level 4), a thin layer over HSV.
use vstd::prelude::*;
use crate::colorspaces::color::Color;
use crate::colorspaces::colorspace::ColorSpace;
use crate::colorspaces::fixed::{fclamp, fdiv, fsub, fmax, fmin, fx_clamp, fx_div, fx_max, fx_min, fx_sat, fx_sub, sat};
use crate::colorspaces::hsl::D360;
use crate::colorspaces::hsv::{hsv_from_color_s, hsv_to_color_s, Hsv};

verus! {

/// HWB: hue in degrees, whiteness, blackness and alpha in [0, 1].
#[derive(Debug, Clone, Copy, PartialEq, Eq, Structural)]
pub struct Hwb {
    pub h: i128,
    pub w: i128,
    pub b: i128,
    pub a: i128,
}

/// HWB to pivot: whiteness and blackness are clamped to [0, 1]; a sum of at
/// least one collapses to the gray w/(w+b), otherwise the value routes
/// through HSV. The output RGB is not clamped.
pub open spec fn hwb_to_color_s(h: int, w: int, b: int, a: int) -> (int, int, int, int) {
    let wc = fclamp(w, 0, crate::SCALE as int);
    let bc = fclamp(b, 0, crate::SCALE as int);
    let sum = wc + bc;
    if sum >= crate::SCALE as int {
        let denom = if sum == 0 {
            1
        } else {
            sum
        };
        let gray = fdiv(wc, denom);
        (gray, gray, gray, a)
    } else {
        let v = fsub(crate::SCALE as int, bc);
        let s = if v > 1 {
            fsub(crate::SCALE as int, fdiv(wc, v))
        } else {
            0
        };
        hsv_to_color_s(h, s, v, a)
    }
}

/// Pivot to HWB: whiteness is the channel minimum, blackness one minus the
/// maximum, hue the HSV hue.
pub open spec fn hwb_from_color_s(r: int, g: int, b: int, a: int) -> (int, int, int, int) {
    let hsv = hsv_from_color_s(r, g, b, a);
    let w = fmin(fmin(r, g), b);
    let bl = fsub(crate::SCALE as int, fmax(fmax(r, g), b));
    (hsv.0, w, bl, hsv.3)
}

impl Hwb {
    /// Convert to the pivot; see `hwb_to_color_s` for the degenerate gray.
    pub fn to_color(&self) -> (c: Color)
        ensures
            (c.r as int, c.g as int, c.b as int, c.a as int) == hwb_to_color_s(
                sat(self.h as int),
                sat(self.w as int),
                sat(self.b as int),
                sat(self.a as int),
            ),
    {
        let w = fx_clamp(fx_sat(self.w), 0, crate::SCALE);
        let bl = fx_clamp(fx_sat(self.b), 0, crate::SCALE);
        let sum = w + bl;
        if sum >= crate::SCALE {
            let denom = if sum == 0 {
                1
            } else {
                sum
            };
            let gray = fx_div(w, denom);
            return Color::new(gray, gray, gray, fx_sat(self.a));
        }
        let v = fx_sub(crate::SCALE, bl);
        let s = if v > 1 {
            fx_sub(crate::SCALE, fx_div(w, v))
        } else {
            0
        };
        Hsv { h: fx_sat(self.h), s, v, a: fx_sat(self.a) }.to_color()
    }

    /// Convert from the pivot; whiteness and blackness come straight from
    /// the channel extremes, the hue from HSV.
    pub fn from_color(c: &Color) -> (s: Hwb)
        ensures
            (s.h as int, s.w as int, s.b as int, s.a as int) == hwb_from_color_s(
                sat(c.r as int),
                sat(c.g as int),
                sat(c.b as int),
                sat(c.a as int),
            ),
            0 <= s.h < D360,
    {
        let hsv = Hsv::from_color(c);
        let r = fx_sat(c.r);
        let g = fx_sat(c.g);
        let b = fx_sat(c.b);
        let w = fx_min(fx_min(r, g), b);
        let bl = fx_sub(crate::SCALE, fx_max(fx_max(r, g), b));
        Hwb { h: hsv.h, w, b: bl, a: hsv.a }
    }
}

/// Degenerate HWB: once whiteness and blackness are clamped to [0, 1], a sum
/// of at least one yields an achromatic color, all three channels equal to
/// whiteness divided by that sum, whatever the hue was.
pub proof fn lemma_hwb_degenerate_gray(h: int, w: int, b: int, a: int)
    requires
        fclamp(w, 0, crate::SCALE as int) + fclamp(b, 0, crate::SCALE as int)
            >= crate::SCALE as int,
    ensures
        hwb_to_color_s(h, w, b, a).0 == hwb_to_color_s(h, w, b, a).1,
        hwb_to_color_s(h, w, b, a).1 == hwb_to_color_s(h, w, b, a).2,
        hwb_to_color_s(h, w, b, a).0 == fdiv(
            fclamp(w, 0, crate::SCALE as int),
            fclamp(w, 0, crate::SCALE as int) + fclamp(b, 0, crate::SCALE as int),
        ),
{
}

impl ColorSpace for Hwb {
    open spec fn to_color_spec(&self) -> Color {
        let t = hwb_to_color_s(sat(self.h as int), sat(self.w as int), sat(self.b as int), sat(self.a as int));
        Color { r: t.0 as i128, g: t.1 as i128, b: t.2 as i128, a: t.3 as i128 }
    }

    open spec fn from_color_spec(color: &Color) -> Self {
        let t = hwb_from_color_s(
            sat(color.r as int),
            sat(color.g as int),
            sat(color.b as int),
            sat(color.a as int),
        );
        Hwb { h: t.0 as i128, w: t.1 as i128, b: t.2 as i128, a: t.3 as i128 }
    }

    fn to_color(&self) -> (c: Color) {
        Hwb::to_color(self)
    }

    fn from_color(color: &Color) -> (s: Self) {
        Hwb::from_color(color)
    }
}

} // verus!
