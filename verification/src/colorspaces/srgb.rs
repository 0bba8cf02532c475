//! The sRGB space: the piecewise sRGB transfer curve; its linear form is the
//! pivot itself, so no matrix is involved.
use vstd::prelude::*;
use crate::colorspaces::color::Color;
use crate::colorspaces::colorspace::ColorSpace;
use crate::colorspaces::fixed::{fadd, fdiv, fmul, fpow, fsub, fx_add, fx_div, fx_mul, fx_pow, fx_sat, fx_sub, sat, tdiv, VMAX};

verus! {

/// Decode threshold of the piecewise sRGB curve (0.04045).
pub const SRGB_DEC_CUT: i128 = 404_500_000;

/// Encode threshold of the piecewise sRGB curve (0.0031308).
pub const SRGB_ENC_CUT: i128 = 31_308_000;

/// The linear-segment divisor 12.92.
pub const SRGB_LIN: i128 = 129_200_000_000;

/// The curve offset 0.055.
pub const SRGB_OFF: i128 = 550_000_000;

/// The curve scale 1.055.
pub const SRGB_SCL: i128 = 10_550_000_000;

/// Fraction digits of the decode exponent 2.4 (the 0.4 part, 40 binary
/// digits, least significant first).
pub const EXP_04: u64 = 439_804_651_110;

/// Fraction digits of the encode exponent 1/2.4 (40 binary digits, least
/// significant first).
pub const EXP_5_12: u64 = 916_259_689_814;

/// sRGB gamma decode of one channel: linear below the threshold, else
/// ((c + 0.055) / 1.055)^2.4.
pub open spec fn srgb_decode(c: int) -> int {
    if c <= SRGB_DEC_CUT as int {
        fdiv(c, SRGB_LIN as int)
    } else {
        fpow(fdiv(fadd(c, SRGB_OFF as int), SRGB_SCL as int), 2, EXP_04 as int)
    }
}

/// sRGB gamma encode of one channel: linear below the threshold, else
/// 1.055 * c^(1/2.4) - 0.055.
pub open spec fn srgb_encode(c: int) -> int {
    if c <= SRGB_ENC_CUT as int {
        fmul(SRGB_LIN as int, c)
    } else {
        fsub(fmul(SRGB_SCL as int, fpow(c, 0, EXP_5_12 as int)), SRGB_OFF as int)
    }
}

/// sRGB gamma decode of one channel.
pub fn fx_srgb_decode(c: i128) -> (r: i128)
    requires
        -VMAX <= c <= VMAX,
    ensures
        r == srgb_decode(c as int),
        -VMAX <= r <= VMAX,
{
    if c <= SRGB_DEC_CUT {
        fx_div(c, SRGB_LIN)
    } else {
        let base = fx_div(fx_add(c, SRGB_OFF), SRGB_SCL);
        fx_pow(base, 2, EXP_04)
    }
}

/// sRGB gamma encode of one channel.
pub fn fx_srgb_encode(c: i128) -> (r: i128)
    requires
        -VMAX <= c <= VMAX,
    ensures
        r == srgb_encode(c as int),
        -VMAX <= r <= VMAX,
{
    if c <= SRGB_ENC_CUT {
        fx_mul(SRGB_LIN, c)
    } else {
        fx_sub(fx_mul(SRGB_SCL, fx_pow(c, 0, EXP_5_12)), SRGB_OFF)
    }
}

/// sRGB to pivot, channel by channel.
pub open spec fn srgb_to_color_s(r: int, g: int, b: int, a: int) -> (int, int, int, int) {
    (srgb_decode(r), srgb_decode(g), srgb_decode(b), a)
}

/// Pivot to sRGB, channel by channel.
pub open spec fn srgb_from_color_s(r: int, g: int, b: int, a: int) -> (int, int, int, int) {
    (srgb_encode(r), srgb_encode(g), srgb_encode(b), a)
}

/// Gamma-encoded sRGB, channels conventionally in [0, 1].
#[derive(Debug, Clone, Copy, PartialEq, Eq, Structural, Default)]
pub struct Srgb {
    pub r: i128,
    pub g: i128,
    pub b: i128,
    pub a: i128,
}

impl Srgb {
    /// Convert sRGB to linear RGB. Out-of-range inputs propagate through the
    /// curve; nothing is clamped.
    pub fn to_color(&self) -> (c: Color)
        ensures
            (c.r as int, c.g as int, c.b as int, c.a as int) == srgb_to_color_s(
                sat(self.r as int),
                sat(self.g as int),
                sat(self.b as int),
                sat(self.a as int),
            ),
    {
        Color {
            r: fx_srgb_decode(fx_sat(self.r)),
            g: fx_srgb_decode(fx_sat(self.g)),
            b: fx_srgb_decode(fx_sat(self.b)),
            a: fx_sat(self.a),
        }
    }

    /// Convert linear RGB to sRGB. Out-of-range inputs propagate through the
    /// curve; nothing is clamped.
    pub fn from_color(color: &Color) -> (s: Srgb)
        ensures
            (s.r as int, s.g as int, s.b as int, s.a as int) == srgb_from_color_s(
                sat(color.r as int),
                sat(color.g as int),
                sat(color.b as int),
                sat(color.a as int),
            ),
    {
        Srgb {
            r: fx_srgb_encode(fx_sat(color.r)),
            g: fx_srgb_encode(fx_sat(color.g)),
            b: fx_srgb_encode(fx_sat(color.b)),
            a: fx_sat(color.a),
        }
    }
}

/// Pivot identity at the gamut corners: a channel of exactly 0 or exactly 1
/// decodes and re-encodes to itself, bit for bit. In particular white maps
/// to white through the linearization, since 1 is a fixed point of the sRGB
/// transfer curve.
pub proof fn lemma_srgb_pivot_identity_corners()
    ensures
        srgb_decode(0) == 0,
        srgb_encode(0) == 0,
        srgb_decode(crate::SCALE as int) == crate::SCALE as int,
        srgb_encode(crate::SCALE as int) == crate::SCALE as int,
        srgb_encode(srgb_decode(0)) == 0,
        srgb_encode(srgb_decode(crate::SCALE as int)) == crate::SCALE as int,
{
    let s = crate::SCALE as int;
    assert(srgb_decode(0) == 0);
    assert(srgb_encode(0) == 0);
    assert(fadd(s, SRGB_OFF as int) == SRGB_SCL as int);
    crate::colorspaces::fixed::lemma_tdiv_exact(SRGB_SCL as int * s, SRGB_SCL as int, s);
    assert(fdiv(SRGB_SCL as int, SRGB_SCL as int) == s);
    crate::colorspaces::fixed::lemma_fpow_unit(2, EXP_04 as int);
    assert(srgb_decode(s) == s);
    crate::colorspaces::fixed::lemma_fpow_unit(0, EXP_5_12 as int);
    crate::colorspaces::fixed::lemma_tdiv_exact(SRGB_SCL as int * s, s, SRGB_SCL as int);
    assert(fmul(SRGB_SCL as int, s) == SRGB_SCL as int);
    assert(srgb_encode(s) == s);
}

/// On the linear segments the transfer pair inverts to within thirteen
/// units (1.3e-9): a channel small enough that its decoded value lands on
/// the encode's linear segment comes back short by at most the two
/// rescaling truncations.
pub proof fn lemma_srgb_linear_round_trip(c: int)
    requires
        0 <= c <= 404_499_360,
    ensures
        c - 13 <= srgb_encode(srgb_decode(c)) <= c,
{
    let s = crate::SCALE as int;
    let ll = SRGB_LIN as int;
    vstd::arithmetic::div_mod::lemma_fundamental_div_mod(c * s, ll);
    let q = tdiv(c * s, ll);
    assert(q == (c * s) / ll);
    assert(ll * q <= c * s);
    assert(q <= 31_308_000);
    assert(srgb_decode(c) == q);
    vstd::arithmetic::div_mod::lemma_fundamental_div_mod(ll * q, s);
    let e = tdiv(ll * q, s);
    assert(e == (ll * q) / s);
    assert(c * s - ll * q == (c * s) % ll);
    assert(ll * q - s * e == (ll * q) % s);
    assert(0 <= c * s - s * e <= ll + s - 2);
    assert(s * (c - e) == c * s - s * e) by (nonlinear_arith);
    assert(c - 13 <= e <= c);
    assert(srgb_encode(q) == e);
}

/// The corner round trip: an sRGB value whose color channels are each
/// exactly 0 or exactly 1 comes back bit for bit from the pivot, alpha
/// included.
pub proof fn lemma_srgb_corner_round_trip(r: int, g: int, b: int, a: int)
    requires
        r == 0 || r == crate::SCALE as int,
        g == 0 || g == crate::SCALE as int,
        b == 0 || b == crate::SCALE as int,
    ensures
        srgb_from_color_s(
            srgb_to_color_s(r, g, b, a).0,
            srgb_to_color_s(r, g, b, a).1,
            srgb_to_color_s(r, g, b, a).2,
            srgb_to_color_s(r, g, b, a).3,
        ) == (r, g, b, a),
{
    lemma_srgb_pivot_identity_corners();
}

impl ColorSpace for Srgb {
    open spec fn to_color_spec(&self) -> Color {
        let t = srgb_to_color_s(sat(self.r as int), sat(self.g as int), sat(self.b as int), sat(self.a as int));
        Color { r: t.0 as i128, g: t.1 as i128, b: t.2 as i128, a: t.3 as i128 }
    }

    open spec fn from_color_spec(color: &Color) -> Self {
        let t = srgb_from_color_s(
            sat(color.r as int),
            sat(color.g as int),
            sat(color.b as int),
            sat(color.a as int),
        );
        Srgb { r: t.0 as i128, g: t.1 as i128, b: t.2 as i128, a: t.3 as i128 }
    }

    fn to_color(&self) -> (c: Color) {
        Srgb::to_color(self)
    }

    fn from_color(color: &Color) -> (s: Self) {
        Srgb::from_color(color)
    }
}

} // verus!
