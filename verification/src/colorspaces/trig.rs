//! Fixed-point sine, cosine and arc tangent for the cylindrical hue spaces.
//!
//! Angles are degrees in units of 10^-10 of a degree. The circle is reduced
//! to one octant and a truncated alternating series evaluates the function
//! there; the series' omitted tail is below a few units, well under the
//! tolerance any hue consumer needs.
use vstd::prelude::*;
use crate::colorspaces::fixed::{
    abs_i,
    fadd,
    fdiv,
    fmul,
    fsub,
    fx_abs,
    fx_add,
    fx_div,
    fx_edivmod,
    fx_emod,
    fx_mul,
    fx_sub,
    fx_tdiv,
    tdiv,
    VMAX,
};

verus! {

/// A full turn, in degree units.
pub const DEG360: i128 = 3_600_000_000_000;

/// A half turn, in degree units.
pub const DEG180: i128 = 1_800_000_000_000;

/// A quarter turn, in degree units.
pub const DEG90: i128 = 900_000_000_000;

/// Half a quadrant, in degree units.
pub const DEG45: i128 = 450_000_000_000;

/// Pi in fixed-point units, rounded to the nearest unit.
pub const PI_U: i128 = 31_415_926_536;

/// The tangent of 22.5 degrees in fixed-point units, rounded to the nearest
/// unit: the series argument is folded below it.
pub const TAN225: i128 = 4_142_135_624;

/// Degrees to radians, both in units.
pub open spec fn rad_of_deg(x: int) -> int {
    tdiv(x * (PI_U as int), DEG180 as int)
}

/// Radians to degrees, both in units.
pub open spec fn deg_of_rad(x: int) -> int {
    tdiv(x * (DEG180 as int), PI_U as int)
}

/// Truncated sine series on one octant, argument in radian units.
pub open spec fn sin_poly(r: int) -> int {
    let x2 = fmul(r, r);
    let x3 = fmul(x2, r);
    let x5 = fmul(x3, x2);
    let x7 = fmul(x5, x2);
    let x9 = fmul(x7, x2);
    fadd(fsub(fadd(fsub(r, tdiv(x3, 6)), tdiv(x5, 120)), tdiv(x7, 5040)), tdiv(x9, 362880))
}

/// Truncated cosine series on one octant, argument in radian units.
pub open spec fn cos_poly(r: int) -> int {
    let x2 = fmul(r, r);
    let x4 = fmul(x2, x2);
    let x6 = fmul(x4, x2);
    let x8 = fmul(x6, x2);
    let x10 = fmul(x8, x2);
    fsub(
        fadd(fsub(fadd(fsub(crate::SCALE as int, tdiv(x2, 2)), tdiv(x4, 24)), tdiv(x6, 720)), tdiv(x8, 40320)),
        tdiv(x10, 3628800),
    )
}

/// Sine of an angle already reduced into one quadrant, in degree units.
pub open spec fn sin_quadrant(rd: int) -> int {
    if rd <= DEG45 as int {
        sin_poly(rad_of_deg(rd))
    } else {
        cos_poly(rad_of_deg(DEG90 as int - rd))
    }
}

/// Cosine of an angle already reduced into one quadrant, in degree units.
pub open spec fn cos_quadrant(rd: int) -> int {
    if rd <= DEG45 as int {
        cos_poly(rad_of_deg(rd))
    } else {
        sin_poly(rad_of_deg(DEG90 as int - rd))
    }
}

/// Sine of an angle in degree units, any magnitude.
pub open spec fn sin_deg(h: int) -> int {
    let n = h % (DEG360 as int);
    let q = n / (DEG90 as int);
    let rd = n % (DEG90 as int);
    if q == 0 {
        sin_quadrant(rd)
    } else if q == 1 {
        cos_quadrant(rd)
    } else if q == 2 {
        -sin_quadrant(rd)
    } else {
        -cos_quadrant(rd)
    }
}

/// Cosine of an angle in degree units, any magnitude.
pub open spec fn cos_deg(h: int) -> int {
    let n = h % (DEG360 as int);
    let q = n / (DEG90 as int);
    let rd = n % (DEG90 as int);
    if q == 0 {
        cos_quadrant(rd)
    } else if q == 1 {
        -sin_quadrant(rd)
    } else if q == 2 {
        -cos_quadrant(rd)
    } else {
        sin_quadrant(rd)
    }
}

/// Truncated arc-tangent series, argument and result in radian units.
pub open spec fn atan_poly(z: int) -> int {
    let z2 = fmul(z, z);
    let z3 = fmul(z2, z);
    let z5 = fmul(z3, z2);
    let z7 = fmul(z5, z2);
    let z9 = fmul(z7, z2);
    let z11 = fmul(z9, z2);
    let z13 = fmul(z11, z2);
    fadd(
        fsub(
            fadd(fsub(fadd(fsub(z, tdiv(z3, 3)), tdiv(z5, 5)), tdiv(z7, 7)), tdiv(z9, 9)),
            tdiv(z11, 11),
        ),
        tdiv(z13, 13),
    )
}

/// Arc tangent of a ratio in [0, 1] (unit scale), result in degree units.
/// Ratios above tan(22.5 degrees) are folded toward the octant boundary.
pub open spec fn atan_deg01(t: int) -> int {
    if t > TAN225 as int {
        fadd(DEG45 as int, deg_of_rad(atan_poly(fdiv(t - crate::SCALE as int, t + crate::SCALE as int))))
    } else {
        deg_of_rad(atan_poly(t))
    }
}

/// Two-argument arc tangent in degree units, wrapped into [0, 360) degrees;
/// both arguments zero yield zero.
pub open spec fn atan2_deg(b: int, a: int) -> int {
    if a == 0 && b == 0 {
        0
    } else {
        let aa = abs_i(a);
        let ab = abs_i(b);
        let base = if ab <= aa {
            atan_deg01(fdiv(ab, aa))
        } else {
            fsub(DEG90 as int, atan_deg01(fdiv(aa, ab)))
        };
        let ang = if a >= 0 && b >= 0 {
            base
        } else if a < 0 && b >= 0 {
            fsub(DEG180 as int, base)
        } else if a < 0 {
            fadd(DEG180 as int, base)
        } else {
            -base
        };
        ang % (DEG360 as int)
    }
}

/// Degrees to radians, both in units.
pub fn fx_rad_of_deg(x: i128) -> (r: i128)
    requires
        -VMAX <= x <= VMAX,
    ensures
        r == rad_of_deg(x as int),
        -VMAX <= r <= VMAX,
{
    proof {
        crate::colorspaces::fixed::lemma_mul_bound(x as int, PI_U as int, VMAX as int, PI_U as int);
    }
    let p: i128 = x * PI_U;
    let r = fx_tdiv(p, DEG180);
    proof {
        assert(abs_i(tdiv(p as int, DEG180 as int)) <= VMAX as int) by (nonlinear_arith)
            requires
                abs_i(p as int) <= (VMAX as int) * (PI_U as int),
                PI_U == 31_415_926_536i128,
                DEG180 == 1_800_000_000_000i128,
                VMAX == 1_000_000_000_000_000_000i128,
        ;
    }
    r
}

/// Radians to degrees, both in units.
pub fn fx_deg_of_rad(x: i128) -> (r: i128)
    requires
        -VMAX <= x <= VMAX,
    ensures
        r == deg_of_rad(x as int),
        -VMAX * 60 <= r <= VMAX * 60,
        abs_i(x as int) <= 7 * crate::SCALE as int ==> abs_i(r as int) <= 420 * crate::SCALE as int,
{
    proof {
        crate::colorspaces::fixed::lemma_mul_bound(x as int, DEG180 as int, VMAX as int, DEG180 as int);
    }
    let p: i128 = x * DEG180;
    let r = fx_tdiv(p, PI_U);
    proof {
        assert(abs_i(tdiv(p as int, PI_U as int)) <= (VMAX as int) * 60) by (nonlinear_arith)
            requires
                abs_i(p as int) <= (VMAX as int) * (DEG180 as int),
                PI_U == 31_415_926_536i128,
                DEG180 == 1_800_000_000_000i128,
                VMAX == 1_000_000_000_000_000_000i128,
        ;
        if abs_i(x as int) <= 7 * crate::SCALE as int {
            assert(abs_i(tdiv(x as int * (DEG180 as int), PI_U as int))
                <= 420 * crate::SCALE as int) by (nonlinear_arith)
                requires
                    abs_i(x as int) <= 7 * crate::SCALE as int,
                    PI_U == 31_415_926_536i128,
                    DEG180 == 1_800_000_000_000i128,
                    crate::SCALE == 10_000_000_000i128,
            ;
        }
    }
    r
}

/// Truncated sine series on one octant.
fn fx_sin_poly(r: i128) -> (s: i128)
    requires
        -VMAX <= r <= VMAX,
    ensures
        s == sin_poly(r as int),
        -VMAX <= s <= VMAX,
{
    let x2 = fx_mul(r, r);
    let x3 = fx_mul(x2, r);
    let x5 = fx_mul(x3, x2);
    let x7 = fx_mul(x5, x2);
    let x9 = fx_mul(x7, x2);
    let t3 = fx_tdiv(x3, 6);
    let t5 = fx_tdiv(x5, 120);
    let t7 = fx_tdiv(x7, 5040);
    let t9 = fx_tdiv(x9, 362880);
    fx_add(fx_sub(fx_add(fx_sub(r, t3), t5), t7), t9)
}

/// Truncated cosine series on one octant.
fn fx_cos_poly(r: i128) -> (s: i128)
    requires
        -VMAX <= r <= VMAX,
    ensures
        s == cos_poly(r as int),
        -VMAX <= s <= VMAX,
{
    let x2 = fx_mul(r, r);
    let x4 = fx_mul(x2, x2);
    let x6 = fx_mul(x4, x2);
    let x8 = fx_mul(x6, x2);
    let x10 = fx_mul(x8, x2);
    let t2 = fx_tdiv(x2, 2);
    let t4 = fx_tdiv(x4, 24);
    let t6 = fx_tdiv(x6, 720);
    let t8 = fx_tdiv(x8, 40320);
    let t10 = fx_tdiv(x10, 3628800);
    fx_sub(fx_add(fx_sub(fx_add(fx_sub(crate::SCALE, t2), t4), t6), t8), t10)
}

/// Sine and cosine of an angle in degree units, any magnitude.
pub fn fx_sin_cos_deg(h: i128) -> (sc: (i128, i128))
    requires
        -VMAX <= h <= VMAX,
    ensures
        sc.0 == sin_deg(h as int),
        sc.1 == cos_deg(h as int),
        -VMAX <= sc.0 <= VMAX,
        -VMAX <= sc.1 <= VMAX,
{
    let n = fx_emod(h, DEG360);
    let qr = fx_edivmod(n, DEG90);
    let q = qr.0;
    let rd = qr.1;
    let (s0, c0) = if rd <= DEG45 {
        let rad = fx_rad_of_deg(rd);
        (fx_sin_poly(rad), fx_cos_poly(rad))
    } else {
        let rad = fx_rad_of_deg(DEG90 - rd);
        (fx_cos_poly(rad), fx_sin_poly(rad))
    };
    proof {
        assert(s0 == sin_quadrant(rd as int));
        assert(c0 == cos_quadrant(rd as int));
        assert(0 <= q <= 3);
    }
    if q == 0 {
        (s0, c0)
    } else if q == 1 {
        (c0, -s0)
    } else if q == 2 {
        (-s0, -c0)
    } else {
        (-c0, s0)
    }
}

/// Truncated arc-tangent series.
#[verifier::rlimit(80)]
fn fx_atan_poly(z: i128) -> (s: i128)
    requires
        -VMAX <= z <= VMAX,
    ensures
        s == atan_poly(z as int),
        -VMAX <= s <= VMAX,
        abs_i(z as int) <= crate::SCALE as int ==> abs_i(s as int) <= 7 * crate::SCALE as int,
{
    let z2 = fx_mul(z, z);
    let z3 = fx_mul(z2, z);
    let z5 = fx_mul(z3, z2);
    let z7 = fx_mul(z5, z2);
    let z9 = fx_mul(z7, z2);
    let z11 = fx_mul(z9, z2);
    let z13 = fx_mul(z11, z2);
    let t3 = fx_tdiv(z3, 3);
    let t5 = fx_tdiv(z5, 5);
    let t7 = fx_tdiv(z7, 7);
    let t9 = fx_tdiv(z9, 9);
    let t11 = fx_tdiv(z11, 11);
    let t13 = fx_tdiv(z13, 13);
    proof {
        if abs_i(z as int) <= crate::SCALE as int {
            crate::colorspaces::fixed::lemma_fmul_within_unit(z as int, z as int, crate::SCALE as int);
            crate::colorspaces::fixed::lemma_fmul_within_unit(z2 as int, z as int, crate::SCALE as int);
            crate::colorspaces::fixed::lemma_fmul_within_unit(z3 as int, z2 as int, crate::SCALE as int);
            crate::colorspaces::fixed::lemma_fmul_within_unit(z5 as int, z2 as int, crate::SCALE as int);
            crate::colorspaces::fixed::lemma_fmul_within_unit(z7 as int, z2 as int, crate::SCALE as int);
            crate::colorspaces::fixed::lemma_fmul_within_unit(z9 as int, z2 as int, crate::SCALE as int);
            crate::colorspaces::fixed::lemma_fmul_within_unit(z11 as int, z2 as int, crate::SCALE as int);
        }
    }
    fx_add(fx_sub(fx_add(fx_sub(fx_add(fx_sub(z, t3), t5), t7), t9), t11), t13)
}

/// Arc tangent of a ratio in [0, 1] (unit scale), result in degree units.
fn fx_atan_deg01(t: i128) -> (r: i128)
    requires
        0 <= t <= crate::SCALE,
    ensures
        r == atan_deg01(t as int),
        -VMAX <= r <= VMAX,
{
    if t > TAN225 {
        let num = fx_sub(t, crate::SCALE);
        let den = fx_add(t, crate::SCALE);
        let z = fx_div(num, den);
        proof {
            crate::colorspaces::fixed::lemma_fdiv_ratio_unit(num as int, den as int);
        }
        let d = fx_deg_of_rad(fx_atan_poly(z));
        fx_add(DEG45, d)
    } else {
        let d = fx_deg_of_rad(fx_atan_poly(t));
        d
    }
}

/// Two-argument arc tangent in degree units, wrapped into [0, 360) degrees.
pub fn fx_atan2_deg(b: i128, a: i128) -> (h: i128)
    requires
        -VMAX <= a <= VMAX,
        -VMAX <= b <= VMAX,
    ensures
        h == atan2_deg(b as int, a as int),
        0 <= h < DEG360,
{
    if a == 0 && b == 0 {
        return 0;
    }
    let aa = fx_abs(a);
    let ab = fx_abs(b);
    let base = if ab <= aa {
        let t = fx_div(ab, aa);
        proof {
            crate::colorspaces::fixed::lemma_fdiv_ratio_unit(ab as int, aa as int);
        }
        fx_atan_deg01(t)
    } else {
        let t = fx_div(aa, ab);
        proof {
            crate::colorspaces::fixed::lemma_fdiv_ratio_unit(aa as int, ab as int);
        }
        fx_sub(DEG90, fx_atan_deg01(t))
    };
    let ang = if a >= 0 && b >= 0 {
        base
    } else if a < 0 && b >= 0 {
        fx_sub(DEG180, base)
    } else if a < 0 {
        fx_add(DEG180, base)
    } else {
        -base
    };
    fx_emod(ang, DEG360)
}

} // verus!
