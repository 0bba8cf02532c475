//! 3x3 matrix rows and the fixed bridge between linear sRGB and CIE XYZ.
//!
//! Every RGB-gamma and CIE space routes through XYZ and then through this one
//! fixed matrix pair to reach the pivot's linear sRGB; no space converts
//! directly to another.
use vstd::prelude::*;
use crate::colorspaces::fixed::{fx_sat, fx_tdiv, sat, tdiv, VMAX};

verus! {

/// Largest matrix coefficient magnitude accepted by `fx_row` (10^5 in real
/// terms), comfortably above every coefficient any space uses.
pub const MCOEF: i128 = 1_000_000_000_000_000;

/// One row of a matrix product: the exact weighted sum, rescaled once.
pub open spec fn frow(m0: int, m1: int, m2: int, r: int, g: int, b: int) -> int {
    sat(tdiv(m0 * r + m1 * g + m2 * b, crate::SCALE as int))
}

/// One row of a matrix product.
pub fn fx_row(m0: i128, m1: i128, m2: i128, r: i128, g: i128, b: i128) -> (v: i128)
    requires
        -MCOEF <= m0 <= MCOEF,
        -MCOEF <= m1 <= MCOEF,
        -MCOEF <= m2 <= MCOEF,
        -VMAX <= r <= VMAX,
        -VMAX <= g <= VMAX,
        -VMAX <= b <= VMAX,
    ensures
        v == frow(m0 as int, m1 as int, m2 as int, r as int, g as int, b as int),
        -VMAX <= v <= VMAX,
{
    proof {
        crate::colorspaces::fixed::lemma_mul_bound(m0 as int, r as int, MCOEF as int, VMAX as int);
        crate::colorspaces::fixed::lemma_mul_bound(m1 as int, g as int, MCOEF as int, VMAX as int);
        crate::colorspaces::fixed::lemma_mul_bound(m2 as int, b as int, MCOEF as int, VMAX as int);
    }
    let p: i128 = m0 * r + m1 * g + m2 * b;
    let q = fx_tdiv(p, crate::SCALE);
    fx_sat(q)
}

/// X row of the fixed linear-sRGB to XYZ bridge matrix.
pub open spec fn bridge_x(r: int, g: int, b: int) -> int {
    frow(4_124_000_000, 3_576_000_000, 1_805_000_000, r, g, b)
}

/// Y row of the fixed linear-sRGB to XYZ bridge matrix.
pub open spec fn bridge_y(r: int, g: int, b: int) -> int {
    frow(2_126_000_000, 7_152_000_000, 722_000_000, r, g, b)
}

/// Z row of the fixed linear-sRGB to XYZ bridge matrix.
pub open spec fn bridge_z(r: int, g: int, b: int) -> int {
    frow(193_000_000, 1_192_000_000, 9_505_000_000, r, g, b)
}

/// R row of the fixed XYZ to linear-sRGB bridge matrix.
pub open spec fn bridge_r(x: int, y: int, z: int) -> int {
    frow(32_406_000_000, -15_372_000_000, -4_986_000_000, x, y, z)
}

/// G row of the fixed XYZ to linear-sRGB bridge matrix.
pub open spec fn bridge_g(x: int, y: int, z: int) -> int {
    frow(-9_689_000_000, 18_758_000_000, 415_000_000, x, y, z)
}

/// B row of the fixed XYZ to linear-sRGB bridge matrix.
pub open spec fn bridge_b(x: int, y: int, z: int) -> int {
    frow(557_000_000, -2_040_000_000, 10_570_000_000, x, y, z)
}

/// Linear sRGB to XYZ through the fixed bridge matrix.
pub fn fx_bridge_to_xyz(r: i128, g: i128, b: i128) -> (v: (i128, i128, i128))
    requires
        -VMAX <= r <= VMAX,
        -VMAX <= g <= VMAX,
        -VMAX <= b <= VMAX,
    ensures
        v.0 == bridge_x(r as int, g as int, b as int),
        v.1 == bridge_y(r as int, g as int, b as int),
        v.2 == bridge_z(r as int, g as int, b as int),
        -VMAX <= v.0 <= VMAX,
        -VMAX <= v.1 <= VMAX,
        -VMAX <= v.2 <= VMAX,
{
    let x = fx_row(4_124_000_000, 3_576_000_000, 1_805_000_000, r, g, b);
    let y = fx_row(2_126_000_000, 7_152_000_000, 722_000_000, r, g, b);
    let z = fx_row(193_000_000, 1_192_000_000, 9_505_000_000, r, g, b);
    (x, y, z)
}

/// XYZ to linear sRGB through the fixed bridge matrix.
pub fn fx_bridge_to_rgb(x: i128, y: i128, z: i128) -> (v: (i128, i128, i128))
    requires
        -VMAX <= x <= VMAX,
        -VMAX <= y <= VMAX,
        -VMAX <= z <= VMAX,
    ensures
        v.0 == bridge_r(x as int, y as int, z as int),
        v.1 == bridge_g(x as int, y as int, z as int),
        v.2 == bridge_b(x as int, y as int, z as int),
        -VMAX <= v.0 <= VMAX,
        -VMAX <= v.1 <= VMAX,
        -VMAX <= v.2 <= VMAX,
{
    let r = fx_row(32_406_000_000, -15_372_000_000, -4_986_000_000, x, y, z);
    let g = fx_row(-9_689_000_000, 18_758_000_000, 415_000_000, x, y, z);
    let b = fx_row(557_000_000, -2_040_000_000, 10_570_000_000, x, y, z);
    (r, g, b)
}

} // verus!
