//! Fixed-point scalar arithmetic shared by every color space.
//!
//! A scalar is an `i128` count of units of 10^-10 (`crate::SCALE` units make
//! 1.0). Every operation returns the mathematically exact result truncated
//! toward zero and then saturated into the representable range
//! [-VMAX, VMAX], so every conversion is total: no input can overflow or
//! divide by zero. A denominator whose magnitude falls below one unit (the
//! 10^-10 guard threshold of the conversion formulas) is treated as zero and
//! the quotient falls back to a defined value instead of degenerating.
use vstd::prelude::*;

verus! {

/// Largest representable scalar magnitude (10^8 in real terms): results
/// beyond it saturate, the fixed-point analogue of floating-point overflow.
pub const VMAX: i128 = 1_000_000_000_000_000_000;

/// Saturate into the representable range.
pub open spec fn sat(x: int) -> int {
    if x > VMAX as int {
        VMAX as int
    } else if x < -(VMAX as int) {
        -(VMAX as int)
    } else {
        x
    }
}

/// Division truncated toward zero, total: zero divisor yields zero.
pub open spec fn tdiv(a: int, b: int) -> int {
    if b == 0 {
        0
    } else {
        let q = abs_i(a) / abs_i(b);
        if (a >= 0) == (b >= 0) {
            q
        } else {
            -q
        }
    }
}

pub open spec fn abs_i(a: int) -> int {
    if a >= 0 {
        a
    } else {
        -a
    }
}

/// Saturating sum.
pub open spec fn fadd(a: int, b: int) -> int {
    sat(a + b)
}

/// Saturating difference.
pub open spec fn fsub(a: int, b: int) -> int {
    sat(a - b)
}

/// Fixed-point product: exact product rescaled, truncated, saturated.
pub open spec fn fmul(a: int, b: int) -> int {
    sat(tdiv(a * b, crate::SCALE as int))
}

/// Fixed-point quotient: zero denominator (magnitude below one unit,
/// the guard threshold) yields zero.
pub open spec fn fdiv(a: int, b: int) -> int {
    if b == 0 {
        0
    } else {
        sat(tdiv(a * (crate::SCALE as int), b))
    }
}

pub open spec fn fmin(a: int, b: int) -> int {
    if a <= b {
        a
    } else {
        b
    }
}

pub open spec fn fmax(a: int, b: int) -> int {
    if a >= b {
        a
    } else {
        b
    }
}

pub open spec fn fclamp(x: int, lo: int, hi: int) -> int {
    if x < lo {
        lo
    } else if x > hi {
        hi
    } else {
        x
    }
}

/// `r` is the floor of the square root of `v`.
pub open spec fn is_floor_sqrt(v: int, r: int) -> bool {
    r >= 0 && r * r <= v && v < (r + 1) * (r + 1)
}

pub open spec fn floor_sqrt(v: int) -> int {
    choose|r: int| is_floor_sqrt(v, r)
}

/// Fixed-point square root: floor(sqrt(x / SCALE)) in units, 0 for x <= 0.
pub open spec fn fsqrt(x: int) -> int {
    if x <= 0 {
        0
    } else {
        floor_sqrt(x * (crate::SCALE as int))
    }
}

/// `r` is the floor of the cube root of `v`.
pub open spec fn is_floor_cbrt(v: int, r: int) -> bool {
    r >= 0 && r * r * r <= v && v < (r + 1) * (r + 1) * (r + 1)
}

pub open spec fn floor_cbrt(v: int) -> int {
    choose|r: int| is_floor_cbrt(v, r)
}

/// Fixed-point cube root: floor(cbrt(x / SCALE)) in units, 0 for x <= 0.
pub open spec fn fcbrt(x: int) -> int {
    if x <= 0 {
        0
    } else {
        floor_cbrt(x * (crate::SCALE as int) * (crate::SCALE as int))
    }
}

/// Fractional-power accumulator: one step per binary digit of the exponent's
/// fraction, least significant digit first. At step `k` (counting down from
/// `k0`), `y` holds x^(2^-(k0-k+1)) and a set digit multiplies it into `acc`.
pub open spec fn pow_frac_rec(y: int, bits: int, k: nat, acc: int) -> int
    decreases k,
{
    if k == 0 {
        acc
    } else {
        let y1 = fsqrt(y);
        let acc1 = if bits % 2 == 1 {
            fmul(acc, y1)
        } else {
            acc
        };
        pow_frac_rec(y1, tdiv(bits, 2), (k - 1) as nat, acc1)
    }
}

/// Integer-power accumulator.
pub open spec fn pow_int_rec(x: int, n: nat, acc: int) -> int
    decreases n,
{
    if n == 0 {
        acc
    } else {
        pow_int_rec(x, (n - 1) as nat, fmul(acc, x))
    }
}

/// Fixed-point power x^(n + frac) where `frac` is the 40 binary fraction
/// digits held in `bits` least significant digit first. A non-positive base
/// yields zero (the guard that replaces an undefined fractional power).
pub open spec fn fpow(x: int, n: nat, bits: int) -> int {
    if x <= 0 {
        0
    } else {
        pow_int_rec(x, n, pow_frac_rec(x, bits, 40, crate::SCALE as int))
    }
}

/// Remainder truncated toward zero (the sign of the dividend), total.
pub open spec fn tmod(a: int, m: int) -> int {
    if m == 0 {
        0
    } else {
        let r = abs_i(a) % abs_i(m);
        if a >= 0 {
            r
        } else {
            -r
        }
    }
}

/// Magnitude bound of a product from bounds on the factors.
pub proof fn lemma_mul_bound(a: int, b: int, aa: int, bb: int)
    requires
        abs_i(a) <= aa,
        abs_i(b) <= bb,
    ensures
        abs_i(a * b) <= aa * bb,
{
    assert(abs_i(a * b) <= aa * bb) by (nonlinear_arith)
        requires
            abs_i(a) <= aa,
            abs_i(b) <= bb,
    ;
}

/// Multiplying by a factor within the unit does not grow the magnitude.
pub proof fn lemma_fmul_within_unit(a: int, b: int, bound: int)
    requires
        abs_i(a) <= bound,
        abs_i(b) <= crate::SCALE as int,
        0 <= bound,
    ensures
        abs_i(fmul(a, b)) <= bound,
{
    assert(abs_i(sat(tdiv(a * b, crate::SCALE as int))) <= bound) by (nonlinear_arith)
        requires
            abs_i(a) <= bound,
            abs_i(b) <= crate::SCALE as int,
            0 <= bound,
            crate::SCALE == 10_000_000_000i128,
            VMAX == 1_000_000_000_000_000_000i128,
    ;
}

/// The floor square root of a value is unique.
pub proof fn lemma_floor_sqrt_unique(v: int, r: int)
    requires
        is_floor_sqrt(v, r),
    ensures
        floor_sqrt(v) == r,
{
    let rc = choose|q: int| is_floor_sqrt(v, q);
    assert(is_floor_sqrt(v, rc));
    assert(rc == r) by (nonlinear_arith)
        requires
            rc >= 0,
            rc * rc <= v,
            v < (rc + 1) * (rc + 1),
            r >= 0,
            r * r <= v,
            v < (r + 1) * (r + 1),
    ;
}

/// The floor cube root of a value is unique.
pub proof fn lemma_floor_cbrt_unique(v: int, r: int)
    requires
        is_floor_cbrt(v, r),
    ensures
        floor_cbrt(v) == r,
{
    let rc = choose|q: int| is_floor_cbrt(v, q);
    assert(is_floor_cbrt(v, rc));
    assert(rc == r) by (nonlinear_arith)
        requires
            rc >= 0,
            rc * rc * rc <= v,
            v < (rc + 1) * (rc + 1) * (rc + 1),
            r >= 0,
            r * r * r <= v,
            v < (r + 1) * (r + 1) * (r + 1),
    ;
}

/// Every nonnegative value has a floor cube root.
pub proof fn lemma_floor_cbrt_exists(v: int)
    requires
        v >= 0,
    ensures
        exists|r: int| is_floor_cbrt(v, r),
    decreases v,
{
    if v == 0 {
        assert(is_floor_cbrt(0, 0));
    } else {
        lemma_floor_cbrt_exists(v - 1);
        let r0 = choose|r: int| #[trigger] is_floor_cbrt(v - 1, r);
        if (r0 + 1) * (r0 + 1) * (r0 + 1) <= v {
            assert((r0 + 2) * (r0 + 2) * (r0 + 2) > (r0 + 1) * (r0 + 1) * (r0 + 1))
                by (nonlinear_arith)
                requires
                    r0 >= 0,
            ;
            assert(is_floor_cbrt(v, r0 + 1));
        } else {
            assert(is_floor_cbrt(v, r0));
        }
    }
}

/// An exact product divides back to its factor.
pub proof fn lemma_tdiv_exact(a: int, b: int, q: int)
    requires
        b > 0,
        q >= 0,
        a == b * q,
    ensures
        tdiv(a, b) == q,
{
    assert(a >= 0) by (nonlinear_arith)
        requires
            b > 0,
            q >= 0,
            a == b * q,
    ;
    assert(a == q * b + 0) by (nonlinear_arith)
        requires
            a == b * q,
    ;
    vstd::arithmetic::div_mod::lemma_fundamental_div_mod_converse(a, b, q, 0);
}

/// Rescaling a scaled value divides exactly.
pub proof fn lemma_tdiv_scale(q: int)
    ensures
        tdiv(crate::SCALE as int * q, crate::SCALE as int) == q,
{
    let s = crate::SCALE as int;
    if q >= 0 {
        lemma_tdiv_exact(s * q, s, q);
    } else {
        assert(abs_i(s * q) == s * (-q)) by (nonlinear_arith)
            requires
                q < 0,
                s == 10_000_000_000int,
        ;
        lemma_tdiv_exact(s * (-q), s, -q);
        assert(abs_i(s * q) / s == -q);
    }
}

/// A whole number of units multiplies exactly: no rounding is involved.
pub proof fn lemma_fmul_whole(k: int, x: int)
    requires
        k > 0,
    ensures
        fmul(k * crate::SCALE as int, x) == sat(k * x),
{
    let s = crate::SCALE as int;
    assert(k * s * x == s * (k * x)) by (nonlinear_arith);
    lemma_tdiv_scale(k * x);
}

/// A quotient of a smaller magnitude by a larger one stays within the unit.
pub proof fn lemma_fdiv_ratio_unit(num: int, den: int)
    requires
        abs_i(num) <= den,
        den > 0,
    ensures
        abs_i(fdiv(num, den)) <= crate::SCALE as int,
{
    assert(abs_i(sat(tdiv(num * (crate::SCALE as int), den))) <= crate::SCALE as int)
        by (nonlinear_arith)
        requires
            abs_i(num) <= den,
            den > 0,
            crate::SCALE == 10_000_000_000i128,
            VMAX == 1_000_000_000_000_000_000i128,
    ;
}

/// One is a fixed point of the square root.
pub proof fn lemma_fsqrt_unit()
    ensures
        fsqrt(crate::SCALE as int) == crate::SCALE as int,
{
    let s = crate::SCALE as int;
    assert(is_floor_sqrt(s * s, s));
    lemma_floor_sqrt_unique(s * s, s);
}

/// One is a fixed point of the fractional-power accumulator.
pub proof fn lemma_pow_frac_unit(bits: int, k: nat)
    ensures
        pow_frac_rec(crate::SCALE as int, bits, k, crate::SCALE as int) == crate::SCALE as int,
    decreases k,
{
    let s = crate::SCALE as int;
    if k > 0 {
        lemma_fsqrt_unit();
        lemma_tdiv_exact(s * s, s, s);
        assert(fmul(s, s) == s);
        let y1 = fsqrt(s);
        let acc1 = if bits % 2 == 1 {
            fmul(s, y1)
        } else {
            s
        };
        assert(acc1 == s);
        lemma_pow_frac_unit(tdiv(bits, 2), (k - 1) as nat);
        assert(pow_frac_rec(s, bits, k, s) == pow_frac_rec(y1, tdiv(bits, 2), (k - 1) as nat, acc1));
    }
}

/// One is a fixed point of the integer-power accumulator.
pub proof fn lemma_pow_int_unit(n: nat)
    ensures
        pow_int_rec(crate::SCALE as int, n, crate::SCALE as int) == crate::SCALE as int,
    decreases n,
{
    let s = crate::SCALE as int;
    if n > 0 {
        lemma_tdiv_exact(s * s, s, s);
        assert(fmul(s, s) == s);
        lemma_pow_int_unit((n - 1) as nat);
        assert(pow_int_rec(s, n, s) == pow_int_rec(s, (n - 1) as nat, fmul(s, s)));
    }
}

/// One is a fixed point of every power: 1^e == 1 holds exactly.
pub proof fn lemma_fpow_unit(n: nat, bits: int)
    ensures
        fpow(crate::SCALE as int, n, bits) == crate::SCALE as int,
{
    lemma_pow_frac_unit(bits, 40);
    lemma_pow_int_unit(n);
}

/// Saturate a scalar into the representable range.
pub fn fx_sat(x: i128) -> (r: i128)
    ensures
        r == sat(x as int),
        -VMAX <= r <= VMAX,
{
    if x > VMAX {
        VMAX
    } else if x < -VMAX {
        -VMAX
    } else {
        x
    }
}

/// Truncated division by a positive divisor.
pub fn fx_tdiv(a: i128, b: i128) -> (r: i128)
    requires
        b > 0,
        a > i128::MIN,
    ensures
        r == tdiv(a as int, b as int),
        abs_i(r as int) <= abs_i(a as int),
{
    if a >= 0 {
        a / b
    } else {
        -((-a) / b)
    }
}

/// Saturating sum.
pub fn fx_add(a: i128, b: i128) -> (r: i128)
    requires
        -VMAX <= a <= VMAX,
        -VMAX <= b <= VMAX,
    ensures
        r == fadd(a as int, b as int),
        -VMAX <= r <= VMAX,
{
    fx_sat(a + b)
}

/// Saturating difference.
pub fn fx_sub(a: i128, b: i128) -> (r: i128)
    requires
        -VMAX <= a <= VMAX,
        -VMAX <= b <= VMAX,
    ensures
        r == fsub(a as int, b as int),
        -VMAX <= r <= VMAX,
{
    fx_sat(a - b)
}

/// Fixed-point product.
pub fn fx_mul(a: i128, b: i128) -> (r: i128)
    requires
        -VMAX <= a <= VMAX,
        -VMAX <= b <= VMAX,
    ensures
        r == fmul(a as int, b as int),
        -VMAX <= r <= VMAX,
{
    proof {
        lemma_mul_bound(a as int, b as int, VMAX as int, VMAX as int);
    }
    let p: i128 = a * b;
    let q = fx_tdiv(p, crate::SCALE);
    fx_sat(q)
}

/// Fixed-point quotient; a zero denominator yields zero.
pub fn fx_div(a: i128, b: i128) -> (r: i128)
    requires
        -VMAX <= a <= VMAX,
        -VMAX <= b <= VMAX,
    ensures
        r == fdiv(a as int, b as int),
        -VMAX <= r <= VMAX,
{
    if b == 0 {
        return 0;
    }
    proof {
        lemma_mul_bound(a as int, crate::SCALE as int, VMAX as int, crate::SCALE as int);
    }
    let n: i128 = a * crate::SCALE;
    let q = if b > 0 {
        fx_tdiv(n, b)
    } else {
        let q0 = fx_tdiv(n, -b);
        proof {
            assert(tdiv(n as int, b as int) == -tdiv(n as int, -(b as int)));
        }
        -q0
    };
    fx_sat(q)
}

pub fn fx_min(a: i128, b: i128) -> (r: i128)
    ensures
        r == fmin(a as int, b as int),
{
    if a <= b {
        a
    } else {
        b
    }
}

pub fn fx_max(a: i128, b: i128) -> (r: i128)
    ensures
        r == fmax(a as int, b as int),
{
    if a >= b {
        a
    } else {
        b
    }
}

pub fn fx_clamp(x: i128, lo: i128, hi: i128) -> (r: i128)
    ensures
        r == fclamp(x as int, lo as int, hi as int),
{
    if x < lo {
        lo
    } else if x > hi {
        hi
    } else {
        x
    }
}

pub fn fx_abs(x: i128) -> (r: i128)
    requires
        x > i128::MIN,
    ensures
        r == abs_i(x as int),
{
    if x >= 0 {
        x
    } else {
        -x
    }
}

/// Floor square root by bisection.
fn floor_sqrt_exec(v: i128) -> (r: i128)
    requires
        0 <= v <= 10_000_000_000_000_000_000_000_000_000,
    ensures
        is_floor_sqrt(v as int, r as int),
        0 <= r <= 100_000_000_000_000,
{
    let mut lo: i128 = 0;
    let mut hi: i128 = 100_000_000_000_001;
    proof {
        assert((100_000_000_000_001int) * (100_000_000_000_001int)
            > 10_000_000_000_000_000_000_000_000_000int) by (nonlinear_arith);
    }
    while lo + 1 < hi
        invariant
            0 <= lo < hi <= 100_000_000_000_001,
            lo * lo <= v,
            v < hi * hi,
        decreases hi - lo,
    {
        let mid: i128 = lo + (hi - lo) / 2;
        proof {
            assert(lo < mid < hi);
            lemma_mul_bound(mid as int, mid as int, 100_000_000_000_001int, 100_000_000_000_001int);
        }
        if mid * mid <= v {
            lo = mid;
        } else {
            hi = mid;
        }
    }
    lo
}

/// Fixed-point square root: floor(sqrt(x/SCALE)) in units; 0 for x <= 0.
pub fn fx_sqrt(x: i128) -> (r: i128)
    requires
        x <= VMAX,
    ensures
        r == fsqrt(x as int),
        0 <= r <= VMAX,
        x >= crate::SCALE ==> r >= crate::SCALE,
        x >= 1 ==> r >= 1,
{
    if x <= 0 {
        return 0;
    }
    let v: i128 = x * crate::SCALE;
    let r = floor_sqrt_exec(v);
    proof {
        lemma_floor_sqrt_unique(v as int, r as int);
        if x >= crate::SCALE {
            assert(r as int >= crate::SCALE as int) by (nonlinear_arith)
                requires
                    is_floor_sqrt(v as int, r as int),
                    v == x * (crate::SCALE as int),
                    x >= crate::SCALE as int,
                    crate::SCALE == 10_000_000_000i128,
            ;
        }
        if x >= 1 {
            assert(r as int >= 1) by (nonlinear_arith)
                requires
                    is_floor_sqrt(v as int, r as int),
                    v == x * (crate::SCALE as int),
                    x >= 1,
                    crate::SCALE == 10_000_000_000i128,
            ;
        }
        assert(r as int <= VMAX as int) by (nonlinear_arith)
            requires
                is_floor_sqrt(v as int, r as int),
                v <= 10_000_000_000_000_000_000_000_000_000int,
        ;
    }
    r
}

/// Floor cube root by bisection.
fn floor_cbrt_exec(v: i128) -> (r: i128)
    requires
        0 <= v <= 100_000_000_000_000_000_000_000_000_000_000_000_000,
    ensures
        is_floor_cbrt(v as int, r as int),
        0 <= r <= 5_000_000_000_000,
{
    let mut lo: i128 = 0;
    let mut hi: i128 = 5_000_000_000_000;
    proof {
        assert((5_000_000_000_000int) * (5_000_000_000_000int) * (5_000_000_000_000int)
            > 100_000_000_000_000_000_000_000_000_000_000_000_000int) by (nonlinear_arith);
    }
    while lo + 1 < hi
        invariant
            0 <= lo < hi <= 5_000_000_000_000,
            lo * lo * lo <= v,
            v < hi * hi * hi,
        decreases hi - lo,
    {
        let mid: i128 = lo + (hi - lo) / 2;
        proof {
            assert(lo < mid < hi);
            assert(0 <= mid as int * mid as int
                <= 25_000_000_000_000_000_000_000_000int) by (nonlinear_arith)
                requires
                    0 <= mid <= 5_000_000_000_000,
            ;
            assert(0 <= mid as int * mid as int * mid as int
                <= 125_000_000_000_000_000_000_000_000_000_000_000_000int) by (nonlinear_arith)
                requires
                    0 <= mid <= 5_000_000_000_000,
            ;
        }
        if mid * mid * mid <= v {
            lo = mid;
        } else {
            hi = mid;
        }
    }
    proof {
        assert(lo * lo * lo <= v < (lo + 1) * (lo + 1) * (lo + 1));
    }
    lo
}

/// Fixed-point cube root: floor(cbrt(x/SCALE)) in units; 0 for x <= 0.
pub fn fx_cbrt(x: i128) -> (r: i128)
    requires
        x <= VMAX,
    ensures
        r == fcbrt(x as int),
        0 <= r <= VMAX,
{
    if x <= 0 {
        return 0;
    }
    let v: i128 = x * crate::SCALE * crate::SCALE;
    let r = floor_cbrt_exec(v);
    proof {
        lemma_floor_cbrt_unique(v as int, r as int);
    }
    r
}

/// Euclidean quotient and remainder by a positive modulus.
pub fn fx_edivmod(a: i128, m: i128) -> (qr: (i128, i128))
    requires
        0 < m <= VMAX,
        -VMAX <= a <= VMAX,
    ensures
        qr.0 == a as int / m as int,
        qr.1 == a as int % m as int,
        0 <= qr.1 < m,
        -VMAX <= qr.0 <= VMAX,
{
    if a >= 0 {
        let q = a / m;
        let r = a % m;
        (q, r)
    } else {
        let q0 = (-a) / m;
        let r0 = (-a) % m;
        proof {
            vstd::arithmetic::div_mod::lemma_fundamental_div_mod((-a) as int, m as int);
        }
        if r0 == 0 {
            proof {
                assert((-a) as int == m as int * q0 as int + r0 as int);
                assert(a as int == (-(q0 as int)) * m as int + 0) by (nonlinear_arith)
                    requires
                        (-a) as int == m as int * q0 as int + r0 as int,
                        r0 == 0,
                ;
                vstd::arithmetic::div_mod::lemma_fundamental_div_mod_converse(
                    a as int,
                    m as int,
                    -(q0 as int),
                    0,
                );
            }
            (-q0, 0)
        } else {
            proof {
                assert((-a) as int == m as int * q0 as int + r0 as int);
                assert(a as int == (-(q0 as int) - 1) * m as int + (m as int - r0 as int))
                    by (nonlinear_arith)
                    requires
                        (-a) as int == m as int * q0 as int + r0 as int,
                ;
                vstd::arithmetic::div_mod::lemma_fundamental_div_mod_converse(
                    a as int,
                    m as int,
                    -(q0 as int) - 1,
                    m as int - r0 as int,
                );
            }
            (-q0 - 1, m - r0)
        }
    }
}

/// Euclidean remainder by a positive modulus.
pub fn fx_emod(a: i128, m: i128) -> (r: i128)
    requires
        0 < m <= VMAX,
        -VMAX <= a <= VMAX,
    ensures
        r == a as int % m as int,
        0 <= r < m,
{
    let qr = fx_edivmod(a, m);
    qr.1
}

/// Remainder truncated toward zero by a positive modulus.
pub fn fx_tmod(a: i128, m: i128) -> (r: i128)
    requires
        0 < m <= VMAX,
        -VMAX <= a <= VMAX,
    ensures
        r == tmod(a as int, m as int),
        -VMAX <= r <= VMAX,
{
    if a >= 0 {
        a % m
    } else {
        -((-a) % m)
    }
}

/// Fixed-point power x^(n + frac): `bits` holds the 40 binary digits of the
/// exponent's fraction, least significant first. Non-positive bases yield 0.
pub fn fx_pow(x: i128, n: u32, bits: u64) -> (r: i128)
    requires
        -VMAX <= x <= VMAX,
        n <= 4,
    ensures
        r == fpow(x as int, n as nat, bits as int),
        -VMAX <= r <= VMAX,
{
    if x <= 0 {
        return 0;
    }
    let mut y: i128 = x;
    let mut acc: i128 = crate::SCALE;
    let mut b: u64 = bits;
    let ghost x0 = x as int;
    let ghost bits0 = bits as int;
    let mut k: u32 = 0;
    while k < 40
        invariant
            0 <= k <= 40,
            1 <= y <= VMAX,
            -VMAX <= acc <= VMAX,
            0 < x0 <= VMAX as int,
            pow_frac_rec(x0, bits0, 40, crate::SCALE as int) == pow_frac_rec(
                y as int,
                b as int,
                (40 - k) as nat,
                acc as int,
            ),
        decreases 40 - k,
    {
        let y1 = fx_sqrt(y);
        let acc1 = if b % 2 == 1 {
            fx_mul(acc, y1)
        } else {
            acc
        };
        proof {
            assert(b as int % 2 == (b % 2) as int);
            assert(tdiv(b as int, 2) == (b / 2) as int);
            assert(pow_frac_rec(y as int, b as int, (40 - k) as nat, acc as int)
                == pow_frac_rec(y1 as int, tdiv(b as int, 2), (40 - k - 1) as nat, acc1 as int));
        }
        y = y1;
        acc = acc1;
        b = b / 2;
        k = k + 1;
    }
    let mut i: u32 = 0;
    let mut res: i128 = acc;
    while i < n
        invariant
            0 <= i <= n,
            n <= 4,
            -VMAX <= res <= VMAX,
            0 < x0 <= VMAX as int,
            x == x0,
            pow_int_rec(x0, n as nat, acc as int) == pow_int_rec(
                x0,
                (n - i) as nat,
                res as int,
            ),
        decreases n - i,
    {
        res = fx_mul(res, x);
        i = i + 1;
    }
    res
}

} // verus!
