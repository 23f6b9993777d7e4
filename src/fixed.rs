//! Fixed-point numerics: truncating division, integer square root and the
//! trigonometry used for rotations.
use vstd::prelude::*;

verus! {

/// Fixed-point one: unit directions have this length, cosines and sines are
/// scaled by it, and angles are measured in millionths of a radian.
pub const ONE: i64 = 1_000_000;

/// Largest angle magnitude (in microradians) accepted by `unit_rotation`;
/// a little more than a full turn.
pub const MAX_ANGLE: i64 = 7_200_000;

/// Division rounding toward zero, as Rust's `/` does on signed integers.
pub open spec fn tdiv(a: int, b: int) -> int {
    if a >= 0 { a / b } else { -((-a) / b) }
}

/// `r` is the floor of the square root of `n`.
pub open spec fn is_sqrt_floor(n: int, r: int) -> bool {
    0 <= r && r * r <= n && n < (r + 1) * (r + 1)
}

/// The floor of the square root of `n`.
pub open spec fn sqrt_floor(n: int) -> int {
    choose|r: int| is_sqrt_floor(n, r)
}

proof fn lemma_square_monotone(a: int, b: int)
    requires
        0 <= a <= b,
    ensures
        a * a <= b * b,
{
    assert(a * a <= b * b) by (nonlinear_arith)
        requires 0 <= a <= b;
}

/// The floor square root is unique.
pub proof fn lemma_sqrt_floor_unique(n: int, r: int)
    requires
        is_sqrt_floor(n, r),
    ensures
        sqrt_floor(n) == r,
{
    let s = sqrt_floor(n);
    assert(is_sqrt_floor(n, s));
    if s < r {
        lemma_square_monotone(s + 1, r);
    } else if r < s {
        lemma_square_monotone(r + 1, s);
    }
}

/// Truncating division, with its meaning stated over `tdiv`.
pub fn div_trunc(a: i64, b: i64) -> (r: i64)
    requires
        b > 0,
        a > i64::MIN,
    ensures
        r == tdiv(a as int, b as int),
{
    a / b
}

/// Truncating division on wide integers.
pub fn div_trunc_wide(a: i128, b: i128) -> (r: i128)
    requires
        b > 0,
        a > i128::MIN,
    ensures
        r == tdiv(a as int, b as int),
{
    a / b
}

/// Floor of the square root.
pub fn isqrt(n: u64) -> (r: u64)
    requires
        n < 0x4000_0000_0000_0000u64,
    ensures
        is_sqrt_floor(n as int, r as int),
        r == sqrt_floor(n as int),
        r < 0x8000_0000u64,
{
    let mut lo: u64 = 0;
    let mut hi: u64 = 0x8000_0000u64;
    assert(0x8000_0000u64 * 0x8000_0000u64 == 0x4000_0000_0000_0000u64) by (nonlinear_arith);
    while hi - lo > 1
        invariant
            lo < hi <= 0x8000_0000u64,
            lo * lo <= n,
            n < hi * hi,
        decreases hi - lo,
    {
        let mid: u64 = lo + (hi - lo) / 2;
        assert(mid * mid <= 0x4000_0000_0000_0000u64) by (nonlinear_arith)
            requires mid < 0x8000_0000u64;
        if mid * mid <= n {
            lo = mid;
        } else {
            hi = mid;
        }
    }
    assert(hi == lo + 1);
    proof {
        lemma_sqrt_floor_unique(n as int, lo as int);
    }
    lo
}

/// Sine of `x` microradians, `|x| <= 900_000`, by a Taylor polynomial of
/// degree seven in Horner form.
pub open spec fn sin_poly(x: int) -> int {
    let x2 = x * x / 1_000_000;
    let t1 = 1_000_000 - x2 / 42;
    let t2 = 1_000_000 - x2 * t1 / 20_000_000;
    let t3 = 1_000_000 - x2 * t2 / 6_000_000;
    tdiv(x * t3, 1_000_000)
}

/// Cosine of `x` microradians, `|x| <= 900_000`, by a Taylor polynomial of
/// degree eight in Horner form.
pub open spec fn cos_poly(x: int) -> int {
    let x2 = x * x / 1_000_000;
    let u1 = 1_000_000 - x2 / 56;
    let u2 = 1_000_000 - x2 * u1 / 30_000_000;
    let u3 = 1_000_000 - x2 * u2 / 12_000_000;
    1_000_000 - x2 * u3 / 2_000_000
}

/// `v` held within `[-ONE, ONE]`.
pub open spec fn clamp_unit(v: int) -> int {
    if v > ONE {
        ONE as int
    } else if v < -ONE {
        -ONE
    } else {
        v
    }
}

/// Cosine and sine of twice the angle whose cosine and sine are `c` and `s`.
pub open spec fn double_angle(cs: (int, int)) -> (int, int) {
    (clamp_unit(tdiv(cs.0 * cs.0 - cs.1 * cs.1, ONE as int)), clamp_unit(tdiv(2 * cs.0 * cs.1, ONE as int)))
}

/// Fixed-point cosine and sine of `theta` microradians: the polynomials at an
/// eighth of the angle, doubled three times.
pub open spec fn unit_rotation(theta: int) -> (int, int) {
    let x = tdiv(theta, 8);
    double_angle(double_angle(double_angle((cos_poly(x), sin_poly(x)))))
}

fn poly_at(x: i64) -> (r: (i64, i64))
    requires
        -900_000 <= x <= 900_000,
    ensures
        r.0 == cos_poly(x as int),
        r.1 == sin_poly(x as int),
        -ONE <= r.0 <= ONE,
        -ONE <= r.1 <= ONE,
{
    assert(0 <= x * x <= 810_000_000_000) by (nonlinear_arith)
        requires -900_000 <= x <= 900_000;
    let x2: i64 = x * x / 1_000_000;
    let t1: i64 = 1_000_000 - x2 / 42;
    assert(0 <= x2 * t1 <= 810_000_000_000) by (nonlinear_arith)
        requires 0 <= x2 <= 810_000, 0 <= t1 <= 1_000_000;
    let t2: i64 = 1_000_000 - x2 * t1 / 20_000_000;
    assert(0 <= x2 * t2 <= 810_000_000_000) by (nonlinear_arith)
        requires 0 <= x2 <= 810_000, 0 <= t2 <= 1_000_000;
    let t3: i64 = 1_000_000 - x2 * t2 / 6_000_000;
    assert(-900_000_000_000 <= x * t3 <= 900_000_000_000) by (nonlinear_arith)
        requires -900_000 <= x <= 900_000, 0 <= t3 <= 1_000_000;
    let s: i64 = div_trunc(x * t3, 1_000_000);
    let u1: i64 = 1_000_000 - x2 / 56;
    assert(0 <= x2 * u1 <= 810_000_000_000) by (nonlinear_arith)
        requires 0 <= x2 <= 810_000, 0 <= u1 <= 1_000_000;
    let u2: i64 = 1_000_000 - x2 * u1 / 30_000_000;
    assert(0 <= x2 * u2 <= 810_000_000_000) by (nonlinear_arith)
        requires 0 <= x2 <= 810_000, 0 <= u2 <= 1_000_000;
    let u3: i64 = 1_000_000 - x2 * u2 / 12_000_000;
    assert(0 <= x2 * u3 <= 810_000_000_000) by (nonlinear_arith)
        requires 0 <= x2 <= 810_000, 0 <= u3 <= 1_000_000;
    let c: i64 = 1_000_000 - x2 * u3 / 2_000_000;
    (c, s)
}

fn clamp_to_unit(v: i64) -> (r: i64)
    ensures
        r == clamp_unit(v as int),
{
    if v > ONE {
        ONE
    } else if v < -ONE {
        -ONE
    } else {
        v
    }
}

fn doubled(cs: (i64, i64)) -> (r: (i64, i64))
    requires
        -ONE <= cs.0 <= ONE,
        -ONE <= cs.1 <= ONE,
    ensures
        (r.0 as int, r.1 as int) == double_angle((cs.0 as int, cs.1 as int)),
        -ONE <= r.0 <= ONE,
        -ONE <= r.1 <= ONE,
{
    let c = cs.0;
    let s = cs.1;
    assert(-1_000_000_000_000 <= c * c <= 1_000_000_000_000 && -1_000_000_000_000 <= s * s
        <= 1_000_000_000_000 && -1_000_000_000_000 <= c * s <= 1_000_000_000_000)
        by (nonlinear_arith)
        requires -1_000_000 <= c <= 1_000_000, -1_000_000 <= s <= 1_000_000;
    let c2 = clamp_to_unit(div_trunc(c * c - s * s, ONE));
    let s2 = clamp_to_unit(div_trunc(2 * (c * s), ONE));
    assert(2 * (c * s) == 2 * c * s) by (nonlinear_arith);
    (c2, s2)
}

/// Fixed-point cosine and sine of `theta` microradians.
pub fn rotation_of(theta: i64) -> (r: (i64, i64))
    requires
        -MAX_ANGLE <= theta <= MAX_ANGLE,
    ensures
        (r.0 as int, r.1 as int) == unit_rotation(theta as int),
        -ONE <= r.0 <= ONE,
        -ONE <= r.1 <= ONE,
{
    let x = div_trunc(theta, 8);
    let base = poly_at(x);
    doubled(doubled(doubled(base)))
}

} // verus!
