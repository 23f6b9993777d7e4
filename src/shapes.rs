//! Points, segments, circles and triangles in fixed-point world units.
use vstd::prelude::*;

use crate::fixed::{
    div_trunc, div_trunc_wide, is_sqrt_floor, isqrt, rotation_of, sqrt_floor, tdiv, unit_rotation, MAX_ANGLE, ONE,
};

verus! {

/// Milli-units in one world unit: coordinates and radii are stored in
/// milli-units, velocities in milli-units per second.
pub const UNIT: i64 = 1000;

/// Microseconds in one second: time steps are given in microseconds.
pub const MICROS_PER_SECOND: i64 = 1_000_000;

/// Longest time step accepted by position updates, in microseconds.
pub const MAX_DT: i64 = 1_000_000;

/// Bound on the coordinates that the geometric operations accept.
pub const COORD_LIMIT: i64 = 0x1000_0000;

/// Bound on the coordinate differences that lengths are taken of.
pub const DIFF_LIMIT: i64 = 0x2000_0000;

/// Bound on the velocity components that position updates accept.
pub const VELOCITY_LIMIT: i64 = 0x100_0000;

/// Bound on the playfield size.
pub const BOUNDS_LIMIT: i64 = 0x400_0000;

/// Bound on a wraparound margin.
pub const MARGIN_LIMIT: i64 = 0x10_0000;

#[derive(Debug, Clone, Copy, PartialEq, Eq, Structural, Default)]
pub struct Point {
    pub x: i64,
    pub y: i64,
}

/// Both coordinates of `p` lie in `[-lim, lim]`.
pub open spec fn within(p: Point, lim: int) -> bool {
    -lim <= p.x <= lim && -lim <= p.y <= lim
}

/// The playfield bounds are usable: both nonnegative and at most `BOUNDS_LIMIT`.
pub open spec fn valid_bounds(b: Point) -> bool {
    0 <= b.x <= BOUNDS_LIMIT && 0 <= b.y <= BOUNDS_LIMIT
}

pub open spec fn norm_sq(x: int, y: int) -> int {
    x * x + y * y
}

/// Displacement along one axis after `dt` microseconds at velocity `v`.
pub open spec fn travel(v: int, dt: int) -> int {
    tdiv(v * dt, MICROS_PER_SECOND as int)
}

/// One coordinate after the wraparound rule: past `max + margin` it re-enters
/// at `-margin`, below `-margin` it re-enters at `max + margin`.
pub open spec fn wrap(v: int, max: int, margin: int) -> int {
    if v > max + margin {
        -margin
    } else if v < -margin {
        max + margin
    } else {
        v
    }
}

/// A coordinate that overshoots the far edge by any `eps > 0` re-enters at
/// exactly `-margin`; one that overshoots the near edge re-enters at exactly
/// `max + margin`; one within `[-margin, max + margin]` stays.
pub proof fn lemma_wrap_edges(max: int, margin: int, eps: int, v: int)
    requires
        max >= 0,
        margin >= 0,
        eps > 0,
    ensures
        wrap(max + margin + eps, max, margin) == -margin,
        wrap(-margin - eps, max, margin) == max + margin,
        -margin <= v <= max + margin ==> wrap(v, max, margin) == v,
{
}

/// Component `a` of a vector scaled to length `len`, for a vector whose
/// integer length is `m`; zero when the vector is zero.
pub open spec fn scale_component(a: int, len: int, m: int) -> int {
    if m == 0 { 0 } else { tdiv(a * len, m) }
}

/// The vector `p` scaled to length `len` (see `Point::with_length`).
pub open spec fn scaled_to(p: Point, len: int) -> Point {
    let m = sqrt_floor(norm_sq(p.x as int, p.y as int));
    Point { x: scale_component(p.x as int, len, m) as i64, y: scale_component(p.y as int, len, m) as i64 }
}

/// `(x, y)` rotated by the fixed-point rotation `cs` (cosine, sine).
pub open spec fn rotate_xy(x: int, y: int, cs: (int, int)) -> (int, int) {
    (tdiv(cs.0 * x - cs.1 * y, ONE as int), tdiv(cs.1 * x + cs.0 * y, ONE as int))
}

/// Each component of a vector is at most its rounded-down length.
pub proof fn lemma_abs_le_sqrt(a: int, b: int, m: int)
    requires
        is_sqrt_floor(a * a + b * b, m),
    ensures
        -m <= a <= m,
        -m <= b <= m,
{
    assert(-m <= a <= m && -m <= b <= m) by (nonlinear_arith)
        requires 0 <= m, a * a + b * b < (m + 1) * (m + 1);
}

/// A truncated quotient of a value within `k * b` of zero is within `k`.
pub proof fn lemma_tdiv_bound(a: int, b: int, k: int)
    requires
        b > 0,
        k >= 0,
        -k * b <= a <= k * b,
    ensures
        -k <= tdiv(a, b) <= k,
{
    if a >= 0 {
        assert(a / b <= k) by (nonlinear_arith)
            requires b > 0, a <= k * b, a >= 0;
    } else {
        assert((-a) / b <= k) by (nonlinear_arith)
            requires b > 0, -k * b <= a, a < 0;
    }
}

impl Point {
    pub fn add(self, other: Point) -> (r: Point)
        requires
            within(self, COORD_LIMIT as int),
            within(other, COORD_LIMIT as int),
        ensures
            r.x == self.x + other.x,
            r.y == self.y + other.y,
    {
        Point { x: self.x + other.x, y: self.y + other.y }
    }

    pub fn sub(self, other: Point) -> (r: Point)
        requires
            within(self, COORD_LIMIT as int),
            within(other, COORD_LIMIT as int),
        ensures
            r.x == self.x - other.x,
            r.y == self.y - other.y,
    {
        Point { x: self.x - other.x, y: self.y - other.y }
    }

    pub fn neg(self) -> (r: Point)
        requires
            within(self, DIFF_LIMIT as int),
        ensures
            r.x == -self.x,
            r.y == -self.y,
    {
        Point { x: -self.x, y: -self.y }
    }

    /// Multiplication by an integer factor.
    pub fn mul(self, k: i64) -> (r: Point)
        requires
            within(self, DIFF_LIMIT as int),
            -DIFF_LIMIT <= k <= DIFF_LIMIT,
        ensures
            r.x == self.x * k,
            r.y == self.y * k,
            within(r, 0x4000_0000_0000_0000),
    {
        assert(-0x4000_0000_0000_0000 <= self.x * k <= 0x4000_0000_0000_0000) by (nonlinear_arith)
            requires -0x2000_0000 <= self.x <= 0x2000_0000, -0x2000_0000 <= k <= 0x2000_0000;
        assert(-0x4000_0000_0000_0000 <= self.y * k <= 0x4000_0000_0000_0000) by (nonlinear_arith)
            requires -0x2000_0000 <= self.y <= 0x2000_0000, -0x2000_0000 <= k <= 0x2000_0000;
        Point { x: self.x * k, y: self.y * k }
    }

    /// Division by a positive integer, rounding toward zero.
    pub fn div(self, k: i64) -> (r: Point)
        requires
            within(self, DIFF_LIMIT as int),
            k > 0,
        ensures
            r.x == tdiv(self.x as int, k as int),
            r.y == tdiv(self.y as int, k as int),
    {
        Point { x: div_trunc(self.x, k), y: div_trunc(self.y, k) }
    }

    /// Multiplication by the ratio `num / den`, rounding toward zero.
    pub fn scaled(self, num: i64, den: i64) -> (r: Point)
        requires
            within(self, DIFF_LIMIT as int),
            -DIFF_LIMIT <= num <= DIFF_LIMIT,
            den > 0,
        ensures
            r.x == tdiv(self.x * num, den as int),
            r.y == tdiv(self.y * num, den as int),
    {
        let m = self.mul(num);
        Point { x: div_trunc(m.x, den), y: div_trunc(m.y, den) }
    }

    /// Moves the point by `delta` (per second) for `dt` microseconds.
    pub fn update_position(&mut self, delta: Point, dt: i64)
        requires
            within(*old(self), COORD_LIMIT as int),
            within(delta, VELOCITY_LIMIT as int),
            0 <= dt <= MAX_DT,
        ensures
            final(self).x == old(self).x + travel(delta.x as int, dt as int),
            final(self).y == old(self).y + travel(delta.y as int, dt as int),
            within(*final(self), COORD_LIMIT + VELOCITY_LIMIT),
    {
        assert(-0x100_0000 * 1_000_000 <= delta.x * dt <= 0x100_0000 * 1_000_000) by (nonlinear_arith)
            requires -0x100_0000 <= delta.x <= 0x100_0000, 0 <= dt <= 1_000_000;
        assert(-0x100_0000 * 1_000_000 <= delta.y * dt <= 0x100_0000 * 1_000_000) by (nonlinear_arith)
            requires -0x100_0000 <= delta.y <= 0x100_0000, 0 <= dt <= 1_000_000;
        let dx = div_trunc(delta.x * dt, MICROS_PER_SECOND);
        let dy = div_trunc(delta.y * dt, MICROS_PER_SECOND);
        proof {
            lemma_tdiv_bound(delta.x * dt, MICROS_PER_SECOND as int, VELOCITY_LIMIT as int);
            lemma_tdiv_bound(delta.y * dt, MICROS_PER_SECOND as int, VELOCITY_LIMIT as int);
        }
        self.x = self.x + dx;
        self.y = self.y + dy;
    }

    /// Moves the point as `update_position` does, then wraps each coordinate
    /// that left `[-margin, bounds + margin]` to the opposite side.
    pub fn update_position_wraparound(
        &mut self,
        delta: Point,
        max_coords: Point,
        wraparound_offset: i64,
        dt: i64,
    )
        requires
            within(*old(self), COORD_LIMIT as int),
            within(delta, VELOCITY_LIMIT as int),
            valid_bounds(max_coords),
            0 <= wraparound_offset <= MARGIN_LIMIT,
            0 <= dt <= MAX_DT,
        ensures
            final(self).x == wrap(
                old(self).x + travel(delta.x as int, dt as int),
                max_coords.x as int,
                wraparound_offset as int,
            ),
            final(self).y == wrap(
                old(self).y + travel(delta.y as int, dt as int),
                max_coords.y as int,
                wraparound_offset as int,
            ),
            -wraparound_offset <= final(self).x <= max_coords.x + wraparound_offset,
            -wraparound_offset <= final(self).y <= max_coords.y + wraparound_offset,
    {
        self.update_position(delta, dt);
        let max_x = max_coords.x + wraparound_offset;
        let max_y = max_coords.y + wraparound_offset;
        if self.x > max_x {
            self.x = -wraparound_offset;
        } else if self.x < -wraparound_offset {
            self.x = max_x;
        }
        if self.y > max_y {
            self.y = -wraparound_offset;
        } else if self.y < -wraparound_offset {
            self.y = max_y;
        }
    }

    pub fn magnitude_squared(&self) -> (r: i64)
        requires
            within(*self, DIFF_LIMIT as int),
        ensures
            r == norm_sq(self.x as int, self.y as int),
            0 <= r <= 0x0800_0000_0000_0000,
    {
        assert(0 <= self.x * self.x <= 0x0400_0000_0000_0000) by (nonlinear_arith)
            requires -0x2000_0000 <= self.x <= 0x2000_0000;
        assert(0 <= self.y * self.y <= 0x0400_0000_0000_0000) by (nonlinear_arith)
            requires -0x2000_0000 <= self.y <= 0x2000_0000;
        self.x * self.x + self.y * self.y
    }

    /// Length, rounded down.
    pub fn magnitude(&self) -> (r: i64)
        requires
            within(*self, DIFF_LIMIT as int),
        ensures
            r == sqrt_floor(norm_sq(self.x as int, self.y as int)),
            -r <= self.x <= r,
            -r <= self.y <= r,
            0 <= r <= 0x4000_0000,
    {
        let n = self.magnitude_squared();
        let r = isqrt(n as u64);
        proof {
            lemma_abs_le_sqrt(self.x as int, self.y as int, r as int);
            if r > 0x4000_0000 {
                assert(0x4000_0000 * 0x4000_0000 <= r * r) by (nonlinear_arith)
                    requires r > 0x4000_0000;
            }
        }
        r as i64
    }

    /// The vector in this direction whose length is `len`, up to rounding
    /// toward zero; the zero vector stays zero.
    pub fn with_length(&self, len: i64) -> (r: Point)
        requires
            within(*self, DIFF_LIMIT as int),
            0 <= len <= DIFF_LIMIT,
        ensures
            r.x == scale_component(
                self.x as int,
                len as int,
                sqrt_floor(norm_sq(self.x as int, self.y as int)),
            ),
            r.y == scale_component(
                self.y as int,
                len as int,
                sqrt_floor(norm_sq(self.x as int, self.y as int)),
            ),
            within(r, len as int),
    {
        let m = self.magnitude();
        if m == 0 {
            Point { x: 0, y: 0 }
        } else {
            let s = self.mul(len);
            proof {
                assert(-len * m <= self.x * len <= len * m) by (nonlinear_arith)
                    requires -m <= self.x <= m, 0 <= len;
                assert(-len * m <= self.y * len <= len * m) by (nonlinear_arith)
                    requires -m <= self.y <= m, 0 <= len;
                lemma_tdiv_bound(self.x * len, m as int, len as int);
                lemma_tdiv_bound(self.y * len, m as int, len as int);
            }
            Point { x: div_trunc(s.x, m), y: div_trunc(s.y, m) }
        }
    }

    /// The unit vector (of length `ONE`) in this direction.
    pub fn normalized(&self) -> (r: Point)
        requires
            within(*self, DIFF_LIMIT as int),
        ensures
            r.x == scale_component(
                self.x as int,
                ONE as int,
                sqrt_floor(norm_sq(self.x as int, self.y as int)),
            ),
            r.y == scale_component(
                self.y as int,
                ONE as int,
                sqrt_floor(norm_sq(self.x as int, self.y as int)),
            ),
            within(r, ONE as int),
    {
        self.with_length(ONE)
    }

    /// The vector turned a quarter turn: `(-y, x)`.
    pub fn perpendicular(&self) -> (r: Point)
        requires
            within(*self, DIFF_LIMIT as int),
        ensures
            r.x == -self.y,
            r.y == self.x,
    {
        Point { x: -self.y, y: self.x }
    }

    /// The vector of length `r` at angle `t` microradians.
    pub fn from_polar(r: i64, t: i64) -> (p: Point)
        requires
            0 <= r <= DIFF_LIMIT,
            -MAX_ANGLE <= t <= MAX_ANGLE,
        ensures
            p.x == tdiv(r * unit_rotation(t as int).0, ONE as int),
            p.y == tdiv(r * unit_rotation(t as int).1, ONE as int),
            within(p, r as int),
    {
        let cs = rotation_of(t);
        let base = Point { x: cs.0, y: cs.1 };
        let p = base.scaled(r, ONE);
        proof {
            assert(-r * ONE <= cs.0 * r <= r * ONE) by (nonlinear_arith)
                requires -1_000_000 <= cs.0 <= 1_000_000, 0 <= r;
            assert(-r * ONE <= cs.1 * r <= r * ONE) by (nonlinear_arith)
                requires -1_000_000 <= cs.1 <= 1_000_000, 0 <= r;
            lemma_tdiv_bound(cs.0 * r, ONE as int, r as int);
            lemma_tdiv_bound(cs.1 * r, ONE as int, r as int);
            assert(cs.0 * r == r * cs.0 && cs.1 * r == r * cs.1) by (nonlinear_arith);
        }
        p
    }

    /// The vector rotated by `angle` microradians.
    pub fn rotated(&self, angle: i64) -> (r: Point)
        requires
            within(*self, DIFF_LIMIT as int),
            -MAX_ANGLE <= angle <= MAX_ANGLE,
        ensures
            (r.x as int, r.y as int) == rotate_xy(
                self.x as int,
                self.y as int,
                unit_rotation(angle as int),
            ),
            within(r, 2 * DIFF_LIMIT),
    {
        let cs = rotation_of(angle);
        self.rotated_by(cs.0, cs.1)
    }

    /// The vector rotated by the rotation whose cosine and sine are `c` and
    /// `s` (scaled by `ONE`).
    pub fn rotated_by(&self, c: i64, s: i64) -> (r: Point)
        requires
            within(*self, DIFF_LIMIT as int),
            -ONE <= c <= ONE,
            -ONE <= s <= ONE,
        ensures
            (r.x as int, r.y as int) == rotate_xy(self.x as int, self.y as int, (c as int, s as int)),
            within(r, 2 * DIFF_LIMIT),
    {
        let x = self.x;
        let y = self.y;
        assert(-0x2000_0000 * 1_000_000 <= c * x <= 0x2000_0000 * 1_000_000) by (nonlinear_arith)
            requires -0x2000_0000 <= x <= 0x2000_0000, -1_000_000 <= c <= 1_000_000;
        assert(-0x2000_0000 * 1_000_000 <= s * y <= 0x2000_0000 * 1_000_000) by (nonlinear_arith)
            requires -0x2000_0000 <= y <= 0x2000_0000, -1_000_000 <= s <= 1_000_000;
        assert(-0x2000_0000 * 1_000_000 <= s * x <= 0x2000_0000 * 1_000_000) by (nonlinear_arith)
            requires -0x2000_0000 <= x <= 0x2000_0000, -1_000_000 <= s <= 1_000_000;
        assert(-0x2000_0000 * 1_000_000 <= c * y <= 0x2000_0000 * 1_000_000) by (nonlinear_arith)
            requires -0x2000_0000 <= y <= 0x2000_0000, -1_000_000 <= c <= 1_000_000;
        let rx = div_trunc(c * x - s * y, ONE);
        let ry = div_trunc(s * x + c * y, ONE);
        proof {
            lemma_tdiv_bound(c * x - s * y, ONE as int, 2 * DIFF_LIMIT);
            lemma_tdiv_bound(s * x + c * y, ONE as int, 2 * DIFF_LIMIT);
        }
        Point { x: rx, y: ry }
    }

    /// The point with each coordinate held within `[-lim, lim]`.
    pub fn clamped(&self, lim: i64) -> (r: Point)
        requires
            lim >= 0,
        ensures
            r.x == clamp_int(self.x as int, lim as int),
            r.y == clamp_int(self.y as int, lim as int),
            within(r, lim as int),
    {
        Point { x: clamp_i64(self.x, lim), y: clamp_i64(self.y, lim) }
    }
}

/// `v` held within `[-lim, lim]`.
pub open spec fn clamp_int(v: int, lim: int) -> int {
    if v > lim {
        lim
    } else if v < -lim {
        -lim
    } else {
        v
    }
}

pub fn clamp_i64(v: i64, lim: i64) -> (r: i64)
    requires
        lim >= 0,
    ensures
        r == clamp_int(v as int, lim as int),
{
    if v > lim {
        lim
    } else if v < -lim {
        -lim
    } else {
        v
    }
}

/// A line segment; `p2` is the leading point of a bullet.
#[derive(Debug, Clone, Copy, PartialEq, Eq, Structural, Default)]
pub struct Line {
    pub p1: Point,
    pub p2: Point,
}

impl Line {
    /// Moves both endpoints by `delta` (per second) for `dt` microseconds.
    pub fn update_position(&mut self, delta: Point, dt: i64)
        requires
            within(old(self).p1, COORD_LIMIT as int),
            within(old(self).p2, COORD_LIMIT as int),
            within(delta, VELOCITY_LIMIT as int),
            0 <= dt <= MAX_DT,
        ensures
            final(self).p1.x == old(self).p1.x + travel(delta.x as int, dt as int),
            final(self).p1.y == old(self).p1.y + travel(delta.y as int, dt as int),
            final(self).p2.x == old(self).p2.x + travel(delta.x as int, dt as int),
            final(self).p2.y == old(self).p2.y + travel(delta.y as int, dt as int),
    {
        self.p1.update_position(delta, dt);
        self.p2.update_position(delta, dt);
    }
}

#[derive(Debug, Clone, Copy, PartialEq, Eq, Structural, Default)]
pub struct Circle {
    pub center: Point,
    pub radius: i64,
}

impl Circle {
    /// Moves the center by `delta` (per second) for `dt` microseconds.
    pub fn update_position(&mut self, delta: Point, dt: i64)
        requires
            within(old(self).center, COORD_LIMIT as int),
            within(delta, VELOCITY_LIMIT as int),
            0 <= dt <= MAX_DT,
        ensures
            final(self).center.x == old(self).center.x + travel(delta.x as int, dt as int),
            final(self).center.y == old(self).center.y + travel(delta.y as int, dt as int),
            final(self).radius == old(self).radius,
    {
        self.center.update_position(delta, dt);
    }

    /// Moves the center with wraparound (see `Point::update_position_wraparound`).
    pub fn update_position_wraparound(
        &mut self,
        delta: Point,
        max_coords: Point,
        wraparound_offset: i64,
        dt: i64,
    )
        requires
            within(old(self).center, COORD_LIMIT as int),
            within(delta, VELOCITY_LIMIT as int),
            valid_bounds(max_coords),
            0 <= wraparound_offset <= MARGIN_LIMIT,
            0 <= dt <= MAX_DT,
        ensures
            final(self).center.x == wrap(
                old(self).center.x + travel(delta.x as int, dt as int),
                max_coords.x as int,
                wraparound_offset as int,
            ),
            final(self).center.y == wrap(
                old(self).center.y + travel(delta.y as int, dt as int),
                max_coords.y as int,
                wraparound_offset as int,
            ),
            final(self).radius == old(self).radius,
    {
        self.center.update_position_wraparound(delta, max_coords, wraparound_offset, dt);
    }
}

/// A triangle; a ship's hull, whose pose the vertices carry.
#[derive(Debug, Clone, Copy, PartialEq, Eq, Structural, Default)]
pub struct Triangle {
    pub v1: Point,
    pub v2: Point,
    pub v3: Point,
}

/// All three vertices lie in `[-lim, lim]` on both axes.
pub open spec fn triangle_within(t: Triangle, lim: int) -> bool {
    within(t.v1, lim) && within(t.v2, lim) && within(t.v3, lim)
}

pub open spec fn centroid_of(t: Triangle) -> (int, int) {
    (tdiv(t.v1.x + t.v2.x + t.v3.x, 3), tdiv(t.v1.y + t.v2.y + t.v3.y, 3))
}

/// Twice the signed area of the triangle, relative to `v1`; the circumcenter
/// formula divides by twice this.
pub open spec fn cross_of(t: Triangle) -> int {
    (t.v2.x - t.v1.x) * (t.v3.y - t.v1.y) - (t.v2.y - t.v1.y) * (t.v3.x - t.v1.x)
}

/// `a / b` rounded toward zero, for a nonzero `b` of either sign.
pub open spec fn quotient(a: int, b: int) -> int {
    if b > 0 { tdiv(a, b) } else { tdiv(-a, -b) }
}

/// Offset of the circumcenter from `v1`, by the standard formula.
pub open spec fn circumcenter_offset(t: Triangle) -> (int, int) {
    let ux = t.v2.x - t.v1.x;
    let uy = t.v2.y - t.v1.y;
    let wx = t.v3.x - t.v1.x;
    let wy = t.v3.y - t.v1.y;
    let d = 2 * cross_of(t);
    let nu = ux * ux + uy * uy;
    let nw = wx * wx + wy * wy;
    (quotient(wy * nu - uy * nw, d), quotient(ux * nw - wx * nu, d))
}

/// The circumcenter rounded toward `v1`; for a degenerate triangle, or one
/// whose circumcenter lies outside `COORD_LIMIT`, the centroid instead.
pub open spec fn circumcenter_of(t: Triangle) -> (int, int) {
    let o = circumcenter_offset(t);
    let c = (t.v1.x + o.0, t.v1.y + o.1);
    if cross_of(t) != 0 && -COORD_LIMIT <= c.0 <= COORD_LIMIT && -COORD_LIMIT <= c.1
        <= COORD_LIMIT {
        c
    } else {
        centroid_of(t)
    }
}

/// `v` rotated by `cs` about the point `c`.
pub open spec fn rotate_about(v: Point, c: Point, cs: (int, int)) -> (int, int) {
    let r = rotate_xy(v.x - c.x, v.y - c.y, cs);
    (c.x + r.0, c.y + r.1)
}

/// Converts a pair of integers into a point.
pub open spec fn point_of(p: (int, int)) -> Point {
    Point { x: p.0 as i64, y: p.1 as i64 }
}

/// The triangle after `rotate_around_circumcenter`.
pub open spec fn rotated_triangle(t: Triangle, angular_velocity: int, dt: int) -> Triangle {
    let c = point_of(circumcenter_of(t));
    let cs = unit_rotation(travel(angular_velocity, dt));
    Triangle {
        v1: point_of(rotate_about(t.v1, c, cs)),
        v2: point_of(rotate_about(t.v2, c, cs)),
        v3: point_of(rotate_about(t.v3, c, cs)),
    }
}

/// The triangle moved by `d`.
pub open spec fn translated(t: Triangle, dx: int, dy: int) -> Triangle {
    Triangle {
        v1: Point { x: (t.v1.x + dx) as i64, y: (t.v1.y + dy) as i64 },
        v2: Point { x: (t.v2.x + dx) as i64, y: (t.v2.y + dy) as i64 },
        v3: Point { x: (t.v3.x + dx) as i64, y: (t.v3.y + dy) as i64 },
    }
}

/// The triangle after `update_position_wraparound`.
pub open spec fn wrapped_triangle(t: Triangle, v: Point, max_coords: Point, margin: int, dt: int) -> Triangle {
    let c = circumcenter_of(t);
    let dx = wrap(c.0 + travel(v.x as int, dt), max_coords.x as int, margin) - c.0;
    let dy = wrap(c.1 + travel(v.y as int, dt), max_coords.y as int, margin) - c.1;
    translated(t, dx, dy)
}

/// The heading of the triangle (see `Triangle::direction`).
pub open spec fn direction_of(t: Triangle) -> Point {
    scaled_to(Point { x: (-(t.v3.y - t.v2.y)) as i64, y: (t.v3.x - t.v2.x) as i64 }, ONE as int)
}

/// The circumradius of the triangle (see `Triangle::circumradius`).
pub open spec fn circumradius_of(t: Triangle) -> int {
    let c = circumcenter_of(t);
    sqrt_floor(norm_sq(t.v1.x - c.0, t.v1.y - c.1))
}

/// The triangle with every vertex held within `[-lim, lim]`.
pub open spec fn clamped_triangle(t: Triangle, lim: int) -> Triangle {
    Triangle {
        v1: Point { x: clamp_int(t.v1.x as int, lim) as i64, y: clamp_int(t.v1.y as int, lim) as i64 },
        v2: Point { x: clamp_int(t.v2.x as int, lim) as i64, y: clamp_int(t.v2.y as int, lim) as i64 },
        v3: Point { x: clamp_int(t.v3.x as int, lim) as i64, y: clamp_int(t.v3.y as int, lim) as i64 },
    }
}

impl Triangle {
    /// The triangle with every vertex held within `[-lim, lim]`.
    pub fn clamped(&self, lim: i64) -> (r: Triangle)
        requires
            lim >= 0,
        ensures
            r == clamped_triangle(*self, lim as int),
            triangle_within(r, lim as int),
    {
        Triangle { v1: self.v1.clamped(lim), v2: self.v2.clamped(lim), v3: self.v3.clamped(lim) }
    }

    /// Moves every vertex by `delta` (per second) for `dt` microseconds.
    pub fn update_position(&mut self, delta: Point, dt: i64)
        requires
            triangle_within(*old(self), COORD_LIMIT as int),
            within(delta, VELOCITY_LIMIT as int),
            0 <= dt <= MAX_DT,
        ensures
            final(self).v1.x == old(self).v1.x + travel(delta.x as int, dt as int),
            final(self).v1.y == old(self).v1.y + travel(delta.y as int, dt as int),
            final(self).v2.x == old(self).v2.x + travel(delta.x as int, dt as int),
            final(self).v2.y == old(self).v2.y + travel(delta.y as int, dt as int),
            final(self).v3.x == old(self).v3.x + travel(delta.x as int, dt as int),
            final(self).v3.y == old(self).v3.y + travel(delta.y as int, dt as int),
    {
        self.v1.update_position(delta, dt);
        self.v2.update_position(delta, dt);
        self.v3.update_position(delta, dt);
    }

    /// Moves every vertex by the displacement `d`.
    pub fn translate(&mut self, d: Point)
        requires
            triangle_within(*old(self), COORD_LIMIT as int),
            within(d, DIFF_LIMIT as int),
        ensures
            final(self).v1.x == old(self).v1.x + d.x,
            final(self).v1.y == old(self).v1.y + d.y,
            final(self).v2.x == old(self).v2.x + d.x,
            final(self).v2.y == old(self).v2.y + d.y,
            final(self).v3.x == old(self).v3.x + d.x,
            final(self).v3.y == old(self).v3.y + d.y,
    {
        self.v1 = Point { x: self.v1.x + d.x, y: self.v1.y + d.y };
        self.v2 = Point { x: self.v2.x + d.x, y: self.v2.y + d.y };
        self.v3 = Point { x: self.v3.x + d.x, y: self.v3.y + d.y };
    }

    /// Moves the circumcenter with wraparound and carries the whole hull
    /// along by the same displacement.
    pub fn update_position_wraparound(
        &mut self,
        delta: Point,
        max_coords: Point,
        wraparound_offset: i64,
        dt: i64,
    )
        requires
            triangle_within(*old(self), COORD_LIMIT as int),
            within(delta, VELOCITY_LIMIT as int),
            valid_bounds(max_coords),
            0 <= wraparound_offset <= MARGIN_LIMIT,
            0 <= dt <= MAX_DT,
        ensures
            ({
                let c = circumcenter_of(*old(self));
                let dx = wrap(
                    c.0 + travel(delta.x as int, dt as int),
                    max_coords.x as int,
                    wraparound_offset as int,
                ) - c.0;
                let dy = wrap(
                    c.1 + travel(delta.y as int, dt as int),
                    max_coords.y as int,
                    wraparound_offset as int,
                ) - c.1;
                &&& final(self).v1.x == old(self).v1.x + dx
                &&& final(self).v1.y == old(self).v1.y + dy
                &&& final(self).v2.x == old(self).v2.x + dx
                &&& final(self).v2.y == old(self).v2.y + dy
                &&& final(self).v3.x == old(self).v3.x + dx
                &&& final(self).v3.y == old(self).v3.y + dy
            }),
            *final(self) == wrapped_triangle(
                *old(self),
                delta,
                max_coords,
                wraparound_offset as int,
                dt as int,
            ),
    {
        let c = self.circumcenter();
        let mut moved = c;
        moved.update_position_wraparound(delta, max_coords, wraparound_offset, dt);
        let displacement = moved.sub(c);
        self.translate(displacement);
    }

    /// Turns the hull about its circumcenter at `angular_velocity`
    /// microradians per second for `dt` microseconds.
    pub fn rotate_around_circumcenter(&mut self, angular_velocity: i64, dt: i64)
        requires
            triangle_within(*old(self), COORD_LIMIT as int),
            -MAX_ANGLE <= angular_velocity <= MAX_ANGLE,
            0 <= dt <= MAX_DT,
        ensures
            ({
                let cc = circumcenter_of(*old(self));
                let c = Point { x: cc.0 as i64, y: cc.1 as i64 };
                let cs = unit_rotation(travel(angular_velocity as int, dt as int));
                &&& (final(self).v1.x as int, final(self).v1.y as int) == rotate_about(old(self).v1, c, cs)
                &&& (final(self).v2.x as int, final(self).v2.y as int) == rotate_about(old(self).v2, c, cs)
                &&& (final(self).v3.x as int, final(self).v3.y as int) == rotate_about(old(self).v3, c, cs)
            }),
            *final(self) == rotated_triangle(*old(self), angular_velocity as int, dt as int),
    {
        assert(-MAX_ANGLE * 1_000_000 <= angular_velocity * dt <= MAX_ANGLE * 1_000_000)
            by (nonlinear_arith)
            requires -MAX_ANGLE <= angular_velocity <= MAX_ANGLE, 0 <= dt <= 1_000_000;
        let angle = div_trunc(angular_velocity * dt, MICROS_PER_SECOND);
        proof {
            lemma_tdiv_bound(angular_velocity * dt, MICROS_PER_SECOND as int, MAX_ANGLE as int);
        }
        let c = self.circumcenter();
        let r1 = self.v1.sub(c).rotated(angle);
        let r2 = self.v2.sub(c).rotated(angle);
        let r3 = self.v3.sub(c).rotated(angle);
        self.v1 = Point { x: c.x + r1.x, y: c.y + r1.y };
        self.v2 = Point { x: c.x + r2.x, y: c.y + r2.y };
        self.v3 = Point { x: c.x + r3.x, y: c.y + r3.y };
    }

    /// The mean of the vertices, rounded toward zero.
    pub fn centroid(&self) -> (r: Point)
        requires
            triangle_within(*self, COORD_LIMIT as int),
        ensures
            (r.x as int, r.y as int) == centroid_of(*self),
            within(r, COORD_LIMIT as int),
    {
        let sx = self.v1.x + self.v2.x + self.v3.x;
        let sy = self.v1.y + self.v2.y + self.v3.y;
        proof {
            lemma_tdiv_bound(sx as int, 3, COORD_LIMIT as int);
            lemma_tdiv_bound(sy as int, 3, COORD_LIMIT as int);
        }
        Point { x: div_trunc(sx, 3), y: div_trunc(sy, 3) }
    }

    /// The heading: the unit outward normal of the edge from `v2` to `v3`.
    pub fn direction(&self) -> (r: Point)
        requires
            triangle_within(*self, COORD_LIMIT as int),
        ensures
            ({
                let nx = -(self.v3.y - self.v2.y);
                let ny = self.v3.x - self.v2.x;
                let m = sqrt_floor(norm_sq(nx, ny));
                r.x == scale_component(nx, ONE as int, m) && r.y == scale_component(ny, ONE as int, m)
            }),
            r == direction_of(*self),
            within(r, ONE as int),
    {
        self.v3.sub(self.v2).perpendicular().normalized()
    }

    /// The circumcenter (see `circumcenter_of`).
    pub fn circumcenter(&self) -> (r: Point)
        requires
            triangle_within(*self, COORD_LIMIT as int),
        ensures
            (r.x as int, r.y as int) == circumcenter_of(*self),
            within(r, COORD_LIMIT as int),
    {
        let ux = (self.v2.x - self.v1.x) as i128;
        let uy = (self.v2.y - self.v1.y) as i128;
        let wx = (self.v3.x - self.v1.x) as i128;
        let wy = (self.v3.y - self.v1.y) as i128;
        let lim: i128 = 0x2000_0000;
        assert(-lim * lim <= ux * wy <= lim * lim && -lim * lim <= uy * wx <= lim * lim
            && 0 <= ux * ux <= lim * lim && 0 <= uy * uy <= lim * lim && 0 <= wx * wx <= lim * lim
            && 0 <= wy * wy <= lim * lim) by (nonlinear_arith)
            requires -lim <= ux <= lim, -lim <= uy <= lim, -lim <= wx <= lim, -lim <= wy <= lim;
        let cross = ux * wy - uy * wx;
        let d = 2 * cross;
        let nu = ux * ux + uy * uy;
        let nw = wx * wx + wy * wy;
        let big: i128 = 0x2000_0000 * 0x2000_0000 * 2;
        assert(-lim * big <= wy * nu <= lim * big && -lim * big <= uy * nw <= lim * big
            && -lim * big <= ux * nw <= lim * big && -lim * big <= wx * nu <= lim * big)
            by (nonlinear_arith)
            requires -lim <= ux <= lim, -lim <= uy <= lim, -lim <= wx <= lim, -lim <= wy <= lim,
                0 <= nu <= big, 0 <= nw <= big;
        let nx = wy * nu - uy * nw;
        let ny = ux * nw - wx * nu;
        let centroid = self.centroid();
        if cross == 0 {
            return centroid;
        }
        let (ox, oy) = if d > 0 {
            (div_trunc_wide(nx, d), div_trunc_wide(ny, d))
        } else {
            (div_trunc_wide(-nx, -d), div_trunc_wide(-ny, -d))
        };
        proof {
            let k = lim * big;
            if d > 0 {
                assert(-k * d <= nx <= k * d && -k * d <= ny <= k * d) by (nonlinear_arith)
                    requires d >= 2, k >= 0, -2 * k <= nx <= 2 * k, -2 * k <= ny <= 2 * k;
                lemma_tdiv_bound(nx as int, d as int, k as int);
                lemma_tdiv_bound(ny as int, d as int, k as int);
            } else {
                assert(-k * (-d) <= -nx <= k * (-d) && -k * (-d) <= -ny <= k * (-d))
                    by (nonlinear_arith)
                    requires -d >= 2, k >= 0, -2 * k <= nx <= 2 * k, -2 * k <= ny <= 2 * k;
                lemma_tdiv_bound(-nx, -d, k as int);
                lemma_tdiv_bound(-ny, -d, k as int);
            }
        }
        let cx = self.v1.x as i128 + ox;
        let cy = self.v1.y as i128 + oy;
        let limit = COORD_LIMIT as i128;
        if -limit <= cx && cx <= limit && -limit <= cy && cy <= limit {
            Point { x: cx as i64, y: cy as i64 }
        } else {
            centroid
        }
    }

    /// Distance from `v1` to the circumcenter, rounded down.
    pub fn circumradius(&self) -> (r: i64)
        requires
            triangle_within(*self, COORD_LIMIT as int),
        ensures
            ({
                let c = circumcenter_of(*self);
                r == sqrt_floor(norm_sq(self.v1.x - c.0, self.v1.y - c.1))
            }),
            r == circumradius_of(*self),
            0 <= r <= 0x4000_0000,
    {
        let c = self.circumcenter();
        self.v1.sub(c).magnitude()
    }

    /// The smallest distance from a vertex to the circumcenter, rounded down.
    pub fn shortest_vertex_to_circumcenter_distance(&self) -> (r: i64)
        requires
            triangle_within(*self, COORD_LIMIT as int),
        ensures
            ({
                let c = circumcenter_of(*self);
                let d1 = norm_sq(self.v1.x - c.0, self.v1.y - c.1);
                let d2 = norm_sq(self.v2.x - c.0, self.v2.y - c.1);
                let d3 = norm_sq(self.v3.x - c.0, self.v3.y - c.1);
                let m = if d1 <= d2 && d1 <= d3 {
                    d1
                } else if d2 <= d3 {
                    d2
                } else {
                    d3
                };
                r == sqrt_floor(m)
            }),
    {
        let c = self.circumcenter();
        let d1 = self.v1.sub(c).magnitude_squared();
        let d2 = self.v2.sub(c).magnitude_squared();
        let d3 = self.v3.sub(c).magnitude_squared();
        let m = if d1 <= d2 && d1 <= d3 {
            d1
        } else if d2 <= d3 {
            d2
        } else {
            d3
        };
        isqrt(m as u64) as i64
    }

    /// The circumscribed circle.
    pub fn circumcircle(&self) -> (r: Circle)
        requires
            triangle_within(*self, COORD_LIMIT as int),
        ensures
            (r.center.x as int, r.center.y as int) == circumcenter_of(*self),
            r.radius == sqrt_floor(
                norm_sq(self.v1.x - circumcenter_of(*self).0, self.v1.y - circumcenter_of(*self).1),
            ),
    {
        Circle { center: self.circumcenter(), radius: self.circumradius() }
    }
}

} // verus!
