//! Intersection tests between segments, triangles and circles.
use vstd::prelude::*;

use crate::fixed::{div_trunc_wide, tdiv};
use crate::shapes::{
    norm_sq, triangle_within, within, Circle, Line, Point, Triangle, COORD_LIMIT,
};

verus! {

pub open spec fn dot(ax: int, ay: int, bx: int, by: int) -> int {
    ax * bx + ay * by
}

/// Squared length of the segment.
pub open spec fn seg_len_sq(s: Line) -> int {
    norm_sq(s.p2.x - s.p1.x, s.p2.y - s.p1.y)
}

/// Projection of `p - p1` on `p2 - p1`, scaled by the segment's squared
/// length.
pub open spec fn seg_projection(s: Line, p: Point) -> int {
    dot(p.x - s.p1.x, p.y - s.p1.y, s.p2.x - s.p1.x, s.p2.y - s.p1.y)
}

/// The clamped parameter of the point of the segment closest to `p`, as a
/// numerator over `seg_len_sq(s)`: it lies in `[0, seg_len_sq(s)]`.
pub open spec fn seg_param(s: Line, p: Point) -> int {
    let l = seg_len_sq(s);
    let k = seg_projection(s, p);
    if k <= 0 {
        0
    } else if k >= l {
        l
    } else {
        k
    }
}

/// The point of the segment closest to `p`, rounded toward `p1`; `p1` itself
/// when the segment has no length.
pub open spec fn closest_on_segment(s: Line, p: Point) -> (int, int) {
    let l = seg_len_sq(s);
    if l == 0 {
        (s.p1.x as int, s.p1.y as int)
    } else {
        let k = seg_param(s, p);
        (s.p1.x + tdiv((s.p2.x - s.p1.x) * k, l), s.p1.y + tdiv((s.p2.y - s.p1.y) * k, l))
    }
}

/// The exact distance from `c` to the segment is at most `r`.
pub open spec fn segment_within(s: Line, c: Point, r: int) -> bool {
    let l = seg_len_sq(s);
    let k = seg_projection(s, c);
    let ax = c.x - s.p1.x;
    let ay = c.y - s.p1.y;
    if l == 0 || k <= 0 {
        norm_sq(ax, ay) <= r * r
    } else if k >= l {
        norm_sq(c.x - s.p2.x, c.y - s.p2.y) <= r * r
    } else {
        norm_sq(ax, ay) * l - k * k <= r * r * l
    }
}

/// The point at parameter `k / n` of the segment lies within distance `r`
/// of `c` (all scaled by `n`).
pub open spec fn segment_point_within(s: Line, c: Point, r: int, k: int, n: int) -> bool {
    norm_sq(
        n * (c.x - s.p1.x) - k * (s.p2.x - s.p1.x),
        n * (c.y - s.p1.y) - k * (s.p2.y - s.p1.y),
    ) <= n * n * (r * r)
}

pub open spec fn cross(ax: int, ay: int, bx: int, by: int) -> int {
    ax * by - ay * bx
}

/// `p` lies strictly inside the triangle: it is on the same side of all three
/// edges.
pub open spec fn strictly_inside(t: Triangle, p: Point) -> bool {
    let d1 = cross(t.v2.x - t.v1.x, t.v2.y - t.v1.y, p.x - t.v1.x, p.y - t.v1.y);
    let d2 = cross(t.v3.x - t.v2.x, t.v3.y - t.v2.y, p.x - t.v2.x, p.y - t.v2.y);
    let d3 = cross(t.v1.x - t.v3.x, t.v1.y - t.v3.y, p.x - t.v3.x, p.y - t.v3.y);
    (d1 > 0 && d2 > 0 && d3 > 0) || (d1 < 0 && d2 < 0 && d3 < 0)
}

pub open spec fn edge(a: Point, b: Point) -> Line {
    Line { p1: a, p2: b }
}

/// A circle's parameters are usable: center within `COORD_LIMIT`, radius in
/// `[0, COORD_LIMIT]`.
pub open spec fn valid_circle(c: Circle) -> bool {
    within(c.center, COORD_LIMIT as int) && 0 <= c.radius <= COORD_LIMIT
}

pub open spec fn valid_segment(s: Line) -> bool {
    within(s.p1, COORD_LIMIT as int) && within(s.p2, COORD_LIMIT as int)
}

pub open spec fn circles_overlap(c1: Circle, c2: Circle) -> bool {
    norm_sq(c1.center.x - c2.center.x, c1.center.y - c2.center.y) <= (c1.radius + c2.radius) * (
    c1.radius + c2.radius)
}

proof fn lemma_tdiv_between(a: int, k: int, l: int)
    requires
        l > 0,
        0 <= k <= l,
    ensures
        a >= 0 ==> 0 <= tdiv(a * k, l) <= a,
        a < 0 ==> a <= tdiv(a * k, l) <= 0,
{
    if a >= 0 {
        assert(0 <= a * k <= a * l) by (nonlinear_arith)
            requires a >= 0, 0 <= k <= l;
        assert((a * k) / l <= a) by (nonlinear_arith)
            requires l > 0, 0 <= a * k <= a * l;
        assert(0 <= (a * k) / l) by (nonlinear_arith)
            requires l > 0, 0 <= a * k;
    } else {
        assert(a * l <= a * k <= 0) by (nonlinear_arith)
            requires a < 0, 0 <= k <= l;
        assert((-(a * k)) / l <= -a) by (nonlinear_arith)
            requires l > 0, 0 <= -(a * k) <= -(a * l);
        assert(0 <= (-(a * k)) / l) by (nonlinear_arith)
            requires l > 0, 0 <= -(a * k);
    }
}

/// The point of the segment closest to `p`.
pub fn closest_point_on_line_segment_to_other_point(line_segment: &Line, p: Point) -> (r: Point)
    requires
        valid_segment(*line_segment),
        within(p, COORD_LIMIT as int),
    ensures
        (r.x as int, r.y as int) == closest_on_segment(*line_segment, p),
        0 <= seg_param(*line_segment, p) <= seg_len_sq(*line_segment),
        within(r, COORD_LIMIT as int),
        line_segment.p1.x <= r.x <= line_segment.p2.x || line_segment.p2.x <= r.x
            <= line_segment.p1.x,
        line_segment.p1.y <= r.y <= line_segment.p2.y || line_segment.p2.y <= r.y
            <= line_segment.p1.y,
{
    let s = line_segment;
    let abx = (s.p2.x - s.p1.x) as i128;
    let aby = (s.p2.y - s.p1.y) as i128;
    let apx = (p.x - s.p1.x) as i128;
    let apy = (p.y - s.p1.y) as i128;
    let lim: i128 = 0x2000_0000;
    assert(-lim * lim <= abx * apx <= lim * lim && -lim * lim <= aby * apy <= lim * lim && 0
        <= abx * abx <= lim * lim && 0 <= aby * aby <= lim * lim) by (nonlinear_arith)
        requires -lim <= abx <= lim, -lim <= aby <= lim, -lim <= apx <= lim, -lim <= apy <= lim;
    let l = abx * abx + aby * aby;
    let proj = apx * abx + apy * aby;
    if l == 0 {
        return s.p1;
    }
    let k = if proj <= 0 {
        0
    } else if proj >= l {
        l
    } else {
        proj
    };
    assert(-lim * (2 * lim * lim) <= abx * k <= lim * (2 * lim * lim) && -lim * (2 * lim * lim)
        <= aby * k <= lim * (2 * lim * lim)) by (nonlinear_arith)
        requires -lim <= abx <= lim, -lim <= aby <= lim, 0 <= k <= 2 * lim * lim;
    let qx = div_trunc_wide(abx * k, l);
    let qy = div_trunc_wide(aby * k, l);
    proof {
        lemma_tdiv_between(abx as int, k as int, l as int);
        lemma_tdiv_between(aby as int, k as int, l as int);
    }
    Point { x: s.p1.x + qx as i64, y: s.p1.y + qy as i64 }
}

/// Whether the segment comes within the circle's radius of its center,
/// decided exactly.
fn segment_within_radius(s: &Line, c: &Circle) -> (r: bool)
    requires
        valid_segment(*s),
        valid_circle(*c),
    ensures
        r == segment_within(*s, c.center, c.radius as int),
{
    let abx = (s.p2.x - s.p1.x) as i128;
    let aby = (s.p2.y - s.p1.y) as i128;
    let apx = (c.center.x - s.p1.x) as i128;
    let apy = (c.center.y - s.p1.y) as i128;
    let bpx = (c.center.x - s.p2.x) as i128;
    let bpy = (c.center.y - s.p2.y) as i128;
    let rad = c.radius as i128;
    let lim: i128 = 0x2000_0000;
    assert(-lim * lim <= abx * apx <= lim * lim && -lim * lim <= aby * apy <= lim * lim && 0
        <= abx * abx <= lim * lim && 0 <= aby * aby <= lim * lim && 0 <= apx * apx <= lim * lim
        && 0 <= apy * apy <= lim * lim && 0 <= bpx * bpx <= lim * lim && 0 <= bpy * bpy <= lim
        * lim && 0 <= rad * rad <= lim * lim) by (nonlinear_arith)
        requires -lim <= abx <= lim, -lim <= aby <= lim, -lim <= apx <= lim, -lim <= apy <= lim,
            -lim <= bpx <= lim, -lim <= bpy <= lim, 0 <= rad <= lim;
    let l = abx * abx + aby * aby;
    let k = apx * abx + apy * aby;
    let na = apx * apx + apy * apy;
    let nb = bpx * bpx + bpy * bpy;
    let rr = rad * rad;
    if l == 0 || k <= 0 {
        na <= rr
    } else if k >= l {
        nb <= rr
    } else {
        assert(0 <= na * l <= 0x40_0000_0000_0000_0000_0000_0000_0000 && 0 <= k * k
            <= 0x40_0000_0000_0000_0000_0000_0000_0000 && 0 <= rr * l
            <= 0x40_0000_0000_0000_0000_0000_0000_0000) by (nonlinear_arith)
            requires 0 <= na <= 0x0800_0000_0000_0000, 0 <= l <= 0x0800_0000_0000_0000,
                -0x0800_0000_0000_0000 <= k <= 0x0800_0000_0000_0000, 0 <= rr
                <= 0x0800_0000_0000_0000;
        na * l - k * k <= rr * l
    }
}

/// Whether the segment meets the circle (tangency included), and the point
/// of the segment closest to the circle's center.
pub fn line_segment_circle_intersect(line_segment: &Line, circle: &Circle) -> (r: (bool, Point))
    requires
        valid_segment(*line_segment),
        valid_circle(*circle),
    ensures
        r.0 == segment_within(*line_segment, circle.center, circle.radius as int),
        (r.1.x as int, r.1.y as int) == closest_on_segment(*line_segment, circle.center),
        within(r.1, COORD_LIMIT as int),
{
    let closest_point = closest_point_on_line_segment_to_other_point(line_segment, circle.center);
    (segment_within_radius(line_segment, circle), closest_point)
}

proof fn lemma_square_of_difference(n: int, x: int, k: int, y: int)
    ensures
        (n * x - k * y) * (n * x - k * y) == n * n * (x * x) - 2 * n * k * (x * y) + k * k * (y * y),
{
    let a = n * x;
    let b = k * y;
    assert((a - b) * (a - b) == a * a - 2 * (a * b) + b * b) by (nonlinear_arith);
    assert(a * a == n * n * (x * x)) by (nonlinear_arith)
        requires a == n * x;
    assert(a * b == n * k * (x * y)) by (nonlinear_arith)
        requires a == n * x, b == k * y;
    assert(2 * (n * k * (x * y)) == 2 * n * k * (x * y)) by (nonlinear_arith);
    assert(b * b == k * k * (y * y)) by (nonlinear_arith)
        requires b == k * y;
}

proof fn lemma_scaled_distance(n: int, k: int, ax: int, ay: int, bx: int, by: int)
    ensures
        norm_sq(n * ax - k * bx, n * ay - k * by) == n * n * norm_sq(ax, ay) - 2 * n * k * dot(
            ax,
            ay,
            bx,
            by,
        ) + k * k * norm_sq(bx, by),
        norm_sq(bx, by) >= 0,
        norm_sq(ax, ay) >= 0,
{
    lemma_square_of_difference(n, ax, k, bx);
    lemma_square_of_difference(n, ay, k, by);
    assert(n * n * (ax * ax) + n * n * (ay * ay) == n * n * (ax * ax + ay * ay)) by (nonlinear_arith);
    assert(2 * n * k * (ax * bx) + 2 * n * k * (ay * by) == 2 * n * k * (ax * bx + ay * by))
        by (nonlinear_arith);
    assert(k * k * (bx * bx) + k * k * (by * by) == k * k * (bx * bx + by * by)) by (nonlinear_arith);
    assert(bx * bx >= 0 && by * by >= 0 && ax * ax >= 0 && ay * ay >= 0) by (nonlinear_arith);
}

proof fn lemma_interior_identity(n: int, k: int, a: int, kk: int, l: int, q: int)
    requires
        q == n * n * a - 2 * n * k * kk + k * k * l,
    ensures
        l * q == (k * l - n * kk) * (k * l - n * kk) + n * n * (a * l - kk * kk),
{
    let p = k * l;
    let m = n * kk;
    assert((p - m) * (p - m) == p * p - 2 * (p * m) + m * m) by (nonlinear_arith);
    assert(p * p == k * k * l * l) by (nonlinear_arith)
        requires p == k * l;
    assert(p * m == n * k * kk * l) by (nonlinear_arith)
        requires p == k * l, m == n * kk;
    assert(m * m == n * n * kk * kk) by (nonlinear_arith)
        requires m == n * kk;
    assert(n * n * (a * l - kk * kk) == n * n * a * l - n * n * kk * kk) by (nonlinear_arith);
    assert(l * q == n * n * a * l - 2 * (n * k * kk * l) + k * k * l * l) by (nonlinear_arith)
        requires q == n * n * a - 2 * n * k * kk + k * k * l;
}

proof fn lemma_point_within_implies(s: Line, c: Point, r: int, k: int, n: int)
    requires
        n > 0,
        0 <= k <= n,
        r >= 0,
        segment_point_within(s, c, r, k, n),
    ensures
        segment_within(s, c, r),
{
    let ax = c.x - s.p1.x;
    let ay = c.y - s.p1.y;
    let bx = s.p2.x - s.p1.x;
    let by = s.p2.y - s.p1.y;
    let l = seg_len_sq(s);
    let kk = seg_projection(s, c);
    let a = norm_sq(ax, ay);
    let q = norm_sq(n * ax - k * bx, n * ay - k * by);
    let rr = r * r;
    lemma_scaled_distance(n, k, ax, ay, bx, by);
    assert(q == n * n * a - 2 * n * k * kk + k * k * l);
    assert(q <= n * n * rr);
    if l == 0 || kk <= 0 {
        if l == 0 {
            assert(bx == 0 && by == 0) by (nonlinear_arith)
                requires l == bx * bx + by * by, l == 0;
            assert(kk == 0);
        }
        assert(k * k * l >= 0 && -2 * n * k * kk >= 0) by (nonlinear_arith)
            requires l >= 0, kk <= 0, n > 0, k >= 0;
        assert(a <= rr) by (nonlinear_arith)
            requires q == n * n * a - 2 * n * k * kk + k * k * l, q <= n * n * rr, k * k * l >= 0,
                -2 * n * k * kk >= 0, n > 0;
    } else if kk >= l {
        let b = norm_sq(c.x - s.p2.x, c.y - s.p2.y);
        lemma_scaled_distance(1, 1, ax, ay, bx, by);
        assert(c.x - s.p2.x == 1 * ax - 1 * bx && c.y - s.p2.y == 1 * ay - 1 * by);
        assert(b == a - 2 * kk + l);
        assert(q == n * n * b + 2 * n * (n - k) * (kk - l) + (n - k) * (n - k) * l)
            by (nonlinear_arith)
            requires q == n * n * a - 2 * n * k * kk + k * k * l, b == a - 2 * kk + l;
        assert(2 * n * (n - k) * (kk - l) >= 0 && (n - k) * (n - k) * l >= 0) by (nonlinear_arith)
            requires n > 0, k <= n, kk >= l, l >= 0;
        assert(b <= rr) by (nonlinear_arith)
            requires q == n * n * b + 2 * n * (n - k) * (kk - l) + (n - k) * (n - k) * l, q <= n
                * n * rr, 2 * n * (n - k) * (kk - l) >= 0, (n - k) * (n - k) * l >= 0, n > 0;
    } else {
        lemma_interior_identity(n, k, a, kk, l, q);
        assert(l * q <= l * (n * n * rr)) by (nonlinear_arith)
            requires q <= n * n * rr, l > 0;
        assert(a * l - kk * kk <= rr * l) by (nonlinear_arith)
            requires l * q == (k * l - n * kk) * (k * l - n * kk) + n * n * (a * l - kk * kk), l
                * q <= l * (n * n * rr), n > 0;
    }
}

proof fn lemma_within_has_point(s: Line, c: Point, r: int)
    requires
        r >= 0,
        segment_within(s, c, r),
    ensures
        exists|k: int, n: int| n > 0 && 0 <= k <= n && segment_point_within(s, c, r, k, n),
{
    let ax = c.x - s.p1.x;
    let ay = c.y - s.p1.y;
    let bx = s.p2.x - s.p1.x;
    let by = s.p2.y - s.p1.y;
    let l = seg_len_sq(s);
    let kk = seg_projection(s, c);
    let a = norm_sq(ax, ay);
    if l == 0 || kk <= 0 {
        lemma_scaled_distance(1, 0, ax, ay, bx, by);
        assert(segment_point_within(s, c, r, 0, 1));
    } else if kk >= l {
        lemma_scaled_distance(1, 1, ax, ay, bx, by);
        assert(c.x - s.p2.x == 1 * ax - 1 * bx && c.y - s.p2.y == 1 * ay - 1 * by);
        assert(segment_point_within(s, c, r, 1, 1));
    } else {
        let q = norm_sq(l * ax - kk * bx, l * ay - kk * by);
        lemma_scaled_distance(l, kk, ax, ay, bx, by);
        assert(q == l * (a * l - kk * kk)) by (nonlinear_arith)
            requires q == l * l * a - 2 * l * kk * kk + kk * kk * l;
        assert(q <= l * l * (r * r)) by (nonlinear_arith)
            requires q == l * (a * l - kk * kk), a * l - kk * kk <= r * r * l, l > 0;
        assert(segment_point_within(s, c, r, kk, l));
    }
}

/// The segment test is exact: it holds if and only if some point of the
/// segment, at a rational parameter `k / n` in `[0, 1]`, lies within the
/// radius of the center; that is, iff the least distance from the center to
/// the segment is at most the radius.
pub proof fn lemma_segment_within_iff_some_point(s: Line, c: Point, r: int)
    requires
        r >= 0,
    ensures
        segment_within(s, c, r) <==> exists|k: int, n: int|
            n > 0 && 0 <= k <= n && segment_point_within(s, c, r, k, n),
{
    if segment_within(s, c, r) {
        lemma_within_has_point(s, c, r);
    }
    if exists|k: int, n: int| n > 0 && 0 <= k <= n && segment_point_within(s, c, r, k, n) {
        let (k, n) = choose|k: int, n: int|
            n > 0 && 0 <= k <= n && segment_point_within(s, c, r, k, n);
        lemma_point_within_implies(s, c, r, k, n);
    }
}

/// Of three candidate points, the one nearest to `c`; ties go to the earlier.
pub open spec fn nearest_of_three(c: Point, p1: (int, int), p2: (int, int), p3: (int, int)) -> (int, int) {
    let d1 = norm_sq(p1.0 - c.x, p1.1 - c.y);
    let d2 = norm_sq(p2.0 - c.x, p2.1 - c.y);
    let d3 = norm_sq(p3.0 - c.x, p3.1 - c.y);
    let (best, dmin) = if d2 < d1 { (p2, d2) } else { (p1, d1) };
    if d3 < dmin { p3 } else { best }
}

/// The triangle meets the circle: an edge comes within the radius of the
/// center, or the center lies strictly inside.
pub open spec fn triangle_meets_circle(t: Triangle, c: Circle) -> bool {
    segment_within(edge(t.v1, t.v2), c.center, c.radius as int) || segment_within(
        edge(t.v2, t.v3),
        c.center,
        c.radius as int,
    ) || segment_within(edge(t.v3, t.v1), c.center, c.radius as int) || strictly_inside(
        t,
        c.center,
    )
}

/// The point of the triangle's boundary nearest to the circle's center, as
/// the closest points of the edges `v1v2`, `v2v3`, `v3v1` give it.
pub open spec fn triangle_closest(t: Triangle, c: Circle) -> (int, int) {
    nearest_of_three(
        c.center,
        closest_on_segment(edge(t.v1, t.v2), c.center),
        closest_on_segment(edge(t.v2, t.v3), c.center),
        closest_on_segment(edge(t.v3, t.v1), c.center),
    )
}

fn cross_at(a: Point, b: Point, p: Point) -> (r: i64)
    requires
        within(a, COORD_LIMIT as int),
        within(b, COORD_LIMIT as int),
        within(p, COORD_LIMIT as int),
    ensures
        r == cross(b.x - a.x, b.y - a.y, p.x - a.x, p.y - a.y),
{
    let ex = b.x - a.x;
    let ey = b.y - a.y;
    let fx = p.x - a.x;
    let fy = p.y - a.y;
    assert(-0x0400_0000_0000_0000 <= ex * fy <= 0x0400_0000_0000_0000 && -0x0400_0000_0000_0000
        <= ey * fx <= 0x0400_0000_0000_0000) by (nonlinear_arith)
        requires -0x2000_0000 <= ex <= 0x2000_0000, -0x2000_0000 <= ey <= 0x2000_0000,
            -0x2000_0000 <= fx <= 0x2000_0000, -0x2000_0000 <= fy <= 0x2000_0000;
    ex * fy - ey * fx
}

/// Whether `point` lies strictly inside the triangle.
pub fn point_in_triangle(triangle: &Triangle, point: Point) -> (r: bool)
    requires
        triangle_within(*triangle, COORD_LIMIT as int),
        within(point, COORD_LIMIT as int),
    ensures
        r == strictly_inside(*triangle, point),
{
    let d1 = cross_at(triangle.v1, triangle.v2, point);
    let d2 = cross_at(triangle.v2, triangle.v3, point);
    let d3 = cross_at(triangle.v3, triangle.v1, point);
    (d1 > 0 && d2 > 0 && d3 > 0) || (d1 < 0 && d2 < 0 && d3 < 0)
}

/// Whether `p` lies in the circle, boundary included.
pub fn point_in_circle(p: Point, circle: &Circle) -> (r: bool)
    requires
        within(p, COORD_LIMIT as int),
        valid_circle(*circle),
    ensures
        r == (norm_sq(p.x - circle.center.x, p.y - circle.center.y) <= circle.radius
            * circle.radius),
{
    let d = p.sub(circle.center);
    assert(0 <= circle.radius * circle.radius <= 0x0100_0000_0000_0000) by (nonlinear_arith)
        requires 0 <= circle.radius <= 0x1000_0000;
    let rr = circle.radius * circle.radius;
    d.magnitude_squared() <= rr
}

/// Whether the triangle meets the circle, and the point of the triangle's
/// edges nearest to the circle's center.
pub fn triangle_circle_intersect(triangle: &Triangle, circle: &Circle) -> (r: (bool, Point))
    requires
        triangle_within(*triangle, COORD_LIMIT as int),
        valid_circle(*circle),
    ensures
        r.0 == triangle_meets_circle(*triangle, *circle),
        (r.1.x as int, r.1.y as int) == triangle_closest(*triangle, *circle),
        within(r.1, COORD_LIMIT as int),
{
    let (intersects1, closest1) = line_segment_circle_intersect(
        &Line { p1: triangle.v1, p2: triangle.v2 },
        circle,
    );
    let (intersects2, closest2) = line_segment_circle_intersect(
        &Line { p1: triangle.v2, p2: triangle.v3 },
        circle,
    );
    let (intersects3, closest3) = line_segment_circle_intersect(
        &Line { p1: triangle.v3, p2: triangle.v1 },
        circle,
    );
    let intersects = intersects1 || intersects2 || intersects3 || point_in_triangle(
        triangle,
        circle.center,
    );
    let d1 = closest1.sub(circle.center).magnitude_squared();
    let d2 = closest2.sub(circle.center).magnitude_squared();
    let d3 = closest3.sub(circle.center).magnitude_squared();
    let mut closest = closest1;
    let mut d_min = d1;
    if d2 < d_min {
        closest = closest2;
        d_min = d2;
    }
    if d3 < d_min {
        closest = closest3;
    }
    (intersects, closest)
}

/// Whether two circles meet: the squared distance between the centers is
/// at most the squared sum of the radii.
pub fn circles_intersect(circle1: Circle, circle2: Circle) -> (r: bool)
    requires
        valid_circle(circle1),
        valid_circle(circle2),
    ensures
        r == circles_overlap(circle1, circle2),
        r == (norm_sq(circle1.center.x - circle2.center.x, circle1.center.y - circle2.center.y)
            <= (circle1.radius + circle2.radius) * (circle1.radius + circle2.radius)),
{
    let d = circle1.center.sub(circle2.center);
    let sum_of_radii = circle1.radius + circle2.radius;
    assert(0 <= sum_of_radii * sum_of_radii <= 0x0400_0000_0000_0000) by (nonlinear_arith)
        requires 0 <= sum_of_radii <= 0x2000_0000;
    d.magnitude_squared() <= sum_of_radii * sum_of_radii
}

} // verus!
