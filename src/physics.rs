//! Collision response between asteroids, bullets and ships.
use vstd::prelude::*;

use crate::fixed::{div_trunc, sqrt_floor, tdiv};
use crate::game_objects::{
    ship_valid, Ships, ShipsView, MAX_SHIPS, SHIP_MASS,
    asteroid_valid, bullet_valid, AsteroidSize, Asteroids, AsteroidsView, Bullets, BulletsView,
    ASTEROID_HEALTH_MEDIUM, ASTEROID_RADIUS_LARGE, ASTEROID_RADIUS_MEDIUM, ASTEROID_RADIUS_SMALL,
    BULLET_DAMAGE, filled, first_free, lemma_first_free,
    FIELD_LIMIT, MAX_ASTEROIDS, MAX_BULLETS,
};
use crate::intersect::{
    circles_intersect, circles_overlap, line_segment_circle_intersect, segment_within, valid_circle,
    triangle_circle_intersect, triangle_closest, triangle_meets_circle,
};
use crate::shapes::{
    circumcenter_of, clamped_triangle, point_of, translated, Triangle, UNIT,
    MICROS_PER_SECOND, clamp_int, rotate_xy, scaled_to, lemma_tdiv_bound, norm_sq, within, Circle, Point, COORD_LIMIT,
    VELOCITY_LIMIT,
};

verus! {

/// Bound on the masses that the collision formula accepts.
pub const MASS_LIMIT: i64 = 0x1_0000;

/// Bound on the denominator of a coefficient of restitution.
pub const RESTITUTION_LIMIT: i64 = 0x100;

/// Numerator of one component of the first body's velocity after a
/// collision, over the denominator `e_den * (m1 + m2)`; the second body's is
/// the same with the bodies swapped.
pub open spec fn collision_numerator(a: int, b: int, m1: int, m2: int, e_num: int, e_den: int) -> int {
    e_num * m2 * (b - a) + e_den * (m1 * a + m2 * b)
}

/// One component of the first body's velocity after a collision with
/// restitution `e_num / e_den`, rounded toward zero.
pub open spec fn collided(a: int, b: int, m1: int, m2: int, e_num: int, e_den: int) -> int {
    tdiv(collision_numerator(a, b, m1, m2, e_num, e_den), e_den * (m1 + m2))
}

/// The arguments of the collision formula are in range.
pub open spec fn valid_collision(v1: Point, v2: Point, m1: i64, m2: i64, e_num: i64, e_den: i64) -> bool {
    &&& within(v1, VELOCITY_LIMIT as int)
    &&& within(v2, VELOCITY_LIMIT as int)
    &&& 1 <= m1 <= MASS_LIMIT
    &&& 1 <= m2 <= MASS_LIMIT
    &&& 1 <= e_den <= RESTITUTION_LIMIT
    &&& 0 <= e_num <= e_den
}

fn collided_component(a: i64, b: i64, m1: i64, m2: i64, e_num: i64, e_den: i64) -> (r: i64)
    requires
        -VELOCITY_LIMIT <= a <= VELOCITY_LIMIT,
        -VELOCITY_LIMIT <= b <= VELOCITY_LIMIT,
        1 <= m1 <= MASS_LIMIT,
        1 <= m2 <= MASS_LIMIT,
        1 <= e_den <= RESTITUTION_LIMIT,
        0 <= e_num <= e_den,
    ensures
        r == collided(a as int, b as int, m1 as int, m2 as int, e_num as int, e_den as int),
        -3 * VELOCITY_LIMIT <= r <= 3 * VELOCITY_LIMIT,
{
    let lim: i64 = VELOCITY_LIMIT;
    assert(0 <= e_num * m2 <= 0x100 * 0x1_0000) by (nonlinear_arith)
        requires 0 <= e_num <= 0x100, 1 <= m2 <= 0x1_0000;
    let p = e_num * m2;
    assert(0 <= p <= e_den * m2 && e_den * m2 <= 0x100 * 0x1_0000) by (nonlinear_arith)
        requires p == e_num * m2, 0 <= e_num <= e_den <= 0x100, 1 <= m2 <= 0x1_0000;
    assert(-(2 * lim) * (e_den * m2) <= p * (b - a) <= (2 * lim) * (e_den * m2)) by (nonlinear_arith)
        requires 0 <= p <= e_den * m2, -(2 * lim) <= b - a <= 2 * lim, lim > 0;
    assert(-(lim * m1) <= m1 * a <= lim * m1 && -(lim * m2) <= m2 * b <= lim * m2) by (nonlinear_arith)
        requires -lim <= a <= lim, -lim <= b <= lim, 1 <= m1, 1 <= m2;
    let sum = m1 * a + m2 * b;
    let mass = m1 + m2;
    assert(lim * mass == lim * m1 + lim * m2) by (nonlinear_arith)
        requires mass == m1 + m2;
    assert(-(lim * mass) * e_den <= e_den * sum <= (lim * mass) * e_den) by (nonlinear_arith)
        requires -(lim * mass) <= sum <= lim * mass, 1 <= e_den;
    assert((2 * lim) * (e_den * m2) <= 0x200_0000 * 0x100_0000 && (lim * mass) * e_den
        <= 0x100_0000 * 0x200_0000) by (nonlinear_arith)
        requires lim == 0x100_0000, 1 <= e_den <= 0x100, 1 <= m1 <= 0x1_0000, 1 <= m2 <= 0x1_0000,
            mass == m1 + m2, e_den * m2 <= 0x100 * 0x1_0000;
    assert(0 < e_den * mass <= 0x100 * 0x2_0000) by (nonlinear_arith)
        requires 1 <= e_den <= 0x100, 1 <= mass <= 0x2_0000;
    assert(-0x2_0000_0000_0000 <= p * (b - a) <= 0x2_0000_0000_0000) by (nonlinear_arith)
        requires 0 <= p <= 0x100_0000, -0x200_0000 <= b - a <= 0x200_0000;
    assert(-(lim * mass) <= sum <= lim * mass);
    assert(-0x200_0000_0000 <= sum <= 0x200_0000_0000) by (nonlinear_arith)
        requires -(lim * mass) <= sum <= lim * mass, lim == 0x100_0000, 1 <= mass <= 0x2_0000;
    assert(-0x2_0000_0000_0000 <= e_den * sum <= 0x2_0000_0000_0000) by (nonlinear_arith)
        requires -0x200_0000_0000 <= sum <= 0x200_0000_0000, 1 <= e_den <= 0x100;
    let num = p * (b - a) + e_den * sum;
    let den = e_den * mass;
    proof {
        assert(-(3 * lim) * den <= num <= (3 * lim) * den) by (nonlinear_arith)
            requires -(2 * lim) * (e_den * m2) <= p * (b - a) <= (2 * lim) * (e_den * m2),
                -(lim * mass) * e_den <= e_den * sum <= (lim * mass) * e_den, num == p * (b - a)
                + e_den * sum, den == e_den * mass, mass == m1 + m2, 1 <= m1, 1 <= m2,
                1 <= e_den, lim > 0;
        assert(-(3 * lim) * den == -3 * lim * den) by (nonlinear_arith);
        lemma_tdiv_bound(num as int, den as int, 3 * lim);
        assert(num == collision_numerator(a as int, b as int, m1 as int, m2 as int, e_num as int, e_den as int))
            by (nonlinear_arith)
            requires num == p * (b - a) + e_den * sum, p == e_num * m2, sum == m1 * a + m2 * b;
    }
    div_trunc(num, den)
}

/// Velocities after a collision of bodies with velocities `v1`, `v2` and
/// masses `m1`, `m2`, with restitution `e_num / e_den`:
/// `v1' = (e m2 (v2 - v1) + m1 v1 + m2 v2) / (m1 + m2)` and
/// `v2' = (e m1 (v1 - v2) + m1 v1 + m2 v2) / (m1 + m2)`, componentwise,
/// rounded toward zero.
pub fn calculate_collision_velocities(
    v1: Point,
    v2: Point,
    m1: i64,
    m2: i64,
    e_num: i64,
    e_den: i64,
) -> (r: (Point, Point))
    requires
        valid_collision(v1, v2, m1, m2, e_num, e_den),
    ensures
        r.0.x == collided(v1.x as int, v2.x as int, m1 as int, m2 as int, e_num as int, e_den as int),
        r.0.y == collided(v1.y as int, v2.y as int, m1 as int, m2 as int, e_num as int, e_den as int),
        r.1.x == collided(v2.x as int, v1.x as int, m2 as int, m1 as int, e_num as int, e_den as int),
        r.1.y == collided(v2.y as int, v1.y as int, m2 as int, m1 as int, e_num as int, e_den as int),
        within(r.0, 3 * VELOCITY_LIMIT),
        within(r.1, 3 * VELOCITY_LIMIT),
{
    let v1f = Point {
        x: collided_component(v1.x, v2.x, m1, m2, e_num, e_den),
        y: collided_component(v1.y, v2.y, m1, m2, e_num, e_den),
    };
    let v2f = Point {
        x: collided_component(v2.x, v1.x, m2, m1, e_num, e_den),
        y: collided_component(v2.y, v1.y, m2, m1, e_num, e_den),
    };
    (v1f, v2f)
}

/// With restitution one, the collision formula conserves momentum before
/// rounding, and exactly when the common denominator divides both
/// numerators; with equal masses it swaps the two velocities exactly.
pub proof fn lemma_elastic_collision(a: int, b: int, m1: int, m2: int, e: int)
    requires
        m1 >= 1,
        m2 >= 1,
        e >= 1,
    ensures
        m1 * collision_numerator(a, b, m1, m2, e, e) + m2 * collision_numerator(b, a, m2, m1, e, e)
            == e * (m1 + m2) * (m1 * a + m2 * b),
        collision_numerator(a, b, m1, m2, e, e) % (e * (m1 + m2)) == 0 && collision_numerator(
            b,
            a,
            m2,
            m1,
            e,
            e,
        ) % (e * (m1 + m2)) == 0 ==> m1 * collided(a, b, m1, m2, e, e) + m2 * collided(
            b,
            a,
            m2,
            m1,
            e,
            e,
        ) == m1 * a + m2 * b,
        m1 == m2 ==> collided(a, b, m1, m2, e, e) == b && collided(b, a, m2, m1, e, e) == a,
{
    let d = e * (m1 + m2);
    let n1 = collision_numerator(a, b, m1, m2, e, e);
    let n2 = collision_numerator(b, a, m2, m1, e, e);
    assert(n1 == e * (m2 * (b - a) + m1 * a + m2 * b)) by (nonlinear_arith)
        requires n1 == e * m2 * (b - a) + e * (m1 * a + m2 * b);
    assert(n1 == e * (2 * m2 * b + (m1 - m2) * a)) by (nonlinear_arith)
        requires n1 == e * (m2 * (b - a) + m1 * a + m2 * b);
    assert(n2 == e * (2 * m1 * a + (m2 - m1) * b)) by (nonlinear_arith)
        requires n2 == e * m1 * (a - b) + e * (m2 * b + m1 * a);
    let x = 2 * m2 * b + (m1 - m2) * a;
    let y = 2 * m1 * a + (m2 - m1) * b;
    assert(m1 * n1 == e * (m1 * x)) by (nonlinear_arith)
        requires n1 == e * x;
    assert(m2 * n2 == e * (m2 * y)) by (nonlinear_arith)
        requires n2 == e * y;
    assert(m1 * x == 2 * (m1 * m2 * b) + m1 * m1 * a - m1 * m2 * a) by (nonlinear_arith)
        requires x == 2 * m2 * b + (m1 - m2) * a;
    assert(m2 * y == 2 * (m1 * m2 * a) + m2 * m2 * b - m1 * m2 * b) by (nonlinear_arith)
        requires y == 2 * m1 * a + (m2 - m1) * b;
    let sum = m1 * a + m2 * b;
    assert((m1 + m2) * sum == m1 * sum + m2 * sum) by (nonlinear_arith);
    assert(m1 * sum == m1 * m1 * a + m1 * m2 * b) by (nonlinear_arith)
        requires sum == m1 * a + m2 * b;
    assert(m2 * sum == m1 * m2 * a + m2 * m2 * b) by (nonlinear_arith)
        requires sum == m1 * a + m2 * b;
    assert(m1 * x + m2 * y == (m1 + m2) * (m1 * a + m2 * b));
    assert(e * (m1 * x) + e * (m2 * y) == e * (m1 * x + m2 * y)) by (nonlinear_arith);
    assert(e * ((m1 + m2) * (m1 * a + m2 * b)) == d * (m1 * a + m2 * b)) by (nonlinear_arith)
        requires d == e * (m1 + m2);
    assert(d > 0) by (nonlinear_arith)
        requires e >= 1, m1 >= 1, m2 >= 1, d == e * (m1 + m2);
    if n1 % d == 0 && n2 % d == 0 {
        let q1 = collided(a, b, m1, m2, e, e);
        let q2 = collided(b, a, m2, m1, e, e);
        lemma_exact_tdiv(n1, d);
        lemma_exact_tdiv(n2, d);
        assert(q1 * d == n1 && q2 * d == n2);
        assert(m1 * q1 + m2 * q2 == m1 * a + m2 * b) by (nonlinear_arith)
            requires q1 * d == n1, q2 * d == n2, m1 * n1 + m2 * n2 == d * (m1 * a + m2 * b), d > 0;
    }
    if m1 == m2 {
        assert(n1 == d * b) by (nonlinear_arith)
            requires n1 == e * (2 * m2 * b + (m1 - m2) * a), d == e * (m1 + m2), m1 == m2;
        assert(n2 == d * a) by (nonlinear_arith)
            requires n2 == e * (2 * m1 * a + (m2 - m1) * b), d == e * (m1 + m2), m1 == m2;
        lemma_tdiv_of_multiple(b, d);
        lemma_tdiv_of_multiple(a, d);
    }
}

proof fn lemma_tdiv_of_multiple(q: int, d: int)
    requires
        d > 0,
    ensures
        tdiv(d * q, d) == q,
{
    if q >= 0 {
        assert(d * q >= 0 && (d * q) / d == q) by (nonlinear_arith)
            requires d > 0, q >= 0;
    } else {
        assert(d * q < 0 && (-(d * q)) / d == -q) by (nonlinear_arith)
            requires d > 0, q < 0;
    }
}

proof fn lemma_exact_tdiv(n: int, d: int)
    requires
        d > 0,
        n % d == 0,
    ensures
        tdiv(n, d) * d == n,
{
    let q = n / d;
    assert(n == d * q) by (nonlinear_arith)
        requires d > 0, n % d == 0, q == n / d;
    lemma_tdiv_of_multiple(q, d);
    assert(q * d == d * q) by (nonlinear_arith);
}

/// Half the overlap of two circles along the axis from the first center to
/// the second, scaled to that axis: the first center moves back by it, the
/// second forward. Zero when the centers coincide.
pub open spec fn push_apart(c1: Circle, c2: Circle) -> (int, int) {
    let dx = c2.center.x - c1.center.x;
    let dy = c2.center.y - c1.center.y;
    let dist = sqrt_floor(norm_sq(dx, dy));
    let overlap = c1.radius + c2.radius - dist;
    if dist == 0 {
        (0, 0)
    } else {
        (tdiv(overlap * dx, 2 * dist), tdiv(overlap * dy, 2 * dist))
    }
}

/// The displacement that carries `p` radially onto the circle's boundary;
/// zero when `p` is the center.
pub open spec fn push_out(c: Circle, p: Point) -> (int, int) {
    let dx = p.x - c.center.x;
    let dy = p.y - c.center.y;
    let dist = sqrt_floor(norm_sq(dx, dy));
    let overlap = c.radius - dist;
    if dist == 0 {
        (0, 0)
    } else {
        (tdiv(overlap * dx, dist), tdiv(overlap * dy, dist))
    }
}

proof fn lemma_scaled_share(overlap: int, d: int, dist: int, k: int)
    requires
        dist > 0,
        -dist <= d <= dist,
        -k <= overlap <= k,
        k >= 0,
    ensures
        -k <= tdiv(overlap * d, dist) <= k,
        -k * dist <= overlap * d <= k * dist,
{
    assert(-k * dist <= overlap * d <= k * dist) by (nonlinear_arith)
        requires -dist <= d <= dist, -k <= overlap <= k, k >= 0, dist > 0;
    lemma_tdiv_bound(overlap * d, dist, k);
}

/// New centers for two overlapping circles, each pushed half the overlap
/// apart along the line through the centers.
pub fn displace_circles(circle1: &Circle, circle2: &Circle) -> (r: (Point, Point))
    requires
        valid_circle(*circle1),
        valid_circle(*circle2),
    ensures
        r.0.x == circle1.center.x - push_apart(*circle1, *circle2).0,
        r.0.y == circle1.center.y - push_apart(*circle1, *circle2).1,
        r.1.x == circle2.center.x + push_apart(*circle1, *circle2).0,
        r.1.y == circle2.center.y + push_apart(*circle1, *circle2).1,
{
    let d = circle2.center.sub(circle1.center);
    let dist = d.magnitude();
    let overlap = circle1.radius + circle2.radius - dist;
    if dist == 0 {
        return (circle1.center, circle2.center);
    }
    proof {
        lemma_scaled_share(overlap as int, d.x as int, 2 * dist, 0x8000_0000);
        lemma_scaled_share(overlap as int, d.y as int, 2 * dist, 0x8000_0000);
        assert(0x8000_0000 * (2 * dist) <= 0x8000_0000 * 0x8000_0000) by (nonlinear_arith)
            requires 0 <= dist <= 0x4000_0000;
    }
    let dx = div_trunc(overlap * d.x, 2 * dist);
    let dy = div_trunc(overlap * d.y, 2 * dist);
    (
        Point { x: circle1.center.x - dx, y: circle1.center.y - dy },
        Point { x: circle2.center.x + dx, y: circle2.center.y + dy },
    )
}

/// `p` carried radially onto the boundary of the circle.
pub fn displace_point_from_circle(c: &Circle, p: Point) -> (r: Point)
    requires
        valid_circle(*c),
        within(p, COORD_LIMIT as int),
    ensures
        r.x == p.x + push_out(*c, p).0,
        r.y == p.y + push_out(*c, p).1,
        -0x8000_0000 <= push_out(*c, p).0 <= 0x8000_0000,
        -0x8000_0000 <= push_out(*c, p).1 <= 0x8000_0000,
{
    let d = p.sub(c.center);
    let dist = d.magnitude();
    let overlap = c.radius - dist;
    if dist == 0 {
        return p;
    }
    proof {
        lemma_scaled_share(overlap as int, d.x as int, dist as int, 0x8000_0000);
        lemma_scaled_share(overlap as int, d.y as int, dist as int, 0x8000_0000);
        assert(0x8000_0000 * dist <= 0x8000_0000 * 0x4000_0000) by (nonlinear_arith)
            requires 0 <= dist <= 0x4000_0000;
    }
    let dx = div_trunc(overlap * d.x, dist);
    let dy = div_trunc(overlap * d.y, dist);
    Point { x: p.x + dx, y: p.y + dy }
}

pub const ASTEROID_RESTITUTION_NUM: i64 = 3;

pub const ASTEROID_RESTITUTION_DEN: i64 = 4;

pub const SHIP_RESTITUTION_NUM: i64 = 1;

pub const SHIP_RESTITUTION_DEN: i64 = 2;

/// The speed of an asteroid about to split is multiplied by
/// `ASTEROID_SPLIT_SPEED_NUM / ASTEROID_SPLIT_SPEED_DEN`.
pub const ASTEROID_SPLIT_SPEED_NUM: i64 = 5;

pub const ASTEROID_SPLIT_SPEED_DEN: i64 = 4;

/// The point `(x, y)` with each coordinate held within `[-lim, lim]`.
pub open spec fn clamp_point(x: int, y: int, lim: int) -> Point {
    Point { x: clamp_int(x, lim) as i64, y: clamp_int(y, lim) as i64 }
}

/// The velocity of the first body after a collision, held within
/// `VELOCITY_LIMIT`.
pub open spec fn collided_velocity(v1: Point, v2: Point, m1: int, m2: int, e_num: int, e_den: int) -> Point {
    clamp_point(
        collided(v1.x as int, v2.x as int, m1, m2, e_num, e_den),
        collided(v1.y as int, v2.y as int, m1, m2, e_num, e_den),
        VELOCITY_LIMIT as int,
    )
}

/// The pool after asteroids `i` and `j` (`i < j`) met, if they exist and
/// overlap: velocities exchanged with unit masses and the asteroid
/// restitution, centers pushed apart symmetrically.
pub open spec fn asteroid_pair(m: AsteroidsView, i: int, j: int) -> AsteroidsView {
    if i < j && m.exists[i] && m.exists[j] && circles_overlap(m.circle[i], m.circle[j]) {
        let ci = m.circle[i];
        let cj = m.circle[j];
        let e_num = ASTEROID_RESTITUTION_NUM as int;
        let e_den = ASTEROID_RESTITUTION_DEN as int;
        let push = push_apart(ci, cj);
        AsteroidsView {
            velocity: m.velocity.update(
                i,
                collided_velocity(m.velocity[i], m.velocity[j], 1, 1, e_num, e_den),
            ).update(j, collided_velocity(m.velocity[j], m.velocity[i], 1, 1, e_num, e_den)),
            circle: m.circle.update(
                i,
                Circle {
                    center: clamp_point(ci.center.x - push.0, ci.center.y - push.1, FIELD_LIMIT as int),
                    radius: ci.radius,
                },
            ).update(
                j,
                Circle {
                    center: clamp_point(cj.center.x + push.0, cj.center.y + push.1, FIELD_LIMIT as int),
                    radius: cj.radius,
                },
            ),
            ..m
        }
    } else {
        m
    }
}

/// The pool after the pairs `(i, 0)`, ..., `(i, j - 1)` had their turn.
pub open spec fn asteroid_row(m: AsteroidsView, i: int, j: int) -> AsteroidsView
    decreases j,
{
    if j <= 0 {
        m
    } else {
        asteroid_pair(asteroid_row(m, i, j - 1), i, j - 1)
    }
}

/// The pool after the rows `0`, ..., `i - 1` of pairs had their turn.
pub open spec fn asteroid_rows(m: AsteroidsView, i: int) -> AsteroidsView
    decreases i,
{
    if i <= 0 {
        m
    } else {
        asteroid_row(asteroid_rows(m, i - 1), i - 1, MAX_ASTEROIDS as int)
    }
}

fn collide_asteroids(asteroids: &mut Asteroids, i: usize, j: usize)
    requires
        old(asteroids).wf(),
        i < j < MAX_ASTEROIDS,
    ensures
        final(asteroids).wf(),
        final(asteroids)@ == asteroid_pair(old(asteroids)@, i as int, j as int),
{
    if !asteroids.exists[i] || !asteroids.exists[j] {
        return;
    }
    let ci = asteroids.circle[i];
    let cj = asteroids.circle[j];
    assert(asteroid_valid(ci, asteroids@.velocity[i as int]));
    assert(asteroid_valid(cj, asteroids@.velocity[j as int]));
    if circles_intersect(ci, cj) {
        let (vi, vj) = calculate_collision_velocities(
            asteroids.velocity[i],
            asteroids.velocity[j],
            1,
            1,
            ASTEROID_RESTITUTION_NUM,
            ASTEROID_RESTITUTION_DEN,
        );
        let (pi, pj) = displace_circles(&ci, &cj);
        asteroids.velocity.set(i, vi.clamped(VELOCITY_LIMIT));
        asteroids.velocity.set(j, vj.clamped(VELOCITY_LIMIT));
        asteroids.circle.set(i, Circle { center: pi.clamped(FIELD_LIMIT), radius: ci.radius });
        asteroids.circle.set(j, Circle { center: pj.clamped(FIELD_LIMIT), radius: cj.radius });
    }
}

/// Resolves every overlapping pair of asteroids, in slot order.
pub fn asteroid_asteroid_collisions(asteroids: &mut Asteroids)
    requires
        old(asteroids).wf(),
    ensures
        final(asteroids).wf(),
        final(asteroids)@ == asteroid_rows(old(asteroids)@, MAX_ASTEROIDS as int),
{
    let ghost start = asteroids@;
    let mut i: usize = 0;
    while i < MAX_ASTEROIDS
        invariant
            0 <= i <= MAX_ASTEROIDS,
            asteroids.wf(),
            start == old(asteroids)@,
            asteroids@ == asteroid_rows(start, i as int),
        decreases MAX_ASTEROIDS - i,
    {
        let ghost row_start = asteroids@;
        let mut j: usize = 0;
        while j < MAX_ASTEROIDS
            invariant
                0 <= i < MAX_ASTEROIDS,
                0 <= j <= MAX_ASTEROIDS,
                asteroids.wf(),
                row_start == asteroid_rows(start, i as int),
                asteroids@ == asteroid_row(row_start, i as int, j as int),
            decreases MAX_ASTEROIDS - j,
        {
            if i < j {
                collide_asteroids(asteroids, i, j);
            }
            j += 1;
        }
        i += 1;
    }
}

/// Cosine of an eighth of a half turn (22.5 degrees), scaled by `ONE`.
pub const COS_PI_8: i64 = 923_880;

/// Sine of an eighth of a half turn (22.5 degrees), scaled by `ONE`.
pub const SIN_PI_8: i64 = 382_683;

/// `hp - d`, held at `i8::MIN` from below.
pub open spec fn damaged(hp: i8, d: i8) -> i8 {
    if hp - d < i8::MIN { i8::MIN } else { (hp - d) as i8 }
}

/// The velocity of an asteroid about to split, sped up and held within
/// `VELOCITY_LIMIT`.
pub open spec fn boosted(v: Point) -> Point {
    clamp_point(
        tdiv(v.x * ASTEROID_SPLIT_SPEED_NUM, ASTEROID_SPLIT_SPEED_DEN as int),
        tdiv(v.y * ASTEROID_SPLIT_SPEED_NUM, ASTEROID_SPLIT_SPEED_DEN as int),
        VELOCITY_LIMIT as int,
    )
}

/// Pools and split marks while bullets are tested against asteroids.
pub struct HitState {
    pub asteroids: AsteroidsView,
    pub bullets: BulletsView,
    pub split: Seq<bool>,
}

/// The state after bullet `j` was tested against asteroid `i`: on a hit the
/// bullet is destroyed and the asteroid loses `BULLET_DAMAGE`; at zero hp a
/// small asteroid is destroyed, a larger one is sped up and marked to split.
pub open spec fn bullet_hit(st: HitState, i: int, j: int) -> HitState {
    let m = st.asteroids;
    let b = st.bullets;
    if b.exists[j] && segment_within(b.line_segment[j], m.circle[i].center, m.circle[i].radius as int) {
        let hp = damaged(m.hp[i], BULLET_DAMAGE);
        let destroy = hp <= 0;
        let small = m.circle[i].radius == ASTEROID_RADIUS_SMALL;
        let split = destroy && !small;
        HitState {
            asteroids: AsteroidsView {
                exists: m.exists.update(i, !(destroy && small)),
                hp: m.hp.update(i, hp),
                velocity: if split { m.velocity.update(i, boosted(m.velocity[i])) } else { m.velocity },
                ..m
            },
            bullets: BulletsView { exists: b.exists.update(j, false), ..b },
            split: st.split.update(i, split),
        }
    } else {
        st
    }
}

/// The state after bullets `0..j` were tested against asteroid `i`.
pub open spec fn bullet_row(st: HitState, i: int, j: int) -> HitState
    decreases j,
{
    if j <= 0 {
        st
    } else {
        bullet_hit(bullet_row(st, i, j - 1), i, j - 1)
    }
}

/// The state after every bullet was tested against each asteroid `0..i`
/// that existed when its turn came.
pub open spec fn bullet_rows(st: HitState, i: int) -> HitState
    decreases i,
{
    if i <= 0 {
        st
    } else {
        let before = bullet_rows(st, i - 1);
        if before.asteroids.exists[i - 1] {
            bullet_row(before, i - 1, MAX_BULLETS as int)
        } else {
            before
        }
    }
}

/// The velocity `v` turned by 22.5 degrees, clockwise for `sign < 0` and
/// counterclockwise otherwise, held within `VELOCITY_LIMIT`.
pub open spec fn fragment_velocity(v: Point, sign: int) -> Point {
    let s = if sign < 0 { -SIN_PI_8 } else { SIN_PI_8 as int };
    let r = rotate_xy(v.x as int, v.y as int, (COS_PI_8 as int, s));
    clamp_point(r.0, r.1, VELOCITY_LIMIT as int)
}

/// The size one tier below that of radius `r`.
pub open spec fn smaller_size(r: i64) -> AsteroidSize {
    if r == ASTEROID_RADIUS_LARGE { AsteroidSize::MEDIUM } else { AsteroidSize::SMALL }
}

/// How far the fragments of a split asteroid are first nudged apart along
/// their velocities, in milli-units, so that the push that follows has an
/// axis to act along.
pub const FRAGMENT_NUDGE: i64 = 100;

/// Where the two fragments of an asteroid of circle `c` start: nudged
/// `FRAGMENT_NUDGE` along their velocities, then pushed apart.
pub open spec fn fragment_centers(c: Circle, va: Point, vb: Point) -> (Point, Point) {
    let r = if c.radius == ASTEROID_RADIUS_LARGE { ASTEROID_RADIUS_MEDIUM } else { ASTEROID_RADIUS_SMALL };
    let na = scaled_to(va, FRAGMENT_NUDGE as int);
    let nb = scaled_to(vb, FRAGMENT_NUDGE as int);
    let ca = Circle { center: Point { x: (c.center.x + na.x) as i64, y: (c.center.y + na.y) as i64 }, radius: r };
    let cb = Circle { center: Point { x: (c.center.x + nb.x) as i64, y: (c.center.y + nb.y) as i64 }, radius: r };
    let push = push_apart(ca, cb);
    (
        clamp_point(ca.center.x - push.0, ca.center.y - push.1, FIELD_LIMIT as int),
        clamp_point(cb.center.x + push.0, cb.center.y + push.1, FIELD_LIMIT as int),
    )
}

/// The pool after asteroid `k` split: it is destroyed and two asteroids of
/// the next smaller size are created, moving at its velocity turned by
/// -22.5 and +22.5 degrees.
pub open spec fn split_asteroid(m: AsteroidsView, k: int) -> AsteroidsView {
    let freed = AsteroidsView { exists: m.exists.update(k, false), ..m };
    let va = fragment_velocity(m.velocity[k], -1);
    let vb = fragment_velocity(m.velocity[k], 1);
    let size = smaller_size(m.circle[k].radius);
    let centers = fragment_centers(m.circle[k], va, vb);
    freed.created(size, centers.0, va).created(size, centers.1, vb)
}

/// The pool after the marked asteroids among `0..i` split, in slot order.
pub open spec fn split_all(m: AsteroidsView, split: Seq<bool>, i: int) -> AsteroidsView
    decreases i,
{
    if i <= 0 {
        m
    } else {
        let before = split_all(m, split, i - 1);
        if split[i - 1] {
            split_asteroid(before, i - 1)
        } else {
            before
        }
    }
}

/// A large asteroid that splits is replaced by exactly two medium asteroids,
/// created in the two lowest free slots once its own slot is freed, whose
/// velocities are its own turned by -22.5 and +22.5 degrees; every other
/// slot is left as it was. This needs room for the second fragment: a free
/// slot besides the asteroid's own.
pub proof fn lemma_split_large_asteroid(m: AsteroidsView, k: int)
    requires
        m.wf(),
        0 <= k < MAX_ASTEROIDS,
        m.exists[k],
        m.circle[k].radius == ASTEROID_RADIUS_LARGE,
        exists|q: int| 0 <= q < MAX_ASTEROIDS && q != k && !m.exists[q],
    ensures
        ({
            let r = split_asteroid(m, k);
            let freed = m.exists.update(k, false);
            let a = first_free(freed);
            let b = first_free(freed.update(a, true));
            &&& 0 <= a < MAX_ASTEROIDS
            &&& 0 <= b < MAX_ASTEROIDS
            &&& a != b
            &&& r.exists == freed.update(a, true).update(b, true)
            &&& r.circle[a].radius == ASTEROID_RADIUS_MEDIUM
            &&& r.circle[b].radius == ASTEROID_RADIUS_MEDIUM
            &&& r.hp[a] == ASTEROID_HEALTH_MEDIUM
            &&& r.hp[b] == ASTEROID_HEALTH_MEDIUM
            &&& r.velocity[a] == fragment_velocity(m.velocity[k], -1)
            &&& r.velocity[b] == fragment_velocity(m.velocity[k], 1)
            &&& forall|q: int|
                0 <= q < MAX_ASTEROIDS && q != a && q != b ==> r.circle[q] == m.circle[q]
                    && r.velocity[q] == m.velocity[q] && r.hp[q] == m.hp[q]
        }),
{
    let freed = m.exists.update(k, false);
    let a = first_free(freed);
    lemma_first_free(freed);
    if a == MAX_ASTEROIDS {
        assert(freed[k]);
    }
    let second = freed.update(a, true);
    let b = first_free(second);
    lemma_first_free(second);
    let q = choose|q: int| 0 <= q < MAX_ASTEROIDS && q != k && !m.exists[q];
    if b == MAX_ASTEROIDS {
        if a == k {
            assert(second[q]);
        } else {
            assert(second[k]);
        }
    }
}

fn hit_asteroid(asteroids: &mut Asteroids, bullets: &mut Bullets, split: &mut Vec<bool>, i: usize, j: usize)
    requires
        old(asteroids).wf(),
        old(bullets).wf(),
        old(split)@.len() == MAX_ASTEROIDS,
        i < MAX_ASTEROIDS,
        j < MAX_BULLETS,
        asteroid_valid(old(asteroids)@.circle[i as int], old(asteroids)@.velocity[i as int]),
    ensures
        final(asteroids).wf(),
        final(bullets).wf(),
        final(split)@.len() == MAX_ASTEROIDS,
        asteroid_valid(final(asteroids)@.circle[i as int], final(asteroids)@.velocity[i as int]),
        (forall|k: int| 0 <= k < MAX_ASTEROIDS && #[trigger] old(split)@[k] ==> old(asteroids)@.exists[k])
            ==> (forall|k: int|
            0 <= k < MAX_ASTEROIDS && #[trigger] final(split)@[k] ==> final(asteroids)@.exists[k]),
        bullet_hit(
            HitState { asteroids: old(asteroids)@, bullets: old(bullets)@, split: old(split)@ },
            i as int,
            j as int,
        ) == (HitState { asteroids: final(asteroids)@, bullets: final(bullets)@, split: final(split)@ }),
{
    if !bullets.exists[j] {
        return;
    }
    let circle = asteroids.circle[i];
    let segment = bullets.line_segment[j];
    assert(bullet_valid(segment, bullets@.velocity[j as int]));
    if line_segment_circle_intersect(&segment, &circle).0 {
        bullets.exists.set(j, false);
        let old_hp = asteroids.hp[i];
        let hp: i8 = if old_hp >= i8::MIN + BULLET_DAMAGE { old_hp - BULLET_DAMAGE } else { i8::MIN };
        asteroids.hp.set(i, hp);
        let destroy = hp <= 0;
        let is_small = circle.radius == ASTEROID_RADIUS_SMALL;
        let to_split = destroy && !is_small;
        split.set(i, to_split);
        asteroids.exists.set(i, !(destroy && is_small));
        if to_split {
            let v = asteroids.velocity[i].scaled(ASTEROID_SPLIT_SPEED_NUM, ASTEROID_SPLIT_SPEED_DEN);
            asteroids.velocity.set(i, v.clamped(VELOCITY_LIMIT));
        }
    }
}

fn split_one(asteroids: &mut Asteroids, k: usize)
    requires
        old(asteroids).wf(),
        k < MAX_ASTEROIDS,
        asteroid_valid(old(asteroids)@.circle[k as int], old(asteroids)@.velocity[k as int]),
    ensures
        final(asteroids).wf(),
        final(asteroids)@ == split_asteroid(old(asteroids)@, k as int),
        forall|q: int|
            0 <= q < MAX_ASTEROIDS && q != k && #[trigger] old(asteroids)@.exists[q]
                ==> final(asteroids)@.exists[q]
                && final(asteroids)@.circle[q] == old(asteroids)@.circle[q]
                && final(asteroids)@.velocity[q] == old(asteroids)@.velocity[q],
{
    asteroids.exists.set(k, false);
    let c = asteroids.circle[k];
    let v = asteroids.velocity[k];
    let va = v.rotated_by(COS_PI_8, -SIN_PI_8).clamped(VELOCITY_LIMIT);
    let vb = v.rotated_by(COS_PI_8, SIN_PI_8).clamped(VELOCITY_LIMIT);
    let (size, r) = if c.radius == ASTEROID_RADIUS_LARGE {
        (AsteroidSize::MEDIUM, ASTEROID_RADIUS_MEDIUM)
    } else {
        (AsteroidSize::SMALL, ASTEROID_RADIUS_SMALL)
    };
    let na = va.with_length(FRAGMENT_NUDGE);
    let nb = vb.with_length(FRAGMENT_NUDGE);
    let ca = Circle { center: Point { x: c.center.x + na.x, y: c.center.y + na.y }, radius: r };
    let cb = Circle { center: Point { x: c.center.x + nb.x, y: c.center.y + nb.y }, radius: r };
    let (pa, pb) = displace_circles(&ca, &cb);
    let ghost m0 = asteroids@;
    proof {
        crate::game_objects::lemma_first_free(m0.exists);
    }
    let _ = asteroids.create(size, pa.clamped(FIELD_LIMIT), va);
    let ghost m1 = asteroids@;
    proof {
        crate::game_objects::lemma_first_free(m1.exists);
    }
    let _ = asteroids.create(size, pb.clamped(FIELD_LIMIT), vb);
}

/// Tests every bullet against every asteroid; a hit destroys the bullet and
/// damages the asteroid. Asteroids brought to zero hp are destroyed when
/// small, and otherwise split once the scan is over.
pub fn asteroid_bullet_collisions(asteroids: &mut Asteroids, bullets: &mut Bullets)
    requires
        old(asteroids).wf(),
        old(bullets).wf(),
    ensures
        final(asteroids).wf(),
        final(bullets).wf(),
        ({
            let hits = bullet_rows(
                HitState {
                    asteroids: old(asteroids)@,
                    bullets: old(bullets)@,
                    split: Seq::new(MAX_ASTEROIDS as nat, |_k: int| false),
                },
                MAX_ASTEROIDS as int,
            );
            &&& final(bullets)@ == hits.bullets
            &&& final(asteroids)@ == split_all(hits.asteroids, hits.split, MAX_ASTEROIDS as int)
        }),
{
    let mut split: Vec<bool> = filled(false, MAX_ASTEROIDS);
    let ghost start = HitState { asteroids: asteroids@, bullets: bullets@, split: split@ };
    let mut i: usize = 0;
    while i < MAX_ASTEROIDS
        invariant
            0 <= i <= MAX_ASTEROIDS,
            asteroids.wf(),
            bullets.wf(),
            split@.len() == MAX_ASTEROIDS,
            start == (HitState {
                asteroids: old(asteroids)@,
                bullets: old(bullets)@,
                split: Seq::new(MAX_ASTEROIDS as nat, |_k: int| false),
            }),
            bullet_rows(start, i as int) == (HitState {
                asteroids: asteroids@,
                bullets: bullets@,
                split: split@,
            }),
            forall|k: int| 0 <= k < MAX_ASTEROIDS && #[trigger] split@[k] ==> asteroids@.exists[k],
        decreases MAX_ASTEROIDS - i,
    {
        if asteroids.exists[i] {
            let ghost row_start = HitState { asteroids: asteroids@, bullets: bullets@, split: split@ };
            let mut j: usize = 0;
            while j < MAX_BULLETS
                invariant
                    0 <= i < MAX_ASTEROIDS,
                    0 <= j <= MAX_BULLETS,
                    asteroids.wf(),
                    bullets.wf(),
                    split@.len() == MAX_ASTEROIDS,
                    asteroid_valid(asteroids@.circle[i as int], asteroids@.velocity[i as int]),
                    bullet_row(row_start, i as int, j as int) == (HitState {
                        asteroids: asteroids@,
                        bullets: bullets@,
                        split: split@,
                    }),
                    forall|k: int|
                        0 <= k < MAX_ASTEROIDS && #[trigger] split@[k] ==> asteroids@.exists[k],
                decreases MAX_BULLETS - j,
            {
                hit_asteroid(asteroids, bullets, &mut split, i, j);
                j += 1;
            }
        }
        i += 1;
    }
    let ghost hits = HitState { asteroids: asteroids@, bullets: bullets@, split: split@ };
    let mut k: usize = 0;
    while k < MAX_ASTEROIDS
        invariant
            0 <= k <= MAX_ASTEROIDS,
            asteroids.wf(),
            bullets@ == hits.bullets,
            split@ == hits.split,
            split@.len() == MAX_ASTEROIDS,
            asteroids@ == split_all(hits.asteroids, hits.split, k as int),
            forall|q: int| k <= q < MAX_ASTEROIDS && #[trigger] split@[q] ==> asteroids@.exists[q],
        decreases MAX_ASTEROIDS - k,
    {
        if split[k] {
            split_one(asteroids, k);
        }
        k += 1;
    }
}

/// Most hp that one collision takes from a ship.
pub const SHIP_MAX_DAMAGE: i64 = 100;

/// An asteroid's mass, proportional to the cube of its radius in world
/// units; in the same units `SHIP_MASS` is a ship's.
pub open spec fn asteroid_mass(radius: i64) -> int {
    let r = radius / UNIT;
    2 * r * r * r
}

/// Pools while asteroids are tested against ships.
pub struct ShipHitState {
    pub asteroids: AsteroidsView,
    pub ships: ShipsView,
}

/// Velocity at the contact point `p` that ship spin `w` (microradians per
/// second) about the center `c` adds.
pub open spec fn spin_velocity(w: i64, p: Point, c: Point) -> (int, int) {
    (
        tdiv(w * (-(p.y - c.y)), MICROS_PER_SECOND as int),
        tdiv(w * (p.x - c.x), MICROS_PER_SECOND as int),
    )
}

/// The hp that a change of velocity `(dx, dy)` costs: its length in world
/// units, at most `SHIP_MAX_DAMAGE`.
pub open spec fn impact_damage(dx: int, dy: int) -> int {
    let m = sqrt_floor(norm_sq(dx, dy)) / (UNIT as int);
    if m > SHIP_MAX_DAMAGE { SHIP_MAX_DAMAGE as int } else { m }
}

/// The state after ship `j` was tested against asteroid `i`: on contact the
/// velocities are exchanged (the ship's spin adding to its velocity at the
/// contact point), the hull is pushed out of the asteroid, and the ship
/// loses hp by the change of its velocity; at zero hp it is destroyed.
pub open spec fn ship_hit(st: ShipHitState, i: int, j: int) -> ShipHitState {
    let m = st.asteroids;
    let s = st.ships;
    let t = s.triangle[j];
    let c = m.circle[i];
    if s.exists[j] && triangle_meets_circle(t, c) {
        let closest = point_of(triangle_closest(t, c));
        let spin = spin_velocity(s.angular_velocity[j], closest, point_of(circumcenter_of(t)));
        let vs = clamp_point(s.velocity[j].x + spin.0, s.velocity[j].y + spin.1, VELOCITY_LIMIT as int);
        let ma = asteroid_mass(c.radius);
        let e_num = SHIP_RESTITUTION_NUM as int;
        let e_den = SHIP_RESTITUTION_DEN as int;
        let va2 = collided_velocity(m.velocity[i], vs, ma, SHIP_MASS as int, e_num, e_den);
        let vs2 = collided_velocity(vs, m.velocity[i], SHIP_MASS as int, ma, e_num, e_den);
        let damage = impact_damage(vs2.x - s.velocity[j].x, vs2.y - s.velocity[j].y);
        let push = push_out(c, closest);
        let hp = damaged(s.hp[j], damage as i8);
        ShipHitState {
            asteroids: AsteroidsView { velocity: m.velocity.update(i, va2), ..m },
            ships: ShipsView {
                velocity: s.velocity.update(j, vs2),
                triangle: s.triangle.update(
                    j,
                    clamped_triangle(translated(t, push.0, push.1), FIELD_LIMIT as int),
                ),
                hp: s.hp.update(j, hp),
                exists: s.exists.update(j, hp > 0),
                ..s
            },
        }
    } else {
        st
    }
}

/// The state after ships `0..j` were tested against asteroid `i`.
pub open spec fn ship_row(st: ShipHitState, i: int, j: int) -> ShipHitState
    decreases j,
{
    if j <= 0 {
        st
    } else {
        ship_hit(ship_row(st, i, j - 1), i, j - 1)
    }
}

/// The state after every ship was tested against each asteroid `0..i` that
/// existed when its turn came.
pub open spec fn ship_rows(st: ShipHitState, i: int) -> ShipHitState
    decreases i,
{
    if i <= 0 {
        st
    } else {
        let before = ship_rows(st, i - 1);
        if before.asteroids.exists[i - 1] {
            ship_row(before, i - 1, MAX_SHIPS as int)
        } else {
            before
        }
    }
}

fn hit_ship(asteroids: &mut Asteroids, ships: &mut Ships, i: usize, j: usize)
    requires
        old(asteroids).wf(),
        old(ships).wf(),
        i < MAX_ASTEROIDS,
        j < MAX_SHIPS,
        old(asteroids)@.exists[i as int],
    ensures
        final(asteroids).wf(),
        final(ships).wf(),
        final(asteroids)@.exists == old(asteroids)@.exists,
        ship_hit(ShipHitState { asteroids: old(asteroids)@, ships: old(ships)@ }, i as int, j as int)
            == (ShipHitState { asteroids: final(asteroids)@, ships: final(ships)@ }),
{
    if !ships.exists[j] {
        return;
    }
    let t = ships.triangle[j];
    let c = asteroids.circle[i];
    assert(ship_valid(t, ships@.velocity[j as int], ships@.angular_velocity[j as int]));
    assert(asteroid_valid(c, asteroids@.velocity[i as int]));
    let (collision, closest) = triangle_circle_intersect(&t, &c);
    if !collision {
        return;
    }
    let center = t.circumcenter();
    let w = ships.angular_velocity[j];
    let ox = -(closest.y - center.y);
    let oy = closest.x - center.x;
    assert(-0x80_0000 * 0x2000_0000 <= w * ox <= 0x80_0000 * 0x2000_0000 && -0x80_0000
        * 0x2000_0000 <= w * oy <= 0x80_0000 * 0x2000_0000) by (nonlinear_arith)
        requires -0x80_0000 <= w <= 0x80_0000, -0x2000_0000 <= ox <= 0x2000_0000, -0x2000_0000
            <= oy <= 0x2000_0000;
    let sx = div_trunc(w * ox, MICROS_PER_SECOND);
    let sy = div_trunc(w * oy, MICROS_PER_SECOND);
    proof {
        lemma_tdiv_bound(w * ox, MICROS_PER_SECOND as int, 0x80_0000int * 0x2000_0000int);
        lemma_tdiv_bound(w * oy, MICROS_PER_SECOND as int, 0x80_0000int * 0x2000_0000int);
    }
    let v = ships.velocity[j];
    let vs = Point { x: v.x + sx, y: v.y + sy }.clamped(VELOCITY_LIMIT);
    let rw = c.radius / UNIT;
    assert(rw == 2 || rw == 4 || rw == 6);
    assert(2 <= 2 * rw * rw * rw <= 432) by (nonlinear_arith)
        requires rw == 2 || rw == 4 || rw == 6;
    let ma = 2 * rw * rw * rw;
    let (va2, vs2) = calculate_collision_velocities(
        asteroids.velocity[i],
        vs,
        ma,
        SHIP_MASS,
        SHIP_RESTITUTION_NUM,
        SHIP_RESTITUTION_DEN,
    );
    let va2 = va2.clamped(VELOCITY_LIMIT);
    let vs2 = vs2.clamped(VELOCITY_LIMIT);
    let delta = Point { x: vs2.x - v.x, y: vs2.y - v.y };
    let m = delta.magnitude() / UNIT;
    let damage: i8 = if m > SHIP_MAX_DAMAGE { SHIP_MAX_DAMAGE as i8 } else { m as i8 };
    let moved_closest = displace_point_from_circle(&c, closest);
    let px = moved_closest.x - closest.x;
    let py = moved_closest.y - closest.y;
    let moved = Triangle {
        v1: Point { x: t.v1.x + px, y: t.v1.y + py },
        v2: Point { x: t.v2.x + px, y: t.v2.y + py },
        v3: Point { x: t.v3.x + px, y: t.v3.y + py },
    }.clamped(FIELD_LIMIT);
    let old_hp = ships.hp[j];
    let hp: i8 = if old_hp >= i8::MIN + damage { old_hp - damage } else { i8::MIN };
    asteroids.velocity.set(i, va2);
    ships.velocity.set(j, vs2);
    ships.triangle.set(j, moved);
    ships.hp.set(j, hp);
    ships.exists.set(j, hp > 0);
}

/// Tests every ship against every asteroid and resolves each contact.
pub fn asteroid_ship_collisions(asteroids: &mut Asteroids, ships: &mut Ships)
    requires
        old(asteroids).wf(),
        old(ships).wf(),
    ensures
        final(asteroids).wf(),
        final(ships).wf(),
        (ShipHitState { asteroids: final(asteroids)@, ships: final(ships)@ }) == ship_rows(
            ShipHitState { asteroids: old(asteroids)@, ships: old(ships)@ },
            MAX_ASTEROIDS as int,
        ),
{
    let ghost start = ShipHitState { asteroids: asteroids@, ships: ships@ };
    let mut i: usize = 0;
    while i < MAX_ASTEROIDS
        invariant
            0 <= i <= MAX_ASTEROIDS,
            asteroids.wf(),
            ships.wf(),
            start == (ShipHitState { asteroids: old(asteroids)@, ships: old(ships)@ }),
            ship_rows(start, i as int) == (ShipHitState { asteroids: asteroids@, ships: ships@ }),
        decreases MAX_ASTEROIDS - i,
    {
        if asteroids.exists[i] {
            let ghost row_start = ShipHitState { asteroids: asteroids@, ships: ships@ };
            let mut j: usize = 0;
            while j < MAX_SHIPS
                invariant
                    0 <= i < MAX_ASTEROIDS,
                    0 <= j <= MAX_SHIPS,
                    asteroids.wf(),
                    ships.wf(),
                    asteroids@.exists[i as int],
                    ship_row(row_start, i as int, j as int) == (ShipHitState {
                        asteroids: asteroids@,
                        ships: ships@,
                    }),
                decreases MAX_SHIPS - j,
            {
                hit_ship(asteroids, ships, i, j);
                j += 1;
            }
        }
        i += 1;
    }
}

} // verus!
