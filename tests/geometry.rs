use rusteroids::fixed::{isqrt, rotation_of, ONE};
use rusteroids::intersect::{
    circles_intersect, closest_point_on_line_segment_to_other_point, line_segment_circle_intersect,
    point_in_circle, point_in_triangle, triangle_circle_intersect,
};
use rusteroids::shapes::{Circle, Line, Point, Triangle};

fn p(x: i64, y: i64) -> Point {
    Point { x, y }
}

fn circle(x: i64, y: i64, radius: i64) -> Circle {
    Circle { center: p(x, y), radius }
}

#[test]
fn isqrt_rounds_down() {
    assert_eq!(isqrt(0), 0);
    assert_eq!(isqrt(15), 3);
    assert_eq!(isqrt(16), 4);
    assert_eq!(isqrt(1 << 60), 1 << 30);
}

#[test]
fn rotation_of_zero_and_quarter_turn() {
    assert_eq!(rotation_of(0), (ONE, 0));
    let (c, s) = rotation_of(1_570_796);
    assert!(c.abs() <= 200);
    assert!((s - ONE).abs() <= 200);
    let (c, s) = rotation_of(-3_141_593);
    assert!((c + ONE).abs() <= 200);
    assert!(s.abs() <= 200);
}

#[test]
fn point_arithmetic() {
    assert_eq!(p(3, 4).add(p(1, -2)), p(4, 2));
    assert_eq!(p(3, 4).sub(p(1, -2)), p(2, 6));
    assert_eq!(p(3, 4).neg(), p(-3, -4));
    assert_eq!(p(3, -4).mul(3), p(9, -12));
    assert_eq!(p(7, -7).div(2), p(3, -3));
    assert_eq!(p(3, 4).perpendicular(), p(-4, 3));
    assert_eq!(p(3, 4).magnitude_squared(), 25);
    assert_eq!(p(3, 4).magnitude(), 5);
    assert_eq!(p(3, 4).normalized(), p(600_000, 800_000));
    assert_eq!(p(0, 0).normalized(), p(0, 0));
    assert_eq!(p(3, 4).with_length(10), p(6, 8));
}

#[test]
fn from_polar_and_rotated() {
    assert_eq!(Point::from_polar(1000, 0), p(1000, 0));
    let q = Point::from_polar(1000, 1_570_796);
    assert!(q.x.abs() <= 1 && (q.y - 1000).abs() <= 1);
    let r = p(1000, 0).rotated(1_570_796);
    assert!(r.x.abs() <= 1 && (r.y - 1000).abs() <= 1);
}

#[test]
fn update_position_scales_by_time() {
    let mut q = p(1000, 2000);
    q.update_position(p(10_000, -5_000), 500_000);
    assert_eq!(q, p(6000, -500));
}

#[test]
fn wraparound_past_right_edge_reenters_at_minus_margin() {
    let mut q = p(100_000, 50_000);
    q.update_position_wraparound(p(1_000_000, 0), p(100_000, 80_000), 6000, 6001);
    assert_eq!(q, p(-6000, 50_000));
}

#[test]
fn wraparound_exactly_at_edge_stays() {
    let mut q = p(100_000, 50_000);
    q.update_position_wraparound(p(1_000_000, 0), p(100_000, 80_000), 6000, 6000);
    assert_eq!(q, p(106_000, 50_000));
}

#[test]
fn wraparound_on_all_edges() {
    let bounds = p(100_000, 80_000);
    let mut left = p(0, 40_000);
    left.update_position_wraparound(p(-1_000_000, 0), bounds, 6000, 6001);
    assert_eq!(left, p(106_000, 40_000));
    let mut top = p(50_000, 0);
    top.update_position_wraparound(p(0, -1_000_000), bounds, 6000, 6001);
    assert_eq!(top, p(50_000, 86_000));
    let mut bottom = p(50_000, 80_000);
    bottom.update_position_wraparound(p(0, 1_000_000), bounds, 6000, 6001);
    assert_eq!(bottom, p(50_000, -6000));
}

#[test]
fn circle_and_line_updates() {
    let mut c = circle(0, 0, 2000);
    c.update_position(p(1_000_000, 0), 1000);
    assert_eq!(c, circle(1000, 0, 2000));
    let mut c = circle(100_000, 0, 2000);
    c.update_position_wraparound(p(1_000_000, 0), p(100_000, 100_000), 2000, 3000);
    assert_eq!(c.center, p(-2000, 0));
    let mut l = Line { p1: p(0, 0), p2: p(10, 10) };
    l.update_position(p(0, 1_000_000), 1000);
    assert_eq!(l, Line { p1: p(0, 1000), p2: p(10, 1010) });
}

#[test]
fn triangle_centers() {
    let t = Triangle { v1: p(0, 0), v2: p(4000, 0), v3: p(0, 3000) };
    assert_eq!(t.circumcenter(), p(2000, 1500));
    assert_eq!(t.circumradius(), 2500);
    assert_eq!(t.circumcircle(), circle(2000, 1500, 2500));
    assert_eq!(t.centroid(), p(1333, 1000));
    assert_eq!(t.shortest_vertex_to_circumcenter_distance(), 2500);
    let flat = Triangle { v1: p(0, 0), v2: p(3000, 0), v3: p(6000, 0) };
    assert_eq!(flat.circumcenter(), p(3000, 0));
}

#[test]
fn triangle_direction_and_motion() {
    let t = Triangle { v1: p(2000, -5000), v2: p(4000, 0), v3: p(0, 0) };
    assert_eq!(t.direction(), p(0, -ONE));
    let mut moved = t;
    moved.update_position(p(1_000_000, 0), 1000);
    assert_eq!(moved.v1, p(3000, -5000));
    let mut moved = t;
    moved.translate(p(5, 6));
    assert_eq!(moved.v3, p(5, 6));
    let mut turned = t;
    turned.rotate_around_circumcenter(0, 1000);
    assert_eq!(turned, t);
}

#[test]
fn triangle_wraparound_moves_hull_rigidly() {
    let mut t = Triangle { v1: p(102_000, -2900), v2: p(104_000, 2100), v3: p(100_000, 2100) };
    t.update_position_wraparound(p(1_000_000, 0), p(100_000, 100_000), 3000, 4000);
    assert_eq!(t.v1, p(-3000, -2900));
    assert_eq!(t.v2, p(-1000, 2100));
    assert_eq!(t.v3, p(-5000, 2100));
}

#[test]
fn circles_intersect_touching_and_apart() {
    assert!(circles_intersect(circle(0, 0, 2000), circle(4000, 0, 2000)));
    assert!(!circles_intersect(circle(0, 0, 2000), circle(4001, 0, 2000)));
    assert!(circles_intersect(circle(0, 0, 2000), circle(3000, 4000, 3000)));
    assert!(!circles_intersect(circle(0, 0, 2000), circle(3000, 4001, 3000)));
}

#[test]
fn segment_circle_tangent_and_miss() {
    let s = Line { p1: p(0, 0), p2: p(10_000, 0) };
    let (hit, closest) = line_segment_circle_intersect(&s, &circle(5000, 3000, 3000));
    assert!(hit);
    assert_eq!(closest, p(5000, 0));
    let (hit, _) = line_segment_circle_intersect(&s, &circle(5000, 3000, 2999));
    assert!(!hit);
}

#[test]
fn segment_circle_beyond_endpoints() {
    let s = Line { p1: p(0, 0), p2: p(10_000, 0) };
    let (hit, closest) = line_segment_circle_intersect(&s, &circle(-3000, 0, 3000));
    assert!(hit);
    assert_eq!(closest, p(0, 0));
    let (hit, closest) = line_segment_circle_intersect(&s, &circle(13_000, 4000, 4999));
    assert!(!hit);
    assert_eq!(closest, p(10_000, 0));
    let (hit, _) = line_segment_circle_intersect(&s, &circle(13_000, 4000, 5000));
    assert!(hit);
}

#[test]
fn closest_point_is_clamped_to_segment() {
    let s = Line { p1: p(0, 0), p2: p(1000, 1000) };
    assert_eq!(closest_point_on_line_segment_to_other_point(&s, p(1000, 0)), p(500, 500));
    assert_eq!(closest_point_on_line_segment_to_other_point(&s, p(-50, -70)), p(0, 0));
    assert_eq!(closest_point_on_line_segment_to_other_point(&s, p(3000, 2000)), p(1000, 1000));
    let point = Line { p1: p(7, 7), p2: p(7, 7) };
    assert_eq!(closest_point_on_line_segment_to_other_point(&point, p(100, 0)), p(7, 7));
}

#[test]
fn point_in_circle_boundary() {
    assert!(point_in_circle(p(3, 4), &circle(0, 0, 5)));
    assert!(!point_in_circle(p(3, 5), &circle(0, 0, 5)));
}

#[test]
fn point_in_triangle_is_strict() {
    let t = Triangle { v1: p(0, 0), v2: p(10_000, 0), v3: p(0, 10_000) };
    assert!(point_in_triangle(&t, p(1000, 1000)));
    assert!(!point_in_triangle(&t, p(5000, 0)));
    assert!(!point_in_triangle(&t, p(6000, 6000)));
    let reversed = Triangle { v1: p(0, 0), v2: p(0, 10_000), v3: p(10_000, 0) };
    assert!(point_in_triangle(&reversed, p(1000, 1000)));
}

#[test]
fn triangle_circle_enclosed_circle_counts() {
    let t = Triangle { v1: p(0, 0), v2: p(100_000, 0), v3: p(0, 100_000) };
    let (hit, closest) = triangle_circle_intersect(&t, &circle(20_000, 20_000, 1000));
    assert!(hit);
    assert_eq!(closest, p(20_000, 0));
    let (hit, _) = triangle_circle_intersect(&t, &circle(200_000, 200_000, 1000));
    assert!(!hit);
}

#[test]
fn triangle_circle_edge_contact_and_tie() {
    let t = Triangle { v1: p(0, 0), v2: p(10_000, 0), v3: p(0, 10_000) };
    let (hit, closest) = triangle_circle_intersect(&t, &circle(5000, -2000, 2000));
    assert!(hit);
    assert_eq!(closest, p(5000, 0));
    let (hit, closest) = triangle_circle_intersect(&t, &circle(-1000, -1000, 1000));
    assert!(!hit);
    assert_eq!(closest, p(0, 0));
}
