use rusteroids::game_objects::{
    AsteroidSize, Asteroids, Bullets, Ships, ASTEROID_RADIUS_MEDIUM, ASTEROID_RADIUS_SMALL,
};
use rusteroids::physics::{
    asteroid_asteroid_collisions, asteroid_bullet_collisions, asteroid_ship_collisions,
    calculate_collision_velocities, displace_circles, displace_point_from_circle,
};
use rusteroids::shapes::{Circle, Point};

fn p(x: i64, y: i64) -> Point {
    Point { x, y }
}

fn bounds() -> Point {
    p(133_000, 100_000)
}

fn count(flags: &[bool]) -> usize {
    flags.iter().filter(|e| **e).count()
}

#[test]
fn perfectly_elastic_equal_masses_swap() {
    let (a, b) = calculate_collision_velocities(p(1234, -77), p(-500, 9000), 3, 3, 1, 1);
    assert_eq!(a, p(-500, 9000));
    assert_eq!(b, p(1234, -77));
}

#[test]
fn perfectly_elastic_conserves_momentum() {
    let (a, b) = calculate_collision_velocities(p(400, 0), p(0, 0), 1, 3, 1, 1);
    assert_eq!(a, p(-200, 0));
    assert_eq!(b, p(200, 0));
    assert_eq!(1 * a.x + 3 * b.x, 400);
}

#[test]
fn partially_elastic_collision() {
    let (a, b) = calculate_collision_velocities(p(1000, 0), p(-1000, 0), 1, 1, 3, 4);
    assert_eq!(a, p(-750, 0));
    assert_eq!(b, p(750, 0));
}

#[test]
fn displace_circles_pushes_half_overlap_each() {
    let c1 = Circle { center: p(0, 0), radius: 2000 };
    let c2 = Circle { center: p(3000, 0), radius: 2000 };
    assert_eq!(displace_circles(&c1, &c2), (p(-500, 0), p(3500, 0)));
    let same = Circle { center: p(7, 7), radius: 2000 };
    assert_eq!(displace_circles(&same, &same), (p(7, 7), p(7, 7)));
}

#[test]
fn displace_point_onto_circle() {
    let c = Circle { center: p(0, 0), radius: 5000 };
    assert_eq!(displace_point_from_circle(&c, p(0, 3000)), p(0, 5000));
    assert_eq!(displace_point_from_circle(&c, p(0, 0)), p(0, 0));
}

#[test]
fn asteroids_bounce_apart() {
    let mut a = Asteroids::new();
    a.create(AsteroidSize::SMALL, p(10_000, 10_000), p(1000, 0)).unwrap();
    a.create(AsteroidSize::SMALL, p(13_000, 10_000), p(-1000, 0)).unwrap();
    a.create(AsteroidSize::SMALL, p(50_000, 50_000), p(5, 5)).unwrap();
    asteroid_asteroid_collisions(&mut a);
    assert_eq!(a.velocity[0], p(-750, 0));
    assert_eq!(a.velocity[1], p(750, 0));
    assert_eq!(a.circle[0].center, p(9500, 10_000));
    assert_eq!(a.circle[1].center, p(13_500, 10_000));
    assert_eq!(a.velocity[2], p(5, 5));
    assert_eq!(a.circle[2].center, p(50_000, 50_000));
}

fn one_tick_against(size: AsteroidSize, bullet_y: i64) -> (Asteroids, Bullets) {
    let mut a = Asteroids::new();
    a.create(size, p(50_000, 50_000), p(10_000, 0)).unwrap();
    a.hp[0] = 25;
    let mut b = Bullets::new();
    b.create(p(50_000, bullet_y), p(0, 1)).unwrap();
    b.update_positions(bounds(), 16_000);
    asteroid_bullet_collisions(&mut a, &mut b);
    (a, b)
}

#[test]
fn lethal_hit_destroys_small_asteroid() {
    let (a, b) = one_tick_against(AsteroidSize::SMALL, 46_000);
    assert_eq!(count(&b.exists), 0);
    assert_eq!(count(&a.exists), 0);
}

#[test]
fn lethal_hit_splits_medium_asteroid() {
    let (a, b) = one_tick_against(AsteroidSize::MEDIUM, 44_000);
    assert_eq!(count(&b.exists), 0);
    assert_eq!(count(&a.exists), 2);
    assert_eq!(a.circle[0].radius, ASTEROID_RADIUS_SMALL);
    assert_eq!(a.circle[1].radius, ASTEROID_RADIUS_SMALL);
}

#[test]
fn lethal_hit_splits_large_asteroid() {
    let (a, b) = one_tick_against(AsteroidSize::LARGE, 42_000);
    assert_eq!(count(&b.exists), 0);
    assert_eq!(count(&a.exists), 2);
    assert_eq!(a.circle[0].radius, ASTEROID_RADIUS_MEDIUM);
    assert_eq!(a.circle[1].radius, ASTEROID_RADIUS_MEDIUM);
    assert_eq!(a.hp[0], 50);
    assert_eq!(a.velocity[0], p(11_548, -4783));
    assert_eq!(a.velocity[1], p(11_548, 4783));
    let d = a.circle[1].center.sub(a.circle[0].center);
    assert!(d.x == 0 && d.y >= 7998);
}

#[test]
fn bullet_that_misses_survives() {
    let (a, b) = one_tick_against(AsteroidSize::LARGE, 30_000);
    assert_eq!(count(&b.exists), 1);
    assert_eq!(a.hp[0], 25);
    assert_eq!(count(&a.exists), 1);
}

#[test]
fn non_lethal_hit_only_damages() {
    let mut a = Asteroids::new();
    a.create(AsteroidSize::LARGE, p(50_000, 50_000), p(0, 0)).unwrap();
    let mut b = Bullets::new();
    b.create(p(50_000, 50_000), p(0, 1)).unwrap();
    asteroid_bullet_collisions(&mut a, &mut b);
    assert_eq!(a.hp[0], 50);
    assert!(a.exists[0]);
    assert!(!b.exists[0]);
}

#[test]
fn asteroid_hits_ship() {
    let mut a = Asteroids::new();
    let mut s = Ships::new();
    s.create(p(50_000, 50_000), 0).unwrap();
    a.create(AsteroidSize::LARGE, p(50_000, 57_000), p(0, -20_000)).unwrap();
    asteroid_ship_collisions(&mut a, &mut s);
    assert_eq!(a.velocity[0], p(0, -19_930));
    assert_eq!(s.velocity[0], p(0, -29_930));
    assert_eq!(s.hp[0], 71);
    assert!(s.exists[0]);
    assert_eq!(s.triangle[0].v1, p(50_000, 46_000));
}

#[test]
fn heavy_hits_destroy_ship() {
    let mut a = Asteroids::new();
    let mut s = Ships::new();
    s.create(p(50_000, 50_000), 0).unwrap();
    s.hp[0] = 20;
    a.create(AsteroidSize::LARGE, p(50_000, 57_000), p(0, -20_000)).unwrap();
    asteroid_ship_collisions(&mut a, &mut s);
    assert!(!s.exists[0]);
}
