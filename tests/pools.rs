use rusteroids::game_objects::{
    AsteroidSize, Asteroids, Bullets, CapacityError, InvalidRadius, Player, RotationDirection,
    Ships, UpgradeLevel, ASTEROID_HEALTH_LARGE, ASTEROID_MIN_SPEED, ASTEROID_RADIUS_LARGE,
    ASTEROID_RADIUS_MEDIUM, MAX_ASTEROIDS, MAX_BULLETS, MAX_SHIPS,
    SHIP_ANGULAR_ACCELERATION_LEVEL1,
};
use rusteroids::shapes::{Circle, Point};

fn p(x: i64, y: i64) -> Point {
    Point { x, y }
}

fn bounds() -> Point {
    p(133_000, 100_000)
}

fn count(flags: &[bool]) -> usize {
    flags.iter().filter(|e| **e).count()
}

#[test]
fn from_radius_matches_canonical_radii() {
    assert_eq!(AsteroidSize::from_radius(2000), Ok(AsteroidSize::SMALL));
    assert_eq!(AsteroidSize::from_radius(4000), Ok(AsteroidSize::MEDIUM));
    assert_eq!(AsteroidSize::from_radius(6000), Ok(AsteroidSize::LARGE));
    assert_eq!(AsteroidSize::from_radius(5000), Err(InvalidRadius { radius: 5000 }));
}

#[test]
fn to_index_values() {
    assert_eq!(Player::PLAYER1.to_index(), 0);
    assert_eq!(Player::PLAYER4.to_index(), 3);
    assert_eq!(RotationDirection::COUNTERCLOCKWISE.to_index(), 0);
    assert_eq!(RotationDirection::CLOCKWISE.to_index(), 1);
}

#[test]
fn asteroid_create_takes_lowest_free_slot() {
    let mut a = Asteroids::new();
    assert!(a.none_exist());
    assert_eq!(a.create(AsteroidSize::LARGE, p(10, 20), p(1, 2)), Ok(0));
    assert_eq!(a.create(AsteroidSize::SMALL, p(30, 40), p(3, 4)), Ok(1));
    a.exists[0] = false;
    assert_eq!(a.create(AsteroidSize::MEDIUM, p(50, 60), p(5, 6)), Ok(0));
    assert_eq!(a.circle[0], Circle { center: p(50, 60), radius: ASTEROID_RADIUS_MEDIUM });
    assert_eq!(a.hp[0], 50);
    assert_eq!(a.velocity[0], p(5, 6));
    assert!(!a.none_exist());
    a.clear();
    assert!(a.none_exist());
}

#[test]
fn asteroid_create_on_full_pool_fails_and_changes_nothing() {
    let mut a = Asteroids::new();
    for k in 0..MAX_ASTEROIDS {
        assert_eq!(a.create(AsteroidSize::SMALL, p(k as i64, 0), p(0, 0)), Ok(k));
    }
    let exists = a.exists.clone();
    let hp = a.hp.clone();
    let circle = a.circle.clone();
    let velocity = a.velocity.clone();
    assert_eq!(a.create(AsteroidSize::LARGE, p(9, 9), p(9, 9)), Err(CapacityError));
    assert_eq!(a.exists, exists);
    assert_eq!(a.hp, hp);
    assert_eq!(a.circle, circle);
    assert_eq!(a.velocity, velocity);
}

#[test]
fn asteroid_at_border_from_drawn_values() {
    let mut a = Asteroids::new();
    let i = a.create_at_border_with(bounds(), 0, 500_000, 250_000, 0, 0).unwrap();
    assert_eq!(a.circle[i].center, p(-ASTEROID_RADIUS_LARGE, 25_000));
    assert_eq!(a.velocity[i], p(ASTEROID_MIN_SPEED, 0));
    let j = a.create_at_border_with(bounds(), 3, 500_000, 250_000, 500_000, 0).unwrap();
    assert_eq!(a.circle[j].center, p(66_500, 106_000));
    assert_eq!(a.velocity[j], p(15_000, 0));
}

#[test]
fn asteroid_at_random_border_is_large() {
    let mut a = Asteroids::new();
    let i = a.create_at_border(bounds()).unwrap();
    assert_eq!(a.circle[i].radius, ASTEROID_RADIUS_LARGE);
    assert_eq!(a.hp[i], ASTEROID_HEALTH_LARGE);
    let c = a.circle[i].center;
    assert!(c.x == -6000 || c.y == -6000 || c.x == 139_000 || c.y == 106_000);
    let v = a.velocity[i].magnitude();
    assert!(v >= ASTEROID_MIN_SPEED - 2 && v <= a.max_speed + 2);
}

#[test]
fn asteroid_update_positions_wraps() {
    let mut a = Asteroids::new();
    a.create(AsteroidSize::SMALL, p(132_000, 50_000), p(10_000, 0)).unwrap();
    a.update_positions(bounds(), 400_000);
    assert_eq!(a.circle[0].center, p(-2000, 50_000));
    a.update_positions(bounds(), 100_000);
    assert_eq!(a.circle[0].center, p(-1000, 50_000));
}

#[test]
fn bullet_create_and_leave_playfield() {
    let mut b = Bullets::new();
    assert_eq!(b.create(p(1000, 1000), p(0, -5)), Ok(0));
    assert_eq!(b.line_segment[0].p1, p(1000, 250));
    assert_eq!(b.line_segment[0].p2, p(1000, 1000));
    assert_eq!(b.velocity[0], p(0, -200_000));
    b.update_positions(bounds(), 4000);
    assert!(b.exists[0]);
    assert_eq!(b.line_segment[0].p2, p(1000, 200));
    b.update_positions(bounds(), 2000);
    assert!(!b.exists[0]);
    b.clear();
    assert_eq!(count(&b.exists), 0);
}

#[test]
fn bullet_pool_full() {
    let mut b = Bullets::new();
    for k in 0..MAX_BULLETS {
        assert_eq!(b.create(p(1000, 1000), p(1, 0)), Ok(k));
    }
    let segments = b.line_segment.clone();
    assert_eq!(b.create(p(5, 5), p(0, 1)), Err(CapacityError));
    assert_eq!(b.line_segment, segments);
    assert_eq!(count(&b.exists), MAX_BULLETS);
}

#[test]
fn ship_create_places_circumcenter() {
    let mut s = Ships::new();
    assert!(s.none_exist());
    assert_eq!(s.create(p(50_000, 50_000), 0), Ok(0));
    assert_eq!(s.triangle[0].circumcenter(), p(50_000, 50_000));
    assert_eq!(s.triangle[0].v1, p(50_000, 47_100));
    assert_eq!(s.triangle[0].direction(), p(0, -1_000_000));
    assert_eq!(s.hp[0], 100);
    assert_eq!(s.create(p(1000, 1000), 0), Ok(1));
    assert_eq!(s.create(p(1000, 1000), 0), Err(CapacityError));
    assert_eq!(count(&s.exists), MAX_SHIPS);
}

#[test]
fn ship_thrust_then_drag_stops_without_reversing() {
    let mut s = Ships::new();
    s.create(p(50_000, 50_000), 0).unwrap();
    s.accelerator_pressed(Player::PLAYER1);
    assert_eq!(s.acceleration[0], 15_000);
    s.update_positions(bounds(), 100_000);
    assert_eq!(s.velocity[0], p(0, -1500));
    assert_eq!(s.triangle[0].v1, p(50_000, 46_950));
    s.accelerator_released(Player::PLAYER1);
    s.update_positions(bounds(), 200_000);
    assert_eq!(s.velocity[0], p(0, -1000));
    s.update_positions(bounds(), 1_000_000);
    assert_eq!(s.velocity[0], p(0, 0));
}

#[test]
fn ship_speed_is_clamped() {
    let mut s = Ships::new();
    s.create(p(50_000, 50_000), 0).unwrap();
    s.back_thruster_level[0] = UpgradeLevel::LEVEL3;
    s.accelerator_pressed(Player::PLAYER1);
    for _ in 0..4 {
        s.update_positions(bounds(), 1_000_000);
    }
    assert_eq!(s.velocity[0], p(0, -100_000));
}

#[test]
fn side_thrusters_cancel_and_spin_decays_to_zero() {
    let mut s = Ships::new();
    s.create(p(50_000, 50_000), 0).unwrap();
    s.side_thruster_pressed(Player::PLAYER1, RotationDirection::CLOCKWISE);
    assert_eq!(s.angular_acceleration[0], SHIP_ANGULAR_ACCELERATION_LEVEL1);
    s.side_thruster_pressed(Player::PLAYER1, RotationDirection::CLOCKWISE);
    assert_eq!(s.angular_acceleration[0], SHIP_ANGULAR_ACCELERATION_LEVEL1);
    s.side_thruster_pressed(Player::PLAYER1, RotationDirection::COUNTERCLOCKWISE);
    assert_eq!(s.angular_acceleration[0], 0);
    s.side_thruster_released(Player::PLAYER1, RotationDirection::COUNTERCLOCKWISE);
    s.update_positions(bounds(), 100_000);
    assert_eq!(s.angular_velocity[0], 2_513_274);
    s.side_thruster_released(Player::PLAYER1, RotationDirection::CLOCKWISE);
    assert_eq!(s.angular_acceleration[0], 0);
    s.update_positions(bounds(), 50_000);
    assert_eq!(s.angular_velocity[0], 1_256_637);
    s.update_positions(bounds(), 100_000);
    assert_eq!(s.angular_velocity[0], 0);
}

#[test]
fn spin_is_clamped() {
    let mut s = Ships::new();
    s.create(p(50_000, 50_000), 0).unwrap();
    s.side_thruster_pressed(Player::PLAYER1, RotationDirection::COUNTERCLOCKWISE);
    s.update_positions(bounds(), 1_000_000);
    assert_eq!(s.angular_velocity[0], -4_712_389);
}

#[test]
fn trigger_is_edge_triggered() {
    let mut s = Ships::new();
    s.create(p(50_000, 50_000), 0).unwrap();
    s.gun_trigger_pressed(Player::PLAYER1);
    assert!(s.gun_trigger_pressed[0]);
    assert!(!s.gun_trigger_released[0]);
    s.gun_trigger_released(Player::PLAYER1);
    assert!(!s.gun_trigger_pressed[0]);
    assert!(s.gun_trigger_released[0]);
}

#[test]
fn gun_does_not_fire_twice_within_interval() {
    let mut s = Ships::new();
    let mut b = Bullets::new();
    s.create(p(50_000, 50_000), 0).unwrap();
    s.gun_trigger_pressed(Player::PLAYER1);
    s.update_shooting(&mut b, 100_000);
    assert_eq!(count(&b.exists), 0);
    s.update_shooting(&mut b, 400_000);
    assert_eq!(count(&b.exists), 1);
    assert_eq!(b.line_segment[0].p2, p(50_000, 47_100));
    assert_eq!(b.velocity[0], p(0, -200_000));
    assert!(!s.gun_trigger_pressed[0]);
    s.gun_trigger_released(Player::PLAYER1);
    s.gun_trigger_pressed(Player::PLAYER1);
    s.update_shooting(&mut b, 500_000);
    assert_eq!(count(&b.exists), 1);
    s.update_shooting(&mut b, 800_000);
    assert_eq!(count(&b.exists), 2);
}

#[test]
fn held_trigger_without_release_fires_once() {
    let mut s = Ships::new();
    let mut b = Bullets::new();
    s.create(p(50_000, 50_000), 0).unwrap();
    s.gun_trigger_pressed(Player::PLAYER1);
    s.gun_trigger_pressed(Player::PLAYER1);
    s.update_shooting(&mut b, 400_000);
    s.gun_trigger_pressed(Player::PLAYER1);
    s.update_shooting(&mut b, 1_000_000);
    assert_eq!(count(&b.exists), 1);
}

#[test]
fn automatic_gun_fires_once_per_interval() {
    let mut s = Ships::new();
    let mut b = Bullets::new();
    s.create(p(50_000, 50_000), 0).unwrap();
    s.gun_auto[0] = true;
    s.gun_level[0] = UpgradeLevel::LEVEL3;
    s.gun_trigger_pressed(Player::PLAYER1);
    let mut t: u64 = 0;
    while t <= 1_000_000 {
        s.update_shooting(&mut b, t);
        t += 50_000;
    }
    assert_eq!(count(&b.exists), 5);
}
