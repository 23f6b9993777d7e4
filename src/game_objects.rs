//! Fixed-capacity pools of asteroids, bullets and ships.
use vstd::prelude::*;

use rand::Rng;

use crate::fixed::{tdiv, unit_rotation, ONE};
use crate::fixed::{div_trunc, sqrt_floor};
use crate::shapes::{
    clamp_i64, clamp_int, clamped_triangle, direction_of, circumradius_of, norm_sq,
    rotated_triangle, triangle_within, wrapped_triangle, Triangle, BOUNDS_LIMIT, MARGIN_LIMIT,
    MICROS_PER_SECOND, scaled_to, travel, lemma_tdiv_bound, valid_bounds, within, wrap, Circle, Line, Point, DIFF_LIMIT, MAX_DT, UNIT,
    VELOCITY_LIMIT,
};

verus! {

/// Bound on the coordinates of every entity stored in a pool.
pub const FIELD_LIMIT: i64 = 0x800_0000;

/// A full turn, in microradians (rounded down).
pub const FULL_TURN: i64 = 6_283_185;

/// The pool has no free slot.
#[derive(Debug, Clone, Copy, PartialEq, Eq, Structural)]
pub struct CapacityError;

/// A radius that is none of the canonical asteroid radii.
#[derive(Debug, Clone, Copy, PartialEq, Eq, Structural)]
pub struct InvalidRadius {
    pub radius: i64,
}

// -----------------------------------------------------------------------------
// Slot allocation
// -----------------------------------------------------------------------------

/// The lowest index at or after `k` whose flag is false; `s.len()` if none.
pub open spec fn first_free_from(s: Seq<bool>, k: int) -> int
    decreases s.len() - k,
{
    if k < 0 || k >= s.len() {
        s.len() as int
    } else if !s[k] {
        k
    } else {
        first_free_from(s, k + 1)
    }
}

/// The lowest free slot; `s.len()` when every slot is taken.
pub open spec fn first_free(s: Seq<bool>) -> int {
    first_free_from(s, 0)
}

pub open spec fn all_taken(s: Seq<bool>) -> bool {
    forall|j: int| 0 <= j < s.len() ==> s[j]
}

pub open spec fn none_taken(s: Seq<bool>) -> bool {
    forall|j: int| 0 <= j < s.len() ==> !s[j]
}

proof fn lemma_first_free_from(s: Seq<bool>, k: int)
    requires
        0 <= k <= s.len(),
        forall|j: int| 0 <= j < k ==> s[j],
    ensures
        0 <= first_free_from(s, k) <= s.len(),
        first_free_from(s, k) < s.len() ==> !s[first_free_from(s, k)],
        forall|j: int| 0 <= j < first_free_from(s, k) ==> s[j],
    decreases s.len() - k,
{
    if k < s.len() && s[k] {
        lemma_first_free_from(s, k + 1);
    }
}

/// What `first_free` is: the lowest free slot, or the length when all are taken.
pub proof fn lemma_first_free(s: Seq<bool>)
    ensures
        0 <= first_free(s) <= s.len(),
        first_free(s) < s.len() ==> !s[first_free(s)],
        forall|j: int| 0 <= j < first_free(s) ==> s[j],
        first_free(s) == s.len() <==> all_taken(s),
{
    lemma_first_free_from(s, 0);
}

/// The lowest index whose flag is false, if any.
fn find_free(exists: &Vec<bool>) -> (r: Option<usize>)
    ensures
        match r {
            Some(i) => i == first_free(exists@) && i < exists@.len(),
            None => first_free(exists@) == exists@.len(),
        },
{
    proof {
        lemma_first_free(exists@);
    }
    let mut i: usize = 0;
    while i < exists.len()
        invariant
            i <= exists@.len(),
            forall|j: int| 0 <= j < i ==> exists@[j],
        decreases exists@.len() - i,
    {
        if !exists[i] {
            proof {
                lemma_first_free_from(exists@, 0);
                if first_free(exists@) < i {
                    assert(exists@[first_free(exists@)]);
                }
            }
            return Some(i);
        }
        i += 1;
    }
    proof {
        assert(all_taken(exists@));
    }
    None
}

/// A vector of `n` copies of `value`.
pub fn filled<T: Copy>(value: T, n: usize) -> (r: Vec<T>)
    ensures
        r@ == Seq::new(n as nat, |_i: int| value),
{
    let mut v: Vec<T> = Vec::new();
    let mut i: usize = 0;
    while i < n
        invariant
            i <= n,
            v@ == Seq::new(i as nat, |_i: int| value),
        decreases n - i,
    {
        v.push(value);
        i += 1;
        assert(v@ =~= Seq::new(i as nat, |_i: int| value));
    }
    v
}

fn any_set(flags: &Vec<bool>) -> (r: bool)
    ensures
        r == !none_taken(flags@),
{
    let mut i: usize = 0;
    while i < flags.len()
        invariant
            i <= flags@.len(),
            forall|j: int| 0 <= j < i ==> !flags@[j],
        decreases flags@.len() - i,
    {
        if flags[i] {
            return true;
        }
        i += 1;
    }
    false
}

fn clear_flags(flags: &mut Vec<bool>)
    ensures
        final(flags)@.len() == old(flags)@.len(),
        none_taken(final(flags)@),
{
    let mut i: usize = 0;
    while i < flags.len()
        invariant
            i <= flags@.len(),
            flags@.len() == old(flags)@.len(),
            forall|j: int| 0 <= j < i ==> !flags@[j],
        decreases flags@.len() - i,
    {
        flags.set(i, false);
        i += 1;
    }
}

/// Relies on rand's `thread_rng().gen_range(0..n)`: a uniformly drawn integer
/// in `[0, n)` (it panics on an empty range, which `n > 0` rules out).
#[verifier::external_body]
fn random_below(n: i64) -> (r: i64)
    requires
        n > 0,
    ensures
        0 <= r < n,
{
    rand::thread_rng().gen_range(0..n)
}

// -----------------------------------------------------------------------------
// Asteroids
// -----------------------------------------------------------------------------

pub const MAX_ASTEROIDS: usize = 52;

pub const ASTEROID_RADIUS_SMALL: i64 = 2000;

pub const ASTEROID_RADIUS_MEDIUM: i64 = 4000;

pub const ASTEROID_RADIUS_LARGE: i64 = 6000;

pub const ASTEROID_MIN_SPEED: i64 = 10_000;

pub const ASTEROID_MAX_SPEED_LOWER_LIMIT: i64 = 20_000;

pub const ASTEROID_MAX_SPEED_HIGHER_LIMIT: i64 = 40_000;

pub const ASTEROID_HEALTH_SMALL: i8 = 25;

pub const ASTEROID_HEALTH_MEDIUM: i8 = 50;

pub const ASTEROID_HEALTH_LARGE: i8 = 75;

#[derive(Debug, Clone, Copy, PartialEq, Eq, Structural)]
pub enum AsteroidSize {
    SMALL,
    MEDIUM,
    LARGE,
}

pub open spec fn size_radius(size: AsteroidSize) -> i64 {
    match size {
        AsteroidSize::SMALL => ASTEROID_RADIUS_SMALL,
        AsteroidSize::MEDIUM => ASTEROID_RADIUS_MEDIUM,
        AsteroidSize::LARGE => ASTEROID_RADIUS_LARGE,
    }
}

pub open spec fn size_health(size: AsteroidSize) -> i8 {
    match size {
        AsteroidSize::SMALL => ASTEROID_HEALTH_SMALL,
        AsteroidSize::MEDIUM => ASTEROID_HEALTH_MEDIUM,
        AsteroidSize::LARGE => ASTEROID_HEALTH_LARGE,
    }
}

pub open spec fn canonical_radius(r: i64) -> bool {
    r == ASTEROID_RADIUS_SMALL || r == ASTEROID_RADIUS_MEDIUM || r == ASTEROID_RADIUS_LARGE
}

impl AsteroidSize {
    /// The size whose canonical radius is exactly `radius`.
    pub fn from_radius(radius: i64) -> (r: Result<AsteroidSize, InvalidRadius>)
        ensures
            match r {
                Ok(size) => size_radius(size) == radius,
                Err(e) => !canonical_radius(radius) && e.radius == radius,
            },
    {
        if radius == ASTEROID_RADIUS_SMALL {
            Ok(AsteroidSize::SMALL)
        } else if radius == ASTEROID_RADIUS_MEDIUM {
            Ok(AsteroidSize::MEDIUM)
        } else if radius == ASTEROID_RADIUS_LARGE {
            Ok(AsteroidSize::LARGE)
        } else {
            Err(InvalidRadius { radius })
        }
    }

    pub fn radius(&self) -> (r: i64)
        ensures
            r == size_radius(*self),
    {
        match self {
            AsteroidSize::SMALL => ASTEROID_RADIUS_SMALL,
            AsteroidSize::MEDIUM => ASTEROID_RADIUS_MEDIUM,
            AsteroidSize::LARGE => ASTEROID_RADIUS_LARGE,
        }
    }

    pub fn health(&self) -> (r: i8)
        ensures
            r == size_health(*self),
    {
        match self {
            AsteroidSize::SMALL => ASTEROID_HEALTH_SMALL,
            AsteroidSize::MEDIUM => ASTEROID_HEALTH_MEDIUM,
            AsteroidSize::LARGE => ASTEROID_HEALTH_LARGE,
        }
    }
}

/// A pool of asteroids in parallel slots; `exists[i]` says whether slot `i`
/// holds one, and the other fields of a free slot mean nothing.
pub struct Asteroids {
    pub exists: Vec<bool>,
    pub hp: Vec<i8>,
    pub circle: Vec<Circle>,
    pub velocity: Vec<Point>,
    pub max_speed: i64,
}

/// The contents of an asteroid pool.
pub struct AsteroidsView {
    pub exists: Seq<bool>,
    pub hp: Seq<i8>,
    pub circle: Seq<Circle>,
    pub velocity: Seq<Point>,
    pub max_speed: i64,
}

impl View for Asteroids {
    type V = AsteroidsView;

    open spec fn view(&self) -> AsteroidsView {
        AsteroidsView {
            exists: self.exists@,
            hp: self.hp@,
            circle: self.circle@,
            velocity: self.velocity@,
            max_speed: self.max_speed,
        }
    }
}

/// An asteroid's shape and velocity are in range: a canonical radius, a
/// center within `FIELD_LIMIT`, a velocity within `VELOCITY_LIMIT`.
pub open spec fn asteroid_valid(c: Circle, v: Point) -> bool {
    canonical_radius(c.radius) && within(c.center, FIELD_LIMIT as int) && within(
        v,
        VELOCITY_LIMIT as int,
    )
}

impl AsteroidsView {
    pub open spec fn wf(self) -> bool {
        &&& self.exists.len() == MAX_ASTEROIDS
        &&& self.hp.len() == MAX_ASTEROIDS
        &&& self.circle.len() == MAX_ASTEROIDS
        &&& self.velocity.len() == MAX_ASTEROIDS
        &&& ASTEROID_MIN_SPEED <= self.max_speed <= VELOCITY_LIMIT
        &&& forall|i: int|
            0 <= i < MAX_ASTEROIDS && #[trigger] self.exists[i] ==> asteroid_valid(
                self.circle[i],
                self.velocity[i],
            )
    }

    /// The pool after creating an asteroid in its lowest free slot; unchanged
    /// when it is full.
    pub open spec fn created(self, size: AsteroidSize, position: Point, velocity: Point) -> Self {
        let i = first_free(self.exists);
        if i < self.exists.len() {
            AsteroidsView {
                exists: self.exists.update(i, true),
                hp: self.hp.update(i, size_health(size)),
                circle: self.circle.update(i, Circle { center: position, radius: size_radius(size) }),
                velocity: self.velocity.update(i, velocity),
                max_speed: self.max_speed,
            }
        } else {
            self
        }
    }

    /// Number of asteroids in the pool.
    pub open spec fn count(self) -> nat {
        self.exists.filter(|e: bool| e).len()
    }
}

impl Default for Asteroids {
    fn default() -> (r: Asteroids)
        ensures
            r.wf(),
            none_taken(r@.exists),
            r.max_speed == ASTEROID_MAX_SPEED_LOWER_LIMIT,
    {
        Asteroids::new()
    }
}

impl Asteroids {
    pub open spec fn wf(&self) -> bool {
        self@.wf()
    }

    /// An empty pool, with the lowest ramp of the maximal spawn speed.
    pub fn new() -> (r: Asteroids)
        ensures
            r.wf(),
            none_taken(r@.exists),
            r.max_speed == ASTEROID_MAX_SPEED_LOWER_LIMIT,
    {
        Asteroids {
            exists: filled(false, MAX_ASTEROIDS),
            hp: filled(0i8, MAX_ASTEROIDS),
            circle: filled(Circle { center: Point { x: 0, y: 0 }, radius: 0 }, MAX_ASTEROIDS),
            velocity: filled(Point { x: 0, y: 0 }, MAX_ASTEROIDS),
            max_speed: ASTEROID_MAX_SPEED_LOWER_LIMIT,
        }
    }

    /// Creates an asteroid of `size` in the lowest free slot.
    pub fn create(&mut self, size: AsteroidSize, position: Point, velocity: Point) -> (r: Result<
        usize,
        CapacityError,
    >)
        requires
            old(self).wf(),
            within(position, FIELD_LIMIT as int),
            within(velocity, VELOCITY_LIMIT as int),
        ensures
            final(self).wf(),
            final(self)@ == old(self)@.created(size, position, velocity),
            match r {
                Ok(i) => i == first_free(old(self)@.exists) && i < MAX_ASTEROIDS,
                Err(_) => all_taken(old(self)@.exists) && final(self)@ == old(self)@,
            },
    {
        proof {
            lemma_first_free(self@.exists);
        }
        match find_free(&self.exists) {
            Some(index) => {
                self.exists.set(index, true);
                self.circle.set(index, Circle { center: position, radius: size.radius() });
                self.velocity.set(index, velocity);
                self.hp.set(index, size.health());
                Ok(index)
            },
            None => Err(CapacityError),
        }
    }

    /// Creates a large asteroid on a playfield edge from drawn values: the
    /// edge (`0` left, `1` top, `2` right, `3` bottom), the position along
    /// the other axis and the speed as fractions of `ONE`, and the heading
    /// in microradians.
    pub fn create_at_border_with(
        &mut self,
        max_coords: Point,
        border: i64,
        x_fraction: i64,
        y_fraction: i64,
        speed_fraction: i64,
        angle: i64,
    ) -> (r: Result<usize, CapacityError>)
        requires
            old(self).wf(),
            valid_bounds(max_coords),
            0 <= border < 4,
            0 <= x_fraction < ONE,
            0 <= y_fraction < ONE,
            0 <= speed_fraction < ONE,
            0 <= angle < FULL_TURN,
        ensures
            final(self).wf(),
            ({
                let p = border_position(max_coords, border, x_fraction, y_fraction);
                let speed = spawn_speed(old(self).max_speed, speed_fraction);
                let cs = unit_rotation(angle as int);
                let v = Point {
                    x: tdiv(speed * cs.0, ONE as int) as i64,
                    y: tdiv(speed * cs.1, ONE as int) as i64,
                };
                final(self)@ == old(self)@.created(AsteroidSize::LARGE, p, v)
            }),
            match r {
                Ok(i) => i == first_free(old(self)@.exists) && i < MAX_ASTEROIDS,
                Err(_) => all_taken(old(self)@.exists),
            },
    {
        assert(0 <= x_fraction * max_coords.x <= ONE * max_coords.x) by (nonlinear_arith)
            requires 0 <= x_fraction < ONE, 0 <= max_coords.x;
        assert(0 <= y_fraction * max_coords.y <= ONE * max_coords.y) by (nonlinear_arith)
            requires 0 <= y_fraction < ONE, 0 <= max_coords.y;
        let mut x = x_fraction * max_coords.x / ONE;
        let mut y = y_fraction * max_coords.y / ONE;
        if border == 0 {
            x = -ASTEROID_RADIUS_LARGE;
        } else if border == 1 {
            y = -ASTEROID_RADIUS_LARGE;
        } else if border == 2 {
            x = max_coords.x + ASTEROID_RADIUS_LARGE;
        } else {
            y = max_coords.y + ASTEROID_RADIUS_LARGE;
        }
        let span = self.max_speed - ASTEROID_MIN_SPEED;
        assert(0 <= speed_fraction * span <= ONE * span) by (nonlinear_arith)
            requires 0 <= speed_fraction < ONE, 0 <= span;
        let speed = ASTEROID_MIN_SPEED + speed_fraction * span / ONE;
        let velocity = Point::from_polar(speed, angle);
        self.create(AsteroidSize::LARGE, Point { x, y }, velocity)
    }

    /// Creates a large asteroid at a random point of a random playfield edge,
    /// heading in a random direction at a random speed in
    /// `[ASTEROID_MIN_SPEED, max_speed]`.
    pub fn create_at_border(&mut self, max_coords: Point) -> (r: Result<usize, CapacityError>)
        requires
            old(self).wf(),
            valid_bounds(max_coords),
        ensures
            final(self).wf(),
            r is Ok <==> !all_taken(old(self)@.exists),
            match r {
                Ok(i) => {
                    &&& i == first_free(old(self)@.exists)
                    &&& final(self)@.exists == old(self)@.exists.update(i as int, true)
                    &&& final(self)@.circle[i as int].radius == ASTEROID_RADIUS_LARGE
                    &&& final(self)@.hp[i as int] == ASTEROID_HEALTH_LARGE
                },
                Err(_) => final(self)@ == old(self)@,
            },
    {
        let border = random_below(4);
        let x_fraction = random_below(ONE);
        let y_fraction = random_below(ONE);
        let speed_fraction = random_below(ONE);
        let angle = random_below(FULL_TURN);
        proof {
            lemma_first_free(self@.exists);
        }
        self.create_at_border_with(max_coords, border, x_fraction, y_fraction, speed_fraction, angle)
    }

    /// Moves every asteroid by its velocity for `dt` microseconds, wrapping
    /// around the playfield with its radius as margin.
    pub fn update_positions(&mut self, max_coords: Point, dt: i64)
        requires
            old(self).wf(),
            valid_bounds(max_coords),
            0 <= dt <= MAX_DT,
        ensures
            final(self).wf(),
            final(self)@.exists == old(self)@.exists,
            final(self)@.hp == old(self)@.hp,
            final(self)@.velocity == old(self)@.velocity,
            final(self).max_speed == old(self).max_speed,
            forall|i: int|
                0 <= i < MAX_ASTEROIDS ==> #[trigger] final(self)@.circle[i] == if old(self)@.exists[i] {
                    moved_circle(old(self)@.circle[i], old(self)@.velocity[i], max_coords, dt as int)
                } else {
                    old(self)@.circle[i]
                },
    {
        let mut i: usize = 0;
        while i < MAX_ASTEROIDS
            invariant
                0 <= i <= MAX_ASTEROIDS,
                0 <= dt <= MAX_DT,
                valid_bounds(max_coords),
                self.wf(),
                self@.exists == old(self)@.exists,
                self@.hp == old(self)@.hp,
                self@.velocity == old(self)@.velocity,
                self.max_speed == old(self).max_speed,
                forall|j: int|
                    0 <= j < MAX_ASTEROIDS ==> #[trigger] self@.circle[j] == if j < i
                        && old(self)@.exists[j] {
                        moved_circle(old(self)@.circle[j], old(self)@.velocity[j], max_coords, dt as int)
                    } else {
                        old(self)@.circle[j]
                    },
            decreases MAX_ASTEROIDS - i,
        {
            if self.exists[i] {
                let mut c = self.circle[i];
                let v = self.velocity[i];
                assert(asteroid_valid(c, v));
                c.update_position_wraparound(v, max_coords, c.radius, dt);
                self.circle.set(i, c);
            }
            i += 1;
        }
    }

    /// Whether the pool holds no asteroid.
    pub fn none_exist(&self) -> (r: bool)
        ensures
            r == none_taken(self@.exists),
    {
        !any_set(&self.exists)
    }

    /// Empties the pool.
    pub fn clear(&mut self)
        requires
            old(self).wf(),
        ensures
            final(self).wf(),
            none_taken(final(self)@.exists),
            final(self)@.circle == old(self)@.circle,
            final(self)@.velocity == old(self)@.velocity,
            final(self)@.hp == old(self)@.hp,
            final(self).max_speed == old(self).max_speed,
    {
        clear_flags(&mut self.exists);
    }
}

/// Where an asteroid drawn for the edge `border` enters the playfield.
pub open spec fn border_position(max_coords: Point, border: i64, x_fraction: i64, y_fraction: i64) -> Point {
    let x = x_fraction * max_coords.x / (ONE as int);
    let y = y_fraction * max_coords.y / (ONE as int);
    if border == 0 {
        Point { x: (-ASTEROID_RADIUS_LARGE) as i64, y: y as i64 }
    } else if border == 1 {
        Point { x: x as i64, y: (-ASTEROID_RADIUS_LARGE) as i64 }
    } else if border == 2 {
        Point { x: (max_coords.x + ASTEROID_RADIUS_LARGE) as i64, y: y as i64 }
    } else {
        Point { x: x as i64, y: (max_coords.y + ASTEROID_RADIUS_LARGE) as i64 }
    }
}

/// The spawn speed drawn as `fraction / ONE` of the way from
/// `ASTEROID_MIN_SPEED` to `max_speed`.
pub open spec fn spawn_speed(max_speed: i64, fraction: i64) -> int {
    ASTEROID_MIN_SPEED + fraction * (max_speed - ASTEROID_MIN_SPEED) / (ONE as int)
}

/// A circle after one wraparound position update with its radius as margin.
pub open spec fn moved_circle(c: Circle, v: Point, max_coords: Point, dt: int) -> Circle {
    Circle {
        center: Point {
            x: wrap(c.center.x + travel(v.x as int, dt), max_coords.x as int, c.radius as int) as i64,
            y: wrap(c.center.y + travel(v.y as int, dt), max_coords.y as int, c.radius as int) as i64,
        },
        radius: c.radius,
    }
}

// -----------------------------------------------------------------------------
// Bullets
// -----------------------------------------------------------------------------

pub const MAX_BULLETS: usize = 32;

pub const BULLET_SPEED: i64 = 200_000;

pub const BULLET_LENGTH: i64 = 750;

pub const BULLET_DAMAGE: i8 = 25;

/// A pool of bullets; each is a short segment whose leading point `p2` is
/// the one tested against the playfield.
pub struct Bullets {
    pub exists: Vec<bool>,
    pub line_segment: Vec<Line>,
    pub velocity: Vec<Point>,
}

pub struct BulletsView {
    pub exists: Seq<bool>,
    pub line_segment: Seq<Line>,
    pub velocity: Seq<Point>,
}

impl View for Bullets {
    type V = BulletsView;

    open spec fn view(&self) -> BulletsView {
        BulletsView {
            exists: self.exists@,
            line_segment: self.line_segment@,
            velocity: self.velocity@,
        }
    }
}

/// A bullet is in range: its leading point within `FIELD_LIMIT`, its tail
/// within `UNIT` of it on each axis, its velocity within `VELOCITY_LIMIT`.
pub open spec fn bullet_valid(l: Line, v: Point) -> bool {
    &&& within(l.p2, FIELD_LIMIT as int)
    &&& -UNIT <= l.p1.x - l.p2.x <= UNIT
    &&& -UNIT <= l.p1.y - l.p2.y <= UNIT
    &&& within(v, VELOCITY_LIMIT as int)
}

/// The segment of a bullet fired from `position` along `direction`.
pub open spec fn bullet_line(position: Point, direction: Point) -> Line {
    let tail = scaled_to(direction, BULLET_LENGTH as int);
    Line { p1: Point { x: (position.x + tail.x) as i64, y: (position.y + tail.y) as i64 }, p2: position }
}

/// `p` lies in the playfield `[0, max_coords]`.
pub open spec fn in_playfield(p: Point, max_coords: Point) -> bool {
    0 <= p.x <= max_coords.x && 0 <= p.y <= max_coords.y
}

/// A segment after one position update.
pub open spec fn moved_line(l: Line, v: Point, dt: int) -> Line {
    Line {
        p1: Point { x: (l.p1.x + travel(v.x as int, dt)) as i64, y: (l.p1.y + travel(v.y as int, dt)) as i64 },
        p2: Point { x: (l.p2.x + travel(v.x as int, dt)) as i64, y: (l.p2.y + travel(v.y as int, dt)) as i64 },
    }
}

impl BulletsView {
    pub open spec fn wf(self) -> bool {
        &&& self.exists.len() == MAX_BULLETS
        &&& self.line_segment.len() == MAX_BULLETS
        &&& self.velocity.len() == MAX_BULLETS
        &&& forall|i: int|
            0 <= i < MAX_BULLETS && #[trigger] self.exists[i] ==> bullet_valid(
                self.line_segment[i],
                self.velocity[i],
            )
    }

    /// The pool after firing a bullet from `position` along `direction` into
    /// its lowest free slot; unchanged when it is full.
    pub open spec fn created(self, position: Point, direction: Point) -> Self {
        let i = first_free(self.exists);
        if i < self.exists.len() {
            BulletsView {
                exists: self.exists.update(i, true),
                line_segment: self.line_segment.update(i, bullet_line(position, direction)),
                velocity: self.velocity.update(i, scaled_to(direction, BULLET_SPEED as int)),
            }
        } else {
            self
        }
    }
}

impl Default for Bullets {
    fn default() -> (r: Bullets)
        ensures
            r.wf(),
            none_taken(r@.exists),
    {
        Bullets::new()
    }
}

impl Bullets {
    pub open spec fn wf(&self) -> bool {
        self@.wf()
    }

    /// An empty pool.
    pub fn new() -> (r: Bullets)
        ensures
            r.wf(),
            none_taken(r@.exists),
    {
        let zero = Point { x: 0, y: 0 };
        Bullets {
            exists: filled(false, MAX_BULLETS),
            line_segment: filled(Line { p1: zero, p2: zero }, MAX_BULLETS),
            velocity: filled(zero, MAX_BULLETS),
        }
    }

    /// Empties the pool.
    pub fn clear(&mut self)
        requires
            old(self).wf(),
        ensures
            final(self).wf(),
            none_taken(final(self)@.exists),
            final(self)@.line_segment == old(self)@.line_segment,
            final(self)@.velocity == old(self)@.velocity,
    {
        clear_flags(&mut self.exists);
    }

    /// Fires a bullet from `position` along `direction` (any nonzero
    /// vector) into the lowest free slot: its tail lies `BULLET_LENGTH`
    /// ahead of `position` and it moves at `BULLET_SPEED`.
    pub fn create(&mut self, position: Point, direction: Point) -> (r: Result<usize, CapacityError>)
        requires
            old(self).wf(),
            within(position, FIELD_LIMIT as int),
            within(direction, DIFF_LIMIT as int),
        ensures
            final(self).wf(),
            final(self)@ == old(self)@.created(position, direction),
            match r {
                Ok(i) => i == first_free(old(self)@.exists) && i < MAX_BULLETS,
                Err(_) => all_taken(old(self)@.exists) && final(self)@ == old(self)@,
            },
    {
        proof {
            lemma_first_free(self@.exists);
        }
        match find_free(&self.exists) {
            Some(index) => {
                let tail = direction.with_length(BULLET_LENGTH);
                self.exists.set(index, true);
                self.line_segment.set(
                    index,
                    Line { p1: Point { x: position.x + tail.x, y: position.y + tail.y }, p2: position },
                );
                self.velocity.set(index, direction.with_length(BULLET_SPEED));
                Ok(index)
            },
            None => Err(CapacityError),
        }
    }

    /// Moves every bullet by its velocity for `dt` microseconds; a bullet
    /// whose leading point leaves the playfield is destroyed.
    pub fn update_positions(&mut self, max_coords: Point, dt: i64)
        requires
            old(self).wf(),
            valid_bounds(max_coords),
            0 <= dt <= MAX_DT,
        ensures
            final(self).wf(),
            final(self)@.velocity == old(self)@.velocity,
            forall|i: int|
                0 <= i < MAX_BULLETS ==> {
                    if old(self)@.exists[i] {
                        &&& #[trigger] final(self)@.line_segment[i] == moved_line(
                            old(self)@.line_segment[i],
                            old(self)@.velocity[i],
                            dt as int,
                        )
                        &&& final(self)@.exists[i] == in_playfield(
                            final(self)@.line_segment[i].p2,
                            max_coords,
                        )
                    } else {
                        &&& final(self)@.line_segment[i] == old(self)@.line_segment[i]
                        &&& !final(self)@.exists[i]
                    }
                },
    {
        let mut i: usize = 0;
        while i < MAX_BULLETS
            invariant
                0 <= i <= MAX_BULLETS,
                0 <= dt <= MAX_DT,
                valid_bounds(max_coords),
                self@.exists.len() == MAX_BULLETS,
                self@.line_segment.len() == MAX_BULLETS,
                self@.velocity == old(self)@.velocity,
                old(self).wf(),
                forall|j: int| i <= j < MAX_BULLETS ==> #[trigger] self@.exists[j] == old(self)@.exists[j],
                forall|j: int|
                    i <= j < MAX_BULLETS ==> #[trigger] self@.line_segment[j] == old(
                        self,
                    )@.line_segment[j],
                forall|j: int|
                    0 <= j < i ==> {
                        if old(self)@.exists[j] {
                            &&& #[trigger] self@.line_segment[j] == moved_line(
                                old(self)@.line_segment[j],
                                old(self)@.velocity[j],
                                dt as int,
                            )
                            &&& self@.exists[j] == in_playfield(self@.line_segment[j].p2, max_coords)
                        } else {
                            &&& self@.line_segment[j] == old(self)@.line_segment[j]
                            &&& !self@.exists[j]
                        }
                    },
                forall|j: int|
                    0 <= j < MAX_BULLETS && #[trigger] self@.exists[j] ==> bullet_valid(
                        self@.line_segment[j],
                        self@.velocity[j],
                    ),
            decreases MAX_BULLETS - i,
        {
            if self.exists[i] {
                let mut l = self.line_segment[i];
                let v = self.velocity[i];
                assert(bullet_valid(l, v));
                l.update_position(v, dt);
                let p = l.p2;
                let inside = !(p.x < 0 || p.x > max_coords.x || p.y < 0 || p.y > max_coords.y);
                self.line_segment.set(i, l);
                self.exists.set(i, inside);
            }
            i += 1;
        }
    }
}

// -----------------------------------------------------------------------------
// Ships
// -----------------------------------------------------------------------------

pub const MAX_SHIPS: usize = 2;

pub const SHIP_WIDTH: i64 = 4000;

pub const SHIP_LENGTH: i64 = 5000;

pub const SHIP_HEALTH: i8 = 100;

/// A ship's mass, in the units where an asteroid of radius `R` world units
/// weighs `2 * R * R * R`.
pub const SHIP_MASS: i64 = 1;

pub const SHIP_SPEED_MAX: i64 = 100_000;

pub const SHIP_ACCELERATION_LEVEL1: i64 = 15_000;

pub const SHIP_ACCELERATION_LEVEL2: i64 = 30_000;

pub const SHIP_ACCELERATION_LEVEL3: i64 = 45_000;

pub const SHIP_DEACCELERATION: i64 = 2_500;

/// Largest spin, in microradians per second (one and a half turns of pi).
pub const SHIP_MAX_ANGULAR_VELOCITY: i64 = 4_712_389;

pub const SHIP_ANGULAR_ACCELERATION_LEVEL1: i64 = 25_132_741;

pub const SHIP_ANGULAR_ACCELERATION_LEVEL2: i64 = 25_132_741;

pub const SHIP_ANGULAR_ACCELERATION_LEVEL3: i64 = 25_132_741;

/// Least time between two shots, in microseconds, by gun level.
pub const SHIP_GUN_FIRE_RATE_US_LEVEL1: u64 = 400_000;

pub const SHIP_GUN_FIRE_RATE_US_LEVEL2: u64 = 300_000;

pub const SHIP_GUN_FIRE_RATE_US_LEVEL3: u64 = 200_000;

#[derive(Debug, Clone, Copy, PartialEq, Eq, Structural, Default)]
pub enum UpgradeLevel {
    #[default]
    LEVEL1,
    LEVEL2,
    LEVEL3,
}

#[derive(Debug, Clone, Copy, PartialEq, Eq, Structural)]
pub enum RotationDirection {
    COUNTERCLOCKWISE,
    CLOCKWISE,
}

impl RotationDirection {
    pub fn to_index(&self) -> (r: usize)
        ensures
            r == (if *self == RotationDirection::COUNTERCLOCKWISE { 0usize } else { 1usize }),
    {
        match self {
            RotationDirection::COUNTERCLOCKWISE => 0,
            RotationDirection::CLOCKWISE => 1,
        }
    }
}

/// A player, which addresses the ship slot of the same number.
#[derive(Debug, Clone, Copy, PartialEq, Eq, Structural)]
pub enum Player {
    PLAYER1,
    PLAYER2,
    PLAYER3,
    PLAYER4,
}

pub open spec fn player_index(p: Player) -> int {
    match p {
        Player::PLAYER1 => 0,
        Player::PLAYER2 => 1,
        Player::PLAYER3 => 2,
        Player::PLAYER4 => 3,
    }
}

impl Player {
    pub fn to_index(&self) -> (r: usize)
        ensures
            r == player_index(*self),
    {
        match self {
            Player::PLAYER1 => 0,
            Player::PLAYER2 => 1,
            Player::PLAYER3 => 2,
            Player::PLAYER4 => 3,
        }
    }
}

pub open spec fn thrust_of(level: UpgradeLevel) -> i64 {
    match level {
        UpgradeLevel::LEVEL1 => SHIP_ACCELERATION_LEVEL1,
        UpgradeLevel::LEVEL2 => SHIP_ACCELERATION_LEVEL2,
        UpgradeLevel::LEVEL3 => SHIP_ACCELERATION_LEVEL3,
    }
}

pub open spec fn spin_of(level: UpgradeLevel) -> i64 {
    match level {
        UpgradeLevel::LEVEL1 => SHIP_ANGULAR_ACCELERATION_LEVEL1,
        UpgradeLevel::LEVEL2 => SHIP_ANGULAR_ACCELERATION_LEVEL2,
        UpgradeLevel::LEVEL3 => SHIP_ANGULAR_ACCELERATION_LEVEL3,
    }
}

pub open spec fn fire_interval(level: UpgradeLevel) -> u64 {
    match level {
        UpgradeLevel::LEVEL1 => SHIP_GUN_FIRE_RATE_US_LEVEL1,
        UpgradeLevel::LEVEL2 => SHIP_GUN_FIRE_RATE_US_LEVEL2,
        UpgradeLevel::LEVEL3 => SHIP_GUN_FIRE_RATE_US_LEVEL3,
    }
}

fn thrust(level: UpgradeLevel) -> (r: i64)
    ensures
        r == thrust_of(level),
{
    match level {
        UpgradeLevel::LEVEL1 => SHIP_ACCELERATION_LEVEL1,
        UpgradeLevel::LEVEL2 => SHIP_ACCELERATION_LEVEL2,
        UpgradeLevel::LEVEL3 => SHIP_ACCELERATION_LEVEL3,
    }
}

fn spin(level: UpgradeLevel) -> (r: i64)
    ensures
        r == spin_of(level),
{
    match level {
        UpgradeLevel::LEVEL1 => SHIP_ANGULAR_ACCELERATION_LEVEL1,
        UpgradeLevel::LEVEL2 => SHIP_ANGULAR_ACCELERATION_LEVEL2,
        UpgradeLevel::LEVEL3 => SHIP_ANGULAR_ACCELERATION_LEVEL3,
    }
}

fn interval(level: UpgradeLevel) -> (r: u64)
    ensures
        r == fire_interval(level),
{
    match level {
        UpgradeLevel::LEVEL1 => SHIP_GUN_FIRE_RATE_US_LEVEL1,
        UpgradeLevel::LEVEL2 => SHIP_GUN_FIRE_RATE_US_LEVEL2,
        UpgradeLevel::LEVEL3 => SHIP_GUN_FIRE_RATE_US_LEVEL3,
    }
}

/// A pool of ships. Side thrusters are indexed by `RotationDirection`:
/// `.0` counterclockwise, `.1` clockwise. Times are in microseconds.
pub struct Ships {
    pub exists: Vec<bool>,
    pub hp: Vec<i8>,
    pub triangle: Vec<Triangle>,
    pub velocity: Vec<Point>,
    pub acceleration: Vec<i64>,
    pub back_thruster_level: Vec<UpgradeLevel>,
    pub angular_velocity: Vec<i64>,
    pub angular_acceleration: Vec<i64>,
    pub side_thrusters_level: Vec<UpgradeLevel>,
    pub side_thruster_pressed: Vec<(bool, bool)>,
    pub gun_level: Vec<UpgradeLevel>,
    pub gun_auto: Vec<bool>,
    pub gun_trigger_pressed: Vec<bool>,
    pub gun_trigger_released: Vec<bool>,
    pub gun_last_fired_t: Vec<u64>,
}

pub struct ShipsView {
    pub exists: Seq<bool>,
    pub hp: Seq<i8>,
    pub triangle: Seq<Triangle>,
    pub velocity: Seq<Point>,
    pub acceleration: Seq<i64>,
    pub back_thruster_level: Seq<UpgradeLevel>,
    pub angular_velocity: Seq<i64>,
    pub angular_acceleration: Seq<i64>,
    pub side_thrusters_level: Seq<UpgradeLevel>,
    pub side_thruster_pressed: Seq<(bool, bool)>,
    pub gun_level: Seq<UpgradeLevel>,
    pub gun_auto: Seq<bool>,
    pub gun_trigger_pressed: Seq<bool>,
    pub gun_trigger_released: Seq<bool>,
    pub gun_last_fired_t: Seq<u64>,
}

impl View for Ships {
    type V = ShipsView;

    open spec fn view(&self) -> ShipsView {
        ShipsView {
            exists: self.exists@,
            hp: self.hp@,
            triangle: self.triangle@,
            velocity: self.velocity@,
            acceleration: self.acceleration@,
            back_thruster_level: self.back_thruster_level@,
            angular_velocity: self.angular_velocity@,
            angular_acceleration: self.angular_acceleration@,
            side_thrusters_level: self.side_thrusters_level@,
            side_thruster_pressed: self.side_thruster_pressed@,
            gun_level: self.gun_level@,
            gun_auto: self.gun_auto@,
            gun_trigger_pressed: self.gun_trigger_pressed@,
            gun_trigger_released: self.gun_trigger_released@,
            gun_last_fired_t: self.gun_last_fired_t@,
        }
    }
}

/// A ship's hull and motion are in range.
pub open spec fn ship_valid(t: Triangle, v: Point, w: i64) -> bool {
    triangle_within(t, FIELD_LIMIT as int) && within(v, VELOCITY_LIMIT as int)
        && -SHIP_MAX_ANGULAR_VELOCITY <= w <= SHIP_MAX_ANGULAR_VELOCITY
}

/// The angular acceleration that the pressed side thrusters give.
pub open spec fn side_thrust(level: UpgradeLevel, pressed: (bool, bool)) -> int {
    (if pressed.1 { spin_of(level) as int } else { 0 }) - (if pressed.0 { spin_of(level) as int } else { 0 })
}

impl ShipsView {
    pub open spec fn wf(self) -> bool {
        &&& self.exists.len() == MAX_SHIPS
        &&& self.hp.len() == MAX_SHIPS
        &&& self.triangle.len() == MAX_SHIPS
        &&& self.velocity.len() == MAX_SHIPS
        &&& self.acceleration.len() == MAX_SHIPS
        &&& self.back_thruster_level.len() == MAX_SHIPS
        &&& self.angular_velocity.len() == MAX_SHIPS
        &&& self.angular_acceleration.len() == MAX_SHIPS
        &&& self.side_thrusters_level.len() == MAX_SHIPS
        &&& self.side_thruster_pressed.len() == MAX_SHIPS
        &&& self.gun_level.len() == MAX_SHIPS
        &&& self.gun_auto.len() == MAX_SHIPS
        &&& self.gun_trigger_pressed.len() == MAX_SHIPS
        &&& self.gun_trigger_released.len() == MAX_SHIPS
        &&& self.gun_last_fired_t.len() == MAX_SHIPS
        &&& forall|i: int|
            0 <= i < MAX_SHIPS ==> 0 <= #[trigger] self.acceleration[i] <= SHIP_ACCELERATION_LEVEL3
        &&& forall|i: int|
            0 <= i < MAX_SHIPS ==> -2 * SHIP_ANGULAR_ACCELERATION_LEVEL1 <= #[trigger] self.angular_acceleration[i]
                <= 2 * SHIP_ANGULAR_ACCELERATION_LEVEL1
        &&& forall|i: int|
            0 <= i < MAX_SHIPS && #[trigger] self.exists[i] ==> ship_valid(
                self.triangle[i],
                self.velocity[i],
                self.angular_velocity[i],
            )
    }

    /// The gun of ship `i` fires at time `now`: the ship exists, its trigger
    /// is armed and pressed, and the fire interval of its gun has elapsed.
    pub open spec fn may_fire(self, i: int, now: u64) -> bool {
        &&& self.exists[i]
        &&& self.gun_trigger_pressed[i]
        &&& now >= self.gun_last_fired_t[i]
        &&& now - self.gun_last_fired_t[i] >= fire_interval(self.gun_level[i])
    }

    /// The pool after a trigger press for ship `i`: it takes effect only if
    /// the trigger was released.
    pub open spec fn trigger_pressed(self, i: int) -> Self {
        if self.gun_trigger_released[i] {
            ShipsView {
                gun_trigger_pressed: self.gun_trigger_pressed.update(i, true),
                gun_trigger_released: self.gun_trigger_released.update(i, false),
                ..self
            }
        } else {
            self
        }
    }

    /// The pool after a trigger release for ship `i`.
    pub open spec fn trigger_released(self, i: int) -> Self {
        ShipsView {
            gun_trigger_pressed: self.gun_trigger_pressed.update(i, false),
            gun_trigger_released: self.gun_trigger_released.update(i, true),
            ..self
        }
    }

    /// The pool after the side thruster flags of ship `i` became `pressed`.
    pub open spec fn with_side_thrusters(self, i: int, pressed: (bool, bool)) -> Self {
        ShipsView {
            side_thruster_pressed: self.side_thruster_pressed.update(i, pressed),
            angular_acceleration: self.angular_acceleration.update(
                i,
                side_thrust(self.side_thrusters_level[i], pressed) as i64,
            ),
            ..self
        }
    }
}

/// `flags` with the thruster of direction `d` set to `on`.
pub open spec fn set_thruster(flags: (bool, bool), d: RotationDirection, on: bool) -> (bool, bool) {
    match d {
        RotationDirection::COUNTERCLOCKWISE => (on, flags.1),
        RotationDirection::CLOCKWISE => (flags.0, on),
    }
}

/// The hull of a new ship: nose up, circumcenter at `position`.
pub open spec fn spawn_triangle(position: Point) -> Triangle {
    Triangle {
        v1: Point { x: position.x, y: (position.y - 2900) as i64 },
        v2: Point { x: (position.x + 2000) as i64, y: (position.y + 2100) as i64 },
        v3: Point { x: (position.x - 2000) as i64, y: (position.y + 2100) as i64 },
    }
}

pub open spec fn sign(v: int) -> int {
    if v > 0 {
        1
    } else if v < 0 {
        -1
    } else {
        0
    }
}

/// The angular velocity after one step: with no side thrust, a spin decays
/// toward zero at the thrusters' rate and snaps to zero rather than change
/// sign; otherwise the thrust is added. The result is held within
/// `SHIP_MAX_ANGULAR_VELOCITY`.
pub open spec fn spin_step(w: int, a: int, level: UpgradeLevel, dt: int) -> int {
    let w1 = if a == 0 && w != 0 {
        let d = w - sign(w) * travel(spin_of(level) as int, dt);
        if sign(d) != sign(w) { 0 } else { d }
    } else {
        w + travel(a, dt)
    };
    clamp_int(w1, SHIP_MAX_ANGULAR_VELOCITY as int)
}

/// The velocity after one step of thrust or drag: with no thrust, a moving
/// ship slows along its velocity by `SHIP_DEACCELERATION` per second and
/// stops rather than reverse; with thrust it speeds up along `heading`.
pub open spec fn velocity_step(v: Point, acceleration: int, heading: Point, dt: int) -> Point {
    if acceleration == 0 && norm_sq(v.x as int, v.y as int) != 0 {
        let speed = sqrt_floor(norm_sq(v.x as int, v.y as int));
        let drop = travel(SHIP_DEACCELERATION as int, dt);
        if drop >= speed {
            Point { x: 0, y: 0 }
        } else {
            let s = scaled_to(v, drop);
            Point { x: (v.x - s.x) as i64, y: (v.y - s.y) as i64 }
        }
    } else {
        let ax = tdiv(heading.x * acceleration, ONE as int);
        let ay = tdiv(heading.y * acceleration, ONE as int);
        Point { x: (v.x + travel(ax, dt)) as i64, y: (v.y + travel(ay, dt)) as i64 }
    }
}

/// The velocity rescaled, keeping its direction, to at most `SHIP_SPEED_MAX`.
pub open spec fn speed_limited(v: Point) -> Point {
    let m = sqrt_floor(norm_sq(v.x as int, v.y as int));
    if m > SHIP_SPEED_MAX {
        Point {
            x: tdiv(v.x * SHIP_SPEED_MAX, m) as i64,
            y: tdiv(v.y * SHIP_SPEED_MAX, m) as i64,
        }
    } else {
        v
    }
}

/// The wraparound margin of a hull: its circumradius, at most `MARGIN_LIMIT`.
pub open spec fn hull_margin(t: Triangle) -> int {
    let r = circumradius_of(t);
    if r > MARGIN_LIMIT { MARGIN_LIMIT as int } else { r }
}

/// Ship `i` after one step of `update_positions`: spin, turn, thrust or
/// drag, speed limit, then move with wraparound.
pub open spec fn ship_stepped(s: ShipsView, i: int, max_coords: Point, dt: int) -> (i64, Point, Triangle) {
    let w = spin_step(
        s.angular_velocity[i] as int,
        s.angular_acceleration[i] as int,
        s.side_thrusters_level[i],
        dt,
    );
    let turned = clamped_triangle(rotated_triangle(s.triangle[i], w, dt), FIELD_LIMIT as int);
    let v = speed_limited(velocity_step(s.velocity[i], s.acceleration[i] as int, direction_of(turned), dt));
    let moved = clamped_triangle(
        wrapped_triangle(turned, v, max_coords, hull_margin(turned), dt),
        FIELD_LIMIT as int,
    );
    (w as i64, v, moved)
}

fn spin_update(w: i64, a: i64, level: UpgradeLevel, dt: i64) -> (r: i64)
    requires
        -SHIP_MAX_ANGULAR_VELOCITY <= w <= SHIP_MAX_ANGULAR_VELOCITY,
        -2 * SHIP_ANGULAR_ACCELERATION_LEVEL1 <= a <= 2 * SHIP_ANGULAR_ACCELERATION_LEVEL1,
        0 <= dt <= MAX_DT,
    ensures
        r == spin_step(w as int, a as int, level, dt as int),
        -SHIP_MAX_ANGULAR_VELOCITY <= r <= SHIP_MAX_ANGULAR_VELOCITY,
{
    let w1 = if a == 0 && w != 0 {
        let rate = spin(level);
        assert(0 <= rate * dt <= 30_000_000 * 1_000_000) by (nonlinear_arith)
            requires 0 <= rate <= 30_000_000, 0 <= dt <= 1_000_000;
        let dec = div_trunc(rate * dt, MICROS_PER_SECOND);
        assert(dec == travel(spin_of(level) as int, dt as int));
        let d = if w > 0 { w - dec } else { w + dec };
        assert(d == w - sign(w as int) * dec) by (nonlinear_arith)
            requires w != 0, d == (if w > 0 { w - dec } else { w + dec }), sign(w as int) == (if w
                > 0 { 1int } else { -1int });
        let sd: i64 = if d > 0 { 1 } else if d < 0 { -1 } else { 0 };
        let sw: i64 = if w > 0 { 1 } else { -1 };
        if sd != sw { 0 } else { d }
    } else {
        assert(-60_000_000 * 1_000_000 <= a * dt <= 60_000_000 * 1_000_000) by (nonlinear_arith)
            requires -60_000_000 <= a <= 60_000_000, 0 <= dt <= 1_000_000;
        proof {
            lemma_tdiv_bound(a * dt, MICROS_PER_SECOND as int, 60_000_000);
        }
        w + div_trunc(a * dt, MICROS_PER_SECOND)
    };
    clamp_i64(w1, SHIP_MAX_ANGULAR_VELOCITY)
}

fn velocity_update(v: Point, acceleration: i64, heading: Point, dt: i64) -> (r: Point)
    requires
        within(v, VELOCITY_LIMIT as int),
        0 <= acceleration <= SHIP_ACCELERATION_LEVEL3,
        within(heading, ONE as int),
        0 <= dt <= MAX_DT,
    ensures
        r == velocity_step(v, acceleration as int, heading, dt as int),
        within(r, VELOCITY_LIMIT + SHIP_ACCELERATION_LEVEL3),
{
    if acceleration == 0 && v.magnitude_squared() != 0 {
        let speed = v.magnitude();
        let drop = div_trunc(SHIP_DEACCELERATION * dt, MICROS_PER_SECOND);
        if drop >= speed {
            Point { x: 0, y: 0 }
        } else {
            let s = v.with_length(drop);
            Point { x: v.x - s.x, y: v.y - s.y }
        }
    } else {
        let a = heading.scaled(acceleration, ONE);
        proof {
            assert(-acceleration * ONE <= heading.x * acceleration <= acceleration * ONE
                && -acceleration * ONE <= heading.y * acceleration <= acceleration * ONE)
                by (nonlinear_arith)
                requires -1_000_000 <= heading.x <= 1_000_000, -1_000_000 <= heading.y
                    <= 1_000_000, 0 <= acceleration;
            lemma_tdiv_bound(heading.x * acceleration, ONE as int, acceleration as int);
            lemma_tdiv_bound(heading.y * acceleration, ONE as int, acceleration as int);
        }
        let mut r = v;
        r.update_position(a, dt);
        proof {
            assert(-45_000 * 1_000_000 <= a.x * dt <= 45_000 * 1_000_000 && -45_000 * 1_000_000
                <= a.y * dt <= 45_000 * 1_000_000) by (nonlinear_arith)
                requires -45_000 <= a.x <= 45_000, -45_000 <= a.y <= 45_000, 0 <= dt <= 1_000_000;
            lemma_tdiv_bound(a.x * dt, MICROS_PER_SECOND as int, 45_000);
            lemma_tdiv_bound(a.y * dt, MICROS_PER_SECOND as int, 45_000);
        }
        r
    }
}

fn limit_speed(v: Point) -> (r: Point)
    requires
        within(v, VELOCITY_LIMIT + SHIP_ACCELERATION_LEVEL3),
    ensures
        r == speed_limited(v),
        within(r, SHIP_SPEED_MAX as int),
        within(r, VELOCITY_LIMIT as int),
{
    let m = v.magnitude();
    if m > SHIP_SPEED_MAX {
        let r = v.scaled(SHIP_SPEED_MAX, m);
        proof {
            assert(-SHIP_SPEED_MAX * m <= v.x * SHIP_SPEED_MAX <= SHIP_SPEED_MAX * m
                && -SHIP_SPEED_MAX * m <= v.y * SHIP_SPEED_MAX <= SHIP_SPEED_MAX * m)
                by (nonlinear_arith)
                requires -m <= v.x <= m, -m <= v.y <= m, m >= 0;
            lemma_tdiv_bound(v.x * SHIP_SPEED_MAX, m as int, SHIP_SPEED_MAX as int);
            lemma_tdiv_bound(v.y * SHIP_SPEED_MAX, m as int, SHIP_SPEED_MAX as int);
        }
        r
    } else {
        v
    }
}

fn ship_step_values(s: &Ships, i: usize, max_coords: Point, dt: i64) -> (r: (i64, Point, Triangle))
    requires
        s.wf(),
        i < MAX_SHIPS,
        s@.exists[i as int],
        valid_bounds(max_coords),
        0 <= dt <= MAX_DT,
    ensures
        r == ship_stepped(s@, i as int, max_coords, dt as int),
        ship_valid(r.2, r.1, r.0),
{
    assert(ship_valid(s@.triangle[i as int], s@.velocity[i as int], s@.angular_velocity[i as int]));
    assert(0 <= s@.acceleration[i as int] <= SHIP_ACCELERATION_LEVEL3);
    assert(-2 * SHIP_ANGULAR_ACCELERATION_LEVEL1 <= s@.angular_acceleration[i as int] <= 2
        * SHIP_ANGULAR_ACCELERATION_LEVEL1);
    let w = spin_update(
        s.angular_velocity[i],
        s.angular_acceleration[i],
        s.side_thrusters_level[i],
        dt,
    );
    let mut t = s.triangle[i];
    t.rotate_around_circumcenter(w, dt);
    let turned = t.clamped(FIELD_LIMIT);
    let heading = turned.direction();
    let v = limit_speed(velocity_update(s.velocity[i], s.acceleration[i], heading, dt));
    let r = turned.circumradius();
    let margin = if r > MARGIN_LIMIT { MARGIN_LIMIT } else { r };
    let mut moved = turned;
    moved.update_position_wraparound(v, max_coords, margin, dt);
    (w, v, moved.clamped(FIELD_LIMIT))
}

/// The bullet pool after the guns of ships `0..n` had their turn at time
/// `now`, in slot order.
pub open spec fn shots(s: ShipsView, b: BulletsView, now: u64, n: int) -> BulletsView
    decreases n,
{
    if n <= 0 {
        b
    } else {
        let before = shots(s, b, now, n - 1);
        if s.may_fire(n - 1, now) {
            before.created(s.triangle[n - 1].v1, direction_of(s.triangle[n - 1]))
        } else {
            before
        }
    }
}

/// A ship whose gun fired at time `t` cannot fire again before its fire
/// interval has elapsed, however its trigger is released and pressed again
/// in between.
pub proof fn lemma_no_refire_within_interval(s: ShipsView, i: int, t: u64, now: u64)
    requires
        s.wf(),
        0 <= i < MAX_SHIPS,
        s.gun_last_fired_t[i] == t,
        now < t + fire_interval(s.gun_level[i]),
    ensures
        !s.trigger_released(i).trigger_pressed(i).may_fire(i, now),
        !s.trigger_pressed(i).may_fire(i, now),
        !s.may_fire(i, now),
{
}

impl Default for Ships {
    fn default() -> (r: Ships)
        ensures
            r.wf(),
            none_taken(r@.exists),
    {
        Ships::new()
    }
}

impl Ships {
    pub open spec fn wf(&self) -> bool {
        self@.wf()
    }

    /// Advances every ship by `dt` microseconds (see `ship_stepped`).
    #[verifier::spinoff_prover]
    #[verifier::rlimit(50)]
    pub fn update_positions(&mut self, max_coords: Point, dt: i64)
        requires
            old(self).wf(),
            valid_bounds(max_coords),
            0 <= dt <= MAX_DT,
        ensures
            final(self).wf(),
            final(self)@ == (ShipsView {
                angular_velocity: final(self)@.angular_velocity,
                velocity: final(self)@.velocity,
                triangle: final(self)@.triangle,
                ..old(self)@
            }),
            forall|i: int|
                0 <= i < MAX_SHIPS ==> #[trigger] final(self)@.triangle[i] == (if old(self)@.exists[i] {
                    ship_stepped(old(self)@, i, max_coords, dt as int).2
                } else {
                    old(self)@.triangle[i]
                }) && final(self)@.velocity[i] == (if old(self)@.exists[i] {
                    ship_stepped(old(self)@, i, max_coords, dt as int).1
                } else {
                    old(self)@.velocity[i]
                }) && final(self)@.angular_velocity[i] == (if old(self)@.exists[i] {
                    ship_stepped(old(self)@, i, max_coords, dt as int).0
                } else {
                    old(self)@.angular_velocity[i]
                }),
    {
        let ghost start = self@;
        let mut i: usize = 0;
        while i < MAX_SHIPS
            invariant
                0 <= i <= MAX_SHIPS,
                0 <= dt <= MAX_DT,
                valid_bounds(max_coords),
                start == old(self)@,
                self.wf(),
                self@ == (ShipsView {
                    angular_velocity: self@.angular_velocity,
                    velocity: self@.velocity,
                    triangle: self@.triangle,
                    ..start
                }),
                forall|j: int| i <= j < MAX_SHIPS ==> #[trigger] self@.triangle[j] == start.triangle[j],
                forall|j: int| i <= j < MAX_SHIPS ==> #[trigger] self@.velocity[j] == start.velocity[j],
                forall|j: int|
                    i <= j < MAX_SHIPS ==> #[trigger] self@.angular_velocity[j]
                        == start.angular_velocity[j],
                forall|j: int|
                    0 <= j < i ==> #[trigger] self@.triangle[j] == (if start.exists[j] {
                        ship_stepped(start, j, max_coords, dt as int).2
                    } else {
                        start.triangle[j]
                    }),
                forall|j: int|
                    0 <= j < i ==> #[trigger] self@.velocity[j] == (if start.exists[j] {
                        ship_stepped(start, j, max_coords, dt as int).1
                    } else {
                        start.velocity[j]
                    }),
                forall|j: int|
                    0 <= j < i ==> #[trigger] self@.angular_velocity[j] == (if start.exists[j] {
                        ship_stepped(start, j, max_coords, dt as int).0
                    } else {
                        start.angular_velocity[j]
                    }),
            decreases MAX_SHIPS - i,
        {
            if self.exists[i] {
                proof {
                    assert(ship_stepped(self@, i as int, max_coords, dt as int) == ship_stepped(
                        start,
                        i as int,
                        max_coords,
                        dt as int,
                    ));
                }
                let (w, v, t) = ship_step_values(self, i, max_coords, dt);
                self.angular_velocity.set(i, w);
                self.velocity.set(i, v);
                self.triangle.set(i, t);
            }
            i += 1;
        }
    }

    /// Lets each ship's gun fire at time `now` (microseconds): one whose
    /// trigger is pressed and whose fire interval has elapsed fires a
    /// bullet from its nose along its heading. A gun that is not automatic
    /// then needs a new press. A shot that finds the bullet pool full is
    /// lost.
    pub fn update_shooting(&mut self, bullets: &mut Bullets, now: u64)
        requires
            old(self).wf(),
            old(bullets).wf(),
        ensures
            final(self).wf(),
            final(bullets).wf(),
            final(bullets)@ == shots(old(self)@, old(bullets)@, now, MAX_SHIPS as int),
            final(self)@ == (ShipsView {
                gun_trigger_pressed: final(self)@.gun_trigger_pressed,
                gun_last_fired_t: final(self)@.gun_last_fired_t,
                ..old(self)@
            }),
            forall|i: int|
                0 <= i < MAX_SHIPS ==> #[trigger] final(self)@.gun_last_fired_t[i] == (if old(
                    self,
                )@.may_fire(i, now) {
                    now
                } else {
                    old(self)@.gun_last_fired_t[i]
                }) && final(self)@.gun_trigger_pressed[i] == (if old(self)@.may_fire(i, now)
                    && !old(self)@.gun_auto[i] {
                    false
                } else {
                    old(self)@.gun_trigger_pressed[i]
                }),
    {
        let ghost start = self@;
        let mut i: usize = 0;
        while i < MAX_SHIPS
            invariant
                0 <= i <= MAX_SHIPS,
                start == old(self)@,
                self.wf(),
                bullets.wf(),
                bullets@ == shots(start, old(bullets)@, now, i as int),
                self@ == (ShipsView {
                    gun_trigger_pressed: self@.gun_trigger_pressed,
                    gun_last_fired_t: self@.gun_last_fired_t,
                    ..start
                }),
                forall|j: int|
                    i <= j < MAX_SHIPS ==> #[trigger] self@.gun_last_fired_t[j]
                        == start.gun_last_fired_t[j],
                forall|j: int|
                    i <= j < MAX_SHIPS ==> #[trigger] self@.gun_trigger_pressed[j]
                        == start.gun_trigger_pressed[j],
                forall|j: int|
                    0 <= j < i ==> #[trigger] self@.gun_last_fired_t[j] == (if start.may_fire(j, now) {
                        now
                    } else {
                        start.gun_last_fired_t[j]
                    }) && self@.gun_trigger_pressed[j] == (if start.may_fire(j, now)
                        && !start.gun_auto[j] {
                        false
                    } else {
                        start.gun_trigger_pressed[j]
                    }),
            decreases MAX_SHIPS - i,
        {
            let last = self.gun_last_fired_t[i];
            let fire = self.exists[i] && self.gun_trigger_pressed[i] && now >= last && now - last
                >= interval(self.gun_level[i]);
            assert(fire == start.may_fire(i as int, now));
            if fire {
                let t = self.triangle[i];
                assert(ship_valid(t, self@.velocity[i as int], self@.angular_velocity[i as int]));
                let heading = t.direction();
                let _ = bullets.create(t.v1, heading);
                if !self.gun_auto[i] {
                    self.gun_trigger_pressed.set(i, false);
                }
                self.gun_last_fired_t.set(i, now);
            }
            i += 1;
        }
    }

    /// An empty pool.
    pub fn new() -> (r: Ships)
        ensures
            r.wf(),
            none_taken(r@.exists),
    {
        let zero = Point { x: 0, y: 0 };
        Ships {
            exists: filled(false, MAX_SHIPS),
            hp: filled(0i8, MAX_SHIPS),
            triangle: filled(Triangle { v1: zero, v2: zero, v3: zero }, MAX_SHIPS),
            velocity: filled(zero, MAX_SHIPS),
            acceleration: filled(0i64, MAX_SHIPS),
            back_thruster_level: filled(UpgradeLevel::LEVEL1, MAX_SHIPS),
            angular_velocity: filled(0i64, MAX_SHIPS),
            angular_acceleration: filled(0i64, MAX_SHIPS),
            side_thrusters_level: filled(UpgradeLevel::LEVEL1, MAX_SHIPS),
            side_thruster_pressed: filled((false, false), MAX_SHIPS),
            gun_level: filled(UpgradeLevel::LEVEL1, MAX_SHIPS),
            gun_auto: filled(false, MAX_SHIPS),
            gun_trigger_pressed: filled(false, MAX_SHIPS),
            gun_trigger_released: filled(true, MAX_SHIPS),
            gun_last_fired_t: filled(0u64, MAX_SHIPS),
        }
    }

    /// Whether the pool holds no ship.
    pub fn none_exist(&self) -> (r: bool)
        ensures
            r == none_taken(self@.exists),
    {
        !any_set(&self.exists)
    }

    /// Creates a ship at rest in the lowest free slot, its hull's
    /// circumcenter at `position`, its gun last fired at time `now`.
    pub fn create(&mut self, position: Point, now: u64) -> (r: Result<usize, CapacityError>)
        requires
            old(self).wf(),
            within(position, BOUNDS_LIMIT as int),
        ensures
            final(self).wf(),
            match r {
                Ok(i) => {
                    let s = old(self)@;
                    &&& i == first_free(s.exists) && i < MAX_SHIPS
                    &&& final(self)@ == (ShipsView {
                        exists: s.exists.update(i as int, true),
                        hp: s.hp.update(i as int, SHIP_HEALTH),
                        triangle: s.triangle.update(i as int, spawn_triangle(position)),
                        velocity: s.velocity.update(i as int, Point { x: 0, y: 0 }),
                        acceleration: s.acceleration.update(i as int, 0),
                        back_thruster_level: s.back_thruster_level.update(i as int, UpgradeLevel::LEVEL1),
                        angular_velocity: s.angular_velocity.update(i as int, 0),
                        angular_acceleration: s.angular_acceleration.update(i as int, 0),
                        side_thrusters_level: s.side_thrusters_level.update(i as int, UpgradeLevel::LEVEL1),
                        side_thruster_pressed: s.side_thruster_pressed.update(i as int, (false, false)),
                        gun_level: s.gun_level.update(i as int, UpgradeLevel::LEVEL1),
                        gun_auto: s.gun_auto.update(i as int, false),
                        gun_trigger_pressed: s.gun_trigger_pressed.update(i as int, false),
                        gun_trigger_released: s.gun_trigger_released.update(i as int, true),
                        gun_last_fired_t: s.gun_last_fired_t.update(i as int, now),
                    })
                },
                Err(_) => all_taken(old(self)@.exists) && final(self)@ == old(self)@,
            },
    {
        proof {
            lemma_first_free(self@.exists);
        }
        match find_free(&self.exists) {
            Some(index) => {
                let hull = Triangle {
                    v1: Point { x: position.x, y: position.y - 2900 },
                    v2: Point { x: position.x + SHIP_WIDTH / 2, y: position.y + 2100 },
                    v3: Point { x: position.x - SHIP_WIDTH / 2, y: position.y + 2100 },
                };
                self.exists.set(index, true);
                self.hp.set(index, SHIP_HEALTH);
                self.triangle.set(index, hull);
                self.velocity.set(index, Point { x: 0, y: 0 });
                self.acceleration.set(index, 0);
                self.back_thruster_level.set(index, UpgradeLevel::LEVEL1);
                self.angular_velocity.set(index, 0);
                self.angular_acceleration.set(index, 0);
                self.side_thrusters_level.set(index, UpgradeLevel::LEVEL1);
                self.side_thruster_pressed.set(index, (false, false));
                self.gun_level.set(index, UpgradeLevel::LEVEL1);
                self.gun_last_fired_t.set(index, now);
                self.gun_trigger_pressed.set(index, false);
                self.gun_trigger_released.set(index, true);
                self.gun_auto.set(index, false);
                Ok(index)
            },
            None => Err(CapacityError),
        }
    }

    /// Presses the gun trigger of `player`'s ship; it arms only after a
    /// release.
    pub fn gun_trigger_pressed(&mut self, player: Player)
        requires
            old(self).wf(),
            player_index(player) < MAX_SHIPS,
        ensures
            final(self).wf(),
            final(self)@ == old(self)@.trigger_pressed(player_index(player)),
    {
        let index = player.to_index();
        if self.gun_trigger_released[index] {
            self.gun_trigger_pressed.set(index, true);
            self.gun_trigger_released.set(index, false);
        }
    }

    /// Releases the gun trigger of `player`'s ship.
    pub fn gun_trigger_released(&mut self, player: Player)
        requires
            old(self).wf(),
            player_index(player) < MAX_SHIPS,
        ensures
            final(self).wf(),
            final(self)@ == old(self)@.trigger_released(player_index(player)),
    {
        let index = player.to_index();
        self.gun_trigger_pressed.set(index, false);
        self.gun_trigger_released.set(index, true);
    }

    /// Turns on the back thruster of `player`'s ship at its level's thrust.
    pub fn accelerator_pressed(&mut self, player: Player)
        requires
            old(self).wf(),
            player_index(player) < MAX_SHIPS,
        ensures
            final(self).wf(),
            final(self)@ == (ShipsView {
                acceleration: old(self)@.acceleration.update(
                    player_index(player),
                    thrust_of(old(self)@.back_thruster_level[player_index(player)]),
                ),
                ..old(self)@
            }),
    {
        let index = player.to_index();
        let a = thrust(self.back_thruster_level[index]);
        self.acceleration.set(index, a);
    }

    /// Turns off the back thruster of `player`'s ship.
    pub fn accelerator_released(&mut self, player: Player)
        requires
            old(self).wf(),
            player_index(player) < MAX_SHIPS,
        ensures
            final(self).wf(),
            final(self)@ == (ShipsView {
                acceleration: old(self)@.acceleration.update(player_index(player), 0),
                ..old(self)@
            }),
    {
        let index = player.to_index();
        self.acceleration.set(index, 0);
    }

    fn set_side_thruster(&mut self, index: usize, direction: RotationDirection, on: bool)
        requires
            old(self).wf(),
            index < MAX_SHIPS,
        ensures
            final(self).wf(),
            final(self)@ == old(self)@.with_side_thrusters(
                index as int,
                set_thruster(old(self)@.side_thruster_pressed[index as int], direction, on),
            ),
    {
        let flags = self.side_thruster_pressed[index];
        let pressed = match direction {
            RotationDirection::COUNTERCLOCKWISE => (on, flags.1),
            RotationDirection::CLOCKWISE => (flags.0, on),
        };
        let rate = spin(self.side_thrusters_level[index]);
        let clockwise = if pressed.1 { rate } else { 0 };
        let counterclockwise = if pressed.0 { rate } else { 0 };
        self.side_thruster_pressed.set(index, pressed);
        self.angular_acceleration.set(index, clockwise - counterclockwise);
    }

    /// Fires the side thruster of `player`'s ship that turns it in
    /// `direction`; the two side thrusters together cancel out.
    pub fn side_thruster_pressed(&mut self, player: Player, direction: RotationDirection)
        requires
            old(self).wf(),
            player_index(player) < MAX_SHIPS,
        ensures
            final(self).wf(),
            final(self)@ == old(self)@.with_side_thrusters(
                player_index(player),
                set_thruster(old(self)@.side_thruster_pressed[player_index(player)], direction, true),
            ),
    {
        let index = player.to_index();
        self.set_side_thruster(index, direction, true);
    }

    /// Stops the side thruster of `player`'s ship that turns it in
    /// `direction`.
    pub fn side_thruster_released(&mut self, player: Player, direction: RotationDirection)
        requires
            old(self).wf(),
            player_index(player) < MAX_SHIPS,
        ensures
            final(self).wf(),
            final(self)@ == old(self)@.with_side_thrusters(
                player_index(player),
                set_thruster(old(self)@.side_thruster_pressed[player_index(player)], direction, false),
            ),
    {
        let index = player.to_index();
        self.set_side_thruster(index, direction, false);
    }
}

} // verus!
