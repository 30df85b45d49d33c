//! Asteroids: size classes, speeds, spawning, movement and fragmentation.
use vstd::prelude::*;
use crate::geometry::{
    Bounds, Heading, Vec2, displace, moved, scale_heading, scaled, HALF_UNIT, MAX_COORD,
    MAX_SPEED, MAX_STEP_MS, POS_PER_UNIT,
};
use crate::random::{in_seed_area, seed_position, seeded_at};

verus! {

/// Diameters, in units.
pub const ASTEROID_LARGE_SIZE: i64 = 80;
pub const ASTEROID_MEDIUM_SIZE: i64 = 40;
pub const ASTEROID_SMALL_SIZE: i64 = 20;

/// Speeds, in units per second.
pub const ASTEROID_LARGE_SPEED: i64 = 50;
pub const ASTEROID_MEDIUM_SPEED: i64 = 75;
pub const ASTEROID_SMALL_SPEED: i64 = 100;

/// How many large asteroids a round starts with.
pub const INITIAL_ASTEROIDS: usize = 4;

/// The size class of an asteroid.
#[derive(Clone, Copy, Debug, PartialEq, Eq, Structural)]
pub enum AsteroidSize {
    Large,
    Medium,
    Small,
}

impl AsteroidSize {
    pub open spec fn diameter_spec(self) -> i64 {
        match self {
            AsteroidSize::Large => ASTEROID_LARGE_SIZE,
            AsteroidSize::Medium => ASTEROID_MEDIUM_SIZE,
            AsteroidSize::Small => ASTEROID_SMALL_SIZE,
        }
    }

    pub open spec fn speed_spec(self) -> i64 {
        match self {
            AsteroidSize::Large => ASTEROID_LARGE_SPEED,
            AsteroidSize::Medium => ASTEROID_MEDIUM_SPEED,
            AsteroidSize::Small => ASTEROID_SMALL_SPEED,
        }
    }

    /// Collision radius in position subdivisions.
    pub open spec fn radius_spec(self) -> i64 {
        (self.diameter_spec() * HALF_UNIT) as i64
    }

    /// Diameter in units.
    pub fn diameter(&self) -> (r: i64)
        ensures
            r == self.diameter_spec(),
    {
        match self {
            AsteroidSize::Large => ASTEROID_LARGE_SIZE,
            AsteroidSize::Medium => ASTEROID_MEDIUM_SIZE,
            AsteroidSize::Small => ASTEROID_SMALL_SIZE,
        }
    }

    /// Speed in units per second.
    pub fn speed(&self) -> (r: i64)
        ensures
            r == self.speed_spec(),
    {
        match self {
            AsteroidSize::Large => ASTEROID_LARGE_SPEED,
            AsteroidSize::Medium => ASTEROID_MEDIUM_SPEED,
            AsteroidSize::Small => ASTEROID_SMALL_SPEED,
        }
    }

    /// Collision radius in position subdivisions.
    pub fn radius(&self) -> (r: i64)
        ensures
            r == self.radius_spec(),
            0 < r <= 40 * POS_PER_UNIT,
    {
        self.diameter() * HALF_UNIT
    }
}

/// The velocity of an asteroid, in millionths of a unit per second.
#[derive(Clone, Copy, Debug, PartialEq, Eq, Structural)]
pub struct AsteroidVelocity(pub Vec2);

/// An asteroid: its size class, position and velocity.
#[derive(Clone, Copy, Debug, PartialEq, Eq, Structural)]
pub struct Asteroid {
    pub size: AsteroidSize,
    pub pos: Vec2,
    pub vel: AsteroidVelocity,
}

impl Asteroid {
    pub open spec fn wf(self) -> bool {
        self.pos.within(MAX_COORD as int) && self.vel.0.within(MAX_SPEED as int)
    }
}

/// The asteroid of class `size` at `pos` moving along `h` at that class's speed.
pub open spec fn launched(size: AsteroidSize, pos: Vec2, h: Heading) -> Asteroid {
    Asteroid { size, pos, vel: AsteroidVelocity(scaled(h, size.speed_spec())) }
}

/// What destroying `a` leaves behind: two asteroids of the next smaller class
/// at its position, moving along `h1` and `h2` at that class's speed; nothing
/// for a small one.
pub open spec fn fragments(a: Asteroid, h1: Heading, h2: Heading) -> Seq<Asteroid> {
    match a.size {
        AsteroidSize::Large => seq![
            launched(AsteroidSize::Medium, a.pos, h1),
            launched(AsteroidSize::Medium, a.pos, h2),
        ],
        AsteroidSize::Medium => seq![
            launched(AsteroidSize::Small, a.pos, h1),
            launched(AsteroidSize::Small, a.pos, h2),
        ],
        AsteroidSize::Small => seq![],
    }
}

/// The asteroid of class `size` at `pos` moving along `h`.
pub fn launch(size: AsteroidSize, pos: Vec2, h: Heading) -> (r: Asteroid)
    requires
        h.wf(),
    ensures
        r == launched(size, pos, h),
        r.vel.0.within(MAX_SPEED as int),
{
    Asteroid { size, pos, vel: AsteroidVelocity(scale_heading(h, size.speed())) }
}

/// Appends to `out` what destroying `a` leaves behind.
pub fn fragment(a: &Asteroid, h1: Heading, h2: Heading, out: &mut Vec<Asteroid>)
    requires
        a.wf(),
        h1.wf(),
        h2.wf(),
    ensures
        final(out)@ == old(out)@ + fragments(*a, h1, h2),
        forall|k: int|
            old(out)@.len() <= k < final(out)@.len() ==> (#[trigger] final(out)@[k]).wf(),
{
    let smaller = match a.size {
        AsteroidSize::Large => AsteroidSize::Medium,
        AsteroidSize::Medium => AsteroidSize::Small,
        AsteroidSize::Small => {
            assert(old(out)@ + fragments(*a, h1, h2) =~= old(out)@);
            return ;
        },
    };
    out.push(launch(smaller, a.pos, h1));
    out.push(launch(smaller, a.pos, h2));
    assert(final(out)@ =~= old(out)@ + fragments(*a, h1, h2));
}

/// Adds an asteroid of class `size` at `position` with `velocity`.
pub fn spawn_asteroid(
    asteroids: &mut Vec<Asteroid>,
    size: AsteroidSize,
    position: Vec2,
    velocity: Vec2,
)
    ensures
        final(asteroids)@ == old(asteroids)@.push(
            Asteroid { size, pos: position, vel: AsteroidVelocity(velocity) },
        ),
{
    asteroids.push(Asteroid { size, pos: position, vel: AsteroidVelocity(velocity) });
}

/// Adds `INITIAL_ASTEROIDS` large asteroids at positions chosen by
/// `seed_position` (clear of the centre unless every sample was not), the
/// `k`-th moving along `headings[k]` at the large speed.
pub fn spawn_initial_asteroids(asteroids: &mut Vec<Asteroid>, b: Bounds, headings: &Vec<Heading>)
    requires
        b.wf(),
        headings.len() >= INITIAL_ASTEROIDS,
        forall|k: int| 0 <= k < headings.len() ==> (#[trigger] headings[k]).wf(),
    ensures
        final(asteroids)@.len() == old(asteroids)@.len() + INITIAL_ASTEROIDS,
        final(asteroids)@.take(old(asteroids)@.len() as int) == old(asteroids)@,
        forall|k: int|
            0 <= k < INITIAL_ASTEROIDS ==> {
                let a = #[trigger] final(asteroids)@[old(asteroids)@.len() + k];
                &&& a == launched(AsteroidSize::Large, a.pos, headings[k])
                &&& in_seed_area(a.pos, b)
                &&& seeded_at(a.pos, b)
                &&& a.wf()
            },
{
    let ghost start = asteroids@;
    let mut k: usize = 0;
    while k < INITIAL_ASTEROIDS
        invariant
            b.wf(),
            headings.len() >= INITIAL_ASTEROIDS,
            forall|j: int| 0 <= j < headings.len() ==> (#[trigger] headings[j]).wf(),
            0 <= k <= INITIAL_ASTEROIDS,
            asteroids@.len() == start.len() + k,
            asteroids@.take(start.len() as int) == start,
            forall|j: int|
                0 <= j < k ==> {
                    let a = #[trigger] asteroids@[start.len() + j];
                    &&& a == launched(AsteroidSize::Large, a.pos, headings[j])
                    &&& in_seed_area(a.pos, b)
                    &&& seeded_at(a.pos, b)
                    &&& a.wf()
                },
        decreases INITIAL_ASTEROIDS - k,
    {
        let pos = seed_position(b);
        let a = launch(AsteroidSize::Large, pos, headings[k]);
        let ghost before = asteroids@;
        asteroids.push(a);
        assert(asteroids@.take(start.len() as int) =~= before.take(start.len() as int));
        assert forall|j: int| 0 <= j < k + 1 implies {
            let a = #[trigger] asteroids@[start.len() + j];
            &&& a == launched(AsteroidSize::Large, a.pos, headings[j])
            &&& in_seed_area(a.pos, b)
            &&& seeded_at(a.pos, b)
            &&& a.wf()
        } by {
            if j < k {
                assert(asteroids@[start.len() + j] == before[start.len() + j]);
            }
        }
        k = k + 1;
    }
}

/// Every asteroid moved by its velocity for `dt_ms` milliseconds.
pub open spec fn asteroids_moved(s: Seq<Asteroid>, dt_ms: u64) -> Seq<Asteroid> {
    s.map_values(|a: Asteroid| Asteroid { pos: moved(a.pos, a.vel.0, dt_ms), ..a })
}

/// Moves every asteroid by its velocity for `dt_ms` milliseconds.
pub fn move_asteroids(asteroids: &mut Vec<Asteroid>, dt_ms: u64)
    requires
        forall|i: int| 0 <= i < old(asteroids)@.len() ==> (#[trigger] old(asteroids)@[i]).wf(),
        dt_ms <= MAX_STEP_MS,
    ensures
        final(asteroids)@ == asteroids_moved(old(asteroids)@, dt_ms),
        forall|i: int|
            0 <= i < final(asteroids)@.len() ==> {
                &&& (#[trigger] final(asteroids)@[i]).pos.x == old(asteroids)@[i].pos.x
                    + old(asteroids)@[i].vel.0.x * dt_ms
                &&& final(asteroids)@[i].pos.y == old(asteroids)@[i].pos.y
                    + old(asteroids)@[i].vel.0.y * dt_ms
            },
{
    let n = asteroids.len();
    let mut i: usize = 0;
    while i < n
        invariant
            n == asteroids@.len() == old(asteroids)@.len(),
            dt_ms <= MAX_STEP_MS,
            forall|j: int| 0 <= j < n ==> (#[trigger] old(asteroids)@[j]).wf(),
            0 <= i <= n,
            forall|j: int|
                i <= j < n ==> #[trigger] asteroids@[j] == old(asteroids)@[j],
            forall|j: int|
                0 <= j < i ==> {
                    &&& #[trigger] asteroids@[j] == asteroids_moved(old(asteroids)@, dt_ms)[j]
                    &&& asteroids@[j].pos.x == old(asteroids)@[j].pos.x + old(
                        asteroids,
                    )@[j].vel.0.x * dt_ms
                    &&& asteroids@[j].pos.y == old(asteroids)@[j].pos.y + old(
                        asteroids,
                    )@[j].vel.0.y * dt_ms
                },
        decreases n - i,
    {
        let a = asteroids[i];
        let pos = displace(a.pos, a.vel.0, dt_ms);
        asteroids.set(i, Asteroid { pos, ..a });
        i = i + 1;
    }
    assert(asteroids@ =~= asteroids_moved(old(asteroids)@, dt_ms));
}

} // verus!
