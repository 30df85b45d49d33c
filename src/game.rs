//! The world of one game: the entity store, the score, the spawn timer and the
//! round state machine, and the frame step that runs every subsystem in order.
use vstd::prelude::*;
use crate::asteroid::{
    Asteroid, AsteroidSize, asteroids_moved, launched, move_asteroids, spawn_asteroid,
    spawn_initial_asteroids, ASTEROID_LARGE_SPEED, INITIAL_ASTEROIDS,
};
use crate::geometry::{aim, aimed, Bounds, Heading, MAX_STEP_MS};
use crate::mechanics::{
    bullet_asteroid_collision, bullets_aged, bullets_moved, debris, despawn_bullets,
    despawn_out_of_bounds_bullets, fired, inside, intact, lemma_filter_all, missed, move_bullets,
    player_asteroid_collision, player_wrapped, asteroids_wrapped, rammed, spawn_bullet,
    wrap_around_screen, Bullet,
};
use crate::player::{player_moved, player_movement, spawn_player, Player};
use crate::random::{entry_point, in_seed_area, is_entry_point, seeded_at};

verus! {

/// Period of the asteroid spawn timer, in milliseconds.
pub const SPAWN_PERIOD_MS: u64 = 5000;

/// Longest period a spawn timer may have, in milliseconds.
pub const MAX_PERIOD_MS: u64 = 1_000_000_000_000;

/// The round state.
#[derive(Clone, Copy, Debug, PartialEq, Eq, Structural)]
pub enum GameState {
    Loading,
    Playing,
    GameOver,
}

/// Asteroids destroyed this round.
#[derive(Clone, Copy, Debug, PartialEq, Eq, Structural)]
pub struct Score(pub u64);

/// A repeating countdown that fires at most once per tick.
#[derive(Clone, Copy, Debug, PartialEq, Eq, Structural)]
pub struct AsteroidSpawnTimer {
    pub elapsed_ms: u64,
    pub period_ms: u64,
}

impl AsteroidSpawnTimer {
    pub open spec fn wf(self) -> bool {
        0 < self.period_ms <= MAX_PERIOD_MS && self.elapsed_ms < self.period_ms
    }

    /// The timer after `dt_ms` more milliseconds, and whether it fired. When it
    /// fires it keeps only the remainder of a period, so it fires once however
    /// far it overshot.
    pub open spec fn ticked(self, dt_ms: u64) -> (AsteroidSpawnTimer, bool) {
        let e = self.elapsed_ms + dt_ms;
        if e >= self.period_ms {
            (
                AsteroidSpawnTimer { elapsed_ms: (e % self.period_ms as int) as u64, ..self },
                true,
            )
        } else {
            (AsteroidSpawnTimer { elapsed_ms: e as u64, ..self }, false)
        }
    }

    /// A timer of `period_ms` milliseconds that has just started.
    pub fn new(period_ms: u64) -> (r: AsteroidSpawnTimer)
        requires
            0 < period_ms <= MAX_PERIOD_MS,
        ensures
            r.elapsed_ms == 0,
            r.period_ms == period_ms,
            r.wf(),
    {
        AsteroidSpawnTimer { elapsed_ms: 0, period_ms }
    }

    /// Advances the timer by `dt_ms`; returns whether it fired.
    pub fn tick(&mut self, dt_ms: u64) -> (fired: bool)
        requires
            old(self).wf(),
            dt_ms <= MAX_STEP_MS,
        ensures
            (*final(self), fired) == old(self).ticked(dt_ms),
            final(self).wf(),
    {
        let e = self.elapsed_ms + dt_ms;
        if e >= self.period_ms {
            self.elapsed_ms = e % self.period_ms;
            true
        } else {
            self.elapsed_ms = e;
            false
        }
    }
}

/// What the player asks for in one frame. `turn` is in thousandths of full
/// turning input, positive counter-clockwise; `fire` and `restart` are true
/// only on the frame the control was pressed.
#[derive(Clone, Copy, Debug, PartialEq, Eq, Structural)]
pub struct Controls {
    pub turn: i64,
    pub thrust: bool,
    pub fire: bool,
    pub restart: bool,
}

/// The whole simulation: the round state, the score, the spawn timer and
/// the entities.
pub struct World {
    pub state: GameState,
    pub score: Score,
    pub timer: AsteroidSpawnTimer,
    pub player: Option<Player>,
    pub asteroids: Vec<Asteroid>,
    pub bullets: Vec<Bullet>,
}

/// A world as values.
pub struct WorldView {
    pub state: GameState,
    pub score: u64,
    pub timer: AsteroidSpawnTimer,
    pub player: Option<Player>,
    pub asteroids: Seq<Asteroid>,
    pub bullets: Seq<Bullet>,
}

impl View for World {
    type V = WorldView;

    open spec fn view(&self) -> WorldView {
        WorldView {
            state: self.state,
            score: self.score.0,
            timer: self.timer,
            player: self.player,
            asteroids: self.asteroids@,
            bullets: self.bullets@,
        }
    }
}

impl WorldView {
    /// The ship exists only while playing; every entity is within the limits
    /// of the arithmetic.
    pub open spec fn wf(self) -> bool {
        &&& self.timer.wf()
        &&& match self.player {
            Some(p) => p.wf() && self.state == GameState::Playing,
            None => true,
        }
        &&& forall|i: int| 0 <= i < self.asteroids.len() ==> (#[trigger] self.asteroids[i]).wf()
        &&& forall|j: int| 0 <= j < self.bullets.len() ==> (#[trigger] self.bullets[j]).wf()
    }

    /// No ship, asteroid or projectile is left.
    pub open spec fn empty(self) -> bool {
        self.player is None && self.asteroids.len() == 0 && self.bullets.len() == 0
    }
}

/// Movement: the ship turns and thrusts, then every entity drifts by its
/// velocity.
pub open spec fn motion_stage(
    w: WorldView,
    turn: i64,
    thrust: bool,
    facing: Heading,
    dt_ms: u64,
) -> WorldView {
    WorldView {
        player: match w.player {
            Some(p) => Some(player_moved(p, turn, thrust, facing, dt_ms)),
            None => None,
        },
        asteroids: asteroids_moved(w.asteroids, dt_ms),
        bullets: bullets_moved(w.bullets, dt_ms),
        ..w
    }
}

/// Wrap: the ship and the asteroids jump across the edges they passed.
pub open spec fn wrap_stage(w: WorldView, b: Bounds) -> WorldView {
    WorldView {
        player: player_wrapped(w.player, b),
        asteroids: asteroids_wrapped(w.asteroids, b),
        ..w
    }
}

/// Projectile lifecycle: ageing, expiry, leaving the rectangle, then firing.
pub open spec fn lifecycle_stage(
    w: WorldView,
    fire: bool,
    facing: Heading,
    dt_ms: u64,
    b: Bounds,
) -> WorldView {
    let left = bullets_aged(w.bullets, dt_ms).filter(inside(b));
    WorldView {
        bullets: match w.player {
            Some(p) => if fire {
                left.push(fired(p, facing))
            } else {
                left
            },
            None => left,
        },
        ..w
    }
}

/// Collisions, all against the entities as they stand when the pass begins:
/// struck asteroids break up and score one each, projectiles that hit are
/// removed, and an asteroid touching the ship ends the round.
pub open spec fn collision_stage(w: WorldView, shards: Seq<Heading>) -> WorldView {
    let kept = w.asteroids.filter(intact(w.bullets));
    let destroyed = w.asteroids.len() - kept.len();
    let hit = w.player matches Some(p) && rammed(p, w.asteroids);
    WorldView {
        state: if hit {
            GameState::GameOver
        } else {
            w.state
        },
        score: if w.score + destroyed > u64::MAX {
            u64::MAX
        } else {
            (w.score + destroyed) as u64
        },
        player: if hit {
            None
        } else {
            w.player
        },
        asteroids: kept + debris(w.asteroids, w.bullets, shards),
        bullets: w.bullets.filter(missed(w.asteroids)),
        ..w
    }
}

/// Everything a playing frame does before the spawn timer.
pub open spec fn frame_stages(
    w: WorldView,
    c: Controls,
    facing: Heading,
    shards: Seq<Heading>,
    dt_ms: u64,
    b: Bounds,
) -> WorldView {
    collision_stage(
        lifecycle_stage(wrap_stage(motion_stage(w, c.turn, c.thrust, facing, dt_ms), b), c.fire, facing, dt_ms, b),
        shards,
    )
}

/// `after` is `before` with `INITIAL_ASTEROIDS` large asteroids added, the
/// `k`-th moving along `headings[k]`, all in the play rectangle.
pub open spec fn seeded(before: Seq<Asteroid>, after: Seq<Asteroid>, b: Bounds, headings: Seq<Heading>) -> bool {
    &&& after.len() == before.len() + INITIAL_ASTEROIDS
    &&& after.take(before.len() as int) == before
    &&& forall|k: int|
        0 <= k < INITIAL_ASTEROIDS ==> {
            let a = #[trigger] after[before.len() + k];
            &&& a == launched(AsteroidSize::Large, a.pos, headings[k])
            &&& in_seed_area(a.pos, b)
            &&& seeded_at(a.pos, b)
        }
}

/// The asteroid that the spawn timer adds: large, at an entry point outside
/// an edge, moving toward the centre turned by `spin`.
pub open spec fn is_timed_arrival(a: Asteroid, spin: Heading, b: Bounds) -> bool {
    &&& a.size == AsteroidSize::Large
    &&& is_entry_point(a.pos, b)
    &&& a.vel.0 == aimed(a.pos, spin, ASTEROID_LARGE_SPEED)
}

impl World {
    pub open spec fn wf(&self) -> bool {
        self@.wf()
    }

    /// A world waiting for its assets, with no entities and a score of zero.
    pub fn new() -> (r: World)
        ensures
            r.state == GameState::Loading,
            r@.score == 0,
            r@.empty(),
            r.timer == (AsteroidSpawnTimer { elapsed_ms: 0, period_ms: SPAWN_PERIOD_MS }),
            r.wf(),
    {
        World {
            state: GameState::Loading,
            score: Score(0),
            timer: AsteroidSpawnTimer::new(SPAWN_PERIOD_MS),
            player: None,
            asteroids: Vec::new(),
            bullets: Vec::new(),
        }
    }

    /// The entry action of a round: a ship at the centre and
    /// `INITIAL_ASTEROIDS` large asteroids, the `k`-th moving along
    /// `headings[k]`.
    pub fn begin_round(&mut self, b: Bounds, headings: &Vec<Heading>)
        requires
            old(self).wf(),
            old(self).state == GameState::Playing,
            b.wf(),
            headings.len() >= INITIAL_ASTEROIDS,
            forall|k: int| 0 <= k < headings.len() ==> (#[trigger] headings[k]).wf(),
        ensures
            final(self).player == Some(spawn_player_value()),
            seeded(old(self)@.asteroids, final(self)@.asteroids, b, headings@),
            final(self)@.bullets == old(self)@.bullets,
            final(self).state == old(self).state,
            final(self).score == old(self).score,
            final(self).timer == old(self).timer,
            final(self).wf(),
    {
        self.player = Some(spawn_player());
        spawn_initial_asteroids(&mut self.asteroids, b, headings);
        proof {
            let before = old(self)@.asteroids;
            let after = self.asteroids@;
            assert forall|i: int| 0 <= i < after.len() implies (#[trigger] after[i]).wf() by {
                if i < before.len() {
                    assert(after[i] == after.take(before.len() as int)[i]);
                } else {
                    assert(after[before.len() + (i - before.len())].wf());
                }
            }
        }
    }

    /// Leaves `Loading` for `Playing` once both assets are ready, and begins
    /// the round; otherwise changes nothing.
    pub fn finish_loading(
        &mut self,
        player_ready: bool,
        asteroid_ready: bool,
        b: Bounds,
        headings: &Vec<Heading>,
    )
        requires
            old(self).wf(),
            b.wf(),
            headings.len() >= INITIAL_ASTEROIDS,
            forall|k: int| 0 <= k < headings.len() ==> (#[trigger] headings[k]).wf(),
        ensures
            final(self).wf(),
            if old(self).state == GameState::Loading && player_ready && asteroid_ready {
                &&& final(self).state == GameState::Playing
                &&& final(self).player == Some(spawn_player_value())
                &&& seeded(old(self)@.asteroids, final(self)@.asteroids, b, headings@)
                &&& final(self)@.bullets == old(self)@.bullets
                &&& final(self).score == old(self).score
            } else {
                final(self)@ == old(self)@
            },
    {
        if self.state == GameState::Loading && player_ready && asteroid_ready {
            self.state = GameState::Playing;
            assert(self@.asteroids == old(self)@.asteroids);
            assert(self@.bullets == old(self)@.bullets);
            self.begin_round(b, headings);
        }
    }

    /// Leaves `GameOver` for `Playing`: every entity is removed and the score
    /// goes back to zero. In any other state nothing changes.
    pub fn reset_round(&mut self)
        requires
            old(self).wf(),
        ensures
            final(self).wf(),
            if old(self).state == GameState::GameOver {
                &&& final(self).state == GameState::Playing
                &&& final(self)@.score == 0
                &&& final(self)@.empty()
                &&& final(self).timer == old(self).timer
            } else {
                final(self)@ == old(self)@
            },
    {
        if self.state == GameState::GameOver {
            self.state = GameState::Playing;
            self.score = Score(0);
            self.player = None;
            self.asteroids = Vec::new();
            self.bullets = Vec::new();
        }
    }

    /// On the restart control in `GameOver`: resets the round and begins a
    /// new one. Otherwise nothing changes.
    pub fn restart(&mut self, c: &Controls, b: Bounds, headings: &Vec<Heading>)
        requires
            old(self).wf(),
            b.wf(),
            headings.len() >= INITIAL_ASTEROIDS,
            forall|k: int| 0 <= k < headings.len() ==> (#[trigger] headings[k]).wf(),
        ensures
            final(self).wf(),
            if old(self).state == GameState::GameOver && c.restart {
                &&& final(self).state == GameState::Playing
                &&& final(self)@.score == 0
                &&& final(self).player == Some(spawn_player_value())
                &&& seeded(Seq::empty(), final(self)@.asteroids, b, headings@)
                &&& final(self)@.bullets.len() == 0
            } else {
                final(self)@ == old(self)@
            },
    {
        if self.state == GameState::GameOver && c.restart {
            self.reset_round();
            assert(self@.asteroids =~= Seq::<Asteroid>::empty());
            self.begin_round(b, headings);
        }
    }

    /// One playing frame: movement, wrap, the projectile lifecycle, the
    /// collision pass, then the spawn timer. `facing` is the ship's heading
    /// after this frame's turn, `shards` the headings of fragments (two per
    /// asteroid), `spin` the turn of a timed arrival's course. Outside
    /// `Playing` nothing changes.
    pub fn advance(
        &mut self,
        c: &Controls,
        facing: Heading,
        spin: Heading,
        shards: &Vec<Heading>,
        dt_ms: u64,
        b: Bounds,
    )
        requires
            old(self).wf(),
            b.wf(),
            facing.wf(),
            spin.wf(),
            dt_ms <= MAX_STEP_MS,
            shards@.len() >= 2 * old(self)@.asteroids.len(),
            forall|k: int| 0 <= k < shards@.len() ==> (#[trigger] shards@[k]).wf(),
        ensures
            final(self).wf(),
            old(self).state != GameState::Playing ==> final(self)@ == old(self)@,
            old(self).state == GameState::Playing ==> {
                let mid = frame_stages(old(self)@, *c, facing, shards@, dt_ms, b);
                let (timer, fires) = old(self).timer.ticked(dt_ms);
                &&& final(self).state == mid.state
                &&& final(self)@.score == mid.score
                &&& final(self).player == mid.player
                &&& final(self)@.bullets == mid.bullets
                &&& final(self).timer == timer
                &&& if fires {
                    &&& final(self)@.asteroids.len() == mid.asteroids.len() + 1
                    &&& final(self)@.asteroids.drop_last() == mid.asteroids
                    &&& is_timed_arrival(final(self)@.asteroids.last(), spin, b)
                } else {
                    final(self)@.asteroids == mid.asteroids
                }
            },
    {
        if self.state != GameState::Playing {
            return ;
        }
        let ghost w0 = self@;
        if let Some(p) = self.player {
            let mut q = p;
            player_movement(&mut q, c.turn, c.thrust, facing, dt_ms);
            self.player = Some(q);
        }
        move_asteroids(&mut self.asteroids, dt_ms);
        move_bullets(&mut self.bullets, dt_ms);
        let ghost w1 = self@;
        assert(w1 == motion_stage(w0, c.turn, c.thrust, facing, dt_ms));
        wrap_around_screen(&mut self.player, &mut self.asteroids, b);
        let ghost w2 = self@;
        assert(w2 == wrap_stage(w1, b));
        despawn_bullets(&mut self.bullets, dt_ms);
        despawn_out_of_bounds_bullets(&mut self.bullets, b);
        proof {
            let aged = w1.bullets.map_values(|x: Bullet| crate::mechanics::aged(x, dt_ms));
            assert forall|j: int| 0 <= j < aged.len() implies (#[trigger] aged[j]).vel.0.within(
                crate::geometry::MAX_SPEED as int,
            ) by {
                assert(w0.bullets[j].wf());
            }
            lemma_filter_all(aged, crate::mechanics::alive(), |x: Bullet| x.vel.0.within(crate::geometry::MAX_SPEED as int));
            let left = bullets_aged(w1.bullets, dt_ms);
            assert(self.bullets@ == left.filter(inside(b)));
            lemma_filter_all(left, inside(b), |x: Bullet| x.vel.0.within(crate::geometry::MAX_SPEED as int));
            let s = left.filter(inside(b));
            assert forall|j: int| 0 <= j < s.len() implies (#[trigger] s[j]).wf() by {
                left.lemma_filter_pred(inside(b), j);
            }
        }
        spawn_bullet(&mut self.bullets, &self.player, facing, c.fire);
        let ghost w3 = self@;
        assert(w3 == lifecycle_stage(w2, c.fire, facing, dt_ms, b));
        let hit = player_asteroid_collision(&mut self.player, &self.asteroids);
        let destroyed = bullet_asteroid_collision(&mut self.bullets, &mut self.asteroids, shards);
        self.score = Score(self.score.0.saturating_add(destroyed as u64));
        if hit {
            self.state = GameState::GameOver;
        }
        let ghost w4 = self@;
        assert(w4 == collision_stage(w3, shards@));
        if self.timer.tick(dt_ms) {
            let pos = entry_point(b);
            let vel = aim(pos, spin, ASTEROID_LARGE_SPEED);
            spawn_asteroid(&mut self.asteroids, AsteroidSize::Large, pos, vel);
            assert(self@.asteroids.drop_last() =~= w4.asteroids);
        }
    }
}

/// The ship that a round begins with.
pub open spec fn spawn_player_value() -> Player {
    Player {
        pos: crate::geometry::Vec2 { x: 0, y: 0 },
        vel: crate::player::PlayerVelocity(crate::geometry::Vec2 { x: 0, y: 0 }),
        angle: 0,
    }
}

} // verus!
