//! Properties that hold across the subsystems, stated and proved.
use vstd::prelude::*;
use crate::asteroid::{
    fragments, Asteroid, AsteroidSize, AsteroidVelocity, ASTEROID_MEDIUM_SPEED, ASTEROID_SMALL_SPEED,
};
use crate::game::{motion_stage, wrap_stage, WorldView};
use crate::geometry::{
    moved, overlaps, scaled, wrapped, Bounds, Heading, Vec2, HEADING_MAX_SQ, HEADING_MIN_SQ, MAX_COORD,
    MAX_SPEED, MAX_STEP_MS,
};
use crate::mechanics::{
    aged, alive, asteroids_wrapped, bullet_reach, bullets_aged, debris, intact, life_after, missed,
    player_wrapped, strikes, struck, Bullet, BulletLifetime,
};

verus! {

/// A point that moves for `dt_ms` lands exactly at its position plus its
/// velocity times the step.
proof fn lemma_moved_exact(p: Vec2, v: Vec2, dt_ms: u64)
    requires
        p.within(MAX_COORD as int),
        v.within(MAX_SPEED as int),
        dt_ms <= MAX_STEP_MS,
    ensures
        moved(p, v, dt_ms).x == p.x + v.x * dt_ms,
        moved(p, v, dt_ms).y == p.y + v.y * dt_ms,
{
    let (vx, vy, t) = (v.x as int, v.y as int, dt_ms as int);
    assert(-MAX_SPEED * MAX_STEP_MS <= vx * t <= MAX_SPEED * MAX_STEP_MS) by (nonlinear_arith)
        requires
            -MAX_SPEED <= vx <= MAX_SPEED,
            0 <= t <= MAX_STEP_MS,
    ;
    assert(-MAX_SPEED * MAX_STEP_MS <= vy * t <= MAX_SPEED * MAX_STEP_MS) by (nonlinear_arith)
        requires
            -MAX_SPEED <= vy <= MAX_SPEED,
            0 <= t <= MAX_STEP_MS,
    ;
}

/// Movement: in one tick every asteroid and every projectile advances by its
/// own velocity times the step, and the ship by its velocity after thrust;
/// nothing else in the world has any effect on it.
pub proof fn movement_is_velocity_times_step(
    w: WorldView,
    turn: i64,
    thrust: bool,
    facing: Heading,
    dt_ms: u64,
)
    requires
        w.wf(),
        facing.wf(),
        dt_ms <= MAX_STEP_MS,
    ensures
        ({
            let m = motion_stage(w, turn, thrust, facing, dt_ms);
            &&& m.asteroids.len() == w.asteroids.len()
            &&& m.bullets.len() == w.bullets.len()
            &&& forall|i: int|
                0 <= i < w.asteroids.len() ==> {
                    &&& (#[trigger] m.asteroids[i]).pos.x == w.asteroids[i].pos.x
                        + w.asteroids[i].vel.0.x * dt_ms
                    &&& m.asteroids[i].pos.y == w.asteroids[i].pos.y + w.asteroids[i].vel.0.y
                        * dt_ms
                    &&& m.asteroids[i].vel == w.asteroids[i].vel
                }
            &&& forall|j: int|
                0 <= j < w.bullets.len() ==> {
                    &&& (#[trigger] m.bullets[j]).pos.x == w.bullets[j].pos.x + w.bullets[j].vel.0.x
                        * dt_ms
                    &&& m.bullets[j].pos.y == w.bullets[j].pos.y + w.bullets[j].vel.0.y * dt_ms
                    &&& m.bullets[j].vel == w.bullets[j].vel
                }
            &&& match (w.player, m.player) {
                (Some(p), Some(q)) => q.pos.x == p.pos.x + q.vel.0.x * dt_ms && q.pos.y == p.pos.y
                    + q.vel.0.y * dt_ms && (!thrust ==> q.vel == p.vel),
                (None, None) => true,
                _ => false,
            }
        }),
{
    let m = motion_stage(w, turn, thrust, facing, dt_ms);
    assert forall|i: int| 0 <= i < w.asteroids.len() implies {
        &&& (#[trigger] m.asteroids[i]).pos.x == w.asteroids[i].pos.x + w.asteroids[i].vel.0.x
            * dt_ms
        &&& m.asteroids[i].pos.y == w.asteroids[i].pos.y + w.asteroids[i].vel.0.y * dt_ms
        &&& m.asteroids[i].vel == w.asteroids[i].vel
    } by {
        assert(w.asteroids[i].wf());
        lemma_moved_exact(w.asteroids[i].pos, w.asteroids[i].vel.0, dt_ms);
    }
    assert forall|j: int| 0 <= j < w.bullets.len() implies {
        &&& (#[trigger] m.bullets[j]).pos.x == w.bullets[j].pos.x + w.bullets[j].vel.0.x * dt_ms
        &&& m.bullets[j].pos.y == w.bullets[j].pos.y + w.bullets[j].vel.0.y * dt_ms
        &&& m.bullets[j].vel == w.bullets[j].vel
    } by {
        assert(w.bullets[j].wf());
        lemma_moved_exact(w.bullets[j].pos, w.bullets[j].vel.0, dt_ms);
    }
    if let Some(p) = w.player {
        let q = m.player->0;
        assert(q.vel.0.within(MAX_SPEED as int));
        lemma_moved_exact(p.pos, q.vel.0, dt_ms);
    }
}

/// Wrapping a point that was already wrapped changes nothing, for a point
/// exactly on an edge as for any other.
pub proof fn wrap_is_idempotent(p: Vec2, b: Bounds)
    requires
        b.wf(),
    ensures
        wrapped(wrapped(p, b), b) == wrapped(p, b),
{
}

/// Running the wrap pass twice with no movement between gives the same world
/// as running it once.
pub proof fn wrap_pass_is_idempotent(w: WorldView, b: Bounds)
    requires
        b.wf(),
    ensures
        wrap_stage(wrap_stage(w, b), b) == wrap_stage(w, b),
{
    let once = asteroids_wrapped(w.asteroids, b);
    let twice = asteroids_wrapped(once, b);
    assert forall|i: int| 0 <= i < twice.len() implies #[trigger] twice[i] == once[i] by {
        wrap_is_idempotent(w.asteroids[i].pos, b);
    }
    assert(twice =~= once);
    if let Some(p) = w.player {
        wrap_is_idempotent(p.pos, b);
    }
    assert(player_wrapped(player_wrapped(w.player, b), b) == player_wrapped(w.player, b));
}

/// Remaining lifetime after `k` ticks of `dt_ms` each.
pub open spec fn life_after_ticks(life: u64, dt_ms: u64, k: nat) -> u64
    decreases k,
{
    if k == 0 {
        life
    } else {
        life_after(life_after_ticks(life, dt_ms, (k - 1) as nat), dt_ms)
    }
}

proof fn lemma_life_after_ticks(life: u64, dt_ms: u64, k: nat)
    ensures
        life_after_ticks(life, dt_ms, k) == if k * dt_ms < life {
            life - k * dt_ms
        } else {
            0
        },
    decreases k,
{
    if k > 0 {
        let j = (k - 1) as nat;
        lemma_life_after_ticks(life, dt_ms, j);
        let d = dt_ms as int;
        assert(j * d + d == k * d) by (nonlinear_arith)
            requires
                j + 1 == k,
        ;
        assert(j * d <= k * d) by (nonlinear_arith)
            requires
                j + 1 == k,
                d >= 0,
        ;
        assert(life_after_ticks(life, dt_ms, k) == life_after(
            life_after_ticks(life, dt_ms, j),
            dt_ms,
        ));
    } else {
        assert(k * dt_ms == 0) by (nonlinear_arith)
            requires
                k == 0,
        ;
    }
}

/// Projectile lifetime: a projectile that starts with lifetime `life` and is
/// aged by `dt_ms` every tick is still alive after `k` ticks exactly when `k`
/// is less than ⌈life / dt_ms⌉; its remaining lifetime is never negative.
pub proof fn projectile_lifetime(life: u64, dt_ms: u64, k: nat)
    requires
        dt_ms > 0,
    ensures
        (life_after_ticks(life, dt_ms, k) > 0) == (k < (life + dt_ms - 1) / (dt_ms as int)),
        life_after_ticks(life, dt_ms, k) >= 0,
{
    lemma_life_after_ticks(life, dt_ms, k);
    let d = dt_ms as int;
    let c = (life + d - 1) / d;
    let r = (life + d - 1) % d;
    vstd::arithmetic::div_mod::lemma_fundamental_div_mod(life + d - 1, d);
    assert(0 <= r < d);
    if k < c {
        assert(k * d < life) by (nonlinear_arith)
            requires
                k < c,
                life + d - 1 == d * c + r,
                0 <= r < d,
                d > 0,
                k >= 0,
        ;
    } else {
        assert(k * d >= life) by (nonlinear_arith)
            requires
                k >= c,
                life + d - 1 == d * c + r,
                0 <= r < d,
                d > 0,
        ;
    }
}

/// The projectiles after `k` calls of `despawn_bullets` with step `dt_ms`.
pub open spec fn bullets_aged_ticks(s: Seq<Bullet>, dt_ms: u64, k: nat) -> Seq<Bullet>
    decreases k,
{
    if k == 0 {
        s
    } else {
        bullets_aged(bullets_aged_ticks(s, dt_ms, (k - 1) as nat), dt_ms)
    }
}

/// Projectile lifetime through the ageing pass: a lone projectile with
/// lifetime `life`, aged by `k` calls of `despawn_bullets` with step `dt_ms`,
/// is still there, with lifetime `life_after_ticks`, exactly when `k` is less
/// than ⌈life / dt_ms⌉, and is gone otherwise.
pub proof fn projectile_removed_after_ceiling_ticks(x: Bullet, dt_ms: u64, k: nat)
    requires
        dt_ms > 0,
        x.life.0 > 0,
    ensures
        bullets_aged_ticks(seq![x], dt_ms, k) == if k < (x.life.0 + dt_ms - 1) / (dt_ms as int) {
            seq![Bullet { life: BulletLifetime(life_after_ticks(x.life.0, dt_ms, k)), ..x }]
        } else {
            Seq::<Bullet>::empty()
        },
    decreases k,
{
    projectile_lifetime(x.life.0, dt_ms, k);
    if k > 0 {
        let j = (k - 1) as nat;
        projectile_removed_after_ceiling_ticks(x, dt_ms, j);
        projectile_lifetime(x.life.0, dt_ms, j);
        let prev = bullets_aged_ticks(seq![x], dt_ms, j);
        reveal(Seq::filter);
        if prev.len() == 0 {
            let m = prev.map_values(|b: Bullet| aged(b, dt_ms));
            assert(m =~= Seq::<Bullet>::empty());
            assert(m.filter(alive()) =~= Seq::<Bullet>::empty());
            assert(life_after_ticks(x.life.0, dt_ms, j) == 0);
        } else {
            let m = prev.map_values(|b: Bullet| aged(b, dt_ms));
            let y = Bullet { life: BulletLifetime(life_after_ticks(x.life.0, dt_ms, k)), ..x };
            assert(m =~= seq![y]);
            assert(m.drop_last() =~= Seq::<Bullet>::empty());
            assert(m.drop_last().filter(alive()) =~= Seq::<Bullet>::empty());
            assert(m.last() == y);
            if y.life.0 > 0 {
                assert(m.filter(alive()) =~= seq![y]);
            } else {
                assert(m.filter(alive()) =~= Seq::<Bullet>::empty());
            }
        }
    } else {
        assert(x.life.0 + dt_ms - 1 >= dt_ms);
        vstd::arithmetic::div_mod::lemma_div_is_ordered(dt_ms as int, x.life.0 + dt_ms - 1, dt_ms as int);
        vstd::arithmetic::div_mod::lemma_div_by_self(dt_ms as int);
        assert(Bullet { life: BulletLifetime(life_after_ticks(x.life.0, dt_ms, 0)), ..x } == x);
    }
}

/// Squared length of a vector.
pub open spec fn sq_len(v: Vec2) -> int {
    v.x * v.x + v.y * v.y
}

/// Along a heading, `scaled` moves at the given speed: its squared length is
/// the squared speed times the heading's squared length, so within rounding
/// of `speed` units per second.
pub proof fn scaled_speed(h: Heading, speed: i64)
    requires
        h.wf(),
        0 <= speed <= 1000,
    ensures
        sq_len(scaled(h, speed)) == speed * speed * 1_000_000 * (h.x * h.x + h.y * h.y),
        HEADING_MIN_SQ * speed * speed * 1_000_000 <= sq_len(scaled(h, speed))
            <= HEADING_MAX_SQ * speed * speed * 1_000_000,
{
    let (hx, hy, s) = (h.x as int, h.y as int, speed as int);
    assert(-1_000_000_000 <= hx * s * 1000 <= 1_000_000_000 && -1_000_000_000 <= hy * s * 1000
        <= 1_000_000_000) by (nonlinear_arith)
        requires
            -1000 <= hx <= 1000,
            -1000 <= hy <= 1000,
            0 <= s <= 1000,
    ;
    let q = hx * hx + hy * hy;
    assert((hx * s * 1000) * (hx * s * 1000) + (hy * s * 1000) * (hy * s * 1000) == s * s
        * 1_000_000 * q) by (nonlinear_arith)
        requires
            q == hx * hx + hy * hy,
    ;
    assert(HEADING_MIN_SQ * s * s * 1_000_000 <= s * s * 1_000_000 * q <= HEADING_MAX_SQ * s * s
        * 1_000_000) by (nonlinear_arith)
        requires
            HEADING_MIN_SQ <= q <= HEADING_MAX_SQ,
    ;
}

/// Fragmentation: a large asteroid leaves exactly two medium ones and a
/// medium one two small ones, all at its position and moving along their own
/// headings at the speed of their class (75 or 100 units per second, within
/// the rounding of the headings); a small one leaves nothing. The fragments
/// do not depend on the destroyed asteroid's velocity.
pub proof fn fragmentation_conserves(a: Asteroid, h1: Heading, h2: Heading, other: AsteroidVelocity)
    requires
        h1.wf(),
        h2.wf(),
    ensures
        fragments(Asteroid { vel: other, ..a }, h1, h2) == fragments(a, h1, h2),
        a.size == AsteroidSize::Large ==> {
            let f = fragments(a, h1, h2);
            &&& f.len() == 2
            &&& f[0].size == AsteroidSize::Medium && f[1].size == AsteroidSize::Medium
            &&& f[0].pos == a.pos && f[1].pos == a.pos
            &&& f[0].vel.0 == scaled(h1, ASTEROID_MEDIUM_SPEED)
            &&& f[1].vel.0 == scaled(h2, ASTEROID_MEDIUM_SPEED)
            &&& HEADING_MIN_SQ * 75 * 75 * 1_000_000 <= sq_len(f[0].vel.0) <= HEADING_MAX_SQ * 75
                * 75 * 1_000_000
            &&& HEADING_MIN_SQ * 75 * 75 * 1_000_000 <= sq_len(f[1].vel.0) <= HEADING_MAX_SQ * 75
                * 75 * 1_000_000
        },
        a.size == AsteroidSize::Medium ==> {
            let f = fragments(a, h1, h2);
            &&& f.len() == 2
            &&& f[0].size == AsteroidSize::Small && f[1].size == AsteroidSize::Small
            &&& f[0].pos == a.pos && f[1].pos == a.pos
            &&& f[0].vel.0 == scaled(h1, ASTEROID_SMALL_SPEED)
            &&& f[1].vel.0 == scaled(h2, ASTEROID_SMALL_SPEED)
            &&& HEADING_MIN_SQ * 100 * 100 * 1_000_000 <= sq_len(f[0].vel.0) <= HEADING_MAX_SQ
                * 100 * 100 * 1_000_000
            &&& HEADING_MIN_SQ * 100 * 100 * 1_000_000 <= sq_len(f[1].vel.0) <= HEADING_MAX_SQ
                * 100 * 100 * 1_000_000
        },
        a.size == AsteroidSize::Small ==> fragments(a, h1, h2).len() == 0,
{
    scaled_speed(h1, ASTEROID_MEDIUM_SPEED);
    scaled_speed(h2, ASTEROID_MEDIUM_SPEED);
    scaled_speed(h1, ASTEROID_SMALL_SPEED);
    scaled_speed(h2, ASTEROID_SMALL_SPEED);
}

/// One projectile overlapping one asteroid in the collision pass: both are
/// removed and the asteroid's fragments, along the first two shard
/// headings, are all that is left.
pub proof fn single_hit_leaves_fragments(a: Asteroid, x: Bullet, h1: Heading, h2: Heading)
    requires
        overlaps(x.pos, a.pos, bullet_reach(a)),
    ensures
        seq![a].filter(intact(seq![x])) + debris(seq![a], seq![x], seq![h1, h2]) == fragments(
            a,
            h1,
            h2,
        ),
        seq![x].filter(missed(seq![a])).len() == 0,
{
    reveal(Seq::filter);
    let asts = seq![a];
    let bs = seq![x];
    assert(bs[0] == x);
    assert(struck(a, bs));
    assert(asts[0] == a);
    assert(strikes(x, asts));
    assert(asts.drop_last() =~= Seq::<Asteroid>::empty());
    assert(bs.drop_last() =~= Seq::<Bullet>::empty());
    assert(asts.drop_last().filter(intact(bs)) =~= Seq::<Asteroid>::empty());
    assert(debris(asts.drop_last(), bs, seq![h1, h2]) =~= Seq::<Asteroid>::empty());
    assert(asts.filter(intact(bs)) =~= Seq::<Asteroid>::empty());
    assert(debris(asts, bs, seq![h1, h2]) =~= fragments(a, h1, h2));
    assert(Seq::<Asteroid>::empty() + fragments(a, h1, h2) =~= fragments(a, h1, h2));
    assert(!missed(asts)(x));
    assert(bs.drop_last().filter(missed(asts)) =~= Seq::<Bullet>::empty());
    assert(bs.last() == x);
    assert(bs.filter(missed(asts)) =~= Seq::<Bullet>::empty());
}

} // verus!
