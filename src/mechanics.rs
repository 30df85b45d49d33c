//! Projectiles, screen wrap, and the collision and fragmentation pass.
use vstd::prelude::*;
use crate::asteroid::{Asteroid, fragment, fragments};
use crate::geometry::{
    Bounds, Heading, Vec2, displace, moved, scale_heading, scaled, touching, wrap_point, wrapped,
    overlaps, HALF_UNIT, HEADING_ONE, MAX_COORD, MAX_HALF_EXTENT, MAX_SPEED, MAX_STEP_MS, POS_PER_UNIT,
};
use crate::player::{Player, PLAYER_RADIUS};

verus! {

/// Projectile speed, in units per second.
pub const BULLET_SPEED: i64 = 500;

/// Projectile lifetime, in milliseconds.
pub const BULLET_LIFETIME: u64 = 2000;

/// Projectile footprint, in units.
pub const BULLET_SIZE: i64 = 10;

/// Projectile collision radius, in position subdivisions.
pub const BULLET_RADIUS: i64 = BULLET_SIZE * HALF_UNIT;

/// How far ahead of the ship a projectile appears, in units.
pub const BULLET_STANDOFF: i64 = 20;

/// A projectile's velocity, in millionths of a unit per second.
#[derive(Clone, Copy, Debug, PartialEq, Eq, Structural)]
pub struct BulletVelocity(pub Vec2);

/// Milliseconds a projectile has left to live.
#[derive(Clone, Copy, Debug, PartialEq, Eq, Structural)]
pub struct BulletLifetime(pub u64);

/// A projectile: position, velocity and remaining lifetime.
#[derive(Clone, Copy, Debug, PartialEq, Eq, Structural)]
pub struct Bullet {
    pub pos: Vec2,
    pub vel: BulletVelocity,
    pub life: BulletLifetime,
}

impl Bullet {
    pub open spec fn wf(self) -> bool {
        self.pos.within(MAX_COORD as int) && self.vel.0.within(MAX_SPEED as int)
    }
}

/// The projectile fired by `p` along `facing`.
pub open spec fn fired(p: Player, facing: Heading) -> Bullet {
    Bullet {
        pos: Vec2 {
            x: (p.pos.x + facing.x * BULLET_STANDOFF * (POS_PER_UNIT / HEADING_ONE)) as i64,
            y: (p.pos.y + facing.y * BULLET_STANDOFF * (POS_PER_UNIT / HEADING_ONE)) as i64,
        },
        vel: BulletVelocity(scaled(facing, BULLET_SPEED)),
        life: BulletLifetime(BULLET_LIFETIME),
    }
}

/// Fires a projectile from the ship along `facing` when `fire` is set and a
/// ship exists.
pub fn spawn_bullet(bullets: &mut Vec<Bullet>, player: &Option<Player>, facing: Heading, fire: bool)
    requires
        facing.wf(),
        *player matches Some(p) ==> p.pos.within(MAX_HALF_EXTENT as int),
    ensures
        final(bullets)@ == (match *player {
            Some(p) => if fire {
                old(bullets)@.push(fired(p, facing))
            } else {
                old(bullets)@
            },
            None => old(bullets)@,
        }),
        *player matches Some(p) ==> fired(p, facing).wf(),
{
    let k = BULLET_STANDOFF * (POS_PER_UNIT / HEADING_ONE);
    assert(-20_000_000_000 <= facing.x * k <= 20_000_000_000 && -20_000_000_000 <= facing.y * k
        <= 20_000_000_000 && -1_000_000_000 <= facing.x * BULLET_SPEED * 1000 <= 1_000_000_000
        && -1_000_000_000 <= facing.y * BULLET_SPEED * 1000 <= 1_000_000_000 && facing.x * k
        == facing.x * BULLET_STANDOFF * (POS_PER_UNIT / HEADING_ONE) && facing.y * k == facing.y
        * BULLET_STANDOFF * (POS_PER_UNIT / HEADING_ONE)) by (nonlinear_arith)
        requires
            -1000 <= facing.x <= 1000,
            -1000 <= facing.y <= 1000,
            k == 20_000_000,
    ;
    if fire {
        if let Some(p) = player {
            let pos = Vec2 { x: p.pos.x + facing.x * k, y: p.pos.y + facing.y * k };
            let vel = BulletVelocity(scale_heading(facing, BULLET_SPEED));
            bullets.push(Bullet { pos, vel, life: BulletLifetime(BULLET_LIFETIME) });
        }
    }
}

/// Every projectile moved by its velocity for `dt_ms` milliseconds.
pub open spec fn bullets_moved(s: Seq<Bullet>, dt_ms: u64) -> Seq<Bullet> {
    s.map_values(|b: Bullet| Bullet { pos: moved(b.pos, b.vel.0, dt_ms), ..b })
}

/// Moves every projectile by its velocity for `dt_ms` milliseconds.
pub fn move_bullets(bullets: &mut Vec<Bullet>, dt_ms: u64)
    requires
        forall|i: int| 0 <= i < old(bullets)@.len() ==> (#[trigger] old(bullets)@[i]).wf(),
        dt_ms <= MAX_STEP_MS,
    ensures
        final(bullets)@ == bullets_moved(old(bullets)@, dt_ms),
        forall|i: int|
            0 <= i < final(bullets)@.len() ==> {
                &&& (#[trigger] final(bullets)@[i]).pos.x == old(bullets)@[i].pos.x + old(
                    bullets,
                )@[i].vel.0.x * dt_ms
                &&& final(bullets)@[i].pos.y == old(bullets)@[i].pos.y + old(
                    bullets,
                )@[i].vel.0.y * dt_ms
            },
{
    let n = bullets.len();
    let mut i: usize = 0;
    while i < n
        invariant
            n == bullets@.len() == old(bullets)@.len(),
            dt_ms <= MAX_STEP_MS,
            forall|j: int| 0 <= j < n ==> (#[trigger] old(bullets)@[j]).wf(),
            0 <= i <= n,
            forall|j: int| i <= j < n ==> #[trigger] bullets@[j] == old(bullets)@[j],
            forall|j: int|
                0 <= j < i ==> {
                    &&& #[trigger] bullets@[j] == bullets_moved(old(bullets)@, dt_ms)[j]
                    &&& bullets@[j].pos.x == old(bullets)@[j].pos.x + old(bullets)@[j].vel.0.x
                        * dt_ms
                    &&& bullets@[j].pos.y == old(bullets)@[j].pos.y + old(bullets)@[j].vel.0.y
                        * dt_ms
                },
        decreases n - i,
    {
        let b = bullets[i];
        let pos = displace(b.pos, b.vel.0, dt_ms);
        bullets.set(i, Bullet { pos, ..b });
        i = i + 1;
    }
    assert(bullets@ =~= bullets_moved(old(bullets)@, dt_ms));
}

/// Remaining lifetime after `dt_ms` milliseconds; it never goes below zero.
pub open spec fn life_after(life: u64, dt_ms: u64) -> u64 {
    if life > dt_ms {
        (life - dt_ms) as u64
    } else {
        0
    }
}

/// A projectile aged by `dt_ms` milliseconds.
pub open spec fn aged(b: Bullet, dt_ms: u64) -> Bullet {
    Bullet { life: BulletLifetime(life_after(b.life.0, dt_ms)), ..b }
}

/// The projectile still has time to live.
pub open spec fn alive() -> spec_fn(Bullet) -> bool {
    |b: Bullet| b.life.0 > 0
}

/// The projectiles after ageing by `dt_ms`: those whose lifetime ran out are gone.
pub open spec fn bullets_aged(s: Seq<Bullet>, dt_ms: u64) -> Seq<Bullet> {
    s.map_values(|b: Bullet| aged(b, dt_ms)).filter(alive())
}

/// Ages every projectile by `dt_ms` and removes those whose lifetime ran out.
pub fn despawn_bullets(bullets: &mut Vec<Bullet>, dt_ms: u64)
    ensures
        final(bullets)@ == bullets_aged(old(bullets)@, dt_ms),
{
    let ghost src = old(bullets)@.map_values(|b: Bullet| aged(b, dt_ms));
    let mut kept: Vec<Bullet> = Vec::new();
    let n = bullets.len();
    let mut i: usize = 0;
    while i < n
        invariant
            n == bullets@.len(),
            bullets@ == old(bullets)@,
            src == old(bullets)@.map_values(|b: Bullet| aged(b, dt_ms)),
            0 <= i <= n,
            kept@ == src.take(i as int).filter(alive()),
        decreases n - i,
    {
        let b = bullets[i];
        let life = b.life.0.saturating_sub(dt_ms);
        let a = Bullet { life: BulletLifetime(life), ..b };
        assert(a == src[i as int]);
        proof {
            reveal(Seq::filter);
            assert(src.take(i + 1).drop_last() =~= src.take(i as int));
        }
        if life > 0 {
            kept.push(a);
        }
        i = i + 1;
    }
    assert(src.take(n as int) =~= src);
    *bullets = kept;
}

/// The projectile is inside the play rectangle.
pub open spec fn inside(b: Bounds) -> spec_fn(Bullet) -> bool {
    |x: Bullet| b.holds(x.pos)
}

/// Removes the projectiles that left the play rectangle.
pub fn despawn_out_of_bounds_bullets(bullets: &mut Vec<Bullet>, b: Bounds)
    requires
        b.wf(),
    ensures
        final(bullets)@ == old(bullets)@.filter(inside(b)),
{
    let mut kept: Vec<Bullet> = Vec::new();
    let n = bullets.len();
    let mut i: usize = 0;
    while i < n
        invariant
            n == bullets@.len(),
            bullets@ == old(bullets)@,
            b.wf(),
            0 <= i <= n,
            kept@ == old(bullets)@.take(i as int).filter(inside(b)),
        decreases n - i,
    {
        let x = bullets[i];
        proof {
            reveal(Seq::filter);
            assert(old(bullets)@.take(i + 1).drop_last() =~= old(bullets)@.take(i as int));
        }
        if b.contains(x.pos) {
            kept.push(x);
        }
        i = i + 1;
    }
    assert(old(bullets)@.take(n as int) =~= old(bullets)@);
    *bullets = kept;
}

/// Every asteroid wrapped across the edges of the play rectangle.
pub open spec fn asteroids_wrapped(s: Seq<Asteroid>, b: Bounds) -> Seq<Asteroid> {
    s.map_values(|a: Asteroid| Asteroid { pos: wrapped(a.pos, b), ..a })
}

/// The ship, if any, wrapped across the edges of the play rectangle.
pub open spec fn player_wrapped(p: Option<Player>, b: Bounds) -> Option<Player> {
    match p {
        Some(q) => Some(Player { pos: wrapped(q.pos, b), ..q }),
        None => None,
    }
}

/// Wraps the ship and every asteroid across the edges of the play rectangle;
/// projectiles are left alone.
pub fn wrap_around_screen(player: &mut Option<Player>, asteroids: &mut Vec<Asteroid>, b: Bounds)
    requires
        b.wf(),
    ensures
        *final(player) == player_wrapped(*old(player), b),
        final(asteroids)@ == asteroids_wrapped(old(asteroids)@, b),
{
    if let Some(p) = player {
        p.pos = wrap_point(p.pos, b);
    }
    let n = asteroids.len();
    let mut i: usize = 0;
    while i < n
        invariant
            n == asteroids@.len() == old(asteroids)@.len(),
            b.wf(),
            0 <= i <= n,
            forall|j: int| i <= j < n ==> #[trigger] asteroids@[j] == old(asteroids)@[j],
            forall|j: int|
                0 <= j < i ==> #[trigger] asteroids@[j] == asteroids_wrapped(
                    old(asteroids)@,
                    b,
                )[j],
        decreases n - i,
    {
        let a = asteroids[i];
        asteroids.set(i, Asteroid { pos: wrap_point(a.pos, b), ..a });
        i = i + 1;
    }
    assert(asteroids@ =~= asteroids_wrapped(old(asteroids)@, b));
}

/// Whatever holds of every element of `s` holds of every element that a
/// filter keeps.
pub proof fn lemma_filter_all<A>(s: Seq<A>, pred: spec_fn(A) -> bool, inv: spec_fn(A) -> bool)
    requires
        forall|i: int| 0 <= i < s.len() ==> inv(#[trigger] s[i]),
    ensures
        forall|i: int| 0 <= i < s.filter(pred).len() ==> inv(#[trigger] s.filter(pred)[i]),
    decreases s.len(),
{
    reveal(Seq::filter);
    if s.len() > 0 {
        let rest = s.drop_last();
        lemma_filter_all(rest, pred, inv);
        let f = s.filter(pred);
        assert forall|i: int| 0 <= i < f.len() implies inv(#[trigger] f[i]) by {
            if i < rest.filter(pred).len() {
                assert(f[i] == rest.filter(pred)[i]);
            } else {
                assert(f[i] == s.last());
            }
        }
    }
}

/// Sum of the collision radii of a projectile and asteroid `a`.
pub open spec fn bullet_reach(a: Asteroid) -> int {
    BULLET_RADIUS + a.size.radius_spec()
}

/// Some projectile of `bullets` overlaps asteroid `a`.
pub open spec fn struck(a: Asteroid, bullets: Seq<Bullet>) -> bool {
    exists|j: int| 0 <= j < bullets.len() && overlaps(bullets[j].pos, a.pos, bullet_reach(a))
}

/// Projectile `x` overlaps some asteroid of `asteroids`.
pub open spec fn strikes(x: Bullet, asteroids: Seq<Asteroid>) -> bool {
    exists|i: int|
        0 <= i < asteroids.len() && overlaps(x.pos, asteroids[i].pos, bullet_reach(asteroids[i]))
}

/// The asteroid is overlapped by no projectile of `bullets`.
pub open spec fn intact(bullets: Seq<Bullet>) -> spec_fn(Asteroid) -> bool {
    |a: Asteroid| !struck(a, bullets)
}

/// The projectile overlaps no asteroid of `asteroids`.
pub open spec fn missed(asteroids: Seq<Asteroid>) -> spec_fn(Bullet) -> bool {
    |x: Bullet| !strikes(x, asteroids)
}

/// What the destroyed asteroids leave behind, in order: the `i`-th asteroid,
/// when struck, breaks along `shards[2i]` and `shards[2i + 1]`.
pub open spec fn debris(asteroids: Seq<Asteroid>, bullets: Seq<Bullet>, shards: Seq<Heading>) -> Seq<
    Asteroid,
>
    decreases asteroids.len(),
{
    if asteroids.len() == 0 {
        seq![]
    } else {
        let i = asteroids.len() - 1;
        let before = debris(asteroids.drop_last(), bullets, shards);
        if struck(asteroids.last(), bullets) {
            before + fragments(asteroids.last(), shards[2 * i], shards[2 * i + 1])
        } else {
            before
        }
    }
}

/// Whether some projectile overlaps asteroid `a`.
fn is_struck(a: &Asteroid, bullets: &Vec<Bullet>) -> (r: bool)
    requires
        a.wf(),
        forall|j: int| 0 <= j < bullets@.len() ==> (#[trigger] bullets@[j]).wf(),
    ensures
        r == struck(*a, bullets@),
{
    let reach = BULLET_RADIUS + a.size.radius();
    let mut j: usize = 0;
    while j < bullets.len()
        invariant
            a.wf(),
            forall|k: int| 0 <= k < bullets@.len() ==> (#[trigger] bullets@[k]).wf(),
            reach == bullet_reach(*a),
            0 <= j <= bullets@.len(),
            forall|k: int|
                0 <= k < j ==> !overlaps(#[trigger] bullets@[k].pos, a.pos, bullet_reach(*a)),
        decreases bullets@.len() - j,
    {
        if touching(bullets[j].pos, a.pos, reach) {
            return true;
        }
        j = j + 1;
    }
    false
}

/// Whether projectile `x` overlaps some asteroid.
fn is_striking(x: &Bullet, asteroids: &Vec<Asteroid>) -> (r: bool)
    requires
        x.wf(),
        forall|i: int| 0 <= i < asteroids@.len() ==> (#[trigger] asteroids@[i]).wf(),
    ensures
        r == strikes(*x, asteroids@),
{
    let mut i: usize = 0;
    while i < asteroids.len()
        invariant
            x.wf(),
            forall|k: int| 0 <= k < asteroids@.len() ==> (#[trigger] asteroids@[k]).wf(),
            0 <= i <= asteroids@.len(),
            forall|k: int|
                0 <= k < i ==> !overlaps(
                    x.pos,
                    (#[trigger] asteroids@[k]).pos,
                    bullet_reach(asteroids@[k]),
                ),
        decreases asteroids@.len() - i,
    {
        let a = asteroids[i];
        let reach = BULLET_RADIUS + a.size.radius();
        if touching(x.pos, a.pos, reach) {
            return true;
        }
        i = i + 1;
    }
    false
}

/// The collision pass between projectiles and asteroids. Every asteroid that a
/// projectile overlaps is destroyed and leaves its fragments (see `debris`);
/// every projectile that overlaps an asteroid is removed. Fragments are added
/// after the survivors and take no part in this pass. Returns how many
/// asteroids were destroyed.
pub fn bullet_asteroid_collision(
    bullets: &mut Vec<Bullet>,
    asteroids: &mut Vec<Asteroid>,
    shards: &Vec<Heading>,
) -> (destroyed: usize)
    requires
        forall|i: int| 0 <= i < old(asteroids)@.len() ==> (#[trigger] old(asteroids)@[i]).wf(),
        forall|j: int| 0 <= j < old(bullets)@.len() ==> (#[trigger] old(bullets)@[j]).wf(),
        shards@.len() >= 2 * old(asteroids)@.len(),
        forall|k: int| 0 <= k < shards@.len() ==> (#[trigger] shards@[k]).wf(),
    ensures
        final(asteroids)@ == old(asteroids)@.filter(intact(old(bullets)@)) + debris(
            old(asteroids)@,
            old(bullets)@,
            shards@,
        ),
        final(bullets)@ == old(bullets)@.filter(missed(old(asteroids)@)),
        destroyed == old(asteroids)@.len() - old(asteroids)@.filter(intact(old(bullets)@)).len(),
        forall|i: int| 0 <= i < final(asteroids)@.len() ==> (#[trigger] final(asteroids)@[i]).wf(),
        forall|j: int| 0 <= j < final(bullets)@.len() ==> (#[trigger] final(bullets)@[j]).wf(),
{
    let ghost asts = old(asteroids)@;
    let ghost bs = old(bullets)@;
    let mut kept: Vec<Asteroid> = Vec::new();
    let mut pieces: Vec<Asteroid> = Vec::new();
    let mut destroyed: usize = 0;
    let n = asteroids.len();
    let mut i: usize = 0;
    while i < n
        invariant
            n == asteroids@.len(),
            asteroids@ == asts,
            bullets@ == bs,
            forall|k: int| 0 <= k < asts.len() ==> (#[trigger] asts[k]).wf(),
            forall|j: int| 0 <= j < bs.len() ==> (#[trigger] bs[j]).wf(),
            shards@.len() >= 2 * asts.len(),
            forall|k: int| 0 <= k < shards@.len() ==> (#[trigger] shards@[k]).wf(),
            0 <= i <= n,
            kept@ == asts.take(i as int).filter(intact(bs)),
            pieces@ == debris(asts.take(i as int), bs, shards@),
            forall|k: int| 0 <= k < pieces@.len() ==> (#[trigger] pieces@[k]).wf(),
            destroyed == i - kept@.len(),
        decreases n - i,
    {
        let a = asteroids[i];
        proof {
            reveal(Seq::filter);
            assert(asts.take(i + 1).drop_last() =~= asts.take(i as int));
            assert(asts.take(i + 1).last() == a);
        }
        if is_struck(&a, bullets) {
            let count = shards.len();
            assert(2 * i + 1 < count);
            fragment(&a, shards[2 * i], shards[2 * i + 1], &mut pieces);
            destroyed = destroyed + 1;
        } else {
            kept.push(a);
        }
        i = i + 1;
    }
    assert(asts.take(n as int) =~= asts);
    let mut live: Vec<Bullet> = Vec::new();
    let m = bullets.len();
    let mut j: usize = 0;
    while j < m
        invariant
            m == bullets@.len(),
            asteroids@ == asts,
            bullets@ == bs,
            forall|k: int| 0 <= k < asts.len() ==> (#[trigger] asts[k]).wf(),
            forall|k: int| 0 <= k < bs.len() ==> (#[trigger] bs[k]).wf(),
            0 <= j <= m,
            live@ == bs.take(j as int).filter(missed(asts)),
        decreases m - j,
    {
        let x = bullets[j];
        proof {
            reveal(Seq::filter);
            assert(bs.take(j + 1).drop_last() =~= bs.take(j as int));
        }
        if !is_striking(&x, asteroids) {
            live.push(x);
        }
        j = j + 1;
    }
    assert(bs.take(m as int) =~= bs);
    proof {
        lemma_filter_all(asts, intact(bs), |a: Asteroid| a.wf());
        lemma_filter_all(bs, missed(asts), |x: Bullet| x.wf());
    }
    kept.append(&mut pieces);
    *asteroids = kept;
    *bullets = live;
    destroyed
}

/// Sum of the collision radii of the ship and asteroid `a`.
pub open spec fn player_reach(a: Asteroid) -> int {
    PLAYER_RADIUS + a.size.radius_spec()
}

/// Some asteroid of `asteroids` overlaps the ship at `p`.
pub open spec fn rammed(p: Player, asteroids: Seq<Asteroid>) -> bool {
    exists|i: int|
        0 <= i < asteroids.len() && overlaps(p.pos, asteroids[i].pos, player_reach(asteroids[i]))
}

/// The collision pass between the ship and the asteroids: any overlap removes
/// the ship. Returns whether that happened.
pub fn player_asteroid_collision(player: &mut Option<Player>, asteroids: &Vec<Asteroid>) -> (hit:
    bool)
    requires
        *old(player) matches Some(p) ==> p.wf(),
        forall|i: int| 0 <= i < asteroids@.len() ==> (#[trigger] asteroids@[i]).wf(),
    ensures
        hit == (*old(player) matches Some(p) && rammed(p, asteroids@)),
        *final(player) == if hit {
            None
        } else {
            *old(player)
        },
{
    let p = match player {
        Some(p) => *p,
        None => {
            return false;
        },
    };
    let mut i: usize = 0;
    while i < asteroids.len()
        invariant
            p.wf(),
            *player == Some(p),
            *old(player) == Some(p),
            forall|k: int| 0 <= k < asteroids@.len() ==> (#[trigger] asteroids@[k]).wf(),
            0 <= i <= asteroids@.len(),
            forall|k: int|
                0 <= k < i ==> !overlaps(
                    p.pos,
                    (#[trigger] asteroids@[k]).pos,
                    player_reach(asteroids@[k]),
                ),
        decreases asteroids@.len() - i,
    {
        let a = asteroids[i];
        if touching(p.pos, a.pos, PLAYER_RADIUS + a.size.radius()) {
            assert(overlaps(p.pos, asteroids@[i as int].pos, player_reach(asteroids@[i as int])));
            assert(rammed(p, asteroids@));
            *player = None;
            return true;
        }
        i = i + 1;
    }
    false
}

} // verus!
