//! The player's ship: spawning, turning, thrust and inertial drift.
use vstd::prelude::*;
use vstd::arithmetic::div_mod::{lemma_fundamental_div_mod, lemma_fundamental_div_mod_converse_mod};
use crate::geometry::{Heading, Vec2, displace, moved, HALF_UNIT, MAX_COORD, MAX_SPEED, MAX_STEP_MS};

verus! {

/// Turning rate at full input: 2.5 radians per second, in milliradians.
pub const PLAYER_ROTATION_SPEED: i64 = 2500;

/// Acceleration under thrust, in units per second squared.
pub const PLAYER_THRUST_FORCE: i64 = 100;

/// A full turn, 2π, in nanoradians.
pub const FULL_TURN: i64 = 6_283_185_307;

/// Full turning input, in thousandths.
pub const FULL_INPUT: i64 = 1000;

/// Collision diameter of the ship, in units.
pub const PLAYER_SIZE: i64 = 50;

/// Collision radius of the ship, in position subdivisions.
pub const PLAYER_RADIUS: i64 = PLAYER_SIZE * HALF_UNIT;

/// The ship's velocity, in millionths of a unit per second.
#[derive(Clone, Copy, Debug, PartialEq, Eq, Structural)]
pub struct PlayerVelocity(pub Vec2);

/// The ship: position, velocity and orientation. The orientation is an angle
/// in nanoradians in `[0, FULL_TURN)`; angle 0 faces +y and angles grow
/// counter-clockwise, so the facing heading of angle `a` is `(-sin a, cos a)`.
#[derive(Clone, Copy, Debug, PartialEq, Eq, Structural)]
pub struct Player {
    pub pos: Vec2,
    pub vel: PlayerVelocity,
    pub angle: i64,
}

impl Player {
    pub open spec fn wf(self) -> bool {
        &&& self.pos.within(MAX_COORD as int)
        &&& self.vel.0.within(MAX_SPEED as int)
        &&& 0 <= self.angle < FULL_TURN
    }
}

/// A ship at the centre, at rest, facing +y.
pub fn spawn_player() -> (r: Player)
    ensures
        r.pos == (Vec2 { x: 0, y: 0 }),
        r.vel.0 == (Vec2 { x: 0, y: 0 }),
        r.angle == 0,
        r.wf(),
{
    Player { pos: Vec2 { x: 0, y: 0 }, vel: PlayerVelocity(Vec2 { x: 0, y: 0 }), angle: 0 }
}

/// Turning input limited to `[-FULL_INPUT, FULL_INPUT]`.
pub open spec fn clamped_input(turn: i64) -> int {
    if turn > FULL_INPUT {
        FULL_INPUT as int
    } else if turn < -FULL_INPUT {
        -FULL_INPUT
    } else {
        turn as int
    }
}

/// The orientation after turning with input `turn` (in thousandths, positive
/// counter-clockwise) for `dt_ms` milliseconds, reduced to `[0, FULL_TURN)`.
pub open spec fn turned(angle: i64, turn: i64, dt_ms: u64) -> int {
    (angle + clamped_input(turn) * PLAYER_ROTATION_SPEED * dt_ms) % (FULL_TURN as int)
}

/// The orientation `angle` after turning with input `turn` for `dt_ms`
/// milliseconds.
pub fn turn_angle(angle: i64, turn: i64, dt_ms: u64) -> (r: i64)
    requires
        0 <= angle < FULL_TURN,
        dt_ms <= MAX_STEP_MS,
    ensures
        r == turned(angle, turn, dt_ms),
        0 <= r < FULL_TURN,
{
    let t: i64 = if turn > FULL_INPUT {
        FULL_INPUT
    } else if turn < -FULL_INPUT {
        -FULL_INPUT
    } else {
        turn
    };
    let dt = dt_ms as i64;
    assert(-2_500_000_000_000 <= t * PLAYER_ROTATION_SPEED * dt <= 2_500_000_000_000) by (
    nonlinear_arith)
        requires
            -1000 <= t <= 1000,
            0 <= dt <= 1_000_000,
    ;
    let d = t * PLAYER_ROTATION_SPEED * dt;
    let mag: i64 = if d >= 0 {
        d
    } else {
        -d
    };
    let m = mag % FULL_TURN;
    let a = angle;
    let r: i64 = if d >= 0 {
        if a + m >= FULL_TURN {
            a + m - FULL_TURN
        } else {
            a + m
        }
    } else {
        if a - m < 0 {
            a - m + FULL_TURN
        } else {
            a - m
        }
    };
    proof {
        let f = FULL_TURN as int;
        lemma_fundamental_div_mod(mag as int, f);
        let q = (mag as int) / f;
        if d >= 0 {
            assert(a + d == (q + (a + m - r) / f) * f + r) by (nonlinear_arith)
                requires
                    mag == d,
                    mag == f * q + m,
                    r == a + m || r == a + m - f,
                    (a + m - r) / f == (if r == a + m { 0int } else { 1int }),
                    f > 0,
            ;
        } else {
            assert(a + d == (-q - (r - (a - m)) / f) * f + r) by (nonlinear_arith)
                requires
                    mag == -d,
                    mag == f * q + m,
                    r == a - m || r == a - m + f,
                    (r - (a - m)) / f == (if r == a - m { 0int } else { 1int }),
                    f > 0,
            ;
        }
        lemma_fundamental_div_mod_converse_mod(
            a + d,
            f,
            if d >= 0 {
                q + (a + m - r) / f
            } else {
                -q - (r - (a - m)) / f
            },
            r as int,
        );
    }
    r
}

/// The velocity after thrust along `facing` for `dt_ms` milliseconds, each
/// component held within `MAX_SPEED`.
pub open spec fn thrusted(v: Vec2, facing: Heading, dt_ms: u64) -> Vec2 {
    Vec2 {
        x: clamp_speed(v.x + PLAYER_THRUST_FORCE * facing.x * dt_ms) as i64,
        y: clamp_speed(v.y + PLAYER_THRUST_FORCE * facing.y * dt_ms) as i64,
    }
}

/// A velocity component held within `MAX_SPEED`.
pub open spec fn clamp_speed(c: int) -> int {
    if c > MAX_SPEED {
        MAX_SPEED as int
    } else if c < -MAX_SPEED {
        -MAX_SPEED
    } else {
        c
    }
}

/// The ship after one step: it turns by its input, thrust (when asked) along
/// `facing` changes its velocity, then it drifts by the new velocity. Nothing
/// slows it down.
pub open spec fn player_moved(
    p: Player,
    turn: i64,
    thrust: bool,
    facing: Heading,
    dt_ms: u64,
) -> Player {
    let v = if thrust {
        thrusted(p.vel.0, facing, dt_ms)
    } else {
        p.vel.0
    };
    Player {
        pos: moved(p.pos, v, dt_ms),
        vel: PlayerVelocity(v),
        angle: turned(p.angle, turn, dt_ms) as i64,
    }
}

fn thrust_component(c: i64, f: i64, dt_ms: u64) -> (r: i64)
    requires
        -MAX_SPEED <= c <= MAX_SPEED,
        -1000 <= f <= 1000,
        dt_ms <= MAX_STEP_MS,
    ensures
        r == clamp_speed(c + PLAYER_THRUST_FORCE * f * dt_ms),
{
    let dt = dt_ms as i64;
    assert(-100_000_000_000 <= PLAYER_THRUST_FORCE * f * dt <= 100_000_000_000) by (
    nonlinear_arith)
        requires
            -1000 <= f <= 1000,
            0 <= dt <= 1_000_000,
    ;
    let s = c + PLAYER_THRUST_FORCE * f * dt;
    if s > MAX_SPEED {
        MAX_SPEED
    } else if s < -MAX_SPEED {
        -MAX_SPEED
    } else {
        s
    }
}

/// One step of the ship: turn by `turn` (thousandths of full input, positive
/// counter-clockwise, at `PLAYER_ROTATION_SPEED`), thrust along `facing` when
/// `thrust` is set, then drift by the velocity. `facing` is the forward
/// heading of the turned orientation, `(-sin a, cos a)` for angle `a`, which
/// the caller computes from `turn_angle`.
pub fn player_movement(player: &mut Player, turn: i64, thrust: bool, facing: Heading, dt_ms: u64)
    requires
        old(player).wf(),
        facing.wf(),
        dt_ms <= MAX_STEP_MS,
    ensures
        *final(player) == player_moved(*old(player), turn, thrust, facing, dt_ms),
        final(player).angle == turned(old(player).angle, turn, dt_ms),
        !thrust ==> final(player).vel == old(player).vel,
        0 <= final(player).angle < FULL_TURN,
        final(player).pos.x == old(player).pos.x + final(player).vel.0.x * dt_ms,
        final(player).pos.y == old(player).pos.y + final(player).vel.0.y * dt_ms,
        final(player).vel.0.within(MAX_SPEED as int),
{
    player.angle = turn_angle(player.angle, turn, dt_ms);
    if thrust {
        let v = Vec2 {
            x: thrust_component(player.vel.0.x, facing.x, dt_ms),
            y: thrust_component(player.vel.0.y, facing.y, dt_ms),
        };
        player.vel = PlayerVelocity(v);
    }
    player.pos = displace(player.pos, player.vel.0, dt_ms);
}

} // verus!
