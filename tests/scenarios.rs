use rusteroids::asteroid::{Asteroid, AsteroidSize, AsteroidVelocity};
use rusteroids::game::{AsteroidSpawnTimer, Controls, GameState, Score, World, SPAWN_PERIOD_MS};
use rusteroids::geometry::{Bounds, Heading, Vec2, POS_PER_UNIT, VEL_PER_UNIT};
use rusteroids::mechanics::wrap_around_screen;
use rusteroids::player::spawn_player;

fn units(u: i64) -> i64 {
    u * POS_PER_UNIT
}

fn speed(u: i64) -> i64 {
    u * VEL_PER_UNIT
}

fn playing_world(asteroids: Vec<Asteroid>) -> World {
    World {
        state: GameState::Playing,
        score: Score(0),
        timer: AsteroidSpawnTimer::new(SPAWN_PERIOD_MS),
        player: Some(spawn_player()),
        asteroids,
        bullets: Vec::new(),
    }
}

fn idle() -> Controls {
    Controls { turn: 0, thrust: false, fire: false, restart: false }
}

const UP: Heading = Heading { x: 0, y: 1000 };
const STRAIGHT: Heading = Heading { x: 1000, y: 0 };

fn step(w: &mut World, c: &Controls, dt_ms: u64, b: Bounds) {
    let shards = vec![UP; 2 * w.asteroids.len()];
    w.advance(c, UP, STRAIGHT, &shards, dt_ms, b);
}

#[test]
fn asteroid_head_on_ends_round() {
    let b = Bounds { half_width: units(2000), half_height: units(2000) };
    let rock = Asteroid {
        size: AsteroidSize::Large,
        pos: Vec2 { x: units(500), y: 0 },
        vel: AsteroidVelocity(Vec2 { x: -speed(50), y: 0 }),
    };
    let mut w = playing_world(vec![rock]);
    for _ in 0..8 {
        step(&mut w, &idle(), 1000, b);
    }
    // At x = 100 the circles (radii 25 and 40) are still apart.
    assert_eq!(w.state, GameState::Playing);
    assert!(w.player.is_some());
    assert_eq!(w.asteroids[0].pos, Vec2 { x: units(100), y: 0 });
    step(&mut w, &idle(), 1000, b);
    // At x = 50 they overlap: the round is over and the ship is gone.
    assert_eq!(w.state, GameState::GameOver);
    assert!(w.player.is_none());
    step(&mut w, &idle(), 1000, b);
    assert_eq!(w.state, GameState::GameOver);
    assert!(w.player.is_none());
}

#[test]
fn projectile_lives_two_seconds() {
    let b = Bounds { half_width: units(2000), half_height: units(2000) };
    let mut w = playing_world(Vec::new());
    let fire = Controls { fire: true, ..idle() };
    step(&mut w, &fire, 100, b);
    assert_eq!(w.bullets.len(), 1);
    assert_eq!(w.bullets[0].life.0, 2000);
    for _ in 0..19 {
        step(&mut w, &idle(), 100, b);
    }
    // t = 1.9 s
    assert_eq!(w.bullets.len(), 1);
    assert_eq!(w.bullets[0].life.0, 100);
    assert_eq!(w.bullets[0].pos, Vec2 { x: 0, y: units(20) + units(950) });
    step(&mut w, &idle(), 100, b);
    // t = 2.0 s
    assert!(w.bullets.is_empty());
    step(&mut w, &idle(), 100, b);
    assert!(w.bullets.is_empty());
}

#[test]
fn asteroid_past_right_edge_wraps_left() {
    let b = Bounds { half_width: units(400), half_height: units(300) };
    let mut player = None;
    let mut rocks = vec![Asteroid {
        size: AsteroidSize::Large,
        pos: Vec2 { x: units(401), y: 0 },
        vel: AsteroidVelocity(Vec2 { x: 0, y: 0 }),
    }];
    wrap_around_screen(&mut player, &mut rocks, b);
    assert_eq!(rocks[0].pos, Vec2 { x: units(-400), y: 0 });
}

#[test]
fn ship_on_top_edge_wraps_with_unchanged_x() {
    let b = Bounds { half_width: units(400), half_height: units(300) };
    let mut ship = spawn_player();
    ship.pos = Vec2 { x: units(12), y: units(300) + 1 };
    let mut player = Some(ship);
    let mut rocks = Vec::new();
    wrap_around_screen(&mut player, &mut rocks, b);
    assert_eq!(player.unwrap().pos, Vec2 { x: units(12), y: units(-300) });
}
