use rusteroids::asteroid::{
    fragment, move_asteroids, spawn_asteroid, spawn_initial_asteroids, Asteroid, AsteroidSize,
    AsteroidVelocity, INITIAL_ASTEROIDS,
};
use rusteroids::game::{AsteroidSpawnTimer, Controls, GameState, Score, World, SPAWN_PERIOD_MS};
use rusteroids::geometry::{
    aim, isqrt, scale_heading, touching, wrap_point, Bounds, Heading, Vec2, POS_PER_UNIT,
    VEL_PER_UNIT,
};
use rusteroids::mechanics::{
    bullet_asteroid_collision, despawn_bullets, despawn_out_of_bounds_bullets, move_bullets,
    player_asteroid_collision, spawn_bullet, Bullet, BulletLifetime, BulletVelocity,
};
use rusteroids::player::{player_movement, spawn_player, turn_angle, FULL_TURN};
use rusteroids::random::{
    entry_point, is_clear_of_centre, pick_seed, seed_position, MAX_SEED_TRIES, MIN_SPAWN_DISTANCE,
};

fn units(u: i64) -> i64 {
    u * POS_PER_UNIT
}

fn speed(u: i64) -> i64 {
    u * VEL_PER_UNIT
}

fn rock(size: AsteroidSize, x: i64, y: i64) -> Asteroid {
    Asteroid { size, pos: Vec2 { x, y }, vel: AsteroidVelocity(Vec2 { x: 0, y: 0 }) }
}

fn bullet(x: i64, y: i64, life: u64) -> Bullet {
    Bullet {
        pos: Vec2 { x, y },
        vel: BulletVelocity(Vec2 { x: 0, y: 0 }),
        life: BulletLifetime(life),
    }
}

const UP: Heading = Heading { x: 0, y: 1000 };
const RIGHT: Heading = Heading { x: 1000, y: 0 };

#[test]
fn movement_adds_velocity_times_step() {
    let mut rocks = vec![
        Asteroid {
            size: AsteroidSize::Large,
            pos: Vec2 { x: units(10), y: units(-5) },
            vel: AsteroidVelocity(Vec2 { x: speed(50), y: -speed(30) }),
        },
        Asteroid {
            size: AsteroidSize::Small,
            pos: Vec2 { x: 0, y: 0 },
            vel: AsteroidVelocity(Vec2 { x: -7, y: 3 }),
        },
    ];
    move_asteroids(&mut rocks, 250);
    assert_eq!(rocks[0].pos, Vec2 { x: units(10) + units(50) / 4, y: units(-5) - units(30) / 4 });
    assert_eq!(rocks[1].pos, Vec2 { x: -7 * 250, y: 3 * 250 });
    let mut shots = vec![Bullet {
        pos: Vec2 { x: 1, y: 2 },
        vel: BulletVelocity(Vec2 { x: speed(500), y: 0 }),
        life: BulletLifetime(2000),
    }];
    move_bullets(&mut shots, 16);
    assert_eq!(shots[0].pos, Vec2 { x: 1 + units(8), y: 2 });
    assert_eq!(shots[0].life.0, 2000);
}

#[test]
fn wrapping_twice_equals_wrapping_once() {
    let b = Bounds { half_width: units(400), half_height: units(300) };
    for p in [
        Vec2 { x: units(400), y: units(-300) },
        Vec2 { x: units(401), y: units(301) },
        Vec2 { x: units(-401), y: 0 },
        Vec2 { x: 5, y: -5 },
    ] {
        let once = wrap_point(p, b);
        assert_eq!(wrap_point(once, b), once);
    }
    assert_eq!(wrap_point(Vec2 { x: units(400), y: 0 }, b), Vec2 { x: units(400), y: 0 });
    assert_eq!(wrap_point(Vec2 { x: units(-401), y: 0 }, b), Vec2 { x: units(400), y: 0 });
}

#[test]
fn projectile_removed_after_ceiling_of_ticks() {
    // 2000 ms at 300 ms a tick: ⌈2000 / 300⌉ = 7 ticks.
    let mut shots = vec![bullet(0, 0, 2000)];
    for _ in 0..6 {
        despawn_bullets(&mut shots, 300);
    }
    assert_eq!(shots.len(), 1);
    assert_eq!(shots[0].life.0, 200);
    despawn_bullets(&mut shots, 300);
    assert!(shots.is_empty());
}

#[test]
fn projectile_removed_when_out_of_bounds() {
    let b = Bounds { half_width: units(400), half_height: units(300) };
    let mut shots = vec![
        bullet(units(400), 0, 1000),
        bullet(units(400) + 1, 0, 1000),
        bullet(0, units(-300) - 1, 1000),
        bullet(0, units(-300), 1000),
    ];
    despawn_out_of_bounds_bullets(&mut shots, b);
    assert_eq!(shots.len(), 2);
    assert_eq!(shots[0].pos.x, units(400));
    assert_eq!(shots[1].pos.y, units(-300));
}

#[test]
fn large_asteroid_breaks_into_two_medium() {
    let parent = Asteroid {
        size: AsteroidSize::Large,
        pos: Vec2 { x: units(3), y: units(4) },
        vel: AsteroidVelocity(Vec2 { x: speed(50), y: 0 }),
    };
    let mut out = Vec::new();
    fragment(&parent, UP, Heading { x: -600, y: 800 }, &mut out);
    assert_eq!(out.len(), 2);
    assert_eq!(out[0].size, AsteroidSize::Medium);
    assert_eq!(out[1].size, AsteroidSize::Medium);
    assert_eq!(out[0].pos, parent.pos);
    assert_eq!(out[1].pos, parent.pos);
    assert_eq!(out[0].vel.0, Vec2 { x: 0, y: speed(75) });
    assert_eq!(out[1].vel.0, Vec2 { x: -speed(45), y: speed(60) });
}

#[test]
fn medium_asteroid_breaks_into_two_small() {
    let mut out = Vec::new();
    fragment(&rock(AsteroidSize::Medium, 7, 8), RIGHT, UP, &mut out);
    assert_eq!(out.len(), 2);
    assert_eq!(out[0].size, AsteroidSize::Small);
    assert_eq!(out[0].vel.0, Vec2 { x: speed(100), y: 0 });
    assert_eq!(out[1].vel.0, Vec2 { x: 0, y: speed(100) });
    assert_eq!(out[1].pos, Vec2 { x: 7, y: 8 });
}

#[test]
fn small_asteroid_leaves_nothing() {
    let mut out = vec![rock(AsteroidSize::Large, 0, 0)];
    fragment(&rock(AsteroidSize::Small, 1, 1), RIGHT, UP, &mut out);
    assert_eq!(out.len(), 1);
}

#[test]
fn hit_removes_both_and_spawns_fragments() {
    let mut rocks = vec![
        rock(AsteroidSize::Large, units(100), 0),
        rock(AsteroidSize::Small, units(-100), 0),
    ];
    // 44.9 units from the large one (reach 45), far from the small one.
    let mut shots = vec![bullet(units(100) - units(44) - 900_000_000, 0, 1000), bullet(0, units(200), 1000)];
    let shards = vec![UP, RIGHT, UP, RIGHT];
    let destroyed = bullet_asteroid_collision(&mut shots, &mut rocks, &shards);
    assert_eq!(destroyed, 1);
    assert_eq!(rocks.len(), 3);
    assert_eq!(rocks[0].size, AsteroidSize::Small);
    assert_eq!(rocks[1].size, AsteroidSize::Medium);
    assert_eq!(rocks[1].pos, Vec2 { x: units(100), y: 0 });
    assert_eq!(rocks[1].vel.0, Vec2 { x: 0, y: speed(75) });
    assert_eq!(rocks[2].vel.0, Vec2 { x: speed(75), y: 0 });
    assert_eq!(shots.len(), 1);
    assert_eq!(shots[0].pos, Vec2 { x: 0, y: units(200) });
}

#[test]
fn one_projectile_destroys_every_asteroid_it_overlaps() {
    let mut rocks = vec![
        rock(AsteroidSize::Small, units(10), 0),
        rock(AsteroidSize::Small, units(-10), 0),
    ];
    let mut shots = vec![bullet(0, 0, 1000)];
    let shards = vec![UP; 4];
    let destroyed = bullet_asteroid_collision(&mut shots, &mut rocks, &shards);
    assert_eq!(destroyed, 2);
    assert!(rocks.is_empty());
    assert!(shots.is_empty());
}

#[test]
fn touching_at_exact_reach_is_no_collision() {
    let p = Vec2 { x: 0, y: 0 };
    assert!(!touching(p, Vec2 { x: units(45), y: 0 }, units(45)));
    assert!(touching(p, Vec2 { x: units(45) - 1, y: 0 }, units(45)));
    assert!(touching(p, Vec2 { x: units(27), y: units(35) }, units(45)));
    assert!(!touching(p, Vec2 { x: units(27), y: units(36) }, units(45)));
}

#[test]
fn ship_hit_by_asteroid_is_removed() {
    let mut player = Some(spawn_player());
    let rocks = vec![rock(AsteroidSize::Medium, units(44), 0)];
    assert!(player_asteroid_collision(&mut player, &rocks));
    assert!(player.is_none());
    let mut player = Some(spawn_player());
    let rocks = vec![rock(AsteroidSize::Medium, units(45), 0)];
    assert!(!player_asteroid_collision(&mut player, &rocks));
    assert!(player.is_some());
    let mut none = None;
    assert!(!player_asteroid_collision(&mut none, &rocks));
}

#[test]
fn fire_needs_a_ship_and_the_control() {
    let mut shots = Vec::new();
    spawn_bullet(&mut shots, &None, UP, true);
    assert!(shots.is_empty());
    let ship = Some(spawn_player());
    spawn_bullet(&mut shots, &ship, UP, false);
    assert!(shots.is_empty());
    spawn_bullet(&mut shots, &ship, RIGHT, true);
    assert_eq!(shots.len(), 1);
    assert_eq!(shots[0].pos, Vec2 { x: units(20), y: 0 });
    assert_eq!(shots[0].vel.0, Vec2 { x: speed(500), y: 0 });
    assert_eq!(shots[0].life.0, 2000);
}

#[test]
fn thrust_accelerates_then_ship_drifts() {
    let mut ship = spawn_player();
    player_movement(&mut ship, 0, true, UP, 1000);
    assert_eq!(ship.vel.0, Vec2 { x: 0, y: speed(100) });
    assert_eq!(ship.pos, Vec2 { x: 0, y: units(100) });
    player_movement(&mut ship, 0, false, RIGHT, 500);
    assert_eq!(ship.vel.0, Vec2 { x: 0, y: speed(100) });
    assert_eq!(ship.pos, Vec2 { x: 0, y: units(150) });
}

#[test]
fn rotation_turns_and_wraps_the_angle() {
    let a = turn_angle(0, 1000, 1000);
    assert_eq!(a, 2_500_000_000);
    let a = turn_angle(a, 1000, 1000);
    assert_eq!(a, 5_000_000_000);
    let a = turn_angle(a, 1000, 1000);
    assert_eq!(a, 7_500_000_000 - FULL_TURN);
    assert_eq!(turn_angle(0, -5000, 1000), FULL_TURN - 2_500_000_000);
    assert_eq!(turn_angle(0, 500, 16), 500 * 2500 * 16);
    assert_eq!(turn_angle(123, 0, 1000), 123);
}

#[test]
fn movement_turns_the_ship() {
    let mut ship = spawn_player();
    player_movement(&mut ship, -1000, false, UP, 400);
    assert_eq!(ship.angle, FULL_TURN - 1_000_000_000);
    assert_eq!(ship.vel.0, Vec2 { x: 0, y: 0 });
    assert_eq!(ship.pos, Vec2 { x: 0, y: 0 });
}

#[test]
fn seed_pick_takes_first_clear_sample() {
    let b = Bounds { half_width: units(400), half_height: units(300) };
    let near = Vec2 { x: units(10), y: units(10) };
    let far1 = Vec2 { x: units(200), y: 0 };
    let far2 = Vec2 { x: 0, y: units(-250) };
    assert_eq!(pick_seed(&vec![near, far1, far2], b), far1);
    assert_eq!(pick_seed(&vec![far2, far1], b), far2);
    assert_eq!(pick_seed(&vec![near], b), near);
}

#[test]
fn seed_pick_keeps_last_sample_when_none_is_clear() {
    let b = Bounds { half_width: units(400), half_height: units(300) };
    let mut samples = vec![Vec2 { x: units(1), y: 0 }; MAX_SEED_TRIES as usize - 1];
    samples.push(Vec2 { x: units(-3), y: units(4) });
    assert_eq!(pick_seed(&samples, b), Vec2 { x: units(-3), y: units(4) });
}

#[test]
fn spawn_timer_fires_once_per_tick() {
    let mut t = AsteroidSpawnTimer::new(SPAWN_PERIOD_MS);
    assert!(!t.tick(4999));
    assert!(t.tick(1));
    assert_eq!(t.elapsed_ms, 0);
    assert!(t.tick(12_000));
    assert_eq!(t.elapsed_ms, 2000);
    assert!(!t.tick(2999));
}

#[test]
fn integer_square_root() {
    assert_eq!(isqrt(0), 0);
    assert_eq!(isqrt(15), 3);
    assert_eq!(isqrt(16), 4);
    assert_eq!(isqrt(1u128 << 124), 1u128 << 62);
    assert_eq!(isqrt((1u128 << 124) - 1), (1u128 << 62) - 1);
}

#[test]
fn aim_points_at_centre_at_large_speed() {
    assert_eq!(aim(Vec2 { x: 0, y: units(350) }, RIGHT, 50), Vec2 { x: 0, y: -speed(50) });
    assert_eq!(aim(Vec2 { x: units(-30), y: units(40) }, RIGHT, 50), Vec2 { x: speed(30), y: -speed(40) });
    // Turned a quarter turn counter-clockwise: from (-1, 0) to (0, -1).
    assert_eq!(aim(Vec2 { x: units(450), y: 0 }, UP, 50), Vec2 { x: 0, y: -speed(50) });
    assert_eq!(aim(Vec2 { x: 0, y: 0 }, RIGHT, 50), Vec2 { x: 0, y: 0 });
}

#[test]
fn heading_scales_to_speed() {
    assert_eq!(scale_heading(Heading { x: 600, y: -800 }, 100), Vec2 { x: speed(60), y: -speed(80) });
}

#[test]
fn seeding_stays_in_rectangle_and_varies() {
    let b = Bounds { half_width: units(400), half_height: units(300) };
    let first = seed_position(b);
    let mut varied = false;
    for _ in 0..200 {
        let p = seed_position(b);
        assert!(-b.half_width <= p.x && p.x < b.half_width);
        assert!(-b.half_height <= p.y && p.y < b.half_height);
        assert!(is_clear_of_centre(p, b));
        varied |= p != first;
    }
    assert!(varied);
}

#[test]
fn clear_of_centre_is_strict() {
    let b = Bounds { half_width: units(400), half_height: units(300) };
    assert!(!is_clear_of_centre(Vec2 { x: MIN_SPAWN_DISTANCE, y: 0 }, b));
    assert!(is_clear_of_centre(Vec2 { x: MIN_SPAWN_DISTANCE + 1, y: 0 }, b));
    assert!(!is_clear_of_centre(Vec2 { x: units(60), y: units(80) }, b));
}

#[test]
fn entry_points_lie_outside_an_edge() {
    let b = Bounds { half_width: units(400), half_height: units(300) };
    let mut seen = [false; 4];
    for _ in 0..400 {
        let p = entry_point(b);
        if p.y == units(350) && -b.half_width <= p.x && p.x < b.half_width {
            seen[0] = true;
        } else if p.y == units(-350) && -b.half_width <= p.x && p.x < b.half_width {
            seen[1] = true;
        } else if p.x == units(-450) && -b.half_height <= p.y && p.y < b.half_height {
            seen[2] = true;
        } else if p.x == units(450) && -b.half_height <= p.y && p.y < b.half_height {
            seen[3] = true;
        } else {
            panic!("not an entry point: {:?}", p);
        }
    }
    assert_eq!(seen, [true; 4]);
}

#[test]
fn initial_asteroids_are_large_and_placed() {
    let b = Bounds { half_width: units(400), half_height: units(300) };
    let mut rocks = vec![rock(AsteroidSize::Small, 1, 2)];
    let headings = vec![UP, RIGHT, Heading { x: 0, y: -1000 }, Heading { x: -1000, y: 0 }];
    spawn_initial_asteroids(&mut rocks, b, &headings);
    assert_eq!(rocks.len(), 1 + INITIAL_ASTEROIDS);
    assert_eq!(rocks[0], rock(AsteroidSize::Small, 1, 2));
    assert_eq!(rocks[1].vel.0, Vec2 { x: 0, y: speed(50) });
    assert_eq!(rocks[4].vel.0, Vec2 { x: -speed(50), y: 0 });
    for a in &rocks[1..] {
        assert_eq!(a.size, AsteroidSize::Large);
        assert!(is_clear_of_centre(a.pos, b));
    }
}

#[test]
fn spawn_asteroid_appends() {
    let mut rocks = Vec::new();
    spawn_asteroid(&mut rocks, AsteroidSize::Medium, Vec2 { x: 1, y: 2 }, Vec2 { x: 3, y: 4 });
    assert_eq!(rocks, vec![Asteroid {
        size: AsteroidSize::Medium,
        pos: Vec2 { x: 1, y: 2 },
        vel: AsteroidVelocity(Vec2 { x: 3, y: 4 }),
    }]);
}

fn headings() -> Vec<Heading> {
    vec![UP; 4]
}

#[test]
fn loading_waits_for_both_assets() {
    let b = Bounds { half_width: units(400), half_height: units(300) };
    let mut w = World::new();
    assert_eq!(w.state, GameState::Loading);
    w.finish_loading(true, false, b, &headings());
    assert_eq!(w.state, GameState::Loading);
    assert!(w.player.is_none() && w.asteroids.is_empty());
    w.finish_loading(true, true, b, &headings());
    assert_eq!(w.state, GameState::Playing);
    assert_eq!(w.player, Some(spawn_player()));
    assert_eq!(w.asteroids.len(), INITIAL_ASTEROIDS);
    w.finish_loading(true, true, b, &headings());
    assert_eq!(w.asteroids.len(), INITIAL_ASTEROIDS);
}

fn game_over_world() -> World {
    World {
        state: GameState::GameOver,
        score: Score(17),
        timer: AsteroidSpawnTimer::new(SPAWN_PERIOD_MS),
        player: None,
        asteroids: vec![rock(AsteroidSize::Large, units(100), 0), rock(AsteroidSize::Small, 0, units(90))],
        bullets: vec![bullet(0, units(50), 700)],
    }
}

#[test]
fn reset_clears_entities_and_score() {
    let mut w = game_over_world();
    w.reset_round();
    assert_eq!(w.state, GameState::Playing);
    assert_eq!(w.score, Score(0));
    assert!(w.player.is_none());
    assert!(w.asteroids.is_empty());
    assert!(w.bullets.is_empty());
}

#[test]
fn reset_outside_game_over_does_nothing() {
    let mut w = game_over_world();
    w.state = GameState::Loading;
    w.reset_round();
    assert_eq!(w.state, GameState::Loading);
    assert_eq!(w.score, Score(17));
    assert_eq!(w.asteroids.len(), 2);
}

#[test]
fn restart_begins_a_fresh_round() {
    let b = Bounds { half_width: units(400), half_height: units(300) };
    let mut w = game_over_world();
    let none = Controls { turn: 0, thrust: false, fire: false, restart: false };
    w.restart(&none, b, &headings());
    assert_eq!(w.state, GameState::GameOver);
    assert_eq!(w.score, Score(17));
    let press = Controls { restart: true, ..none };
    w.restart(&press, b, &headings());
    assert_eq!(w.state, GameState::Playing);
    assert_eq!(w.score, Score(0));
    assert_eq!(w.player, Some(spawn_player()));
    assert_eq!(w.asteroids.len(), INITIAL_ASTEROIDS);
    assert!(w.asteroids.iter().all(|a| a.size == AsteroidSize::Large));
    assert!(w.bullets.is_empty());
}

#[test]
fn kills_score_one_each() {
    let b = Bounds { half_width: units(400), half_height: units(300) };
    let mut w = World {
        state: GameState::Playing,
        score: Score(3),
        timer: AsteroidSpawnTimer::new(SPAWN_PERIOD_MS),
        player: Some(spawn_player()),
        asteroids: vec![rock(AsteroidSize::Small, units(200), units(200)), rock(AsteroidSize::Small, units(-200), units(200))],
        bullets: vec![bullet(units(200), units(200), 1000), bullet(units(-200), units(200), 1000)],
    };
    let c = Controls { turn: 0, thrust: false, fire: false, restart: false };
    w.advance(&c, UP, RIGHT, &vec![UP; 4], 16, b);
    assert_eq!(w.score, Score(5));
    assert!(w.asteroids.is_empty());
    assert!(w.bullets.is_empty());
    assert_eq!(w.state, GameState::Playing);
}

#[test]
fn timer_adds_one_large_asteroid_from_an_edge() {
    let b = Bounds { half_width: units(400), half_height: units(300) };
    let mut w = World {
        state: GameState::Playing,
        score: Score(0),
        timer: AsteroidSpawnTimer { elapsed_ms: 4990, period_ms: SPAWN_PERIOD_MS },
        player: Some(spawn_player()),
        asteroids: Vec::new(),
        bullets: Vec::new(),
    };
    let c = Controls { turn: 0, thrust: false, fire: false, restart: false };
    w.advance(&c, UP, RIGHT, &Vec::new(), 20, b);
    assert_eq!(w.timer.elapsed_ms, 10);
    assert_eq!(w.asteroids.len(), 1);
    let a = w.asteroids[0];
    assert_eq!(a.size, AsteroidSize::Large);
    assert!(a.pos.x.abs() == units(450) || a.pos.y.abs() == units(350));
    let v = (a.vel.0.x as i128).pow(2) + (a.vel.0.y as i128).pow(2);
    let full = (speed(50) as i128).pow(2);
    assert!(v <= full && v * 100 >= full * 99);
}

#[test]
fn nothing_moves_outside_playing() {
    let b = Bounds { half_width: units(400), half_height: units(300) };
    let mut w = game_over_world();
    w.asteroids[0].vel = AsteroidVelocity(Vec2 { x: speed(50), y: 0 });
    let c = Controls { turn: 1000, thrust: true, fire: true, restart: false };
    w.advance(&c, UP, RIGHT, &vec![UP; 4], 16, b);
    assert_eq!(w.asteroids[0].pos, Vec2 { x: units(100), y: 0 });
    assert_eq!(w.bullets.len(), 1);
    assert_eq!(w.timer.elapsed_ms, 0);
}
