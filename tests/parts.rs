use supernova::arena::{movement, Collider, spawn_arena, wrap_body, Body, GameLayer, ARENA_HEIGHT, ARENA_WIDTH};
use supernova::explosion::{
    animate_explosion, catch_explosion_event, ExplosionKind, ExplosionStep, SpawnExplosionEvent,
};
use supernova::hud::{hud_life_system, hud_score_system, hud_spawn};
use supernova::laser::{laser_asteroid_collision, laser_collider, laser_timeout_system, spawn_laser, LaserSpawnEvent};
use supernova::player_ship::spawn_ship;
use supernova::state::{AppState, GameState, Scope};
use supernova::timer::Timer;

#[test]
fn arena_dimensions() {
    assert_eq!(ARENA_WIDTH, 1280);
    assert_eq!(ARENA_HEIGHT, 800);
    let a = spawn_arena();
    assert_eq!(a.score, 0);
    assert_eq!(a.asteroid_spawn_timer, Timer { duration_ms: 5000, elapsed_ms: 0 });
    assert_eq!(GameLayer::default(), GameLayer::Player);
}

#[test]
fn timer_counts_and_stops() {
    let mut t = Timer::from_millis(1000);
    t.tick(400);
    assert_eq!(t.elapsed_ms, 400);
    assert!(!t.finished());
    t.tick(700);
    assert_eq!(t.elapsed_ms, 1000);
    assert!(t.finished());
    t.reset();
    assert_eq!(t.elapsed_ms, 0);
    t.tick(900);
    t.set_duration(500);
    assert_eq!(t, Timer { duration_ms: 500, elapsed_ms: 500 });
    assert!(Timer::finished_from_millis(3).finished());
}

#[test]
fn wrap_left_edge_moving_left() {
    let b = Body { x: -641, y: 0, vx: -5, vy: 0 };
    assert_eq!(wrap_body(&b), Body { x: 640, y: 0, vx: -5, vy: 0 });
}

#[test]
fn wrap_left_edge_moving_right_unchanged() {
    let b = Body { x: -641, y: 0, vx: 5, vy: 0 };
    assert_eq!(wrap_body(&b), b);
}

#[test]
fn wrap_other_edges() {
    assert_eq!(wrap_body(&Body { x: 700, y: 0, vx: 1, vy: 0 }).x, -640);
    assert_eq!(wrap_body(&Body { x: 0, y: 401, vx: 0, vy: 3 }).y, -400);
    assert_eq!(wrap_body(&Body { x: 0, y: -401, vx: 0, vy: -3 }).y, 400);
    let corner = wrap_body(&Body { x: 641, y: -401, vx: 1, vy: -1 });
    assert_eq!((corner.x, corner.y), (-640, 400));
    let inside = Body { x: 640, y: 400, vx: 9, vy: 9 };
    assert_eq!(wrap_body(&inside), inside);
}

#[test]
fn movement_wraps_all() {
    let mut v = vec![
        Body { x: -641, y: 0, vx: -1, vy: 0 },
        Body { x: 10, y: 10, vx: 1, vy: 1 },
        Body { x: 0, y: 500, vx: 0, vy: 1 },
    ];
    movement(&mut v);
    assert_eq!(v[0].x, 640);
    assert_eq!(v[1], Body { x: 10, y: 10, vx: 1, vy: 1 });
    assert_eq!(v[2].y, -400);
}

#[test]
fn laser_velocity_adds_muzzle() {
    let e = LaserSpawnEvent { x: 3, y: 4, heading_x: 0, heading_y: 1000, vx: 77, vy: 10 };
    let (laser, body) = spawn_laser(&e);
    assert_eq!(body, Body { x: 3, y: 4, vx: 77, vy: 510 });
    assert_eq!(laser.despawn_timer, Timer { duration_ms: 2000, elapsed_ms: 0 });
    assert_eq!((laser.heading_x, laser.heading_y), (0, 1000));
    assert_eq!(laser_collider(), Collider::Rectangle { width: 2500, height: 10000 });
    let e = LaserSpawnEvent { x: 0, y: 0, heading_x: -707, heading_y: -707, vx: 0, vy: 0 };
    let (_, body) = spawn_laser(&e);
    assert_eq!((body.vx, body.vy), (-353, -353));
}

#[test]
fn laser_times_out_after_two_seconds() {
    let e = LaserSpawnEvent { x: 0, y: 0, heading_x: 0, heading_y: 1000, vx: 0, vy: 0 };
    let (mut laser, _) = spawn_laser(&e);
    assert!(!laser_timeout_system(&mut laser, 1999));
    assert!(laser_timeout_system(&mut laser, 1));
}

#[test]
fn laser_hits_asteroids_only() {
    let targets = vec![(5, GameLayer::Asteroid), (6, GameLayer::Player), (7, GameLayer::Asteroid)];
    let hits = laser_asteroid_collision(11, 12, &targets);
    assert_eq!(hits.damaged, vec![5, 7]);
    assert_eq!(hits.explosions.len(), 2);
    assert_eq!(
        hits.explosions[0],
        SpawnExplosionEvent { kind: ExplosionKind::LaserOnAsteroid, x: 11, y: 12 }
    );
    assert!(hits.despawn);
    let none = laser_asteroid_collision(0, 0, &vec![(1, GameLayer::Laser)]);
    assert!(none.damaged.is_empty());
    assert!(!none.despawn);
}

#[test]
fn explosion_params_and_animation() {
    let s = catch_explosion_event(&SpawnExplosionEvent { kind: ExplosionKind::ShipDead, x: 1, y: 2 });
    assert_eq!((s.width, s.height), (42, 39));
    assert_eq!((s.x, s.y), (1, 2));
    assert_eq!(s.scope, Scope::App(AppState::Game));
    assert_eq!(s.explosion.end_scale, 5000);
    assert_eq!(s.explosion.timer.duration_ms, 2000);
    let mut e = s.explosion;
    assert_eq!(animate_explosion(&mut e, 1000, GameState::Running), ExplosionStep::Scale(3000));
    assert_eq!(animate_explosion(&mut e, 1000, GameState::Paused), ExplosionStep::Frozen);
    assert_eq!(animate_explosion(&mut e, 1000, GameState::Over), ExplosionStep::Frozen);
    assert_eq!(e.timer.elapsed_ms, 1000);
    assert_eq!(animate_explosion(&mut e, 1000, GameState::Running), ExplosionStep::Despawn);
    let c = catch_explosion_event(&SpawnExplosionEvent { kind: ExplosionKind::ShipContact, x: 0, y: 0 });
    assert_eq!((c.explosion.end_scale, c.explosion.timer.duration_ms), (2000, 1000));
    let l = catch_explosion_event(&SpawnExplosionEvent { kind: ExplosionKind::LaserOnAsteroid, x: 0, y: 0 });
    assert_eq!((l.width, l.height), (36, 32));
    assert_eq!((l.explosion.end_scale, l.explosion.timer.duration_ms), (1500, 1000));
}

#[test]
fn hud_score_text() {
    assert_eq!(hud_score_system(0), "0");
    assert_eq!(hud_score_system(40), "40");
    assert_eq!(hud_score_system(1234), "1234");
}

#[test]
fn hud_life_icons() {
    let icons = hud_spawn();
    assert_eq!(icons.iter().map(|i| i.min).collect::<Vec<u32>>(), vec![1, 2, 3]);
    let mut ship = spawn_ship().ship;
    ship.life = 2;
    assert_eq!(hud_life_system(&vec![ship], &icons), vec![true, true, false]);
    assert_eq!(hud_life_system(&Vec::new(), &icons), vec![false, false, false]);
    let mut other = spawn_ship().ship;
    other.player_id = 2;
    assert_eq!(hud_life_system(&vec![ship, other], &icons), vec![true, true, false]);
}
