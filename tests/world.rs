use rand::rngs::StdRng;
use rand::SeedableRng;
use supernova::arena::GameLayer;
use supernova::asteroid::{AsteroidSize, AsteroidSpawnEvent};
use supernova::explosion::ExplosionKind;
use supernova::laser::LaserSpawnEvent;
use supernova::player_ship::ShipHit;
use supernova::state::{AppState, GameState};
use supernova::tick::{LaserContacts, ShipInput};
use supernova::world::World;

fn running_world() -> World {
    let mut w = World::new();
    w.step_phases();
    assert_eq!(w.phases.next_app, Some(AppState::Menu));
    w.step_phases();
    assert_eq!(w.phases.app, AppState::Menu);
    w.phases.set_app(AppState::Game);
    w.step_phases();
    assert_eq!(w.phases.game, Some(GameState::Setup));
    w.step_phases();
    assert_eq!(w.phases.game, Some(GameState::Running));
    w
}

#[test]
fn entering_game_creates_session() {
    let w = running_world();
    let arena = w.arena.unwrap();
    assert_eq!(arena.score, 0);
    assert_eq!(arena.asteroid_spawn_timer.duration_ms, 5000);
    let ship = w.ship.unwrap();
    assert_eq!(ship.ship.life, 3);
    assert_eq!((ship.body.x, ship.body.y), (0, 0));
}

#[test]
fn destroy_big_asteroid_end_to_end() {
    let mut w = running_world();
    let mut rng = StdRng::seed_from_u64(11);
    w.pending_asteroids.push(AsteroidSpawnEvent {
        size: AsteroidSize::Big,
        x: 0,
        y: 0,
        vx: 0,
        vy: 0,
        angvel: 0,
    });
    w.realize_spawns();
    assert_eq!(w.asteroids.len(), 1);
    let id = w.asteroids[0].id;
    assert!(w.damage_asteroid(id, &mut rng));
    assert_eq!(w.arena.unwrap().score, 40);
    assert!(w.asteroids.is_empty());
    assert_eq!(w.pending_asteroids.len(), 4);
    w.realize_spawns();
    assert_eq!(w.asteroids.len(), 4);
    for a in &w.asteroids {
        assert_eq!(a.asteroid.size, AsteroidSize::Medium);
        assert_ne!(a.id, id);
        assert_eq!(a.body.x.abs(), 30);
        assert_eq!(a.body.y.abs(), 30);
    }
}

#[test]
fn repeated_damage_is_ignored() {
    let mut w = running_world();
    let mut rng = StdRng::seed_from_u64(12);
    w.pending_asteroids.push(AsteroidSpawnEvent {
        size: AsteroidSize::Small,
        x: 5,
        y: 5,
        vx: 0,
        vy: 0,
        angvel: 0,
    });
    w.realize_spawns();
    let id = w.asteroids[0].id;
    assert!(w.damage_asteroid(id, &mut rng));
    assert!(!w.damage_asteroid(id, &mut rng));
    assert_eq!(w.arena.unwrap().score, 10);
    assert!(w.pending_asteroids.is_empty());
}

#[test]
fn last_life_ends_game_once() {
    let mut w = running_world();
    assert_eq!(w.damage_ship(), Some(ShipHit::Contact));
    w.ship.as_mut().unwrap().ship.invincible_timer.elapsed_ms = 2000;
    assert_eq!(w.damage_ship(), Some(ShipHit::Contact));
    w.ship.as_mut().unwrap().ship.invincible_timer.elapsed_ms = 2000;
    assert_eq!(w.damage_ship(), Some(ShipHit::Destroyed));
    assert!(w.ship.is_none());
    assert_eq!(w.phases.next_game, Some(GameState::Over));
    assert_eq!(w.damage_ship(), None);
    let dead = w.effects.iter().filter(|e| e.kind == ExplosionKind::ShipDead).count();
    assert_eq!(dead, 1);
    let contact = w.effects.iter().filter(|e| e.kind == ExplosionKind::ShipContact).count();
    assert_eq!(contact, 2);
    w.step_phases();
    assert_eq!(w.phases.game, Some(GameState::Over));
}

#[test]
fn leaving_game_clears_everything() {
    let mut w = running_world();
    w.pending_lasers.push(LaserSpawnEvent { x: 0, y: 0, heading_x: 0, heading_y: 1000, vx: 0, vy: 0 });
    w.pending_asteroids.push(AsteroidSpawnEvent {
        size: AsteroidSize::Big,
        x: 100,
        y: 100,
        vx: 0,
        vy: 0,
        angvel: 0,
    });
    w.realize_spawns();
    assert_eq!(w.lasers.len(), 1);
    assert_eq!(w.asteroids.len(), 1);
    assert_ne!(w.lasers[0].id, w.asteroids[0].id);
    w.phases.set_game(GameState::Paused);
    w.step_phases();
    assert_eq!(w.phases.game, Some(GameState::Paused));
    assert_eq!(w.asteroids.len(), 1);
    w.phases.set_app(AppState::Menu);
    w.step_phases();
    assert_eq!(w.phases.app, AppState::Menu);
    assert_eq!(w.phases.game, None);
    assert!(w.arena.is_none());
    assert!(w.ship.is_none());
    assert!(w.asteroids.is_empty());
    assert!(w.lasers.is_empty());
}

#[test]
fn reentering_game_starts_fresh() {
    let mut w = running_world();
    let mut rng = StdRng::seed_from_u64(13);
    w.pending_asteroids.push(AsteroidSpawnEvent {
        size: AsteroidSize::Big,
        x: 0,
        y: 0,
        vx: 0,
        vy: 0,
        angvel: 0,
    });
    w.realize_spawns();
    let id = w.asteroids[0].id;
    w.damage_asteroid(id, &mut rng);
    w.damage_ship();
    w.phases.set_app(AppState::Menu);
    w.step_phases();
    w.phases.set_app(AppState::Game);
    w.step_phases();
    assert_eq!(w.phases.game, Some(GameState::Setup));
    assert_eq!(w.arena.unwrap().score, 0);
    assert_eq!(w.ship.unwrap().ship.life, 3);
    assert!(w.pending_asteroids.is_empty());
}

#[test]
fn many_ship_contacts_count_once() {
    let mut w = running_world();
    let contacts = vec![GameLayer::Asteroid, GameLayer::Asteroid, GameLayer::Laser, GameLayer::Asteroid];
    assert_eq!(w.resolve_ship_contacts(&contacts), Some(ShipHit::Contact));
    assert_eq!(w.ship.unwrap().ship.life, 2);
    assert_eq!(w.effects.len(), 1);
    assert_eq!(w.resolve_ship_contacts(&vec![GameLayer::Laser]), None);
    assert_eq!(w.ship.unwrap().ship.life, 2);
}

#[test]
fn laser_contacts_destroy_and_despawn() {
    let mut w = running_world();
    let mut rng = StdRng::seed_from_u64(21);
    w.pending_asteroids.push(AsteroidSpawnEvent { size: AsteroidSize::Medium, x: 50, y: 50, vx: 0, vy: 0, angvel: 0 });
    w.pending_asteroids.push(AsteroidSpawnEvent { size: AsteroidSize::Small, x: 60, y: 60, vx: 0, vy: 0, angvel: 0 });
    w.pending_lasers.push(LaserSpawnEvent { x: 55, y: 55, heading_x: 0, heading_y: 1000, vx: 0, vy: 0 });
    w.realize_spawns();
    let (a, b) = (w.asteroids[0].id, w.asteroids[1].id);
    let laser = w.lasers[0].id;
    let targets = vec![(a, GameLayer::Asteroid), (b, GameLayer::Asteroid)];
    let hits = w.resolve_laser_contacts(laser, &targets, &mut rng).unwrap();
    assert_eq!(hits.damaged, vec![a, b]);
    assert!(hits.despawn);
    assert!(w.lasers.is_empty());
    assert!(w.asteroids.is_empty());
    assert_eq!(w.arena.unwrap().score, 30);
    assert_eq!(w.pending_asteroids.len(), 4);
    assert_eq!(w.effects.len(), 2);
    assert_eq!(w.effects[0].kind, ExplosionKind::LaserOnAsteroid);
    assert_eq!((w.effects[0].x, w.effects[0].y), (55, 55));
    assert!(w.resolve_laser_contacts(laser, &targets, &mut rng).is_none());
}

#[test]
fn laser_without_asteroid_contact_stays() {
    let mut w = running_world();
    let mut rng = StdRng::seed_from_u64(22);
    w.pending_lasers.push(LaserSpawnEvent { x: 0, y: 0, heading_x: 1000, heading_y: 0, vx: 0, vy: 0 });
    w.realize_spawns();
    let laser = w.lasers[0].id;
    let hits = w.resolve_laser_contacts(laser, &vec![(99, GameLayer::Player)], &mut rng).unwrap();
    assert!(!hits.despawn);
    assert_eq!(w.lasers.len(), 1);
    w.expire_lasers(1999);
    assert_eq!(w.lasers.len(), 1);
    assert_eq!(w.lasers[0].laser.despawn_timer.elapsed_ms, 1999);
    w.expire_lasers(1);
    assert!(w.lasers.is_empty());
}

#[test]
fn ship_tick_fires_after_cooldown() {
    let mut w = running_world();
    let c = w.ship_tick(100, true, false, false, true, 0, 1000).unwrap();
    assert!(!c.fire);
    assert_eq!(c.force, 300000);
    assert!(w.pending_lasers.is_empty());
    let c = w.ship_tick(100, false, false, true, true, 0, 1000).unwrap();
    assert!(c.fire);
    assert_eq!(c.angvel, Some(-3000));
    assert_eq!(w.pending_lasers.len(), 1);
    assert_eq!(w.pending_lasers[0].heading_y, 1000);
    assert_eq!(w.ship.unwrap().ship.cannon_timer.elapsed_ms, 0);
}

#[test]
fn spawn_tick_queues_big_asteroid() {
    let mut w = running_world();
    let mut rng = StdRng::seed_from_u64(23);
    assert!(w.spawn_tick(4000, &mut rng).is_none());
    let e = w.spawn_tick(1000, &mut rng).unwrap();
    assert_eq!(e.size, AsteroidSize::Big);
    assert_eq!(w.pending_asteroids.len(), 1);
    assert_eq!(w.arena.unwrap().asteroid_spawn_timer.duration_ms, 4000);
    let mut idle = World::new();
    assert!(idle.spawn_tick(9000, &mut rng).is_none());
}

#[test]
fn wrap_bodies_wraps_everything() {
    let mut w = running_world();
    w.pending_asteroids.push(AsteroidSpawnEvent { size: AsteroidSize::Big, x: -641, y: 0, vx: -3, vy: 0, angvel: 0 });
    w.pending_asteroids.push(AsteroidSpawnEvent { size: AsteroidSize::Big, x: -641, y: 0, vx: 3, vy: 0, angvel: 0 });
    w.pending_lasers.push(LaserSpawnEvent { x: 0, y: 405, heading_x: 0, heading_y: 1000, vx: 0, vy: 0 });
    w.realize_spawns();
    w.ship.as_mut().unwrap().body.x = 650;
    w.ship.as_mut().unwrap().body.vx = 1;
    w.wrap_bodies();
    assert_eq!(w.asteroids[0].body.x, 640);
    assert_eq!(w.asteroids[1].body.x, -641);
    assert_eq!(w.lasers[0].body.y, -400);
    assert_eq!(w.ship.unwrap().body.x, -640);
}

#[test]
fn paused_game_freezes_timers() {
    let mut w = running_world();
    let mut rng = StdRng::seed_from_u64(24);
    w.pending_lasers.push(LaserSpawnEvent { x: 0, y: 0, heading_x: 0, heading_y: 1000, vx: 0, vy: 0 });
    w.realize_spawns();
    w.phases.set_game(GameState::Paused);
    w.step_phases();
    w.expire_lasers(5000);
    assert_eq!(w.lasers.len(), 1);
    assert_eq!(w.lasers[0].laser.despawn_timer.elapsed_ms, 0);
    assert!(w.spawn_tick(9000, &mut rng).is_none());
    assert_eq!(w.arena.unwrap().asteroid_spawn_timer.elapsed_ms, 0);
    assert!(w.ship_tick(500, false, false, false, true, 0, 1000).is_none());
    assert_eq!(w.ship.unwrap().ship.cannon_timer.elapsed_ms, 0);
    let input = ShipInput { forward: false, rotate_left: false, rotate_right: false, fire: true, heading_x: 0, heading_y: 1000 };
    assert!(w.tick(500, input, &vec![GameLayer::Asteroid], &Vec::new(), &mut rng).is_none());
    assert_eq!(w.ship.unwrap().ship.life, 3);
}

#[test]
fn tick_runs_steps_in_order() {
    let mut w = running_world();
    let mut rng = StdRng::seed_from_u64(25);
    // Last tick's requests: a big asteroid far past the left edge moving left, and a laser.
    w.pending_asteroids.push(AsteroidSpawnEvent { size: AsteroidSize::Big, x: -700, y: 0, vx: -1, vy: 0, angvel: 0 });
    w.pending_lasers.push(LaserSpawnEvent { x: 0, y: 0, heading_x: 0, heading_y: 1000, vx: 0, vy: 0 });
    let first = w.next_id;
    let input = ShipInput { forward: true, rotate_left: false, rotate_right: false, fire: true, heading_x: 0, heading_y: 1000 };
    let control = w.tick(200, input, &Vec::new(), &Vec::new(), &mut rng).unwrap();
    // Realized, then wrapped.
    assert_eq!(w.asteroids.len(), 1);
    assert_eq!(w.asteroids[0].id, first);
    assert_eq!(w.asteroids[0].body.x, 640);
    assert_eq!(w.lasers.len(), 1);
    assert_eq!(w.lasers[0].laser.despawn_timer.elapsed_ms, 200);
    assert_eq!(control.force, 300000);
    assert!(control.fire);
    assert_eq!(w.pending_lasers.len(), 1);
    assert_eq!(w.arena.unwrap().asteroid_spawn_timer.elapsed_ms, 200);
    // Next tick: the ship is hit, the laser hits the asteroid.
    let asteroid = w.asteroids[0].id;
    let laser = w.lasers[0].id;
    let reports = vec![LaserContacts { laser_id: laser, targets: vec![(asteroid, GameLayer::Asteroid)] }];
    let idle = ShipInput { forward: false, rotate_left: false, rotate_right: false, fire: false, heading_x: 0, heading_y: 1000 };
    w.tick(100, idle, &vec![GameLayer::Asteroid, GameLayer::Asteroid], &reports, &mut rng);
    assert_eq!(w.ship.unwrap().ship.life, 2);
    assert_eq!(w.arena.unwrap().score, 40);
    assert_eq!(w.asteroids.len(), 0);
    assert_eq!(w.pending_asteroids.len(), 4);
    assert_eq!(w.lasers.len(), 1);
    assert_ne!(w.lasers[0].id, laser);
    let kinds: Vec<ExplosionKind> = w.effects.iter().map(|e| e.kind).collect();
    assert_eq!(kinds, vec![ExplosionKind::ShipContact, ExplosionKind::LaserOnAsteroid]);
}
