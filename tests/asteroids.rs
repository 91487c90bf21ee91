use rand::rngs::StdRng;
use rand::{Rng, SeedableRng};
use supernova::arena::{collision_filter, spawn_arena, Arena, Body, Collider, GameLayer, HALF_HEIGHT, HALF_WIDTH};
use supernova::asteroid::{
    arena_asteroids, next_spawn_period, on_asteroid_damage, spawn_asteroid_event,
    spawn_from_draws, split_children, Asteroid, AsteroidEntity, AsteroidSize, AsteroidSpawnEvent,
};
use supernova::timer::Timer;

fn entity(size: AsteroidSize, x: i64, y: i64) -> AsteroidEntity {
    AsteroidEntity {
        id: 1,
        asteroid: Asteroid { size },
        body: Body { x, y, vx: 0, vy: 0 },
        angvel: 250,
    }
}

fn damage_one(arena: &mut Arena, e: AsteroidEntity, rng: &mut StdRng) -> Vec<AsteroidSpawnEvent> {
    let mut set = vec![e];
    let kids = on_asteroid_damage(arena, &mut set, e.id, rng).unwrap();
    assert!(set.is_empty());
    kids
}

#[test]
fn score_per_size() {
    assert_eq!(AsteroidSize::Big.score(), 40);
    assert_eq!(AsteroidSize::Medium.score(), 20);
    assert_eq!(AsteroidSize::Small.score(), 10);
}

#[test]
fn split_per_size() {
    assert_eq!(AsteroidSize::Big.split(), Some((AsteroidSize::Medium, 20)));
    assert_eq!(AsteroidSize::Medium.split(), Some((AsteroidSize::Small, 10)));
    assert_eq!(AsteroidSize::Small.split(), None);
}

#[test]
fn collider_diameters() {
    assert_eq!(AsteroidSize::Big.collider(), Collider::Circle { radius: 50500 });
    assert_eq!(AsteroidSize::Medium.collider(), Collider::Circle { radius: 21500 });
    assert_eq!(AsteroidSize::Small.collider(), Collider::Circle { radius: 14000 });
    assert_eq!(collision_filter(GameLayer::Asteroid), vec![GameLayer::Asteroid, GameLayer::Player, GameLayer::Laser]);
}

#[test]
fn split_children_places_quadrants() {
    let parent = entity(AsteroidSize::Big, 100, -50);
    let v = vec![(1, 2), (3, 4), (5, 6), (7, 8)];
    let kids = split_children(&parent, &v);
    assert_eq!(kids.len(), 4);
    let expect = [(130, -20), (70, -20), (130, -80), (70, -80)];
    for (i, k) in kids.iter().enumerate() {
        assert_eq!(k.size, AsteroidSize::Medium);
        assert_eq!((k.x, k.y), expect[i]);
        assert_eq!((k.vx, k.vy), v[i]);
        assert_eq!(k.angvel, 250);
    }
}

#[test]
fn split_children_of_small_is_empty() {
    let parent = entity(AsteroidSize::Small, 0, 0);
    let v = vec![(1, 2), (3, 4), (5, 6), (7, 8)];
    assert!(split_children(&parent, &v).is_empty());
}

#[test]
fn damage_big_scores_and_splits() {
    let mut arena = spawn_arena();
    let mut rng = StdRng::seed_from_u64(1);
    let kids = damage_one(&mut arena, entity(AsteroidSize::Big, 0, 0), &mut rng);
    assert_eq!(arena.score, 40);
    assert_eq!(kids.len(), 4);
    for k in &kids {
        assert_eq!(k.size, AsteroidSize::Medium);
        assert_eq!(k.x.abs(), 30);
        assert_eq!(k.y.abs(), 30);
        assert!(-256 <= k.vx && k.vx < 256);
        assert!(-160 <= k.vy && k.vy < 160);
        assert_eq!(k.angvel, 250);
    }
}

#[test]
fn damage_medium_gives_small_at_fifteen() {
    let mut arena = spawn_arena();
    let mut rng = StdRng::seed_from_u64(2);
    let kids = damage_one(&mut arena, entity(AsteroidSize::Medium, 10, 10), &mut rng);
    assert_eq!(arena.score, 20);
    assert_eq!(kids.len(), 4);
    for k in &kids {
        assert_eq!(k.size, AsteroidSize::Small);
        assert_eq!((k.x - 10).abs(), 15);
        assert_eq!((k.y - 10).abs(), 15);
        assert!(-512 <= k.vx && k.vx < 512);
        assert!(-320 <= k.vy && k.vy < 320);
    }
}

#[test]
fn damage_small_gives_nothing() {
    let mut arena = spawn_arena();
    let mut rng = StdRng::seed_from_u64(3);
    let kids = damage_one(&mut arena, entity(AsteroidSize::Small, 0, 0), &mut rng);
    assert_eq!(arena.score, 10);
    assert!(kids.is_empty());
}

#[test]
fn next_period_values() {
    assert_eq!(next_spawn_period(5000), 4000);
    assert_eq!(next_spawn_period(4000), 3200);
    assert_eq!(next_spawn_period(3200), 2560);
    assert_eq!(next_spawn_period(120), 100);
    assert_eq!(next_spawn_period(100), 100);
}

#[test]
fn spawn_cadence_three_spawns() {
    let mut arena = spawn_arena();
    let mut rng = StdRng::seed_from_u64(4);
    for _ in 0..3 {
        let d = arena.asteroid_spawn_timer.duration_ms;
        assert!(arena_asteroids(&mut arena, d, 0, &mut rng).is_some());
    }
    assert_eq!(arena.asteroid_spawn_timer.duration_ms, 2560);
    assert_eq!(arena.asteroid_spawn_timer.elapsed_ms, 0);
}

#[test]
fn spawn_period_floor() {
    let mut arena = spawn_arena();
    let mut rng = StdRng::seed_from_u64(5);
    for _ in 0..40 {
        arena_asteroids(&mut arena, 5000, 3, &mut rng);
    }
    assert_eq!(arena.asteroid_spawn_timer.duration_ms, 100);
}

#[test]
fn spawner_waits_for_timer() {
    let mut arena = spawn_arena();
    let mut rng = StdRng::seed_from_u64(6);
    assert!(arena_asteroids(&mut arena, 4999, 0, &mut rng).is_none());
    assert_eq!(arena.asteroid_spawn_timer.elapsed_ms, 4999);
    assert!(arena_asteroids(&mut arena, 1, 0, &mut rng).is_some());
}

#[test]
fn spawner_population_cap() {
    let mut arena = spawn_arena();
    let mut rng = StdRng::seed_from_u64(7);
    assert!(arena_asteroids(&mut arena, 6000, 20, &mut rng).is_none());
    assert_eq!(arena.asteroid_spawn_timer, Timer { duration_ms: 5000, elapsed_ms: 0 });
    assert!(arena_asteroids(&mut arena, 5000, 19, &mut rng).is_some());
    assert_eq!(arena.asteroid_spawn_timer.duration_ms, 4000);
}

#[test]
fn spawned_asteroids_in_range() {
    for seed in 0..200 {
        let mut arena = Arena {
            asteroid_spawn_timer: Timer { duration_ms: 100, elapsed_ms: 0 },
            score: 7,
        };
        let mut rng = StdRng::seed_from_u64(seed);
        let e = arena_asteroids(&mut arena, 100, 0, &mut rng).unwrap();
        assert_eq!(arena.score, 7);
        assert_eq!(e.size, AsteroidSize::Big);
        let top = e.y == HALF_HEIGHT && -HALF_WIDTH <= e.x && e.x < HALF_WIDTH;
        let left = e.x == -HALF_WIDTH && -HALF_HEIGHT <= e.y && e.y < HALF_HEIGHT;
        assert!(top || left);
        assert!(-320 <= e.vx && e.vx < 320);
        assert!(-200 <= e.vy && e.vy < 200);
        assert!(-10000 <= e.angvel && e.angvel < 10000);
    }
}

#[test]
fn spawn_from_draws_edges() {
    let top = spawn_from_draws(0, 12, 1, 2, 3);
    assert_eq!(
        top,
        AsteroidSpawnEvent { size: AsteroidSize::Big, x: 12, y: 400, vx: 1, vy: 2, angvel: 3 }
    );
    let left = spawn_from_draws(1, -7, 4, 5, 6);
    assert_eq!(
        left,
        AsteroidSpawnEvent { size: AsteroidSize::Big, x: -640, y: -7, vx: 4, vy: 5, angvel: 6 }
    );
}

#[test]
fn spawn_event_becomes_entity() {
    let e = AsteroidSpawnEvent { size: AsteroidSize::Medium, x: 1, y: 2, vx: 3, vy: 4, angvel: 5 };
    let a = spawn_asteroid_event(&e, 9);
    assert_eq!(a.id, 9);
    assert_eq!(a.asteroid.size, AsteroidSize::Medium);
    assert_eq!(a.body, Body { x: 1, y: 2, vx: 3, vy: 4 });
    assert_eq!(a.angvel, 5);
}

#[test]
fn small_asteroid_draws_nothing() {
    let mut arena = spawn_arena();
    let mut rng = StdRng::seed_from_u64(8);
    let mut fresh = StdRng::seed_from_u64(8);
    damage_one(&mut arena, entity(AsteroidSize::Small, 0, 0), &mut rng);
    assert_eq!(rng.gen::<u64>(), fresh.gen::<u64>());
}

#[test]
fn damage_removes_only_target_and_ignores_stale() {
    let mut arena = spawn_arena();
    let mut rng = StdRng::seed_from_u64(9);
    let mut a = entity(AsteroidSize::Small, 0, 0);
    a.id = 5;
    let mut b = entity(AsteroidSize::Big, 100, 100);
    b.id = 6;
    let mut set = vec![a, b];
    let kids = on_asteroid_damage(&mut arena, &mut set, 5, &mut rng).unwrap();
    assert!(kids.is_empty());
    assert_eq!(set, vec![b]);
    assert_eq!(arena.score, 10);
    let before = arena;
    assert!(on_asteroid_damage(&mut arena, &mut set, 5, &mut rng).is_none());
    assert_eq!(arena, before);
    assert_eq!(set, vec![b]);
}
