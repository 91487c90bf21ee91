use vstd::prelude::*;
use crate::timer::Timer;

verus! {

/// Width of the arena, in arena units.
pub const ARENA_WIDTH: i64 = 1280;

/// Height of the arena, in arena units.
pub const ARENA_HEIGHT: i64 = 800;

/// Half the width: the left and right edges lie at `-HALF_WIDTH` and `HALF_WIDTH`.
pub const HALF_WIDTH: i64 = 640;

/// Half the height: the bottom and top edges lie at `-HALF_HEIGHT` and `HALF_HEIGHT`.
pub const HALF_HEIGHT: i64 = 400;

/// Period of the first asteroid spawn of a session.
pub const START_SPAWN_PERIOD_MS: u64 = 5000;

/// Shortest period the spawner ever shrinks to.
pub const MIN_SPAWN_PERIOD_MS: u64 = 100;

/// No asteroid is spawned while this many or more are alive.
pub const MAX_ASTEROIDS: usize = 20;

/// Largest coordinate magnitude that the simulation admits for a position or
/// a velocity; it keeps every sum of a few of them inside `i64`.
pub const COORD_LIMIT: i64 = 1_000_000_000_000;

pub open spec fn coord_ok(v: i64) -> bool {
    -COORD_LIMIT <= v <= COORD_LIMIT
}

/// The per-session state of the game: the spawn timer and the score.
#[derive(Debug, Clone, Copy, PartialEq, Eq, Structural)]
pub struct Arena {
    pub asteroid_spawn_timer: Timer,
    pub score: u32,
}

impl Arena {
    /// The spawn timer is consistent, and its period lies between the floor and
    /// the starting period: the spawner only ever speeds up.
    pub open spec fn wf(self) -> bool {
        &&& self.asteroid_spawn_timer.wf()
        &&& MIN_SPAWN_PERIOD_MS <= self.asteroid_spawn_timer.duration_ms <= START_SPAWN_PERIOD_MS
    }
}

/// Collision categories: which kind of entity a collider belongs to.
#[derive(Debug, Clone, Copy, PartialEq, Eq, Structural)]
pub enum GameLayer {
    Player,
    Laser,
    Asteroid,
}

impl Default for GameLayer {
    fn default() -> (r: GameLayer)
        ensures
            r == GameLayer::Player,
    {
        GameLayer::Player
    }
}

/// The layers that an entity of the given layer collides with: the ship and
/// lasers meet asteroids only, asteroids meet everything.
pub open spec fn filter_of(layer: GameLayer) -> Seq<GameLayer> {
    match layer {
        GameLayer::Player => seq![GameLayer::Asteroid],
        GameLayer::Laser => seq![GameLayer::Asteroid],
        GameLayer::Asteroid => seq![GameLayer::Asteroid, GameLayer::Player, GameLayer::Laser],
    }
}

/// The layers that an entity of the given layer collides with, as handed to
/// the physics when the entity is created.
pub fn collision_filter(layer: GameLayer) -> (r: Vec<GameLayer>)
    ensures
        r@ == filter_of(layer),
{
    let r = match layer {
        GameLayer::Player => vec![GameLayer::Asteroid],
        GameLayer::Laser => vec![GameLayer::Asteroid],
        GameLayer::Asteroid => vec![GameLayer::Asteroid, GameLayer::Player, GameLayer::Laser],
    };
    assert(r@ =~= filter_of(layer));
    r
}

/// A collider shape handed to the physics, in thousandths of an arena unit.
#[derive(Debug, Clone, Copy, PartialEq, Eq, Structural)]
pub enum Collider {
    Circle { radius: i64 },
    Rectangle { width: i64, height: i64 },
}

/// A hit on an entity; it carries no amount, only the fact of the hit.
#[derive(Debug, Clone, Copy, PartialEq, Eq, Structural)]
pub struct Damage;

/// A moving point: position and linear velocity.
#[derive(Debug, Clone, Copy, PartialEq, Eq, Structural)]
pub struct Body {
    pub x: i64,
    pub y: i64,
    pub vx: i64,
    pub vy: i64,
}

impl Body {
    pub open spec fn wf(self) -> bool {
        coord_ok(self.x) && coord_ok(self.y) && coord_ok(self.vx) && coord_ok(self.vy)
    }
}

/// The arena at the start of a session: a full spawn period ahead and no score.
pub open spec fn start_arena() -> Arena {
    Arena {
        asteroid_spawn_timer: Timer { duration_ms: START_SPAWN_PERIOD_MS, elapsed_ms: 0 },
        score: 0,
    }
}

/// Creates the arena of a new session.
pub fn spawn_arena() -> (r: Arena)
    ensures
        r == start_arena(),
        r.wf(),
{
    Arena { asteroid_spawn_timer: Timer::from_millis(START_SPAWN_PERIOD_MS), score: 0 }
}

/// One coordinate after wrapping: a point past an edge that still moves
/// outward jumps to the opposite edge; anything else stays.
pub open spec fn wrap_axis(p: int, v: int, half: int) -> int {
    if p < -half && v < 0 {
        half
    } else if p > half && v > 0 {
        -half
    } else {
        p
    }
}

pub open spec fn wrapped(b: Body) -> Body {
    Body {
        x: wrap_axis(b.x as int, b.vx as int, HALF_WIDTH as int) as i64,
        y: wrap_axis(b.y as int, b.vy as int, HALF_HEIGHT as int) as i64,
        ..b
    }
}

fn wrap_coord(p: i64, v: i64, half: i64) -> (r: i64)
    requires
        half > 0,
    ensures
        r == wrap_axis(p as int, v as int, half as int),
{
    if p < -half && v < 0 {
        half
    } else if p > half && v > 0 {
        -half
    } else {
        p
    }
}

/// Toroidal wrap of one body.
pub fn wrap_body(b: &Body) -> (r: Body)
    ensures
        r == wrapped(*b),
        b.wf() ==> r.wf(),
{
    Body {
        x: wrap_coord(b.x, b.vx, HALF_WIDTH),
        y: wrap_coord(b.y, b.vy, HALF_HEIGHT),
        vx: b.vx,
        vy: b.vy,
    }
}

/// Toroidal wrap of every moving body, run after the positions were integrated.
pub fn movement(bodies: &mut Vec<Body>)
    ensures
        final(bodies)@.len() == old(bodies)@.len(),
        forall|i: int| 0 <= i < old(bodies)@.len() ==> final(bodies)@[i] == wrapped(old(bodies)@[i]),
{
    let n = bodies.len();
    let mut i: usize = 0;
    while i < n
        invariant
            n == old(bodies)@.len(),
            bodies@.len() == n,
            0 <= i <= n,
            forall|j: int| 0 <= j < i ==> bodies@[j] == wrapped(old(bodies)@[j]),
            forall|j: int| i <= j < n ==> bodies@[j] == old(bodies)@[j],
        decreases n - i,
    {
        let b = wrap_body(&bodies[i]);
        bodies.set(i, b);
        i = i + 1;
    }
}

/// A body just past the left edge and still moving left reappears on the
/// right edge; the same body moving right keeps its position across, and is
/// left as it is when it lies between the top and bottom edges.
pub proof fn lemma_wrap_left_edge(b: Body, eps: int)
    requires
        eps > 0,
        b.x == -(HALF_WIDTH + eps),
    ensures
        b.vx < 0 ==> wrapped(b).x == HALF_WIDTH,
        b.vx > 0 ==> wrapped(b).x == b.x,
        b.vx > 0 && -HALF_HEIGHT <= b.y <= HALF_HEIGHT ==> wrapped(b) == b,
{
}

} // verus!
