use vstd::prelude::*;
use crate::timer::Timer;
use crate::arena::{coord_ok, Body, Collider, GameLayer};
use crate::explosion::{ExplosionKind, SpawnExplosionEvent};

verus! {

/// How long a laser lives when it hits nothing.
pub const LASER_LIFETIME_MS: u64 = 2000;

/// Speed of a laser relative to the ship that fired it.
pub const MUZZLE_SPEED: i64 = 500;

/// A request to fire a laser from the ship's position. `heading_x` and
/// `heading_y` are the ship's facing direction as a unit vector in
/// thousandths; `vx`, `vy` the ship's velocity.
#[derive(Debug, Clone, Copy, PartialEq, Eq, Structural)]
pub struct LaserSpawnEvent {
    pub x: i64,
    pub y: i64,
    pub heading_x: i64,
    pub heading_y: i64,
    pub vx: i64,
    pub vy: i64,
}

impl LaserSpawnEvent {
    pub open spec fn wf(self) -> bool {
        &&& coord_ok(self.x)
        &&& coord_ok(self.y)
        &&& coord_ok(self.vx)
        &&& coord_ok(self.vy)
        &&& -1000 <= self.heading_x <= 1000
        &&& -1000 <= self.heading_y <= 1000
    }
}

/// The laser component: the countdown to its disappearance, and the
/// direction it points in (the firing ship's heading, a unit vector in
/// thousandths).
#[derive(Debug, Clone, Copy, PartialEq, Eq, Structural)]
pub struct Laser {
    pub despawn_timer: Timer,
    pub heading_x: i64,
    pub heading_y: i64,
}

/// The laser that a firing request creates: a fresh countdown, pointing
/// along the ship's heading.
pub open spec fn laser_of_event(e: LaserSpawnEvent) -> Laser {
    Laser {
        despawn_timer: Timer { duration_ms: LASER_LIFETIME_MS, elapsed_ms: 0 },
        heading_x: e.heading_x,
        heading_y: e.heading_y,
    }
}

/// Integer division rounding toward zero, as machine division does.
pub open spec fn div_toward_zero(a: int, b: int) -> int {
    if a >= 0 {
        a / b
    } else {
        -((-a) / b)
    }
}

/// The motion of a new laser: the ship's velocity, plus the muzzle velocity
/// along the heading.
pub open spec fn laser_body(e: LaserSpawnEvent) -> Body {
    Body {
        x: e.x,
        y: e.y,
        vx: (e.vx + div_toward_zero(e.heading_x * MUZZLE_SPEED, 1000)) as i64,
        vy: (e.vy + div_toward_zero(e.heading_y * MUZZLE_SPEED, 1000)) as i64,
    }
}

/// Creates the laser that a firing event asks for.
pub fn spawn_laser(event: &LaserSpawnEvent) -> (r: (Laser, Body))
    requires
        event.wf(),
    ensures
        r.0 == laser_of_event(*event),
        r.0.despawn_timer.wf(),
        r.1 == laser_body(*event),
{
    let vx = event.vx + event.heading_x * MUZZLE_SPEED / 1000;
    let vy = event.vy + event.heading_y * MUZZLE_SPEED / 1000;
    (
        Laser {
            despawn_timer: Timer::from_millis(LASER_LIFETIME_MS),
            heading_x: event.heading_x,
            heading_y: event.heading_y,
        },
        Body { x: event.x, y: event.y, vx, vy },
    )
}

/// A laser's collider: a 2.5 by 10 rectangle along its heading.
pub fn laser_collider() -> (r: Collider)
    ensures
        r == (Collider::Rectangle { width: 2500, height: 10000 }),
{
    Collider::Rectangle { width: 2500, height: 10000 }
}

/// Advances a laser's countdown; returns whether the laser is to be removed.
pub fn laser_timeout_system(laser: &mut Laser, delta_ms: u64) -> (r: bool)
    requires
        old(laser).despawn_timer.wf(),
    ensures
        *final(laser) == (Laser {
            despawn_timer: old(laser).despawn_timer.ticked(delta_ms),
            ..*old(laser)
        }),
        final(laser).despawn_timer.wf(),
        r == final(laser).despawn_timer.is_finished(),
{
    laser.despawn_timer.tick(delta_ms);
    laser.despawn_timer.finished()
}

/// The identities of the asteroids among a laser's contacts, in order.
pub open spec fn asteroid_targets(targets: Seq<(u64, GameLayer)>) -> Seq<u64>
    decreases targets.len(),
{
    if targets.len() == 0 {
        Seq::empty()
    } else {
        let rest = asteroid_targets(targets.drop_last());
        if targets.last().1 == GameLayer::Asteroid {
            rest.push(targets.last().0)
        } else {
            rest
        }
    }
}

/// What a laser's contacts cause this tick.
#[derive(Debug, Clone, PartialEq, Eq)]
pub struct LaserHits {
    /// The asteroids that take damage, one entry per contact.
    pub damaged: Vec<u64>,
    /// One hit effect at the laser's position per damaged asteroid.
    pub explosions: Vec<SpawnExplosionEvent>,
    /// Whether the laser is removed: it is as soon as it touched an asteroid.
    pub despawn: bool,
}

/// Resolves a laser's contacts: each touching asteroid takes damage and shows
/// a hit effect at the laser's position, and the laser is removed if it
/// touched any; contacts of other layers are ignored.
pub fn laser_asteroid_collision(x: i64, y: i64, targets: &Vec<(u64, GameLayer)>) -> (r: LaserHits)
    ensures
        r.damaged@ == asteroid_targets(targets@),
        r.explosions@.len() == r.damaged@.len(),
        forall|i: int|
            0 <= i < r.explosions@.len() ==> #[trigger] r.explosions@[i] == (SpawnExplosionEvent {
                kind: ExplosionKind::LaserOnAsteroid,
                x,
                y,
            }),
        r.despawn == (r.damaged@.len() > 0),
{
    let mut damaged: Vec<u64> = Vec::new();
    let mut explosions: Vec<SpawnExplosionEvent> = Vec::new();
    let mut i: usize = 0;
    while i < targets.len()
        invariant
            0 <= i <= targets@.len(),
            damaged@ == asteroid_targets(targets@.subrange(0, i as int)),
            explosions@.len() == damaged@.len(),
            forall|j: int|
                0 <= j < explosions@.len() ==> #[trigger] explosions@[j] == (SpawnExplosionEvent {
                    kind: ExplosionKind::LaserOnAsteroid,
                    x,
                    y,
                }),
        decreases targets@.len() - i,
    {
        proof {
            assert(targets@.subrange(0, i + 1).drop_last() =~= targets@.subrange(0, i as int));
        }
        let (id, layer) = targets[i];
        if layer == GameLayer::Asteroid {
            damaged.push(id);
            explosions.push(SpawnExplosionEvent { kind: ExplosionKind::LaserOnAsteroid, x, y });
        }
        i = i + 1;
    }
    proof {
        assert(targets@.subrange(0, targets@.len() as int) =~= targets@);
    }
    let despawn = damaged.len() > 0;
    LaserHits { damaged, explosions, despawn }
}

} // verus!
