use vstd::prelude::*;
use crate::timer::Timer;
use crate::state::{AppState, GameState, Scope};

verus! {

/// The kinds of explosion effect that the core asks the renderer for.
#[derive(Debug, Clone, Copy, PartialEq, Eq, Structural)]
pub enum ExplosionKind {
    ShipDead,
    ShipContact,
    LaserOnAsteroid,
}

/// A request to show an explosion of the given kind at a position.
#[derive(Debug, Clone, Copy, PartialEq, Eq, Structural)]
pub struct SpawnExplosionEvent {
    pub kind: ExplosionKind,
    pub x: i64,
    pub y: i64,
}

/// A running explosion animation: it grows from `start_scale` to `end_scale`
/// (thousandths) over the timer's duration, then disappears.
#[derive(Debug, Clone, Copy, PartialEq, Eq, Structural)]
pub struct Explosion {
    pub timer: Timer,
    pub start_scale: u64,
    pub end_scale: u64,
}

impl Explosion {
    pub open spec fn wf(self) -> bool {
        &&& self.timer.wf()
        &&& 0 < self.timer.duration_ms
        &&& self.start_scale <= self.end_scale
    }
}

/// The appearance of an explosion effect when it starts, and the phase it
/// lives in: it is removed when that phase is left.
#[derive(Debug, Clone, Copy, PartialEq, Eq, Structural)]
pub struct ExplosionSpawn {
    pub explosion: Explosion,
    pub x: i64,
    pub y: i64,
    pub width: u32,
    pub height: u32,
    pub scope: Scope,
}

/// Sprite size, final scale (thousandths) and duration of each kind.
pub open spec fn explosion_params(kind: ExplosionKind) -> (u32, u32, u64, u64) {
    match kind {
        ExplosionKind::ShipDead => (42, 39, 5000, 2000),
        ExplosionKind::ShipContact => (42, 39, 2000, 1000),
        ExplosionKind::LaserOnAsteroid => (36, 32, 1500, 1000),
    }
}

/// Starts the explosion animation that an event asks for; it belongs to the
/// game session.
pub fn catch_explosion_event(event: &SpawnExplosionEvent) -> (r: ExplosionSpawn)
    ensures
        r.x == event.x,
        r.y == event.y,
        (r.width, r.height, r.explosion.end_scale, r.explosion.timer.duration_ms)
            == explosion_params(event.kind),
        r.explosion.start_scale == 1000,
        r.explosion.timer.elapsed_ms == 0,
        r.explosion.wf(),
        r.scope == Scope::App(AppState::Game),
{
    let (width, height, end_scale, duration): (u32, u32, u64, u64) = match event.kind {
        ExplosionKind::ShipDead => (42, 39, 5000, 2000),
        ExplosionKind::ShipContact => (42, 39, 2000, 1000),
        ExplosionKind::LaserOnAsteroid => (36, 32, 1500, 1000),
    };
    ExplosionSpawn {
        explosion: Explosion { timer: Timer::from_millis(duration), start_scale: 1000, end_scale },
        x: event.x,
        y: event.y,
        width,
        height,
        scope: Scope::App(AppState::Game),
    }
}

/// What one animation step does to an explosion.
#[derive(Debug, Clone, Copy, PartialEq, Eq, Structural)]
pub enum ExplosionStep {
    /// The game is paused: nothing moved.
    Frozen,
    /// The animation is over: the explosion is to be removed.
    Despawn,
    /// The explosion is now drawn at this scale (thousandths).
    Scale(u64),
}

/// Linear interpolation of the scale over the timer's progress.
pub open spec fn scale_at(e: Explosion) -> int {
    e.start_scale + (e.end_scale - e.start_scale) * e.timer.elapsed_ms / e.timer.duration_ms as int
}

/// One animation step: frozen unless the game is running; otherwise the
/// timer advances and the explosion either ends or takes the interpolated
/// scale.
pub fn animate_explosion(explosion: &mut Explosion, delta_ms: u64, game_state: GameState) -> (r:
    ExplosionStep)
    requires
        old(explosion).wf(),
    ensures
        final(explosion).wf(),
        game_state != GameState::Running ==> r == ExplosionStep::Frozen && *final(explosion)
            == *old(explosion),
        game_state == GameState::Running ==> {
            &&& final(explosion).timer == old(explosion).timer.ticked(delta_ms)
            &&& final(explosion).start_scale == old(explosion).start_scale
            &&& final(explosion).end_scale == old(explosion).end_scale
            &&& r == if final(explosion).timer.is_finished() {
                ExplosionStep::Despawn
            } else {
                ExplosionStep::Scale(scale_at(*final(explosion)) as u64)
            }
        },
{
    if game_state != GameState::Running {
        return ExplosionStep::Frozen;
    }
    explosion.timer.tick(delta_ms);
    if explosion.timer.finished() {
        ExplosionStep::Despawn
    } else {
        let span = explosion.end_scale - explosion.start_scale;
        let elapsed = explosion.timer.elapsed_ms;
        let duration = explosion.timer.duration_ms;
        assert((span as u128) * (elapsed as u128) <= (u64::MAX as u128) * (u64::MAX as u128))
            by (nonlinear_arith)
            requires
                span <= u64::MAX,
                elapsed <= u64::MAX,
        ;
        assert((span as int) * (elapsed as int) / (duration as int) <= span as int)
            by (nonlinear_arith)
            requires
                elapsed <= duration,
                duration > 0,
                span >= 0,
        ;
        let grown = (span as u128) * (elapsed as u128) / (duration as u128);
        ExplosionStep::Scale(explosion.start_scale + grown as u64)
    }
}

} // verus!
