use vstd::prelude::*;
use crate::timer::Timer;
use crate::arena::{Body, Collider, GameLayer};
use crate::explosion::{ExplosionKind, SpawnExplosionEvent};
use crate::state::GameState;
use crate::input::Key;

verus! {

/// Lives of a new ship.
pub const START_LIFE: u32 = 3;

/// Length of the invincibility window that a hit opens.
pub const INVINCIBLE_TIME_MS: u64 = 2000;

/// Ceiling of the time by which repeated contact may extend invincibility.
pub const MAX_INVINCIBLE_TIME_MS: u64 = 5000;

/// Cooldown of the cannon between two shots.
pub const CANNON_COOLDOWN_MS: u64 = 200;

/// Turn rate of the ship, in thousandths of a radian per second.
pub const ROTATION_SPEED: i64 = 3000;

/// Thrust of the ship's engine.
pub const THRUST: i64 = 300000;

/// The player's actions while flying.
#[derive(Debug, Clone, Copy, PartialEq, Eq, Structural)]
pub enum PlayerAction {
    Forward,
    RotateLeft,
    RotateRight,
    Fire,
}

/// The player's ship.
#[derive(Debug, Clone, Copy, PartialEq, Eq, Structural)]
pub struct Ship {
    /// Turn rate, in thousandths of a radian per second.
    pub rotation_speed: i64,
    pub thrust: i64,
    pub life: u32,
    pub cannon_timer: Timer,
    pub player_id: u32,
    pub invincible_timer: Timer,
    /// Invincibility gained so far by extensions since the last lost life.
    pub invincible_time_ms: u64,
}

impl Ship {
    /// Timers are consistent, the invincibility window keeps its length, the
    /// accumulated extension stays under its ceiling, and the turn rate can
    /// be negated.
    pub open spec fn wf(self) -> bool {
        &&& self.cannon_timer.wf()
        &&& self.invincible_timer.wf()
        &&& self.invincible_timer.duration_ms == INVINCIBLE_TIME_MS
        &&& self.invincible_time_ms < MAX_INVINCIBLE_TIME_MS
        &&& self.rotation_speed > i64::MIN
    }

    pub open spec fn is_invincible(self) -> bool {
        !self.invincible_timer.is_finished()
    }
}

/// Marker of the ship's exhaust effect, which follows the ship's velocity.
#[derive(Debug, Clone, Copy, PartialEq, Eq, Structural)]
pub struct ExhaustEffect;

/// A new ship: full life, cannon cooling down, not invincible.
pub open spec fn start_ship() -> Ship {
    Ship {
        rotation_speed: ROTATION_SPEED,
        thrust: THRUST,
        life: START_LIFE,
        cannon_timer: Timer { duration_ms: CANNON_COOLDOWN_MS, elapsed_ms: 0 },
        player_id: 1,
        invincible_timer: Timer { duration_ms: INVINCIBLE_TIME_MS, elapsed_ms: INVINCIBLE_TIME_MS },
        invincible_time_ms: 0,
    }
}

/// The player's ship with its motion.
#[derive(Debug, Clone, Copy, PartialEq, Eq, Structural)]
pub struct ShipEntity {
    pub ship: Ship,
    pub body: Body,
}

/// The ship entity of a new session, at the center and at rest.
pub open spec fn start_ship_entity() -> ShipEntity {
    ShipEntity { ship: start_ship(), body: Body { x: 0, y: 0, vx: 0, vy: 0 } }
}

/// Creates the player's ship for a new session: full life, cannon cooling
/// down, not invincible, at the center of the arena and at rest.
pub fn spawn_ship() -> (r: ShipEntity)
    ensures
        r == start_ship_entity(),
        r.ship.wf(),
        !r.ship.is_invincible(),
{
    let ship = Ship {
        rotation_speed: ROTATION_SPEED,
        thrust: THRUST,
        life: START_LIFE,
        cannon_timer: Timer::from_millis(CANNON_COOLDOWN_MS),
        player_id: 1,
        invincible_timer: Timer::finished_from_millis(INVINCIBLE_TIME_MS),
        invincible_time_ms: 0,
    };
    ShipEntity { ship, body: Body { x: 0, y: 0, vx: 0, vy: 0 } }
}

/// The ship's collider: a circle of radius 13.5.
pub fn ship_collider() -> (r: Collider)
    ensures
        r == (Collider::Circle { radius: 13500 }),
{
    Collider::Circle { radius: 13500 }
}

/// The keys bound to each flying action.
pub fn ship_input_map() -> (r: Vec<(PlayerAction, Key)>)
    ensures
        r@ == seq![
            (PlayerAction::Forward, Key::KeyW),
            (PlayerAction::Forward, Key::ArrowUp),
            (PlayerAction::RotateLeft, Key::KeyA),
            (PlayerAction::RotateLeft, Key::ArrowLeft),
            (PlayerAction::RotateRight, Key::KeyD),
            (PlayerAction::RotateRight, Key::ArrowRight),
            (PlayerAction::Fire, Key::Space),
        ],
{
    let r = vec![
        (PlayerAction::Forward, Key::KeyW),
        (PlayerAction::Forward, Key::ArrowUp),
        (PlayerAction::RotateLeft, Key::KeyA),
        (PlayerAction::RotateLeft, Key::ArrowLeft),
        (PlayerAction::RotateRight, Key::KeyD),
        (PlayerAction::RotateRight, Key::ArrowRight),
        (PlayerAction::Fire, Key::Space),
    ];
    assert(r@ =~= seq![
        (PlayerAction::Forward, Key::KeyW),
        (PlayerAction::Forward, Key::ArrowUp),
        (PlayerAction::RotateLeft, Key::KeyA),
        (PlayerAction::RotateLeft, Key::ArrowLeft),
        (PlayerAction::RotateRight, Key::KeyD),
        (PlayerAction::RotateRight, Key::ArrowRight),
        (PlayerAction::Fire, Key::Space),
    ]);
    r
}

/// The ship after its timers ran for `delta_ms`.
pub open spec fn ship_ticked(s: Ship, delta_ms: u64) -> Ship {
    Ship {
        cannon_timer: s.cannon_timer.ticked(delta_ms),
        invincible_timer: s.invincible_timer.ticked(delta_ms),
        ..s
    }
}

/// Advances the cannon and invincibility timers.
pub fn ship_timers_system(ship: &mut Ship, delta_ms: u64)
    requires
        old(ship).wf(),
    ensures
        final(ship).wf(),
        *final(ship) == ship_ticked(*old(ship), delta_ms),
{
    ship.cannon_timer.tick(delta_ms);
    ship.invincible_timer.tick(delta_ms);
}

/// What the ship does this tick in answer to the pressed actions.
#[derive(Debug, Clone, Copy, PartialEq, Eq, Structural)]
pub struct ShipControl {
    /// New angular velocity (thousandths of a radian per second), if a turn is held.
    pub angvel: Option<i64>,
    /// Engine force along the ship's heading.
    pub force: i64,
    /// Whether a laser is fired.
    pub fire: bool,
}

/// Turns the pressed actions into steering, thrust and firing. Left wins
/// over right; a shot is fired only when the cannon has cooled down, and
/// then the cooldown starts again.
pub fn ship_input_system(
    ship: &mut Ship,
    forward: bool,
    rotate_left: bool,
    rotate_right: bool,
    fire: bool,
) -> (r: ShipControl)
    requires
        old(ship).wf(),
    ensures
        final(ship).wf(),
        r.angvel == if rotate_left {
            Some(old(ship).rotation_speed)
        } else if rotate_right {
            Some((-old(ship).rotation_speed) as i64)
        } else {
            None::<i64>
        },
        r.force == if forward {
            old(ship).thrust
        } else {
            0
        },
        r.fire == (fire && old(ship).cannon_timer.is_finished()),
        r.fire ==> *final(ship) == (Ship {
            cannon_timer: Timer { elapsed_ms: 0, ..old(ship).cannon_timer },
            ..*old(ship)
        }),
        !r.fire ==> *final(ship) == *old(ship),
{
    let angvel = if rotate_left {
        Some(ship.rotation_speed)
    } else if rotate_right {
        Some(-ship.rotation_speed)
    } else {
        None
    };
    let force = if forward {
        ship.thrust
    } else {
        0
    };
    let shoot = fire && ship.cannon_timer.finished();
    if shoot {
        ship.cannon_timer.reset();
    }
    ShipControl { angvel, force, fire: shoot }
}

/// Number of damage events that the ship takes from its current contacts:
/// one per touching asteroid.
pub open spec fn count_asteroids(layers: Seq<GameLayer>) -> nat
    decreases layers.len(),
{
    if layers.len() == 0 {
        0
    } else {
        count_asteroids(layers.drop_last()) + if layers.last() == GameLayer::Asteroid {
            1nat
        } else {
            0nat
        }
    }
}

/// Counts the asteroids among the entities touching the ship.
pub fn ship_asteroid_collision(targets: &Vec<GameLayer>) -> (r: usize)
    ensures
        r == count_asteroids(targets@),
{
    let mut n: usize = 0;
    let mut i: usize = 0;
    while i < targets.len()
        invariant
            0 <= i <= targets@.len(),
            n == count_asteroids(targets@.subrange(0, i as int)),
            n <= i,
        decreases targets@.len() - i,
    {
        proof {
            assert(targets@.subrange(0, i + 1).drop_last() =~= targets@.subrange(0, i as int));
        }
        if targets[i] == GameLayer::Asteroid {
            n = n + 1;
        }
        i = i + 1;
    }
    proof {
        assert(targets@.subrange(0, targets@.len() as int) =~= targets@);
    }
    n
}

/// What a hit did to the ship.
#[derive(Debug, Clone, Copy, PartialEq, Eq, Structural)]
pub enum ShipHit {
    /// The last life was lost: the ship is destroyed and the game is over.
    Destroyed,
    /// A life was lost; the ship lives on, invincible for a while.
    Contact,
    /// The ship was invincible: the window was extended.
    Extended,
    /// The ship was invincible and the extension ceiling was reached: nothing changed.
    Absorbed,
}

impl ShipHit {
    /// The explosion effect that the hit shows, if any.
    pub fn effect(&self) -> (r: Option<ExplosionKind>)
        ensures
            r == match *self {
                ShipHit::Destroyed => Some(ExplosionKind::ShipDead),
                ShipHit::Contact => Some(ExplosionKind::ShipContact),
                _ => None::<ExplosionKind>,
            },
    {
        match self {
            ShipHit::Destroyed => Some(ExplosionKind::ShipDead),
            ShipHit::Contact => Some(ExplosionKind::ShipContact),
            _ => None,
        }
    }
}

/// The ship after a hit, and what the hit did.
pub open spec fn ship_after_hit(s: Ship) -> (Ship, ShipHit) {
    if s.invincible_timer.is_finished() {
        (
            Ship {
                life: (s.life - 1) as u32,
                invincible_time_ms: 0,
                invincible_timer: Timer { elapsed_ms: 0, ..s.invincible_timer },
                ..s
            },
            if s.life == 1 {
                ShipHit::Destroyed
            } else {
                ShipHit::Contact
            },
        )
    } else if s.invincible_time_ms + s.invincible_timer.elapsed_ms < MAX_INVINCIBLE_TIME_MS {
        (
            Ship {
                invincible_time_ms: (s.invincible_time_ms + s.invincible_timer.elapsed_ms) as u64,
                invincible_timer: Timer { elapsed_ms: 0, ..s.invincible_timer },
                ..s
            },
            ShipHit::Extended,
        )
    } else {
        (s, ShipHit::Absorbed)
    }
}

/// Applies a hit to the ship's own state.
fn hit_ship(ship: &mut Ship) -> (r: ShipHit)
    requires
        old(ship).wf(),
        old(ship).life > 0,
    ensures
        final(ship).wf(),
        (*final(ship), r) == ship_after_hit(*old(ship)),
{
    if ship.invincible_timer.finished() {
        ship.invincible_time_ms = 0;
        ship.life = ship.life - 1;
        ship.invincible_timer.reset();
        if ship.life == 0 {
            ShipHit::Destroyed
        } else {
            ShipHit::Contact
        }
    } else if ship.invincible_time_ms + ship.invincible_timer.elapsed_ms < MAX_INVINCIBLE_TIME_MS {
        ship.invincible_time_ms = ship.invincible_time_ms + ship.invincible_timer.elapsed_ms;
        ship.invincible_timer.reset();
        ShipHit::Extended
    } else {
        ShipHit::Absorbed
    }
}

/// What a hit on the ship asks of the rest of the game.
#[derive(Debug, Clone, Copy, PartialEq, Eq, Structural)]
pub struct ShipDamage {
    pub hit: ShipHit,
    /// The effect shown at the ship's position, if any.
    pub effect: Option<SpawnExplosionEvent>,
    /// The game phase requested for the next tick, if any.
    pub next_game: Option<GameState>,
    /// Whether the ship is destroyed and to be removed.
    pub despawn: bool,
}

/// The effect that a hit of the given kind shows at the ship's position.
pub open spec fn hit_effect(hit: ShipHit, body: Body) -> Option<SpawnExplosionEvent> {
    match hit {
        ShipHit::Destroyed => Some(
            SpawnExplosionEvent { kind: ExplosionKind::ShipDead, x: body.x, y: body.y },
        ),
        ShipHit::Contact => Some(
            SpawnExplosionEvent { kind: ExplosionKind::ShipContact, x: body.x, y: body.y },
        ),
        _ => None,
    }
}

/// Resolves a hit on the ship. Outside invincibility it loses a life, the
/// extension account is cleared and the invincibility window starts; it
/// shows a contact effect at its position, or, on its last life, a
/// destruction effect, is removed and asks for the game to end. While
/// invincible, the window restarts as long as the extensions stay under
/// their ceiling; past it the hit is absorbed. Either way while invincible,
/// no life is lost and nothing is shown or requested.
pub fn on_ship_damage(ship: &mut ShipEntity) -> (r: ShipDamage)
    requires
        old(ship).ship.wf(),
        old(ship).ship.life > 0,
    ensures
        final(ship).ship.wf(),
        final(ship).body == old(ship).body,
        (final(ship).ship, r.hit) == ship_after_hit(old(ship).ship),
        r.effect == hit_effect(r.hit, old(ship).body),
        r.next_game == if r.hit == ShipHit::Destroyed {
            Some(GameState::Over)
        } else {
            None::<GameState>
        },
        r.despawn == (r.hit == ShipHit::Destroyed),
{
    let hit = hit_ship(&mut ship.ship);
    let (effect, next_game, despawn) = match hit {
        ShipHit::Destroyed => (
            Some(
                SpawnExplosionEvent {
                    kind: ExplosionKind::ShipDead,
                    x: ship.body.x,
                    y: ship.body.y,
                },
            ),
            Some(GameState::Over),
            true,
        ),
        ShipHit::Contact => (
            Some(
                SpawnExplosionEvent {
                    kind: ExplosionKind::ShipContact,
                    x: ship.body.x,
                    y: ship.body.y,
                },
            ),
            None,
            false,
        ),
        _ => (None, None, false),
    };
    ShipDamage { hit, effect, next_game, despawn }
}

/// How the ship is drawn: solid, or, while invincible, tinted with a
/// flickering opacity (thousandths) that cycles twice per second.
pub fn ship_invincible_color(ship: &Ship) -> (r: Option<u64>)
    requires
        ship.wf(),
    ensures
        ship.invincible_timer.is_finished() ==> r is None,
        !ship.invincible_timer.is_finished() ==> r == Some(
            ((ship.invincible_timer.elapsed_ms * 2) % 1000) as u64,
        ),
{
    if ship.invincible_timer.finished() {
        None
    } else {
        Some((ship.invincible_timer.elapsed_ms * 2) % 1000)
    }
}

/// A second hit half a second after a damaging one falls inside the
/// invincibility window: it costs no life, and restarts the window with the
/// half second booked as extension.
pub proof fn lemma_second_hit_extends(s: Ship)
    requires
        s.wf(),
        !s.is_invincible(),
        s.life > 1,
    ensures
        ({
            let (s1, h1) = ship_after_hit(s);
            let (s3, h2) = ship_after_hit(ship_ticked(s1, 500));
            &&& h1 == ShipHit::Contact
            &&& s1.life == s.life - 1
            &&& h2 == ShipHit::Extended
            &&& s3.life == s1.life
            &&& s3.invincible_time_ms == 500
            &&& s3.invincible_timer.elapsed_ms == 0
            &&& s3.is_invincible()
        }),
{
}

/// Whatever hits a well-formed ship takes, the invincibility gained by
/// extensions stays under the ceiling of five seconds, and a life is lost
/// only outside invincibility, one at a time.
pub proof fn lemma_hit_bounds(s: Ship)
    requires
        s.wf(),
        s.life > 0,
    ensures
        ({
            let (s1, h) = ship_after_hit(s);
            &&& s1.wf()
            &&& s1.invincible_time_ms < MAX_INVINCIBLE_TIME_MS
            &&& s.is_invincible() ==> s1.life == s.life
            &&& !s.is_invincible() ==> s1.life == s.life - 1
            &&& (h == ShipHit::Destroyed <==> !s.is_invincible() && s.life == 1)
        }),
{
}

/// A hit while invincible, with the extensions so far plus the time since
/// the window last started still under the ceiling, costs no life: it books
/// that time as extension and restarts the window.
pub proof fn lemma_hit_while_invincible(s: Ship)
    requires
        s.wf(),
        s.life > 0,
        s.is_invincible(),
        s.invincible_time_ms + s.invincible_timer.elapsed_ms < MAX_INVINCIBLE_TIME_MS,
    ensures
        ({
            let (s1, h) = ship_after_hit(s);
            &&& h == ShipHit::Extended
            &&& s1.life == s.life
            &&& s1.invincible_time_ms == s.invincible_time_ms + s.invincible_timer.elapsed_ms
            &&& s1.invincible_timer.elapsed_ms == 0
            &&& s1.is_invincible()
        }),
{
}

} // verus!
