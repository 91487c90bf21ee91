use vstd::prelude::*;
use rand::rngs::StdRng;
use crate::arena::{spawn_arena, start_arena, Arena, Body};
use crate::asteroid::{
    AsteroidSize,
    asteroid_hit_at, asteroid_of, on_asteroid_damage, score_of, spawn_asteroid_event, valid_children,
    AsteroidEntity, AsteroidSpawnEvent,
};
use crate::explosion::{ExplosionKind, SpawnExplosionEvent};
use crate::laser::{laser_body, laser_of_event, spawn_laser, Laser, LaserSpawnEvent};
use crate::player_ship::{
    on_ship_damage, ship_after_hit, spawn_ship, start_ship_entity, ShipEntity, ShipHit,
};
use crate::state::{
    apply_transitions, applied, state_transitions, with_autonomous, AppState, GameState, Phases,
    Scope,
};

verus! {

/// A live laser: identity, countdown and motion.
#[derive(Debug, Clone, Copy, PartialEq, Eq, Structural)]
pub struct LaserEntity {
    pub id: u64,
    pub laser: Laser,
    pub body: Body,
}

/// Everything the simulation holds: the phases, the session's arena and
/// ship, the live asteroids and lasers, the spawn requests waiting for the
/// next tick, and the effects raised for the renderer.
#[derive(Debug, Clone)]
pub struct World {
    pub phases: Phases,
    pub arena: Option<Arena>,
    pub ship: Option<ShipEntity>,
    pub asteroids: Vec<AsteroidEntity>,
    pub lasers: Vec<LaserEntity>,
    pub pending_asteroids: Vec<AsteroidSpawnEvent>,
    pub pending_lasers: Vec<LaserSpawnEvent>,
    pub effects: Vec<SpawnExplosionEvent>,
    /// Identity of the next entity to be created.
    pub next_id: u64,
}

/// The laser that a firing request becomes, with the given identity.
pub open spec fn laser_of(e: LaserSpawnEvent, id: u64) -> LaserEntity {
    LaserEntity {
        id,
        laser: laser_of_event(e),
        body: laser_body(e),
    }
}

impl World {
    /// The phases are consistent, the arena, the ship and the lasers' timers
    /// are well formed, a live ship has lives left, every identity handed out
    /// lies below `next_id`, no two asteroids share one, and every asteroid
    /// lies inside the simulated coordinate range.
    pub open spec fn wf(self) -> bool {
        &&& self.phases.wf()
        &&& self.arena is Some ==> self.arena->0.wf()
        &&& self.ship is Some ==> self.ship->0.ship.wf() && self.ship->0.ship.life > 0
        &&& forall|i: int|
            0 <= i < self.asteroids@.len() ==> #[trigger] self.asteroids@[i].id < self.next_id
        &&& forall|i: int| 0 <= i < self.asteroids@.len() ==> (#[trigger] self.asteroids@[i]).wf()
        &&& forall|i: int, j: int|
            0 <= i < j < self.asteroids@.len() ==> #[trigger] self.asteroids@[i].id
                != #[trigger] self.asteroids@[j].id
        &&& forall|i: int|
            0 <= i < self.lasers@.len() ==> #[trigger] self.lasers@[i].id < self.next_id
        &&& forall|i: int|
            0 <= i < self.lasers@.len() ==> (#[trigger] self.lasers@[i]).laser.despawn_timer.wf()
    }

    /// Whether an asteroid of the given identity is alive.
    pub open spec fn has_asteroid(self, id: u64) -> bool {
        exists|i: int| 0 <= i < self.asteroids@.len() && #[trigger] self.asteroids@[i].id == id
    }

    /// The world at start-up: application setup, nothing alive.
    pub fn new() -> (r: World)
        ensures
            r.wf(),
            r.phases == (Phases { app: AppState::Setup, game: None, next_app: None, next_game: None }),
            r.arena is None,
            r.ship is None,
            r.asteroids@.len() == 0,
            r.lasers@.len() == 0,
            r.pending_asteroids@.len() == 0,
            r.pending_lasers@.len() == 0,
            r.effects@.len() == 0,
            r.next_id == 0,
    {
        World {
            phases: Phases::new(),
            arena: None,
            ship: None,
            asteroids: Vec::new(),
            lasers: Vec::new(),
            pending_asteroids: Vec::new(),
            pending_lasers: Vec::new(),
            effects: Vec::new(),
            next_id: 0,
        }
    }
}

/// The hit on asteroid `id` took the asteroid at index `i`.
pub open spec fn asteroid_damaged_at(w: World, w2: World, id: u64, i: int) -> bool {
    &&& 0 <= i < w.asteroids@.len()
    &&& w.asteroids@[i].id == id
    &&& w.arena is Some
    &&& w2.arena is Some
    &&& w2.arena->0.score == w.arena->0.score + score_of(w.asteroids@[i].asteroid.size)
    &&& w2.arena->0.asteroid_spawn_timer == w.arena->0.asteroid_spawn_timer
    &&& w2.asteroids@ == w.asteroids@.remove(i)
    &&& w2.pending_asteroids@.len() >= w.pending_asteroids@.len()
    &&& w2.pending_asteroids@.subrange(0, w.pending_asteroids@.len() as int) == w.pending_asteroids@
    &&& valid_children(
        w.asteroids@[i],
        w2.pending_asteroids@.subrange(
            w.pending_asteroids@.len() as int,
            w2.pending_asteroids@.len() as int,
        ),
    )
    &&& w2.phases == w.phases
    &&& w2.ship == w.ship
    &&& w2.lasers@ == w.lasers@
    &&& w2.pending_lasers@ == w.pending_lasers@
    &&& w2.effects@ == w.effects@
    &&& w2.next_id == w.next_id
}

/// How a hit on the asteroid `id` changes the world. When the asteroid is
/// alive (and a session is on), the arena gains its score, it is removed, and
/// its children join the spawn requests; otherwise, as for a repeated hit on
/// an asteroid already destroyed, nothing changes.
pub open spec fn asteroid_damaged(w: World, w2: World, id: u64, found: bool) -> bool {
    if found {
        exists|i: int| #[trigger] asteroid_damaged_at(w, w2, id, i)
    } else {
        &&& w2.phases == w.phases
        &&& w2.arena == w.arena
        &&& w2.ship == w.ship
        &&& w2.asteroids@ == w.asteroids@
        &&& w2.lasers@ == w.lasers@
        &&& w2.pending_asteroids@ == w.pending_asteroids@
        &&& w2.pending_lasers@ == w.pending_lasers@
        &&& w2.effects@ == w.effects@
        &&& w2.next_id == w.next_id
    }
}

/// How a hit on the ship changes the world. Without a ship nothing changes.
/// Otherwise the ship takes the hit; its loss of a life shows a contact
/// effect at its position, the loss of its last life a destruction effect,
/// removes it, and asks for the game to end.
pub open spec fn ship_damaged(w: World, w2: World, r: Option<ShipHit>) -> bool {
    &&& w2.arena == w.arena
    &&& w2.asteroids@ == w.asteroids@
    &&& w2.lasers@ == w.lasers@
    &&& w2.pending_asteroids@ == w.pending_asteroids@
    &&& w2.pending_lasers@ == w.pending_lasers@
    &&& w2.next_id == w.next_id
    &&& match w.ship {
        None => {
            &&& r is None
            &&& w2.ship is None
            &&& w2.phases == w.phases
            &&& w2.effects@ == w.effects@
        },
        Some(se) => {
            let (s2, hit) = ship_after_hit(se.ship);
            &&& r == Some(hit)
            &&& hit == ShipHit::Destroyed ==> {
                &&& w2.ship is None
                &&& w2.phases == Phases { next_game: Some(GameState::Over), ..w.phases }
                &&& w2.effects@ == w.effects@.push(
                    SpawnExplosionEvent { kind: ExplosionKind::ShipDead, x: se.body.x, y: se.body.y },
                )
            }
            &&& hit == ShipHit::Contact ==> {
                &&& w2.ship == Some(ShipEntity { ship: s2, ..se })
                &&& w2.phases == w.phases
                &&& w2.effects@ == w.effects@.push(
                    SpawnExplosionEvent {
                        kind: ExplosionKind::ShipContact,
                        x: se.body.x,
                        y: se.body.y,
                    },
                )
            }
            &&& (hit == ShipHit::Extended || hit == ShipHit::Absorbed) ==> {
                &&& w2.ship == Some(ShipEntity { ship: s2, ..se })
                &&& w2.phases == w.phases
                &&& w2.effects@ == w.effects@
            }
        },
    }
}

/// How the spawn requests become live entities: asteroids first, then
/// lasers, each with the next identity in turn; the requests are consumed.
pub open spec fn spawns_realized(w: World, w2: World) -> bool {
    let na = w.pending_asteroids@.len();
    let nl = w.pending_lasers@.len();
    &&& w2.asteroids@ == w.asteroids@ + Seq::new(
        na,
        |k: int| asteroid_of(w.pending_asteroids@[k], (w.next_id + k) as u64),
    )
    &&& w2.lasers@ == w.lasers@ + Seq::new(
        nl,
        |k: int| laser_of(w.pending_lasers@[k], (w.next_id + na + k) as u64),
    )
    &&& w2.pending_asteroids@.len() == 0
    &&& w2.pending_lasers@.len() == 0
    &&& w2.next_id == w.next_id + na + nl
    &&& w2.phases == w.phases
    &&& w2.arena == w.arena
    &&& w2.ship == w.ship
    &&& w2.effects@ == w.effects@
}

/// Appends the spawn requests of `src` to `dst`, in order.
fn append_events(dst: &mut Vec<AsteroidSpawnEvent>, src: &Vec<AsteroidSpawnEvent>)
    ensures
        final(dst)@ == old(dst)@ + src@,
{
    let mut k: usize = 0;
    while k < src.len()
        invariant
            0 <= k <= src@.len(),
            dst@ == old(dst)@ + src@.subrange(0, k as int),
        decreases src@.len() - k,
    {
        proof {
            assert(src@.subrange(0, k + 1) =~= src@.subrange(0, k as int).push(src@[k as int]));
        }
        dst.push(src[k]);
        k = k + 1;
    }
    proof {
        assert(src@.subrange(0, src@.len() as int) =~= src@);
    }
}

impl World {
    /// Resolves a hit on the asteroid `id`, an identity handed out earlier (a
    /// hit on one never registered breaks the event order, and is ruled
    /// out); returns whether it is still alive.
    /// The asteroid is destroyed by the first hit, so a later hit in the same
    /// tick finds nothing and is ignored: an asteroid scores once, however
    /// many contacts reported it.
    pub fn damage_asteroid(&mut self, id: u64, rng: &mut StdRng) -> (found: bool)
        requires
            old(self).wf(),
            id < old(self).next_id,
            old(self).arena is Some ==> old(self).arena->0.score <= u32::MAX - 40,
        ensures
            final(self).wf(),
            found == (old(self).arena is Some && old(self).has_asteroid(id)),
            asteroid_damaged(*old(self), *final(self), id, found),
            final(self).phases == old(self).phases,
            final(self).ship == old(self).ship,
    {
        let mut arena = match self.arena {
            Some(a) => a,
            None => {
                return false;
            },
        };
        let children = match on_asteroid_damage(&mut arena, &mut self.asteroids, id, rng) {
            Some(c) => c,
            None => {
                return false;
            },
        };
        self.arena = Some(arena);
        let ghost before = self.pending_asteroids@;
        append_events(&mut self.pending_asteroids, &children);
        proof {
            let i = choose|i: int|
                #[trigger] asteroid_hit_at(
                    old(self).arena->0,
                    arena,
                    old(self).asteroids@,
                    self.asteroids@,
                    id,
                    i,
                    children@,
                );
            assert(self.pending_asteroids@.subrange(0, before.len() as int) =~= before);
            assert(self.pending_asteroids@.subrange(
                before.len() as int,
                self.pending_asteroids@.len() as int,
            ) =~= children@);
            assert forall|j: int| 0 <= j < self.asteroids@.len() implies #[trigger] self.asteroids@[j].id
                < self.next_id && self.asteroids@[j].wf() && self.asteroids@[j] == old(
                self,
            ).asteroids@[if j < i {
                j
            } else {
                j + 1
            }] by {
                if j < i {
                    assert(self.asteroids@[j] == old(self).asteroids@[j]);
                } else {
                    assert(self.asteroids@[j] == old(self).asteroids@[j + 1]);
                }
            }
            assert forall|a: int, b: int|
                0 <= a < b < self.asteroids@.len() implies #[trigger] self.asteroids@[a].id
                    != #[trigger] self.asteroids@[b].id by {
                let oa = if a < i {
                    a
                } else {
                    a + 1
                };
                let ob = if b < i {
                    b
                } else {
                    b + 1
                };
                assert(self.asteroids@[a] == old(self).asteroids@[oa]);
                assert(self.asteroids@[b] == old(self).asteroids@[ob]);
            }
            assert(asteroid_damaged_at(*old(self), *self, id, i));
        }
        true
    }

    /// Resolves a hit on the ship; returns what it did, or `None` without a ship.
    pub fn damage_ship(&mut self) -> (r: Option<ShipHit>)
        requires
            old(self).wf(),
        ensures
            final(self).wf(),
            ship_damaged(*old(self), *final(self), r),
    {
        let mut se = match self.ship {
            Some(se) => se,
            None => {
                return None;
            },
        };
        let d = on_ship_damage(&mut se);
        if let Some(e) = d.effect {
            self.effects.push(e);
        }
        if d.despawn {
            self.ship = None;
        } else {
            self.ship = Some(se);
        }
        if let Some(g) = d.next_game {
            self.phases.set_game(g);
        }
        Some(d.hit)
    }
}

/// The world with every entity of a game session gone: what leaving the
/// game phase of the application does.
pub open spec fn cleared(w: World, w2: World) -> bool {
    &&& w2.phases == w.phases
    &&& w2.arena is None
    &&& w2.ship is None
    &&& w2.asteroids@.len() == 0
    &&& w2.lasers@.len() == 0
    &&& w2.pending_asteroids@.len() == 0
    &&& w2.pending_lasers@.len() == 0
    &&& w2.effects@.len() == 0
    &&& w2.next_id == w.next_id
}

/// The world left as it was.
pub open spec fn unchanged(w: World, w2: World) -> bool {
    &&& w2.phases == w.phases
    &&& w2.arena == w.arena
    &&& w2.ship == w.ship
    &&& w2.asteroids@ == w.asteroids@
    &&& w2.lasers@ == w.lasers@
    &&& w2.pending_asteroids@ == w.pending_asteroids@
    &&& w2.pending_lasers@ == w.pending_lasers@
    &&& w2.effects@ == w.effects@
    &&& w2.next_id == w.next_id
}

/// How the world changes between two ticks: the requested transitions are
/// applied, leaving the game destroys everything tied to it, entering game
/// setup creates a fresh arena and ship, and the autonomous transitions are
/// requested.
pub open spec fn phases_stepped(w: World, w2: World) -> bool {
    let p = applied(w.phases);
    let left_game = w.phases.app == AppState::Game && p.app != AppState::Game;
    let entered_setup = p.game == Some(GameState::Setup) && w.phases.game != Some(
        GameState::Setup,
    );
    &&& w2.phases == with_autonomous(p)
    &&& w2.arena == if entered_setup {
        Some(start_arena())
    } else if left_game {
        None
    } else {
        w.arena
    }
    &&& w2.ship == if entered_setup {
        Some(start_ship_entity())
    } else if left_game {
        None
    } else {
        w.ship
    }
    &&& left_game ==> {
        &&& w2.asteroids@.len() == 0
        &&& w2.lasers@.len() == 0
        &&& w2.pending_asteroids@.len() == 0
        &&& w2.pending_lasers@.len() == 0
        &&& w2.effects@.len() == 0
    }
    &&& !left_game ==> {
        &&& w2.asteroids@ == w.asteroids@
        &&& w2.lasers@ == w.lasers@
        &&& w2.pending_asteroids@ == w.pending_asteroids@
        &&& w2.pending_lasers@ == w.pending_lasers@
        &&& w2.effects@ == w.effects@
    }
    &&& w2.next_id == w.next_id
}

/// Appends the asteroids that `src` asks for, numbered from `first_id`.
fn realize_asteroids(dst: &mut Vec<AsteroidEntity>, src: &Vec<AsteroidSpawnEvent>, first_id: u64)
    requires
        first_id + src@.len() <= u64::MAX,
    ensures
        final(dst)@ == old(dst)@ + Seq::new(
            src@.len(),
            |k: int| asteroid_of(src@[k], (first_id + k) as u64),
        ),
{
    let mut k: usize = 0;
    while k < src.len()
        invariant
            0 <= k <= src@.len(),
            first_id + src@.len() <= u64::MAX,
            dst@ == old(dst)@ + Seq::new(k as nat, |j: int| asteroid_of(src@[j], (first_id + j) as u64)),
        decreases src@.len() - k,
    {
        let a = spawn_asteroid_event(&src[k], first_id + k as u64);
        dst.push(a);
        proof {
            assert(Seq::new((k + 1) as nat, |j: int| asteroid_of(src@[j], (first_id + j) as u64))
                =~= Seq::new(k as nat, |j: int| asteroid_of(src@[j], (first_id + j) as u64)).push(a));
        }
        k = k + 1;
    }
}

/// Appends the lasers that `src` asks for, numbered from `first_id`.
fn realize_lasers(dst: &mut Vec<LaserEntity>, src: &Vec<LaserSpawnEvent>, first_id: u64)
    requires
        first_id + src@.len() <= u64::MAX,
        forall|k: int| 0 <= k < src@.len() ==> #[trigger] src@[k].wf(),
    ensures
        final(dst)@ == old(dst)@ + Seq::new(
            src@.len(),
            |k: int| laser_of(src@[k], (first_id + k) as u64),
        ),
{
    let mut k: usize = 0;
    while k < src.len()
        invariant
            0 <= k <= src@.len(),
            first_id + src@.len() <= u64::MAX,
            forall|k: int| 0 <= k < src@.len() ==> #[trigger] src@[k].wf(),
            dst@ == old(dst)@ + Seq::new(k as nat, |j: int| laser_of(src@[j], (first_id + j) as u64)),
        decreases src@.len() - k,
    {
        let (laser, body) = spawn_laser(&src[k]);
        let e = LaserEntity { id: first_id + k as u64, laser, body };
        dst.push(e);
        proof {
            assert(Seq::new((k + 1) as nat, |j: int| laser_of(src@[j], (first_id + j) as u64))
                =~= Seq::new(k as nat, |j: int| laser_of(src@[j], (first_id + j) as u64)).push(e));
        }
        k = k + 1;
    }
}

impl World {
    /// Realizes the spawn requests of the last tick: they become live
    /// entities that queries see from now on.
    pub fn realize_spawns(&mut self)
        requires
            old(self).wf(),
            old(self).next_id + old(self).pending_asteroids@.len() + old(self).pending_lasers@.len()
                <= u64::MAX,
            forall|k: int|
                0 <= k < old(self).pending_lasers@.len() ==> #[trigger] old(
                    self,
                ).pending_lasers@[k].wf(),
            forall|k: int|
                0 <= k < old(self).pending_asteroids@.len() ==> #[trigger] old(
                    self,
                ).pending_asteroids@[k].wf(),
        ensures
            final(self).wf(),
            spawns_realized(*old(self), *final(self)),
    {
        let na = self.pending_asteroids.len() as u64;
        let nl = self.pending_lasers.len() as u64;
        realize_asteroids(&mut self.asteroids, &self.pending_asteroids, self.next_id);
        realize_lasers(&mut self.lasers, &self.pending_lasers, self.next_id + na);
        self.pending_asteroids.clear();
        self.pending_lasers.clear();
        self.next_id = self.next_id + na + nl;
        proof {
            assert forall|i: int| 0 <= i < self.asteroids@.len() implies #[trigger] self.asteroids@[i].id
                < self.next_id by {
                if i >= old(self).asteroids@.len() {
                    let k = i - old(self).asteroids@.len();
                    assert(self.asteroids@[i] == asteroid_of(old(self).pending_asteroids@[k], (old(self).next_id + k) as u64));
                } else {
                    assert(self.asteroids@[i] == old(self).asteroids@[i]);
                }
            }
            let n0 = old(self).asteroids@.len();
            assert forall|i: int| 0 <= i < self.asteroids@.len() implies (
            #[trigger] self.asteroids@[i]).wf() && (i >= n0 ==> self.asteroids@[i].id == old(
                self,
            ).next_id + (i - n0)) by {
                if i >= n0 {
                    let k = i - n0;
                    assert(old(self).pending_asteroids@[k].wf());
                    assert(self.asteroids@[i] == asteroid_of(old(self).pending_asteroids@[k], (old(self).next_id + k) as u64));
                } else {
                    assert(self.asteroids@[i] == old(self).asteroids@[i]);
                }
            }
            assert forall|i: int, j: int|
                0 <= i < j < self.asteroids@.len() implies #[trigger] self.asteroids@[i].id
                    != #[trigger] self.asteroids@[j].id by {
                if j < n0 {
                    assert(self.asteroids@[i] == old(self).asteroids@[i]);
                    assert(self.asteroids@[j] == old(self).asteroids@[j]);
                } else if i < n0 {
                    assert(self.asteroids@[i] == old(self).asteroids@[i]);
                    assert(old(self).asteroids@[i].id < old(self).next_id);
                }
            }
            assert forall|i: int| 0 <= i < self.lasers@.len() implies #[trigger] self.lasers@[i].id
                < self.next_id by {
                if i >= old(self).lasers@.len() {
                    let k = i - old(self).lasers@.len();
                    assert(self.lasers@[i] == laser_of(old(self).pending_lasers@[k], (old(self).next_id + na + k) as u64));
                } else {
                    assert(self.lasers@[i] == old(self).lasers@[i]);
                }
            }
            assert forall|i: int| 0 <= i < self.lasers@.len() implies (
            #[trigger] self.lasers@[i]).laser.despawn_timer.wf() by {
                if i >= old(self).lasers@.len() {
                    let k = i - old(self).lasers@.len();
                    assert(self.lasers@[i] == laser_of(old(self).pending_lasers@[k], (old(self).next_id + na + k) as u64));
                } else {
                    assert(self.lasers@[i] == old(self).lasers@[i]);
                }
            }
        }
    }

    /// Destroys every entity tied to a scope that was left: all gameplay
    /// entities, the arena and the ship belong to the game phase of the
    /// application.
    pub fn sweep(&mut self, exited: &Vec<Scope>)
        requires
            old(self).wf(),
        ensures
            final(self).wf(),
            exited@.contains(Scope::App(AppState::Game)) ==> cleared(*old(self), *final(self)),
            !exited@.contains(Scope::App(AppState::Game)) ==> unchanged(*old(self), *final(self)),
    {
        let mut i: usize = 0;
        let mut hit = false;
        while i < exited.len()
            invariant
                0 <= i <= exited@.len(),
                hit == exists|j: int| 0 <= j < i && exited@[j] == Scope::App(AppState::Game),
            decreases exited@.len() - i,
        {
            if exited[i] == Scope::App(AppState::Game) {
                hit = true;
            }
            i = i + 1;
        }
        if hit {
            self.arena = None;
            self.ship = None;
            self.asteroids.clear();
            self.lasers.clear();
            self.pending_asteroids.clear();
            self.pending_lasers.clear();
            self.effects.clear();
        }
    }

    /// The step between two ticks: applies the requested transitions, sweeps
    /// what the left phases owned, sets up a new session on entering game
    /// setup, and requests the autonomous transitions.
    pub fn step_phases(&mut self)
        requires
            old(self).wf(),
        ensures
            final(self).wf(),
            phases_stepped(*old(self), *final(self)),
    {
        let old_game = self.phases.game;
        let exited = apply_transitions(&mut self.phases);
        self.sweep(&exited);
        let entered = match (self.phases.game, old_game) {
            (Some(GameState::Setup), Some(GameState::Setup)) => false,
            (Some(GameState::Setup), _) => true,
            _ => false,
        };
        if entered {
            self.arena = Some(spawn_arena());
            self.ship = Some(spawn_ship());
        }
        state_transitions(&mut self.phases);
    }
}

/// Destroying an asteroid scores exactly its size's points: 40 for a big
/// one, 20 for a medium one, 10 for a small one, however it splits.
pub proof fn lemma_damage_scores(w: World, w2: World, id: u64, found: bool)
    requires
        asteroid_damaged(w, w2, id, found),
        found,
    ensures
        exists|i: int|
            #[trigger] asteroid_damaged_at(w, w2, id, i) && {
                let size = w.asteroids@[i].asteroid.size;
                &&& w2.arena->0.score == w.arena->0.score + score_of(size)
                &&& size == AsteroidSize::Big ==> w2.arena->0.score == w.arena->0.score + 40
                &&& size == AsteroidSize::Medium ==> w2.arena->0.score == w.arena->0.score + 20
                &&& size == AsteroidSize::Small ==> w2.arena->0.score == w.arena->0.score + 10
            },
{
}

/// A damaging hit on a ship outside invincibility costs exactly one life;
/// the ship survives exactly when it had more than one.
pub proof fn lemma_ship_hit_costs_one_life(w: World, w2: World, r: Option<ShipHit>)
    requires
        w.wf(),
        w.ship is Some,
        !w.ship->0.ship.is_invincible(),
        ship_damaged(w, w2, r),
    ensures
        w2.ship is Some <==> w.ship->0.ship.life > 1,
        w2.ship is Some ==> w2.ship->0.ship.life == w.ship->0.ship.life - 1,
{
}

/// Losing the last life asks for the game to end and shows the ship's
/// destruction, once: the ship is gone, so a further hit changes nothing.
pub proof fn lemma_last_life_ends_game_once(
    w: World,
    w1: World,
    w2: World,
    r1: Option<ShipHit>,
    r2: Option<ShipHit>,
)
    requires
        w.wf(),
        w.ship is Some,
        !w.ship->0.ship.is_invincible(),
        w.ship->0.ship.life == 1,
        ship_damaged(w, w1, r1),
        ship_damaged(w1, w2, r2),
    ensures
        r1 == Some(ShipHit::Destroyed),
        w1.ship is None,
        w1.phases.next_game == Some(GameState::Over),
        w1.effects@ == w.effects@.push(
            SpawnExplosionEvent {
                kind: ExplosionKind::ShipDead,
                x: w.ship->0.body.x,
                y: w.ship->0.body.y,
            },
        ),
        r2 is None,
        unchanged(w1, w2),
{
}

/// A big asteroid alone at the center and at rest, hit once: after the next
/// spawn realization the score has grown by 40, the asteroid is gone, and
/// exactly four medium asteroids are alive.
pub proof fn lemma_destroy_big_asteroid(
    w0: World,
    w1: World,
    w2: World,
    a: AsteroidEntity,
    found: bool,
)
    requires
        w0.wf(),
        w0.arena is Some,
        w0.asteroids@ == seq![a],
        a.asteroid.size == AsteroidSize::Big,
        a.body == (Body { x: 0, y: 0, vx: 0, vy: 0 }),
        w0.pending_asteroids@.len() == 0,
        found == (w0.arena is Some && w0.has_asteroid(a.id)),
        asteroid_damaged(w0, w1, a.id, found),
        spawns_realized(w1, w2),
    ensures
        found,
        w2.arena is Some,
        w2.arena->0.score == w0.arena->0.score + 40,
        !w2.has_asteroid(a.id),
        w2.asteroids@.len() == 4,
        forall|i: int| 0 <= i < 4 ==> (#[trigger] w2.asteroids@[i]).asteroid.size == AsteroidSize::Medium,
{
    assert(w0.asteroids@[0].id == a.id);
    assert(found);
    let i = choose|i: int| #[trigger] asteroid_damaged_at(w0, w1, a.id, i);
    assert(i == 0);
    assert(w1.asteroids@.len() == 0);
    let kids = w1.pending_asteroids@.subrange(0, w1.pending_asteroids@.len() as int);
    assert(kids =~= w1.pending_asteroids@);
    assert(w1.pending_asteroids@.len() == 4);
    assert forall|i: int| 0 <= i < 4 implies (#[trigger] w2.asteroids@[i]).asteroid.size
        == AsteroidSize::Medium by {
        assert(w2.asteroids@[i] == asteroid_of(w1.pending_asteroids@[i], (w1.next_id + i) as u64));
        assert(kids[i] == w1.pending_asteroids@[i]);
    }
    assert(a.id < w0.next_id);
    if w2.has_asteroid(a.id) {
        let j = choose|j: int| 0 <= j < w2.asteroids@.len() && #[trigger] w2.asteroids@[j].id == a.id;
        assert(w2.asteroids@[j] == asteroid_of(w1.pending_asteroids@[j], (w1.next_id + j) as u64));
    }
}

} // verus!
