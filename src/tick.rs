use vstd::prelude::*;
use rand::rngs::StdRng;
use crate::arena::{wrap_body, wrapped, GameLayer};
use crate::asteroid::{arena_asteroids, spawner_stepped, AsteroidEntity, AsteroidSpawnEvent};
use crate::explosion::{ExplosionKind, SpawnExplosionEvent};
use crate::laser::{
    asteroid_targets, laser_asteroid_collision, laser_timeout_system, LaserHits, LaserSpawnEvent,
};
use crate::player_ship::{
    count_asteroids, ship_after_hit, ship_asteroid_collision, ship_input_system,
    ship_timers_system, ship_ticked, ShipControl, ShipEntity, ShipHit,
};
use crate::state::GameState;
use crate::timer::Timer;
use crate::world::{
    asteroid_damaged, ship_damaged, spawns_realized, unchanged, LaserEntity, World,
};

verus! {

/// Several hits in the same instant count as one: after any hit the
/// invincibility timer stands at zero, so a repeated hit extends the window
/// by nothing and changes nothing.
pub proof fn lemma_repeated_hit_no_change(
    w: World,
    w1: World,
    w2: World,
    r1: Option<ShipHit>,
    r2: Option<ShipHit>,
)
    requires
        w.wf(),
        ship_damaged(w, w1, r1),
        ship_damaged(w1, w2, r2),
    ensures
        unchanged(w1, w2),
{
    if let Some(se) = w.ship {
        let (s1, h1) = ship_after_hit(se.ship);
        if h1 != ShipHit::Destroyed {
            let (s2, h2) = ship_after_hit(s1);
            assert(s2 == s1);
        }
    }
}

/// The laser after its countdown ran for `delta_ms`.
pub open spec fn laser_ticked(l: LaserEntity, delta_ms: u64) -> LaserEntity {
    LaserEntity {
        laser: crate::laser::Laser {
            despawn_timer: l.laser.despawn_timer.ticked(delta_ms),
            ..l.laser
        },
        ..l
    }
}

/// The lasers that outlive a tick of `delta_ms`, with their countdowns advanced.
pub open spec fn surviving_lasers(lasers: Seq<LaserEntity>, delta_ms: u64) -> Seq<LaserEntity>
    decreases lasers.len(),
{
    if lasers.len() == 0 {
        Seq::empty()
    } else {
        let rest = surviving_lasers(lasers.drop_last(), delta_ms);
        let l = laser_ticked(lasers.last(), delta_ms);
        if l.laser.despawn_timer.is_finished() {
            rest
        } else {
            rest.push(l)
        }
    }
}

impl World {
    /// Resolves the ship's contacts of this tick: one hit per touching
    /// asteroid, the first of which decides; the others change nothing.
    pub fn resolve_ship_contacts(&mut self, contacts: &Vec<GameLayer>) -> (r: Option<ShipHit>)
        requires
            old(self).wf(),
        ensures
            final(self).wf(),
            ship_contacts_resolved(*old(self), *final(self), contacts@, r),

    {
        let n = ship_asteroid_collision(contacts);
        if n == 0 {
            return None;
        }
        let r = self.damage_ship();
        let mut i: usize = 1;
        while i < n
            invariant
                1 <= i <= n,
                self.wf(),
                old(self).wf(),
                ship_damaged(*old(self), *self, r),
            decreases n - i,
        {
            let ghost prev = *self;
            let r2 = self.damage_ship();
            proof {
                lemma_repeated_hit_no_change(*old(self), prev, *self, r, r2);
            }
            i = i + 1;
        }
        r
    }

    /// Advances every laser's countdown and removes those whose time is up;
    /// lasers stand still unless the game is running.
    pub fn expire_lasers(&mut self, delta_ms: u64)
        requires
            old(self).wf(),
        ensures
            final(self).wf(),
            lasers_expired(*old(self), *final(self), delta_ms),

    {
        if !self.phases.time_advances() {
            return;
        }
        let mut kept: Vec<LaserEntity> = Vec::new();
        let mut i: usize = 0;
        while i < self.lasers.len()
            invariant
                0 <= i <= self.lasers@.len(),
                self.lasers@ == old(self).lasers@,
                old(self).wf(),
                kept@ == surviving_lasers(self.lasers@.subrange(0, i as int), delta_ms),
                forall|j: int| 0 <= j < kept@.len() ==> (#[trigger] kept@[j]).id < old(self).next_id
                    && kept@[j].laser.despawn_timer.wf(),
            decreases self.lasers@.len() - i,
        {
            proof {
                assert(self.lasers@.subrange(0, i + 1).drop_last() =~= self.lasers@.subrange(
                    0,
                    i as int,
                ));
            }
            let mut l = self.lasers[i];
            let expired = laser_timeout_system(&mut l.laser, delta_ms);
            if !expired {
                kept.push(l);
            }
            i = i + 1;
        }
        proof {
            assert(self.lasers@.subrange(0, self.lasers@.len() as int) =~= self.lasers@);
        }
        self.lasers = kept;
    }

    /// Runs the spawner for one tick; a requested asteroid joins the spawn
    /// requests. Without an arena, or while the game is not running, nothing
    /// happens.
    pub fn spawn_tick(&mut self, delta_ms: u64, rng: &mut StdRng) -> (r: Option<
        AsteroidSpawnEvent,
    >)
        requires
            old(self).wf(),
        ensures
            final(self).wf(),
            spawner_ticked(*old(self), *final(self), delta_ms, r),

    {
        if !self.phases.time_advances() {
            return None;
        }
        let mut arena = match self.arena {
            Some(a) => a,
            None => {
                return None;
            },
        };
        let r = arena_asteroids(&mut arena, delta_ms, self.asteroids.len(), rng);
        self.arena = Some(arena);
        if let Some(e) = r {
            self.pending_asteroids.push(e);
        }
        r
    }

    /// One tick of the ship: its timers advance, then the pressed actions
    /// steer it and may fire a laser along `(heading_x, heading_y)` (the
    /// facing direction in thousandths). Without a ship, or while the game is
    /// not running, nothing happens.
    pub fn ship_tick(
        &mut self,
        delta_ms: u64,
        forward: bool,
        rotate_left: bool,
        rotate_right: bool,
        fire: bool,
        heading_x: i64,
        heading_y: i64,
    ) -> (r: Option<ShipControl>)
        requires
            old(self).wf(),
        ensures
            final(self).wf(),
            ship_stepped(
                *old(self),
                *final(self),
                delta_ms,
                forward,
                rotate_left,
                rotate_right,
                fire,
                heading_x,
                heading_y,
                r,
            ),

    {
        if !self.phases.time_advances() {
            return None;
        }
        let mut se = match self.ship {
            Some(se) => se,
            None => {
                return None;
            },
        };
        ship_timers_system(&mut se.ship, delta_ms);
        let control = ship_input_system(&mut se.ship, forward, rotate_left, rotate_right, fire);
        self.ship = Some(se);
        if control.fire {
            self.pending_lasers.push(
                LaserSpawnEvent {
                    x: se.body.x,
                    y: se.body.y,
                    heading_x,
                    heading_y,
                    vx: se.body.vx,
                    vy: se.body.vy,
                },
            );
        }
        Some(control)
    }
}

/// One hit on the asteroid `id`, whether or not it is still alive.
pub open spec fn damage_step(w: World, w2: World, id: u64) -> bool {
    asteroid_damaged(w, w2, id, w.arena is Some && w.has_asteroid(id))
}

/// A run of hits on asteroids, one for each identity of `ids` in order,
/// taking the world through the states of `ws`.
pub open spec fn damage_chain(ws: Seq<World>, ids: Seq<u64>) -> bool {
    &&& ws.len() == ids.len() + 1
    &&& forall|k: int|
        0 <= k < ids.len() ==> #[trigger] damage_step(ws[k], ws[k + 1], ids[k])
}

/// How the contacts of the laser at index `k` change the world `w` into
/// `w2`, through the states `ws` of the hits it deals.
pub open spec fn laser_resolved(
    w: World,
    w2: World,
    laser_id: u64,
    targets: Seq<(u64, GameLayer)>,
    h: LaserHits,
    k: int,
    ws: Seq<World>,
) -> bool {
    &&& 0 <= k < w.lasers@.len()
    &&& w.lasers@[k].id == laser_id
    &&& h.damaged@ == asteroid_targets(targets)
    &&& h.explosions@ == Seq::new(
        h.damaged@.len(),
        |j: int|
            SpawnExplosionEvent {
                kind: ExplosionKind::LaserOnAsteroid,
                x: w.lasers@[k].body.x,
                y: w.lasers@[k].body.y,
            },
    )
    &&& h.despawn == (h.damaged@.len() > 0)
    &&& damage_chain(ws, h.damaged@)
    &&& ws[0].effects@ == w.effects@ + h.explosions@
    &&& ws[0].lasers@ == if h.despawn {
        w.lasers@.remove(k)
    } else {
        w.lasers@
    }
    &&& ws[0].phases == w.phases
    &&& ws[0].arena == w.arena
    &&& ws[0].ship == w.ship
    &&& ws[0].asteroids@ == w.asteroids@
    &&& ws[0].pending_asteroids@ == w.pending_asteroids@
    &&& ws[0].pending_lasers@ == w.pending_lasers@
    &&& ws[0].next_id == w.next_id
    &&& unchanged(ws.last(), w2)
}

/// A laser has no more asteroid targets than contacts.
proof fn lemma_targets_len(targets: Seq<(u64, GameLayer)>)
    ensures
        asteroid_targets(targets).len() <= targets.len(),
    decreases targets.len(),
{
    if targets.len() > 0 {
        lemma_targets_len(targets.drop_last());
    }
}

/// The asteroid targets of a laser are among its asteroid contacts, so they
/// share any bound those contacts' identities have.
proof fn lemma_targets_below(targets: Seq<(u64, GameLayer)>, bound: u64)
    requires
        forall|k: int|
            0 <= k < targets.len() && (#[trigger] targets[k]).1 == GameLayer::Asteroid ==> targets[k].0
                < bound,
    ensures
        forall|j: int|
            0 <= j < asteroid_targets(targets).len() ==> #[trigger] asteroid_targets(targets)[j]
                < bound,
    decreases targets.len(),
{
    if targets.len() > 0 {
        let rest = targets.drop_last();
        assert forall|k: int|
            0 <= k < rest.len() && (#[trigger] rest[k]).1 == GameLayer::Asteroid implies rest[k].0
                < bound by {
            assert(rest[k] == targets[k]);
        }
        lemma_targets_below(rest, bound);
        let last = targets.last();
        assert(last == targets[targets.len() - 1]);
        let r = asteroid_targets(rest);
        if last.1 == GameLayer::Asteroid {
            assert forall|j: int| 0 <= j < r.push(last.0).len() implies #[trigger] r.push(last.0)[j]
                < bound by {
                if j < r.len() {
                    assert(r.push(last.0)[j] == r[j]);
                }
            }
        }
    }
}

/// Appends the effects of `src` to `dst`, in order.
fn append_effects(dst: &mut Vec<SpawnExplosionEvent>, src: &Vec<SpawnExplosionEvent>)
    ensures
        final(dst)@ == old(dst)@ + src@,
{
    let mut k: usize = 0;
    while k < src.len()
        invariant
            0 <= k <= src@.len(),
            dst@ == old(dst)@ + src@.subrange(0, k as int),
        decreases src@.len() - k,
    {
        proof {
            assert(src@.subrange(0, k + 1) =~= src@.subrange(0, k as int).push(src@[k as int]));
        }
        dst.push(src[k]);
        k = k + 1;
    }
    proof {
        assert(src@.subrange(0, src@.len() as int) =~= src@);
    }
}

impl World {
    /// Resolves the contacts of the laser `laser_id` in this tick: each
    /// touching asteroid takes a hit, in order, each hit shows an effect at
    /// the laser's position, and a laser that touched an asteroid is removed.
    /// Returns `None`, changing nothing, when no such laser is alive.
    pub fn resolve_laser_contacts(
        &mut self,
        laser_id: u64,
        targets: &Vec<(u64, GameLayer)>,
        rng: &mut StdRng,
    ) -> (r: Option<LaserHits>)
        requires
            old(self).wf(),
            old(self).arena is Some ==> old(self).arena->0.score + 40 * targets@.len()
                <= u32::MAX,
            forall|k: int|
                0 <= k < targets@.len() && (#[trigger] targets@[k]).1 == GameLayer::Asteroid
                    ==> targets@[k].0 < old(self).next_id,
        ensures
            final(self).wf(),
            laser_contacts_resolved(*old(self), *final(self), laser_id, targets@, r),
            final(self).next_id == old(self).next_id,
            final(self).phases == old(self).phases,
            final(self).ship == old(self).ship,
            (final(self).arena is Some) == (old(self).arena is Some),
            old(self).arena is Some ==> final(self).arena->0.score <= old(self).arena->0.score + 40
                * targets@.len(),

    {
        let n = self.lasers.len();
        let mut k: usize = 0;
        while k < n && self.lasers[k].id != laser_id
            invariant
                n == self.lasers@.len(),
                0 <= k <= n,
                forall|j: int| 0 <= j < k ==> #[trigger] self.lasers@[j].id != laser_id,
            decreases n - k,
        {
            k = k + 1;
        }
        if k == n {
            return None;
        }
        let l = self.lasers[k];
        let hits = laser_asteroid_collision(l.body.x, l.body.y, targets);
        proof {
            lemma_targets_len(targets@);
            lemma_targets_below(targets@, old(self).next_id);
            assert(hits.explosions@ =~= Seq::new(
                hits.damaged@.len(),
                |j: int|
                    SpawnExplosionEvent { kind: ExplosionKind::LaserOnAsteroid, x: l.body.x, y: l.body.y },
            ));
        }
        append_effects(&mut self.effects, &hits.explosions);
        if hits.despawn {
            self.lasers.remove(k);
            proof {
                assert forall|i: int| 0 <= i < self.lasers@.len() implies #[trigger] self.lasers@[i].id
                    < self.next_id && self.lasers@[i].laser.despawn_timer.wf() by {
                    if i < k {
                        assert(self.lasers@[i] == old(self).lasers@[i]);
                    } else {
                        assert(self.lasers@[i] == old(self).lasers@[i + 1]);
                    }
                }
            }
        }
        let ghost first = *self;
        let ghost mut ws: Seq<World> = seq![*self];
        let mut j: usize = 0;
        while j < hits.damaged.len()
            invariant
                0 <= j <= hits.damaged@.len(),
                hits.damaged@.len() <= targets@.len(),
                self.wf(),
                self.next_id == old(self).next_id,
                self.phases == old(self).phases,
                self.ship == old(self).ship,
                (self.arena is Some) == (old(self).arena is Some),
                self.arena is Some ==> self.arena->0.score <= old(self).arena->0.score + 40 * j,
                old(self).arena is Some ==> old(self).arena->0.score + 40 * targets@.len()
                    <= u32::MAX,
                forall|m: int| 0 <= m < hits.damaged@.len() ==> #[trigger] hits.damaged@[m] < old(self).next_id,
                ws.len() == j + 1,
                ws[0] == first,
                damage_chain(ws, hits.damaged@.subrange(0, j as int)),
                ws.last() == *self,
                self.arena is Some ==> self.arena->0.score + 40 * (hits.damaged@.len() - j)
                    <= u32::MAX,
            decreases hits.damaged@.len() - j,
        {
            let ghost prev = *self;
            let id = hits.damaged[j];
            let found = self.damage_asteroid(id, rng);
            proof {
                let ids = hits.damaged@.subrange(0, j + 1);
                let ws2 = ws.push(*self);
                assert(ids.drop_last() =~= hits.damaged@.subrange(0, j as int));
                assert forall|m: int| 0 <= m < ids.len() implies #[trigger] damage_step(
                    ws2[m],
                    ws2[m + 1],
                    ids[m],
                ) by {
                    if m < j {
                        assert(ws2[m] == ws[m]);
                        assert(ws2[m + 1] == ws[m + 1]);
                        assert(ids[m] == hits.damaged@.subrange(0, j as int)[m]);
                    } else {
                        assert(ws2[m] == prev);
                        assert(ws2[m + 1] == *self);
                        assert(ids[m] == id);
                    }
                }
                if found {
                    let i = choose|i: int| #[trigger] crate::world::asteroid_damaged_at(prev, *self, id, i);
                    assert forall|a: int| 0 <= a < self.asteroids@.len() implies (
                    #[trigger] self.asteroids@[a]).wf() by {
                        if a < i {
                            assert(self.asteroids@[a] == prev.asteroids@[a]);
                        } else {
                            assert(self.asteroids@[a] == prev.asteroids@[a + 1]);
                        }
                    }
                    assert(crate::asteroid::score_of(prev.asteroids@[i].asteroid.size) <= 40);
                }
                ws = ws2;
            }
            j = j + 1;
        }
        proof {
            assert(hits.damaged@.subrange(0, hits.damaged@.len() as int) =~= hits.damaged@);
            assert(old(self).lasers@[k as int].id == laser_id);
            assert(hits.explosions@ =~= Seq::new(
                hits.damaged@.len(),
                |j: int|
                    SpawnExplosionEvent {
                        kind: ExplosionKind::LaserOnAsteroid,
                        x: old(self).lasers@[k as int].body.x,
                        y: old(self).lasers@[k as int].body.y,
                    },
            ));
            assert(laser_resolved(*old(self), *self, laser_id, targets@, hits, k as int, ws));
        }
        let r = Some(hits);
        proof {
            assert(laser_resolved(*old(self), *self, laser_id, targets@, r->0, k as int, ws));
        }
        r
    }
}

/// Wraps the body of every asteroid, keeping everything else.
fn wrap_asteroids(v: &mut Vec<AsteroidEntity>)
    ensures
        final(v)@.len() == old(v)@.len(),
        forall|i: int|
            0 <= i < old(v)@.len() ==> #[trigger] final(v)@[i] == (AsteroidEntity {
                body: wrapped(old(v)@[i].body),
                ..old(v)@[i]
            }),
{
    let n = v.len();
    let mut i: usize = 0;
    while i < n
        invariant
            n == old(v)@.len(),
            v@.len() == n,
            0 <= i <= n,
            forall|j: int|
                0 <= j < i ==> #[trigger] v@[j] == (AsteroidEntity {
                    body: wrapped(old(v)@[j].body),
                    ..old(v)@[j]
                }),
            forall|j: int| i <= j < n ==> #[trigger] v@[j] == old(v)@[j],
        decreases n - i,
    {
        let mut a = v[i];
        a.body = wrap_body(&a.body);
        v.set(i, a);
        i = i + 1;
    }
}

/// Wraps the body of every laser, keeping everything else.
fn wrap_lasers(v: &mut Vec<LaserEntity>)
    ensures
        final(v)@.len() == old(v)@.len(),
        forall|i: int|
            0 <= i < old(v)@.len() ==> #[trigger] final(v)@[i] == (LaserEntity {
                body: wrapped(old(v)@[i].body),
                ..old(v)@[i]
            }),
{
    let n = v.len();
    let mut i: usize = 0;
    while i < n
        invariant
            n == old(v)@.len(),
            v@.len() == n,
            0 <= i <= n,
            forall|j: int|
                0 <= j < i ==> #[trigger] v@[j] == (LaserEntity {
                    body: wrapped(old(v)@[j].body),
                    ..old(v)@[j]
                }),
            forall|j: int| i <= j < n ==> #[trigger] v@[j] == old(v)@[j],
        decreases n - i,
    {
        let mut l = v[i];
        l.body = wrap_body(&l.body);
        v.set(i, l);
        i = i + 1;
    }
}

impl World {
    /// The wrap pass of a tick, run after the physics moved everything: the
    /// ship, every asteroid and every laser wrap around the arena's edges.
    pub fn wrap_bodies(&mut self)
        requires
            old(self).wf(),
        ensures
            final(self).wf(),
            bodies_wrapped(*old(self), *final(self)),

    {
        if let Some(mut se) = self.ship {
            se.body = wrap_body(&se.body);
            self.ship = Some(se);
        }
        wrap_asteroids(&mut self.asteroids);
        wrap_lasers(&mut self.lasers);
        proof {
            assert forall|i: int| 0 <= i < self.lasers@.len() implies #[trigger] self.lasers@[i].id
                < self.next_id && self.lasers@[i].laser.despawn_timer.wf() by {
                assert(self.lasers@[i].id == old(self).lasers@[i].id);
            }
            assert forall|i: int| 0 <= i < self.asteroids@.len() implies #[trigger] self.asteroids@[i].id
                < self.next_id by {
                assert(self.asteroids@[i].id == old(self).asteroids@[i].id);
            }
        }
    }
}

/// How resolving the ship's contacts of a tick changes the world.
pub open spec fn ship_contacts_resolved(
    w: World,
    w2: World,
    contacts: Seq<GameLayer>,
    r: Option<ShipHit>,
) -> bool {
    &&& (count_asteroids(contacts) == 0 ==> r is None && unchanged(w, w2))
    &&& (count_asteroids(contacts) > 0 ==> ship_damaged(w, w2, r))
}

/// How the lasers' countdowns change the world in a tick of `delta_ms`.
pub open spec fn lasers_expired(w: World, w2: World, delta_ms: u64) -> bool {
    &&& (w2.lasers@ == if w.phases.game == Some(GameState::Running) {
        surviving_lasers(w.lasers@, delta_ms)
    } else {
        w.lasers@
    })
    &&& (w2.phases == w.phases)
    &&& (w2.arena == w.arena)
    &&& (w2.ship == w.ship)
    &&& (w2.asteroids@ == w.asteroids@)
    &&& (w2.pending_asteroids@ == w.pending_asteroids@)
    &&& (w2.pending_lasers@ == w.pending_lasers@)
    &&& (w2.effects@ == w.effects@)
    &&& (w2.next_id == w.next_id)
}

/// How the spawner changes the world in a tick of `delta_ms`.
pub open spec fn spawner_ticked(
    w: World,
    w2: World,
    delta_ms: u64,
    r: Option<AsteroidSpawnEvent>,
) -> bool {
    &&& (!(w.phases.game == Some(GameState::Running) && w.arena is Some) ==> r is None && unchanged(
        w,
        w2,
    ))
    &&& (w.phases.game == Some(GameState::Running) && w.arena is Some ==> {
        &&& w2.arena is Some
        &&& spawner_stepped(
            w.arena->0,
            w2.arena->0,
            delta_ms,
            w.asteroids@.len() as usize,
            r,
        )
        &&& w2.pending_asteroids@ == if r is Some {
            w.pending_asteroids@.push(r->0)
        } else {
            w.pending_asteroids@
        }
        &&& w2.phases == w.phases
        &&& w2.ship == w.ship
        &&& w2.asteroids@ == w.asteroids@
        &&& w2.lasers@ == w.lasers@
        &&& w2.pending_lasers@ == w.pending_lasers@
        &&& w2.effects@ == w.effects@
        &&& w2.next_id == w.next_id
    })
}

/// How the ship's tick changes the world, for the given pressed actions
/// and heading.
pub open spec fn ship_stepped(
    w: World,
    w2: World,
    delta_ms: u64,
    forward: bool,
    rotate_left: bool,
    rotate_right: bool,
    fire: bool,
    heading_x: i64,
    heading_y: i64,
    r: Option<ShipControl>,
) -> bool {
    &&& (!(w.phases.game == Some(GameState::Running) && w.ship is Some) ==> r is None && unchanged(
        w,
        w2,
    ))
    &&& (w.phases.game == Some(GameState::Running) && w.ship is Some ==> {
        let se = w.ship->0;
        let t = ship_ticked(se.ship, delta_ms);
        let c = r->0;
        &&& r is Some
        &&& c.angvel == if rotate_left {
            Some(t.rotation_speed)
        } else if rotate_right {
            Some((-t.rotation_speed) as i64)
        } else {
            None::<i64>
        }
        &&& c.force == if forward {
            t.thrust
        } else {
            0
        }
        &&& c.fire == (fire && t.cannon_timer.is_finished())
        &&& w2.ship == Some(
            ShipEntity {
                ship: if c.fire {
                    crate::player_ship::Ship {
                        cannon_timer: Timer { elapsed_ms: 0, ..t.cannon_timer },
                        ..t
                    }
                } else {
                    t
                },
                ..se
            },
        )
        &&& w2.pending_lasers@ == if c.fire {
            w.pending_lasers@.push(
                LaserSpawnEvent {
                    x: se.body.x,
                    y: se.body.y,
                    heading_x,
                    heading_y,
                    vx: se.body.vx,
                    vy: se.body.vy,
                },
            )
        } else {
            w.pending_lasers@
        }
        &&& w2.phases == w.phases
        &&& w2.arena == w.arena
        &&& w2.asteroids@ == w.asteroids@
        &&& w2.lasers@ == w.lasers@
        &&& w2.pending_asteroids@ == w.pending_asteroids@
        &&& w2.effects@ == w.effects@
        &&& w2.next_id == w.next_id
    })
}

/// How the contacts of the laser `laser_id` change the world.
pub open spec fn laser_contacts_resolved(
    w: World,
    w2: World,
    laser_id: u64,
    targets: Seq<(u64,
    GameLayer)>,
    r: Option<LaserHits>,
) -> bool {
    &&& (!(exists|k: int|
        0 <= k < w.lasers@.len() && #[trigger] w.lasers@[k].id
            == laser_id) ==> r is None && unchanged(w, w2))
    &&& ((exists|k: int|
        0 <= k < w.lasers@.len() && #[trigger] w.lasers@[k].id
            == laser_id) ==> r is Some)
    &&& (r is Some ==> exists|k: int, ws: Seq<World>|
        #[trigger] laser_resolved(w, w2, laser_id, targets, r->0, k, ws))
}

/// How the wrap pass changes the world.
pub open spec fn bodies_wrapped(w: World, w2: World) -> bool {
    &&& (w2.ship == match w.ship {
        Some(se) => Some(ShipEntity { body: wrapped(se.body), ..se }),
        None => None,
    })
    &&& (w2.asteroids@.len() == w.asteroids@.len())
    &&& (forall|i: int|
        0 <= i < w.asteroids@.len() ==> #[trigger] w2.asteroids@[i] == (
        AsteroidEntity { body: wrapped(w.asteroids@[i].body), ..w.asteroids@[i] }))
    &&& (w2.lasers@.len() == w.lasers@.len())
    &&& (forall|i: int|
        0 <= i < w.lasers@.len() ==> #[trigger] w2.lasers@[i] == (
        LaserEntity { body: wrapped(w.lasers@[i].body), ..w.lasers@[i] }))
    &&& (w2.phases == w.phases)
    &&& (w2.arena == w.arena)
    &&& (w2.pending_asteroids@ == w.pending_asteroids@)
    &&& (w2.pending_lasers@ == w.pending_lasers@)
    &&& (w2.effects@ == w.effects@)
    &&& (w2.next_id == w.next_id)
}

/// What the player presses in a tick, and where the ship faces: a unit
/// vector in thousandths.
#[derive(Debug, Clone, Copy, PartialEq, Eq, Structural)]
pub struct ShipInput {
    pub forward: bool,
    pub rotate_left: bool,
    pub rotate_right: bool,
    pub fire: bool,
    pub heading_x: i64,
    pub heading_y: i64,
}

/// The entities touching one laser in a tick, as the physics reports them.
#[derive(Debug, Clone)]
pub struct LaserContacts {
    pub laser_id: u64,
    pub targets: Vec<(u64, GameLayer)>,
}

/// Number of contacts over all the lasers' reports.
pub open spec fn contact_total(reports: Seq<LaserContacts>) -> nat
    decreases reports.len(),
{
    if reports.len() == 0 {
        0
    } else {
        contact_total(reports.drop_last()) + reports.last().targets@.len()
    }
}

/// A prefix of the reports has no more contacts than all of them.
proof fn lemma_contact_total_prefix(reports: Seq<LaserContacts>, k: int)
    requires
        0 <= k <= reports.len(),
    ensures
        contact_total(reports.subrange(0, k)) <= contact_total(reports),
    decreases reports.len(),
{
    if k == reports.len() {
        assert(reports.subrange(0, k) =~= reports);
    } else {
        let rest = reports.drop_last();
        assert(rest.subrange(0, k) =~= reports.subrange(0, k));
        lemma_contact_total_prefix(rest, k);
    }
}

/// The lasers' reports resolved one after the other, through the states `ws`.
pub open spec fn laser_chain(
    ws: Seq<World>,
    reports: Seq<LaserContacts>,
    rs: Seq<Option<LaserHits>>,
) -> bool {
    &&& ws.len() == reports.len() + 1
    &&& rs.len() == reports.len()
    &&& forall|k: int|
        0 <= k < reports.len() ==> #[trigger] laser_contacts_resolved(
            ws[k],
            ws[k + 1],
            reports[k].laser_id,
            reports[k].targets@,
            rs[k],
        )
}

/// One running tick, step by step through the states `ws`: last tick's
/// spawn requests become entities, bodies wrap, the ship's contacts and then
/// each laser's contacts deal their hits, lasers expire, the ship acts, and
/// the spawner runs.
pub open spec fn tick_done(
    w: World,
    w2: World,
    delta_ms: u64,
    input: ShipInput,
    ship_contacts: Seq<GameLayer>,
    reports: Seq<LaserContacts>,
    ws: Seq<World>,
    lws: Seq<World>,
    sr: Option<ShipHit>,
    rs: Seq<Option<LaserHits>>,
    sp: Option<AsteroidSpawnEvent>,
    r: Option<ShipControl>,
) -> bool {
    &&& ws.len() == 6
    &&& spawns_realized(w, ws[0])
    &&& bodies_wrapped(ws[0], ws[1])
    &&& ship_contacts_resolved(ws[1], ws[2], ship_contacts, sr)
    &&& laser_chain(lws, reports, rs)
    &&& lws[0] == ws[2]
    &&& lws.last() == ws[3]
    &&& lasers_expired(ws[3], ws[4], delta_ms)
    &&& ship_stepped(
        ws[4],
        ws[5],
        delta_ms,
        input.forward,
        input.rotate_left,
        input.rotate_right,
        input.fire,
        input.heading_x,
        input.heading_y,
        r,
    )
    &&& spawner_ticked(ws[5], w2, delta_ms, sp)
}

impl World {
    /// One tick of the simulation, after the physics moved the bodies and
    /// reported the contacts. Nothing happens unless the game is running;
    /// otherwise the steps run in the order `tick_done` gives. Returns what
    /// the ship did, if there is a ship.
    pub fn tick(
        &mut self,
        delta_ms: u64,
        input: ShipInput,
        ship_contacts: &Vec<GameLayer>,
        laser_contacts: &Vec<LaserContacts>,
        rng: &mut StdRng,
    ) -> (r: Option<ShipControl>)
        requires
            old(self).wf(),
            old(self).next_id + old(self).pending_asteroids@.len() + old(self).pending_lasers@.len()
                <= u64::MAX,
            forall|k: int|
                0 <= k < old(self).pending_lasers@.len() ==> #[trigger] old(
                    self,
                ).pending_lasers@[k].wf(),
            forall|k: int|
                0 <= k < old(self).pending_asteroids@.len() ==> #[trigger] old(
                    self,
                ).pending_asteroids@[k].wf(),
            old(self).arena is Some ==> old(self).arena->0.score + 40 * contact_total(
                laser_contacts@,
            ) <= u32::MAX,
            forall|k: int, t: int|
                0 <= k < laser_contacts@.len() && 0 <= t < laser_contacts@[k].targets@.len()
                    && (#[trigger] laser_contacts@[k].targets@[t]).1 == GameLayer::Asteroid
                    ==> laser_contacts@[k].targets@[t].0 < old(self).next_id,
        ensures
            final(self).wf(),
            old(self).phases.game != Some(GameState::Running) ==> r is None && unchanged(
                *old(self),
                *final(self),
            ),
            old(self).phases.game == Some(GameState::Running) ==> exists|
                ws: Seq<World>,
                lws: Seq<World>,
                sr: Option<ShipHit>,
                rs: Seq<Option<LaserHits>>,
                sp: Option<AsteroidSpawnEvent>,
            |
                #[trigger] tick_done(
                    *old(self),
                    *final(self),
                    delta_ms,
                    input,
                    ship_contacts@,
                    laser_contacts@,
                    ws,
                    lws,
                    sr,
                    rs,
                    sp,
                    r,
                ),
    {
        if !self.phases.time_advances() {
            return None;
        }
        self.realize_spawns();
        let ghost s0 = *self;
        self.wrap_bodies();
        let ghost s1 = *self;
        let sr = self.resolve_ship_contacts(ship_contacts);
        let ghost s2 = *self;
        proof {
            assert(s2.arena == old(self).arena);
        }
        let ghost mut lws: Seq<World> = seq![*self];
        let ghost mut rs: Seq<Option<LaserHits>> = Seq::empty();
        let mut k: usize = 0;
        while k < laser_contacts.len()
            invariant
                0 <= k <= laser_contacts@.len(),
                self.wf(),
                lws.len() == k + 1,
                lws[0] == s2,
                lws.last() == *self,
                laser_chain(lws, laser_contacts@.subrange(0, k as int), rs),
                self.next_id == s2.next_id,
                s2.next_id >= old(self).next_id,
                s2.arena == old(self).arena,
                (self.arena is Some) == (s2.arena is Some),
                self.arena is Some ==> self.arena->0.score <= s2.arena->0.score + 40
                    * contact_total(laser_contacts@.subrange(0, k as int)),
                old(self).arena is Some ==> old(self).arena->0.score + 40 * contact_total(
                    laser_contacts@,
                ) <= u32::MAX,
                forall|k: int, t: int|
                    0 <= k < laser_contacts@.len() && 0 <= t < laser_contacts@[k].targets@.len()
                        && (#[trigger] laser_contacts@[k].targets@[t]).1 == GameLayer::Asteroid
                        ==> laser_contacts@[k].targets@[t].0 < old(self).next_id,
                self.phases == s2.phases,
                self.ship == s2.ship,
            decreases laser_contacts@.len() - k,
        {
            proof {
                let pre = laser_contacts@.subrange(0, k as int);
                let pre1 = laser_contacts@.subrange(0, k + 1);
                assert(pre1.drop_last() =~= pre);
                lemma_contact_total_prefix(laser_contacts@, k + 1);
            }
            let ghost prev = *self;
            let hits = self.resolve_laser_contacts(
                laser_contacts[k].laser_id,
                &laser_contacts[k].targets,
                rng,
            );
            proof {
                let reports = laser_contacts@.subrange(0, k + 1);
                let lws2 = lws.push(*self);
                let rs2 = rs.push(hits);
                assert forall|m: int| 0 <= m < reports.len() implies #[trigger] laser_contacts_resolved(
                    lws2[m],
                    lws2[m + 1],
                    reports[m].laser_id,
                    reports[m].targets@,
                    rs2[m],
                ) by {
                    if m < k {
                        assert(lws2[m] == lws[m]);
                        assert(lws2[m + 1] == lws[m + 1]);
                        assert(rs2[m] == rs[m]);
                        assert(reports[m] == laser_contacts@.subrange(0, k as int)[m]);
                    } else {
                        assert(lws2[m] == prev);
                        assert(lws2[m + 1] == *self);
                        assert(reports[m] == laser_contacts@[k as int]);
                    }
                }
                lws = lws2;
                rs = rs2;
            }
            k = k + 1;
        }
        proof {
            assert(laser_contacts@.subrange(0, laser_contacts@.len() as int) =~= laser_contacts@);
        }
        let ghost s3 = *self;
        self.expire_lasers(delta_ms);
        let ghost s4 = *self;
        let r = self.ship_tick(
            delta_ms,
            input.forward,
            input.rotate_left,
            input.rotate_right,
            input.fire,
            input.heading_x,
            input.heading_y,
        );
        let ghost s5 = *self;
        let sp = self.spawn_tick(delta_ms, rng);
        proof {
            let ws = seq![s0, s1, s2, s3, s4, s5];
            assert(tick_done(
                *old(self),
                *self,
                delta_ms,
                input,
                ship_contacts@,
                laser_contacts@,
                ws,
                lws,
                sr,
                rs,
                sp,
                r,
            ));
        }
        r
    }
}

} // verus!
