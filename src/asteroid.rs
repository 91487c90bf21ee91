use vstd::prelude::*;
use rand::rngs::StdRng;
use crate::arena::{
    coord_ok, Arena, Body, Collider, ARENA_HEIGHT, ARENA_WIDTH, HALF_HEIGHT, HALF_WIDTH, MAX_ASTEROIDS,
    MIN_SPAWN_PERIOD_MS, START_SPAWN_PERIOD_MS,
};
use crate::random::draw_range;

verus! {

/// The three sizes of asteroid.
#[derive(Debug, Clone, Copy, PartialEq, Eq, Structural)]
pub enum AsteroidSize {
    Big,
    Medium,
    Small,
}

/// Points awarded for destroying an asteroid of the given size.
pub open spec fn score_of(size: AsteroidSize) -> nat {
    match size {
        AsteroidSize::Big => 40,
        AsteroidSize::Medium => 20,
        AsteroidSize::Small => 10,
    }
}

/// What an asteroid of the given size breaks into: the children's size and
/// the radius that places and speeds them; small asteroids do not break.
pub open spec fn split_of(size: AsteroidSize) -> Option<(AsteroidSize, i64)> {
    match size {
        AsteroidSize::Big => Some((AsteroidSize::Medium, 20)),
        AsteroidSize::Medium => Some((AsteroidSize::Small, 10)),
        AsteroidSize::Small => None,
    }
}

impl AsteroidSize {
    /// Points awarded for destroying an asteroid of this size.
    pub fn score(&self) -> (r: u32)
        ensures
            r == score_of(*self),
    {
        match self {
            AsteroidSize::Big => 40,
            AsteroidSize::Medium => 20,
            AsteroidSize::Small => 10,
        }
    }

    /// The size of the children and their placement radius, if this size splits.
    pub fn split(&self) -> (r: Option<(AsteroidSize, i64)>)
        ensures
            r == split_of(*self),
    {
        match self {
            AsteroidSize::Big => Some((AsteroidSize::Medium, 20)),
            AsteroidSize::Medium => Some((AsteroidSize::Small, 10)),
            AsteroidSize::Small => None,
        }
    }

    /// The round collider of an asteroid of this size.
    pub fn collider(&self) -> (r: Collider)
        ensures
            r == match *self {
                AsteroidSize::Big => Collider::Circle { radius: 50500 },
                AsteroidSize::Medium => Collider::Circle { radius: 21500 },
                AsteroidSize::Small => Collider::Circle { radius: 14000 },
            },
    {
        match self {
            AsteroidSize::Big => Collider::Circle { radius: 50500 },
            AsteroidSize::Medium => Collider::Circle { radius: 21500 },
            AsteroidSize::Small => Collider::Circle { radius: 14000 },
        }
    }
}

/// A request to create an asteroid; realized at the start of the next tick.
/// `angvel` is in thousandths of a radian per second.
#[derive(Debug, Clone, Copy, PartialEq, Eq, Structural)]
pub struct AsteroidSpawnEvent {
    pub size: AsteroidSize,
    pub x: i64,
    pub y: i64,
    pub vx: i64,
    pub vy: i64,
    pub angvel: i64,
}

impl AsteroidSpawnEvent {
    pub open spec fn wf(self) -> bool {
        coord_ok(self.x) && coord_ok(self.y) && coord_ok(self.vx) && coord_ok(self.vy)
    }
}

/// The asteroid component: its size.
#[derive(Debug, Clone, Copy, PartialEq, Eq, Structural)]
pub struct Asteroid {
    pub size: AsteroidSize,
}

/// A live asteroid: identity, size, motion and spin.
#[derive(Debug, Clone, Copy, PartialEq, Eq, Structural)]
pub struct AsteroidEntity {
    pub id: u64,
    pub asteroid: Asteroid,
    pub body: Body,
    pub angvel: i64,
}

impl AsteroidEntity {
    pub open spec fn wf(self) -> bool {
        self.body.wf()
    }
}

/// The live asteroid that a spawn request becomes, with the given identity.
pub open spec fn asteroid_of(event: AsteroidSpawnEvent, id: u64) -> AsteroidEntity {
    AsteroidEntity {
        id,
        asteroid: Asteroid { size: event.size },
        body: Body { x: event.x, y: event.y, vx: event.vx, vy: event.vy },
        angvel: event.angvel,
    }
}

/// Turns a spawn request into a live asteroid with the given identity.
pub fn spawn_asteroid_event(event: &AsteroidSpawnEvent, id: u64) -> (r: AsteroidEntity)
    ensures
        r == asteroid_of(*event, id),
        event.wf() ==> r.wf(),
{
    AsteroidEntity {
        id,
        asteroid: Asteroid { size: event.size },
        body: Body { x: event.x, y: event.y, vx: event.vx, vy: event.vy },
        angvel: event.angvel,
    }
}

// ---- Spawning ----

/// Bound of the angular velocity of a new asteroid, in thousandths of a radian per second.
pub const MAX_SPAWN_ANGVEL: i64 = 10000;

/// The period that follows a spawn: four fifths of the current one, but never
/// under the floor.
pub open spec fn next_period(p: int) -> int {
    if p * 4 / 5 < MIN_SPAWN_PERIOD_MS {
        MIN_SPAWN_PERIOD_MS as int
    } else {
        p * 4 / 5
    }
}

/// Shrinks the spawn period after a spawn.
pub fn next_spawn_period(p: u64) -> (r: u64)
    requires
        p <= START_SPAWN_PERIOD_MS,
    ensures
        r == next_period(p as int),
        MIN_SPAWN_PERIOD_MS <= r <= START_SPAWN_PERIOD_MS,
{
    let shrunk = p * 4 / 5;
    if shrunk < MIN_SPAWN_PERIOD_MS {
        MIN_SPAWN_PERIOD_MS
    } else {
        shrunk
    }
}

/// The big asteroid that the spawner sends in, from its draws: `side` 0 is
/// the top edge, any other value the left edge; `along` is the position on
/// that edge.
pub open spec fn spawn_of_draws(side: i64, along: i64, vx: i64, vy: i64, angvel: i64)
    -> AsteroidSpawnEvent {
    AsteroidSpawnEvent {
        size: AsteroidSize::Big,
        x: if side == 0 { along } else { (-HALF_WIDTH) as i64 },
        y: if side == 0 { HALF_HEIGHT } else { along },
        vx,
        vy,
        angvel,
    }
}

/// What every spawned asteroid satisfies: big, on the top or the left edge,
/// with velocity and spin inside the spawner's ranges.
pub open spec fn spawn_in_range(e: AsteroidSpawnEvent) -> bool {
    &&& e.size == AsteroidSize::Big
    &&& ((e.y == HALF_HEIGHT && -HALF_WIDTH <= e.x < HALF_WIDTH) || (e.x == -HALF_WIDTH
        && -HALF_HEIGHT <= e.y < HALF_HEIGHT))
    &&& -ARENA_WIDTH / 4 <= e.vx < ARENA_WIDTH / 4
    &&& -ARENA_HEIGHT / 4 <= e.vy < ARENA_HEIGHT / 4
    &&& -MAX_SPAWN_ANGVEL <= e.angvel < MAX_SPAWN_ANGVEL
}

/// From the starting period, three spawns in a row leave a period of four
/// fifths cubed of it, 2560 ms, whatever the ticks' lengths and the
/// population were.
pub proof fn lemma_spawn_cadence(
    a0: Arena,
    a1: Arena,
    a2: Arena,
    a3: Arena,
    d1: u64,
    d2: u64,
    d3: u64,
    n1: usize,
    n2: usize,
    n3: usize,
    r1: Option<AsteroidSpawnEvent>,
    r2: Option<AsteroidSpawnEvent>,
    r3: Option<AsteroidSpawnEvent>,
)
    requires
        a0.asteroid_spawn_timer.duration_ms == START_SPAWN_PERIOD_MS,
        spawner_stepped(a0, a1, d1, n1, r1),
        spawner_stepped(a1, a2, d2, n2, r2),
        spawner_stepped(a2, a3, d3, n3, r3),
        r1 is Some,
        r2 is Some,
        r3 is Some,
    ensures
        a3.asteroid_spawn_timer.duration_ms == 2560,
{
}

/// The spawn period never drops under the floor, however often it shrinks.
pub proof fn lemma_spawn_period_floor(
    a: Arena,
    a2: Arena,
    delta_ms: u64,
    n_asteroids: usize,
    r: Option<AsteroidSpawnEvent>,
)
    requires
        a.wf(),
        spawner_stepped(a, a2, delta_ms, n_asteroids, r),
    ensures
        a2.asteroid_spawn_timer.duration_ms >= MIN_SPAWN_PERIOD_MS,
        next_period(a.asteroid_spawn_timer.duration_ms as int) >= MIN_SPAWN_PERIOD_MS,
{
}

/// Builds the spawned asteroid from the spawner's draws.
pub fn spawn_from_draws(side: i64, along: i64, vx: i64, vy: i64, angvel: i64) -> (r:
    AsteroidSpawnEvent)
    ensures
        r == spawn_of_draws(side, along, vx, vy, angvel),
{
    let (x, y) = if side == 0 {
        (along, HALF_HEIGHT)
    } else {
        (-HALF_WIDTH, along)
    };
    AsteroidSpawnEvent { size: AsteroidSize::Big, x, y, vx, vy, angvel }
}

/// How one tick of the spawner changes the arena, and what it requests.
pub open spec fn spawner_stepped(
    a: Arena,
    a2: Arena,
    delta_ms: u64,
    n_asteroids: usize,
    r: Option<AsteroidSpawnEvent>,
) -> bool {
    let t = a.asteroid_spawn_timer.ticked(delta_ms);
    &&& a2.score == a.score
    &&& !t.is_finished() ==> r is None && a2.asteroid_spawn_timer == t
    &&& t.is_finished() ==> {
        &&& a2.asteroid_spawn_timer.elapsed_ms == 0
        &&& n_asteroids < MAX_ASTEROIDS ==> {
            &&& a2.asteroid_spawn_timer.duration_ms == next_period(
                a.asteroid_spawn_timer.duration_ms as int,
            )
            &&& r is Some
            &&& spawn_in_range(r->0)
            &&& r->0.wf()
        }
        &&& n_asteroids >= MAX_ASTEROIDS ==> {
            &&& a2.asteroid_spawn_timer.duration_ms == a.asteroid_spawn_timer.duration_ms
            &&& r is None
        }
    }
}

/// One tick of the spawner. The timer advances by `delta_ms`; when it runs
/// out it restarts, and if fewer than the cap of asteroids are alive the
/// period shrinks and one big asteroid is requested.
pub fn arena_asteroids(arena: &mut Arena, delta_ms: u64, n_asteroids: usize, rng: &mut StdRng)
    -> (r: Option<AsteroidSpawnEvent>)
    requires
        old(arena).wf(),
    ensures
        final(arena).wf(),
        spawner_stepped(*old(arena), *final(arena), delta_ms, n_asteroids, r),
{
    arena.asteroid_spawn_timer.tick(delta_ms);
    if !arena.asteroid_spawn_timer.finished() {
        return None;
    }
    arena.asteroid_spawn_timer.reset();
    if n_asteroids >= MAX_ASTEROIDS {
        return None;
    }
    let period = next_spawn_period(arena.asteroid_spawn_timer.duration_ms);
    arena.asteroid_spawn_timer.set_duration(period);
    let side = draw_range(rng, 0, 2);
    let along = if side == 0 {
        draw_range(rng, -HALF_WIDTH, HALF_WIDTH)
    } else {
        draw_range(rng, -HALF_HEIGHT, HALF_HEIGHT)
    };
    let vx = draw_range(rng, -ARENA_WIDTH / 4, ARENA_WIDTH / 4);
    let vy = draw_range(rng, -ARENA_HEIGHT / 4, ARENA_HEIGHT / 4);
    let angvel = draw_range(rng, -MAX_SPAWN_ANGVEL, MAX_SPAWN_ANGVEL);
    Some(spawn_from_draws(side, along, vx, vy, angvel))
}

// ---- Splitting ----

/// Sign of a child's horizontal offset: children 0 and 2 go right, 1 and 3 left.
pub open spec fn sign_x(i: int) -> int {
    if i % 2 == 0 {
        1
    } else {
        -1
    }
}

/// Sign of a child's vertical offset: children 0 and 1 go up, 2 and 3 down.
pub open spec fn sign_y(i: int) -> int {
    if (i / 2) % 2 == 0 {
        1
    } else {
        -1
    }
}

/// How far each child sits from its parent's center along each axis:
/// one and a half times the child radius.
pub open spec fn child_offset(radius: int) -> int {
    radius * 3 / 2
}

/// Bound of a child's horizontal speed: the arena width over a quarter radius.
pub open spec fn child_speed_x(radius: int) -> int {
    ARENA_WIDTH * 4 / radius
}

/// Bound of a child's vertical speed: the arena height over a quarter radius.
pub open spec fn child_speed_y(radius: int) -> int {
    ARENA_HEIGHT * 4 / radius
}

/// Child `i` of a split parent, moving at `(vx, vy)` and spinning as its parent did.
pub open spec fn child_event(
    parent: AsteroidEntity,
    size: AsteroidSize,
    radius: int,
    i: int,
    vx: i64,
    vy: i64,
) -> AsteroidSpawnEvent {
    AsteroidSpawnEvent {
        size,
        x: (parent.body.x + sign_x(i) * child_offset(radius)) as i64,
        y: (parent.body.y + sign_y(i) * child_offset(radius)) as i64,
        vx,
        vy,
        angvel: parent.angvel,
    }
}

/// The children of a destroyed asteroid, given one velocity per child.
pub open spec fn children_of(parent: AsteroidEntity, velocities: Seq<(i64, i64)>) -> Seq<
    AsteroidSpawnEvent,
> {
    match split_of(parent.asteroid.size) {
        None => Seq::empty(),
        Some((size, radius)) => Seq::new(
            4,
            |i: int| child_event(parent, size, radius as int, i, velocities[i].0, velocities[i].1),
        ),
    }
}

/// What holds of the children that a damaged asteroid leaves, whatever
/// velocities were drawn: four of the next size at the quadrant offsets, each
/// with a velocity inside the child's speed bounds, or none for a small one.
pub open spec fn valid_children(parent: AsteroidEntity, children: Seq<AsteroidSpawnEvent>) -> bool {
    match split_of(parent.asteroid.size) {
        None => children.len() == 0,
        Some((size, radius)) => {
            &&& children.len() == 4
            &&& forall|i: int|
                #![trigger children[i]]
                0 <= i < 4 ==> {
                    &&& children[i] == child_event(
                        parent,
                        size,
                        radius as int,
                        i,
                        children[i].vx,
                        children[i].vy,
                    )
                    &&& -child_speed_x(radius as int) <= children[i].vx < child_speed_x(
                        radius as int,
                    )
                    &&& -child_speed_y(radius as int) <= children[i].vy < child_speed_y(
                        radius as int,
                    )
                }
        },
    }
}

/// Splitting a big asteroid gives four medium ones, each 30 units (one and a
/// half times the radius 20) from the parent's center along both axes, one
/// in each quadrant; splitting a medium one gives four small ones at 15
/// (radius 10), likewise; a small one gives none.
pub proof fn lemma_split_sizes(parent: AsteroidEntity, children: Seq<AsteroidSpawnEvent>)
    requires
        parent.wf(),
        valid_children(parent, children),
    ensures
        parent.asteroid.size == AsteroidSize::Big ==> {
            &&& children.len() == 4
            &&& forall|i: int|
                0 <= i < 4 ==> {
                    &&& (#[trigger] children[i]).size == AsteroidSize::Medium
                    &&& abs(children[i].x - parent.body.x) == 30
                    &&& abs(children[i].y - parent.body.y) == 30
                }
        },
        parent.asteroid.size == AsteroidSize::Medium ==> {
            &&& children.len() == 4
            &&& forall|i: int|
                0 <= i < 4 ==> {
                    &&& (#[trigger] children[i]).size == AsteroidSize::Small
                    &&& abs(children[i].x - parent.body.x) == 15
                    &&& abs(children[i].y - parent.body.y) == 15
                }
        },
        parent.asteroid.size == AsteroidSize::Small ==> children.len() == 0,
        parent.asteroid.size == AsteroidSize::Big ==> {
            &&& children[0].x == parent.body.x + 30 && children[0].y == parent.body.y + 30
            &&& children[1].x == parent.body.x - 30 && children[1].y == parent.body.y + 30
            &&& children[2].x == parent.body.x + 30 && children[2].y == parent.body.y - 30
            &&& children[3].x == parent.body.x - 30 && children[3].y == parent.body.y - 30
        },
        parent.asteroid.size == AsteroidSize::Medium ==> {
            &&& children[0].x == parent.body.x + 15 && children[0].y == parent.body.y + 15
            &&& children[1].x == parent.body.x - 15 && children[1].y == parent.body.y + 15
            &&& children[2].x == parent.body.x + 15 && children[2].y == parent.body.y - 15
            &&& children[3].x == parent.body.x - 15 && children[3].y == parent.body.y - 15
        },
{
}

/// Absolute value.
pub open spec fn abs(v: int) -> int {
    if v < 0 {
        -v
    } else {
        v
    }
}

/// The children of a destroyed asteroid from the given velocities, one pair
/// per child in order.
pub fn split_children(parent: &AsteroidEntity, velocities: &Vec<(i64, i64)>) -> (r: Vec<
    AsteroidSpawnEvent,
>)
    requires
        parent.wf(),
        velocities@.len() == 4,
    ensures
        r@ == children_of(*parent, velocities@),
{
    let mut children: Vec<AsteroidSpawnEvent> = Vec::new();
    match parent.asteroid.size.split() {
        None => {
            proof {
                assert(children@ =~= children_of(*parent, velocities@));
            }
            children
        },
        Some((size, radius)) => {
            let offset = radius * 3 / 2;
            let mut i: usize = 0;
            while i < 4
                invariant
                    0 <= i <= 4,
                    velocities@.len() == 4,
                    parent.wf(),
                    split_of(parent.asteroid.size) == Some((size, radius)),
                    offset == child_offset(radius as int),
                    children@.len() == i,
                    forall|j: int|
                        0 <= j < i ==> children@[j] == child_event(
                            *parent,
                            size,
                            radius as int,
                            j,
                            velocities@[j].0,
                            velocities@[j].1,
                        ),
                decreases 4 - i,
            {
                let dx = if i % 2 == 0 {
                    offset
                } else {
                    -offset
                };
                let dy = if (i / 2) % 2 == 0 {
                    offset
                } else {
                    -offset
                };
                let (vx, vy) = velocities[i];
                children.push(
                    AsteroidSpawnEvent {
                        size,
                        x: parent.body.x + dx,
                        y: parent.body.y + dy,
                        vx,
                        vy,
                        angvel: parent.angvel,
                    },
                );
                i = i + 1;
            }
            proof {
                assert(children@ =~= children_of(*parent, velocities@));
            }
            children
        },
    }
}

/// Scores a destroyed asteroid and draws the children that replace it.
fn score_and_split(arena: &mut Arena, target: &AsteroidEntity, rng: &mut StdRng) -> (r: Vec<
    AsteroidSpawnEvent,
>)
    requires
        old(arena).score + score_of(target.asteroid.size) <= u32::MAX,
        target.wf(),
    ensures
        final(arena).score == old(arena).score + score_of(target.asteroid.size),
        final(arena).asteroid_spawn_timer == old(arena).asteroid_spawn_timer,
        valid_children(*target, r@),
{
    arena.score = arena.score + target.asteroid.size.score();
    let mut velocities: Vec<(i64, i64)> = Vec::new();
    let (sx, sy) = match target.asteroid.size.split() {
        Some((_, radius)) => (ARENA_WIDTH * 4 / radius, ARENA_HEIGHT * 4 / radius),
        None => {
            return Vec::new();
        },
    };
    let mut i: usize = 0;
    while i < 4
        invariant
            0 <= i <= 4,
            velocities@.len() == i,
            sx > 0,
            sy > 0,
            forall|j: int|
                0 <= j < i ==> -sx <= #[trigger] velocities@[j].0 < sx && -sy <= velocities@[j].1
                    < sy,
        decreases 4 - i,
    {
        let vx = draw_range(rng, -sx, sx);
        let vy = draw_range(rng, -sy, sy);
        velocities.push((vx, vy));
        i = i + 1;
    }
    let children = split_children(target, &velocities);
    proof {
        if let Some((size, radius)) = split_of(target.asteroid.size) {
            assert forall|i: int| 0 <= i < 4 implies {
                &&& children@[i] == child_event(
                    *target,
                    size,
                    radius as int,
                    i,
                    children@[i].vx,
                    children@[i].vy,
                )
                &&& -child_speed_x(radius as int) <= children@[i].vx < child_speed_x(radius as int)
                &&& -child_speed_y(radius as int) <= children@[i].vy < child_speed_y(radius as int)
            } by {
                assert(children@[i] == child_event(
                    *target,
                    size,
                    radius as int,
                    i,
                    velocities@[i].0,
                    velocities@[i].1,
                ));
            }
        }
    }
    children
}

/// A hit on the asteroid `id`, found at index `i` of `asteroids`: the arena
/// gains its score, it alone leaves the set, and `children` replace it.
pub open spec fn asteroid_hit_at(
    arena: Arena,
    arena2: Arena,
    asteroids: Seq<AsteroidEntity>,
    asteroids2: Seq<AsteroidEntity>,
    id: u64,
    i: int,
    children: Seq<AsteroidSpawnEvent>,
) -> bool {
    &&& 0 <= i < asteroids.len()
    &&& asteroids[i].id == id
    &&& forall|j: int| 0 <= j < i ==> #[trigger] asteroids[j].id != id
    &&& asteroids2 == asteroids.remove(i)
    &&& arena2.score == arena.score + score_of(asteroids[i].asteroid.size)
    &&& arena2.asteroid_spawn_timer == arena.asteroid_spawn_timer
    &&& valid_children(asteroids[i], children)
}

/// Resolves a hit on the asteroid `id` among `asteroids`. The asteroid is
/// destroyed unconditionally: the arena gains its score, it is removed, and
/// the children that replace it are returned for spawning. A hit on an
/// asteroid no longer in the set (destroyed earlier in the same tick)
/// changes nothing and returns `None`.
pub fn on_asteroid_damage(
    arena: &mut Arena,
    asteroids: &mut Vec<AsteroidEntity>,
    id: u64,
    rng: &mut StdRng,
) -> (r: Option<Vec<AsteroidSpawnEvent>>)
    requires
        old(arena).score + 40 <= u32::MAX,
        forall|i: int|
            0 <= i < old(asteroids)@.len() && #[trigger] old(asteroids)@[i].id == id ==> old(
                asteroids,
            )@[i].wf(),
    ensures
        (r is None) == !(exists|i: int|
            0 <= i < old(asteroids)@.len() && #[trigger] old(asteroids)@[i].id == id),
        r is None ==> *final(arena) == *old(arena) && final(asteroids)@ == old(asteroids)@,
        r is Some ==> exists|i: int|
            #[trigger] asteroid_hit_at(
                *old(arena),
                *final(arena),
                old(asteroids)@,
                final(asteroids)@,
                id,
                i,
                r->0@,
            ),
{
    let n = asteroids.len();
    let mut i: usize = 0;
    while i < n && asteroids[i].id != id
        invariant
            n == asteroids@.len(),
            0 <= i <= n,
            forall|j: int| 0 <= j < i ==> #[trigger] asteroids@[j].id != id,
        decreases n - i,
    {
        i = i + 1;
    }
    if i == n {
        return None;
    }
    let target = asteroids[i];
    let children = score_and_split(arena, &target, rng);
    asteroids.remove(i);
    let r = Some(children);
    proof {
        assert(asteroid_hit_at(
            *old(arena),
            *arena,
            old(asteroids)@,
            asteroids@,
            id,
            i as int,
            r->0@,
        ));
    }
    r
}

} // verus!
