use crate::kind::AsteroidKind;
use crate::lineage::{AsteroidID, SmallAsteroidMap, clears, id_offset, lemma_id_offset_step, tally};
use crate::random::{coin_flip, draw_in_range};
use crate::spawner::{
    AsteroidSpawner, PlayField, Point, SpawnerRegistry, in_aim_area, lemma_free_upto,
    lemma_some_free, ring, SPAWNER_COUNT,
};
use crate::stats::{Health, Points, Score, saturating_sum};
use std::collections::HashMap;
use vstd::prelude::*;

verus! {

broadcast use vstd::std_specs::hash::group_hash_axioms;

/// Where a new asteroid appears.
#[derive(Clone, Copy, Debug, PartialEq, Eq, Structural)]
pub enum Placement {
    /// At a spawner's position, heading for its aim point.
    AtSpawner { position: Point, aim: Point },
    /// Beside the asteroid that split: its heading turned by `turn` eighths of
    /// a half turn, and its position moved `FRAGMENT_OFFSET` units along that
    /// new heading.
    Fragment { turn: i8 },
}

/// How far from its parent a fragment appears, in world units.
pub const FRAGMENT_OFFSET: u32 = 90;

/// A request to create one asteroid.
#[derive(Clone, Copy, Debug, PartialEq, Eq, Structural)]
pub struct SpawnAsteroid {
    pub kind: AsteroidKind,
    pub placement: Placement,
    pub id: usize,
}

impl SpawnAsteroid {
    pub fn new(kind: AsteroidKind, placement: Placement, id: usize) -> (r: SpawnAsteroid)
        ensures
            r == (SpawnAsteroid { kind, placement, id }),
    {
        SpawnAsteroid { kind, placement, id }
    }
}

/// What the session knows of a live asteroid.
#[derive(Clone, Copy, Debug, PartialEq, Eq, Structural)]
pub struct Asteroid {
    pub kind: AsteroidKind,
    pub id: usize,
    pub health: Health,
    pub points: Points,
}

impl Asteroid {
    pub open spec fn fresh(kind: AsteroidKind, id: usize) -> Asteroid {
        Asteroid {
            kind,
            id,
            health: Health { max: kind.health_spec(), current: kind.health_spec() },
            points: Points(kind.points_spec()),
        }
    }

    /// A new asteroid of `kind` in lineage `id`, at full health and worth the kind's points.
    pub fn new(kind: AsteroidKind, id: usize) -> (r: Asteroid)
        ensures
            r == Asteroid::fresh(kind, id),
    {
        Asteroid { kind, id, health: Health::new(kind.get_health()), points: Points(kind.get_points()) }
    }
}

/// A notification that an object must be removed (its health ran out, or it left play).
#[derive(Clone, Copy, Debug, PartialEq, Eq, Structural)]
pub struct Destroyed(pub u64);

/// A notification that an object was hit by a projectile.
#[derive(Clone, Copy, Debug, PartialEq, Eq, Structural)]
pub struct Shot(pub u64);

/// A request for `amount` new large asteroids at distinct spawn points.
#[derive(Clone, Copy, Debug, PartialEq, Eq, Structural)]
pub struct SpawnAsteroids {
    pub amount: u16,
}

impl SpawnAsteroids {
    pub fn new(amount: u16) -> (r: SpawnAsteroids)
        ensures
            r.amount == amount,
    {
        SpawnAsteroids { amount }
    }
}

/// What one destruction notification asks of the world.
#[derive(Debug, PartialEq, Eq)]
pub struct DestructionOutcome {
    /// Points added to the score.
    pub points: u32,
    /// Whether a health pickup appears where the asteroid was.
    pub health_pickup: bool,
    /// Fragments to create, placed relative to the destroyed asteroid.
    pub fragments: Vec<SpawnAsteroid>,
    /// How many replenishments of one asteroid to run.
    pub replenish: u16,
    /// Whether the notified entity was a live asteroid, now to be removed.
    pub despawn: bool,
}

/// Whether the asteroid was brought down by damage.
pub open spec fn killed(a: Asteroid) -> bool {
    a.health.current == 0
}

pub open spec fn fragment(a: Asteroid, turn: i8) -> SpawnAsteroid {
    SpawnAsteroid { kind: a.kind.smaller_spec(), placement: Placement::Fragment { turn }, id: a.id }
}

/// The three fragments of a split: turned by minus one, zero and one eighth
/// of a half turn, of the smaller kind, in the parent's lineage.
pub open spec fn fragments_of(a: Asteroid) -> Seq<SpawnAsteroid> {
    seq![fragment(a, -1i8), fragment(a, 0i8), fragment(a, 1i8)]
}

/// The fragment tally after `a` is removed: only small asteroids count.
pub open spec fn small_after(small: Map<usize, u16>, a: Asteroid) -> Map<usize, u16> {
    if a.kind.is_large() {
        small
    } else {
        tally(small, a.id)
    }
}

/// Replenishments owed when `a` is removed: one for a large asteroid that
/// leaves play without being shot down, one for the fragment that clears its lineage.
pub open spec fn refills(small: Map<usize, u16>, a: Asteroid) -> nat {
    (if !killed(a) && a.kind.is_large() {
        1nat
    } else {
        0nat
    }) + (if !a.kind.is_large() && clears(small, a.id) {
        1nat
    } else {
        0nat
    })
}

/// The fragment tally after a notification for entity `e`.
pub open spec fn lineage_after(live: Map<u64, Asteroid>, small: Map<usize, u16>, e: u64) -> Map<
    usize,
    u16,
> {
    if live.contains_key(e) {
        small_after(small, live[e])
    } else {
        small
    }
}

/// Replenishments owed for a notification for entity `e`.
pub open spec fn refills_after(live: Map<u64, Asteroid>, small: Map<usize, u16>, e: u64) -> nat {
    if live.contains_key(e) {
        refills(small, live[e])
    } else {
        0
    }
}

/// The spawner position a request names; fragments name none.
pub open spec fn spawn_point(req: SpawnAsteroid) -> Option<Point> {
    match req.placement {
        Placement::AtSpawner { position, .. } => Some(position),
        Placement::Fragment { .. } => None,
    }
}

/// `req` is a fresh large asteroid at spawner `s`, heading for its aim.
pub open spec fn from_spawner(req: SpawnAsteroid, s: AsteroidSpawner) -> bool {
    &&& req.kind.is_large()
    &&& req.placement == (Placement::AtSpawner { position: s.position, aim: s.aim })
}

/// A replenishment batch: each request is a large asteroid at one of the
/// spawners, no two at one position, with lineage ids allocated in order from `first`.
pub open spec fn valid_batch(b: Seq<SpawnAsteroid>, s: Seq<AsteroidSpawner>, first: usize) -> bool {
    &&& forall|k: int|
        0 <= k < b.len() ==> exists|i: int|
            0 <= i < s.len() && from_spawner(#[trigger] b[k], s[i])
    &&& forall|k: int| 0 <= k < b.len() ==> (#[trigger] b[k]).id == id_offset(first, k as nat)
    &&& forall|j: int, k: int|
        0 <= j < b.len() && 0 <= k < b.len() && j != k ==> spawn_point(#[trigger] b[j])
            != spawn_point(#[trigger] b[k])
}

/// The three fragments that `a` splits into.
pub fn split_fragments(a: &Asteroid) -> (r: Vec<SpawnAsteroid>)
    ensures
        r@ == fragments_of(*a),
{
    let smaller = a.kind.get_smaller();
    let mut r: Vec<SpawnAsteroid> = Vec::new();
    let mut turn: i8 = -1;
    while turn <= 1
        invariant
            -1 <= turn <= 2,
            smaller == a.kind.smaller_spec(),
            r@.len() == turn + 1,
            forall|k: int| 0 <= k < r@.len() ==> #[trigger] r@[k] == fragment(*a, (k - 1) as i8),
        decreases 2 - turn,
    {
        r.push(SpawnAsteroid::new(smaller, Placement::Fragment { turn }, a.id));
        turn = turn + 1;
    }
    assert(r@ =~= fragments_of(*a));
    r
}

/// Three fragments of one lineage, destroyed one after another: the count for
/// the lineage goes one, two, then the entry is gone and exactly one
/// replenishment is owed, on the third; a repeated notification for a
/// fragment already removed changes nothing and owes nothing; and the tally
/// ends as it began.
pub proof fn lemma_lineage_completion(
    live: Map<u64, Asteroid>,
    small: Map<usize, u16>,
    e1: u64,
    e2: u64,
    e3: u64,
    lineage: usize,
)
    requires
        e1 != e2 && e1 != e3 && e2 != e3,
        live.contains_key(e1) && live.contains_key(e2) && live.contains_key(e3),
        !live[e1].kind.is_large() && live[e1].id == lineage,
        !live[e2].kind.is_large() && live[e2].id == lineage,
        !live[e3].kind.is_large() && live[e3].id == lineage,
        !small.contains_key(lineage),
    ensures
        ({
            let l1 = live.remove(e1);
            let s1 = lineage_after(live, small, e1);
            let l2 = l1.remove(e2);
            let s2 = lineage_after(l1, s1, e2);
            let l3 = l2.remove(e3);
            let s3 = lineage_after(l2, s2, e3);
            &&& s1.contains_key(lineage) && s1[lineage] == 1
            &&& refills_after(live, small, e1) == 0
            &&& lineage_after(l1, s1, e1) == s1 && refills_after(l1, s1, e1) == 0
            &&& l1.remove(e1) == l1
            &&& s2.contains_key(lineage) && s2[lineage] == 2
            &&& refills_after(l1, s1, e2) == 0
            &&& !s3.contains_key(lineage)
            &&& refills_after(l2, s2, e3) == 1
            &&& s3 == small
        }),
{
    let l1 = live.remove(e1);
    let s1 = lineage_after(live, small, e1);
    let l2 = l1.remove(e2);
    let s2 = lineage_after(l1, s1, e2);
    let s3 = lineage_after(l2, s2, e3);
    assert(l1.remove(e1) =~= l1);
    assert(s3 =~= small);
}

/// The state of one play session.
#[derive(Debug)]
pub struct Session {
    pub ids: AsteroidID,
    pub small_asteroids: SmallAsteroidMap,
    pub score: Score,
    pub spawners: SpawnerRegistry,
    /// Live asteroids, keyed by entity.
    pub asteroids: HashMap<u64, Asteroid>,
}

impl Session {
    pub open spec fn wf(&self) -> bool {
        &&& self.small_asteroids.wf()
        &&& self.spawners.wf()
    }

    pub open spec fn live(&self) -> Map<u64, Asteroid> {
        self.asteroids@
    }

    /// A session with no spawners, no asteroids, no score and the first lineage id zero.
    pub fn new() -> (r: Session)
        ensures
            r.wf(),
            r.ids.0 == 0,
            r.small_asteroids@ == Map::<usize, u16>::empty(),
            r.score.current == 0,
            r.spawners@.len() == 0,
            r.live() == Map::<u64, Asteroid>::empty(),
    {
        Session {
            ids: AsteroidID::new(),
            small_asteroids: SmallAsteroidMap::new(),
            score: Score::new(),
            spawners: SpawnerRegistry::new(),
            asteroids: HashMap::new(),
        }
    }

    /// A fresh large asteroid at spawner `index`: `Basic` if `basic`, else
    /// `Advanced`, with the next lineage id.
    pub fn spawn_from(&mut self, index: usize, basic: bool) -> (r: SpawnAsteroid)
        requires
            index < old(self).spawners@.len(),
        ensures
            r == (SpawnAsteroid {
                kind: if basic {
                    AsteroidKind::Basic
                } else {
                    AsteroidKind::Advanced
                },
                placement: Placement::AtSpawner {
                    position: old(self).spawners@[index as int].position,
                    aim: old(self).spawners@[index as int].aim,
                },
                id: old(self).ids.0,
            }),
            final(self).ids.0 == id_offset(old(self).ids.0, 1),
            final(self).small_asteroids == old(self).small_asteroids,
            final(self).score == old(self).score,
            final(self).spawners == old(self).spawners,
            final(self).asteroids == old(self).asteroids,
    {
        let spawner = self.spawners.spawners[index];
        let kind = if basic {
            AsteroidKind::Basic
        } else {
            AsteroidKind::Advanced
        };
        let id = self.ids.get();
        SpawnAsteroid::new(kind, Placement::AtSpawner { position: spawner.position, aim: spawner.aim }, id)
    }

    /// Requests `amount` new large asteroids, each at a randomly chosen spawner
    /// whose position no earlier one in the batch took, of a random large
    /// kind, each starting a new lineage.
    pub fn replenish(&mut self, amount: u16) -> (r: Vec<SpawnAsteroid>)
        requires
            old(self).wf(),
            amount <= old(self).spawners@.len(),
        ensures
            final(self).wf(),
            r@.len() == amount,
            valid_batch(r@, old(self).spawners@, old(self).ids.0),
            final(self).ids.0 == id_offset(old(self).ids.0, amount as nat),
            final(self).small_asteroids == old(self).small_asteroids,
            final(self).score == old(self).score,
            final(self).spawners == old(self).spawners,
            final(self).asteroids == old(self).asteroids,
    {
        let ghost first = self.ids.0;
        let ghost s = self.spawners@;
        let mut batch: Vec<SpawnAsteroid> = Vec::new();
        let mut taken: Vec<Point> = Vec::new();
        proof {
            lemma_id_offset_step(first, 0);
        }
        while batch.len() < amount as usize
            invariant
                self.wf(),
                self.spawners@ == s,
                s.len() <= SPAWNER_COUNT,
                amount <= s.len(),
                batch@.len() <= amount,
                taken@.len() == batch@.len(),
                forall|k: int|
                    0 <= k < batch@.len() ==> spawn_point(#[trigger] batch@[k]) == Some(taken@[k]),
                valid_batch(batch@, s, first),
                self.ids.0 == id_offset(first, batch@.len() as nat),
                self.small_asteroids == old(self).small_asteroids,
                self.score == old(self).score,
                self.spawners == old(self).spawners,
                self.asteroids == old(self).asteroids,
            decreases amount - batch@.len(),
        {
            let free = self.spawners.free_spawners(&taken);
            proof {
                lemma_some_free(s, taken@);
                lemma_free_upto(s, taken@, s.len());
            }
            let pick = draw_in_range(0, (free.len() - 1) as i64) as usize;
            let index = free[pick];
            let basic = coin_flip();
            let req = self.spawn_from(index, basic);
            let position = self.spawners.spawners[index].position;
            proof {
                lemma_id_offset_step(first, batch@.len() as nat);
                assert(!taken@.contains(position));
                assert forall|k: int| 0 <= k < batch@.len() implies spawn_point(batch@[k]) != spawn_point(req) by {
                    if spawn_point(batch@[k]) == spawn_point(req) {
                        assert(taken@[k] == position);
                    }
                }
                assert(from_spawner(req, s[index as int]));
            }
            batch.push(req);
            taken.push(position);
            proof {
                assert forall|k: int| 0 <= k < batch@.len() implies exists|i: int|
                    0 <= i < s.len() && from_spawner(#[trigger] batch@[k], s[i]) by {
                    if k == batch@.len() - 1 {
                        assert(from_spawner(batch@[k], s[index as int]));
                    }
                }
            }
        }
        batch
    }

    /// Starts a play session on `field`: forgets lineages, asteroids and the
    /// current score, rebuilds the spawn ring and requests the first five asteroids.
    pub fn start(&mut self, field: PlayField) -> (r: Vec<SpawnAsteroid>)
        ensures
            final(self).wf(),
            final(self).score.current == 0,
            final(self).small_asteroids@ == Map::<usize, u16>::empty(),
            final(self).live() == Map::<u64, Asteroid>::empty(),
            final(self).spawners@.len() == SPAWNER_COUNT,
            forall|i: int|
                0 <= i < SPAWNER_COUNT ==> (#[trigger] final(self).spawners@[i]).position
                    == ring(field)[i] && in_aim_area(final(self).spawners@[i].aim),
            r@.len() == 5,
            valid_batch(r@, final(self).spawners@, old(self).ids.0),
            final(self).ids.0 == id_offset(old(self).ids.0, 5),
    {
        self.small_asteroids.clear();
        self.asteroids = HashMap::new();
        self.score.current = 0;
        self.spawners.setup(field);
        self.replenish(5)
    }

    /// Records the asteroid that `request` created as entity `entity`, at full health.
    pub fn spawn_asteroid(&mut self, entity: u64, request: &SpawnAsteroid)
        ensures
            final(self).live() == old(self).live().insert(
                entity,
                Asteroid::fresh(request.kind, request.id),
            ),
            final(self).ids == old(self).ids,
            final(self).small_asteroids == old(self).small_asteroids,
            final(self).score == old(self).score,
            final(self).spawners == old(self).spawners,
    {
        self.asteroids.insert(entity, Asteroid::new(request.kind, request.id));
    }

    /// A projectile hit `entity`: a live asteroid loses one health point.
    /// Returns whether that brought it to zero, which calls for a destruction notification.
    pub fn shot(&mut self, entity: u64) -> (destroyed: bool)
        ensures
            old(self).live().contains_key(entity) ==> {
                let a = old(self).live()[entity];
                let current = if a.health.current >= 1 { a.health.current - 1 } else { 0 };
                &&& final(self).live() == old(self).live().insert(
                    entity,
                    Asteroid { health: Health { max: a.health.max, current: current as u16 }, ..a },
                )
                &&& destroyed == (current == 0)
            },
            !old(self).live().contains_key(entity) ==> final(self).live() == old(self).live()
                && !destroyed,
            final(self).ids == old(self).ids,
            final(self).small_asteroids == old(self).small_asteroids,
            final(self).score == old(self).score,
            final(self).spawners == old(self).spawners,
    {
        match self.asteroids.get(&entity) {
            Some(a) => {
                let mut hit = *a;
                hit.health.sub(1);
                self.asteroids.insert(entity, hit);
                hit.health.current() == 0
            },
            None => false,
        }
    }

    /// Reacts to a destruction notification for `entity`, with `pickup_roll`
    /// deciding whether a shot-down small asteroid leaves a health pickup.
    ///
    /// A notification for an entity that is not a live asteroid changes
    /// nothing. Otherwise the asteroid is removed; if its health is zero its
    /// points are scored and a large one splits into three fragments, while
    /// a large one removed with health left is replaced by one replenishment;
    /// a small one counts toward its lineage, and the third fragment of a
    /// lineage clears it and asks for one replenishment.
    pub fn asteroid_destroyed_with(&mut self, entity: u64, pickup_roll: bool) -> (r:
        DestructionOutcome)
        requires
            old(self).wf(),
        ensures
            final(self).wf(),
            final(self).live() == old(self).live().remove(entity),
            final(self).small_asteroids@ == lineage_after(
                old(self).live(),
                old(self).small_asteroids@,
                entity,
            ),
            r.replenish == refills_after(old(self).live(), old(self).small_asteroids@, entity),
            r.despawn == old(self).live().contains_key(entity),
            final(self).score.current == saturating_sum(old(self).score.current, r.points),
            final(self).score.high == old(self).score.high,
            final(self).score.previous_high == old(self).score.previous_high,
            !old(self).live().contains_key(entity) ==> {
                &&& r.points == 0
                &&& !r.health_pickup
                &&& r.fragments@.len() == 0
            },
            old(self).live().contains_key(entity) ==> {
                let a = old(self).live()[entity];
                &&& r.points == if killed(a) {
                    a.points.0
                } else {
                    0
                }
                &&& r.health_pickup == (killed(a) && !a.kind.is_large() && pickup_roll)
                &&& r.fragments@ == if killed(a) && a.kind.is_large() {
                    fragments_of(a)
                } else {
                    Seq::empty()
                }
            },
            final(self).ids == old(self).ids,
            final(self).spawners == old(self).spawners,
    {
        let mut out = DestructionOutcome {
            points: 0,
            health_pickup: false,
            fragments: Vec::new(),
            replenish: 0,
            despawn: false,
        };
        let a = match self.asteroids.get(&entity) {
            Some(a) => *a,
            None => {
                proof {
                    assert(old(self).live().remove(entity) =~= old(self).live());
                }
                return out;
            },
        };
        if a.health.current() == 0 {
            out.points = a.points.0;
            self.score.award(a.points.0);
            if a.kind.is_smaller() {
                out.health_pickup = pickup_roll;
            } else {
                out.fragments = split_fragments(&a);
            }
        } else if !a.kind.is_smaller() {
            out.replenish = 1;
        }
        if a.kind.is_smaller() {
            if self.small_asteroids.record(a.id) {
                out.replenish = out.replenish + 1;
            }
        }
        self.asteroids.remove(&entity);
        out.despawn = true;
        out
    }

    /// Reacts to a destruction notification for `entity`, rolling for a
    /// health pickup; see `asteroid_destroyed_with`.
    pub fn asteroid_destroyed(&mut self, entity: u64) -> (r: DestructionOutcome)
        requires
            old(self).wf(),
        ensures
            final(self).wf(),
            final(self).live() == old(self).live().remove(entity),
            final(self).small_asteroids@ == lineage_after(
                old(self).live(),
                old(self).small_asteroids@,
                entity,
            ),
            r.replenish == refills_after(old(self).live(), old(self).small_asteroids@, entity),
            r.despawn == old(self).live().contains_key(entity),
            final(self).score.current == saturating_sum(old(self).score.current, r.points),
            !old(self).live().contains_key(entity) ==> r.points == 0 && !r.health_pickup
                && r.fragments@.len() == 0,
            old(self).live().contains_key(entity) ==> {
                let a = old(self).live()[entity];
                &&& r.points == if killed(a) {
                    a.points.0
                } else {
                    0
                }
                &&& r.health_pickup ==> killed(a) && !a.kind.is_large()
                &&& r.fragments@ == if killed(a) && a.kind.is_large() {
                    fragments_of(a)
                } else {
                    Seq::empty()
                }
            },
            final(self).ids == old(self).ids,
            final(self).spawners == old(self).spawners,
    {
        let roll = coin_flip();
        self.asteroid_destroyed_with(entity, roll)
    }
}

} // verus!
