use crate::random::draw_in_range;
use vstd::prelude::*;

verus! {

/// A point of the play field in whole world units; the centre is the origin.
#[derive(Clone, Copy, Debug, PartialEq, Eq, Structural)]
pub struct Point {
    pub x: i32,
    pub y: i32,
}

impl Point {
    pub fn new(x: i32, y: i32) -> (r: Point)
        ensures
            r.x == x,
            r.y == y,
    {
        Point { x, y }
    }
}

/// The visible play field, by its half extents around the origin.
#[derive(Clone, Copy, Debug, PartialEq, Eq, Structural)]
pub struct PlayField {
    pub half_width: u16,
    pub half_height: u16,
}

impl PlayField {
    /// The field of the game's fixed viewport.
    pub fn viewport() -> (r: PlayField)
        ensures
            r.half_width == crate::VIEWPORT_WIDTH / 2,
            r.half_height == crate::VIEWPORT_HEIGHT / 2,
    {
        PlayField { half_width: crate::VIEWPORT_WIDTH / 2, half_height: crate::VIEWPORT_HEIGHT / 2 }
    }
}

/// How far outside the play field the spawn ring lies.
pub const SPAWN_OFFSET: i32 = 40;

/// Spawners aim at a point with `|x| <= AIM_HALF_WIDTH` and `|y| <= AIM_HALF_HEIGHT`.
pub const AIM_HALF_WIDTH: i32 = 320;

pub const AIM_HALF_HEIGHT: i32 = 130;

/// The number of spawn points on the ring.
pub const SPAWNER_COUNT: usize = 10;

pub open spec fn pt(x: int, y: int) -> Point {
    Point { x: x as i32, y: y as i32 }
}

/// The spawn ring around `field`: the four corners of the field grown by
/// `SPAWN_OFFSET`, the middles of its left and right edges, and two points on
/// each of the top and bottom edges, halfway out from the centre (rounded
/// toward zero).
pub open spec fn ring(field: PlayField) -> Seq<Point> {
    let r = field.half_width + SPAWN_OFFSET;
    let t = field.half_height + SPAWN_OFFSET;
    let h = r / 2;
    seq![
        pt(r, t),
        pt(r, -t),
        pt(-r, t),
        pt(-r, -t),
        pt(-r, 0),
        pt(r, 0),
        pt(-h, t),
        pt(h, t),
        pt(-h, -t),
        pt(h, -t),
    ]
}

/// A fixed spawn location with the point its new asteroids head for.
#[derive(Clone, Copy, Debug, PartialEq, Eq, Structural)]
pub struct AsteroidSpawner {
    pub position: Point,
    pub aim: Point,
}

impl AsteroidSpawner {
    pub fn new(position: Point, aim: Point) -> (r: AsteroidSpawner)
        ensures
            r.position == position,
            r.aim == aim,
    {
        AsteroidSpawner { position, aim }
    }
}

/// Whether `p` lies in the rectangle that spawners aim into.
pub open spec fn in_aim_area(p: Point) -> bool {
    -AIM_HALF_WIDTH <= p.x <= AIM_HALF_WIDTH && -AIM_HALF_HEIGHT <= p.y <= AIM_HALF_HEIGHT
}

/// No two spawners share a position.
pub open spec fn distinct_positions(s: Seq<AsteroidSpawner>) -> bool {
    forall|i: int, j: int|
        0 <= i < s.len() && 0 <= j < s.len() && i != j ==> #[trigger] s[i].position
            != #[trigger] s[j].position
}

/// The indices below `n` of the spawners whose position is not in `taken`, in order.
pub open spec fn free_upto(s: Seq<AsteroidSpawner>, taken: Seq<Point>, n: nat) -> Seq<usize>
    decreases n,
{
    if n == 0 {
        Seq::empty()
    } else {
        let prev = free_upto(s, taken, (n - 1) as nat);
        if taken.contains(s[n - 1].position) {
            prev
        } else {
            prev.push((n - 1) as usize)
        }
    }
}

pub proof fn lemma_free_upto(s: Seq<AsteroidSpawner>, taken: Seq<Point>, n: nat)
    requires
        n <= s.len(),
        s.len() <= usize::MAX,
    ensures
        free_upto(s, taken, n).len() <= n,
        forall|k: int|
            0 <= k < free_upto(s, taken, n).len() ==> #[trigger] free_upto(s, taken, n)[k] < n
                && !taken.contains(s[free_upto(s, taken, n)[k] as int].position),
        free_upto(s, taken, n).len() == 0 ==> forall|i: int|
            0 <= i < n ==> taken.contains(#[trigger] s[i].position),
    decreases n,
{
    if n > 0 {
        lemma_free_upto(s, taken, (n - 1) as nat);
    }
}

/// With fewer points taken than there are spawners at distinct positions,
/// some spawner is free.
pub proof fn lemma_some_free(s: Seq<AsteroidSpawner>, taken: Seq<Point>)
    requires
        distinct_positions(s),
        taken.len() < s.len() <= usize::MAX,
    ensures
        free_upto(s, taken, s.len()).len() > 0,
{
    lemma_free_upto(s, taken, s.len());
    if free_upto(s, taken, s.len()).len() == 0 {
        let ps = s.map_values(|sp: AsteroidSpawner| sp.position);
        assert(ps.no_duplicates()) by {
            assert forall|i: int, j: int|
                0 <= i < ps.len() && 0 <= j < ps.len() && i != j implies ps[i] != ps[j] by {
                assert(s[i].position != s[j].position);
            }
        }
        ps.unique_seq_to_set();
        taken.lemma_cardinality_of_set();
        assert(ps.to_set().subset_of(taken.to_set())) by {
            assert forall|p: Point| ps.to_set().contains(p) implies taken.to_set().contains(p) by {
                let i = choose|i: int| 0 <= i < ps.len() && ps[i] == p;
                assert(taken.contains(s[i].position));
            }
        }
        vstd::set_lib::lemma_len_subset(ps.to_set(), taken.to_set());
    }
}

pub proof fn lemma_ring_distinct(field: PlayField)
    ensures
        ring(field).len() == SPAWNER_COUNT,
        forall|i: int, j: int|
            0 <= i < SPAWNER_COUNT && 0 <= j < SPAWNER_COUNT && i != j ==> #[trigger] ring(field)[i]
                != #[trigger] ring(field)[j],
{
    let r = field.half_width + SPAWN_OFFSET;
    let t = field.half_height + SPAWN_OFFSET;
    vstd::arithmetic::div_mod::lemma_fundamental_div_mod(r, 2);
    assert(0 <= r % 2 < 2);
    assert(20 <= r / 2 < r);
    assert(t > 0);
}

/// The spawn points of a play session, each with its aim.
#[derive(Debug)]
pub struct SpawnerRegistry {
    pub spawners: Vec<AsteroidSpawner>,
}

impl SpawnerRegistry {
    pub open spec fn view(&self) -> Seq<AsteroidSpawner> {
        self.spawners@
    }

    /// At most one ring of spawners, no two at one position.
    pub open spec fn wf(&self) -> bool {
        &&& distinct_positions(self@)
        &&& self@.len() <= SPAWNER_COUNT
    }

    /// An empty registry: nothing can be spawned from it until `setup` runs.
    pub fn new() -> (r: SpawnerRegistry)
        ensures
            r@ == Seq::<AsteroidSpawner>::empty(),
            r.wf(),
    {
        SpawnerRegistry { spawners: Vec::new() }
    }

    /// Replaces the spawners with the ring around `field`, spawner `i` aiming at `aims[i]`.
    pub fn setup_with_aims(&mut self, field: PlayField, aims: &Vec<Point>)
        requires
            aims@.len() == SPAWNER_COUNT,
        ensures
            final(self).wf(),
            final(self)@.len() == SPAWNER_COUNT,
            forall|i: int|
                0 <= i < SPAWNER_COUNT ==> (#[trigger] final(self)@[i]).position == ring(field)[i]
                    && final(self)@[i].aim == aims@[i],
    {
        let r: i32 = field.half_width as i32 + SPAWN_OFFSET;
        let t: i32 = field.half_height as i32 + SPAWN_OFFSET;
        let h: i32 = r / 2;
        let (l, b, g): (i32, i32, i32) = (-r, -t, -h);
        let positions: Vec<Point> = vec![
            Point::new(r, t),
            Point::new(r, b),
            Point::new(l, t),
            Point::new(l, b),
            Point::new(l, 0),
            Point::new(r, 0),
            Point::new(g, t),
            Point::new(h, t),
            Point::new(g, b),
            Point::new(h, b),
        ];
        proof {
            lemma_ring_distinct(field);
            assert(positions@ =~= ring(field));
        }
        let mut spawners: Vec<AsteroidSpawner> = Vec::new();
        let mut i: usize = 0;
        while i < SPAWNER_COUNT
            invariant
                i <= SPAWNER_COUNT,
                positions@ == ring(field),
                ring(field).len() == SPAWNER_COUNT,
                aims@.len() == SPAWNER_COUNT,
                spawners@.len() == i,
                forall|k: int|
                    0 <= k < i ==> (#[trigger] spawners@[k]).position == ring(field)[k]
                        && spawners@[k].aim == aims@[k],
            decreases SPAWNER_COUNT - i,
        {
            spawners.push(AsteroidSpawner::new(positions[i], aims[i]));
            i = i + 1;
        }
        self.spawners = spawners;
    }

    /// Replaces the spawners with the ring around `field`, each aiming at a
    /// freshly drawn point of the aim area.
    pub fn setup(&mut self, field: PlayField)
        ensures
            final(self).wf(),
            final(self)@.len() == SPAWNER_COUNT,
            forall|i: int|
                0 <= i < SPAWNER_COUNT ==> (#[trigger] final(self)@[i]).position == ring(field)[i]
                    && in_aim_area(final(self)@[i].aim),
    {
        let mut aims: Vec<Point> = Vec::new();
        let mut i: usize = 0;
        while i < SPAWNER_COUNT
            invariant
                i <= SPAWNER_COUNT,
                aims@.len() == i,
                forall|k: int| 0 <= k < i ==> in_aim_area(#[trigger] aims@[k]),
            decreases SPAWNER_COUNT - i,
        {
            let x = draw_in_range(-AIM_HALF_WIDTH as i64, AIM_HALF_WIDTH as i64) as i32;
            let y = draw_in_range(-AIM_HALF_HEIGHT as i64, AIM_HALF_HEIGHT as i64) as i32;
            aims.push(Point::new(x, y));
            i = i + 1;
        }
        self.setup_with_aims(field, &aims);
    }

    /// The indices of the spawners whose position is not in `taken`, in order.
    pub fn free_spawners(&self, taken: &Vec<Point>) -> (r: Vec<usize>)
        ensures
            r@ == free_upto(self@, taken@, self@.len()),
    {
        let mut r: Vec<usize> = Vec::new();
        let mut i: usize = 0;
        while i < self.spawners.len()
            invariant
                i <= self@.len(),
                r@ == free_upto(self@, taken@, i as nat),
            decreases self@.len() - i,
        {
            let position = self.spawners[i].position;
            let mut is_taken = false;
            let mut j: usize = 0;
            while j < taken.len()
                invariant
                    j <= taken@.len(),
                    is_taken <==> exists|k: int| 0 <= k < j && taken@[k] == position,
                decreases taken@.len() - j,
            {
                if taken[j] == position {
                    is_taken = true;
                }
                j = j + 1;
            }
            if !is_taken {
                r.push(i);
            }
            i = i + 1;
        }
        r
    }
}

} // verus!
