use std::collections::HashMap;
use vstd::arithmetic::div_mod::{lemma_fundamental_div_mod, lemma_fundamental_div_mod_converse};
use vstd::prelude::*;

verus! {

broadcast use vstd::std_specs::hash::group_hash_axioms;

/// The id after `v`: one more, wrapping from `usize::MAX` to zero.
pub open spec fn id_after(v: usize) -> usize {
    if v == usize::MAX {
        0
    } else {
        (v + 1) as usize
    }
}

/// The id handed out `k` allocations after the one that returned `v`.
pub open spec fn id_offset(v: usize, k: nat) -> usize {
    ((v + k) % (usize::MAX + 1)) as usize
}

/// Allocating once more after `k` allocations from `v` gives the id after
/// the `k`-th one.
pub proof fn lemma_id_offset_step(v: usize, k: nat)
    ensures
        id_offset(v, k + 1) == id_after(id_offset(v, k)),
        id_offset(v, 0) == v,
{
    let m: int = usize::MAX + 1;
    let x: int = v + k;
    lemma_fundamental_div_mod(x, m);
    let q = x / m;
    let r = x % m;
    assert(0 <= r < m);
    if r + 1 < m {
        lemma_fundamental_div_mod_converse(x + 1, m, q, r + 1);
    } else {
        assert(x + 1 == (q + 1) * m + 0) by (nonlinear_arith)
            requires
                x == m * q + r,
                r + 1 == m,
        ;
        lemma_fundamental_div_mod_converse(x + 1, m, q + 1, 0);
    }
    lemma_fundamental_div_mod_converse(v as int, m, 0, v as int);
}

/// Allocator of lineage ids: hands out its counter and moves it on by one,
/// wrapping at the numeric limit.
#[derive(Debug)]
pub struct AsteroidID(pub usize);

impl AsteroidID {
    /// A fresh allocator whose first id is zero.
    pub fn new() -> (r: AsteroidID)
        ensures
            r.0 == 0,
    {
        AsteroidID(0)
    }

    /// Returns the current id and advances the counter with wraparound.
    pub fn get(&mut self) -> (r: usize)
        ensures
            r == old(self).0,
            final(self).0 == id_after(old(self).0),
            final(self).0 == id_offset(old(self).0, 1),
    {
        let value = self.0;
        proof {
            lemma_id_offset_step(value, 0);
        }
        self.0 = self.0.wrapping_add(1);
        value
    }
}

/// The number of fragments one split produces, and so the number of
/// destroyed fragments that clears a lineage.
pub const FRAGMENTS_PER_SPLIT: u16 = 3;

/// The tally after one more fragment of `lineage` is destroyed: the count
/// goes up by one, and the entry is dropped once it reaches the split size.
pub open spec fn tally(m: Map<usize, u16>, lineage: usize) -> Map<usize, u16> {
    let c = if m.contains_key(lineage) { m[lineage] as int } else { 0 };
    if c + 1 >= FRAGMENTS_PER_SPLIT {
        m.remove(lineage)
    } else {
        m.insert(lineage, (c + 1) as u16)
    }
}

/// Whether destroying one more fragment of `lineage` clears it.
pub open spec fn clears(m: Map<usize, u16>, lineage: usize) -> bool {
    let c = if m.contains_key(lineage) { m[lineage] as int } else { 0 };
    c + 1 >= FRAGMENTS_PER_SPLIT
}

/// Destroyed-fragment counts, keyed by lineage id. A lineage has an entry only
/// while some of its fragments are destroyed and some are still out.
#[derive(Debug)]
pub struct SmallAsteroidMap(pub HashMap<usize, u16>);

impl SmallAsteroidMap {
    pub open spec fn view(&self) -> Map<usize, u16> {
        self.0@
    }

    /// Every count stays under the split size.
    pub open spec fn wf(&self) -> bool {
        forall|k: usize| #[trigger] self@.contains_key(k) ==> self@[k] < FRAGMENTS_PER_SPLIT
    }

    pub fn new() -> (r: SmallAsteroidMap)
        ensures
            r@ == Map::<usize, u16>::empty(),
            r.wf(),
    {
        SmallAsteroidMap(HashMap::new())
    }

    /// Forgets every lineage, as at the start of a play session.
    pub fn clear(&mut self)
        ensures
            final(self)@ == Map::<usize, u16>::empty(),
            final(self).wf(),
    {
        self.0 = HashMap::new();
    }

    /// The count for `lineage`, zero where it has no entry.
    pub fn count(&self, lineage: usize) -> (r: u16)
        ensures
            r == (if self@.contains_key(lineage) { self@[lineage] } else { 0 }),
    {
        match self.0.get(&lineage) {
            Some(c) => *c,
            None => 0,
        }
    }

    /// Counts one destroyed fragment of `lineage`; returns whether that cleared
    /// the lineage, in which case its entry is gone.
    pub fn record(&mut self, lineage: usize) -> (cleared: bool)
        requires
            old(self).wf(),
        ensures
            final(self).wf(),
            final(self)@ == tally(old(self)@, lineage),
            cleared == clears(old(self)@, lineage),
    {
        let c = self.count(lineage);
        let next: u16 = c + 1;
        if next >= FRAGMENTS_PER_SPLIT {
            self.0.remove(&lineage);
            true
        } else {
            self.0.insert(lineage, next);
            false
        }
    }
}

} // verus!
