//! A set of mappings, each an address with a length, kept in ascending order.

use vstd::prelude::*;

verus! {

/// A mapping: its address and its length.
pub type Mapping = (usize, usize);

/// Whether `a` comes before `b`: by address, then by length.
pub open spec fn precedes(a: Mapping, b: Mapping) -> bool {
    a.0 < b.0 || (a.0 == b.0 && a.1 < b.1)
}

/// Whether each mapping comes before those that follow it.
pub open spec fn ordered(items: Seq<Mapping>) -> bool {
    forall|i: int, j: int|
        0 <= i < j < items.len() ==> precedes(#[trigger] items[i], #[trigger] items[j])
}

/// The end of a mapping, cut off at the top of the address space.
pub open spec fn mapping_end(m: Mapping) -> int {
    if m.0 + m.1 <= usize::MAX {
        m.0 + m.1
    } else {
        usize::MAX as int
    }
}

/// Whether the mapping overlaps the addresses from `start` up to `end`.
pub open spec fn meets(m: Mapping, start: int, end: int) -> bool {
    m.0 < end && mapping_end(m) > start
}

/// Whether the mapping overlaps the addresses from `start` up to `end`.
pub fn overlaps(m: Mapping, start: usize, end: usize) -> (met: bool)
    ensures
        met == meets(m, start as int, end as int),
{
    m.0 < end && m.0.saturating_add(m.1) > start
}

/// A set of mappings.
pub struct RangeSet {
    items: Vec<Mapping>,
}

impl View for RangeSet {
    type V = Set<Mapping>;

    closed spec fn view(&self) -> Set<Mapping> {
        self.items@.to_set()
    }
}

impl RangeSet {
    /// The mappings in ascending order.
    pub closed spec fn listed(self) -> Seq<Mapping> {
        self.items@
    }

    /// The list ascends, and the set holds what it lists.
    pub open spec fn wf(self) -> bool {
        ordered(self.listed()) && self@ == self.listed().to_set()
    }

    /// The empty set.
    pub fn new() -> (set: RangeSet)
        ensures
            set.wf(),
            set@ == Set::<Mapping>::empty(),
            set.listed() == Seq::<Mapping>::empty(),
    {
        let set = RangeSet { items: Vec::new() };
        assert(set@ =~= Set::<Mapping>::empty());
        set
    }

    /// How many mappings the set holds.
    pub fn len(&self) -> (len: usize)
        ensures
            len == self.listed().len(),
    {
        self.items.len()
    }

    /// The mapping at a place in the ascending list.
    pub fn get(&self, i: usize) -> (m: Mapping)
        requires
            i < self.listed().len(),
        ensures
            m == self.listed()[i as int],
    {
        self.items[i]
    }

    /// The place of the first mapping that does not come before `m`.
    fn place(&self, m: Mapping) -> (at: usize)
        requires
            self.wf(),
        ensures
            at <= self.listed().len(),
            forall|k: int| 0 <= k < at ==> precedes(#[trigger] self.listed()[k], m),
            forall|k: int| at <= k < self.listed().len() ==> !precedes(
                #[trigger] self.listed()[k],
                m,
            ),
    {
        let mut at: usize = 0;
        while at < self.items.len() && (self.items[at].0 < m.0 || (self.items[at].0 == m.0
            && self.items[at].1 < m.1))
            invariant
                at <= self.items.len(),
                forall|k: int| 0 <= k < at ==> precedes(#[trigger] self.items@[k], m),
            decreases self.items.len() - at,
        {
            at += 1;
        }
        assert forall|k: int| at <= k < self.listed().len() implies !precedes(
            #[trigger] self.listed()[k],
            m,
        ) by {
            if at < k {
                assert(precedes(self.items@[at as int], self.items@[k]));
            }
        }
        at
    }

    /// Whether the set holds the mapping.
    pub fn contains(&self, m: Mapping) -> (held: bool)
        requires
            self.wf(),
        ensures
            held == self@.contains(m),
    {
        let at = self.place(m);
        let held = at < self.items.len() && self.items[at].0 == m.0 && self.items[at].1 == m.1;
        proof {
            if held {
                assert(self.items@[at as int] == m);
            } else if self@.contains(m) {
                let k = choose|k: int| 0 <= k < self.items.len() && self.items@[k] == m;
                assert(k >= at);
                if k > at {
                    assert(precedes(self.items@[at as int], self.items@[k]));
                    assert(!precedes(self.items@[at as int], m));
                }
            }
        }
        held
    }

    /// Adds the mapping to the set. Returns whether it was not there.
    pub fn insert(&mut self, m: Mapping) -> (fresh: bool)
        requires
            old(self).wf(),
        ensures
            final(self).wf(),
            final(self)@ == old(self)@.insert(m),
            fresh == !old(self)@.contains(m),
    {
        if self.contains(m) {
            assert(self@ =~= old(self)@.insert(m));
            return false;
        }
        let at = self.place(m);
        let ghost before = self.items@;
        assert forall|k: int| at <= k < before.len() implies precedes(m, #[trigger] before[k]) by {
            assert(!precedes(before[k], m));
            if before[k] == m {
                assert(before.to_set().contains(m));
            }
        }
        self.items.insert(at, m);
        let ghost after = before.insert(at as int, m);
        proof {
            assert(self.items@ =~= after);
            assert forall|i: int, j: int| 0 <= i < j < after.len() implies precedes(
                #[trigger] after[i],
                #[trigger] after[j],
            ) by {
                let p = if i < at { i } else { i - 1 };
                let q = if j < at { j } else { j - 1 };
                if i == at {
                    assert(after[j] == before[q]);
                } else if j == at {
                    assert(after[i] == before[p]);
                } else {
                    assert(after[i] == before[p] && after[j] == before[q]);
                }
            }
            assert forall|x: Mapping| after.to_set().contains(x) == before.to_set().insert(
                m,
            ).contains(x) by {
                if after.to_set().contains(x) {
                    let k = choose|k: int| 0 <= k < after.len() && after[k] == x;
                    if k < at {
                        assert(before[k] == x);
                    } else if k > at {
                        assert(before[k - 1] == x);
                    }
                }
                if before.to_set().contains(x) {
                    let k = choose|k: int| 0 <= k < before.len() && before[k] == x;
                    if k < at {
                        assert(after[k] == x);
                    } else {
                        assert(after[k + 1] == x);
                    }
                }
                assert(after[at as int] == m);
            }
            assert(self@ =~= old(self)@.insert(m));
        }
        true
    }

    /// Drops every mapping that overlaps the addresses from `start` up to
    /// `end`.
    pub fn drop_overlapping(&mut self, start: usize, end: usize)
        requires
            old(self).wf(),
        ensures
            final(self).wf(),
            final(self)@ == old(self)@.filter(|m: Mapping| !meets(m, start as int, end as int)),
    {
        let ghost before = self.items@;
        let ghost keep = |m: Mapping| !meets(m, start as int, end as int);
        let mut kept: Vec<Mapping> = Vec::new();
        let mut i: usize = 0;
        while i < self.items.len()
            invariant
                i <= self.items.len(),
                self.items@ == before,
                ordered(before),
                ordered(kept@),
                keep == (|m: Mapping| !meets(m, start as int, end as int)),
                forall|k: int, j: int|
                    0 <= k < kept.len() && i <= j < before.len() ==> precedes(
                        #[trigger] kept@[k],
                        #[trigger] before[j],
                    ),
                forall|k: int| 0 <= k < kept.len() ==> before.contains(#[trigger] kept@[k]) && keep(
                    kept@[k],
                ),
                forall|k: int|
                    0 <= k < i && keep(before[k]) ==> kept@.contains(#[trigger] before[k]),
            decreases self.items.len() - i,
        {
            let m = self.items[i];
            let ghost held = kept@;
            assert(before.contains(m)) by {
                assert(before[i as int] == m);
            }
            if !overlaps(m, start, end) {
                kept.push(m);
                proof {
                    assert(kept@[held.len() as int] == m);
                    assert forall|k: int| 0 <= k <= i && keep(before[k]) implies kept@.contains(
                        #[trigger] before[k],
                    ) by {
                        if k < i {
                            let p = choose|p: int| 0 <= p < held.len() && held[p] == before[k];
                            assert(kept@[p] == before[k]);
                        }
                    }
                }
            }
            i += 1;
        }
        self.items = kept;
        proof {
            assert(self.items@.to_set() =~= before.to_set().filter(keep)) by {
                assert forall|x: Mapping| self.items@.to_set().contains(x)
                    == before.to_set().filter(keep).contains(x) by {
                    if before.to_set().filter(keep).contains(x) {
                        let k = choose|k: int| 0 <= k < before.len() && before[k] == x;
                        assert(self.items@.contains(before[k]));
                    }
                    if self.items@.to_set().contains(x) {
                        let k = choose|k: int|
                            0 <= k < self.items@.len() && self.items@[k] == x;
                        assert(before.contains(self.items@[k]));
                    }
                }
            }
        }
    }
}

} // verus!
