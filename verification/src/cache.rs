//! The bounded domain-verdict cache.
//!
//! A fixed-capacity memoization of block/allow verdicts per queried name,
//! with least-recently-used eviction: entries are kept most recently used
//! first, a hit moves the entry to the front, and an insert at capacity
//! drops the entry at the back. Eviction never changes correctness, only
//! recomputation cost.

use vstd::prelude::*;
use vstd::slice::slice_to_vec;
use crate::blocklist::{blocked_by, BlockedDomainSet};
use crate::domain::bytes_eq;

verus! {

/// Does the cache sequence hold a verdict for `name`?
pub open spec fn has_key(c: Seq<(Seq<u8>, bool)>, name: Seq<u8>) -> bool {
    exists|i: int| 0 <= i < c.len() && c[i].0 == name
}

/// The index of `name` in the cache sequence (unique when keys are distinct).
pub open spec fn key_index(c: Seq<(Seq<u8>, bool)>, name: Seq<u8>) -> int {
    choose|i: int| 0 <= i < c.len() && c[i].0 == name
}

/// The memoized verdict for `name`.
pub open spec fn verdict_of(c: Seq<(Seq<u8>, bool)>, name: Seq<u8>) -> bool {
    c[key_index(c, name)].1
}

/// No two cache slots hold the same name.
pub open spec fn distinct_keys(c: Seq<(Seq<u8>, bool)>) -> bool {
    forall|i: int, j: int| 0 <= i < j < c.len() ==> c[i].0 != c[j].0
}

/// Every memoized verdict agrees with a fresh scan of the blocklist: the
/// cache is purely a memoization layer.
pub open spec fn coherent(c: Seq<(Seq<u8>, bool)>, entries: Seq<Seq<u8>>) -> bool {
    forall|i: int| 0 <= i < c.len() ==> c[i].1 == blocked_by(#[trigger] c[i].0, entries)
}

/// Bounded memoization of block/allow decisions per queried name.
pub struct DomainVerdictCache {
    entries: Vec<(Vec<u8>, bool)>,
    capacity: usize,
}

impl View for DomainVerdictCache {
    type V = Seq<(Seq<u8>, bool)>;

    closed spec fn view(&self) -> Seq<(Seq<u8>, bool)> {
        Seq::new(self.entries@.len(), |i: int| (self.entries@[i].0@, self.entries@[i].1))
    }
}

impl DomainVerdictCache {
    /// The fixed capacity the cache was created with.
    pub closed spec fn spec_capacity(&self) -> usize {
        self.capacity
    }

    /// Well-formed: within capacity and without duplicate names.
    pub open spec fn wf(&self) -> bool {
        &&& self@.len() <= self.spec_capacity()
        &&& distinct_keys(self@)
    }

    /// An empty cache of the given capacity.
    pub fn new(capacity: usize) -> (r: DomainVerdictCache)
        ensures
            r@ =~= Seq::<(Seq<u8>, bool)>::empty(),
            r.spec_capacity() == capacity,
            r.wf(),
    {
        DomainVerdictCache { entries: Vec::new(), capacity }
    }

    /// How many names the cache currently holds.
    pub fn len(&self) -> (r: usize)
        ensures
            r == self@.len(),
    {
        self.entries.len()
    }

    /// The fixed capacity.
    pub fn capacity(&self) -> (r: usize)
        ensures
            r == self.spec_capacity(),
    {
        self.capacity
    }

    /// The slot holding `name`, if any.
    fn find(&self, name: &[u8]) -> (r: Option<usize>)
        ensures
            match r {
                Option::Some(i) => i < self@.len() && self@[i as int].0 == name@,
                Option::None => !has_key(self@, name@),
            },
    {
        let mut i: usize = 0;
        while i < self.entries.len()
            invariant
                i <= self.entries.len(),
                self@.len() == self.entries@.len(),
                forall|j: int| 0 <= j < i ==> self@[j].0 != name@,
            decreases self.entries.len() - i,
        {
            assert(self@[i as int].0 == self.entries@[i as int].0@);
            if bytes_eq(self.entries[i].0.as_slice(), name) {
                return Option::Some(i);
            }
            i += 1;
        }
        Option::None
    }

    /// Look `name` up; a hit moves its entry to the front (most recently
    /// used) and returns the memoized verdict.
    pub fn get(&mut self, name: &[u8]) -> (r: Option<bool>)
        requires
            old(self).wf(),
        ensures
            final(self).wf(),
            final(self).spec_capacity() == old(self).spec_capacity(),
            match r {
                Option::None => {
                    &&& !has_key(old(self)@, name@)
                    &&& final(self)@ == old(self)@
                },
                Option::Some(v) => {
                    &&& has_key(old(self)@, name@)
                    &&& v == verdict_of(old(self)@, name@)
                    &&& final(self)@ =~= seq![old(self)@[key_index(old(self)@, name@)]] + old(self)@.remove(
                        key_index(old(self)@, name@),
                    )
                },
            },
    {
        match self.find(name) {
            Option::Some(i) => {
                proof {
                    let gi = key_index(old(self)@, name@);
                    assert(old(self)@[i as int].0 == name@);
                    assert(0 <= gi < old(self)@.len() && old(self)@[gi].0 == name@);
                    assert(gi == i as int);
                }
                let e = self.entries.remove(i);
                self.entries.insert(0, e);
                let v = self.entries[0].1;
                proof {
                    let old_view = old(self)@;
                    let i = i as int;
                    assert forall|k: int| 0 <= k < self@.len() implies self@[k] == (seq![
                        old_view[i],
                    ] + old_view.remove(i))[k] by {
                        if k == 0 {
                        } else if k <= i {
                            assert(self.entries@[k] == old(self).entries@[k - 1]);
                        } else {
                            assert(self.entries@[k] == old(self).entries@[k]);
                        }
                    }
                    assert(self@ =~= seq![old_view[i]] + old_view.remove(i));
                }
                Option::Some(v)
            },
            Option::None => Option::None,
        }
    }

    /// Memoize a fresh verdict at the front, evicting the least-recently-used
    /// entry when the cache is full. With capacity zero nothing is kept.
    pub fn put(&mut self, name: &[u8], verdict: bool)
        requires
            old(self).wf(),
            !has_key(old(self)@, name@),
        ensures
            final(self).wf(),
            final(self).spec_capacity() == old(self).spec_capacity(),
            old(self).spec_capacity() == 0 ==> final(self)@ == old(self)@,
            old(self)@.len() < old(self).spec_capacity() ==> final(self)@ =~= seq![(name@, verdict)]
                + old(self)@,
            old(self).spec_capacity() > 0 && old(self)@.len() == old(self).spec_capacity()
                ==> final(self)@ =~= seq![(name@, verdict)] + old(self)@.drop_last(),
    {
        if self.capacity == 0 {
            assert(self@ =~= old(self)@);
            return ;
        }
        if self.entries.len() == self.capacity {
            let ghost before = self@;
            let _ = self.entries.pop();
            assert(self@ =~= before.drop_last());
        }
        let key: Vec<u8> = slice_to_vec(name);
        self.entries.insert(0, (key, verdict));
        proof {
            let old_view = old(self)@;
            let kept = if old_view.len() == old(self).spec_capacity() {
                old_view.drop_last()
            } else {
                old_view
            };
            assert forall|k: int| 0 <= k < self@.len() implies self@[k] == (seq![(name@, verdict)]
                + kept)[k] by {
                if k > 0 {
                    assert(self.entries@[k] == old(self).entries@[k - 1]);
                }
            }
            assert(self@ =~= seq![(name@, verdict)] + kept);
        }
    }
}

/// The full blocking decision: on a cache hit return the memoized verdict,
/// on a miss scan the blocklist, memoize the result, and return it. The
/// verdict is always exactly what a fresh scan of the blocklist gives.
pub fn is_blocked(cache: &mut DomainVerdictCache, list: &BlockedDomainSet, name: &[u8]) -> (r: bool)
    requires
        old(cache).wf(),
        coherent(old(cache)@, list@),
    ensures
        final(cache).wf(),
        coherent(final(cache)@, list@),
        final(cache).spec_capacity() == old(cache).spec_capacity(),
        r == blocked_by(name@, list@),
{
    match cache.get(name) {
        Option::Some(v) => {
            proof {
                let gi = key_index(old(cache)@, name@);
                assert(old(cache)@[gi].1 == blocked_by(old(cache)@[gi].0, list@));
                let c = cache@;
                let old_view = old(cache)@;
                assert forall|i: int| 0 <= i < c.len() implies c[i].1 == blocked_by(
                    #[trigger] c[i].0,
                    list@,
                ) by {
                    if i == 0 {
                    } else {
                        let prev = old_view.remove(gi)[i - 1];
                        assert(c[i] == prev);
                    }
                }
            }
            v
        },
        Option::None => {
            let v = list.matches(name);
            let ghost mid = cache@;
            cache.put(name, v);
            proof {
                let c = cache@;
                assert forall|i: int| 0 <= i < c.len() implies c[i].1 == blocked_by(
                    #[trigger] c[i].0,
                    list@,
                ) by {
                    if cache.spec_capacity() == 0 {
                        assert(c[i] == mid[i]);
                    } else if i > 0 {
                        assert(c[i] == mid[i - 1]);
                    }
                }
            }
            v
        },
    }
}

/// Law: eviction is idempotent with respect to correctness. A verdict the
/// cache memoizes for a name is exactly what a fresh scan of the blocklist
/// recomputes, so re-querying a name after it was evicted yields the same
/// verdict it had before eviction.
pub proof fn lemma_eviction_recomputes_same_verdict(
    c: Seq<(Seq<u8>, bool)>,
    entries: Seq<Seq<u8>>,
    name: Seq<u8>,
)
    requires
        coherent(c, entries),
        has_key(c, name),
    ensures
        verdict_of(c, name) == blocked_by(name, entries),
{
    let i = key_index(c, name);
    assert(0 <= i < c.len() && c[i].0 == name);
}

} // verus!
