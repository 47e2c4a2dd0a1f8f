//! The per-directory navigation history: for every absolute path the last
//! view the user had of that directory. Saved on every render pass of the
//! active path, read back when a directory is revisited; grows for the
//! process lifetime, with no eviction.

use vstd::prelude::*;
use vstd::pervasive::VecAdditionalExecFns;
use crate::view_state::ViewState;

verus! {

/// What a lookup yields from a history in state `m`: the saved view of
/// `p`, or nothing when `p` was never the active path.
pub open spec fn lookup_of(m: Map<Seq<char>, ViewState>, p: Seq<char>) -> Option<ViewState> {
    if m.contains_key(p) {
        Some(m[p])
    } else {
        None
    }
}

/// Mapping from absolute path to the last view of that directory. Exact
/// matches only: no prefix or fuzzy lookup.
pub struct NavigationHistory {
    keys: Vec<String>,
    vals: Vec<ViewState>,
}

impl NavigationHistory {
    /// One value per key, and no key twice.
    pub closed spec fn wf(self) -> bool {
        &&& self.keys@.len() == self.vals@.len()
        &&& forall|i: int, j: int|
            0 <= i < j < self.keys@.len() ==> (#[trigger] self.keys@[i])@ != (#[trigger] self.keys@[j])@
    }

    /// The position of key `p`, where the history holds it.
    spec fn key_index(self, p: Seq<char>) -> int {
        choose|i: int| 0 <= i < self.keys@.len() && (#[trigger] self.keys@[i])@ == p
    }
}

impl View for NavigationHistory {
    type V = Map<Seq<char>, ViewState>;

    closed spec fn view(&self) -> Map<Seq<char>, ViewState> {
        Map::new(
            |p: Seq<char>| exists|i: int| 0 <= i < self.keys@.len() && (#[trigger] self.keys@[i])@ == p,
            |p: Seq<char>| self.vals@[self.key_index(p)],
        )
    }
}

impl NavigationHistory {
    /// An empty history: no directory has been visited yet.
    pub fn new() -> (r: NavigationHistory)
        ensures
            r@ == Map::<Seq<char>, ViewState>::empty(),
            r.wf(),
    {
        let r = NavigationHistory { keys: Vec::new(), vals: Vec::new() };
        proof {
            assert(r@ =~= Map::<Seq<char>, ViewState>::empty());
        }
        r
    }

    /// Exact-match lookup of the saved view for `p`.
    pub fn lookup(&self, p: &String) -> (r: Option<ViewState>)
        requires
            self.wf(),
        ensures
            r == lookup_of(self@, p@),
    {
        let n = self.keys.len();
        let mut i: usize = 0;
        while i < n
            invariant
                0 <= i <= n,
                n == self.keys@.len(),
                self.wf(),
                forall|j: int| 0 <= j < i ==> (#[trigger] self.keys@[j])@ != p@,
            decreases n - i,
        {
            if self.keys[i].eq(p) {
                proof {
                    assert(self@.contains_key(p@));
                    let k = self.key_index(p@);
                    assert(0 <= k < self.keys@.len() && self.keys@[k]@ == p@);
                    if k != i as int {
                        assert(self.keys@[k]@ != self.keys@[i as int]@);
                    }
                    assert(self@[p@] == self.vals@[i as int]);
                }
                return Some(self.vals[i]);
            }
            i = i + 1;
        }
        proof {
            assert(!self@.contains_key(p@));
        }
        None
    }

    /// Unconditional overwrite: after the call the history maps `p` to
    /// `v`, and every other path to what it mapped before.
    pub fn save(&mut self, p: String, v: ViewState)
        requires
            old(self).wf(),
        ensures
            final(self).wf(),
            final(self)@ == old(self)@.insert(p@, v),
    {
        let n = self.keys.len();
        let mut i: usize = 0;
        while i < n
            invariant
                0 <= i <= n,
                n == self.keys@.len(),
                self.wf(),
                *self == *old(self),
                forall|j: int| 0 <= j < i ==> (#[trigger] self.keys@[j])@ != p@,
            decreases n - i,
        {
            if self.keys[i].eq(&p) {
                self.vals.set(i, v);
                proof {
                    lemma_key_index_unique(*old(self), *self, p@, i as int);
                    assert forall|q: Seq<char>|
                        #[trigger] self@.contains_key(q) || old(self)@.insert(p@, v).contains_key(q)
                    implies self@.contains_key(q) && old(self)@.insert(p@, v).contains_key(q)
                        && self@[q] == old(self)@.insert(p@, v)[q] by {
                        if q == p@ {
                            assert(self@[q] == self.vals@[self.key_index(q)]);
                            assert(self.key_index(q) == i as int);
                        } else {
                            let k = self.key_index(q);
                            assert(self@.contains_key(q) == old(self)@.contains_key(q));
                            if self@.contains_key(q) {
                                assert(0 <= k < self.keys@.len() && self.keys@[k]@ == q);
                                assert(k != i as int);
                                assert(old(self).key_index(q) == k);
                            }
                        }
                    }
                    assert(self@ =~= old(self)@.insert(p@, v));
                }
                return ;
            }
            i = i + 1;
        }
        self.keys.push(p);
        self.vals.push(v);
        proof {
            assert(forall|j: int|
                0 <= j < n ==> (#[trigger] self.keys@[j]) == old(self).keys@[j]);
            assert(self.keys@[n as int]@ == p@);
            assert forall|q: Seq<char>|
                #[trigger] self@.contains_key(q) || old(self)@.insert(p@, v).contains_key(q)
            implies self@.contains_key(q) && old(self)@.insert(p@, v).contains_key(q)
                && self@[q] == old(self)@.insert(p@, v)[q] by {
                if q == p@ {
                    assert(self@.contains_key(q));
                    let k = self.key_index(q);
                    assert(0 <= k < self.keys@.len() && self.keys@[k]@ == q);
                    if k != n as int {
                        assert((self.keys@[k])@ != (self.keys@[n as int])@);
                    }
                    assert(self@[q] == self.vals@[n as int]);
                } else {
                    if self@.contains_key(q) {
                        let k = self.key_index(q);
                        assert(0 <= k < self.keys@.len() && self.keys@[k]@ == q);
                        assert(k != n as int);
                        assert(old(self).keys@[k]@ == q);
                        assert(old(self)@.contains_key(q));
                        assert(old(self).key_index(q) == k);
                        assert(self@[q] == old(self)@[q]);
                    } else {
                        if old(self)@.contains_key(q) {
                            let k = old(self).key_index(q);
                            assert(0 <= k < old(self).keys@.len() && old(self).keys@[k]@ == q);
                            assert(self.keys@[k]@ == q);
                            assert(self@.contains_key(q));
                        }
                    }
                }
            }
            assert(self@ =~= old(self)@.insert(p@, v));
        }
    }
}

/// Overwriting a value in place does not move any key, so the chosen
/// position of every key is unchanged, and the overwritten key sits where
/// the match was found.
proof fn lemma_key_index_unique(
    before: NavigationHistory,
    after: NavigationHistory,
    p: Seq<char>,
    i: int,
)
    requires
        before.wf(),
        after.wf(),
        after.keys@ == before.keys@,
        0 <= i < before.keys@.len(),
        before.keys@[i]@ == p,
    ensures
        after.key_index(p) == i,
        before.key_index(p) == i,
{
    let k = after.key_index(p);
    assert(0 <= k < after.keys@.len() && after.keys@[k]@ == p);
    if k != i {
        assert(after.keys@[k]@ != after.keys@[i]@);
    }
    let k2 = before.key_index(p);
    assert(0 <= k2 < before.keys@.len() && before.keys@[k2]@ == p);
    if k2 != i {
        assert(before.keys@[k2]@ != before.keys@[i]@);
    }
}

/// History round-trip: saving a view for a path and looking that path up
/// yields exactly the saved view, whatever the history held before.
pub proof fn lemma_history_round_trip(m: Map<Seq<char>, ViewState>, p: Seq<char>, v: ViewState)
    ensures
        lookup_of(m.insert(p, v), p) == Some(v),
{
}

} // verus!
