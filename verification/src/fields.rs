use vstd::prelude::*;
use crate::text::str_eq;

verus! {

/// A string-to-string field mapping with unique keys. It is kept as a
/// sequence of pairs so that a write flattens it into a deterministic order,
/// while lookups treat it as an unordered map.
pub struct FieldMap {
    pairs: Vec<(String, String)>,
}

/// The character-sequence views of a sequence of owned string pairs.
pub open spec fn pair_views(s: Seq<(String, String)>) -> Seq<(Seq<char>, Seq<char>)> {
    Seq::new(s.len(), |i: int| (s[i].0@, s[i].1@))
}

/// Whether the keys of a sequence of key/value pairs are pairwise distinct.
pub open spec fn keys_unique(s: Seq<(Seq<char>, Seq<char>)>) -> bool {
    forall|i: int, j: int| 0 <= i < j < s.len() ==> s[i].0 != s[j].0
}

impl FieldMap {
    /// The field pairs, in insertion order.
    pub closed spec fn pairs_view(&self) -> Seq<(Seq<char>, Seq<char>)> {
        pair_views(self.pairs@)
    }

    /// Well-formed: no two pairs share a key.
    pub open spec fn wf(&self) -> bool {
        keys_unique(self.pairs_view())
    }

    /// Whether some pair carries the key `k`.
    pub open spec fn contains_key(&self, k: Seq<char>) -> bool {
        exists|i: int| 0 <= i < self.pairs_view().len() && self.pairs_view()[i].0 == k
    }

    /// The position of the pair carrying `k` (unique when well-formed).
    pub open spec fn spec_index_of(&self, k: Seq<char>) -> int {
        choose|i: int| 0 <= i < self.pairs_view().len() && self.pairs_view()[i].0 == k
    }

    /// The value mapped to `k`.
    pub open spec fn value_of(&self, k: Seq<char>) -> Seq<char> {
        self.pairs_view()[self.spec_index_of(k)].1
    }

    /// An empty field mapping.
    pub fn new() -> (r: FieldMap)
        ensures
            r.wf(),
            r.pairs_view() =~= Seq::<(Seq<char>, Seq<char>)>::empty(),
    {
        FieldMap { pairs: Vec::new() }
    }

    /// How many fields the mapping holds.
    pub fn len(&self) -> (r: usize)
        ensures
            r == self.pairs_view().len(),
    {
        self.pairs.len()
    }

    /// The position of the first pair carrying `k`, if any.
    fn index_of_key(&self, k: &str) -> (r: Option<usize>)
        ensures
            (match r {
                Some(i) => 0 <= i < self.pairs_view().len() && self.pairs_view()[i as int].0 == k@,
                None => !self.contains_key(k@),
            }),
    {
        let mut i: usize = 0;
        while i < self.pairs.len()
            invariant
                i <= self.pairs@.len(),
                forall|j: int| 0 <= j < i ==> self.pairs_view()[j].0 != k@,
            decreases self.pairs@.len() - i,
        {
            if str_eq(self.pairs[i].0.as_str(), k) {
                return Some(i);
            }
            i += 1;
        }
        None
    }

    /// Installs `v` under `k`, replacing in place any pair already carrying `k`.
    pub fn insert(&mut self, k: String, v: String)
        requires
            old(self).wf(),
        ensures
            final(self).wf(),
            final(self).contains_key(k@),
            final(self).value_of(k@) == v@,
            old(self).contains_key(k@) ==> final(self).pairs_view() =~= old(self).pairs_view().update(
                old(self).spec_index_of(k@),
                (k@, v@),
            ),
            !old(self).contains_key(k@) ==> final(self).pairs_view() =~= old(self).pairs_view().push(
                (k@, v@),
            ),
    {
        let ghost pre = *self;
        match self.index_of_key(k.as_str()) {
            Some(i) => {
                self.pairs.set(i, (k, v));
                proof {
                    assert(self.pairs_view() =~= pre.pairs_view().update(i as int, (k@, v@)));
                    assert(pre.spec_index_of(k@) == i as int) by {
                        let w = pre.spec_index_of(k@);
                        assert(0 <= w < pre.pairs_view().len() && pre.pairs_view()[w].0 == k@);
                    }
                    assert(self.contains_key(k@) && self.spec_index_of(k@) == i as int) by {
                        assert(self.pairs_view()[i as int].0 == k@);
                    }
                }
            },
            None => {
                self.pairs.push((k, v));
                proof {
                    assert(self.pairs_view() =~= pre.pairs_view().push((k@, v@)));
                    let n = pre.pairs_view().len() as int;
                    assert(self.contains_key(k@) && self.spec_index_of(k@) == n) by {
                        assert(self.pairs_view()[n].0 == k@);
                    }
                }
            },
        }
    }

    /// Looks the key up; `Some` exactly when a pair carries it.
    pub fn get(&self, k: &str) -> (r: Option<&String>)
        requires
            self.wf(),
        ensures
            r is Some <==> self.contains_key(k@),
            (match r {
                Some(v) => v@ == self.value_of(k@),
                None => true,
            }),
    {
        match self.index_of_key(k) {
            Some(i) => {
                proof {
                    let w = self.spec_index_of(k@);
                    assert(0 <= w < self.pairs_view().len() && self.pairs_view()[w].0 == k@);
                    assert(w == i as int);
                }
                Some(&self.pairs[i].1)
            },
            None => None,
        }
    }

    /// Hands the pairs out, consuming the mapping.
    fn into_pairs(self) -> (r: Vec<(String, String)>)
        ensures
            pair_views(r@) == self.pairs_view(),
    {
        self.pairs
    }
}

/// Flattens a field mapping into its ordered sequence of (field, value)
/// pairs, as a store append expects them.
pub fn map_to_tuples(map: FieldMap) -> (r: Vec<(String, String)>)
    ensures
        pair_views(r@) == map.pairs_view(),
{
    map.into_pairs()
}

} // verus!
