use crate::coord::Coord;
use vstd::prelude::*;

verus! {

/// The finite map described by an association sequence; a later entry for the
/// same key wins over an earlier one.
pub open spec fn assoc_map<V>(s: Seq<(Coord, V)>) -> Map<Coord, V>
    decreases s.len(),
{
    if s.len() == 0 {
        Map::empty()
    } else {
        assoc_map(s.drop_last()).insert(s.last().0, s.last().1)
    }
}

/// No two entries of the sequence share a key.
pub open spec fn distinct_keys<V>(s: Seq<(Coord, V)>) -> bool {
    forall|i: int, j: int| 0 <= i < j < s.len() ==> s[i].0 != s[j].0
}

/// A key occurs somewhere in the sequence.
pub open spec fn has_key<V>(s: Seq<(Coord, V)>, c: Coord) -> bool {
    exists|i: int| 0 <= i < s.len() && s[i].0 == c
}

proof fn lemma_assoc_map_dom<V>(s: Seq<(Coord, V)>, c: Coord)
    ensures
        assoc_map(s).dom().contains(c) <==> has_key(s, c),
    decreases s.len(),
{
    if s.len() == 0 {
    } else {
        let dl = s.drop_last();
        lemma_assoc_map_dom(dl, c);
        if s.last().0 == c {
            assert(s[s.len() - 1].0 == c);
        } else {
            if has_key(s, c) {
                let i = choose|i: int| 0 <= i < s.len() && s[i].0 == c;
                assert(i < s.len() - 1);
                assert(dl[i].0 == c);
            }
            if has_key(dl, c) {
                let i = choose|i: int| 0 <= i < dl.len() && dl[i].0 == c;
                assert(s[i].0 == c);
            }
        }
    }
}

proof fn lemma_distinct_drop_last<V>(s: Seq<(Coord, V)>)
    requires
        distinct_keys(s),
        s.len() > 0,
    ensures
        distinct_keys(s.drop_last()),
{
    let dl = s.drop_last();
    assert forall|i: int, j: int| 0 <= i < j < dl.len() implies dl[i].0 != dl[j].0 by {
        assert(s[i].0 != s[j].0);
    }
}

proof fn lemma_assoc_map_index<V>(s: Seq<(Coord, V)>, i: int)
    requires
        distinct_keys(s),
        0 <= i < s.len(),
    ensures
        assoc_map(s).dom().contains(s[i].0),
        assoc_map(s)[s[i].0] == s[i].1,
    decreases s.len(),
{
    if i == s.len() - 1 {
    } else {
        let dl = s.drop_last();
        lemma_distinct_drop_last(s);
        assert(dl[i] == s[i]);
        lemma_assoc_map_index(dl, i);
        assert(s.last().0 != s[i].0);
    }
}

proof fn lemma_assoc_map_len<V>(s: Seq<(Coord, V)>)
    requires
        distinct_keys(s),
    ensures
        assoc_map(s).dom().finite(),
        assoc_map(s).dom().len() == s.len(),
    decreases s.len(),
{
    if s.len() == 0 {
        assert(assoc_map(s).dom() =~= Set::<Coord>::empty());
    } else {
        let dl = s.drop_last();
        lemma_distinct_drop_last(s);
        lemma_assoc_map_len(dl);
        lemma_assoc_map_dom(dl, s.last().0);
        assert(!has_key(dl, s.last().0)) by {
            if has_key(dl, s.last().0) {
                let i = choose|i: int| 0 <= i < dl.len() && dl[i].0 == s.last().0;
                assert(s[i].0 == s[s.len() - 1].0);
            }
        }
        assert(assoc_map(s).dom() =~= assoc_map(dl).dom().insert(s.last().0));
    }
}

proof fn lemma_assoc_map_update<V>(s: Seq<(Coord, V)>, i: int, v: V)
    requires
        distinct_keys(s),
        0 <= i < s.len(),
    ensures
        assoc_map(s.update(i, (s[i].0, v))) == assoc_map(s).insert(s[i].0, v),
    decreases s.len(),
{
    let t = s.update(i, (s[i].0, v));
    if i == s.len() - 1 {
        assert(t.drop_last() =~= s.drop_last());
        assert(t.last() == (s[i].0, v));
        assert(assoc_map(s.drop_last()).insert(s[i].0, s[i].1).insert(s[i].0, v) =~= assoc_map(
            s.drop_last(),
        ).insert(s[i].0, v));
    } else {
        let dl = s.drop_last();
        lemma_distinct_drop_last(s);
        assert(dl[i] == s[i]);
        lemma_assoc_map_update(dl, i, v);
        assert(t.drop_last() =~= dl.update(i, (s[i].0, v)));
        assert(t.last() == s.last());
        assert(s.last().0 != s[i].0);
        assert(assoc_map(dl).insert(s[i].0, v).insert(s.last().0, s.last().1) =~= assoc_map(
            dl,
        ).insert(s.last().0, s.last().1).insert(s[i].0, v));
    }
}

pub proof fn lemma_assoc_map_push<V>(s: Seq<(Coord, V)>, c: Coord, v: V)
    ensures
        assoc_map(s.push((c, v))) == assoc_map(s).insert(c, v),
{
    assert(s.push((c, v)).drop_last() =~= s);
    assert(s.push((c, v)).last() == (c, v));
}

proof fn lemma_assoc_map_remove_at<V>(s: Seq<(Coord, V)>, i: int)
    requires
        distinct_keys(s),
        0 <= i < s.len(),
    ensures
        assoc_map(s.remove(i)) == assoc_map(s).remove(s[i].0),
    decreases s.len(),
{
    let t = s.remove(i);
    let dl = s.drop_last();
    lemma_distinct_drop_last(s);
    if i == s.len() - 1 {
        assert(t =~= dl);
        lemma_assoc_map_dom(dl, s[i].0);
        assert(!has_key(dl, s[i].0)) by {
            if has_key(dl, s[i].0) {
                let j = choose|j: int| 0 <= j < dl.len() && dl[j].0 == s[i].0;
                assert(s[j].0 == s[i].0);
            }
        }
        assert(assoc_map(dl).insert(s[i].0, s[i].1).remove(s[i].0) =~= assoc_map(dl));
    } else {
        assert(dl[i] == s[i]);
        lemma_assoc_map_remove_at(dl, i);
        assert(t.drop_last() =~= dl.remove(i));
        assert(t.last() == s.last());
        assert(s.last().0 != s[i].0);
        assert(assoc_map(dl).remove(s[i].0).insert(s.last().0, s.last().1) =~= assoc_map(
            dl,
        ).insert(s.last().0, s.last().1).remove(s[i].0));
    }
}

/// Sparse storage for one layer of the grid: cells mapped to values, with
/// pairwise distinct keys. Its mathematical view is a finite `Map`.
#[derive(Debug)]
pub struct GridMap<V> {
    entries: Vec<(Coord, V)>,
}

impl<V> View for GridMap<V> {
    type V = Map<Coord, V>;

    closed spec fn view(&self) -> Map<Coord, V> {
        assoc_map(self.entries@)
    }
}

impl<V: Copy> GridMap<V> {
    /// The association sequence behind the map, in storage order.
    pub closed spec fn kv_seq(self) -> Seq<(Coord, V)> {
        self.entries@
    }

    /// Well-formedness: no two entries share a key.
    pub closed spec fn wf(self) -> bool {
        distinct_keys(self.entries@)
    }

    /// The view is the association map of the entry sequence.
    pub proof fn lemma_view_is_assoc(self)
        ensures
            self@ == assoc_map(self.kv_seq()),
    {
    }

    /// Every stored entry is a pair of the view.
    pub proof fn lemma_entry_in_view(self, i: int)
        requires
            self.wf(),
            0 <= i < self.kv_seq().len(),
        ensures
            self@.dom().contains(self.kv_seq()[i].0),
            self@[self.kv_seq()[i].0] == self.kv_seq()[i].1,
    {
        lemma_assoc_map_index(self.entries@, i);
    }

    pub fn new() -> (m: GridMap<V>)
        ensures
            m.wf(),
            m@ == Map::<Coord, V>::empty(),
            m.kv_seq() == Seq::<(Coord, V)>::empty(),
    {
        GridMap { entries: Vec::new() }
    }

    /// The number of stored cells.
    pub fn len(&self) -> (n: usize)
        ensures
            n == self.kv_seq().len(),
            self.wf() ==> n == self@.dom().len(),
    {
        proof {
            if self.wf() {
                lemma_assoc_map_len(self.entries@);
            }
        }
        self.entries.len()
    }

    /// The entry stored at one index, for walking the whole layer.
    pub fn entry_at(&self, i: usize) -> (e: (Coord, V))
        requires
            i < self.kv_seq().len(),
        ensures
            e == self.kv_seq()[i as int],
    {
        self.entries[i]
    }

    /// The value stored at a cell, if any.
    pub fn get(&self, c: Coord) -> (r: Option<V>)
        requires
            self.wf(),
        ensures
            r == (if self@.dom().contains(c) {
                Some(self@[c])
            } else {
                None::<V>
            }),
    {
        let n = self.entries.len();
        let mut i: usize = 0;
        while i < n
            invariant
                n == self.entries@.len(),
                i <= n,
                distinct_keys(self.entries@),
                forall|j: int| 0 <= j < i ==> self.entries@[j].0 != c,
            decreases n - i,
        {
            let e = self.entries[i];
            if e.0 == c {
                proof {
                    lemma_assoc_map_index(self.entries@, i as int);
                }
                return Some(e.1);
            }
            i = i + 1;
        }
        proof {
            lemma_assoc_map_dom(self.entries@, c);
        }
        None
    }

    /// Store a value at a cell, overwriting what was there.
    pub fn insert(&mut self, c: Coord, v: V)
        requires
            old(self).wf(),
        ensures
            final(self).wf(),
            final(self)@ == old(self)@.insert(c, v),
    {
        let n = self.entries.len();
        let mut i: usize = 0;
        while i < n
            invariant
                n == self.entries@.len(),
                i <= n,
                distinct_keys(self.entries@),
                self.entries@ == old(self).entries@,
                forall|j: int| 0 <= j < i ==> self.entries@[j].0 != c,
            decreases n - i,
        {
            let e = self.entries[i];
            if e.0 == c {
                proof {
                    lemma_assoc_map_update(self.entries@, i as int, v);
                }
                self.entries.set(i, (c, v));
                proof {
                    assert forall|p: int, q: int|
                        0 <= p < q < self.entries@.len() implies self.entries@[p].0
                        != self.entries@[q].0 by {
                        assert(old(self).entries@[p].0 != old(self).entries@[q].0);
                    }
                }
                return ;
            }
            i = i + 1;
        }
        proof {
            lemma_assoc_map_push(self.entries@, c, v);
        }
        self.entries.push((c, v));
        proof {
            assert forall|p: int, q: int|
                0 <= p < q < self.entries@.len() implies self.entries@[p].0
                != self.entries@[q].0 by {
                if q < self.entries@.len() - 1 {
                    assert(old(self).entries@[p].0 != old(self).entries@[q].0);
                } else {
                    assert(old(self).entries@[p].0 != c);
                }
            }
        }
    }

    /// Drop the entry at a cell, if any.
    pub fn remove(&mut self, c: Coord)
        requires
            old(self).wf(),
        ensures
            final(self).wf(),
            final(self)@ == old(self)@.remove(c),
    {
        let n = self.entries.len();
        let mut i: usize = 0;
        while i < n
            invariant
                n == self.entries@.len(),
                i <= n,
                distinct_keys(self.entries@),
                self.entries@ == old(self).entries@,
                forall|j: int| 0 <= j < i ==> self.entries@[j].0 != c,
            decreases n - i,
        {
            let e = self.entries[i];
            if e.0 == c {
                proof {
                    lemma_assoc_map_remove_at(self.entries@, i as int);
                }
                self.entries.remove(i);
                proof {
                    assert forall|p: int, q: int|
                        0 <= p < q < self.entries@.len() implies self.entries@[p].0
                        != self.entries@[q].0 by {
                        let p0: int = if p < i { p } else { p + 1 };
                        let q0: int = if q < i { q } else { q + 1 };
                        assert(self.entries@[p] == old(self).entries@[p0]);
                        assert(self.entries@[q] == old(self).entries@[q0]);
                        assert(old(self).entries@[p0].0 != old(self).entries@[q0].0);
                    }
                }
                return ;
            }
            i = i + 1;
        }
        proof {
            lemma_assoc_map_dom(self.entries@, c);
            assert(self@.remove(c) =~= self@);
        }
    }
}

impl<V: Copy> Clone for GridMap<V> {
    /// An entry-for-entry copy: same sequence, same view, same well-formedness.
    fn clone(&self) -> (r: Self)
        ensures
            r.kv_seq() == self.kv_seq(),
            r@ == self@,
            self.wf() ==> r.wf(),
    {
        let n = self.entries.len();
        let mut entries: Vec<(Coord, V)> = Vec::new();
        let mut i: usize = 0;
        while i < n
            invariant
                n == self.entries@.len(),
                i <= n,
                entries@ == self.entries@.take(i as int),
            decreases n - i,
        {
            entries.push(self.entries[i]);
            proof {
                assert(entries@ =~= self.entries@.take(i + 1));
            }
            i = i + 1;
        }
        proof {
            assert(entries@ =~= self.entries@);
        }
        GridMap { entries }
    }
}

} // verus!
