//! The composed process environment: an ordered mapping from variable name
//! to value with unique keys, where a later insertion overrides an earlier
//! one. Contracts speak of the mathematical `Map` the entries denote.

use vstd::prelude::*;

verus! {

/// The map denoted by an association list, later entries overriding earlier
/// ones on the same key.
pub open spec fn assoc_map(s: Seq<(Seq<char>, Seq<char>)>) -> Map<Seq<char>, Seq<char>>
    decreases s.len(),
{
    if s.len() == 0 {
        Map::empty()
    } else {
        assoc_map(s.drop_last()).insert(s.last().0, s.last().1)
    }
}

/// No two entries share a key.
pub open spec fn unique_keys(s: Seq<(Seq<char>, Seq<char>)>) -> bool {
    forall|i: int, j: int| 0 <= i < j < s.len() ==> (#[trigger] s[i]).0 != (#[trigger] s[j]).0
}

/// Appending an entry denotes inserting it into the map.
proof fn lemma_assoc_map_push(s: Seq<(Seq<char>, Seq<char>)>, p: (Seq<char>, Seq<char>))
    ensures
        assoc_map(s.push(p)) == assoc_map(s).insert(p.0, p.1),
{
    assert(s.push(p).drop_last() =~= s);
    assert(s.push(p).last() == p);
}

/// A key held by no entry is not in the denoted map's domain.
proof fn lemma_assoc_map_absent(s: Seq<(Seq<char>, Seq<char>)>, k: Seq<char>)
    requires
        forall|i: int| 0 <= i < s.len() ==> (#[trigger] s[i]).0 != k,
    ensures
        !assoc_map(s).dom().contains(k),
    decreases s.len(),
{
    if s.len() > 0 {
        assert(s.last() == s[s.len() - 1]);
        lemma_assoc_map_absent(s.drop_last(), k);
    }
}

/// A key held by some entry is in the denoted map's domain, and, when keys
/// are unique, maps to that entry's value.
proof fn lemma_assoc_map_present(s: Seq<(Seq<char>, Seq<char>)>, j: int)
    requires
        unique_keys(s),
        0 <= j < s.len(),
    ensures
        assoc_map(s).dom().contains(s[j].0),
        assoc_map(s)[s[j].0] == s[j].1,
    decreases s.len(),
{
    if j == s.len() - 1 {
        assert(s.last() == s[j]);
    } else {
        assert(s.last() == s[s.len() - 1]);
        assert(s[s.len() - 1].0 != s[j].0);
        lemma_assoc_map_present(s.drop_last(), j);
        assert(s.drop_last()[j] == s[j]);
    }
}

/// Removing the one entry that holds a key removes that key from the
/// denoted map.
proof fn lemma_assoc_map_remove(s: Seq<(Seq<char>, Seq<char>)>, i: int)
    requires
        unique_keys(s),
        0 <= i < s.len(),
    ensures
        assoc_map(s.remove(i)) =~= assoc_map(s).remove(s[i].0),
    decreases s.len(),
{
    let k = s[i].0;
    if i == s.len() - 1 {
        assert(s.remove(i) =~= s.drop_last());
        assert(s.last() == s[i]);
        assert(forall|j: int| 0 <= j < s.drop_last().len() ==> (#[trigger] s.drop_last()[j]).0
            != k);
        lemma_assoc_map_absent(s.drop_last(), k);
    } else {
        let t = s.drop_last();
        let last = s.last();
        assert(last == s[s.len() - 1]);
        assert(last.0 != k);
        assert(s.remove(i).drop_last() =~= t.remove(i));
        assert(s.remove(i).last() == last);
        assert(s.remove(i).len() > 0);
        lemma_assoc_map_remove(t, i);
        assert(t[i] == s[i]);
        assert(assoc_map(s.remove(i)) == assoc_map(t.remove(i)).insert(last.0, last.1));
    }
}

/// The map after inserting a sequence of pairs in order, each overriding any
/// earlier binding of its key.
pub open spec fn insert_all_spec(
    m: Map<Seq<char>, Seq<char>>,
    ps: Seq<(Seq<char>, Seq<char>)>,
) -> Map<Seq<char>, Seq<char>>
    decreases ps.len(),
{
    if ps.len() == 0 {
        m
    } else {
        insert_all_spec(m, ps.drop_last()).insert(ps.last().0, ps.last().1)
    }
}

/// The entries of a vector of pairs of strings, as sequences of characters.
pub open spec fn pair_views(ps: Seq<(String, String)>) -> Seq<(Seq<char>, Seq<char>)> {
    Seq::new(ps.len(), |i: int| (ps[i].0@, ps[i].1@))
}

/// An ordered-merge set of environment variables: keys are unique, and a
/// later insertion overrides an earlier one.
pub struct EnvVarSet {
    pairs: Vec<(String, String)>,
}

impl EnvVarSet {
    /// The entries in insertion order, as sequences of characters.
    pub closed spec fn entries(self) -> Seq<(Seq<char>, Seq<char>)> {
        Seq::new(self.pairs@.len(), |i: int| (self.pairs@[i].0@, self.pairs@[i].1@))
    }

    /// Keys are unique.
    pub open spec fn wf(self) -> bool {
        unique_keys(self.entries())
    }

    /// The mapping from variable name to value that the entries denote.
    pub open spec fn map_view(self) -> Map<Seq<char>, Seq<char>> {
        assoc_map(self.entries())
    }

    /// An empty set.
    pub fn new() -> (r: Self)
        ensures
            r.wf(),
            r.map_view() == Map::<Seq<char>, Seq<char>>::empty(),
            r.entries().len() == 0,
    {
        let r = EnvVarSet { pairs: Vec::new() };
        proof {
            assert(r.entries() =~= Seq::<(Seq<char>, Seq<char>)>::empty());
        }
        r
    }

    /// The number of variables held.
    pub fn len(&self) -> (r: usize)
        ensures
            r == self.entries().len(),
    {
        self.pairs.len()
    }

    fn find_key(&self, key: &String) -> (r: Option<usize>)
        ensures
            match r {
                Some(i) => i < self.entries().len() && self.entries()[i as int].0 == key@,
                None => forall|i: int| 0 <= i < self.entries().len() ==> (
                #[trigger] self.entries()[i]).0 != key@,
            },
    {
        let mut i: usize = 0;
        while i < self.pairs.len()
            invariant
                i <= self.entries().len(),
                self.entries().len() == self.pairs@.len(),
                forall|j: int| 0 <= j < i ==> (#[trigger] self.entries()[j]).0 != key@,
            decreases self.pairs@.len() - i,
        {
            if self.pairs[i].0 == *key {
                return Some(i);
            }
            i = i + 1;
        }
        None
    }

    /// Inserts a variable; a later insertion overrides an earlier one on the
    /// same key, and keys stay unique.
    pub fn insert(&mut self, key: String, value: String)
        requires
            old(self).wf(),
        ensures
            final(self).wf(),
            final(self).map_view() == old(self).map_view().insert(key@, value@),
    {
        let ghost s0 = self.entries();
        let found = self.find_key(&key);
        match found {
            Some(i) => {
                self.pairs.remove(i);
                proof {
                    assert(self.entries() =~= s0.remove(i as int));
                    lemma_assoc_map_remove(s0, i as int);
                }
                let ghost s1 = self.entries();
                self.pairs.push((key, value));
                proof {
                    assert(self.entries() =~= s1.push((key@, value@)));
                    lemma_assoc_map_push(s1, (key@, value@));
                    assert(assoc_map(s0).remove(s0[i as int].0).insert(key@, value@)
                        =~= assoc_map(s0).insert(key@, value@));
                    assert(forall|a: int, b: int| 0 <= a < b < s1.len() ==> (
                    #[trigger] s1[a]).0 != (#[trigger] s1[b]).0);
                    assert(forall|a: int| 0 <= a < s1.len() ==> (#[trigger] s1[a]).0 != key@)
                        by {
                        assert forall|a: int| 0 <= a < s1.len() implies (#[trigger] s1[a]).0
                            != key@ by {
                            if a < i {
                                assert(s1[a] == s0[a]);
                            } else {
                                assert(s1[a] == s0[a + 1]);
                            }
                        }
                    }
                }
            },
            None => {
                let ghost s1 = self.entries();
                self.pairs.push((key, value));
                proof {
                    assert(self.entries() =~= s1.push((key@, value@)));
                    lemma_assoc_map_push(s1, (key@, value@));
                }
            },
        }
    }

    /// Looks a variable up; the result is exactly what the denoted map holds.
    pub fn get(&self, key: &String) -> (r: Option<&String>)
        requires
            self.wf(),
        ensures
            match r {
                Some(v) => self.map_view().dom().contains(key@) && v@ == self.map_view()[key@],
                None => !self.map_view().dom().contains(key@),
            },
    {
        let found = self.find_key(key);
        match found {
            Some(i) => {
                proof {
                    lemma_assoc_map_present(self.entries(), i as int);
                }
                Some(&self.pairs[i].1)
            },
            None => {
                proof {
                    lemma_assoc_map_absent(self.entries(), key@);
                }
                None
            },
        }
    }

    /// Inserts every pair in order, each overriding any earlier binding of
    /// its key.
    pub fn insert_all(&mut self, pairs: &Vec<(String, String)>)
        requires
            old(self).wf(),
        ensures
            final(self).wf(),
            final(self).map_view() == insert_all_spec(old(self).map_view(), pair_views(pairs@)),
    {
        let ghost m0 = self.map_view();
        let ghost ps = pair_views(pairs@);
        let mut i: usize = 0;
        while i < pairs.len()
            invariant
                self.wf(),
                i <= pairs@.len(),
                ps == pair_views(pairs@),
                self.map_view() == insert_all_spec(m0, ps.take(i as int)),
            decreases pairs@.len() - i,
        {
            let (k, v) = (pairs[i].0.clone(), pairs[i].1.clone());
            self.insert(k, v);
            proof {
                assert(ps.take(i + 1).drop_last() =~= ps.take(i as int));
                assert(ps.take(i + 1).last() == ps[i as int]);
            }
            i = i + 1;
        }
        proof {
            assert(ps.take(ps.len() as int) =~= ps);
        }
    }

    /// The entries as plain pairs, for handing to a process spawner.
    pub fn entries_vec(&self) -> (r: &Vec<(String, String)>)
        ensures
            r@.len() == self.entries().len(),
            forall|i: int| 0 <= i < r@.len() ==> (#[trigger] r@[i]).0@ == self.entries()[i].0
                && r@[i].1@ == self.entries()[i].1,
    {
        &self.pairs
    }
}

} // verus!
