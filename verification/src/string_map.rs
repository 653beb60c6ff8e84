//! A map from strings to strings (labels, annotations, selectors), viewed as
//! a `Map` over character sequences.

use vstd::prelude::*;

verus! {

/// The character-sequence view of a list of key/value pairs.
pub open spec fn pairs_view(v: Seq<(String, String)>) -> Seq<(Seq<char>, Seq<char>)> {
    v.map_values(|p: (String, String)| (p.0@, p.1@))
}

/// The map that results from inserting the pairs in order (a later pair for
/// the same key wins).
pub open spec fn seq_to_map(s: Seq<(Seq<char>, Seq<char>)>) -> Map<Seq<char>, Seq<char>>
    decreases s.len(),
{
    if s.len() == 0 {
        Map::empty()
    } else {
        seq_to_map(s.drop_last()).insert(s.last().0, s.last().1)
    }
}

/// No key occurs twice.
pub open spec fn keys_distinct(s: Seq<(Seq<char>, Seq<char>)>) -> bool {
    forall|i: int, j: int| 0 <= i < j < s.len() ==> s[i].0 != s[j].0
}

proof fn lemma_seq_to_map_dom(s: Seq<(Seq<char>, Seq<char>)>, k: Seq<char>)
    ensures
        seq_to_map(s).dom().contains(k) <==> exists|i: int| 0 <= i < s.len() && s[i].0 == k,
    decreases s.len(),
{
    if s.len() > 0 {
        lemma_seq_to_map_dom(s.drop_last(), k);
        if seq_to_map(s).dom().contains(k) {
            if k == s.last().0 {
                assert(s[s.len() - 1].0 == k);
            } else {
                let i = choose|i: int| 0 <= i < s.drop_last().len() && s.drop_last()[i].0 == k;
                assert(s[i].0 == k);
            }
        }
        if exists|i: int| 0 <= i < s.len() && s[i].0 == k {
            let i = choose|i: int| 0 <= i < s.len() && s[i].0 == k;
            if i < s.len() - 1 {
                assert(s.drop_last()[i].0 == k);
            }
        }
    }
}

proof fn lemma_seq_to_map_value(s: Seq<(Seq<char>, Seq<char>)>, i: int)
    requires
        keys_distinct(s),
        0 <= i < s.len(),
    ensures
        seq_to_map(s).dom().contains(s[i].0),
        seq_to_map(s)[s[i].0] == s[i].1,
    decreases s.len(),
{
    if i < s.len() - 1 {
        assert(s.drop_last()[i] == s[i]);
        lemma_seq_to_map_value(s.drop_last(), i);
    }
}

proof fn lemma_seq_to_map_update(s: Seq<(Seq<char>, Seq<char>)>, i: int, v: Seq<char>)
    requires
        keys_distinct(s),
        0 <= i < s.len(),
    ensures
        seq_to_map(s.update(i, (s[i].0, v))) =~= seq_to_map(s).insert(s[i].0, v),
    decreases s.len(),
{
    let k = s[i].0;
    let t = s.update(i, (k, v));
    if i == s.len() - 1 {
        assert(t.drop_last() =~= s.drop_last());
    } else {
        assert(t.drop_last() =~= s.drop_last().update(i, (k, v)));
        lemma_seq_to_map_update(s.drop_last(), i, v);
        assert(s.last().0 != k);
    }
}

proof fn lemma_seq_to_map_remove(s: Seq<(Seq<char>, Seq<char>)>, i: int)
    requires
        keys_distinct(s),
        0 <= i < s.len(),
    ensures
        seq_to_map(s.remove(i)) =~= seq_to_map(s).remove(s[i].0),
        keys_distinct(s.remove(i)),
    decreases s.len(),
{
    let k = s[i].0;
    let t = s.remove(i);
    if i == s.len() - 1 {
        assert(t =~= s.drop_last());
        lemma_seq_to_map_dom(s.drop_last(), k);
        assert(!seq_to_map(s.drop_last()).dom().contains(k)) by {
            if seq_to_map(s.drop_last()).dom().contains(k) {
                let j = choose|j: int| 0 <= j < s.drop_last().len() && s.drop_last()[j].0 == k;
                assert(s[j].0 == k);
            }
        }
    } else {
        assert(t.drop_last() =~= s.drop_last().remove(i));
        assert(t.last() == s.last());
        lemma_seq_to_map_remove(s.drop_last(), i);
        assert(s.last().0 != k);
    }
}

/// A string-to-string map. Its entries hold each key once.
pub struct StringMap {
    entries: Vec<(String, String)>,
}

impl View for StringMap {
    type V = Map<Seq<char>, Seq<char>>;

    closed spec fn view(&self) -> Map<Seq<char>, Seq<char>> {
        seq_to_map(pairs_view(self.entries@))
    }
}

impl StringMap {
    #[verifier::type_invariant]
    spec fn inv(self) -> bool {
        keys_distinct(pairs_view(self.entries@))
    }

    /// The entries, in insertion order.
    pub closed spec fn spec_entries(self) -> Seq<(String, String)> {
        self.entries@
    }

    /// An empty map.
    pub fn new() -> (m: StringMap)
        ensures
            m@ == Map::<Seq<char>, Seq<char>>::empty(),
            m.spec_entries().len() == 0,
    {
        let m = StringMap { entries: Vec::new() };
        assert(pairs_view(m.entries@) =~= Seq::empty());
        m
    }

    /// Inserts or replaces the value for `key`.
    pub fn insert(&mut self, key: String, value: String)
        ensures
            final(self)@ == old(self)@.insert(key@, value@),
    {
        proof {
            use_type_invariant(&*self);
        }
        let ghost s = pairs_view(self.entries@);
        let n = self.entries.len();
        let mut i: usize = 0;
        while i < n
            invariant
                n == self.entries.len(),
                s == pairs_view(self.entries@),
                s == pairs_view(old(self).entries@),
                keys_distinct(s),
                i <= n,
                forall|j: int| 0 <= j < i ==> s[j].0 != key@,
            decreases n - i,
        {
            if self.entries[i].0 == key {
                let mut entries = Vec::new();
                std::mem::swap(&mut entries, &mut self.entries);
                proof {
                    assert(s[i as int].0 == key@);
                    lemma_seq_to_map_update(s, i as int, value@);
                }
                let ghost before = entries@;
                entries.set(i, (key, value));
                proof {
                    assert(pairs_view(entries@) =~= s.update(i as int, (s[i as int].0, value@)));
                    assert(seq_to_map(pairs_view(entries@)) == seq_to_map(s).insert(key@, value@));
                    assert(keys_distinct(pairs_view(entries@)));
                }
                self.entries = entries;
                assert(self@ == seq_to_map(s).insert(key@, value@));
                return;
            }
            i = i + 1;
        }
        let mut entries = Vec::new();
        std::mem::swap(&mut entries, &mut self.entries);
        entries.push((key, value));
        proof {
            let t = pairs_view(entries@);
            assert(t =~= s.push((key@, value@)));
            assert(t.drop_last() =~= s);
        }
        self.entries = entries;
    }

    /// Removes the entry for `key`, if any.
    pub fn remove(&mut self, key: &String)
        ensures
            final(self)@ == old(self)@.remove(key@),
    {
        proof {
            use_type_invariant(&*self);
        }
        let ghost s = pairs_view(self.entries@);
        let n = self.entries.len();
        let mut i: usize = 0;
        while i < n
            invariant
                n == self.entries.len(),
                s == pairs_view(self.entries@),
                s == pairs_view(old(self).entries@),
                keys_distinct(s),
                i <= n,
                forall|j: int| 0 <= j < i ==> s[j].0 != key@,
            decreases n - i,
        {
            if self.entries[i].0 == *key {
                let mut entries = Vec::new();
                std::mem::swap(&mut entries, &mut self.entries);
                proof {
                    lemma_seq_to_map_remove(s, i as int);
                }
                let ghost before = entries@;
                entries.remove(i);
                proof {
                    assert(pairs_view(entries@) =~= s.remove(i as int));
                }
                self.entries = entries;
                return;
            }
            i = i + 1;
        }
        proof {
            lemma_seq_to_map_dom(s, key@);
            assert(old(self)@.remove(key@) =~= old(self)@);
        }
    }

    /// The value for `key`, if any.
    pub fn get(&self, key: &String) -> (r: Option<&String>)
        ensures
            match r {
                Some(v) => self@.dom().contains(key@) && self@[key@] == v@,
                None => !self@.dom().contains(key@),
            },
    {
        proof {
            use_type_invariant(self);
        }
        let ghost s = pairs_view(self.entries@);
        let n = self.entries.len();
        let mut i: usize = 0;
        while i < n
            invariant
                n == self.entries.len(),
                s == pairs_view(self.entries@),
                keys_distinct(s),
                i <= n,
                forall|j: int| 0 <= j < i ==> s[j].0 != key@,
            decreases n - i,
        {
            if self.entries[i].0 == *key {
                proof {
                    lemma_seq_to_map_value(s, i as int);
                }
                return Some(&self.entries[i].1);
            }
            i = i + 1;
        }
        proof {
            lemma_seq_to_map_dom(s, key@);
        }
        None
    }

    /// Whether the map has no entry.
    pub fn is_empty(&self) -> (r: bool)
        ensures
            r == (self@ == Map::<Seq<char>, Seq<char>>::empty()),
    {
        let r = self.entries.len() == 0;
        proof {
            let s = pairs_view(self.entries@);
            if r {
                assert(s =~= Seq::empty());
            } else {
                assert(self@.dom().contains(s.last().0));
                assert(self@ != Map::<Seq<char>, Seq<char>>::empty());
            }
        }
        r
    }

    /// The entries in insertion order; inserting them in order into an empty
    /// map gives this map back.
    pub fn entries(&self) -> (r: &Vec<(String, String)>)
        ensures
            r@ == self.spec_entries(),
            keys_distinct(pairs_view(r@)),
            seq_to_map(pairs_view(r@)) == self@,
    {
        proof {
            use_type_invariant(self);
        }
        &self.entries
    }

    /// The map built by inserting the pairs in order.
    pub fn from_pairs(pairs: &Vec<(String, String)>) -> (m: StringMap)
        ensures
            m@ == seq_to_map(pairs_view(pairs@)),
    {
        let mut m = StringMap::new();
        let ghost all = pairs_view(pairs@);
        let n = pairs.len();
        let mut i: usize = 0;
        assert(seq_to_map(all.take(0)) =~= Map::<Seq<char>, Seq<char>>::empty());
        while i < n
            invariant
                n == pairs@.len(),
                all == pairs_view(pairs@),
                i <= n,
                m@ == seq_to_map(all.take(i as int)),
            decreases n - i,
        {
            let k = pairs[i].0.clone();
            let v = pairs[i].1.clone();
            proof {
                assert(all.take(i + 1).drop_last() =~= all.take(i as int));
                assert(all[i as int] == (k@, v@));
            }
            m.insert(k, v);
            i = i + 1;
        }
        assert(all.take(n as int) =~= all);
        m
    }

    /// Inserts every entry of `other`, whose values win over this map's.
    pub fn extend_from(&mut self, other: &StringMap)
        ensures
            final(self)@ == old(self)@.union_prefer_right(other@),
    {
        let es = other.entries();
        let ghost all = pairs_view(es@);
        let n = es.len();
        let mut i: usize = 0;
        assert(seq_to_map(all.take(0)) =~= Map::<Seq<char>, Seq<char>>::empty());
        while i < n
            invariant
                n == es@.len(),
                all == pairs_view(es@),
                i <= n,
                self@ == old(self)@.union_prefer_right(seq_to_map(all.take(i as int))),
            decreases n - i,
        {
            let k = es[i].0.clone();
            let v = es[i].1.clone();
            proof {
                assert(all.take(i + 1).drop_last() =~= all.take(i as int));
                assert(all[i as int] == (k@, v@));
            }
            self.insert(k, v);
            proof {
                assert(self@ =~= old(self)@.union_prefer_right(seq_to_map(all.take(i + 1))));
            }
            i = i + 1;
        }
        assert(all.take(n as int) =~= all);
    }
}

impl Clone for StringMap {
    fn clone(&self) -> (r: StringMap)
        ensures
            r@ == self@,
    {
        proof {
            use_type_invariant(self);
        }
        let mut entries: Vec<(String, String)> = Vec::new();
        let n = self.entries.len();
        let mut i: usize = 0;
        while i < n
            invariant
                n == self.entries.len(),
                i <= n,
                entries@.len() == i,
                forall|j: int| 0 <= j < i ==> entries@[j].0@ == self.entries@[j].0@
                    && entries@[j].1@ == self.entries@[j].1@,
            decreases n - i,
        {
            let k = self.entries[i].0.clone();
            let v = self.entries[i].1.clone();
            entries.push((k, v));
            i = i + 1;
        }
        assert(pairs_view(entries@) =~= pairs_view(self.entries@));
        StringMap { entries }
    }
}

} // verus!
