use vstd::prelude::*;

verus! {

/// A mapping from names to values, kept as a list of entries with distinct names.
/// `==` compares the entries in order, so two maps built in different orders differ.
#[derive(Debug, PartialEq, Eq)]
pub struct NameMap<V> {
    entries: Vec<(String, V)>,
}

/// The mapping that a list of entries stands for: a later entry overrides an earlier one.
pub open spec fn entries_map<V>(s: Seq<(String, V)>) -> Map<Seq<char>, V>
    decreases s.len(),
{
    if s.len() == 0 {
        Map::empty()
    } else {
        entries_map(s.drop_last()).insert(s.last().0@, s.last().1)
    }
}

/// No two entries carry the same name.
pub open spec fn names_distinct<V>(s: Seq<(String, V)>) -> bool {
    forall|i: int, j: int|
        0 <= i < s.len() && 0 <= j < s.len() && #[trigger] s[i].0@ == #[trigger] s[j].0@ ==> i
            == j
}

/// For entries with distinct names, the mapping holds exactly their names, each with its value.
pub proof fn lemma_entries_map<V>(s: Seq<(String, V)>)
    requires
        names_distinct(s),
    ensures
        forall|i: int| 0 <= i < s.len() ==> #[trigger] entries_map(s).contains_key(s[i].0@)
            && entries_map(s)[s[i].0@] == s[i].1,
        forall|k: Seq<char>|
            #[trigger] entries_map(s).contains_key(k) ==> exists|i: int|
                0 <= i < s.len() && s[i].0@ == k,
    decreases s.len(),
{
    if s.len() > 0 {
        let d = s.drop_last();
        assert(names_distinct(d)) by {
            assert forall|i: int, j: int|
                0 <= i < d.len() && 0 <= j < d.len() && #[trigger] d[i].0@ == #[trigger] d[j].0@
                implies i == j by {
                assert(s[i].0@ == s[j].0@);
            }
        }
        lemma_entries_map(d);
        let n = s.len() - 1;
        assert(entries_map(s) == entries_map(d).insert(s[n].0@, s[n].1));
        assert forall|i: int| 0 <= i < s.len() implies #[trigger] entries_map(s).contains_key(
            s[i].0@,
        ) && entries_map(s)[s[i].0@] == s[i].1 by {
            if i < n {
                assert(d[i] == s[i]);
                assert(entries_map(d).contains_key(d[i].0@));
                assert(s[i].0@ != s[n].0@);
            }
        }
        assert forall|k: Seq<char>| #[trigger] entries_map(s).contains_key(k) implies exists|i: int|
            0 <= i < s.len() && s[i].0@ == k by {
            if k != s[n].0@ {
                assert(entries_map(d).contains_key(k));
                let i = choose|i: int| 0 <= i < d.len() && d[i].0@ == k;
                assert(s[i] == d[i]);
            } else {
                assert(s[n].0@ == k);
            }
        }
    }
}

/// Replacing the value of an entry by one with the same name updates the mapping at that name.
proof fn lemma_entries_map_update<V>(s: Seq<(String, V)>, i: int, e: (String, V))
    requires
        names_distinct(s),
        0 <= i < s.len(),
        s[i].0@ == e.0@,
    ensures
        entries_map(s.update(i, e)) == entries_map(s).insert(e.0@, e.1),
    decreases s.len(),
{
    let t = s.update(i, e);
    let d = s.drop_last();
    if i == s.len() - 1 {
        assert(t.drop_last() =~= d);
        assert(entries_map(t) =~= entries_map(s).insert(e.0@, e.1));
    } else {
        assert(names_distinct(d)) by {
            assert forall|a: int, b: int|
                0 <= a < d.len() && 0 <= b < d.len() && #[trigger] d[a].0@ == #[trigger] d[b].0@
                implies a == b by {
                assert(s[a].0@ == s[b].0@);
            }
        }
        lemma_entries_map_update(d, i, e);
        assert(t.drop_last() =~= d.update(i, e));
        assert(s[i].0@ != s.last().0@);
        assert(entries_map(t) =~= entries_map(s).insert(e.0@, e.1));
    }
}

impl<V> View for NameMap<V> {
    type V = Map<Seq<char>, V>;

    closed spec fn view(&self) -> Map<Seq<char>, V> {
        entries_map(self.entries@)
    }
}

impl<V> NameMap<V> {
    /// The entries, in the order in which their names were first inserted.
    pub closed spec fn items(&self) -> Seq<(String, V)> {
        self.entries@
    }

    /// The names are distinct.
    pub closed spec fn wf(&self) -> bool {
        names_distinct(self.entries@)
    }

    /// What a well-formed map's entries say of its view.
    pub proof fn lemma_items(&self)
        requires
            self.wf(),
        ensures
            names_distinct(self.items()),
            self@ == entries_map(self.items()),
            forall|i: int| 0 <= i < self.items().len() ==> #[trigger] self@.contains_key(
                self.items()[i].0@,
            ) && self@[self.items()[i].0@] == self.items()[i].1,
            forall|k: Seq<char>|
                #[trigger] self@.contains_key(k) ==> exists|i: int|
                    0 <= i < self.items().len() && self.items()[i].0@ == k,
    {
        lemma_entries_map(self.entries@);
    }

    pub fn new() -> (r: NameMap<V>)
        ensures
            r.wf(),
            r@ == Map::<Seq<char>, V>::empty(),
            r.items().len() == 0,
    {
        NameMap { entries: Vec::new() }
    }

    /// The number of names in the map.
    pub fn len(&self) -> (r: usize)
        ensures
            r == self.items().len(),
    {
        self.entries.len()
    }

    /// The entry at position `i`.
    pub fn entry_at(&self, i: usize) -> (r: (&String, &V))
        requires
            i < self.items().len(),
        ensures
            *r.0 == self.items()[i as int].0,
            *r.1 == self.items()[i as int].1,
    {
        let e = &self.entries[i];
        (&e.0, &e.1)
    }

    /// The position of the entry named `k`, if there is one.
    fn position(&self, k: &String) -> (r: Option<usize>)
        requires
            self.wf(),
        ensures
            match r {
                Some(i) => i < self.entries@.len() && self.entries@[i as int].0@ == k@,
                None => forall|i: int| 0 <= i < self.entries@.len() ==> self.entries@[i].0@ != k@,
            },
    {
        let mut i: usize = 0;
        while i < self.entries.len()
            invariant
                i <= self.entries@.len(),
                forall|j: int| 0 <= j < i ==> self.entries@[j].0@ != k@,
            decreases self.entries@.len() - i,
        {
            if self.entries[i].0.eq(k) {
                return Some(i);
            }
            i = i + 1;
        }
        None
    }

    /// The value of the name `k`.
    pub fn get(&self, k: &String) -> (r: Option<&V>)
        requires
            self.wf(),
        ensures
            match r {
                Some(v) => self@.contains_key(k@) && *v == self@[k@],
                None => !self@.contains_key(k@),
            },
    {
        proof {
            lemma_entries_map(self.entries@);
        }
        match self.position(k) {
            Some(i) => {
                assert(self@.contains_key(self.entries@[i as int].0@));
                Some(&self.entries[i].1)
            },
            None => {
                assert(!self@.contains_key(k@));
                None
            },
        }
    }

    /// Sets the value of `k` to `v`; a value it had before is dropped.
    pub fn insert(&mut self, k: String, v: V)
        requires
            old(self).wf(),
        ensures
            final(self).wf(),
            final(self)@ == old(self)@.insert(k@, v),
    {
        match self.position(&k) {
            Some(i) => {
                proof {
                    lemma_entries_map_update(self.entries@, i as int, (k, v));
                }
                self.entries.set(i, (k, v));
                assert(names_distinct(self.entries@)) by {
                    assert forall|a: int, b: int|
                        0 <= a < self.entries@.len() && 0 <= b < self.entries@.len()
                            && #[trigger] self.entries@[a].0@ == #[trigger] self.entries@[b].0@
                        implies a == b by {
                        assert(old(self).entries@[a].0@ == self.entries@[a].0@);
                        assert(old(self).entries@[b].0@ == self.entries@[b].0@);
                    }
                }
            },
            None => {
                let ghost o = self.entries@;
                let ghost kk = k@;
                self.entries.push((k, v));
                assert(self.entries@.drop_last() =~= o);
                assert(names_distinct(self.entries@)) by {
                    assert forall|a: int, b: int|
                        0 <= a < self.entries@.len() && 0 <= b < self.entries@.len()
                            && #[trigger] self.entries@[a].0@ == #[trigger] self.entries@[b].0@
                        implies a == b by {
                        if a < o.len() {
                            assert(self.entries@[a] == o[a]);
                        } else {
                            assert(self.entries@[a].0@ == kk);
                        }
                        if b < o.len() {
                            assert(self.entries@[b] == o[b]);
                        } else {
                            assert(self.entries@[b].0@ == kk);
                        }
                    }
                }
            },
        }
    }
    /// Sets each name of `other` to its value there, as `insert` would one by one: on a
    /// name that both hold, the value of `other` stays.
    pub fn extend(&mut self, other: NameMap<V>)
        requires
            old(self).wf(),
            other.wf(),
        ensures
            final(self).wf(),
            final(self)@ == old(self)@.union_prefer_right(other@),
    {
        let mut rest = other.entries;
        proof {
            assert(self@.union_prefer_right(entries_map(rest@)) =~= old(self)@.union_prefer_right(other@));
        }
        while rest.len() > 0
            invariant
                self.wf(),
                names_distinct(rest@),
                self@.union_prefer_right(entries_map(rest@)) == old(self)@.union_prefer_right(
                    other@,
                ),
            decreases rest@.len(),
        {
            let ghost r0 = rest@;
            let (k, v) = rest.pop().unwrap();
            proof {
                let n = r0.len() - 1;
                assert(rest@ =~= r0.drop_last());
                assert(names_distinct(rest@)) by {
                    assert forall|a: int, b: int|
                        0 <= a < rest@.len() && 0 <= b < rest@.len() && #[trigger] rest@[a].0@
                            == #[trigger] rest@[b].0@ implies a == b by {
                        assert(r0[a].0@ == r0[b].0@);
                    }
                }
                lemma_entries_map(rest@);
                assert(!entries_map(rest@).contains_key(k@)) by {
                    if entries_map(rest@).contains_key(k@) {
                        let j = choose|j: int| 0 <= j < rest@.len() && rest@[j].0@ == k@;
                        assert(r0[j].0@ == r0[n].0@);
                    }
                }
            }
            let ghost before = self@;
            let ghost kk = k@;
            let ghost vv = v;
            self.insert(k, v);
            proof {
                assert(self@.union_prefer_right(entries_map(rest@)) =~= before.union_prefer_right(
                    entries_map(rest@).insert(kk, vv),
                ));
            }
        }
        proof {
            assert(self@.union_prefer_right(entries_map(rest@)) =~= self@);
        }
    }
}

} // verus!
