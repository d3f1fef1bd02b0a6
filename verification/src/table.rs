//! A string-keyed association table, the synchronized key-value shape that
//! the registry, the output buffer and the configuration store share.
//!
//! Keys are pairwise distinct; the abstract value of a table is a finite
//! `Map` from the character view of each key to the stored value.

use vstd::prelude::*;

verus! {

/// A table from string identifiers to values of type `V`.
pub struct Table<V> {
    entries: Vec<(String, V)>,
}

/// The abstract value of a sequence of key-value pairs: later pairs win,
/// though well-formed tables never hold a key twice.
spec fn map_of<V>(s: Seq<(String, V)>) -> Map<Seq<char>, V>
    decreases s.len(),
{
    if s.len() == 0 {
        Map::empty()
    } else {
        map_of(s.drop_last()).insert(s.last().0@, s.last().1)
    }
}

/// No two pairs of `s` hold the same key.
spec fn keys_distinct<V>(s: Seq<(String, V)>) -> bool {
    forall|i: int, j: int| 0 <= i < j < s.len() ==> s[i].0@ != s[j].0@
}

proof fn lemma_map_of_absent<V>(s: Seq<(String, V)>, k: Seq<char>)
    requires
        forall|i: int| 0 <= i < s.len() ==> s[i].0@ != k,
    ensures
        !map_of(s).contains_key(k),
    decreases s.len(),
{
    if s.len() > 0 {
        lemma_map_of_absent(s.drop_last(), k);
    }
}

proof fn lemma_map_of_present<V>(s: Seq<(String, V)>, i: int)
    requires
        keys_distinct(s),
        0 <= i < s.len(),
    ensures
        map_of(s).contains_key(s[i].0@),
        map_of(s)[s[i].0@] == s[i].1,
    decreases s.len(),
{
    if i == s.len() - 1 {
        assert(s.last() == s[i]);
    } else {
        lemma_map_of_present(s.drop_last(), i);
        assert(s.drop_last()[i] == s[i]);
        assert(s[i].0@ != s.last().0@);
    }
}

proof fn lemma_map_of_domain<V>(s: Seq<(String, V)>, k: Seq<char>)
    requires
        map_of(s).contains_key(k),
    ensures
        exists|i: int| 0 <= i < s.len() && s[i].0@ == k,
    decreases s.len(),
{
    if s.len() > 0 && s.last().0@ != k {
        lemma_map_of_domain(s.drop_last(), k);
        let i = choose|i: int| 0 <= i < s.drop_last().len() && s.drop_last()[i].0@ == k;
        assert(s[i].0@ == k);
    } else if s.len() > 0 {
        assert(s[s.len() - 1].0@ == k);
    }
}

proof fn lemma_map_of_update<V>(s: Seq<(String, V)>, i: int, id: String, v: V)
    requires
        keys_distinct(s),
        0 <= i < s.len(),
        id@ == s[i].0@,
    ensures
        keys_distinct(s.update(i, (id, v))),
        map_of(s.update(i, (id, v))) == map_of(s).insert(id@, v),
    decreases s.len(),
{
    let t = s.update(i, (id, v));
    assert(keys_distinct(t)) by {
        assert forall|a: int, b: int| 0 <= a < b < t.len() implies t[a].0@ != t[b].0@ by {
            assert(t[a].0@ == s[a].0@ && t[b].0@ == s[b].0@);
        }
    }
    if i == s.len() - 1 {
        assert(t.drop_last() =~= s.drop_last());
        assert(map_of(t) == map_of(s.drop_last()).insert(id@, v));
        assert(map_of(s).insert(id@, v) =~= map_of(s.drop_last()).insert(id@, v)) by {
            assert(s.last().0@ == id@);
        }
    } else {
        assert(t.drop_last() =~= s.drop_last().update(i, (id, v)));
        assert(s.drop_last()[i] == s[i]);
        lemma_map_of_update(s.drop_last(), i, id, v);
        assert(t.last() == s.last());
        // the two inserted keys differ, so the inserts commute
        assert(id@ != s.last().0@);
        assert(map_of(s.drop_last()).insert(id@, v).insert(s.last().0@, s.last().1)
            =~= map_of(s.drop_last()).insert(s.last().0@, s.last().1).insert(id@, v));
    }
}

proof fn lemma_map_of_push<V>(s: Seq<(String, V)>, id: String, v: V)
    requires
        keys_distinct(s),
        forall|i: int| 0 <= i < s.len() ==> s[i].0@ != id@,
    ensures
        keys_distinct(s.push((id, v))),
        map_of(s.push((id, v))) == map_of(s).insert(id@, v),
{
    let t = s.push((id, v));
    assert(keys_distinct(t)) by {
        assert forall|a: int, b: int| 0 <= a < b < t.len() implies t[a].0@ != t[b].0@ by {
            if b < t.len() - 1 {
                assert(t[a].0@ == s[a].0@ && t[b].0@ == s[b].0@);
            } else {
                assert(t[a].0@ == s[a].0@ && t[b].0@ == id@);
            }
        }
    }
    assert(t.drop_last() =~= s);
    assert(t.last() == (id, v));
}

proof fn lemma_map_of_remove<V>(s: Seq<(String, V)>, i: int)
    requires
        keys_distinct(s),
        0 <= i < s.len(),
    ensures
        keys_distinct(s.remove(i)),
        map_of(s.remove(i)) == map_of(s).remove(s[i].0@),
    decreases s.len(),
{
    let t = s.remove(i);
    let k = s[i].0@;
    assert(keys_distinct(t)) by {
        assert forall|a: int, b: int| 0 <= a < b < t.len() implies t[a].0@ != t[b].0@ by {
            let a0 = if a < i { a } else { a + 1 };
            let b0 = if b < i { b } else { b + 1 };
            assert(t[a].0@ == s[a0].0@ && t[b].0@ == s[b0].0@);
        }
    }
    if i == s.len() - 1 {
        assert(t =~= s.drop_last());
        assert(forall|j: int| 0 <= j < t.len() ==> t[j].0@ != k);
        lemma_map_of_absent(t, k);
        assert(map_of(s.drop_last()) =~= map_of(s.drop_last()).insert(k, s[i].1).remove(k));
    } else {
        assert(t.drop_last() =~= s.drop_last().remove(i));
        assert(s.drop_last()[i] == s[i]);
        lemma_map_of_remove(s.drop_last(), i);
        assert(t.last() == s.last());
        assert(k != s.last().0@);
        // removing `k` commutes with inserting the distinct last key
        assert(map_of(s.drop_last()).remove(k).insert(s.last().0@, s.last().1)
            =~= map_of(s.drop_last()).insert(s.last().0@, s.last().1).remove(k));
    }
}

impl<V> View for Table<V> {
    type V = Map<Seq<char>, V>;

    closed spec fn view(&self) -> Map<Seq<char>, V> {
        map_of(self.entries@)
    }
}

impl<V> Table<V> {
    /// Keys are pairwise distinct. Constructors establish this and every
    /// method preserves it.
    pub closed spec fn wf(&self) -> bool {
        keys_distinct(self.entries@)
    }

    pub fn new() -> (r: Table<V>)
        ensures
            r.wf(),
            r@ == Map::<Seq<char>, V>::empty(),
    {
        Table { entries: Vec::new() }
    }

    /// The position of `id` among the entries, if it is there.
    fn index_of(&self, id: &String) -> (r: Option<usize>)
        ensures
            match r {
                Some(i) => i < self.entries@.len() && self.entries@[i as int].0@ == id@,
                None => forall|i: int| 0 <= i < self.entries@.len() ==> self.entries@[i].0@ != id@,
            },
    {
        let n = self.entries.len();
        let mut i: usize = 0;
        while i < n
            invariant
                i <= n,
                n == self.entries@.len(),
                forall|j: int| 0 <= j < i ==> self.entries@[j].0@ != id@,
            decreases n - i,
        {
            if self.entries[i].0.eq(id) {
                return Some(i);
            }
            i = i + 1;
        }
        None
    }

    /// Whether the table holds `id`.
    pub fn contains(&self, id: &String) -> (r: bool)
        requires
            self.wf(),
        ensures
            r == self@.contains_key(id@),
    {
        match self.index_of(id) {
            Some(i) => {
                proof {
                    lemma_map_of_present(self.entries@, i as int);
                }
                true
            },
            None => {
                proof {
                    lemma_map_of_absent(self.entries@, id@);
                }
                false
            },
        }
    }

    /// A borrow of the value stored under `id`, if any.
    pub fn get<'a>(&'a self, id: &String) -> (r: Option<&'a V>)
        requires
            self.wf(),
        ensures
            match r {
                Some(v) => self@.contains_key(id@) && *v == self@[id@],
                None => !self@.contains_key(id@),
            },
    {
        match self.index_of(id) {
            Some(i) => {
                proof {
                    lemma_map_of_present(self.entries@, i as int);
                }
                Some(&self.entries[i].1)
            },
            None => {
                proof {
                    lemma_map_of_absent(self.entries@, id@);
                }
                None
            },
        }
    }

    /// Replace or insert: the table afterwards maps `id` to `v` and every
    /// other key to what it held before.
    pub fn insert(&mut self, id: String, v: V)
        requires
            old(self).wf(),
        ensures
            final(self).wf(),
            final(self)@ == old(self)@.insert(id@, v),
    {
        match self.index_of(&id) {
            Some(i) => {
                proof {
                    lemma_map_of_update(self.entries@, i as int, id, v);
                }
                let slot = &mut self.entries[i];
                *slot = (id, v);
            },
            None => {
                proof {
                    lemma_map_of_push(self.entries@, id, v);
                }
                self.entries.push((id, v));
            },
        }
    }

    /// Remove `id` if present; reports whether it was there.
    pub fn remove(&mut self, id: &String) -> (r: bool)
        requires
            old(self).wf(),
        ensures
            final(self).wf(),
            final(self)@ == old(self)@.remove(id@),
            r == old(self)@.contains_key(id@),
    {
        match self.index_of(id) {
            Some(i) => {
                proof {
                    lemma_map_of_present(self.entries@, i as int);
                    lemma_map_of_remove(self.entries@, i as int);
                }
                self.entries.remove(i);
                true
            },
            None => {
                proof {
                    lemma_map_of_absent(self.entries@, id@);
                    assert(self@.remove(id@) =~= self@);
                }
                false
            },
        }
    }

    /// The stored pairs, for callers that walk every entry: each pair is in
    /// the abstract map under its key's view, the keys are distinct, and
    /// every key of the map occurs.
    pub fn entries<'a>(&'a self) -> (r: &'a Vec<(String, V)>)
        requires
            self.wf(),
        ensures
            forall|i: int|
                0 <= i < r@.len() ==> self@.contains_key(#[trigger] r@[i].0@) && self@[r@[i].0@]
                    == r@[i].1,
            forall|i: int, j: int| 0 <= i < j < r@.len() ==> r@[i].0@ != r@[j].0@,
            forall|k: Seq<char>|
                self@.contains_key(k) ==> exists|i: int| 0 <= i < r@.len() && r@[i].0@ == k,
    {
        proof {
            assert forall|i: int|
                0 <= i < self.entries@.len() implies self@.contains_key(
                #[trigger] self.entries@[i].0@,
            ) && self@[self.entries@[i].0@] == self.entries@[i].1 by {
                lemma_map_of_present(self.entries@, i);
            }
            assert forall|k: Seq<char>| self@.contains_key(k) implies exists|i: int|
                0 <= i < self.entries@.len() && self.entries@[i].0@ == k by {
                lemma_map_of_domain(self.entries@, k);
            }
        }
        &self.entries
    }
}

} // verus!
