use vstd::prelude::*;

verus! {

/// No key occurs twice.
pub open spec fn keys_unique<T>(s: Seq<(String, T)>) -> bool {
    forall|i: int, j: int| 0 <= i < j < s.len() ==> s[i].0@ != s[j].0@
}

pub open spec fn has_key<T>(s: Seq<(String, T)>, k: Seq<char>) -> bool {
    exists|i: int| 0 <= i < s.len() && #[trigger] s[i].0@ == k
}

/// The entries as a map from keys to values.
pub open spec fn table_of<T>(s: Seq<(String, T)>) -> Map<Seq<char>, T> {
    Map::new(
        |k: Seq<char>| has_key(s, k),
        |k: Seq<char>| s[choose|i: int| 0 <= i < s.len() && #[trigger] s[i].0@ == k].1,
    )
}

/// Appending an entry with a new key adds it to the map.
pub proof fn lemma_table_push<T>(s: Seq<(String, T)>, e: (String, T))
    requires
        keys_unique(s),
        !has_key(s, e.0@),
    ensures
        keys_unique(s.push(e)),
        table_of(s.push(e)) == table_of(s).insert(e.0@, e.1),
{
    let t = s.push(e);
    assert forall|k: Seq<char>| has_key(t, k) == (has_key(s, k) || k == e.0@) by {
        if has_key(t, k) {
            let i = choose|i: int| 0 <= i < t.len() && #[trigger] t[i].0@ == k;
            if i < s.len() {
                assert(s[i].0@ == k);
            }
        }
        if has_key(s, k) {
            let i = choose|i: int| 0 <= i < s.len() && #[trigger] s[i].0@ == k;
            assert(t[i].0@ == k);
        }
        if k == e.0@ {
            assert(t[s.len() as int].0@ == k);
        }
    }
    assert forall|k: Seq<char>| #[trigger] has_key(t, k) implies table_of(t)[k] == table_of(s).insert(
        e.0@,
        e.1,
    )[k] by {
        let i = choose|i: int| 0 <= i < t.len() && #[trigger] t[i].0@ == k;
        if k == e.0@ {
            if i < s.len() {
                assert(s[i].0@ == k);
            }
        } else {
            let i2 = choose|i2: int| 0 <= i2 < s.len() && #[trigger] s[i2].0@ == k;
            assert(t[i2].0@ == k);
        }
    }
    assert(table_of(t) =~= table_of(s).insert(e.0@, e.1));
}

/// Removing the entry at `i` removes its key from the map.
pub proof fn lemma_table_remove<T>(s: Seq<(String, T)>, i: int)
    requires
        keys_unique(s),
        0 <= i < s.len(),
    ensures
        keys_unique(s.remove(i)),
        table_of(s.remove(i)) == table_of(s).remove(s[i].0@),
{
    let t = s.remove(i);
    let key = s[i].0@;
    assert forall|k: Seq<char>| has_key(t, k) == (has_key(s, k) && k != key) by {
        if has_key(t, k) {
            let j = choose|j: int| 0 <= j < t.len() && #[trigger] t[j].0@ == k;
            if j < i {
                assert(s[j].0@ == k);
            } else {
                assert(s[j + 1].0@ == k);
            }
        }
        if has_key(s, k) && k != key {
            let j = choose|j: int| 0 <= j < s.len() && #[trigger] s[j].0@ == k;
            if j < i {
                assert(t[j].0@ == k);
            } else {
                assert(t[j - 1].0@ == k);
            }
        }
    }
    assert forall|k: Seq<char>| #[trigger] has_key(t, k) implies table_of(t)[k] == table_of(s)[k] by {
        let j = choose|j: int| 0 <= j < t.len() && #[trigger] t[j].0@ == k;
        let j2 = choose|j2: int| 0 <= j2 < s.len() && #[trigger] s[j2].0@ == k;
        if j < i {
            assert(s[j].0@ == k);
        } else {
            assert(s[j + 1].0@ == k);
        }
    }
    assert(table_of(t) =~= table_of(s).remove(key));
}

/// Replacing the value at `i` rebinds its key.
pub proof fn lemma_table_update<T>(s: Seq<(String, T)>, i: int, v: T)
    requires
        keys_unique(s),
        0 <= i < s.len(),
    ensures
        keys_unique(s.update(i, (s[i].0, v))),
        table_of(s.update(i, (s[i].0, v))) == table_of(s).insert(s[i].0@, v),
{
    let t = s.update(i, (s[i].0, v));
    let key = s[i].0@;
    assert forall|k: Seq<char>| has_key(t, k) == has_key(s, k) by {
        if has_key(t, k) {
            let j = choose|j: int| 0 <= j < t.len() && #[trigger] t[j].0@ == k;
            assert(s[j].0@ == k);
        }
        if has_key(s, k) {
            let j = choose|j: int| 0 <= j < s.len() && #[trigger] s[j].0@ == k;
            assert(t[j].0@ == k);
        }
    }
    assert(has_key(s, key)) by {
        assert(s[i].0@ == key);
    }
    assert forall|k: Seq<char>| #[trigger] has_key(t, k) implies table_of(t)[k] == table_of(s).insert(
        key,
        v,
    )[k] by {
        let j = choose|j: int| 0 <= j < t.len() && #[trigger] t[j].0@ == k;
        let j2 = choose|j2: int| 0 <= j2 < s.len() && #[trigger] s[j2].0@ == k;
        if k == key {
            assert(j == i);
        } else {
            assert(j == j2);
        }
    }
    assert(table_of(t) =~= table_of(s).insert(key, v));
}

/// A small map keyed by strings, kept as a vector of entries with unique keys.
pub struct StrMap<T> {
    entries: Vec<(String, T)>,
}

impl<T> StrMap<T> {
    pub closed spec fn view(&self) -> Map<Seq<char>, T> {
        table_of(self.entries@)
    }

    pub closed spec fn wf(&self) -> bool {
        keys_unique(self.entries@)
    }

    pub fn new() -> (r: Self)
        ensures
            r.wf(),
            r.view() == Map::<Seq<char>, T>::empty(),
    {
        let r = StrMap { entries: Vec::new() };
        proof {
            assert(r.view() =~= Map::<Seq<char>, T>::empty());
        }
        r
    }

    fn find(&self, key: &String) -> (r: Option<usize>)
        requires
            self.wf(),
        ensures
            r is Some ==> r->0 < self.entries@.len() && self.entries@[r->0 as int].0@ == key@,
            r is None ==> !has_key(self.entries@, key@),
    {
        let mut i: usize = 0;
        while i < self.entries.len()
            invariant
                i <= self.entries@.len(),
                forall|j: int| 0 <= j < i ==> self.entries@[j].0@ != key@,
            decreases self.entries@.len() - i,
        {
            if self.entries[i].0 == *key {
                return Some(i);
            }
            i = i + 1;
        }
        None
    }

    pub fn get(&self, key: &String) -> (r: Option<&T>)
        requires
            self.wf(),
        ensures
            r is Some == self.view().contains_key(key@),
            r is Some ==> *r->0 == self.view()[key@],
    {
        match self.find(key) {
            Some(i) => {
                proof {
                    let j = choose|j: int|
                        0 <= j < self.entries@.len() && #[trigger] self.entries@[j].0@ == key@;
                    assert(self.entries@[i as int].0@ == key@);
                    assert(j == i);
                }
                Some(&self.entries[i].1)
            },
            None => None,
        }
    }

    pub fn contains(&self, key: &String) -> (r: bool)
        requires
            self.wf(),
        ensures
            r == self.view().contains_key(key@),
    {
        match self.find(key) {
            Some(i) => {
                proof {
                    assert(self.entries@[i as int].0@ == key@);
                }
                true
            },
            None => false,
        }
    }

    /// Binds `key` to `v`, replacing any earlier value.
    pub fn insert(&mut self, key: String, v: T)
        requires
            old(self).wf(),
        ensures
            final(self).wf(),
            final(self).view() == old(self).view().insert(key@, v),
    {
        match self.find(&key) {
            Some(i) => {
                let ghost before = self.entries@;
                let k = self.entries.remove(i);
                self.entries.insert(i, (k.0, v));
                proof {
                    assert(self.entries@ =~= before.update(i as int, (before[i as int].0, v)));
                    lemma_table_update(before, i as int, v);
                }
            },
            None => {
                let ghost before = self.entries@;
                proof {
                    lemma_table_push(before, (key, v));
                }
                self.entries.push((key, v));
            },
        }
    }

    /// Unbinds `key` and returns its value, if it was bound.
    pub fn remove(&mut self, key: &String) -> (r: Option<T>)
        requires
            old(self).wf(),
        ensures
            final(self).wf(),
            final(self).view() == old(self).view().remove(key@),
            r is Some == old(self).view().contains_key(key@),
            r is Some ==> r->0 == old(self).view()[key@],
    {
        match self.find(key) {
            Some(i) => {
                let ghost before = self.entries@;
                proof {
                    let j = choose|j: int| 0 <= j < before.len() && #[trigger] before[j].0@ == key@;
                    assert(before[i as int].0@ == key@);
                    assert(j == i);
                    lemma_table_remove(before, i as int);
                }
                let e = self.entries.remove(i);
                Some(e.1)
            },
            None => {
                proof {
                    assert(self.view() =~= self.view().remove(key@));
                }
                None
            },
        }
    }

    pub fn clear(&mut self)
        ensures
            final(self).wf(),
            final(self).view() == Map::<Seq<char>, T>::empty(),
    {
        self.entries.clear();
        proof {
            assert(self.view() =~= Map::<Seq<char>, T>::empty());
        }
    }

    /// Takes the entries out, each key once.
    pub fn into_entries(self) -> (r: Vec<(String, T)>)
        requires
            self.wf(),
        ensures
            keys_unique(r@),
            table_of(r@) == self.view(),
    {
        self.entries
    }
}

} // verus!
