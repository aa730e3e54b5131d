use vstd::prelude::*;
use crate::text::{chars_eq, chars_of};

verus! {

/// Thread names and the ids of the Discord threads created for them.
pub struct ThreadStore {
    /// Where the store is saved.
    pub path: String,
    /// Names and ids; each name once.
    pub mapping: Vec<(String, u64)>,
}

/// The names and ids of a store's mapping.
pub open spec fn entries(m: Seq<(String, u64)>) -> Seq<(Seq<char>, u64)> {
    m.map_values(|e: (String, u64)| (e.0@, e.1))
}

/// The id stored for `name`.
pub open spec fn lookup(m: Seq<(Seq<char>, u64)>, name: Seq<char>) -> Option<u64>
    decreases m.len(),
{
    if m.len() == 0 {
        None
    } else if m.last().0 == name {
        Some(m.last().1)
    } else {
        lookup(m.drop_last(), name)
    }
}

/// Whether no name occurs twice.
pub open spec fn names_unique(m: Seq<(Seq<char>, u64)>) -> bool {
    forall|i: int, j: int| 0 <= i < j < m.len() ==> m[i].0 != m[j].0
}

impl ThreadStore {
    /// The store's invariant: each name once.
    pub open spec fn wf(&self) -> bool {
        names_unique(entries(self.mapping@))
    }

    /// An empty store saved at `path`.
    pub fn new(path: String) -> (s: Self)
        ensures
            s.path == path,
            s.mapping@.len() == 0,
            s.wf(),
    {
        ThreadStore { path, mapping: Vec::new() }
    }

    /// The thread id stored for `name`, if any.
    pub fn get(&self, name: &str) -> (r: Option<u64>)
        ensures
            r == lookup(entries(self.mapping@), name@),
    {
        let mut i: usize = self.mapping.len();
        let key = chars_of(name);
        assert(entries(self.mapping@).take(i as int) == entries(self.mapping@));
        while i > 0
            invariant
                key@ == name@,
                i <= self.mapping@.len(),
                lookup(entries(self.mapping@), name@) == lookup(
                    entries(self.mapping@).take(i as int),
                    name@,
                ),
            decreases i,
        {
            proof {
                assert(entries(self.mapping@).take(i as int).drop_last() == entries(
                    self.mapping@,
                ).take(i - 1));
            }
            assert(entries(self.mapping@).take(i as int).last() == entries(self.mapping@)[i - 1]);
            if chars_eq(chars_of(self.mapping[i - 1].0.as_str()).as_slice(), key.as_slice()) {
                return Some(self.mapping[i - 1].1);
            }
            i = i - 1;
        }
        None
    }

    /// Records `id` for `name`, replacing the id it had.
    pub fn insert(&mut self, name: String, id: u64)
        requires
            old(self).wf(),
        ensures
            final(self).wf(),
            final(self).path == old(self).path,
            lookup(entries(final(self).mapping@), name@) == Some(id),
            forall|other: Seq<char>|
                other != name@ ==> lookup(entries(final(self).mapping@), other) == lookup(
                    entries(old(self).mapping@),
                    other,
                ),
    {
        let ghost before = entries(self.mapping@);
        let mut i: usize = 0;
        while i < self.mapping.len()
            invariant
                i <= self.mapping@.len(),
                entries(self.mapping@) == before,
                before == entries(old(self).mapping@),
                names_unique(before),
                self.path == old(self).path,
                forall|j: int| 0 <= j < i ==> before[j].0 != name@,
            decreases self.mapping@.len() - i,
        {
            if self.mapping[i].0 == name {
                let key = self.mapping[i].0.clone();
                self.mapping.set(i, (key, id));
                proof {
                    lemma_lookup_update(before, i as int, id);
                    assert(entries(self.mapping@) =~= before.update(i as int, (before[i as int].0, id)));
                }
                return;
            }
            i = i + 1;
        }
        proof {
            lemma_lookup_push(before, name@, id);
        }
        self.mapping.push((name, id));
        assert(entries(self.mapping@) =~= before.push((name@, id)));
    }
}

proof fn lemma_lookup_update(m: Seq<(Seq<char>, u64)>, i: int, id: u64)
    requires
        0 <= i < m.len(),
        names_unique(m),
    ensures
        names_unique(m.update(i, (m[i].0, id))),
        lookup(m.update(i, (m[i].0, id)), m[i].0) == Some(id),
        forall|other: Seq<char>|
            other != m[i].0 ==> lookup(m.update(i, (m[i].0, id)), other) == lookup(m, other),
    decreases m.len(),
{
    let u = m.update(i, (m[i].0, id));
    assert forall|other: Seq<char>| other != m[i].0 implies lookup(u, other) == lookup(m, other) by {
        lemma_lookup_other(m, i, id, other);
    }
    lemma_lookup_same(m, i, id);
}

proof fn lemma_lookup_other(m: Seq<(Seq<char>, u64)>, i: int, id: u64, other: Seq<char>)
    requires
        0 <= i < m.len(),
        other != m[i].0,
    ensures
        lookup(m.update(i, (m[i].0, id)), other) == lookup(m, other),
    decreases m.len(),
{
    let u = m.update(i, (m[i].0, id));
    if i < m.len() - 1 {
        assert(u.drop_last() =~= m.drop_last().update(i, (m[i].0, id)));
        lemma_lookup_other(m.drop_last(), i, id, other);
    } else {
        assert(u.drop_last() =~= m.drop_last());
    }
}

proof fn lemma_lookup_same(m: Seq<(Seq<char>, u64)>, i: int, id: u64)
    requires
        0 <= i < m.len(),
        names_unique(m),
    ensures
        lookup(m.update(i, (m[i].0, id)), m[i].0) == Some(id),
    decreases m.len(),
{
    let u = m.update(i, (m[i].0, id));
    if i < m.len() - 1 {
        assert(u.drop_last() =~= m.drop_last().update(i, (m[i].0, id)));
        assert(m.last().0 != m[i].0);
        lemma_lookup_same(m.drop_last(), i, id);
    }
}

proof fn lemma_lookup_push(m: Seq<(Seq<char>, u64)>, name: Seq<char>, id: u64)
    requires
        names_unique(m),
        forall|j: int| 0 <= j < m.len() ==> m[j].0 != name,
    ensures
        names_unique(m.push((name, id))),
        lookup(m.push((name, id)), name) == Some(id),
        forall|other: Seq<char>| other != name ==> lookup(m.push((name, id)), other) == lookup(m, other),
{
    assert(m.push((name, id)).drop_last() =~= m);
}

} // verus!
