//! Values stored by name, each name at most once.

use vstd::prelude::*;

use crate::text::str_eq;

verus! {

/// Values by name, kept in the order they were first stored; no name is
/// stored twice.
#[derive(Debug)]
pub struct NamedMap<V> {
    entries: Vec<(String, V)>,
}

/// The value stored under `name`: the last entry with that name.
pub open spec fn named_lookup<V>(e: Seq<(String, V)>, name: Seq<char>) -> Option<
    V,
>
    decreases e.len(),
{
    if e.len() == 0 {
        None
    } else if e.last().0@ == name {
        Some(e.last().1)
    } else {
        named_lookup(e.drop_last(), name)
    }
}

/// The values of an entry list, by name.
pub open spec fn named_view<V>(e: Seq<(String, V)>) -> Map<Seq<char>, V> {
    Map::new(|k: Seq<char>| named_lookup(e, k) is Some, |k: Seq<char>| named_lookup(e, k)->Some_0)
}

/// No name occurs twice among the entries.
pub open spec fn names_unique<V>(e: Seq<(String, V)>) -> bool {
    forall|i: int, j: int| 0 <= i < j < e.len() ==> #[trigger] e[i].0@ != #[trigger] e[j].0@
}

impl<V> NamedMap<V> {
    /// The stored entries, in order.
    pub closed spec fn stored(&self) -> Seq<(String, V)> {
        self.entries@
    }

    #[verifier::type_invariant]
    closed spec fn unique(self) -> bool {
        names_unique(self.entries@)
    }
}

impl<V> View for NamedMap<V> {
    type V = Map<Seq<char>, V>;

    open spec fn view(&self) -> Map<Seq<char>, V> {
        named_view(self.stored())
    }
}

proof fn lemma_lookup_update<V>(e: Seq<(String, V)>, i: int, name: String, p: V, k: Seq<char>)
    requires
        0 <= i < e.len(),
        e[i].0@ == name@,
        forall|j: int| i < j < e.len() ==> #[trigger] e[j].0@ != name@,
    ensures
        named_lookup(e.update(i, (name, p)), k) == if k == name@ {
            Some(p)
        } else {
            named_lookup(e, k)
        },
    decreases e.len(),
{
    let u = e.update(i, (name, p));
    if i == e.len() - 1 {
        assert(u.drop_last() =~= e.drop_last());
    } else {
        assert(u.drop_last() =~= e.drop_last().update(i, (name, p)));
        lemma_lookup_update(e.drop_last(), i, name, p, k);
    }
}

proof fn lemma_lookup_absent<V>(e: Seq<(String, V)>, name: Seq<char>)
    requires
        forall|j: int| 0 <= j < e.len() ==> #[trigger] e[j].0@ != name,
    ensures
        named_lookup(e, name) is None,
    decreases e.len(),
{
    if e.len() > 0 {
        lemma_lookup_absent(e.drop_last(), name);
    }
}

proof fn lemma_lookup_last<V>(e: Seq<(String, V)>, i: int, name: Seq<char>)
    requires
        0 <= i < e.len(),
        e[i].0@ == name,
        forall|j: int| i < j < e.len() ==> #[trigger] e[j].0@ != name,
    ensures
        named_lookup(e, name) == Some(e[i].1),
    decreases e.len(),
{
    if i < e.len() - 1 {
        lemma_lookup_last(e.drop_last(), i, name);
    }
}

impl<V> NamedMap<V> {
    /// No profiles.
    pub fn new() -> (m: NamedMap<V>)
        ensures
            m@ == Map::<Seq<char>, V>::empty(),
    {
        let m = NamedMap { entries: Vec::new() };
        proof {
            assert(m@ =~= Map::<Seq<char>, V>::empty());
        }
        m
    }

    /// The index of the last entry named `name`.
    fn find(&self, name: &str) -> (r: Option<usize>)
        ensures
            match r {
                Some(i) => i < self.entries@.len() && self.entries@[i as int].0@ == name@ && forall|
                    j: int,
                | i < j < self.entries@.len() ==> #[trigger] self.entries@[j].0@ != name@,
                None => forall|j: int|
                    0 <= j < self.entries@.len() ==> #[trigger] self.entries@[j].0@ != name@,
            },
    {
        let mut i: usize = self.entries.len();
        while i > 0
            invariant
                i <= self.entries@.len(),
                forall|j: int| i <= j < self.entries@.len() ==> #[trigger] self.entries@[j].0@ != name@,
            decreases i,
        {
            if str_eq(self.entries[i - 1].0.as_str(), name) {
                return Some(i - 1);
            }
            i = i - 1;
        }
        None
    }

    /// The value stored under `name`.
    pub fn get(&self, name: &str) -> (r: Option<&V>)
        ensures
            match r {
                Some(p) => self@.dom().contains(name@) && self@[name@] == *p,
                None => !self@.dom().contains(name@),
            },
    {
        match self.find(name) {
            Some(i) => {
                proof {
                    lemma_lookup_last(self.entries@, i as int, name@);
                }
                Some(&self.entries[i].1)
            },
            None => {
                proof {
                    lemma_lookup_absent(self.entries@, name@);
                }
                None
            },
        }
    }

    /// Stores `value` under `name`, replacing an earlier value.
    pub fn insert(&mut self, name: String, value: V)
        ensures
            final(self)@ == old(self)@.insert(name@, value),
    {
        proof {
            use_type_invariant(&*self);
        }
        match self.find(name.as_str()) {
            Some(i) => {
                let ghost e = self.entries@;
                let ghost n = name;
                let mut entries: Vec<(String, V)> = Vec::new();
                std::mem::swap(&mut entries, &mut self.entries);
                entries.set(i, (name, value));
                proof {
                    assert(names_unique(entries@)) by {
                        assert forall|a: int, b: int| 0 <= a < b < entries@.len() implies #[trigger] entries@[a].0@
                            != #[trigger] entries@[b].0@ by {
                            if a != i as int && b != i as int {
                                assert(e[a].0@ != e[b].0@);
                            } else if a == i as int {
                                assert(e[a].0@ != e[b].0@);
                            } else {
                                assert(e[a].0@ != e[b].0@);
                            }
                        }
                    }
                    assert forall|k: Seq<char>| #[trigger]
                        named_lookup(entries@, k) == if k == n@ {
                            Some(value)
                        } else {
                            named_lookup(e, k)
                        } by {
                        lemma_lookup_update(e, i as int, n, value, k);
                    }
                }
                self.entries = entries;
                proof {
                    assert(self@ =~= named_view(e).insert(n@, value));
                }
            },
            None => {
                let ghost e = self.entries@;
                let ghost n = name@;
                let mut entries: Vec<(String, V)> = Vec::new();
                std::mem::swap(&mut entries, &mut self.entries);
                entries.push((name, value));
                proof {
                    assert(names_unique(entries@)) by {
                        assert forall|a: int, b: int| 0 <= a < b < entries@.len() implies #[trigger] entries@[a].0@
                            != #[trigger] entries@[b].0@ by {
                            if b < e.len() {
                                assert(e[a].0@ != e[b].0@);
                            } else {
                                assert(e[a].0@ != n);
                            }
                        }
                    }
                    assert forall|k: Seq<char>| #[trigger]
                        named_lookup(entries@, k) == if k == n {
                            Some(value)
                        } else {
                            named_lookup(e, k)
                        } by {
                        assert(entries@.drop_last() =~= e);
                    }
                }
                self.entries = entries;
                proof {
                    assert(self@ =~= named_view(e).insert(n, value));
                }
            },
        }
    }

    /// The number of stored entries.
    pub fn len(&self) -> (n: usize)
        ensures
            n == self.stored().len(),
    {
        self.entries.len()
    }

    /// The `i`-th stored entry; the entries in order rebuild the map when
    /// inserted in that order.
    pub fn entry(&self, i: usize) -> (r: (&String, &V))
        requires
            i < self.stored().len(),
        ensures
            *r.0 == self.stored()[i as int].0,
            *r.1 == self.stored()[i as int].1,
            self@.dom().contains(r.0@),
            self@[r.0@] == *r.1,
    {
        proof {
            use_type_invariant(self);
            let e = self.entries@;
            assert forall|j: int| i < j < e.len() implies #[trigger] e[j].0@ != e[i as int].0@ by {
                assert(e[i as int].0@ != e[j].0@);
            }
            lemma_lookup_last(e, i as int, e[i as int].0@);
        }
        (&self.entries[i].0, &self.entries[i].1)
    }

}


} // verus!
