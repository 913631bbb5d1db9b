//! Values by name.
use vstd::prelude::*;

use crate::text::{same, texts};

verus! {

/// A map from names to values.
pub struct NameMap<V> {
    entries: Vec<(String, V)>,
}

/// Where `name` stands among the entries, if it does.
spec fn position<V>(entries: Seq<(String, V)>, name: Seq<char>) -> Option<int>
    decreases entries.len(),
{
    if entries.len() == 0 {
        None
    } else if entries.last().0@ == name {
        Some(entries.len() - 1)
    } else {
        position(entries.drop_last(), name)
    }
}

spec fn distinct<V>(entries: Seq<(String, V)>) -> bool {
    forall|i: int, j: int|
        0 <= i < j < entries.len() ==> #[trigger] entries[i].0@ != #[trigger] entries[j].0@
}

spec fn as_map<V>(entries: Seq<(String, V)>) -> Map<Seq<char>, V> {
    Map::new(
        |name: Seq<char>| position(entries, name) is Some,
        |name: Seq<char>| entries[position(entries, name)->0].1,
    )
}

proof fn lemma_position<V>(entries: Seq<(String, V)>, name: Seq<char>)
    ensures
        match position(entries, name) {
            Some(i) => 0 <= i < entries.len() && entries[i].0@ == name,
            None => forall|i: int| 0 <= i < entries.len() ==> #[trigger] entries[i].0@ != name,
        },
    decreases entries.len(),
{
    if entries.len() > 0 {
        lemma_position(entries.drop_last(), name);
        assert(forall|i: int|
            0 <= i < entries.len() - 1 ==> entries.drop_last()[i] == #[trigger] entries[i]);
    }
}

proof fn lemma_position_is<V>(entries: Seq<(String, V)>, i: int)
    requires
        distinct(entries),
        0 <= i < entries.len(),
    ensures
        position(entries, entries[i].0@) == Some(i),
{
    lemma_position(entries, entries[i].0@);
    let j = position(entries, entries[i].0@)->0;
    if position(entries, entries[i].0@) is Some {
        if i < j {
            assert(entries[i].0@ != entries[j].0@);
        } else if j < i {
            assert(entries[j].0@ != entries[i].0@);
        }
    }
}

impl<V> View for NameMap<V> {
    type V = Map<Seq<char>, V>;

    closed spec fn view(&self) -> Map<Seq<char>, V> {
        as_map(self.entries@)
    }
}

impl<V> NameMap<V> {
    /// No name occurs twice.
    pub closed spec fn wf(&self) -> bool {
        distinct(self.entries@)
    }

    /// A map without entries.
    pub fn new() -> (r: NameMap<V>)
        ensures
            r.wf(),
            r@ == Map::<Seq<char>, V>::empty(),
    {
        let r = NameMap { entries: Vec::new() };
        assert(r@ =~= Map::<Seq<char>, V>::empty());
        r
    }

    fn find(&self, name: &str) -> (r: Option<usize>)
        requires
            self.wf(),
        ensures
            match r {
                Some(i) => i < self.entries@.len() && self.entries@[i as int].0@ == name@ && position(
                    self.entries@,
                    name@,
                ) == Some(i as int),
                None => position(self.entries@, name@) is None,
            },
    {
        let mut i: usize = 0;
        while i < self.entries.len()
            invariant
                self.wf(),
                i <= self.entries@.len(),
                forall|j: int| 0 <= j < i ==> #[trigger] self.entries@[j].0@ != name@,
            decreases self.entries@.len() - i,
        {
            if same(self.entries[i].0.as_str(), name) {
                proof {
                    lemma_position_is(self.entries@, i as int);
                }
                return Some(i);
            }
            i += 1;
        }
        proof {
            lemma_position(self.entries@, name@);
        }
        None
    }

    /// Whether there is an entry under a name.
    pub fn contains(&self, name: &str) -> (r: bool)
        requires
            self.wf(),
        ensures
            r == self@.contains_key(name@),
    {
        match self.find(name) {
            Some(_) => true,
            None => false,
        }
    }

    /// The value under a name.
    pub fn get(&self, name: &str) -> (r: Option<&V>)
        requires
            self.wf(),
        ensures
            match r {
                Some(v) => self@.contains_key(name@) && *v == self@[name@],
                None => !self@.contains_key(name@),
            },
    {
        match self.find(name) {
            Some(i) => Some(&self.entries[i].1),
            None => None,
        }
    }

    /// Removes the entry under a name, if there is one.
    pub fn remove(&mut self, name: &str)
        requires
            old(self).wf(),
        ensures
            final(self).wf(),
            final(self)@ == old(self)@.remove(name@),
    {
        match self.find(name) {
            Some(i) => {
                let ghost before = self.entries@;
                let _removed = self.entries.remove(i);
                proof {
                    let after = self.entries@;
                    assert(after == before.remove(i as int));
                    assert forall|a: int, b: int| 0 <= a < b < after.len() implies #[trigger] after[a].0@
                        != #[trigger] after[b].0@ by {
                        let a0 = if a < i { a } else { a + 1 };
                        let b0 = if b < i { b } else { b + 1 };
                        assert(before[a0].0@ != before[b0].0@);
                    }
                    assert forall|n: Seq<char>| n != name@ implies (position(after, n) is Some
                        == position(before, n) is Some) && (position(after, n) is Some ==> after[position(
                        after,
                        n,
                    )->0] == before[position(before, n)->0]) by {
                        lemma_position(before, n);
                        lemma_position(after, n);
                        if position(before, n) is Some {
                            let p = position(before, n)->0;
                            let q = if p < i { p } else { p - 1 };
                            assert(after[q] == before[p]);
                            lemma_position_is(after, q);
                        } else if position(after, n) is Some {
                            let q = position(after, n)->0;
                            let p = if q < i { q } else { q + 1 };
                            assert(after[q] == before[p]);
                        }
                    }
                    lemma_position(after, name@);
                    if position(after, name@) is Some {
                        let q = position(after, name@)->0;
                        let p = if q < i { q } else { q + 1 };
                        assert(after[q] == before[p]);
                        if p < i {
                            assert(before[p].0@ != before[i as int].0@);
                        } else {
                            assert(before[i as int].0@ != before[p].0@);
                        }
                    }
                    assert(self@ =~= old(self)@.remove(name@));
                }
            },
            None => {
                assert(self@ =~= old(self)@.remove(name@));
            },
        }
    }

    /// Puts a value under a name, in place of the one that was there.
    pub fn insert(&mut self, name: String, value: V)
        requires
            old(self).wf(),
        ensures
            final(self).wf(),
            final(self)@ == old(self)@.insert(name@, value),
    {
        self.remove(name.as_str());
        let ghost before = self.entries@;
        assert(!self@.contains_key(name@));
        proof {
            lemma_position(before, name@);
        }
        self.entries.push((name, value));
        proof {
            let after = self.entries@;
            assert(after.drop_last() == before);
            assert forall|a: int, b: int| 0 <= a < b < after.len() implies #[trigger] after[a].0@
                != #[trigger] after[b].0@ by {
                assert(after[a] == before[a]);
                if b < before.len() {
                    assert(after[b] == before[b]);
                    assert(before[a].0@ != before[b].0@);
                }
            }
            assert forall|n: Seq<char>| n != name@ implies position(after, n) == position(before, n) by {}
            assert forall|n: Seq<char>| position(before, n) is Some implies after[position(before, n)->0]
                == before[position(before, n)->0] by {
                lemma_position(before, n);
            }
            assert(as_map(after) =~= as_map(before).insert(name@, value));
            assert(old(self)@.remove(name@).insert(name@, value) =~= old(self)@.insert(name@, value));
        }
    }

    /// How many entries there are.
    pub fn len(&self) -> (r: usize)
        requires
            self.wf(),
        ensures
            r == self@.dom().len(),
            self@.dom().finite(),
    {
        proof {
            let names = self.entries@.map_values(|e: (String, V)| e.0@);
            assert(names.no_duplicates());
            names.unique_seq_to_set();
            assert forall|n: Seq<char>| names.to_set().contains(n) == self@.dom().contains(n) by {
                lemma_position(self.entries@, n);
                if names.to_set().contains(n) {
                    let i = choose|i: int| 0 <= i < names.len() && names[i] == n;
                    assert(self.entries@[i].0@ == n);
                }
                if self@.dom().contains(n) {
                    let i = position(self.entries@, n)->0;
                    assert(names[i] == n);
                }
            }
            assert(names.to_set() =~= self@.dom());
        }
        self.entries.len()
    }

    /// All names, each once, in no order that callers may rely on.
    pub fn names(&self) -> (r: Vec<String>)
        requires
            self.wf(),
        ensures
            texts(r@).no_duplicates(),
            texts(r@).to_set() == self@.dom(),
    {
        let mut r: Vec<String> = Vec::new();
        let mut i: usize = 0;
        while i < self.entries.len()
            invariant
                self.wf(),
                i <= self.entries@.len(),
                r@.len() == i,
                forall|j: int| 0 <= j < i ==> #[trigger] r@[j]@ == self.entries@[j].0@,
            decreases self.entries@.len() - i,
        {
            r.push(self.entries[i].0.clone());
            i += 1;
        }
        proof {
            let t = texts(r@);
            assert forall|a: int, b: int| 0 <= a < b < t.len() implies t[a] != t[b] by {
                assert(self.entries@[a].0@ != self.entries@[b].0@);
            }
            assert forall|n: Seq<char>| t.to_set().contains(n) == self@.dom().contains(n) by {
                lemma_position(self.entries@, n);
                if t.to_set().contains(n) {
                    let k = choose|k: int| 0 <= k < t.len() && t[k] == n;
                    assert(self.entries@[k].0@ == n);
                }
                if self@.dom().contains(n) {
                    let k = position(self.entries@, n)->0;
                    assert(t[k] == n);
                }
            }
            assert(t.to_set() =~= self@.dom());
        }
        r
    }
}

} // verus!
