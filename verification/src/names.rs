//! A small map from names to values that keeps the order of insertion.

use vstd::prelude::*;
use vstd::string::StringExecFns;

verus! {

/// One entry of a [`NameMap`].
#[derive(Clone, Debug)]
pub struct Named<V> {
    pub name: String,
    pub value: V,
}

/// Values by name. A name is looked up by its first entry, and inserting
/// under a name that is present replaces the value in place, so a map built
/// by [`NameMap::new`] and [`NameMap::insert`] holds every name once.
#[derive(Clone, Debug)]
pub struct NameMap<V> {
    pub entries: Vec<Named<V>>,
}

/// Whether `name` stands at index `i` of `s` and nowhere before it.
pub open spec fn first_at<V>(s: Seq<(Seq<char>, V)>, name: Seq<char>, i: int) -> bool {
    &&& 0 <= i < s.len()
    &&& s[i].0 == name
    &&& forall|j: int| 0 <= j < i ==> (#[trigger] s[j]).0 != name
}

/// Whether some entry of `s` carries `name`.
pub open spec fn has_name<V>(s: Seq<(Seq<char>, V)>, name: Seq<char>) -> bool {
    exists|i: int| 0 <= i < s.len() && (#[trigger] s[i]).0 == name
}

/// The index of the first entry of `s` that carries `name`.
pub open spec fn first_index<V>(s: Seq<(Seq<char>, V)>, name: Seq<char>) -> int {
    choose|i: int| first_at(s, name, i)
}

/// The value under `name`: that of its first entry.
pub open spec fn lookup<V>(s: Seq<(Seq<char>, V)>, name: Seq<char>) -> Option<V> {
    if has_name(s, name) {
        Some(s[first_index(s, name)].1)
    } else {
        None
    }
}

/// `s` with `value` under `name`: in place of the first entry of that name,
/// or at the end where there is none.
pub open spec fn upsert<V>(s: Seq<(Seq<char>, V)>, name: Seq<char>, value: V) -> Seq<
    (Seq<char>, V),
> {
    if has_name(s, name) {
        s.update(first_index(s, name), (name, value))
    } else {
        s.push((name, value))
    }
}

/// Whether no name occurs twice in `s`.
pub open spec fn distinct_names<V>(s: Seq<(Seq<char>, V)>) -> bool {
    forall|i: int, j: int| 0 <= i < j < s.len() ==> (#[trigger] s[i]).0 != (#[trigger] s[j]).0
}

/// A name that occurs in `s` has a first entry, and only one index is it.
pub proof fn lemma_first_index<V>(s: Seq<(Seq<char>, V)>, name: Seq<char>)
    requires
        has_name(s, name),
    ensures
        first_at(s, name, first_index(s, name)),
        forall|i: int| first_at(s, name, i) ==> i == first_index(s, name),
{
    let k = choose|i: int| 0 <= i < s.len() && (#[trigger] s[i]).0 == name;
    lemma_first_below(s, name, k);
    let f = first_index(s, name);
    assert forall|i: int| first_at(s, name, i) implies i == f by {
        if i < f {
            assert(s[i].0 != name);
        } else if f < i {
            assert(s[f].0 != name);
        }
    }
}

proof fn lemma_first_below<V>(s: Seq<(Seq<char>, V)>, name: Seq<char>, k: int)
    requires
        0 <= k < s.len(),
        s[k].0 == name,
    ensures
        exists|i: int| first_at(s, name, i),
    decreases k,
{
    if forall|j: int| 0 <= j < k ==> (#[trigger] s[j]).0 != name {
        assert(first_at(s, name, k));
    } else {
        let j = choose|j: int| 0 <= j < k && (#[trigger] s[j]).0 == name;
        lemma_first_below(s, name, j);
    }
}

/// After `upsert(s, name, value)` the name `name` gives `value` and every
/// other name gives what it gave before.
pub proof fn lemma_lookup_upsert<V>(
    s: Seq<(Seq<char>, V)>,
    name: Seq<char>,
    value: V,
    other: Seq<char>,
)
    ensures
        lookup(upsert(s, name, value), other) == if other == name {
            Some(value)
        } else {
            lookup(s, other)
        },
        has_name(upsert(s, name, value), other) == (other == name || has_name(s, other)),
{
    let t = upsert(s, name, value);
    if has_name(s, name) {
        lemma_first_index(s, name);
        let f = first_index(s, name);
        assert(t.len() == s.len());
        assert forall|i: int| 0 <= i < s.len() implies ((#[trigger] t[i]).0 == s[i].0) by {}
        if other == name {
            assert(first_at(t, name, f)) by {
                assert forall|j: int| 0 <= j < f implies (#[trigger] t[j]).0 != name by {
                    assert(s[j].0 != name);
                }
            }
            assert(t[f].0 == name);
            lemma_first_index(t, name);
        } else {
            if has_name(s, other) {
                lemma_first_index(s, other);
                let g = first_index(s, other);
                assert(t[g].0 == other);
                assert(first_at(t, other, g)) by {
                    assert forall|j: int| 0 <= j < g implies (#[trigger] t[j]).0 != other by {
                        assert(s[j].0 != other);
                    }
                }
                lemma_first_index(t, other);
            } else {
                if has_name(t, other) {
                    let k = choose|i: int| 0 <= i < t.len() && (#[trigger] t[i]).0 == other;
                    assert(s[k].0 == other);
                }
            }
        }
    } else {
        let n = s.len() as int;
        assert(t.len() == n + 1);
        assert forall|i: int| 0 <= i < n implies (#[trigger] t[i]) == s[i] by {}
        if other == name {
            assert(t[n].0 == name);
            assert(first_at(t, name, n)) by {
                assert forall|j: int| 0 <= j < n implies (#[trigger] t[j]).0 != name by {
                    assert(s[j].0 != name);
                }
            }
            lemma_first_index(t, name);
        } else {
            if has_name(s, other) {
                lemma_first_index(s, other);
                let g = first_index(s, other);
                assert(t[g].0 == other);
                assert(first_at(t, other, g)) by {
                    assert forall|j: int| 0 <= j < g implies (#[trigger] t[j]).0 != other by {
                        assert(s[j].0 != other);
                    }
                }
                lemma_first_index(t, other);
            } else {
                if has_name(t, other) {
                    let k = choose|i: int| 0 <= i < t.len() && (#[trigger] t[i]).0 == other;
                    if k < n {
                        assert(s[k].0 == other);
                    }
                }
            }
        }
    }
}

/// Inserting keeps the names distinct.
pub proof fn lemma_upsert_distinct<V>(s: Seq<(Seq<char>, V)>, name: Seq<char>, value: V)
    requires
        distinct_names(s),
    ensures
        distinct_names(upsert(s, name, value)),
{
    let t = upsert(s, name, value);
    if has_name(s, name) {
        lemma_first_index(s, name);
        assert forall|i: int, j: int| 0 <= i < j < t.len() implies (#[trigger] t[i]).0 != (
        #[trigger] t[j]).0 by {
            assert(t[i].0 == s[i].0);
            assert(t[j].0 == s[j].0);
        }
    } else {
        assert forall|i: int, j: int| 0 <= i < j < t.len() implies (#[trigger] t[i]).0 != (
        #[trigger] t[j]).0 by {
            if j < s.len() {
                assert(t[i] == s[i]);
                assert(t[j] == s[j]);
            } else {
                assert(t[i] == s[i]);
                assert(s[i].0 != name);
            }
        }
    }
}

impl<V> NameMap<V> {
    /// The entries as pairs of a name and a value, in order.
    pub open spec fn view(&self) -> Seq<(Seq<char>, V)> {
        Seq::new(self.entries@.len(), |i: int| (self.entries@[i].name@, self.entries@[i].value))
    }

    /// Whether every name occurs once.
    pub open spec fn wf(&self) -> bool {
        distinct_names(self@)
    }

    /// The map without entries.
    pub fn new() -> (m: NameMap<V>)
        ensures
            m@ == Seq::<(Seq<char>, V)>::empty(),
            m.wf(),
    {
        let m = NameMap { entries: Vec::new() };
        assert(m@ =~= Seq::<(Seq<char>, V)>::empty());
        m
    }

    /// The number of entries.
    pub fn len(&self) -> (n: usize)
        ensures
            n == self@.len(),
    {
        self.entries.len()
    }

    /// Whether there is no entry.
    pub fn is_empty(&self) -> (r: bool)
        ensures
            r == (self@.len() == 0),
    {
        self.entries.len() == 0
    }

    /// The entry at position `i`.
    pub fn entry(&self, i: usize) -> (e: &Named<V>)
        requires
            i < self@.len(),
        ensures
            (e.name@, e.value) == self@[i as int],
    {
        &self.entries[i]
    }

    fn find(&self, name: &String) -> (r: Option<usize>)
        ensures
            match r {
                Some(i) => first_at(self@, name@, i as int),
                None => !has_name(self@, name@),
            },
    {
        let mut i: usize = 0;
        while i < self.entries.len()
            invariant
                i <= self.entries.len(),
                forall|j: int| 0 <= j < i ==> (#[trigger] self@[j]).0 != name@,
            decreases self.entries.len() - i,
        {
            if self.entries[i].name == *name {
                return Some(i);
            }
            i = i + 1;
        }
        None
    }

    /// The value under `name`, if the map holds one.
    pub fn get(&self, name: &str) -> (r: Option<&V>)
        ensures
            match r {
                Some(v) => lookup(self@, name@) == Some(*v),
                None => lookup(self@, name@).is_none(),
            },
    {
        let key = String::from_str(name);
        match self.find(&key) {
            Some(i) => {
                proof {
                    lemma_first_index(self@, name@);
                }
                Some(&self.entries[i].value)
            },
            None => None,
        }
    }

    /// Whether the map holds a value under `name`.
    pub fn contains(&self, name: &str) -> (r: bool)
        ensures
            r == has_name(self@, name@),
    {
        let key = String::from_str(name);
        self.find(&key).is_some()
    }

    /// Puts `value` under `name`, in place of an earlier value of that name.
    pub fn insert(&mut self, name: String, value: V)
        ensures
            final(self)@ == upsert(old(self)@, name@, value),
            old(self).wf() ==> final(self).wf(),
    {
        let ghost before = self@;
        let found = self.find(&name);
        match found {
            Some(i) => {
                proof {
                    lemma_first_index(before, name@);
                }
                self.entries.set(i, Named { name, value });
            },
            None => {
                self.entries.push(Named { name, value });
            },
        }
        assert(self@ =~= upsert(before, name@, value));
        proof {
            if distinct_names(before) {
                lemma_upsert_distinct(before, name@, value);
            }
        }
    }
}

} // verus!
