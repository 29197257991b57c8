//! A finite map from names to values, kept as a list of entries in which no
//! name occurs twice.

use vstd::prelude::*;
use crate::text::same_text;

verus! {

/// No two entries carry the same name.
pub open spec fn distinct_names<V>(p: Seq<(Seq<char>, V)>) -> bool {
    forall|i: int, j: int| 0 <= i < p.len() && 0 <= j < p.len() && i != j ==> (#[trigger] p[i]).0 != (#[trigger] p[j]).0
}

/// Some entry carries the name `k`.
pub open spec fn has_name<V>(p: Seq<(Seq<char>, V)>, k: Seq<char>) -> bool {
    exists|i: int| 0 <= i < p.len() && (#[trigger] p[i]).0 == k
}

/// The map that a list of entries stands for.
pub open spec fn pairs_map<V>(p: Seq<(Seq<char>, V)>) -> Map<Seq<char>, V> {
    Map::new(
        |k: Seq<char>| has_name(p, k),
        |k: Seq<char>| p[choose|i: int| 0 <= i < p.len() && (#[trigger] p[i]).0 == k].1,
    )
}

/// In a list without repeated names, each entry is what the map holds under
/// its name.
pub proof fn lemma_pairs_map_at<V>(p: Seq<(Seq<char>, V)>, i: int)
    requires
        distinct_names(p),
        0 <= i < p.len(),
    ensures
        pairs_map(p).contains_key(p[i].0),
        pairs_map(p)[p[i].0] == p[i].1,
{
    let k = p[i].0;
    assert(has_name(p, k));
    let c = choose|c: int| 0 <= c < p.len() && (#[trigger] p[c]).0 == k;
    assert(c == i);
}

/// A finite map from names to values.
#[derive(Debug)]
pub struct NameMap<V> {
    entries: Vec<(String, V)>,
}

impl<V> View for NameMap<V> {
    type V = Map<Seq<char>, V>;

    open spec fn view(&self) -> Map<Seq<char>, V> {
        pairs_map(self.pairs())
    }
}

/// The entries of a vector, each name taken as text.
pub open spec fn entries_view<V>(entries: Seq<(String, V)>) -> Seq<(Seq<char>, V)> {
    Seq::new(entries.len(), |i: int| (entries[i].0@, entries[i].1))
}

impl<V> NameMap<V> {
    /// The entries in the order in which they are stored.
    pub closed spec fn pairs(&self) -> Seq<(Seq<char>, V)> {
        entries_view(self.entries@)
    }

    #[verifier::type_invariant]
    spec fn well_formed(&self) -> bool {
        distinct_names(self.pairs())
    }

    /// The empty map.
    pub fn new() -> (m: Self)
        ensures
            m@ == Map::<Seq<char>, V>::empty(),
            m.pairs().len() == 0,
    {
        let m = NameMap { entries: Vec::new() };
        m
    }

    /// The number of entries.
    pub fn len(&self) -> (n: usize)
        ensures
            n == self.pairs().len(),
            distinct_names(self.pairs()),
    {
        proof {
            use_type_invariant(self);
        }
        self.entries.len()
    }

    /// The name of the entry at position `i`.
    pub fn name_at(&self, i: usize) -> (name: &str)
        requires
            i < self.pairs().len(),
        ensures
            name@ == self.pairs()[i as int].0,
            self@.contains_key(name@),
    {
        proof {
            use_type_invariant(self);
            lemma_pairs_map_at(self.pairs(), i as int);
        }
        self.entries[i].0.as_str()
    }

    /// The value of the entry at position `i`.
    pub fn value_at(&self, i: usize) -> (value: &V)
        requires
            i < self.pairs().len(),
        ensures
            *value == self.pairs()[i as int].1,
            self@[self.pairs()[i as int].0] == *value,
    {
        proof {
            use_type_invariant(self);
            lemma_pairs_map_at(self.pairs(), i as int);
        }
        &self.entries[i].1
    }

    /// The position of the entry named `name`, if there is one.
    fn position(&self, name: &str) -> (r: Option<usize>)
        ensures
            match r {
                Some(i) => i < self.pairs().len() && self.pairs()[i as int].0 == name@,
                None => !has_name(self.pairs(), name@),
            },
    {
        let mut i: usize = 0;
        while i < self.entries.len()
            invariant
                i <= self.entries@.len(),
                forall|j: int| 0 <= j < i ==> (#[trigger] self.pairs()[j]).0 != name@,
            decreases self.entries@.len() - i,
        {
            if same_text(self.entries[i].0.as_str(), name) {
                return Some(i);
            }
            i += 1;
        }
        None
    }

    /// Whether the map has an entry named `name`.
    pub fn contains(&self, name: &str) -> (r: bool)
        ensures
            r == self@.contains_key(name@),
    {
        self.position(name).is_some()
    }

    /// The value stored under `name`, if there is one.
    pub fn get(&self, name: &str) -> (r: Option<&V>)
        ensures
            r == (if self@.contains_key(name@) {
                Some(&self@[name@])
            } else {
                None
            }),
    {
        match self.position(name) {
            Some(i) => {
                proof {
                    use_type_invariant(self);
                    lemma_pairs_map_at(self.pairs(), i as int);
                }
                Some(&self.entries[i].1)
            },
            None => None,
        }
    }

    /// Stores `value` under `name`, in place of what was stored there.
    pub fn insert(&mut self, name: String, value: V)
        ensures
            final(self)@ == old(self)@.insert(name@, value),
    {
        proof {
            use_type_invariant(&*self);
        }
        let found = self.position(name.as_str());
        let ghost before = self.pairs();
        let mut entries: Vec<(String, V)> = Vec::new();
        std::mem::swap(&mut entries, &mut self.entries);
        match found {
            Some(i) => {
                entries.set(i, (name, value));
            },
            None => {
                entries.push((name, value));
            },
        }
        let ghost after = entries_view(entries@);
        proof {
            lemma_after_insert(before, after, name@, value);
        }
        self.entries = entries;
    }

    /// Stores `value` under `name` if the map has an entry of that name, and
    /// leaves the map as it is otherwise. Returns whether it stored.
    pub fn replace(&mut self, name: &str, value: V) -> (stored: bool)
        ensures
            stored == old(self)@.contains_key(name@),
            final(self)@ == (if stored {
                old(self)@.insert(name@, value)
            } else {
                old(self)@
            }),
            final(self)@.dom() == old(self)@.dom(),
    {
        proof {
            use_type_invariant(&*self);
        }
        match self.position(name) {
            Some(i) => {
                let ghost before = self.pairs();
                let mut entries: Vec<(String, V)> = Vec::new();
                std::mem::swap(&mut entries, &mut self.entries);
                let key = entries[i].0.clone();
                entries.set(i, (key, value));
                let ghost after = entries_view(entries@);
                proof {
                    lemma_after_insert(before, after, name@, value);
                }
                self.entries = entries;
                true
            },
            None => false,
        }
    }

    /// The entries, each name once, in the order in which they are stored.
    pub fn into_entries(self) -> (entries: Vec<(String, V)>)
        ensures
            entries_view(entries@) == self.pairs(),
            distinct_names(self.pairs()),
    {
        proof {
            use_type_invariant(&self);
        }
        self.entries
    }
}

/// What a list of entries stands for after one of its entries was given a
/// new value, or a new name was added at its end.
pub proof fn lemma_after_insert<V>(
    before: Seq<(Seq<char>, V)>,
    after: Seq<(Seq<char>, V)>,
    name: Seq<char>,
    value: V,
)
    requires
        distinct_names(before),
        (!has_name(before, name) && after =~= before.push((name, value))) || (exists|i: int|
            0 <= i < before.len() && (#[trigger] before[i]).0 == name && after =~= before.update(
                i,
                (name, value),
            )),
    ensures
        distinct_names(after),
        pairs_map(after) == pairs_map(before).insert(name, value),
{
    let target = pairs_map(before).insert(name, value);
    assert forall|k: Seq<char>| pairs_map(after).contains_key(k) <==> target.contains_key(
        k,
    ) by {
        if has_name(after, k) && k != name {
            let i = choose|i: int| 0 <= i < after.len() && (#[trigger] after[i]).0 == k;
            assert(before[i].0 == k);
        }
        if target.contains_key(k) {
            if k != name {
                let i = choose|i: int| 0 <= i < before.len() && (#[trigger] before[i]).0 == k;
                assert(after[i].0 == k);
            } else if !has_name(before, name) {
                assert(after[before.len() as int].0 == name);
            } else {
                let i = choose|i: int|
                    0 <= i < before.len() && (#[trigger] before[i]).0 == name && after
                        =~= before.update(i, (name, value));
                assert(after[i].0 == name);
            }
        }
    }
    assert forall|k: Seq<char>| pairs_map(after).contains_key(k) implies pairs_map(after)[k]
        == target[k] by {
        let i = choose|i: int| 0 <= i < after.len() && (#[trigger] after[i]).0 == k;
        lemma_pairs_map_at(after, i);
        if k != name {
            lemma_pairs_map_at(before, i);
        }
    }
    assert(pairs_map(after) =~= target);
}

} // verus!
