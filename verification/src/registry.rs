//! The table of per-language settings, keyed by language name.
use vstd::prelude::*;
use crate::text::{owned, same_text};

verus! {

/// Language settings keyed by language name; a name occurs at most once.
pub struct LangRegistry<C> {
    entries: Vec<(String, C)>,
}

impl<C> LangRegistry<C> {
    /// No name occurs twice among the entries.
    #[verifier::type_invariant]
    closed spec fn names_unique(self) -> bool {
        forall|i: int, j: int|
            0 <= i < self.entries@.len() && 0 <= j < self.entries@.len() && i != j
                ==> #[trigger] self.entries@[i].0@ != #[trigger] self.entries@[j].0@
    }

    /// The index of the entry named `k`, if there is one.
    closed spec fn holds_at(self, k: Seq<char>, i: int) -> bool {
        0 <= i < self.entries@.len() && self.entries@[i].0@ == k
    }

    /// The registry as a map from language name to its settings.
    pub closed spec fn entries_map(self) -> Map<Seq<char>, C> {
        Map::new(
            |k: Seq<char>| exists|i: int| self.holds_at(k, i),
            |k: Seq<char>| self.entries@[choose|i: int| self.holds_at(k, i)].1,
        )
    }

    /// An empty registry.
    pub fn new() -> (r: Self)
        ensures
            r@ == Map::<Seq<char>, C>::empty(),
    {
        let r = LangRegistry { entries: Vec::new() };
        assert(r@ =~= Map::<Seq<char>, C>::empty());
        r
    }

    /// The number of languages held.
    pub fn len(&self) -> (n: usize)
        ensures
            n == self@.len(),
    {
        proof {
            use_type_invariant(self);
            self.lemma_len();
        }
        self.entries.len()
    }

    proof fn lemma_len(self)
        requires
            self.names_unique(),
        ensures
            self@.len() == self.entries@.len(),
            self@.dom().finite(),
        decreases self.entries@.len(),
    {
        let keys = self.entries@.map_values(|e: (String, C)| e.0@);
        assert(self@.dom() =~= keys.to_set()) by {
            assert forall|k: Seq<char>| self@.dom().contains(k) implies keys.to_set().contains(k) by {
                let i = choose|i: int| self.holds_at(k, i);
                assert(keys[i] == k);
            }
            assert forall|k: Seq<char>| keys.to_set().contains(k) implies self@.dom().contains(k) by {
                let i = choose|i: int| 0 <= i < keys.len() && keys[i] == k;
                assert(self.holds_at(k, i));
            }
        }
        assert(keys.no_duplicates()) by {
            assert forall|i: int, j: int| 0 <= i < keys.len() && 0 <= j < keys.len() && i != j
                implies keys[i] != keys[j] by {
                assert(self.entries@[i].0@ != self.entries@[j].0@);
            }
        }
        keys.unique_seq_to_set();
    }

    /// Index of the entry named `name`, if any.
    fn position(&self, name: &str) -> (r: Option<usize>)
        ensures
            match r {
                Some(i) => self.holds_at(name@, i as int),
                None => forall|i: int| !self.holds_at(name@, i),
            },
    {
        let mut i: usize = 0;
        while i < self.entries.len()
            invariant
                i <= self.entries.len(),
                forall|k: int| 0 <= k < i ==> !self.holds_at(name@, k),
            decreases self.entries.len() - i,
        {
            if same_text(self.entries[i].0.as_str(), name) {
                return Some(i);
            }
            i = i + 1;
        }
        None
    }

    /// Adds or replaces the settings of language `name`.
    pub fn insert(&mut self, name: &str, config: C)
        ensures
            final(self)@ == old(self)@.insert(name@, config),
    {
        proof { use_type_invariant(&*self); }
        let ghost old_map = self@;
        let ghost old_entries = self.entries@;
        let ghost pre = *self;
        let key = owned(name);
        let pos = self.position(name);
        assert(forall|j: int| 0 <= j < old_entries.len() && old_entries[j].0@ == name@ ==> pre.holds_at(name@, j));
        match pos {
            Some(i) => {
                let mut entries: Vec<(String, C)> = Vec::new();
                std::mem::swap(&mut entries, &mut self.entries);
                entries.set(i, (key, config));
                proof {
                    assert forall|a: int, b: int|
                        0 <= a < entries@.len() && 0 <= b < entries@.len() && a != b
                        implies #[trigger] entries@[a].0@ != #[trigger] entries@[b].0@ by {
                        if a != i && b != i {
                            assert(old_entries[a].0@ != old_entries[b].0@);
                        } else if a == i {
                            assert(old_entries[i as int].0@ != old_entries[b].0@);
                        } else {
                            assert(old_entries[i as int].0@ != old_entries[a].0@);
                        }
                    }
                }
                self.entries = entries;
                proof {
                    assert(self.holds_at(name@, i as int));
                    assert(self.entries@ == old_entries.update(i as int, (key, config)));
                    assert forall|k: Seq<char>| self@.dom().contains(k) implies #[trigger] old_map.insert(name@, config).dom().contains(k) by {
                        if k != name@ {
                            let j = choose|j: int| self.holds_at(k, j);
                            assert(j != i);
                            assert(old_entries[j].0@ == k);
                            assert(pre.holds_at(k, j));
                        }
                    }
                    assert forall|k: Seq<char>| #[trigger] old_map.insert(name@, config).dom().contains(k) implies self@.dom().contains(k) by {
                        if k != name@ {
                            assert(old_map.dom().contains(k));
                            let j = choose|j: int| pre.holds_at(k, j);
                            assert(j != i);
                            assert(self.holds_at(k, j));
                        }
                    }
                    assert forall|k: Seq<char>| #![auto] self@.dom().contains(k) implies self@[k] == old_map.insert(name@, config)[k] by {
                        let j = choose|j: int| self.holds_at(k, j);
                        if k == name@ {
                            assert(j == i);
                        } else {
                            assert(j != i);
                            assert(old_entries[j].0@ == k);
                            let m = choose|m: int| pre.holds_at(k, m);
                            assert(pre.holds_at(k, j));
                            assert(m == j);
                        }
                    }
                    assert(self@ =~= old_map.insert(name@, config));
                }
            }
            None => {
                let mut entries: Vec<(String, C)> = Vec::new();
                std::mem::swap(&mut entries, &mut self.entries);
                entries.push((key, config));
                proof {
                    let n = old_entries.len() as int;
                    assert forall|a: int, b: int|
                        0 <= a < entries@.len() && 0 <= b < entries@.len() && a != b
                        implies #[trigger] entries@[a].0@ != #[trigger] entries@[b].0@ by {
                        if a != n && b != n {
                            assert(old_entries[a].0@ != old_entries[b].0@);
                        } else if a == n {
                            assert(!pre.holds_at(name@, b));
                        } else {
                            assert(!pre.holds_at(name@, a));
                        }
                    }
                }
                self.entries = entries;
                proof {
                    let n = old_entries.len() as int;
                    assert(self.holds_at(name@, n));
                    assert(self.entries@ == old_entries.push((key, config)));
                    assert forall|k: Seq<char>| self@.dom().contains(k) implies #[trigger] old_map.insert(name@, config).dom().contains(k) by {
                        if k != name@ {
                            let j = choose|j: int| self.holds_at(k, j);
                            assert(j != n);
                            assert(pre.holds_at(k, j));
                        }
                    }
                    assert forall|k: Seq<char>| #[trigger] old_map.insert(name@, config).dom().contains(k) implies self@.dom().contains(k) by {
                        if k != name@ {
                            assert(old_map.dom().contains(k));
                            let j = choose|j: int| pre.holds_at(k, j);
                            assert(self.holds_at(k, j));
                        }
                    }
                    assert forall|k: Seq<char>| #![auto] self@.dom().contains(k) implies self@[k] == old_map.insert(name@, config)[k] by {
                        let j = choose|j: int| self.holds_at(k, j);
                        if k == name@ {
                            assert(j == n);
                        } else {
                            assert(j != n);
                            assert(old_entries[j].0@ == k);
                            let m = choose|m: int| pre.holds_at(k, m);
                            assert(pre.holds_at(k, j));
                            assert(m == j);
                        }
                    }
                    assert(self@ =~= old_map.insert(name@, config));
                }
            }
        }
    }

    /// The settings of language `name`, if it is held.
    pub fn get(&self, name: &str) -> (r: Option<&C>)
        ensures
            match r {
                Some(c) => self@.contains_key(name@) && *c == self@[name@],
                None => !self@.contains_key(name@),
            },
    {
        proof { use_type_invariant(self); }
        match self.position(name) {
            Some(i) => Some(&self.entries[i].1),
            None => None,
        }
    }
}

impl<C> View for LangRegistry<C> {
    type V = Map<Seq<char>, C>;

    open spec fn view(&self) -> Map<Seq<char>, C> {
        self.entries_map()
    }
}

/// After the settings of a language are inserted, looking that language up
/// gives exactly those settings, every other language is looked up as
/// before, and the table grows by one entry exactly when the language was
/// new.
pub proof fn law_lookup_after_insert<C>(before: Map<Seq<char>, C>, after: Map<Seq<char>, C>, name: Seq<char>, config: C)
    requires
        before.dom().finite(),
        after == before.insert(name, config),
    ensures
        after.contains_key(name),
        after[name] == config,
        forall|other: Seq<char>| other != name ==> (#[trigger] after.contains_key(other) == before.contains_key(other)
            && (before.contains_key(other) ==> after[other] == before[other])),
        after.len() == if before.contains_key(name) { before.len() } else { before.len() + 1 },
{
    if before.contains_key(name) {
        assert(after.dom() =~= before.dom());
    } else {
        assert(after.dom() =~= before.dom().insert(name));
    }
}

} // verus!
