use vstd::prelude::*;

verus! {

/// The map that a list of named entries stands for; a later entry for a
/// name wins over an earlier one (with distinct names, no entry is hidden).
pub open spec fn entries_map<V>(entries: Seq<(String, V)>) -> Map<Seq<char>, V>
    decreases entries.len(),
{
    if entries.len() == 0 {
        Map::empty()
    } else {
        entries_map(entries.drop_last()).insert(entries.last().0@, entries.last().1)
    }
}

/// No name occurs twice in the list.
pub open spec fn distinct_names<V>(entries: Seq<(String, V)>) -> bool {
    forall|i: int, j: int|
        0 <= i < j < entries.len() ==> (#[trigger] entries[i]).0@ != (#[trigger] entries[j]).0@
}

/// A name is in the map of a list exactly when some entry of the list has it.
pub proof fn lemma_entries_map_contains<V>(entries: Seq<(String, V)>, name: Seq<char>)
    ensures
        entries_map(entries).contains_key(name) <==> exists|i: int|
            0 <= i < entries.len() && (#[trigger] entries[i]).0@ == name,
    decreases entries.len(),
{
    if entries.len() > 0 {
        let prefix = entries.drop_last();
        lemma_entries_map_contains(prefix, name);
        if entries_map(prefix).contains_key(name) {
            let i = choose|i: int| 0 <= i < prefix.len() && (#[trigger] prefix[i]).0@ == name;
            assert(entries[i] == prefix[i]);
        }
        if exists|i: int| 0 <= i < entries.len() && (#[trigger] entries[i]).0@ == name {
            let i = choose|i: int| 0 <= i < entries.len() && (#[trigger] entries[i]).0@ == name;
            if i < entries.len() - 1 {
                assert(prefix[i] == entries[i]);
            }
        }
    }
}

/// With distinct names, each entry's value is what the map gives for its name.
pub proof fn lemma_entries_map_value<V>(entries: Seq<(String, V)>, i: int)
    requires
        distinct_names(entries),
        0 <= i < entries.len(),
    ensures
        entries_map(entries).contains_key(entries[i].0@),
        entries_map(entries)[entries[i].0@] == entries[i].1,
    decreases entries.len(),
{
    let prefix = entries.drop_last();
    if i < entries.len() - 1 {
        assert(prefix[i] == entries[i]);
        assert forall|a: int, b: int| 0 <= a < b < prefix.len() implies (#[trigger] prefix[a]).0@
            != (#[trigger] prefix[b]).0@ by {
            assert(prefix[a] == entries[a] && prefix[b] == entries[b]);
        }
        lemma_entries_map_value(prefix, i);
        assert(entries[i].0@ != entries[entries.len() - 1].0@);
    }
}

/// With distinct names, dropping an entry drops its name from the map and
/// nothing else.
pub proof fn lemma_entries_map_remove<V>(entries: Seq<(String, V)>, i: int)
    requires
        distinct_names(entries),
        0 <= i < entries.len(),
    ensures
        entries_map(entries.remove(i)) == entries_map(entries).remove(entries[i].0@),
        distinct_names(entries.remove(i)),
    decreases entries.len(),
{
    let rest = entries.remove(i);
    let name = entries[i].0@;
    assert forall|a: int, b: int| 0 <= a < b < rest.len() implies (#[trigger] rest[a]).0@
        != (#[trigger] rest[b]).0@ by {
        let a2 = if a < i { a } else { a + 1 };
        let b2 = if b < i { b } else { b + 1 };
        assert(rest[a] == entries[a2] && rest[b] == entries[b2]);
    }
    let prefix = entries.drop_last();
    assert forall|a: int, b: int| 0 <= a < b < prefix.len() implies (#[trigger] prefix[a]).0@
        != (#[trigger] prefix[b]).0@ by {
        assert(prefix[a] == entries[a] && prefix[b] == entries[b]);
    }
    if i == entries.len() - 1 {
        assert(rest =~= prefix);
        assert(!entries_map(prefix).contains_key(name)) by {
            lemma_entries_map_contains(prefix, name);
            if exists|j: int| 0 <= j < prefix.len() && (#[trigger] prefix[j]).0@ == name {
                let j = choose|j: int| 0 <= j < prefix.len() && (#[trigger] prefix[j]).0@ == name;
                assert(prefix[j] == entries[j]);
            }
        }
        assert(entries_map(rest) =~= entries_map(entries).remove(name));
    } else {
        lemma_entries_map_remove(prefix, i);
        assert(prefix[i] == entries[i]);
        assert(rest.drop_last() =~= prefix.remove(i));
        assert(rest.last() == entries.last());
        assert(entries.last().0@ != name);
        assert(entries_map(rest) =~= entries_map(entries).remove(name));
    }
}

/// Named values that a stage hands on to the stages after it.
/// Each name occurs at most once.
pub struct ProgressVars<V> {
    vars: Vec<(String, V)>,
}

impl<V> View for ProgressVars<V> {
    type V = Map<Seq<char>, V>;

    closed spec fn view(&self) -> Map<Seq<char>, V> {
        entries_map(self.vars@)
    }
}

impl<V> ProgressVars<V> {
    #[verifier::type_invariant]
    closed spec fn names_are_distinct(self) -> bool {
        distinct_names(self.vars@)
    }

    /// An empty set of variables.
    pub fn new() -> (vars: Self)
        ensures
            vars@ == Map::<Seq<char>, V>::empty(),
    {
        ProgressVars { vars: Vec::new() }
    }

    /// The position of the entry named `key`, if there is one.
    fn position(&self, key: &str) -> (pos: Option<usize>)
        ensures
            match pos {
                Some(i) => i < self.vars@.len() && self.vars@[i as int].0@ == key@,
                None => !self@.contains_key(key@),
            },
    {
        let name = key.to_owned();
        let mut i: usize = 0;
        while i < self.vars.len()
            invariant
                i <= self.vars@.len(),
                name@ == key@,
                forall|j: int| 0 <= j < i ==> (#[trigger] self.vars@[j]).0@ != key@,
            decreases self.vars@.len() - i,
        {
            if self.vars[i].0 == name {
                return Some(i);
            }
            i = i + 1;
        }
        proof {
            lemma_entries_map_contains(self.vars@, key@);
        }
        None
    }

    /// Removes the variable named `key` and hands it back, if there is one.
    /// To use it again later, insert it again.
    pub fn extract_var(&mut self, key: &str) -> (value: Option<V>)
        ensures
            final(self)@ == old(self)@.remove(key@),
            match value {
                Some(v) => old(self)@.contains_key(key@) && v == old(self)@[key@],
                None => !old(self)@.contains_key(key@),
            },
    {
        proof {
            use_type_invariant(&*self);
        }
        match self.position(key) {
            None => {
                assert(old(self)@.remove(key@) =~= old(self)@);
                None
            },
            Some(i) => {
                proof {
                    lemma_entries_map_value(self.vars@, i as int);
                    lemma_entries_map_remove(self.vars@, i as int);
                }
                let mut entries = Vec::new();
                std::mem::swap(&mut entries, &mut self.vars);
                let (_, value) = entries.remove(i);
                self.vars = entries;
                Some(value)
            },
        }
    }

    /// Stores `boxed` under the name `key`, replacing what was stored
    /// under that name before.
    pub fn insert_var(&mut self, key: &str, boxed: V)
        ensures
            final(self)@ == old(self)@.insert(key@, boxed),
    {
        proof {
            use_type_invariant(&*self);
        }
        let name = key.to_owned();
        match self.position(key) {
            None => {
                proof {
                    lemma_entries_map_contains(self.vars@, key@);
                }
                assert forall|a: int, b: int|
                    0 <= a < b < self.vars@.push((name, boxed)).len() implies (#[trigger] self.vars@.push(
                    (name, boxed),
                )[a]).0@ != (#[trigger] self.vars@.push((name, boxed))[b]).0@ by {
                    if b == self.vars@.len() {
                        assert(self.vars@.push((name, boxed))[a] == self.vars@[a]);
                    }
                }
                let mut entries = Vec::new();
                std::mem::swap(&mut entries, &mut self.vars);
                entries.push((name, boxed));
                assert(entries@.drop_last() =~= old(self).vars@);
                self.vars = entries;
            },
            Some(i) => {
                proof {
                    lemma_entries_map_remove(self.vars@, i as int);
                }
                let ghost rest = self.vars@.remove(i as int);
                proof {
                    lemma_entries_map_contains(rest, key@);
                    assert(!entries_map(rest).contains_key(key@));
                }
                assert forall|a: int, b: int|
                    0 <= a < b < rest.push((name, boxed)).len() implies (#[trigger] rest.push(
                    (name, boxed),
                )[a]).0@ != (#[trigger] rest.push((name, boxed))[b]).0@ by {
                    if b == rest.len() {
                        assert(rest.push((name, boxed))[a] == rest[a]);
                    } else {
                        assert(rest.push((name, boxed))[a] == rest[a]);
                        assert(rest.push((name, boxed))[b] == rest[b]);
                    }
                }
                let mut entries = Vec::new();
                std::mem::swap(&mut entries, &mut self.vars);
                entries.remove(i);
                entries.push((name, boxed));
                assert(entries@.drop_last() =~= rest);
                assert(entries_map(entries@) =~= old(self)@.insert(key@, boxed));
                self.vars = entries;
            },
        }
    }

    /// Whether a variable named `key` is stored.
    pub fn var_exists(&self, key: &str) -> (exists: bool)
        ensures
            exists == self@.contains_key(key@),
    {
        proof {
            use_type_invariant(self);
        }
        match self.position(key) {
            None => false,
            Some(i) => {
                proof {
                    lemma_entries_map_value(self.vars@, i as int);
                }
                true
            },
        }
    }

    /// Takes out every variable, leaving none behind. Each name occurs
    /// once in what is handed back, and together the entries are exactly
    /// the variables that were stored.
    pub fn drain_vars(&mut self) -> (drained: Vec<(String, V)>)
        ensures
            final(self)@ == Map::<Seq<char>, V>::empty(),
            entries_map(drained@) == old(self)@,
            distinct_names(drained@),
    {
        proof {
            use_type_invariant(&*self);
        }
        let mut drained = Vec::new();
        std::mem::swap(&mut drained, &mut self.vars);
        drained
    }

    /// Calls `ok_cb` with the variable named `key`, if there is one;
    /// otherwise does nothing. The callback need only accept the stored
    /// value: it is called with nothing else.
    pub fn peak_var<F: FnMut(&V)>(&self, key: &str, ok_cb: F)
        requires
            self@.contains_key(key@) ==> call_requires(ok_cb, (&self@[key@],)),
        ensures
            self@.contains_key(key@) ==> call_ensures(ok_cb, (&self@[key@],), ()),
    {
        proof {
            use_type_invariant(self);
        }
        let mut cb = ok_cb;
        if let Some(i) = self.position(key) {
            proof {
                lemma_entries_map_value(self.vars@, i as int);
            }
            cb(&self.vars[i].1);
        }
    }

    /// A clone of the variable named `key`, if there is one.
    pub fn clone_var(&self, key: &str) -> (value: Option<V>) where V: Clone
        ensures
            value is Some <==> self@.contains_key(key@),
            value matches Some(v) ==> cloned(self@[key@], v),
    {
        proof {
            use_type_invariant(self);
        }
        match self.position(key) {
            None => None,
            Some(i) => {
                proof {
                    lemma_entries_map_value(self.vars@, i as int);
                }
                Some(self.vars[i].1.clone())
            },
        }
    }
}

impl<V> Default for ProgressVars<V> {
    fn default() -> (vars: Self)
        ensures
            vars@ == Map::<Seq<char>, V>::empty(),
    {
        ProgressVars::new()
    }
}

} // verus!
