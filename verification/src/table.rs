//! A table from names to values, for stores of a few thousand entries.
use crate::text::str_eq;
use vstd::prelude::*;

verus! {

/// A table from names to values. No name occurs twice.
pub struct Table<V> {
    entries: Vec<(String, V)>,
}

/// What a list of entries says when read from front to back: where a name
/// occurs twice, the later entry counts.
pub open spec fn entries_map<V>(entries: Seq<(String, V)>) -> Map<Seq<char>, V>
    decreases entries.len(),
{
    if entries.len() == 0 {
        Map::empty()
    } else {
        entries_map(entries.drop_last()).insert(entries.last().0@, entries.last().1)
    }
}

/// No name occurs twice.
pub open spec fn distinct_names<V>(entries: Seq<(String, V)>) -> bool {
    forall|i: int, j: int|
        0 <= i < j < entries.len() ==> (#[trigger] entries[i]).0@ != (#[trigger] entries[j]).0@
}

/// The entries of a list without repeated names are the entries of its map.
pub proof fn lemma_entries_map<V>(entries: Seq<(String, V)>)
    requires
        distinct_names(entries),
    ensures
        forall|i: int|
            0 <= i < entries.len() ==> entries_map(entries).contains_key((#[trigger] entries[i]).0@)
                && entries_map(entries)[entries[i].0@] == entries[i].1,
        forall|name: Seq<char>| #[trigger]
            entries_map(entries).contains_key(name) ==> exists|i: int|
                0 <= i < entries.len() && (#[trigger] entries[i]).0@ == name,
    decreases entries.len(),
{
    if entries.len() > 0 {
        let rest = entries.drop_last();
        lemma_entries_map(rest);
        assert forall|i: int| 0 <= i < entries.len() implies entries_map(entries).contains_key(
            (#[trigger] entries[i]).0@,
        ) && entries_map(entries)[entries[i].0@] == entries[i].1 by {
            if i < rest.len() {
                assert(rest[i] == entries[i]);
                assert(entries[i].0@ != entries[entries.len() - 1].0@);
            }
        }
        assert forall|name: Seq<char>| #[trigger]
            entries_map(entries).contains_key(name) implies exists|i: int|
            0 <= i < entries.len() && (#[trigger] entries[i]).0@ == name by {
            if name == entries.last().0@ {
                assert(entries[entries.len() - 1].0@ == name);
            } else {
                assert(entries_map(rest).contains_key(name));
                let i = choose|i: int| 0 <= i < rest.len() && (#[trigger] rest[i]).0@ == name;
                assert(entries[i].0@ == name);
            }
        }
    }
}

/// Every entry of `a` is also one of `b`, values taken by their meaning.
pub open spec fn entries_within<V: View>(a: Seq<(String, V)>, b: Seq<(String, V)>) -> bool {
    forall|i: int|
        0 <= i < a.len() ==> exists|j: int|
            0 <= j < b.len() && (#[trigger] b[j]).0@ == (#[trigger] a[i]).0@ && b[j].1@ == a[i].1@
}

/// Two lists with the same entries, in whatever order, mean the same.
pub proof fn lemma_same_entries<V: View>(a: Seq<(String, V)>, b: Seq<(String, V)>)
    requires
        distinct_names(a),
        distinct_names(b),
        entries_within(a, b),
        entries_within(b, a),
    ensures
        entries_map(a).map_values(|v: V| v@) == entries_map(b).map_values(|v: V| v@),
{
    lemma_entries_map(a);
    lemma_entries_map(b);
    let left = entries_map(a).map_values(|v: V| v@);
    let right = entries_map(b).map_values(|v: V| v@);
    assert forall|name: Seq<char>| left.contains_key(name) implies right.contains_key(name)
        && left[name] == right[name] by {
        assert(entries_map(a).contains_key(name));
        let i = choose|i: int| 0 <= i < a.len() && (#[trigger] a[i]).0@ == name;
        let j = choose|j: int|
            0 <= j < b.len() && (#[trigger] b[j]).0@ == a[i].0@ && b[j].1@ == a[i].1@;
        assert(b[j].0@ == name);
    }
    assert forall|name: Seq<char>| right.contains_key(name) implies left.contains_key(name) by {
        assert(entries_map(b).contains_key(name));
        let i = choose|i: int| 0 <= i < b.len() && (#[trigger] b[i]).0@ == name;
        let j = choose|j: int|
            0 <= j < a.len() && (#[trigger] a[j]).0@ == b[i].0@ && a[j].1@ == b[i].1@;
        assert(a[j].0@ == name);
    }
    assert(left =~= right);
}

proof fn lemma_entries_map_update<V>(entries: Seq<(String, V)>, k: int, entry: (String, V))
    requires
        distinct_names(entries),
        0 <= k < entries.len(),
        entry.0@ == entries[k].0@,
    ensures
        distinct_names(entries.update(k, entry)),
        entries_map(entries.update(k, entry)) == entries_map(entries).insert(entry.0@, entry.1),
{
    let updated = entries.update(k, entry);
    assert forall|i: int, j: int| 0 <= i < j < updated.len() implies (#[trigger] updated[i]).0@ != (
    #[trigger] updated[j]).0@ by {
        assert(entries[i].0@ != entries[j].0@);
    }
    lemma_entries_map(entries);
    lemma_entries_map(updated);
    let left = entries_map(updated);
    let right = entries_map(entries).insert(entry.0@, entry.1);
    assert forall|name: Seq<char>| left.contains_key(name) == right.contains_key(name) by {
        if left.contains_key(name) {
            let i = choose|i: int| 0 <= i < updated.len() && (#[trigger] updated[i]).0@ == name;
            assert(entries[i].0@ == name);
        }
        if right.contains_key(name) {
            if name == entry.0@ {
                assert(updated[k].0@ == name);
            } else {
                let i = choose|i: int| 0 <= i < entries.len() && (#[trigger] entries[i]).0@ == name;
                assert(updated[i].0@ == name);
            }
        }
    }
    assert forall|name: Seq<char>| left.contains_key(name) implies left[name] == right[name] by {
        let i = choose|i: int| 0 <= i < updated.len() && (#[trigger] updated[i]).0@ == name;
        assert(updated[i].0@ == name);
        assert(entries[i].0@ == name);
    }
    assert(left =~= right);
}

impl<V> View for Table<V> {
    type V = Map<Seq<char>, V>;

    closed spec fn view(&self) -> Map<Seq<char>, V> {
        entries_map(self.entries@)
    }
}

impl<V> Table<V> {
    #[verifier::type_invariant]
    spec fn well_formed(&self) -> bool {
        distinct_names(self.entries@)
    }

    /// An empty table.
    pub fn new() -> (table: Table<V>)
        ensures
            table@ == Map::<Seq<char>, V>::empty(),
    {
        Table { entries: Vec::new() }
    }

    fn find(&self, name: &str) -> (r: Option<usize>)
        ensures
            match r {
                Some(i) => i < self.entries@.len() && self.entries@[i as int].0@ == name@
                    && self@.contains_key(name@) && self@[name@] == self.entries@[i as int].1,
                None => !self@.contains_key(name@) && forall|i: int|
                    0 <= i < self.entries@.len() ==> (#[trigger] self.entries@[i]).0@ != name@,
            },
    {
        proof {
            use_type_invariant(self);
            lemma_entries_map(self.entries@);
        }
        let mut i: usize = 0;
        while i < self.entries.len()
            invariant
                i <= self.entries@.len(),
                forall|j: int| 0 <= j < i ==> (#[trigger] self.entries@[j]).0@ != name@,
                forall|j: int|
                    0 <= j < self.entries@.len() ==> self@.contains_key(
                        (#[trigger] self.entries@[j]).0@,
                    ) && self@[self.entries@[j].0@] == self.entries@[j].1,
            decreases self.entries@.len() - i,
        {
            if str_eq(self.entries[i].0.as_str(), name) {
                return Some(i);
            }
            i = i + 1;
        }
        None
    }

    /// The value under `name`.
    pub fn get(&self, name: &str) -> (r: Option<&V>)
        ensures
            match r {
                Some(value) => self@.contains_key(name@) && *value == self@[name@],
                None => !self@.contains_key(name@),
            },
    {
        match self.find(name) {
            Some(i) => Some(&self.entries[i].1),
            None => None,
        }
    }

    /// Puts `value` under `name`, in place of what was there.
    pub fn insert(&mut self, name: String, value: V)
        ensures
            final(self)@ == old(self)@.insert(name@, value),
    {
        proof {
            use_type_invariant(&*self);
        }
        let found = self.find(name.as_str());
        let mut entries: Vec<(String, V)> = Vec::new();
        std::mem::swap(&mut entries, &mut self.entries);
        let ghost before = entries@;
        let entry = (name, value);
        match found {
            Some(i) => {
                proof {
                    lemma_entries_map_update(before, i as int, entry);
                }
                entries.set(i, entry);
            },
            None => {
                entries.push(entry);
                assert(entries@.drop_last() =~= before);
            },
        }
        self.entries = entries;
    }

    /// The table that a list of entries says when read from front to back.
    pub fn from_entries(entries: Vec<(String, V)>) -> (table: Table<V>)
        ensures
            table@ == entries_map(entries@),
    {
        let ghost all = entries@;
        let mut table: Table<V> = Table::new();
        assert(all.take(0) =~= Seq::<(String, V)>::empty());
        for entry in it: entries
            invariant
                it.seq() == all,
                table@ == entries_map(all.take(it.index())),
        {
            assert(all.take(it.index() + 1).drop_last() =~= all.take(it.index()));
            table.insert(entry.0, entry.1);
        }
        assert(all.take(all.len() as int) =~= all);
        table
    }

    /// The entries of the table, each name once.
    pub fn entries(&self) -> (r: &Vec<(String, V)>)
        ensures
            entries_map(r@) == self@,
            distinct_names(r@),
    {
        proof {
            use_type_invariant(self);
        }
        &self.entries
    }
}

/// The later of two entries under one name counts, and an entry leaves all other
/// names alone.
pub proof fn law_later_entry_counts<V>(
    entries: Seq<(String, V)>,
    entry: (String, V),
    name: Seq<char>,
)
    ensures
        entries_map(entries.push(entry)).contains_key(entry.0@),
        entries_map(entries.push(entry))[entry.0@] == entry.1,
        name != entry.0@ ==> entries_map(entries.push(entry)).contains_key(name) == entries_map(
            entries,
        ).contains_key(name),
        name != entry.0@ && entries_map(entries).contains_key(name) ==> entries_map(
            entries.push(entry),
        )[name] == entries_map(entries)[name],
        entries_map(Seq::<(String, V)>::empty()) == Map::<Seq<char>, V>::empty(),
{
    assert(entries.push(entry).drop_last() =~= entries);
}

/// No two entries of a list without repeated names share a name.
pub proof fn law_names_are_distinct<V>(entries: Seq<(String, V)>, i: int, j: int)
    requires
        distinct_names(entries),
        0 <= i < entries.len(),
        0 <= j < entries.len(),
        entries[i].0@ == entries[j].0@,
    ensures
        i == j,
{
}

} // verus!
