use vstd::prelude::*;

verus! {

/// Whether `i` is the first position of `entries` that carries `name`.
spec fn is_first<T>(entries: Seq<(String, T)>, name: Seq<char>, i: int) -> bool {
    &&& 0 <= i < entries.len()
    &&& entries[i].0@ == name
    &&& forall|j: int| 0 <= j < i ==> (#[trigger] entries[j]).0@ != name
}

/// Whether some position of `entries` carries `name`.
spec fn holds<T>(entries: Seq<(String, T)>, name: Seq<char>) -> bool {
    exists|i: int| is_first(entries, name, i)
}

/// The first position of `entries` that carries `name`, if there is one.
spec fn first_index<T>(entries: Seq<(String, T)>, name: Seq<char>) -> int {
    choose|i: int| is_first(entries, name, i)
}

/// The mapping that a list of named entries stands for: a name maps to the
/// value of the first entry that carries it.
spec fn as_map<T>(entries: Seq<(String, T)>) -> Map<Seq<char>, T> {
    Map::new(
        |name: Seq<char>| holds(entries, name),
        |name: Seq<char>| entries[first_index(entries, name)].1,
    )
}

/// Whether no two positions of `entries` carry the same name.
spec fn distinct<T>(entries: Seq<(String, T)>) -> bool {
    forall|i: int, j: int|
        0 <= i < j < entries.len() ==> (#[trigger] entries[i]).0@ != (#[trigger] entries[j]).0@
}

/// Two first positions of one name are the same position.
proof fn lemma_first_is_unique<T>(entries: Seq<(String, T)>, name: Seq<char>, i: int, j: int)
    requires
        is_first(entries, name, i),
        is_first(entries, name, j),
    ensures
        i == j,
{
    if i < j {
        assert(entries[i].0@ != name);
    }
    if j < i {
        assert(entries[j].0@ != name);
    }
}

/// The first position of a name is what the mapping goes by.
proof fn lemma_first_index<T>(entries: Seq<(String, T)>, name: Seq<char>, i: int)
    requires
        is_first(entries, name, i),
    ensures
        holds(entries, name),
        first_index(entries, name) == i,
        as_map(entries).contains_key(name),
        as_map(entries)[name] == entries[i].1,
{
    lemma_first_is_unique(entries, name, i, first_index(entries, name));
}

/// Replacing the value of the first entry that carries `name` acts on the
/// mapping as an insertion under `name`.
proof fn lemma_replace_value<T>(entries: Seq<(String, T)>, name: Seq<char>, i: int, value: T)
    requires
        is_first(entries, name, i),
    ensures
        as_map(entries.update(i, (entries[i].0, value))) == as_map(entries).insert(name, value),
{
    let after = entries.update(i, (entries[i].0, value));
    assert(after.len() == entries.len());
    assert forall|k: int| 0 <= k < entries.len() implies (#[trigger] after[k]).0@ == entries[k].0@ by {}
    assert forall|other: Seq<char>, k: int| is_first(entries, other, k) implies is_first(after, other, k) by {
        assert forall|j: int| 0 <= j < k implies (#[trigger] after[j]).0@ != other by {
            assert(entries[j].0@ != other);
        }
    }
    assert forall|other: Seq<char>, k: int| is_first(after, other, k) implies is_first(entries, other, k) by {
        assert forall|j: int| 0 <= j < k implies (#[trigger] entries[j]).0@ != other by {
            assert(after[j].0@ != other);
        }
    }
    assert forall|other: Seq<char>| #[trigger] holds(after, other) == holds(entries, other) by {
        if holds(entries, other) {
            assert(is_first(after, other, first_index(entries, other)));
        }
        if holds(after, other) {
            assert(is_first(entries, other, first_index(after, other)));
        }
    }
    assert forall|other: Seq<char>| holds(after, other) implies #[trigger] as_map(after)[other]
        == as_map(entries).insert(name, value)[other] by {
        let k = first_index(after, other);
        lemma_first_index(entries, other, k);
        if other == name {
            lemma_first_is_unique(entries, name, i, k);
        }
    }
    assert(as_map(after) =~= as_map(entries).insert(name, value));
}

/// Replacing the value of an entry keeps the names apart.
proof fn lemma_replace_keeps_distinct<T>(entries: Seq<(String, T)>, i: int, value: T)
    requires
        0 <= i < entries.len(),
        distinct(entries),
    ensures
        distinct(entries.update(i, (entries[i].0, value))),
{
    let after = entries.update(i, (entries[i].0, value));
    assert forall|a: int, b: int| 0 <= a < b < after.len() implies (#[trigger] after[a]).0@ != (
    #[trigger] after[b]).0@ by {
        assert(after[a].0@ == entries[a].0@);
        assert(after[b].0@ == entries[b].0@);
    }
}

/// Appending an entry under a name that no entry carries yet keeps the names
/// apart.
proof fn lemma_append_keeps_distinct<T>(entries: Seq<(String, T)>, entry: (String, T))
    requires
        !holds(entries, entry.0@),
        distinct(entries),
    ensures
        distinct(entries.push(entry)),
{
    let after = entries.push(entry);
    assert forall|a: int, b: int| 0 <= a < b < after.len() implies (#[trigger] after[a]).0@ != (
    #[trigger] after[b]).0@ by {
        assert(after[a] == entries[a]);
        if b < entries.len() {
            assert(after[b] == entries[b]);
        } else if entries[a].0@ == entry.0@ {
            lemma_some_entry_is_first(entries, entry.0@, a);
        }
    }
}

/// Appending an entry under a name that no entry carries yet acts on the
/// mapping as an insertion under that name.
proof fn lemma_append_entry<T>(entries: Seq<(String, T)>, entry: (String, T))
    requires
        !holds(entries, entry.0@),
    ensures
        as_map(entries.push(entry)) == as_map(entries).insert(entry.0@, entry.1),
{
    let after = entries.push(entry);
    let last = entries.len() as int;
    assert forall|k: int| 0 <= k < last implies #[trigger] after[k] == entries[k] by {}
    assert forall|k: int| 0 <= k < last implies (#[trigger] entries[k]).0@ != entry.0@ by {
        if entries[k].0@ == entry.0@ {
            lemma_some_entry_is_first(entries, entry.0@, k);
        }
    }
    assert forall|other: Seq<char>, k: int| is_first(entries, other, k) implies is_first(after, other, k) by {
        assert forall|j: int| 0 <= j < k implies (#[trigger] after[j]).0@ != other by {
            assert(entries[j].0@ != other);
        }
    }
    assert forall|other: Seq<char>, k: int| is_first(after, other, k) && k < last implies is_first(
        entries,
        other,
        k,
    ) by {
        assert forall|j: int| 0 <= j < k implies (#[trigger] entries[j]).0@ != other by {
            assert(after[j].0@ != other);
        }
    }
    assert(is_first(after, entry.0@, last)) by {
        assert forall|j: int| 0 <= j < last implies (#[trigger] after[j]).0@ != entry.0@ by {
            assert(entries[j].0@ != entry.0@);
        }
    }
    assert forall|other: Seq<char>| #[trigger] holds(after, other) == (other == entry.0@ || holds(entries, other)) by {
        if holds(entries, other) {
            assert(is_first(after, other, first_index(entries, other)));
        }
        if holds(after, other) && other != entry.0@ {
            let k = first_index(after, other);
            assert(k < last);
            assert(is_first(entries, other, k));
        }
    }
    assert forall|other: Seq<char>| holds(after, other) implies #[trigger] as_map(after)[other] == as_map(
        entries,
    ).insert(entry.0@, entry.1)[other] by {
        let k = first_index(after, other);
        if other == entry.0@ {
            lemma_first_is_unique(after, other, k, last);
        } else {
            lemma_first_index(entries, other, k);
        }
    }
    assert(as_map(after) =~= as_map(entries).insert(entry.0@, entry.1));
}

/// If any entry carries `name`, then one of them is the first to do so.
proof fn lemma_some_entry_is_first<T>(entries: Seq<(String, T)>, name: Seq<char>, i: int)
    requires
        0 <= i < entries.len(),
        entries[i].0@ == name,
    ensures
        holds(entries, name),
    decreases i,
{
    if exists|j: int| 0 <= j < i && (#[trigger] entries[j]).0@ == name {
        let j = choose|j: int| 0 <= j < i && (#[trigger] entries[j]).0@ == name;
        lemma_some_entry_is_first(entries, name, j);
    } else {
        assert(is_first(entries, name, i));
    }
}

/// A table keyed by name that holds one value per name.
///
/// The table is a list of named entries, and [`NameTable::wf`] says that no
/// name occurs twice in it.
#[derive(Clone)]
pub struct NameTable<T> {
    entries: Vec<(String, T)>,
}

impl<T> View for NameTable<T> {
    type V = Map<Seq<char>, T>;

    closed spec fn view(&self) -> Map<Seq<char>, T> {
        as_map(self.entries@)
    }
}

impl<T> NameTable<T> {
    /// Whether the table is well formed: no two of its entries carry the
    /// same name.
    pub closed spec fn wf(&self) -> bool {
        distinct(self.entries@)
    }

    /// An empty table.
    pub fn new() -> (table: Self)
        ensures
            table.wf(),
            table@ == Map::<Seq<char>, T>::empty(),
    {
        let table = NameTable { entries: Vec::new() };
        assert(table@ =~= Map::<Seq<char>, T>::empty());
        table
    }

    fn position(&self, name: &String) -> (found: Option<usize>)
        ensures
            match found {
                Some(i) => is_first(self.entries@, name@, i as int),
                None => !holds(self.entries@, name@),
            },
    {
        let mut i: usize = 0;
        while i < self.entries.len()
            invariant
                i <= self.entries@.len(),
                forall|j: int| 0 <= j < i ==> (#[trigger] self.entries@[j]).0@ != name@,
            decreases self.entries@.len() - i,
        {
            if self.entries[i].0 == *name {
                return Some(i);
            }
            i = i + 1;
        }
        assert forall|k: int| !is_first(self.entries@, name@, k) by {
            if 0 <= k < self.entries@.len() {
                assert(self.entries@[k].0@ != name@);
            }
        }
        None
    }

    /// Stores `value` under `name` and hands back what was stored there before.
    pub fn insert(&mut self, name: String, value: T) -> (previous: Option<T>)
        ensures
            old(self).wf() ==> final(self).wf(),
            final(self)@ == old(self)@.insert(name@, value),
            previous == if old(self)@.contains_key(name@) {
                Some(old(self)@[name@])
            } else {
                None::<T>
            },
    {
        match self.position(&name) {
            Some(i) => {
                proof {
                    lemma_first_index(self.entries@, name@, i as int);
                    lemma_replace_value(self.entries@, name@, i as int, value);
                    if self.wf() {
                        lemma_replace_keeps_distinct(self.entries@, i as int, value);
                    }
                }
                let mut carried = value;
                core::mem::swap(&mut self.entries[i].1, &mut carried);
                Some(carried)
            },
            None => {
                proof {
                    lemma_append_entry(self.entries@, (name, value));
                    if self.wf() {
                        lemma_append_keeps_distinct(self.entries@, (name, value));
                    }
                }
                self.entries.push((name, value));
                None
            },
        }
    }

    /// The value stored under `name`, if any.
    pub fn get(&self, name: &String) -> (value: Option<&T>)
        ensures
            match value {
                Some(v) => self@.contains_key(name@) && *v == self@[name@],
                None => !self@.contains_key(name@),
            },
    {
        match self.position(name) {
            Some(i) => {
                proof {
                    lemma_first_index(self.entries@, name@, i as int);
                }
                Some(&self.entries[i].1)
            },
            None => None,
        }
    }

    /// Mutable access to the value stored under `name`, if any. Whatever the
    /// caller leaves behind the reference is what the table then holds.
    pub fn get_mut(&mut self, name: &String) -> (slot: Option<&mut T>)
        ensures
            old(self).wf() ==> final(self).wf(),
            match slot {
                Some(v) => old(self)@.contains_key(name@) && *v == old(self)@[name@]
                    && final(self)@ == old(self)@.insert(name@, *final(v)),
                None => !old(self)@.contains_key(name@) && final(self)@ == old(self)@,
            },
    {
        match self.position(name) {
            Some(i) => {
                let slot = &mut self.entries[i].1;
                proof {
                    lemma_first_index(old(self).entries@, name@, i as int);
                    lemma_replace_value(old(self).entries@, name@, i as int, *final(slot));
                    if old(self).wf() {
                        lemma_replace_keeps_distinct(old(self).entries@, i as int, *final(slot));
                    }
                }
                Some(slot)
            },
            None => None,
        }
    }
}

} // verus!
