//! A finite mapping from attribute names to attribute values.
//!
//! The mapping is kept as a list of `(name, value)` entries in which no name
//! occurs twice. Its mathematical model is a `Map` from names to values, both
//! taken as sequences of characters.

use vstd::prelude::*;

verus! {

/// An attribute mapping: each name has at most one value.
#[derive(Debug)]
pub struct Attributes {
    entries: Vec<(String, String)>,
}

/// The names of a list of entries, in order.
pub open spec fn entry_names(entries: Seq<(Seq<char>, Seq<char>)>) -> Seq<Seq<char>> {
    Seq::new(entries.len(), |i: int| entries[i].0)
}

/// No name occurs twice among the entries.
pub open spec fn names_distinct(entries: Seq<(Seq<char>, Seq<char>)>) -> bool {
    forall|i: int, j: int|
        0 <= i < j < entries.len() ==> #[trigger] entries[i].0 != #[trigger] entries[j].0
}

/// The mapping that a list of entries with distinct names stands for.
pub open spec fn entries_map(entries: Seq<(Seq<char>, Seq<char>)>) -> Map<Seq<char>, Seq<char>> {
    Map::new(
        |name: Seq<char>| exists|i: int| 0 <= i < entries.len() && #[trigger] entries[i].0 == name,
        |name: Seq<char>|
            entries[choose|i: int| 0 <= i < entries.len() && #[trigger] entries[i].0 == name].1,
    )
}

/// With distinct names, the entry at position `i` is what the mapping holds
/// for its name.
pub proof fn lemma_entries_map_at(entries: Seq<(Seq<char>, Seq<char>)>, i: int)
    requires
        names_distinct(entries),
        0 <= i < entries.len(),
    ensures
        entries_map(entries).contains_key(entries[i].0),
        entries_map(entries)[entries[i].0] == entries[i].1,
{
    let name = entries[i].0;
    let j = choose|j: int| 0 <= j < entries.len() && #[trigger] entries[j].0 == name;
}

impl View for Attributes {
    type V = Map<Seq<char>, Seq<char>>;

    closed spec fn view(&self) -> Map<Seq<char>, Seq<char>> {
        entries_map(self.entries.deep_view())
    }
}

impl Attributes {
    /// No name occurs twice.
    #[verifier::type_invariant]
    closed spec fn wf(&self) -> bool {
        names_distinct(self.entries.deep_view())
    }

    /// The entries as pairs of a name and its value.
    spec fn pairs(&self) -> Seq<(Seq<char>, Seq<char>)> {
        self.entries.deep_view()
    }

    /// The empty mapping.
    pub fn new() -> (attributes: Attributes)
        ensures
            attributes@ == Map::<Seq<char>, Seq<char>>::empty(),
    {
        let attributes = Attributes { entries: Vec::new() };
        attributes
    }

    /// The number of names in the mapping.
    pub fn len(&self) -> (n: usize)
        ensures
            self@.dom().finite(),
            n == self@.dom().len(),
    {
        proof {
            use_type_invariant(self);
            lemma_entries_map_dom(self.entries.deep_view());
        }
        self.entries.len()
    }

    /// The position of `name` among the entries, if it is there.
    fn position(&self, name: &String) -> (found: Option<usize>)
        ensures
            match found {
                Some(i) => i < self.pairs().len() && self.pairs()[i as int].0 == name@,
                None => forall|i: int| 0 <= i < self.pairs().len() ==> self.pairs()[i].0 != name@,
            },
    {
        let mut i: usize = 0;
        while i < self.entries.len()
            invariant
                i <= self.entries@.len(),
                forall|k: int| 0 <= k < i ==> self.pairs()[k].0 != name@,
            decreases self.entries@.len() - i,
        {
            if self.entries[i].0 == *name {
                return Some(i);
            }
            i += 1;
        }
        None
    }

    /// The value that the mapping holds for `name`, if any.
    pub fn get(&self, name: &String) -> (value: Option<&String>)
        ensures
            match value {
                Some(v) => self@.contains_key(name@) && self@[name@] == v@,
                None => !self@.contains_key(name@),
            },
    {
        proof {
            use_type_invariant(self);
        }
        match self.position(name) {
            Some(i) => {
                let entry = &self.entries[i];
                proof {
                    lemma_entries_map_at(self.pairs(), i as int);
                }
                Some(&entry.1)
            },
            None => {
                assert(!self@.contains_key(name@)) by {
                    if self@.contains_key(name@) {
                        let k = choose|k: int|
                            0 <= k < self.pairs().len() && #[trigger] self.pairs()[k].0 == name@;
                        assert(self.pairs()[k].0 != name@);
                    }
                }
                None
            },
        }
    }

    /// Whether the mapping holds a value for `name`.
    pub fn contains(&self, name: &String) -> (known: bool)
        ensures
            known == self@.contains_key(name@),
    {
        self.get(name).is_some()
    }

    /// Sets the value for `name`, replacing the value it had, if any.
    pub fn insert(&mut self, name: String, value: String)
        ensures
            final(self)@ == old(self)@.insert(name@, value@),
    {
        proof {
            use_type_invariant(&*self);
        }
        let found = self.position(&name);
        let ghost before = self.pairs();
        let mut entries: Vec<(String, String)> = Vec::new();
        core::mem::swap(&mut self.entries, &mut entries);
        match found {
            Some(i) => {
                entries.set(i, (name, value));
                proof {
                    let after = entries.deep_view();
                    assert forall|a: int, b: int| 0 <= a < b < after.len() implies after[a].0
                        != after[b].0 by {
                        assert(before[a].0 != before[b].0);
                    }
                    lemma_entries_map_update(before, i as int, after);
                }
            },
            None => {
                entries.push((name, value));
                proof {
                    let after = entries.deep_view();
                    assert forall|a: int, b: int| 0 <= a < b < after.len() implies after[a].0
                        != after[b].0 by {
                        if b < before.len() {
                            assert(before[a].0 != before[b].0);
                        } else {
                            assert(before[a].0 != name@);
                        }
                    }
                    lemma_entries_map_push(before, after);
                }
            },
        }
        self.entries = entries;
    }

    /// The entries of the mapping: one for each name, with its value.
    pub fn entries(&self) -> (entries: &Vec<(String, String)>)
        ensures
            names_distinct(entries.deep_view()),
            entries_map(entries.deep_view()) == self@,
    {
        proof {
            use_type_invariant(self);
        }
        &self.entries
    }
}

/// The mapping of a list of entries with distinct names has exactly as many
/// names as the list has entries.
pub proof fn lemma_entries_map_dom(entries: Seq<(Seq<char>, Seq<char>)>)
    requires
        names_distinct(entries),
    ensures
        entries_map(entries).dom().finite(),
        entries_map(entries).dom().len() == entries.len(),
        entries_map(entries).dom() == entry_names(entries).to_set(),
{
    let names = entry_names(entries);
    assert forall|name: Seq<char>| entries_map(entries).dom().contains(name) implies names.to_set().contains(
        name,
    ) by {
        let i = choose|i: int| 0 <= i < entries.len() && #[trigger] entries[i].0 == name;
        assert(names[i] == name);
    }
    assert(entries_map(entries).dom() =~= names.to_set());
    assert(names.no_duplicates());
    names.unique_seq_to_set();
    vstd::seq_lib::seq_to_set_is_finite(names);
}

/// Replacing the entry at `i` by one of the same name sets that name's value.
proof fn lemma_entries_map_update(
    before: Seq<(Seq<char>, Seq<char>)>,
    i: int,
    after: Seq<(Seq<char>, Seq<char>)>,
)
    requires
        names_distinct(before),
        names_distinct(after),
        0 <= i < before.len(),
        after.len() == before.len(),
        after[i].0 == before[i].0,
        forall|k: int| 0 <= k < before.len() && k != i ==> after[k] == before[k],
    ensures
        entries_map(after) == entries_map(before).insert(after[i].0, after[i].1),
{
    let target = entries_map(before).insert(after[i].0, after[i].1);
    assert forall|name: Seq<char>| entries_map(after).dom().contains(name) implies entries_map(
        after,
    )[name] == target[name] by {
        let k = choose|k: int| 0 <= k < after.len() && #[trigger] after[k].0 == name;
        lemma_entries_map_at(after, k);
        if k != i {
            lemma_entries_map_at(before, k);
        }
    }
    assert(entries_map(after) =~= target);
}

/// Appending an entry with a new name adds that name with its value.
proof fn lemma_entries_map_push(
    before: Seq<(Seq<char>, Seq<char>)>,
    after: Seq<(Seq<char>, Seq<char>)>,
)
    requires
        names_distinct(before),
        names_distinct(after),
        after.len() == before.len() + 1,
        forall|k: int| 0 <= k < before.len() ==> after[k] == before[k],
    ensures
        entries_map(after) == entries_map(before).insert(after.last().0, after.last().1),
{
    let last = after.len() - 1;
    let target = entries_map(before).insert(after[last].0, after[last].1);
    assert forall|name: Seq<char>| entries_map(after).dom().contains(name) implies entries_map(
        after,
    )[name] == target[name] by {
        let k = choose|k: int| 0 <= k < after.len() && #[trigger] after[k].0 == name;
        lemma_entries_map_at(after, k);
        if k != last {
            lemma_entries_map_at(before, k);
        }
    }
    assert(entries_map(after) =~= target);
}

} // verus!
