//! A small table of named settings.
//!
//! The table holds each name once. It is meant for a handful of entries,
//! and looks a name up by going through them.

use vstd::prelude::*;

verus! {

/// Settings by name.
#[derive(Debug)]
pub struct Settings {
    entries: Vec<(String, String)>,
}

/// The names and values of a list of entries, as plain text.
pub open spec fn pairs(entries: Seq<(String, String)>) -> Seq<(Seq<char>, Seq<char>)> {
    Seq::new(entries.len(), |i: int| (entries[i].0@, entries[i].1@))
}

/// The table that a list of entries stands for: each entry in turn sets
/// the value of its name.
pub open spec fn table_of(entries: Seq<(Seq<char>, Seq<char>)>) -> Map<Seq<char>, Seq<char>>
    decreases entries.len(),
{
    if entries.len() == 0 {
        Map::empty()
    } else {
        table_of(entries.drop_last()).insert(entries.last().0, entries.last().1)
    }
}

/// No name occurs in two entries.
pub open spec fn distinct_names(entries: Seq<(Seq<char>, Seq<char>)>) -> bool {
    forall|i: int, j: int|
        0 <= i < entries.len() && 0 <= j < entries.len() && i != j ==> entries[i].0 != entries[j].0
}

/// A table has exactly the names of its entries.
pub proof fn lemma_table_names(entries: Seq<(Seq<char>, Seq<char>)>, name: Seq<char>)
    ensures
        table_of(entries).contains_key(name) <==> exists|i: int|
            0 <= i < entries.len() && #[trigger] entries[i].0 == name,
    decreases entries.len(),
{
    if entries.len() > 0 {
        let front = entries.drop_last();
        lemma_table_names(front, name);
        if table_of(entries).contains_key(name) {
            if entries.last().0 == name {
                assert(entries[entries.len() - 1].0 == name);
            } else {
                let i = choose|i: int| 0 <= i < front.len() && #[trigger] front[i].0 == name;
                assert(entries[i].0 == name);
            }
        }
        if exists|i: int| 0 <= i < entries.len() && #[trigger] entries[i].0 == name {
            let i = choose|i: int| 0 <= i < entries.len() && #[trigger] entries[i].0 == name;
            if i < front.len() {
                assert(front[i].0 == name);
            }
        }
    }
}

/// Where names are distinct, a table gives each entry's value for its
/// name.
pub proof fn lemma_table_value(entries: Seq<(Seq<char>, Seq<char>)>, at: int)
    requires
        distinct_names(entries),
        0 <= at < entries.len(),
    ensures
        table_of(entries).contains_key(entries[at].0),
        table_of(entries)[entries[at].0] == entries[at].1,
    decreases entries.len(),
{
    let front = entries.drop_last();
    if at < front.len() {
        assert(distinct_names(front)) by {
            assert forall|i: int, j: int|
                0 <= i < front.len() && 0 <= j < front.len() && i != j implies front[i].0
                != front[j].0 by {
                assert(entries[i].0 != entries[j].0);
            }
        }
        lemma_table_value(front, at);
        assert(entries[at].0 != entries[entries.len() - 1].0);
        assert(front[at] == entries[at]);
    }
}

/// Where names are distinct, giving an entry a new value sets the value
/// of its name in the table and nothing else.
pub proof fn lemma_table_update(
    entries: Seq<(Seq<char>, Seq<char>)>,
    at: int,
    value: Seq<char>,
)
    requires
        distinct_names(entries),
        0 <= at < entries.len(),
    ensures
        table_of(entries.update(at, (entries[at].0, value))) == table_of(entries).insert(
            entries[at].0,
            value,
        ),
        distinct_names(entries.update(at, (entries[at].0, value))),
    decreases entries.len(),
{
    let name = entries[at].0;
    let updated = entries.update(at, (name, value));
    let front = entries.drop_last();
    assert forall|i: int, j: int|
        0 <= i < updated.len() && 0 <= j < updated.len() && i != j implies updated[i].0
        != updated[j].0 by {
        assert(entries[i].0 != entries[j].0);
    }
    if at == entries.len() - 1 {
        assert(updated.drop_last() == front);
        assert(table_of(updated) == table_of(entries).insert(name, value));
    } else {
        assert(distinct_names(front)) by {
            assert forall|i: int, j: int|
                0 <= i < front.len() && 0 <= j < front.len() && i != j implies front[i].0
                != front[j].0 by {
                assert(entries[i].0 != entries[j].0);
            }
        }
        assert(front[at] == entries[at]);
        lemma_table_update(front, at, value);
        assert(updated.drop_last() == front.update(at, (name, value)));
        assert(updated.last() == entries.last());
        assert(entries[at].0 != entries[entries.len() - 1].0);
        assert(table_of(updated) == table_of(entries).insert(name, value));
    }
}

impl View for Settings {
    type V = Map<Seq<char>, Seq<char>>;

    closed spec fn view(&self) -> Map<Seq<char>, Seq<char>> {
        table_of(pairs(self.entries@))
    }
}

impl Settings {
    /// No name is held twice.
    pub closed spec fn wf(&self) -> bool {
        distinct_names(pairs(self.entries@))
    }

    /// The entries in the order in which their names came in.
    pub closed spec fn spec_entries(&self) -> Seq<(Seq<char>, Seq<char>)> {
        pairs(self.entries@)
    }

    /// A table without entries.
    pub fn new() -> (settings: Settings)
        ensures
            settings.wf(),
            settings@ == Map::<Seq<char>, Seq<char>>::empty(),
            settings.spec_entries() == Seq::<(Seq<char>, Seq<char>)>::empty(),
    {
        let settings = Settings { entries: Vec::new() };
        assert(pairs(settings.entries@) == Seq::<(Seq<char>, Seq<char>)>::empty());
        settings
    }

    /// Where the name stands among the entries, if it does.
    fn position(&self, name: &str) -> (found: Option<usize>)
        ensures
            match found {
                Some(at) => at < self.entries@.len() && self.entries@[at as int].0@ == name@,
                None => forall|i: int|
                    0 <= i < self.entries@.len() ==> (#[trigger] self.entries@[i]).0@ != name@,
            },
    {
        let wanted = name.to_owned();
        let mut i: usize = 0;
        while i < self.entries.len()
            invariant
                i <= self.entries@.len(),
                wanted@ == name@,
                forall|j: int| 0 <= j < i ==> (#[trigger] self.entries@[j]).0@ != name@,
            decreases self.entries.len() - i,
        {
            if self.entries[i].0 == wanted {
                return Some(i);
            }
            i += 1;
        }
        None
    }

    /// The value of a name, or `None` where the table does not hold it.
    pub fn get(&self, name: &str) -> (value: Option<&String>)
        requires
            self.wf(),
        ensures
            value.is_some() <==> self@.contains_key(name@),
            value matches Some(text) ==> text@ == self@[name@],
    {
        proof {
            lemma_table_names(pairs(self.entries@), name@);
        }
        match self.position(name) {
            Some(at) => {
                proof {
                    lemma_table_value(pairs(self.entries@), at as int);
                    assert(pairs(self.entries@)[at as int].0 == name@);
                }
                Some(&self.entries[at].1)
            },
            None => {
                proof {
                    if self@.contains_key(name@) {
                        let i = choose|i: int|
                            0 <= i < pairs(self.entries@).len() && #[trigger] pairs(
                                self.entries@,
                            )[i].0 == name@;
                        assert(self.entries@[i].0@ == name@);
                    }
                }
                None
            },
        }
    }

    /// Sets the value of a name, whether the table held the name or not.
    pub fn insert(&mut self, name: String, value: String)
        requires
            old(self).wf(),
        ensures
            final(self).wf(),
            final(self)@ == old(self)@.insert(name@, value@),
    {
        let ghost before = pairs(self.entries@);
        match self.position(name.as_str()) {
            Some(at) => {
                proof {
                    lemma_table_update(before, at as int, value@);
                }
                self.entries.set(at, (name, value));
                assert(pairs(self.entries@) == before.update(
                    at as int,
                    (before[at as int].0, value@),
                ));
            },
            None => {
                self.entries.push((name, value));
                assert(pairs(self.entries@) == before.push((name@, value@)));
                assert(pairs(self.entries@).drop_last() == before);
                let ghost after = before.push((name@, value@));
                assert forall|i: int, j: int|
                    0 <= i < after.len() && 0 <= j < after.len() && i != j implies after[i].0
                    != after[j].0 by {
                    if i < before.len() && j < before.len() {
                    } else if i < before.len() {
                        assert(old(self).entries@[i].0@ != name@);
                    } else {
                        assert(old(self).entries@[j].0@ != name@);
                    }
                }
            },
        }
    }

    /// The number of names held.
    pub fn len(&self) -> (count: usize)
        ensures
            count == self.spec_entries().len(),
    {
        self.entries.len()
    }

    /// The name and the value of the `at`-th entry.
    pub fn entry(&self, at: usize) -> (pair: (&String, &String))
        requires
            at < self.spec_entries().len(),
        ensures
            (pair.0@, pair.1@) == self.spec_entries()[at as int],
    {
        (&self.entries[at].0, &self.entries[at].1)
    }

    /// The entries are the table: each name once, with its value.
    pub proof fn lemma_entries_are_the_table(&self)
        requires
            self.wf(),
        ensures
            distinct_names(self.spec_entries()),
            self@ == table_of(self.spec_entries()),
    {
    }
}

} // verus!
