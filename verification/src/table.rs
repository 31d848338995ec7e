//! A table of values by name.

use vstd::prelude::*;

use crate::text;

verus! {

/// Values by name. Each name occurs once.
#[derive(Debug)]
pub struct Table<V> {
    entries: Vec<(String, V)>,
}

/// The value that a row of entries gives each name.
spec fn contents<V>(entries: Seq<(String, V)>) -> Map<Seq<char>, V>
    decreases entries.len(),
{
    if entries.len() == 0 {
        Map::empty()
    } else {
        contents(entries.drop_last()).insert(entries.last().0@, entries.last().1)
    }
}

/// No name occurs twice.
spec fn distinct<V>(entries: Seq<(String, V)>) -> bool {
    forall|i: int, j: int|
        #![trigger entries[i], entries[j]]
        0 <= i < j < entries.len() ==> entries[i].0@ != entries[j].0@
}

/// The names and values of a row are its entries, and nothing else.
proof fn lemma_contents<V>(entries: Seq<(String, V)>)
    requires
        distinct(entries),
    ensures
        forall|i: int|
            0 <= i < entries.len() ==> contents(entries).contains_key(
                (#[trigger] entries[i]).0@,
            ) && contents(entries)[entries[i].0@] == entries[i].1,
        forall|name: Seq<char>| #[trigger]
            contents(entries).contains_key(name) ==> exists|i: int|
                0 <= i < entries.len() && (#[trigger] entries[i]).0@ == name,
        contents(entries).dom().finite(),
        contents(entries).len() == entries.len(),
    decreases entries.len(),
{
    if entries.len() > 0 {
        let rest = entries.drop_last();
        let n = rest.len() as int;
        assert(distinct(rest)) by {
            assert forall|i: int, j: int|
                #![trigger rest[i], rest[j]]
                0 <= i < j < rest.len() implies rest[i].0@ != rest[j].0@ by {
                assert(entries[i].0@ != entries[j].0@);
            }
        }
        lemma_contents(rest);
        let last = entries.last().0@;
        assert(!contents(rest).contains_key(last)) by {
            if contents(rest).contains_key(last) {
                let i = choose|i: int| 0 <= i < rest.len() && (#[trigger] rest[i]).0@ == last;
                assert(entries[i].0@ != entries[n].0@);
            }
        }
        assert forall|i: int| 0 <= i < entries.len() implies contents(entries).contains_key(
            (#[trigger] entries[i]).0@,
        ) && contents(entries)[entries[i].0@] == entries[i].1 by {
            if i < n {
                assert(rest[i] == entries[i]);
                assert(entries[i].0@ != entries[n].0@);
            }
        }
        assert forall|name: Seq<char>| #[trigger] contents(entries).contains_key(name) implies exists|
            i: int,
        |
            0 <= i < entries.len() && (#[trigger] entries[i]).0@ == name by {
            if name == last {
                assert(entries[n].0@ == name);
            } else {
                let i = choose|i: int| 0 <= i < rest.len() && (#[trigger] rest[i]).0@ == name;
                assert(entries[i].0@ == name);
            }
        }
    }
}

/// A row without one of its entries gives its contents without the name of that entry.
proof fn lemma_contents_without<V>(entries: Seq<(String, V)>, k: int)
    requires
        distinct(entries),
        0 <= k < entries.len(),
    ensures
        distinct(entries.remove(k)),
        contents(entries.remove(k)) == contents(entries).remove(entries[k].0@),
{
    let rest = entries.remove(k);
    assert forall|i: int, j: int|
        #![trigger rest[i], rest[j]]
        0 <= i < j < rest.len() implies rest[i].0@ != rest[j].0@ by {
        let x = if i < k {
            i
        } else {
            i + 1
        };
        let y = if j < k {
            j
        } else {
            j + 1
        };
        assert(rest[i] == entries[x]);
        assert(rest[j] == entries[y]);
    }
    lemma_contents(entries);
    lemma_contents(rest);
    let a = contents(rest);
    let b = contents(entries).remove(entries[k].0@);
    assert forall|name: Seq<char>| a.contains_key(name) <==> b.contains_key(name) by {
        if a.contains_key(name) {
            let i = choose|i: int| 0 <= i < rest.len() && (#[trigger] rest[i]).0@ == name;
            let x = if i < k {
                i
            } else {
                i + 1
            };
            assert(entries[x] == rest[i]);
        }
        if b.contains_key(name) {
            let x = choose|x: int| 0 <= x < entries.len() && (#[trigger] entries[x]).0@ == name;
            let i = if x < k {
                x
            } else {
                x - 1
            };
            assert(rest[i] == entries[x]);
        }
    }
    assert forall|name: Seq<char>| a.contains_key(name) implies a[name] == b[name] by {
        let i = choose|i: int| 0 <= i < rest.len() && (#[trigger] rest[i]).0@ == name;
        let x = if i < k {
            i
        } else {
            i + 1
        };
        assert(entries[x] == rest[i]);
    }
    assert(a =~= b);
}

/// Is `names` a row of all names in `table`, each once?
pub open spec fn names_all<V>(names: Seq<Seq<char>>, table: Map<Seq<char>, V>) -> bool {
    &&& names.no_duplicates()
    &&& forall|name: Seq<char>| #[trigger] table.contains_key(name) <==> names.contains(name)
}

/// Is `values` a row of all values in `table`, one for each name, in any order?
pub open spec fn lists<V>(values: Seq<&V>, table: Map<Seq<char>, V>) -> bool {
    exists|names: Seq<Seq<char>>|
        {
            &&& #[trigger] names_all(names, table)
            &&& values.len() == names.len()
            &&& forall|i: int| 0 <= i < names.len() ==> *(#[trigger] values[i]) == table[names[i]]
        }
}

impl<V> View for Table<V> {
    type V = Map<Seq<char>, V>;

    closed spec fn view(&self) -> Map<Seq<char>, V> {
        contents(self.entries@)
    }
}

impl<V> Table<V> {
    #[verifier::type_invariant]
    spec fn wf(self) -> bool {
        distinct(self.entries@)
    }

    /// The names in the order in which the table is walked.
    pub closed spec fn names(self) -> Seq<Seq<char>> {
        self.entries@.map_values(|entry: (String, V)| entry.0@)
    }

    pub fn new() -> (r: Self)
        ensures
            r@ == Map::<Seq<char>, V>::empty(),
    {
        let entries: Vec<(String, V)> = Vec::new();
        Table { entries }
    }

    /// A walk over the table meets each name once.
    proof fn lemma_names(&self)
        requires
            self.wf(),
        ensures
            self.names().len() == self@.len(),
            self@.dom().finite(),
            names_all(self.names(), self@),
    {
        lemma_contents(self.entries@);
        let names = self.names();
        assert forall|name: Seq<char>| #[trigger]
            self@.contains_key(name) <==> names.contains(name) by {
            if self@.contains_key(name) {
                let i = choose|i: int|
                    0 <= i < self.entries@.len() && (#[trigger] self.entries@[i]).0@ == name;
                assert(names[i] == name);
            }
            if names.contains(name) {
                let i = choose|i: int| 0 <= i < names.len() && names[i] == name;
                assert(self.entries@[i].0@ == name);
            }
        }
        assert forall|i: int, j: int|
            0 <= i < names.len() && 0 <= j < names.len() && i != j implies names[i] != names[j] by {
            if i < j {
                assert(self.entries@[i].0@ != self.entries@[j].0@);
            } else {
                assert(self.entries@[j].0@ != self.entries@[i].0@);
            }
        }
    }

    /// How many values the table holds.
    pub fn len(&self) -> (r: usize)
        ensures
            r == self@.len(),
            r == self.names().len(),
            self@.dom().finite(),
            names_all(self.names(), self@),
    {
        proof {
            use_type_invariant(self);
            self.lemma_names();
        }
        self.entries.len()
    }

    /// The name and the value at a place in the walk.
    pub fn at(&self, i: usize) -> (r: (&String, &V))
        requires
            i < self.names().len(),
        ensures
            r.0@ == self.names()[i as int],
            self@.contains_key(r.0@),
            *r.1 == self@[r.0@],
    {
        proof {
            use_type_invariant(self);
            lemma_contents(self.entries@);
        }
        (&self.entries[i].0, &self.entries[i].1)
    }

    /// The values, in any order.
    pub fn values(&self) -> (r: Vec<&V>)
        ensures
            lists(r@, self@),
            r@.len() == self@.len(),
    {
        let mut values: Vec<&V> = Vec::new();
        let n = self.len();
        let mut i: usize = 0;
        while i < n
            invariant
                n == self.names().len(),
                i <= n,
                values@.len() == i,
                forall|j: int|
                    0 <= j < i ==> *(#[trigger] values@[j]) == self@[self.names()[j]],
            decreases n - i,
        {
            values.push(self.at(i).1);
            i += 1;
        }
        assert(names_all(self.names(), self@));
        values
    }

    fn find(&self, name: &str) -> (r: Option<usize>)
        ensures
            match r {
                Some(i) => i < self.entries@.len() && self.entries@[i as int].0@ == name@,
                None => forall|i: int|
                    0 <= i < self.entries@.len() ==> (#[trigger] self.entries@[i]).0@ != name@,
            },
    {
        let mut i: usize = 0;
        while i < self.entries.len()
            invariant
                i <= self.entries@.len(),
                forall|j: int| 0 <= j < i ==> (#[trigger] self.entries@[j]).0@ != name@,
            decreases self.entries@.len() - i,
        {
            if text::same_text(self.entries[i].0.as_str(), name) {
                return Some(i);
            }
            i += 1;
        }
        None
    }

    /// The value under a name.
    pub fn get(&self, name: &str) -> (r: Option<&V>)
        ensures
            match r {
                Some(value) => self@.contains_key(name@) && *value == self@[name@],
                None => !self@.contains_key(name@),
            },
    {
        proof {
            use_type_invariant(self);
            lemma_contents(self.entries@);
        }
        match self.find(name) {
            Some(i) => Some(&self.entries[i].1),
            None => None,
        }
    }

    /// Takes the value under a name out of the table.
    pub fn remove(&mut self, name: &str) -> (r: Option<V>)
        ensures
            final(self)@ == old(self)@.remove(name@),
            match r {
                Some(value) => old(self)@.contains_key(name@) && value == old(self)@[name@],
                None => !old(self)@.contains_key(name@),
            },
    {
        proof {
            use_type_invariant(&*self);
            lemma_contents(self.entries@);
        }
        match self.find(name) {
            Some(i) => {
                proof {
                    lemma_contents_without(self.entries@, i as int);
                }
                let mut entries: Vec<(String, V)> = Vec::new();
                std::mem::swap(&mut entries, &mut self.entries);
                let (_, value) = entries.remove(i);
                self.entries = entries;
                Some(value)
            },
            None => {
                assert(self@ =~= self@.remove(name@));
                None
            },
        }
    }

    /// Puts a value under a name, in place of what was there.
    pub fn insert(&mut self, name: &str, value: V)
        ensures
            final(self)@ == old(self)@.insert(name@, value),
    {
        let ghost before = self@;
        let _ = self.remove(name);
        proof {
            use_type_invariant(&*self);
            lemma_contents(self.entries@);
        }
        let ghost kept = self.entries@;
        let mut entries: Vec<(String, V)> = Vec::new();
        std::mem::swap(&mut entries, &mut self.entries);
        entries.push((name.to_string(), value));
        proof {
            assert(entries@.drop_last() =~= kept);
            assert forall|i: int, j: int|
                #![trigger entries@[i], entries@[j]]
                0 <= i < j < entries@.len() implies entries@[i].0@ != entries@[j].0@ by {
                assert(entries@[i] == kept[i]);
                if j < kept.len() {
                    assert(entries@[j] == kept[j]);
                } else {
                    assert(contents(kept).contains_key(kept[i].0@));
                }
            }
        }
        self.entries = entries;
        assert(self@ =~= before.insert(name@, value));
    }
}

} // verus!
