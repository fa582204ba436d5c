//! A table from texts to values.

use crate::text::same_text;
use vstd::prelude::*;

verus! {

/// Whether `rows` is `map` written down: each key once, with its value.
pub open spec fn lists<V>(rows: Seq<(String, V)>, map: Map<Seq<char>, V>) -> bool {
    &&& forall|i: int, j: int|
        0 <= i < j < rows.len() ==> (#[trigger] rows[i]).0@ != (#[trigger] rows[j]).0@
    &&& forall|i: int|
        0 <= i < rows.len() ==> map.contains_key((#[trigger] rows[i]).0@) && map[rows[i].0@]
            == rows[i].1
    &&& forall|key: Seq<char>| #[trigger]
        map.contains_key(key) ==> exists|i: int| 0 <= i < rows.len() && (#[trigger] rows[i]).0@
            == key
}

/// A table from texts to values, in which every key has one value.
pub struct Table<V> {
    rows: Vec<(String, V)>,
}

impl<V> View for Table<V> {
    type V = Map<Seq<char>, V>;

    closed spec fn view(&self) -> Map<Seq<char>, V> {
        Map::new(
            |key: Seq<char>| exists|i: int| row_at(self.rows@, key, i),
            |key: Seq<char>| self.rows@[choose|i: int| row_at(self.rows@, key, i)].1,
        )
    }
}

/// Whether row `i` is the one of `key`.
spec fn row_at<V>(rows: Seq<(String, V)>, key: Seq<char>, i: int) -> bool {
    0 <= i < rows.len() && rows[i].0@ == key
}

impl<V> Table<V> {
    /// No key stands in two rows.
    pub closed spec fn wf(&self) -> bool {
        forall|i: int, j: int|
            0 <= i < j < self.rows@.len() ==> (#[trigger] self.rows@[i]).0@ != (
            #[trigger] self.rows@[j]).0@
    }

    pub fn new() -> (table: Table<V>)
        ensures
            table.wf(),
            table@ == Map::<Seq<char>, V>::empty(),
    {
        let table = Table { rows: Vec::new() };
        assert(table@ =~= Map::<Seq<char>, V>::empty());
        table
    }

    /// The rows are the table written down.
    proof fn lemma_lists(&self)
        requires
            self.wf(),
        ensures
            lists(self.rows@, self@),
    {
        assert forall|i: int| 0 <= i < self.rows@.len() implies self@.contains_key(
            (#[trigger] self.rows@[i]).0@,
        ) && self@[self.rows@[i].0@] == self.rows@[i].1 by {
            let key = self.rows@[i].0@;
            assert(row_at(self.rows@, key, i));
            let j = choose|j: int| row_at(self.rows@, key, j);
            assert(row_at(self.rows@, key, j));
            assert(i == j);
        }
        assert forall|key: Seq<char>| #[trigger] self@.contains_key(key) implies exists|i: int|
            0 <= i < self.rows@.len() && (#[trigger] self.rows@[i]).0@ == key by {
            let i = choose|i: int| row_at(self.rows@, key, i);
            assert(row_at(self.rows@, key, i));
            assert(self.rows@[i].0@ == key);
        }
    }

    /// A table that is written down by given rows is the one that they list.
    proof fn lemma_listed(&self, map: Map<Seq<char>, V>)
        requires
            lists(self.rows@, map),
        ensures
            self.wf(),
            self@ == map,
    {
        self.lemma_lists();
        assert(self@ =~= map);
    }

    /// Another value in one row is another value for one key.
    proof fn lemma_update(&self, i: int, after: Table<V>, value: V)
        requires
            self.wf(),
            0 <= i < self.rows@.len(),
            after.rows@ == self.rows@.update(i, (self.rows@[i].0, value)),
        ensures
            after.wf(),
            after@ == self@.insert(self.rows@[i].0@, value),
    {
        self.lemma_lists();
        let key = self.rows@[i].0@;
        let map = self@.insert(key, value);
        let rows = after.rows@;
        assert forall|j: int| 0 <= j < rows.len() implies (#[trigger] rows[j]).0@
            == self.rows@[j].0@ by {}
        assert forall|other: Seq<char>| #[trigger] map.contains_key(other) implies exists|j: int|
            0 <= j < rows.len() && (#[trigger] rows[j]).0@ == other by {
            assert(self@.contains_key(other));
            let j = choose|j: int|
                0 <= j < self.rows@.len() && (#[trigger] self.rows@[j]).0@ == other;
            assert(rows[j].0@ == other);
        }
        after.lemma_listed(map);
    }

    /// The row of `key`, if there is one.
    fn find(&self, key: &str) -> (place: Option<usize>)
        requires
            self.wf(),
        ensures
            match place {
                Some(i) => i < self.rows@.len() && self.rows@[i as int].0@ == key@,
                None => !self@.contains_key(key@),
            },
    {
        let mut i: usize = 0;
        while i < self.rows.len()
            invariant
                i <= self.rows.len(),
                forall|j: int| 0 <= j < i ==> (#[trigger] self.rows@[j]).0@ != key@,
            decreases self.rows.len() - i,
        {
            if same_text(&self.rows[i].0, key) {
                return Some(i);
            }
            i += 1;
        }
        proof {
            self.lemma_lists();
        }
        None
    }

    /// The value of `key`, if it has one.
    pub fn get(&self, key: &str) -> (value: Option<&V>)
        requires
            self.wf(),
        ensures
            match value {
                Some(value) => self@.contains_key(key@) && *value == self@[key@],
                None => !self@.contains_key(key@),
            },
    {
        proof {
            self.lemma_lists();
        }
        match self.find(key) {
            Some(i) => Some(&self.rows[i].1),
            None => None,
        }
    }

    /// The value of `key`, if it has one, to be changed in its place.
    pub fn get_mut(&mut self, key: &str) -> (value: Option<&mut V>)
        requires
            old(self).wf(),
        ensures
            final(self).wf(),
            match value {
                Some(value) => {
                    &&& old(self)@.contains_key(key@)
                    &&& *value == old(self)@[key@]
                    &&& final(self)@ == old(self)@.insert(key@, *final(value))
                },
                None => !old(self)@.contains_key(key@) && final(self)@ == old(self)@,
            },
    {
        proof {
            self.lemma_lists();
        }
        match self.find(key) {
            Some(i) => {
                assert forall|after: Table<V>, value: V|
                    after.rows@ == #[trigger] self.rows@.update(
                        i as int,
                        (self.rows@[i as int].0, value),
                    ) implies #[trigger] after.wf() && after@ == self@.insert(key@, value) by {
                    self.lemma_update(i as int, after, value);
                }
                Some(&mut self.rows[i].1)
            },
            None => None,
        }
    }

    /// Gives `key` the value `value`, and hands out the one that it had.
    pub fn insert(&mut self, key: String, value: V) -> (before: Option<V>)
        requires
            old(self).wf(),
        ensures
            final(self).wf(),
            final(self)@ == old(self)@.insert(key@, value),
            match before {
                Some(before) => old(self)@.contains_key(key@) && before == old(self)@[key@],
                None => !old(self)@.contains_key(key@),
            },
    {
        let before = self.remove(&key);
        let ghost rest = *self;
        proof {
            self.lemma_lists();
        }
        self.rows.push((key, value));
        proof {
            let map = rest@.insert(key@, value);
            assert(lists(self.rows@, map)) by {
                let rows = self.rows@;
                assert(rows[rows.len() - 1].0@ == key@);
                assert forall|other: Seq<char>| #[trigger]
                    map.contains_key(other) implies exists|i: int|
                    0 <= i < rows.len() && (#[trigger] rows[i]).0@ == other by {
                    if other == key@ {
                        assert(rows[rows.len() - 1].0@ == other);
                    } else {
                        assert(rest@.contains_key(other));
                        let i = choose|i: int|
                            0 <= i < rest.rows@.len() && (#[trigger] rest.rows@[i]).0@ == other;
                        assert(rows[i] == rest.rows@[i]);
                    }
                }
            }
            self.lemma_listed(map);
            assert(map =~= old(self)@.insert(key@, value));
        }
        before
    }

    /// Takes `key` out of the table, with its value.
    pub fn remove(&mut self, key: &str) -> (before: Option<V>)
        requires
            old(self).wf(),
        ensures
            final(self).wf(),
            final(self)@ == old(self)@.remove(key@),
            match before {
                Some(before) => old(self)@.contains_key(key@) && before == old(self)@[key@],
                None => !old(self)@.contains_key(key@),
            },
    {
        proof {
            self.lemma_lists();
        }
        match self.find(key) {
            Some(i) => {
                let ghost rows = self.rows@;
                let row = self.rows.remove(i);
                proof {
                    let map = old(self)@.remove(key@);
                    assert(lists(self.rows@, map)) by {
                        assert forall|j: int| 0 <= j < self.rows@.len() implies (#[trigger]
                        self.rows@[j]) == rows[if j < i {
                            j
                        } else {
                            j + 1
                        }] by {}
                        assert forall|other: Seq<char>| #[trigger]
                            map.contains_key(other) implies exists|j: int|
                            0 <= j < self.rows@.len() && (#[trigger] self.rows@[j]).0@ == other by {
                            assert(old(self)@.contains_key(other));
                            let j = choose|j: int|
                                0 <= j < rows.len() && (#[trigger] rows[j]).0@ == other;
                            assert(j != i);
                            let k = if j < i {
                                j
                            } else {
                                j - 1
                            };
                            assert(self.rows@[k] == rows[j]);
                        }
                    }
                    self.lemma_listed(map);
                }
                Some(row.1)
            },
            None => {
                assert(self@ =~= old(self)@.remove(key@));
                None
            },
        }
    }

    /// Empties the table, and hands out what was in it.
    pub fn drain(&mut self) -> (rows: Vec<(String, V)>)
        requires
            old(self).wf(),
        ensures
            final(self).wf(),
            final(self)@ == Map::<Seq<char>, V>::empty(),
            lists(rows@, old(self)@),
    {
        proof {
            self.lemma_lists();
        }
        let mut rows: Vec<(String, V)> = Vec::new();
        std::mem::swap(&mut rows, &mut self.rows);
        assert(self@ =~= Map::<Seq<char>, V>::empty());
        rows
    }

    /// What is in the table, row by row.
    pub fn rows(&self) -> (rows: &Vec<(String, V)>)
        requires
            self.wf(),
        ensures
            lists(rows@, self@),
    {
        proof {
            self.lemma_lists();
        }
        &self.rows
    }
}

} // verus!
