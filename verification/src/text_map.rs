//! A map from texts to values that keeps its entries in the order of their keys.
use crate::text::{is_text_before, lemma_text_before_total, lemma_text_before_transitive};
use crate::text::{text_before, text_eq};
use vstd::prelude::*;

verus! {

/// The map that a list of entries with distinct keys stands for.
pub open spec fn map_of<V>(entries: Seq<(String, V)>) -> Map<Seq<char>, V>
    decreases entries.len(),
{
    if entries.len() == 0 {
        Map::empty()
    } else {
        map_of(entries.drop_last()).insert(entries.last().0@, entries.last().1)
    }
}

/// No key occurs twice.
pub open spec fn distinct_keys<V>(entries: Seq<(String, V)>) -> bool {
    forall|i: int, j: int|
        0 <= i < j < entries.len() ==> (#[trigger] entries[i]).0@ != (#[trigger] entries[j]).0@
}

/// The keys come in ascending order.
pub open spec fn ascending_keys<V>(entries: Seq<(String, V)>) -> bool {
    forall|i: int, j: int|
        0 <= i < j < entries.len() ==> text_before(
            (#[trigger] entries[i]).0@,
            (#[trigger] entries[j]).0@,
        )
}

pub proof fn lemma_ascending_is_distinct<V>(entries: Seq<(String, V)>)
    requires
        ascending_keys(entries),
    ensures
        distinct_keys(entries),
{
    assert forall|i: int, j: int| 0 <= i < j < entries.len() implies (#[trigger] entries[i]).0@ != (
    #[trigger] entries[j]).0@ by {
        lemma_text_before_total(entries[i].0@, entries[j].0@);
    }
}

/// The map holds exactly the entries.
pub proof fn lemma_map_of<V>(entries: Seq<(String, V)>)
    requires
        distinct_keys(entries),
    ensures
        forall|i: int|
            0 <= i < entries.len() ==> map_of(entries).contains_key((#[trigger] entries[i]).0@)
                && map_of(entries)[entries[i].0@] == entries[i].1,
        forall|k: Seq<char>| #[trigger]
            map_of(entries).contains_key(k) ==> exists|i: int|
                0 <= i < entries.len() && (#[trigger] entries[i]).0@ == k,
        map_of(entries).dom().len() == entries.len(),
        map_of(entries).dom().finite(),
    decreases entries.len(),
{
    if entries.len() > 0 {
        let shorter = entries.drop_last();
        let last = entries.last();
        lemma_map_of(shorter);
        assert forall|i: int| 0 <= i < entries.len() implies map_of(entries).contains_key(
            (#[trigger] entries[i]).0@,
        ) && map_of(entries)[entries[i].0@] == entries[i].1 by {
            if i < shorter.len() {
                assert(shorter[i] == entries[i]);
                assert(entries[i].0@ != entries[entries.len() - 1].0@);
            }
        }
        assert forall|k: Seq<char>| #[trigger] map_of(entries).contains_key(k) implies exists|i: int|
            0 <= i < entries.len() && (#[trigger] entries[i]).0@ == k by {
            if k == last.0@ {
                assert(entries[entries.len() - 1].0@ == k);
            } else {
                assert(map_of(shorter).contains_key(k));
                let i = choose|i: int| 0 <= i < shorter.len() && (#[trigger] shorter[i]).0@ == k;
                assert(entries[i].0@ == k);
            }
        }
        assert(!map_of(shorter).contains_key(last.0@)) by {
            if map_of(shorter).contains_key(last.0@) {
                let i = choose|i: int|
                    0 <= i < shorter.len() && (#[trigger] shorter[i]).0@ == last.0@;
                assert(entries[i].0@ == entries[entries.len() - 1].0@);
            }
        }
        assert(map_of(entries).dom() =~= map_of(shorter).dom().insert(last.0@));
    }
}

/// Changing the value of one entry changes the value of its key.
pub proof fn lemma_map_of_update<V>(entries: Seq<(String, V)>, i: int, value: V)
    requires
        ascending_keys(entries),
        0 <= i < entries.len(),
    ensures
        ascending_keys(entries.update(i, (entries[i].0, value))),
        map_of(entries.update(i, (entries[i].0, value))) == map_of(entries).insert(
            entries[i].0@,
            value,
        ),
{
    let before = entries;
    let after = entries.update(i, (entries[i].0, value));
    let text = entries[i].0@;
    assert forall|a: int, b: int| 0 <= a < b < after.len() implies text_before(
        (#[trigger] after[a]).0@,
        (#[trigger] after[b]).0@,
    ) by {
        assert(text_before(before[a].0@, before[b].0@));
    }
    lemma_ascending_is_distinct(before);
    lemma_ascending_is_distinct(after);
    lemma_map_of(before);
    lemma_map_of(after);
    assert(map_of(after) =~= map_of(before).insert(text, value)) by {
        assert forall|k: Seq<char>| map_of(after).contains_key(k) == map_of(before).insert(
            text,
            value,
        ).contains_key(k) by {
            if map_of(after).contains_key(k) {
                let j = choose|j: int| 0 <= j < after.len() && (#[trigger] after[j]).0@ == k;
                assert(before[j].0@ == k);
            }
            if map_of(before).contains_key(k) {
                let j = choose|j: int| 0 <= j < before.len() && (#[trigger] before[j]).0@ == k;
                assert(after[j].0@ == k);
            }
            assert(after[i].0@ == text);
        }
        assert forall|k: Seq<char>| map_of(after).contains_key(k) implies map_of(after)[k]
            == map_of(before).insert(text, value)[k] by {
            let j = choose|j: int| 0 <= j < after.len() && (#[trigger] after[j]).0@ == k;
            assert(map_of(after)[after[j].0@] == after[j].1);
            assert(map_of(before)[before[j].0@] == before[j].1);
            if j != i {
                assert(after[j] == before[j]);
                assert(before[j].0@ != before[i].0@);
            }
        }
    }
}

/// A map from texts to values, in key order.
#[derive(Debug)]
pub struct TextMap<V> {
    pub entries: Vec<(String, V)>,
}

impl<V> View for TextMap<V> {
    type V = Map<Seq<char>, V>;

    open spec fn view(&self) -> Map<Seq<char>, V> {
        map_of(self.entries@)
    }
}

impl<V> TextMap<V> {
    /// The entries stand in key order, each key once.
    pub open spec fn wf(&self) -> bool {
        ascending_keys(self.entries@)
    }

    pub fn new() -> (map: TextMap<V>)
        ensures
            map.wf(),
            map@ == Map::<Seq<char>, V>::empty(),
            map.entries@ == Seq::<(String, V)>::empty(),
    {
        TextMap { entries: Vec::new() }
    }

    /// The index of the entry with the given key.
    pub fn position(&self, key: &str) -> (index: Option<usize>)
        requires
            self.wf(),
        ensures
            index is Some == self@.contains_key(key@),
            match index {
                Some(i) => i < self.entries@.len() && self.entries@[i as int].0@ == key@
                    && self.entries@[i as int].1 == self@[key@],
                None => true,
            },
    {
        proof {
            lemma_ascending_is_distinct(self.entries@);
            lemma_map_of(self.entries@);
        }
        let mut i: usize = 0;
        while i < self.entries.len()
            invariant
                i <= self.entries.len(),
                forall|j: int| 0 <= j < i ==> (#[trigger] self.entries@[j]).0@ != key@,
                forall|k: int|
                    0 <= k < self.entries@.len() ==> self@.contains_key(
                        (#[trigger] self.entries@[k]).0@,
                    ) && self@[self.entries@[k].0@] == self.entries@[k].1,
            decreases self.entries.len() - i,
        {
            if text_eq(self.entries[i].0.as_str(), key) {
                return Some(i);
            }
            i = i + 1;
        }
        None
    }

    /// The value of a key.
    pub fn get(&self, key: &str) -> (value: Option<&V>)
        requires
            self.wf(),
        ensures
            match value {
                Some(v) => self@.contains_key(key@) && *v == self@[key@],
                None => !self@.contains_key(key@),
            },
    {
        match self.position(key) {
            Some(i) => Some(&self.entries[i].1),
            None => None,
        }
    }

    /// Access to the value of a key.
    pub fn get_mut(&mut self, key: &str) -> (value: Option<&mut V>)
        requires
            old(self).wf(),
        ensures
            final(self).wf(),
            match value {
                Some(v) => old(self)@.contains_key(key@) && *v == old(self)@[key@] && final(self)@
                    == old(self)@.insert(key@, *final(v)),
                None => !old(self)@.contains_key(key@) && *final(self) == *old(self),
            },
    {
        match self.position(key) {
            Some(i) => {
                proof {
                    let before = self.entries@;
                    assert forall|v: V|
                        ascending_keys(#[trigger] before.update(i as int, (before[i as int].0, v)))
                            && map_of(before.update(i as int, (before[i as int].0, v))) == map_of(
                            before,
                        ).insert(key@, v) by {
                        lemma_map_of_update(before, i as int, v);
                    }
                }
                Some(&mut self.entries[i].1)
            },
            None => None,
        }
    }

    pub fn contains_key(&self, key: &str) -> (found: bool)
        requires
            self.wf(),
        ensures
            found == self@.contains_key(key@),
    {
        self.position(key).is_some()
    }

    /// The number of keys.
    pub fn len(&self) -> (count: usize)
        requires
            self.wf(),
        ensures
            count == self@.dom().len(),
            count == self.entries@.len(),
    {
        proof {
            lemma_ascending_is_distinct(self.entries@);
            lemma_map_of(self.entries@);
        }
        self.entries.len()
    }

    /// Gives `key` the value `value`, in place of a value it has.
    pub fn insert(&mut self, key: String, value: V)
        requires
            old(self).wf(),
        ensures
            final(self).wf(),
            final(self)@ == old(self)@.insert(key@, value),
    {
        proof {
            lemma_ascending_is_distinct(self.entries@);
            lemma_map_of(self.entries@);
        }
        let ghost before = self.entries@;
        let ghost text = key@;
        let mut i: usize = 0;
        while i < self.entries.len() && is_text_before(self.entries[i].0.as_str(), key.as_str())
            invariant
                i <= self.entries.len(),
                self.entries@ == before,
                text == key@,
                forall|j: int| 0 <= j < i ==> text_before((#[trigger] before[j]).0@, text),
            decreases self.entries.len() - i,
        {
            i = i + 1;
        }
        if i < self.entries.len() && text_eq(self.entries[i].0.as_str(), key.as_str()) {
            self.entries[i].1 = value;
            proof {
                assert(self.entries@ =~= before.update(i as int, (before[i as int].0, value)));
                lemma_map_of_update(before, i as int, value);
            }
        } else {
            self.entries.insert(i, (key, value));
            proof {
                let after = self.entries@;
                assert(after =~= before.insert(i as int, (key, value)));
                assert forall|j: int| i <= j < before.len() implies text_before(
                    text,
                    (#[trigger] before[j]).0@,
                ) by {
                    lemma_text_before_total(before[i as int].0@, text);
                    if j > i {
                        lemma_text_before_transitive(text, before[i as int].0@, before[j].0@);
                    }
                }
                assert(ascending_keys(after)) by {
                    assert forall|a: int, b: int| 0 <= a < b < after.len() implies text_before(
                        (#[trigger] after[a]).0@,
                        (#[trigger] after[b]).0@,
                    ) by {
                        if a < i && b < i {
                            assert(text_before(before[a].0@, before[b].0@));
                        } else if a < i && b == i {
                            assert(after[a] == before[a]);
                        } else if a < i {
                            assert(text_before(before[a].0@, before[b - 1].0@));
                        } else if a == i {
                            assert(after[b] == before[b - 1]);
                        } else {
                            assert(text_before(before[a - 1].0@, before[b - 1].0@));
                        }
                    }
                }
                lemma_ascending_is_distinct(after);
                lemma_map_of(after);
                assert(map_of(after) =~= map_of(before).insert(text, value)) by {
                    assert forall|k: Seq<char>|
                        map_of(after).contains_key(k) == map_of(before).insert(
                            text,
                            value,
                        ).contains_key(k) by {
                        if map_of(after).contains_key(k) {
                            let j = choose|j: int|
                                0 <= j < after.len() && (#[trigger] after[j]).0@ == k;
                            if j < i {
                                assert(before[j].0@ == k);
                            } else if j > i {
                                assert(before[j - 1].0@ == k);
                            }
                        }
                        if map_of(before).contains_key(k) {
                            let j = choose|j: int|
                                0 <= j < before.len() && (#[trigger] before[j]).0@ == k;
                            if j < i {
                                assert(after[j].0@ == k);
                            } else {
                                assert(after[j + 1].0@ == k);
                            }
                        }
                        assert(after[i as int].0@ == text);
                    }
                    assert forall|k: Seq<char>| map_of(after).contains_key(k) implies map_of(
                        after,
                    )[k] == map_of(before).insert(text, value)[k] by {
                        let j = choose|j: int| 0 <= j < after.len() && (#[trigger] after[j]).0@ == k;
                        assert(map_of(after)[after[j].0@] == after[j].1);
                        if j < i {
                            assert(map_of(before)[before[j].0@] == before[j].1);
                            lemma_text_before_total(before[j].0@, text);
                        } else if j > i {
                            assert(map_of(before)[before[j - 1].0@] == before[j - 1].1);
                            lemma_text_before_total(text, before[j - 1].0@);
                        }
                    }
                }
            }
        }
    }
}

} // verus!
