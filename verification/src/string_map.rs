//! A map from strings to values, held as a list of entries in which no key
//! occurs twice.

use vstd::prelude::*;

verus! {

/// The map that a list of entries with distinct keys stands for.
pub open spec fn map_of<V>(entries: Seq<(String, V)>) -> Map<Seq<char>, V>
    decreases entries.len(),
{
    if entries.len() == 0 {
        Map::empty()
    } else {
        map_of(entries.drop_last()).insert(entries.last().0@, entries.last().1)
    }
}

/// A map from strings to values.
pub struct StringMap<V> {
    entries: Vec<(String, V)>,
}

impl<V> StringMap<V> {
    /// No key occurs in two entries.
    pub closed spec fn wf(&self) -> bool {
        forall|i: int, j: int|
            0 <= i < j < self.entries@.len() ==> self.entries@[i].0@ != self.entries@[j].0@
    }

    /// The map that the entries stand for.
    pub closed spec fn view(&self) -> Map<Seq<char>, V> {
        map_of(self.entries@)
    }

    proof fn lemma_map_of_dom(entries: Seq<(String, V)>, k: Seq<char>)
        ensures
            map_of(entries).dom().contains(k) <==> exists|i: int|
                0 <= i < entries.len() && #[trigger] entries[i].0@ == k,
        decreases entries.len(),
    {
        if entries.len() > 0 {
            Self::lemma_map_of_dom(entries.drop_last(), k);
            if map_of(entries.drop_last()).dom().contains(k) {
                let i = choose|i: int| 0 <= i < entries.drop_last().len() && #[trigger] entries.drop_last()[i].0@ == k;
                assert(entries[i].0@ == k);
            }
            if exists|i: int| 0 <= i < entries.len() && #[trigger] entries[i].0@ == k {
                let i = choose|i: int| 0 <= i < entries.len() && #[trigger] entries[i].0@ == k;
                if i < entries.len() - 1 {
                    assert(entries.drop_last()[i].0@ == k);
                }
            }
        }
    }

    proof fn lemma_map_of_index(entries: Seq<(String, V)>, i: int)
        requires
            0 <= i < entries.len(),
            forall|a: int, b: int| 0 <= a < b < entries.len() ==> entries[a].0@ != entries[b].0@,
        ensures
            map_of(entries).dom().contains(entries[i].0@),
            map_of(entries)[entries[i].0@] == entries[i].1,
        decreases entries.len(),
    {
        if i < entries.len() - 1 {
            Self::lemma_map_of_index(entries.drop_last(), i);
            assert(entries.drop_last()[i] == entries[i]);
        }
    }


    proof fn lemma_map_of_update(entries: Seq<(String, V)>, i: int, e: (String, V))
        requires
            0 <= i < entries.len(),
            e.0@ == entries[i].0@,
            forall|a: int, b: int| 0 <= a < b < entries.len() ==> entries[a].0@ != entries[b].0@,
        ensures
            map_of(entries.update(i, e)) =~= map_of(entries).insert(e.0@, e.1),
        decreases entries.len(),
    {
        let upd = entries.update(i, e);
        if i == entries.len() - 1 {
            assert(upd.drop_last() =~= entries.drop_last());
        } else {
            assert(upd.drop_last() =~= entries.drop_last().update(i, e));
            Self::lemma_map_of_update(entries.drop_last(), i, e);
            assert(entries.last().0@ != e.0@);
        }
    }

    proof fn lemma_map_of_remove(entries: Seq<(String, V)>, i: int)
        requires
            0 <= i < entries.len(),
            forall|a: int, b: int| 0 <= a < b < entries.len() ==> entries[a].0@ != entries[b].0@,
        ensures
            map_of(entries.remove(i)) =~= map_of(entries).remove(entries[i].0@),
        decreases entries.len(),
    {
        let rem = entries.remove(i);
        let k = entries[i].0@;
        if i == entries.len() - 1 {
            assert(rem =~= entries.drop_last());
            Self::lemma_map_of_dom(entries.drop_last(), k);
            if map_of(entries.drop_last()).dom().contains(k) {
                let j = choose|j: int| 0 <= j < entries.drop_last().len() && #[trigger] entries.drop_last()[j].0@ == k;
                assert(entries[j].0@ == k);
            }
        } else {
            assert(rem.drop_last() =~= entries.drop_last().remove(i));
            assert(rem.last() == entries.last());
            Self::lemma_map_of_remove(entries.drop_last(), i);
            assert(entries.last().0@ != k);
        }
    }

    /// The empty map.
    pub fn new() -> (res: Self)
        ensures
            res.wf(),
            res.view() == Map::<Seq<char>, V>::empty(),
    {
        StringMap { entries: Vec::new() }
    }

    /// The position of the entry for `key`, if there is one.
    fn position(&self, key: &String) -> (res: Option<usize>)
        requires
            self.wf(),
        ensures
            match res {
                Some(i) => i < self.entries@.len() && self.entries@[i as int].0@ == key@,
                None => !self.view().dom().contains(key@),
            },
    {
        let mut i: usize = 0;
        while i < self.entries.len()
            invariant
                i <= self.entries@.len(),
                forall|j: int| 0 <= j < i ==> self.entries@[j].0@ != key@,
            decreases self.entries@.len() - i,
        {
            if self.entries[i].0 == *key {
                return Some(i);
            }
            i = i + 1;
        }
        proof {
            Self::lemma_map_of_dom(self.entries@, key@);
        }
        None
    }

    /// The value stored for `key`, if any.
    pub fn get(&self, key: &String) -> (res: Option<&V>)
        requires
            self.wf(),
        ensures
            match res {
                Some(v) => self.view().dom().contains(key@) && *v == self.view()[key@],
                None => !self.view().dom().contains(key@),
            },
    {
        match self.position(key) {
            Some(i) => {
                proof {
                    Self::lemma_map_of_index(self.entries@, i as int);
                }
                Some(&self.entries[i].1)
            },
            None => None,
        }
    }

    /// Stores `value` for `key`, in place of any value stored for it before.
    pub fn insert(&mut self, key: String, value: V)
        requires
            old(self).wf(),
        ensures
            final(self).wf(),
            final(self).view() == old(self).view().insert(key@, value),
    {
        match self.position(&key) {
            Some(i) => {
                proof {
                    Self::lemma_map_of_update(self.entries@, i as int, (key, value));
                }
                self.entries.set(i, (key, value));
            },
            None => {
                proof {
                    Self::lemma_map_of_dom(self.entries@, key@);
                }
                self.entries.push((key, value));
                proof {
                    assert(self.entries@.drop_last() =~= old(self).entries@);
                }
            },
        }
    }

    /// Takes out the value stored for `key`, if any.
    pub fn remove(&mut self, key: &String) -> (res: Option<V>)
        requires
            old(self).wf(),
        ensures
            final(self).wf(),
            final(self).view() == old(self).view().remove(key@),
            match res {
                Some(v) => old(self).view().dom().contains(key@) && v == old(self).view()[key@],
                None => !old(self).view().dom().contains(key@),
            },
    {
        match self.position(key) {
            Some(i) => {
                proof {
                    Self::lemma_map_of_index(self.entries@, i as int);
                    Self::lemma_map_of_remove(self.entries@, i as int);
                }
                let (_, v) = self.entries.remove(i);
                proof {
                    assert forall|a: int, b: int| 0 <= a < b < self.entries@.len()
                        implies self.entries@[a].0@ != self.entries@[b].0@ by {
                        let oa = if a < i { a } else { a + 1 };
                        let ob = if b < i { b } else { b + 1 };
                        assert(self.entries@[a] == old(self).entries@[oa]);
                        assert(self.entries@[b] == old(self).entries@[ob]);
                    }
                }
                Some(v)
            },
            None => {
                proof {
                    assert(old(self).view().remove(key@) =~= old(self).view());
                }
                None
            },
        }
    }
}

} // verus!
