//! An insertion-ordered table keyed by name.
//!
//! The table is a list of entries and not a hash map: its order counts.
//! The first entry of a configuration table has a meaning of its own, and
//! which entry that is has to be the same each time the table is read.
//! Whoever fills a table decides the order; what is proved of a table holds
//! for every order.

use vstd::prelude::*;
use crate::text::str_eq;

verus! {

/// The names held by a sequence of entries, in order.
spec fn keys_of<T>(entries: Seq<(String, T)>) -> Seq<Seq<char>> {
    Seq::new(entries.len(), |i: int| entries[i].0@)
}

/// The table that a sequence of entries stands for.
spec fn table_of<T>(entries: Seq<(String, T)>) -> Map<Seq<char>, T> {
    Map::new(
        |k: Seq<char>| keys_of(entries).contains(k),
        |k: Seq<char>| entries[keys_of(entries).index_of(k)].1,
    )
}

/// The sequence without `x`, where `x` occurs in it at most once.
pub open spec fn seq_without<A>(s: Seq<A>, x: A) -> Seq<A> {
    if s.contains(x) {
        s.remove(s.index_of(x))
    } else {
        s
    }
}

/// In a sequence without duplicates, an element is found at its own index.
pub proof fn lemma_index_of_at<A>(s: Seq<A>, i: int)
    requires
        s.no_duplicates(),
        0 <= i < s.len(),
    ensures
        s.index_of(s[i]) == i,
{
    let j = s.index_of(s[i]);
    assert(0 <= j < s.len() && s[j] == s[i]);
}

/// A table from a name, such as that of a display output, to a value of
/// type `T`.
///
/// No name occurs twice, and names keep the order in which they were first
/// inserted.
#[derive(Debug)]
pub struct NameMap<T> {
    entries: Vec<(String, T)>,
}

impl<T> View for NameMap<T> {
    type V = Map<Seq<char>, T>;

    closed spec fn view(&self) -> Map<Seq<char>, T> {
        table_of(self.entries@)
    }
}

impl<T> NameMap<T> {
    /// The names of the table, in insertion order.
    pub closed spec fn keys(&self) -> Seq<Seq<char>> {
        keys_of(self.entries@)
    }

    /// No name occurs twice.
    #[verifier::type_invariant]
    pub open spec fn wf(&self) -> bool {
        self.keys().no_duplicates()
    }

    /// The names are exactly the domain of the view.
    pub proof fn lemma_keys_are_domain(&self, k: Seq<char>)
        ensures
            self@.contains_key(k) <==> self.keys().contains(k),
    {
    }

    /// An empty table.
    pub fn new() -> (m: Self)
        ensures
            m.keys() == Seq::<Seq<char>>::empty(),
            m@ == Map::<Seq<char>, T>::empty(),
    {
        let m = NameMap { entries: Vec::new() };
        assert(m.keys() =~= Seq::<Seq<char>>::empty());
        assert(m@ =~= Map::<Seq<char>, T>::empty());
        m
    }

    /// Number of entries.
    pub fn len(&self) -> (n: usize)
        ensures
            n == self.keys().len(),
    {
        self.entries.len()
    }

    /// Whether the table has no entry.
    pub fn is_empty(&self) -> (empty: bool)
        ensures
            empty == (self.keys().len() == 0),
            empty == (self@ == Map::<Seq<char>, T>::empty()),
    {
        let empty = self.entries.len() == 0;
        proof {
            if empty {
                assert(self@ =~= Map::<Seq<char>, T>::empty());
            } else {
                assert(self.keys().contains(self.keys()[0]));
                assert(self@.contains_key(self.keys()[0]));
            }
        }
        empty
    }

    /// Position of `key` among the names, if it is one of them.
    fn position(&self, key: &str) -> (at: Option<usize>)
        ensures
            match at {
                Some(i) => i < self.keys().len() && self.keys()[i as int] == key@,
                None => !self.keys().contains(key@),
            },
    {
        let mut i: usize = 0;
        while i < self.entries.len()
            invariant
                i <= self.entries.len(),
                forall|j: int| 0 <= j < i ==> self.keys()[j] != key@,
            decreases self.entries.len() - i,
        {
            if str_eq(self.entries[i].0.as_str(), key) {
                return Some(i);
            }
            i = i + 1;
        }
        None
    }

    /// Whether `key` has an entry.
    pub fn contains_key(&self, key: &str) -> (present: bool)
        ensures
            present == self@.contains_key(key@),
    {
        self.position(key).is_some()
    }

    /// The value stored under `key`.
    pub fn get(&self, key: &str) -> (found: Option<&T>)
        ensures
            match found {
                Some(v) => self@.contains_key(key@) && *v == self@[key@],
                None => !self@.contains_key(key@),
            },
    {
        proof {
            use_type_invariant(self);
        }
        match self.position(key) {
            Some(i) => {
                proof {
                    lemma_index_of_at(self.keys(), i as int);
                }
                Some(&self.entries[i].1)
            },
            None => None,
        }
    }

    /// The name at position `i`.
    pub fn key_at(&self, i: usize) -> (name: &String)
        requires
            i < self.keys().len(),
        ensures
            name@ == self.keys()[i as int],
    {
        &self.entries[i].0
    }

    /// The value at position `i`.
    pub fn value_at(&self, i: usize) -> (value: &T)
        requires
            i < self.keys().len(),
        ensures
            self@.contains_key(self.keys()[i as int]),
            *value == self@[self.keys()[i as int]],
    {
        proof {
            use_type_invariant(self);
            lemma_index_of_at(self.keys(), i as int);
        }
        &self.entries[i].1
    }

    /// Stores `value` under `key`. A name that is new goes to the end; one
    /// that is present keeps its place and gets the new value.
    pub fn insert(&mut self, key: String, value: T)
        ensures
            final(self)@ == old(self)@.insert(key@, value),
            final(self).keys() == if old(self)@.contains_key(key@) {
                old(self).keys()
            } else {
                old(self).keys().push(key@)
            },
    {
        proof {
            use_type_invariant(&*self);
        }
        let at = self.position(key.as_str());
        let mut entries: Vec<(String, T)> = Vec::new();
        std::mem::swap(&mut entries, &mut self.entries);
        let ghost before = entries@;
        match at {
            Some(i) => {
                entries.set(i, (key, value));
            },
            None => {
                entries.push((key, value));
            },
        }
        proof {
            let after = entries@;
            let kb = keys_of(before);
            let ka = keys_of(after);
            if at is Some {
                assert(ka =~= kb);
                assert(kb.contains(key@));
            } else {
                assert(ka =~= kb.push(key@));
                assert(ka[kb.len() as int] == key@);
            }
            assert forall|k: Seq<char>| ka.contains(k) <==> (kb.contains(k) || k == key@) by {
                if ka.contains(k) {
                    let j = ka.index_of(k);
                    if j < kb.len() && k != key@ {
                        assert(kb[j] == k);
                    }
                }
                if kb.contains(k) {
                    let j = kb.index_of(k);
                    assert(ka[j] == k);
                }
            }
            assert forall|k: Seq<char>| #[trigger] ka.contains(k) implies table_of(after)[k]
                == table_of(before).insert(key@, value)[k] by {
                let j = ka.index_of(k);
                lemma_index_of_at(ka, j);
                if k != key@ {
                    assert(kb[j] == k);
                    lemma_index_of_at(kb, j);
                }
            }
            assert(table_of(after) =~= table_of(before).insert(key@, value));
        }
        self.entries = entries;
    }

    /// Takes the entry of `key` out of the table and returns its value.
    pub fn remove(&mut self, key: &str) -> (taken: Option<T>)
        ensures
            final(self)@ == old(self)@.remove(key@),
            final(self).keys() == seq_without(old(self).keys(), key@),
            match taken {
                Some(v) => old(self)@.contains_key(key@) && v == old(self)@[key@],
                None => !old(self)@.contains_key(key@),
            },
    {
        proof {
            use_type_invariant(&*self);
        }
        let at = self.position(key);
        match at {
            Some(i) => {
                let mut entries: Vec<(String, T)> = Vec::new();
                std::mem::swap(&mut entries, &mut self.entries);
                let ghost before = entries@;
                let entry = entries.remove(i);
                proof {
                    let after = entries@;
                    lemma_index_of_at(keys_of(before), i as int);
                    assert(keys_of(after) =~= keys_of(before).remove(i as int));
                    assert forall|k: Seq<char>| #[trigger]
                        keys_of(after).contains(k) implies k != key@ && keys_of(before).contains(k)
                        && table_of(after)[k] == table_of(before)[k] by {
                        let j = keys_of(after).index_of(k);
                        lemma_index_of_at(keys_of(after), j);
                        if j < i {
                            lemma_index_of_at(keys_of(before), j);
                        } else {
                            lemma_index_of_at(keys_of(before), j + 1);
                        }
                    }
                    assert forall|k: Seq<char>|
                        k != key@ && #[trigger] keys_of(before).contains(k) implies keys_of(
                        after,
                    ).contains(k) by {
                        let j = keys_of(before).index_of(k);
                        if j < i {
                            assert(keys_of(after)[j] == k);
                        } else {
                            assert(keys_of(after)[j - 1] == k);
                        }
                    }
                    assert(table_of(after) =~= table_of(before).remove(key@));
                }
                self.entries = entries;
                Some(entry.1)
            },
            None => {
                proof {
                    assert(self@ =~= self@.remove(key@));
                }
                None
            },
        }
    }

    /// Takes every entry out of the table and returns the values in the
    /// order of their names.
    pub fn drain(&mut self) -> (values: Vec<T>)
        ensures
            final(self).keys() == Seq::<Seq<char>>::empty(),
            final(self)@ == Map::<Seq<char>, T>::empty(),
            values@.len() == old(self).keys().len(),
            forall|i: int|
                0 <= i < values@.len() ==> values@[i] == old(self)@[#[trigger] old(self).keys()[i]],
    {
        proof {
            use_type_invariant(&*self);
        }
        let mut entries: Vec<(String, T)> = Vec::new();
        std::mem::swap(&mut entries, &mut self.entries);
        assert(self.keys() =~= Seq::<Seq<char>>::empty());
        assert(self@ =~= Map::<Seq<char>, T>::empty());
        let ghost before = entries@;
        let mut values: Vec<T> = Vec::new();
        while entries.len() > 0
            invariant
                keys_of(before).no_duplicates(),
                values@.len() + entries@.len() == before.len(),
                forall|i: int| 0 <= i < values@.len() ==> values@[i] == before[i].1,
                forall|i: int|
                    0 <= i < entries@.len() ==> entries@[i] == before[values@.len() + i],
            decreases entries@.len(),
        {
            let entry = entries.remove(0);
            values.push(entry.1);
        }
        proof {
            assert forall|i: int| 0 <= i < values@.len() implies values@[i] == table_of(
                before,
            )[#[trigger] keys_of(before)[i]] by {
                lemma_index_of_at(keys_of(before), i);
            }
        }
        values
    }
}

impl<T: Clone> Clone for NameMap<T> {
    fn clone(&self) -> (copy: Self)
        ensures
            copy.keys() == self.keys(),
            forall|k: Seq<char>| #[trigger]
                copy@.contains_key(k) ==> self@.contains_key(k) && cloned(self@[k], copy@[k]),
    {
        proof {
            use_type_invariant(self);
        }
        let mut entries: Vec<(String, T)> = Vec::new();
        let mut i: usize = 0;
        while i < self.entries.len()
            invariant
                i <= self.entries.len(),
                entries@.len() == i,
                forall|j: int| 0 <= j < i ==> entries@[j].0@ == self.entries@[j].0@,
                forall|j: int|
                    0 <= j < i ==> cloned(#[trigger] self.entries@[j].1, entries@[j].1),
            decreases self.entries.len() - i,
        {
            let name = self.entries[i].0.clone();
            let value = self.entries[i].1.clone();
            entries.push((name, value));
            i = i + 1;
        }
        proof {
            assert(keys_of(entries@) =~= keys_of(self.entries@));
            assert forall|k: Seq<char>| #[trigger]
                table_of(entries@).contains_key(k) implies table_of(self.entries@).contains_key(k)
                && cloned(table_of(self.entries@)[k], table_of(entries@)[k]) by {
                let j = keys_of(entries@).index_of(k);
                assert(cloned(self.entries@[j].1, entries@[j].1));
            }
        }
        NameMap { entries }
    }
}

} // verus!
