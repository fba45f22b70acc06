//! A keyed record store: records of one kind, each at its own address,
//! kept in the order in which they were created.

use crate::address::Address;
use vstd::prelude::*;

verus! {

/// A record with the address it lives at.
#[derive(Clone, Copy, Debug)]
pub struct Entry<T> {
    pub key: Address,
    pub value: T,
}

/// Whether some record lives at `key`.
pub open spec fn has_key<T>(s: Seq<Entry<T>>, key: Address) -> bool {
    exists|i: int| 0 <= i < s.len() && (#[trigger] s[i]).key == key
}

/// An index at which a record lives at `key`, where there is one.
pub open spec fn position<T>(s: Seq<Entry<T>>, key: Address) -> int {
    choose|i: int| 0 <= i < s.len() && (#[trigger] s[i]).key == key
}

/// The record that lives at `key`, if any.
pub open spec fn lookup<T>(s: Seq<Entry<T>>, key: Address) -> Option<T> {
    if has_key(s, key) {
        Some(s[position(s, key)].value)
    } else {
        None
    }
}

/// No two records live at one address.
pub open spec fn distinct_keys<T>(s: Seq<Entry<T>>) -> bool {
    forall|i: int, j: int| 0 <= i < j < s.len() ==> (#[trigger] s[i]).key != (#[trigger] s[j]).key
}

/// The store with one more record, created last.
pub open spec fn inserted<T>(s: Seq<Entry<T>>, key: Address, value: T) -> Seq<Entry<T>> {
    s.push(Entry { key, value })
}

/// The store with the record at `key` overwritten in place.
pub open spec fn replaced<T>(s: Seq<Entry<T>>, key: Address, value: T) -> Seq<Entry<T>> {
    s.update(position(s, key), Entry { key, value })
}

/// In a store without duplicates, a record found at `key` sits at
/// `position(s, key)`.
pub proof fn lemma_position_unique<T>(s: Seq<Entry<T>>, key: Address, i: int)
    requires
        distinct_keys(s),
        0 <= i < s.len(),
        s[i].key == key,
    ensures
        has_key(s, key),
        position(s, key) == i,
        lookup(s, key) == Some(s[i].value),
{
    let p = position(s, key);
    assert(0 <= p < s.len() && s[p].key == key);
    if p < i {
        assert(s[p].key != s[i].key);
    } else if i < p {
        assert(s[i].key != s[p].key);
    }
}

/// Creating a record at a free address keeps the store free of
/// duplicates, makes that record the one found there, and leaves every
/// other address as it was.
pub proof fn lemma_inserted<T>(s: Seq<Entry<T>>, key: Address, value: T)
    requires
        distinct_keys(s),
        !has_key(s, key),
    ensures
        distinct_keys(inserted(s, key, value)),
        lookup(inserted(s, key, value), key) == Some(value),
        forall|other: Address|
            other != key ==> #[trigger] lookup(inserted(s, key, value), other) == lookup(s, other),
        forall|other: Address| #[trigger]
            has_key(inserted(s, key, value), other) == (other == key || has_key(s, other)),
{
    let t = inserted(s, key, value);
    assert forall|i: int, j: int| 0 <= i < j < t.len() implies (#[trigger] t[i]).key != (
    #[trigger] t[j]).key by {
        if j == s.len() {
            assert(s[i].key != key);
        } else {
            assert(s[i].key != s[j].key);
        }
    }
    lemma_position_unique(t, key, s.len() as int);
    assert forall|other: Address| #[trigger]
        has_key(t, other) == (other == key || has_key(s, other)) by {
        if has_key(t, other) {
            let p = position(t, other);
            if p < s.len() {
                assert(s[p].key == other);
            }
        }
        if has_key(s, other) {
            let p = position(s, other);
            assert(t[p].key == other);
        }
        if other == key {
            assert(t[s.len() as int].key == other);
        }
    }
    assert forall|other: Address| other != key implies #[trigger] lookup(t, other) == lookup(
        s,
        other,
    ) by {
        if has_key(s, other) {
            let p = position(s, other);
            assert(t[p].key == other);
            lemma_position_unique(t, other, p);
        }
    }
}

/// Overwriting the record at a taken address keeps every address taken or
/// free as it was, makes the new record the one found there, and leaves
/// every other record as it was.
pub proof fn lemma_replaced<T>(s: Seq<Entry<T>>, key: Address, value: T)
    requires
        distinct_keys(s),
        has_key(s, key),
    ensures
        distinct_keys(replaced(s, key, value)),
        replaced(s, key, value).len() == s.len(),
        lookup(replaced(s, key, value), key) == Some(value),
        forall|other: Address|
            other != key ==> #[trigger] lookup(replaced(s, key, value), other) == lookup(s, other),
        forall|other: Address| #[trigger] has_key(replaced(s, key, value), other) == has_key(s, other),
        forall|i: int|
            0 <= i < s.len() ==> (#[trigger] replaced(s, key, value)[i]).key == s[i].key,
{
    let t = replaced(s, key, value);
    let p = position(s, key);
    assert(0 <= p < s.len() && s[p].key == key);
    assert forall|i: int| 0 <= i < s.len() implies (#[trigger] t[i]).key == s[i].key by {}
    assert forall|i: int, j: int| 0 <= i < j < t.len() implies (#[trigger] t[i]).key != (
    #[trigger] t[j]).key by {
        assert(s[i].key != s[j].key);
    }
    lemma_position_unique(t, key, p);
    assert forall|other: Address| #[trigger] has_key(t, other) == has_key(s, other) by {
        if has_key(t, other) {
            let q = position(t, other);
            assert(s[q].key == other);
        }
        if has_key(s, other) {
            let q = position(s, other);
            assert(t[q].key == other);
        }
    }
    assert forall|other: Address| other != key implies #[trigger] lookup(t, other) == lookup(
        s,
        other,
    ) by {
        if has_key(s, other) {
            let q = position(s, other);
            assert(t[q].key == other);
            lemma_position_unique(t, other, q);
        }
    }
}

/// The records of one kind, by address.
pub struct Table<T> {
    entries: Vec<Entry<T>>,
}

impl<T: Copy> Table<T> {
    /// The records with their addresses, oldest first.
    pub closed spec fn view(&self) -> Seq<Entry<T>> {
        self.entries@
    }

    /// No two records live at one address.
    pub open spec fn wf(&self) -> bool {
        distinct_keys(self@)
    }

    /// The empty store.
    pub fn new() -> (r: Self)
        ensures
            r@ == Seq::<Entry<T>>::empty(),
            r.wf(),
    {
        Table { entries: Vec::new() }
    }

    /// How many records the store holds.
    pub fn len(&self) -> (r: usize)
        ensures
            r == self@.len(),
    {
        self.entries.len()
    }

    /// The record created as the `i`-th, with its address.
    pub fn at(&self, i: usize) -> (r: Entry<T>)
        requires
            i < self@.len(),
        ensures
            r == self@[i as int],
    {
        self.entries[i]
    }

    /// The index of the record at `key`, if any.
    fn find(&self, key: &Address) -> (r: Option<usize>)
        requires
            self.wf(),
        ensures
            match r {
                Some(i) => has_key(self@, *key) && i == position(self@, *key) && i < self@.len(),
                None => !has_key(self@, *key),
            },
    {
        let mut i: usize = 0;
        while i < self.entries.len()
            invariant
                i <= self.entries.len(),
                self.wf(),
                forall|j: int| 0 <= j < i ==> (#[trigger] self@[j]).key != *key,
            decreases self.entries.len() - i,
        {
            if self.entries[i].key == *key {
                proof {
                    lemma_position_unique(self@, *key, i as int);
                }
                return Some(i);
            }
            i += 1;
        }
        None
    }

    /// The record at `key`, if any.
    pub fn get(&self, key: &Address) -> (r: Option<T>)
        requires
            self.wf(),
        ensures
            r == lookup(self@, *key),
    {
        match self.find(key) {
            Some(i) => Some(self.entries[i].value),
            None => None,
        }
    }

    /// Whether a record lives at `key`.
    pub fn contains(&self, key: &Address) -> (r: bool)
        requires
            self.wf(),
        ensures
            r == has_key(self@, *key),
    {
        self.find(key).is_some()
    }

    /// Creates the record at `key` if that address is free, and says
    /// whether it did. A taken address is left as it was.
    pub fn insert(&mut self, key: Address, value: T) -> (r: bool)
        requires
            old(self).wf(),
        ensures
            final(self).wf(),
            r == !has_key(old(self)@, key),
            final(self)@ == if r {
                inserted(old(self)@, key, value)
            } else {
                old(self)@
            },
    {
        if self.find(&key).is_some() {
            return false;
        }
        proof {
            lemma_inserted(self@, key, value);
        }
        self.entries.push(Entry { key, value });
        true
    }

    /// Overwrites the record at `key` if there is one, and says whether it
    /// did. A free address is left free.
    pub fn update(&mut self, key: Address, value: T) -> (r: bool)
        requires
            old(self).wf(),
        ensures
            final(self).wf(),
            r == has_key(old(self)@, key),
            final(self)@ == if r {
                replaced(old(self)@, key, value)
            } else {
                old(self)@
            },
    {
        match self.find(&key) {
            Some(i) => {
                proof {
                    lemma_replaced(self@, key, value);
                }
                self.entries[i] = Entry { key, value };
                true
            },
            None => false,
        }
    }
}

} // verus!
