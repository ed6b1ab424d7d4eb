//! Rows as flat records: field keys with dynamically typed values.

use crate::json::{json_object, object_value};
use serde_json::Value;
use vstd::prelude::*;

verus! {

/// The entries of a record as mathematics: pairs of a key and a value.
pub type Entries = Seq<(Seq<char>, Value)>;

/// Whether some entry of `s` has the key `key`.
pub open spec fn has_key(s: Entries, key: Seq<char>) -> bool {
    exists|i: int| 0 <= i < s.len() && (#[trigger] s[i]).0 == key
}

/// The position of an entry with the key `key`, where there is one.
pub open spec fn index_of(s: Entries, key: Seq<char>) -> int {
    choose|i: int| 0 <= i < s.len() && (#[trigger] s[i]).0 == key
}

/// Whether no key occurs twice in `s`.
pub open spec fn distinct_keys(s: Entries) -> bool {
    forall|i: int, j: int| 0 <= i < j < s.len() ==> (#[trigger] s[i]).0 != (#[trigger] s[j]).0
}

/// The value stored under `key`, if any.
pub open spec fn value_of(s: Entries, key: Seq<char>) -> Option<Value> {
    if has_key(s, key) {
        Some(s[index_of(s, key)].1)
    } else {
        None
    }
}

/// `s` after storing `value` under `key`: an entry with that key keeps its
/// place and takes the new value; otherwise a new entry is added at the end.
pub open spec fn inserted(s: Entries, key: Seq<char>, value: Value) -> Entries {
    if has_key(s, key) {
        s.update(index_of(s, key), (key, value))
    } else {
        s.push((key, value))
    }
}

/// The record that results from storing the entries of `s`, one after the
/// other, each under the key that `f` gives for its own key. Where `f` sends
/// two keys to the same key, the later entry's value replaces the earlier one.
pub open spec fn rekeyed(s: Entries, f: spec_fn(Seq<char>) -> Seq<char>) -> Entries
    decreases s.len(),
{
    if s.len() == 0 {
        Seq::empty()
    } else {
        inserted(rekeyed(s.drop_last(), f), f(s.last().0), s.last().1)
    }
}

/// The rule that leaves every key as it is.
pub open spec fn same_key() -> spec_fn(Seq<char>) -> Seq<char> {
    |k: Seq<char>| k
}

/// The mathematical entries of a vector of owned entries.
pub open spec fn entries_view(v: Seq<(String, Value)>) -> Entries {
    v.map_values(|e: (String, Value)| (e.0@, e.1))
}

/// Storing under a key keeps keys distinct, makes the key present with the
/// new value, and leaves every other key as it was.
pub proof fn lemma_inserted(s: Entries, key: Seq<char>, value: Value)
    requires
        distinct_keys(s),
    ensures
        distinct_keys(inserted(s, key, value)),
        has_key(inserted(s, key, value), key),
        value_of(inserted(s, key, value), key) == Some(value),
        forall|k: Seq<char>| k != key ==> has_key(inserted(s, key, value), k) == has_key(s, k),
        forall|k: Seq<char>| k != key ==> value_of(inserted(s, key, value), k) == value_of(s, k),
        inserted(s, key, value).len() == s.len() + (if has_key(s, key) { 0int } else { 1int }),
{
    let t = inserted(s, key, value);
    if has_key(s, key) {
        let p = index_of(s, key);
        assert(t[p].0 == key);
        assert forall|i: int, j: int| 0 <= i < j < t.len() implies (#[trigger] t[i]).0 != (
        #[trigger] t[j]).0 by {
            assert(s[i].0 != s[j].0);
        }
        assert forall|k: Seq<char>| k != key implies has_key(t, k) == has_key(s, k) by {
            if has_key(s, k) {
                let i = index_of(s, k);
                assert(t[i].0 == k);
            }
            if has_key(t, k) {
                let i = index_of(t, k);
                assert(s[i].0 == k);
            }
        }
    } else {
        let p = s.len() as int;
        assert(t[p].0 == key);
        assert forall|i: int, j: int| 0 <= i < j < t.len() implies (#[trigger] t[i]).0 != (
        #[trigger] t[j]).0 by {
            if j < s.len() {
                assert(s[i].0 != s[j].0);
            } else {
                assert(s[i].0 != key);
            }
        }
        assert forall|k: Seq<char>| k != key implies has_key(t, k) == has_key(s, k) by {
            if has_key(s, k) {
                let i = index_of(s, k);
                assert(t[i].0 == k);
            }
            if has_key(t, k) {
                let i = index_of(t, k);
                assert(s[i].0 == k);
            }
        }
    }
    lemma_index_unique(t, key, index_of(t, key));
    assert forall|k: Seq<char>| k != key implies value_of(t, k) == value_of(s, k) by {
        if has_key(s, k) {
            let i = index_of(s, k);
            assert(t[i].0 == k);
            lemma_index_unique(t, k, i);
        }
    }
}

/// With distinct keys, an entry that has the key is the one `index_of` finds.
pub proof fn lemma_index_unique(s: Entries, key: Seq<char>, i: int)
    requires
        distinct_keys(s),
        0 <= i < s.len(),
        s[i].0 == key,
    ensures
        has_key(s, key),
        index_of(s, key) == i,
        value_of(s, key) == Some(s[i].1),
{
    let j = index_of(s, key);
    if j < i {
        assert(s[j].0 != s[i].0);
    } else if i < j {
        assert(s[i].0 != s[j].0);
    }
}

/// A row: an insertion-ordered collection of entries in which no key occurs
/// twice. Keys are field keys or field names; values are carried as they are.
///
/// The entries are kept in a vector. Of a hash map with text for keys nothing
/// could be proved: vstd models the keys of a `HashMap` for the integer types
/// and `bool` only.
#[derive(Debug)]
pub struct Record {
    entries: Vec<(String, Value)>,
}

impl View for Record {
    type V = Entries;

    closed spec fn view(&self) -> Entries {
        entries_view(self.entries@)
    }
}

impl Record {
    /// The invariant of a record: its keys are pairwise distinct.
    #[verifier::type_invariant]
    pub open spec fn wf(&self) -> bool {
        distinct_keys(self@)
    }

    /// An empty record.
    pub fn new() -> (record: Record)
        ensures
            record@ == Entries::empty(),
    {
        let record = Record { entries: Vec::new() };
        assert(record@ =~= Entries::empty());
        record
    }

    /// The number of entries.
    pub fn len(&self) -> (n: usize)
        ensures
            n == self@.len(),
    {
        self.entries.len()
    }

    /// Whether the record has no entry.
    pub fn is_empty(&self) -> (empty: bool)
        ensures
            empty == (self@.len() == 0),
    {
        self.entries.len() == 0
    }

    fn position(&self, key: &str) -> (at: Option<usize>)
        ensures
            match at {
                Some(i) => i < self@.len() && self@[i as int].0 == key@,
                None => !has_key(self@, key@),
            },
    {
        let mut i: usize = 0;
        while i < self.entries.len()
            invariant
                i <= self.entries.len(),
                forall|j: int| 0 <= j < i ==> (#[trigger] self@[j]).0 != key@,
            decreases self.entries.len() - i,
        {
            if self.entries[i].0.as_str().eq(key) {
                return Some(i);
            }
            i += 1;
        }
        None
    }

    /// Whether an entry has the key `key`.
    pub fn contains_key(&self, key: &str) -> (found: bool)
        ensures
            found == has_key(self@, key@),
    {
        self.position(key).is_some()
    }

    /// The value stored under `key`, if any.
    pub fn get(&self, key: &str) -> (value: Option<&Value>)
        ensures
            match value {
                Some(v) => value_of(self@, key@) == Some(*v),
                None => value_of(self@, key@) is None,
            },
    {
        match self.position(key) {
            Some(i) => {
                proof {
                    use_type_invariant(self);
                    lemma_index_unique(self@, key@, i as int);
                }
                Some(&self.entries[i].1)
            },
            None => None,
        }
    }

    /// Stores `value` under `key` and returns the value that was stored there
    /// before, if any. An existing entry keeps its place.
    pub fn insert(&mut self, key: String, value: Value) -> (previous: Option<Value>)
        ensures
            final(self)@ == inserted(old(self)@, key@, value),
            previous == value_of(old(self)@, key@),
    {
        proof {
            use_type_invariant(&*self);
            lemma_inserted(self@, key@, value);
        }
        let at = self.position(key.as_str());
        let mut entries: Vec<(String, Value)> = Vec::new();
        assert(entries_view(entries@) =~= Entries::empty());
        core::mem::swap(&mut self.entries, &mut entries);
        let previous = match at {
            Some(i) => {
                proof {
                    lemma_index_unique(old(self)@, key@, i as int);
                }
                entries.push((key, value));
                let replaced = entries.swap_remove(i);
                Some(replaced.1)
            },
            None => {
                entries.push((key, value));
                None
            },
        };
        assert(entries_view(entries@) =~= inserted(old(self)@, key@, value));
        core::mem::swap(&mut self.entries, &mut entries);
        previous
    }

    /// The keys, in the order of the entries.
    pub fn keys(&self) -> (keys: Vec<String>)
        ensures
            keys@.len() == self@.len(),
            forall|i: int| 0 <= i < keys@.len() ==> (#[trigger] keys@[i])@ == self@[i].0,
    {
        let mut keys: Vec<String> = Vec::new();
        let mut i: usize = 0;
        while i < self.entries.len()
            invariant
                i <= self.entries.len(),
                keys@.len() == i,
                forall|j: int| 0 <= j < i ==> (#[trigger] keys@[j])@ == self@[j].0,
            decreases self.entries.len() - i,
        {
            keys.push(self.entries[i].0.clone());
            i += 1;
        }
        keys
    }

    /// The entries, in order, as owned pairs.
    pub fn into_entries(self) -> (entries: Vec<(String, Value)>)
        ensures
            entries_view(entries@) == self@,
    {
        self.entries
    }

    /// The JSON object that holds the entries of the record.
    pub fn into_value(self) -> (object: Value)
        ensures
            object == json_object(self@),
    {
        object_value(self.entries)
    }

    /// The record that results from storing `entries` one after the other.
    pub fn from_entries(entries: Vec<(String, Value)>) -> (record: Record)
        ensures
            record@ == rekeyed(entries_view(entries@), same_key()),
    {
        let ghost all = entries_view(entries@);
        let mut record = Record::new();
        for entry in it: entries
            invariant
                it.seq() == entries@,
                all == entries_view(entries@),
                record@ == rekeyed(all.take(it.index() as int), same_key()),
        {
            proof {
                let n = it.index() as int;
                assert(all.take(n + 1).drop_last() =~= all.take(n));
                assert(entry == entries@[n]);
                assert(all.take(n + 1).last() == (entry.0@, entry.1));
            }
            record.insert(entry.0, entry.1);
        }
        assert(all.take(all.len() as int) =~= all);
        record
    }
}

/// The entries of `s` with every key replaced by what `f` gives for it.
pub open spec fn with_keys(s: Entries, f: spec_fn(Seq<char>) -> Seq<char>) -> Entries {
    s.map_values(|e: (Seq<char>, Value)| (f(e.0), e.1))
}

/// Storing entries under new keys gives a record with distinct keys, of at
/// most as many entries.
pub proof fn lemma_rekeyed_wf(s: Entries, f: spec_fn(Seq<char>) -> Seq<char>)
    ensures
        distinct_keys(rekeyed(s, f)),
        rekeyed(s, f).len() <= s.len(),
    decreases s.len(),
{
    if s.len() > 0 {
        lemma_rekeyed_wf(s.drop_last(), f);
        lemma_inserted(rekeyed(s.drop_last(), f), f(s.last().0), s.last().1);
    }
}

/// The new key of every entry is a key of the result.
pub proof fn lemma_rekeyed_has_key(s: Entries, f: spec_fn(Seq<char>) -> Seq<char>, i: int)
    requires
        0 <= i < s.len(),
    ensures
        has_key(rekeyed(s, f), f(s[i].0)),
    decreases s.len(),
{
    lemma_rekeyed_wf(s.drop_last(), f);
    lemma_inserted(rekeyed(s.drop_last(), f), f(s.last().0), s.last().1);
    if i < s.len() - 1 {
        lemma_rekeyed_has_key(s.drop_last(), f, i);
        assert(s.drop_last()[i] == s[i]);
    }
}

/// Every key of the result is the new key of some entry.
pub proof fn law_rekeyed_key_comes_from_an_entry(
    s: Entries,
    f: spec_fn(Seq<char>) -> Seq<char>,
    key: Seq<char>,
) -> (i: int)
    requires
        has_key(rekeyed(s, f), key),
    ensures
        0 <= i < s.len(),
        f(s[i].0) == key,
    decreases s.len(),
{
    if s.len() == 0 {
        0
    } else {
        lemma_rekeyed_wf(s.drop_last(), f);
        lemma_inserted(rekeyed(s.drop_last(), f), f(s.last().0), s.last().1);
        if f(s.last().0) == key {
            s.len() - 1
        } else {
            let i = law_rekeyed_key_comes_from_an_entry(s.drop_last(), f, key);
            assert(s.drop_last()[i] == s[i]);
            i
        }
    }
}

/// The value under a key of the result is that of the last entry whose new
/// key it is.
pub proof fn law_rekeyed_keeps_the_last_value(s: Entries, f: spec_fn(Seq<char>) -> Seq<char>, i: int)
    requires
        0 <= i < s.len(),
        forall|j: int| i < j < s.len() ==> f((#[trigger] s[j]).0) != f(s[i].0),
    ensures
        value_of(rekeyed(s, f), f(s[i].0)) == Some(s[i].1),
    decreases s.len(),
{
    lemma_rekeyed_wf(s.drop_last(), f);
    lemma_inserted(rekeyed(s.drop_last(), f), f(s.last().0), s.last().1);
    if i < s.len() - 1 {
        assert(f(s[s.len() - 1].0) != f(s[i].0));
        assert forall|j: int| i < j < s.drop_last().len() implies f(
            (#[trigger] s.drop_last()[j]).0,
        ) != f(s.drop_last()[i].0) by {
            assert(s.drop_last()[j] == s[j]);
        }
        law_rekeyed_keeps_the_last_value(s.drop_last(), f, i);
    }
}

/// Where no two entries get the same new key, storing them under the new keys
/// only replaces the keys: order and values stay.
pub proof fn lemma_rekeyed_without_collision(s: Entries, f: spec_fn(Seq<char>) -> Seq<char>)
    requires
        forall|i: int, j: int|
            0 <= i < j < s.len() ==> f((#[trigger] s[i]).0) != f((#[trigger] s[j]).0),
    ensures
        rekeyed(s, f) == with_keys(s, f),
    decreases s.len(),
{
    if s.len() == 0 {
        assert(rekeyed(s, f) =~= with_keys(s, f));
    } else {
        let front = s.drop_last();
        assert forall|i: int, j: int| 0 <= i < j < front.len() implies f(
            (#[trigger] front[i]).0,
        ) != f((#[trigger] front[j]).0) by {
            assert(front[i] == s[i] && front[j] == s[j]);
        }
        lemma_rekeyed_without_collision(front, f);
        let key = f(s.last().0);
        if has_key(with_keys(front, f), key) {
            let i = index_of(with_keys(front, f), key);
            assert(f(s[i].0) != f(s[s.len() - 1].0));
        }
        assert(rekeyed(s, f) =~= with_keys(s, f));
    }
}

} // verus!
