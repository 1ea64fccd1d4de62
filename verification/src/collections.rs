//! Small keyed containers over strings: a map and a set whose keys are
//! compared by their characters.

use vstd::prelude::*;

verus! {

/// Whether `i` is the first place in `entries` where the key reads `key`.
pub open spec fn is_first_entry<V>(entries: Seq<(String, V)>, key: Seq<char>, i: int) -> bool {
    &&& 0 <= i < entries.len()
    &&& entries[i].0@ == key
    &&& forall|j: int| 0 <= j < i ==> (#[trigger] entries[j]).0@ != key
}

/// Whether some entry of `entries` has the key `key`.
pub open spec fn has_entry<V>(entries: Seq<(String, V)>, key: Seq<char>) -> bool {
    exists|i: int| is_first_entry(entries, key, i)
}

/// The first place in `entries` where the key reads `key`.
pub open spec fn first_entry<V>(entries: Seq<(String, V)>, key: Seq<char>) -> int {
    choose|i: int| is_first_entry(entries, key, i)
}

/// The map that a run of entries stands for: a key's value is the value of the
/// first entry under that key.
pub open spec fn map_of<V>(entries: Seq<(String, V)>) -> Map<Seq<char>, V> {
    Map::new(
        |k: Seq<char>| has_entry(entries, k),
        |k: Seq<char>| entries[first_entry(entries, k)].1,
    )
}

/// Whether no two entries of `entries` have keys that read the same.
pub open spec fn distinct_keys<V>(entries: Seq<(String, V)>) -> bool {
    forall|i: int, j: int|
        0 <= i < j < entries.len() ==> (#[trigger] entries[i]).0@ != (#[trigger] entries[j]).0@
}

/// A finite map from strings to values. Entries are kept in the order in which
/// their keys first came, and no key is kept twice.
pub struct StringMap<V> {
    entries: Vec<(String, V)>,
}

impl<V> View for StringMap<V> {
    type V = Map<Seq<char>, V>;

    closed spec fn view(&self) -> Map<Seq<char>, V> {
        map_of(self.entries@)
    }
}

impl<V> StringMap<V> {
    #[verifier::type_invariant]
    spec fn no_key_twice(self) -> bool {
        distinct_keys(self.entries@)
    }

    /// The empty map.
    pub fn new() -> (m: Self)
        ensures
            m@ == Map::<Seq<char>, V>::empty(),
    {
        let m = StringMap { entries: Vec::new() };
        assert(m@ =~= Map::<Seq<char>, V>::empty());
        m
    }

    /// Where `key` first stands among the entries.
    fn position(&self, key: &String) -> (at: Option<usize>)
        ensures
            match at {
                Some(i) => is_first_entry(self.entries@, key@, i as int),
                None => !has_entry(self.entries@, key@),
            },
    {
        let mut i: usize = 0;
        while i < self.entries.len()
            invariant
                i <= self.entries@.len(),
                forall|j: int| 0 <= j < i ==> (#[trigger] self.entries@[j]).0@ != key@,
            decreases self.entries@.len() - i,
        {
            if self.entries[i].0 == *key {
                return Some(i);
            }
            i += 1;
        }
        None
    }

    /// Whether `key` has a value.
    pub fn contains_key(&self, key: &String) -> (found: bool)
        ensures
            found == self@.contains_key(key@),
    {
        self.position(key).is_some()
    }

    /// The value under `key`, if it has one.
    pub fn get(&self, key: &String) -> (value: Option<&V>)
        ensures
            match value {
                Some(v) => self@.contains_key(key@) && *v == self@[key@],
                None => !self@.contains_key(key@),
            },
    {
        match self.position(key) {
            Some(i) => {
                proof {
                    lemma_first_entry_unique(self.entries@, key@, i as int);
                }
                Some(&self.entries[i].1)
            },
            None => None,
        }
    }

    /// Puts `value` under `key`, in place of the value that `key` had.
    pub fn insert(&mut self, key: String, value: V)
        ensures
            final(self)@ == old(self)@.insert(key@, value),
    {
        proof {
            use_type_invariant(&*self);
        }
        let ghost before = self.entries@;
        let ghost at: int;
        let found = self.position(&key);
        let mut entries: Vec<(String, V)> = Vec::new();
        core::mem::swap(&mut self.entries, &mut entries);
        match found {
            Some(i) => {
                proof {
                    at = i as int;
                }
                entries.set(i, (key, value));
                assert(entries@ == before.update(at, (key, value)));
            },
            None => {
                proof {
                    at = before.len() as int;
                }
                entries.push((key, value));
                assert(entries@ == before.push((key, value)));
            },
        }
        proof {
            let after = entries@;
            assert forall|i: int, j: int| 0 <= i < j < after.len() implies (
            #[trigger] after[i]).0@ != (#[trigger] after[j]).0@ by {
                if at < before.len() {
                    assert(before[i].0@ != before[j].0@);
                    assert(before[at].0@ == key@);
                } else if j < before.len() {
                    assert(before[i].0@ != before[j].0@);
                } else {
                    if before[i].0@ == key@ {
                        lemma_entry_has_first(before, key@, i);
                    }
                }
            }
        }
        core::mem::swap(&mut self.entries, &mut entries);
        proof {
            let after = self.entries@;
            assert(after.len() > at >= 0 && after[at] == (key, value));
            assert forall|j: int| 0 <= j < after.len() && j != at implies j < before.len()
                && #[trigger] after[j] == before[j] by {}
            assert forall|j: int| 0 <= j < at implies (#[trigger] after[j]).0@ != key@ by {
                assert(after[j] == before[j]);
                if has_entry(before, key@) {
                } else {
                    if before[j].0@ == key@ {
                        lemma_entry_has_first(before, key@, j);
                    }
                }
            }
            assert(is_first_entry(after, key@, at));
            lemma_first_entry_unique(after, key@, at);
            assert forall|k: Seq<char>| k != key@ implies (has_entry(after, k) == has_entry(
                before,
                k,
            ) && (has_entry(before, k) ==> after[first_entry(after, k)].1 == before[first_entry(
                before,
                k,
            )].1)) by {
                if has_entry(before, k) {
                    let i = first_entry(before, k);
                    assert(i != at) by {
                        if i == at && at < before.len() {
                            assert(before[at].0@ == key@);
                        }
                    }
                    assert(after[i] == before[i]);
                    assert forall|j: int| 0 <= j < i implies (#[trigger] after[j]).0@ != k by {
                        if j != at {
                            assert(after[j] == before[j]);
                        }
                    }
                    assert(is_first_entry(after, k, i));
                    lemma_first_entry_unique(after, k, i);
                }
                if has_entry(after, k) {
                    let i = first_entry(after, k);
                    assert(i != at);
                    assert(after[i] == before[i]);
                    assert forall|j: int| 0 <= j < i implies (#[trigger] before[j]).0@ != k by {
                        if j != at {
                            assert(after[j] == before[j]);
                        } else {
                            assert(before[at].0@ == key@);
                        }
                    }
                    assert(is_first_entry(before, k, i));
                }
            }
            assert(final(self)@ =~= old(self)@.insert(key@, value));
        }
    }

    /// The entries, in the order in which their keys first came.
    pub fn entries(&self) -> (entries: &Vec<(String, V)>)
        ensures
            map_of(entries@) == self@,
            distinct_keys(entries@),
    {
        proof {
            use_type_invariant(self);
        }
        &self.entries
    }

    /// Gives up the map for its entries.
    pub fn into_entries(self) -> (entries: Vec<(String, V)>)
        ensures
            map_of(entries@) == self@,
            distinct_keys(entries@),
    {
        proof {
            use_type_invariant(&self);
        }
        self.entries
    }
}

/// A sequence that holds a key somewhere holds it at a first place.
pub proof fn lemma_entry_has_first<V>(entries: Seq<(String, V)>, key: Seq<char>, i: int)
    requires
        0 <= i < entries.len(),
        entries[i].0@ == key,
    ensures
        has_entry(entries, key),
        first_entry(entries, key) <= i,
    decreases i,
{
    if exists|j: int| 0 <= j < i && (#[trigger] entries[j]).0@ == key {
        let j = choose|j: int| 0 <= j < i && (#[trigger] entries[j]).0@ == key;
        lemma_entry_has_first(entries, key, j);
    } else {
        assert(is_first_entry(entries, key, i));
        lemma_first_entry_unique(entries, key, i);
    }
}

/// The first entry under a key is the one that `first_entry` picks.
pub proof fn lemma_first_entry_unique<V>(entries: Seq<(String, V)>, key: Seq<char>, i: int)
    requires
        is_first_entry(entries, key, i),
    ensures
        has_entry(entries, key),
        first_entry(entries, key) == i,
{
    let j = first_entry(entries, key);
    assert(is_first_entry(entries, key, j));
    if j < i {
        assert(entries[j].0@ != key);
    }
    if i < j {
        assert(entries[i].0@ != key);
    }
}

/// Whether some string of `items` reads `key`.
pub open spec fn has_item(items: Seq<String>, key: Seq<char>) -> bool {
    exists|i: int| 0 <= i < items.len() && (#[trigger] items[i])@ == key
}

/// Whether no two strings of `items` read the same.
pub open spec fn distinct_items(items: Seq<String>) -> bool {
    forall|i: int, j: int|
        0 <= i < j < items.len() ==> (#[trigger] items[i])@ != (#[trigger] items[j])@
}

/// The set that a run of strings stands for.
pub open spec fn set_of(items: Seq<String>) -> Set<Seq<char>> {
    Set::new(|k: Seq<char>| has_item(items, k))
}

/// A finite set of strings. No member is kept twice.
pub struct StringSet {
    items: Vec<String>,
}

impl View for StringSet {
    type V = Set<Seq<char>>;

    closed spec fn view(&self) -> Set<Seq<char>> {
        set_of(self.items@)
    }
}

impl StringSet {
    #[verifier::type_invariant]
    spec fn no_member_twice(self) -> bool {
        distinct_items(self.items@)
    }

    /// The empty set.
    pub fn new() -> (s: Self)
        ensures
            s@ == Set::<Seq<char>>::empty(),
    {
        let s = StringSet { items: Vec::new() };
        assert(s@ =~= Set::<Seq<char>>::empty());
        s
    }

    /// The members, in the order in which they came.
    pub fn items(&self) -> (items: &Vec<String>)
        ensures
            set_of(items@) == self@,
            distinct_items(items@),
    {
        proof {
            use_type_invariant(self);
        }
        &self.items
    }

    /// Gives up the set for its members.
    pub fn into_items(self) -> (items: Vec<String>)
        ensures
            set_of(items@) == self@,
            distinct_items(items@),
    {
        proof {
            use_type_invariant(&self);
        }
        self.items
    }

    /// Where `key` stands among the members.
    fn position(&self, key: &String) -> (at: Option<usize>)
        ensures
            match at {
                Some(i) => i < self.items@.len() && self.items@[i as int]@ == key@,
                None => !has_item(self.items@, key@),
            },
    {
        let mut i: usize = 0;
        while i < self.items.len()
            invariant
                i <= self.items@.len(),
                forall|j: int| 0 <= j < i ==> (#[trigger] self.items@[j])@ != key@,
            decreases self.items@.len() - i,
        {
            if self.items[i] == *key {
                return Some(i);
            }
            i += 1;
        }
        None
    }

    /// Whether `key` is in the set.
    pub fn contains(&self, key: &String) -> (found: bool)
        ensures
            found == self@.contains(key@),
    {
        self.position(key).is_some()
    }

    /// Adds `key`. Returns whether it was new to the set.
    pub fn insert(&mut self, key: String) -> (added: bool)
        ensures
            added == !old(self)@.contains(key@),
            final(self)@ == old(self)@.insert(key@),
    {
        proof {
            use_type_invariant(&*self);
        }
        if self.position(&key).is_some() {
            assert(self@ =~= old(self)@.insert(key@));
            return false;
        }
        let ghost before = self.items@;
        let mut items: Vec<String> = Vec::new();
        core::mem::swap(&mut self.items, &mut items);
        items.push(key);
        proof {
            let after = items@;
            assert(after == before.push(key));
            assert(after[after.len() - 1]@ == key@);
            assert forall|k: Seq<char>| has_item(after, k) == (k == key@ || has_item(
                before,
                k,
            )) by {
                if has_item(before, k) {
                    let i = choose|i: int| 0 <= i < before.len() && (#[trigger] before[i])@ == k;
                    assert(after[i]@ == k);
                }
                if has_item(after, k) && k != key@ {
                    let i = choose|i: int| 0 <= i < after.len() && (#[trigger] after[i])@ == k;
                    assert(before[i]@ == k);
                }
            }
            assert(set_of(after) =~= set_of(before).insert(key@));
            assert(distinct_items(after)) by {
                assert forall|i: int, j: int| 0 <= i < j < after.len() implies (
                #[trigger] after[i])@ != (#[trigger] after[j])@ by {
                    if j < before.len() {
                        assert(before[i]@ != before[j]@);
                    } else {
                        assert(after[i] == before[i]);
                    }
                }
            }
        }
        core::mem::swap(&mut self.items, &mut items);
        true
    }

    /// Takes `key` out. Returns whether it was in the set.
    pub fn remove(&mut self, key: &String) -> (was_present: bool)
        ensures
            was_present == old(self)@.contains(key@),
            final(self)@ == old(self)@.remove(key@),
    {
        proof {
            use_type_invariant(&*self);
        }
        let at = match self.position(key) {
            Some(i) => i,
            None => {
                assert(self@ =~= old(self)@.remove(key@));
                return false;
            },
        };
        let ghost before = self.items@;
        let mut items: Vec<String> = Vec::new();
        core::mem::swap(&mut self.items, &mut items);
        items.remove(at);
        proof {
            let after = items@;
            assert(after == before.remove(at as int));
            assert forall|j: int| 0 <= j < after.len() implies #[trigger] after[j] == (if j < at {
                before[j]
            } else {
                before[j + 1]
            }) by {}
            assert forall|k: Seq<char>| has_item(after, k) == (k != key@ && has_item(
                before,
                k,
            )) by {
                if has_item(before, k) && k != key@ {
                    let j = choose|j: int| 0 <= j < before.len() && (#[trigger] before[j])@ == k;
                    if j < at {
                        assert(after[j]@ == k);
                    } else {
                        assert(after[j - 1]@ == k);
                    }
                }
                if has_item(after, k) {
                    let j = choose|j: int| 0 <= j < after.len() && (#[trigger] after[j])@ == k;
                    if j < at {
                        assert(before[j]@ == k);
                        assert(before[j]@ != before[at as int]@);
                    } else {
                        assert(before[j + 1]@ == k);
                        assert(before[at as int]@ != before[j + 1]@);
                    }
                }
            }
            assert(set_of(after) =~= set_of(before).remove(key@));
            assert(distinct_items(after)) by {
                assert forall|i: int, j: int| 0 <= i < j < after.len() implies (
                #[trigger] after[i])@ != (#[trigger] after[j])@ by {
                    let bi = if i < at { i } else { i + 1 };
                    let bj = if j < at { j } else { j + 1 };
                    assert(before[bi]@ != before[bj]@);
                }
            }
        }
        core::mem::swap(&mut self.items, &mut items);
        true
    }
}

} // verus!
