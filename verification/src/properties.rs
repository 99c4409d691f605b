//! A small map from strings to strings, kept as a list of pairs.
//!
//! A `HashMap` keyed by `String` gives Verus nothing to prove its contents
//! from: after an insert neither the key's presence nor the length follows.
//! So the string maps of devices, assets and responses are kept in this type,
//! whose view is a `Map` and whose every operation is proved against it.
use vstd::prelude::*;

verus! {

/// The map that a sequence of key/value pairs denotes: each pair is inserted in
/// turn, so that of two pairs with one key the later one stays.
pub open spec fn pairs_to_map(pairs: Seq<(String, String)>) -> Map<Seq<char>, Seq<char>>
    decreases pairs.len(),
{
    if pairs.len() == 0 {
        Map::empty()
    } else {
        pairs_to_map(pairs.drop_last()).insert(pairs.last().0@, pairs.last().1@)
    }
}

/// Whether no key occurs twice among `pairs`.
pub open spec fn distinct_keys(pairs: Seq<(String, String)>) -> bool {
    forall|i: int, j: int| 0 <= i < j < pairs.len() ==> pairs[i].0@ != pairs[j].0@
}

/// A key that no pair holds is not in the map.
pub proof fn lemma_absent_key(pairs: Seq<(String, String)>, key: Seq<char>)
    requires
        forall|i: int| 0 <= i < pairs.len() ==> pairs[i].0@ != key,
    ensures
        !pairs_to_map(pairs).dom().contains(key),
    decreases pairs.len(),
{
    if pairs.len() > 0 {
        lemma_absent_key(pairs.drop_last(), key);
    }
}

/// With distinct keys, each pair's key is mapped to that pair's value.
pub proof fn lemma_present_key(pairs: Seq<(String, String)>, i: int)
    requires
        distinct_keys(pairs),
        0 <= i < pairs.len(),
    ensures
        pairs_to_map(pairs).dom().contains(pairs[i].0@),
        pairs_to_map(pairs)[pairs[i].0@] == pairs[i].1@,
    decreases pairs.len(),
{
    if i < pairs.len() - 1 {
        lemma_present_key(pairs.drop_last(), i);
    }
}

/// Replacing the value of one pair replaces the value under its key.
pub proof fn lemma_update_value(pairs: Seq<(String, String)>, i: int, entry: (String, String))
    requires
        distinct_keys(pairs),
        0 <= i < pairs.len(),
        entry.0@ == pairs[i].0@,
    ensures
        distinct_keys(pairs.update(i, entry)),
        pairs_to_map(pairs.update(i, entry)) == pairs_to_map(pairs).insert(entry.0@, entry.1@),
    decreases pairs.len(),
{
    let updated = pairs.update(i, entry);
    if i == pairs.len() - 1 {
        assert(updated.drop_last() =~= pairs.drop_last());
        assert(pairs_to_map(updated) =~= pairs_to_map(pairs).insert(entry.0@, entry.1@));
    } else {
        lemma_update_value(pairs.drop_last(), i, entry);
        assert(updated.drop_last() =~= pairs.drop_last().update(i, entry));
        assert(updated.last() == pairs.last());
        assert(pairs.last().0@ != entry.0@);
        assert(pairs_to_map(updated) =~= pairs_to_map(pairs).insert(entry.0@, entry.1@));
    }
}

/// With distinct keys the map has as many keys as there are pairs.
pub proof fn lemma_one_key_for_each_pair(pairs: Seq<(String, String)>)
    requires
        distinct_keys(pairs),
    ensures
        pairs_to_map(pairs).dom().finite(),
        pairs_to_map(pairs).dom().len() == pairs.len(),
    decreases pairs.len(),
{
    if pairs.len() > 0 {
        lemma_one_key_for_each_pair(pairs.drop_last());
        lemma_absent_key(pairs.drop_last(), pairs.last().0@);
    }
}

/// A finite map from strings to strings. No key occurs twice among its entries.
#[derive(Debug)]
pub struct PropertyMap {
    entries: Vec<(String, String)>,
}

impl View for PropertyMap {
    type V = Map<Seq<char>, Seq<char>>;

    closed spec fn view(&self) -> Map<Seq<char>, Seq<char>> {
        pairs_to_map(self.entries@)
    }
}

impl Clone for PropertyMap {
    fn clone(&self) -> (r: Self)
        ensures
            r@ == self@,
    {
        proof {
            use_type_invariant(self);
        }
        let n: usize = self.entries.len();
        let mut entries: Vec<(String, String)> = Vec::new();
        let mut i: usize = 0;
        while i < n
            invariant
                n == self.entries@.len(),
                i <= n,
                entries@ == self.entries@.take(i as int),
            decreases n - i,
        {
            entries.push((self.entries[i].0.clone(), self.entries[i].1.clone()));
            assert(entries@ =~= self.entries@.take(i + 1));
            i = i + 1;
        }
        assert(self.entries@.take(n as int) =~= self.entries@);
        PropertyMap { entries }
    }
}

impl Default for PropertyMap {
    fn default() -> (r: Self)
        ensures
            r@ == Map::<Seq<char>, Seq<char>>::empty(),
    {
        PropertyMap::new()
    }
}

impl PropertyMap {
    #[verifier::type_invariant]
    spec fn keys_are_distinct(&self) -> bool {
        distinct_keys(self.entries@)
    }

    /// A map without entries.
    pub fn new() -> (r: Self)
        ensures
            r@ == Map::<Seq<char>, Seq<char>>::empty(),
    {
        PropertyMap { entries: Vec::new() }
    }

    /// The number of entries.
    pub fn len(&self) -> (r: usize)
        ensures
            self@.dom().finite(),
            r == self@.dom().len(),
    {
        proof {
            use_type_invariant(self);
            lemma_one_key_for_each_pair(self.entries@);
        }
        self.entries.len()
    }

    /// Whether the map has no entries.
    pub fn is_empty(&self) -> (r: bool)
        ensures
            r == (self@ == Map::<Seq<char>, Seq<char>>::empty()),
    {
        proof {
            use_type_invariant(self);
            lemma_one_key_for_each_pair(self.entries@);
            if self.entries@.len() == 0 {
                assert(self@ =~= Map::<Seq<char>, Seq<char>>::empty());
            }
        }
        self.entries.len() == 0
    }

    /// Gives the entries out as pairs of key and value, each key once.
    pub fn into_pairs(self) -> (r: Vec<(String, String)>)
        ensures
            distinct_keys(r@),
            pairs_to_map(r@) == self@,
    {
        proof {
            use_type_invariant(&self);
        }
        self.entries
    }

    /// The position of `key` among the entries, if it is there.
    fn position(&self, key: &str) -> (r: Option<usize>)
        ensures
            match r {
                Some(i) => i < self.entries@.len() && self.entries@[i as int].0@ == key@,
                None => forall|j: int| 0 <= j < self.entries@.len() ==> self.entries@[j].0@ != key@,
            },
    {
        let wanted = key.to_owned();
        let n: usize = self.entries.len();
        let mut i: usize = 0;
        while i < n
            invariant
                n == self.entries@.len(),
                i <= n,
                wanted@ == key@,
                forall|j: int| 0 <= j < i ==> self.entries@[j].0@ != key@,
            decreases n - i,
        {
            if self.entries[i].0 == wanted {
                return Some(i);
            }
            i = i + 1;
        }
        None
    }

    /// The value stored under `key`.
    pub fn get(&self, key: &str) -> (r: Option<&String>)
        ensures
            match r {
                Some(value) => self@.dom().contains(key@) && value@ == self@[key@],
                None => !self@.dom().contains(key@),
            },
    {
        proof {
            use_type_invariant(self);
        }
        match self.position(key) {
            Some(i) => {
                proof {
                    lemma_present_key(self.entries@, i as int);
                }
                Some(&self.entries[i].1)
            },
            None => {
                proof {
                    lemma_absent_key(self.entries@, key@);
                }
                None
            },
        }
    }

    /// Stores `value` under `key`, in place of any value that was there.
    pub fn insert(&mut self, key: String, value: String)
        ensures
            final(self)@ == old(self)@.insert(key@, value@),
    {
        proof {
            use_type_invariant(&*self);
        }
        let found = self.position(key.as_str());
        let mut taken = PropertyMap { entries: Vec::new() };
        core::mem::swap(self, &mut taken);
        let mut entries = taken.entries;
        let ghost before = entries@;
        match found {
            Some(i) => {
                proof {
                    lemma_update_value(before, i as int, (key, value));
                }
                entries.set(i, (key, value));
            },
            None => {
                entries.push((key, value));
                assert(entries@.drop_last() =~= before);
            },
        }
        *self = PropertyMap { entries };
    }
}

} // verus!
