//! The in-memory entry store: a map from keys to values, constructed by its
//! owner and handed to the handlers that read and write it.

use crate::text::str_equal;
use vstd::prelude::*;

verus! {

/// The key of the pair at position `i`.
pub open spec fn key_at(pairs: Seq<(String, String)>, i: int) -> Seq<char> {
    pairs[i].0@
}

/// Whether some pair has the key `key`.
pub open spec fn has_key(pairs: Seq<(String, String)>, key: Seq<char>) -> bool {
    exists|i: int| 0 <= i < pairs.len() && #[trigger] key_at(pairs, i) == key
}

/// Whether no key occurs twice.
pub open spec fn distinct_keys(pairs: Seq<(String, String)>) -> bool {
    forall|i: int, j: int|
        0 <= i < j < pairs.len() ==> #[trigger] key_at(pairs, i) != #[trigger] key_at(pairs, j)
}

/// The map that a sequence of pairs stands for: each key that occurs is mapped
/// to the value of a pair that has it.
pub open spec fn as_map(pairs: Seq<(String, String)>) -> Map<Seq<char>, Seq<char>> {
    Map::new(
        |key: Seq<char>| has_key(pairs, key),
        |key: Seq<char>|
            pairs[choose|i: int| 0 <= i < pairs.len() && #[trigger] key_at(pairs, i) == key].1@,
    )
}

/// A store of entries, each a value under a key. No key occurs twice.
#[derive(Debug)]
pub struct EntryStore {
    pairs: Vec<(String, String)>,
}

impl View for EntryStore {
    type V = Map<Seq<char>, Seq<char>>;

    closed spec fn view(&self) -> Map<Seq<char>, Seq<char>> {
        as_map(self.pairs@)
    }
}

/// With distinct keys, the pair at a position is what the map holds for its key.
proof fn lemma_map_at(pairs: Seq<(String, String)>, i: int)
    requires
        distinct_keys(pairs),
        0 <= i < pairs.len(),
    ensures
        as_map(pairs).dom().contains(key_at(pairs, i)),
        as_map(pairs)[key_at(pairs, i)] == pairs[i].1@,
{
    let key = key_at(pairs, i);
    let j = choose|j: int| 0 <= j < pairs.len() && #[trigger] key_at(pairs, j) == key;
    assert(key_at(pairs, j) == key);
    if i < j {
        assert(key_at(pairs, i) != key_at(pairs, j));
    } else if j < i {
        assert(key_at(pairs, j) != key_at(pairs, i));
    }
}

impl EntryStore {
    #[verifier::type_invariant]
    spec fn well_formed(self) -> bool {
        distinct_keys(self.pairs@)
    }

    /// An empty store.
    pub fn new() -> (store: EntryStore)
        ensures
            store@ == Map::<Seq<char>, Seq<char>>::empty(),
    {
        let store = EntryStore { pairs: Vec::new() };
        assert(store@ =~= Map::<Seq<char>, Seq<char>>::empty());
        store
    }

    /// The position of the pair with the key `key`, if there is one.
    fn find(&self, key: &str) -> (r: Option<usize>)
        ensures
            match r {
                Some(i) => i < self.pairs@.len() && key_at(self.pairs@, i as int) == key@,
                None => !has_key(self.pairs@, key@),
            },
    {
        let mut i: usize = 0;
        while i < self.pairs.len()
            invariant
                i <= self.pairs@.len(),
                forall|j: int| 0 <= j < i ==> #[trigger] key_at(self.pairs@, j) != key@,
            decreases self.pairs@.len() - i,
        {
            if str_equal(self.pairs[i].0.as_str(), key) {
                return Some(i);
            }
            i = i + 1;
        }
        None
    }

    /// Moves the pairs out and leaves the store empty.
    fn take_pairs(&mut self) -> (pairs: Vec<(String, String)>)
        ensures
            pairs@ == old(self).pairs@,
            distinct_keys(pairs@),
    {
        proof {
            use_type_invariant(&*self);
        }
        let mut taken = EntryStore { pairs: Vec::new() };
        core::mem::swap(self, &mut taken);
        taken.pairs
    }

    /// The number of entries.
    pub fn len(&self) -> (n: usize)
        ensures
            n == self@.len(),
            self@.dom().finite(),
    {
        proof {
            use_type_invariant(self);
            lemma_map_len(self.pairs@);
        }
        self.pairs.len()
    }

    /// The value under `key`, if there is one.
    pub fn get(&self, key: &str) -> (r: Option<String>)
        ensures
            match r {
                Some(value) => self@.dom().contains(key@) && self@[key@] == value@,
                None => !self@.dom().contains(key@),
            },
    {
        proof {
            use_type_invariant(self);
        }
        match self.find(key) {
            Some(i) => {
                proof {
                    lemma_map_at(self.pairs@, i as int);
                }
                Some(self.pairs[i].1.clone())
            },
            None => None,
        }
    }
}

/// With distinct keys, the map has as many entries as there are pairs.
proof fn lemma_map_len(pairs: Seq<(String, String)>)
    requires
        distinct_keys(pairs),
    ensures
        as_map(pairs).dom().finite(),
        as_map(pairs).len() == pairs.len(),
    decreases pairs.len(),
{
    if pairs.len() == 0 {
        assert(as_map(pairs).dom() =~= Set::<Seq<char>>::empty());
    } else {
        let front = pairs.drop_last();
        let last = pairs.len() - 1;
        assert forall|i: int, j: int| 0 <= i < j < front.len() implies #[trigger] key_at(front, i)
            != #[trigger] key_at(front, j) by {
            assert(key_at(pairs, i) != key_at(pairs, j));
        }
        lemma_map_len(front);
        let key = key_at(pairs, last);
        assert(!as_map(front).dom().contains(key)) by {
            if has_key(front, key) {
                let i = choose|i: int| 0 <= i < front.len() && #[trigger] key_at(front, i) == key;
                assert(key_at(pairs, i) != key_at(pairs, last));
            }
        }
        assert(as_map(pairs).dom() =~= as_map(front).dom().insert(key)) by {
            assert forall|k: Seq<char>| as_map(pairs).dom().contains(k) implies as_map(
                front,
            ).dom().insert(key).contains(k) by {
                let i = choose|i: int| 0 <= i < pairs.len() && #[trigger] key_at(pairs, i) == k;
                if i < last {
                    assert(key_at(front, i) == k);
                }
            }
            assert forall|k: Seq<char>| as_map(front).dom().insert(key).contains(
                k,
            ) implies as_map(pairs).dom().contains(k) by {
                if k == key {
                    assert(key_at(pairs, last) == k);
                } else {
                    let i = choose|i: int|
                        0 <= i < front.len() && #[trigger] key_at(front, i) == k;
                    assert(key_at(pairs, i) == k);
                }
            }
        }
    }
}

/// A map is the one that the pairs stand for where it has their keys and, for
/// each pair, holds its value under its key.
proof fn lemma_map_is(pairs: Seq<(String, String)>, m: Map<Seq<char>, Seq<char>>)
    requires
        distinct_keys(pairs),
        forall|k: Seq<char>| m.dom().contains(k) <==> has_key(pairs, k),
        forall|i: int| 0 <= i < pairs.len() ==> m[#[trigger] key_at(pairs, i)] == pairs[i].1@,
    ensures
        as_map(pairs) == m,
{
    assert forall|k: Seq<char>| as_map(pairs).dom().contains(k) implies #[trigger] as_map(
        pairs,
    )[k] == m[k] by {
        let i = choose|i: int| 0 <= i < pairs.len() && #[trigger] key_at(pairs, i) == k;
        lemma_map_at(pairs, i);
    }
    assert(as_map(pairs) =~= m);
}

/// Replacing the value of the pair at `i` updates the map at its key.
proof fn lemma_replace(pairs: Seq<(String, String)>, i: int, pair: (String, String))
    requires
        distinct_keys(pairs),
        0 <= i < pairs.len(),
        pair.0@ == key_at(pairs, i),
    ensures
        distinct_keys(pairs.update(i, pair)),
        as_map(pairs.update(i, pair)) == as_map(pairs).insert(pair.0@, pair.1@),
{
    let after = pairs.update(i, pair);
    assert forall|a: int, b: int| 0 <= a < b < after.len() implies #[trigger] key_at(after, a)
        != #[trigger] key_at(after, b) by {
        assert(key_at(pairs, a) != key_at(pairs, b));
    }
    let m = as_map(pairs).insert(pair.0@, pair.1@);
    assert forall|k: Seq<char>| m.dom().contains(k) <==> has_key(after, k) by {
        if has_key(after, k) {
            let j = choose|j: int| 0 <= j < after.len() && #[trigger] key_at(after, j) == k;
            assert(key_at(pairs, j) == k);
        }
        if m.dom().contains(k) {
            if k == pair.0@ {
                assert(key_at(after, i) == k);
            } else {
                let j = choose|j: int| 0 <= j < pairs.len() && #[trigger] key_at(pairs, j) == k;
                assert(key_at(after, j) == k);
            }
        }
    }
    assert forall|j: int| 0 <= j < after.len() implies m[#[trigger] key_at(after, j)]
        == after[j].1@ by {
        if j != i {
            lemma_map_at(pairs, j);
            if j < i {
                assert(key_at(pairs, j) != key_at(pairs, i));
            } else {
                assert(key_at(pairs, i) != key_at(pairs, j));
            }
        }
    }
    lemma_map_is(after, m);
}

/// Appending a pair with a new key inserts it into the map.
proof fn lemma_append(pairs: Seq<(String, String)>, pair: (String, String))
    requires
        distinct_keys(pairs),
        !has_key(pairs, pair.0@),
    ensures
        distinct_keys(pairs.push(pair)),
        as_map(pairs.push(pair)) == as_map(pairs).insert(pair.0@, pair.1@),
{
    let after = pairs.push(pair);
    let last = pairs.len() as int;
    assert forall|a: int, b: int| 0 <= a < b < after.len() implies #[trigger] key_at(after, a)
        != #[trigger] key_at(after, b) by {
        if b < last {
            assert(key_at(pairs, a) != key_at(pairs, b));
        } else {
            assert(key_at(pairs, a) == key_at(after, a));
        }
    }
    let m = as_map(pairs).insert(pair.0@, pair.1@);
    assert forall|k: Seq<char>| m.dom().contains(k) <==> has_key(after, k) by {
        if has_key(after, k) {
            let j = choose|j: int| 0 <= j < after.len() && #[trigger] key_at(after, j) == k;
            if j < last {
                assert(key_at(pairs, j) == k);
            }
        }
        if m.dom().contains(k) {
            if k == pair.0@ {
                assert(key_at(after, last) == k);
            } else {
                let j = choose|j: int| 0 <= j < pairs.len() && #[trigger] key_at(pairs, j) == k;
                assert(key_at(after, j) == k);
            }
        }
    }
    assert forall|j: int| 0 <= j < after.len() implies m[#[trigger] key_at(after, j)]
        == after[j].1@ by {
        if j < last {
            lemma_map_at(pairs, j);
            assert(key_at(pairs, j) == key_at(after, j));
        }
    }
    lemma_map_is(after, m);
}

/// Taking out the pair at `i` removes its key from the map.
proof fn lemma_take_out(pairs: Seq<(String, String)>, i: int)
    requires
        distinct_keys(pairs),
        0 <= i < pairs.len(),
    ensures
        distinct_keys(pairs.remove(i)),
        as_map(pairs.remove(i)) == as_map(pairs).remove(key_at(pairs, i)),
{
    let after = pairs.remove(i);
    let gone = key_at(pairs, i);
    assert forall|a: int| 0 <= a < after.len() implies #[trigger] key_at(after, a) == key_at(
        pairs,
        if a < i {
            a
        } else {
            a + 1
        },
    ) by {}
    assert forall|a: int, b: int| 0 <= a < b < after.len() implies #[trigger] key_at(after, a)
        != #[trigger] key_at(after, b) by {
        let a0 = if a < i {
            a
        } else {
            a + 1
        };
        let b0 = if b < i {
            b
        } else {
            b + 1
        };
        assert(key_at(pairs, a0) != key_at(pairs, b0));
    }
    let m = as_map(pairs).remove(gone);
    assert forall|k: Seq<char>| m.dom().contains(k) <==> has_key(after, k) by {
        if has_key(after, k) {
            let j = choose|j: int| 0 <= j < after.len() && #[trigger] key_at(after, j) == k;
            let j0 = if j < i {
                j
            } else {
                j + 1
            };
            assert(key_at(pairs, j0) == k);
            if j0 < i {
                assert(key_at(pairs, j0) != key_at(pairs, i));
            } else {
                assert(key_at(pairs, i) != key_at(pairs, j0));
            }
        }
        if m.dom().contains(k) {
            let j = choose|j: int| 0 <= j < pairs.len() && #[trigger] key_at(pairs, j) == k;
            let j1 = if j < i {
                j
            } else {
                j - 1
            };
            assert(key_at(after, j1) == k);
        }
    }
    assert forall|j: int| 0 <= j < after.len() implies m[#[trigger] key_at(after, j)]
        == after[j].1@ by {
        let j0 = if j < i {
            j
        } else {
            j + 1
        };
        lemma_map_at(pairs, j0);
        if j0 < i {
            assert(key_at(pairs, j0) != key_at(pairs, i));
        } else {
            assert(key_at(pairs, i) != key_at(pairs, j0));
        }
    }
    lemma_map_is(after, m);
}

/// All entries of the store: one pair for each key, in no particular order.
pub fn read_entries(store: &EntryStore) -> (pairs: Vec<(String, String)>)
    ensures
        distinct_keys(pairs@),
        as_map(pairs@) == store@,
        pairs@.len() == store@.len(),
{
    proof {
        use_type_invariant(store);
        lemma_map_len(store.pairs@);
    }
    let mut out: Vec<(String, String)> = Vec::new();
    let mut i: usize = 0;
    while i < store.pairs.len()
        invariant
            i <= store.pairs@.len(),
            out@.len() == i,
            forall|j: int| 0 <= j < i ==> out@[j] == store.pairs@[j],
        decreases store.pairs@.len() - i,
    {
        out.push((store.pairs[i].0.clone(), store.pairs[i].1.clone()));
        i = i + 1;
    }
    assert(out@ =~= store.pairs@);
    out
}

/// Puts `value` under `key`, in place of what was there.
pub fn update_entry(store: &mut EntryStore, key: &String, value: &String)
    ensures
        final(store)@ == old(store)@.insert(key@, value@),
{
    proof {
        use_type_invariant(&*store);
    }
    let pair = (key.clone(), value.clone());
    let found = store.find(key.as_str());
    let mut pairs = store.take_pairs();
    match found {
        Some(i) => {
            proof {
                lemma_replace(pairs@, i as int, pair);
            }
            pairs.set(i, pair);
        },
        None => {
            proof {
                lemma_append(pairs@, pair);
            }
            pairs.push(pair);
        },
    }
    *store = EntryStore { pairs };
}

/// Removes the entry under `key`; a store without that key stays as it is.
pub fn delete_entry(store: &mut EntryStore, key: &String)
    ensures
        final(store)@ == old(store)@.remove(key@),
{
    proof {
        use_type_invariant(&*store);
    }
    let found = store.find(key.as_str());
    let mut pairs = store.take_pairs();
    match found {
        Some(i) => {
            proof {
                lemma_take_out(pairs@, i as int);
            }
            pairs.remove(i);
        },
        None => {
            assert(as_map(pairs@).remove(key@) =~= as_map(pairs@));
        },
    }
    *store = EntryStore { pairs };
}

} // verus!
