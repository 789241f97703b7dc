//! The key-value bag of a session.

use vstd::prelude::*;

verus! {

/// The key of the pair at position `i`.
pub open spec fn key_at(pairs: Seq<(String, String)>, i: int) -> Seq<char> {
    pairs[i].0@
}

/// Whether some pair carries `key`.
pub open spec fn has_key(pairs: Seq<(String, String)>, key: Seq<char>) -> bool {
    exists|i: int| 0 <= i < pairs.len() && #[trigger] key_at(pairs, i) == key
}

/// A position at which `key` stands, if any pair carries it.
pub open spec fn position_of(pairs: Seq<(String, String)>, key: Seq<char>) -> int {
    choose|i: int| 0 <= i < pairs.len() && #[trigger] key_at(pairs, i) == key
}

/// No key stands at two positions.
pub open spec fn distinct_keys(pairs: Seq<(String, String)>) -> bool {
    forall|i: int, j: int|
        0 <= i < j < pairs.len() ==> #[trigger] key_at(pairs, i) != #[trigger] key_at(pairs, j)
}

/// The mapping that a sequence of pairs with distinct keys stands for.
pub open spec fn map_of(pairs: Seq<(String, String)>) -> Map<Seq<char>, Seq<char>> {
    Map::new(
        |key: Seq<char>| has_key(pairs, key),
        |key: Seq<char>| pairs[position_of(pairs, key)].1@,
    )
}

proof fn lemma_map_of_at(pairs: Seq<(String, String)>, i: int)
    requires
        distinct_keys(pairs),
        0 <= i < pairs.len(),
    ensures
        map_of(pairs).contains_key(key_at(pairs, i)),
        map_of(pairs)[key_at(pairs, i)] == pairs[i].1@,
{
    assert(position_of(pairs, key_at(pairs, i)) == i);
}

proof fn lemma_map_of_push(pairs: Seq<(String, String)>, pair: (String, String))
    requires
        distinct_keys(pairs),
        !has_key(pairs, pair.0@),
    ensures
        distinct_keys(pairs.push(pair)),
        map_of(pairs.push(pair)) == map_of(pairs).insert(pair.0@, pair.1@),
{
    let after = pairs.push(pair);
    let last = pairs.len() as int;
    assert forall|i: int| 0 <= i < last implies #[trigger] key_at(after, i) == key_at(pairs, i) by {}
    assert(key_at(after, last) == pair.0@);
    assert forall|i: int, j: int| 0 <= i < j < after.len() implies #[trigger] key_at(after, i)
        != #[trigger] key_at(after, j) by {
        if j < last {
            assert(key_at(pairs, i) != key_at(pairs, j));
        }
    }
    assert forall|key: Seq<char>| has_key(after, key) <==> (key == pair.0@ || has_key(
        pairs,
        key,
    )) by {
        if has_key(after, key) {
            let i = position_of(after, key);
            if i < last {
                assert(key_at(pairs, i) == key);
            }
        }
        if has_key(pairs, key) {
            assert(key_at(after, position_of(pairs, key)) == key);
        }
    }
    assert forall|key: Seq<char>| has_key(after, key) implies map_of(after)[key] == map_of(
        pairs,
    ).insert(pair.0@, pair.1@)[key] by {
        let i = position_of(after, key);
        lemma_map_of_at(after, i);
        if i < last {
            lemma_map_of_at(pairs, i);
        }
    }
    assert(map_of(after) =~= map_of(pairs).insert(pair.0@, pair.1@));
}

proof fn lemma_map_of_update(pairs: Seq<(String, String)>, i: int, pair: (String, String))
    requires
        distinct_keys(pairs),
        0 <= i < pairs.len(),
        key_at(pairs, i) == pair.0@,
    ensures
        distinct_keys(pairs.update(i, pair)),
        map_of(pairs.update(i, pair)) == map_of(pairs).insert(pair.0@, pair.1@),
{
    let after = pairs.update(i, pair);
    assert forall|j: int| 0 <= j < pairs.len() implies #[trigger] key_at(after, j) == key_at(
        pairs,
        j,
    ) by {}
    assert forall|a: int, b: int| 0 <= a < b < after.len() implies #[trigger] key_at(after, a)
        != #[trigger] key_at(after, b) by {
        assert(key_at(pairs, a) != key_at(pairs, b));
    }
    assert forall|key: Seq<char>| has_key(after, key) <==> has_key(pairs, key) by {
        if has_key(after, key) {
            assert(key_at(pairs, position_of(after, key)) == key);
        }
        if has_key(pairs, key) {
            assert(key_at(after, position_of(pairs, key)) == key);
        }
    }
    assert forall|key: Seq<char>| has_key(after, key) implies map_of(after)[key] == map_of(
        pairs,
    ).insert(pair.0@, pair.1@)[key] by {
        let j = position_of(after, key);
        lemma_map_of_at(after, j);
        if j != i {
            lemma_map_of_at(pairs, j);
        }
    }
    assert(map_of(after) =~= map_of(pairs).insert(pair.0@, pair.1@));
}

/// Where the pair at `j` stood before the pair at `i` was taken out.
spec fn before_removal(i: int, j: int) -> int {
    if j < i {
        j
    } else {
        j + 1
    }
}

proof fn lemma_map_of_remove(pairs: Seq<(String, String)>, i: int)
    requires
        distinct_keys(pairs),
        0 <= i < pairs.len(),
    ensures
        distinct_keys(pairs.remove(i)),
        map_of(pairs.remove(i)) == map_of(pairs).remove(key_at(pairs, i)),
{
    let after = pairs.remove(i);
    let gone = key_at(pairs, i);
    assert forall|j: int| 0 <= j < after.len() implies #[trigger] key_at(after, j) == key_at(
        pairs,
        before_removal(i, j),
    ) by {}
    assert forall|a: int, b: int| 0 <= a < b < after.len() implies #[trigger] key_at(after, a)
        != #[trigger] key_at(after, b) by {
        assert(key_at(pairs, before_removal(i, a)) != key_at(pairs, before_removal(i, b)));
    }
    assert forall|key: Seq<char>| has_key(after, key) <==> (key != gone && has_key(
        pairs,
        key,
    )) by {
        if has_key(after, key) {
            let j = before_removal(i, position_of(after, key));
            assert(key_at(pairs, j) == key);
            assert(j != i);
        }
        if key != gone && has_key(pairs, key) {
            let j = position_of(pairs, key);
            if j < i {
                assert(key_at(after, j) == key);
            } else {
                assert(key_at(after, j - 1) == key);
            }
        }
    }
    assert forall|key: Seq<char>| has_key(after, key) implies map_of(after)[key] == map_of(
        pairs,
    ).remove(gone)[key] by {
        let j = position_of(after, key);
        lemma_map_of_at(after, j);
        lemma_map_of_at(pairs, before_removal(i, j));
    }
    assert(map_of(after) =~= map_of(pairs).remove(gone));
}

/// The entries of a session: a finite mapping from string keys to string
/// values. Each key occurs once.
#[derive(Debug)]
pub struct Entries {
    items: Vec<(String, String)>,
}

impl View for Entries {
    type V = Map<Seq<char>, Seq<char>>;

    closed spec fn view(&self) -> Map<Seq<char>, Seq<char>> {
        map_of(self.items@)
    }
}

impl Entries {
    #[verifier::type_invariant]
    spec fn well_formed(&self) -> bool {
        distinct_keys(self.items@)
    }

    /// The empty mapping.
    pub fn new() -> (entries: Self)
        ensures
            entries@ == Map::<Seq<char>, Seq<char>>::empty(),
    {
        let entries = Entries { items: Vec::new() };
        assert(entries@ =~= Map::<Seq<char>, Seq<char>>::empty());
        entries
    }

    /// Moves the pairs out and leaves none behind.
    fn take_items(&mut self) -> (items: Vec<(String, String)>)
        ensures
            items@ == old(self).items@,
            final(self).items@.len() == 0,
    {
        let mut items: Vec<(String, String)> = Vec::new();
        core::mem::swap(&mut self.items, &mut items);
        items
    }

    fn find(&self, key: &String) -> (found: Option<usize>)
        ensures
            match found {
                Some(i) => i < self.items@.len() && key_at(self.items@, i as int) == key@,
                None => !has_key(self.items@, key@),
            },
    {
        let mut i: usize = 0;
        while i < self.items.len()
            invariant
                i <= self.items@.len(),
                forall|j: int| 0 <= j < i ==> #[trigger] key_at(self.items@, j) != key@,
            decreases self.items@.len() - i,
        {
            if self.items[i].0 == *key {
                return Some(i);
            }
            i += 1;
        }
        None
    }

    /// The value stored under `key`, if there is one.
    pub fn get(&self, key: &str) -> (value: Option<&String>)
        ensures
            match value {
                Some(v) => self@.contains_key(key@) && v@ == self@[key@],
                None => !self@.contains_key(key@),
            },
    {
        let owned = key.to_owned();
        proof {
            use_type_invariant(self);
        }
        match self.find(&owned) {
            Some(i) => {
                proof {
                    lemma_map_of_at(self.items@, i as int);
                }
                Some(&self.items[i].1)
            },
            None => None,
        }
    }

    /// Stores `value` under `key`, in place of any value that was there.
    pub fn insert(&mut self, key: String, value: String)
        ensures
            final(self)@ == old(self)@.insert(key@, value@),
    {
        proof {
            use_type_invariant(&*self);
        }
        match self.find(&key) {
            Some(i) => {
                proof {
                    lemma_map_of_update(self.items@, i as int, (key, value));
                }
                let mut items = self.take_items();
                items.set(i, (key, value));
                self.items = items;
            },
            None => {
                proof {
                    lemma_map_of_push(self.items@, (key, value));
                }
                let mut items = self.take_items();
                items.push((key, value));
                self.items = items;
            },
        }
    }

    /// Drops `key` and its value. Nothing changes when `key` is absent.
    pub fn remove(&mut self, key: &str)
        ensures
            final(self)@ == old(self)@.remove(key@),
    {
        let owned = key.to_owned();
        proof {
            use_type_invariant(&*self);
        }
        match self.find(&owned) {
            Some(i) => {
                proof {
                    lemma_map_of_remove(self.items@, i as int);
                }
                let mut items = self.take_items();
                items.remove(i);
                self.items = items;
            },
            None => {
                assert(self@ =~= self@.remove(key@));
            },
        }
    }

    /// The entries as pairs of key and value, each key once, in no
    /// particular order.
    pub fn into_pairs(self) -> (pairs: Vec<(String, String)>)
        ensures
            distinct_keys(pairs@),
            map_of(pairs@) == self@,
    {
        proof {
            use_type_invariant(&self);
        }
        self.items
    }
}

} // verus!
