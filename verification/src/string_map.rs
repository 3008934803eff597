//! A map from text to text: the metadata of a request and the headers of a message.

use vstd::prelude::*;

verus! {

/// A map from keys to values, both text. A key occurs at most once; keys stay in the
/// order in which they first came in.
pub struct StringMap {
    entries: Vec<(String, String)>,
}

/// What a list of pairs means as a map: a later pair overrides an earlier one.
pub open spec fn pairs_as_map(pairs: Seq<(String, String)>) -> Map<Seq<char>, Seq<char>>
    decreases pairs.len(),
{
    if pairs.len() == 0 {
        Map::empty()
    } else {
        pairs_as_map(pairs.drop_last()).insert(pairs.last().0@, pairs.last().1@)
    }
}

/// No key occurs twice in `pairs`.
pub open spec fn keys_distinct(pairs: Seq<(String, String)>) -> bool {
    forall|i: int, j: int|
        0 <= i < j < pairs.len() ==> (#[trigger] pairs[i]).0@ != (#[trigger] pairs[j]).0@
}

/// The keys of `pairs`, in order.
pub open spec fn keys_of(pairs: Seq<(String, String)>) -> Seq<Seq<char>> {
    pairs.map_values(|pair: (String, String)| pair.0@)
}

/// `keys` with `key` at the end, unless it is among them.
pub open spec fn with_key(keys: Seq<Seq<char>>, key: Seq<char>) -> Seq<Seq<char>> {
    if keys.contains(key) {
        keys
    } else {
        keys.push(key)
    }
}

/// The keys of `pairs`, each where it first comes.
pub open spec fn keys_as_they_came(pairs: Seq<(String, String)>) -> Seq<Seq<char>>
    decreases pairs.len(),
{
    if pairs.len() == 0 {
        seq![]
    } else {
        with_key(keys_as_they_came(pairs.drop_last()), pairs.last().0@)
    }
}

proof fn lemma_prefix_is_distinct(pairs: Seq<(String, String)>)
    requires
        keys_distinct(pairs),
        pairs.len() > 0,
    ensures
        keys_distinct(pairs.drop_last()),
{
    assert forall|a: int, b: int| 0 <= a < b < pairs.drop_last().len() implies (
    #[trigger] pairs.drop_last()[a]).0@ != (#[trigger] pairs.drop_last()[b]).0@ by {
        assert(pairs.drop_last()[a] == pairs[a]);
        assert(pairs.drop_last()[b] == pairs[b]);
    }
}

proof fn lemma_key_comes_from_a_pair(pairs: Seq<(String, String)>, key: Seq<char>)
    ensures
        pairs_as_map(pairs).dom().contains(key) <==> exists|i: int|
            0 <= i < pairs.len() && (#[trigger] pairs[i]).0@ == key,
    decreases pairs.len(),
{
    if pairs.len() > 0 {
        lemma_key_comes_from_a_pair(pairs.drop_last(), key);
        assert forall|i: int| 0 <= i < pairs.len() && (#[trigger] pairs[i]).0@ == key implies
            pairs_as_map(pairs).dom().contains(key) by {
            if i < pairs.len() - 1 {
                assert(pairs.drop_last()[i] == pairs[i]);
            }
        }
        if pairs_as_map(pairs).dom().contains(key) {
            if pairs.last().0@ != key {
                let i = choose|i: int|
                    0 <= i < pairs.drop_last().len() && (#[trigger] pairs.drop_last()[i]).0@ == key;
                assert(pairs[i].0@ == key);
            } else {
                assert(pairs[pairs.len() - 1].0@ == key);
            }
        }
    }
}

proof fn lemma_value_of_pair(pairs: Seq<(String, String)>, i: int)
    requires
        keys_distinct(pairs),
        0 <= i < pairs.len(),
    ensures
        pairs_as_map(pairs).dom().contains(pairs[i].0@),
        pairs_as_map(pairs)[pairs[i].0@] == pairs[i].1@,
    decreases pairs.len(),
{
    if i < pairs.len() - 1 {
        assert(pairs.drop_last()[i] == pairs[i]);
        lemma_prefix_is_distinct(pairs);
        lemma_value_of_pair(pairs.drop_last(), i);
        assert(pairs[i].0@ != pairs[pairs.len() - 1].0@);
    }
}

/// Overwriting the value of the only pair with some key is an insertion into the map.
proof fn lemma_update_is_insert(pairs: Seq<(String, String)>, i: int, value: String)
    requires
        keys_distinct(pairs),
        0 <= i < pairs.len(),
    ensures
        pairs_as_map(pairs.update(i, (pairs[i].0, value))) == pairs_as_map(pairs).insert(
            pairs[i].0@,
            value@,
        ),
    decreases pairs.len(),
{
    let new = pairs.update(i, (pairs[i].0, value));
    let last = pairs.len() - 1;
    if i < last {
        lemma_prefix_is_distinct(pairs);
        lemma_update_is_insert(pairs.drop_last(), i, value);
        assert(new.drop_last() =~= pairs.drop_last().update(i, (pairs[i].0, value)));
        assert(pairs.drop_last()[i] == pairs[i]);
        assert(pairs[i].0@ != pairs[last].0@);
        assert(new.last() == pairs.last());
        assert(pairs_as_map(new) =~= pairs_as_map(pairs).insert(pairs[i].0@, value@));
    } else {
        assert(new.drop_last() =~= pairs.drop_last());
        assert(pairs_as_map(new) =~= pairs_as_map(pairs).insert(pairs[i].0@, value@));
    }
}

impl View for StringMap {
    type V = Map<Seq<char>, Seq<char>>;

    closed spec fn view(&self) -> Map<Seq<char>, Seq<char>> {
        pairs_as_map(self.entries@)
    }
}

impl StringMap {
    #[verifier::type_invariant]
    spec fn inv(self) -> bool {
        keys_distinct(self.entries@)
    }

    /// The pairs of the map, in the order in which their keys first came in.
    pub closed spec fn pairs(&self) -> Seq<(String, String)> {
        self.entries@
    }

    /// The empty map.
    pub fn new() -> (map: StringMap)
        ensures
            map@ == Map::<Seq<char>, Seq<char>>::empty(),
            map.pairs() == Seq::<(String, String)>::empty(),
    {
        StringMap { entries: Vec::new() }
    }

    /// Builds the map of a list of pairs; of two pairs with one key the later one holds, in
    /// the place of the earlier one.
    pub fn from_pairs(pairs: Vec<(String, String)>) -> (map: StringMap)
        ensures
            map@ == pairs_as_map(pairs@),
            keys_of(map.pairs()) == keys_as_they_came(pairs@),
    {
        let mut map = StringMap::new();
        let mut i: usize = 0;
        while i < pairs.len()
            invariant
                i <= pairs.len(),
                map@ == pairs_as_map(pairs@.take(i as int)),
                keys_of(map.pairs()) == keys_as_they_came(pairs@.take(i as int)),
            decreases pairs.len() - i,
        {
            map.insert(pairs[i].0.clone(), pairs[i].1.clone());
            proof {
                assert(pairs@.take(i + 1).drop_last() =~= pairs@.take(i as int));
                assert(pairs@.take(i + 1).last() == pairs@[i as int]);
            }
            i += 1;
        }
        proof {
            assert(pairs@.take(pairs@.len() as int) =~= pairs@);
        }
        map
    }

    /// Where `key` stands.
    fn position(&self, key: &String) -> (at: Option<usize>)
        ensures
            at matches Some(i) ==> i < self.entries@.len() && self.entries@[i as int].0@ == key@,
            at is None ==> forall|i: int|
                0 <= i < self.entries@.len() ==> (#[trigger] self.entries@[i]).0@ != key@,
    {
        let mut i: usize = 0;
        while i < self.entries.len()
            invariant
                i <= self.entries@.len(),
                forall|k: int| 0 <= k < i ==> (#[trigger] self.entries@[k]).0@ != key@,
            decreases self.entries@.len() - i,
        {
            if self.entries[i].0 == *key {
                return Some(i);
            }
            i += 1;
        }
        None
    }

    /// Maps `key` to `value`, whatever `key` was mapped to before. A key that is there
    /// already keeps its place; a new one comes last.
    pub fn insert(&mut self, key: String, value: String)
        ensures
            final(self)@ == old(self)@.insert(key@, value@),
            keys_of(final(self).pairs()) == with_key(keys_of(old(self).pairs()), key@),
    {
        proof {
            use_type_invariant(&*self);
        }
        let at = self.position(&key);
        let mut entries: Vec<(String, String)> = Vec::new();
        std::mem::swap(&mut entries, &mut self.entries);
        let ghost before = entries@;
        match at {
            Some(i) => {
                let kept = entries[i].0.clone();
                entries.set(i, (kept, value));
                proof {
                    lemma_update_is_insert(before, i as int, value);
                    assert(keys_distinct(entries@));
                    assert(keys_of(before)[i as int] == key@);
                    assert(keys_of(entries@) =~= keys_of(before));
                }
            },
            None => {
                entries.push((key, value));
                proof {
                    assert(entries@.drop_last() =~= before);
                    assert(keys_distinct(entries@));
                    assert(keys_of(entries@) =~= keys_of(before).push(key@));
                    assert(!keys_of(before).contains(key@));
                }
            },
        }
        self.entries = entries;
    }

    /// The value of `key`.
    pub fn get(&self, key: &str) -> (value: Option<&String>)
        ensures
            value is Some <==> self@.dom().contains(key@),
            value matches Some(v) ==> v@ == self@[key@],
    {
        proof {
            use_type_invariant(self);
            lemma_key_comes_from_a_pair(self.entries@, key@);
        }
        let key = key.to_string();
        match self.position(&key) {
            Some(i) => {
                proof {
                    lemma_value_of_pair(self.entries@, i as int);
                }
                Some(&self.entries[i].1)
            },
            None => None,
        }
    }

    /// A map with the same pairs in the same order.
    pub fn duplicate(&self) -> (map: StringMap)
        ensures
            map@ == self@,
            map.pairs() == self.pairs(),
    {
        proof {
            use_type_invariant(self);
        }
        let mut entries: Vec<(String, String)> = Vec::new();
        let mut i: usize = 0;
        while i < self.entries.len()
            invariant
                i <= self.entries@.len(),
                entries@ == self.entries@.take(i as int),
            decreases self.entries@.len() - i,
        {
            entries.push((self.entries[i].0.clone(), self.entries[i].1.clone()));
            proof {
                assert(entries@ =~= self.entries@.take(i + 1));
            }
            i += 1;
        }
        proof {
            assert(entries@ =~= self.entries@);
        }
        StringMap { entries }
    }

    /// Hands the pairs out, each key once.
    pub fn into_pairs(self) -> (pairs: Vec<(String, String)>)
        ensures
            pairs@ == self.pairs(),
            pairs_as_map(pairs@) == self@,
            keys_distinct(pairs@),
            keys_of(pairs@).no_duplicates(),
    {
        proof {
            use_type_invariant(&self);
            assert forall|i: int, j: int|
                0 <= i < keys_of(self.entries@).len() && 0 <= j < keys_of(self.entries@).len() && i
                    != j implies keys_of(self.entries@)[i] != keys_of(self.entries@)[j] by {
                assert(self.entries@[i].0@ == keys_of(self.entries@)[i]);
                assert(self.entries@[j].0@ == keys_of(self.entries@)[j]);
            }
        }
        self.entries
    }
}

/// A list of pairs maps the keys that occur in it and no others, each to the value of its
/// last pair.
pub proof fn law_last_pair_holds(pairs: Seq<(String, String)>, key: Seq<char>, i: int)
    ensures
        pairs_as_map(pairs).dom().contains(key) <==> exists|k: int|
            0 <= k < pairs.len() && (#[trigger] pairs[k]).0@ == key,
        0 <= i < pairs.len() && pairs[i].0@ == key && (forall|k: int|
            i < k < pairs.len() ==> (#[trigger] pairs[k]).0@ != key) ==> pairs_as_map(pairs)[key]
            == pairs[i].1@,
    decreases pairs.len(),
{
    lemma_key_comes_from_a_pair(pairs, key);
    if pairs.len() > 0 && 0 <= i < pairs.len() - 1 {
        let earlier = pairs.drop_last();
        law_last_pair_holds(earlier, key, i);
        if pairs[i].0@ == key && (forall|k: int|
            i < k < pairs.len() ==> (#[trigger] pairs[k]).0@ != key) {
            assert(earlier[i] == pairs[i]);
            assert forall|k: int| i < k < earlier.len() implies (#[trigger] earlier[k]).0@
                != key by {
                assert(earlier[k] == pairs[k]);
            }
            assert(pairs[pairs.len() - 1].0@ != key);
        }
    }
}

/// The keys that come out of a list of pairs are those of the list, each once, and of two of
/// them the one that comes first in the list stands first.
pub proof fn law_keys_stand_as_they_first_came(pairs: Seq<(String, String)>, i: int, j: int)
    ensures
        keys_as_they_came(pairs).no_duplicates(),
        forall|key: Seq<char>| #[trigger]
            keys_as_they_came(pairs).contains(key) <==> exists|k: int|
                0 <= k < pairs.len() && (#[trigger] pairs[k]).0@ == key,
        0 <= i < j < keys_as_they_came(pairs).len() ==> exists|k: int|
            0 <= k < pairs.len() && (#[trigger] pairs[k]).0@ == keys_as_they_came(pairs)[i] && (
            forall|l: int|
                0 <= l <= k ==> (#[trigger] pairs[l]).0@ != keys_as_they_came(pairs)[j]),
    decreases pairs.len(),
{
    if pairs.len() > 0 {
        let earlier = pairs.drop_last();
        let last = pairs.len() - 1;
        let keys = keys_as_they_came(pairs);
        let before = keys_as_they_came(earlier);
        law_keys_stand_as_they_first_came(earlier, i, j);
        assert forall|key: Seq<char>| #[trigger] keys.contains(key) <==> exists|k: int|
            0 <= k < pairs.len() && (#[trigger] pairs[k]).0@ == key by {
            if keys.contains(key) {
                if before.contains(key) {
                    let k = choose|k: int|
                        0 <= k < earlier.len() && (#[trigger] earlier[k]).0@ == key;
                    assert(pairs[k].0@ == key);
                } else {
                    let k = choose|k: int| 0 <= k < keys.len() && keys[k] == key;
                    assert(k == before.len());
                    assert(pairs[last].0@ == key);
                }
            }
            if exists|k: int| 0 <= k < pairs.len() && (#[trigger] pairs[k]).0@ == key {
                let k = choose|k: int| 0 <= k < pairs.len() && (#[trigger] pairs[k]).0@ == key;
                if k < last {
                    assert(earlier[k].0@ == key);
                    assert(before.contains(key));
                    let m = choose|m: int| 0 <= m < before.len() && before[m] == key;
                    assert(keys[m] == key);
                } else if before.contains(key) {
                    let m = choose|m: int| 0 <= m < before.len() && before[m] == key;
                    assert(keys[m] == key);
                } else {
                    assert(keys[before.len() as int] == key);
                }
            }
        }
        if 0 <= i < j < keys.len() {
            if j < before.len() {
                let k = choose|k: int|
                    0 <= k < earlier.len() && (#[trigger] earlier[k]).0@ == before[i] && (
                    forall|l: int| 0 <= l <= k ==> (#[trigger] earlier[l]).0@ != before[j]);
                assert(pairs[k].0@ == keys[i]);
                assert forall|l: int| 0 <= l <= k implies (#[trigger] pairs[l]).0@ != keys[j] by {
                    assert(earlier[l] == pairs[l]);
                }
            } else {
                assert(before.contains(before[i]));
                let k = choose|k: int|
                    0 <= k < earlier.len() && (#[trigger] earlier[k]).0@ == before[i];
                assert(pairs[k].0@ == keys[i]);
                assert forall|l: int| 0 <= l <= k implies (#[trigger] pairs[l]).0@ != keys[j] by {
                    assert(earlier[l] == pairs[l]);
                    assert(!before.contains(keys[j]));
                }
            }
        }
    }
}

/// An insertion leaves the keys where they stand, and puts a key that is new behind them.
pub proof fn law_new_key_comes_last(pairs: Seq<(String, String)>, key: Seq<char>, i: int)
    ensures
        keys_of(pairs).len() == pairs.len(),
        0 <= i < pairs.len() ==> keys_of(pairs)[i] == pairs[i].0@,
        0 <= i < pairs.len() ==> with_key(keys_of(pairs), key)[i] == pairs[i].0@,
        (exists|k: int| 0 <= k < pairs.len() && (#[trigger] pairs[k]).0@ == key) ==> with_key(
            keys_of(pairs),
            key,
        ).len() == pairs.len(),
        (forall|k: int| 0 <= k < pairs.len() ==> (#[trigger] pairs[k]).0@ != key) ==> {
            &&& with_key(keys_of(pairs), key).len() == pairs.len() + 1
            &&& with_key(keys_of(pairs), key).last() == key
        },
{
    let keys = keys_of(pairs);
    if exists|k: int| 0 <= k < pairs.len() && (#[trigger] pairs[k]).0@ == key {
        let k = choose|k: int| 0 <= k < pairs.len() && (#[trigger] pairs[k]).0@ == key;
        assert(keys[k] == key);
    }
    if keys.contains(key) {
        let k = choose|k: int| 0 <= k < keys.len() && keys[k] == key;
        assert(pairs[k].0@ == key);
    }
}

} // verus!
