//! Lists of key and value pairs used as small maps: a key is looked up from
//! the front, and putting a value under a key replaces the value it had.

use vstd::prelude::*;
use crate::text::same_text;

verus! {

/// A list of pairs as contracts see it.
pub type Pairs = Seq<(Seq<char>, Seq<char>)>;

/// The first of the first `n` pairs that carries `key`.
pub open spec fn index_of_key(list: Pairs, key: Seq<char>, n: int) -> Option<int>
    decreases n,
{
    if n <= 0 {
        None
    } else if index_of_key(list, key, n - 1) is Some {
        index_of_key(list, key, n - 1)
    } else if list[n - 1].0 == key {
        Some(n - 1)
    } else {
        None
    }
}

/// The value under `key`, if the list holds the key.
pub open spec fn value_of(list: Pairs, key: Seq<char>) -> Option<Seq<char>> {
    match index_of_key(list, key, list.len() as int) {
        Some(i) => Some(list[i].1),
        None => None,
    }
}

/// The list with `value` under `key`: in the place of the pair that carried
/// the key, or at the end.
pub open spec fn with_pair(list: Pairs, key: Seq<char>, value: Seq<char>) -> Pairs {
    match index_of_key(list, key, list.len() as int) {
        Some(i) => list.update(i, (key, value)),
        None => list.push((key, value)),
    }
}

/// No key occurs twice.
pub open spec fn keys_unique(list: Pairs) -> bool {
    forall|i: int, j: int| 0 <= i < j < list.len() ==> (#[trigger] list[i]).0 != (#[trigger] list[j]).0
}

/// The list read as a map from keys to values.
pub open spec fn as_map(list: Pairs) -> Map<Seq<char>, Seq<char>> {
    Map::new(|k: Seq<char>| value_of(list, k) is Some, |k: Seq<char>| value_of(list, k)->0)
}

/// The first `n` pairs of a list with every key kept once, in the place where
/// it came first: a key that comes again takes the later value.
pub open spec fn merged_upto(list: Pairs, n: int) -> Pairs
    decreases n,
{
    if n <= 0 {
        Seq::empty()
    } else {
        with_pair(merged_upto(list, n - 1), list[n - 1].0, list[n - 1].1)
    }
}

/// A list with every key kept once.
pub open spec fn merged(list: Pairs) -> Pairs {
    merged_upto(list, list.len() as int)
}

/// The value that the last of the first `n` pairs with this key carries.
pub open spec fn last_value(list: Pairs, key: Seq<char>, n: int) -> Option<Seq<char>>
    decreases n,
{
    if n <= 0 {
        None
    } else if list[n - 1].0 == key {
        Some(list[n - 1].1)
    } else {
        last_value(list, key, n - 1)
    }
}

/// `index_of_key` finds the first pair with the key, or none where no pair
/// has it.
pub proof fn lemma_index_of_key(list: Pairs, key: Seq<char>, n: int)
    requires
        0 <= n <= list.len(),
    ensures
        match index_of_key(list, key, n) {
            None => forall|j: int| 0 <= j < n ==> (#[trigger] list[j]).0 != key,
            Some(k) => 0 <= k < n && list[k].0 == key && forall|j: int|
                0 <= j < k ==> (#[trigger] list[j]).0 != key,
        },
    decreases n,
{
    if n > 0 {
        lemma_index_of_key(list, key, n - 1);
    }
}

/// A key at `k` with none before it is where `index_of_key` ends up.
pub proof fn lemma_index_of_key_at(list: Pairs, key: Seq<char>, k: int, n: int)
    requires
        0 <= k < n <= list.len(),
        list[k].0 == key,
        forall|j: int| 0 <= j < k ==> (#[trigger] list[j]).0 != key,
    ensures
        index_of_key(list, key, n) == Some(k),
    decreases n,
{
    lemma_index_of_key(list, key, n - 1);
    if n - 1 > k {
        lemma_index_of_key_at(list, key, k, n - 1);
    }
}

/// After a value is put under a key, the key has that value, every other
/// key has what it had, and keys stay unique.
pub proof fn lemma_with_pair(list: Pairs, key: Seq<char>, value: Seq<char>)
    ensures
        value_of(with_pair(list, key, value), key) == Some(value),
        forall|other: Seq<char>|
            other != key ==> value_of(with_pair(list, key, value), other) == value_of(list, other),
        keys_unique(list) ==> keys_unique(with_pair(list, key, value)),
        as_map(with_pair(list, key, value)) == as_map(list).insert(key, value),
{
    let n = list.len() as int;
    let after = with_pair(list, key, value);
    lemma_index_of_key(list, key, n);
    let at = match index_of_key(list, key, n) {
        Some(k) => k,
        None => n,
    };
    lemma_index_of_key_at(after, key, at, after.len() as int);
    assert forall|other: Seq<char>| other != key implies value_of(after, other) == value_of(
        list,
        other,
    ) by {
        lemma_index_of_key(list, other, n);
        match index_of_key(list, other, n) {
            Some(k) => {
                lemma_index_of_key_at(after, other, k, after.len() as int);
            },
            None => {
                lemma_index_of_key(after, other, after.len() as int);
            },
        }
    }
}

proof fn lemma_merged_upto(list: Pairs, n: int)
    requires
        0 <= n <= list.len(),
    ensures
        keys_unique(merged_upto(list, n)),
        forall|key: Seq<char>| value_of(merged_upto(list, n), key) == last_value(list, key, n),
    decreases n,
{
    if n > 0 {
        let before = merged_upto(list, n - 1);
        lemma_merged_upto(list, n - 1);
        lemma_with_pair(before, list[n - 1].0, list[n - 1].1);
        assert forall|key: Seq<char>| value_of(merged_upto(list, n), key) == last_value(
            list,
            key,
            n,
        ) by {
            if key != list[n - 1].0 {
                assert(value_of(before, key) == last_value(list, key, n - 1));
            }
        }
    }
}

/// In a merged list no key comes twice, and each key has the value that it
/// had last in the list it was merged from.
pub proof fn lemma_merged_last_wins(list: Pairs)
    ensures
        keys_unique(merged(list)),
        forall|key: Seq<char>|
            value_of(merged(list), key) == last_value(list, key, list.len() as int),
{
    lemma_merged_upto(list, list.len() as int);
}

/// The position of the first pair that carries `key`.
pub fn find_key(list: &Vec<(String, String)>, key: &str) -> (found: Option<usize>)
    ensures
        match index_of_key(list.deep_view(), key@, list.len() as int) {
            None => found is None,
            Some(i) => found is Some && found->0 == i && i < list.len(),
        },
{
    let ghost pairs = list.deep_view();
    let mut i: usize = 0;
    while i < list.len()
        invariant
            pairs == list.deep_view(),
            0 <= i <= list.len(),
            index_of_key(pairs, key@, i as int) is None,
        decreases list.len() - i,
    {
        if same_text(list[i].0.as_str(), key) {
            proof {
                lemma_index_of_key(pairs, key@, i as int);
                lemma_index_of_key_at(pairs, key@, i as int, pairs.len() as int);
            }
            return Some(i);
        }
        i += 1;
    }
    None
}

/// The value under `key`.
pub fn get_value<'a>(list: &'a Vec<(String, String)>, key: &str) -> (value: Option<&'a str>)
    ensures
        match value_of(list.deep_view(), key@) {
            None => value is None,
            Some(v) => value is Some && value->0@ == v,
        },
{
    match find_key(list, key) {
        None => None,
        Some(i) => {
            Some(list[i].1.as_str())
        },
    }
}

/// Puts `value` under `key`.
pub fn put_value(list: &mut Vec<(String, String)>, key: String, value: String)
    ensures
        final(list).deep_view() == with_pair(old(list).deep_view(), key@, value@),
{
    match find_key(list, key.as_str()) {
        Some(i) => {
            list.set(i, (key, value));
        },
        None => {
            list.push((key, value));
        },
    }
}

/// Keeps every key of a list once, with the value it has last.
pub fn merge_pairs(list: Vec<(String, String)>) -> (kept: Vec<(String, String)>)
    ensures
        kept.deep_view() == merged(list.deep_view()),
{
    let ghost pairs = list.deep_view();
    let mut kept: Vec<(String, String)> = Vec::new();
    let mut i: usize = 0;
    while i < list.len()
        invariant
            pairs == list.deep_view(),
            0 <= i <= list.len(),
            kept.deep_view() == merged_upto(pairs, i as int),
        decreases list.len() - i,
    {
        let key = list[i].0.clone();
        let value = list[i].1.clone();
        put_value(&mut kept, key, value);
        i += 1;
    }
    kept
}

} // verus!
