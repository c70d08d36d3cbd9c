//! Query strings: pieces separated by `&`, each a key and a value separated
//! by the first `=`.

use vstd::prelude::*;
use vstd::string::*;
use crate::assoc::{keys_unique, last_value, lemma_merged_last_wins, merge_pairs, merged, value_of, Pairs};
use crate::text::{find_char, first_index, split, split_on};

verus! {

/// The key and the value of one piece: what stands before and after the
/// first `=`, or the whole piece and nothing where it holds no `=`.
pub open spec fn pair_of(piece: Seq<char>) -> (Seq<char>, Seq<char>) {
    let i = first_index(piece, '=');
    if 0 <= i < piece.len() {
        (piece.take(i), piece.skip(i + 1))
    } else {
        (piece, Seq::empty())
    }
}

/// The pieces of a query string, each cut into key and value, in the order
/// they stand in. The empty string has none.
pub open spec fn raw_pairs(query: Seq<char>) -> Pairs {
    if query.len() == 0 {
        Seq::empty()
    } else {
        Seq::new(split(query, '&').len(), |i: int| pair_of(split(query, '&')[i]))
    }
}

/// The parameters of a query string: each key once, with the value it has
/// last.
pub open spec fn query_pairs(query: Seq<char>) -> Pairs {
    merged(raw_pairs(query))
}

/// No key occurs twice among the parameters of a query string, and each key
/// has the value of the last piece that carries it.
pub proof fn lemma_query_last_value_wins(query: Seq<char>)
    ensures
        keys_unique(query_pairs(query)),
        forall|key: Seq<char>|
            value_of(query_pairs(query), key) == last_value(
                raw_pairs(query),
                key,
                raw_pairs(query).len() as int,
            ),
{
    lemma_merged_last_wins(raw_pairs(query));
}

/// Cuts one piece into its key and value.
pub fn parse_pair(piece: &str) -> (pair: (String, String))
    ensures
        pair.deep_view() == pair_of(piece@),
{
    let n = piece.unicode_len();
    let at = find_char(piece, '=');
    if at < n {
        let key = piece.substring_char(0, at).to_owned();
        let value = piece.substring_char(at + 1, n).to_owned();
        (key, value)
    } else {
        (piece.to_owned(), String::new())
    }
}

/// Reads the parameters of a query string.
pub fn parse_query(query: &str) -> (pairs: Vec<(String, String)>)
    ensures
        pairs.deep_view() == query_pairs(query@),
{
    let mut raw: Vec<(String, String)> = Vec::new();
    if !query.is_empty() {
        let pieces = split_on(query, '&');
        let ghost cut = pieces.deep_view();
        let mut i: usize = 0;
        while i < pieces.len()
            invariant
                cut == pieces.deep_view(),
                cut == split(query@, '&'),
                0 <= i <= pieces.len(),
                raw.deep_view() == Seq::new(i as nat, |k: int| pair_of(cut[k])),
            decreases pieces.len() - i,
        {
            let pair = parse_pair(pieces[i].as_str());
            let ghost before = raw.deep_view();
            raw.push(pair);
            assert(raw.deep_view() == before.push(pair.deep_view()));
            i += 1;
        }
    }
    merge_pairs(raw)
}

} // verus!
