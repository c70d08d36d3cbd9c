//! What holds of the route table: which registration a lookup prefers, that
//! a path made from a pattern finds its way back to it, and how repeated
//! registrations under one key behave.

use vstd::prelude::*;
use crate::method::Method;
use crate::path::{
    bindings, bindings_upto, is_param, lemma_more_specific_asymmetric,
    lemma_more_specific_same_kinds, lemma_more_specific_total, lemma_more_specific_transitive,
    more_specific, param_name, pattern_matches, same_kinds, segment_matches,
};
use crate::route_table::{
    best_upto, candidate, chosen, key_index, keys_distinct, registered, resolve, segments_of,
    MatchView, RouteView,
};
use crate::text::{join, lemma_join_split, lemma_split_join, lemma_split_pieces};

verus! {

/// Registration `b` is the answer among the first `n`: it is a candidate, no
/// candidate is preferred to it, and it is preferred to every candidate
/// registered before it.
pub open spec fn preferred_among<T>(
    routes: Seq<RouteView<T>>,
    method: Option<Method>,
    path: Seq<Seq<char>>,
    b: int,
    n: int,
) -> bool {
    &&& b < n
    &&& candidate(routes, method, path, b)
    &&& forall|j: int|
        0 <= j < n && #[trigger] candidate(routes, method, path, j) ==> {
            &&& !more_specific(segments_of(routes[j].pattern), segments_of(routes[b].pattern))
            &&& j < b ==> more_specific(
                segments_of(routes[b].pattern),
                segments_of(routes[j].pattern),
            )
        }
}

proof fn lemma_best_upto<T>(
    routes: Seq<RouteView<T>>,
    method: Option<Method>,
    path: Seq<Seq<char>>,
    n: int,
)
    requires
        0 <= n <= routes.len(),
    ensures
        match best_upto(routes, method, path, n) {
            None => forall|j: int| 0 <= j < n ==> !candidate(routes, method, path, j),
            Some(b) => preferred_among(routes, method, path, b, n),
        },
    decreases n,
{
    if n > 0 {
        lemma_best_upto(routes, method, path, n - 1);
        let k = n - 1;
        let pk = segments_of(routes[k].pattern);
        if candidate(routes, method, path, k) {
            if more_specific(pk, pk) {
                lemma_more_specific_asymmetric(pk, pk);
            }
            if let Some(b) = best_upto(routes, method, path, n - 1) {
                let pb = segments_of(routes[b].pattern);
                if more_specific(pk, pb) {
                    assert forall|j: int|
                        0 <= j < n && #[trigger] candidate(routes, method, path, j) implies {
                        &&& !more_specific(segments_of(routes[j].pattern), pk)
                        &&& j < k ==> more_specific(pk, segments_of(routes[j].pattern))
                    } by {
                        let pj = segments_of(routes[j].pattern);
                        if j < k {
                            lemma_more_specific_total(pb, pj);
                            if same_kinds(pb, pj) {
                                lemma_more_specific_same_kinds(pk, pb, pj);
                            } else {
                                lemma_more_specific_transitive(pk, pb, pj);
                            }
                            lemma_more_specific_asymmetric(pk, pj);
                        }
                    }
                }
            }
        }
    }
}

/// A lookup finds nothing only when no registration under the method
/// matches the path. Otherwise it finds a matching registration to which no
/// other is preferred, and which is preferred to every matching
/// registration made before it: a literal segment wins over a parameter at
/// the first position where two patterns differ in kind, and among patterns
/// alike in kind the first registered wins.
pub proof fn lemma_chosen_is_preferred<T>(
    routes: Seq<RouteView<T>>,
    method: Option<Method>,
    path: Seq<char>,
)
    ensures
        match chosen(routes, method, path) {
            None => forall|j: int| !candidate(routes, method, segments_of(path), j),
            Some(b) => preferred_among(routes, method, segments_of(path), b, routes.len() as int),
        },
{
    lemma_best_upto(routes, method, segments_of(path), routes.len() as int);
}

/// The rule has one answer: a registration that meets it is the one a lookup
/// finds.
pub proof fn lemma_preferred_is_chosen<T>(
    routes: Seq<RouteView<T>>,
    method: Option<Method>,
    path: Seq<char>,
    b: int,
)
    requires
        preferred_among(routes, method, segments_of(path), b, routes.len() as int),
    ensures
        chosen(routes, method, path) == Some(b),
{
    lemma_chosen_is_preferred(routes, method, path);
}

/// Two lookups of one method and path in one table find the same
/// registration, the same target and the same parameters.
pub proof fn lemma_lookup_deterministic<T>(
    routes: Seq<RouteView<T>>,
    method: Option<Method>,
    path: Seq<char>,
    first: Option<MatchView<T>>,
    second: Option<MatchView<T>>,
)
    requires
        first == resolve(routes, method, path),
        second == resolve(routes, method, path),
    ensures
        first == second,
{
}

/// The number of parameters among the first `n` segments.
pub open spec fn params_before(pat: Seq<Seq<char>>, n: int) -> int
    decreases n,
{
    if n <= 0 {
        0
    } else if is_param(pat[n - 1]) {
        params_before(pat, n - 1) + 1
    } else {
        params_before(pat, n - 1)
    }
}

/// The number of parameters of a pattern.
pub open spec fn param_count(pat: Seq<Seq<char>>) -> int {
    params_before(pat, pat.len() as int)
}

/// The pattern with each parameter replaced by its value, the `k`-th
/// parameter by `values[k]`.
pub open spec fn filled(pat: Seq<Seq<char>>, values: Seq<Seq<char>>) -> Seq<Seq<char>> {
    Seq::new(
        pat.len(),
        |i: int|
            if is_param(pat[i]) {
                values[params_before(pat, i)]
            } else {
                pat[i]
            },
    )
}

/// The path that a pattern gives when its parameters are replaced by
/// `values`.
pub open spec fn substituted(pattern: Seq<char>, values: Seq<Seq<char>>) -> Seq<char> {
    join(filled(segments_of(pattern), values), '/')
}

/// The names of the parameters among the first `n` segments, in order.
pub open spec fn names_upto(pat: Seq<Seq<char>>, n: int) -> Seq<Seq<char>>
    decreases n,
{
    if n <= 0 {
        Seq::empty()
    } else if is_param(pat[n - 1]) {
        names_upto(pat, n - 1).push(param_name(pat[n - 1]))
    } else {
        names_upto(pat, n - 1)
    }
}

/// Each parameter name of a pattern beside the value put in its place.
pub open spec fn named(pat: Seq<Seq<char>>, values: Seq<Seq<char>>) -> Seq<(Seq<char>, Seq<char>)> {
    Seq::new(values.len(), |k: int| (names_upto(pat, pat.len() as int)[k], values[k]))
}

proof fn lemma_params_before(pat: Seq<Seq<char>>, i: int, n: int)
    requires
        0 <= i <= n <= pat.len(),
    ensures
        0 <= params_before(pat, i) <= params_before(pat, n),
        i < n && is_param(pat[i]) ==> params_before(pat, i) < params_before(pat, n),
        names_upto(pat, i).len() == params_before(pat, i),
        forall|k: int| 0 <= k < params_before(pat, i) ==> names_upto(pat, i)[k] == names_upto(pat, n)[k],
    decreases n - i, i,
{
    if i < n {
        lemma_params_before(pat, i, n - 1);
        lemma_params_before(pat, n - 1, n - 1);
    } else if i > 0 {
        lemma_params_before(pat, i - 1, i - 1);
    }
}

proof fn lemma_bindings_of_filled(pat: Seq<Seq<char>>, values: Seq<Seq<char>>, n: int)
    requires
        0 <= n <= pat.len(),
        values.len() == param_count(pat),
    ensures
        bindings_upto(pat, filled(pat, values), n).len() == params_before(pat, n),
        forall|k: int|
            0 <= k < params_before(pat, n) ==> bindings_upto(pat, filled(pat, values), n)[k] == (
                names_upto(pat, n)[k],
                values[k],
            ),
    decreases n,
{
    if n > 0 {
        lemma_bindings_of_filled(pat, values, n - 1);
        lemma_params_before(pat, n - 1, n - 1);
    }
}

/// A path made from registration `i` by putting a value in the place of each
/// parameter is matched by that registration, and what the pattern binds on
/// it is each parameter's name beside the value that was put in. So a lookup
/// of that path finds something, and where it finds registration `i` the
/// parameters it returns are the ones substituted. It finds another
/// registration only where that one is preferred or was registered earlier,
/// so never where registration `i` alone matches the path. Values are
/// non-empty and hold no `/`.
pub proof fn lemma_substitution_round_trip<T>(
    routes: Seq<RouteView<T>>,
    i: int,
    values: Seq<Seq<char>>,
)
    requires
        0 <= i < routes.len(),
        values.len() == param_count(segments_of(routes[i].pattern)),
        forall|k: int| 0 <= k < values.len() ==> (#[trigger] values[k]).len() > 0 && !values[k].contains('/'),
    ensures
        ({
            let pat = segments_of(routes[i].pattern);
            let path = substituted(routes[i].pattern, values);
            let found = resolve(routes, routes[i].method, path);
            &&& segments_of(path) == filled(pat, values)
            &&& candidate(routes, routes[i].method, segments_of(path), i)
            &&& bindings(pat, segments_of(path)) == named(pat, values)
            &&& found is Some
            &&& found->0.index == i ==> found->0.params == named(pat, values)
            &&& found->0.index != i ==> found->0.index < i || more_specific(
                segments_of(routes[found->0.index].pattern),
                pat,
            )
            &&& (forall|j: int|
                candidate(routes, routes[i].method, segments_of(path), j) ==> j == i)
                ==> found->0.index == i
        }),
{
    let pat = segments_of(routes[i].pattern);
    let full = filled(pat, values);
    let path = substituted(routes[i].pattern, values);
    lemma_split_pieces(routes[i].pattern, '/');
    assert forall|j: int| 0 <= j < full.len() implies !(#[trigger] full[j]).contains('/') by {
        if is_param(pat[j]) {
            lemma_params_before(pat, j, pat.len() as int);
        }
    }
    lemma_split_join(full, '/');
    assert forall|j: int| 0 <= j < pat.len() implies segment_matches(#[trigger] pat[j], full[j]) by {
        if is_param(pat[j]) {
            lemma_params_before(pat, j, pat.len() as int);
        }
    }
    lemma_bindings_of_filled(pat, values, pat.len() as int);
    lemma_chosen_is_preferred(routes, routes[i].method, path);
    assert(candidate(routes, routes[i].method, segments_of(path), i));
}

proof fn lemma_key_index_first<T>(
    routes: Seq<RouteView<T>>,
    method: Option<Method>,
    pattern: Seq<char>,
    n: int,
)
    requires
        0 <= n <= routes.len(),
    ensures
        match key_index(routes, method, pattern, n) {
            None => forall|j: int|
                0 <= j < n ==> !((#[trigger] routes[j]).method == method && routes[j].pattern
                    == pattern),
            Some(k) => 0 <= k < n && routes[k].method == method && routes[k].pattern == pattern
                && forall|j: int|
                0 <= j < k ==> !((#[trigger] routes[j]).method == method && routes[j].pattern
                    == pattern),
        },
    decreases n,
{
    if n > 0 {
        lemma_key_index_first(routes, method, pattern, n - 1);
    }
}

proof fn lemma_key_index_at<T>(
    routes: Seq<RouteView<T>>,
    method: Option<Method>,
    pattern: Seq<char>,
    k: int,
    n: int,
)
    requires
        0 <= k < n <= routes.len(),
        routes[k].method == method,
        routes[k].pattern == pattern,
        forall|j: int|
            0 <= j < k ==> !((#[trigger] routes[j]).method == method && routes[j].pattern
                == pattern),
    ensures
        key_index(routes, method, pattern, n) == Some(k),
    decreases n,
{
    lemma_key_index_first(routes, method, pattern, n - 1);
    if n - 1 > k {
        lemma_key_index_at(routes, method, pattern, k, n - 1);
    }
}

/// The last registration under a key is the one that stays: registering
/// `second` after `first` under the same method and pattern leaves the table
/// that registering `second` alone would have left.
pub proof fn lemma_last_write_wins<T>(
    routes: Seq<RouteView<T>>,
    first: RouteView<T>,
    second: RouteView<T>,
)
    requires
        first.method == second.method,
        first.pattern == second.pattern,
    ensures
        registered(registered(routes, first), second) == registered(routes, second),
{
    let n = routes.len() as int;
    lemma_key_index_first(routes, first.method, first.pattern, n);
    let once = registered(routes, first);
    match key_index(routes, first.method, first.pattern, n) {
        Some(k) => {
            lemma_key_index_at(once, first.method, first.pattern, k, once.len() as int);
        },
        None => {
            lemma_key_index_at(once, first.method, first.pattern, n, once.len() as int);
        },
    }
}

/// Registering the same entry twice is registering it once.
pub proof fn lemma_register_idempotent<T>(routes: Seq<RouteView<T>>, entry: RouteView<T>)
    ensures
        registered(registered(routes, entry), entry) == registered(routes, entry),
{
    lemma_last_write_wins(routes, entry, entry);
}

/// A registration keeps one entry per key, holds the new entry under its
/// key, and leaves every other entry where it was.
pub proof fn lemma_registered_keeps_keys<T>(routes: Seq<RouteView<T>>, entry: RouteView<T>)
    requires
        keys_distinct(routes),
    ensures
        keys_distinct(registered(routes, entry)),
        ({
            let after = registered(routes, entry);
            let k = key_index(after, entry.method, entry.pattern, after.len() as int);
            &&& k is Some
            &&& after[k->0] == entry
            &&& forall|j: int| 0 <= j < routes.len() && j != k->0 ==> after[j] == routes[j]
        }),
{
    let n = routes.len() as int;
    lemma_key_index_first(routes, entry.method, entry.pattern, n);
    let after = registered(routes, entry);
    match key_index(routes, entry.method, entry.pattern, n) {
        Some(k) => {
            lemma_key_index_at(after, entry.method, entry.pattern, k, after.len() as int);
        },
        None => {
            lemma_key_index_at(after, entry.method, entry.pattern, n, after.len() as int);
        },
    }
}

/// A pattern without parameters.
pub open spec fn all_literal(pat: Seq<Seq<char>>) -> bool {
    forall|k: int| 0 <= k < pat.len() ==> !is_param(#[trigger] pat[k])
}

proof fn lemma_literal_binds_nothing(pat: Seq<Seq<char>>, path: Seq<Seq<char>>, n: int)
    requires
        all_literal(pat),
        0 <= n <= pat.len(),
    ensures
        bindings_upto(pat, path, n) == Seq::<(Seq<char>, Seq<char>)>::empty(),
    decreases n,
{
    if n > 0 {
        lemma_literal_binds_nothing(pat, path, n - 1);
    }
}

/// A route without parameters answers its own path, whatever else is
/// registered: a lookup of its pattern under its method finds it, and binds
/// nothing.
pub proof fn lemma_literal_route_is_found<T>(routes: Seq<RouteView<T>>, i: int)
    requires
        keys_distinct(routes),
        0 <= i < routes.len(),
        all_literal(segments_of(routes[i].pattern)),
    ensures
        chosen(routes, routes[i].method, routes[i].pattern) == Some(i),
        resolve(routes, routes[i].method, routes[i].pattern) == Some(
            MatchView { index: i, target: routes[i].target, params: Seq::empty() },
        ),
{
    let method = routes[i].method;
    let path = routes[i].pattern;
    let own = segments_of(path);
    assert forall|j: int| 0 <= j < routes.len() && #[trigger] candidate(routes, method, own, j) implies {
        &&& !more_specific(segments_of(routes[j].pattern), own)
        &&& j < i ==> more_specific(own, segments_of(routes[j].pattern))
    } by {
        let other = segments_of(routes[j].pattern);
        if j != i {
            lemma_more_specific_total(own, other);
            if same_kinds(own, other) {
                assert(other =~= own);
                lemma_join_split(routes[j].pattern, '/');
                lemma_join_split(path, '/');
            }
        }
    }
    lemma_preferred_is_chosen(routes, method, path, i);
    lemma_literal_binds_nothing(own, own, own.len() as int);
}

} // verus!
