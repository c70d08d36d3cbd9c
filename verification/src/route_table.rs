//! The route table: patterns in registration order, each leading to a
//! target, and the rule that picks one of them for a path.

use vstd::prelude::*;
use crate::method::Method;
use crate::assoc::keys_unique;
use crate::route_laws::lemma_registered_keeps_keys;
use crate::path::{
    bindings, check_pattern, is_more_specific, lemma_bindings_keys_unique, lemma_fault_iff_invalid,
    match_pattern, more_specific, pattern_fault, pattern_matches, valid_pattern, PatternError,
};
use crate::text::{same_text, split, split_on};

verus! {

/// One registration as contracts see it.
pub struct RouteView<T> {
    /// The method the route answers to; `None` where methods play no part.
    pub method: Option<Method>,
    /// The pattern as it was written.
    pub pattern: Seq<char>,
    /// What the route leads to.
    pub target: T,
}

/// What a lookup finds, as contracts see it.
pub struct MatchView<T> {
    /// The position of the chosen registration.
    pub index: int,
    /// What the chosen registration leads to.
    pub target: T,
    /// The parameters the pattern binds on the path, in path order.
    pub params: Seq<(Seq<char>, Seq<char>)>,
}

/// The segments of a pattern or of a path.
pub open spec fn segments_of(text: Seq<char>) -> Seq<Seq<char>> {
    split(text, '/')
}

/// The first of the first `n` registrations made under this method and
/// pattern.
pub open spec fn key_index<T>(
    routes: Seq<RouteView<T>>,
    method: Option<Method>,
    pattern: Seq<char>,
    n: int,
) -> Option<int>
    decreases n,
{
    if n <= 0 {
        None
    } else if key_index(routes, method, pattern, n - 1) is Some {
        key_index(routes, method, pattern, n - 1)
    } else if routes[n - 1].method == method && routes[n - 1].pattern == pattern {
        Some(n - 1)
    } else {
        None
    }
}

/// The table after a registration: the entry replaces the one made under the
/// same method and pattern, in its place, or goes to the end.
pub open spec fn registered<T>(routes: Seq<RouteView<T>>, entry: RouteView<T>) -> Seq<
    RouteView<T>,
> {
    match key_index(routes, entry.method, entry.pattern, routes.len() as int) {
        Some(i) => routes.update(i, entry),
        None => routes.push(entry),
    }
}

/// Registration `i` is made under `method` and its pattern matches the path.
pub open spec fn candidate<T>(
    routes: Seq<RouteView<T>>,
    method: Option<Method>,
    path: Seq<Seq<char>>,
    i: int,
) -> bool {
    &&& 0 <= i < routes.len()
    &&& routes[i].method == method
    &&& pattern_matches(segments_of(routes[i].pattern), path)
}

/// The registration chosen among the first `n`: a candidate takes the place
/// of the one chosen so far only when its pattern is preferred.
pub open spec fn best_upto<T>(
    routes: Seq<RouteView<T>>,
    method: Option<Method>,
    path: Seq<Seq<char>>,
    n: int,
) -> Option<int>
    decreases n,
{
    if n <= 0 {
        None
    } else {
        let before = best_upto(routes, method, path, n - 1);
        if candidate(routes, method, path, n - 1) {
            match before {
                None => Some(n - 1),
                Some(b) => if more_specific(
                    segments_of(routes[n - 1].pattern),
                    segments_of(routes[b].pattern),
                ) {
                    Some(n - 1)
                } else {
                    before
                },
            }
        } else {
            before
        }
    }
}

/// The position of the registration that answers `method` and `path`.
pub open spec fn chosen<T>(routes: Seq<RouteView<T>>, method: Option<Method>, path: Seq<char>) -> Option<
    int,
> {
    best_upto(routes, method, segments_of(path), routes.len() as int)
}

/// What a lookup of `method` and `path` finds.
pub open spec fn resolve<T>(routes: Seq<RouteView<T>>, method: Option<Method>, path: Seq<char>) -> Option<
    MatchView<T>,
> {
    match chosen(routes, method, path) {
        None => None,
        Some(i) => Some(
            MatchView {
                index: i,
                target: routes[i].target,
                params: bindings(segments_of(routes[i].pattern), segments_of(path)),
            },
        ),
    }
}

/// No two registrations share a method and a pattern.
pub open spec fn keys_distinct<T>(routes: Seq<RouteView<T>>) -> bool {
    forall|i: int, j: int|
        0 <= i < j < routes.len() ==> !((#[trigger] routes[i]).method == (#[trigger] routes[j]).method
            && routes[i].pattern == routes[j].pattern)
}

/// Every pattern is valid, and no two registrations share a method and a
/// pattern.
pub open spec fn well_formed<T>(routes: Seq<RouteView<T>>) -> bool {
    &&& keys_distinct(routes)
    &&& forall|i: int|
        0 <= i < routes.len() ==> valid_pattern(segments_of((#[trigger] routes[i]).pattern))
}

/// A stored registration.
struct Entry<T> {
    method: Option<Method>,
    pattern: String,
    segments: Vec<String>,
    target: T,
}

impl<T> Entry<T> {
    spec fn shown(self) -> RouteView<T> {
        RouteView { method: self.method, pattern: self.pattern@, target: self.target }
    }
}

/// What a lookup finds.
#[derive(Debug, PartialEq, Eq)]
pub struct RouteMatch<'a, T> {
    /// The position of the chosen registration.
    pub index: usize,
    /// What the chosen registration leads to.
    pub target: &'a T,
    /// The parameters the pattern binds on the path, in path order.
    pub params: Vec<(String, String)>,
}

impl<'a, T> View for RouteMatch<'a, T> {
    type V = MatchView<T>;

    open spec fn view(&self) -> MatchView<T> {
        MatchView {
            index: self.index as int,
            target: *self.target,
            params: self.params.deep_view(),
        }
    }
}

/// Patterns in registration order, each with its target.
pub struct RouteTable<T> {
    entries: Vec<Entry<T>>,
}

impl<T> View for RouteTable<T> {
    type V = Seq<RouteView<T>>;

    closed spec fn view(&self) -> Seq<RouteView<T>> {
        Seq::new(self.entries@.len(), |i: int| self.entries@[i].shown())
    }
}

fn same_method(a: Option<Method>, b: Option<Method>) -> (same: bool)
    ensures
        same == (a == b),
{
    match (a, b) {
        (None, None) => true,
        (Some(x), Some(y)) => x == y,
        _ => false,
    }
}

impl<T> RouteTable<T> {
    #[verifier::type_invariant]
    spec fn sound(self) -> bool {
        &&& forall|i: int|
            0 <= i < self.entries@.len() ==> (#[trigger] self.entries@[i]).segments.deep_view()
                == segments_of(self.entries@[i].pattern@)
        &&& well_formed(self@)
    }

    /// A table without registrations.
    pub fn new() -> (table: Self)
        ensures
            table@ == Seq::<RouteView<T>>::empty(),
            well_formed(table@),
    {
        RouteTable { entries: Vec::new() }
    }

    /// The number of registrations.
    pub fn len(&self) -> (n: usize)
        ensures
            n == self@.len(),
            well_formed(self@),
    {
        proof {
            use_type_invariant(self);
        }
        self.entries.len()
    }

    /// Registers `target` under `method` and `pattern`. A pattern with a
    /// nameless or repeated parameter is refused and leaves the table as it
    /// was. A second registration under the same method and pattern takes
    /// the place of the first.
    pub fn register(&mut self, method: Option<Method>, pattern: &str, target: T) -> (done: Result<
        (),
        PatternError,
    >)
        ensures
            match pattern_fault(segments_of(pattern@)) {
                Some(e) => done == Err::<(), PatternError>(e) && final(self)@ == old(self)@,
                None => done is Ok && final(self)@ == registered(
                    old(self)@,
                    RouteView { method, pattern: pattern@, target },
                ),
            },
            well_formed(old(self)@),
            well_formed(final(self)@),
    {
        proof {
            use_type_invariant(&*self);
        }
        let segments = split_on(pattern, '/');
        match check_pattern(&segments) {
            Err(e) => {
                return Err(e);
            },
            Ok(()) => {},
        }
        proof {
            lemma_fault_iff_invalid(segments_of(pattern@));
        }
        let ghost before = self@;
        let mut i: usize = 0;
        let mut slot: Option<usize> = None;
        while i < self.entries.len() && slot.is_none()
            invariant
                0 <= i <= self.entries@.len(),
                self@ == before,
                key_index(before, method, pattern@, i as int) is None,
                slot matches Some(k) ==> k == i && i < before.len() && before[i as int].method
                    == method && before[i as int].pattern == pattern@,
            decreases self.entries@.len() - i + (if slot is None { 1int } else { 0int }),
        {
            if same_method(self.entries[i].method, method) && same_text(
                self.entries[i].pattern.as_str(),
                pattern,
            ) {
                slot = Some(i);
            } else {
                i += 1;
            }
        }
        let entry = Entry { method, pattern: pattern.to_owned(), segments, target };
        let ghost shown = RouteView { method, pattern: pattern@, target };
        let mut entries: Vec<Entry<T>> = Vec::new();
        core::mem::swap(&mut self.entries, &mut entries);
        match slot {
            Some(k) => {
                proof {
                    lemma_key_index_found(before, method, pattern@, k as int, before.len() as int);
                }
                entries.set(k, entry);
            },
            None => {
                entries.push(entry);
            },
        }
        proof {
            let after = Seq::new(entries@.len(), |i: int| entries@[i].shown());
            assert(after =~= registered(before, shown));
            lemma_registered_keeps_keys(before, shown);
        }
        core::mem::swap(&mut self.entries, &mut entries);
        Ok(())
    }

    /// Finds the registration that answers `method` and `path`: among the
    /// registrations under `method` whose pattern matches, the one whose
    /// pattern is preferred, and the earliest of those that are preferred
    /// alike.
    pub fn lookup(&self, method: Option<Method>, path: &str) -> (found: Option<RouteMatch<'_, T>>)
        ensures
            match resolve(self@, method, path@) {
                None => found is None,
                Some(m) => found is Some && found->0@ == m && keys_unique(m.params),
            },
            well_formed(self@),
    {
        proof {
            use_type_invariant(self);
        }
        let segs = split_on(path, '/');
        let ghost routes = self@;
        let ghost wanted = segments_of(path@);
        let mut best: Option<usize> = None;
        let mut best_params: Vec<(String, String)> = Vec::new();
        let mut i: usize = 0;
        while i < self.entries.len()
            invariant
                0 <= i <= self.entries@.len(),
                routes == self@,
                wanted == segs.deep_view(),
                self.sound(),
                match best {
                    None => best_upto(routes, method, wanted, i as int) is None,
                    Some(b) => best_upto(routes, method, wanted, i as int) == Some(b as int),
                },
                best matches Some(b) ==> b < i && best_params.deep_view() == bindings(
                    segments_of(routes[b as int].pattern),
                    wanted,
                ),
            decreases self.entries@.len() - i,
        {
            let entry = &self.entries[i];
            if same_method(entry.method, method) {
                match match_pattern(&entry.segments, &segs) {
                    Some(params) => {
                        let take = match best {
                            None => true,
                            Some(b) => {
                                is_more_specific(&entry.segments, &self.entries[b].segments)
                            },
                        };
                        if take {
                            best = Some(i);
                            best_params = params;
                        }
                    },
                    None => {},
                }
            }
            i += 1;
        }
        match best {
            None => None,
            Some(b) => {
                proof {
                    lemma_bindings_keys_unique(segments_of(routes[b as int].pattern), wanted);
                }
                Some(RouteMatch { index: b, target: &self.entries[b].target, params: best_params })
            },
        }
    }

    /// The pattern of registration `i`, as it was written, where there is
    /// such a registration.
    pub fn pattern_at(&self, i: usize) -> (pattern: Option<&str>)
        ensures
            match pattern {
                Some(text) => i < self@.len() && text@ == self@[i as int].pattern,
                None => i >= self@.len(),
            },
    {
        if i < self.entries.len() {
            Some(self.entries[i].pattern.as_str())
        } else {
            None
        }
    }

    /// The target of registration `i`, where there is such a registration.
    pub fn target_at(&self, i: usize) -> (target: Option<&T>)
        ensures
            match target {
                Some(t) => i < self@.len() && *t == self@[i as int].target,
                None => i >= self@.len(),
            },
    {
        if i < self.entries.len() {
            Some(&self.entries[i].target)
        } else {
            None
        }
    }
}

/// A key found at `k`, with none before it, is the key's index in every
/// longer prefix.
proof fn lemma_key_index_found<T>(
    routes: Seq<RouteView<T>>,
    method: Option<Method>,
    pattern: Seq<char>,
    k: int,
    n: int,
)
    requires
        0 <= k < n <= routes.len(),
        key_index(routes, method, pattern, k) is None,
        routes[k].method == method,
        routes[k].pattern == pattern,
    ensures
        key_index(routes, method, pattern, n) == Some(k),
    decreases n - k,
{
    if n > k + 1 {
        lemma_key_index_found(routes, method, pattern, k, n - 1);
    }
}

} // verus!
