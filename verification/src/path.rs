//! Route patterns: a path cut at `/`, where a segment that starts with `:`
//! stands for any non-empty segment and gives it a name.

use vstd::prelude::*;
use vstd::string::*;

verus! {

/// Why a pattern cannot be registered.
#[derive(Clone, Copy, Debug, PartialEq, Eq, Structural)]
pub enum PatternError {
    /// A segment is a lone `:`.
    EmptyParameterName,
    /// Two parameter segments carry the same name.
    DuplicateParameter,
}

/// A pattern segment that names a parameter.
pub open spec fn is_param(seg: Seq<char>) -> bool {
    seg.len() > 0 && seg[0] == ':'
}

/// The name a parameter segment gives.
pub open spec fn param_name(seg: Seq<char>) -> Seq<char> {
    seg.skip(1)
}

/// A literal segment matches itself; a parameter matches any non-empty
/// segment.
pub open spec fn segment_matches(pat: Seq<char>, seg: Seq<char>) -> bool {
    if is_param(pat) {
        seg.len() > 0
    } else {
        pat == seg
    }
}

/// A pattern matches a path with as many segments, each matched in place.
pub open spec fn pattern_matches(pat: Seq<Seq<char>>, path: Seq<Seq<char>>) -> bool {
    &&& pat.len() == path.len()
    &&& forall|i: int| 0 <= i < pat.len() ==> segment_matches(#[trigger] pat[i], path[i])
}

/// The parameters that the first `n` segments bind, in path order.
pub open spec fn bindings_upto(pat: Seq<Seq<char>>, path: Seq<Seq<char>>, n: int) -> Seq<
    (Seq<char>, Seq<char>),
>
    decreases n,
{
    if n <= 0 {
        Seq::empty()
    } else if is_param(pat[n - 1]) {
        bindings_upto(pat, path, n - 1).push((param_name(pat[n - 1]), path[n - 1]))
    } else {
        bindings_upto(pat, path, n - 1)
    }
}

/// The parameters a pattern binds on a path, in path order.
pub open spec fn bindings(pat: Seq<Seq<char>>, path: Seq<Seq<char>>) -> Seq<
    (Seq<char>, Seq<char>),
> {
    bindings_upto(pat, path, pat.len() as int)
}

/// Segment `i` is a parameter with an empty name.
pub open spec fn nameless_at(pat: Seq<Seq<char>>, i: int) -> bool {
    is_param(pat[i]) && param_name(pat[i]).len() == 0
}

/// Segment `i` is a parameter named like an earlier one.
pub open spec fn repeated_at(pat: Seq<Seq<char>>, i: int) -> bool {
    is_param(pat[i]) && exists|j: int|
        0 <= j < i && is_param(#[trigger] pat[j]) && param_name(pat[j]) == param_name(pat[i])
}

/// What is wrong with the first `n` segments: the fault of the leftmost
/// faulty segment, a missing name before a repeated one.
pub open spec fn fault_upto(pat: Seq<Seq<char>>, n: int) -> Option<PatternError>
    decreases n,
{
    if n <= 0 {
        None
    } else if fault_upto(pat, n - 1) is Some {
        fault_upto(pat, n - 1)
    } else if nameless_at(pat, n - 1) {
        Some(PatternError::EmptyParameterName)
    } else if repeated_at(pat, n - 1) {
        Some(PatternError::DuplicateParameter)
    } else {
        None
    }
}

/// What is wrong with a pattern, if anything.
pub open spec fn pattern_fault(pat: Seq<Seq<char>>) -> Option<PatternError> {
    fault_upto(pat, pat.len() as int)
}

/// Every parameter has a name, and no two share one.
pub open spec fn valid_pattern(pat: Seq<Seq<char>>) -> bool {
    forall|i: int| 0 <= i < pat.len() ==> !nameless_at(pat, i) && !repeated_at(pat, i)
}

/// `p` and `q` are alike in kind before `i`, where `p` is literal and `q` a
/// parameter.
pub open spec fn literal_first_at(p: Seq<Seq<char>>, q: Seq<Seq<char>>, i: int) -> bool {
    &&& 0 <= i < p.len()
    &&& i < q.len()
    &&& !is_param(p[i])
    &&& is_param(q[i])
    &&& forall|j: int| 0 <= j < i ==> is_param(#[trigger] p[j]) == is_param(q[j])
}

/// `p` is preferred to `q`: at the first position where one is literal and
/// the other a parameter, `p` is the literal one.
pub open spec fn more_specific(p: Seq<Seq<char>>, q: Seq<Seq<char>>) -> bool {
    exists|i: int| literal_first_at(p, q, i)
}

/// Position for position, `p` and `q` are of the same kind.
pub open spec fn same_kinds(p: Seq<Seq<char>>, q: Seq<Seq<char>>) -> bool {
    &&& p.len() == q.len()
    &&& forall|j: int| 0 <= j < p.len() ==> is_param(#[trigger] p[j]) == is_param(q[j])
}

/// A pattern has a fault exactly when it is not valid.
pub proof fn lemma_fault_iff_invalid(pat: Seq<Seq<char>>)
    ensures
        pattern_fault(pat) is None <==> valid_pattern(pat),
{
    lemma_fault_upto(pat, pat.len() as int);
}

proof fn lemma_fault_upto(pat: Seq<Seq<char>>, n: int)
    requires
        0 <= n <= pat.len(),
    ensures
        fault_upto(pat, n) is None <==> forall|i: int|
            0 <= i < n ==> !nameless_at(pat, i) && !repeated_at(pat, i),
    decreases n,
{
    if n > 0 {
        lemma_fault_upto(pat, n - 1);
    }
}

/// Once the first `n` segments hold a fault, every longer prefix reports the
/// same one.
pub proof fn lemma_fault_sticks(pat: Seq<Seq<char>>, n: int, m: int)
    requires
        n <= m,
        fault_upto(pat, n) is Some,
    ensures
        fault_upto(pat, m) == fault_upto(pat, n),
    decreases m - n,
{
    if n < m {
        lemma_fault_sticks(pat, n, m - 1);
    }
}

/// Preference never runs both ways.
pub proof fn lemma_more_specific_asymmetric(p: Seq<Seq<char>>, q: Seq<Seq<char>>)
    requires
        more_specific(p, q),
    ensures
        !more_specific(q, p),
{
}

/// Preference carries through a middle pattern.
pub proof fn lemma_more_specific_transitive(
    p: Seq<Seq<char>>,
    q: Seq<Seq<char>>,
    r: Seq<Seq<char>>,
)
    requires
        more_specific(p, q),
        more_specific(q, r),
    ensures
        more_specific(p, r),
{
    let i = choose|i: int| literal_first_at(p, q, i);
    let k = choose|k: int| literal_first_at(q, r, k);
    if i < k {
        assert(literal_first_at(p, r, i));
    } else if k < i {
        assert(literal_first_at(p, r, k));
    }
}

/// Preference looks at kinds only: a pattern of the same kinds as `q` is
/// preferred to whatever `q` is preferred to, and yields to whatever `q`
/// yields to.
pub proof fn lemma_more_specific_same_kinds(
    p: Seq<Seq<char>>,
    q: Seq<Seq<char>>,
    r: Seq<Seq<char>>,
)
    requires
        same_kinds(q, r),
    ensures
        more_specific(p, q) == more_specific(p, r),
        more_specific(q, p) == more_specific(r, p),
{
    if more_specific(p, q) {
        let i = choose|i: int| literal_first_at(p, q, i);
        assert(literal_first_at(p, r, i));
    }
    if more_specific(p, r) {
        let i = choose|i: int| literal_first_at(p, r, i);
        assert(literal_first_at(p, q, i));
    }
    if more_specific(q, p) {
        let i = choose|i: int| literal_first_at(q, p, i);
        assert forall|j: int| 0 <= j < i implies is_param(#[trigger] r[j]) == is_param(p[j]) by {
            assert(is_param(q[j]) == is_param(r[j]));
        }
        assert(literal_first_at(r, p, i));
    }
    if more_specific(r, p) {
        let i = choose|i: int| literal_first_at(r, p, i);
        assert(literal_first_at(q, p, i));
    }
}

/// Two patterns of one length are of the same kinds, or one is preferred.
pub proof fn lemma_more_specific_total(p: Seq<Seq<char>>, q: Seq<Seq<char>>)
    requires
        p.len() == q.len(),
    ensures
        same_kinds(p, q) || more_specific(p, q) || more_specific(q, p),
{
    lemma_kinds_agree_or_differ(p, q, p.len() as int);
}

proof fn lemma_kinds_agree_or_differ(p: Seq<Seq<char>>, q: Seq<Seq<char>>, n: int)
    requires
        p.len() == q.len(),
        0 <= n <= p.len(),
    ensures
        more_specific(p, q) || more_specific(q, p) || forall|j: int|
            0 <= j < n ==> is_param(#[trigger] p[j]) == is_param(q[j]),
    decreases n,
{
    if n > 0 {
        lemma_kinds_agree_or_differ(p, q, n - 1);
        if !more_specific(p, q) && !more_specific(q, p) {
            if is_param(p[n - 1]) != is_param(q[n - 1]) {
                if is_param(q[n - 1]) {
                    assert(literal_first_at(p, q, n - 1));
                } else {
                    assert(literal_first_at(q, p, n - 1));
                }
            }
        }
    }
}

/// One of the first `n` segments is a parameter named `key`.
spec fn names_key(pat: Seq<Seq<char>>, key: Seq<char>, n: int) -> bool {
    exists|j: int| 0 <= j < n && is_param(#[trigger] pat[j]) && param_name(pat[j]) == key
}

proof fn lemma_bindings_upto_keys(pat: Seq<Seq<char>>, path: Seq<Seq<char>>, n: int)
    requires
        valid_pattern(pat),
        0 <= n <= pat.len(),
    ensures
        forall|k: int|
            0 <= k < bindings_upto(pat, path, n).len() ==> names_key(
                pat,
                (#[trigger] bindings_upto(pat, path, n)[k]).0,
                n,
            ),
        forall|a: int, b: int|
            0 <= a < b < bindings_upto(pat, path, n).len() ==> (#[trigger] bindings_upto(
                pat,
                path,
                n,
            )[a]).0 != (#[trigger] bindings_upto(pat, path, n)[b]).0,
    decreases n,
{
    if n > 0 {
        lemma_bindings_upto_keys(pat, path, n - 1);
        let before = bindings_upto(pat, path, n - 1);
        let now = bindings_upto(pat, path, n);
        if is_param(pat[n - 1]) {
            assert(!repeated_at(pat, n - 1));
        }
    }
}

/// The parameters that a valid pattern binds have names of their own.
pub proof fn lemma_bindings_keys_unique(pat: Seq<Seq<char>>, path: Seq<Seq<char>>)
    requires
        valid_pattern(pat),
    ensures
        forall|a: int, b: int|
            0 <= a < b < bindings(pat, path).len() ==> (#[trigger] bindings(pat, path)[a]).0 != (
            #[trigger] bindings(pat, path)[b]).0,
{
    lemma_bindings_upto_keys(pat, path, pat.len() as int);
}

/// Whether a pattern segment names a parameter.
pub fn segment_is_param(seg: &str) -> (yes: bool)
    ensures
        yes == is_param(seg@),
{
    !seg.is_empty() && seg.get_char(0) == ':'
}

/// The name that a segment gives, where it is a parameter.
pub fn segment_param_name(seg: &str) -> (name: Option<String>)
    ensures
        match name {
            Some(text) => is_param(seg@) && text@ == param_name(seg@),
            None => !is_param(seg@),
        },
{
    if segment_is_param(seg) {
        let n = seg.unicode_len();
        Some(seg.substring_char(1, n).to_owned())
    } else {
        None
    }
}

/// Checks that every parameter of a pattern has a name of its own.
pub fn check_pattern(pat: &Vec<String>) -> (checked: Result<(), PatternError>)
    ensures
        checked == (match pattern_fault(pat.deep_view()) {
            Some(e) => Err::<(), PatternError>(e),
            None => Ok(()),
        }),
{
    let ghost segs = pat.deep_view();
    let mut i: usize = 0;
    while i < pat.len()
        invariant
            segs == pat.deep_view(),
            0 <= i <= pat.len(),
            fault_upto(segs, i as int) is None,
        decreases pat.len() - i,
    {
        let seg = pat[i].as_str();
        if let Some(name) = segment_param_name(seg) {
            if name.as_str().is_empty() {
                proof {
                    lemma_fault_sticks(segs, i + 1, segs.len() as int);
                }
                return Err(PatternError::EmptyParameterName);
            }
            let mut j: usize = 0;
            while j < i
                invariant
                    segs == pat.deep_view(),
                    0 <= j <= i < pat.len(),
                    is_param(segs[i as int]),
                    name@ == param_name(segs[i as int]),
                    !nameless_at(segs, i as int),
                    fault_upto(segs, i as int) is None,
                    forall|m: int|
                        0 <= m < j ==> !(is_param(#[trigger] segs[m]) && param_name(segs[m])
                            == name@),
                decreases i - j,
            {
                let earlier = pat[j].as_str();
                assert(earlier@ == segs[j as int]);
                if let Some(other) = segment_param_name(earlier) {
                    if other == name {
                        proof {
                            lemma_fault_sticks(segs, i + 1, segs.len() as int);
                        }
                        return Err(PatternError::DuplicateParameter);
                    }
                }
                j += 1;
            }
        }
        i += 1;
    }
    Ok(())
}

/// Matches a path against a pattern, segment by segment, and collects what
/// the parameters bind.
pub fn match_pattern(pat: &Vec<String>, path: &Vec<String>) -> (found: Option<
    Vec<(String, String)>,
>)
    ensures
        found is Some <==> pattern_matches(pat.deep_view(), path.deep_view()),
        found matches Some(params) ==> params.deep_view() == bindings(
            pat.deep_view(),
            path.deep_view(),
        ),
{
    let ghost p = pat.deep_view();
    let ghost s = path.deep_view();
    if pat.len() != path.len() {
        return None;
    }
    let mut params: Vec<(String, String)> = Vec::new();
    let mut i: usize = 0;
    while i < pat.len()
        invariant
            p == pat.deep_view(),
            s == path.deep_view(),
            pat.len() == path.len(),
            0 <= i <= pat.len(),
            forall|j: int| 0 <= j < i ==> segment_matches(#[trigger] p[j], s[j]),
            params.deep_view() == bindings_upto(p, s, i as int),
        decreases pat.len() - i,
    {
        let seg = pat[i].as_str();
        let piece = path[i].as_str();
        if let Some(name) = segment_param_name(seg) {
            if piece.is_empty() {
                assert(!segment_matches(p[i as int], s[i as int]));
                return None;
            }
            let value = piece.to_owned();
            params.push((name, value));
        } else if !(pat[i] == path[i]) {
            assert(!segment_matches(p[i as int], s[i as int]));
            return None;
        }
        i += 1;
    }
    Some(params)
}

/// Whether pattern `p` is preferred to pattern `q`.
pub fn is_more_specific(p: &Vec<String>, q: &Vec<String>) -> (yes: bool)
    ensures
        yes == more_specific(p.deep_view(), q.deep_view()),
{
    let ghost a = p.deep_view();
    let ghost b = q.deep_view();
    let mut i: usize = 0;
    while i < p.len() && i < q.len()
        invariant
            a == p.deep_view(),
            b == q.deep_view(),
            0 <= i <= p.len(),
            i <= q.len(),
            forall|j: int| 0 <= j < i ==> is_param(#[trigger] a[j]) == is_param(b[j]),
        decreases p.len() - i,
    {
        let left = segment_is_param(p[i].as_str());
        let right = segment_is_param(q[i].as_str());
        if left != right {
            proof {
                if right {
                    assert(literal_first_at(a, b, i as int));
                } else {
                    assert forall|w: int| !literal_first_at(a, b, w) by {
                        if literal_first_at(a, b, w) && w > i {
                            assert(is_param(a[i as int]) == is_param(b[i as int]));
                        }
                    }
                }
            }
            return right;
        }
        i += 1;
    }
    false
}

} // verus!
