//! The include graph: which registered documents a document includes, and
//! the bounded, cycle-safe closure of that relation.

use vstd::prelude::*;
use crate::registry::{doc_captures, lookup, lemma_position_in, DocumentView, Registry};
use crate::syntax::{captures_view, CaptureView, QueryKind};
use crate::text::{has_substring, remove_char, strip_quotes, text_contains};

verus! {

pub open spec fn strs(v: Seq<String>) -> Seq<Seq<char>> {
    v.map_values(|s: String| s@)
}

/// The first URI among `reg[..n]` in which `literal` occurs.
pub open spec fn first_containing(reg: Seq<DocumentView>, literal: Seq<char>, n: int) -> Option<Seq<char>>
    decreases n,
{
    if n <= 0 {
        None
    } else {
        match first_containing(reg, literal, n - 1) {
            Some(u) => Some(u),
            None => if has_substring(reg[n - 1].uri, literal) {
                Some(reg[n - 1].uri)
            } else {
                None
            },
        }
    }
}

/// The registered URI that an include literal names, if any.
pub open spec fn resolve_literal(reg: Seq<DocumentView>, literal: Seq<char>) -> Option<Seq<char>> {
    first_containing(reg, strip_quotes(literal), reg.len() as int)
}

/// The URIs that the include captures resolve to, in order, each once;
/// literals that match no registered URI are dropped.
pub open spec fn include_targets(reg: Seq<DocumentView>, caps: Seq<CaptureView>) -> Seq<Seq<char>>
    decreases caps.len(),
{
    if caps.len() == 0 {
        Seq::empty()
    } else {
        let prev = include_targets(reg, caps.drop_last());
        match resolve_literal(reg, caps.last().text) {
            Some(u) => if prev.contains(u) {
                prev
            } else {
                prev.push(u)
            },
            None => prev,
        }
    }
}

/// The documents that `d` includes directly.
pub open spec fn includes_of(reg: Seq<DocumentView>, d: DocumentView) -> Seq<Seq<char>> {
    include_targets(reg, doc_captures(d, QueryKind::IncludeLiteral))
}

/// The documents that the document under `uri` includes directly.
pub open spec fn targets_of(reg: Seq<DocumentView>, uri: Seq<char>) -> Seq<Seq<char>> {
    match lookup(reg, uri) {
        Some(d) => includes_of(reg, d),
        None => Seq::empty(),
    }
}

/// `visited` followed by each URI of `incs` that it lacks, in order, once.
pub open spec fn add_new(visited: Seq<Seq<char>>, incs: Seq<Seq<char>>) -> Seq<Seq<char>>
    decreases incs.len(),
{
    if incs.len() == 0 {
        visited
    } else {
        let v = add_new(visited, incs.drop_last());
        if v.contains(incs.last()) {
            v
        } else {
            v.push(incs.last())
        }
    }
}

/// `visited` after the includes of `visited[lo..k]` were added to it.
pub open spec fn expand(reg: Seq<DocumentView>, visited: Seq<Seq<char>>, lo: int, k: int) -> Seq<Seq<char>>
    decreases k - lo,
{
    if k <= lo {
        visited
    } else {
        add_new(expand(reg, visited, lo, k - 1), targets_of(reg, visited[k - 1]))
    }
}

/// Breadth-first expansion: `visited[lo..]` is the current level; each of
/// `depth` more levels adds the includes of the level before that were not
/// yet visited.
pub open spec fn levels(reg: Seq<DocumentView>, visited: Seq<Seq<char>>, lo: int, depth: nat) -> Seq<Seq<char>>
    decreases depth,
{
    if depth == 0 {
        visited
    } else {
        levels(reg, expand(reg, visited, lo, visited.len() as int), visited.len() as int, (depth - 1) as nat)
    }
}

/// A document followed by every document that it reaches through at most
/// `depth` levels of includes, in discovery order.
pub open spec fn scope_of(reg: Seq<DocumentView>, uri: Seq<char>, depth: nat) -> Seq<Seq<char>> {
    levels(reg, seq![uri], 0, depth)
}

/// Every document that `uri` reaches through at most `depth` levels of
/// includes, without `uri` itself.
pub open spec fn closure_of(reg: Seq<DocumentView>, uri: Seq<char>, depth: nat) -> Seq<Seq<char>> {
    scope_of(reg, uri, depth).drop_first()
}

pub proof fn lemma_add_new(visited: Seq<Seq<char>>, incs: Seq<Seq<char>>)
    ensures
        add_new(visited, incs).len() >= visited.len(),
        add_new(visited, incs).subrange(0, visited.len() as int) == visited,
        visited.no_duplicates() ==> add_new(visited, incs).no_duplicates(),
        forall|u: Seq<char>| incs.contains(u) ==> add_new(visited, incs).contains(u),
    decreases incs.len(),
{
    if incs.len() > 0 {
        let v = add_new(visited, incs.drop_last());
        lemma_add_new(visited, incs.drop_last());
        let r = add_new(visited, incs);
        if !v.contains(incs.last()) {
            assert(r.subrange(0, visited.len() as int) =~= v.subrange(0, visited.len() as int));
            if visited.no_duplicates() {
                assert forall|i: int, j: int| 0 <= i < r.len() && 0 <= j < r.len() && i != j implies r[i] != r[j] by {
                    if i == v.len() as int {
                        assert(v.contains(r[j]));
                    } else if j == v.len() as int {
                        assert(v.contains(r[i]));
                    }
                }
            }
        }
        assert forall|u: Seq<char>| incs.contains(u) implies r.contains(u) by {
            let k = choose|k: int| 0 <= k < incs.len() && incs[k] == u;
            if k < incs.len() - 1 {
                assert(incs.drop_last()[k] == u);
                assert(incs.drop_last().contains(u));
                assert(v.contains(u));
                let m = choose|m: int| 0 <= m < v.len() && v[m] == u;
                assert(r[m] == u);
            } else if v.contains(u) {
                let m = choose|m: int| 0 <= m < v.len() && v[m] == u;
                assert(r[m] == u);
            } else {
                assert(r[v.len() as int] == u);
            }
        }
    }
}

pub proof fn lemma_expand(reg: Seq<DocumentView>, visited: Seq<Seq<char>>, lo: int, k: int)
    requires
        0 <= lo,
        k <= visited.len(),
    ensures
        expand(reg, visited, lo, k).len() >= visited.len(),
        expand(reg, visited, lo, k).subrange(0, visited.len() as int) == visited,
        visited.no_duplicates() ==> expand(reg, visited, lo, k).no_duplicates(),
    decreases k - lo,
{
    if k > lo {
        lemma_expand(reg, visited, lo, k - 1);
        let v = expand(reg, visited, lo, k - 1);
        lemma_add_new(v, targets_of(reg, visited[k - 1]));
        let r = expand(reg, visited, lo, k);
        assert(r.subrange(0, visited.len() as int) =~= v.subrange(0, v.len() as int).subrange(0, visited.len() as int));
        assert(r.subrange(0, v.len() as int).subrange(0, visited.len() as int) =~= r.subrange(0, visited.len() as int));
    }
}

pub proof fn lemma_levels(reg: Seq<DocumentView>, visited: Seq<Seq<char>>, lo: int, depth: nat)
    requires
        0 <= lo <= visited.len(),
    ensures
        levels(reg, visited, lo, depth).len() >= visited.len(),
        levels(reg, visited, lo, depth).subrange(0, visited.len() as int) == visited,
        visited.no_duplicates() ==> levels(reg, visited, lo, depth).no_duplicates(),
    decreases depth,
{
    if depth > 0 {
        let next = expand(reg, visited, lo, visited.len() as int);
        lemma_expand(reg, visited, lo, visited.len() as int);
        lemma_levels(reg, next, visited.len() as int, (depth - 1) as nat);
        let r = levels(reg, visited, lo, depth);
        assert(r.subrange(0, visited.len() as int) =~= r.subrange(0, next.len() as int).subrange(0, visited.len() as int));
    }
}

fn contains_string(v: &Vec<String>, s: &String) -> (r: bool)
    ensures
        r == strs(v@).contains(s@),
{
    let mut i: usize = 0;
    while i < v.len()
        invariant
            0 <= i <= v@.len(),
            forall|k: int| 0 <= k < i ==> v@[k]@ != s@,
        decreases v@.len() - i,
    {
        if v[i] == *s {
            assert(strs(v@)[i as int] == s@);
            return true;
        }
        i = i + 1;
    }
    proof {
        if strs(v@).contains(s@) {
            let k = choose|k: int| 0 <= k < strs(v@).len() && strs(v@)[k] == s@;
            assert(v@[k]@ == s@);
        }
    }
    false
}

/// The registered URI that an include literal names: the first URI in the
/// registry that holds the literal, quotes taken out.
pub fn resolve_include(reg: &Registry, literal: &str) -> (r: Option<String>)
    ensures
        match resolve_literal(reg@, literal@) {
            Some(u) => r matches Some(x) && x@ == u,
            None => r is None,
        },
{
    let needle = remove_char(literal, '"');
    let mut i: usize = 0;
    while i < reg.len()
        invariant
            0 <= i <= reg@.len(),
            needle@ == strip_quotes(literal@),
            first_containing(reg@, needle@, i as int) is None,
        decreases reg@.len() - i,
    {
        let d = reg.document_at(i);
        if text_contains(d.uri.as_str(), needle.as_str()) {
            proof {
                lemma_first_containing_stays(reg@, needle@, i as int + 1, reg@.len() as int);
            }
            return Some(d.uri.clone());
        }
        i = i + 1;
    }
    None
}

proof fn lemma_first_containing_stays(reg: Seq<DocumentView>, literal: Seq<char>, m: int, n: int)
    requires
        1 <= m <= n,
        first_containing(reg, literal, m) is Some,
    ensures
        first_containing(reg, literal, n) == first_containing(reg, literal, m),
    decreases n - m,
{
    if n > m {
        lemma_first_containing_stays(reg, literal, m, n - 1);
    }
}

/// The registered documents that the document at index `i` includes, each once.
pub fn includes_at(reg: &Registry, i: usize) -> (r: Vec<String>)
    requires
        i < reg@.len(),
    ensures
        strs(r@) == includes_of(reg@, reg@[i as int]),
{
    let caps = reg.captures_at(i, QueryKind::IncludeLiteral);
    let ghost cv = captures_view(caps@);
    let mut out: Vec<String> = Vec::new();
    let mut j: usize = 0;
    while j < caps.len()
        invariant
            0 <= j <= caps@.len(),
            cv == captures_view(caps@),
            cv == doc_captures(reg@[i as int], QueryKind::IncludeLiteral),
            strs(out@) == include_targets(reg@, cv.take(j as int)),
        decreases caps@.len() - j,
    {
        assert(cv.take(j as int + 1).drop_last() =~= cv.take(j as int));
        let target = resolve_include(reg, caps[j].text.as_str());
        match target {
            Some(u) => {
                if !contains_string(&out, &u) {
                    out.push(u);
                    assert(strs(out@) =~= include_targets(reg@, cv.take(j as int)).push(u@));
                }
            },
            None => {},
        }
        j = j + 1;
    }
    assert(cv.take(caps@.len() as int) =~= cv);
    out
}

/// The registered documents that the document under `uri` includes
/// directly, each once; nothing when `uri` is not registered.
pub fn get_inc_files(reg: &Registry, uri: &str) -> (r: Vec<String>)
    ensures
        strs(r@) == targets_of(reg@, uri@),
{
    proof {
        lemma_position_in(reg@, uri@, reg@.len() as int);
    }
    match reg.find(uri) {
        Some(i) => includes_at(reg, i),
        None => {
            let v: Vec<String> = Vec::new();
            assert(strs(v@) =~= Seq::<Seq<char>>::empty());
            v
        },
    }
}

fn add_targets(visited: &mut Vec<String>, incs: Vec<String>)
    ensures
        strs(final(visited)@) == add_new(strs(old(visited)@), strs(incs@)),
{
    let ghost v0 = strs(visited@);
    let mut j: usize = 0;
    while j < incs.len()
        invariant
            0 <= j <= incs@.len(),
            strs(visited@) == add_new(v0, strs(incs@).take(j as int)),
        decreases incs@.len() - j,
    {
        assert(strs(incs@).take(j as int + 1).drop_last() =~= strs(incs@).take(j as int));
        assert(strs(incs@).take(j as int + 1).last() == incs@[j as int]@);
        let u = &incs[j];
        if !contains_string(visited, u) {
            visited.push(u.clone());
            assert(strs(visited@) =~= add_new(v0, strs(incs@).take(j as int)).push(u@));
        }
        j = j + 1;
    }
    assert(strs(incs@).take(incs@.len() as int) =~= strs(incs@));
}

fn expand_level(reg: &Registry, visited: &mut Vec<String>, lo: usize)
    requires
        lo <= old(visited)@.len(),
    ensures
        strs(final(visited)@) == expand(reg@, strs(old(visited)@), lo as int, old(visited)@.len() as int),
{
    let ghost v0 = strs(visited@);
    let hi = visited.len();
    let mut k: usize = lo;
    while k < hi
        invariant
            lo <= k <= hi,
            hi == v0.len(),
            strs(visited@) == expand(reg@, v0, lo as int, k as int),
        decreases hi - k,
    {
        proof {
            lemma_expand(reg@, v0, lo as int, k as int);
            assert(strs(visited@)[k as int] == v0[k as int]);
        }
        let u = visited[k].clone();
        let incs = get_inc_files(reg, u.as_str());
        add_targets(visited, incs);
        k = k + 1;
    }
}

/// A document followed by every registered document that it reaches
/// through at most `max_depth` levels of includes, breadth first, each once.
pub fn search_scope(reg: &Registry, uri: &str, max_depth: usize) -> (r: Vec<String>)
    ensures
        strs(r@) == scope_of(reg@, uri@, max_depth as nat),
        strs(r@).no_duplicates(),
        strs(r@).len() >= 1,
        strs(r@)[0] == uri@,
{
    let mut visited: Vec<String> = Vec::new();
    visited.push(uri.to_owned());
    assert(strs(visited@) =~= seq![uri@]);
    let mut lo: usize = 0;
    let mut depth: usize = 0;
    while depth < max_depth
        invariant
            depth <= max_depth,
            lo <= visited@.len(),
            levels(reg@, strs(visited@), lo as int, (max_depth - depth) as nat)
                == scope_of(reg@, uri@, max_depth as nat),
        decreases max_depth - depth,
    {
        let hi = visited.len();
        let ghost before = strs(visited@);
        expand_level(reg, &mut visited, lo);
        proof {
            lemma_expand(reg@, before, lo as int, hi as int);
        }
        lo = hi;
        depth = depth + 1;
    }
    proof {
        let one = seq![uri@];
        lemma_levels(reg@, one, 0, max_depth as nat);
        assert(one.no_duplicates());
        let sc = scope_of(reg@, uri@, max_depth as nat);
        assert(sc.subrange(0, 1)[0] == sc[0]);
    }
    visited
}

/// Every registered document that the document under `uri` reaches through
/// at most `max_depth` levels of includes, in discovery order: each once,
/// and never `uri` itself, even where the includes form a cycle.
pub fn transitive_includes(reg: &Registry, uri: &str, max_depth: usize) -> (r: Vec<String>)
    ensures
        strs(r@) == closure_of(reg@, uri@, max_depth as nat),
        strs(r@).no_duplicates(),
        !strs(r@).contains(uri@),
{
    let mut scope = search_scope(reg, uri, max_depth);
    let _first = scope.remove(0);
    proof {
        let sc = scope_of(reg@, uri@, max_depth as nat);
        assert(strs(scope@) =~= sc.drop_first());
        if strs(scope@).contains(uri@) {
            let k = choose|k: int| 0 <= k < strs(scope@).len() && strs(scope@)[k] == uri@;
            assert(sc[k + 1] == sc[0]);
        }
    }
    scope
}

} // verus!
