//! Outlines: the variables and procedures declared in a document and in
//! what it includes.

use vstd::prelude::*;
use crate::includes::{add_new, expand, lemma_add_new, lemma_levels, levels, scope_of, search_scope, strs, targets_of};
use crate::registry::{doc_captures, lookup, lemma_position_in, DocumentView, Registry};
use crate::resolve::INCLUDE_DEPTH;
use crate::syntax::{captures_view, Capture, CaptureView, QueryKind, Range};

verus! {

/// What a symbol declares.
#[derive(Clone, Copy, Debug, PartialEq, Eq, Structural)]
pub enum SymbolKind {
    Variable,
    Procedure,
}

/// A declared name, where it is declared and what it declares.
#[derive(Debug)]
pub struct Symbol {
    pub name: String,
    pub kind: SymbolKind,
    pub uri: String,
    pub range: Range,
}

pub struct SymbolView {
    pub name: Seq<char>,
    pub kind: SymbolKind,
    pub uri: Seq<char>,
    pub range: Range,
}

impl View for Symbol {
    type V = SymbolView;

    open spec fn view(&self) -> SymbolView {
        SymbolView { name: self.name@, kind: self.kind, uri: self.uri@, range: self.range }
    }
}

pub open spec fn syms(v: Seq<Symbol>) -> Seq<SymbolView> {
    v.map_values(|s: Symbol| s@)
}

/// The span a symbol covers: the whole declaration that encloses the
/// captured name, or the name itself where nothing encloses it.
pub open spec fn declaration_range(c: CaptureView) -> Range {
    match c.enclosing {
        Some(r) => r,
        None => c.range,
    }
}

/// Each capture as a symbol of the given kind declared in `uri`.
pub open spec fn tagged(uri: Seq<char>, caps: Seq<CaptureView>, kind: SymbolKind) -> Seq<SymbolView> {
    caps.map_values(|c: CaptureView| SymbolView { name: c.text, kind, uri, range: declaration_range(c) })
}

/// The symbols of one document: its variables, then its procedures, each
/// in the order of declaration.
pub open spec fn symbols_in(d: DocumentView) -> Seq<SymbolView> {
    tagged(d.uri, doc_captures(d, QueryKind::VariableDeclaration), SymbolKind::Variable)
        + tagged(d.uri, doc_captures(d, QueryKind::ProcedureDefinition), SymbolKind::Procedure)
}

/// The symbols of the document under `uri`; none when it is not registered.
pub open spec fn symbols_at(reg: Seq<DocumentView>, uri: Seq<char>) -> Seq<SymbolView> {
    match lookup(reg, uri) {
        Some(d) => symbols_in(d),
        None => Seq::empty(),
    }
}

/// The symbols of each document of `uris`, in that order.
pub open spec fn symbols_over(reg: Seq<DocumentView>, uris: Seq<Seq<char>>) -> Seq<SymbolView>
    decreases uris.len(),
{
    if uris.len() == 0 {
        Seq::empty()
    } else {
        symbols_over(reg, uris.drop_last()) + symbols_at(reg, uris.last())
    }
}

/// The outline of the document under `uri`: its own symbols, then those of
/// each document it reaches through at most three levels of includes.
pub open spec fn outline(reg: Seq<DocumentView>, uri: Seq<char>) -> Seq<SymbolView> {
    symbols_over(reg, scope_of(reg, uri, INCLUDE_DEPTH as nat))
}

fn push_tagged(out: &mut Vec<Symbol>, uri: &String, caps: &Vec<Capture>, kind: SymbolKind)
    ensures
        syms(final(out)@) == syms(old(out)@) + tagged(uri@, captures_view(caps@), kind),
{
    let ghost start = syms(out@);
    let ghost cv = captures_view(caps@);
    let mut j: usize = 0;
    while j < caps.len()
        invariant
            0 <= j <= caps@.len(),
            cv == captures_view(caps@),
            syms(out@) == start + tagged(uri@, cv.take(j as int), kind),
        decreases caps@.len() - j,
    {
        let c = &caps[j];
        let ghost before = out@;
        let range = match c.enclosing {
            Some(r) => r,
            None => c.range,
        };
        let sym = Symbol { name: c.text.clone(), kind, uri: uri.clone(), range };
        out.push(sym);
        assert(syms(out@) =~= syms(before).push(sym@));
        assert(tagged(uri@, cv.take(j as int + 1), kind) =~= tagged(uri@, cv.take(j as int), kind).push(
            SymbolView { name: c.text@, kind, uri: uri@, range: declaration_range(c@) },
        ));
        assert(syms(out@) =~= start + tagged(uri@, cv.take(j as int + 1), kind));
        j = j + 1;
    }
    assert(cv.take(caps@.len() as int) =~= cv);
}

fn symbols_of_index(reg: &Registry, i: usize, out: &mut Vec<Symbol>)
    requires
        i < reg@.len(),
    ensures
        syms(final(out)@) == syms(old(out)@) + symbols_in(reg@[i as int]),
{
    let uri = &reg.document_at(i).uri;
    let vars = reg.captures_at(i, QueryKind::VariableDeclaration);
    let procs = reg.captures_at(i, QueryKind::ProcedureDefinition);
    let ghost start = syms(out@);
    push_tagged(out, uri, &vars, SymbolKind::Variable);
    push_tagged(out, uri, &procs, SymbolKind::Procedure);
    let ghost d = reg@[i as int];
    assert(syms(out@) =~= start + symbols_in(d));
}

/// The symbols declared in the document under `uri`: its variables, then its
/// procedures; none when it is not registered or has no tree.
pub fn get_document_symbols(reg: &Registry, uri: &str) -> (r: Vec<Symbol>)
    ensures
        syms(r@) == symbols_at(reg@, uri@),
{
    proof {
        lemma_position_in(reg@, uri@, reg@.len() as int);
    }
    let mut out: Vec<Symbol> = Vec::new();
    assert(syms(out@) =~= Seq::<SymbolView>::empty());
    match reg.find(uri) {
        Some(i) => {
            symbols_of_index(reg, i, &mut out);
            assert(syms(out@) =~= symbols_in(reg@[i as int]));
        },
        None => {},
    }
    out
}

/// The outline of the document under `uri`: the symbols of the document and
/// of what it includes, files in the order the includes were discovered;
/// `None` when `uri` is not registered.
pub fn handle_document_symbol(reg: &Registry, uri: &str) -> (r: Option<Vec<Symbol>>)
    ensures
        match lookup(reg@, uri@) {
            Some(_) => r matches Some(v) && syms(v@) == outline(reg@, uri@),
            None => r is None,
        },
{
    proof {
        lemma_position_in(reg@, uri@, reg@.len() as int);
    }
    if reg.find(uri).is_none() {
        return None;
    }
    let files = search_scope(reg, uri, INCLUDE_DEPTH);
    let mut out: Vec<Symbol> = Vec::new();
    let mut k: usize = 0;
    while k < files.len()
        invariant
            0 <= k <= files@.len(),
            syms(out@) == symbols_over(reg@, strs(files@).take(k as int)),
        decreases files@.len() - k,
    {
        assert(strs(files@).take(k as int + 1).drop_last() =~= strs(files@).take(k as int));
        assert(strs(files@).take(k as int + 1).last() == files@[k as int]@);
        let ghost before = syms(out@);
        let more = get_document_symbols(reg, files[k].as_str());
        let mut more = more;
        let ghost added = syms(more@);
        out.append(&mut more);
        assert(syms(out@) =~= before + added);
        k = k + 1;
    }
    assert(strs(files@).take(files@.len() as int) =~= strs(files@));
    Some(out)
}

proof fn lemma_symbols_over_covers(reg: Seq<DocumentView>, uris: Seq<Seq<char>>, j: int)
    requires
        0 <= j < uris.len(),
    ensures
        forall|x: SymbolView| symbols_at(reg, uris[j]).contains(x) ==> #[trigger] symbols_over(reg, uris).contains(x),
    decreases uris.len(),
{
    let prefix = uris.drop_last();
    let a = symbols_over(reg, prefix);
    let b = symbols_at(reg, uris.last());
    let all = symbols_over(reg, uris);
    assert(all == a + b);
    if j < uris.len() - 1 {
        lemma_symbols_over_covers(reg, prefix, j);
        assert(prefix[j] == uris[j]);
        assert forall|x: SymbolView| symbols_at(reg, uris[j]).contains(x) implies #[trigger] all.contains(x) by {
            assert(a.contains(x));
            let k = choose|k: int| 0 <= k < a.len() && a[k] == x;
            assert(all[k] == x);
        }
    } else {
        assert forall|x: SymbolView| symbols_at(reg, uris[j]).contains(x) implies #[trigger] all.contains(x) by {
            let k = choose|k: int| 0 <= k < b.len() && b[k] == x;
            assert(all[a.len() + k] == x);
        }
    }
}

/// A document and each document it includes directly stand in its scope,
/// each exactly once.
pub proof fn lemma_scope_holds_direct_includes(reg: Seq<DocumentView>, uri: Seq<char>)
    ensures
        scope_of(reg, uri, INCLUDE_DEPTH as nat).no_duplicates(),
        scope_of(reg, uri, INCLUDE_DEPTH as nat).contains(uri),
        forall|u: Seq<char>| targets_of(reg, uri).contains(u) ==> #[trigger] scope_of(reg, uri, INCLUDE_DEPTH as nat).contains(u),
{
    let one = seq![uri];
    let scope = scope_of(reg, uri, INCLUDE_DEPTH as nat);
    assert(one.no_duplicates());
    lemma_levels(reg, one, 0, INCLUDE_DEPTH as nat);
    assert(scope.subrange(0, 1)[0] == scope[0]);
    let first = expand(reg, one, 0, 1);
    assert(expand(reg, one, 0, 0) == one);
    assert(first == add_new(one, targets_of(reg, uri)));
    lemma_add_new(one, targets_of(reg, uri));
    assert(scope == levels(reg, first, 1, (INCLUDE_DEPTH - 1) as nat));
    lemma_levels(reg, first, 1, (INCLUDE_DEPTH - 1) as nat);
    assert forall|u: Seq<char>| targets_of(reg, uri).contains(u) implies #[trigger] scope.contains(u) by {
        assert(first.contains(u));
        let k = choose|k: int| 0 <= k < first.len() && first[k] == u;
        assert(scope.subrange(0, first.len() as int)[k] == u);
    }
}

/// An outline is complete and repeats nothing: every variable and procedure
/// declared in a document, or in a document it includes directly, is in the
/// document's outline, as many times as its own file declares it.
pub proof fn lemma_outline_complete(reg: Seq<DocumentView>, uri: Seq<char>, from: Seq<char>, x: SymbolView)
    requires
        from == uri || targets_of(reg, uri).contains(from),
        symbols_at(reg, from).contains(x),
    ensures
        outline(reg, uri).contains(x),
        occurrences(outline(reg, uri), x) == occurrences(symbols_at(reg, from), x),
{
    let scope = scope_of(reg, uri, INCLUDE_DEPTH as nat);
    lemma_scope_holds_direct_includes(reg, uri);
    assert(scope.contains(from));
    let j = choose|j: int| 0 <= j < scope.len() && scope[j] == from;
    lemma_symbols_over_covers(reg, scope, j);
    lemma_symbols_at_uri(reg, from);
    let k = choose|k: int| 0 <= k < symbols_at(reg, from).len() && symbols_at(reg, from)[k] == x;
    assert(x.uri == from);
    lemma_symbols_over_count(reg, scope, x);
}

/// How many times `x` stands in `s`.
pub open spec fn occurrences(s: Seq<SymbolView>, x: SymbolView) -> nat
    decreases s.len(),
{
    if s.len() == 0 {
        0
    } else {
        occurrences(s.drop_last(), x) + if s.last() == x {
            1nat
        } else {
            0nat
        }
    }
}

proof fn lemma_occurrences_add(a: Seq<SymbolView>, b: Seq<SymbolView>, x: SymbolView)
    ensures
        occurrences(a + b, x) == occurrences(a, x) + occurrences(b, x),
    decreases b.len(),
{
    if b.len() > 0 {
        assert((a + b).drop_last() =~= a + b.drop_last());
        lemma_occurrences_add(a, b.drop_last(), x);
    } else {
        assert(a + b =~= a);
    }
}

proof fn lemma_occurrences_none(s: Seq<SymbolView>, x: SymbolView)
    requires
        forall|k: int| 0 <= k < s.len() ==> (#[trigger] s[k]).uri != x.uri,
    ensures
        occurrences(s, x) == 0,
    decreases s.len(),
{
    if s.len() > 0 {
        lemma_occurrences_none(s.drop_last(), x);
        assert(s.last() == s[s.len() - 1]);
    }
}

proof fn lemma_symbols_at_uri(reg: Seq<DocumentView>, u: Seq<char>)
    ensures
        forall|k: int| 0 <= k < symbols_at(reg, u).len() ==> (#[trigger] symbols_at(reg, u)[k]).uri == u,
{
    lemma_position_in(reg, u, reg.len() as int);
    match lookup(reg, u) {
        Some(d) => {
            let a = tagged(d.uri, doc_captures(d, QueryKind::VariableDeclaration), SymbolKind::Variable);
            let b = tagged(d.uri, doc_captures(d, QueryKind::ProcedureDefinition), SymbolKind::Procedure);
            assert forall|k: int| 0 <= k < symbols_at(reg, u).len() implies (#[trigger] symbols_at(reg, u)[k]).uri == u by {
                if k < a.len() {
                    assert(symbols_at(reg, u)[k] == a[k]);
                } else {
                    assert(symbols_at(reg, u)[k] == b[k - a.len()]);
                }
            }
        },
        None => {},
    }
}

/// Drawn from documents that are each listed once, a symbol stands in the
/// listing as often as in its own document, or not at all.
proof fn lemma_symbols_over_count(reg: Seq<DocumentView>, uris: Seq<Seq<char>>, x: SymbolView)
    requires
        uris.no_duplicates(),
    ensures
        occurrences(symbols_over(reg, uris), x) == if uris.contains(x.uri) {
            occurrences(symbols_at(reg, x.uri), x)
        } else {
            0
        },
    decreases uris.len(),
{
    if uris.len() > 0 {
        let prefix = uris.drop_last();
        assert(prefix.no_duplicates());
        lemma_symbols_over_count(reg, prefix, x);
        lemma_occurrences_add(symbols_over(reg, prefix), symbols_at(reg, uris.last()), x);
        lemma_symbols_at_uri(reg, uris.last());
        if uris.last() == x.uri {
            if prefix.contains(x.uri) {
                let j = choose|j: int| 0 <= j < prefix.len() && prefix[j] == x.uri;
                assert(uris[j] == uris[uris.len() - 1]);
            }
        } else {
            lemma_occurrences_none(symbols_at(reg, uris.last()), x);
            if uris.contains(x.uri) {
                let j = choose|j: int| 0 <= j < uris.len() && uris[j] == x.uri;
                assert(prefix[j] == x.uri);
            }
            if prefix.contains(x.uri) {
                let j = choose|j: int| 0 <= j < prefix.len() && prefix[j] == x.uri;
                assert(uris[j] == x.uri);
            }
        }
    } else {
        assert(!uris.contains(x.uri));
    }
}

} // verus!
