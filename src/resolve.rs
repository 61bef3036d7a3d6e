//! Goto-definition: from a point in a document to the declarations of the
//! name found there, local ones first, then those of the document's scope.

use vstd::prelude::*;
use crate::classify::{classify_at, role_at, FileRole};
use crate::includes::{scope_of, search_scope, strs};
use crate::registry::{doc_captures, lookup, lemma_position_in, DocumentView, Registry};
use crate::syntax::{node_at_point, parse_succeeds, CaptureView, NodeInfo, NodeView, Position, QueryKind, Range};

verus! {

/// How deep the include graph of a driver is followed.
pub const INCLUDE_DEPTH: usize = 3;

/// The field under which a procedure call holds the called name.
pub const CALLED_NAME_FIELD: &'static str = "procedure_name";

/// What a definition search looks for.
#[derive(Clone, Copy, Debug, PartialEq, Eq, Structural)]
pub enum QueryType {
    /// A variable, declared by a variable declaration.
    Identifier,
    /// A procedure, named by a procedure definition.
    ProcedureCall,
}

pub open spec fn kind_for(qt: QueryType) -> QueryKind {
    match qt {
        QueryType::Identifier => QueryKind::VariableDeclaration,
        QueryType::ProcedureCall => QueryKind::ProcedureDefinition,
    }
}

/// A place in a document.
#[derive(Debug)]
pub struct Location {
    pub uri: String,
    pub range: Range,
}

pub struct LocationView {
    pub uri: Seq<char>,
    pub range: Range,
}

impl View for Location {
    type V = LocationView;

    open spec fn view(&self) -> LocationView {
        LocationView { uri: self.uri@, range: self.range }
    }
}

pub open spec fn locs(v: Seq<Location>) -> Seq<LocationView> {
    v.map_values(|l: Location| l@)
}

/// The name to look for and the kind of declaration that declares it, as
/// read from the node at the point: an identifier stands for itself, a
/// procedure call for its called name; both under a procedure call ask for a
/// procedure, a lone identifier for a variable. Any other node asks nothing.
pub open spec fn target_of(n: NodeView) -> Option<(Seq<char>, QueryType)> {
    if n.kind == "identifier"@ {
        if n.parent_kind == Some("procedure_call"@) {
            Some((n.text, QueryType::ProcedureCall))
        } else {
            Some((n.text, QueryType::Identifier))
        }
    } else if n.kind == "procedure_call"@ {
        match n.field_text {
            Some(t) => Some((t, QueryType::ProcedureCall)),
            None => None,
        }
    } else {
        None
    }
}

/// The captures among `caps` whose text is exactly `name`, as locations in `uri`.
pub open spec fn matching(uri: Seq<char>, caps: Seq<CaptureView>, name: Seq<char>) -> Seq<LocationView>
    decreases caps.len(),
{
    if caps.len() == 0 {
        Seq::empty()
    } else {
        let prev = matching(uri, caps.drop_last(), name);
        if caps.last().text == name {
            prev.push(LocationView { uri, range: caps.last().range })
        } else {
            prev
        }
    }
}

/// The declarations of `name` of the given sort in one document.
pub open spec fn declarations_in(d: DocumentView, qt: QueryType, name: Seq<char>) -> Seq<LocationView> {
    matching(d.uri, doc_captures(d, kind_for(qt)), name)
}

/// The declarations of `name` in the document under `uri`; none when it is
/// not registered.
pub open spec fn declarations_at(reg: Seq<DocumentView>, uri: Seq<char>, qt: QueryType, name: Seq<char>) -> Seq<LocationView> {
    match lookup(reg, uri) {
        Some(d) => declarations_in(d, qt, name),
        None => Seq::empty(),
    }
}

/// The declarations of `name` in each document of `uris`, in that order.
pub open spec fn search_all(reg: Seq<DocumentView>, uris: Seq<Seq<char>>, qt: QueryType, name: Seq<char>) -> Seq<LocationView>
    decreases uris.len(),
{
    if uris.len() == 0 {
        Seq::empty()
    } else {
        search_all(reg, uris.drop_last(), qt, name) + declarations_at(reg, uris.last(), qt, name)
    }
}

pub open spec fn all_uris(reg: Seq<DocumentView>) -> Seq<Seq<char>> {
    reg.map_values(|d: DocumentView| d.uri)
}

/// Where a name is looked for beyond the document itself: a driver sees
/// itself and what it includes, up to three levels deep; any other
/// document sees the whole workspace.
pub open spec fn resolution_scope(reg: Seq<DocumentView>, uri: Seq<char>) -> Seq<Seq<char>> {
    if role_at(reg, uri) == FileRole::Driver {
        scope_of(reg, uri, INCLUDE_DEPTH as nat)
    } else {
        all_uris(reg)
    }
}

/// The declarations that `name`, used in the document under `uri`, resolves
/// to: the document's own if it has any, else those of its scope.
pub open spec fn resolve_name(reg: Seq<DocumentView>, uri: Seq<char>, qt: QueryType, name: Seq<char>) -> Seq<LocationView> {
    let local = declarations_at(reg, uri, qt, name);
    if local.len() > 0 {
        local
    } else {
        search_all(reg, resolution_scope(reg, uri), qt, name)
    }
}

/// The declarations that the name at `pos` in the document under `uri`
/// resolves to; none where there is no tree or no name at that point.
pub open spec fn resolution(reg: Seq<DocumentView>, uri: Seq<char>, pos: Position) -> Seq<LocationView> {
    match lookup(reg, uri) {
        Some(d) => if parse_succeeds(d.text) {
            match node_at_point(d.text, pos.line as nat, pos.character as nat, CALLED_NAME_FIELD@) {
                Some(n) => match target_of(n) {
                    Some(t) => resolve_name(reg, uri, t.1, t.0),
                    None => Seq::empty(),
                },
                None => Seq::empty(),
            }
        } else {
            Seq::empty()
        },
        None => Seq::empty(),
    }
}

/// Reads the name and the sort of declaration to look for from the node at
/// the point.
pub fn definition_target(n: &NodeInfo) -> (r: Option<(String, QueryType)>)
    ensures
        match target_of(n@) {
            Some(t) => r matches Some(x) && x.0@ == t.0 && x.1 == t.1,
            None => r is None,
        },
{
    let identifier = "identifier".to_owned();
    let call = "procedure_call".to_owned();
    if n.kind == identifier {
        let under_call = match &n.parent_kind {
            Some(p) => *p == call,
            None => false,
        };
        if under_call {
            Some((n.text.clone(), QueryType::ProcedureCall))
        } else {
            Some((n.text.clone(), QueryType::Identifier))
        }
    } else if n.kind == call {
        match &n.field_text {
            Some(t) => Some((t.clone(), QueryType::ProcedureCall)),
            None => None,
        }
    } else {
        None
    }
}

/// The declarations of `name` of the given sort in the document at index `i`.
fn search_current_file(reg: &Registry, i: usize, qt: QueryType, name: &str) -> (r: Vec<Location>)
    requires
        i < reg@.len(),
    ensures
        locs(r@) == declarations_in(reg@[i as int], qt, name@),
{
    let kind = match qt {
        QueryType::Identifier => QueryKind::VariableDeclaration,
        QueryType::ProcedureCall => QueryKind::ProcedureDefinition,
    };
    let caps = reg.captures_at(i, kind);
    let uri = &reg.document_at(i).uri;
    let wanted = name.to_owned();
    let ghost cv = crate::syntax::captures_view(caps@);
    let mut out: Vec<Location> = Vec::new();
    let mut j: usize = 0;
    while j < caps.len()
        invariant
            0 <= j <= caps@.len(),
            cv == crate::syntax::captures_view(caps@),
            cv == doc_captures(reg@[i as int], kind_for(qt)),
            uri@ == reg@[i as int].uri,
            wanted@ == name@,
            locs(out@) == matching(uri@, cv.take(j as int), name@),
        decreases caps@.len() - j,
    {
        assert(cv.take(j as int + 1).drop_last() =~= cv.take(j as int));
        assert(cv.take(j as int + 1).last() == caps@[j as int]@);
        if caps[j].text == wanted {
            out.push(Location { uri: uri.clone(), range: caps[j].range });
            assert(locs(out@) =~= matching(uri@, cv.take(j as int), name@).push(
                LocationView { uri: uri@, range: caps@[j as int].range },
            ));
        }
        j = j + 1;
    }
    assert(cv.take(caps@.len() as int) =~= cv);
    out
}

/// The documents searched after the document itself, in order.
fn get_files_to_seach(reg: &Registry, i: usize) -> (r: Vec<String>)
    requires
        i < reg@.len(),
    ensures
        strs(r@) == resolution_scope(reg@, reg@[i as int].uri),
        strs(r@).no_duplicates(),
{
    let uri = reg.document_at(i).uri.as_str();
    proof {
        assert forall|k: int| 0 <= k < i implies reg@[k].uri != uri@ by {
            assert(reg@[k].uri != reg@[i as int].uri);
        }
        crate::registry::lemma_index_of(reg@, uri@, i as int);
    }
    let role = classify_at(reg, i);
    if role == FileRole::Driver {
        search_scope(reg, uri, INCLUDE_DEPTH)
    } else {
        let r = all_uri_list(reg);
        proof {
            let u = all_uris(reg@);
            assert forall|a: int, b: int| 0 <= a < u.len() && 0 <= b < u.len() && a != b implies u[a] != u[b] by {
                if a < b {
                    assert(reg@[a].uri != reg@[b].uri);
                } else {
                    assert(reg@[b].uri != reg@[a].uri);
                }
            }
        }
        r
    }
}

/// The declarations of `name` in each document of `uris`, in that order.
fn search_files(reg: &Registry, uris: &Vec<String>, qt: QueryType, name: &str) -> (r: Vec<Location>)
    ensures
        locs(r@) == search_all(reg@, strs(uris@), qt, name@),
{
    let mut out: Vec<Location> = Vec::new();
    let mut k: usize = 0;
    while k < uris.len()
        invariant
            0 <= k <= uris@.len(),
            locs(out@) == search_all(reg@, strs(uris@).take(k as int), qt, name@),
        decreases uris@.len() - k,
    {
        assert(strs(uris@).take(k as int + 1).drop_last() =~= strs(uris@).take(k as int));
        assert(strs(uris@).take(k as int + 1).last() == uris@[k as int]@);
        let found = reg.find(uris[k].as_str());
        proof {
            lemma_position_in(reg@, uris@[k as int]@, reg@.len() as int);
        }
        let mut more = match found {
            Some(i) => search_current_file(reg, i, qt, name),
            None => Vec::new(),
        };
        let ghost before = out@;
        let ghost added = more@;
        out.append(&mut more);
        assert(locs(out@) =~= locs(before) + locs(added));
        k = k + 1;
    }
    assert(strs(uris@).take(uris@.len() as int) =~= strs(uris@));
    out
}

/// The declarations that `name`, used in the document under `uri`, resolves
/// to: the document's own declarations when it has any, and only those;
/// otherwise those of every document of its scope.
pub fn find_declarations(reg: &Registry, uri: &str, qt: QueryType, name: &str) -> (r: Vec<Location>)
    ensures
        locs(r@) == resolve_name(reg@, uri@, qt, name@),
{
    proof {
        lemma_position_in(reg@, uri@, reg@.len() as int);
    }
    match reg.find(uri) {
        Some(i) => {
            let local = search_current_file(reg, i, qt, name);
            if local.len() > 0 {
                return local;
            }
            let files = get_files_to_seach(reg, i);
            search_files(reg, &files, qt, name)
        },
        None => {
            let files = all_uri_list(reg);
            search_files(reg, &files, qt, name)
        },
    }
}

fn all_uri_list(reg: &Registry) -> (r: Vec<String>)
    ensures
        strs(r@) == all_uris(reg@),
{
    let mut out: Vec<String> = Vec::new();
    let mut k: usize = 0;
    while k < reg.len()
        invariant
            0 <= k <= reg@.len(),
            out@.len() == k,
            strs(out@) == all_uris(reg@).take(k as int),
        decreases reg@.len() - k,
    {
        let d = reg.document_at(k);
        let u = d.uri.clone();
        let ghost before = out@;
        out.push(u);
        proof {
            assert(d@ == reg@[k as int]);
            assert(all_uris(reg@)[k as int] == reg@[k as int].uri);
            assert(out@[k as int]@ == reg@[k as int].uri);
            assert forall|m: int| 0 <= m < k implies out@[m] == before[m] by {}
            assert(strs(out@) =~= all_uris(reg@).take(k as int + 1));
        }
        k = k + 1;
    }
    assert(all_uris(reg@).take(reg@.len() as int) =~= all_uris(reg@));
    out
}

/// Answers goto-definition: the declarations that the name at `pos` in the
/// document under `uri` resolves to.
pub fn handle_definition(reg: &Registry, uri: &str, pos: Position) -> (r: Vec<Location>)
    ensures
        locs(r@) == resolution(reg@, uri@, pos),
{
    proof {
        lemma_position_in(reg@, uri@, reg@.len() as int);
    }
    let empty: Vec<Location> = Vec::new();
    assert(locs(empty@) =~= Seq::<LocationView>::empty());
    let i = match reg.find(uri) {
        Some(i) => i,
        None => return empty,
    };
    let tree = match reg.tree_at(i) {
        Some(t) => t,
        None => return empty,
    };
    let node = match tree.node_at(pos, CALLED_NAME_FIELD) {
        Some(n) => n,
        None => return empty,
    };
    match definition_target(&node) {
        Some((name, qt)) => find_declarations(reg, uri, qt, name.as_str()),
        None => empty,
    }
}

proof fn lemma_matching_uri(uri: Seq<char>, caps: Seq<CaptureView>, name: Seq<char>)
    ensures
        forall|k: int| 0 <= k < matching(uri, caps, name).len() ==> (#[trigger] matching(uri, caps, name)[k]).uri == uri,
    decreases caps.len(),
{
    if caps.len() > 0 {
        lemma_matching_uri(uri, caps.drop_last(), name);
        let prev = matching(uri, caps.drop_last(), name);
        let all = matching(uri, caps, name);
        assert forall|k: int| 0 <= k < all.len() implies (#[trigger] all[k]).uri == uri by {
            if k < prev.len() {
                assert(all[k] == prev[k]);
            }
        }
    }
}

proof fn lemma_declarations_at_uri(reg: Seq<DocumentView>, uri: Seq<char>, qt: QueryType, name: Seq<char>)
    ensures
        forall|k: int| 0 <= k < declarations_at(reg, uri, qt, name).len()
            ==> (#[trigger] declarations_at(reg, uri, qt, name)[k]).uri == uri,
{
    lemma_position_in(reg, uri, reg.len() as int);
    match lookup(reg, uri) {
        Some(d) => lemma_matching_uri(d.uri, doc_captures(d, kind_for(qt)), name),
        None => {},
    }
}

proof fn lemma_search_all_within(reg: Seq<DocumentView>, uris: Seq<Seq<char>>, qt: QueryType, name: Seq<char>)
    ensures
        forall|k: int| 0 <= k < search_all(reg, uris, qt, name).len()
            ==> uris.contains((#[trigger] search_all(reg, uris, qt, name)[k]).uri),
    decreases uris.len(),
{
    if uris.len() > 0 {
        let prefix = uris.drop_last();
        lemma_search_all_within(reg, prefix, qt, name);
        lemma_declarations_at_uri(reg, uris.last(), qt, name);
        let a = search_all(reg, prefix, qt, name);
        let b = declarations_at(reg, uris.last(), qt, name);
        assert forall|k: int| 0 <= k < search_all(reg, uris, qt, name).len()
            implies uris.contains((#[trigger] search_all(reg, uris, qt, name)[k]).uri) by {
            if k < a.len() {
                let j = choose|j: int| 0 <= j < prefix.len() && prefix[j] == a[k].uri;
                assert(uris[j] == prefix[j]);
            } else {
                assert(search_all(reg, uris, qt, name)[k] == b[k - a.len()]);
                assert(uris[uris.len() - 1] == uris.last());
            }
        }
    }
}

proof fn lemma_search_all_covers(reg: Seq<DocumentView>, uris: Seq<Seq<char>>, qt: QueryType, name: Seq<char>, j: int)
    requires
        0 <= j < uris.len(),
    ensures
        forall|x: LocationView| declarations_at(reg, uris[j], qt, name).contains(x)
            ==> #[trigger] search_all(reg, uris, qt, name).contains(x),
    decreases uris.len(),
{
    let prefix = uris.drop_last();
    let a = search_all(reg, prefix, qt, name);
    let b = declarations_at(reg, uris.last(), qt, name);
    let all = search_all(reg, uris, qt, name);
    assert(all == a + b);
    if j < uris.len() - 1 {
        lemma_search_all_covers(reg, prefix, qt, name, j);
        assert(prefix[j] == uris[j]);
        assert forall|x: LocationView| declarations_at(reg, uris[j], qt, name).contains(x) implies #[trigger] all.contains(x) by {
            assert(a.contains(x));
            let k = choose|k: int| 0 <= k < a.len() && a[k] == x;
            assert(all[k] == x);
        }
    } else {
        assert forall|x: LocationView| declarations_at(reg, uris[j], qt, name).contains(x) implies #[trigger] all.contains(x) by {
            let k = choose|k: int| 0 <= k < b.len() && b[k] == x;
            assert(all[a.len() + k] == x);
        }
    }
}

/// A document's own declarations shadow every other: where the document
/// under `uri` declares `name`, resolving `name` there gives exactly those
/// declarations, all of them in that document.
pub proof fn lemma_local_declarations_shadow(reg: Seq<DocumentView>, uri: Seq<char>, qt: QueryType, name: Seq<char>)
    requires
        declarations_at(reg, uri, qt, name).len() > 0,
    ensures
        resolve_name(reg, uri, qt, name) == declarations_at(reg, uri, qt, name),
        forall|k: int| 0 <= k < resolve_name(reg, uri, qt, name).len()
            ==> (#[trigger] resolve_name(reg, uri, qt, name)[k]).uri == uri,
{
    lemma_declarations_at_uri(reg, uri, qt, name);
}

/// A driver sees only what it includes: every declaration that a name used
/// in a driver resolves to stands in the driver itself or in a document
/// that the driver reaches through at most three levels of includes, so a
/// declaration in an unrelated document is never among them.
pub proof fn lemma_driver_scope(reg: Seq<DocumentView>, uri: Seq<char>, qt: QueryType, name: Seq<char>)
    requires
        role_at(reg, uri) == FileRole::Driver,
    ensures
        forall|k: int| 0 <= k < resolve_name(reg, uri, qt, name).len()
            ==> scope_of(reg, uri, INCLUDE_DEPTH as nat).contains((#[trigger] resolve_name(reg, uri, qt, name)[k]).uri),
{
    let scope = scope_of(reg, uri, INCLUDE_DEPTH as nat);
    crate::includes::lemma_levels(reg, seq![uri], 0, INCLUDE_DEPTH as nat);
    assert(scope.subrange(0, 1)[0] == scope[0]);
    assert(scope[0] == uri);
    lemma_declarations_at_uri(reg, uri, qt, name);
    lemma_search_all_within(reg, scope, qt, name);
}

/// Outside drivers, a name that the document does not declare resolves
/// across the whole workspace: every declaration of it in any registered
/// document, included or not, is among the results.
pub proof fn lemma_workspace_fallback(reg: Seq<DocumentView>, uri: Seq<char>, qt: QueryType, name: Seq<char>, m: int)
    requires
        crate::registry::distinct_uris(reg),
        role_at(reg, uri) != FileRole::Driver,
        declarations_at(reg, uri, qt, name).len() == 0,
        0 <= m < reg.len(),
    ensures
        forall|x: LocationView| declarations_in(reg[m], qt, name).contains(x)
            ==> #[trigger] resolve_name(reg, uri, qt, name).contains(x),
{
    let uris = all_uris(reg);
    assert(uris[m] == reg[m].uri);
    assert forall|k: int| 0 <= k < m implies reg[k].uri != reg[m].uri by {}
    crate::registry::lemma_index_of(reg, reg[m].uri, m);
    assert(declarations_at(reg, uris[m], qt, name) == declarations_in(reg[m], qt, name));
    lemma_search_all_covers(reg, uris, qt, name, m);
}

proof fn lemma_search_all_empty(reg: Seq<DocumentView>, uris: Seq<Seq<char>>, qt: QueryType, name: Seq<char>)
    requires
        forall|j: int| 0 <= j < uris.len() ==> declarations_at(reg, #[trigger] uris[j], qt, name).len() == 0,
    ensures
        search_all(reg, uris, qt, name).len() == 0,
    decreases uris.len(),
{
    if uris.len() > 0 {
        let prefix = uris.drop_last();
        assert forall|j: int| 0 <= j < prefix.len() implies declarations_at(reg, #[trigger] prefix[j], qt, name).len() == 0 by {
            assert(prefix[j] == uris[j]);
        }
        lemma_search_all_empty(reg, prefix, qt, name);
        assert(uris.last() == uris[uris.len() - 1]);
    }
}

proof fn lemma_search_all_single(reg: Seq<DocumentView>, uris: Seq<Seq<char>>, qt: QueryType, name: Seq<char>, e: Seq<char>)
    requires
        uris.no_duplicates(),
        uris.contains(e),
        forall|j: int| 0 <= j < uris.len() && uris[j] != e ==> declarations_at(reg, #[trigger] uris[j], qt, name).len() == 0,
    ensures
        search_all(reg, uris, qt, name) == declarations_at(reg, e, qt, name),
    decreases uris.len(),
{
    let prefix = uris.drop_last();
    let last = uris[uris.len() - 1];
    assert(uris.last() == last);
    assert(prefix.no_duplicates());
    if last == e {
        assert forall|j: int| 0 <= j < prefix.len() implies declarations_at(reg, #[trigger] prefix[j], qt, name).len() == 0 by {
            assert(prefix[j] == uris[j]);
            assert(uris[j] != uris[uris.len() - 1]);
        }
        lemma_search_all_empty(reg, prefix, qt, name);
        assert(search_all(reg, prefix, qt, name) =~= Seq::<LocationView>::empty());
        assert(search_all(reg, uris, qt, name) =~= declarations_at(reg, e, qt, name));
    } else {
        let k = choose|k: int| 0 <= k < uris.len() && uris[k] == e;
        assert(k < uris.len() - 1);
        assert(prefix[k] == e);
        assert forall|j: int| 0 <= j < prefix.len() && prefix[j] != e implies declarations_at(reg, #[trigger] prefix[j], qt, name).len() == 0 by {
            assert(prefix[j] == uris[j]);
        }
        lemma_search_all_single(reg, prefix, qt, name, e);
        assert(declarations_at(reg, last, qt, name).len() == 0);
        assert(search_all(reg, uris, qt, name) =~= search_all(reg, prefix, qt, name));
    }
}

/// A name that a driver does not declare itself, and that only one file of
/// its scope declares, such as a file the driver includes, resolves to
/// exactly the declarations in that file: one location for one declaration.
pub proof fn lemma_driver_single_declaration(reg: Seq<DocumentView>, uri: Seq<char>, qt: QueryType, name: Seq<char>, e: Seq<char>)
    requires
        role_at(reg, uri) == FileRole::Driver,
        declarations_at(reg, uri, qt, name).len() == 0,
        crate::includes::targets_of(reg, uri).contains(e),
        forall|u: Seq<char>| #[trigger] scope_of(reg, uri, INCLUDE_DEPTH as nat).contains(u) && u != e
            ==> declarations_at(reg, u, qt, name).len() == 0,
    ensures
        resolve_name(reg, uri, qt, name) == declarations_at(reg, e, qt, name),
{
    let scope = scope_of(reg, uri, INCLUDE_DEPTH as nat);
    crate::symbols::lemma_scope_holds_direct_includes(reg, uri);
    assert forall|j: int| 0 <= j < scope.len() && scope[j] != e implies declarations_at(reg, #[trigger] scope[j], qt, name).len() == 0 by {
        assert(scope.contains(scope[j]));
    }
    lemma_search_all_single(reg, scope, qt, name, e);
}

} // verus!
