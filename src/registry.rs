//! The document/tree registry: for each URI the current document and the
//! syntax tree parsed from its text, replaced together on every update.

use vstd::prelude::*;
use crate::syntax::{captures, captures_view, parse_succeeds, Capture, CaptureView, QueryKind, SyntaxTree};

verus! {

/// A source document as the editor last sent it.
#[derive(Debug)]
pub struct Document {
    pub uri: String,
    pub language_id: String,
    pub version: i32,
    pub text: String,
}

pub struct DocumentView {
    pub uri: Seq<char>,
    pub language_id: Seq<char>,
    pub version: i32,
    pub text: Seq<char>,
}

impl View for Document {
    type V = DocumentView;

    open spec fn view(&self) -> DocumentView {
        DocumentView {
            uri: self.uri@,
            language_id: self.language_id@,
            version: self.version,
            text: self.text@,
        }
    }
}

impl Document {
    /// A copy of the document.
    pub fn copy(&self) -> (r: Document)
        ensures
            r@ == self@,
    {
        Document {
            uri: self.uri.clone(),
            language_id: self.language_id.clone(),
            version: self.version,
            text: self.text.clone(),
        }
    }
}

/// The index of the first document of `reg[..n]` with the given URI.
pub open spec fn position_in(reg: Seq<DocumentView>, uri: Seq<char>, n: int) -> Option<int>
    decreases n,
{
    if n <= 0 {
        None
    } else {
        match position_in(reg, uri, n - 1) {
            Some(i) => Some(i),
            None => if reg[n - 1].uri == uri {
                Some(n - 1)
            } else {
                None
            },
        }
    }
}

/// The index of the document with the given URI.
pub open spec fn index_of(reg: Seq<DocumentView>, uri: Seq<char>) -> Option<int> {
    position_in(reg, uri, reg.len() as int)
}

/// The document with the given URI.
pub open spec fn lookup(reg: Seq<DocumentView>, uri: Seq<char>) -> Option<DocumentView> {
    match index_of(reg, uri) {
        Some(i) => Some(reg[i]),
        None => None,
    }
}

/// Whether a tree is installed for the URI: it is registered and its text
/// parses.
pub open spec fn tree_installed(reg: Seq<DocumentView>, uri: Seq<char>) -> bool {
    lookup(reg, uri) matches Some(d) && parse_succeeds(d.text)
}

/// The registry after `d` has replaced the document of its URI, or joined it.
pub open spec fn upserted(reg: Seq<DocumentView>, d: DocumentView) -> Seq<DocumentView> {
    match index_of(reg, d.uri) {
        Some(i) => reg.update(i, d),
        None => reg.push(d),
    }
}

/// The registry without the document of the given URI.
pub open spec fn removed(reg: Seq<DocumentView>, uri: Seq<char>) -> Seq<DocumentView> {
    match index_of(reg, uri) {
        Some(i) => reg.remove(i),
        None => reg,
    }
}

/// What a query of the given kind captures in a document: nothing when its
/// text yields no tree.
pub open spec fn doc_captures(d: DocumentView, kind: QueryKind) -> Seq<CaptureView> {
    if parse_succeeds(d.text) {
        captures(d.text, kind)
    } else {
        Seq::empty()
    }
}

/// No URI stands twice.
pub open spec fn distinct_uris(reg: Seq<DocumentView>) -> bool {
    forall|i: int, j: int| 0 <= i < j < reg.len() ==> #[trigger] reg[i].uri != #[trigger] reg[j].uri
}

pub proof fn lemma_position_in(reg: Seq<DocumentView>, uri: Seq<char>, n: int)
    requires
        0 <= n <= reg.len(),
    ensures
        match position_in(reg, uri, n) {
            Some(i) => 0 <= i < n && reg[i].uri == uri && forall|k: int| 0 <= k < i ==> reg[k].uri != uri,
            None => forall|k: int| 0 <= k < n ==> reg[k].uri != uri,
        },
    decreases n,
{
    if n > 0 {
        lemma_position_in(reg, uri, n - 1);
    }
}

/// The first index with the URI is the index of the URI.
pub proof fn lemma_index_of(reg: Seq<DocumentView>, uri: Seq<char>, i: int)
    requires
        0 <= i < reg.len(),
        reg[i].uri == uri,
        forall|k: int| 0 <= k < i ==> reg[k].uri != uri,
    ensures
        index_of(reg, uri) == Some(i),
{
    lemma_prefix_position(reg, uri, i, reg.len() as int);
}

proof fn lemma_prefix_position(reg: Seq<DocumentView>, uri: Seq<char>, i: int, n: int)
    requires
        0 <= i < n <= reg.len(),
        reg[i].uri == uri,
        forall|k: int| 0 <= k < i ==> reg[k].uri != uri,
    ensures
        position_in(reg, uri, n) == Some(i),
    decreases n,
{
    if n - 1 > i {
        lemma_prefix_position(reg, uri, i, n - 1);
    } else {
        lemma_position_in(reg, uri, n - 1);
    }
}

/// Putting a document under its URI and then looking that URI up gives back
/// the same document: its text, version and language; and a tree is
/// installed for it exactly when its text parses.
pub proof fn lemma_upsert_then_get(reg: Seq<DocumentView>, d: DocumentView)
    ensures
        lookup(upserted(reg, d), d.uri) == Some(d),
        tree_installed(upserted(reg, d), d.uri) == parse_succeeds(d.text),
{
    lemma_position_in(reg, d.uri, reg.len() as int);
    let after = upserted(reg, d);
    match index_of(reg, d.uri) {
        Some(i) => {
            assert(after == reg.update(i, d));
            assert forall|k: int| 0 <= k < i implies after[k].uri != d.uri by {
                assert(after[k] == reg[k]);
            }
            lemma_index_of(after, d.uri, i);
        },
        None => {
            assert(after == reg.push(d));
            assert forall|k: int| 0 <= k < reg.len() implies after[k].uri != d.uri by {
                assert(after[k] == reg[k]);
            }
            lemma_index_of(after, d.uri, reg.len() as int);
        },
    }
}

/// A text together with the tree parsed from it, ready to be installed.
pub struct ParsedText {
    text: String,
    tree: Option<SyntaxTree>,
}

impl View for ParsedText {
    type V = Seq<char>;

    closed spec fn view(&self) -> Seq<char> {
        self.text@
    }
}

impl ParsedText {
    #[verifier::type_invariant]
    spec fn inv(&self) -> bool {
        &&& self.tree is Some <==> parse_succeeds(self.text@)
        &&& self.tree matches Some(t) ==> t@ == self.text@
    }

    /// Parses a text afresh.
    pub fn parse(text: &str) -> (r: ParsedText)
        ensures
            r@ == text@,
    {
        ParsedText { text: text.to_owned(), tree: SyntaxTree::parse(text) }
    }
}

struct Entry {
    document: Document,
    tree: Option<SyntaxTree>,
}

impl Entry {
    spec fn consistent(&self) -> bool {
        &&& self.tree is Some <==> parse_succeeds(self.document.text@)
        &&& self.tree matches Some(t) ==> t@ == self.document.text@
    }
}

/// Every known document with the tree parsed from its current text.
pub struct Registry {
    entries: Vec<Entry>,
}

impl View for Registry {
    type V = Seq<DocumentView>;

    closed spec fn view(&self) -> Seq<DocumentView> {
        self.entries@.map_values(|e: Entry| e.document@)
    }
}

impl Registry {
    #[verifier::type_invariant]
    spec fn inv(&self) -> bool {
        &&& forall|i: int| 0 <= i < self.entries@.len() ==> (#[trigger] self.entries@[i]).consistent()
        &&& distinct_uris(self@)
    }

    /// An empty registry.
    pub fn new() -> (r: Registry)
        ensures
            r@ == Seq::<DocumentView>::empty(),
    {
        let r = Registry { entries: Vec::new() };
        assert(r@ =~= Seq::<DocumentView>::empty());
        r
    }

    /// The number of documents.
    pub fn len(&self) -> (r: usize)
        ensures
            r == self@.len(),
    {
        self.entries.len()
    }

    /// The document at an index.
    pub fn document_at(&self, i: usize) -> (r: &Document)
        requires
            i < self@.len(),
        ensures
            r@ == self@[i as int],
            distinct_uris(self@),
    {
        proof {
            use_type_invariant(self);
        }
        &self.entries[i].document
    }

    /// The tree of the document at an index, present exactly when its text parses.
    pub fn tree_at(&self, i: usize) -> (r: Option<&SyntaxTree>)
        requires
            i < self@.len(),
        ensures
            r is Some <==> parse_succeeds(self@[i as int].text),
            r matches Some(t) ==> t@ == self@[i as int].text,
    {
        proof {
            use_type_invariant(self);
            assert(self.entries@[i as int].consistent());
        }
        match &self.entries[i].tree {
            Some(t) => Some(t),
            None => None,
        }
    }

    /// Runs a structural query over the tree of the document at an index.
    pub fn captures_at(&self, i: usize, kind: QueryKind) -> (r: Vec<Capture>)
        requires
            i < self@.len(),
        ensures
            captures_view(r@) == doc_captures(self@[i as int], kind),
    {
        match self.tree_at(i) {
            Some(t) => t.query(kind),
            None => {
                let empty: Vec<Capture> = Vec::new();
                assert(captures_view(empty@) =~= Seq::<CaptureView>::empty());
                empty
            },
        }
    }

    /// The index of the document with the given URI.
    pub fn find(&self, uri: &str) -> (r: Option<usize>)
        ensures
            match index_of(self@, uri@) {
                Some(i) => r == Some(i as usize),
                None => r is None,
            },
            r matches Some(i) ==> i < self@.len() && self@[i as int].uri == uri@,
    {
        proof {
            assert(self@.len() == self.entries@.len());
        }
        let mut i: usize = 0;
        while i < self.entries.len()
            invariant
                0 <= i <= self.entries@.len(),
                position_in(self@, uri@, i as int) is None,
            decreases self.entries@.len() - i,
        {
            let here = self.entries[i].document.uri.as_str().to_owned();
            let wanted = uri.to_owned();
            if here == wanted {
                proof {
                    lemma_position_in(self@, uri@, i as int);
                    lemma_index_of(self@, uri@, i as int);
                }
                return Some(i);
            }
            i = i + 1;
        }
        None
    }

    /// The document with the given URI.
    pub fn get(&self, uri: &str) -> (r: Option<Document>)
        ensures
            match lookup(self@, uri@) {
                Some(d) => r matches Some(x) && x@ == d,
                None => r is None,
            },
    {
        proof {
            lemma_position_in(self@, uri@, self@.len() as int);
        }
        match self.find(uri) {
            Some(i) => Some(self.document_at(i).copy()),
            None => None,
        }
    }

    /// Whether a tree is installed for the URI.
    pub fn has_tree(&self, uri: &str) -> (r: bool)
        ensures
            r == tree_installed(self@, uri@),
    {
        proof {
            lemma_position_in(self@, uri@, self@.len() as int);
        }
        match self.find(uri) {
            Some(i) => self.tree_at(i).is_some(),
            None => false,
        }
    }

    /// Replaces the document of `uri` by a new one with the given text and
    /// version, or adds it, and installs the tree parsed from that text.
    pub fn upsert(&mut self, uri: &str, text: &str, version: i32)
        ensures
            final(self)@ == upserted(
                old(self)@,
                DocumentView { uri: uri@, language_id: "poweron"@, version, text: text@ },
            ),
    {
        self.upsert_parsed(uri, ParsedText::parse(text), version);
    }

    /// Replaces the document of `uri`, or adds it, with a text parsed
    /// beforehand, so that no lock on the registry need be held while parsing.
    pub fn upsert_parsed(&mut self, uri: &str, parsed: ParsedText, version: i32)
        ensures
            final(self)@ == upserted(
                old(self)@,
                DocumentView { uri: uri@, language_id: "poweron"@, version, text: parsed@ },
            ),
    {
        proof {
            use_type_invariant(&*self);
            use_type_invariant(&parsed);
        }
        let ParsedText { text, tree } = parsed;
        let document = Document { uri: uri.to_owned(), language_id: "poweron".to_owned(), version, text };
        let entry = Entry { document, tree };
        let ghost d = entry.document@;
        let found = self.find(uri);
        let mut entries: Vec<Entry> = Vec::new();
        std::mem::swap(&mut entries, &mut self.entries);
        let ghost before = entries@;
        assert(before.map_values(|e: Entry| e.document@) == old(self)@);
        assert(before.len() == old(self)@.len());
        match found {
            Some(i) => {
                entries.set(i, entry);
                proof {
                    lemma_position_in(old(self)@, uri@, old(self)@.len() as int);
                    assert(entries@.map_values(|e: Entry| e.document@) =~= old(self)@.update(i as int, d));
                }
            },
            None => {
                entries.push(entry);
                proof {
                    lemma_position_in(old(self)@, uri@, old(self)@.len() as int);
                    assert(entries@.map_values(|e: Entry| e.document@) =~= old(self)@.push(d));
                }
            },
        }
        proof {
            let v = entries@.map_values(|e: Entry| e.document@);
            let o = old(self)@;
            lemma_position_in(o, uri@, o.len() as int);
            assert(o.len() == before.len());
            assert forall|a: int, b: int| 0 <= a < b < v.len() implies #[trigger] v[a].uri != #[trigger] v[b].uri by {
                match found {
                    Some(i) => {
                        if a == i {
                            assert(o[b].uri != o[a].uri);
                        } else if b == i {
                            assert(o[b].uri != o[a].uri);
                        } else {
                            assert(o[a].uri != o[b].uri);
                        }
                    },
                    None => {
                        if b < o.len() {
                            assert(o[a].uri != o[b].uri);
                        }
                    },
                }
            }
            assert forall|k: int| 0 <= k < entries@.len() implies (#[trigger] entries@[k]).consistent() by {
                if k < before.len() && found != Some(k as usize) {
                    assert(entries@[k] == before[k]);
                    assert(old(self).entries@[k].consistent());
                }
            }
        }
        self.entries = entries;
    }

    /// Removes the document of `uri` and its tree, if there is one.
    pub fn remove(&mut self, uri: &str)
        ensures
            final(self)@ == removed(old(self)@, uri@),
    {
        proof {
            use_type_invariant(&*self);
            lemma_position_in(old(self)@, uri@, old(self)@.len() as int);
        }
        let found = self.find(uri);
        match found {
            Some(i) => {
                let mut entries: Vec<Entry> = Vec::new();
                std::mem::swap(&mut entries, &mut self.entries);
                let ghost before = entries@;
                assert(before.map_values(|e: Entry| e.document@) == old(self)@);
                assert(before.len() == old(self)@.len());
                let _gone = entries.remove(i);
                proof {
                    let v = entries@.map_values(|e: Entry| e.document@);
                    assert(v =~= old(self)@.remove(i as int));
                    assert forall|a: int, b: int| 0 <= a < b < v.len() implies #[trigger] v[a].uri != #[trigger] v[b].uri by {
                        let a0 = if a < i { a } else { a + 1 };
                        let b0 = if b < i { b } else { b + 1 };
                        assert(v[a] == old(self)@[a0]);
                        assert(v[b] == old(self)@[b0]);
                    }
                    assert forall|k: int| 0 <= k < entries@.len() implies (#[trigger] entries@[k]).consistent() by {
                        let k0 = if k < i { k } else { k + 1 };
                        assert(entries@[k] == before[k0]);
                        assert(old(self).entries@[k0].consistent());
                    }
                }
                self.entries = entries;
                assert(self@ =~= old(self)@.remove(i as int));
            },
            None => {},
        }
    }

    /// A copy of every document and tree, to work on while this registry changes.
    pub fn snapshot(&self) -> (r: Registry)
        ensures
            r@ == self@,
    {
        proof {
            use_type_invariant(self);
        }
        let mut entries: Vec<Entry> = Vec::new();
        let mut i: usize = 0;
        while i < self.entries.len()
            invariant
                0 <= i <= self.entries@.len(),
                entries@.len() == i,
                forall|k: int| 0 <= k < i ==> (#[trigger] entries@[k]).document@ == self.entries@[k].document@,
                forall|k: int| 0 <= k < i ==> (#[trigger] entries@[k]).consistent(),
                forall|k: int| 0 <= k < self.entries@.len() ==> (#[trigger] self.entries@[k]).consistent(),
            decreases self.entries@.len() - i,
        {
            let e = &self.entries[i];
            let tree = match &e.tree {
                Some(t) => Some(t.snapshot()),
                None => None,
            };
            assert(self.entries@[i as int].consistent());
            entries.push(Entry { document: e.document.copy(), tree });
            i = i + 1;
        }
        assert(entries@.map_values(|e: Entry| e.document@) =~= self@);
        Registry { entries }
    }
}

/// Parses the text that a change notification carries: the first change
/// holds the document's whole new text; a notification without changes
/// carries none.
pub fn parse_change(changes: &Vec<String>) -> (r: Option<ParsedText>)
    ensures
        changes@.len() == 0 ==> r is None,
        changes@.len() > 0 ==> (r matches Some(p) && p@ == changes@[0]@),
{
    if changes.len() > 0 {
        Some(ParsedText::parse(changes[0].as_str()))
    } else {
        None
    }
}

/// Applies a change notification whose text was parsed beforehand (see
/// `parse_change`): the new text replaces the document of `uri` and its
/// tree; a notification without changes leaves the registry as it was.
pub fn handle_did_change_text_document(reg: &mut Registry, uri: &str, version: i32, change: Option<ParsedText>)
    ensures
        match change {
            None => final(reg)@ == old(reg)@,
            Some(p) => final(reg)@ == upserted(
                old(reg)@,
                DocumentView { uri: uri@, language_id: "poweron"@, version, text: p@ },
            ),
        },
{
    match change {
        Some(p) => reg.upsert_parsed(uri, p, version),
        None => {},
    }
}

} // verus!
