//! The parser adapter and the structural query engine.
//!
//! A [`SyntaxTree`] is the tree that the PowerOn grammar builds from a text,
//! kept together with that text. Its view is the text: parsing is a function
//! of the text alone, so everything read from the tree is stated over it.

use vstd::prelude::*;
use tree_sitter::{Node, Point, Query, QueryCursor};

verus! {

#[verifier::external_type_specification]
#[verifier::external_body]
pub struct ExTree(tree_sitter::Tree);

/// Relies on `Clone for tree_sitter::Tree`: the copy is the same tree.
pub assume_specification[ <tree_sitter::Tree as Clone>::clone ](t: &tree_sitter::Tree) -> tree_sitter::Tree;

/// Whether the PowerOn grammar yields a syntax tree for a text.
pub uninterp spec fn parse_succeeds(text: Seq<char>) -> bool;

/// What a query pattern captures in the tree parsed from a text, one entry
/// per capture in the order the query cursor reports them; `None` when the
/// grammar does not accept the pattern.
pub uninterp spec fn query_result(text: Seq<char>, pattern: Seq<char>) -> Option<Seq<CaptureView>>;

/// The smallest node of the tree parsed from a text that spans a point,
/// described by its kind, text, parent's kind and the text of its child
/// under a field name.
pub uninterp spec fn node_at_point(text: Seq<char>, line: nat, column: nat, field: Seq<char>) -> Option<NodeView>;

/// The smallest named node of the tree parsed from a text that spans a point.
pub uninterp spec fn named_node_at(text: Seq<char>, line: nat, column: nat) -> Option<SummaryView>;

/// The parent of that node.
pub uninterp spec fn named_parent_at(text: Seq<char>, line: nat, column: nat) -> Option<SummaryView>;

/// The named sibling just before that parent.
pub uninterp spec fn parent_prev_sibling_at(text: Seq<char>, line: nat, column: nat) -> Option<SummaryView>;

/// The S-expression of the tree parsed from a text.
pub uninterp spec fn sexp_of(text: Seq<char>) -> Seq<char>;

/// A zero-based line, and column counted in UTF-8 bytes, in a document.
#[derive(Clone, Copy, Debug, PartialEq, Eq, Structural)]
pub struct Position {
    pub line: usize,
    pub character: usize,
}

/// A span of a document, from `start` to `end`.
#[derive(Clone, Copy, Debug, PartialEq, Eq, Structural)]
pub struct Range {
    pub start: Position,
    pub end: Position,
}

/// A node captured by a structural query: its text, its span and the span
/// of the node that encloses it.
#[derive(Debug)]
pub struct Capture {
    pub text: String,
    pub range: Range,
    pub enclosing: Option<Range>,
}

pub struct CaptureView {
    pub text: Seq<char>,
    pub range: Range,
    pub enclosing: Option<Range>,
}

impl View for Capture {
    type V = CaptureView;

    open spec fn view(&self) -> CaptureView {
        CaptureView { text: self.text@, range: self.range, enclosing: self.enclosing }
    }
}

pub open spec fn captures_view(caps: Seq<Capture>) -> Seq<CaptureView> {
    caps.map_values(|c: Capture| c@)
}

/// The node found at a point: its kind, its text, its parent's kind and the
/// text of its child under the field that was asked for.
#[derive(Debug)]
pub struct NodeInfo {
    pub kind: String,
    pub text: String,
    pub parent_kind: Option<String>,
    pub field_text: Option<String>,
}

pub struct NodeView {
    pub kind: Seq<char>,
    pub text: Seq<char>,
    pub parent_kind: Option<Seq<char>>,
    pub field_text: Option<Seq<char>>,
}

pub open spec fn opt_view(s: Option<String>) -> Option<Seq<char>> {
    match s {
        Some(x) => Some(x@),
        None => None,
    }
}

impl View for NodeInfo {
    type V = NodeView;

    open spec fn view(&self) -> NodeView {
        NodeView {
            kind: self.kind@,
            text: self.text@,
            parent_kind: opt_view(self.parent_kind),
            field_text: opt_view(self.field_text),
        }
    }
}

/// A node's kind, text and span.
#[derive(Debug)]
pub struct NodeSummary {
    pub kind: String,
    pub text: String,
    pub range: Range,
}

pub struct SummaryView {
    pub kind: Seq<char>,
    pub text: Seq<char>,
    pub range: Range,
}

impl View for NodeSummary {
    type V = SummaryView;

    open spec fn view(&self) -> SummaryView {
        SummaryView { kind: self.kind@, text: self.text@, range: self.range }
    }
}

pub open spec fn summary_view(s: Option<NodeSummary>) -> Option<SummaryView> {
    match s {
        Some(x) => Some(x@),
        None => None,
    }
}

/// The fixed vocabulary of structural queries.
#[derive(Clone, Copy, Debug, PartialEq, Eq, Structural)]
pub enum QueryKind {
    /// The identifier that a variable declaration declares.
    VariableDeclaration,
    /// The identifier that a procedure definition names.
    ProcedureDefinition,
    /// The string literal of an include directive.
    IncludeLiteral,
    /// A print division.
    PrintDivision,
}

pub open spec fn pattern_of(kind: QueryKind) -> Seq<char> {
    match kind {
        QueryKind::VariableDeclaration => "(variable_declaration . (identifier) @ident)"@,
        QueryKind::ProcedureDefinition => "(procedure_definition (identifier) @ident)"@,
        QueryKind::IncludeLiteral => "(include_statement (string_literal) @inc)"@,
        QueryKind::PrintDivision => "(print_division) @print"@,
    }
}

/// The tree-pattern text of a query kind.
pub fn pattern(kind: QueryKind) -> (r: &'static str)
    ensures
        r@ == pattern_of(kind),
{
    match kind {
        QueryKind::VariableDeclaration => "(variable_declaration . (identifier) @ident)",
        QueryKind::ProcedureDefinition => "(procedure_definition (identifier) @ident)",
        QueryKind::IncludeLiteral => "(include_statement (string_literal) @inc)",
        QueryKind::PrintDivision => "(print_division) @print",
    }
}

/// What a query of the given kind captures in a text; a pattern that the
/// grammar refuses captures nothing.
pub open spec fn captures(text: Seq<char>, kind: QueryKind) -> Seq<CaptureView> {
    match query_result(text, pattern_of(kind)) {
        Some(s) => s,
        None => Seq::empty(),
    }
}

/// Relies on tree_sitter::Parser::set_language and Parser::parse with the
/// PowerOn grammar: a fresh parser, no timeout and no earlier tree, so whether
/// a tree comes back depends on the text alone.
#[verifier::external_body]
fn parse_source(text: &str) -> (r: Option<tree_sitter::Tree>)
    ensures
        r is Some <==> parse_succeeds(text@),
{
    let mut parser = tree_sitter::Parser::new();
    parser.set_language(tree_sitter_poweron::language()).ok()?;
    parser.parse(text, None)
}

/// A syntax tree together with the text it was parsed from. Only `parse`
/// builds one (and `snapshot` copies one), so `tree` is always the parse of
/// `source`: the trusted readers of the tree below state their results over
/// `source` on that ground.
pub struct SyntaxTree {
    source: String,
    tree: tree_sitter::Tree,
}

impl View for SyntaxTree {
    type V = Seq<char>;

    closed spec fn view(&self) -> Seq<char> {
        self.source@
    }
}

/// Relies on tree_sitter::Query::new and QueryCursor::matches over the tree
/// of `t`, which was parsed from `t.source`: each capture's text and span,
/// and the span of its parent (Node::parent).
#[verifier::external_body]
fn run_query(t: &SyntaxTree, pattern: &str) -> (r: Option<Vec<Capture>>)
    ensures
        match query_result(t@, pattern@) {
            Some(s) => r is Some && captures_view(r->0@) == s,
            None => r is None,
        },
{
    let query = Query::new(t.tree.language(), pattern).ok()?;
    let (mut cursor, src, mut out) = (QueryCursor::new(), t.source.as_bytes(), vec![]);
    let point = |p: Point| Position { line: p.row, character: p.column };
    let span = |n: Node| Range { start: point(n.start_position()), end: point(n.end_position()) };
    for m in cursor.matches(&query, t.tree.root_node(), src) {
        for c in m.captures {
            out.extend(c.node.utf8_text(src).map(|text| Capture { text: text.into(), range: span(c.node), enclosing: c.node.parent().map(span) }));
        }
    }
    Some(out)
}

/// Relies on tree_sitter::Node::descendant_for_point_range at one point, and
/// on the kind, text, parent and field child of the node it returns.
#[verifier::external_body]
fn find_node(t: &SyntaxTree, line: usize, column: usize, field: &str) -> (r: Option<NodeInfo>)
    ensures
        match node_at_point(t@, line as nat, column as nat, field@) {
            Some(v) => r is Some && r->0@ == v,
            None => r is None,
        },
{
    let p = tree_sitter::Point::new(line, column);
    let src = t.source.as_bytes();
    let n = t.tree.root_node().descendant_for_point_range(p, p)?;
    let field_child = n.child_by_field_name(field);
    Some(NodeInfo {
        kind: n.kind().to_string(),
        text: n.utf8_text(src).ok()?.to_string(),
        parent_kind: n.parent().map(|q| q.kind().to_string()),
        field_text: field_child.and_then(|c| c.utf8_text(src).ok()).map(|s| s.to_string()),
    })
}

/// Relies on tree_sitter::Node::named_descendant_for_point_range at one
/// point: the node's kind, text and span.
#[verifier::external_body]
fn named_node(t: &SyntaxTree, line: usize, column: usize) -> (r: Option<NodeSummary>)
    ensures
        summary_view(r) == named_node_at(t@, line as nat, column as nat),
{
    let p = tree_sitter::Point::new(line, column);
    let n = t.tree.root_node().named_descendant_for_point_range(p, p)?;
    let (a, b) = (n.start_position(), n.end_position());
    let start = Position { line: a.row, character: a.column };
    let end = Position { line: b.row, character: b.column };
    let text = n.utf8_text(t.source.as_bytes()).ok()?.to_string();
    Some(NodeSummary { kind: n.kind().to_string(), text, range: Range { start, end } })
}

/// Relies on tree_sitter::Node::parent of the node that
/// named_descendant_for_point_range finds at one point.
#[verifier::external_body]
fn named_parent(t: &SyntaxTree, line: usize, column: usize) -> (r: Option<NodeSummary>)
    ensures
        summary_view(r) == named_parent_at(t@, line as nat, column as nat),
{
    let p = tree_sitter::Point::new(line, column);
    let n = t.tree.root_node().named_descendant_for_point_range(p, p)?.parent()?;
    let (a, b) = (n.start_position(), n.end_position());
    let start = Position { line: a.row, character: a.column };
    let end = Position { line: b.row, character: b.column };
    let text = n.utf8_text(t.source.as_bytes()).ok()?.to_string();
    Some(NodeSummary { kind: n.kind().to_string(), text, range: Range { start, end } })
}

/// Relies on tree_sitter::Node::prev_named_sibling of the parent of the node
/// that named_descendant_for_point_range finds at one point.
#[verifier::external_body]
fn parent_prev_sibling(t: &SyntaxTree, line: usize, column: usize) -> (r: Option<NodeSummary>)
    ensures
        summary_view(r) == parent_prev_sibling_at(t@, line as nat, column as nat),
{
    let p = tree_sitter::Point::new(line, column);
    let n = t.tree.root_node().named_descendant_for_point_range(p, p)?.parent()?.prev_named_sibling()?;
    let (a, b) = (n.start_position(), n.end_position());
    let start = Position { line: a.row, character: a.column };
    let end = Position { line: b.row, character: b.column };
    let text = n.utf8_text(t.source.as_bytes()).ok()?.to_string();
    Some(NodeSummary { kind: n.kind().to_string(), text, range: Range { start, end } })
}

/// Relies on tree_sitter::Node::to_sexp of the root node.
#[verifier::external_body]
fn root_sexp(t: &SyntaxTree) -> (r: String)
    ensures
        r@ == sexp_of(t@),
{
    t.tree.root_node().to_sexp()
}

impl SyntaxTree {
    /// Parses a text afresh; `None` when the grammar yields no tree.
    pub fn parse(text: &str) -> (r: Option<SyntaxTree>)
        ensures
            r is Some <==> parse_succeeds(text@),
            r matches Some(t) ==> t@ == text@,
    {
        match parse_source(text) {
            Some(tree) => Some(SyntaxTree { source: text.to_owned(), tree }),
            None => None,
        }
    }

    /// The text the tree was parsed from.
    pub fn text(&self) -> (r: &str)
        ensures
            r@ == self@,
    {
        self.source.as_str()
    }

    /// Runs a structural query of the fixed vocabulary over the tree.
    pub fn query(&self, kind: QueryKind) -> (r: Vec<Capture>)
        ensures
            captures_view(r@) == captures(self@, kind),
    {
        match run_query(self, pattern(kind)) {
            Some(caps) => caps,
            None => {
                let empty: Vec<Capture> = Vec::new();
                assert(captures_view(empty@) =~= Seq::<CaptureView>::empty());
                empty
            },
        }
    }

    /// Whether a query of the given kind captures anything.
    pub fn has_match(&self, kind: QueryKind) -> (r: bool)
        ensures
            r == (captures(self@, kind).len() > 0),
    {
        let caps = self.query(kind);
        caps.len() > 0
    }

    /// The smallest node spanning `pos`, with the text of its child under `field`.
    pub fn node_at(&self, pos: Position, field: &str) -> (r: Option<NodeInfo>)
        ensures
            match node_at_point(self@, pos.line as nat, pos.character as nat, field@) {
                Some(v) => r is Some && r->0@ == v,
                None => r is None,
            },
    {
        find_node(self, pos.line, pos.character, field)
    }

    /// The smallest named node spanning `pos`.
    pub fn named_node_at(&self, pos: Position) -> (r: Option<NodeSummary>)
        ensures
            summary_view(r) == named_node_at(self@, pos.line as nat, pos.character as nat),
    {
        named_node(self, pos.line, pos.character)
    }

    /// The parent of the smallest named node spanning `pos`.
    pub fn named_parent_at(&self, pos: Position) -> (r: Option<NodeSummary>)
        ensures
            summary_view(r) == named_parent_at(self@, pos.line as nat, pos.character as nat),
    {
        named_parent(self, pos.line, pos.character)
    }

    /// The named sibling before the parent of the smallest named node spanning `pos`.
    pub fn parent_prev_sibling_at(&self, pos: Position) -> (r: Option<NodeSummary>)
        ensures
            summary_view(r) == parent_prev_sibling_at(self@, pos.line as nat, pos.character as nat),
    {
        parent_prev_sibling(self, pos.line, pos.character)
    }

    /// The tree written as an S-expression.
    pub fn to_sexp(&self) -> (r: String)
        ensures
            r@ == sexp_of(self@),
    {
        root_sexp(self)
    }

    /// A copy of the tree and its text.
    pub fn snapshot(&self) -> (r: SyntaxTree)
        ensures
            r@ == self@,
    {
        SyntaxTree { source: self.source.clone(), tree: self.tree.clone() }
    }
}

} // verus!
