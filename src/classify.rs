//! File roles, derived from what a document's tree holds.

use vstd::prelude::*;
use crate::registry::{doc_captures, lookup, lemma_position_in, DocumentView, Registry};
use crate::syntax::{captures, parse_succeeds, QueryKind, SyntaxTree};

verus! {

/// The role of a file in a workspace.
#[derive(Clone, Copy, Debug, PartialEq, Eq, Structural)]
pub enum FileRole {
    /// A top-level script: it has a print division.
    Driver,
    /// Procedures meant to be included, without a print division.
    Library,
    /// Declarations meant to be included, without a print division.
    IncludeTable,
    /// None of the above.
    Unclassified,
}

/// The role given by the presence of a print division, of procedure
/// definitions and of variable declarations.
pub open spec fn role_from(has_print: bool, has_proc: bool, has_vardecl: bool) -> FileRole {
    if has_print {
        FileRole::Driver
    } else if has_vardecl {
        FileRole::IncludeTable
    } else if has_proc {
        FileRole::Library
    } else {
        FileRole::Unclassified
    }
}

pub open spec fn has_capture(text: Seq<char>, kind: QueryKind) -> bool {
    captures(text, kind).len() > 0
}

/// The role of the file whose text is `text`.
pub open spec fn role_of(text: Seq<char>) -> FileRole {
    role_from(
        has_capture(text, QueryKind::PrintDivision),
        has_capture(text, QueryKind::ProcedureDefinition),
        has_capture(text, QueryKind::VariableDeclaration),
    )
}

/// The role of a registered document: unclassified when its text yields no tree.
pub open spec fn doc_role(d: DocumentView) -> FileRole {
    if parse_succeeds(d.text) {
        role_of(d.text)
    } else {
        FileRole::Unclassified
    }
}

/// The role of the document registered under `uri`, if any.
pub open spec fn role_at(reg: Seq<DocumentView>, uri: Seq<char>) -> FileRole {
    match lookup(reg, uri) {
        Some(d) => doc_role(d),
        None => FileRole::Unclassified,
    }
}

/// Derives a file's role from its syntax tree.
pub fn classify(tree: &SyntaxTree) -> (r: FileRole)
    ensures
        r == role_of(tree@),
{
    let has_print = tree.has_match(QueryKind::PrintDivision);
    let has_proc = tree.has_match(QueryKind::ProcedureDefinition);
    let has_vardecl = tree.has_match(QueryKind::VariableDeclaration);
    if has_print {
        FileRole::Driver
    } else if has_vardecl {
        FileRole::IncludeTable
    } else if has_proc {
        FileRole::Library
    } else {
        FileRole::Unclassified
    }
}

/// The role of the document at an index of the registry.
pub fn classify_at(reg: &Registry, i: usize) -> (r: FileRole)
    requires
        i < reg@.len(),
    ensures
        r == doc_role(reg@[i as int]),
{
    match reg.tree_at(i) {
        Some(t) => classify(t),
        None => FileRole::Unclassified,
    }
}

/// The role of the document registered under `uri`.
pub fn classify_document(reg: &Registry, uri: &str) -> (r: FileRole)
    ensures
        r == role_at(reg@, uri@),
{
    proof {
        lemma_position_in(reg@, uri@, reg@.len() as int);
    }
    match reg.find(uri) {
        Some(i) => classify_at(reg, i),
        None => FileRole::Unclassified,
    }
}

fn any_capture(reg: &Registry, i: usize, kind: QueryKind) -> (r: bool)
    requires
        i < reg@.len(),
    ensures
        r == (doc_captures(reg@[i as int], kind).len() > 0),
{
    let caps = reg.captures_at(i, kind);
    caps.len() > 0
}

/// Whether the document under `uri` declares variables and has no print
/// division: a table of declarations to include.
pub fn is_def_file(reg: &Registry, uri: &str) -> (r: bool)
    ensures
        r == (role_at(reg@, uri@) == FileRole::IncludeTable),
        r == (lookup(reg@, uri@) matches Some(d) && doc_captures(d, QueryKind::PrintDivision).len() == 0
            && doc_captures(d, QueryKind::VariableDeclaration).len() > 0),
{
    proof {
        lemma_position_in(reg@, uri@, reg@.len() as int);
    }
    match reg.find(uri) {
        Some(i) => !any_capture(reg, i, QueryKind::PrintDivision) && any_capture(reg, i, QueryKind::VariableDeclaration),
        None => false,
    }
}

/// Whether the document under `uri` defines procedures and has neither a
/// print division nor variable declarations: a library to include.
pub fn is_pro_file(reg: &Registry, uri: &str) -> (r: bool)
    ensures
        r == (role_at(reg@, uri@) == FileRole::Library),
        r == (lookup(reg@, uri@) matches Some(d) && doc_captures(d, QueryKind::PrintDivision).len() == 0
            && doc_captures(d, QueryKind::VariableDeclaration).len() == 0
            && doc_captures(d, QueryKind::ProcedureDefinition).len() > 0),
{
    proof {
        lemma_position_in(reg@, uri@, reg@.len() as int);
    }
    match reg.find(uri) {
        Some(i) => !any_capture(reg, i, QueryKind::PrintDivision) && !any_capture(reg, i, QueryKind::VariableDeclaration)
            && any_capture(reg, i, QueryKind::ProcedureDefinition),
        None => false,
    }
}

/// Whether the document under `uri` has a print division: a driver.
pub fn is_poweron_driver(reg: &Registry, uri: &str) -> (r: bool)
    ensures
        r == (role_at(reg@, uri@) == FileRole::Driver),
        r == (lookup(reg@, uri@) matches Some(d) && doc_captures(d, QueryKind::PrintDivision).len() > 0),
{
    proof {
        lemma_position_in(reg@, uri@, reg@.len() as int);
    }
    match reg.find(uri) {
        Some(i) => any_capture(reg, i, QueryKind::PrintDivision),
        None => false,
    }
}

/// A document's role is a function of its current text alone: classifying
/// it again in any later state of the registry where its text was not
/// edited, whatever else changed, gives the same role.
pub proof fn lemma_role_depends_on_text_only(before: Seq<DocumentView>, after: Seq<DocumentView>, uri: Seq<char>)
    requires
        lookup(before, uri) matches Some(a) && lookup(after, uri) matches Some(b) && a.text == b.text,
    ensures
        role_at(before, uri) == role_at(after, uri),
{
}

} // verus!
