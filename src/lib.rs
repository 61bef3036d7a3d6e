//! Cross-file symbol resolution for PowerOn scripts: a registry of parsed
//! documents, structural queries over their syntax trees, file-role
//! classification, include-graph traversal, goto-definition and outlines,
//! and the record-field lookups behind hover and completion.

pub mod syntax;
pub mod registry;
pub mod classify;
pub mod text;
pub mod includes;
pub mod resolve;
pub mod symbols;
pub mod paths;
pub mod database;
pub mod records;
