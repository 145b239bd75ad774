//! Conversion of a rule-tagged concrete syntax tree into a typed abstract
//! syntax tree for a small expression language.
//!
//! The grammar engine that produces the concrete tree is an external
//! collaborator: it hands over an ordered, flat sequence of rule-tagged
//! nodes, each carrying its textual span and its children.  This crate
//! models that hand-off as a [`node::Node`] forest walked through an
//! explicit cursor position, and converts it depth-first, left-to-right
//! into the AST types of [`ast`], decoding literals along the way.

pub mod ast;
pub mod builders;
pub mod decode;
pub mod errors;
pub mod laws;
pub mod model;
pub mod node;
