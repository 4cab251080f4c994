//! A small schema description language as a syntax tree, and the traversal
//! protocol that renders a tree as schema text.
//!
//! * [`ast`] holds the node kinds and the acceptor that each traversable kind
//!   exposes.
//! * [`visitor`] holds the capability set of a traversal.
//! * [`printer`] holds the one concrete traversal, its output format and the
//!   `print` entry point.
//! * [`laws`] states what holds of printed text in general.

pub mod ast;
pub mod visitor;
pub mod printer;
pub mod laws;

pub use ast::{
    ASTNode, Definition, Document, Field, Name, Node, ObjectType, ScalarType, Type, TypeDefinition,
};
pub use printer::{print, Printer};
pub use visitor::Visitor;
