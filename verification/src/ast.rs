use vstd::prelude::*;
use crate::visitor::Visitor;

verus! {

/// A node that a traversal can be sent to.
///
/// `accept` hands the node to the one method of the visitor that is meant for
/// the node's own kind, and does nothing else: it does not descend into the
/// node's children.
pub trait ASTNode {
    /// This node, tagged with its kind.
    spec fn node(&self) -> Node;

    fn accept<V: Visitor>(&self, v: &mut V)
        ensures
            visited(self.node(), old(v), final(v)),
    ;
}

/// A traversable node of any kind: the closed set of kinds that a visitor
/// has a method for.
pub enum Node {
    Document(Document),
    Definition(Definition),
    TypeDefinition(TypeDefinition),
    ScalarType(ScalarType),
    Name(Name),
}

/// Whether sending the visitor `before` to `node` may turn it into `after`:
/// the relation of the one method of the visitor that is meant for the node's
/// kind, applied to the node itself.
pub open spec fn visited<V: Visitor>(node: Node, before: &V, after: &V) -> bool {
    match node {
        Node::Document(d) => before.document_visited(&d, after),
        Node::Definition(d) => before.definition_visited(&d, after),
        Node::TypeDefinition(td) => before.type_definition_visited(&td, after),
        Node::ScalarType(st) => before.scalar_type_visited(&st, after),
        Node::Name(n) => before.name_visited(&n, after),
    }
}

/// The root of a schema: its definitions, in the order in which they are
/// written out.
pub struct Document {
    pub definitions: Vec<Definition>,
}

impl ASTNode for Document {
    open spec fn node(&self) -> Node {
        Node::Document(*self)
    }

    fn accept<V: Visitor>(&self, v: &mut V)
        ensures
            old(v).document_visited(self, final(v)),
    {
        v.visit_document(self);
    }
}

/// A top-level declaration.
pub enum Definition {
    TypeDefinition(TypeDefinition),
}

impl ASTNode for Definition {
    open spec fn node(&self) -> Node {
        Node::Definition(*self)
    }

    fn accept<V: Visitor>(&self, v: &mut V)
        ensures
            old(v).definition_visited(self, final(v)),
    {
        v.visit_definition(self);
    }
}

/// The declaration of a type.
pub enum TypeDefinition {
    Scalar(ScalarType),
}

impl ASTNode for TypeDefinition {
    open spec fn node(&self) -> Node {
        Node::TypeDefinition(*self)
    }

    fn accept<V: Visitor>(&self, v: &mut V)
        ensures
            old(v).type_definition_visited(self, final(v)),
    {
        v.visit_type_definition(self);
    }
}

/// An identifier. Any text is accepted, the empty one too.
#[derive(Debug)]
pub struct Name {
    pub value: String,
}

impl ASTNode for Name {
    open spec fn node(&self) -> Node {
        Node::Name(*self)
    }

    fn accept<V: Visitor>(&self, v: &mut V)
        ensures
            old(v).name_visited(self, final(v)),
    {
        v.visit_name(self);
    }
}

/// A field of an object type. No traversal reaches it yet.
#[derive(Debug)]
pub struct Field {
    pub description: Option<String>,
    pub name: Name,
    pub field_type: Type,
}

/// A reference to a type. No traversal reaches it yet.
#[derive(Debug)]
pub enum Type {
    NamedType,
    ListType(Box<Type>),
    NonNullType(Box<Type>),
}

/// The declaration of a scalar type, with an optional description.
#[derive(Debug)]
pub struct ScalarType {
    pub description: Option<String>,
    pub name: Name,
}

impl ASTNode for ScalarType {
    open spec fn node(&self) -> Node {
        Node::ScalarType(*self)
    }

    fn accept<V: Visitor>(&self, v: &mut V)
        ensures
            old(v).scalar_type_visited(self, final(v)),
    {
        v.visit_scalar_type(self);
    }
}

/// The declaration of an object type. No traversal reaches it yet.
#[derive(Debug)]
pub struct ObjectType {
    pub description: Option<String>,
    pub name: Name,
    pub fields: Vec<Field>,
}

} // verus!
