use vstd::prelude::*;
use crate::ast::{Definition, Document, Name, ScalarType, TypeDefinition};

verus! {

/// The capability set of a traversal: one method per traversable node kind.
///
/// Each method comes with a relation that the implementor chooses freely: it
/// says in which states the visit of a node may leave a visitor that was in a
/// given state. A method changes nothing but the visitor, and the relation is
/// all that callers learn of the change. Where an implementor states no
/// relation, nothing is known of the visitor after the visit.
///
/// A node never descends into its children by itself. A visitor that wants to
/// walk a whole tree does so in its methods for the composite kinds.
pub trait Visitor {
    /// Whether visiting the document `d` may turn this visitor into `after`.
    open spec fn document_visited(&self, d: &Document, after: &Self) -> bool {
        true
    }

    /// Whether visiting the definition `d` may turn this visitor into `after`.
    open spec fn definition_visited(&self, d: &Definition, after: &Self) -> bool {
        true
    }

    /// Whether visiting the name `n` may turn this visitor into `after`.
    open spec fn name_visited(&self, n: &Name, after: &Self) -> bool {
        true
    }

    /// Whether visiting the scalar type `st` may turn this visitor into `after`.
    open spec fn scalar_type_visited(&self, st: &ScalarType, after: &Self) -> bool {
        true
    }

    /// Whether visiting the type definition `td` may turn this visitor into `after`.
    open spec fn type_definition_visited(&self, td: &TypeDefinition, after: &Self) -> bool {
        true
    }

    fn visit_document(&mut self, d: &Document)
        ensures
            old(self).document_visited(d, final(self)),
    ;

    fn visit_definition(&mut self, d: &Definition)
        ensures
            old(self).definition_visited(d, final(self)),
    ;

    fn visit_name(&mut self, n: &Name)
        ensures
            old(self).name_visited(n, final(self)),
    ;

    fn visit_scalar_type(&mut self, st: &ScalarType)
        ensures
            old(self).scalar_type_visited(st, final(self)),
    ;

    fn visit_type_definition(&mut self, td: &TypeDefinition)
        ensures
            old(self).type_definition_visited(td, final(self)),
    ;
}

} // verus!
