use vstd::prelude::*;
use crate::ast::{visited, ASTNode, Definition, Document, Node, ScalarType};
use crate::printer::{definition_text, definitions_text, node_text, Printer};

verus! {

/// Sending the printer to a node of any kind adds the text of that node at
/// the end of what the printer holds, and does nothing else.
pub proof fn lemma_printer_appends_node_text(node: Node, before: &Printer, after: &Printer)
    ensures
        visited(node, before, after) <==> after@ == before@ + node_text(node),
{
}

/// What a printer holds after it was sent to a node depends on nothing but
/// the node and the text that it held before: two runs over the same node,
/// each from a printer with the same text, end with the same text. So
/// printing a tree twice gives the same text twice.
pub proof fn lemma_printer_is_deterministic(
    node: Node,
    first_before: &Printer,
    first_after: &Printer,
    second_before: &Printer,
    second_after: &Printer,
)
    requires
        first_before@ == second_before@,
        visited(node, first_before, first_after),
        visited(node, second_before, second_after),
    ensures
        first_after@ == second_after@,
{
    lemma_printer_appends_node_text(node, first_before, first_after);
    lemma_printer_appends_node_text(node, second_before, second_after);
}

/// A document without definitions is written as the empty text.
pub proof fn lemma_empty_document_text(d: &Document)
    requires
        d.definitions@.len() == 0,
    ensures
        node_text(d.node()) == Seq::<char>::empty(),
{
}

/// A scalar type without a description is written as its name, a semicolon
/// and a line feed.
pub proof fn lemma_scalar_type_text_without_description(st: &ScalarType)
    requires
        st.description is None,
    ensures
        node_text(st.node()) == st.name.value@ + ";\n"@,
{
    assert(Seq::<char>::empty() + st.name.value@ =~= st.name.value@);
}

/// A scalar type with a description is written as a line of three double
/// quotes, the description on a line of its own, a second line of three double
/// quotes, and then the name, a semicolon and a line feed. This holds of every
/// description, also of one that itself holds three double quotes in a row.
pub proof fn lemma_scalar_type_text_with_description(st: &ScalarType)
    requires
        st.description is Some,
    ensures
        node_text(st.node()) == "\"\"\"\n"@ + st.description.unwrap()@ + "\n\"\"\"\n"@
            + st.name.value@ + ";\n"@,
{
}

/// The text of a sequence of definitions that is made of two parts is the
/// text of the first part followed by that of the second.
pub proof fn lemma_definitions_text_concat(first: Seq<Definition>, second: Seq<Definition>)
    ensures
        definitions_text(first + second) == definitions_text(first) + definitions_text(second),
    decreases second.len(),
{
    if second.len() == 0 {
        assert(first + second =~= first);
        assert(definitions_text(first) + Seq::<char>::empty() =~= definitions_text(first));
    } else {
        lemma_definitions_text_concat(first, second.drop_last());
        assert((first + second).drop_last() =~= first + second.drop_last());
        assert((first + second).last() == second.last());
        assert(definitions_text(first + second) =~= definitions_text(first) + definitions_text(
            second,
        ));
    }
}

/// A document whose definitions are those of one document followed by those
/// of another is written as the text of the one followed by the text of the
/// other: the definitions are written in their order, with nothing between
/// them.
pub proof fn lemma_document_text_concat(whole: &Document, first: &Document, second: &Document)
    requires
        whole.definitions@ == first.definitions@ + second.definitions@,
    ensures
        node_text(whole.node()) == node_text(first.node()) + node_text(second.node()),
{
    lemma_definitions_text_concat(first.definitions@, second.definitions@);
}

/// A document of the two definitions `a` and `b` is written as the document
/// of `a` alone followed by the document of `b` alone.
pub proof fn lemma_document_text_of_pair(
    a: Definition,
    b: Definition,
    both: &Document,
    first: &Document,
    second: &Document,
)
    requires
        both.definitions@ == seq![a, b],
        first.definitions@ == seq![a],
        second.definitions@ == seq![b],
    ensures
        node_text(both.node()) == node_text(first.node()) + node_text(second.node()),
{
    assert(seq![a, b] =~= seq![a] + seq![b]);
    lemma_document_text_concat(both, first, second);
}

/// A document of one definition is written as that definition.
pub proof fn lemma_document_text_of_one(a: Definition, d: &Document)
    requires
        d.definitions@ == seq![a],
    ensures
        node_text(d.node()) == definition_text(&a),
{
    assert(d.definitions@.drop_last() =~= Seq::<Definition>::empty());
    assert(definitions_text(d.definitions@.drop_last()) == Seq::<char>::empty());
    assert(d.definitions@.last() == a);
    assert(Seq::<char>::empty() + definition_text(&a) =~= definition_text(&a));
}

} // verus!
