use vstd::prelude::*;
use vstd::string::StringExecFns;
use crate::ast::{ASTNode, Definition, Document, Name, Node, ScalarType, TypeDefinition};
use crate::laws::lemma_printer_appends_node_text;
use crate::visitor::Visitor;

verus! {

/// The text of a name: its value as it stands, neither escaped nor validated.
pub open spec fn name_text(n: &Name) -> Seq<char> {
    n.value@
}

/// The block that a description is written as: the text on a line of its own
/// between two lines of three double quotes. The text is not escaped.
pub open spec fn description_text(description: Seq<char>) -> Seq<char> {
    "\"\"\"\n"@ + description + "\n\"\"\"\n"@
}

/// The text of a scalar type: the description block where there is a
/// description, then the name, a semicolon and a line feed.
pub open spec fn scalar_type_text(st: &ScalarType) -> Seq<char> {
    let block = match st.description {
        Some(description) => description_text(description@),
        None => Seq::empty(),
    };
    block + name_text(&st.name) + ";\n"@
}

/// The text of a type definition: that of the type it declares.
pub open spec fn type_definition_text(td: &TypeDefinition) -> Seq<char> {
    match td {
        TypeDefinition::Scalar(st) => scalar_type_text(st),
    }
}

/// The text of a definition: that of what it declares.
pub open spec fn definition_text(d: &Definition) -> Seq<char> {
    match d {
        Definition::TypeDefinition(td) => type_definition_text(td),
    }
}

/// The texts of the definitions one after the other, the first one first,
/// with nothing between them, before them or after them.
pub open spec fn definitions_text(definitions: Seq<Definition>) -> Seq<char>
    decreases definitions.len(),
{
    if definitions.len() == 0 {
        Seq::empty()
    } else {
        definitions_text(definitions.drop_last()) + definition_text(&definitions.last())
    }
}

/// The text of a document: that of its definitions in their order.
pub open spec fn document_text(d: &Document) -> Seq<char> {
    definitions_text(d.definitions@)
}

/// The text of a node of any kind.
pub open spec fn node_text(node: Node) -> Seq<char> {
    match node {
        Node::Document(d) => document_text(&d),
        Node::Definition(d) => definition_text(&d),
        Node::TypeDefinition(td) => type_definition_text(&td),
        Node::ScalarType(st) => scalar_type_text(&st),
        Node::Name(n) => name_text(&n),
    }
}

/// The traversal that writes a tree out as schema text. Its state is the text
/// written so far, and each visit adds the text of the visited node at the
/// end of it.
pub struct Printer {
    pub output: String,
}

impl View for Printer {
    type V = Seq<char>;

    open spec fn view(&self) -> Seq<char> {
        self.output@
    }
}

impl Visitor for Printer {
    open spec fn document_visited(&self, d: &Document, after: &Printer) -> bool {
        after@ == self@ + document_text(d)
    }

    open spec fn definition_visited(&self, d: &Definition, after: &Printer) -> bool {
        after@ == self@ + definition_text(d)
    }

    open spec fn name_visited(&self, n: &Name, after: &Printer) -> bool {
        after@ == self@ + name_text(n)
    }

    open spec fn scalar_type_visited(&self, st: &ScalarType, after: &Printer) -> bool {
        after@ == self@ + scalar_type_text(st)
    }

    open spec fn type_definition_visited(&self, td: &TypeDefinition, after: &Printer) -> bool {
        after@ == self@ + type_definition_text(td)
    }

    fn visit_name(&mut self, n: &Name)
        ensures
            final(self)@ == old(self)@ + name_text(n),
    {
        self.output.append(n.value.as_str());
    }

    fn visit_scalar_type(&mut self, st: &ScalarType)
        ensures
            final(self)@ == old(self)@ + scalar_type_text(st),
    {
        match &st.description {
            Some(description) => {
                self.output.append("\"\"\"\n");
                self.output.append(description.as_str());
                self.output.append("\n\"\"\"\n");
            },
            None => {},
        }
        self.visit_name(&st.name);
        self.output.append(";\n");
        assert(self@ =~= old(self)@ + scalar_type_text(st));
    }

    fn visit_type_definition(&mut self, td: &TypeDefinition)
        ensures
            final(self)@ == old(self)@ + type_definition_text(td),
    {
        match td {
            TypeDefinition::Scalar(st) => {
                self.visit_scalar_type(st);
            },
        }
    }

    fn visit_definition(&mut self, d: &Definition)
        ensures
            final(self)@ == old(self)@ + definition_text(d),
    {
        match d {
            Definition::TypeDefinition(td) => {
                self.visit_type_definition(td);
            },
        }
    }

    fn visit_document(&mut self, d: &Document)
        ensures
            final(self)@ == old(self)@ + document_text(d),
    {
        let count: usize = d.definitions.len();
        let mut done: usize = 0;
        while done < count
            invariant
                count == d.definitions@.len(),
                done <= count,
                self@ == old(self)@ + definitions_text(d.definitions@.take(done as int)),
            decreases count - done,
        {
            self.visit_definition(&d.definitions[done]);
            done += 1;
            proof {
                let upto = d.definitions@.take(done as int);
                assert(upto.drop_last() =~= d.definitions@.take(done - 1));
                assert(self@ =~= old(self)@ + definitions_text(upto));
            }
        }
        assert(d.definitions@.take(count as int) =~= d.definitions@);
    }
}

/// Writes a node out as schema text, starting from empty text.
pub fn print<N: ASTNode>(n: &N) -> (out: String)
    ensures
        out@ == node_text(n.node()),
{
    let mut print_schema = Printer { output: String::new() };
    let ghost start = print_schema;
    n.accept(&mut print_schema);
    proof {
        lemma_printer_appends_node_text(n.node(), &start, &print_schema);
        assert(Seq::<char>::empty() + node_text(n.node()) =~= node_text(n.node()));
    }
    print_schema.output
}

} // verus!
