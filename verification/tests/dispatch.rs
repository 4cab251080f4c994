use rust_graphql::{ASTNode, Definition, Document, Name, ScalarType, TypeDefinition, Visitor};

/// A visitor that notes which of its methods were called, and descends
/// nowhere.
struct Recorder {
    calls: Vec<String>,
}

impl Visitor for Recorder {
    fn visit_document(&mut self, d: &Document) {
        self.calls.push(format!("document of {}", d.definitions.len()));
    }

    fn visit_definition(&mut self, _d: &Definition) {
        self.calls.push("definition".to_string());
    }

    fn visit_name(&mut self, n: &Name) {
        self.calls.push(format!("name {}", n.value));
    }

    fn visit_scalar_type(&mut self, st: &ScalarType) {
        self.calls.push(format!("scalar type {}", st.name.value));
    }

    fn visit_type_definition(&mut self, _td: &TypeDefinition) {
        self.calls.push("type definition".to_string());
    }
}

fn scalar(value: &str) -> ScalarType {
    ScalarType { description: Some("text".to_string()), name: Name { value: value.to_string() } }
}

#[test]
fn name_accepts_through_visit_name() {
    let mut r = Recorder { calls: Vec::new() };
    Name { value: "A".to_string() }.accept(&mut r);
    assert_eq!(r.calls, vec!["name A".to_string()]);
}

#[test]
fn scalar_type_accepts_through_visit_scalar_type_only() {
    let mut r = Recorder { calls: Vec::new() };
    scalar("A").accept(&mut r);
    assert_eq!(r.calls, vec!["scalar type A".to_string()]);
}

#[test]
fn type_definition_accepts_through_visit_type_definition_only() {
    let mut r = Recorder { calls: Vec::new() };
    TypeDefinition::Scalar(scalar("A")).accept(&mut r);
    assert_eq!(r.calls, vec!["type definition".to_string()]);
}

#[test]
fn definition_accepts_through_visit_definition_only() {
    let mut r = Recorder { calls: Vec::new() };
    Definition::TypeDefinition(TypeDefinition::Scalar(scalar("A"))).accept(&mut r);
    assert_eq!(r.calls, vec!["definition".to_string()]);
}

#[test]
fn document_accepts_through_visit_document_only() {
    let mut r = Recorder { calls: Vec::new() };
    let d = Document {
        definitions: vec![
            Definition::TypeDefinition(TypeDefinition::Scalar(scalar("A"))),
            Definition::TypeDefinition(TypeDefinition::Scalar(scalar("B"))),
        ],
    };
    d.accept(&mut r);
    assert_eq!(r.calls, vec!["document of 2".to_string()]);
}

#[test]
fn empty_document_is_still_visited_once() {
    let mut r = Recorder { calls: Vec::new() };
    Document { definitions: Vec::new() }.accept(&mut r);
    assert_eq!(r.calls, vec!["document of 0".to_string()]);
}

#[test]
fn visits_follow_one_another_in_call_order() {
    let mut r = Recorder { calls: Vec::new() };
    scalar("A").accept(&mut r);
    Name { value: "B".to_string() }.accept(&mut r);
    scalar("C").accept(&mut r);
    assert_eq!(
        r.calls,
        vec!["scalar type A".to_string(), "name B".to_string(), "scalar type C".to_string()]
    );
}
