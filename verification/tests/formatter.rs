use rio_xml::Literal;
use rio_xml::RdfXmlFormatter;
use rio_xml::Subject;
use rio_xml::Term;
use rio_xml::Triple;

const RDF_NS: &str = "http://www.w3.org/1999/02/22-rdf-syntax-ns#";

fn named(iri: &str) -> Subject {
    Subject::NamedNode { iri: String::from(iri) }
}

fn triple(subject: Subject, predicate: &str, object: Term) -> Triple {
    Triple {
        subject,
        predicate: String::from(predicate),
        object,
    }
}

fn document(triples: Vec<Triple>) -> String {
    let mut formatter = RdfXmlFormatter::new().unwrap();
    for t in &triples {
        formatter.format(t).unwrap();
    }
    let writer = formatter.finish().unwrap();
    String::from_utf8(writer.into_bytes()).unwrap()
}

#[test]
fn single_triple_document() {
    let out = document(vec![triple(
        named("http://example.com/foo"),
        "http://www.w3.org/1999/02/22-rdf-syntax-ns#type",
        Term::NamedNode { iri: String::from("http://schema.org/Person") },
    )]);
    assert_eq!(
        out,
        format!(
            "<?xml version=\"1.0\" encoding=\"UTF-8\"?>\
             <rdf:RDF xmlns:rdf=\"{RDF_NS}\">\
             <rdf:Description rdf:about=\"http://example.com/foo\">\
             <type xmlns=\"{RDF_NS}\" rdf:resource=\"http://schema.org/Person\"/>\
             </rdf:Description>\
             </rdf:RDF>"
        )
    );
}

#[test]
fn empty_stream_document() {
    let out = document(vec![]);
    assert_eq!(
        out,
        format!(
            "<?xml version=\"1.0\" encoding=\"UTF-8\"?>\
             <rdf:RDF xmlns:rdf=\"{RDF_NS}\"></rdf:RDF>"
        )
    );
}

#[test]
fn consecutive_same_subject_triples_share_one_description() {
    let out = document(vec![
        triple(
            named("http://example.com/s"),
            "http://schema.org/name",
            Term::Literal { literal: Literal::Simple { value: String::from("Alice") } },
        ),
        triple(
            named("http://example.com/s"),
            "http://schema.org/knows",
            Term::NamedNode { iri: String::from("http://example.com/o") },
        ),
    ]);
    assert_eq!(
        out,
        format!(
            "<?xml version=\"1.0\" encoding=\"UTF-8\"?>\
             <rdf:RDF xmlns:rdf=\"{RDF_NS}\">\
             <rdf:Description rdf:about=\"http://example.com/s\">\
             <name xmlns=\"http://schema.org/\">Alice</name>\
             <knows xmlns=\"http://schema.org/\" rdf:resource=\"http://example.com/o\"/>\
             </rdf:Description>\
             </rdf:RDF>"
        )
    );
}

#[test]
fn reappearing_subject_opens_a_new_description() {
    let out = document(vec![
        triple(
            named("http://example.com/a"),
            "http://schema.org/name",
            Term::Literal { literal: Literal::Simple { value: String::from("first") } },
        ),
        triple(
            named("http://example.com/b"),
            "http://schema.org/name",
            Term::Literal { literal: Literal::Simple { value: String::from("second") } },
        ),
        triple(
            named("http://example.com/a"),
            "http://schema.org/name",
            Term::Literal { literal: Literal::Simple { value: String::from("third") } },
        ),
    ]);
    assert_eq!(out.matches("<rdf:Description ").count(), 3);
    assert_eq!(out.matches("</rdf:Description>").count(), 3);
}

#[test]
fn blank_nodes_use_node_id() {
    let out = document(vec![triple(
        Subject::BlankNode { id: String::from("b0") },
        "http://schema.org/knows",
        Term::BlankNode { id: String::from("b1") },
    )]);
    assert_eq!(
        out,
        format!(
            "<?xml version=\"1.0\" encoding=\"UTF-8\"?>\
             <rdf:RDF xmlns:rdf=\"{RDF_NS}\">\
             <rdf:Description rdf:nodeID=\"b0\">\
             <knows xmlns=\"http://schema.org/\" rdf:nodeID=\"b1\"/>\
             </rdf:Description>\
             </rdf:RDF>"
        )
    );
}

#[test]
fn language_tagged_literal_carries_xml_lang() {
    let out = document(vec![triple(
        named("http://example.com/s"),
        "http://schema.org/name",
        Term::Literal {
            literal: Literal::LanguageTaggedString {
                value: String::from("Alice"),
                language: String::from("en"),
            },
        },
    )]);
    assert!(out.contains("<name xmlns=\"http://schema.org/\" xml:lang=\"en\">Alice</name>"));
    assert!(!out.contains("rdf:datatype"));
}

#[test]
fn typed_literal_carries_datatype() {
    let out = document(vec![triple(
        named("http://example.com/s"),
        "http://schema.org/age",
        Term::Literal {
            literal: Literal::Typed {
                value: String::from("30"),
                datatype: String::from("http://www.w3.org/2001/XMLSchema#integer"),
            },
        },
    )]);
    assert!(out.contains(
        "<age xmlns=\"http://schema.org/\" \
         rdf:datatype=\"http://www.w3.org/2001/XMLSchema#integer\">30</age>"
    ));
    assert!(!out.contains("xml:lang"));
}

#[test]
fn unsplittable_predicate_falls_back_to_prop() {
    let out = document(vec![triple(
        named("http://example.com/s"),
        "http://schema.org/",
        Term::Literal { literal: Literal::Simple { value: String::from("v") } },
    )]);
    assert!(out.contains("<prop: xmlns:prop=\"http://schema.org/\">v</prop:>"));
}

#[test]
fn text_and_attribute_values_are_escaped() {
    let out = document(vec![triple(
        named("http://example.com/s?a=1&b=2"),
        "http://schema.org/name",
        Term::Literal { literal: Literal::Simple { value: String::from("a<b&c") } },
    )]);
    assert!(out.contains("rdf:about=\"http://example.com/s?a=1&amp;b=2\""));
    assert!(out.contains(">a&lt;b&amp;c</name>"));
}

#[test]
fn document_always_closes_the_root() {
    let with_triples = document(vec![triple(
        named("http://example.com/s"),
        "http://schema.org/name",
        Term::Literal { literal: Literal::Simple { value: String::from("v") } },
    )]);
    assert!(with_triples.ends_with("</rdf:Description></rdf:RDF>"));
    let empty = document(vec![]);
    assert!(empty.ends_with("</rdf:RDF>"));
    assert!(!empty.contains("rdf:Description"));
}
