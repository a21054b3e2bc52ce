//! The RDF data model that the formatter consumes.
//!
//! A triple is (subject, predicate, object): the subject is a named node
//! (an IRI) or a blank node (a document-scoped identifier), the predicate
//! is an IRI, and the object is a named node, a blank node, or a literal
//! in one of its three forms (simple, language-tagged, datatype-typed).
//! The mathematical view of each type replaces every string by its
//! sequence of characters.

use vstd::prelude::*;

verus! {

/// A subject reference: a named node or a blank node.
pub enum Subject {
    NamedNode { iri: String },
    BlankNode { id: String },
}

/// A literal object: a string value, optionally language-tagged or typed.
pub enum Literal {
    Simple { value: String },
    LanguageTaggedString { value: String, language: String },
    Typed { value: String, datatype: String },
}

/// An object term: a resource reference or a literal.
pub enum Term {
    NamedNode { iri: String },
    BlankNode { id: String },
    Literal { literal: Literal },
}

/// One RDF statement.
pub struct Triple {
    pub subject: Subject,
    pub predicate: String,
    pub object: Term,
}

/// The view of a `Subject`.
#[verifier::ext_equal]
pub enum SpecSubject {
    NamedNode { iri: Seq<char> },
    BlankNode { id: Seq<char> },
}

/// The view of a `Literal`.
#[verifier::ext_equal]
pub enum SpecLiteral {
    Simple { value: Seq<char> },
    LanguageTaggedString { value: Seq<char>, language: Seq<char> },
    Typed { value: Seq<char>, datatype: Seq<char> },
}

/// The view of a `Term`.
#[verifier::ext_equal]
pub enum SpecTerm {
    NamedNode { iri: Seq<char> },
    BlankNode { id: Seq<char> },
    Literal { literal: SpecLiteral },
}

/// The view of a `Triple`.
#[verifier::ext_equal]
pub struct SpecTriple {
    pub subject: SpecSubject,
    pub predicate: Seq<char>,
    pub object: SpecTerm,
}

impl View for Subject {
    type V = SpecSubject;

    open spec fn view(&self) -> SpecSubject {
        match self {
            Subject::NamedNode { iri } => SpecSubject::NamedNode { iri: iri@ },
            Subject::BlankNode { id } => SpecSubject::BlankNode { id: id@ },
        }
    }
}

impl View for Literal {
    type V = SpecLiteral;

    open spec fn view(&self) -> SpecLiteral {
        match self {
            Literal::Simple { value } => SpecLiteral::Simple { value: value@ },
            Literal::LanguageTaggedString { value, language } => SpecLiteral::LanguageTaggedString {
                value: value@,
                language: language@,
            },
            Literal::Typed { value, datatype } => SpecLiteral::Typed {
                value: value@,
                datatype: datatype@,
            },
        }
    }
}

impl View for Term {
    type V = SpecTerm;

    open spec fn view(&self) -> SpecTerm {
        match self {
            Term::NamedNode { iri } => SpecTerm::NamedNode { iri: iri@ },
            Term::BlankNode { id } => SpecTerm::BlankNode { id: id@ },
            Term::Literal { literal } => SpecTerm::Literal { literal: literal@ },
        }
    }
}

impl View for Triple {
    type V = SpecTriple;

    open spec fn view(&self) -> SpecTriple {
        SpecTriple {
            subject: self.subject@,
            predicate: self.predicate@,
            object: self.object@,
        }
    }
}

impl Subject {
    /// An owned copy of the subject, equal to it.
    pub fn duplicate(&self) -> (r: Subject)
        ensures
            r == *self,
    {
        match self {
            Subject::NamedNode { iri } => Subject::NamedNode { iri: iri.clone() },
            Subject::BlankNode { id } => Subject::BlankNode { id: id.clone() },
        }
    }
}

/// Structural equality of two subjects, decided over their views.
pub fn subject_eq(a: &Subject, b: &Subject) -> (r: bool)
    ensures
        r == (a@ == b@),
{
    match (a, b) {
        (Subject::NamedNode { iri: a_iri }, Subject::NamedNode { iri: b_iri }) => *a_iri
            == *b_iri,
        (Subject::BlankNode { id: a_id }, Subject::BlankNode { id: b_id }) => *a_id == *b_id,
        _ => false,
    }
}

} // verus!
