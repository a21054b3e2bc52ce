//! The RDF/XML serialization state machine.
//!
//! The formatter consumes triples one at a time. Consecutive triples that
//! share a subject are grouped under one `rdf:Description` element; each
//! triple's predicate and object become one property element inside it.
//! The only state carried between calls is the subject of the last triple.
//! The formatter's view is a pair: the sequence of XML events emitted so
//! far, and the retained subject.

use vstd::prelude::*;

use crate::error::RdfXmlError;
use crate::model::Literal;
use crate::model::SpecLiteral;
use crate::model::SpecSubject;
use crate::model::SpecTerm;
use crate::model::SpecTriple;
use crate::model::Subject;
use crate::model::Term;
use crate::model::Triple;
use crate::model::subject_eq;
use crate::split::spec_split_iri;
use crate::split::split_iri;
use crate::writer::XmlEvent;
use crate::writer::XmlWriter;
use crate::writer::attrs_view;

verus! {

/// The RDF namespace IRI, bound to the prefix `rdf` on the root element.
pub open spec fn rdf_namespace_iri() -> Seq<char> {
    "http://www.w3.org/1999/02/22-rdf-syntax-ns#"@
}

/// The events a fresh formatter has emitted: the XML declaration and the
/// opened `rdf:RDF` root element with its namespace declaration.
pub open spec fn prologue_events() -> Seq<XmlEvent> {
    seq![
        XmlEvent::Declaration { version: "1.0"@, encoding: "UTF-8"@ },
        XmlEvent::StartElement {
            name: "rdf:RDF"@,
            attrs: seq![("xmlns:rdf"@, rdf_namespace_iri())],
        },
    ]
}

/// The start tag of a subject group: `rdf:Description`, with `rdf:about`
/// for a named node and `rdf:nodeID` for a blank node.
pub open spec fn description_open_event(s: SpecSubject) -> XmlEvent {
    match s {
        SpecSubject::NamedNode { iri } => XmlEvent::StartElement {
            name: "rdf:Description"@,
            attrs: seq![("rdf:about"@, iri)],
        },
        SpecSubject::BlankNode { id } => XmlEvent::StartElement {
            name: "rdf:Description"@,
            attrs: seq![("rdf:nodeID"@, id)],
        },
    }
}

/// The end tag of a subject group.
pub open spec fn description_end_event() -> XmlEvent {
    XmlEvent::EndElement { name: "rdf:Description"@ }
}

/// The events a triple's subject contributes, given the retained subject:
/// nothing when the subject is unchanged; otherwise the close of the open
/// group, if any, then the open of a new one.
pub open spec fn subject_events(cur: Option<SpecSubject>, s: SpecSubject) -> Seq<XmlEvent> {
    if cur == Some(s) {
        Seq::<XmlEvent>::empty()
    } else if cur is Some {
        seq![description_end_event(), description_open_event(s)]
    } else {
        seq![description_open_event(s)]
    }
}

/// The property element's tag: the predicate IRI's local part, or the
/// synthetic `prop:` when no local part can be cut off.
pub open spec fn property_tag(pred: Seq<char>) -> Seq<char> {
    if spec_split_iri(pred).1.len() == 0 {
        "prop:"@
    } else {
        spec_split_iri(pred).1
    }
}

/// The property element's namespace declaration: `xmlns` bound to the
/// predicate's namespace part, or `xmlns:prop` bound to the entire
/// predicate IRI when no local part can be cut off.
pub open spec fn xmlns_attr(pred: Seq<char>) -> (Seq<char>, Seq<char>) {
    if spec_split_iri(pred).1.len() == 0 {
        ("xmlns:prop"@, pred)
    } else {
        ("xmlns"@, spec_split_iri(pred).0)
    }
}

/// The attributes the object contributes to the property element:
/// `rdf:resource` or `rdf:nodeID` for a resource reference, `xml:lang` or
/// `rdf:datatype` for a tagged or typed literal, nothing for a simple one.
pub open spec fn object_attrs(o: SpecTerm) -> Seq<(Seq<char>, Seq<char>)> {
    match o {
        SpecTerm::NamedNode { iri } => seq![("rdf:resource"@, iri)],
        SpecTerm::BlankNode { id } => seq![("rdf:nodeID"@, id)],
        SpecTerm::Literal { literal } => match literal {
            SpecLiteral::Simple { value: _ } => Seq::<(Seq<char>, Seq<char>)>::empty(),
            SpecLiteral::LanguageTaggedString { value: _, language } => seq![
                ("xml:lang"@, language),
            ],
            SpecLiteral::Typed { value: _, datatype } => seq![("rdf:datatype"@, datatype)],
        },
    }
}

/// The property element's text content: the literal's value, or nothing
/// for a resource reference.
pub open spec fn object_text(o: SpecTerm) -> Option<Seq<char>> {
    match o {
        SpecTerm::Literal { literal } => match literal {
            SpecLiteral::Simple { value } => Some(value),
            SpecLiteral::LanguageTaggedString { value, language: _ } => Some(value),
            SpecLiteral::Typed { value, datatype: _ } => Some(value),
        },
        SpecTerm::NamedNode { iri: _ } => None,
        SpecTerm::BlankNode { id: _ } => None,
    }
}

/// All attributes of the property element, in order: the namespace
/// declaration first, then what the object contributes.
pub open spec fn property_attrs(pred: Seq<char>, o: SpecTerm) -> Seq<(Seq<char>, Seq<char>)> {
    seq![xmlns_attr(pred)] + object_attrs(o)
}

/// The events one property element contributes: open tag, text and close
/// tag for a literal object, one self-closing tag otherwise.
pub open spec fn property_events(pred: Seq<char>, o: SpecTerm) -> Seq<XmlEvent> {
    match object_text(o) {
        Some(v) => seq![
            XmlEvent::StartElement { name: property_tag(pred), attrs: property_attrs(pred, o) },
            XmlEvent::Text { value: v },
            XmlEvent::EndElement { name: property_tag(pred) },
        ],
        None => seq![
            XmlEvent::EmptyElement { name: property_tag(pred), attrs: property_attrs(pred, o) },
        ],
    }
}

/// The events one `format` call emits, given the retained subject.
pub open spec fn format_events(cur: Option<SpecSubject>, t: SpecTriple) -> Seq<XmlEvent> {
    subject_events(cur, t.subject) + property_events(t.predicate, t.object)
}

/// The events `finish` emits: the close of the open subject group, if any,
/// then the close of the `rdf:RDF` root.
pub open spec fn closing_events(cur: Option<SpecSubject>) -> Seq<XmlEvent> {
    if cur is Some {
        seq![description_end_event(), XmlEvent::EndElement { name: "rdf:RDF"@ }]
    } else {
        seq![XmlEvent::EndElement { name: "rdf:RDF"@ }]
    }
}

/// The view of a formatter: what it has emitted, and the retained subject.
#[verifier::ext_equal]
pub struct SpecFormatter {
    pub events: Seq<XmlEvent>,
    pub subject: Option<SpecSubject>,
}

/// A streaming RDF/XML formatter.
pub struct RdfXmlFormatter {
    writer: XmlWriter,
    current_subject: Option<Subject>,
}

impl View for RdfXmlFormatter {
    type V = SpecFormatter;

    closed spec fn view(&self) -> SpecFormatter {
        SpecFormatter {
            events: self.writer@,
            subject: match self.current_subject {
                Some(s) => Some(s@),
                None => None,
            },
        }
    }
}

impl RdfXmlFormatter {
    /// Builds a new formatter and starts writing: the document prolog and
    /// the opened `rdf:RDF` root, with no subject group open yet.
    pub fn new() -> (r: Result<RdfXmlFormatter, RdfXmlError>)
        ensures
            r is Ok,
            r->Ok_0@.events == prologue_events(),
            r->Ok_0@.subject is None,
    {
        let mut writer = XmlWriter::new();
        match writer.write_declaration("1.0", "UTF-8") {
            Ok(()) => {},
            Err(e) => {
                return Err(e);
            },
        }
        let mut attrs: Vec<(String, String)> = Vec::new();
        attrs.push(
            (
                String::from_str("xmlns:rdf"),
                String::from_str("http://www.w3.org/1999/02/22-rdf-syntax-ns#"),
            ),
        );
        match writer.write_start_element("rdf:RDF", &attrs) {
            Ok(()) => {},
            Err(e) => {
                return Err(e);
            },
        }
        proof {
            assert(writer@ =~~= prologue_events());
        }
        Ok(RdfXmlFormatter { writer, current_subject: None })
    }

    /// Serializes one triple: closes and opens a subject group as the
    /// subject requires, then emits the triple's property element.
    pub fn format(&mut self, triple: &Triple) -> (r: Result<(), RdfXmlError>)
        ensures
            r is Ok,
            final(self)@.events == old(self)@.events + format_events(
                old(self)@.subject,
                triple@,
            ),
            final(self)@.subject == Some(triple.subject@),
    {
        let ghost start_events = self.writer@;
        let ghost cur = self@.subject;
        let same = match &self.current_subject {
            Some(c) => subject_eq(c, &triple.subject),
            None => false,
        };
        if !same {
            if self.current_subject.is_some() {
                match self.writer.write_end_element("rdf:Description") {
                    Ok(()) => {},
                    Err(e) => {
                        return Err(e);
                    },
                }
            }
            let mut attrs: Vec<(String, String)> = Vec::new();
            match &triple.subject {
                Subject::NamedNode { iri } => {
                    attrs.push((String::from_str("rdf:about"), iri.clone()));
                },
                Subject::BlankNode { id } => {
                    attrs.push((String::from_str("rdf:nodeID"), id.clone()));
                },
            }
            match self.writer.write_start_element("rdf:Description", &attrs) {
                Ok(()) => {},
                Err(e) => {
                    return Err(e);
                },
            }
        }
        proof {
            assert(self.writer@ =~~= start_events + subject_events(cur, triple.subject@));
        }
        let ghost after_subject = self.writer@;
        let (prop_prefix, prop_value) = split_iri(triple.predicate.as_str());
        let prop_is_empty = prop_value.is_empty();
        let tag: &str = if prop_is_empty {
            "prop:"
        } else {
            prop_value
        };
        let mut pattrs: Vec<(String, String)> = Vec::new();
        if prop_is_empty {
            pattrs.push((String::from_str("xmlns:prop"), triple.predicate.clone()));
        } else {
            pattrs.push((String::from_str("xmlns"), String::from_str(prop_prefix)));
        }
        match &triple.object {
            Term::NamedNode { iri } => {
                pattrs.push((String::from_str("rdf:resource"), iri.clone()));
            },
            Term::BlankNode { id } => {
                pattrs.push((String::from_str("rdf:nodeID"), id.clone()));
            },
            Term::Literal { literal } => match literal {
                Literal::Simple { value: _ } => {},
                Literal::LanguageTaggedString { value: _, language } => {
                    pattrs.push((String::from_str("xml:lang"), language.clone()));
                },
                Literal::Typed { value: _, datatype } => {
                    pattrs.push((String::from_str("rdf:datatype"), datatype.clone()));
                },
            },
        }
        proof {
            assert(tag@ == property_tag(triple.predicate@));
            assert(attrs_view(pattrs@) =~~= property_attrs(triple.predicate@, triple.object@));
        }
        match &triple.object {
            Term::Literal { literal } => {
                let value: &str = match literal {
                    Literal::Simple { value } => value.as_str(),
                    Literal::LanguageTaggedString { value, language: _ } => value.as_str(),
                    Literal::Typed { value, datatype: _ } => value.as_str(),
                };
                match self.writer.write_start_element(tag, &pattrs) {
                    Ok(()) => {},
                    Err(e) => {
                        return Err(e);
                    },
                }
                match self.writer.write_text(value) {
                    Ok(()) => {},
                    Err(e) => {
                        return Err(e);
                    },
                }
                match self.writer.write_end_element(tag) {
                    Ok(()) => {},
                    Err(e) => {
                        return Err(e);
                    },
                }
            },
            _ => {
                match self.writer.write_empty_element(tag, &pattrs) {
                    Ok(()) => {},
                    Err(e) => {
                        return Err(e);
                    },
                }
            },
        }
        self.current_subject = Some(triple.subject.duplicate());
        proof {
            assert(self.writer@ =~~= after_subject + property_events(
                triple.predicate@,
                triple.object@,
            ));
            assert(self.writer@ =~~= start_events + format_events(cur, triple@));
        }
        Ok(())
    }

    /// Closes the open subject group, if any, then the `rdf:RDF` root, and
    /// returns the underlying writer: the document is complete, and its
    /// event sequence ends with the root's close.
    pub fn finish(self) -> (r: Result<XmlWriter, RdfXmlError>)
        ensures
            r is Ok,
            r->Ok_0@ == self@.events + closing_events(self@.subject),
            r->Ok_0@.len() > 0,
            r->Ok_0@.last() == (XmlEvent::EndElement { name: "rdf:RDF"@ }),
    {
        let ghost m = self@;
        let RdfXmlFormatter { mut writer, current_subject } = self;
        if current_subject.is_some() {
            match writer.write_end_element("rdf:Description") {
                Ok(()) => {},
                Err(e) => {
                    return Err(e);
                },
            }
        }
        match writer.write_end_element("rdf:RDF") {
            Ok(()) => {},
            Err(e) => {
                return Err(e);
            },
        }
        proof {
            assert(writer@ =~~= m.events + closing_events(m.subject));
        }
        Ok(writer)
    }
}

} // verus!
