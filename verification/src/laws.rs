//! Properties of the serialization, stated and proved over the event
//! model: grouping of consecutive same-subject triples, the shape of
//! property elements, exclusivity of literal attributes, and closure of
//! the finished document.

use vstd::prelude::*;

use crate::formatter::closing_events;
use crate::formatter::description_end_event;
use crate::formatter::description_open_event;
use crate::formatter::format_events;
use crate::formatter::object_text;
use crate::formatter::property_attrs;
use crate::formatter::property_events;
use crate::formatter::property_tag;
use crate::formatter::subject_events;
use crate::formatter::xmlns_attr;
use crate::model::SpecLiteral;
use crate::model::SpecSubject;
use crate::model::SpecTerm;
use crate::model::SpecTriple;
use crate::writer::XmlEvent;

verus! {

/// The events a whole sequence of `format` calls emits, starting from a
/// retained subject: each triple's events, with the retained subject
/// updated to the triple's subject after each call.
pub open spec fn events_of_triples(cur: Option<SpecSubject>, ts: Seq<SpecTriple>) -> Seq<XmlEvent>
    decreases ts.len(),
{
    if ts.len() == 0 {
        Seq::<XmlEvent>::empty()
    } else {
        format_events(cur, ts[0]) + events_of_triples(Some(ts[0].subject), ts.skip(1))
    }
}

/// The property elements of a sequence of triples, with no subject-group
/// boundary events among them.
pub open spec fn properties_of_triples(ts: Seq<SpecTriple>) -> Seq<XmlEvent>
    decreases ts.len(),
{
    if ts.len() == 0 {
        Seq::<XmlEvent>::empty()
    } else {
        property_events(ts[0].predicate, ts[0].object) + properties_of_triples(ts.skip(1))
    }
}

/// Grouping: a sequence of triples that all share one subject contributes
/// the subject's boundary events once, followed by nothing but the
/// triples' property elements — one `rdf:Description` element wraps them
/// all.
pub proof fn lemma_grouping(cur: Option<SpecSubject>, ts: Seq<SpecTriple>, s: SpecSubject)
    requires
        ts.len() > 0,
        forall|i: int| 0 <= i < ts.len() ==> (#[trigger] ts[i]).subject == s,
    ensures
        events_of_triples(cur, ts) == subject_events(cur, s) + properties_of_triples(ts),
    decreases ts.len(),
{
    if ts.len() == 1 {
        assert(events_of_triples(Some(ts[0].subject), ts.skip(1))
            == Seq::<XmlEvent>::empty());
        assert(properties_of_triples(ts.skip(1)) == Seq::<XmlEvent>::empty());
        assert(events_of_triples(cur, ts) =~= subject_events(cur, s)
            + properties_of_triples(ts));
    } else {
        assert(forall|i: int|
            0 <= i < ts.skip(1).len() ==> (#[trigger] ts.skip(1)[i]).subject == s) by {
            assert(forall|i: int|
                0 <= i < ts.skip(1).len() ==> ts.skip(1)[i] == ts[i + 1]);
        }
        lemma_grouping(Some(s), ts.skip(1), s);
        assert(subject_events(Some(s), s) == Seq::<XmlEvent>::empty());
        assert(events_of_triples(cur, ts) =~= subject_events(cur, s)
            + properties_of_triples(ts));
    }
}

/// A triple whose subject equals the retained one adds no subject-group
/// boundary: its events are its property element's events alone.
pub proof fn lemma_same_subject_no_boundary(cur: Option<SpecSubject>, t: SpecTriple)
    requires
        cur == Some(t.subject),
    ensures
        format_events(cur, t) == property_events(t.predicate, t.object),
{
    assert(format_events(cur, t) =~= property_events(t.predicate, t.object));
}

/// A triple whose subject differs from the retained one — also one whose
/// subject reappears after other subjects — closes the open group, if
/// any, and opens a new `rdf:Description` element.
pub proof fn lemma_new_subject_opens_group(cur: Option<SpecSubject>, s: SpecSubject)
    requires
        cur != Some(s),
    ensures
        subject_events(cur, s).len() == (if cur is Some { 2int } else { 1int }),
        subject_events(cur, s).last() == description_open_event(s),
        cur is Some ==> subject_events(cur, s)[0] == description_end_event(),
{
}

/// A resource-reference object (named node or blank node) yields a single
/// self-closing property element and no text content.
pub proof fn lemma_resource_object_self_closing(pred: Seq<char>, o: SpecTerm)
    requires
        o is NamedNode || o is BlankNode,
    ensures
        property_events(pred, o).len() == 1,
        property_events(pred, o)[0] == (XmlEvent::EmptyElement {
            name: property_tag(pred),
            attrs: property_attrs(pred, o),
        }),
        forall|i: int| 0 <= i < property_events(pred, o).len()
            ==> !((#[trigger] property_events(pred, o)[i]) is Text),
{
}

/// A literal object yields an open tag, exactly the literal's value as
/// text content, and a close tag.
pub proof fn lemma_literal_object_text_content(pred: Seq<char>, o: SpecTerm)
    requires
        o is Literal,
    ensures
        object_text(o) is Some,
        property_events(pred, o).len() == 3,
        property_events(pred, o)[0] == (XmlEvent::StartElement {
            name: property_tag(pred),
            attrs: property_attrs(pred, o),
        }),
        property_events(pred, o)[1] == (XmlEvent::Text { value: object_text(o)->Some_0 }),
        property_events(pred, o)[2] == (XmlEvent::EndElement { name: property_tag(pred) }),
{
}

/// How many attributes of the list carry the given name.
pub open spec fn count_attr_key(attrs: Seq<(Seq<char>, Seq<char>)>, key: Seq<char>) -> nat
    decreases attrs.len(),
{
    if attrs.len() == 0 {
        0nat
    } else {
        (if attrs[0].0 == key {
            1nat
        } else {
            0nat
        }) + count_attr_key(attrs.skip(1), key)
    }
}

/// Literal attribute exclusivity: a property element carries at most one
/// of `xml:lang` and `rdf:datatype`, never both, and neither when the
/// object is a resource reference.
pub proof fn lemma_literal_attribute_exclusivity(pred: Seq<char>, o: SpecTerm)
    ensures
        count_attr_key(property_attrs(pred, o), "xml:lang"@) + count_attr_key(
            property_attrs(pred, o),
            "rdf:datatype"@,
        ) <= 1,
        (o is NamedNode || o is BlankNode) ==> count_attr_key(
            property_attrs(pred, o),
            "xml:lang"@,
        ) + count_attr_key(property_attrs(pred, o), "rdf:datatype"@) == 0,
{
    reveal_strlit("xml:lang");
    reveal_strlit("rdf:datatype");
    reveal_strlit("xmlns");
    reveal_strlit("xmlns:prop");
    reveal_strlit("rdf:resource");
    reveal_strlit("rdf:nodeID");
    let lang = "xml:lang"@;
    let dt = "rdf:datatype"@;
    let attrs = property_attrs(pred, o);
    assert(attrs[0] == xmlns_attr(pred));
    assert(attrs[0].0 != lang && attrs[0].0 != dt) by {
        assert("xmlns"@.len() == 5 && "xmlns:prop"@.len() == 10);
        assert(lang.len() == 8 && dt.len() == 12);
    }
    lemma_count_attr_key_unfold(attrs, lang);
    lemma_count_attr_key_unfold(attrs, dt);
    match o {
        SpecTerm::NamedNode { iri: _ } => {
            assert(attrs[1].0 == "rdf:resource"@);
            assert(attrs[1].0 != lang) by {
                assert(lang.len() == 8 && "rdf:resource"@.len() == 12);
            }
            assert(attrs[1].0 != dt) by {
                assert("rdf:resource"@[4] == 'r');
                assert(dt[4] == 'd');
            }
        },
        SpecTerm::BlankNode { id: _ } => {
            assert(attrs[1].0 == "rdf:nodeID"@);
            assert(attrs[1].0 != lang && attrs[1].0 != dt) by {
                assert("rdf:nodeID"@.len() == 10);
                assert(lang.len() == 8 && dt.len() == 12);
            }
        },
        SpecTerm::Literal { literal } => match literal {
            SpecLiteral::Simple { value: _ } => {
                assert(attrs.len() == 1);
            },
            SpecLiteral::LanguageTaggedString { value: _, language: _ } => {
                assert(attrs[1].0 == lang);
                assert(attrs[1].0 != dt) by {
                    assert(lang.len() == 8 && dt.len() == 12);
                }
            },
            SpecLiteral::Typed { value: _, datatype: _ } => {
                assert(attrs[1].0 == dt);
                assert(attrs[1].0 != lang) by {
                    assert(lang.len() == 8 && dt.len() == 12);
                }
            },
        },
    }
}

/// Unfolds `count_attr_key` over the one- or two-element attribute lists
/// that a property element carries.
proof fn lemma_count_attr_key_unfold(attrs: Seq<(Seq<char>, Seq<char>)>, key: Seq<char>)
    requires
        1 <= attrs.len() <= 2,
    ensures
        attrs.len() == 1 ==> count_attr_key(attrs, key) == (if attrs[0].0 == key {
            1nat
        } else {
            0nat
        }),
        attrs.len() == 2 ==> count_attr_key(attrs, key) == (if attrs[0].0 == key {
            1nat
        } else {
            0nat
        }) + (if attrs[1].0 == key {
            1nat
        } else {
            0nat
        }),
{
    reveal_with_fuel(count_attr_key, 3);
    if attrs.len() == 1 {
        assert(attrs.skip(1).len() == 0);
    } else {
        assert(attrs.skip(1).len() == 1);
        assert(attrs.skip(1)[0] == attrs[1]);
        assert(attrs.skip(1).skip(1).len() == 0);
    }
}

/// Document closure: the closing events always end with the close of the
/// `rdf:RDF` root, and when a subject group is open — that is, when at
/// least one triple was formatted — exactly one `rdf:Description` close
/// immediately precedes it.
pub proof fn lemma_document_closure(cur: Option<SpecSubject>)
    ensures
        closing_events(cur).len() >= 1,
        closing_events(cur).last() == (XmlEvent::EndElement { name: "rdf:RDF"@ }),
        cur is Some ==> closing_events(cur).len() == 2 && closing_events(cur)[0]
            == description_end_event(),
        cur is None ==> closing_events(cur).len() == 1,
{
}

} // verus!
