//! A streaming XML event writer.
//!
//! `XmlWriter` emits XML events (declaration, start tag, empty tag, end
//! tag, text) into an in-memory byte sink, and its view is the sequence of
//! events emitted so far. Serialization of each event to bytes is done by
//! quick_xml's `Writer`, reached through trusted wrappers; everything said
//! about an `XmlWriter` is said over its event sequence.

use vstd::prelude::*;

use crate::error::RdfXmlError;

verus! {

/// One XML event, as the writer's view records it: each name, attribute
/// and text value is a sequence of characters, and attributes are ordered.
#[verifier::ext_equal]
pub enum XmlEvent {
    Declaration { version: Seq<char>, encoding: Seq<char> },
    StartElement { name: Seq<char>, attrs: Seq<(Seq<char>, Seq<char>)> },
    EmptyElement { name: Seq<char>, attrs: Seq<(Seq<char>, Seq<char>)> },
    EndElement { name: Seq<char> },
    Text { value: Seq<char> },
}

/// The view of an attribute list: each name and value as its characters.
pub open spec fn attrs_view(attrs: Seq<(String, String)>) -> Seq<(Seq<char>, Seq<char>)> {
    attrs.map(|i: int, a: (String, String)| (a.0@, a.1@))
}

/// Declares quick_xml's streaming XML writer so that it can stand in a field.
#[verifier::external_type_specification]
#[verifier::external_body]
#[verifier::reject_recursive_types(W)]
pub struct ExQuickXmlWriter<W>(quick_xml::Writer<W>);

/// Declares std's I/O error, the failure that quick_xml's writer reports.
#[verifier::external_type_specification]
#[verifier::external_body]
pub struct ExIoError(std::io::Error);

/// Relies on quick_xml's `Writer::new` to build a writer over a fresh byte
/// buffer, with indentation off.
#[verifier::external_body]
fn qx_new_writer() -> quick_xml::Writer<Vec<u8>> {
    quick_xml::Writer::new(Vec::new())
}

/// Relies on quick_xml's `Writer::write_event` with `Event::Decl` to write
/// an XML declaration; a write into a `Vec<u8>` sink never fails.
#[verifier::external_body]
fn qx_write_declaration(
    w: &mut quick_xml::Writer<Vec<u8>>,
    version: &str,
    encoding: &str,
) -> (r: Result<(), std::io::Error>)
    ensures
        r is Ok,
{
    let decl = quick_xml::events::BytesDecl::new(version, Some(encoding), None);
    w.write_event(quick_xml::events::Event::Decl(decl))
}

/// Relies on quick_xml's `BytesStart` and `Writer::write_event` with
/// `Event::Start` to write a start tag with its attributes, values escaped
/// on write; a write into a `Vec<u8>` sink never fails.
#[verifier::external_body]
fn qx_write_start(
    w: &mut quick_xml::Writer<Vec<u8>>,
    name: &str,
    attrs: &Vec<(String, String)>,
) -> (r: Result<(), std::io::Error>)
    ensures
        r is Ok,
{
    let mut elem = quick_xml::events::BytesStart::new(name);
    for a in attrs.iter() {
        elem.push_attribute((a.0.as_str(), a.1.as_str()));
    }
    w.write_event(quick_xml::events::Event::Start(elem))
}

/// Relies on quick_xml's `BytesStart` and `Writer::write_event` with
/// `Event::Empty` to write a self-closing tag with its attributes; a write
/// into a `Vec<u8>` sink never fails.
#[verifier::external_body]
fn qx_write_empty(
    w: &mut quick_xml::Writer<Vec<u8>>,
    name: &str,
    attrs: &Vec<(String, String)>,
) -> (r: Result<(), std::io::Error>)
    ensures
        r is Ok,
{
    let mut elem = quick_xml::events::BytesStart::new(name);
    for a in attrs.iter() {
        elem.push_attribute((a.0.as_str(), a.1.as_str()));
    }
    w.write_event(quick_xml::events::Event::Empty(elem))
}

/// Relies on quick_xml's `BytesEnd` and `Writer::write_event` with
/// `Event::End` to write a closing tag; a write into a `Vec<u8>` sink
/// never fails.
#[verifier::external_body]
fn qx_write_end(w: &mut quick_xml::Writer<Vec<u8>>, name: &str) -> (r: Result<(), std::io::Error>)
    ensures
        r is Ok,
{
    w.write_event(quick_xml::events::Event::End(quick_xml::events::BytesEnd::new(name)))
}

/// Relies on quick_xml's `BytesText::new` (which escapes the text) and
/// `Writer::write_event` with `Event::Text`; a write into a `Vec<u8>` sink
/// never fails.
#[verifier::external_body]
fn qx_write_text(w: &mut quick_xml::Writer<Vec<u8>>, value: &str) -> (r: Result<(), std::io::Error>)
    ensures
        r is Ok,
{
    w.write_event(quick_xml::events::Event::Text(quick_xml::events::BytesText::new(value)))
}

/// Relies on quick_xml's `Writer::into_inner` to hand back the byte buffer
/// the events were serialized into.
#[verifier::external_body]
fn qx_into_inner(w: quick_xml::Writer<Vec<u8>>) -> Vec<u8> {
    w.into_inner()
}

/// A streaming XML writer over an in-memory byte sink, viewed as the
/// sequence of events written so far.
pub struct XmlWriter {
    inner: quick_xml::Writer<Vec<u8>>,
    events: Ghost<Seq<XmlEvent>>,
}

impl View for XmlWriter {
    type V = Seq<XmlEvent>;

    closed spec fn view(&self) -> Seq<XmlEvent> {
        self.events@
    }
}

impl XmlWriter {
    /// A writer that has emitted nothing yet.
    pub fn new() -> (w: XmlWriter)
        ensures
            w@ == Seq::<XmlEvent>::empty(),
    {
        XmlWriter { inner: qx_new_writer(), events: Ghost(Seq::empty()) }
    }

    /// Emits an XML declaration.
    pub fn write_declaration(&mut self, version: &str, encoding: &str) -> (r: Result<
        (),
        RdfXmlError,
    >)
        ensures
            r is Ok,
            final(self)@ == old(self)@.push(
                XmlEvent::Declaration { version: version@, encoding: encoding@ },
            ),
    {
        match qx_write_declaration(&mut self.inner, version, encoding) {
            Ok(()) => {
                self.events = Ghost(
                    self.events@.push(
                        XmlEvent::Declaration { version: version@, encoding: encoding@ },
                    ),
                );
                Ok(())
            },
            Err(e) => Err(RdfXmlError::from_io(e)),
        }
    }

    /// Emits a start tag with the given attributes, in order.
    pub fn write_start_element(&mut self, name: &str, attrs: &Vec<(String, String)>) -> (r: Result<
        (),
        RdfXmlError,
    >)
        ensures
            r is Ok,
            final(self)@ == old(self)@.push(
                XmlEvent::StartElement { name: name@, attrs: attrs_view(attrs@) },
            ),
    {
        match qx_write_start(&mut self.inner, name, attrs) {
            Ok(()) => {
                self.events = Ghost(
                    self.events@.push(
                        XmlEvent::StartElement { name: name@, attrs: attrs_view(attrs@) },
                    ),
                );
                Ok(())
            },
            Err(e) => Err(RdfXmlError::from_io(e)),
        }
    }

    /// Emits a self-closing tag with the given attributes, in order.
    pub fn write_empty_element(&mut self, name: &str, attrs: &Vec<(String, String)>) -> (r: Result<
        (),
        RdfXmlError,
    >)
        ensures
            r is Ok,
            final(self)@ == old(self)@.push(
                XmlEvent::EmptyElement { name: name@, attrs: attrs_view(attrs@) },
            ),
    {
        match qx_write_empty(&mut self.inner, name, attrs) {
            Ok(()) => {
                self.events = Ghost(
                    self.events@.push(
                        XmlEvent::EmptyElement { name: name@, attrs: attrs_view(attrs@) },
                    ),
                );
                Ok(())
            },
            Err(e) => Err(RdfXmlError::from_io(e)),
        }
    }

    /// Emits a closing tag.
    pub fn write_end_element(&mut self, name: &str) -> (r: Result<(), RdfXmlError>)
        ensures
            r is Ok,
            final(self)@ == old(self)@.push(XmlEvent::EndElement { name: name@ }),
    {
        match qx_write_end(&mut self.inner, name) {
            Ok(()) => {
                self.events = Ghost(self.events@.push(XmlEvent::EndElement { name: name@ }));
                Ok(())
            },
            Err(e) => Err(RdfXmlError::from_io(e)),
        }
    }

    /// Emits text content, escaped on write.
    pub fn write_text(&mut self, value: &str) -> (r: Result<(), RdfXmlError>)
        ensures
            r is Ok,
            final(self)@ == old(self)@.push(XmlEvent::Text { value: value@ }),
    {
        match qx_write_text(&mut self.inner, value) {
            Ok(()) => {
                self.events = Ghost(self.events@.push(XmlEvent::Text { value: value@ }));
                Ok(())
            },
            Err(e) => Err(RdfXmlError::from_io(e)),
        }
    }

    /// Hands back the bytes the events were serialized into.
    pub fn into_bytes(self) -> Vec<u8> {
        qx_into_inner(self.inner)
    }
}

} // verus!
