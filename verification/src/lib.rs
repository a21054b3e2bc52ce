//! Streaming RDF/XML serialization.
//!
//! Triples (subject, predicate, object) are pushed one at a time into a
//! formatter, which groups consecutive triples that share a subject into one
//! `rdf:Description` element and encodes each object as an XML attribute or
//! as text content, writing the document incrementally to a byte sink.

pub mod error;
pub mod formatter;
pub mod laws;
pub mod model;
pub mod name_chars;
pub mod split;
pub mod writer;

pub use error::RdfXmlError;
pub use formatter::RdfXmlFormatter;
pub use model::Literal;
pub use model::Subject;
pub use model::Term;
pub use model::Triple;
pub use name_chars::is_name_char;
pub use name_chars::is_name_start_char;
pub use split::split_iri;
pub use writer::XmlEvent;
pub use writer::XmlWriter;
