//! The formatter's single error kind: a failure of the underlying writer.

use vstd::prelude::*;

verus! {

/// A formatting error, wrapping the I/O failure the byte sink reported.
#[derive(Debug)]
pub struct RdfXmlError {
    source: std::io::Error,
}

impl RdfXmlError {
    /// Wraps an I/O failure of the underlying writer.
    pub fn from_io(source: std::io::Error) -> RdfXmlError {
        RdfXmlError { source }
    }

    /// The wrapped I/O failure.
    pub fn into_io(self) -> std::io::Error {
        self.source
    }
}

} // verus!
