//! The errors of the mapping engine.
use vstd::prelude::*;

verus! {

/// Why a mapping between a value, an XML tree and XML text failed.
#[derive(Debug, PartialEq, Eq)]
pub enum MappingError {
    /// The text is not well-formed XML; the message gives the position.
    Parse(String),
    /// The attribute entry under this key holds an array or an object.
    Encoding(String),
    /// The tree could not be written out as text.
    Io(String),
    /// A field that the record needs is absent; the message names it.
    MissingField(String),
    /// A field holds a value of the wrong shape; the message names it.
    TypeMismatch(String),
}

} // verus!
