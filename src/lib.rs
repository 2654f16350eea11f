//! Structural mapping between a generic tree value and an XML element tree,
//! and the virtual machine definitions written with it.
//!
//! The convention: an object key that begins with `@` names an attribute,
//! the key `#text` names an element's own text, an array under any other key
//! stands for repeated sibling elements, and null stands for an empty
//! element. `encode` and `decode` map between the two trees, `normalize`
//! collapses the objects that hold nothing but text, and `convert` joins them
//! to XML text, which the xmltree crate reads and writes.
use vstd::prelude::*;

pub mod error;
pub mod value;
pub mod xml;
pub mod json;
pub mod encode;
pub mod decode;
pub mod document;
pub mod record;
pub mod types;
pub mod convert;
pub mod install;
pub mod host;
pub mod round_trip;

verus! {

} // verus!
